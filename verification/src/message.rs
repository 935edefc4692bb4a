//! The status message: at most one line of text for the user.

use vstd::prelude::*;

verus! {

/// The message on display, if any. Its view is the text of the message.
pub struct MessageState {
    message: Option<String>,
}

impl View for MessageState {
    type V = Option<Seq<char>>;

    closed spec fn view(&self) -> Option<Seq<char>> {
        match self.message {
            Some(text) => Some(text@),
            None => None,
        }
    }
}

impl MessageState {
    /// The message `initial_message`.
    pub fn new(initial_message: &str) -> (state: Self)
        ensures
            state@ == Some(initial_message@),
    {
        Self { message: Some(initial_message.to_owned()) }
    }

    /// No message.
    pub fn empty() -> (state: Self)
        ensures
            state@ is None,
    {
        Self { message: None }
    }

    /// The text of the message, where there is one.
    pub fn get(&self) -> (text: Option<&str>)
        ensures
            text is Some <==> self@ is Some,
            text is Some ==> text->0@ == self@->0,
    {
        match &self.message {
            Some(text) => Some(text.as_str()),
            None => None,
        }
    }

    /// Shows `msg` in place of what was shown.
    pub fn set(&mut self, msg: String)
        ensures
            final(self)@ == Some(msg@),
    {
        self.message = Some(msg);
    }

    /// Shows nothing.
    pub fn clear(&mut self)
        ensures
            final(self)@ is None,
    {
        self.message = None;
    }

    /// Whether a message is shown.
    pub fn has_message(&self) -> (shown: bool)
        ensures
            shown == (self@ is Some),
    {
        self.message.is_some()
    }
}

} // verus!
