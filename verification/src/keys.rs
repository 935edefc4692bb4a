//! Key presses as the engine takes them.

use vstd::prelude::*;

verus! {

/// The key that was pressed.
#[derive(Debug, Clone, Copy, PartialEq, Eq, Structural)]
pub enum KeyCode {
    Char(char),
    Enter,
    Backspace,
    Delete,
    Left,
    Right,
    Up,
    Down,
    Home,
    End,
    PageUp,
    PageDown,
    Tab,
    Esc,
    /// Any key that the engine gives no meaning.
    Other,
}

/// A key press: the key, and whether the control key was held.
#[derive(Debug, Clone, Copy, PartialEq, Eq, Structural)]
pub struct KeyInput {
    pub code: KeyCode,
    pub control: bool,
}

impl KeyInput {
    /// The key `code` alone.
    pub fn plain(code: KeyCode) -> (key: Self)
        ensures
            key == (KeyInput { code, control: false }),
    {
        Self { code, control: false }
    }

    /// The character `ch` with the control key held.
    pub fn ctrl(ch: char) -> (key: Self)
        ensures
            key == (KeyInput { code: KeyCode::Char(ch), control: true }),
    {
        Self { code: KeyCode::Char(ch), control: true }
    }
}

} // verus!
