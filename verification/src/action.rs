//! What a key press asks of the session loop: nothing, to end, or a file
//! operation whose outcome the loop hands back.

use vstd::prelude::*;

verus! {

/// How the session goes on after an event.
#[derive(Debug, Clone, Copy, PartialEq, Eq, Structural)]
pub enum InputAction {
    /// The session ends.
    Quit,
    /// The document was written to its file.
    Save,
    /// The session reads the next event.
    Continue,
}

/// The action under its short name.
pub type Action = InputAction;

/// Where a write of the document was asked for.
#[derive(Debug, Clone, Copy, PartialEq, Eq, Structural)]
pub enum SaveOrigin {
    /// The save key in normal editing.
    Shortcut,
    /// The save command of the palette.
    Palette,
    /// The save key while a quit with unsaved changes was pending.
    QuitConfirm,
    /// The confirmed save-as dialog: the path is new to the document.
    SaveAsDialog,
}

/// The answer to the warning that a quit would lose unsaved changes.
#[derive(Debug, Clone, Copy, PartialEq, Eq, Structural)]
pub enum QuitAnswer {
    /// Quit and lose the changes.
    Quit,
    /// Write the document, then quit.
    SaveFirst,
    /// Do not quit.
    Cancel,
}

/// What is left to do outside the engine after a key press.
#[derive(Debug)]
pub enum Effect {
    /// Nothing: the event is dealt with.
    Done(InputAction),
    /// The text of the document is to be written to `path`, and the outcome
    /// reported with the same path and origin.
    WriteFile { path: String, origin: SaveOrigin },
    /// The file at `path` is to be read, and the outcome reported with the
    /// same path.
    ReadFile { path: String },
}

/// An effect with its paths as sequences of characters.
pub ghost enum EffectView {
    Done(InputAction),
    WriteFile { path: Seq<char>, origin: SaveOrigin },
    ReadFile { path: Seq<char> },
}

impl View for Effect {
    type V = EffectView;

    open spec fn view(&self) -> EffectView {
        match self {
            Effect::Done(action) => EffectView::Done(*action),
            Effect::WriteFile { path, origin } => EffectView::WriteFile {
                path: path@,
                origin: *origin,
            },
            Effect::ReadFile { path } => EffectView::ReadFile { path: path@ },
        }
    }
}

} // verus!
