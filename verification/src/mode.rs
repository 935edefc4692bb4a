//! The modes of interaction: normal editing and the three dialogs.

use vstd::prelude::*;

verus! {

/// What the keyboard is routed to.
#[derive(Debug, Clone, Copy, PartialEq, Eq, Structural)]
pub enum EditorMode {
    Normal,
    CommandPalette,
    OpenFile,
    SaveAs,
}

/// The title under which a mode shows its dialog; empty for normal editing.
pub open spec fn title_of(mode: EditorMode) -> Seq<char> {
    match mode {
        EditorMode::CommandPalette => "Command Palette"@,
        EditorMode::OpenFile => "Open File"@,
        EditorMode::SaveAs => "Save As"@,
        EditorMode::Normal => ""@,
    }
}

impl EditorMode {
    /// Whether the mode is one of the dialogs.
    pub fn is_dialog(&self) -> (dialog: bool)
        ensures
            dialog == (*self != EditorMode::Normal),
    {
        match self {
            EditorMode::CommandPalette | EditorMode::OpenFile | EditorMode::SaveAs => true,
            EditorMode::Normal => false,
        }
    }

    /// The title of the dialog of this mode.
    pub fn dialog_title(&self) -> (title: &'static str)
        ensures
            title@ == title_of(*self),
    {
        match self {
            EditorMode::CommandPalette => "Command Palette",
            EditorMode::OpenFile => "Open File",
            EditorMode::SaveAs => "Save As",
            EditorMode::Normal => "",
        }
    }
}

} // verus!
