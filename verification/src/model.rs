//! The model of a session and the steps that it takes: what every
//! operation of the session and every key press does, stated over plain
//! values, and what holds of every step.

use crate::action::{EffectView, InputAction, QuitAnswer, SaveOrigin};
use crate::commands::{filtered_commands, lemma_filter_empty_query, Command};
use crate::cursor::{
    clamped, cursor_offset, cursor_valid, lemma_clamped_valid, lemma_move_keeps_valid,
    moved_down, moved_left, moved_right, moved_up, paged_down, paged_up, CursorPosition,
};
use crate::document::{placeholder_name, DocumentView};
use crate::editing::{backspaced_cursor, backspaced_text, deleted_text};
use crate::file_io::{loaded_document, save_as_result, save_result};
use crate::keys::{KeyCode, KeyInput};
use crate::mode::EditorMode;
use crate::strings::contains_subseq;
use crate::text::{line_len, with_inserted};
use crate::viewport::adjusted_offset;
use vstd::prelude::*;

verus! {

/// The model of a session.
pub ghost struct StateView {
    pub document: DocumentView,
    pub cursor: CursorPosition,
    pub scroll_offset: usize,
    pub height: usize,
    pub mode: EditorMode,
    pub message: Option<Seq<char>>,
    pub command_input: Seq<char>,
    pub filtered_commands: Seq<Command>,
    pub registry: Seq<Command>,
    pub pending_quit: bool,
}

/// The message that a new session shows.
pub open spec fn welcome_message() -> Seq<char> {
    "Ctrl+P: Command Palette | Ctrl+S: Save | Ctrl+Q: Quit"@
}

/// The cursor is inside the text.
pub open spec fn cursor_in_text(v: StateView) -> bool {
    cursor_valid(v.document.text, v.cursor)
}

/// The line of the cursor is one of the visible lines.
pub open spec fn cursor_in_view(v: StateView) -> bool {
    v.scroll_offset <= v.cursor.line < v.scroll_offset + v.height
}

/// The cursor of the session, brought back into the text.
pub open spec fn entry_cursor(v: StateView) -> CursorPosition {
    clamped(v.document.text, v.cursor)
}

/// The scroll offset that shows `line`.
pub open spec fn following(v: StateView, line: usize) -> usize {
    adjusted_offset(v.scroll_offset as int, v.height as int, line as int) as usize
}

/// The session after an edit that left the text `text` and asked for the
/// cursor at `cursor`: the document counts as changed where the text has
/// changed, the cursor is brought into the new text, the viewport follows it
/// and the message is gone.
pub open spec fn after_edit(v: StateView, text: Seq<char>, cursor: CursorPosition) -> StateView {
    let landed = clamped(text, cursor);
    StateView {
        document: DocumentView {
            text,
            modified: v.document.modified || text != v.document.text,
            ..v.document
        },
        cursor: landed,
        scroll_offset: following(v, landed.line),
        message: None,
        ..v
    }
}

/// The session after a movement of the cursor to `cursor`: the viewport
/// follows it.
pub open spec fn after_move(v: StateView, cursor: CursorPosition) -> StateView {
    StateView { cursor, scroll_offset: following(v, cursor.line), ..v }
}

/// The session after the character `ch` was typed into the text.
pub open spec fn typed(v: StateView, ch: char) -> StateView {
    let c = entry_cursor(v);
    after_edit(
        v,
        v.document.text.insert(cursor_offset(v.document.text, c), ch),
        CursorPosition { line: c.line, column: (c.column + 1) as usize },
    )
}

/// The session after the line was broken at the cursor.
pub open spec fn line_broken(v: StateView) -> StateView {
    let c = entry_cursor(v);
    after_edit(
        v,
        v.document.text.insert(cursor_offset(v.document.text, c), '\n'),
        CursorPosition { line: (c.line + 1) as usize, column: 0 },
    )
}

/// The session after a tab was typed: four spaces.
pub open spec fn tabbed(v: StateView) -> StateView {
    let c = entry_cursor(v);
    after_edit(
        v,
        with_inserted(
            v.document.text,
            cursor_offset(v.document.text, c),
            seq![' ', ' ', ' ', ' '],
        ),
        CursorPosition { line: c.line, column: (c.column + 4) as usize },
    )
}

/// The session after a backspace in the text.
pub open spec fn backspaced(v: StateView) -> StateView {
    let c = entry_cursor(v);
    after_edit(v, backspaced_text(v.document.text, c), backspaced_cursor(v.document.text, c))
}

/// The session after a forward delete in the text.
pub open spec fn deleted(v: StateView) -> StateView {
    let c = entry_cursor(v);
    after_edit(v, deleted_text(v.document.text, c), c)
}

/// `then` in normal editing, `v` itself in a dialog: dialogs freeze the text
/// and the cursor.
pub open spec fn in_normal_mode(v: StateView, then: StateView) -> StateView {
    if v.mode == EditorMode::Normal {
        then
    } else {
        v
    }
}

/// An input line without its last character; the empty line stays empty.
pub open spec fn shortened(input: Seq<char>) -> Seq<char> {
    if input.len() > 0 {
        input.drop_last()
    } else {
        input
    }
}

/// The session with `document` in place of its document: the cursor at the
/// start of the text, the window at the top.
pub open spec fn replaced(v: StateView, document: DocumentView) -> StateView {
    StateView {
        document,
        cursor: CursorPosition { line: 0, column: 0 },
        scroll_offset: 0,
        ..v
    }
}

/// The prompt of the dialog that opens a file.
pub open spec fn open_file_prompt() -> Seq<char> {
    "Enter file path to open:"@
}

/// The prompt of the dialog that saves under a new path.
pub open spec fn save_as_prompt() -> Seq<char> {
    "Enter file path to save as:"@
}

/// The warning that arms a quit with unsaved changes.
pub open spec fn unsaved_warning() -> Seq<char> {
    "Unsaved changes! Press Ctrl+Q again to quit without saving, or Ctrl+S to save"@
}

/// The document that "new" and "close" put in place: empty, without a file.
pub open spec fn empty_document() -> DocumentView {
    DocumentView { text: Seq::empty(), path: None, modified: false }
}

/// The session with the command palette open: an empty input line and every
/// command of the registry listed.
pub open spec fn palette_opened(v: StateView) -> StateView {
    StateView {
        mode: EditorMode::CommandPalette,
        command_input: Seq::empty(),
        filtered_commands: v.registry,
        ..v
    }
}

/// The session with the open-file dialog open.
pub open spec fn open_dialog_opened(v: StateView) -> StateView {
    StateView {
        mode: EditorMode::OpenFile,
        command_input: Seq::empty(),
        message: Some(open_file_prompt()),
        ..v
    }
}

/// The session with the save-as dialog open.
pub open spec fn save_as_opened(v: StateView) -> StateView {
    StateView {
        mode: EditorMode::SaveAs,
        command_input: Seq::empty(),
        message: Some(save_as_prompt()),
        ..v
    }
}

/// The session after its dialog was cancelled.
pub open spec fn dialog_cancelled(v: StateView) -> StateView {
    StateView { mode: EditorMode::Normal, command_input: Seq::empty(), message: None, ..v }
}

/// The session after its dialog was closed by a confirmation.
pub open spec fn dialog_closed(v: StateView) -> StateView {
    StateView { mode: EditorMode::Normal, command_input: Seq::empty(), ..v }
}

/// The session with `input` as its input line; in the command palette the
/// list is filtered anew.
pub open spec fn relisted(v: StateView, input: Seq<char>) -> StateView {
    StateView {
        command_input: input,
        filtered_commands: if v.mode == EditorMode::CommandPalette {
            filtered_commands(v.registry, input)
        } else {
            v.filtered_commands
        },
        ..v
    }
}

/// A save was asked for: a document with a file is to be written there, one
/// without is asked for a path first.
pub open spec fn save_asked(v: StateView, origin: SaveOrigin) -> (StateView, EffectView) {
    match v.document.path {
        Some(path) => (v, EffectView::WriteFile { path, origin }),
        None => (save_as_opened(v), EffectView::Done(InputAction::Continue)),
    }
}

/// A quit was asked for: with unsaved changes the session warns and waits for
/// the answer, without it ends.
pub open spec fn quit_asked(v: StateView) -> (StateView, InputAction) {
    if v.document.modified {
        (
            StateView { message: Some(unsaved_warning()), pending_quit: true, ..v },
            InputAction::Continue,
        )
    } else {
        (v, InputAction::Quit)
    }
}

/// The warning was answered: the quit is no longer pending, whatever the
/// answer.
pub open spec fn quit_answered(v: StateView, answer: QuitAnswer) -> (StateView, EffectView) {
    let v0 = StateView { pending_quit: false, ..v };
    match answer {
        QuitAnswer::Quit => (v0, EffectView::Done(InputAction::Quit)),
        QuitAnswer::SaveFirst => match v.document.path {
            Some(path) => (v0, EffectView::WriteFile { path, origin: SaveOrigin::QuitConfirm }),
            None => (
                StateView { message: Some("Save failed: No file path set"@), ..v0 },
                EffectView::Done(InputAction::Continue),
            ),
        },
        QuitAnswer::Cancel => (
            StateView { message: Some("Quit canceled"@), ..v0 },
            EffectView::Done(InputAction::Continue),
        ),
    }
}

/// The command with identifier `id` was executed.
pub open spec fn command_run(v: StateView, id: Seq<char>) -> (StateView, EffectView) {
    if id == "open_file"@ {
        (open_dialog_opened(v), EffectView::Done(InputAction::Continue))
    } else if id == "save"@ {
        save_asked(v, SaveOrigin::Palette)
    } else if id == "save_as"@ {
        (save_as_opened(v), EffectView::Done(InputAction::Continue))
    } else if id == "new_file"@ {
        (
            StateView { message: Some("New file created"@), ..replaced(v, empty_document()) },
            EffectView::Done(InputAction::Continue),
        )
    } else if id == "close_file"@ {
        (replaced(v, empty_document()), EffectView::Done(InputAction::Continue))
    } else {
        (v, EffectView::Done(InputAction::Continue))
    }
}

/// The dialog was confirmed. Every dialog closes and loses its input line.
/// The file dialogs ask for their file operation unless the input line is
/// empty; the palette executes the first command of its list, if any.
pub open spec fn confirmed(v: StateView) -> (StateView, EffectView) {
    match v.mode {
        EditorMode::Normal => (v, EffectView::Done(InputAction::Continue)),
        EditorMode::OpenFile => (
            dialog_closed(v),
            if v.command_input.len() > 0 {
                EffectView::ReadFile { path: v.command_input }
            } else {
                EffectView::Done(InputAction::Continue)
            },
        ),
        EditorMode::SaveAs => (
            dialog_closed(v),
            if v.command_input.len() > 0 {
                EffectView::WriteFile { path: v.command_input, origin: SaveOrigin::SaveAsDialog }
            } else {
                EffectView::Done(InputAction::Continue)
            },
        ),
        EditorMode::CommandPalette => if v.filtered_commands.len() > 0 {
            command_run(dialog_closed(v), v.filtered_commands[0].id@)
        } else {
            (dialog_closed(v), EffectView::Done(InputAction::Continue))
        },
    }
}

/// `name` is a name under which a document with path `path` is shown: the
/// placeholder, or for a document with a file a part of its path.
pub open spec fn is_shown_name(path: Option<Seq<char>>, name: Seq<char>) -> bool {
    name == placeholder_name() || (path is Some && contains_subseq(path->0, name))
}

/// The message that reports a failed write.
pub open spec fn write_failure_message(origin: SaveOrigin, error: Seq<char>) -> Seq<char> {
    if origin == SaveOrigin::SaveAsDialog {
        "Error saving file: "@ + error
    } else {
        "Save failed: "@ + error
    }
}

/// A write of the document was reported, the document shown as `name`. A
/// success makes the document count as written, under the new path where one
/// was asked for; a failure leaves the document as it was and shows the
/// error. Neither ends the session, unless the write was the first half of a
/// quit and succeeded.
pub open spec fn write_reported(
    v: StateView,
    path: Seq<char>,
    origin: SaveOrigin,
    failure: Option<Seq<char>>,
    name: Seq<char>,
) -> (StateView, InputAction) {
    let (document, error) = if origin == SaveOrigin::SaveAsDialog {
        save_as_result(v.document, path, failure)
    } else {
        save_result(v.document, failure)
    };
    match error {
        None => match origin {
            SaveOrigin::SaveAsDialog => (
                StateView { document, message: Some("Saved as: "@ + path), ..v },
                InputAction::Continue,
            ),
            SaveOrigin::Shortcut => (
                StateView { document, message: Some("Saved: "@ + name), ..v },
                InputAction::Save,
            ),
            SaveOrigin::Palette => (
                StateView { document, message: Some("Saved: "@ + name), ..v },
                InputAction::Continue,
            ),
            SaveOrigin::QuitConfirm => (StateView { document, ..v }, InputAction::Quit),
        },
        Some(error) => (
            StateView { document, message: Some(write_failure_message(origin, error)), ..v },
            InputAction::Continue,
        ),
    }
}

/// The outcome of a read as the model has it.
pub open spec fn read_outcome(outcome: Result<String, String>) -> Result<Seq<char>, Seq<char>> {
    match outcome {
        Ok(content) => Ok(content@),
        Err(error) => Err(error@),
    }
}

/// A read of the file at `path` was reported. A success puts the document
/// read in place of the old one; a failure leaves the old one untouched and
/// shows the error.
pub open spec fn read_reported(
    v: StateView,
    path: Seq<char>,
    outcome: Result<Seq<char>, Seq<char>>,
) -> StateView {
    match outcome {
        Ok(content) => StateView {
            message: Some("Opened: "@ + path),
            ..replaced(v, loaded_document(path, content))
        },
        Err(error) => StateView { message: Some("Error opening file: "@ + error), ..v },
    }
}

/// The key press is the character `ch` with the control key held.
pub open spec fn is_chord(key: KeyInput, ch: char) -> bool {
    key.control && key.code == KeyCode::Char(ch)
}

/// What a key does to the text and the cursor in normal editing.
pub open spec fn edit_step(v: StateView, code: KeyCode) -> StateView {
    let text = v.document.text;
    let c = entry_cursor(v);
    match code {
        KeyCode::Char(ch) => typed(v, ch),
        KeyCode::Enter => line_broken(v),
        KeyCode::Tab => tabbed(v),
        KeyCode::Backspace => backspaced(v),
        KeyCode::Delete => deleted(v),
        KeyCode::Left => after_move(v, moved_left(text, c)),
        KeyCode::Right => after_move(v, moved_right(text, c)),
        KeyCode::Up => after_move(v, moved_up(text, c)),
        KeyCode::Down => after_move(v, moved_down(text, c)),
        KeyCode::Home => after_move(v, CursorPosition { line: c.line, column: 0 }),
        KeyCode::End => after_move(
            v,
            CursorPosition { line: c.line, column: line_len(text, c.line as nat) as usize },
        ),
        KeyCode::PageUp => after_move(v, paged_up(text, c, v.height)),
        KeyCode::PageDown => after_move(v, paged_down(text, c, v.height)),
        KeyCode::Esc | KeyCode::Other => v,
    }
}

/// The step of a key press in normal editing: the four control chords ask
/// for a quit, a save, the palette and the open-file dialog; every other key
/// edits or moves.
pub open spec fn normal_step(v: StateView, key: KeyInput) -> (StateView, EffectView) {
    if is_chord(key, 'q') {
        (quit_asked(v).0, EffectView::Done(quit_asked(v).1))
    } else if is_chord(key, 's') {
        save_asked(v, SaveOrigin::Shortcut)
    } else if is_chord(key, 'p') {
        (palette_opened(v), EffectView::Done(InputAction::Continue))
    } else if is_chord(key, 'o') {
        (open_dialog_opened(v), EffectView::Done(InputAction::Continue))
    } else {
        (in_normal_mode(v, edit_step(v, key.code)), EffectView::Done(InputAction::Continue))
    }
}

/// The step of a key press in a dialog: characters and backspace edit the
/// input line, enter confirms, escape cancels, and every other key does
/// nothing. The text and the cursor are out of reach.
pub open spec fn dialog_step(v: StateView, key: KeyInput) -> (StateView, EffectView) {
    match key.code {
        KeyCode::Char(ch) => (
            relisted(v, v.command_input.push(ch)),
            EffectView::Done(InputAction::Continue),
        ),
        KeyCode::Backspace => (
            relisted(v, shortened(v.command_input)),
            EffectView::Done(InputAction::Continue),
        ),
        KeyCode::Enter => confirmed(v),
        KeyCode::Esc => (dialog_cancelled(v), EffectView::Done(InputAction::Continue)),
        _ => (v, EffectView::Done(InputAction::Continue)),
    }
}

/// What a key press answers to the warning of unsaved changes.
pub open spec fn quit_answer(key: KeyInput) -> QuitAnswer {
    if is_chord(key, 'q') {
        QuitAnswer::Quit
    } else if is_chord(key, 's') {
        QuitAnswer::SaveFirst
    } else {
        QuitAnswer::Cancel
    }
}

/// The step of a key press: while a quit is pending the key answers the
/// warning and does nothing else; otherwise it goes where the mode routes
/// it.
pub open spec fn step(v: StateView, key: KeyInput) -> (StateView, EffectView) {
    if v.pending_quit {
        quit_answered(v, quit_answer(key))
    } else if v.mode == EditorMode::Normal {
        normal_step(v, key)
    } else {
        dialog_step(v, key)
    }
}

/// In normal editing no key takes the cursor out of the text.
pub proof fn lemma_edit_step_keeps_cursor_in_text(v: StateView, code: KeyCode)
    requires
        cursor_in_text(v),
        v.document.text.len() <= usize::MAX,
    ensures
        cursor_in_text(edit_step(v, code)),
{
    let text = v.document.text;
    let c = entry_cursor(v);
    lemma_clamped_valid(text, v.cursor);
    lemma_move_keeps_valid(text, c, v.height);
    match code {
        KeyCode::Char(ch) => {
            lemma_clamped_valid(
                typed(v, ch).document.text,
                CursorPosition { line: c.line, column: (c.column + 1) as usize },
            );
        },
        KeyCode::Enter => {
            lemma_clamped_valid(
                line_broken(v).document.text,
                CursorPosition { line: (c.line + 1) as usize, column: 0 },
            );
        },
        KeyCode::Tab => {
            lemma_clamped_valid(
                tabbed(v).document.text,
                CursorPosition { line: c.line, column: (c.column + 4) as usize },
            );
        },
        KeyCode::Backspace => {
            lemma_clamped_valid(backspaced(v).document.text, backspaced_cursor(text, c));
        },
        KeyCode::Delete => {
            lemma_clamped_valid(deleted(v).document.text, c);
        },
        _ => {},
    }
}

/// In a dialog no key takes the cursor out of the text: the text and the
/// cursor stay as they are, or a new document starts at its origin.
pub proof fn lemma_dialog_step_keeps_cursor_in_text(v: StateView, key: KeyInput)
    requires
        cursor_in_text(v),
    ensures
        cursor_in_text(dialog_step(v, key).0),
{
    let after = dialog_step(v, key).0;
    assert(after.document.text == v.document.text && after.cursor == v.cursor || (
    after.document.text == Seq::<char>::empty() && after.cursor == CursorPosition {
        line: 0,
        column: 0,
    }));
}

/// No key press takes the cursor out of the text: a session whose cursor is
/// inside the text is, after any step, a session whose cursor is inside the
/// text.
pub proof fn lemma_step_keeps_cursor_in_text(v: StateView, key: KeyInput)
    requires
        cursor_in_text(v),
        v.document.text.len() <= usize::MAX,
    ensures
        cursor_in_text(step(v, key).0),
{
    if v.pending_quit {
    } else if v.mode != EditorMode::Normal {
        lemma_dialog_step_keeps_cursor_in_text(v, key);
    } else if is_chord(key, 'q') || is_chord(key, 's') || is_chord(key, 'p') || is_chord(
        key,
        'o',
    ) {
    } else {
        lemma_edit_step_keeps_cursor_in_text(v, key.code);
    }
}

/// While a dialog is open the document is frozen: no key but the one that
/// confirms the dialog touches the text, the cursor or the viewport.
pub proof fn lemma_dialog_freezes_document(v: StateView, key: KeyInput)
    requires
        v.mode != EditorMode::Normal,
        !v.pending_quit,
        key.code != KeyCode::Enter,
    ensures
        step(v, key).0.document == v.document,
        step(v, key).0.cursor == v.cursor,
        step(v, key).0.scroll_offset == v.scroll_offset,
        step(v, key).1 == EffectView::Done(InputAction::Continue),
{
}

/// Every change of mode empties the input line.
pub proof fn lemma_mode_change_clears_input(v: StateView, key: KeyInput)
    ensures
        step(v, key).0.mode != v.mode ==> step(v, key).0.command_input == Seq::<char>::empty(),
{
}

/// The command palette lists the commands that pass its input line.
pub open spec fn palette_listed(v: StateView) -> bool {
    v.mode == EditorMode::CommandPalette ==> v.filtered_commands == filtered_commands(
        v.registry,
        v.command_input,
    )
}

/// The list of the palette keeps step with its input line: a session whose
/// palette lists what passes its input line does so after any step.
pub proof fn lemma_step_keeps_palette_listed(v: StateView, key: KeyInput)
    requires
        palette_listed(v),
    ensures
        palette_listed(step(v, key).0),
{
    lemma_filter_empty_query(v.registry, Seq::<char>::empty());
}

/// After an edit the viewport shows the line of the cursor, where the
/// window has a height.
pub proof fn lemma_after_edit_in_view(v: StateView, text: Seq<char>, cursor: CursorPosition)
    requires
        v.height >= 1,
    ensures
        cursor_in_view(after_edit(v, text, cursor)),
{
}

/// After a movement the viewport shows the line of the cursor, where the
/// window has a height.
pub proof fn lemma_after_move_in_view(v: StateView, cursor: CursorPosition)
    requires
        v.height >= 1,
    ensures
        cursor_in_view(after_move(v, cursor)),
{
}

/// In normal editing the viewport follows the cursor through every key.
pub proof fn lemma_edit_step_keeps_cursor_in_view(v: StateView, code: KeyCode)
    requires
        v.height >= 1,
        cursor_in_view(v),
    ensures
        cursor_in_view(edit_step(v, code)),
{
    let text = v.document.text;
    let c = entry_cursor(v);
    match code {
        KeyCode::Char(ch) => {
            lemma_after_edit_in_view(
                v,
                text.insert(cursor_offset(text, c), ch),
                CursorPosition { line: c.line, column: (c.column + 1) as usize },
            );
        },
        KeyCode::Enter => {
            lemma_after_edit_in_view(
                v,
                text.insert(cursor_offset(text, c), '\n'),
                CursorPosition { line: (c.line + 1) as usize, column: 0 },
            );
        },
        KeyCode::Tab => {
            lemma_after_edit_in_view(
                v,
                with_inserted(text, cursor_offset(text, c), seq![' ', ' ', ' ', ' ']),
                CursorPosition { line: c.line, column: (c.column + 4) as usize },
            );
        },
        KeyCode::Backspace => {
            lemma_after_edit_in_view(v, backspaced_text(text, c), backspaced_cursor(text, c));
        },
        KeyCode::Delete => {
            lemma_after_edit_in_view(v, deleted_text(text, c), c);
        },
        KeyCode::Left => {
            lemma_after_move_in_view(v, moved_left(text, c));
        },
        KeyCode::Right => {
            lemma_after_move_in_view(v, moved_right(text, c));
        },
        KeyCode::Up => {
            lemma_after_move_in_view(v, moved_up(text, c));
        },
        KeyCode::Down => {
            lemma_after_move_in_view(v, moved_down(text, c));
        },
        KeyCode::Home => {
            lemma_after_move_in_view(v, CursorPosition { line: c.line, column: 0 });
        },
        KeyCode::End => {
            lemma_after_move_in_view(
                v,
                CursorPosition { line: c.line, column: line_len(text, c.line as nat) as usize },
            );
        },
        KeyCode::PageUp => {
            lemma_after_move_in_view(v, paged_up(text, c, v.height));
        },
        KeyCode::PageDown => {
            lemma_after_move_in_view(v, paged_down(text, c, v.height));
        },
        KeyCode::Esc | KeyCode::Other => {},
    }
}

/// In a dialog the viewport and the cursor stay as they are, or a new
/// document is shown from its top.
pub proof fn lemma_dialog_step_keeps_cursor_in_view(v: StateView, key: KeyInput)
    requires
        v.height >= 1,
        cursor_in_view(v),
    ensures
        cursor_in_view(dialog_step(v, key).0),
{
    let after = dialog_step(v, key).0;
    assert(after.height == v.height);
    assert(after.cursor == v.cursor && after.scroll_offset == v.scroll_offset || (after.cursor
        == CursorPosition { line: 0, column: 0 } && after.scroll_offset == 0));
}

/// The viewport follows the cursor: in a window that has a height, a cursor
/// that was visible is visible after any step.
pub proof fn lemma_step_keeps_cursor_in_view(v: StateView, key: KeyInput)
    requires
        v.height >= 1,
        cursor_in_view(v),
    ensures
        cursor_in_view(step(v, key).0),
{
    if v.pending_quit {
    } else if v.mode != EditorMode::Normal {
        lemma_dialog_step_keeps_cursor_in_view(v, key);
    } else if is_chord(key, 'q') || is_chord(key, 's') || is_chord(key, 'p') || is_chord(
        key,
        'o',
    ) {
    } else {
        lemma_edit_step_keeps_cursor_in_view(v, key.code);
    }
}

} // verus!
