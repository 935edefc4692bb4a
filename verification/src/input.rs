//! The routing of key presses: in normal editing to edits, movements and
//! mode changes, in a dialog to its input line.

use crate::action::{Effect, InputAction, QuitAnswer};
use crate::keys::{KeyCode, KeyInput};
use crate::mode::EditorMode;
use crate::model::{cursor_in_text, cursor_in_view, dialog_step, normal_step, step};
use crate::state::EditorState;
use vstd::prelude::*;

verus! {

/// The handlers of key presses.
pub struct InputHandler;

impl InputHandler {
    /// Takes a key press, lets the session take its step and says what is
    /// left to do outside. The cursor stays inside the text, and where the
    /// window has a height, a cursor that was visible stays visible.
    pub fn handle(key: KeyInput, state: &mut EditorState) -> (effect: Effect)
        ensures
            (final(state)@, effect@) == step(old(state)@, key),
            cursor_in_text(old(state)@) ==> cursor_in_text(final(state)@),
            old(state)@.height >= 1 && cursor_in_view(old(state)@) ==> cursor_in_view(
                final(state)@,
            ),
    {
        if state.is_quit_pending() {
            let answer = if key.control && key.code == KeyCode::Char('q') {
                QuitAnswer::Quit
            } else if key.control && key.code == KeyCode::Char('s') {
                QuitAnswer::SaveFirst
            } else {
                QuitAnswer::Cancel
            };
            state.answer_quit(answer)
        } else if *state.mode() == EditorMode::Normal {
            handle_normal_mode(key, state)
        } else if *state.mode() == EditorMode::CommandPalette {
            handle_command_palette(key, state)
        } else {
            handle_dialog_mode(key, state)
        }
    }
}

/// Takes a key press as normal editing does.
pub fn handle_normal_mode(key: KeyInput, state: &mut EditorState) -> (effect: Effect)
    ensures
        (final(state)@, effect@) == normal_step(old(state)@, key),
        cursor_in_text(old(state)@) ==> cursor_in_text(final(state)@),
        old(state)@.height >= 1 && cursor_in_view(old(state)@) ==> cursor_in_view(final(state)@),
{
    if key.control && key.code == KeyCode::Char('q') {
        return Effect::Done(state.request_quit());
    }
    if key.control && key.code == KeyCode::Char('s') {
        return state.save();
    }
    if key.control && key.code == KeyCode::Char('p') {
        state.open_command_palette();
        return Effect::Done(InputAction::Continue);
    }
    if key.control && key.code == KeyCode::Char('o') {
        state.open_file_dialog();
        return Effect::Done(InputAction::Continue);
    }
    match key.code {
        KeyCode::Char(ch) => state.insert_char(ch),
        KeyCode::Enter => state.insert_newline(),
        KeyCode::Tab => state.insert_tab(),
        KeyCode::Backspace => state.backspace(),
        KeyCode::Delete => state.delete(),
        KeyCode::Left => state.move_cursor_left(),
        KeyCode::Right => state.move_cursor_right(),
        KeyCode::Up => state.move_cursor_up(),
        KeyCode::Down => state.move_cursor_down(),
        KeyCode::Home => state.move_cursor_line_start(),
        KeyCode::End => state.move_cursor_line_end(),
        KeyCode::PageUp => state.page_up(),
        KeyCode::PageDown => state.page_down(),
        KeyCode::Esc | KeyCode::Other => {},
    }
    Effect::Done(InputAction::Continue)
}

/// Takes a key press as the command palette does.
pub fn handle_command_palette(key: KeyInput, state: &mut EditorState) -> (effect: Effect)
    ensures
        (final(state)@, effect@) == dialog_step(old(state)@, key),
        cursor_in_text(old(state)@) ==> cursor_in_text(final(state)@),
        old(state)@.height >= 1 && cursor_in_view(old(state)@) ==> cursor_in_view(final(state)@),
{
    handle_dialog_mode(key, state)
}

/// Takes a key press as a dialog does.
pub fn handle_dialog_mode(key: KeyInput, state: &mut EditorState) -> (effect: Effect)
    ensures
        (final(state)@, effect@) == dialog_step(old(state)@, key),
        cursor_in_text(old(state)@) ==> cursor_in_text(final(state)@),
        old(state)@.height >= 1 && cursor_in_view(old(state)@) ==> cursor_in_view(final(state)@),
{
    match key.code {
        KeyCode::Char(ch) => {
            state.handle_command_input(ch);
            Effect::Done(InputAction::Continue)
        },
        KeyCode::Backspace => {
            state.backspace_command_input();
            Effect::Done(InputAction::Continue)
        },
        KeyCode::Enter => state.execute_command_input(),
        KeyCode::Esc => {
            state.cancel_dialog();
            Effect::Done(InputAction::Continue)
        },
        _ => Effect::Done(InputAction::Continue),
    }
}

/// Takes a key press in whatever mode the session is in.
pub fn handle_input(key: KeyInput, state: &mut EditorState) -> (effect: Effect)
    ensures
        (final(state)@, effect@) == step(old(state)@, key),
        cursor_in_text(old(state)@) ==> cursor_in_text(final(state)@),
        old(state)@.height >= 1 && cursor_in_view(old(state)@) ==> cursor_in_view(final(state)@),
{
    InputHandler::handle(key, state)
}

} // verus!
