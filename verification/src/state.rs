//! The session: one document with its cursor and viewport, the mode of
//! interaction with its input line and command list, and the status message.
//!
//! The operations never take the cursor on trust: they bring it back into the
//! text before they use it, and leave it inside the text.

use crate::action::{Effect, InputAction, QuitAnswer, SaveOrigin};
use crate::buffer::RopeBuffer;
use crate::commands::{is_registry, Command, CommandFilter, CommandRegistry};
use crate::cursor::{
    moved_down, moved_left, moved_right, moved_up, paged_down, paged_up, CursorMovement,
    CursorPosition,
};
use crate::document::{placeholder_name, Document, DocumentView};
use crate::editing::{lemma_backspace_shortens, DeleteFeature, InsertFeature};
use crate::file_io::{failure_of, FileIO};
use crate::message::MessageState;
use crate::mode::EditorMode;
use crate::model::{
    after_move, backspaced, command_run, confirmed, cursor_in_text, cursor_in_view, deleted,
    dialog_cancelled, dialog_closed, entry_cursor, following, in_normal_mode, is_shown_name,
    line_broken, open_dialog_opened, palette_opened, quit_answered, quit_asked, read_outcome,
    read_reported, relisted, replaced, save_as_opened, save_asked, shortened, tabbed, typed,
    welcome_message, write_reported, StateView,
};
use crate::strings::{str_eq, string_pop, string_push};
use crate::text::line_len;
use crate::viewport::Viewport;
use vstd::prelude::*;

verus! {

/// The session of one document.
pub struct EditorState {
    document: Document,
    cursor: CursorPosition,
    viewport: Viewport,
    mode: EditorMode,
    message: MessageState,
    command_input: String,
    command_registry: CommandRegistry,
    filtered_commands: Vec<Command>,
    pending_quit: bool,
}

/// The session seen as what it is to the user: the editor.
pub type Editor = EditorState;

impl View for EditorState {
    type V = StateView;

    closed spec fn view(&self) -> StateView {
        StateView {
            document: self.document@,
            cursor: self.cursor,
            scroll_offset: self.viewport.scroll_offset(),
            height: self.viewport.height(),
            mode: self.mode,
            message: self.message@,
            command_input: self.command_input@,
            filtered_commands: self.filtered_commands@,
            registry: self.command_registry@,
            pending_quit: self.pending_quit,
        }
    }
}

impl EditorState {
    /// A session of `document`: the cursor at the start of the text, a
    /// window of twenty lines at the top, normal editing, and the welcome
    /// message.
    pub fn new(document: Document) -> (state: Self)
        ensures
            state@.document == document@,
            state@.cursor == (CursorPosition { line: 0, column: 0 }),
            state@.scroll_offset == 0,
            state@.height == 20,
            state@.mode == EditorMode::Normal,
            state@.message == Some(welcome_message()),
            state@.command_input == Seq::<char>::empty(),
            state@.filtered_commands == Seq::<Command>::empty(),
            is_registry(state@.registry),
            !state@.pending_quit,
            cursor_in_text(state@),
            cursor_in_view(state@),
    {
        Self {
            document,
            cursor: CursorPosition::new(),
            viewport: Viewport::new(20),
            mode: EditorMode::Normal,
            message: MessageState::new("Ctrl+P: Command Palette | Ctrl+S: Save | Ctrl+Q: Quit"),
            command_input: String::new(),
            command_registry: CommandRegistry::new(),
            filtered_commands: Vec::new(),
            pending_quit: false,
        }
    }

    /// The document.
    pub fn document(&self) -> (document: &Document)
        ensures
            document@ == self@.document,
    {
        &self.document
    }

    /// The text of the document.
    pub fn buffer(&self) -> (buffer: &RopeBuffer)
        ensures
            buffer@ == self@.document.text,
    {
        self.document.buffer()
    }

    /// The cursor.
    pub fn cursor(&self) -> (cursor: &CursorPosition)
        ensures
            *cursor == self@.cursor,
    {
        &self.cursor
    }

    /// The viewport.
    pub fn viewport(&self) -> (viewport: &Viewport)
        ensures
            viewport.scroll_offset() == self@.scroll_offset,
            viewport.height() == self@.height,
    {
        &self.viewport
    }

    /// The mode.
    pub fn mode(&self) -> (mode: &EditorMode)
        ensures
            *mode == self@.mode,
    {
        &self.mode
    }

    /// Sets the mode and nothing else.
    pub fn set_mode(&mut self, mode: EditorMode)
        ensures
            final(self)@ == (StateView { mode, ..old(self)@ }),
    {
        self.mode = mode;
    }

    /// The status message.
    pub fn message(&self) -> (message: &MessageState)
        ensures
            message@ == self@.message,
    {
        &self.message
    }

    /// The input line of the dialog.
    pub fn command_input(&self) -> (input: &str)
        ensures
            input@ == self@.command_input,
    {
        self.command_input.as_str()
    }

    /// Sets the input line and nothing else.
    pub fn set_command_input(&mut self, input: String)
        ensures
            final(self)@ == (StateView { command_input: input@, ..old(self)@ }),
    {
        self.command_input = input;
    }

    /// Appends `ch` to the input line and changes nothing else.
    pub fn push_command_input(&mut self, ch: char)
        ensures
            final(self)@ == (StateView {
                command_input: old(self)@.command_input.push(ch),
                ..old(self)@
            }),
    {
        string_push(&mut self.command_input, ch);
    }

    /// Takes the last character off the input line, where there is one, and
    /// changes nothing else.
    pub fn pop_command_input(&mut self)
        ensures
            final(self)@ == (StateView {
                command_input: shortened(old(self)@.command_input),
                ..old(self)@
            }),
    {
        let _ = string_pop(&mut self.command_input);
    }

    /// Empties the input line and changes nothing else.
    pub fn clear_command_input(&mut self)
        ensures
            final(self)@ == (StateView { command_input: Seq::<char>::empty(), ..old(self)@ }),
    {
        self.command_input = String::new();
    }

    /// The commands that the palette lists.
    pub fn filtered_commands(&self) -> (commands: &[Command])
        ensures
            commands@ == self@.filtered_commands,
    {
        self.filtered_commands.as_slice()
    }

    /// Sets the commands that the palette lists and nothing else.
    pub fn set_filtered_commands(&mut self, commands: Vec<Command>)
        ensures
            final(self)@ == (StateView { filtered_commands: commands@, ..old(self)@ }),
    {
        self.filtered_commands = commands;
    }

    /// The registry of all commands.
    pub fn command_registry(&self) -> (registry: &CommandRegistry)
        ensures
            registry@ == self@.registry,
    {
        &self.command_registry
    }

    /// The document, to be changed at will.
    pub fn document_mut(&mut self) -> (document: &mut Document)
        ensures
            document@ == old(self)@.document,
            final(self)@ == (StateView { document: final(document)@, ..old(self)@ }),
    {
        &mut self.document
    }

    /// The cursor, to be moved at will.
    pub fn cursor_mut(&mut self) -> (cursor: &mut CursorPosition)
        ensures
            *cursor == old(self)@.cursor,
            final(self)@ == (StateView { cursor: *final(cursor), ..old(self)@ }),
    {
        &mut self.cursor
    }

    /// The viewport, to be changed at will.
    pub fn viewport_mut(&mut self) -> (viewport: &mut Viewport)
        ensures
            viewport.scroll_offset() == old(self)@.scroll_offset,
            viewport.height() == old(self)@.height,
            final(self)@ == (StateView {
                scroll_offset: final(viewport).scroll_offset(),
                height: final(viewport).height(),
                ..old(self)@
            }),
    {
        &mut self.viewport
    }

    /// The status message, to be changed at will.
    pub fn message_mut(&mut self) -> (message: &mut MessageState)
        ensures
            message@ == old(self)@.message,
            final(self)@ == (StateView { message: final(message)@, ..old(self)@ }),
    {
        &mut self.message
    }

    /// The text and the cursor, to be edited together: the document counts
    /// as changed from here on.
    pub fn buffer_and_cursor_mut(&mut self) -> (parts: (&mut RopeBuffer, &mut CursorPosition))
        ensures
            parts.0@ == old(self)@.document.text,
            *parts.1 == old(self)@.cursor,
            final(self)@ == (StateView {
                document: DocumentView {
                    text: final(parts.0)@,
                    modified: true,
                    ..old(self)@.document
                },
                cursor: *final(parts.1),
                ..old(self)@
            }),
    {
        (self.document.buffer_mut(), &mut self.cursor)
    }

    /// The text, the cursor and the viewport, to be changed together: the
    /// document counts as changed from here on.
    pub fn buffer_cursor_and_viewport_mut(&mut self) -> (parts: (
        &mut RopeBuffer,
        &mut CursorPosition,
        &mut Viewport,
    ))
        ensures
            parts.0@ == old(self)@.document.text,
            *parts.1 == old(self)@.cursor,
            parts.2.scroll_offset() == old(self)@.scroll_offset,
            parts.2.height() == old(self)@.height,
            final(self)@ == (StateView {
                document: DocumentView {
                    text: final(parts.0)@,
                    modified: true,
                    ..old(self)@.document
                },
                cursor: *final(parts.1),
                scroll_offset: final(parts.2).scroll_offset(),
                height: final(parts.2).height(),
                ..old(self)@
            }),
    {
        (self.document.buffer_mut(), &mut self.cursor, &mut self.viewport)
    }

    /// The text to read, with the cursor and the viewport to be changed.
    pub fn buffer_cursor_viewport(&mut self) -> (parts: (
        &RopeBuffer,
        &mut CursorPosition,
        &mut Viewport,
    ))
        ensures
            parts.0@ == old(self)@.document.text,
            *parts.1 == old(self)@.cursor,
            parts.2.scroll_offset() == old(self)@.scroll_offset,
            parts.2.height() == old(self)@.height,
            final(self)@ == (StateView {
                cursor: *final(parts.1),
                scroll_offset: final(parts.2).scroll_offset(),
                height: final(parts.2).height(),
                ..old(self)@
            }),
    {
        (self.document.buffer(), &mut self.cursor, &mut self.viewport)
    }

    /// The text to read, with the cursor to be moved.
    pub fn buffer_cursor(&mut self) -> (parts: (&RopeBuffer, &mut CursorPosition))
        ensures
            parts.0@ == old(self)@.document.text,
            *parts.1 == old(self)@.cursor,
            final(self)@ == (StateView { cursor: *final(parts.1), ..old(self)@ }),
    {
        (self.document.buffer(), &mut self.cursor)
    }

    /// The cursor and the viewport, to be changed together.
    pub fn cursor_and_viewport_mut(&mut self) -> (parts: (&mut CursorPosition, &mut Viewport))
        ensures
            *parts.0 == old(self)@.cursor,
            parts.1.scroll_offset() == old(self)@.scroll_offset,
            parts.1.height() == old(self)@.height,
            final(self)@ == (StateView {
                cursor: *final(parts.0),
                scroll_offset: final(parts.1).scroll_offset(),
                height: final(parts.1).height(),
                ..old(self)@
            }),
    {
        (&mut self.cursor, &mut self.viewport)
    }

    /// The index of the first visible line.
    pub fn scroll_offset(&self) -> (offset: usize)
        ensures
            offset == self@.scroll_offset,
    {
        self.viewport.scroll_offset()
    }

    /// The text of the status message, where there is one.
    pub fn get_message(&self) -> (text: Option<&str>)
        ensures
            text is Some <==> self@.message is Some,
            text is Some ==> text->0@ == self@.message->0,
    {
        self.message.get()
    }

    /// Whether a quit with unsaved changes waits for its confirmation.
    pub fn is_quit_pending(&self) -> (pending: bool)
        ensures
            pending == self@.pending_quit,
    {
        self.pending_quit
    }

    /// Puts `document` in place of the document of the session, with the
    /// cursor at the start of its text and the window at its top.
    pub fn replace_document(&mut self, document: Document)
        ensures
            final(self)@ == replaced(old(self)@, document@),
            cursor_in_text(final(self)@),
    {
        self.document = document;
        self.cursor = CursorPosition::new();
        self.viewport = Viewport::new(self.viewport.height());
    }

    /// Brings the cursor back into the text.
    fn enter(&mut self)
        ensures
            final(self)@ == (StateView { cursor: entry_cursor(old(self)@), ..old(self)@ }),
            cursor_in_text(final(self)@),
    {
        CursorMovement::clamp(&mut self.cursor, self.document.buffer());
    }

    /// Lets the viewport follow the cursor.
    fn follow(&mut self)
        requires
            cursor_in_text(old(self)@),
        ensures
            final(self)@ == (StateView {
                scroll_offset: following(old(self)@, old(self)@.cursor.line),
                ..old(self)@
            }),
            final(self)@.height >= 1 ==> cursor_in_view(final(self)@),
    {
        // the number of lines is a `usize`, so the line is not the last one
        // that the machine can count
        let _: usize = self.document.buffer().len_lines();
        self.viewport.adjust_for_cursor(self.cursor.line);
    }

    /// Ends an edit: the cursor is brought into the text, the viewport
    /// follows it and the message goes.
    fn settle(&mut self)
        ensures
            final(self)@ == (StateView {
                cursor: entry_cursor(old(self)@),
                scroll_offset: following(old(self)@, entry_cursor(old(self)@).line),
                message: None,
                ..old(self)@
            }),
            cursor_in_text(final(self)@),
            final(self)@.height >= 1 ==> cursor_in_view(final(self)@),
    {
        self.enter();
        self.follow();
        self.message.clear();
    }

    /// Types `ch` into the text at the cursor. In a dialog nothing happens.
    pub fn insert_char(&mut self, ch: char)
        ensures
            final(self)@ == in_normal_mode(old(self)@, typed(old(self)@, ch)),
            old(self)@.mode == EditorMode::Normal ==> cursor_in_text(final(self)@),
            old(self)@.mode == EditorMode::Normal && old(self)@.height >= 1 ==> cursor_in_view(
                final(self)@,
            ),
    {
        if self.mode != EditorMode::Normal {
            return ;
        }
        let buffer = self.document.buffer_mut();
        InsertFeature::insert_char(buffer, &mut self.cursor, ch);
        assert(self.document@.text.len() != old(self)@.document.text.len());
        self.settle();
    }

    /// Breaks the line at the cursor. In a dialog nothing happens.
    pub fn insert_newline(&mut self)
        ensures
            final(self)@ == in_normal_mode(old(self)@, line_broken(old(self)@)),
            old(self)@.mode == EditorMode::Normal ==> cursor_in_text(final(self)@),
            old(self)@.mode == EditorMode::Normal && old(self)@.height >= 1 ==> cursor_in_view(
                final(self)@,
            ),
    {
        if self.mode != EditorMode::Normal {
            return ;
        }
        let buffer = self.document.buffer_mut();
        InsertFeature::insert_newline(buffer, &mut self.cursor);
        assert(self.document@.text.len() != old(self)@.document.text.len());
        self.settle();
    }

    /// Types a tab, which is four spaces. In a dialog nothing happens.
    pub fn insert_tab(&mut self)
        ensures
            final(self)@ == in_normal_mode(old(self)@, tabbed(old(self)@)),
            old(self)@.mode == EditorMode::Normal ==> cursor_in_text(final(self)@),
            old(self)@.mode == EditorMode::Normal && old(self)@.height >= 1 ==> cursor_in_view(
                final(self)@,
            ),
    {
        if self.mode != EditorMode::Normal {
            return ;
        }
        let buffer = self.document.buffer_mut();
        InsertFeature::insert_tab(buffer, &mut self.cursor);
        assert(self.document@.text.len() != old(self)@.document.text.len());
        self.settle();
    }

    /// Deletes backwards from the cursor. In a dialog nothing happens.
    pub fn backspace(&mut self)
        ensures
            final(self)@ == in_normal_mode(old(self)@, backspaced(old(self)@)),
            old(self)@.mode == EditorMode::Normal ==> cursor_in_text(final(self)@),
            old(self)@.mode == EditorMode::Normal && old(self)@.height >= 1 ==> cursor_in_view(
                final(self)@,
            ),
    {
        if self.mode != EditorMode::Normal {
            return ;
        }
        self.enter();
        if self.cursor.line > 0 || self.cursor.column > 0 {
            proof {
                lemma_backspace_shortens(self.document@.text, self.cursor);
            }
            let buffer = self.document.buffer_mut();
            DeleteFeature::backspace(buffer, &mut self.cursor);
        }
        self.settle();
    }

    /// Deletes forwards from the cursor. In a dialog nothing happens.
    pub fn delete(&mut self)
        ensures
            final(self)@ == in_normal_mode(old(self)@, deleted(old(self)@)),
            old(self)@.mode == EditorMode::Normal ==> cursor_in_text(final(self)@),
            old(self)@.mode == EditorMode::Normal && old(self)@.height >= 1 ==> cursor_in_view(
                final(self)@,
            ),
    {
        if self.mode != EditorMode::Normal {
            return ;
        }
        self.enter();
        let idx: usize = self.cursor.char_idx(self.document.buffer());
        if idx < self.document.buffer().len_chars() {
            let buffer = self.document.buffer_mut();
            DeleteFeature::delete(buffer, &self.cursor);
            assert(self.document@.text.len() != old(self)@.document.text.len());
        }
        self.settle();
    }

    /// Moves the cursor one step left. In a dialog nothing happens.
    pub fn move_cursor_left(&mut self)
        ensures
            final(self)@ == in_normal_mode(
                old(self)@,
                after_move(
                    old(self)@,
                    moved_left(old(self)@.document.text, entry_cursor(old(self)@)),
                ),
            ),
            old(self)@.mode == EditorMode::Normal ==> cursor_in_text(final(self)@),
            old(self)@.mode == EditorMode::Normal && old(self)@.height >= 1 ==> cursor_in_view(
                final(self)@,
            ),
    {
        if self.mode != EditorMode::Normal {
            return ;
        }
        self.enter();
        CursorMovement::move_left(&mut self.cursor, self.document.buffer());
        self.follow();
    }

    /// Moves the cursor one step right. In a dialog nothing happens.
    pub fn move_cursor_right(&mut self)
        ensures
            final(self)@ == in_normal_mode(
                old(self)@,
                after_move(
                    old(self)@,
                    moved_right(old(self)@.document.text, entry_cursor(old(self)@)),
                ),
            ),
            old(self)@.mode == EditorMode::Normal ==> cursor_in_text(final(self)@),
            old(self)@.mode == EditorMode::Normal && old(self)@.height >= 1 ==> cursor_in_view(
                final(self)@,
            ),
    {
        if self.mode != EditorMode::Normal {
            return ;
        }
        self.enter();
        CursorMovement::move_right(&mut self.cursor, self.document.buffer());
        self.follow();
    }

    /// Moves the cursor one line up. In a dialog nothing happens.
    pub fn move_cursor_up(&mut self)
        ensures
            final(self)@ == in_normal_mode(
                old(self)@,
                after_move(
                    old(self)@,
                    moved_up(old(self)@.document.text, entry_cursor(old(self)@)),
                ),
            ),
            old(self)@.mode == EditorMode::Normal ==> cursor_in_text(final(self)@),
            old(self)@.mode == EditorMode::Normal && old(self)@.height >= 1 ==> cursor_in_view(
                final(self)@,
            ),
    {
        if self.mode != EditorMode::Normal {
            return ;
        }
        self.enter();
        CursorMovement::move_up(&mut self.cursor, self.document.buffer());
        self.follow();
    }

    /// Moves the cursor one line down. In a dialog nothing happens.
    pub fn move_cursor_down(&mut self)
        ensures
            final(self)@ == in_normal_mode(
                old(self)@,
                after_move(
                    old(self)@,
                    moved_down(old(self)@.document.text, entry_cursor(old(self)@)),
                ),
            ),
            old(self)@.mode == EditorMode::Normal ==> cursor_in_text(final(self)@),
            old(self)@.mode == EditorMode::Normal && old(self)@.height >= 1 ==> cursor_in_view(
                final(self)@,
            ),
    {
        if self.mode != EditorMode::Normal {
            return ;
        }
        self.enter();
        CursorMovement::move_down(&mut self.cursor, self.document.buffer());
        self.follow();
    }

    /// Moves the cursor to the start of its line. In a dialog nothing
    /// happens.
    pub fn move_cursor_line_start(&mut self)
        ensures
            final(self)@ == in_normal_mode(
                old(self)@,
                after_move(
                    old(self)@,
                    CursorPosition { line: entry_cursor(old(self)@).line, column: 0 },
                ),
            ),
            old(self)@.mode == EditorMode::Normal ==> cursor_in_text(final(self)@),
            old(self)@.mode == EditorMode::Normal && old(self)@.height >= 1 ==> cursor_in_view(
                final(self)@,
            ),
    {
        if self.mode != EditorMode::Normal {
            return ;
        }
        self.enter();
        CursorMovement::move_line_start(&mut self.cursor);
        self.follow();
    }

    /// Moves the cursor to the end of the content of its line. In a dialog
    /// nothing happens.
    pub fn move_cursor_line_end(&mut self)
        ensures
            final(self)@ == in_normal_mode(
                old(self)@,
                after_move(
                    old(self)@,
                    CursorPosition {
                        line: entry_cursor(old(self)@).line,
                        column: line_len(
                            old(self)@.document.text,
                            entry_cursor(old(self)@).line as nat,
                        ) as usize,
                    },
                ),
            ),
            old(self)@.mode == EditorMode::Normal ==> cursor_in_text(final(self)@),
            old(self)@.mode == EditorMode::Normal && old(self)@.height >= 1 ==> cursor_in_view(
                final(self)@,
            ),
    {
        if self.mode != EditorMode::Normal {
            return ;
        }
        self.enter();
        CursorMovement::move_line_end(&mut self.cursor, self.document.buffer());
        self.follow();
    }

    /// Moves the cursor up by a page: one line less than the window holds.
    /// In a dialog nothing happens.
    pub fn page_up(&mut self)
        ensures
            final(self)@ == in_normal_mode(
                old(self)@,
                after_move(
                    old(self)@,
                    paged_up(
                        old(self)@.document.text,
                        entry_cursor(old(self)@),
                        old(self)@.height,
                    ),
                ),
            ),
            old(self)@.mode == EditorMode::Normal ==> cursor_in_text(final(self)@),
            old(self)@.mode == EditorMode::Normal && old(self)@.height >= 1 ==> cursor_in_view(
                final(self)@,
            ),
    {
        if self.mode != EditorMode::Normal {
            return ;
        }
        self.enter();
        let height: usize = self.viewport.height();
        CursorMovement::page_up(&mut self.cursor, self.document.buffer(), height);
        self.follow();
    }

    /// Moves the cursor down by a page: one line less than the window holds.
    /// In a dialog nothing happens.
    pub fn page_down(&mut self)
        ensures
            final(self)@ == in_normal_mode(
                old(self)@,
                after_move(
                    old(self)@,
                    paged_down(
                        old(self)@.document.text,
                        entry_cursor(old(self)@),
                        old(self)@.height,
                    ),
                ),
            ),
            old(self)@.mode == EditorMode::Normal ==> cursor_in_text(final(self)@),
            old(self)@.mode == EditorMode::Normal && old(self)@.height >= 1 ==> cursor_in_view(
                final(self)@,
            ),
    {
        if self.mode != EditorMode::Normal {
            return ;
        }
        self.enter();
        let height: usize = self.viewport.height();
        CursorMovement::page_down(&mut self.cursor, self.document.buffer(), height);
        self.follow();
    }
}

/// `prefix` followed by `rest`.
fn prefixed(prefix: &str, rest: &str) -> (text: String)
    ensures
        text@ == prefix@ + rest@,
{
    prefix.to_owned().concat(rest)
}

impl EditorState {
    /// Opens the command palette.
    pub fn open_command_palette(&mut self)
        ensures
            final(self)@ == palette_opened(old(self)@),
    {
        self.mode = EditorMode::CommandPalette;
        self.command_input = String::new();
        self.filtered_commands = CommandFilter::filter_commands(
            self.command_registry.all_commands(),
            "",
        );
        proof {
            reveal_strlit("");
        }
    }

    /// Opens the dialog that asks for a file to open.
    pub fn open_file_dialog(&mut self)
        ensures
            final(self)@ == open_dialog_opened(old(self)@),
    {
        self.mode = EditorMode::OpenFile;
        self.command_input = String::new();
        self.message.set("Enter file path to open:".to_owned());
    }

    /// Opens the dialog that asks for a path to save under.
    pub fn save_as_dialog(&mut self)
        ensures
            final(self)@ == save_as_opened(old(self)@),
    {
        self.mode = EditorMode::SaveAs;
        self.command_input = String::new();
        self.message.set("Enter file path to save as:".to_owned());
    }

    /// Cancels the dialog.
    pub fn cancel_dialog(&mut self)
        ensures
            final(self)@ == dialog_cancelled(old(self)@),
    {
        self.mode = EditorMode::Normal;
        self.command_input = String::new();
        self.message.clear();
    }

    /// Filters the list of the palette by the input line.
    fn relist(&mut self)
        ensures
            final(self)@ == relisted(old(self)@, old(self)@.command_input),
    {
        if self.mode == EditorMode::CommandPalette {
            self.filtered_commands = CommandFilter::filter_commands(
                self.command_registry.all_commands(),
                self.command_input.as_str(),
            );
        }
    }

    /// Types `ch` into the input line of the dialog; the palette filters its
    /// list anew.
    pub fn handle_command_input(&mut self, ch: char)
        ensures
            final(self)@ == relisted(old(self)@, old(self)@.command_input.push(ch)),
    {
        self.push_command_input(ch);
        self.relist();
    }

    /// Takes the last character off the input line of the dialog; the palette
    /// filters its list anew.
    pub fn backspace_command_input(&mut self)
        ensures
            final(self)@ == relisted(old(self)@, shortened(old(self)@.command_input)),
    {
        self.pop_command_input();
        self.relist();
    }

    /// Clears the status message.
    pub fn clear_message_if_needed(&mut self)
        ensures
            final(self)@ == (StateView { message: None, ..old(self)@ }),
    {
        self.message.clear();
    }

    /// Shows `msg` as the status message.
    pub fn set_message(&mut self, msg: &str)
        ensures
            final(self)@ == (StateView { message: Some(msg@), ..old(self)@ }),
    {
        self.message.set(msg.to_owned());
    }

    /// Whether the document has changes that no file holds.
    pub fn has_unsaved_changes(&self) -> (unsaved: bool)
        ensures
            unsaved == self@.document.modified,
    {
        self.document.is_modified()
    }

    /// Sets the number of visible lines.
    pub fn set_viewport_height(&mut self, height: usize)
        ensures
            final(self)@ == (StateView { height, ..old(self)@ }),
    {
        self.viewport.set_height(height);
    }

    /// Asks for the document to be written as `origin` says: to its file, or,
    /// where it has none, by way of the save-as dialog.
    fn ask_save(&mut self, origin: SaveOrigin) -> (effect: Effect)
        ensures
            (final(self)@, effect@) == save_asked(old(self)@, origin),
    {
        match self.document.file_path() {
            Some(path) => Effect::WriteFile { path: path.clone(), origin },
            None => {
                self.save_as_dialog();
                Effect::Done(InputAction::Continue)
            },
        }
    }

    /// Asks for the document to be saved.
    pub fn save(&mut self) -> (effect: Effect)
        ensures
            (final(self)@, effect@) == save_asked(old(self)@, SaveOrigin::Shortcut),
    {
        self.ask_save(SaveOrigin::Shortcut)
    }

    /// Asks for the session to end.
    pub fn request_quit(&mut self) -> (action: InputAction)
        ensures
            (final(self)@, action) == quit_asked(old(self)@),
    {
        if self.document.is_modified() {
            let warning =
                "Unsaved changes! Press Ctrl+Q again to quit without saving, or Ctrl+S to save";
            self.message.set(warning.to_owned());
            self.pending_quit = true;
            InputAction::Continue
        } else {
            InputAction::Quit
        }
    }

    /// Answers the warning that a quit would lose unsaved changes.
    pub fn answer_quit(&mut self, answer: QuitAnswer) -> (effect: Effect)
        ensures
            (final(self)@, effect@) == quit_answered(old(self)@, answer),
    {
        self.pending_quit = false;
        match answer {
            QuitAnswer::Quit => Effect::Done(InputAction::Quit),
            QuitAnswer::SaveFirst => match self.document.file_path() {
                Some(path) => Effect::WriteFile {
                    path: path.clone(),
                    origin: SaveOrigin::QuitConfirm,
                },
                None => {
                    self.message.set("Save failed: No file path set".to_owned());
                    Effect::Done(InputAction::Continue)
                },
            },
            QuitAnswer::Cancel => {
                self.message.set("Quit canceled".to_owned());
                Effect::Done(InputAction::Continue)
            },
        }
    }

    /// Executes the command with identifier `command_id`; an identifier
    /// that no command has does nothing.
    pub fn execute_command(&mut self, command_id: &str) -> (effect: Effect)
        ensures
            (final(self)@, effect@) == command_run(old(self)@, command_id@),
    {
        if str_eq(command_id, "open_file") {
            self.open_file_dialog();
            Effect::Done(InputAction::Continue)
        } else if str_eq(command_id, "save") {
            self.ask_save(SaveOrigin::Palette)
        } else if str_eq(command_id, "save_as") {
            self.save_as_dialog();
            Effect::Done(InputAction::Continue)
        } else if str_eq(command_id, "new_file") {
            self.replace_document(Document::new());
            self.message.set("New file created".to_owned());
            Effect::Done(InputAction::Continue)
        } else if str_eq(command_id, "close_file") {
            self.replace_document(Document::new());
            Effect::Done(InputAction::Continue)
        } else {
            Effect::Done(InputAction::Continue)
        }
    }

    /// Closes the dialog and empties its input line.
    fn close_dialog(&mut self)
        ensures
            final(self)@ == dialog_closed(old(self)@),
    {
        self.mode = EditorMode::Normal;
        self.command_input = String::new();
    }

    /// Confirms the dialog.
    pub fn execute_command_input(&mut self) -> (effect: Effect)
        ensures
            (final(self)@, effect@) == confirmed(old(self)@),
    {
        match self.mode {
            EditorMode::Normal => Effect::Done(InputAction::Continue),
            EditorMode::OpenFile => {
                let path = self.command_input.clone();
                self.close_dialog();
                if path.as_str().is_empty() {
                    Effect::Done(InputAction::Continue)
                } else {
                    Effect::ReadFile { path }
                }
            },
            EditorMode::SaveAs => {
                let path = self.command_input.clone();
                self.close_dialog();
                if path.as_str().is_empty() {
                    Effect::Done(InputAction::Continue)
                } else {
                    Effect::WriteFile { path, origin: SaveOrigin::SaveAsDialog }
                }
            },
            EditorMode::CommandPalette => {
                if self.filtered_commands.len() > 0 {
                    let id = self.filtered_commands[0].id.clone();
                    self.close_dialog();
                    self.execute_command(id.as_str())
                } else {
                    self.close_dialog();
                    Effect::Done(InputAction::Continue)
                }
            },
        }
    }

    /// Takes the report of a write of the document to `path`, asked for as
    /// `origin` says.
    pub fn file_written(
        &mut self,
        path: &str,
        origin: SaveOrigin,
        outcome: Result<(), String>,
    ) -> (action: InputAction)
        ensures
            exists|name: Seq<char>|
                is_shown_name(old(self)@.document.path, name) && (final(self)@, action)
                    == #[trigger] write_reported(
                    old(self)@,
                    path@,
                    origin,
                    failure_of(outcome),
                    name,
                ),
            old(self)@.document.path is None ==> (final(self)@, action) == write_reported(
                old(self)@,
                path@,
                origin,
                failure_of(outcome),
                placeholder_name(),
            ),
    {
        let name = self.document.file_name();
        let action = self.report_write(path, origin, outcome, name.as_str());
        assert(is_shown_name(old(self)@.document.path, name@));
        action
    }

    /// Takes the report of a write of the document to `path`, asked for as
    /// `origin` says, where the document is shown as `name`.
    pub fn report_write(
        &mut self,
        path: &str,
        origin: SaveOrigin,
        outcome: Result<(), String>,
        name: &str,
    ) -> (action: InputAction)
        ensures
            (final(self)@, action) == write_reported(
                old(self)@,
                path@,
                origin,
                failure_of(outcome),
                name@,
            ),
    {
        let result = if origin == SaveOrigin::SaveAsDialog {
            FileIO::save_document_as(&mut self.document, path, outcome)
        } else {
            FileIO::save_document(&mut self.document, outcome)
        };
        match result {
            Ok(_) => match origin {
                SaveOrigin::SaveAsDialog => {
                    self.message.set(prefixed("Saved as: ", path));
                    InputAction::Continue
                },
                SaveOrigin::Shortcut => {
                    self.message.set(prefixed("Saved: ", name));
                    InputAction::Save
                },
                SaveOrigin::Palette => {
                    self.message.set(prefixed("Saved: ", name));
                    InputAction::Continue
                },
                SaveOrigin::QuitConfirm => InputAction::Quit,
            },
            Err(error) => {
                if origin == SaveOrigin::SaveAsDialog {
                    self.message.set(prefixed("Error saving file: ", error.as_str()));
                } else {
                    self.message.set(prefixed("Save failed: ", error.as_str()));
                }
                InputAction::Continue
            },
        }
    }

    /// Takes the report of a read of the file at `path`: its content, or
    /// the error.
    pub fn file_read(&mut self, path: &str, outcome: Result<String, String>) -> (action:
        InputAction)
        ensures
            final(self)@ == read_reported(old(self)@, path@, read_outcome(outcome)),
            action == InputAction::Continue,
            cursor_in_text(old(self)@) ==> cursor_in_text(final(self)@),
    {
        match outcome {
            Ok(content) => {
                self.replace_document(FileIO::load_from_file(path, content.as_str()));
                self.message.set(prefixed("Opened: ", path));
            },
            Err(error) => {
                self.message.set(prefixed("Error opening file: ", error.as_str()));
            },
        }
        InputAction::Continue
    }
}

} // verus!
