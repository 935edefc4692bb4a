//! Where things go on the screen: the rows of text that are visible, the
//! cell of the cursor, and the place of a dialog. Nothing is drawn here: the
//! renderer is handed rows, cells and rectangles.

use crate::buffer::RopeBuffer;
use crate::commands::Command;
use crate::cursor::{least, CursorPosition};
use crate::line_numbers::{gutter_text, LineNumbers};
use crate::string_ext::StringExt;
use crate::strings::without_line_endings;
use crate::text::{line_count, line_text};
use vstd::prelude::*;

verus! {

/// A rectangle of terminal cells.
#[derive(Debug, Clone, Copy, PartialEq, Eq, Structural)]
pub struct Area {
    pub x: u16,
    pub y: u16,
    pub width: u16,
    pub height: u16,
}

/// The widest that a dialog gets.
pub const POPUP_MAX_WIDTH: u16 = 60;

/// The height of the command palette, frame included.
pub const PALETTE_HEIGHT: u16 = 12;

/// The height of a dialog with one input line, frame included.
pub const INPUT_DIALOG_HEIGHT: u16 = 3;

/// The number of commands that the palette shows.
pub const PALETTE_ROWS: usize = 8;

/// The number of columns that the gutter takes.
pub const GUTTER_WIDTH: u16 = 5;

/// The rectangle lies inside the range of screen coordinates.
pub open spec fn on_screen(area: Area) -> bool {
    area.x + area.width <= u16::MAX && area.y + area.height <= u16::MAX
}

/// A dialog of `height` rows in the middle of a screen of the given size: as
/// wide as the screen, but no wider than sixty columns.
pub open spec fn centered(screen_width: u16, screen_height: u16, height: u16) -> Area {
    let width = least(screen_width as int, POPUP_MAX_WIDTH as int) as u16;
    Area {
        x: ((screen_width - width) / 2) as u16,
        y: ((screen_height - height) / 2) as u16,
        width,
        height,
    }
}

/// The index after the last line that is drawn: the window ends there, or
/// the text.
pub open spec fn last_visible(scroll: usize, height: usize, lines: usize) -> int {
    least(scroll + height, lines as int)
}

/// One row of the text on screen: the gutter with the line number, and the
/// line without the line feeds and carriage returns at its end.
pub open spec fn row_of(text: Seq<char>, line: int) -> (Seq<char>, Seq<char>) {
    (gutter_text(line as usize), without_line_endings(line_text(text, line as nat)))
}

/// The rows of a view as pairs of character sequences.
pub open spec fn rows_view(rows: Seq<(String, String)>) -> Seq<(Seq<char>, Seq<char>)> {
    rows.map_values(|row: (String, String)| (row.0@, row.1@))
}

/// The cell of the cursor in a text area that shows the lines from `scroll`
/// on, behind a gutter: none where the line or the column of the cursor is
/// outside the area.
pub open spec fn cell_of(area: Area, scroll: usize, cursor: CursorPosition) -> Option<(u16, u16)> {
    if scroll <= cursor.line && cursor.line - scroll < area.height && GUTTER_WIDTH
        + cursor.column < area.width {
        Some(
            (
                (area.x + GUTTER_WIDTH + cursor.column) as u16,
                (area.y + (cursor.line - scroll)) as u16,
            ),
        )
    } else {
        None
    }
}

/// The column of the cursor in a dialog: behind the frame and the `lead`
/// columns before the input, as far as screen coordinates reach.
pub open spec fn input_column(popup: Area, lead: u16, input_width: usize) -> int {
    least(popup.x + lead + input_width, u16::MAX as int)
}

/// The names of the first commands, as many as the palette shows.
pub open spec fn listed_names(commands: Seq<Command>) -> Seq<Seq<char>> {
    Seq::new(
        least(commands.len() as int, PALETTE_ROWS as int) as nat,
        |i: int| commands[i].name@,
    )
}

/// The names as sequences of characters.
pub open spec fn names_view(names: Seq<String>) -> Seq<Seq<char>> {
    names.map_values(|name: String| name@)
}

/// The layout of the screen.
pub struct Layout;

impl Layout {
    /// The place of a dialog of `height` rows on a screen of the given size,
    /// which must be at least as high.
    pub fn popup_area(screen_width: u16, screen_height: u16, height: u16) -> (area: Area)
        requires
            height <= screen_height,
        ensures
            area == centered(screen_width, screen_height, height),
            on_screen(area),
    {
        let width: u16 = if screen_width < POPUP_MAX_WIDTH {
            screen_width
        } else {
            POPUP_MAX_WIDTH
        };
        Area { x: (screen_width - width) / 2, y: (screen_height - height) / 2, width, height }
    }

    /// The index after the last line that is drawn.
    pub fn visible_end(scroll: usize, height: usize, lines: usize) -> (end: usize)
        ensures
            end == last_visible(scroll, height, lines),
    {
        if scroll < lines && height < lines - scroll {
            scroll + height
        } else {
            lines
        }
    }

    /// The rows to draw: for each visible line the gutter with its number
    /// and the line without its line ending.
    pub fn visible_rows(buffer: &RopeBuffer, scroll: usize, height: usize) -> (rows: Vec<
        (String, String),
    >)
        ensures
            rows@.len() == if scroll < last_visible(scroll, height, line_count(buffer@) as usize) {
                last_visible(scroll, height, line_count(buffer@) as usize) - scroll
            } else {
                0
            },
            forall|i: int|
                0 <= i < rows@.len() ==> (#[trigger] rows@[i]).0@ == row_of(buffer@, scroll + i).0
                    && rows@[i].1@ == row_of(buffer@, scroll + i).1,
    {
        let lines: usize = buffer.len_lines();
        let end: usize = Self::visible_end(scroll, height, lines);
        let mut rows: Vec<(String, String)> = Vec::new();
        let mut line: usize = scroll;
        while line < end
            invariant
                lines == line_count(buffer@),
                end == last_visible(scroll, height, lines),
                end <= lines,
                scroll <= line,
                scroll < end ==> line <= end,
                scroll >= end ==> line == scroll,
                rows@.len() == line - scroll,
                forall|i: int|
                    0 <= i < rows@.len() ==> (#[trigger] rows@[i]).0@ == row_of(
                        buffer@,
                        scroll + i,
                    ).0 && rows@[i].1@ == row_of(buffer@, scroll + i).1,
            decreases end - line,
        {
            match buffer.line(line) {
                Some(content) => {
                    let number = LineNumbers::format(line);
                    let shown = content.as_str().trim_line_endings().to_owned();
                    rows.push((number, shown));
                },
                None => {
                    assert(false);
                },
            }
            line += 1;
        }
        rows
    }

    /// The cell of the cursor in the text area.
    pub fn cursor_cell(area: Area, scroll: usize, cursor: &CursorPosition) -> (cell: Option<
        (u16, u16),
    >)
        requires
            on_screen(area),
        ensures
            cell == cell_of(area, scroll, *cursor),
    {
        if cursor.line >= scroll && cursor.line - scroll < area.height as usize && area.width
            > GUTTER_WIDTH && cursor.column < (area.width - GUTTER_WIDTH) as usize {
            let row: u16 = (cursor.line - scroll) as u16;
            let column: u16 = cursor.column as u16;
            Some((area.x + GUTTER_WIDTH + column, area.y + row))
        } else {
            None
        }
    }

    /// The cell of the cursor in a dialog at `popup`: on its first inner row,
    /// behind `lead` columns and an input that is `input_width` columns
    /// wide.
    pub fn dialog_cursor_cell(popup: Area, lead: u16, input_width: usize) -> (cell: (u16, u16))
        ensures
            cell.0 == input_column(popup, lead, input_width),
            cell.1 == least(popup.y + 1, u16::MAX as int),
    {
        let base: u32 = popup.x as u32 + lead as u32;
        let limit: u32 = 65535;
        let column: u16 = if input_width < 65536 && base + (input_width as u32) <= limit {
            (base + input_width as u32) as u16
        } else {
            u16::MAX
        };
        let row: u16 = if popup.y < u16::MAX {
            popup.y + 1
        } else {
            u16::MAX
        };
        (column, row)
    }

    /// The names that the palette lists: those of the first eight commands.
    pub fn palette_rows(commands: &[Command]) -> (names: Vec<String>)
        ensures
            names_view(names@) == listed_names(commands@),
    {
        let mut names: Vec<String> = Vec::new();
        let mut i: usize = 0;
        while i < commands.len() && i < PALETTE_ROWS
            invariant
                i <= commands.len(),
                i <= PALETTE_ROWS,
                names@.len() == i,
                forall|k: int| 0 <= k < i ==> (#[trigger] names@[k])@ == commands@[k].name@,
            decreases commands.len() - i,
        {
            names.push(commands[i].name.clone());
            i += 1;
        }
        assert(names_view(names@) =~= listed_names(commands@));
        names
    }
}

} // verus!
