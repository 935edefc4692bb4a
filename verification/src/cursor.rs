//! The cursor: a line and a column, and the movements that keep it inside the
//! text.

use crate::buffer::RopeBuffer;
use crate::text::{
    lemma_breaks_before_bounds, lemma_content_on_line, lemma_line_len_bound, lemma_line_start,
    line_count, line_len, line_start,
};
use vstd::prelude::*;

verus! {

/// A position in a text: a line index and a column, both counted from zero.
#[derive(Debug, Clone, Copy, PartialEq, Eq, Structural)]
pub struct CursorPosition {
    pub line: usize,
    pub column: usize,
}

/// The cursor position under its short name.
pub type Cursor = CursorPosition;

/// The cursor is on an existing line, at most at the end of its content.
pub open spec fn cursor_valid(s: Seq<char>, c: CursorPosition) -> bool {
    c.line < line_count(s) && c.column <= line_len(s, c.line as nat)
}

/// The offset in the text that the cursor stands at.
pub open spec fn cursor_offset(s: Seq<char>, c: CursorPosition) -> int {
    line_start(s, c.line as nat) + c.column
}

/// The lesser of two numbers.
pub open spec fn least(a: int, b: int) -> int {
    if a <= b {
        a
    } else {
        b
    }
}

/// The cursor with its column brought back into the content of its line.
pub open spec fn column_clamped(s: Seq<char>, line: int, column: int) -> CursorPosition {
    CursorPosition {
        line: line as usize,
        column: least(column, line_len(s, line as nat) as int) as usize,
    }
}

/// The cursor brought back into the text: to the last line where its line
/// does not exist, to the end of the content where its column lies beyond.
pub open spec fn clamped(s: Seq<char>, c: CursorPosition) -> CursorPosition {
    column_clamped(s, least(c.line as int, line_count(s) - 1), c.column as int)
}

/// One step left: inside a line one column back, at the start of a line to
/// the end of the line before, at the start of the text nowhere.
pub open spec fn moved_left(s: Seq<char>, c: CursorPosition) -> CursorPosition {
    if c.column > 0 {
        CursorPosition { line: c.line, column: (c.column - 1) as usize }
    } else if c.line > 0 {
        CursorPosition {
            line: (c.line - 1) as usize,
            column: line_len(s, (c.line - 1) as nat) as usize,
        }
    } else {
        c
    }
}

/// One step right: inside a line one column on, at the end of a line to the
/// start of the next, at the end of the text nowhere.
pub open spec fn moved_right(s: Seq<char>, c: CursorPosition) -> CursorPosition {
    if c.column < line_len(s, c.line as nat) {
        CursorPosition { line: c.line, column: (c.column + 1) as usize }
    } else if c.line + 1 < line_count(s) {
        CursorPosition { line: (c.line + 1) as usize, column: 0 }
    } else {
        c
    }
}

/// One line up, the column cut down to the length of that line.
pub open spec fn moved_up(s: Seq<char>, c: CursorPosition) -> CursorPosition {
    if c.line > 0 {
        column_clamped(s, c.line - 1, c.column as int)
    } else {
        c
    }
}

/// One line down, the column cut down to the length of that line.
pub open spec fn moved_down(s: Seq<char>, c: CursorPosition) -> CursorPosition {
    if c.line + 1 < line_count(s) {
        column_clamped(s, c.line + 1, c.column as int)
    } else {
        c
    }
}

/// The number of lines that a page movement covers.
pub open spec fn page_step(page_size: usize) -> int {
    if page_size > 0 {
        page_size - 1
    } else {
        0
    }
}

/// One page up, stopping at the first line.
pub open spec fn paged_up(s: Seq<char>, c: CursorPosition, page_size: usize) -> CursorPosition {
    let line = if c.line >= page_step(page_size) {
        c.line - page_step(page_size)
    } else {
        0
    };
    column_clamped(s, line, c.column as int)
}

/// One page down, stopping at the last line.
pub open spec fn paged_down(s: Seq<char>, c: CursorPosition, page_size: usize) -> CursorPosition {
    let line = least(c.line + page_step(page_size), line_count(s) - 1);
    column_clamped(s, line, c.column as int)
}

impl CursorPosition {
    /// The start of the text.
    pub fn new() -> (c: Self)
        ensures
            c.line == 0,
            c.column == 0,
    {
        Self { line: 0, column: 0 }
    }

    /// The given line and column.
    pub fn at(line: usize, column: usize) -> (c: Self)
        ensures
            c.line == line,
            c.column == column,
    {
        Self { line, column }
    }

    /// Moves to the given line and column.
    pub fn move_to(&mut self, line: usize, column: usize)
        ensures
            final(self).line == line,
            final(self).column == column,
    {
        self.line = line;
        self.column = column;
    }

    /// Moves to the start of the text.
    pub fn reset(&mut self)
        ensures
            final(self).line == 0,
            final(self).column == 0,
    {
        self.line = 0;
        self.column = 0;
    }

    /// Whether the cursor is on an existing line of `buffer`, at most at the
    /// end of its content.
    pub fn is_valid(&self, buffer: &RopeBuffer) -> (b: bool)
        ensures
            b == cursor_valid(buffer@, *self),
    {
        self.line < buffer.len_lines() && self.column <= buffer.line_len(self.line)
    }

    /// The offset in `buffer` that the cursor stands at: the start of its
    /// line plus its column. Every edit at the cursor computes its offset
    /// here and nowhere else.
    pub fn char_idx(&self, buffer: &RopeBuffer) -> (idx: usize)
        requires
            cursor_valid(buffer@, *self),
        ensures
            idx == cursor_offset(buffer@, *self),
            idx <= buffer@.len(),
    {
        let line_start: usize = buffer.line_to_char(self.line);
        proof {
            lemma_line_start(buffer@, self.line as nat);
            lemma_content_on_line(buffer@, line_start as int, line_start + self.column);
        }
        // the length of the text is a `usize`, so the offset is one too
        let _: usize = buffer.len_chars();
        line_start + self.column
    }
}

impl Default for CursorPosition {
    fn default() -> (c: Self)
        ensures
            c.line == 0,
            c.column == 0,
    {
        Self::new()
    }
}

/// The start of the text is a valid position in every text.
pub proof fn lemma_origin_valid(s: Seq<char>)
    ensures
        cursor_valid(s, CursorPosition { line: 0, column: 0 }),
{
}

/// A cursor brought back into a text is inside it.
pub proof fn lemma_clamped_valid(text: Seq<char>, c: CursorPosition)
    ensures
        cursor_valid(text, clamped(text, c)),
        cursor_valid(text, c) ==> clamped(text, c) == c,
{
}

/// A movement of a cursor inside the text leaves it inside the text.
pub proof fn lemma_move_keeps_valid(text: Seq<char>, c: CursorPosition, page_size: usize)
    requires
        cursor_valid(text, c),
        text.len() <= usize::MAX,
    ensures
        cursor_valid(text, moved_left(text, c)),
        cursor_valid(text, moved_right(text, c)),
        cursor_valid(text, moved_up(text, c)),
        cursor_valid(text, moved_down(text, c)),
        cursor_valid(text, CursorPosition { line: c.line, column: 0 }),
        cursor_valid(
            text,
            CursorPosition { line: c.line, column: line_len(text, c.line as nat) as usize },
        ),
        cursor_valid(text, paged_up(text, c, page_size)),
        cursor_valid(text, paged_down(text, c, page_size)),
{
    lemma_line_len_bound(text, c.line as nat);
    lemma_line_len_bound(text, (c.line - 1) as nat);
    lemma_breaks_before_bounds(text, text.len() as int);
}

/// Movements of the cursor over a text that does not change.
pub struct CursorMovement;

impl CursorMovement {
    /// One step left.
    pub fn move_left(cursor: &mut CursorPosition, buffer: &RopeBuffer)
        ensures
            *final(cursor) == moved_left(buffer@, *old(cursor)),
            cursor_valid(buffer@, *old(cursor)) ==> cursor_valid(buffer@, *final(cursor)),
    {
        if cursor.column > 0 {
            cursor.column -= 1;
        } else if cursor.line > 0 {
            cursor.line -= 1;
            cursor.column = buffer.line_len(cursor.line);
        }
    }

    /// One step right.
    pub fn move_right(cursor: &mut CursorPosition, buffer: &RopeBuffer)
        ensures
            *final(cursor) == moved_right(buffer@, *old(cursor)),
            cursor_valid(buffer@, *old(cursor)) ==> cursor_valid(buffer@, *final(cursor)),
    {
        let line_len: usize = buffer.line_len(cursor.line);
        if cursor.column < line_len {
            cursor.column += 1;
        } else if cursor.line < buffer.len_lines() - 1 {
            cursor.line += 1;
            cursor.column = 0;
        }
    }

    /// One line up.
    pub fn move_up(cursor: &mut CursorPosition, buffer: &RopeBuffer)
        ensures
            *final(cursor) == moved_up(buffer@, *old(cursor)),
            cursor_valid(buffer@, *old(cursor)) ==> cursor_valid(buffer@, *final(cursor)),
    {
        if cursor.line > 0 {
            cursor.line -= 1;
            let line_len: usize = buffer.line_len(cursor.line);
            if cursor.column > line_len {
                cursor.column = line_len;
            }
        }
    }

    /// One line down.
    pub fn move_down(cursor: &mut CursorPosition, buffer: &RopeBuffer)
        ensures
            *final(cursor) == moved_down(buffer@, *old(cursor)),
            cursor_valid(buffer@, *old(cursor)) ==> cursor_valid(buffer@, *final(cursor)),
    {
        if cursor.line < buffer.len_lines() - 1 {
            cursor.line += 1;
            let line_len: usize = buffer.line_len(cursor.line);
            if cursor.column > line_len {
                cursor.column = line_len;
            }
        }
    }

    /// To the start of the line.
    pub fn move_line_start(cursor: &mut CursorPosition)
        ensures
            final(cursor).line == old(cursor).line,
            final(cursor).column == 0,
    {
        cursor.column = 0;
    }

    /// To the end of the content of the line.
    pub fn move_line_end(cursor: &mut CursorPosition, buffer: &RopeBuffer)
        ensures
            final(cursor).line == old(cursor).line,
            final(cursor).column == line_len(buffer@, old(cursor).line as nat),
            cursor_valid(buffer@, *old(cursor)) ==> cursor_valid(buffer@, *final(cursor)),
    {
        cursor.column = buffer.line_len(cursor.line);
    }

    /// Up by one line less than `page_size`, stopping at the first line.
    pub fn page_up(cursor: &mut CursorPosition, buffer: &RopeBuffer, page_size: usize)
        ensures
            *final(cursor) == paged_up(buffer@, *old(cursor), page_size),
            cursor_valid(buffer@, *old(cursor)) ==> cursor_valid(buffer@, *final(cursor)),
    {
        let move_amount: usize = if page_size > 0 {
            page_size - 1
        } else {
            0
        };
        cursor.line = if cursor.line >= move_amount {
            cursor.line - move_amount
        } else {
            0
        };
        let line_len: usize = buffer.line_len(cursor.line);
        if cursor.column > line_len {
            cursor.column = line_len;
        }
    }

    /// Down by one line less than `page_size`, stopping at the last line.
    pub fn page_down(cursor: &mut CursorPosition, buffer: &RopeBuffer, page_size: usize)
        ensures
            *final(cursor) == paged_down(buffer@, *old(cursor), page_size),
            cursor_valid(buffer@, *final(cursor)),
    {
        let move_amount: usize = if page_size > 0 {
            page_size - 1
        } else {
            0
        };
        let last_line: usize = buffer.len_lines() - 1;
        cursor.line = if cursor.line < last_line && move_amount < last_line - cursor.line {
            cursor.line + move_amount
        } else {
            last_line
        };
        let line_len: usize = buffer.line_len(cursor.line);
        if cursor.column > line_len {
            cursor.column = line_len;
        }
    }

    /// Brings a cursor back into the text: to the last line where its line
    /// does not exist, to the end of the content where its column is beyond.
    pub fn clamp(cursor: &mut CursorPosition, buffer: &RopeBuffer)
        ensures
            *final(cursor) == clamped(buffer@, *old(cursor)),
            cursor_valid(buffer@, *final(cursor)),
            cursor_valid(buffer@, *old(cursor)) ==> *final(cursor) == *old(cursor),
    {
        let last_line: usize = buffer.len_lines() - 1;
        if cursor.line > last_line {
            cursor.line = last_line;
        }
        let line_len: usize = buffer.line_len(cursor.line);
        if cursor.column > line_len {
            cursor.column = line_len;
        }
    }
}

} // verus!
