//! Edits at the cursor: each changes the text and moves the cursor in one
//! step, so that the cursor stays inside the text.

use crate::buffer::RopeBuffer;
use crate::cursor::{clamped, cursor_offset, cursor_valid, CursorMovement, CursorPosition};
use crate::text::{
    break_ends_at, breaks_before, content_len, is_break_char, is_line_start,
    lemma_breaks_before_prefix, lemma_content_len, lemma_content_len_at_least,
    lemma_content_on_line, lemma_line_extent, lemma_line_len_bound, lemma_line_start,
    lemma_line_start_unique, line_len, line_start, with_inserted, without_range,
};
use vstd::prelude::*;

verus! {

/// A line start with `line` breaks before it, followed by `column` characters
/// of content, is a valid cursor position.
pub proof fn lemma_valid_at(s: Seq<char>, line: nat, a: int, column: nat)
    requires
        0 <= a <= s.len(),
        is_line_start(s, a),
        breaks_before(s, a) == line,
        column <= content_len(s, a),
        line <= usize::MAX,
        column <= usize::MAX,
    ensures
        cursor_valid(s, CursorPosition { line: line as usize, column: column as usize }),
        line_start(s, line) == a,
{
    lemma_line_start_unique(s, a);
}

/// Position `p` lies between a carriage return and the line feed that forms
/// one line break with it.
pub open spec fn inside_crlf(s: Seq<char>, p: int) -> bool {
    0 < p < s.len() && s[p - 1] == '\r' && s[p] == '\n'
}

/// What a valid cursor says of the text around it: its line starts at a line
/// start, the characters from there to the cursor are content, and the cursor
/// does not stand between a CR and the LF that belongs to it.
pub proof fn lemma_valid_cursor(s: Seq<char>, c: CursorPosition)
    requires
        cursor_valid(s, c),
    ensures
        0 <= line_start(s, c.line as nat) <= cursor_offset(s, c) <= s.len(),
        is_line_start(s, line_start(s, c.line as nat)),
        breaks_before(s, line_start(s, c.line as nat)) == c.line,
        breaks_before(s, cursor_offset(s, c)) == c.line,
        forall|k: int|
            line_start(s, c.line as nat) <= k < cursor_offset(s, c) ==> !is_break_char(s[k]),
        !inside_crlf(s, cursor_offset(s, c)),
{
    let a = line_start(s, c.line as nat);
    lemma_line_start(s, c.line as nat);
    lemma_content_len(s, a);
    lemma_content_on_line(s, a, a + c.column);
}

/// Putting characters that are no break characters in at the cursor and
/// moving the cursor past them leaves it valid.
pub proof fn lemma_insert_keeps_valid(s: Seq<char>, c: CursorPosition, t: Seq<char>)
    requires
        cursor_valid(s, c),
        forall|k: int| 0 <= k < t.len() ==> !is_break_char(t[k]),
        c.column + t.len() <= usize::MAX,
    ensures
        cursor_valid(
            with_inserted(s, cursor_offset(s, c), t),
            CursorPosition { line: c.line, column: (c.column + t.len()) as usize },
        ),
{
    lemma_valid_cursor(s, c);
    let a = line_start(s, c.line as nat);
    let o = cursor_offset(s, c);
    let r = with_inserted(s, o, t);
    if t.len() == 0 {
        assert(r =~= s);
    } else {
        assert forall|k: int| 0 <= k < o implies s[k] == r[k] by {}
        lemma_breaks_before_prefix(s, r, o);
        if a == o && a > 0 {
            assert(r[a - 1] == s[a - 1]);
            assert(r[a] == t[0]);
            assert(break_ends_at(r, a));
            assert(breaks_before(r, a - 1) == breaks_before(s, a - 1));
        }
        assert forall|k: int| a <= k < o + t.len() implies !is_break_char(r[k]) by {
            if k < o {
                assert(r[k] == s[k]);
            } else {
                assert(r[k] == t[k - o]);
            }
        }
        lemma_content_len_at_least(r, a, o + t.len());
        lemma_valid_at(r, c.line as nat, a, (c.column + t.len()) as nat);
    }
}

/// Putting a line feed in at the cursor and moving the cursor to the start of
/// the next line leaves it valid, unless the line feed lands right behind a
/// carriage return, with which it then forms one line break.
pub proof fn lemma_newline_keeps_valid(s: Seq<char>, c: CursorPosition)
    requires
        cursor_valid(s, c),
        !behind_carriage_return(s, c),
        c.line + 1 <= usize::MAX,
    ensures
        cursor_valid(
            s.insert(cursor_offset(s, c), '\n'),
            CursorPosition { line: (c.line + 1) as usize, column: 0 },
        ),
{
    lemma_valid_cursor(s, c);
    let o = cursor_offset(s, c);
    let r = s.insert(o, '\n');
    assert forall|k: int| 0 <= k < o implies s[k] == r[k] by {}
    lemma_breaks_before_prefix(s, r, o);
    assert(r[o] == '\n');
    assert(break_ends_at(r, o + 1));
    if o > 0 {
        assert(r[o - 1] == s[o - 1]);
        assert(break_ends_at(r, o) == break_ends_at(s, o));
        assert(breaks_before(r, o - 1) == breaks_before(s, o - 1));
    }
    assert(breaks_before(r, o) == breaks_before(s, o));
    lemma_valid_at(r, (c.line + 1) as nat, o + 1, 0);
}

/// Taking a range out that starts on a line, behind content only, leaves the
/// position at which it started valid.
pub proof fn lemma_remove_keeps_valid(s: Seq<char>, line: nat, a: int, i: int, j: int)
    requires
        0 <= a <= i <= j <= s.len(),
        is_line_start(s, a),
        breaks_before(s, a) == line,
        forall|k: int| a <= k < i ==> !is_break_char(s[k]),
        line <= usize::MAX,
        i - a <= usize::MAX,
    ensures
        cursor_valid(
            without_range(s, i, j),
            CursorPosition { line: line as usize, column: (i - a) as usize },
        ),
{
    let r = without_range(s, i, j);
    assert forall|k: int| 0 <= k < i implies s[k] == r[k] by {}
    lemma_breaks_before_prefix(s, r, i);
    assert forall|k: int| a <= k < i implies !is_break_char(r[k]) by {
        assert(r[k] == s[k]);
    }
    if a < i || a == 0 {
        lemma_content_len_at_least(r, a, i);
        lemma_valid_at(r, line, a, (i - a) as nat);
    } else {
        assert(r[a - 1] == s[a - 1]);
        assert(breaks_before(r, a - 1) == breaks_before(s, a - 1));
        if j < s.len() {
            assert(r[a] == s[j]);
        }
        if break_ends_at(r, a) {
            lemma_valid_at(r, line, a, 0);
        } else {
            // the carriage return before the range and the line feed behind
            // it have become one line break
            assert(r[a] == '\n');
            assert(break_ends_at(r, a + 1));
            assert(break_ends_at(s, a));
            assert(breaks_before(s, a) == breaks_before(s, a - 1) + 1);
            assert(breaks_before(r, a) == breaks_before(r, a - 1));
            assert(breaks_before(r, a + 1) == breaks_before(r, a) + 1);
            lemma_valid_at(r, line, a + 1, 0);
        }
    }
}

/// Insertions at the cursor. Each brings the cursor back into the text before
/// it uses it.
pub struct InsertFeature;

impl InsertFeature {
    /// Puts `ch` in at the cursor and moves the cursor one column on. The
    /// cursor ends inside the text for every character that is no line
    /// break.
    pub fn insert_char(buffer: &mut RopeBuffer, cursor: &mut CursorPosition, ch: char)
        ensures
            final(buffer)@ == old(buffer)@.insert(
                cursor_offset(old(buffer)@, clamped(old(buffer)@, *old(cursor))),
                ch,
            ),
            final(buffer)@.len() == old(buffer)@.len() + 1,
            final(cursor).line == clamped(old(buffer)@, *old(cursor)).line,
            final(cursor).column == clamped(old(buffer)@, *old(cursor)).column + 1,
            !is_break_char(ch) ==> cursor_valid(final(buffer)@, *final(cursor)),
    {
        CursorMovement::clamp(cursor, buffer);
        let ghost at = *cursor;
        let idx: usize = cursor.char_idx(buffer);
        buffer.insert_char(idx, ch);
        // the new length is a `usize`, so the column can grow by one
        let _: usize = buffer.len_chars();
        proof {
            lemma_valid_cursor(old(buffer)@, at);
            assert(old(buffer)@.insert(idx as int, ch) =~= with_inserted(
                old(buffer)@,
                idx as int,
                seq![ch],
            ));
            if !is_break_char(ch) {
                lemma_insert_keeps_valid(old(buffer)@, at, seq![ch]);
            }
        }
        cursor.column += 1;
    }

    /// Puts a line feed in at the cursor and moves the cursor to the start of
    /// the next line. The cursor ends inside the text unless it stood right
    /// behind a carriage return, with which the line feed forms one line
    /// break.
    pub fn insert_newline(buffer: &mut RopeBuffer, cursor: &mut CursorPosition)
        ensures
            final(buffer)@ == old(buffer)@.insert(
                cursor_offset(old(buffer)@, clamped(old(buffer)@, *old(cursor))),
                '\n',
            ),
            final(buffer)@.len() == old(buffer)@.len() + 1,
            final(cursor).line == clamped(old(buffer)@, *old(cursor)).line + 1,
            final(cursor).column == 0,
            !behind_carriage_return(old(buffer)@, clamped(old(buffer)@, *old(cursor)))
                ==> cursor_valid(final(buffer)@, *final(cursor)),
    {
        CursorMovement::clamp(cursor, buffer);
        let ghost at = *cursor;
        // the number of lines is a `usize`, so the line can grow by one
        let _: usize = buffer.len_lines();
        let idx: usize = cursor.char_idx(buffer);
        buffer.insert_char(idx, '\n');
        proof {
            lemma_valid_cursor(old(buffer)@, at);
            if !behind_carriage_return(old(buffer)@, at) {
                lemma_newline_keeps_valid(old(buffer)@, at);
            }
        }
        cursor.line += 1;
        cursor.column = 0;
    }

    /// Puts four spaces in at the cursor and moves the cursor four columns
    /// on.
    pub fn insert_tab(buffer: &mut RopeBuffer, cursor: &mut CursorPosition)
        ensures
            final(buffer)@ == with_inserted(
                old(buffer)@,
                cursor_offset(old(buffer)@, clamped(old(buffer)@, *old(cursor))),
                seq![' ', ' ', ' ', ' '],
            ),
            final(buffer)@.len() == old(buffer)@.len() + 4,
            final(cursor).line == clamped(old(buffer)@, *old(cursor)).line,
            final(cursor).column == clamped(old(buffer)@, *old(cursor)).column + 4,
            cursor_valid(final(buffer)@, *final(cursor)),
    {
        CursorMovement::clamp(cursor, buffer);
        let ghost at = *cursor;
        let idx: usize = cursor.char_idx(buffer);
        buffer.insert(idx, "    ");
        // the new length is a `usize`, so the column can grow by four
        let _: usize = buffer.len_chars();
        proof {
            reveal_strlit("    ");
            assert("    "@ =~= seq![' ', ' ', ' ', ' ']);
            lemma_valid_cursor(old(buffer)@, at);
            lemma_insert_keeps_valid(old(buffer)@, at, seq![' ', ' ', ' ', ' ']);
        }
        cursor.column += 4;
    }
}

/// The cursor stands right behind a carriage return.
pub open spec fn behind_carriage_return(s: Seq<char>, c: CursorPosition) -> bool {
    cursor_offset(s, c) > 0 && s[cursor_offset(s, c) - 1] == '\r'
}

/// Where the content of the line before line `line` ends: the offset at which
/// the terminator starts that joins the two lines.
pub open spec fn previous_line_end(s: Seq<char>, line: nat) -> int {
    line_start(s, (line - 1) as nat) + line_len(s, (line - 1) as nat)
}

/// The text after a backspace at `c`: inside a line the character before the
/// cursor is gone, at the start of a line the terminator of the line before,
/// at the start of the text nothing.
pub open spec fn backspaced_text(s: Seq<char>, c: CursorPosition) -> Seq<char> {
    if c.column > 0 {
        s.remove(cursor_offset(s, c) - 1)
    } else if c.line > 0 {
        without_range(s, previous_line_end(s, c.line as nat), cursor_offset(s, c))
    } else {
        s
    }
}

/// The cursor after a backspace at `c`: inside a line one column back, at the
/// start of a line at the end of the content of the line before.
pub open spec fn backspaced_cursor(s: Seq<char>, c: CursorPosition) -> CursorPosition {
    if c.column > 0 {
        CursorPosition { line: c.line, column: (c.column - 1) as usize }
    } else if c.line > 0 {
        CursorPosition {
            line: (c.line - 1) as usize,
            column: line_len(s, (c.line - 1) as nat) as usize,
        }
    } else {
        c
    }
}

/// The text after a forward delete at `c`: the character at the cursor is
/// gone, where there is one.
pub open spec fn deleted_text(s: Seq<char>, c: CursorPosition) -> Seq<char> {
    if cursor_offset(s, c) < s.len() {
        s.remove(cursor_offset(s, c))
    } else {
        s
    }
}

/// A backspace leaves the cursor inside the text.
pub proof fn lemma_backspace_keeps_valid(s: Seq<char>, c: CursorPosition)
    requires
        cursor_valid(s, c),
        s.len() <= usize::MAX,
    ensures
        cursor_valid(backspaced_text(s, c), backspaced_cursor(s, c)),
{
    lemma_valid_cursor(s, c);
    let idx = cursor_offset(s, c);
    if c.column > 0 {
        assert(without_range(s, idx - 1, idx) =~= s.remove(idx - 1));
        lemma_remove_keeps_valid(s, c.line as nat, line_start(s, c.line as nat), idx - 1, idx);
    } else if c.line > 0 {
        let prev = (c.line - 1) as nat;
        let start = line_start(s, prev);
        lemma_line_start(s, prev);
        lemma_line_extent(s, prev);
        lemma_content_len(s, start);
        // the line before ends in a line break, which is no content
        assert(is_break_char(s[idx - 1]));
        lemma_remove_keeps_valid(s, prev, start, start + line_len(s, prev), idx);
    }
}

/// A forward delete leaves the cursor inside the text.
pub proof fn lemma_delete_keeps_valid(s: Seq<char>, c: CursorPosition)
    requires
        cursor_valid(s, c),
    ensures
        cursor_valid(deleted_text(s, c), c),
{
    lemma_valid_cursor(s, c);
    let idx = cursor_offset(s, c);
    if idx < s.len() {
        assert(without_range(s, idx, idx + 1) =~= s.remove(idx));
        lemma_remove_keeps_valid(s, c.line as nat, line_start(s, c.line as nat), idx, idx + 1);
    }
}

/// A backspace anywhere but at the start of the text takes something out.
pub proof fn lemma_backspace_shortens(s: Seq<char>, c: CursorPosition)
    requires
        cursor_valid(s, c),
        c.line > 0 || c.column > 0,
    ensures
        backspaced_text(s, c).len() < s.len(),
        c.column == 0 ==> 0 <= previous_line_end(s, c.line as nat) < cursor_offset(s, c),
{
    lemma_valid_cursor(s, c);
    if c.column == 0 {
        let prev = (c.line - 1) as nat;
        let start = line_start(s, prev);
        lemma_line_start(s, prev);
        lemma_line_extent(s, prev);
        lemma_content_len(s, start);
        assert(is_break_char(s[cursor_offset(s, c) - 1]));
    }
}

/// Deletions at the cursor. Each brings the cursor back into the text before
/// it uses it.
pub struct DeleteFeature;

impl DeleteFeature {
    /// Deletes backwards: the character before the cursor, or, at the start
    /// of a line, the terminator that joins it to the line before. The cursor
    /// lands where the deleted text began.
    pub fn backspace(buffer: &mut RopeBuffer, cursor: &mut CursorPosition)
        ensures
            final(buffer)@ == backspaced_text(old(buffer)@, clamped(old(buffer)@, *old(cursor))),
            *final(cursor) == backspaced_cursor(
                old(buffer)@,
                clamped(old(buffer)@, *old(cursor)),
            ),
            cursor_valid(final(buffer)@, *final(cursor)),
    {
        CursorMovement::clamp(cursor, buffer);
        // the length of the text is a `usize`, and so is every line length
        let _: usize = buffer.len_chars();
        proof {
            lemma_valid_cursor(old(buffer)@, *cursor);
            lemma_backspace_keeps_valid(old(buffer)@, *cursor);
        }
        if cursor.column > 0 {
            let idx: usize = cursor.char_idx(buffer);
            buffer.remove(idx - 1..idx);
            assert(without_range(old(buffer)@, idx - 1, idx as int) =~= old(buffer)@.remove(
                idx - 1,
            ));
            cursor.column -= 1;
        } else if cursor.line > 0 {
            let prev_line_len: usize = buffer.line_len(cursor.line - 1);
            let prev_line_start: usize = buffer.line_to_char(cursor.line - 1);
            let idx: usize = cursor.char_idx(buffer);
            proof {
                lemma_line_len_bound(old(buffer)@, (cursor.line - 1) as nat);
                lemma_backspace_shortens(old(buffer)@, *cursor);
            }
            buffer.remove(prev_line_start + prev_line_len..idx);
            cursor.line -= 1;
            cursor.column = prev_line_len;
        }
    }

    /// Deletes forwards: the character at the cursor, where there is one. The
    /// cursor stays where it is.
    pub fn delete(buffer: &mut RopeBuffer, cursor: &CursorPosition)
        ensures
            final(buffer)@ == deleted_text(old(buffer)@, clamped(old(buffer)@, *cursor)),
            cursor_valid(final(buffer)@, clamped(old(buffer)@, *cursor)),
    {
        let mut at = *cursor;
        CursorMovement::clamp(&mut at, buffer);
        proof {
            lemma_delete_keeps_valid(old(buffer)@, at);
        }
        let idx: usize = at.char_idx(buffer);
        if idx < buffer.len_chars() {
            buffer.remove(idx..idx + 1);
            assert(without_range(old(buffer)@, idx as int, idx + 1) =~= old(buffer)@.remove(
                idx as int,
            ));
        }
    }
}

} // verus!
