//! The text store: a rope addressed by character offset and by line.

use crate::rope::{
    rope_char_to_line, rope_chunks, rope_from_str, rope_insert, rope_insert_char,
    rope_len_chars, rope_len_lines, rope_line, rope_line_to_char, rope_new, rope_remove,
    rope_slice, rope_text,
};
use crate::text::{
    char_to_line, concat_all, is_break_char, lemma_breaks_before_monotone,
    lemma_line_len_trimmed, lemma_line_start, lemma_line_start_past_end, line_count, line_len,
    line_start, line_text, with_inserted, without_range,
};
use std::ops::Range;
use vstd::prelude::*;

verus! {

/// Whether `c` takes part in a line break.
pub fn is_line_break(c: char) -> (b: bool)
    ensures
        b == is_break_char(c),
{
    c == '\n' || c == '\u{000B}' || c == '\u{000C}' || c == '\r' || c == '\u{0085}' || c
        == '\u{2028}' || c == '\u{2029}'
}

/// An editable text. Its view is the sequence of its characters.
pub struct RopeBuffer {
    rope: ropey::Rope,
}

impl View for RopeBuffer {
    type V = Seq<char>;

    closed spec fn view(&self) -> Seq<char> {
        rope_text(self.rope)
    }
}

impl RopeBuffer {
    /// An empty text.
    pub fn new() -> (buffer: Self)
        ensures
            buffer@ == Seq::<char>::empty(),
    {
        Self { rope: rope_new() }
    }

    /// The text `content`.
    pub fn from_string(content: &str) -> (buffer: Self)
        ensures
            buffer@ == content@,
    {
        Self { rope: rope_from_str(content) }
    }

    /// The number of lines, which is never zero.
    pub fn len_lines(&self) -> (n: usize)
        ensures
            n == line_count(self@),
            n >= 1,
    {
        rope_len_lines(&self.rope)
    }

    /// The number of characters.
    pub fn len_chars(&self) -> (n: usize)
        ensures
            n == self@.len(),
    {
        rope_len_chars(&self.rope)
    }

    /// Puts `ch` in at offset `idx`.
    pub fn insert_char(&mut self, idx: usize, ch: char)
        requires
            idx <= old(self)@.len(),
        ensures
            final(self)@ == old(self)@.insert(idx as int, ch),
    {
        rope_insert_char(&mut self.rope, idx, ch);
    }

    /// Puts the characters of `text` in at offset `idx`.
    pub fn insert(&mut self, idx: usize, text: &str)
        requires
            idx <= old(self)@.len(),
        ensures
            final(self)@ == with_inserted(old(self)@, idx as int, text@),
    {
        rope_insert(&mut self.rope, idx, text);
    }

    /// Takes the characters of `range` out. A range that is empty, runs
    /// backwards or ends past the text leaves the text as it is.
    pub fn remove(&mut self, range: Range<usize>)
        ensures
            final(self)@ == if range.start < range.end && range.end <= old(self)@.len() {
                without_range(old(self)@, range.start as int, range.end as int)
            } else {
                old(self)@
            },
    {
        if range.start < range.end && range.end <= rope_len_chars(&self.rope) {
            rope_remove(&mut self.rope, range.start, range.end);
        }
    }

    /// Line `line_idx` with its terminator, where there is such a line.
    pub fn line(&self, line_idx: usize) -> (line: Option<String>)
        ensures
            line is Some <==> line_idx < line_count(self@),
            line is Some ==> line->0@ == line_text(self@, line_idx as nat),
    {
        if line_idx < rope_len_lines(&self.rope) {
            Some(rope_line(&self.rope, line_idx))
        } else {
            None
        }
    }

    /// The number of characters of line `line_idx` before its terminator; 0
    /// where there is no such line.
    pub fn line_len(&self, line_idx: usize) -> (n: usize)
        ensures
            n == line_len(self@, line_idx as nat),
    {
        if line_idx < rope_len_lines(&self.rope) {
            let line = rope_line(&self.rope, line_idx);
            let total: usize = line.as_str().unicode_len();
            proof {
                lemma_line_len_trimmed(self@, line_idx as nat);
            }
            if total == 0 {
                0
            } else {
                let last = line.as_str().get_char(total - 1);
                if last == '\n' && total >= 2 && line.as_str().get_char(total - 2) == '\r' {
                    total - 2
                } else if is_line_break(last) {
                    total - 1
                } else {
                    total
                }
            }
        } else {
            0
        }
    }

    /// The index of the line that holds offset `char_idx`.
    pub fn char_to_line(&self, char_idx: usize) -> (line: usize)
        requires
            char_idx <= self@.len(),
        ensures
            line == char_to_line(self@, char_idx as int),
            line < line_count(self@),
    {
        proof {
            lemma_breaks_before_monotone(self@, char_idx as int, self@.len() as int);
        }
        rope_char_to_line(&self.rope, char_idx)
    }

    /// The offset at which line `line_idx` starts; for the index one past the
    /// last line, the length of the text.
    pub fn line_to_char(&self, line_idx: usize) -> (idx: usize)
        requires
            line_idx <= line_count(self@),
        ensures
            idx == line_start(self@, line_idx as nat),
            idx <= self@.len(),
            line_idx < line_count(self@) ==> char_to_line(self@, idx as int) == line_idx,
    {
        proof {
            if line_idx < line_count(self@) {
                lemma_line_start(self@, line_idx as nat);
            } else {
                lemma_line_start_past_end(self@, line_idx as nat);
            }
        }
        rope_line_to_char(&self.rope, line_idx)
    }

    /// The characters of `[start, end)`; nothing for a range that is empty,
    /// runs backwards or ends past the text.
    pub fn get_slice(&self, start: usize, end: usize) -> (text: String)
        ensures
            text@ == if start < end && end <= self@.len() {
                self@.subrange(start as int, end as int)
            } else {
                Seq::<char>::empty()
            },
    {
        if start < end && end <= rope_len_chars(&self.rope) {
            rope_slice(&self.rope, start, end)
        } else {
            String::new()
        }
    }

    /// The text in the pieces in which it is stored, first to last.
    pub fn chunks(&self) -> (parts: Vec<String>)
        ensures
            concat_all(parts@) == self@,
    {
        rope_chunks(&self.rope)
    }
}

impl Default for RopeBuffer {
    fn default() -> (buffer: Self)
        ensures
            buffer@ == Seq::<char>::empty(),
    {
        Self::new()
    }
}

/// Edits of a text by offset.
pub struct TextOperation;

impl TextOperation {
    /// Puts `ch` in at offset `idx`.
    pub fn insert_char(buffer: &mut RopeBuffer, idx: usize, ch: char)
        requires
            idx <= old(buffer)@.len(),
        ensures
            final(buffer)@ == old(buffer)@.insert(idx as int, ch),
    {
        buffer.insert_char(idx, ch);
    }

    /// Puts the characters of `text` in at offset `idx`.
    pub fn insert_text(buffer: &mut RopeBuffer, idx: usize, text: &str)
        requires
            idx <= old(buffer)@.len(),
        ensures
            final(buffer)@ == with_inserted(old(buffer)@, idx as int, text@),
    {
        buffer.insert(idx, text);
    }

    /// Takes the characters of `[start, end)` out; a range that is empty, runs
    /// backwards or ends past the text leaves the text as it is.
    pub fn delete_range(buffer: &mut RopeBuffer, start: usize, end: usize)
        ensures
            final(buffer)@ == if start < end && end <= old(buffer)@.len() {
                without_range(old(buffer)@, start as int, end as int)
            } else {
                old(buffer)@
            },
    {
        buffer.remove(start..end);
    }

    /// Takes the character at offset `idx` out, where there is one.
    pub fn delete_char(buffer: &mut RopeBuffer, idx: usize)
        ensures
            final(buffer)@ == if idx < old(buffer)@.len() {
                old(buffer)@.remove(idx as int)
            } else {
                old(buffer)@
            },
    {
        if idx < buffer.len_chars() {
            buffer.remove(idx..idx + 1);
            assert(without_range(old(buffer)@, idx as int, idx + 1) =~= old(buffer)@.remove(
                idx as int,
            ));
        }
    }
}

/// Putting a character in at an offset and taking the range of that one
/// offset out again gives the text that was there before.
pub proof fn lemma_insert_then_remove(s: Seq<char>, idx: int, ch: char)
    requires
        0 <= idx <= s.len(),
    ensures
        without_range(s.insert(idx, ch), idx, idx + 1) == s,
{
    assert(without_range(s.insert(idx, ch), idx, idx + 1) =~= s);
}

} // verus!
