//! The rope that stores the text, and what this library takes on trust about
//! it. Nothing in this file is proved: each function states, over the text
//! model, what the rope crate documents for the method that it calls.

use crate::text::{
    char_to_line, concat_all, line_count, line_start, line_text, with_inserted, without_range,
};
use vstd::prelude::*;

verus! {

#[verifier::external_type_specification]
#[verifier::external_body]
pub struct ExRope(ropey::Rope);

/// The characters that a rope holds, in order.
pub uninterp spec fn rope_text(rope: ropey::Rope) -> Seq<char>;

/// `Rope::new`: a rope that holds no character.
#[verifier::external_body]
pub(crate) fn rope_new() -> (rope: ropey::Rope)
    ensures
        rope_text(rope) == Seq::<char>::empty(),
{
    ropey::Rope::new()
}

/// `Rope::from_str`: a rope that holds the characters of `text`.
#[verifier::external_body]
pub(crate) fn rope_from_str(text: &str) -> (rope: ropey::Rope)
    ensures
        rope_text(rope) == text@,
{
    ropey::Rope::from_str(text)
}

/// `Rope::len_chars`: the number of characters held.
#[verifier::external_body]
pub(crate) fn rope_len_chars(rope: &ropey::Rope) -> (n: usize)
    ensures
        n == rope_text(*rope).len(),
{
    rope.len_chars()
}

/// `Rope::len_lines`: one more than the number of line breaks held, where the
/// rope crate is built to recognise every Unicode line break.
#[verifier::external_body]
pub(crate) fn rope_len_lines(rope: &ropey::Rope) -> (n: usize)
    ensures
        n == line_count(rope_text(*rope)),
{
    rope.len_lines()
}

/// `Rope::insert_char`: puts `ch` in at character index `idx`. It panics for an
/// index past the end, which `requires` leaves out.
#[verifier::external_body]
pub(crate) fn rope_insert_char(rope: &mut ropey::Rope, idx: usize, ch: char)
    requires
        idx <= rope_text(*old(rope)).len(),
    ensures
        rope_text(*final(rope)) == rope_text(*old(rope)).insert(idx as int, ch),
{
    rope.insert_char(idx, ch)
}

/// `Rope::insert`: puts the characters of `text` in at character index `idx`.
/// It panics for an index past the end, which `requires` leaves out.
#[verifier::external_body]
pub(crate) fn rope_insert(rope: &mut ropey::Rope, idx: usize, text: &str)
    requires
        idx <= rope_text(*old(rope)).len(),
    ensures
        rope_text(*final(rope)) == with_inserted(rope_text(*old(rope)), idx as int, text@),
{
    rope.insert(idx, text)
}

/// `Rope::remove`: takes the characters of `start..end` out. It panics for a
/// range that runs backwards or past the end, which `requires` leaves out.
#[verifier::external_body]
pub(crate) fn rope_remove(rope: &mut ropey::Rope, start: usize, end: usize)
    requires
        start <= end <= rope_text(*old(rope)).len(),
    ensures
        rope_text(*final(rope)) == without_range(rope_text(*old(rope)), start as int, end as int),
{
    rope.remove(start..end)
}

/// `Rope::line`: the characters of line `line_idx`, its line break included.
/// It panics for an index that is no line, which `requires` leaves out.
#[verifier::external_body]
pub(crate) fn rope_line(rope: &ropey::Rope, line_idx: usize) -> (line: String)
    requires
        line_idx < line_count(rope_text(*rope)),
    ensures
        line@ == line_text(rope_text(*rope), line_idx as nat),
{
    rope.line(line_idx).to_string()
}

/// `Rope::char_to_line`: the number of line breaks that end at or before
/// character index `idx`; the index may be the length of the text. It panics
/// for an index past the end, which `requires` leaves out.
#[verifier::external_body]
pub(crate) fn rope_char_to_line(rope: &ropey::Rope, idx: usize) -> (line: usize)
    requires
        idx <= rope_text(*rope).len(),
    ensures
        line == char_to_line(rope_text(*rope), idx as int),
{
    rope.char_to_line(idx)
}

/// `Rope::line_to_char`: the character index at which line `line_idx` starts;
/// for the index one past the last line, the length of the text. It panics for
/// an index beyond that, which `requires` leaves out.
#[verifier::external_body]
pub(crate) fn rope_line_to_char(rope: &ropey::Rope, line_idx: usize) -> (idx: usize)
    requires
        line_idx <= line_count(rope_text(*rope)),
    ensures
        idx == line_start(rope_text(*rope), line_idx as nat),
{
    rope.line_to_char(line_idx)
}

/// `Rope::slice`: the characters of `start..end`. It panics for a range that
/// runs backwards or past the end, which `requires` leaves out.
#[verifier::external_body]
pub(crate) fn rope_slice(rope: &ropey::Rope, start: usize, end: usize) -> (text: String)
    requires
        start <= end <= rope_text(*rope).len(),
    ensures
        text@ == rope_text(*rope).subrange(start as int, end as int),
{
    rope.slice(start..end).to_string()
}

/// `Rope::chunks`: the pieces in which the rope stores its text. Where the
/// pieces are cut depends on how the rope was built; together they are the
/// text.
#[verifier::external_body]
pub(crate) fn rope_chunks(rope: &ropey::Rope) -> (parts: Vec<String>)
    ensures
        concat_all(parts@) == rope_text(*rope),
{
    let mut parts = Vec::new();
    for chunk in rope.chunks() {
        parts.push(chunk.to_string());
    }
    parts
}

} // verus!
