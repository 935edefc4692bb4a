//! String operations of the standard library that the verifier has no
//! specification for. Nothing in this file is proved: each function states
//! what the standard library documents for the one function that it calls.

use vstd::prelude::*;

verus! {

/// The lowercase form of a text, as `str::to_lowercase` computes it from the
/// Unicode tables.
pub uninterp spec fn lowercase_of(s: Seq<char>) -> Seq<char>;

/// `needle` occurs in `hay` as a run of neighbouring characters.
pub open spec fn contains_subseq(hay: Seq<char>, needle: Seq<char>) -> bool {
    exists|i: int|
        0 <= i <= hay.len() - needle.len() && #[trigger] hay.subrange(i, i + needle.len())
            == needle
}

/// `s` without the line feeds and carriage returns that it ends with.
pub open spec fn without_line_endings(s: Seq<char>) -> Seq<char>
    decreases s.len(),
{
    if s.len() > 0 && (s.last() == '\n' || s.last() == '\r') {
        without_line_endings(s.drop_last())
    } else {
        s
    }
}

/// The number of terminal columns that a text takes, as
/// `UnicodeWidthStr::width` computes it from the Unicode tables.
pub uninterp spec fn display_width(s: Seq<char>) -> nat;

/// `UnicodeWidthStr::width`: the displayed width of `s` in columns.
#[verifier::external_body]
pub(crate) fn str_display_width(s: &str) -> (columns: usize)
    ensures
        columns == display_width(s@),
{
    unicode_width::UnicodeWidthStr::width(s)
}

/// `str::eq`: whether the two slices hold the same characters.
#[verifier::external_body]
pub(crate) fn str_eq(a: &str, b: &str) -> (same: bool)
    ensures
        same == (a@ == b@),
{
    a == b
}

/// `str::to_lowercase`: the lowercase form of `s`.
#[verifier::external_body]
pub(crate) fn str_to_lowercase(s: &str) -> (lowered: String)
    ensures
        lowered@ == lowercase_of(s@),
{
    s.to_lowercase()
}

/// `str::contains` with a string pattern: whether `needle` matches a
/// sub-slice of `hay`.
#[verifier::external_body]
pub(crate) fn str_contains(hay: &str, needle: &str) -> (found: bool)
    ensures
        found == contains_subseq(hay@, needle@),
{
    hay.contains(needle)
}

/// `str::trim_end_matches` with the pattern of line feed and carriage return:
/// the slice without every such character at its end.
#[verifier::external_body]
pub(crate) fn str_trim_line_endings(s: &str) -> (trimmed: &str)
    ensures
        trimmed@ == without_line_endings(s@),
{
    s.trim_end_matches(&['\n', '\r'][..])
}

/// `String::push`: appends `ch`.
#[verifier::external_body]
pub(crate) fn string_push(s: &mut String, ch: char)
    ensures
        final(s)@ == old(s)@.push(ch),
{
    s.push(ch)
}

/// `String::pop`: takes the last character off and returns it; `None`, and
/// no change, for the empty string.
#[verifier::external_body]
pub(crate) fn string_pop(s: &mut String) -> (last: Option<char>)
    ensures
        old(s)@.len() == 0 ==> last is None && final(s)@ == old(s)@,
        old(s)@.len() > 0 ==> last == Some(old(s)@.last()) && final(s)@ == old(s)@.drop_last(),
{
    s.pop()
}

/// `Path::file_name`: the final component of `path`, where it has one. What
/// separates components differs from platform to platform, so all that is
/// stated is that the component is a part of the path.
#[verifier::external_body]
pub(crate) fn path_file_name(path: &str) -> (name: Option<String>)
    ensures
        name is Some ==> contains_subseq(path@, name->0@),
{
    std::path::Path::new(path).file_name().and_then(|name| name.to_str()).map(
        |name| name.to_string(),
    )
}

} // verus!
