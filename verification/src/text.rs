//! The mathematical model of a text: a sequence of characters, cut into lines
//! by line breaks.
//!
//! A line break is one of LF, VT, FF, CR, NEL, LS, PS, or the pair CR LF, which
//! counts as a single break. The start of the text and every position right
//! after a line break start a line; a line break belongs to the line it ends.

use vstd::prelude::*;

verus! {

/// Whether `c` is a character that takes part in a line break.
pub open spec fn is_break_char(c: char) -> bool {
    c == '\n' || c == '\u{000B}' || c == '\u{000C}' || c == '\r' || c == '\u{0085}' || c
        == '\u{2028}' || c == '\u{2029}'
}

/// A line break ends right before position `p`. A CR that is followed by an LF
/// does not end a break by itself: the pair ends after the LF.
pub open spec fn break_ends_at(s: Seq<char>, p: int) -> bool {
    &&& 0 < p <= s.len()
    &&& is_break_char(s[p - 1])
    &&& !(s[p - 1] == '\r' && p < s.len() && s[p] == '\n')
}

/// The number of line breaks that end at a position in `1..=p`.
pub open spec fn breaks_before(s: Seq<char>, p: int) -> nat
    decreases p,
{
    if p <= 0 {
        0
    } else {
        breaks_before(s, p - 1) + if break_ends_at(s, p) {
            1nat
        } else {
            0nat
        }
    }
}

/// The number of lines of `s`: one more than its line breaks, so never zero.
pub open spec fn line_count(s: Seq<char>) -> nat {
    breaks_before(s, s.len() as int) + 1
}

/// The index of the line that holds offset `idx`.
pub open spec fn char_to_line(s: Seq<char>, idx: int) -> nat {
    breaks_before(s, idx)
}

/// Position `p` starts a line.
pub open spec fn is_line_start(s: Seq<char>, p: int) -> bool {
    p == 0 || break_ends_at(s, p)
}

/// The first position after `p` at which a line break ends, or the length of
/// `s` where there is none.
pub open spec fn next_line_start(s: Seq<char>, p: int) -> int
    decreases s.len() - p,
{
    if p < 0 || p >= s.len() {
        s.len() as int
    } else if break_ends_at(s, p + 1) {
        p + 1
    } else {
        next_line_start(s, p + 1)
    }
}

/// The offset at which line `line` starts; the length of `s` for every index
/// from `line_count(s)` on.
pub open spec fn line_start(s: Seq<char>, line: nat) -> int
    decreases line,
{
    if line == 0 {
        0
    } else {
        next_line_start(s, line_start(s, (line - 1) as nat))
    }
}

/// The number of characters from offset `a` up to the next break character or
/// the end of the text.
pub open spec fn content_len(s: Seq<char>, a: int) -> nat
    decreases s.len() - a,
{
    if a < 0 || a >= s.len() || is_break_char(s[a]) {
        0
    } else {
        1 + content_len(s, a + 1)
    }
}

/// The length of line `line` without its terminator; 0 for a line that does
/// not exist.
pub open spec fn line_len(s: Seq<char>, line: nat) -> nat {
    if line < line_count(s) {
        content_len(s, line_start(s, line))
    } else {
        0
    }
}

/// The characters of line `line`, terminator included.
pub open spec fn line_text(s: Seq<char>, line: nat) -> Seq<char> {
    s.subrange(line_start(s, line), line_start(s, line + 1))
}

/// The number of characters of the line break that `t` ends with.
pub open spec fn terminator_len(t: Seq<char>) -> nat {
    if t.len() >= 2 && t[t.len() - 2] == '\r' && t[t.len() - 1] == '\n' {
        2
    } else if t.len() >= 1 && is_break_char(t[t.len() - 1]) {
        1
    } else {
        0
    }
}

/// `s` with the characters of `[start, end)` taken out.
pub open spec fn without_range(s: Seq<char>, start: int, end: int) -> Seq<char> {
    s.subrange(0, start) + s.subrange(end, s.len() as int)
}

/// `s` with `t` put in at offset `idx`.
pub open spec fn with_inserted(s: Seq<char>, idx: int, t: Seq<char>) -> Seq<char> {
    s.subrange(0, idx) + t + s.subrange(idx, s.len() as int)
}

/// The concatenation of the pieces, first to last.
pub open spec fn concat_all(parts: Seq<String>) -> Seq<char>
    decreases parts.len(),
{
    if parts.len() == 0 {
        Seq::empty()
    } else {
        concat_all(parts.drop_last()) + parts.last()@
    }
}

/// No more breaks end up to a position than there are characters before it.
pub proof fn lemma_breaks_before_bounds(s: Seq<char>, p: int)
    ensures
        breaks_before(s, p) <= if p <= 0 {
            0
        } else {
            p
        },
    decreases p,
{
    if p > 0 {
        lemma_breaks_before_bounds(s, p - 1);
    }
}

/// The count of breaks grows with the position.
pub proof fn lemma_breaks_before_monotone(s: Seq<char>, p: int, q: int)
    requires
        p <= q,
    ensures
        breaks_before(s, p) <= breaks_before(s, q),
    decreases q - p,
{
    if p < q {
        lemma_breaks_before_monotone(s, p, q - 1);
    }
}

/// Where no break ends in `(p, q]`, the count does not change.
pub proof fn lemma_breaks_before_gap(s: Seq<char>, p: int, q: int)
    requires
        p <= q,
        forall|r: int| p < r <= q ==> !break_ends_at(s, r),
    ensures
        breaks_before(s, q) == breaks_before(s, p),
    decreases q - p,
{
    if p < q {
        lemma_breaks_before_gap(s, p, q - 1);
    }
}

/// Two texts that agree on `[0, n)` and at `n` have the same breaks up to `n`.
pub proof fn lemma_breaks_before_agree(s: Seq<char>, t: Seq<char>, n: int)
    requires
        0 <= n <= s.len(),
        n <= t.len(),
        forall|i: int| 0 <= i < n ==> s[i] == t[i],
        (n == s.len() && n == t.len()) || (n < s.len() && n < t.len() && s[n] == t[n]),
    ensures
        forall|p: int| p <= n ==> break_ends_at(s, p) == break_ends_at(t, p),
        forall|p: int| p <= n ==> breaks_before(s, p) == breaks_before(t, p),
{
    assert forall|p: int| p <= n implies breaks_before(s, p) == breaks_before(t, p) by {
        lemma_breaks_before_agree_upto(s, t, n, p);
    }
}

proof fn lemma_breaks_before_agree_upto(s: Seq<char>, t: Seq<char>, n: int, p: int)
    requires
        0 <= n <= s.len(),
        n <= t.len(),
        forall|i: int| 0 <= i < n ==> s[i] == t[i],
        (n == s.len() && n == t.len()) || (n < s.len() && n < t.len() && s[n] == t[n]),
        p <= n,
    ensures
        breaks_before(s, p) == breaks_before(t, p),
    decreases p,
{
    if p > 0 {
        lemma_breaks_before_agree_upto(s, t, n, p - 1);
    }
}

/// Two texts that agree on `[0, n)` have the same breaks strictly before `n`.
pub proof fn lemma_breaks_before_prefix(s: Seq<char>, t: Seq<char>, n: int)
    requires
        0 <= n <= s.len(),
        n <= t.len(),
        forall|i: int| 0 <= i < n ==> s[i] == t[i],
    ensures
        forall|p: int| p < n ==> break_ends_at(s, p) == break_ends_at(t, p),
        forall|p: int| p < n ==> breaks_before(s, p) == breaks_before(t, p),
{
    if n > 0 {
        let s1 = s.subrange(0, n);
        let t1 = t.subrange(0, n);
        assert(s1 =~= t1);
        lemma_breaks_before_agree(s, s1, n - 1);
        lemma_breaks_before_agree(t, t1, n - 1);
    } else {
        assert forall|p: int| p < n implies breaks_before(s, p) == breaks_before(t, p) by {}
    }
}

/// What `next_line_start` finds.
pub proof fn lemma_next_line_start(s: Seq<char>, p: int)
    requires
        0 <= p <= s.len(),
    ensures
        p <= next_line_start(s, p) <= s.len(),
        p < s.len() ==> p < next_line_start(s, p),
        forall|r: int| p < r < next_line_start(s, p) ==> !break_ends_at(s, r),
        next_line_start(s, p) < s.len() ==> break_ends_at(s, next_line_start(s, p)),
        breaks_before(s, next_line_start(s, p)) == breaks_before(s, p) + if p < s.len()
            && break_ends_at(s, next_line_start(s, p)) {
            1nat
        } else {
            0nat
        },
    decreases s.len() - p,
{
    if p < s.len() {
        if !break_ends_at(s, p + 1) {
            lemma_next_line_start(s, p + 1);
            let q = next_line_start(s, p + 1);
            assert(q == next_line_start(s, p));
            assert forall|r: int| p < r < q implies !break_ends_at(s, r) by {
                if r > p + 1 {
                }
            }
            if p + 1 < s.len() {
            } else {
                assert(q == s.len());
            }
        }
    }
}

/// Every existing line starts at a line start, with as many breaks before it
/// as its index says.
pub proof fn lemma_line_start(s: Seq<char>, line: nat)
    requires
        line < line_count(s),
    ensures
        0 <= line_start(s, line) <= s.len(),
        is_line_start(s, line_start(s, line)),
        breaks_before(s, line_start(s, line)) == line,
    decreases line,
{
    if line > 0 {
        let prev = (line - 1) as nat;
        lemma_line_start(s, prev);
        let p = line_start(s, prev);
        lemma_next_line_start(s, p);
        let q = next_line_start(s, p);
        if p >= s.len() || !break_ends_at(s, q) {
            // no further break: the text has only `line` lines
            if p < s.len() {
                assert(q == s.len());
            }
            assert(breaks_before(s, s.len() as int) == prev);
            assert(false);
        }
    }
}

/// From `line_count(s)` on, a line index maps to the end of the text.
pub proof fn lemma_line_start_past_end(s: Seq<char>, line: nat)
    requires
        line >= line_count(s),
    ensures
        line_start(s, line) == s.len(),
    decreases line,
{
    let prev = (line - 1) as nat;
    if prev < line_count(s) {
        lemma_line_start(s, prev);
        let p = line_start(s, prev);
        lemma_next_line_start(s, p);
        let q = next_line_start(s, p);
        if q < s.len() {
            lemma_breaks_before_monotone(s, q, s.len() as int);
            assert(false);
        }
    } else {
        lemma_line_start_past_end(s, prev);
    }
}

/// A line start is the start of the line that `char_to_line` gives for it.
pub proof fn lemma_line_start_unique(s: Seq<char>, p: int)
    requires
        0 <= p <= s.len(),
        is_line_start(s, p),
    ensures
        char_to_line(s, p) < line_count(s),
        line_start(s, char_to_line(s, p)) == p,
{
    let line = breaks_before(s, p);
    lemma_breaks_before_monotone(s, p, s.len() as int);
    lemma_line_start(s, line);
    let a = line_start(s, line);
    if a < p {
        lemma_breaks_before_monotone(s, a, p - 1);
        assert(false);
    }
    if p < a {
        lemma_breaks_before_monotone(s, p, a - 1);
        assert(false);
    }
}

/// The offset of a line and the line of an offset are inverse to each other at
/// line boundaries: the start of an existing line lies on that line.
pub proof fn lemma_line_offset_inverse(s: Seq<char>, line: nat)
    requires
        line < line_count(s),
    ensures
        char_to_line(s, line_start(s, line)) == line,
{
    lemma_line_start(s, line);
}

/// Lines follow each other: the next line starts at or after this one, inside
/// the text, and no break ends strictly between the two starts.
pub proof fn lemma_line_extent(s: Seq<char>, line: nat)
    requires
        line < line_count(s),
    ensures
        0 <= line_start(s, line) <= line_start(s, line + 1) <= s.len(),
        forall|r: int|
            line_start(s, line) < r < line_start(s, line + 1) ==> !break_ends_at(s, r),
        line + 1 < line_count(s) ==> line_start(s, line) < line_start(s, line + 1)
            && break_ends_at(s, line_start(s, line + 1)),
        line + 1 == line_count(s) ==> line_start(s, line + 1) == s.len() && forall|r: int|
            line_start(s, line) < r <= s.len() ==> !break_ends_at(s, r),
{
    lemma_line_start(s, line);
    let a = line_start(s, line);
    lemma_next_line_start(s, a);
    let b = next_line_start(s, a);
    assert(b == line_start(s, line + 1));
    if line + 1 < line_count(s) {
        lemma_line_start(s, line + 1);
    } else {
        lemma_line_start_past_end(s, line + 1);
        assert forall|r: int| a < r <= s.len() implies !break_ends_at(s, r) by {
            if r == s.len() && break_ends_at(s, r) {
                assert(a < s.len());
                assert(breaks_before(s, b) == line + 1);
            }
        }
    }
}

/// A run of characters that are no break characters is content.
pub proof fn lemma_content_len_at_least(s: Seq<char>, a: int, e: int)
    requires
        0 <= a <= e <= s.len(),
        forall|i: int| a <= i < e ==> !is_break_char(s[i]),
    ensures
        content_len(s, a) >= e - a,
    decreases e - a,
{
    if a < e {
        lemma_content_len_at_least(s, a + 1, e);
    }
}

/// A run of characters that are no break characters, closed by a break
/// character or the end of the text, is exactly the content from its start.
pub proof fn lemma_content_len_run(s: Seq<char>, a: int, e: int)
    requires
        0 <= a <= e <= s.len(),
        forall|i: int| a <= i < e ==> !is_break_char(s[i]),
        e == s.len() || is_break_char(s[e]),
    ensures
        content_len(s, a) == e - a,
    decreases e - a,
{
    if a < e {
        lemma_content_len_run(s, a + 1, e);
    }
}

/// The content that starts at `a` holds no break character and is closed by
/// one or by the end of the text.
pub proof fn lemma_content_len(s: Seq<char>, a: int)
    requires
        0 <= a <= s.len(),
    ensures
        a + content_len(s, a) <= s.len(),
        forall|i: int| a <= i < a + content_len(s, a) ==> !is_break_char(s[i]),
        a + content_len(s, a) == s.len() || is_break_char(s[a + content_len(s, a)]),
    decreases s.len() - a,
{
    if a < s.len() && !is_break_char(s[a]) {
        lemma_content_len(s, a + 1);
    }
}

/// Inside the content of a line no break ends, so every offset up to the end
/// of the content lies on that line.
pub proof fn lemma_content_on_line(s: Seq<char>, a: int, o: int)
    requires
        0 <= a <= s.len(),
        a <= o <= a + content_len(s, a),
    ensures
        o <= s.len(),
        breaks_before(s, o) == breaks_before(s, a),
{
    lemma_content_len(s, a);
    assert forall|r: int| a < r <= o implies !break_ends_at(s, r) by {
        assert(!is_break_char(s[r - 1]));
    }
    lemma_breaks_before_gap(s, a, o);
}

/// The length of a line is the length of its text without the line break that
/// the text ends with.
pub proof fn lemma_line_len_trimmed(s: Seq<char>, line: nat)
    requires
        line < line_count(s),
    ensures
        line_len(s, line) + terminator_len(line_text(s, line)) == line_text(s, line).len(),
{
    lemma_line_extent(s, line);
    let a = line_start(s, line);
    let b = line_start(s, line + 1);
    let t = line_text(s, line);
    assert(t.len() == b - a);
    assert forall|i: int| a <= i < b implies t[i - a] == s[i] by {}
    // every character but the last two is content
    assert forall|i: int| a <= i < b - 2 implies !is_break_char(s[i]) by {
        assert(!break_ends_at(s, i + 1));
        if is_break_char(s[i]) {
            assert(break_ends_at(s, i + 2));
        }
    }
    if line + 1 == line_count(s) {
        assert forall|i: int| a <= i < b implies !is_break_char(s[i]) by {
            assert(!break_ends_at(s, i + 1));
            if is_break_char(s[i]) {
                assert(i + 1 < s.len());
                assert(break_ends_at(s, i + 2));
            }
        }
        lemma_content_len_run(s, a, b);
        if b > a {
            assert(t[t.len() - 1] == s[b - 1]);
        }
    } else {
        assert(break_ends_at(s, b));
        assert(t[t.len() - 1] == s[b - 1]);
        if b - 2 >= a && s[b - 2] == '\r' && s[b - 1] == '\n' {
            assert(t[t.len() - 2] == s[b - 2]);
            lemma_content_len_run(s, a, b - 2);
        } else {
            if b - 2 >= a {
                assert(t[t.len() - 2] == s[b - 2]);
                assert(!break_ends_at(s, b - 1));
                assert(!is_break_char(s[b - 2]));
            }
            lemma_content_len_run(s, a, b - 1);
        }
    }
}

/// Every line but the last ends with a line terminator, and the last line
/// ends with none.
pub proof fn lemma_line_terminators(s: Seq<char>, line: nat)
    requires
        line < line_count(s),
    ensures
        line + 1 < line_count(s) ==> terminator_len(line_text(s, line)) >= 1,
        line + 1 == line_count(s) ==> terminator_len(line_text(s, line)) == 0 && line_len(
            s,
            line,
        ) == line_text(s, line).len(),
{
    lemma_line_extent(s, line);
    lemma_line_len_trimmed(s, line);
    let a = line_start(s, line);
    let b = line_start(s, line + 1);
    let t = line_text(s, line);
    if line + 1 < line_count(s) {
        assert(t[t.len() - 1] == s[b - 1]);
    } else if a < b {
        assert(t[t.len() - 1] == s[b - 1]);
        assert(!break_ends_at(s, b));
    }
}

/// No line is longer than the text.
pub proof fn lemma_line_len_bound(text: Seq<char>, line: nat)
    ensures
        line_len(text, line) <= text.len(),
{
    if line < line_count(text) {
        lemma_line_start(text, line);
        lemma_content_len(text, line_start(text, line));
    }
}

} // verus!
