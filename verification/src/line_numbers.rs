//! The line numbers of the gutter: counted from one, right-aligned in four
//! columns, followed by one space.

use crate::strings::string_push;
use vstd::prelude::*;

verus! {

/// The decimal digit of a number below ten.
pub open spec fn digit_char(d: nat) -> char {
    if d == 0 {
        '0'
    } else if d == 1 {
        '1'
    } else if d == 2 {
        '2'
    } else if d == 3 {
        '3'
    } else if d == 4 {
        '4'
    } else if d == 5 {
        '5'
    } else if d == 6 {
        '6'
    } else if d == 7 {
        '7'
    } else if d == 8 {
        '8'
    } else {
        '9'
    }
}

/// The decimal digits of `n`, most significant first.
pub open spec fn decimal(n: nat) -> Seq<char>
    decreases n,
{
    if n < 10 {
        seq![digit_char(n)]
    } else {
        decimal(n / 10).push(digit_char(n % 10))
    }
}

/// `count` spaces.
pub open spec fn spaces(count: nat) -> Seq<char> {
    Seq::new(count, |i: int| ' ')
}

/// `s` with spaces before it, so that it fills `width` columns; `s` itself
/// where it is wider.
pub open spec fn right_aligned(s: Seq<char>, width: nat) -> Seq<char> {
    if s.len() >= width {
        s
    } else {
        spaces((width - s.len()) as nat) + s
    }
}

/// The gutter text of the line with index `line_idx`.
pub open spec fn gutter_text(line_idx: usize) -> Seq<char> {
    right_aligned(decimal((line_idx + 1) as nat), 4).push(' ')
}

/// The digit of a number below ten.
fn digit_of(d: u128) -> (c: char)
    requires
        d < 10,
    ensures
        c == digit_char(d as nat),
{
    if d == 0 {
        '0'
    } else if d == 1 {
        '1'
    } else if d == 2 {
        '2'
    } else if d == 3 {
        '3'
    } else if d == 4 {
        '4'
    } else if d == 5 {
        '5'
    } else if d == 6 {
        '6'
    } else if d == 7 {
        '7'
    } else if d == 8 {
        '8'
    } else {
        '9'
    }
}

/// The digits of `n`, least significant first.
fn digits_reversed(n: u128) -> (digits: Vec<char>)
    ensures
        digits@.reverse() == decimal(n as nat),
        digits@.len() >= 1,
    decreases n,
{
    if n < 10 {
        let mut digits: Vec<char> = Vec::new();
        digits.push(digit_of(n));
        assert(digits@.reverse() =~= seq![digit_char(n as nat)]);
        digits
    } else {
        let mut digits: Vec<char> = Vec::new();
        digits.push(digit_of(n % 10));
        let mut rest = digits_reversed(n / 10);
        let ghost rest_seq = rest@;
        digits.append(&mut rest);
        assert(digits@ =~= seq![digit_char((n % 10) as nat)] + rest_seq);
        assert(digits@.reverse() =~= rest_seq.reverse().push(digit_char((n % 10) as nat)));
        digits
    }
}

/// The decimal digits of `n` as a string.
pub fn decimal_text(n: u128) -> (text: String)
    ensures
        text@ == decimal(n as nat),
{
    let digits = digits_reversed(n);
    let mut text = String::new();
    let mut i: usize = digits.len();
    while i > 0
        invariant
            i <= digits.len(),
            text@ == digits@.reverse().take(digits.len() - i),
        decreases i,
    {
        i -= 1;
        string_push(&mut text, digits[i]);
        assert(digits@.reverse().take(digits.len() - i) =~= digits@.reverse().take(
            digits.len() - i - 1,
        ).push(digits@[i as int]));
    }
    assert(digits@.reverse().take(digits.len() as int) =~= digits@.reverse());
    text
}

/// The format of line numbers.
pub struct LineNumbers;

impl LineNumbers {
    /// The gutter text of the line with index `line_idx`: its number, counted
    /// from one, right-aligned in four columns, and a space.
    pub fn format(line_idx: usize) -> (text: String)
        ensures
            text@ == gutter_text(line_idx),
    {
        let number: u128 = line_idx as u128 + 1;
        let digits = digits_reversed(number);
        let mut text = String::new();
        let mut pad: usize = if digits.len() < 4 {
            4 - digits.len()
        } else {
            0
        };
        let ghost padding = pad as nat;
        while pad > 0
            invariant
                pad <= padding,
                text@ == spaces((padding - pad) as nat),
            decreases pad,
        {
            string_push(&mut text, ' ');
            pad -= 1;
            assert(text@ =~= spaces((padding - pad) as nat));
        }
        assert(text@ =~= spaces(padding));
        let mut i: usize = digits.len();
        while i > 0
            invariant
                i <= digits.len(),
                text@ == spaces(padding) + digits@.reverse().take(digits.len() - i),
            decreases i,
        {
            i -= 1;
            string_push(&mut text, digits[i]);
            assert(digits@.reverse().take(digits.len() - i) =~= digits@.reverse().take(
                digits.len() - i - 1,
            ).push(digits@[i as int]));
            assert(text@ =~= spaces(padding) + digits@.reverse().take(digits.len() - i));
        }
        assert(digits@.reverse().take(digits.len() as int) =~= digits@.reverse());
        string_push(&mut text, ' ');
        assert(text@ =~= gutter_text(line_idx));
        text
    }

    /// The number of columns that the gutter takes.
    pub fn width() -> (columns: usize)
        ensures
            columns == 5,
    {
        5
    }
}

} // verus!
