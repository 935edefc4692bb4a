//! The text of the status bar: the name of the document, the position of
//! the cursor and the number of lines.

use crate::cursor::CursorPosition;
use crate::line_numbers::{decimal, decimal_text};
use crate::strings::{display_width, str_display_width};
use vstd::prelude::*;

verus! {

/// The left part of the status bar: the name, the mark of unsaved changes,
/// and line and column of the cursor, both counted from one.
pub open spec fn status_text(name: Seq<char>, modified: bool, cursor: CursorPosition) -> Seq<
    char,
> {
    " "@ + name + " "@ + if modified {
        " [+]"@
    } else {
        ""@
    } + "  Ln "@ + decimal((cursor.line + 1) as nat) + ", Col "@ + decimal(
        (cursor.column + 1) as nat,
    )
}

/// The right part of the status bar: the number of lines.
pub open spec fn line_count_text(lines: usize) -> Seq<char> {
    " "@ + decimal(lines as nat) + " lines "@
}

/// The number of columns between the two parts: what the bar has left over,
/// and nothing where they do not fit.
pub open spec fn padding_columns(bar_width: u16, left_width: nat, right_width: nat) -> int {
    if bar_width - left_width - right_width > 0 {
        bar_width - left_width - right_width
    } else {
        0
    }
}

/// The parts of the status bar.
pub struct StatusBar;

impl StatusBar {
    /// The left part of the status bar.
    pub fn status(name: &str, modified: bool, cursor: &CursorPosition) -> (text: String)
        ensures
            text@ == status_text(name@, modified, *cursor),
    {
        let mark = if modified {
            " [+]"
        } else {
            ""
        };
        let line = decimal_text(cursor.line as u128 + 1);
        let column = decimal_text(cursor.column as u128 + 1);
        " ".to_owned().concat(name).concat(" ").concat(mark).concat("  Ln ").concat(
            line.as_str(),
        ).concat(", Col ").concat(column.as_str())
    }

    /// The right part of the status bar.
    pub fn line_count(lines: usize) -> (text: String)
        ensures
            text@ == line_count_text(lines),
    {
        let count = decimal_text(lines as u128);
        " ".to_owned().concat(count.as_str()).concat(" lines ")
    }

    /// The number of columns to leave between two parts that are
    /// `left_width` and `right_width` columns wide.
    pub fn padding_width(bar_width: u16, left_width: usize, right_width: usize) -> (columns: u16)
        ensures
            columns == padding_columns(bar_width, left_width as nat, right_width as nat),
    {
        let total: usize = bar_width as usize;
        if left_width >= total {
            0
        } else if right_width >= total - left_width {
            0
        } else {
            (total - left_width - right_width) as u16
        }
    }

    /// The number of columns to leave between the two parts of the bar, by
    /// the widths at which a terminal displays them.
    pub fn padding(bar_width: u16, left: &str, right: &str) -> (columns: u16)
        ensures
            columns == padding_columns(bar_width, display_width(left@), display_width(right@)),
    {
        Self::padding_width(bar_width, str_display_width(left), str_display_width(right))
    }
}

} // verus!
