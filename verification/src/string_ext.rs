//! Trimming the line ending off a line of text.

use crate::strings::{str_trim_line_endings, without_line_endings};
use vstd::prelude::*;

verus! {

/// Texts that can be trimmed of their line endings.
pub trait StringExt {
    /// The characters of the text.
    spec fn characters(&self) -> Seq<char>;

    /// The text without the line feeds and carriage returns at its end.
    fn trim_line_endings(&self) -> (trimmed: &str)
        ensures
            trimmed@ == without_line_endings(self.characters()),
    ;
}

impl StringExt for str {
    open spec fn characters(&self) -> Seq<char> {
        self@
    }

    fn trim_line_endings(&self) -> (trimmed: &str) {
        str_trim_line_endings(self)
    }
}

} // verus!
