//! The document: a text with the path of its file and a flag that says
//! whether it has changed since it was last written.

use crate::buffer::RopeBuffer;
use crate::strings::{contains_subseq, path_file_name};
use crate::text::{
    char_to_line, line_count, line_len, line_start, line_text, with_inserted, without_range,
};
use std::ops::Range;
use vstd::prelude::*;

verus! {

/// What a document is: its text, the path of its file and whether the text
/// has changed since the file was written.
pub ghost struct DocumentView {
    pub text: Seq<char>,
    pub path: Option<Seq<char>>,
    pub modified: bool,
}

/// A text under edit.
pub struct Document {
    buffer: RopeBuffer,
    file_path: Option<String>,
    modified: bool,
}

/// The name shown for a document without a file.
pub open spec fn placeholder_name() -> Seq<char> {
    "[No Name]"@
}

/// The name shown for a document: the final component of its path, or the
/// placeholder where there is none.
pub open spec fn shown_name(component: Option<Seq<char>>) -> Seq<char> {
    match component {
        Some(name) => name,
        None => placeholder_name(),
    }
}

impl View for Document {
    type V = DocumentView;

    closed spec fn view(&self) -> DocumentView {
        DocumentView {
            text: self.buffer@,
            path: match self.file_path {
                Some(path) => Some(path@),
                None => None,
            },
            modified: self.modified,
        }
    }
}

impl Document {
    /// An empty document without a file.
    pub fn new() -> (document: Self)
        ensures
            document@.text == Seq::<char>::empty(),
            document@.path is None,
            !document@.modified,
    {
        Self { buffer: RopeBuffer::new(), file_path: None, modified: false }
    }

    /// The document of the text `buffer`, as read from `path`.
    pub fn from_buffer(buffer: RopeBuffer, path: Option<String>) -> (document: Self)
        ensures
            document@.text == buffer@,
            document@.path == match path {
                Some(p) => Some(p@),
                None => None,
            },
            !document@.modified,
    {
        Self { buffer, file_path: path, modified: false }
    }

    /// The text.
    pub fn buffer(&self) -> (buffer: &RopeBuffer)
        ensures
            buffer@ == self@.text,
    {
        &self.buffer
    }

    /// The text, to be edited: the document counts as changed from here on.
    pub fn buffer_mut(&mut self) -> (buffer: &mut RopeBuffer)
        ensures
            buffer@ == old(self)@.text,
            final(self)@.text == final(buffer)@,
            final(self)@.path == old(self)@.path,
            final(self)@.modified,
    {
        self.modified = true;
        &mut self.buffer
    }

    /// The number of lines of the text, which is never zero.
    pub fn len_lines(&self) -> (n: usize)
        ensures
            n == line_count(self@.text),
            n >= 1,
    {
        self.buffer.len_lines()
    }

    /// The number of characters of the text.
    pub fn len_chars(&self) -> (n: usize)
        ensures
            n == self@.text.len(),
    {
        self.buffer.len_chars()
    }

    /// Puts `ch` into the text at offset `idx`; the document counts as
    /// changed.
    pub fn insert_char(&mut self, idx: usize, ch: char)
        requires
            idx <= old(self)@.text.len(),
        ensures
            final(self)@ == (DocumentView {
                text: old(self)@.text.insert(idx as int, ch),
                modified: true,
                ..old(self)@
            }),
    {
        self.buffer.insert_char(idx, ch);
        self.modified = true;
    }

    /// Puts the characters of `text` into the text at offset `idx`; the
    /// document counts as changed.
    pub fn insert(&mut self, idx: usize, text: &str)
        requires
            idx <= old(self)@.text.len(),
        ensures
            final(self)@ == (DocumentView {
                text: with_inserted(old(self)@.text, idx as int, text@),
                modified: true,
                ..old(self)@
            }),
    {
        self.buffer.insert(idx, text);
        self.modified = true;
    }

    /// Takes the characters of `range` out of the text; the document then
    /// counts as changed. A range that is empty, runs backwards or ends past
    /// the text leaves the document as it is.
    pub fn remove(&mut self, range: Range<usize>)
        ensures
            final(self)@ == if range.start < range.end && range.end <= old(self)@.text.len() {
                DocumentView {
                    text: without_range(old(self)@.text, range.start as int, range.end as int),
                    modified: true,
                    ..old(self)@
                }
            } else {
                old(self)@
            },
    {
        if range.start < range.end && range.end <= self.buffer.len_chars() {
            self.buffer.remove(range);
            self.modified = true;
        }
    }

    /// Line `line_idx` with its terminator, where there is such a line.
    pub fn line(&self, line_idx: usize) -> (line: Option<String>)
        ensures
            line is Some <==> line_idx < line_count(self@.text),
            line is Some ==> line->0@ == line_text(self@.text, line_idx as nat),
    {
        self.buffer.line(line_idx)
    }

    /// The number of characters of line `line_idx` before its terminator; 0
    /// where there is no such line.
    pub fn line_len(&self, line_idx: usize) -> (n: usize)
        ensures
            n == line_len(self@.text, line_idx as nat),
    {
        self.buffer.line_len(line_idx)
    }

    /// The index of the line that holds offset `char_idx`.
    pub fn char_to_line(&self, char_idx: usize) -> (line: usize)
        requires
            char_idx <= self@.text.len(),
        ensures
            line == char_to_line(self@.text, char_idx as int),
            line < line_count(self@.text),
    {
        self.buffer.char_to_line(char_idx)
    }

    /// The offset at which line `line_idx` starts; for the index one past the
    /// last line, the length of the text.
    pub fn line_to_char(&self, line_idx: usize) -> (idx: usize)
        requires
            line_idx <= line_count(self@.text),
        ensures
            idx == line_start(self@.text, line_idx as nat),
            idx <= self@.text.len(),
            line_idx < line_count(self@.text) ==> char_to_line(self@.text, idx as int)
                == line_idx,
    {
        self.buffer.line_to_char(line_idx)
    }

    /// The characters of `[start, end)`; nothing for a range that is empty,
    /// runs backwards or ends past the text.
    pub fn get_slice(&self, start: usize, end: usize) -> (text: String)
        ensures
            text@ == if start < end && end <= self@.text.len() {
                self@.text.subrange(start as int, end as int)
            } else {
                Seq::<char>::empty()
            },
    {
        self.buffer.get_slice(start, end)
    }

    /// The path of the file, where the document has one.
    pub fn file_path(&self) -> (path: Option<&String>)
        ensures
            path is Some <==> self@.path is Some,
            path is Some ==> path->0@ == self@.path->0,
    {
        self.file_path.as_ref()
    }

    /// Sets the path of the file.
    pub fn set_file_path(&mut self, path: String)
        ensures
            final(self)@ == (DocumentView { path: Some(path@), ..old(self)@ }),
    {
        self.file_path = Some(path);
    }

    /// Whether the text has changed since the file was written.
    pub fn is_modified(&self) -> (modified: bool)
        ensures
            modified == self@.modified,
    {
        self.modified
    }

    /// Records that the file holds the text.
    pub fn mark_saved(&mut self)
        ensures
            final(self)@ == (DocumentView { modified: false, ..old(self)@ }),
    {
        self.modified = false;
    }

    /// Records that the text has changed.
    pub fn mark_modified(&mut self)
        ensures
            final(self)@ == (DocumentView { modified: true, ..old(self)@ }),
    {
        self.modified = true;
    }

    /// The name to show for a path component: the component itself, or the
    /// placeholder where there is none.
    pub fn display_name(component: Option<String>) -> (name: String)
        ensures
            name@ == shown_name(
                match component {
                    Some(c) => Some(c@),
                    None => None,
                },
            ),
    {
        match component {
            Some(name) => name,
            None => "[No Name]".to_owned(),
        }
    }

    /// The name to show for the document: the placeholder where it has no
    /// file, else the final component of its path, or the placeholder where
    /// the path has none.
    pub fn file_name(&self) -> (name: String)
        ensures
            self@.path is None ==> name@ == placeholder_name(),
            name@ == placeholder_name() || (self@.path is Some && contains_subseq(
                self@.path->0,
                name@,
            )),
    {
        match &self.file_path {
            Some(path) => Self::display_name(path_file_name(path.as_str())),
            None => Self::display_name(None),
        }
    }
}

impl Default for Document {
    fn default() -> (document: Self)
        ensures
            document@.text == Seq::<char>::empty(),
            document@.path is None,
            !document@.modified,
    {
        Self::new()
    }
}

} // verus!
