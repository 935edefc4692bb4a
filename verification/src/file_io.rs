//! What reading and writing a file mean for a document. The file system is
//! not touched here: the caller reads and writes, and hands the outcome in.

use crate::buffer::RopeBuffer;
use crate::document::{Document, DocumentView};
use crate::text::concat_all;
use vstd::prelude::*;

verus! {

/// The error of a save that has nowhere to write.
pub open spec fn no_path_error() -> Seq<char> {
    "No file path set"@
}

/// The outcome of a write as the model has it: the error, where it failed.
pub open spec fn failure_of(outcome: Result<(), String>) -> Option<Seq<char>> {
    match outcome {
        Ok(_) => None,
        Err(error) => Some(error@),
    }
}

/// The document that a read of `path` gives: the content read, under that
/// path, unchanged.
pub open spec fn loaded_document(path: Seq<char>, content: Seq<char>) -> DocumentView {
    DocumentView { text: content, path: Some(path), modified: false }
}

/// A save in place: without a path it fails and nothing changes; with one the
/// document counts as written where the write succeeded, and stays as it was
/// where the write failed.
pub open spec fn save_result(document: DocumentView, failure: Option<Seq<char>>) -> (
    DocumentView,
    Option<Seq<char>>,
) {
    if document.path is None {
        (document, Some(no_path_error()))
    } else {
        match failure {
            None => (DocumentView { modified: false, ..document }, None),
            Some(error) => (document, Some(error)),
        }
    }
}

/// A save under `path`: the document takes the path and counts as written
/// where the write succeeded, and stays as it was where the write failed.
pub open spec fn save_as_result(
    document: DocumentView,
    path: Seq<char>,
    failure: Option<Seq<char>>,
) -> (DocumentView, Option<Seq<char>>) {
    match failure {
        None => (DocumentView { path: Some(path), modified: false, ..document }, None),
        Some(error) => (document, Some(error)),
    }
}

/// The meaning of file operations for a document.
pub struct FileIO;

impl FileIO {
    /// The document for the content `content` read from `path`.
    pub fn load_from_file(path: &str, content: &str) -> (document: Document)
        ensures
            document@ == loaded_document(path@, content@),
    {
        Document::from_buffer(RopeBuffer::from_string(content), Some(path.to_owned()))
    }

    /// What a write of the document puts in its file: the text, in the
    /// pieces in which it is stored.
    pub fn content(document: &Document) -> (parts: Vec<String>)
        ensures
            concat_all(parts@) == document@.text,
    {
        document.buffer().chunks()
    }

    /// Takes the outcome of a write of the document to its own file.
    pub fn save_document(document: &mut Document, outcome: Result<(), String>) -> (result:
        Result<(), String>)
        ensures
            (final(document)@, failure_of(result)) == save_result(
                old(document)@,
                failure_of(outcome),
            ),
    {
        if document.file_path().is_none() {
            return Err("No file path set".to_owned());
        }
        match outcome {
            Ok(_) => {
                document.mark_saved();
                Ok(())
            },
            Err(error) => Err(error),
        }
    }

    /// Takes the outcome of a write of the document to the file at `path`.
    pub fn save_document_as(
        document: &mut Document,
        path: &str,
        outcome: Result<(), String>,
    ) -> (result: Result<(), String>)
        ensures
            (final(document)@, failure_of(result)) == save_as_result(
                old(document)@,
                path@,
                failure_of(outcome),
            ),
    {
        match outcome {
            Ok(_) => {
                document.set_file_path(path.to_owned());
                document.mark_saved();
                Ok(())
            },
            Err(error) => Err(error),
        }
    }
}

/// The command that opens a file.
pub struct OpenFile;

impl OpenFile {
    /// The document for the content `content` read from `path`.
    pub fn execute(path: &str, content: &str) -> (document: Document)
        ensures
            document@ == loaded_document(path@, content@),
    {
        FileIO::load_from_file(path, content)
    }
}

/// The command that saves in place.
pub struct SaveFile;

impl SaveFile {
    /// Takes the outcome of a write of the document to its own file.
    pub fn execute(document: &mut Document, outcome: Result<(), String>) -> (result: Result<
        (),
        String,
    >)
        ensures
            (final(document)@, failure_of(result)) == save_result(
                old(document)@,
                failure_of(outcome),
            ),
    {
        FileIO::save_document(document, outcome)
    }
}

/// The command that saves under a new path.
pub struct SaveFileAs;

impl SaveFileAs {
    /// Takes the outcome of a write of the document to the file at `path`.
    pub fn execute(document: &mut Document, path: &str, outcome: Result<(), String>) -> (result:
        Result<(), String>)
        ensures
            (final(document)@, failure_of(result)) == save_as_result(
                old(document)@,
                path@,
                failure_of(outcome),
            ),
    {
        FileIO::save_document_as(document, path, outcome)
    }
}

} // verus!
