//! What can go wrong between compiling a document and writing it out.

use crate::text::{chars_of, string_of};
use vstd::prelude::*;

verus! {

/// A failure of compilation, export or of reading and writing a file. Each
/// carries the words that say what happened.
#[derive(Debug, Clone, PartialEq, Eq)]
pub enum ExportError {
    /// The compiler gave up; the message holds its diagnostics.
    CompilationError(String),
    /// The document compiled but no PDF could be made of it.
    PdfGenerationError(String),
    /// A file could not be written.
    FileWriteError(String),
    /// A file could not be read.
    FileReadError(String),
}

/// The words that introduce each kind of failure.
pub open spec fn heading_of(error: ExportError) -> Seq<char> {
    match error {
        ExportError::CompilationError(_) => "Can't compile document: "@,
        ExportError::PdfGenerationError(_) => "Can't generate PDF: "@,
        ExportError::FileWriteError(_) => "Can't write file: "@,
        ExportError::FileReadError(_) => "Can't read file: "@,
    }
}

/// The words carried by a failure.
pub open spec fn detail_of(error: ExportError) -> Seq<char> {
    match error {
        ExportError::CompilationError(message) => message@,
        ExportError::PdfGenerationError(message) => message@,
        ExportError::FileWriteError(message) => message@,
        ExportError::FileReadError(message) => message@,
    }
}

/// One text after another.
pub fn append_text(head: &str, tail: &str) -> (out: String)
    ensures
        out@ == head@ + tail@,
{
    let mut chars = chars_of(head);
    let rest = chars_of(tail);
    let mut i: usize = 0;
    while i < rest.len()
        invariant
            i <= rest.len(),
            chars@ == head@ + rest@.take(i as int),
        decreases rest.len() - i,
    {
        chars.push(rest[i]);
        assert(rest@.take(i + 1) =~= rest@.take(i as int).push(rest@[i as int]));
        i += 1;
    }
    assert(rest@.take(rest.len() as int) =~= rest@);
    string_of(&chars)
}

impl ExportError {
    /// The failure in words: what kind it is, then what it carries.
    pub fn to_string(&self) -> (text: String)
        ensures
            text@ == heading_of(*self) + detail_of(*self),
    {
        match self {
            ExportError::CompilationError(message) => append_text(
                "Can't compile document: ",
                message.as_str(),
            ),
            ExportError::PdfGenerationError(message) => append_text(
                "Can't generate PDF: ",
                message.as_str(),
            ),
            ExportError::FileWriteError(message) => append_text("Can't write file: ", message.as_str()),
            ExportError::FileReadError(message) => append_text("Can't read file: ", message.as_str()),
        }
    }
}

} // verus!
