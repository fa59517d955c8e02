//! Exporting a project as one PDF.

use crate::path::{with_extension_of, FsPath};
use vstd::prelude::*;

verus! {

/// The file that a PDF export writes when the user picked `output_path`:
/// the same file, with the extension of a PDF.
pub fn pdf_path(output_path: &FsPath) -> (path: FsPath)
    ensures
        path@ == with_extension_of(output_path@, "pdf"@),
{
    output_path.with_extension("pdf")
}

} // verus!
