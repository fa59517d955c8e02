//! Exporting a file as a template.

use crate::file_manager::export::errors::ExportError;
use crate::path::{file_name_of, join_of, path_of, FsPath};
use vstd::prelude::*;

verus! {

/// Where the template made of the file at `file_path` goes: under the
/// file's own name, in `output_path`. A path that names no file cannot be
/// read.
pub fn template_path(file_path: &FsPath, output_path: &FsPath) -> (path: Result<FsPath, ExportError>)
    ensures
        match file_name_of(file_path@) {
            Some(name) => path matches Ok(p) && p@ == join_of(output_path@, path_of(name)),
            None => path matches Err(ExportError::FileReadError(reason)) && reason@
                == "Can't read file name"@,
        },
{
    match file_path.file_name() {
        Some(name) => Ok(output_path.join_name(name.as_str())),
        None => Err(ExportError::FileReadError(String::from_str("Can't read file name"))),
    }
}

} // verus!
