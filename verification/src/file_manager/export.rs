//! What a project can be exported as.

use vstd::prelude::*;

pub mod errors;
pub mod pdf;
pub mod svg;
pub mod template;

verus! {

/// The forms in which a project leaves the editor.
#[derive(Debug, Clone, Copy, PartialEq, Eq, Structural)]
pub enum ExportType {
    PDF,
    SVG,
    Template,
}

} // verus!
