//! What may be brought into a project.

use vstd::prelude::*;

pub mod load;

verus! {

/// Which files an upload offers to pick from.
#[derive(Debug, Clone, Copy, PartialEq, Eq, Structural)]
pub enum UploadType {
    /// Sources and the usual assets.
    All,
    /// Sources only.
    Template,
}

/// The extensions offered when everything may be uploaded.
pub const ALL_TYPES: [&'static str; 5] = ["typ", "png", "jpg", "jpeg", "svg"];

/// The extensions offered when only a template may be uploaded.
pub const TEMPLATE: [&'static str; 1] = ["typ"];

} // verus!
