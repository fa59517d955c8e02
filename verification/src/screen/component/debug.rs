//! The panel that shows what the compiler complained about.

use vstd::prelude::*;

verus! {

/// The compiler's complaints, ready to be shown.
#[derive(Debug, Clone, PartialEq, Eq)]
pub struct DebugZone {
    typst_errors: String,
}

impl View for DebugZone {
    type V = Seq<char>;

    closed spec fn view(&self) -> Seq<char> {
        self.typst_errors@
    }
}

impl DebugZone {
    /// A panel for the given complaints.
    pub fn new(typst_errors: String) -> (zone: DebugZone)
        ensures
            zone@ == typst_errors@,
    {
        Self { typst_errors }
    }

    /// The complaints as they are shown.
    pub fn errors(&self) -> (errors: String)
        ensures
            errors@ == self@,
    {
        self.typst_errors.clone()
    }
}

/// What happens to the panel.
#[derive(Debug, Clone, PartialEq, Eq)]
pub enum Message {
    /// Complaints are to be shown.
    ShowErrors(DebugZone),
    /// The panel is to go away.
    HideErrors,
}

} // verus!
