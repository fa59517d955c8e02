//! A menu that opens over the widget it belongs to.

use vstd::prelude::*;

verus! {

/// The side of its base on which a menu opens.
#[derive(Debug, Clone, Copy, PartialEq, Eq, Structural)]
pub enum Anchor {
    Top,
    Bottom,
    Left,
    Right,
}

impl Default for Anchor {
    fn default() -> (anchor: Anchor)
        ensures
            anchor == Anchor::Top,
    {
        Anchor::Top
    }
}

} // verus!
