//! Two panes with a movable divider between them.

use vstd::prelude::*;

verus! {

/// How the place of the divider is counted.
#[derive(Clone, Copy, Debug, PartialEq, Eq, Structural)]
pub enum Strategy {
    /// As a share of the whole.
    Relative,
    /// From the start of the first pane.
    Start,
    /// From the end of the second pane.
    End,
}

impl Default for Strategy {
    fn default() -> (strategy: Strategy)
        ensures
            strategy == Strategy::Relative,
    {
        Strategy::Relative
    }
}

/// The direction in which the panes follow one another.
#[derive(Clone, Copy, Debug, PartialEq, Eq, Structural)]
pub enum Direction {
    Horizontal,
    Vertical,
}

impl Default for Direction {
    fn default() -> (direction: Direction)
        ensures
            direction == Direction::Vertical,
    {
        Direction::Vertical
    }
}

} // verus!
