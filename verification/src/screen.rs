//! The screens of the editor, as far as they decide anything.

use crate::screen::editing::Editing;
use crate::screen::welcome::Welcome;
use vstd::prelude::*;

pub mod component;
pub mod editing;
pub mod welcome;

verus! {

/// The screen that is shown.
#[derive(Debug)]
pub enum Screen {
    /// A project is open.
    Editing(Editing),
    /// No project is open yet.
    Welcome(Welcome),
}

} // verus!
