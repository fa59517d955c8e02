//! The parts that a screen is made of.

pub mod debug;
pub mod file_tree;
pub mod modal;
pub mod pop_up;
pub mod preview;
pub mod toolbar;
