//! Automatic hand-off of a session that the terminal interface drives itself.

pub mod laws;
pub mod state;
pub mod steps;
pub mod widget;
