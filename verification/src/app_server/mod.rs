//! Automatic hand-off of a thread that the app server runs.

pub mod laws;
pub mod protocol;
pub mod state;
pub mod steps;
