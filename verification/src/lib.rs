//! Automatic hand-off to a fresh session after repeated compactions of the context.

pub mod app_server;
pub mod chat_widget;
pub mod counting;
pub mod prompt;
pub mod text;
