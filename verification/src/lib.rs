//! Issue tracking for a terminal: an event-sourced issue store, the input
//! router of the terminal interface, and the state machines that guard the
//! terminal session, the event multiplexer and the external editor.

pub mod app;
pub mod common;
pub mod feat;
pub mod init;
pub mod text;

pub use app::{App, AppError, EventHandlerError};
