//! What is set up before the application starts.

pub mod event_log;
pub mod trace;
