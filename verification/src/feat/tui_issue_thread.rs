//! The page that shows one issue with its comments.

pub mod draw;
pub mod input;
pub mod state;

pub use input::{IssueThreadPageInput, IssueThreadPageInputError, ThreadKey};
pub use state::IssueThreadState;
