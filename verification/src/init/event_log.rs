//! The file of the event log.

use vstd::prelude::*;

verus! {

/// Error type representing failures that can occur when creating an event log file.
///
/// This error is returned when operations related to event log initialization fail,
/// such as unable to get the current directory, create necessary directories, or
/// open/create the log file.
#[derive(Debug, Clone, Copy, PartialEq, Eq)]
pub struct CreateEventLogError;

} // verus!
