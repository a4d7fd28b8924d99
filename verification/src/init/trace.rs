//! The filter of the trace output.

use vstd::prelude::*;
use vstd::string::StringExecFns;

verus! {

/// Error type returned when tracing subscriber initialization fails.
///
/// This error is used when the tracing system cannot be properly initialized,
/// such as when failing to open or configure log files.
#[derive(Debug, Clone, Copy, PartialEq, Eq)]
pub struct TracingInitError;

/// The filter that the trace output is set up with: the one that the
/// environment gives where it gives one, and else this program at the level
/// of the verbosity.
pub open spec fn filter_text(from_environment: Option<Seq<char>>, verbosity: Seq<char>) -> Seq<
    char,
> {
    match from_environment {
        Some(filter) => filter,
        None => "intrack="@ + verbosity,
    }
}

/// The filter that the trace output is set up with.
pub fn trace_filter(from_environment: Option<String>, verbosity: &str) -> (r: String)
    ensures
        r@ == filter_text(
            match from_environment {
                Some(filter) => Some(filter@),
                None => None,
            },
            verbosity@,
        ),
{
    match from_environment {
        Some(filter) => filter,
        None => {
            let mut filter = "intrack=".to_owned();
            filter.append(verbosity);
            filter
        },
    }
}

} // verus!
