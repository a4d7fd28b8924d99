//! Types that can be attached to error reports.

use vstd::prelude::*;

verus! {

/// Show a suggestion.
#[derive(Debug, Clone, Copy, PartialEq, Eq)]
pub struct Suggestion(pub &'static str);

/// Indicate that some item is missing.
#[derive(Debug, Clone, PartialEq, Eq)]
pub struct Missing(pub String);

} // verus!
