//! The fields that a new issue is written with.

use crate::feat::issue::Priority;
use std::collections::HashMap;
use vstd::prelude::*;

verus! {

/// Template used to create an issue from a text file.
///
/// These are the minimum fields required.
#[derive(Debug, Clone, PartialEq, Eq)]
pub struct IssueItemTemplate {
    pub title: String,
    pub priority: Priority,
    pub created_by: String,
    pub custom: HashMap<String, String>,
}

} // verus!
