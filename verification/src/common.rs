//! Items shared by the whole tracker.

pub mod report;

use vstd::prelude::*;

verus! {

/// The name and the address that git is configured with.
#[derive(Debug, Clone, PartialEq, Eq)]
pub struct GitUserInfo {
    pub name: String,
    pub email: String,
}

/// The git configuration could not be read, or lacks a name or an address.
#[derive(Debug, Clone, Copy, PartialEq, Eq)]
pub struct GitQueryError;

} // verus!
