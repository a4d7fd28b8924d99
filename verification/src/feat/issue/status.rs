//! Whether an issue is open or closed.

use crate::text::{lowercase, str_eq, to_lowercase};
use vstd::prelude::*;

verus! {

/// The words that are not a status were given.
#[derive(Debug, Clone, Copy, PartialEq, Eq)]
pub struct StatusParseError;

#[derive(Debug, Clone, Copy, Hash, PartialEq, Eq, PartialOrd, Ord, Structural)]
pub enum Status {
    /// Issue is open.
    Open,
    /// Issue is closed.
    Closed,
}

impl Default for Status {
    fn default() -> (r: Self)
        ensures
            r == Status::Open,
    {
        Status::Open
    }
}

impl Status {
    /// The status that a lowercase word stands for, if any.
    pub open spec fn of_word(word: Seq<char>) -> Option<Status> {
        if word == "open"@ || word == "active"@ || word == "pending"@ {
            Some(Status::Open)
        } else if word == "closed"@ || word == "done"@ || word == "finished"@ {
            Some(Status::Closed)
        } else {
            None
        }
    }

    /// The other status.
    pub open spec fn inverted(self) -> Status {
        match self {
            Status::Open => Status::Closed,
            Status::Closed => Status::Open,
        }
    }

    /// The place of the status in the order `Open < Closed`.
    pub open spec fn rank(self) -> nat {
        match self {
            Status::Open => 0,
            Status::Closed => 1,
        }
    }

    /// The name of the status as it is displayed.
    pub open spec fn name(self) -> Seq<char> {
        match self {
            Status::Open => "Open"@,
            Status::Closed => "Closed"@,
        }
    }

    /// Reads a status from a word that is already in lowercase.
    pub fn from_lowercase(word: &str) -> (r: Result<Status, StatusParseError>)
        ensures
            r == match Status::of_word(word@) {
                Some(status) => Ok::<Status, StatusParseError>(status),
                None => Err(StatusParseError),
            },
    {
        if str_eq(word, "open") || str_eq(word, "active") || str_eq(word, "pending") {
            Ok(Status::Open)
        } else if str_eq(word, "closed") || str_eq(word, "done") || str_eq(word, "finished") {
            Ok(Status::Closed)
        } else {
            Err(StatusParseError)
        }
    }

    /// Reads a status from a word, whatever its case.
    pub fn from_str(s: &str) -> (r: Result<Status, StatusParseError>)
        ensures
            r == match Status::of_word(lowercase(s@)) {
                Some(status) => Ok::<Status, StatusParseError>(status),
                None => Err(StatusParseError),
            },
    {
        let lower = to_lowercase(s);
        Status::from_lowercase(lower.as_str())
    }

    /// The other status.
    pub fn invert(self) -> (r: Status)
        ensures
            r == self.inverted(),
    {
        match self {
            Status::Open => Status::Closed,
            Status::Closed => Status::Open,
        }
    }

    /// The place of the status in the order `Open < Closed`.
    pub fn ordinal(self) -> (r: u8)
        ensures
            r == self.rank(),
    {
        match self {
            Status::Open => 0,
            Status::Closed => 1,
        }
    }

    /// The name of the status as it is displayed.
    pub fn to_string(&self) -> (r: String)
        ensures
            r@ == self.name(),
    {
        match self {
            Status::Open => "Open".to_owned(),
            Status::Closed => "Closed".to_owned(),
        }
    }
}

} // verus!
