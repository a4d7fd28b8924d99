//! How urgent an issue is.

use crate::text::{lowercase, str_eq, to_lowercase};
use vstd::prelude::*;

verus! {

/// The words that are not a priority were given.
#[derive(Debug, Clone, Copy, PartialEq, Eq)]
pub struct PriorityParseError;

#[derive(Debug, Clone, Copy, Hash, PartialEq, Eq, PartialOrd, Ord, Structural)]
pub enum Priority {
    /// Typos, documentation tweaks (trivial).
    Trivial,
    /// Minor bugs, UI polish, or nice-to-haves (low).
    Low,
    /// Standard bugs or enhancements with moderate impact (medium).
    Medium,
    /// Major feature gaps or bugs affecting core functionality (high).
    High,
    /// Severe bugs impacting many users; high-severity security flaws (critical).
    Critical,
    /// Blocks development/release; critical system outage or security issue (blocker).
    Blocker,
}

impl Default for Priority {
    fn default() -> (r: Self)
        ensures
            r == Priority::Trivial,
    {
        Priority::Trivial
    }
}

impl Priority {
    /// The priority that a lowercase word stands for, if any.
    pub open spec fn of_word(word: Seq<char>) -> Option<Priority> {
        if word == "trivial"@ || word == "t"@ || word == "typo"@ {
            Some(Priority::Trivial)
        } else if word == "low"@ || word == "l"@ {
            Some(Priority::Low)
        } else if word == "medium"@ || word == "m"@ {
            Some(Priority::Medium)
        } else if word == "high"@ || word == "h"@ {
            Some(Priority::High)
        } else if word == "critical"@ || word == "c"@ {
            Some(Priority::Critical)
        } else if word == "blocker"@ || word == "b"@ {
            Some(Priority::Blocker)
        } else {
            None
        }
    }

    /// The place of the priority in the order
    /// `Trivial < Low < Medium < High < Critical < Blocker`.
    pub open spec fn rank(self) -> nat {
        match self {
            Priority::Trivial => 0,
            Priority::Low => 1,
            Priority::Medium => 2,
            Priority::High => 3,
            Priority::Critical => 4,
            Priority::Blocker => 5,
        }
    }

    /// The name of the priority as it is displayed.
    pub open spec fn name(self) -> Seq<char> {
        match self {
            Priority::Trivial => "Trivial"@,
            Priority::Low => "Low"@,
            Priority::Medium => "Medium"@,
            Priority::High => "High"@,
            Priority::Critical => "Critical"@,
            Priority::Blocker => "Blocker"@,
        }
    }

    /// Reads a priority from a word that is already in lowercase.
    pub fn from_lowercase(word: &str) -> (r: Result<Priority, PriorityParseError>)
        ensures
            r == match Priority::of_word(word@) {
                Some(priority) => Ok::<Priority, PriorityParseError>(priority),
                None => Err(PriorityParseError),
            },
    {
        if str_eq(word, "trivial") || str_eq(word, "t") || str_eq(word, "typo") {
            Ok(Priority::Trivial)
        } else if str_eq(word, "low") || str_eq(word, "l") {
            Ok(Priority::Low)
        } else if str_eq(word, "medium") || str_eq(word, "m") {
            Ok(Priority::Medium)
        } else if str_eq(word, "high") || str_eq(word, "h") {
            Ok(Priority::High)
        } else if str_eq(word, "critical") || str_eq(word, "c") {
            Ok(Priority::Critical)
        } else if str_eq(word, "blocker") || str_eq(word, "b") {
            Ok(Priority::Blocker)
        } else {
            Err(PriorityParseError)
        }
    }

    /// Reads a priority from a word, whatever its case.
    pub fn from_str(s: &str) -> (r: Result<Priority, PriorityParseError>)
        ensures
            r == match Priority::of_word(lowercase(s@)) {
                Some(priority) => Ok::<Priority, PriorityParseError>(priority),
                None => Err(PriorityParseError),
            },
    {
        let lower = to_lowercase(s);
        Priority::from_lowercase(lower.as_str())
    }

    /// The place of the priority in its order.
    pub fn ordinal(self) -> (r: u8)
        ensures
            r == self.rank(),
    {
        match self {
            Priority::Trivial => 0,
            Priority::Low => 1,
            Priority::Medium => 2,
            Priority::High => 3,
            Priority::Critical => 4,
            Priority::Blocker => 5,
        }
    }

    /// The name of the priority as it is displayed.
    pub fn to_string(&self) -> (r: String)
        ensures
            r@ == self.name(),
    {
        match self {
            Priority::Trivial => "Trivial".to_owned(),
            Priority::Low => "Low".to_owned(),
            Priority::Medium => "Medium".to_owned(),
            Priority::High => "High".to_owned(),
            Priority::Critical => "Critical".to_owned(),
            Priority::Blocker => "Blocker".to_owned(),
        }
    }
}

} // verus!
