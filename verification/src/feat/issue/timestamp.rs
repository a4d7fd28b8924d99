//! Instants on the timeline, as the tracker stores them.

use vstd::prelude::*;

verus! {

/// An instant: the whole seconds and the nanoseconds that lie between it
/// and the start of the year 1970. The two parts add up, so that an instant
/// comes before another where its sum of nanoseconds is the smaller one,
/// however the sum is split.
#[derive(Debug, Clone, Copy, Hash, PartialEq, Eq, Structural)]
pub struct Timestamp {
    pub second: i64,
    pub nanosecond: i32,
}

impl Default for Timestamp {
    fn default() -> (r: Self)
        ensures
            r == (Timestamp { second: 0, nanosecond: 0 }),
    {
        Timestamp { second: 0, nanosecond: 0 }
    }
}

impl Timestamp {
    /// The nanoseconds between the start of the year 1970 and this instant.
    pub open spec fn nanoseconds(self) -> int {
        self.second * 1_000_000_000 + self.nanosecond
    }

    /// Whether this instant comes before the other.
    pub open spec fn precedes(self, other: Timestamp) -> bool {
        self.nanoseconds() < other.nanoseconds()
    }

    /// An instant from its seconds and nanoseconds.
    pub fn new(second: i64, nanosecond: i32) -> (r: Timestamp)
        ensures
            r.second == second,
            r.nanosecond == nanosecond,
    {
        Timestamp { second, nanosecond }
    }

    /// Whether this instant comes before the other.
    pub fn is_before(&self, other: &Timestamp) -> (r: bool)
        ensures
            r == self.precedes(*other),
    {
        let mine: i128 = self.second as i128 * 1_000_000_000 + self.nanosecond as i128;
        let theirs: i128 = other.second as i128 * 1_000_000_000 + other.nanosecond as i128;
        mine < theirs
    }

    /// The instant that the system clock shows; none where the clock is set
    /// outside the years that can be written.
    pub fn now() -> (r: Option<Timestamp>)
        ensures
            r matches Some(t) ==> -1_000_000_000 < t.nanosecond < 1_000_000_000,
    {
        match system_clock() {
            Some((second, nanosecond)) => Some(Timestamp::new(second, nanosecond)),
            None => None,
        }
    }
}

/// The text of an instant in a format of `strftime`, as `jiff` writes it
/// for the time zone UTC; none where `jiff` refuses the instant or the
/// format.
pub uninterp spec fn strftime_text(format: Seq<char>, second: i64, nanosecond: i32) -> Option<
    Seq<char>,
>;

/// Calls `jiff::Timestamp::new` and, on the instant that it gives,
/// `jiff::fmt::strtime::format`. The contract only names the result.
#[verifier::external_body]
pub(crate) fn format_timestamp(instant: &Timestamp, format: &str) -> (r: Option<String>)
    ensures
        match r {
            Some(text) => strftime_text(format@, instant.second, instant.nanosecond) == Some(
                text@,
            ),
            None => strftime_text(format@, instant.second, instant.nanosecond) is None,
        },
{
    match jiff::Timestamp::new(instant.second, instant.nanosecond) {
        Ok(t) => jiff::fmt::strtime::format(format, t).ok(),
        Err(_) => None,
    }
}

/// Reads the system clock through `jiff::Timestamp::try_from`, applied to
/// `std::time::SystemTime::now()`, and splits the instant with `as_second`
/// and `subsec_nanosecond`. There is no instant when the clock is set
/// outside the years that `jiff` accepts. Of the result only the bound that
/// `jiff` documents for the nanoseconds is claimed.
#[verifier::external_body]
fn system_clock() -> (r: Option<(i64, i32)>)
    ensures
        r matches Some(t) ==> -1_000_000_000 < t.1 < 1_000_000_000,
{
    match jiff::Timestamp::try_from(std::time::SystemTime::now()) {
        Ok(t) => Some((t.as_second(), t.subsec_nanosecond())),
        Err(_) => None,
    }
}

} // verus!
