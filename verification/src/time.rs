//! Points in time and calendar days in UTC, held as plain integers.

use vstd::prelude::*;

verus! {

/// An instant in UTC: whole seconds since the Unix epoch and the nanoseconds
/// past that second. During a leap second `nanos` runs from one billion up.
#[derive(Clone, Copy, Debug, PartialEq, Eq, Structural)]
pub struct Timestamp {
    pub secs: i64,
    pub nanos: u32,
}

impl Timestamp {
    /// Instants are ordered by their second first and then by the nanoseconds.
    pub open spec fn precedes(self, other: Timestamp) -> bool {
        self.secs < other.secs || (self.secs == other.secs && self.nanos < other.nanos)
    }

    /// Whether this instant comes strictly before `other`.
    pub fn is_before(&self, other: &Timestamp) -> (b: bool)
        ensures
            b == self.precedes(*other),
    {
        self.secs < other.secs || (self.secs == other.secs && self.nanos < other.nanos)
    }
}

/// A calendar day in UTC, numbered from 0001-01-01 (day 1) of the proleptic
/// Gregorian calendar.
#[derive(Clone, Copy, Debug, PartialEq, Eq, Structural)]
pub struct UtcDate {
    pub days_from_ce: i32,
}

/// One reading of the clock: the instant and the UTC day it falls on.
#[derive(Clone, Copy, Debug, PartialEq, Eq, Structural)]
pub struct ClockReading {
    pub instant: Timestamp,
    pub today: UtcDate,
}

/// Reads the system clock once with `chrono::Utc::now`, splits the instant
/// into `timestamp()` and `timestamp_subsec_nanos()` and takes its day with
/// `date_naive().num_days_from_ce()`. Claimed: the documented range of the
/// nanoseconds (below two billion, leap seconds included) and that the day is
/// the UTC day of the instant (1970-01-01 is day 719163). The instant itself
/// is whatever the clock said.
#[verifier::external_body]
pub(crate) fn read_clock() -> (r: ClockReading)
    ensures
        r.instant.nanos < 2_000_000_000,
        r.today.days_from_ce == r.instant.secs / 86400 + 719163,
{
    let now = chrono::Utc::now();
    ClockReading {
        instant: Timestamp { secs: now.timestamp(), nanos: now.timestamp_subsec_nanos() },
        today: UtcDate { days_from_ce: chrono::Datelike::num_days_from_ce(&now.date_naive()) },
    }
}

} // verus!
