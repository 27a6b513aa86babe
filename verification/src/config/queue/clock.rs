//! Time of day, as the enablement window of a queue reads it.

use chrono::Timelike;
use vstd::prelude::*;

verus! {

/// A time of day without a date: seconds since midnight and nanoseconds since
/// the last whole second. Fractions of one second and more stand for a leap
/// second, as in `chrono::NaiveTime`, whose order this type shares.
#[derive(Clone, Copy, Debug, PartialEq, Eq, Structural)]
pub struct TimeOfDay {
    pub secs: u32,
    pub frac: u32,
}

impl TimeOfDay {
    /// A reading that a clock can show.
    pub open spec fn valid(self) -> bool {
        self.secs < 86_400 && self.frac < 2_000_000_000
    }

    /// `self` is not later than `other`.
    pub open spec fn not_after(self, other: TimeOfDay) -> bool {
        self.secs < other.secs || (self.secs == other.secs && self.frac <= other.frac)
    }

    /// Whether `self` is not later than `other`.
    pub fn le(&self, other: &TimeOfDay) -> (earlier: bool)
        ensures
            earlier == self.not_after(*other),
    {
        self.secs < other.secs || (self.secs == other.secs && self.frac <= other.frac)
    }
}

/// Reads the wall clock in the machine's time zone with
/// `chrono::Local::now()` and keeps the time of day. The contract claims only
/// the ranges that `chrono::NaiveTime` documents for its two components; which
/// time comes back is up to the clock. chrono itself gives up on a clock set
/// before 1970 or beyond the dates it can represent.
#[verifier::external_body]
pub(crate) fn local_time() -> (now: TimeOfDay)
    ensures
        now.valid(),
{
    let now = chrono::Local::now().naive_local().time();
    TimeOfDay { secs: now.num_seconds_from_midnight(), frac: now.nanosecond() }
}

} // verus!
