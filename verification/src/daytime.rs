//! Local wall-clock timestamps as plain values: a day number plus
//! hour/minute/second of day. Departure times and "now" are compared and
//! subtracted through their total number of seconds.

use vstd::prelude::*;

verus! {

/// A local wall-clock instant: `day` counts calendar days, `hour`/`minute`/
/// `second` give the time of day.
#[derive(Clone, Copy, PartialEq, Eq, Structural, Debug)]
pub struct DayTime {
    pub day: u32,
    pub hour: u8,
    pub minute: u8,
    pub second: u8,
}

impl DayTime {
    /// A valid wall-clock reading: the time-of-day fields are in range.
    pub open spec fn wf(self) -> bool {
        self.hour < 24 && self.minute < 60 && self.second < 60
    }

    /// The instant as a count of seconds, the basis of ordering and
    /// subtraction.
    pub open spec fn total_seconds(self) -> int {
        self.day as int * 86400 + self.hour as int * 3600 + self.minute as int * 60
            + self.second as int
    }

    /// Total seconds, executable. No overflow: even with every field at its
    /// maximum the sum stays far below `u64::MAX`.
    pub fn total_seconds_u64(&self) -> (r: u64)
        ensures
            r == self.total_seconds(),
    {
        self.day as u64 * 86400 + self.hour as u64 * 3600 + self.minute as u64 * 60
            + self.second as u64
    }

    /// Strict "later than" on instants.
    pub fn is_after(&self, other: &DayTime) -> (r: bool)
        ensures
            r == (self.total_seconds() > other.total_seconds()),
    {
        self.total_seconds_u64() > other.total_seconds_u64()
    }

    /// Signed seconds from `self` to `to` (positive when `to` is later).
    pub fn seconds_until(&self, to: &DayTime) -> (r: i64)
        ensures
            r == to.total_seconds() - self.total_seconds(),
    {
        let a = self.total_seconds_u64();
        let b = to.total_seconds_u64();
        if b >= a {
            (b - a) as i64
        } else {
            -((a - b) as i64)
        }
    }
}

} // verus!
