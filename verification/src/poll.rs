//! The poll loop's decisions: how long to pause between data refreshes,
//! bounded-retry escalation of fetch failures, and the start-up validation
//! of the configured brightness for each display variant.

use vstd::prelude::*;
use crate::daytime::DayTime;
use crate::reconcile::DepartureSet;

verus! {

/// Consecutive fetch failures that are treated as fatal.
pub const MAX_FETCH_FAILURES: u8 = 5;

/// Pause, in seconds, when there is no upcoming departure to count toward.
pub const IDLE_PAUSE_SECONDS: i64 = 600;

/// Smallest pause, in seconds, between two data refreshes.
pub const MIN_PAUSE_SECONDS: i64 = 15;

/// Tracks consecutive failures of the departure fetch. A success resets the
/// run; the fifth consecutive failure is fatal, and until then the display
/// keeps showing the last known departures.
pub struct FetchRetry {
    pub consecutive_failures: u8,
}

impl FetchRetry {
    /// The failure run never reaches the fatal bound while the process runs.
    pub open spec fn wf(self) -> bool {
        self.consecutive_failures < MAX_FETCH_FAILURES
    }

    /// No failures yet.
    pub fn new() -> (r: FetchRetry)
        ensures
            r.consecutive_failures == 0,
            r.wf(),
    {
        FetchRetry { consecutive_failures: 0 }
    }

    /// Record the outcome of one fetch. Success clears the run; failure
    /// lengthens it, and the result is true exactly when the run reaches the
    /// fatal bound — the caller must then abort after clearing the display.
    pub fn record(&mut self, ok: bool) -> (fatal: bool)
        requires
            old(self).wf(),
        ensures
            ok ==> final(self).consecutive_failures == 0 && !fatal,
            !ok ==> final(self).consecutive_failures == old(self).consecutive_failures + 1,
            !ok ==> (fatal <==> final(self).consecutive_failures == MAX_FETCH_FAILURES),
            !fatal ==> final(self).wf(),
    {
        if ok {
            self.consecutive_failures = 0;
            false
        } else {
            self.consecutive_failures = self.consecutive_failures + 1;
            self.consecutive_failures == MAX_FETCH_FAILURES
        }
    }
}

/// The pause before the next refresh: one tenth of the time to the earliest
/// departure, at least the minimum pause, and the long idle pause when no
/// departure is upcoming.
pub open spec fn spec_pause_seconds(times: Option<Seq<DayTime>>, now: DayTime) -> int {
    match times {
        Option::None => IDLE_PAUSE_SECONDS as int,
        Option::Some(s) => {
            let d0 = s[0].total_seconds() - now.total_seconds();
            if d0 > 0 {
                if d0 / 10 > MIN_PAUSE_SECONDS {
                    d0 / 10
                } else {
                    MIN_PAUSE_SECONDS as int
                }
            } else if s.len() > 1 {
                MIN_PAUSE_SECONDS as int
            } else {
                IDLE_PAUSE_SECONDS as int
            }
        },
    }
}

/// Seconds to pause before the next departure-data refresh.
pub fn pause_seconds(times: Option<&DepartureSet>, now: &DayTime) -> (r: i64)
    requires
        match times {
            Option::Some(t) => t.wf(),
            Option::None => true,
        },
    ensures
        r == spec_pause_seconds(
            match times {
                Option::Some(t) => Option::Some(t@),
                Option::None => Option::None,
            },
            *now,
        ),
{
    match times {
        Option::None => IDLE_PAUSE_SECONDS,
        Option::Some(list) => {
            let d0 = now.seconds_until(list.get(0));
            if d0 > 0 {
                let tenth = d0 / 10;
                if tenth > MIN_PAUSE_SECONDS {
                    tenth
                } else {
                    MIN_PAUSE_SECONDS
                }
            } else if list.len() > 1 {
                MIN_PAUSE_SECONDS
            } else {
                IDLE_PAUSE_SECONDS
            }
        },
    }
}

/// The two display variants the countdown can drive.
#[derive(Clone, Copy, PartialEq, Eq, Structural, Debug)]
pub enum ClockKind {
    /// The addressable-bus driver (LED-set geometry).
    AddressableLed,
    /// The bit-banged driver (segment-bitmask geometry).
    BitBangedSegment,
}

/// The highest brightness level each variant's hardware accepts.
pub open spec fn spec_max_brightness(kind: ClockKind) -> u8 {
    match kind {
        ClockKind::AddressableLed => 9,
        ClockKind::BitBangedSegment => 7,
    }
}

/// The highest brightness level `kind` accepts.
pub fn max_brightness(kind: ClockKind) -> (r: u8)
    ensures
        r == spec_max_brightness(kind),
{
    match kind {
        ClockKind::AddressableLed => 9,
        ClockKind::BitBangedSegment => 7,
    }
}

/// Whether the configured brightness is in range for the chosen display
/// variant. A false answer is a configuration error: fatal at start-up,
/// never a runtime retry case.
pub fn brightness_in_range(kind: ClockKind, level: u8) -> (r: bool)
    ensures
        r == (level <= spec_max_brightness(kind)),
{
    level <= max_brightness(kind)
}

} // verus!
