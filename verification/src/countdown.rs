//! Choosing what the countdown shows each tick: pick the earliest departure,
//! fall back to the second one when the first is closer than the minimum
//! lead time, and split the remaining time into the four display digits — or
//! blank the display when the remaining time cannot be shown (at or below
//! the lead-time threshold, 100 minutes or more, or no eligible departure).

use vstd::prelude::*;
use crate::daytime::DayTime;
use crate::reconcile::DepartureSet;

verus! {

/// What one refresh tick asks the display to show.
#[derive(Clone, Copy, PartialEq, Eq, Structural, Debug)]
pub enum DisplayTarget {
    /// Nothing displayable: blank the display.
    Blank,
    /// Show MM:SS as four digits.
    Digits { minutes_tens: u8, minutes_units: u8, seconds_tens: u8, seconds_units: u8 },
}

impl DisplayTarget {
    /// Any digits shown are decimal digits.
    pub open spec fn wf(self) -> bool {
        match self {
            DisplayTarget::Blank => true,
            DisplayTarget::Digits { minutes_tens, minutes_units, seconds_tens, seconds_units } => {
                minutes_tens < 10 && minutes_units < 10 && seconds_tens < 10 && seconds_units < 10
            },
        }
    }
}

/// Division by 60 truncating toward zero, as the remaining time is turned
/// into whole minutes.
pub open spec fn spec_minutes_of(seconds: int) -> int {
    if seconds >= 0 {
        seconds / 60
    } else {
        -((-seconds) / 60)
    }
}

/// The remaining seconds the display counts down from: the time to the
/// earliest departure, unless that is under the lead-time threshold `tau`
/// (in minutes), in which case the second departure is used when it exists
/// and nothing is displayable when it does not.
pub open spec fn spec_selected_remaining(times: Seq<DayTime>, now: DayTime, tau: int) -> Option<
    int,
>
    recommends
        times.len() > 0,
{
    let d0 = times[0].total_seconds() - now.total_seconds();
    if spec_minutes_of(d0) >= tau {
        Some(d0)
    } else if times.len() > 1 {
        Some(times[1].total_seconds() - now.total_seconds())
    } else {
        None
    }
}

/// The digits for a chosen remaining time, or blank when none was chosen or
/// the whole minutes are not strictly between `tau` and 100.
pub open spec fn spec_render(chosen: Option<int>, tau: int) -> DisplayTarget {
    match chosen {
        Option::None => DisplayTarget::Blank,
        Option::Some(d) => {
            let m = spec_minutes_of(d);
            if tau < m && m < 100 {
                DisplayTarget::Digits {
                    minutes_tens: (m / 10) as u8,
                    minutes_units: (m % 10) as u8,
                    seconds_tens: ((d % 60) / 10) as u8,
                    seconds_units: ((d % 60) % 10) as u8,
                }
            } else {
                DisplayTarget::Blank
            }
        },
    }
}

/// The display target for one tick.
pub open spec fn spec_target_of(times: Seq<DayTime>, now: DayTime, tau: int) -> DisplayTarget
    recommends
        times.len() > 0,
{
    spec_render(spec_selected_remaining(times, now, tau), tau)
}

/// Whole minutes of a signed remaining time, truncating toward zero.
fn minutes_of(seconds: i64) -> (r: i64)
    requires
        seconds > i64::MIN,
    ensures
        r == spec_minutes_of(seconds as int),
{
    if seconds >= 0 {
        seconds / 60
    } else {
        -((-seconds) / 60)
    }
}

/// Compute the display target for one tick: select the departure under the
/// minimum-lead-time rule and split its remaining time into digits.
pub fn compute_target(times: &DepartureSet, now: &DayTime, tau_minutes: i64) -> (t: DisplayTarget)
    requires
        times.wf(),
        0 <= tau_minutes,
    ensures
        t == spec_target_of(times@, *now, tau_minutes as int),
        t.wf(),
{
    let d0 = now.seconds_until(times.get(0));
    let m0 = minutes_of(d0);
    let chosen: Option<i64> = if m0 >= tau_minutes {
        Some(d0)
    } else if times.len() > 1 {
        Some(now.seconds_until(times.get(1)))
    } else {
        None
    };
    match chosen {
        Option::None => DisplayTarget::Blank,
        Option::Some(d) => {
            let m = minutes_of(d);
            if tau_minutes < m && m < 100 {
                let s = d % 60;
                DisplayTarget::Digits {
                    minutes_tens: (m / 10) as u8,
                    minutes_units: (m % 10) as u8,
                    seconds_tens: (s / 10) as u8,
                    seconds_units: (s % 10) as u8,
                }
            } else {
                DisplayTarget::Blank
            }
        },
    }
}

/// With the remaining time strictly between the threshold and 100 minutes,
/// the rendered digits are exactly the tens and units of the whole minutes
/// and of the seconds within the minute.
pub proof fn lemma_digits_of_displayable_remaining(d: int, tau: int)
    requires
        0 <= tau,
        tau < spec_minutes_of(d),
        spec_minutes_of(d) < 100,
    ensures
        spec_render(Some(d), tau) == (DisplayTarget::Digits {
            minutes_tens: ((d / 60) / 10) as u8,
            minutes_units: ((d / 60) % 10) as u8,
            seconds_tens: ((d % 60) / 10) as u8,
            seconds_units: ((d % 60) % 10) as u8,
        }),
{
    assert(d >= 0) by {
        if d < 0 {
            assert((-d) / 60 >= 0);
        }
    }
}

/// When the earliest departure is under the lead-time threshold and a second
/// departure exists, the second departure's remaining time is the one
/// selected.
pub proof fn lemma_second_departure_selected(times: Seq<DayTime>, now: DayTime, tau: int)
    requires
        times.len() > 1,
        spec_minutes_of(times[0].total_seconds() - now.total_seconds()) < tau,
    ensures
        spec_selected_remaining(times, now, tau) == Some(
            times[1].total_seconds() - now.total_seconds(),
        ),
{
}

/// A remaining time of 100 minutes or more is never rendered: the target is
/// blank.
pub proof fn lemma_blank_when_too_far(d: int, tau: int)
    requires
        spec_minutes_of(d) >= 100,
    ensures
        spec_render(Some(d), tau) == DisplayTarget::Blank,
{
}

/// A remaining time at or below the lead-time threshold is never rendered:
/// the target is blank.
pub proof fn lemma_blank_when_too_soon(d: int, tau: int)
    requires
        spec_minutes_of(d) <= tau,
    ensures
        spec_render(Some(d), tau) == DisplayTarget::Blank,
{
}

} // verus!
