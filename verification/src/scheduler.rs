//! The day/night scheduling state machine that suspends polling overnight
//! between the last departure of one service day and the first departure of
//! the next. The machine is pure: each step takes the current wall-clock
//! reading (and the cooperative cancellation flag) and returns the action
//! the surrounding loop must perform — run, sleep, clear the display,
//! re-fetch the service window, or stop.

use vstd::prelude::*;
use crate::daytime::DayTime;

verus! {

/// The three scheduling states. Exactly one is current at any time; all
/// transitions are time-driven, except that a cancellation signal stops the
/// machine at any sleep boundary.
#[derive(Clone, Copy, PartialEq, Eq, Structural, Debug)]
pub enum SchedulerState {
    /// Normal operation: polling and rendering run.
    Active,
    /// Past the last departure of the service day; sleeping until the early
    /// morning guard clears.
    PausedUntilEarlyMorning,
    /// Service window re-fetched; sleeping until one hour before the first
    /// departure.
    PausedUntilPreService,
}

/// What the loop around the scheduler must do next.
#[derive(Clone, Copy, PartialEq, Eq, Structural, Debug)]
pub enum SchedulerAction {
    /// Keep polling and rendering.
    RunCountdown,
    /// Service day over: clear the display and enter the overnight pause.
    ClearAndPause,
    /// Sleep five minutes, then step again with a fresh clock reading.
    SleepFiveMinutes,
    /// Fetch the new service window (last and first departure) and hand it
    /// to `supply_window`.
    FetchServiceWindow,
    /// The pre-service hour is reached: resume polling and rendering.
    Resume,
    /// The cancellation flag is set: leave the loop.
    Stop,
}

/// The overnight guard: too early to re-fetch the service window while the
/// hour is before three, or the clock still reads the same calendar day as
/// the last departure (which guards against waking mid-night on a service
/// day whose last trip is itself past midnight). The hour-24 test mirrors
/// the wall-clock source's stated range and can never hold of a valid
/// reading.
pub open spec fn spec_early_morning_guard(now: DayTime, last_departure: DayTime) -> bool {
    now.hour < 3 || now.hour == 24 || now.day == last_departure.day
}

/// The scheduler: its state, the last known departure of the current service
/// day, and — once the next service window is known — the wake hour, one
/// hour (wrapping over the 24-hour clock) before the first departure.
#[derive(Clone, Copy, PartialEq, Eq, Structural, Debug)]
pub struct ServiceWindowScheduler {
    pub state: SchedulerState,
    pub last_departure: DayTime,
    pub wake_hour: u8,
}

/// One transition of the state machine: the next scheduler and the action
/// the loop must perform.
pub open spec fn spec_step(s: ServiceWindowScheduler, now: DayTime, quit: bool) -> (
    ServiceWindowScheduler,
    SchedulerAction,
) {
    if quit {
        (s, SchedulerAction::Stop)
    } else {
        match s.state {
            SchedulerState::Active => {
                if now.total_seconds() > s.last_departure.total_seconds() {
                    (
                        ServiceWindowScheduler {
                            state: SchedulerState::PausedUntilEarlyMorning,
                            ..s
                        },
                        SchedulerAction::ClearAndPause,
                    )
                } else {
                    (s, SchedulerAction::RunCountdown)
                }
            },
            SchedulerState::PausedUntilEarlyMorning => {
                if spec_early_morning_guard(now, s.last_departure) {
                    (s, SchedulerAction::SleepFiveMinutes)
                } else {
                    (s, SchedulerAction::FetchServiceWindow)
                }
            },
            SchedulerState::PausedUntilPreService => {
                if now.hour < s.wake_hour {
                    (s, SchedulerAction::SleepFiveMinutes)
                } else {
                    (
                        ServiceWindowScheduler { state: SchedulerState::Active, ..s },
                        SchedulerAction::Resume,
                    )
                }
            },
        }
    }
}

impl ServiceWindowScheduler {
    /// Start in normal operation with the service day's last departure.
    pub fn new(last_departure: DayTime) -> (r: ServiceWindowScheduler)
        ensures
            r.state == SchedulerState::Active,
            r.last_departure == last_departure,
    {
        ServiceWindowScheduler { state: SchedulerState::Active, last_departure, wake_hour: 0 }
    }

    /// Take one time-driven step. The transition is exactly `spec_step`: in
    /// particular the machine leaves `Active` exactly when `now` is past the
    /// last departure, and it never leaves `PausedUntilPreService` while the
    /// hour is before the wake hour.
    pub fn step(&mut self, now: &DayTime, quit: bool) -> (a: SchedulerAction)
        ensures
            (*final(self), a) == spec_step(*old(self), *now, quit),
    {
        if quit {
            return SchedulerAction::Stop;
        }
        match self.state {
            SchedulerState::Active => {
                if now.is_after(&self.last_departure) {
                    self.state = SchedulerState::PausedUntilEarlyMorning;
                    SchedulerAction::ClearAndPause
                } else {
                    SchedulerAction::RunCountdown
                }
            },
            SchedulerState::PausedUntilEarlyMorning => {
                if now.hour < 3 || now.hour == 24 || now.day == self.last_departure.day {
                    SchedulerAction::SleepFiveMinutes
                } else {
                    SchedulerAction::FetchServiceWindow
                }
            },
            SchedulerState::PausedUntilPreService => {
                if now.hour < self.wake_hour {
                    SchedulerAction::SleepFiveMinutes
                } else {
                    self.state = SchedulerState::Active;
                    SchedulerAction::Resume
                }
            },
        }
    }

    /// Install the freshly fetched service window after `FetchServiceWindow`:
    /// the pause continues until one hour before the next first departure,
    /// wrapping over the 24-hour clock when the first departure is in the
    /// midnight hour.
    pub fn supply_window(&mut self, last_departure: DayTime, first_departure: DayTime)
        requires
            old(self).state == SchedulerState::PausedUntilEarlyMorning,
            first_departure.wf(),
        ensures
            final(self).state == SchedulerState::PausedUntilPreService,
            final(self).last_departure == last_departure,
            final(self).wake_hour == (first_departure.hour + 23) % 24,
    {
        self.last_departure = last_departure;
        self.wake_hour = (first_departure.hour + 23) % 24;
        self.state = SchedulerState::PausedUntilPreService;
    }
}

/// The machine leaves `Active` for the overnight pause exactly when the
/// clock is strictly past the last known departure.
pub proof fn lemma_pause_exactly_when_past_last(s: ServiceWindowScheduler, now: DayTime)
    requires
        s.state == SchedulerState::Active,
    ensures
        (spec_step(s, now, false).0.state == SchedulerState::PausedUntilEarlyMorning) <==> now.total_seconds() > s.last_departure.total_seconds(),
        (spec_step(s, now, false).1 == SchedulerAction::ClearAndPause) <==> now.total_seconds() > s.last_departure.total_seconds(),
{
}

/// The machine never resumes from `PausedUntilPreService` before the hour
/// reaches the wake hour (one hour before the first departure).
pub proof fn lemma_no_early_resume(s: ServiceWindowScheduler, now: DayTime, quit: bool)
    requires
        s.state == SchedulerState::PausedUntilPreService,
        now.hour < s.wake_hour,
    ensures
        spec_step(s, now, quit).0.state == SchedulerState::PausedUntilPreService,
        spec_step(s, now, quit).1 != SchedulerAction::Resume,
{
}

} // verus!
