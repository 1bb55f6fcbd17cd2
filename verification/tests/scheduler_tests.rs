use mbta_countdown::daytime::DayTime;
use mbta_countdown::poll::pause_seconds;
use mbta_countdown::poll::FetchRetry;
use mbta_countdown::reconcile::DepartureSet;
use mbta_countdown::scheduler::SchedulerAction;
use mbta_countdown::scheduler::SchedulerState;
use mbta_countdown::scheduler::ServiceWindowScheduler;

fn on_day(day: u32, hour: u8, minute: u8) -> DayTime {
    DayTime { day, hour, minute, second: 0 }
}

#[test]
fn active_pauses_exactly_when_past_last_departure() {
    let last = on_day(10, 23, 30);
    let mut s = ServiceWindowScheduler::new(last);
    // Still before (and exactly at) the last departure: keep running.
    assert_eq!(s.step(&on_day(10, 22, 0), false), SchedulerAction::RunCountdown);
    assert_eq!(s.state, SchedulerState::Active);
    assert_eq!(s.step(&on_day(10, 23, 30), false), SchedulerAction::RunCountdown);
    assert_eq!(s.state, SchedulerState::Active);
    // One second past: clear the display and pause.
    let past = DayTime { day: 10, hour: 23, minute: 30, second: 1 };
    assert_eq!(s.step(&past, false), SchedulerAction::ClearAndPause);
    assert_eq!(s.state, SchedulerState::PausedUntilEarlyMorning);
}

#[test]
fn early_morning_guard_sleeps_before_three() {
    let last = on_day(10, 23, 30);
    let mut s = ServiceWindowScheduler::new(last);
    let _ = s.step(&on_day(11, 0, 0), false);
    assert_eq!(s.state, SchedulerState::PausedUntilEarlyMorning);
    // Before 3 am: sleep.
    assert_eq!(s.step(&on_day(11, 2, 59), false), SchedulerAction::SleepFiveMinutes);
    // After 3 am but still the last departure's calendar day: sleep.
    assert_eq!(s.step(&on_day(10, 4, 0), false), SchedulerAction::SleepFiveMinutes);
    // Clear of the guard: fetch the new service window.
    assert_eq!(s.step(&on_day(11, 3, 0), false), SchedulerAction::FetchServiceWindow);
    assert_eq!(s.state, SchedulerState::PausedUntilEarlyMorning);
}

#[test]
fn pre_service_pause_ends_at_hour_before_first_departure() {
    let mut s = ServiceWindowScheduler::new(on_day(10, 23, 30));
    let _ = s.step(&on_day(11, 0, 0), false);
    let _ = s.step(&on_day(11, 3, 0), false);
    s.supply_window(on_day(11, 23, 45), on_day(11, 5, 30));
    assert_eq!(s.state, SchedulerState::PausedUntilPreService);
    assert_eq!(s.wake_hour, 4);
    assert_eq!(s.step(&on_day(11, 3, 30), false), SchedulerAction::SleepFiveMinutes);
    assert_eq!(s.state, SchedulerState::PausedUntilPreService);
    assert_eq!(s.step(&on_day(11, 4, 0), false), SchedulerAction::Resume);
    assert_eq!(s.state, SchedulerState::Active);
    assert_eq!(s.last_departure, on_day(11, 23, 45));
}

#[test]
fn wake_hour_wraps_for_midnight_first_departure() {
    // A first departure in the midnight hour: one hour earlier wraps over
    // the 24-hour clock to 23.
    let mut s = ServiceWindowScheduler::new(on_day(10, 23, 30));
    let _ = s.step(&on_day(11, 0, 0), false);
    let _ = s.step(&on_day(11, 3, 0), false);
    s.supply_window(on_day(12, 23, 0), on_day(12, 0, 15));
    assert_eq!(s.wake_hour, 23);
    assert_eq!(s.step(&on_day(11, 5, 0), false), SchedulerAction::SleepFiveMinutes);
    assert_eq!(s.step(&on_day(11, 23, 0), false), SchedulerAction::Resume);
}

#[test]
fn cancellation_stops_in_any_state() {
    let mut s = ServiceWindowScheduler::new(on_day(10, 23, 30));
    assert_eq!(s.step(&on_day(10, 9, 0), true), SchedulerAction::Stop);
    assert_eq!(s.state, SchedulerState::Active);
    let _ = s.step(&on_day(11, 0, 0), false);
    assert_eq!(s.step(&on_day(11, 0, 5), true), SchedulerAction::Stop);
    assert_eq!(s.state, SchedulerState::PausedUntilEarlyMorning);
}

#[test]
fn fetch_retry_is_fatal_on_fifth_consecutive_failure() {
    let mut retry = FetchRetry::new();
    for _ in 0..4 {
        assert!(!retry.record(false));
    }
    assert_eq!(retry.consecutive_failures, 4);
    assert!(retry.record(false));
}

#[test]
fn fetch_success_resets_the_failure_run() {
    let mut retry = FetchRetry::new();
    assert!(!retry.record(false));
    assert!(!retry.record(false));
    assert!(!retry.record(true));
    assert_eq!(retry.consecutive_failures, 0);
    for _ in 0..4 {
        assert!(!retry.record(false));
    }
    assert!(retry.record(false));
}

#[test]
fn pause_is_a_tenth_of_the_wait_with_a_floor() {
    let now = on_day(20, 8, 0);
    // 600 seconds to the departure: pause 60.
    let ds = DepartureSet { times: vec![on_day(20, 8, 10)] };
    assert_eq!(pause_seconds(Some(&ds), &now), 60);
    // 60 seconds away: a tenth is under the floor, pause 15.
    let ds = DepartureSet { times: vec![on_day(20, 8, 1)] };
    assert_eq!(pause_seconds(Some(&ds), &now), 15);
}

#[test]
fn pause_is_long_when_nothing_is_upcoming() {
    let now = on_day(20, 8, 0);
    assert_eq!(pause_seconds(None, &now), 600);
    // Stale single departure already past: long pause.
    let ds = DepartureSet { times: vec![on_day(20, 7, 0)] };
    assert_eq!(pause_seconds(Some(&ds), &now), 600);
    // Stale first but a second exists: short pause before refreshing.
    let ds = DepartureSet { times: vec![on_day(20, 7, 0), on_day(20, 9, 0)] };
    assert_eq!(pause_seconds(Some(&ds), &now), 15);
}
