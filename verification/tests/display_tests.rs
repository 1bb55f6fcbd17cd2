use mbta_countdown::countdown::compute_target;
use mbta_countdown::countdown::DisplayTarget;
use mbta_countdown::daytime::DayTime;
use mbta_countdown::diff::diff_leds;
use mbta_countdown::led_view::LedCountdown;
use mbta_countdown::led_view::LedWrite;
use mbta_countdown::led_view::COLON_LOC;
use mbta_countdown::led_view::MINUTES_TENS_LOC;
use mbta_countdown::poll::brightness_in_range;
use mbta_countdown::poll::max_brightness;
use mbta_countdown::poll::ClockKind;
use mbta_countdown::reconcile::DepartureSet;
use mbta_countdown::seg_view::command_bytes;
use mbta_countdown::seg_view::BusCommand;
use mbta_countdown::seg_view::SegmentCountdown;
use mbta_countdown::seg_view::ADDR_MINUTES_TENS;
use mbta_countdown::seg_view::ADDR_MINUTES_UNITS;
use mbta_countdown::seg_view::ADDR_SECONDS_TENS;
use mbta_countdown::seg_view::ADDR_SECONDS_UNITS;
use mbta_countdown::segments::digit_leds;
use mbta_countdown::segments::segment_mask;

fn at(hour: u8, minute: u8, second: u8) -> DayTime {
    DayTime { day: 50, hour, minute, second }
}

fn departures(times: Vec<DayTime>) -> DepartureSet {
    DepartureSet { times }
}

#[test]
fn digits_are_tens_and_units_of_minutes_and_seconds() {
    // 29 minutes 50 seconds remain: digits 2, 9, 5, 0.
    let now = at(8, 0, 10);
    let ds = departures(vec![at(8, 30, 0)]);
    let t = compute_target(&ds, &now, 5);
    assert_eq!(
        t,
        DisplayTarget::Digits { minutes_tens: 2, minutes_units: 9, seconds_tens: 5, seconds_units: 0 }
    );
}

#[test]
fn second_departure_used_when_first_is_too_soon() {
    let now = at(8, 0, 0);
    let ds = departures(vec![at(8, 3, 0), at(8, 30, 30)]);
    let t = compute_target(&ds, &now, 5);
    assert_eq!(
        t,
        DisplayTarget::Digits { minutes_tens: 3, minutes_units: 0, seconds_tens: 3, seconds_units: 0 }
    );
}

#[test]
fn remaining_exactly_at_threshold_blanks() {
    // Exactly tau minutes remain: the first departure is kept (its whole
    // minutes are not under the threshold) and then not rendered, because
    // rendering needs strictly more than tau minutes.
    let now = at(8, 0, 0);
    let ds = departures(vec![at(8, 5, 0), at(8, 30, 0)]);
    assert_eq!(compute_target(&ds, &now, 5), DisplayTarget::Blank);
}

#[test]
fn too_soon_without_second_departure_blanks() {
    let now = at(8, 0, 0);
    let ds = departures(vec![at(8, 3, 0)]);
    assert_eq!(compute_target(&ds, &now, 5), DisplayTarget::Blank);
}

#[test]
fn hundred_minutes_or_more_blanks() {
    let now = at(8, 0, 0);
    let ds = departures(vec![at(9, 40, 0)]);
    assert_eq!(compute_target(&ds, &now, 5), DisplayTarget::Blank);
    let ds99 = departures(vec![at(9, 39, 59)]);
    assert_eq!(
        compute_target(&ds99, &now, 5),
        DisplayTarget::Digits { minutes_tens: 9, minutes_units: 9, seconds_tens: 5, seconds_units: 9 }
    );
}

#[test]
fn blank_target_unsets_every_slot() {
    let mut view = LedCountdown::new();
    let target = DisplayTarget::Digits {
        minutes_tens: 1,
        minutes_units: 2,
        seconds_tens: 3,
        seconds_units: 4,
    };
    let _ = view.apply_target(target);
    assert!(view.minutes_ten.is_some());
    let plan = view.apply_target(DisplayTarget::Blank);
    assert!(plan.clear_all);
    assert!(plan.writes.is_empty());
    assert!(view.minutes_ten.is_none());
    assert!(view.minutes_single.is_none());
    assert!(view.seconds_ten.is_none());
    assert!(view.seconds_single.is_none());
    // Already blank: no hardware traffic at all.
    let plan2 = view.apply_target(DisplayTarget::Blank);
    assert!(!plan2.clear_all);
    assert!(plan2.writes.is_empty());
}

#[test]
fn same_target_twice_issues_zero_led_writes() {
    let mut view = LedCountdown::new();
    let target = DisplayTarget::Digits {
        minutes_tens: 0,
        minutes_units: 7,
        seconds_tens: 4,
        seconds_units: 2,
    };
    let first = view.apply_target(target);
    assert!(!first.writes.is_empty());
    let second = view.apply_target(target);
    assert!(!second.clear_all);
    assert_eq!(second.writes.len(), 0);
}

#[test]
fn led_diff_zero_to_one_turns_off_four_and_on_none() {
    let (off, on) = diff_leds(0, 1);
    assert_eq!(off, vec![0, 3, 4, 5]);
    assert_eq!(on, Vec::<u8>::new());
}

#[test]
fn led_diff_one_to_four_turns_on_two() {
    let (off, on) = diff_leds(1, 4);
    assert_eq!(off, Vec::<u8>::new());
    assert_eq!(on, vec![5, 6]);
}

#[test]
fn full_led_render_lights_digits_and_colon() {
    let mut view = LedCountdown::new();
    let target = DisplayTarget::Digits {
        minutes_tens: 1,
        minutes_units: 1,
        seconds_tens: 1,
        seconds_units: 1,
    };
    let plan = view.apply_target(target);
    // Digit 1 lights leds 1 and 2 at each of the four positions, plus the
    // two colon leds.
    assert_eq!(plan.writes.len(), 4 * 2 + 2);
    assert_eq!(plan.writes[0], LedWrite { location: MINUTES_TENS_LOC, led: 1, on: true });
    assert_eq!(plan.writes[8], LedWrite { location: COLON_LOC, led: 0, on: true });
    assert_eq!(plan.writes[9], LedWrite { location: COLON_LOC, led: 1, on: true });
    assert!(plan.writes.iter().all(|w| w.on));
}

#[test]
fn led_partial_update_writes_only_changed_position() {
    let mut view = LedCountdown::new();
    let _ = view.apply_target(DisplayTarget::Digits {
        minutes_tens: 1,
        minutes_units: 2,
        seconds_tens: 3,
        seconds_units: 4,
    });
    let plan = view.apply_target(DisplayTarget::Digits {
        minutes_tens: 1,
        minutes_units: 2,
        seconds_tens: 3,
        seconds_units: 5,
    });
    assert!(plan.writes.iter().all(|w| w.location == 8));
    // 4 -> 5: off leds {1}, on leds {0, 3}.
    assert_eq!(
        plan.writes,
        vec![
            LedWrite { location: 8, led: 1, on: false },
            LedWrite { location: 8, led: 0, on: true },
            LedWrite { location: 8, led: 3, on: true },
        ]
    );
}

#[test]
fn segment_full_render_has_colon_bit_and_brightness() {
    let mut view = SegmentCountdown::new(3);
    let target = DisplayTarget::Digits {
        minutes_tens: 1,
        minutes_units: 2,
        seconds_tens: 3,
        seconds_units: 4,
    };
    let plan = view.apply_target(target);
    assert_eq!(plan.len(), 6);
    assert_eq!(plan[0], BusCommand::SetAddressMode);
    assert_eq!(
        plan[1],
        BusCommand::WritePattern { address: ADDR_MINUTES_TENS, pattern: 0b0000_0110 }
    );
    assert_eq!(
        plan[2],
        BusCommand::WritePattern { address: ADDR_MINUTES_UNITS, pattern: 0b0101_1011 | 0b1000_0000 }
    );
    assert_eq!(
        plan[3],
        BusCommand::WritePattern { address: ADDR_SECONDS_TENS, pattern: 0b0100_1111 }
    );
    assert_eq!(
        plan[4],
        BusCommand::WritePattern { address: ADDR_SECONDS_UNITS, pattern: 0b0110_0110 }
    );
    assert_eq!(plan[5], BusCommand::SetBrightness { level: 3 });
}

#[test]
fn segment_same_target_twice_rewrites_no_pattern() {
    let mut view = SegmentCountdown::new(7);
    let target = DisplayTarget::Digits {
        minutes_tens: 0,
        minutes_units: 0,
        seconds_tens: 0,
        seconds_units: 0,
    };
    let _ = view.apply_target(target);
    let plan = view.apply_target(target);
    assert_eq!(
        plan,
        vec![BusCommand::SetAddressMode, BusCommand::SetBrightness { level: 7 }]
    );
}

#[test]
fn segment_dirty_check_rewrites_only_changed_position() {
    let mut view = SegmentCountdown::new(7);
    let _ = view.apply_target(DisplayTarget::Digits {
        minutes_tens: 2,
        minutes_units: 9,
        seconds_tens: 5,
        seconds_units: 0,
    });
    let plan = view.apply_target(DisplayTarget::Digits {
        minutes_tens: 2,
        minutes_units: 9,
        seconds_tens: 4,
        seconds_units: 9,
    });
    assert_eq!(plan.len(), 4);
    assert_eq!(plan[0], BusCommand::SetAddressMode);
    assert_eq!(
        plan[1],
        BusCommand::WritePattern { address: ADDR_SECONDS_TENS, pattern: segment_mask(4) }
    );
    assert_eq!(
        plan[2],
        BusCommand::WritePattern { address: ADDR_SECONDS_UNITS, pattern: segment_mask(9) }
    );
    assert_eq!(plan[3], BusCommand::SetBrightness { level: 7 });
}

#[test]
fn segment_clear_zeroes_every_position_and_turns_off() {
    let mut view = SegmentCountdown::new(2);
    let _ = view.apply_target(DisplayTarget::Digits {
        minutes_tens: 1,
        minutes_units: 2,
        seconds_tens: 3,
        seconds_units: 4,
    });
    let plan = view.apply_target(DisplayTarget::Blank);
    assert_eq!(plan.len(), 6);
    assert_eq!(plan[0], BusCommand::SetAddressMode);
    for (i, addr) in [
        ADDR_MINUTES_TENS,
        ADDR_MINUTES_UNITS,
        ADDR_SECONDS_TENS,
        ADDR_SECONDS_UNITS,
    ]
    .iter()
    .enumerate()
    {
        assert_eq!(plan[i + 1], BusCommand::WritePattern { address: *addr, pattern: 0 });
    }
    assert_eq!(plan[5], BusCommand::TurnOff);
    assert!(view.minutes_ten.is_none());
    // Already blank: nothing at all.
    let plan2 = view.apply_target(DisplayTarget::Blank);
    assert!(plan2.is_empty());
}

#[test]
fn command_bytes_match_controller_protocol() {
    assert_eq!(command_bytes(&BusCommand::SetAddressMode), vec![0b0100_0100]);
    assert_eq!(
        command_bytes(&BusCommand::WritePattern { address: 0b1100_0010, pattern: 0x5B }),
        vec![0b1100_0010, 0x5B]
    );
    assert_eq!(command_bytes(&BusCommand::SetBrightness { level: 5 }), vec![0b1000_1101]);
    assert_eq!(command_bytes(&BusCommand::TurnOff), vec![0b1000_0000]);
}

#[test]
fn segment_masks_match_digit_table() {
    let expected: [u8; 10] = [
        0b0011_1111,
        0b0000_0110,
        0b0101_1011,
        0b0100_1111,
        0b0110_0110,
        0b0110_1101,
        0b0111_1101,
        0b0000_0111,
        0b0111_1111,
        0b0110_1111,
    ];
    for d in 0..10u8 {
        assert_eq!(segment_mask(d), expected[d as usize]);
    }
}

#[test]
fn led_table_matches_geometry() {
    assert_eq!(digit_leds(0), vec![0, 1, 2, 3, 4, 5]);
    assert_eq!(digit_leds(1), vec![1, 2]);
    assert_eq!(digit_leds(8), vec![0, 1, 2, 3, 4, 5, 6]);
}

#[test]
fn brightness_limits_differ_per_variant() {
    assert_eq!(max_brightness(ClockKind::AddressableLed), 9);
    assert_eq!(max_brightness(ClockKind::BitBangedSegment), 7);
    assert!(brightness_in_range(ClockKind::AddressableLed, 9));
    assert!(!brightness_in_range(ClockKind::AddressableLed, 10));
    assert!(brightness_in_range(ClockKind::BitBangedSegment, 7));
    assert!(!brightness_in_range(ClockKind::BitBangedSegment, 8));
}
