use mbta_countdown::serial::ack_poll_interval_us;
use mbta_countdown::serial::byte_frame_ops;
use mbta_countdown::serial::start_ops;
use mbta_countdown::serial::stop_ops;
use mbta_countdown::serial::wait_us;
use mbta_countdown::serial::AckOutcome;
use mbta_countdown::serial::AckWait;
use mbta_countdown::serial::LineOp;

#[test]
fn start_frame_sequence() {
    assert_eq!(
        start_ops(),
        vec![
            LineOp::DataHigh,
            LineOp::ClockHigh,
            LineOp::WaitFull,
            LineOp::DataLow,
            LineOp::WaitFull,
        ]
    );
}

#[test]
fn stop_frame_sequence() {
    assert_eq!(
        stop_ops(),
        vec![
            LineOp::ClockLow,
            LineOp::WaitShort,
            LineOp::DataLow,
            LineOp::WaitLong,
            LineOp::ClockHigh,
            LineOp::WaitFull,
            LineOp::DataHigh,
            LineOp::WaitFull,
        ]
    );
}

#[test]
fn byte_frame_emits_eight_bit_intervals_whatever_the_byte() {
    for b in [0x00u8, 0x01, 0x55, 0xAA, 0xFF, 0xC0] {
        let ops = byte_frame_ops(b);
        // 8 intervals of 6 operations, then the 6-operation ACK entry.
        assert_eq!(ops.len(), 54);
        for i in 0..8 {
            assert_eq!(ops[6 * i], LineOp::ClockLow);
            assert_eq!(ops[6 * i + 1], LineOp::WaitShort);
            let expected = if (b >> i) & 1 == 1 { LineOp::DataHigh } else { LineOp::DataLow };
            assert_eq!(ops[6 * i + 2], expected);
            assert_eq!(ops[6 * i + 3], LineOp::WaitLong);
            assert_eq!(ops[6 * i + 4], LineOp::ClockHigh);
            assert_eq!(ops[6 * i + 5], LineOp::WaitFull);
        }
        // ACK entry: clock low, short wait, data released, long wait, clock
        // high, full wait.
        assert_eq!(
            &ops[48..54],
            &[
                LineOp::ClockLow,
                LineOp::WaitShort,
                LineOp::DataHigh,
                LineOp::WaitLong,
                LineOp::ClockHigh,
                LineOp::WaitFull,
            ]
        );
    }
}

#[test]
fn byte_frame_is_least_significant_bit_first() {
    let ops = byte_frame_ops(0x01);
    assert_eq!(ops[2], LineOp::DataHigh);
    for i in 1..8 {
        assert_eq!(ops[6 * i + 2], LineOp::DataLow);
    }
    let ops = byte_frame_ops(0x80);
    for i in 0..7 {
        assert_eq!(ops[6 * i + 2], LineOp::DataLow);
    }
    assert_eq!(ops[6 * 7 + 2], LineOp::DataHigh);
}

#[test]
fn ack_wait_acknowledges_on_low_line() {
    let mut ack = AckWait::begin();
    assert_eq!(ack.observe(true), AckOutcome::Acked);
}

#[test]
fn ack_wait_times_out_after_ten_samples_and_proceeds() {
    let mut ack = AckWait::begin();
    for _ in 0..9 {
        assert_eq!(ack.observe(false), AckOutcome::RetryAfterPollInterval);
    }
    // The tenth failed sample exhausts the budget; by design the
    // transaction proceeds rather than failing.
    assert_eq!(ack.observe(false), AckOutcome::TimedOutProceed);
}

#[test]
fn ack_wait_acknowledges_late() {
    let mut ack = AckWait::begin();
    for _ in 0..5 {
        assert_eq!(ack.observe(false), AckOutcome::RetryAfterPollInterval);
    }
    assert_eq!(ack.observe(true), AckOutcome::Acked);
}

#[test]
fn waits_subdivide_the_bit_period() {
    assert_eq!(wait_us(LineOp::WaitFull), 100);
    assert_eq!(wait_us(LineOp::WaitShort), 10);
    assert_eq!(wait_us(LineOp::WaitLong), 90);
    assert_eq!(wait_us(LineOp::ClockLow), 0);
    assert_eq!(ack_poll_interval_us(), 10);
}
