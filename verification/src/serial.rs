//! The software-clocked two-wire serial protocol that talks to the bufferless
//! segment controller. The protocol is modelled as data: each primitive
//! (start, byte, stop) is a sequence of line operations that the hardware
//! layer plays back on the clock and data pins, and the bounded ACK poll is a
//! small state machine stepped with each sample of the data line.
//!
//! A full bit period is derived from the configured frequency and subdivided
//! into a short (one tenth) and a long (nine tenths) interval to meet the
//! controller's setup and hold timing.

use vstd::prelude::*;

verus! {

/// Configured line frequency in kilobits per second.
pub const FREQUENCY_KHZ: u64 = 10;

/// One full bit period, in microseconds.
pub const FULL_WAIT_US: u64 = 1000 / FREQUENCY_KHZ;

/// One operation on the two lines: drive a level, or hold for one of the
/// three sub-intervals. `DataHigh` doubles as releasing the data line, since
/// the line is driven open-drain-like and reads high when released.
#[derive(Clone, Copy, PartialEq, Eq, Structural, Debug)]
pub enum LineOp {
    ClockLow,
    ClockHigh,
    DataLow,
    DataHigh,
    WaitShort,
    WaitLong,
    WaitFull,
}

/// How long the hardware layer holds for `op`, in microseconds; zero for the
/// level-driving operations.
pub open spec fn spec_wait_us(op: LineOp) -> u64 {
    match op {
        LineOp::WaitShort => (FULL_WAIT_US / 10) as u64,
        LineOp::WaitLong => (FULL_WAIT_US * 9 / 10) as u64,
        LineOp::WaitFull => FULL_WAIT_US,
        _ => 0u64,
    }
}

/// The hold time of `op` in microseconds.
pub fn wait_us(op: LineOp) -> (r: u64)
    ensures
        r == spec_wait_us(op),
{
    match op {
        LineOp::WaitShort => FULL_WAIT_US / 10,
        LineOp::WaitLong => FULL_WAIT_US * 9 / 10,
        LineOp::WaitFull => FULL_WAIT_US,
        _ => 0,
    }
}

/// Bit `i` of `b`, least significant bit first.
pub open spec fn spec_bit(b: u8, i: u8) -> bool {
    (b >> i) & 1 == 1
}

/// Start-of-frame: data high, clock high, hold one period, data low, hold one
/// period.
pub open spec fn spec_start_ops() -> Seq<LineOp> {
    seq![
        LineOp::DataHigh,
        LineOp::ClockHigh,
        LineOp::WaitFull,
        LineOp::DataLow,
        LineOp::WaitFull,
    ]
}

/// End-of-frame: clock low, short hold, data low, long hold, clock high, full
/// hold, data high, full hold.
pub open spec fn spec_stop_ops() -> Seq<LineOp> {
    seq![
        LineOp::ClockLow,
        LineOp::WaitShort,
        LineOp::DataLow,
        LineOp::WaitLong,
        LineOp::ClockHigh,
        LineOp::WaitFull,
        LineOp::DataHigh,
        LineOp::WaitFull,
    ]
}

/// One bit interval: clock low, short hold, data driven to the bit value,
/// long hold, clock high, full hold.
pub open spec fn spec_bit_cell(bit: bool) -> Seq<LineOp> {
    seq![
        LineOp::ClockLow,
        LineOp::WaitShort,
        if bit { LineOp::DataHigh } else { LineOp::DataLow },
        LineOp::WaitLong,
        LineOp::ClockHigh,
        LineOp::WaitFull,
    ]
}

/// Entry into the acknowledge phase after the eighth bit: clock low, short
/// hold, data released, long hold, clock high, full hold. The data line is
/// then sampled by the ACK poll.
pub open spec fn spec_ack_entry_ops() -> Seq<LineOp> {
    seq![
        LineOp::ClockLow,
        LineOp::WaitShort,
        LineOp::DataHigh,
        LineOp::WaitLong,
        LineOp::ClockHigh,
        LineOp::WaitFull,
    ]
}

/// The first `k` bit intervals of `b`, least significant bit first.
pub open spec fn spec_bit_cells(b: u8, k: int) -> Seq<LineOp>
    decreases k,
{
    if k <= 0 {
        Seq::empty()
    } else {
        spec_bit_cells(b, k - 1) + spec_bit_cell(spec_bit(b, (k - 1) as u8))
    }
}

/// Everything `send_byte` emits: the eight bit intervals of `b`, least
/// significant bit first, followed by the entry into the ACK-wait phase.
pub open spec fn spec_byte_frame(b: u8) -> Seq<LineOp> {
    spec_bit_cells(b, 8) + spec_ack_entry_ops()
}

/// The start-of-frame operations.
pub fn start_ops() -> (r: Vec<LineOp>)
    ensures
        r@ == spec_start_ops(),
{
    let r = vec![
        LineOp::DataHigh,
        LineOp::ClockHigh,
        LineOp::WaitFull,
        LineOp::DataLow,
        LineOp::WaitFull,
    ];
    proof {
        assert(r@ =~= spec_start_ops());
    }
    r
}

/// The end-of-frame operations.
pub fn stop_ops() -> (r: Vec<LineOp>)
    ensures
        r@ == spec_stop_ops(),
{
    let r = vec![
        LineOp::ClockLow,
        LineOp::WaitShort,
        LineOp::DataLow,
        LineOp::WaitLong,
        LineOp::ClockHigh,
        LineOp::WaitFull,
        LineOp::DataHigh,
        LineOp::WaitFull,
    ];
    proof {
        assert(r@ =~= spec_stop_ops());
    }
    r
}

/// The operations `send_byte` performs before polling for the acknowledge:
/// eight bit intervals, least significant bit first, then the ACK-phase
/// entry.
pub fn byte_frame_ops(b: u8) -> (r: Vec<LineOp>)
    ensures
        r@ == spec_byte_frame(b),
{
    let mut r: Vec<LineOp> = Vec::new();
    let mut i: u8 = 0;
    while i < 8
        invariant
            0 <= i <= 8,
            r@ == spec_bit_cells(b, i as int),
        decreases 8 - i,
    {
        let bit = (b >> i) & 1 == 1;
        r.push(LineOp::ClockLow);
        r.push(LineOp::WaitShort);
        if bit {
            r.push(LineOp::DataHigh);
        } else {
            r.push(LineOp::DataLow);
        }
        r.push(LineOp::WaitLong);
        r.push(LineOp::ClockHigh);
        r.push(LineOp::WaitFull);
        proof {
            assert(r@ =~= spec_bit_cells(b, i as int) + spec_bit_cell(spec_bit(b, i)));
        }
        i = i + 1;
    }
    r.push(LineOp::ClockLow);
    r.push(LineOp::WaitShort);
    r.push(LineOp::DataHigh);
    r.push(LineOp::WaitLong);
    r.push(LineOp::ClockHigh);
    r.push(LineOp::WaitFull);
    proof {
        assert(r@ =~= spec_byte_frame(b));
    }
    r
}

/// A byte frame emits exactly eight bit intervals before the ACK-wait phase,
/// least significant bit first, whatever the byte value: interval `i`
/// occupies operations `6*i .. 6*i + 6` and carries bit `i` of the byte, and
/// the ACK entry follows at operation 48.
pub proof fn lemma_byte_frame_shape(b: u8)
    ensures
        spec_byte_frame(b).len() == 54,
        forall|i: int|
            0 <= i < 8 ==> #[trigger] spec_byte_frame(b).subrange(6 * i, 6 * i + 6)
                == spec_bit_cell(spec_bit(b, i as u8)),
        spec_byte_frame(b).subrange(48, 54) == spec_ack_entry_ops(),
{
    let cells = spec_bit_cells(b, 8);
    assert(cells.len() == 48) by {
        lemma_bit_cells_len(b, 8);
    }
    assert forall|i: int| 0 <= i < 8 implies #[trigger] spec_byte_frame(b).subrange(
        6 * i,
        6 * i + 6,
    ) == spec_bit_cell(spec_bit(b, i as u8)) by {
        lemma_bit_cells_index(b, 8, i);
        assert(spec_byte_frame(b).subrange(6 * i, 6 * i + 6) =~= spec_bit_cell(
            spec_bit(b, i as u8),
        ));
    }
    assert(spec_byte_frame(b).subrange(48, 54) =~= spec_ack_entry_ops());
}

/// The first `k` bit intervals occupy `6*k` operations.
proof fn lemma_bit_cells_len(b: u8, k: int)
    requires
        k >= 0,
    ensures
        spec_bit_cells(b, k).len() == 6 * k,
    decreases k,
{
    if k > 0 {
        lemma_bit_cells_len(b, k - 1);
    }
}

/// Interval `i` of the first `k` intervals carries bit `i`.
proof fn lemma_bit_cells_index(b: u8, k: int, i: int)
    requires
        0 <= i < k,
    ensures
        spec_bit_cells(b, k).subrange(6 * i, 6 * i + 6) == spec_bit_cell(spec_bit(b, i as u8)),
    decreases k,
{
    lemma_bit_cells_len(b, k);
    if i == k - 1 {
        lemma_bit_cells_len(b, k - 1);
        assert(spec_bit_cells(b, k).subrange(6 * i, 6 * i + 6) =~= spec_bit_cell(
            spec_bit(b, i as u8),
        ));
    } else {
        lemma_bit_cells_index(b, k - 1, i);
        lemma_bit_cells_len(b, k - 1);
        assert(spec_bit_cells(b, k).subrange(6 * i, 6 * i + 6) =~= spec_bit_cells(
            b,
            k - 1,
        ).subrange(6 * i, 6 * i + 6));
    }
}

/// Outcome of one sample of the data line during the ACK-wait phase.
#[derive(Clone, Copy, PartialEq, Eq, Structural, Debug)]
pub enum AckOutcome {
    /// The peripheral pulled the line low: acknowledged.
    Acked,
    /// Not yet low: sample again after one poll interval.
    RetryAfterPollInterval,
    /// The bounded poll is exhausted. By design this is not an error: the
    /// byte is already complete on the wire and a retry would risk a double
    /// write, so the transaction proceeds.
    TimedOutProceed,
}

/// The bounded ACK poll: after the ACK-phase entry the data line is sampled
/// up to `attempts_left` times, one poll interval apart.
pub struct AckWait {
    pub attempts_left: u8,
}

/// Number of data-line samples the ACK poll makes before giving up.
pub const ACK_POLL_ATTEMPTS: u8 = 10;

impl AckWait {
    /// Begin an ACK-wait phase with the full attempt budget.
    pub fn begin() -> (r: AckWait)
        ensures
            r.attempts_left == ACK_POLL_ATTEMPTS,
    {
        AckWait { attempts_left: ACK_POLL_ATTEMPTS }
    }

    /// Feed one sample of the data line. A low line acknowledges; otherwise
    /// one attempt is spent, and spending the last one times the phase out.
    pub fn observe(&mut self, data_low: bool) -> (r: AckOutcome)
        requires
            old(self).attempts_left > 0,
        ensures
            data_low ==> r == AckOutcome::Acked && final(self).attempts_left == old(
                self,
            ).attempts_left,
            !data_low ==> final(self).attempts_left == old(self).attempts_left - 1,
            !data_low && old(self).attempts_left > 1 ==> r == AckOutcome::RetryAfterPollInterval,
            !data_low && old(self).attempts_left == 1 ==> r == AckOutcome::TimedOutProceed,
    {
        if data_low {
            AckOutcome::Acked
        } else {
            self.attempts_left = self.attempts_left - 1;
            if self.attempts_left == 0 {
                AckOutcome::TimedOutProceed
            } else {
                AckOutcome::RetryAfterPollInterval
            }
        }
    }
}

/// Interval between two samples of the data line during the ACK poll, in
/// microseconds.
pub fn ack_poll_interval_us() -> (r: u64)
    ensures
        r == FULL_WAIT_US / 10,
{
    FULL_WAIT_US / 10
}

} // verus!
