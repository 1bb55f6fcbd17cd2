//! The countdown view for the LED-set display geometry (the addressable-bus
//! driver): four digit positions plus a colon, each position a set of
//! individually addressable LEDs. Rendering goes through the differential
//! digit update: only elements that change between the old and the new digit
//! are written.

use vstd::prelude::*;
use crate::countdown::DisplayTarget;
use crate::diff::spec_leds_off;
use crate::diff::spec_leds_on;
use crate::diff::diff_leds;
use crate::segments::spec_digit_leds;
use crate::segments::digit_leds;

verus! {

/// Display position of the minutes-tens digit.
pub const MINUTES_TENS_LOC: u8 = 0;

/// Display position of the minutes-units digit.
pub const MINUTES_UNITS_LOC: u8 = 2;

/// Display position of the seconds-tens digit.
pub const SECONDS_TENS_LOC: u8 = 6;

/// Display position of the seconds-units digit.
pub const SECONDS_UNITS_LOC: u8 = 8;

/// Display position of the colon between minutes and seconds.
pub const COLON_LOC: u8 = 4;

/// One element-level write: switch `led` at display position `location` on
/// or off. Writes are idempotent and order-independent across positions.
#[derive(Clone, Copy, PartialEq, Eq, Structural, Debug)]
pub struct LedWrite {
    pub location: u8,
    pub led: u8,
    pub on: bool,
}

/// One tick's plan for the LED display: either wipe every position, or a
/// list of element writes.
pub struct LedPlan {
    /// Blank the whole display and forget every position's state.
    pub clear_all: bool,
    /// Element writes to apply; empty when `clear_all` is set.
    pub writes: Vec<LedWrite>,
}

/// The writes that switch the given elements at one position.
pub open spec fn spec_led_writes(location: u8, leds: Seq<u8>, on: bool) -> Seq<LedWrite> {
    leds.map_values(|led: u8| LedWrite { location, led, on })
}

/// The writes that light the colon.
pub open spec fn spec_colon_writes() -> Seq<LedWrite> {
    seq![
        LedWrite { location: COLON_LOC, led: 0, on: true },
        LedWrite { location: COLON_LOC, led: 1, on: true },
    ]
}

/// The writes that move one position from `old_digit` to `new_digit`: the
/// elements only the old digit lights are switched off, then the elements
/// only the new digit lights are switched on. An unchanged digit needs no
/// writes.
pub open spec fn spec_slot_change_writes(location: u8, old_digit: u8, new_digit: u8) -> Seq<
    LedWrite,
> {
    if old_digit == new_digit {
        Seq::empty()
    } else {
        spec_led_writes(location, spec_leds_off(old_digit, new_digit), false) + spec_led_writes(
            location,
            spec_leds_on(old_digit, new_digit),
            true,
        )
    }
}

/// The writes of a full render from a blank display: every element of each
/// digit is switched on, and the colon is lit.
pub open spec fn spec_full_render_writes(
    minutes_tens: u8,
    minutes_units: u8,
    seconds_tens: u8,
    seconds_units: u8,
) -> Seq<LedWrite> {
    spec_led_writes(MINUTES_TENS_LOC, spec_digit_leds(minutes_tens), true) + spec_led_writes(
        MINUTES_UNITS_LOC,
        spec_digit_leds(minutes_units),
        true,
    ) + spec_led_writes(SECONDS_TENS_LOC, spec_digit_leds(seconds_tens), true) + spec_led_writes(
        SECONDS_UNITS_LOC,
        spec_digit_leds(seconds_units),
        true,
    ) + spec_colon_writes()
}

/// The four digit-position states of the LED display. Each is unset (blank,
/// never written since the last clear) or holds the digit it currently
/// shows; the positions move together, so all four are set or all four are
/// unset.
pub struct LedCountdown {
    pub minutes_ten: Option<u8>,
    pub minutes_single: Option<u8>,
    pub seconds_ten: Option<u8>,
    pub seconds_single: Option<u8>,
}

impl LedCountdown {
    /// Every position currently shows a digit.
    pub open spec fn all_set(self) -> bool {
        self.minutes_ten is Some && self.minutes_single is Some && self.seconds_ten is Some
            && self.seconds_single is Some
    }

    /// Every position is blank.
    pub open spec fn all_unset(self) -> bool {
        self.minutes_ten is None && self.minutes_single is None && self.seconds_ten is None
            && self.seconds_single is None
    }

    /// A set position holds a decimal digit.
    pub open spec fn slot_wf(s: Option<u8>) -> bool {
        match s {
            Some(d) => d < 10,
            None => true,
        }
    }

    /// Positions move together and hold decimal digits.
    pub open spec fn wf(self) -> bool {
        (self.all_set() || self.all_unset()) && Self::slot_wf(self.minutes_ten) && Self::slot_wf(
            self.minutes_single,
        ) && Self::slot_wf(self.seconds_ten) && Self::slot_wf(self.seconds_single)
    }

    /// The state that shows the four given digits.
    pub open spec fn spec_showing(
        minutes_tens: u8,
        minutes_units: u8,
        seconds_tens: u8,
        seconds_units: u8,
    ) -> LedCountdown {
        LedCountdown {
            minutes_ten: Some(minutes_tens),
            minutes_single: Some(minutes_units),
            seconds_ten: Some(seconds_tens),
            seconds_single: Some(seconds_units),
        }
    }

    /// The all-blank state.
    pub open spec fn spec_unset() -> LedCountdown {
        LedCountdown {
            minutes_ten: None,
            minutes_single: None,
            seconds_ten: None,
            seconds_single: None,
        }
    }

    /// A fresh view: every position blank.
    pub fn new() -> (r: LedCountdown)
        ensures
            r == Self::spec_unset(),
            r.wf(),
    {
        LedCountdown {
            minutes_ten: None,
            minutes_single: None,
            seconds_ten: None,
            seconds_single: None,
        }
    }

    /// Blank the display: every position returns to unset and the plan wipes
    /// the hardware.
    pub fn clear_display(&mut self) -> (r: LedPlan)
        ensures
            *final(self) == Self::spec_unset(),
            r.clear_all,
            r.writes@ == Seq::<LedWrite>::empty(),
    {
        self.minutes_ten = None;
        self.minutes_single = None;
        self.seconds_ten = None;
        self.seconds_single = None;
        LedPlan { clear_all: true, writes: Vec::new() }
    }

    /// Apply one tick's target. A blank target clears the display unless it
    /// is already blank; digits are rendered in full from a blank display and
    /// differentially otherwise, writing only the positions whose digit
    /// changed. A target equal to what is already shown issues no writes.
    pub fn apply_target(&mut self, target: DisplayTarget) -> (r: LedPlan)
        requires
            old(self).wf(),
            target.wf(),
        ensures
            final(self).wf(),
            match target {
                DisplayTarget::Blank => {
                    &&& *final(self) == Self::spec_unset()
                    &&& r.clear_all == old(self).all_set()
                    &&& r.writes@ == Seq::<LedWrite>::empty()
                },
                DisplayTarget::Digits {
                    minutes_tens,
                    minutes_units,
                    seconds_tens,
                    seconds_units,
                } => {
                    &&& *final(self) == Self::spec_showing(
                        minutes_tens,
                        minutes_units,
                        seconds_tens,
                        seconds_units,
                    )
                    &&& !r.clear_all
                    &&& if old(self).all_unset() {
                        r.writes@ == spec_full_render_writes(
                            minutes_tens,
                            minutes_units,
                            seconds_tens,
                            seconds_units,
                        )
                    } else {
                        r.writes@ == spec_slot_change_writes(
                            MINUTES_TENS_LOC,
                            old(self).minutes_ten->0,
                            minutes_tens,
                        ) + spec_slot_change_writes(
                            MINUTES_UNITS_LOC,
                            old(self).minutes_single->0,
                            minutes_units,
                        ) + spec_slot_change_writes(
                            SECONDS_TENS_LOC,
                            old(self).seconds_ten->0,
                            seconds_tens,
                        ) + spec_slot_change_writes(
                            SECONDS_UNITS_LOC,
                            old(self).seconds_single->0,
                            seconds_units,
                        )
                    }
                },
            },
    {
        match target {
            DisplayTarget::Blank => {
                if self.minutes_ten.is_some() {
                    self.clear_display()
                } else {
                    LedPlan { clear_all: false, writes: Vec::new() }
                }
            },
            DisplayTarget::Digits { minutes_tens, minutes_units, seconds_tens, seconds_units } => {
                let mut writes: Vec<LedWrite> = Vec::new();
                if self.minutes_ten.is_none() {
                    push_led_writes(&mut writes, MINUTES_TENS_LOC, &digit_leds(minutes_tens), true);
                    push_led_writes(
                        &mut writes,
                        MINUTES_UNITS_LOC,
                        &digit_leds(minutes_units),
                        true,
                    );
                    push_led_writes(&mut writes, SECONDS_TENS_LOC, &digit_leds(seconds_tens), true);
                    push_led_writes(
                        &mut writes,
                        SECONDS_UNITS_LOC,
                        &digit_leds(seconds_units),
                        true,
                    );
                    writes.push(LedWrite { location: COLON_LOC, led: 0, on: true });
                    writes.push(LedWrite { location: COLON_LOC, led: 1, on: true });
                    proof {
                        assert(writes@ =~= spec_full_render_writes(
                            minutes_tens,
                            minutes_units,
                            seconds_tens,
                            seconds_units,
                        ));
                    }
                } else {
                    let ghost w0 = spec_slot_change_writes(
                        MINUTES_TENS_LOC,
                        old(self).minutes_ten->0,
                        minutes_tens,
                    );
                    let ghost w1 = spec_slot_change_writes(
                        MINUTES_UNITS_LOC,
                        old(self).minutes_single->0,
                        minutes_units,
                    );
                    let ghost w2 = spec_slot_change_writes(
                        SECONDS_TENS_LOC,
                        old(self).seconds_ten->0,
                        seconds_tens,
                    );
                    let ghost w3 = spec_slot_change_writes(
                        SECONDS_UNITS_LOC,
                        old(self).seconds_single->0,
                        seconds_units,
                    );
                    push_slot_change(
                        &mut writes,
                        MINUTES_TENS_LOC,
                        self.minutes_ten.unwrap(),
                        minutes_tens,
                    );
                    proof {
                        assert(writes@ =~= w0);
                    }
                    push_slot_change(
                        &mut writes,
                        MINUTES_UNITS_LOC,
                        self.minutes_single.unwrap(),
                        minutes_units,
                    );
                    proof {
                        assert(writes@ =~= w0 + w1);
                    }
                    push_slot_change(
                        &mut writes,
                        SECONDS_TENS_LOC,
                        self.seconds_ten.unwrap(),
                        seconds_tens,
                    );
                    proof {
                        assert(writes@ =~= w0 + w1 + w2);
                    }
                    push_slot_change(
                        &mut writes,
                        SECONDS_UNITS_LOC,
                        self.seconds_single.unwrap(),
                        seconds_units,
                    );
                    proof {
                        assert(writes@ =~= w0 + w1 + w2 + w3);
                    }
                }
                self.minutes_ten = Some(minutes_tens);
                self.minutes_single = Some(minutes_units);
                self.seconds_ten = Some(seconds_tens);
                self.seconds_single = Some(seconds_units);
                LedPlan { clear_all: false, writes }
            },
        }
    }
}

/// Append the writes switching `leds` at `location`.
fn push_led_writes(out: &mut Vec<LedWrite>, location: u8, leds: &Vec<u8>, on: bool)
    ensures
        final(out)@ == old(out)@ + spec_led_writes(location, leds@, on),
{
    let mut i: usize = 0;
    proof {
        assert(old(out)@ + spec_led_writes(location, leds@.take(0), on) =~= old(out)@);
    }
    while i < leds.len()
        invariant
            0 <= i <= leds@.len(),
            out@ == old(out)@ + spec_led_writes(location, leds@.take(i as int), on),
        decreases leds@.len() - i,
    {
        out.push(LedWrite { location, led: leds[i], on });
        proof {
            assert(out@ =~= old(out)@ + spec_led_writes(location, leds@.take(i + 1), on));
        }
        i = i + 1;
    }
    proof {
        assert(leds@.take(leds@.len() as int) =~= leds@);
    }
}

/// Append the differential writes that move one position from `old_digit` to
/// `new_digit`.
fn push_slot_change(out: &mut Vec<LedWrite>, location: u8, old_digit: u8, new_digit: u8)
    requires
        old_digit < 10,
        new_digit < 10,
    ensures
        final(out)@ == old(out)@ + spec_slot_change_writes(location, old_digit, new_digit),
{
    if old_digit == new_digit {
        proof {
            assert(old(out)@ + spec_slot_change_writes(location, old_digit, new_digit) =~= old(
                out,
            )@);
        }
        return ;
    }
    let (off, on) = diff_leds(old_digit, new_digit);
    push_led_writes(out, location, &off, false);
    push_led_writes(out, location, &on, true);
    proof {
        assert(out@ =~= old(out)@ + spec_slot_change_writes(location, old_digit, new_digit));
    }
}

/// Applying a target that matches what the display already shows issues no
/// writes: each position's differential update is empty.
pub proof fn lemma_unchanged_digits_no_writes(
    minutes_tens: u8,
    minutes_units: u8,
    seconds_tens: u8,
    seconds_units: u8,
)
    ensures
        spec_slot_change_writes(MINUTES_TENS_LOC, minutes_tens, minutes_tens) + spec_slot_change_writes(
            MINUTES_UNITS_LOC,
            minutes_units,
            minutes_units,
        ) + spec_slot_change_writes(SECONDS_TENS_LOC, seconds_tens, seconds_tens)
            + spec_slot_change_writes(SECONDS_UNITS_LOC, seconds_units, seconds_units)
            == Seq::<LedWrite>::empty(),
{
    assert(spec_slot_change_writes(MINUTES_TENS_LOC, minutes_tens, minutes_tens)
        + spec_slot_change_writes(MINUTES_UNITS_LOC, minutes_units, minutes_units)
        + spec_slot_change_writes(SECONDS_TENS_LOC, seconds_tens, seconds_tens)
        + spec_slot_change_writes(SECONDS_UNITS_LOC, seconds_units, seconds_units) =~= Seq::<
        LedWrite,
    >::empty());
}

} // verus!
