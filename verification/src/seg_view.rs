//! The countdown view for the segment-bitmask display geometry (the
//! bit-banged driver): four digit positions, each written as one whole byte
//! on the serial bus, with the colon carried in the high bit of the
//! minutes-units byte. The protocol always transmits a full byte, so the
//! differential update degenerates to a dirty check: an unchanged digit's
//! position is not rewritten at all.

use vstd::prelude::*;
use crate::countdown::DisplayTarget;
use crate::segments::COLON_BIT;
use crate::segments::spec_segment_mask;
use crate::segments::segment_mask;
use crate::segments::segment_mask_with_colon;

verus! {

/// Controller command that selects fixed addressing before position writes.
pub const FIXED_ADDRESS_MODE: u8 = 0b0100_0100;

/// Controller command that switches the display off.
pub const DISPLAY_OFF: u8 = 0b1000_0000;

/// Base of the controller commands that switch the display on at a
/// brightness level; the level 0..=7 is added to it.
pub const DISPLAY_ON_BASE: u8 = 0b1000_1000;

/// Register address of the minutes-tens position.
pub const ADDR_MINUTES_TENS: u8 = 0b1100_0000;

/// Register address of the minutes-units position.
pub const ADDR_MINUTES_UNITS: u8 = 0b1100_0001;

/// Register address of the seconds-tens position.
pub const ADDR_SECONDS_TENS: u8 = 0b1100_0010;

/// Register address of the seconds-units position.
pub const ADDR_SECONDS_UNITS: u8 = 0b1100_0011;

/// Highest brightness level of this display variant.
pub const MAX_SEG_BRIGHTNESS: u8 = 7;

/// One logical bus transaction: from the caller's point of view each is
/// atomic — start-of-frame, its bytes, end-of-frame — and no other
/// transaction may interleave bits onto the same two lines.
#[derive(Clone, Copy, PartialEq, Eq, Structural, Debug)]
pub enum BusCommand {
    /// Put the controller into fixed addressing mode.
    SetAddressMode,
    /// Write `pattern` at the position register `address`.
    WritePattern { address: u8, pattern: u8 },
    /// Switch the display on at brightness `level` (0..=7).
    SetBrightness { level: u8 },
    /// Switch the display off.
    TurnOff,
}

impl BusCommand {
    /// A brightness command stays within the hardware's range.
    pub open spec fn wf(self) -> bool {
        match self {
            BusCommand::SetBrightness { level } => level <= MAX_SEG_BRIGHTNESS,
            _ => true,
        }
    }

    /// The bytes of the transaction, in wire order.
    pub open spec fn spec_bytes(self) -> Seq<u8> {
        match self {
            BusCommand::SetAddressMode => seq![FIXED_ADDRESS_MODE],
            BusCommand::WritePattern { address, pattern } => seq![address, pattern],
            BusCommand::SetBrightness { level } => seq![(DISPLAY_ON_BASE + level) as u8],
            BusCommand::TurnOff => seq![DISPLAY_OFF],
        }
    }
}

/// The bytes of one transaction, in wire order. The hardware layer frames
/// them: start-of-frame, each byte with its ACK phase, end-of-frame.
pub fn command_bytes(c: &BusCommand) -> (r: Vec<u8>)
    requires
        c.wf(),
    ensures
        r@ == c.spec_bytes(),
{
    let r = match c {
        BusCommand::SetAddressMode => vec![FIXED_ADDRESS_MODE],
        BusCommand::WritePattern { address, pattern } => vec![*address, *pattern],
        BusCommand::SetBrightness { level } => vec![DISPLAY_ON_BASE + *level],
        BusCommand::TurnOff => vec![DISPLAY_OFF],
    };
    proof {
        assert(r@ =~= c.spec_bytes());
    }
    r
}

/// The write for one position when its digit changed, nothing when it did
/// not; the minutes-units position carries the colon bit.
pub open spec fn spec_dirty_write(address: u8, old_digit: u8, new_digit: u8, colon: bool) -> Seq<
    BusCommand,
> {
    if old_digit == new_digit {
        Seq::empty()
    } else {
        seq![
            BusCommand::WritePattern {
                address,
                pattern: if colon {
                    spec_segment_mask(new_digit) | COLON_BIT
                } else {
                    spec_segment_mask(new_digit)
                },
            },
        ]
    }
}

/// A full render from a blank display: select fixed addressing, write all
/// four position bytes (colon bit set on the minutes-units byte), then
/// switch the display on at the configured brightness.
pub open spec fn spec_seg_full_render(
    minutes_tens: u8,
    minutes_units: u8,
    seconds_tens: u8,
    seconds_units: u8,
    brightness: u8,
) -> Seq<BusCommand> {
    seq![
        BusCommand::SetAddressMode,
        BusCommand::WritePattern {
            address: ADDR_MINUTES_TENS,
            pattern: spec_segment_mask(minutes_tens),
        },
        BusCommand::WritePattern {
            address: ADDR_MINUTES_UNITS,
            pattern: spec_segment_mask(minutes_units) | COLON_BIT,
        },
        BusCommand::WritePattern {
            address: ADDR_SECONDS_TENS,
            pattern: spec_segment_mask(seconds_tens),
        },
        BusCommand::WritePattern {
            address: ADDR_SECONDS_UNITS,
            pattern: spec_segment_mask(seconds_units),
        },
        BusCommand::SetBrightness { level: brightness },
    ]
}

/// Blanking the display: select fixed addressing, write an all-off byte at
/// every position, switch the display off.
pub open spec fn spec_seg_clear() -> Seq<BusCommand> {
    seq![
        BusCommand::SetAddressMode,
        BusCommand::WritePattern { address: ADDR_MINUTES_TENS, pattern: 0 },
        BusCommand::WritePattern { address: ADDR_MINUTES_UNITS, pattern: 0 },
        BusCommand::WritePattern { address: ADDR_SECONDS_TENS, pattern: 0 },
        BusCommand::WritePattern { address: ADDR_SECONDS_UNITS, pattern: 0 },
        BusCommand::TurnOff,
    ]
}

/// A differential update of an already-rendered display: select fixed
/// addressing, rewrite only the positions whose digit changed, then restate
/// the brightness.
pub open spec fn spec_seg_diff(
    old_minutes_tens: u8,
    old_minutes_units: u8,
    old_seconds_tens: u8,
    old_seconds_units: u8,
    minutes_tens: u8,
    minutes_units: u8,
    seconds_tens: u8,
    seconds_units: u8,
    brightness: u8,
) -> Seq<BusCommand> {
    seq![BusCommand::SetAddressMode] + spec_dirty_write(
        ADDR_MINUTES_TENS,
        old_minutes_tens,
        minutes_tens,
        false,
    ) + spec_dirty_write(ADDR_MINUTES_UNITS, old_minutes_units, minutes_units, true)
        + spec_dirty_write(ADDR_SECONDS_TENS, old_seconds_tens, seconds_tens, false)
        + spec_dirty_write(ADDR_SECONDS_UNITS, old_seconds_units, seconds_units, false) + seq![
        BusCommand::SetBrightness { level: brightness },
    ]
}

/// The four digit-position states of the segment display plus its configured
/// brightness. Positions move together: all four set or all four unset.
pub struct SegmentCountdown {
    pub minutes_ten: Option<u8>,
    pub minutes_single: Option<u8>,
    pub seconds_ten: Option<u8>,
    pub seconds_single: Option<u8>,
    pub brightness: u8,
}

impl SegmentCountdown {
    /// Every position currently shows a digit.
    pub open spec fn all_set(self) -> bool {
        self.minutes_ten is Some && self.minutes_single is Some && self.seconds_ten is Some
            && self.seconds_single is Some
    }

    /// Every position is blank.
    pub open spec fn all_unset(self) -> bool {
        self.minutes_ten is None && self.minutes_single is None && self.seconds_ten is None
            && self.seconds_single is None
    }

    /// A set position holds a decimal digit.
    pub open spec fn slot_wf(s: Option<u8>) -> bool {
        match s {
            Some(d) => d < 10,
            None => true,
        }
    }

    /// Positions move together, hold decimal digits, and the brightness is
    /// within the hardware's range.
    pub open spec fn wf(self) -> bool {
        (self.all_set() || self.all_unset()) && Self::slot_wf(self.minutes_ten) && Self::slot_wf(
            self.minutes_single,
        ) && Self::slot_wf(self.seconds_ten) && Self::slot_wf(self.seconds_single)
            && self.brightness <= MAX_SEG_BRIGHTNESS
    }

    /// The state showing the four given digits at brightness `b`.
    pub open spec fn spec_showing(
        minutes_tens: u8,
        minutes_units: u8,
        seconds_tens: u8,
        seconds_units: u8,
        b: u8,
    ) -> SegmentCountdown {
        SegmentCountdown {
            minutes_ten: Some(minutes_tens),
            minutes_single: Some(minutes_units),
            seconds_ten: Some(seconds_tens),
            seconds_single: Some(seconds_units),
            brightness: b,
        }
    }

    /// The all-blank state at brightness `b`.
    pub open spec fn spec_unset(b: u8) -> SegmentCountdown {
        SegmentCountdown {
            minutes_ten: None,
            minutes_single: None,
            seconds_ten: None,
            seconds_single: None,
            brightness: b,
        }
    }

    /// A fresh view: every position blank. Out-of-range brightness is a
    /// configuration error the caller must rule out before construction.
    pub fn new(brightness: u8) -> (r: SegmentCountdown)
        requires
            brightness <= MAX_SEG_BRIGHTNESS,
        ensures
            r == Self::spec_unset(brightness),
            r.wf(),
    {
        SegmentCountdown {
            minutes_ten: None,
            minutes_single: None,
            seconds_ten: None,
            seconds_single: None,
            brightness,
        }
    }

    /// Blank the display: every position returns to unset, and the bus is
    /// told to zero every position and switch off.
    pub fn clear_display(&mut self) -> (r: Vec<BusCommand>)
        ensures
            *final(self) == Self::spec_unset(old(self).brightness),
            r@ == spec_seg_clear(),
    {
        self.minutes_ten = None;
        self.minutes_single = None;
        self.seconds_ten = None;
        self.seconds_single = None;
        let r = vec![
            BusCommand::SetAddressMode,
            BusCommand::WritePattern { address: ADDR_MINUTES_TENS, pattern: 0 },
            BusCommand::WritePattern { address: ADDR_MINUTES_UNITS, pattern: 0 },
            BusCommand::WritePattern { address: ADDR_SECONDS_TENS, pattern: 0 },
            BusCommand::WritePattern { address: ADDR_SECONDS_UNITS, pattern: 0 },
            BusCommand::TurnOff,
        ];
        proof {
            assert(r@ =~= spec_seg_clear());
        }
        r
    }

    /// Apply one tick's target. A blank target clears the display unless it
    /// is already blank; digits are rendered in full from a blank display,
    /// and otherwise only the positions whose digit changed are rewritten
    /// (the dirty check that keeps needless traffic off the bus).
    pub fn apply_target(&mut self, target: DisplayTarget) -> (r: Vec<BusCommand>)
        requires
            old(self).wf(),
            target.wf(),
        ensures
            final(self).wf(),
            final(self).brightness == old(self).brightness,
            match target {
                DisplayTarget::Blank => {
                    &&& *final(self) == Self::spec_unset(old(self).brightness)
                    &&& r@ == if old(self).all_set() {
                        spec_seg_clear()
                    } else {
                        Seq::<BusCommand>::empty()
                    }
                },
                DisplayTarget::Digits {
                    minutes_tens,
                    minutes_units,
                    seconds_tens,
                    seconds_units,
                } => {
                    &&& *final(self) == Self::spec_showing(
                        minutes_tens,
                        minutes_units,
                        seconds_tens,
                        seconds_units,
                        old(self).brightness,
                    )
                    &&& r@ == if old(self).all_unset() {
                        spec_seg_full_render(
                            minutes_tens,
                            minutes_units,
                            seconds_tens,
                            seconds_units,
                            old(self).brightness,
                        )
                    } else {
                        spec_seg_diff(
                            old(self).minutes_ten->0,
                            old(self).minutes_single->0,
                            old(self).seconds_ten->0,
                            old(self).seconds_single->0,
                            minutes_tens,
                            minutes_units,
                            seconds_tens,
                            seconds_units,
                            old(self).brightness,
                        )
                    }
                },
            },
    {
        match target {
            DisplayTarget::Blank => {
                if self.minutes_ten.is_some() {
                    self.clear_display()
                } else {
                    Vec::new()
                }
            },
            DisplayTarget::Digits { minutes_tens, minutes_units, seconds_tens, seconds_units } => {
                let mut r: Vec<BusCommand> = Vec::new();
                r.push(BusCommand::SetAddressMode);
                if self.minutes_ten.is_none() {
                    r.push(
                        BusCommand::WritePattern {
                            address: ADDR_MINUTES_TENS,
                            pattern: segment_mask(minutes_tens),
                        },
                    );
                    r.push(
                        BusCommand::WritePattern {
                            address: ADDR_MINUTES_UNITS,
                            pattern: segment_mask_with_colon(minutes_units),
                        },
                    );
                    r.push(
                        BusCommand::WritePattern {
                            address: ADDR_SECONDS_TENS,
                            pattern: segment_mask(seconds_tens),
                        },
                    );
                    r.push(
                        BusCommand::WritePattern {
                            address: ADDR_SECONDS_UNITS,
                            pattern: segment_mask(seconds_units),
                        },
                    );
                    r.push(BusCommand::SetBrightness { level: self.brightness });
                    proof {
                        assert(r@ =~= spec_seg_full_render(
                            minutes_tens,
                            minutes_units,
                            seconds_tens,
                            seconds_units,
                            old(self).brightness,
                        ));
                    }
                } else {
                    let ghost w0 = spec_dirty_write(
                        ADDR_MINUTES_TENS,
                        old(self).minutes_ten->0,
                        minutes_tens,
                        false,
                    );
                    let ghost w1 = spec_dirty_write(
                        ADDR_MINUTES_UNITS,
                        old(self).minutes_single->0,
                        minutes_units,
                        true,
                    );
                    let ghost w2 = spec_dirty_write(
                        ADDR_SECONDS_TENS,
                        old(self).seconds_ten->0,
                        seconds_tens,
                        false,
                    );
                    let ghost w3 = spec_dirty_write(
                        ADDR_SECONDS_UNITS,
                        old(self).seconds_single->0,
                        seconds_units,
                        false,
                    );
                    if self.minutes_ten.unwrap() != minutes_tens {
                        r.push(
                            BusCommand::WritePattern {
                                address: ADDR_MINUTES_TENS,
                                pattern: segment_mask(minutes_tens),
                            },
                        );
                    }
                    proof {
                        assert(r@ =~= seq![BusCommand::SetAddressMode] + w0);
                    }
                    if self.minutes_single.unwrap() != minutes_units {
                        r.push(
                            BusCommand::WritePattern {
                                address: ADDR_MINUTES_UNITS,
                                pattern: segment_mask_with_colon(minutes_units),
                            },
                        );
                    }
                    proof {
                        assert(r@ =~= seq![BusCommand::SetAddressMode] + w0 + w1);
                    }
                    if self.seconds_ten.unwrap() != seconds_tens {
                        r.push(
                            BusCommand::WritePattern {
                                address: ADDR_SECONDS_TENS,
                                pattern: segment_mask(seconds_tens),
                            },
                        );
                    }
                    proof {
                        assert(r@ =~= seq![BusCommand::SetAddressMode] + w0 + w1 + w2);
                    }
                    if self.seconds_single.unwrap() != seconds_units {
                        r.push(
                            BusCommand::WritePattern {
                                address: ADDR_SECONDS_UNITS,
                                pattern: segment_mask(seconds_units),
                            },
                        );
                    }
                    proof {
                        assert(r@ =~= seq![BusCommand::SetAddressMode] + w0 + w1 + w2 + w3);
                    }
                    r.push(BusCommand::SetBrightness { level: self.brightness });
                    proof {
                        assert(r@ =~= spec_seg_diff(
                            old(self).minutes_ten->0,
                            old(self).minutes_single->0,
                            old(self).seconds_ten->0,
                            old(self).seconds_single->0,
                            minutes_tens,
                            minutes_units,
                            seconds_tens,
                            seconds_units,
                            old(self).brightness,
                        ));
                    }
                }
                self.minutes_ten = Some(minutes_tens);
                self.minutes_single = Some(minutes_units);
                self.seconds_ten = Some(seconds_tens);
                self.seconds_single = Some(seconds_units);
                r
            },
        }
    }
}

/// A differential update toward the digits already shown rewrites no
/// position: every command it issues is mode or brightness housekeeping, not
/// a pattern write.
pub proof fn lemma_seg_second_application_writes_nothing(
    minutes_tens: u8,
    minutes_units: u8,
    seconds_tens: u8,
    seconds_units: u8,
    brightness: u8,
)
    ensures
        spec_seg_diff(
            minutes_tens,
            minutes_units,
            seconds_tens,
            seconds_units,
            minutes_tens,
            minutes_units,
            seconds_tens,
            seconds_units,
            brightness,
        ) == seq![
            BusCommand::SetAddressMode,
            BusCommand::SetBrightness { level: brightness },
        ],
        forall|c: BusCommand|
            #[trigger] spec_seg_diff(
                minutes_tens,
                minutes_units,
                seconds_tens,
                seconds_units,
                minutes_tens,
                minutes_units,
                seconds_tens,
                seconds_units,
                brightness,
            ).contains(c) ==> !(c is WritePattern),
{
    let d = spec_seg_diff(
        minutes_tens,
        minutes_units,
        seconds_tens,
        seconds_units,
        minutes_tens,
        minutes_units,
        seconds_tens,
        seconds_units,
        brightness,
    );
    assert(d =~= seq![
        BusCommand::SetAddressMode,
        BusCommand::SetBrightness { level: brightness },
    ]);
}

} // verus!
