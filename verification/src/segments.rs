//! Segment tables: the static mapping from a decimal digit to the set of
//! illuminated display elements, in both geometries the display drivers use.
//!
//! The LED-set geometry names individual elements 0..=6 of one position:
//!
//! ```text
//!    _    0
//!   |_|   5, 6, 1
//!   |_|   4, 3, 2
//! ```
//!
//! The segment-bitmask geometry packs the seven segments plus the decimal
//! point / colon into one byte, bit 0 = segment A .. bit 6 = segment G,
//! bit 7 = the point or colon.

use vstd::prelude::*;

verus! {

/// Bit that adds the colon to a segment-bitmask pattern.
pub const COLON_BIT: u8 = 0b1000_0000;

/// The LED elements lit for `digit` in the LED-set geometry, in the order the
/// driver writes them.
pub open spec fn spec_digit_leds(digit: u8) -> Seq<u8> {
    if digit == 0 {
        seq![0u8, 1u8, 2u8, 3u8, 4u8, 5u8]
    } else if digit == 1 {
        seq![1u8, 2u8]
    } else if digit == 2 {
        seq![0u8, 1u8, 3u8, 4u8, 6u8]
    } else if digit == 3 {
        seq![0u8, 1u8, 2u8, 3u8, 6u8]
    } else if digit == 4 {
        seq![1u8, 2u8, 5u8, 6u8]
    } else if digit == 5 {
        seq![0u8, 2u8, 3u8, 5u8, 6u8]
    } else if digit == 6 {
        seq![0u8, 2u8, 3u8, 4u8, 5u8, 6u8]
    } else if digit == 7 {
        seq![0u8, 1u8, 2u8]
    } else if digit == 8 {
        seq![0u8, 1u8, 2u8, 3u8, 4u8, 5u8, 6u8]
    } else {
        seq![0u8, 1u8, 2u8, 3u8, 5u8, 6u8]
    }
}

/// The LED elements lit for `digit`, as the driver's write order.
pub fn digit_leds(digit: u8) -> (r: Vec<u8>)
    requires
        digit < 10,
    ensures
        r@ == spec_digit_leds(digit),
{
    let r: Vec<u8> = if digit == 0 {
        vec![0u8, 1u8, 2u8, 3u8, 4u8, 5u8]
    } else if digit == 1 {
        vec![1u8, 2u8]
    } else if digit == 2 {
        vec![0u8, 1u8, 3u8, 4u8, 6u8]
    } else if digit == 3 {
        vec![0u8, 1u8, 2u8, 3u8, 6u8]
    } else if digit == 4 {
        vec![1u8, 2u8, 5u8, 6u8]
    } else if digit == 5 {
        vec![0u8, 2u8, 3u8, 5u8, 6u8]
    } else if digit == 6 {
        vec![0u8, 2u8, 3u8, 4u8, 5u8, 6u8]
    } else if digit == 7 {
        vec![0u8, 1u8, 2u8]
    } else if digit == 8 {
        vec![0u8, 1u8, 2u8, 3u8, 4u8, 5u8, 6u8]
    } else {
        vec![0u8, 1u8, 2u8, 3u8, 5u8, 6u8]
    };
    proof {
        assert(r@ =~= spec_digit_leds(digit));
    }
    r
}

/// The segment-bitmask pattern for `digit` (colon bit clear).
pub open spec fn spec_segment_mask(digit: u8) -> u8 {
    if digit == 0 {
        0b0011_1111u8
    } else if digit == 1 {
        0b0000_0110u8
    } else if digit == 2 {
        0b0101_1011u8
    } else if digit == 3 {
        0b0100_1111u8
    } else if digit == 4 {
        0b0110_0110u8
    } else if digit == 5 {
        0b0110_1101u8
    } else if digit == 6 {
        0b0111_1101u8
    } else if digit == 7 {
        0b0000_0111u8
    } else if digit == 8 {
        0b0111_1111u8
    } else {
        0b0110_1111u8
    }
}

/// The segment-bitmask pattern for `digit`.
pub fn segment_mask(digit: u8) -> (r: u8)
    requires
        digit < 10,
    ensures
        r == spec_segment_mask(digit),
{
    if digit == 0 {
        0b0011_1111u8
    } else if digit == 1 {
        0b0000_0110u8
    } else if digit == 2 {
        0b0101_1011u8
    } else if digit == 3 {
        0b0100_1111u8
    } else if digit == 4 {
        0b0110_0110u8
    } else if digit == 5 {
        0b0110_1101u8
    } else if digit == 6 {
        0b0111_1101u8
    } else if digit == 7 {
        0b0000_0111u8
    } else if digit == 8 {
        0b0111_1111u8
    } else {
        0b0110_1111u8
    }
}

/// The segment-bitmask pattern for `digit` with the colon bit set, used at
/// the minutes-units position to light the colon between minutes and seconds.
pub fn segment_mask_with_colon(digit: u8) -> (r: u8)
    requires
        digit < 10,
    ensures
        r == spec_segment_mask(digit) | COLON_BIT,
{
    segment_mask(digit) | COLON_BIT
}

} // verus!
