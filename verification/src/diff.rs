//! Differential digit updates for the LED-set geometry: given the digit a
//! position currently shows and the digit it should show, compute the minimal
//! element-level on/off operations. Elements lit by both digits are left
//! untouched, so an unchanged digit issues no writes at all.

use vstd::prelude::*;
use crate::segments::spec_digit_leds;
use crate::segments::digit_leds;

verus! {

/// The elements to switch off when moving from `old_digit` to `new_digit`:
/// those lit by the old digit and not by the new one, in the old digit's
/// write order.
pub open spec fn spec_leds_off(old_digit: u8, new_digit: u8) -> Seq<u8> {
    spec_digit_leds(old_digit).filter(|led: u8| !spec_digit_leds(new_digit).contains(led))
}

/// The elements to switch on when moving from `old_digit` to `new_digit`:
/// those lit by the new digit and not by the old one, in the new digit's
/// write order.
pub open spec fn spec_leds_on(old_digit: u8, new_digit: u8) -> Seq<u8> {
    spec_digit_leds(new_digit).filter(|led: u8| !spec_digit_leds(old_digit).contains(led))
}

/// Whether `x` occurs in `v`.
fn led_list_contains(v: &Vec<u8>, x: u8) -> (r: bool)
    ensures
        r == v@.contains(x),
{
    let mut i: usize = 0;
    while i < v.len()
        invariant
            0 <= i <= v@.len(),
            forall|j: int| 0 <= j < i ==> v@[j] != x,
        decreases v@.len() - i,
    {
        if v[i] == x {
            return true;
        }
        i = i + 1;
    }
    false
}

/// Those elements of `from` that are not in `excluded`, keeping order.
fn leds_not_in(from: &Vec<u8>, excluded: &Vec<u8>) -> (r: Vec<u8>)
    ensures
        r@ == from@.filter(|led: u8| !excluded@.contains(led)),
{
    let ghost pred = |led: u8| !excluded@.contains(led);
    let mut r: Vec<u8> = Vec::new();
    let mut i: usize = 0;
    proof {
        assert(from@.take(0).filter(pred) =~= Seq::<u8>::empty());
    }
    while i < from.len()
        invariant
            0 <= i <= from@.len(),
            r@ == from@.take(i as int).filter(pred),
            pred == (|led: u8| !excluded@.contains(led)),
        decreases from@.len() - i,
    {
        let led = from[i];
        if !led_list_contains(excluded, led) {
            r.push(led);
        }
        proof {
            reveal(Seq::filter);
            assert(from@.take(i + 1).drop_last() =~= from@.take(i as int));
            assert(from@.take(i + 1).last() == from@[i as int]);
        }
        i = i + 1;
    }
    proof {
        assert(from@.take(from@.len() as int) =~= from@);
    }
    r
}

/// The minimal on/off operations for one display position moving from
/// `old_digit` to `new_digit`: first the elements to switch off, then the
/// elements to switch on.
pub fn diff_leds(old_digit: u8, new_digit: u8) -> (r: (Vec<u8>, Vec<u8>))
    requires
        old_digit < 10,
        new_digit < 10,
    ensures
        r.0@ == spec_leds_off(old_digit, new_digit),
        r.1@ == spec_leds_on(old_digit, new_digit),
{
    let old_leds = digit_leds(old_digit);
    let new_leds = digit_leds(new_digit);
    let off = leds_not_in(&old_leds, &new_leds);
    let on = leds_not_in(&new_leds, &old_leds);
    (off, on)
}

/// An unchanged digit needs no operations: moving a position from a digit to
/// that same digit switches nothing off and nothing on.
pub proof fn lemma_same_digit_no_ops(digit: u8)
    ensures
        spec_leds_off(digit, digit) == Seq::<u8>::empty(),
        spec_leds_on(digit, digit) == Seq::<u8>::empty(),
{
    let leds = spec_digit_leds(digit);
    let pred = |led: u8| !leds.contains(led);
    assert forall|i: int| 0 <= i < leds.len() implies !pred(leds[i]) by {
        assert(leds.contains(leds[i]));
    }
    leds.lemma_all_neg_filter_empty(pred);
    assert(spec_leds_off(digit, digit) =~= Seq::<u8>::empty());
    assert(spec_leds_on(digit, digit) =~= Seq::<u8>::empty());
}

} // verus!
