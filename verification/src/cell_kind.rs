//! What a memory cell of the machine has to offer.

use vstd::prelude::*;

verus! {

/// The value after `v` in a cell whose largest value is `max`: past the
/// largest value comes zero.
pub open spec fn wrapping_succ(v: nat, max: nat) -> nat {
    if v >= max {
        0
    } else {
        v + 1
    }
}

/// The value before `v` in a cell whose largest value is `max`: before
/// zero comes the largest value.
pub open spec fn wrapping_pred(v: nat, max: nat) -> nat {
    if v == 0 {
        max
    } else {
        (v - 1) as nat
    }
}

/// Wraparound, for a cell of any width: the largest value is followed by
/// zero and zero is preceded by the largest value; going one step forward
/// and one step back, or one back and one forward, returns to where it began.
pub proof fn lemma_wraparound(v: nat, max: nat)
    requires
        v <= max,
    ensures
        wrapping_succ(max, max) == 0,
        wrapping_pred(0, max) == max,
        wrapping_succ(v, max) <= max,
        wrapping_pred(v, max) <= max,
        wrapping_pred(wrapping_succ(v, max), max) == v,
        wrapping_succ(wrapping_pred(v, max), max) == v,
{
}

/// A numeric cell of fixed width. Its value is a number from zero up to
/// `spec_max()`, and bytes travel into and out of it.
pub trait CellKind: Sized {
    /// The number that the cell holds.
    spec fn spec_value(&self) -> nat;

    /// The largest number that a cell of this kind holds.
    spec fn spec_max() -> nat;

    /// Every cell holds a number within its range, and every byte fits.
    proof fn lemma_in_range(&self)
        ensures
            self.spec_value() <= Self::spec_max(),
            Self::spec_max() >= 255,
    ;

    /// A cell that holds zero.
    fn zero() -> (r: Self)
        ensures
            r.spec_value() == 0,
    ;

    /// A cell that holds one.
    fn one() -> (r: Self)
        ensures
            r.spec_value() == 1,
    ;

    /// A cell that holds the largest value.
    fn max() -> (r: Self)
        ensures
            r.spec_value() == Self::spec_max(),
    ;

    /// A cell that holds the smallest value.
    fn min() -> (r: Self)
        ensures
            r.spec_value() == 0,
    ;

    /// Stores a byte in the cell.
    fn set_value(&mut self, value: u8)
        ensures
            final(self).spec_value() == value as nat,
    ;

    /// The low byte of the cell's value.
    fn get_value(&self) -> (r: u8)
        ensures
            r as nat == self.spec_value() % 256,
    ;

    /// Whether the cell holds zero.
    fn is_zero(&self) -> (r: bool)
        ensures
            r == (self.spec_value() == 0),
    ;

    /// Adds one to the cell; the largest value wraps to zero.
    fn increment(&mut self)
        ensures
            final(self).spec_value() == wrapping_succ(old(self).spec_value(), Self::spec_max()),
    ;

    /// Subtracts one from the cell; zero wraps to the largest value.
    fn decrement(&mut self)
        ensures
            final(self).spec_value() == wrapping_pred(old(self).spec_value(), Self::spec_max()),
    ;
}

impl CellKind for u8 {
    open spec fn spec_value(&self) -> nat {
        *self as nat
    }

    open spec fn spec_max() -> nat {
        255
    }

    proof fn lemma_in_range(&self) {
    }

    fn zero() -> (r: Self) {
        0_u8
    }

    fn one() -> (r: Self) {
        1_u8
    }

    fn max() -> (r: Self) {
        255_u8
    }

    fn min() -> (r: Self) {
        0_u8
    }

    fn set_value(&mut self, value: u8) {
        *self = value;
    }

    fn get_value(&self) -> (r: u8) {
        *self
    }

    fn is_zero(&self) -> (r: bool) {
        *self == 0_u8
    }

    fn increment(&mut self) {
        if *self < 255_u8 {
            *self = *self + 1;
        } else {
            *self = 0_u8;
        }
    }

    fn decrement(&mut self) {
        if *self > 0_u8 {
            *self = *self - 1;
        } else {
            *self = 255_u8;
        }
    }
}

impl CellKind for u16 {
    open spec fn spec_value(&self) -> nat {
        *self as nat
    }

    open spec fn spec_max() -> nat {
        65535
    }

    proof fn lemma_in_range(&self) {
    }

    fn zero() -> (r: Self) {
        0_u16
    }

    fn one() -> (r: Self) {
        1_u16
    }

    fn max() -> (r: Self) {
        65535_u16
    }

    fn min() -> (r: Self) {
        0_u16
    }

    fn set_value(&mut self, value: u8) {
        *self = value as u16;
    }

    fn get_value(&self) -> (r: u8) {
        (*self % 256) as u8
    }

    fn is_zero(&self) -> (r: bool) {
        *self == 0_u16
    }

    fn increment(&mut self) {
        if *self < 65535_u16 {
            *self = *self + 1;
        } else {
            *self = 0_u16;
        }
    }

    fn decrement(&mut self) {
        if *self > 0_u16 {
            *self = *self - 1;
        } else {
            *self = 65535_u16;
        }
    }
}

} // verus!
