//! The `Normed` trait and the `Unit<T>` invariant wrapper.
//!
//! `Normed` is implemented by the vector and quaternion types: it exposes the
//! squared norm and uniform scaling.  `Unit<T>` carries the unit-length
//! intent: it can only be built from a value the caller proves is already
//! normalised, or through the normalising constructor, and it offers no way
//! to write arbitrary components afterwards - mutation goes through the two
//! re-normalisation methods or full replacement.

use crate::maths::fixed::Fixed;
use crate::maths::fixed::ONE_RAW;
use crate::maths::fixed::fmul;
use crate::maths::fixed::fsqrt;
use crate::maths::fixed::fsub;
use crate::maths::fixed::iabs;
use vstd::prelude::*;

verus! {

/// How far a squared norm may drift from one, in raw units, while a value
/// still counts as normalised.
pub const UNIT_TOLERANCE: i32 = 256;

pub trait Normed: Sized + Copy {
    /// The raw value this type computes for its squared norm.
    spec fn norm_sq_spec(self) -> int;

    /// The value with every component multiplied by the raw scalar `s`.
    spec fn scaled_spec(self, s: int) -> Self;

    /// The value with every component divided by the raw scalar `s`.
    spec fn div_scaled_spec(self, s: int) -> Self;

    /// A squared norm is never negative.
    proof fn lemma_norm_sq_nonneg(self)
        ensures
            self.norm_sq_spec() >= 0,
    ;

    fn norm_squared(&self) -> (r: Fixed)
        ensures
            r@ == self.norm_sq_spec(),
    ;

    /// The norm: the fixed-point square root of the squared norm.
    fn norm(&self) -> (r: Fixed)
        ensures
            r@ == fsqrt(self.norm_sq_spec()),
    ;

    fn mul_scalar(&self, s: Fixed) -> (r: Self)
        ensures
            r == self.scaled_spec(s@),
    ;

    fn div_scalar(&self, s: Fixed) -> (r: Self)
        ensures
            r == self.div_scaled_spec(s@),
    ;
}

/// A `Normed` value whose squared norm is meant to stay at one.
#[derive(Clone, Copy, Debug)]
pub struct Unit<T: Normed> {
    value: T,
}

impl<T: Normed> View for Unit<T> {
    type V = T;

    closed spec fn view(&self) -> T {
        self.value
    }
}

impl<T: Normed> Unit<T> {
    /// The wrapped value's squared norm is within tolerance of one.
    pub open spec fn is_normalised(value: T) -> bool {
        iabs(value.norm_sq_spec() - ONE_RAW as int) <= UNIT_TOLERANCE as int
    }

    /// Wraps a value that is already normalised; the caller proves it.
    pub fn from_normalised(value: T) -> (r: Unit<T>)
        requires
            Self::is_normalised(value),
        ensures
            r@ == value,
    {
        Unit { value }
    }

    /// Wraps a value after dividing it by its own norm.  A zero norm
    /// saturates the components instead of failing, as dividing by a zero
    /// norm does for floating-point vectors.
    pub fn from(value: T) -> (r: Unit<T>)
        ensures
            r@ == value.div_scaled_spec(fsqrt(value.norm_sq_spec())),
    {
        let mut unit = Unit { value };
        unit.normalise();
        unit
    }

    /// Divides the value by its current norm again.  This is useful when
    /// repeated computations have let the norm drift.
    pub fn normalise(&mut self)
        ensures
            final(self)@ == old(self)@.div_scaled_spec(fsqrt(old(self)@.norm_sq_spec())),
    {
        let n = self.value.norm();
        self.value = self.value.div_scalar(n);
    }

    /// Approximate re-normalisation without a square root: one Newton step
    /// for the inverse square root, `value * (0.5 * (3 - norm_squared))`.
    /// Accurate only while the value is already close to unit length.
    pub fn nomalise_fast(&mut self)
        ensures
            final(self)@ == old(self)@.scaled_spec(
                fmul((ONE_RAW as int) / 2, fsub(3 * (ONE_RAW as int), old(self)@.norm_sq_spec())),
            ),
    {
        let ns = self.value.norm_squared();
        let factor = Fixed::half().mul(Fixed::three().sub(ns));
        self.value = self.value.mul_scalar(factor);
    }

    /// Read-only access to the wrapped value.
    pub fn inner(&self) -> (r: T)
        ensures
            r == self@,
    {
        self.value
    }
}

} // verus!
