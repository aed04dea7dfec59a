//! Ranges of doubles: the distances at which a hit counts, the values a
//! colour channel may take.

use crate::scalar::{Scalar, INFINITY_BITS, NEG_INFINITY_BITS};
use vstd::prelude::*;

verus! {

/// The range from `min` to `max`. One whose `min` exceeds its `max` is empty.
#[derive(Clone, Copy, Debug)]
pub struct Interval {
    pub min: Scalar,
    pub max: Scalar,
}

impl Interval {
    /// Whether `x` lies in the range, bounds included.
    pub open spec fn spec_contains(&self, x: Scalar) -> bool {
        self.min.spec_le(x) && x.spec_le(self.max)
    }

    /// Whether `x` lies strictly between the bounds.
    pub open spec fn spec_surrounds(&self, x: Scalar) -> bool {
        self.min.spec_lt(x) && x.spec_lt(self.max)
    }

    /// `x` saturated to the range.
    pub open spec fn spec_clamp(&self, x: Scalar) -> Scalar {
        if x.spec_lt(self.min) {
            self.min
        } else if x.spec_gt(self.max) {
            self.max
        } else {
            x
        }
    }

    /// The range of all numbers, from negative to positive infinity.
    pub fn new() -> (i: Interval)
        ensures
            i.min.bits == NEG_INFINITY_BITS,
            i.max.bits == INFINITY_BITS,
    {
        Interval { min: Scalar::neg_infinity(), max: Scalar::infinity() }
    }

    /// The range from `min` to `max`.
    pub fn new_val(min: Scalar, max: Scalar) -> (i: Interval)
        ensures
            i.min == min,
            i.max == max,
    {
        Interval { min, max }
    }

    /// The range that holds no number, from positive to negative infinity.
    pub fn empty() -> (i: Interval)
        ensures
            i.min.bits == INFINITY_BITS,
            i.max.bits == NEG_INFINITY_BITS,
            forall|x: Scalar| !i.spec_contains(x),
    {
        Interval { min: Scalar::infinity(), max: Scalar::neg_infinity() }
    }

    /// The range of all numbers; the same as `new`.
    pub fn universe() -> (i: Interval)
        ensures
            i.min.bits == NEG_INFINITY_BITS,
            i.max.bits == INFINITY_BITS,
            forall|x: Scalar| !x.spec_is_nan() ==> i.spec_contains(x),
    {
        Interval { min: Scalar::neg_infinity(), max: Scalar::infinity() }
    }

    /// Whether `min <= x <= max`.
    #[verifier::when_used_as_spec(spec_contains)]
    pub fn contains(&self, x: Scalar) -> (b: bool)
        ensures
            b == self.spec_contains(x),
    {
        self.min.le(x) && x.le(self.max)
    }

    /// Whether `min < x < max`.
    #[verifier::when_used_as_spec(spec_surrounds)]
    pub fn surrounds(&self, x: Scalar) -> (b: bool)
        ensures
            b == self.spec_surrounds(x),
    {
        self.min.lt(x) && x.lt(self.max)
    }

    /// `min` where `x` is below it, `max` where `x` is above it, else `x`
    /// itself; a NaN passes through.
    #[verifier::when_used_as_spec(spec_clamp)]
    pub fn clamp(&self, x: Scalar) -> (r: Scalar)
        ensures
            r == self.spec_clamp(x),
            self.min.spec_le(self.max) && !x.spec_is_nan() ==> self.spec_contains(r),
    {
        if x.lt(self.min) {
            return self.min;
        }
        if x.gt(self.max) {
            return self.max;
        }
        x
    }
}

} // verus!
