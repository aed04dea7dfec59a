//! Double-precision numbers held by their IEEE 754 binary64 encoding.
//!
//! The tracer's arithmetic is done on hardware doubles by the caller. What this
//! crate decides about such numbers (which of two is smaller, whether one lies
//! inside a range, which sign it carries) it decides on the encoding, where the
//! IEEE 754 order is an order of integers: the sign bit, then the magnitude.

use vstd::arithmetic::power2::{lemma_pow2_pos, lemma_pow2_strictly_increases, lemma_pow2_unfold, pow2};
use vstd::prelude::*;

verus! {

/// Encoding of negative zero: the sign bit alone.
pub const SIGN_BIT: u64 = 0x8000_0000_0000_0000;

/// Encoding of positive infinity. Every greater magnitude encodes a NaN.
pub const INFINITY_BITS: u64 = 0x7FF0_0000_0000_0000;

/// Encoding of negative infinity.
pub const NEG_INFINITY_BITS: u64 = 0xFFF0_0000_0000_0000;

/// Encoding of `1.0`.
pub const ONE_BITS: u64 = 0x3FF0_0000_0000_0000;

/// Encoding of `-1.0`.
pub const NEG_ONE_BITS: u64 = 0xBFF0_0000_0000_0000;

/// The weight of the leading bit of a significand, 2^52: the encoding's low
/// 52 bits hold the rest of the significand, the 11 bits above them the
/// exponent.
pub const HIDDEN_BIT: u64 = 0x0010_0000_0000_0000;

/// A binary64 number, held by its encoding.
#[derive(Clone, Copy, Debug)]
pub struct Scalar {
    pub bits: u64,
}

impl Scalar {
    /// Whether the sign bit is set.
    pub open spec fn negative(self) -> bool {
        self.bits >= SIGN_BIT
    }

    /// The encoding with the sign bit cleared.
    pub open spec fn magnitude(self) -> int {
        if self.bits >= SIGN_BIT {
            self.bits - SIGN_BIT
        } else {
            self.bits as int
        }
    }

    /// Whether the encoding is one of a NaN.
    pub open spec fn spec_is_nan(self) -> bool {
        self.magnitude() > INFINITY_BITS
    }

    /// The place of a number in the IEEE 754 order: for numbers that are not
    /// NaN, `a` is below `b` exactly when `a.rank() < b.rank()`. Both zeros
    /// have rank 0.
    pub open spec fn rank(self) -> int {
        if self.negative() {
            -self.magnitude()
        } else {
            self.magnitude()
        }
    }

    /// The significand of a finite number, an integer below 2^53: the
    /// number's absolute value is `significand * 2^exponent`.
    pub open spec fn significand(self) -> int {
        if self.magnitude() / (HIDDEN_BIT as int) == 0 {
            self.magnitude() % (HIDDEN_BIT as int)
        } else {
            HIDDEN_BIT + self.magnitude() % (HIDDEN_BIT as int)
        }
    }

    /// The exponent of a finite number, from -1074 to 971.
    pub open spec fn exponent(self) -> int {
        if self.magnitude() / (HIDDEN_BIT as int) == 0 {
            -1074
        } else {
            self.magnitude() / (HIDDEN_BIT as int) - 1075
        }
    }

    /// The absolute value of a number in units of 2^-1074, the least
    /// positive double: `significand * 2^(exponent + 1074)`, an integer. For
    /// an infinity this is 2^2098, above every finite number.
    pub open spec fn units(self) -> int {
        self.significand() * pow2((self.exponent() + 1074) as nat)
    }

    /// The value of a number in units of 2^-1074.
    pub open spec fn signed_units(self) -> int {
        if self.negative() {
            -self.units()
        } else {
            self.units()
        }
    }

    /// `self < other` as IEEE 754 defines it: false when either is a NaN.
    pub open spec fn spec_lt(self, other: Scalar) -> bool {
        !self.spec_is_nan() && !other.spec_is_nan() && self.rank() < other.rank()
    }

    /// `self <= other` as IEEE 754 defines it: false when either is a NaN.
    pub open spec fn spec_le(self, other: Scalar) -> bool {
        !self.spec_is_nan() && !other.spec_is_nan() && self.rank() <= other.rank()
    }

    /// `self > other` as IEEE 754 defines it.
    pub open spec fn spec_gt(self, other: Scalar) -> bool {
        other.spec_lt(self)
    }

    /// `self >= other` as IEEE 754 defines it.
    pub open spec fn spec_ge(self, other: Scalar) -> bool {
        other.spec_le(self)
    }

    /// `self == other` as IEEE 754 defines it: a NaN equals nothing, and the
    /// two zeros are equal.
    pub open spec fn spec_same(self, other: Scalar) -> bool {
        !self.spec_is_nan() && !other.spec_is_nan() && self.rank() == other.rank()
    }

    /// The number with its sign bit flipped.
    pub open spec fn spec_neg(self) -> Scalar {
        if self.bits >= SIGN_BIT {
            Scalar { bits: (self.bits - SIGN_BIT) as u64 }
        } else {
            Scalar { bits: (self.bits + SIGN_BIT) as u64 }
        }
    }

    /// The number with its sign bit cleared.
    pub open spec fn spec_abs(self) -> Scalar {
        Scalar { bits: self.magnitude() as u64 }
    }

    /// Positive zero.
    pub open spec fn spec_zero() -> Scalar {
        Scalar { bits: 0 }
    }

    /// The number `1.0`.
    pub open spec fn spec_one() -> Scalar {
        Scalar { bits: ONE_BITS }
    }

    /// The number with the encoding `bits`.
    pub fn from_bits(bits: u64) -> (s: Scalar)
        ensures
            s.bits == bits,
    {
        Scalar { bits }
    }

    /// The encoding of the number.
    pub fn to_bits(self) -> (bits: u64)
        ensures
            bits == self.bits,
    {
        self.bits
    }

    /// Positive zero.
    #[verifier::when_used_as_spec(spec_zero)]
    pub fn zero() -> (s: Scalar)
        ensures
            s == Scalar::spec_zero(),
    {
        Scalar { bits: 0 }
    }

    /// The number `1.0`.
    #[verifier::when_used_as_spec(spec_one)]
    pub fn one() -> (s: Scalar)
        ensures
            s == Scalar::spec_one(),
    {
        Scalar { bits: ONE_BITS }
    }

    /// Positive infinity.
    pub fn infinity() -> (s: Scalar)
        ensures
            s.bits == INFINITY_BITS,
    {
        Scalar { bits: INFINITY_BITS }
    }

    /// Negative infinity.
    pub fn neg_infinity() -> (s: Scalar)
        ensures
            s.bits == NEG_INFINITY_BITS,
    {
        Scalar { bits: NEG_INFINITY_BITS }
    }

    /// Whether the number is a NaN.
    #[verifier::when_used_as_spec(spec_is_nan)]
    pub fn is_nan(self) -> (b: bool)
        ensures
            b == self.spec_is_nan(),
    {
        if self.bits >= SIGN_BIT {
            self.bits - SIGN_BIT > INFINITY_BITS
        } else {
            self.bits > INFINITY_BITS
        }
    }

    /// Whether the sign bit is set, as it is for negative numbers, for
    /// negative zero and for half of the NaNs.
    pub fn is_sign_negative(self) -> (b: bool)
        ensures
            b == self.negative(),
    {
        self.bits >= SIGN_BIT
    }

    /// The number with the opposite sign. Exact for every encoding: only the
    /// sign bit changes.
    #[verifier::when_used_as_spec(spec_neg)]
    pub fn neg(self) -> (r: Scalar)
        ensures
            r == self.spec_neg(),
            r.magnitude() == self.magnitude(),
            r.negative() == !self.negative(),
            r.spec_is_nan() == self.spec_is_nan(),
            r.rank() == -self.rank(),
    {
        if self.bits >= SIGN_BIT {
            Scalar { bits: self.bits - SIGN_BIT }
        } else {
            Scalar { bits: self.bits + SIGN_BIT }
        }
    }

    /// The absolute value: the number with its sign bit cleared.
    #[verifier::when_used_as_spec(spec_abs)]
    pub fn abs(self) -> (r: Scalar)
        ensures
            r == self.spec_abs(),
            !r.negative(),
            r.magnitude() == self.magnitude(),
            r.spec_is_nan() == self.spec_is_nan(),
    {
        if self.bits >= SIGN_BIT {
            Scalar { bits: self.bits - SIGN_BIT }
        } else {
            self
        }
    }

    /// `self < other`.
    #[verifier::when_used_as_spec(spec_lt)]
    pub fn lt(self, other: Scalar) -> (b: bool)
        ensures
            b == self.spec_lt(other),
    {
        if self.is_nan() || other.is_nan() {
            return false;
        }
        if self.bits >= SIGN_BIT {
            if other.bits >= SIGN_BIT {
                self.bits > other.bits
            } else {
                self.bits > SIGN_BIT || other.bits > 0
            }
        } else {
            if other.bits >= SIGN_BIT {
                false
            } else {
                self.bits < other.bits
            }
        }
    }

    /// `self <= other`.
    #[verifier::when_used_as_spec(spec_le)]
    pub fn le(self, other: Scalar) -> (b: bool)
        ensures
            b == self.spec_le(other),
    {
        if self.is_nan() || other.is_nan() {
            return false;
        }
        if self.bits >= SIGN_BIT {
            if other.bits >= SIGN_BIT {
                self.bits >= other.bits
            } else {
                true
            }
        } else {
            if other.bits >= SIGN_BIT {
                self.bits == 0 && other.bits == SIGN_BIT
            } else {
                self.bits <= other.bits
            }
        }
    }

    /// `self > other`.
    #[verifier::when_used_as_spec(spec_gt)]
    pub fn gt(self, other: Scalar) -> (b: bool)
        ensures
            b == self.spec_gt(other),
    {
        other.lt(self)
    }

    /// `self >= other`.
    #[verifier::when_used_as_spec(spec_ge)]
    pub fn ge(self, other: Scalar) -> (b: bool)
        ensures
            b == self.spec_ge(other),
    {
        other.le(self)
    }

    /// `self == other` as numbers.
    #[verifier::when_used_as_spec(spec_same)]
    pub fn same(self, other: Scalar) -> (b: bool)
        ensures
            b == self.spec_same(other),
    {
        self.le(other) && other.le(self)
    }
}

/// Of two encodings, the one with the greater magnitude stands for the number
/// of greater absolute value.
proof fn lemma_units_increase(a: Scalar, b: Scalar)
    requires
        a.magnitude() < b.magnitude(),
    ensures
        a.units() < b.units(),
{
    let fa = a.magnitude() / (HIDDEN_BIT as int);
    let ra = a.magnitude() % (HIDDEN_BIT as int);
    let fb = b.magnitude() / (HIDDEN_BIT as int);
    let rb = b.magnitude() % (HIDDEN_BIT as int);
    assert(fa <= fb);
    let ea = (a.exponent() + 1074) as nat;
    let eb = (b.exponent() + 1074) as nat;
    lemma_pow2_pos(ea);
    lemma_pow2_pos(eb);
    lemma_pow2_pos(0);
    assert(pow2(0) == 1) by {
        vstd::arithmetic::power2::lemma2_to64();
    }
    if fa == fb {
        assert(ra < rb);
        assert(a.significand() < b.significand());
        assert(a.significand() * pow2(ea) < b.significand() * pow2(ea)) by (nonlinear_arith)
            requires
                a.significand() < b.significand(),
                pow2(ea) > 0,
        ;
    } else {
        // a lies below the least number with b's exponent
        assert(HIDDEN_BIT * pow2(eb) <= b.significand() * pow2(eb)) by (nonlinear_arith)
            requires
                HIDDEN_BIT <= b.significand(),
                pow2(eb) > 0,
        ;
        if fa == 0 {
            assert(a.units() == ra * 1);
            assert(HIDDEN_BIT * 1 <= HIDDEN_BIT * pow2(eb)) by (nonlinear_arith)
                requires
                    pow2(eb) >= 1,
            ;
        } else {
            assert(eb >= ea + 1);
            lemma_pow2_unfold(ea + 1);
            if eb > ea + 1 {
                lemma_pow2_strictly_increases(ea + 1, eb);
            }
            assert(a.significand() * pow2(ea) < 2 * HIDDEN_BIT * pow2(ea)) by (nonlinear_arith)
                requires
                    a.significand() < 2 * HIDDEN_BIT,
                    pow2(ea) > 0,
            ;
            assert(2 * HIDDEN_BIT * pow2(ea) == HIDDEN_BIT * pow2(ea + 1)) by (nonlinear_arith)
                requires
                    pow2(ea + 1) == 2 * pow2(ea),
            ;
            assert(HIDDEN_BIT * pow2(ea + 1) <= HIDDEN_BIT * pow2(eb)) by (nonlinear_arith)
                requires
                    pow2(ea + 1) <= pow2(eb),
            ;
        }
    }
}

/// The order of the ranks is the order of the numbers: of two encodings that
/// are not NaN, one has the smaller rank exactly when it stands for the
/// smaller number, and the same rank exactly when it stands for the same
/// number.
pub proof fn lemma_rank_orders_values(a: Scalar, b: Scalar)
    ensures
        a.rank() < b.rank() <==> a.signed_units() < b.signed_units(),
        a.rank() == b.rank() <==> a.signed_units() == b.signed_units(),
        a.units() >= 0,
        a.units() == 0 <==> a.magnitude() == 0,
{
    let zero = Scalar { bits: 0 };
    assert(zero.units() == 0) by {
        assert(zero.significand() == 0);
        assert(0 * pow2((zero.exponent() + 1074) as nat) == 0) by (nonlinear_arith);
    }
    if a.magnitude() > 0 {
        lemma_units_increase(zero, a);
    } else {
        assert(a.significand() == 0);
        assert(0 * pow2((a.exponent() + 1074) as nat) == 0) by (nonlinear_arith);
    }
    if b.magnitude() > 0 {
        lemma_units_increase(zero, b);
    } else {
        assert(b.significand() == 0);
        assert(0 * pow2((b.exponent() + 1074) as nat) == 0) by (nonlinear_arith);
    }
    if a.magnitude() < b.magnitude() {
        lemma_units_increase(a, b);
    } else if b.magnitude() < a.magnitude() {
        lemma_units_increase(b, a);
    } else {
        assert(a.significand() == b.significand());
        assert(a.exponent() == b.exponent());
    }
}

/// Among numbers that are not NaN, exactly one of `a < b`, `a == b` and
/// `a > b` holds; with a NaN on either side none of them does.
pub proof fn lemma_order_trichotomy(a: Scalar, b: Scalar)
    ensures
        !a.spec_is_nan() && !b.spec_is_nan() ==> (a.spec_lt(b) || a.spec_same(b) || a.spec_gt(b)),
        !(a.spec_lt(b) && a.spec_same(b)),
        !(a.spec_lt(b) && a.spec_gt(b)),
        !(a.spec_same(b) && a.spec_gt(b)),
        a.spec_is_nan() || b.spec_is_nan() ==> !a.spec_lt(b) && !a.spec_same(b) && !a.spec_gt(b),
        a.spec_le(b) <==> a.spec_lt(b) || a.spec_same(b),
{
}

/// `<` is transitive, and so is `<=`; the two compose.
pub proof fn lemma_order_transitive(a: Scalar, b: Scalar, c: Scalar)
    ensures
        a.spec_lt(b) && b.spec_lt(c) ==> a.spec_lt(c),
        a.spec_le(b) && b.spec_le(c) ==> a.spec_le(c),
        a.spec_lt(b) && b.spec_le(c) ==> a.spec_lt(c),
        a.spec_le(b) && b.spec_lt(c) ==> a.spec_lt(c),
{
}

/// Flipping both signs reverses the order.
pub proof fn lemma_neg_reverses_order(a: Scalar, b: Scalar)
    ensures
        a.spec_neg().spec_lt(b.spec_neg()) == b.spec_lt(a),
        a.spec_neg().spec_le(b.spec_neg()) == b.spec_le(a),
        a.spec_neg().spec_neg() == a,
{
}

} // verus!
