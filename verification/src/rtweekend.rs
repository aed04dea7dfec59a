//! Small numeric helpers shared by the other modules.

use crate::scalar::Scalar;
use vstd::prelude::*;

verus! {

/// Encoding of the double nearest to pi.
pub const PI_BITS: u64 = 0x4009_21FB_5444_2D18;

/// The smaller of two numbers where they compare: `lhs` if `lhs < rhs`, else
/// `rhs`. With a NaN on either side the answer is `rhs`.
pub open spec fn spec_partial_min(lhs: Scalar, rhs: Scalar) -> Scalar {
    if lhs.spec_lt(rhs) {
        lhs
    } else {
        rhs
    }
}

/// The double nearest to pi.
pub fn pi() -> (s: Scalar)
    ensures
        s.bits == PI_BITS,
{
    Scalar::from_bits(PI_BITS)
}

/// `lhs` if `lhs < rhs`, else `rhs`.
#[verifier::when_used_as_spec(spec_partial_min)]
pub fn partial_min(lhs: Scalar, rhs: Scalar) -> (r: Scalar)
    ensures
        r == spec_partial_min(lhs, rhs),
        !lhs.spec_is_nan() && !rhs.spec_is_nan() ==> r.spec_le(lhs) && r.spec_le(rhs),
{
    if lhs.lt(rhs) {
        return lhs;
    }
    rhs
}

} // verus!
