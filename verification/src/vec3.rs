//! Three-component vectors: positions, directions and colours.

use crate::scalar::Scalar;
use vstd::prelude::*;
use vstd::std_specs::ops::NegSpecImpl;

verus! {

/// Encoding of `1e-8`, the bound under which a component counts as zero.
pub const NEAR_ZERO_BITS: u64 = 0x3E45_798E_E230_8C3A;

/// A vector of three doubles `(x, y, z)`.
#[derive(Clone, Copy, Debug)]
pub struct Vec3 {
    pub e: (Scalar, Scalar, Scalar),
}

/// A position in space.
pub type Point3 = Vec3;

impl Default for Vec3 {
    /// The vector `(0, 0, 0)`.
    fn default() -> (v: Vec3)
        ensures
            v == Vec3::spec_zero(),
    {
        Vec3 { e: (Scalar::zero(), Scalar::zero(), Scalar::zero()) }
    }
}

impl core::ops::Neg for Vec3 {
    type Output = Vec3;

    /// The vector with every component's sign flipped.
    fn neg(self) -> (r: Vec3) {
        Vec3 { e: (self.e.0.neg(), self.e.1.neg(), self.e.2.neg()) }
    }
}

impl NegSpecImpl for Vec3 {
    open spec fn obeys_neg_spec() -> bool {
        true
    }

    open spec fn neg_req(self) -> bool {
        true
    }

    open spec fn neg_spec(self) -> Vec3 {
        self.spec_negated()
    }
}

impl Vec3 {
    /// The vector `(0, 0, 0)`, all three zeros positive.
    pub open spec fn spec_zero() -> Vec3 {
        Vec3 { e: (Scalar::spec_zero(), Scalar::spec_zero(), Scalar::spec_zero()) }
    }

    /// The vector with every component's sign flipped.
    pub open spec fn spec_negated(self) -> Vec3 {
        Vec3 { e: (self.e.0.spec_neg(), self.e.1.spec_neg(), self.e.2.spec_neg()) }
    }

    /// Whether every component is smaller than `1e-8` in absolute value.
    pub open spec fn spec_near_zero(&self) -> bool {
        let s = Scalar { bits: NEAR_ZERO_BITS };
        self.e.0.spec_abs().spec_lt(s) && self.e.1.spec_abs().spec_lt(s) && self.e.2.spec_abs().spec_lt(
            s,
        )
    }

    /// The vector `(x, y, z)`.
    pub fn new(x: Scalar, y: Scalar, z: Scalar) -> (v: Vec3)
        ensures
            v.e == (x, y, z),
    {
        Vec3 { e: (x, y, z) }
    }

    /// The first component.
    pub fn x(&self) -> (r: Scalar)
        ensures
            r == self.e.0,
    {
        self.e.0
    }

    /// The second component.
    pub fn y(&self) -> (r: Scalar)
        ensures
            r == self.e.1,
    {
        self.e.1
    }

    /// The third component.
    pub fn z(&self) -> (r: Scalar)
        ensures
            r == self.e.2,
    {
        self.e.2
    }

    /// Whether the vector is too short to serve as a direction: every
    /// component is smaller than `1e-8` in absolute value. A NaN component
    /// makes the answer false.
    #[verifier::when_used_as_spec(spec_near_zero)]
    pub fn near_zero(&self) -> (b: bool)
        ensures
            b == self.spec_near_zero(),
    {
        let s = Scalar::from_bits(NEAR_ZERO_BITS);
        self.e.0.abs().lt(s) && self.e.1.abs().lt(s) && self.e.2.abs().lt(s)
    }

    /// Whether a point sampled from the cube `[-1, 1]^3` lies inside the unit
    /// ball, given its squared length: the test by which rejection sampling
    /// keeps or redraws a point.
    pub fn inside_unit_ball(length_squared: Scalar) -> (b: bool)
        ensures
            b == length_squared.spec_lt(Scalar::spec_one()),
    {
        length_squared.lt(Scalar::one())
    }

    /// Turns a unit vector into the hemisphere around a normal, given
    /// `facing`, the dot product of the two: the vector itself where the
    /// product is positive, its negation otherwise.
    pub fn on_hemisphere(on_unit_sphere: &Vec3, facing: Scalar) -> (r: Vec3)
        ensures
            r == if facing.spec_gt(Scalar::spec_zero()) {
                *on_unit_sphere
            } else {
                on_unit_sphere.spec_negated()
            },
    {
        if facing.gt(Scalar::zero()) {
            *on_unit_sphere
        } else {
            core::ops::Neg::neg(*on_unit_sphere)
        }
    }
}

} // verus!
