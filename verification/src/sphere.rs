//! Spheres, and what a ray's quadratic says about hitting one.

use crate::hittable::HitRecord;
use crate::interval::Interval;
use crate::material::Material;
use crate::scalar::Scalar;
use crate::vec3::{Point3, Vec3};
use std::sync::Arc;
use vstd::prelude::*;

verus! {

/// The solution of `|ray.at(t) - center|^2 = radius^2` for one ray and one
/// sphere: the discriminant of the quadratic and its two roots, the smaller
/// one first.
#[derive(Clone, Copy, Debug)]
pub struct Crossing {
    discriminant: Scalar,
    near: Scalar,
    far: Scalar,
}

impl Crossing {
    /// The larger root never lies below the smaller one.
    #[verifier::type_invariant]
    pub open spec fn roots_in_order(self) -> bool {
        !self.spec_far().spec_lt(self.spec_near())
    }

    /// The discriminant `half_b^2 - a * c` of the quadratic.
    pub closed spec fn spec_discriminant(&self) -> Scalar {
        self.discriminant
    }

    /// The smaller root, `(-half_b - sqrt(discriminant)) / a`.
    pub closed spec fn spec_near(&self) -> Scalar {
        self.near
    }

    /// The larger root, `(-half_b + sqrt(discriminant)) / a`.
    pub closed spec fn spec_far(&self) -> Scalar {
        self.far
    }

    /// The ray parameter at which a ray hits the sphere within `ray_t`: no
    /// hit where the discriminant is negative; else the smaller root where it
    /// lies strictly inside `ray_t`; else the larger root where that one
    /// does; else no hit.
    pub open spec fn spec_root_in(&self, ray_t: Interval) -> Option<Scalar> {
        if self.spec_discriminant().spec_lt(Scalar::spec_zero()) {
            None
        } else if ray_t.spec_surrounds(self.spec_near()) {
            Some(self.spec_near())
        } else if ray_t.spec_surrounds(self.spec_far()) {
            Some(self.spec_far())
        } else {
            None
        }
    }

    /// The solution with the given discriminant and roots. `near` is the
    /// smaller root; handed in the other way round, the two are exchanged.
    pub fn new(discriminant: Scalar, near: Scalar, far: Scalar) -> (c: Crossing)
        ensures
            c.spec_discriminant() == discriminant,
            c.spec_near() == if far.spec_lt(near) {
                far
            } else {
                near
            },
            c.spec_far() == if far.spec_lt(near) {
                near
            } else {
                far
            },
    {
        if far.lt(near) {
            Crossing { discriminant, near: far, far: near }
        } else {
            Crossing { discriminant, near, far }
        }
    }

    /// The discriminant of the quadratic.
    #[verifier::when_used_as_spec(spec_discriminant)]
    pub fn discriminant(&self) -> (d: Scalar)
        ensures
            d == self.spec_discriminant(),
    {
        self.discriminant
    }

    /// The smaller root.
    #[verifier::when_used_as_spec(spec_near)]
    pub fn near(&self) -> (t: Scalar)
        ensures
            t == self.spec_near(),
    {
        self.near
    }

    /// The larger root.
    #[verifier::when_used_as_spec(spec_far)]
    pub fn far(&self) -> (t: Scalar)
        ensures
            t == self.spec_far(),
    {
        self.far
    }

    /// The ray parameter at which the ray hits the sphere within `ray_t`, if
    /// it does.
    #[verifier::when_used_as_spec(spec_root_in)]
    pub fn root_in(&self, ray_t: Interval) -> (root: Option<Scalar>)
        ensures
            root == self.spec_root_in(ray_t),
            root matches Some(t) ==> ray_t.spec_surrounds(t),
    {
        if self.discriminant.lt(Scalar::zero()) {
            return None;
        }
        let mut root = self.near;
        if !ray_t.surrounds(root) {
            root = self.far;
            if !ray_t.surrounds(root) {
                return None;
            }
        }
        Some(root)
    }
}

/// A hit within a narrowed range is the hit within the whole range, if that
/// one lies below the new upper bound. `limit` is the upper bound of `ray_t`
/// or a number strictly inside it.
pub proof fn lemma_narrowed_root(c: Crossing, ray_t: Interval, limit: Scalar)
    requires
        c.roots_in_order(),
        limit == ray_t.max || ray_t.spec_surrounds(limit),
    ensures
        c.spec_root_in(Interval { min: ray_t.min, max: limit }) == match c.spec_root_in(ray_t) {
            Some(t) => if t.spec_lt(limit) {
                Some(t)
            } else {
                None
            },
            None => None,
        },
{
}

/// A sphere.
pub struct Sphere {
    center: Point3,
    radius: Scalar,
    mat: Arc<Material>,
}

impl Sphere {
    /// The centre of the sphere.
    pub closed spec fn spec_center(&self) -> Point3 {
        self.center
    }

    /// The radius of the sphere.
    pub closed spec fn spec_radius(&self) -> Scalar {
        self.radius
    }

    /// The material of the sphere's surface.
    pub closed spec fn spec_material(&self) -> Material {
        *self.mat
    }

    /// The sphere around `center` with the given radius and material.
    pub fn new(center: Point3, radius: Scalar, m: Material) -> (s: Sphere)
        ensures
            s.spec_center() == center,
            s.spec_radius() == radius,
            s.spec_material() == m,
    {
        Sphere { center, radius, mat: Arc::new(m) }
    }

    /// The centre of the sphere.
    #[verifier::when_used_as_spec(spec_center)]
    pub fn center(&self) -> (c: Point3)
        ensures
            c == self.spec_center(),
    {
        self.center
    }

    /// The radius of the sphere.
    #[verifier::when_used_as_spec(spec_radius)]
    pub fn radius(&self) -> (r: Scalar)
        ensures
            r == self.spec_radius(),
    {
        self.radius
    }

    /// The material of the sphere's surface, shared with the sphere.
    pub fn material(&self) -> (m: Arc<Material>)
        ensures
            *m == self.spec_material(),
    {
        self.mat.clone()
    }

    /// Tests whether a ray hits the sphere at a parameter strictly inside
    /// `ray_t`, the ray being given by `crossing`, the solution of its
    /// quadratic. The answer is that parameter.
    pub fn hit(&self, crossing: &Crossing, ray_t: Interval) -> (root: Option<Scalar>)
        ensures
            root == crossing.spec_root_in(ray_t),
            root matches Some(t) ==> ray_t.spec_surrounds(t),
    {
        crossing.root_in(ray_t)
    }

    /// The record of a hit on this sphere at ray parameter `t`. `p` is the
    /// point `ray.at(t)`, `outward_normal` is `(p - center) / radius`, and
    /// `facing` is the dot product of the ray's direction and
    /// `outward_normal`. The record shares the sphere's material, and its
    /// normal is turned against the ray.
    pub fn hit_record(&self, t: Scalar, p: Point3, outward_normal: &Vec3, facing: Scalar) -> (rec:
        HitRecord)
        ensures
            rec.t == t,
            rec.p == p,
            *rec.mat == self.spec_material(),
            rec.front_face == HitRecord::spec_front_face(facing),
            rec.normal == HitRecord::spec_face_normal(facing, *outward_normal),
    {
        let mut rec = HitRecord {
            p,
            normal: *outward_normal,
            mat: self.mat.clone(),
            t,
            front_face: false,
        };
        rec.set_face_normal(facing, outward_normal);
        rec
    }
}

} // verus!
