//! The record of a ray meeting a surface.

use crate::material::{Lambertian, Material};
use crate::scalar::Scalar;
use crate::vec3::{Point3, Vec3};
use std::sync::Arc;
use vstd::prelude::*;

verus! {

/// Where and how a ray met a surface.
pub struct HitRecord {
    /// The point of the hit.
    pub p: Point3,
    /// The surface normal at the hit, turned against the incoming ray.
    pub normal: Vec3,
    /// The material of the surface, shared with the object that was hit.
    pub mat: Arc<Material>,
    /// The ray parameter at the hit.
    pub t: Scalar,
    /// Whether the ray came from outside the surface.
    pub front_face: bool,
}

impl Default for HitRecord {
    /// A blank record: everything zero, a black diffuse material, not front
    /// facing.
    fn default() -> (rec: HitRecord)
        ensures
            rec.p == Vec3::spec_zero(),
            rec.normal == Vec3::spec_zero(),
            *rec.mat == Material::Lambertian(Lambertian { albedo: Vec3::spec_zero() }),
            rec.t.bits == 0,
            !rec.front_face,
    {
        HitRecord {
            p: Vec3::default(),
            normal: Vec3::default(),
            mat: Arc::new(Material::Lambertian(Lambertian::default())),
            t: Scalar::zero(),
            front_face: false,
        }
    }
}

impl HitRecord {
    /// Whether a ray meets a surface from outside: `facing`, the dot product
    /// of the ray's direction and the outward normal, is negative.
    pub open spec fn spec_front_face(facing: Scalar) -> bool {
        facing.spec_lt(Scalar::spec_zero())
    }

    /// The normal turned against the ray: the outward normal where the ray
    /// comes from outside, its negation where it comes from inside.
    pub open spec fn spec_face_normal(facing: Scalar, outward_normal: Vec3) -> Vec3 {
        if Self::spec_front_face(facing) {
            outward_normal
        } else {
            outward_normal.spec_negated()
        }
    }

    /// The stored normal does not depend on which of the two normals of the
    /// surface is handed in: the inward normal, with its own dot product,
    /// gives the same as the outward one. (Where the ray grazes the surface
    /// and the dot product is zero, the negation of what was handed in is
    /// stored.)
    pub proof fn lemma_face_normal_ignores_orientation(facing: Scalar, normal: Vec3)
        requires
            !facing.spec_is_nan(),
            facing.rank() != 0,
        ensures
            Self::spec_face_normal(facing.spec_neg(), normal.spec_negated()) == Self::spec_face_normal(
                facing,
                normal,
            ),
            Self::spec_front_face(facing.spec_neg()) == !Self::spec_front_face(facing),
    {
        crate::scalar::lemma_neg_reverses_order(normal.e.0, normal.e.0);
        crate::scalar::lemma_neg_reverses_order(normal.e.1, normal.e.1);
        crate::scalar::lemma_neg_reverses_order(normal.e.2, normal.e.2);
    }

    /// Sets `front_face` and `normal` from the outward normal of the surface
    /// and `facing`, the dot product of the ray's direction and that normal.
    /// The normal that is stored points against the ray.
    pub fn set_face_normal(&mut self, facing: Scalar, outward_normal: &Vec3)
        ensures
            final(self).front_face == Self::spec_front_face(facing),
            final(self).normal == Self::spec_face_normal(facing, *outward_normal),
            final(self).p == old(self).p,
            final(self).mat == old(self).mat,
            final(self).t == old(self).t,
    {
        self.front_face = facing.lt(Scalar::zero());
        self.normal = if self.front_face {
            *outward_normal
        } else {
            core::ops::Neg::neg(*outward_normal)
        };
    }
}

} // verus!
