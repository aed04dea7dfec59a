//! Materials: what a surface does to the light that reaches it.
//!
//! A material decides whether a ray that hits it scatters, in which direction
//! it leaves, and by which colour it is attenuated. The candidate directions
//! (mirror images, refractions, random perturbations) are arithmetic on
//! doubles and come from the caller.

use crate::color::{spec_white, white, Color};
use crate::hittable::HitRecord;
use crate::ray::Ray;
use crate::rtweekend::partial_min;
use crate::scalar::Scalar;
use crate::vec3::Vec3;
use vstd::prelude::*;

verus! {

/// A diffuse surface: it scatters every ray, tinted by its albedo.
#[derive(Clone, Copy, Debug)]
pub struct Lambertian {
    pub albedo: Color,
}

/// A metallic surface: it mirrors rays, blurred by `fuzz`, a roughness
/// between 0 and 1.
#[derive(Clone, Copy, Debug)]
pub struct Metal {
    albedo: Color,
    fuzz: Scalar,
}

/// A transparent surface such as glass, with its index of refraction.
#[derive(Clone, Copy, Debug)]
pub struct Dielectric {
    pub ir: Scalar,
}

/// The materials a surface can be made of.
#[derive(Clone, Copy, Debug)]
pub enum Material {
    Lambertian(Lambertian),
    Metal(Metal),
    Dielectric(Dielectric),
}

impl Default for Lambertian {
    /// A diffuse surface that reflects no light.
    fn default() -> (m: Lambertian)
        ensures
            m.albedo == Vec3::spec_zero(),
    {
        Lambertian { albedo: Vec3::default() }
    }
}

impl Lambertian {
    /// A diffuse surface with albedo `a`.
    pub fn new(a: &Color) -> (m: Lambertian)
        ensures
            m.albedo == *a,
    {
        Lambertian { albedo: *a }
    }

    /// Scatters a ray off the surface at `rec`. `candidate` is the surface
    /// normal plus a random unit vector. The ray leaves the hit point along
    /// `candidate`, or along the normal where the two cancelled and
    /// `candidate` is near zero. A diffuse surface never absorbs: the answer
    /// is always true, and the attenuation is the albedo.
    pub fn scatter(
        &self,
        rec: &HitRecord,
        candidate: &Vec3,
        attenuation: &mut Color,
        scattered: &mut Ray,
    ) -> (b: bool)
        ensures
            b,
            *final(attenuation) == self.albedo,
            final(scattered).orig == rec.p,
            final(scattered).dir == if candidate.spec_near_zero() {
                rec.normal
            } else {
                *candidate
            },
    {
        let mut scatter_direction = *candidate;
        if scatter_direction.near_zero() {
            scatter_direction = rec.normal;
        }
        *scattered = Ray::new(&rec.p, &scatter_direction);
        *attenuation = self.albedo;
        true
    }
}

/// The roughness a metal gets from the requested value `f`: `f` itself where
/// it lies in `[0, 1)`, 0 where it is negative, and 1 where it is 1 or more
/// or not a number.
pub open spec fn spec_fuzz_from(f: Scalar) -> Scalar {
    if f.spec_lt(Scalar::spec_one()) {
        if f.spec_lt(Scalar::spec_zero()) {
            Scalar::spec_zero()
        } else {
            f
        }
    } else {
        Scalar::spec_one()
    }
}

impl Default for Metal {
    /// A perfectly smooth metal that reflects no light.
    fn default() -> (m: Metal)
        ensures
            m.spec_albedo() == Vec3::spec_zero(),
            m.spec_fuzz().bits == 0,
    {
        Metal { albedo: Vec3::default(), fuzz: Scalar::zero() }
    }
}

impl Metal {
    #[verifier::type_invariant]
    spec fn fuzz_in_range(self) -> bool {
        Scalar::spec_zero().spec_le(self.fuzz) && self.fuzz.spec_le(Scalar::spec_one())
    }

    /// The colour by which the metal tints what it reflects.
    pub closed spec fn spec_albedo(&self) -> Color {
        self.albedo
    }

    /// The roughness of the metal.
    pub closed spec fn spec_fuzz(&self) -> Scalar {
        self.fuzz
    }

    /// A metal with albedo `a` and roughness `f`, the roughness brought into
    /// `[0, 1]`.
    pub fn new(a: &Color, f: Scalar) -> (m: Metal)
        ensures
            m.spec_albedo() == *a,
            m.spec_fuzz() == spec_fuzz_from(f),
    {
        let fuzz = if f.lt(Scalar::one()) {
            if f.lt(Scalar::zero()) {
                Scalar::zero()
            } else {
                f
            }
        } else {
            Scalar::one()
        };
        Metal { albedo: *a, fuzz }
    }

    /// The colour by which the metal tints what it reflects.
    #[verifier::when_used_as_spec(spec_albedo)]
    pub fn albedo(&self) -> (a: Color)
        ensures
            a == self.spec_albedo(),
    {
        self.albedo
    }

    /// The roughness of the metal, a number from 0 to 1.
    #[verifier::when_used_as_spec(spec_fuzz)]
    pub fn fuzz(&self) -> (f: Scalar)
        ensures
            f == self.spec_fuzz(),
            Scalar::spec_zero().spec_le(f),
            f.spec_le(Scalar::spec_one()),
    {
        proof {
            use_type_invariant(self);
        }
        self.fuzz
    }

    /// Scatters a ray off the surface at `rec`. `candidate` is the mirror
    /// image of the incoming unit direction plus the roughness times a random
    /// unit vector, and `facing` is the dot product of `candidate` and the
    /// surface normal. The ray leaves the hit point along `candidate` with the
    /// albedo as attenuation; the answer says whether it leaves the surface
    /// (`facing > 0`) or is absorbed.
    pub fn scatter(
        &self,
        rec: &HitRecord,
        candidate: &Vec3,
        facing: Scalar,
        attenuation: &mut Color,
        scattered: &mut Ray,
    ) -> (b: bool)
        ensures
            b == facing.spec_gt(Scalar::spec_zero()),
            *final(attenuation) == self.spec_albedo(),
            final(scattered).orig == rec.p,
            final(scattered).dir == *candidate,
    {
        *scattered = Ray::new(&rec.p, candidate);
        *attenuation = self.albedo;
        facing.gt(Scalar::zero())
    }
}

impl Default for Dielectric {
    /// A dielectric with index of refraction 0.
    fn default() -> (m: Dielectric)
        ensures
            m.ir.bits == 0,
    {
        Dielectric { ir: Scalar::zero() }
    }
}

impl Dielectric {
    /// Whether a ray is reflected rather than refracted. `grazing` is the
    /// refraction ratio times the sine of the angle of incidence: above 1,
    /// Snell's law has no solution and the ray must reflect. Otherwise the ray
    /// reflects where `reflectance`, the share of light that the surface
    /// reflects at this angle, exceeds `draw`, a uniform random number from
    /// `[0, 1)`.
    pub open spec fn spec_reflects(grazing: Scalar, reflectance: Scalar, draw: Scalar) -> bool {
        grazing.spec_gt(Scalar::spec_one()) || reflectance.spec_gt(draw)
    }

    /// A dielectric with index of refraction `ir`.
    pub fn new(ir: Scalar) -> (m: Dielectric)
        ensures
            m.ir == ir,
    {
        Dielectric { ir }
    }

    /// The ratio of the refractive indices on the two sides of the surface,
    /// in the order in which the ray passes them: `reciprocal`, which is
    /// `1 / ir`, where the ray enters through the front face, and `ir` where
    /// it leaves.
    pub fn refraction_ratio(&self, front_face: bool, reciprocal: Scalar) -> (r: Scalar)
        ensures
            r == if front_face {
                reciprocal
            } else {
                self.ir
            },
    {
        if front_face {
            reciprocal
        } else {
            self.ir
        }
    }

    /// The cosine of the angle of incidence, from `dot`, the dot product of
    /// the reversed unit direction and the normal: `dot`, capped at 1 against
    /// rounding.
    pub fn cos_theta(dot: Scalar) -> (c: Scalar)
        ensures
            c == partial_min(dot, Scalar::spec_one()),
    {
        partial_min(dot, Scalar::one())
    }

    /// Whether total internal reflection rules refraction out: `grazing`, the
    /// refraction ratio times the sine of the angle of incidence, exceeds 1.
    pub fn cannot_refract(grazing: Scalar) -> (b: bool)
        ensures
            b == grazing.spec_gt(Scalar::spec_one()),
    {
        grazing.gt(Scalar::one())
    }

    /// Scatters a ray off the surface at `rec`. The ray leaves the hit point
    /// along `reflected` where `spec_reflects` says so, else along
    /// `refracted`. Glass absorbs nothing: the answer is always true and the
    /// attenuation is white.
    pub fn scatter(
        &self,
        rec: &HitRecord,
        grazing: Scalar,
        reflectance: Scalar,
        draw: Scalar,
        reflected: &Vec3,
        refracted: &Vec3,
        attenuation: &mut Color,
        scattered: &mut Ray,
    ) -> (b: bool)
        ensures
            b,
            *final(attenuation) == spec_white(),
            final(scattered).orig == rec.p,
            final(scattered).dir == if Self::spec_reflects(grazing, reflectance, draw) {
                *reflected
            } else {
                *refracted
            },
    {
        *attenuation = white();
        let direction = if Self::cannot_refract(grazing) || reflectance.gt(draw) {
            *reflected
        } else {
            *refracted
        };
        *scattered = Ray::new(&rec.p, &direction);
        true
    }
}

} // verus!
