//! Rays: an origin and a direction.

use crate::vec3::{Point3, Vec3};
use vstd::prelude::*;

verus! {

/// The half-line `origin + t * direction`.
#[derive(Clone, Copy, Debug)]
pub struct Ray {
    pub orig: Point3,
    pub dir: Vec3,
}

impl Default for Ray {
    /// The ray that starts at the origin and has no direction.
    fn default() -> (r: Ray)
        ensures
            r.orig == Vec3::spec_zero(),
            r.dir == Vec3::spec_zero(),
    {
        Ray { orig: Vec3::default(), dir: Vec3::default() }
    }
}

impl Ray {
    /// The ray from `origin` along `direction`.
    pub fn new(origin: &Point3, direction: &Vec3) -> (r: Ray)
        ensures
            r.orig == *origin,
            r.dir == *direction,
    {
        Ray { orig: *origin, dir: *direction }
    }

    /// Where the ray starts.
    pub fn origin(&self) -> (p: Point3)
        ensures
            p == self.orig,
    {
        self.orig
    }

    /// The direction the ray travels in; not normalised.
    pub fn direction(&self) -> (v: Vec3)
        ensures
            v == self.dir,
    {
        self.dir
    }
}

} // verus!
