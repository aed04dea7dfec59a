//! The scene: a list of objects, and the search for the one a ray hits first.

use crate::interval::Interval;
use crate::scalar::Scalar;
use crate::sphere::{lemma_narrowed_root, Crossing, Sphere};
use vstd::prelude::*;

verus! {

/// The first hit of a ray in a scene: which object it hits, and at which ray
/// parameter.
#[derive(Clone, Copy, Debug)]
pub struct Nearest {
    pub index: usize,
    pub t: Scalar,
}

/// The objects of a scene, in the order in which they were added.
pub struct HittableList {
    pub objects: Vec<Sphere>,
}

/// Among the first `n` objects, object `k` is hit at `t` within `ray_t`, no
/// object is hit nearer, and no earlier object is hit as near.
pub open spec fn nearest_of(crossings: Seq<Crossing>, ray_t: Interval, n: int, k: int, t: Scalar) -> bool {
    &&& 0 <= k < n
    &&& crossings[k].spec_root_in(ray_t) == Some(t)
    &&& forall|i: int|
        0 <= i < n ==> (#[trigger] crossings[i].spec_root_in(ray_t) matches Some(ti) ==> !ti.spec_lt(
            t,
        ))
    &&& forall|i: int|
        0 <= i < k ==> (#[trigger] crossings[i].spec_root_in(ray_t) matches Some(ti) ==> t.spec_lt(
            ti,
        ))
}

/// None of the first `n` objects is hit within `ray_t`.
pub open spec fn none_of(crossings: Seq<Crossing>, ray_t: Interval, n: int) -> bool {
    forall|i: int| 0 <= i < n ==> #[trigger] crossings[i].spec_root_in(ray_t) is None
}

/// At most one object and one parameter are the nearest hit, and there is
/// none where no object is hit.
pub proof fn lemma_nearest_is_unique(
    crossings: Seq<Crossing>,
    ray_t: Interval,
    n: int,
    k1: int,
    t1: Scalar,
    k2: int,
    t2: Scalar,
)
    requires
        nearest_of(crossings, ray_t, n, k1, t1),
        nearest_of(crossings, ray_t, n, k2, t2),
    ensures
        k1 == k2,
        t1 == t2,
        !none_of(crossings, ray_t, n),
{
    assert(crossings[k1].spec_root_in(ray_t) == Some(t1));
    assert(crossings[k2].spec_root_in(ray_t) == Some(t2));
    if k1 < k2 {
        assert(t2.spec_lt(t1));
        assert(!t2.spec_lt(t1));
    } else if k2 < k1 {
        assert(t1.spec_lt(t2));
        assert(!t1.spec_lt(t2));
    }
}

impl HittableList {
    /// A scene without objects.
    pub fn new() -> (list: HittableList)
        ensures
            list.objects@.len() == 0,
    {
        HittableList { objects: Vec::new() }
    }

    /// Removes every object from the scene.
    pub fn clear(&mut self)
        ensures
            final(self).objects@.len() == 0,
    {
        self.objects.clear()
    }

    /// Adds an object to the scene, after those that are there.
    pub fn add(&mut self, obj: Sphere)
        ensures
            final(self).objects@ == old(self).objects@.push(obj),
    {
        self.objects.push(obj)
    }

    /// Finds the object that a ray hits first within `ray_t`. The ray is
    /// given by `crossings`, which holds for each object, in the order of the
    /// scene, the solution of the ray's quadratic; objects without a crossing
    /// and crossings without an object are passed over.
    ///
    /// The answer names the hit with the least parameter among all objects;
    /// where several objects are hit at that parameter, the one added first.
    pub fn hit(&self, crossings: &Vec<Crossing>, ray_t: Interval) -> (found: Option<Nearest>)
        ensures
            match found {
                Some(h) => h.index < self.objects@.len() && nearest_of(
                    crossings@,
                    ray_t,
                    vstd::math::min(self.objects@.len() as int, crossings@.len() as int),
                    h.index as int,
                    h.t,
                ),
                None => none_of(
                    crossings@,
                    ray_t,
                    vstd::math::min(self.objects@.len() as int, crossings@.len() as int),
                ),
            },
    {
        let n = if self.objects.len() < crossings.len() {
            self.objects.len()
        } else {
            crossings.len()
        };
        let mut found: Option<Nearest> = None;
        let mut closest_so_far = ray_t.max;
        let mut i: usize = 0;
        while i < n
            invariant
                n == vstd::math::min(self.objects@.len() as int, crossings@.len() as int),
                i <= n,
                closest_so_far == ray_t.max || ray_t.spec_surrounds(closest_so_far),
                match found {
                    Some(h) => closest_so_far == h.t && nearest_of(
                        crossings@,
                        ray_t,
                        i as int,
                        h.index as int,
                        h.t,
                    ),
                    None => closest_so_far == ray_t.max && none_of(crossings@, ray_t, i as int),
                },
            decreases n - i,
        {
            let crossing = &crossings[i];
            proof {
                use_type_invariant(crossing);
                lemma_narrowed_root(*crossing, ray_t, closest_so_far);
            }
            let narrowed = Interval::new_val(ray_t.min, closest_so_far);
            match self.objects[i].hit(crossing, narrowed) {
                Some(t) => {
                    found = Some(Nearest { index: i, t });
                    closest_so_far = t;
                },
                None => {},
            }
            i = i + 1;
        }
        found
    }
}

} // verus!
