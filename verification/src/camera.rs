//! The camera: its settings, the viewport it derives from them, and the life
//! of a light path.

use crate::interval::Interval;
use crate::render::{band_end, band_start, bands, spec_worker_count, workers, Band};
use crate::scalar::{Scalar, INFINITY_BITS, NEG_ONE_BITS, ONE_BITS};
use crate::vec3::{Point3, Vec3};
use vstd::prelude::*;

verus! {

/// Encoding of `90.0`, the default vertical field of view in degrees.
pub const DEFAULT_VFOV_BITS: u64 = 0x4056_8000_0000_0000;

/// Encoding of `10.0`, the default focus distance.
pub const DEFAULT_FOCUS_DIST_BITS: u64 = 0x4024_0000_0000_0000;

/// Encoding of `0.001`, the least ray parameter at which a hit counts. A
/// bounced ray starts on a surface; rounding may put its origin just below,
/// and without this margin it would hit the surface it left.
pub const SHADOW_EPSILON_BITS: u64 = 0x3F50_624D_D2F1_A9FC;

/// The viewport as it follows from the camera's settings: where the first
/// pixel lies, the steps from pixel to pixel, the camera's axes and the axes
/// of its defocus disk.
#[derive(Clone, Copy, Debug)]
pub struct Viewport {
    pub pixel00_loc: Point3,
    pub pixel_delta_u: Vec3,
    pub pixel_delta_v: Vec3,
    pub u: Vec3,
    pub v: Vec3,
    pub w: Vec3,
    pub defocus_disk_u: Vec3,
    pub defocus_disk_v: Vec3,
}

/// A camera: its settings, and what is derived from them at the start of each
/// render.
#[derive(Clone, Copy, Debug)]
pub struct Camera {
    /// Width of the image in pixels.
    pub image_width: i32,
    /// Width of the image over its height.
    pub aspect_ratio: Scalar,
    /// Number of random samples per pixel.
    pub samples_per_pixel: i32,
    /// Greatest number of bounces of a ray.
    pub max_depth: i32,
    /// Vertical field of view, in degrees.
    pub vfov: Scalar,
    /// Where the camera stands.
    pub lookfrom: Point3,
    /// What the camera looks at.
    pub lookat: Point3,
    /// The direction that is up for the camera.
    pub vup: Vec3,
    /// Angle of the cone of rays through each pixel, in degrees.
    pub defocus_angle: Scalar,
    /// Distance from the camera to the plane of perfect focus.
    pub focus_dist: Scalar,
    /// Derived: height of the image in pixels; 0 until the camera is set up.
    pub image_height: i32,
    /// Derived: the point from which rays start where there is no defocus
    /// blur.
    pub center: Point3,
    /// Derived: the viewport.
    pub viewport: Viewport,
}

/// What happened to a ray that was sent into the scene.
#[derive(Clone, Copy, Debug)]
pub enum Encounter {
    /// The ray hit nothing.
    Miss,
    /// The ray hit a surface, which absorbed it.
    Absorbed,
    /// The ray hit a surface, which scattered it.
    Scattered,
}

/// What becomes of a ray.
#[derive(Clone, Copy, Debug)]
pub enum RayFate {
    /// The ray brings no light.
    Black,
    /// The ray left the scene and brings the colour of the sky.
    Sky,
    /// The ray goes on as the scattered ray, with `depth` bounces left, and
    /// brings what that ray brings, attenuated by the surface.
    Bounce { depth: i32 },
}

impl Viewport {
    /// The viewport of a camera that has not been set up: all zero.
    pub open spec fn spec_blank() -> Viewport {
        Viewport {
            pixel00_loc: Vec3::spec_zero(),
            pixel_delta_u: Vec3::spec_zero(),
            pixel_delta_v: Vec3::spec_zero(),
            u: Vec3::spec_zero(),
            v: Vec3::spec_zero(),
            w: Vec3::spec_zero(),
            defocus_disk_u: Vec3::spec_zero(),
            defocus_disk_v: Vec3::spec_zero(),
        }
    }
}

impl Default for Viewport {
    /// The viewport of a camera that has not been set up: all zero.
    fn default() -> (v: Viewport)
        ensures
            v == Viewport::spec_blank(),
    {
        Viewport {
            pixel00_loc: Vec3::default(),
            pixel_delta_u: Vec3::default(),
            pixel_delta_v: Vec3::default(),
            u: Vec3::default(),
            v: Vec3::default(),
            w: Vec3::default(),
            defocus_disk_u: Vec3::default(),
            defocus_disk_v: Vec3::default(),
        }
    }
}

impl Default for Camera {
    /// A camera at `(0, 0, -1)` that looks at the origin: a square image of
    /// 100 pixels, 10 samples per pixel, 10 bounces, a field of view of 90
    /// degrees, no defocus blur, focus distance 10. Nothing is derived yet.
    fn default() -> (c: Camera)
        ensures
            c.image_width == 100,
            c.aspect_ratio.bits == ONE_BITS,
            c.samples_per_pixel == 10,
            c.max_depth == 10,
            c.vfov.bits == DEFAULT_VFOV_BITS,
            c.lookfrom.e.0.bits == 0 && c.lookfrom.e.1.bits == 0 && c.lookfrom.e.2.bits
                == NEG_ONE_BITS,
            c.lookat == Vec3::spec_zero(),
            c.vup.e.0.bits == 0 && c.vup.e.1.bits == ONE_BITS && c.vup.e.2.bits == 0,
            c.defocus_angle.bits == 0,
            c.focus_dist.bits == DEFAULT_FOCUS_DIST_BITS,
            c.image_height == 0,
            c.center == Vec3::spec_zero(),
            c.viewport == Viewport::spec_blank(),
    {
        Camera {
            image_width: 100,
            aspect_ratio: Scalar::one(),
            samples_per_pixel: 10,
            max_depth: 10,
            vfov: Scalar::from_bits(DEFAULT_VFOV_BITS),
            lookfrom: Vec3::new(Scalar::zero(), Scalar::zero(), Scalar::from_bits(NEG_ONE_BITS)),
            lookat: Vec3::new(Scalar::zero(), Scalar::zero(), Scalar::zero()),
            vup: Vec3::new(Scalar::zero(), Scalar::one(), Scalar::zero()),
            defocus_angle: Scalar::zero(),
            focus_dist: Scalar::from_bits(DEFAULT_FOCUS_DIST_BITS),
            image_height: 0,
            center: Vec3::default(),
            viewport: Viewport::default(),
        }
    }
}

impl Camera {
    /// Whether two cameras have the same settings.
    pub open spec fn same_settings(&self, other: &Camera) -> bool {
        &&& self.image_width == other.image_width
        &&& self.aspect_ratio == other.aspect_ratio
        &&& self.samples_per_pixel == other.samples_per_pixel
        &&& self.max_depth == other.max_depth
        &&& self.vfov == other.vfov
        &&& self.lookfrom == other.lookfrom
        &&& self.lookat == other.lookat
        &&& self.vup == other.vup
        &&& self.defocus_angle == other.defocus_angle
        &&& self.focus_dist == other.focus_dist
    }

    /// The height of an image from `raw_height`, the width divided by the
    /// aspect ratio and cut to an integer: at least one row.
    pub open spec fn spec_height_from(raw_height: i32) -> i32 {
        if raw_height < 1 {
            1
        } else {
            raw_height
        }
    }

    /// Whether rays start on the defocus disk rather than at the centre: the
    /// defocus angle is not `<= 0`.
    pub open spec fn spec_defocus_enabled(&self) -> bool {
        !self.defocus_angle.spec_le(Scalar::spec_zero())
    }

    /// What becomes of a ray with `depth` bounces left to which `encounter`
    /// happened. With no bounce left it is black whatever happened; else it
    /// brings the sky's colour where it hit nothing, is black where it was
    /// absorbed, and goes on with one bounce less where it was scattered.
    pub open spec fn spec_ray_fate(depth: i32, encounter: Encounter) -> RayFate {
        if depth <= 0 {
            RayFate::Black
        } else {
            match encounter {
                Encounter::Miss => RayFate::Sky,
                Encounter::Absorbed => RayFate::Black,
                Encounter::Scattered => RayFate::Bounce { depth: (depth - 1) as i32 },
            }
        }
    }

    /// What becomes of a ray with `depth` bounces left whose encounters, one
    /// per bounce, are `script`. A ray that is still under way when the
    /// script ends is reported as such, with the bounces it has left.
    pub open spec fn spec_path_fate(depth: i32, script: Seq<Encounter>) -> RayFate
        decreases script.len(),
    {
        if script.len() == 0 {
            if depth <= 0 {
                RayFate::Black
            } else {
                RayFate::Bounce { depth }
            }
        } else {
            match Self::spec_ray_fate(depth, script[0]) {
                RayFate::Bounce { depth: left } => Self::spec_path_fate(left, script.drop_first()),
                end => end,
            }
        }
    }

    /// The number of times a ray with `depth` bounces left is scattered
    /// while its encounters are `script`.
    pub open spec fn spec_bounces(depth: i32, script: Seq<Encounter>) -> nat
        decreases script.len(),
    {
        if script.len() == 0 {
            0
        } else {
            match Self::spec_ray_fate(depth, script[0]) {
                RayFate::Bounce { depth: left } => 1 + Self::spec_bounces(left, script.drop_first()),
                _ => 0,
            }
        }
    }

    /// A ray with no bounce left is black, whatever the scene holds.
    pub proof fn lemma_exhausted_ray_is_black(depth: i32, script: Seq<Encounter>)
        requires
            depth <= 0,
        ensures
            Self::spec_path_fate(depth, script) == RayFate::Black,
            Self::spec_bounces(depth, script) == 0,
            forall|encounter: Encounter| Self::spec_ray_fate(depth, encounter) == RayFate::Black,
    {
    }

    /// A ray is scattered at most as often as it has bounces, and a ray that
    /// is scattered that often ends black.
    pub proof fn lemma_path_is_bounded(depth: i32, script: Seq<Encounter>)
        ensures
            Self::spec_bounces(depth, script) <= script.len(),
            depth >= 0 ==> Self::spec_bounces(depth, script) <= depth,
            depth >= 0 && Self::spec_bounces(depth, script) == depth ==> Self::spec_path_fate(
                depth,
                script,
            ) == RayFate::Black,
            Self::spec_path_fate(depth, script) matches RayFate::Bounce { depth: left } ==> 0 < left
                <= depth && left == depth - Self::spec_bounces(depth, script),
        decreases script.len(),
    {
        if script.len() > 0 {
            match Self::spec_ray_fate(depth, script[0]) {
                RayFate::Bounce { depth: left } => {
                    Self::lemma_path_is_bounded(left, script.drop_first());
                },
                _ => {},
            }
        }
    }

    /// The height of an image from `raw_height`, the width divided by the
    /// aspect ratio and cut to an integer: at least one row.
    #[verifier::when_used_as_spec(spec_height_from)]
    pub fn height_from(raw_height: i32) -> (height: i32)
        ensures
            height == Self::spec_height_from(raw_height),
            height >= 1,
    {
        if raw_height < 1 {
            1
        } else {
            raw_height
        }
    }

    /// Sets the camera up for a render. `raw_height` is the image width
    /// divided by the aspect ratio, cut to an integer, and `viewport` is the
    /// geometry that follows from the settings. The image gets at least one
    /// row, the centre is where the camera stands, and the settings stay as
    /// they are.
    pub fn initialize(&mut self, raw_height: i32, viewport: Viewport)
        ensures
            final(self).image_height == Self::spec_height_from(raw_height),
            final(self).image_height >= 1,
            final(self).center == old(self).lookfrom,
            final(self).viewport == viewport,
            final(self).same_settings(old(self)),
    {
        self.image_height = Self::height_from(raw_height);
        self.center = self.lookfrom;
        self.viewport = viewport;
    }

    /// Sets the camera up for a render, as `initialize` does, and splits the
    /// rows of the image among the workers that the host has room for, two
    /// thirds of its CPUs. The plan holds one band per worker, in the order of
    /// the workers; together the bands are the image, from its first row to
    /// its last.
    pub fn plan_render(&mut self, raw_height: i32, viewport: Viewport) -> (plan: Vec<Band>)
        ensures
            final(self).image_height == Self::spec_height_from(raw_height),
            final(self).center == old(self).lookfrom,
            final(self).viewport == viewport,
            final(self).same_settings(old(self)),
            plan@.len() >= 1,
            exists|cpus: int| 0 <= cpus && plan@.len() == spec_worker_count(cpus),
            forall|tid: int|
                0 <= tid < plan@.len() ==> (#[trigger] plan@[tid]).start == band_start(
                    Self::spec_height_from(raw_height) as int,
                    plan@.len() as int,
                    tid,
                ) && plan@[tid].end == band_end(
                    Self::spec_height_from(raw_height) as int,
                    plan@.len() as int,
                    tid,
                ),
    {
        self.initialize(raw_height, viewport);
        let count = workers();
        bands(self.image_height, count)
    }

    /// The ray parameters at which a hit counts: from `0.001`, so that a ray
    /// does not hit the surface it starts on, to infinity.
    pub fn hit_range() -> (range: Interval)
        ensures
            range.min.bits == SHADOW_EPSILON_BITS,
            range.max.bits == INFINITY_BITS,
    {
        Interval::new_val(Scalar::from_bits(SHADOW_EPSILON_BITS), Scalar::infinity())
    }

    /// Whether rays start on the defocus disk rather than at the centre.
    #[verifier::when_used_as_spec(spec_defocus_enabled)]
    pub fn defocus_enabled(&self) -> (b: bool)
        ensures
            b == self.spec_defocus_enabled(),
    {
        !self.defocus_angle.le(Scalar::zero())
    }

    /// Whether a ray with `depth` bounces left is spent. Such a ray is black,
    /// and the scene need not be asked.
    pub fn exhausted(depth: i32) -> (b: bool)
        ensures
            b == (depth <= 0),
            b ==> forall|encounter: Encounter|
                Self::spec_ray_fate(depth, encounter) == RayFate::Black,
    {
        depth <= 0
    }

    /// What becomes of a ray with `depth` bounces left to which `encounter`
    /// happened.
    #[verifier::when_used_as_spec(spec_ray_fate)]
    pub fn ray_fate(depth: i32, encounter: Encounter) -> (fate: RayFate)
        ensures
            fate == Self::spec_ray_fate(depth, encounter),
    {
        if depth <= 0 {
            return RayFate::Black;
        }
        match encounter {
            Encounter::Miss => RayFate::Sky,
            Encounter::Absorbed => RayFate::Black,
            Encounter::Scattered => RayFate::Bounce { depth: depth - 1 },
        }
    }
}

} // verus!
