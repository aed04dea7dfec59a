use raytracing_rs::camera::{
    Camera, Encounter, RayFate, Viewport, DEFAULT_FOCUS_DIST_BITS, DEFAULT_VFOV_BITS,
    SHADOW_EPSILON_BITS,
};
use raytracing_rs::color::{sky_blue, white};
use raytracing_rs::hittable_list::HittableList;
use raytracing_rs::scalar::Scalar;
use raytracing_rs::vec3::Vec3;

fn s(x: f64) -> Scalar {
    Scalar::from_bits(x.to_bits())
}

fn f(x: Scalar) -> f64 {
    f64::from_bits(x.to_bits())
}

fn v(a: [f64; 3]) -> Vec3 {
    Vec3::new(s(a[0]), s(a[1]), s(a[2]))
}

fn arr(a: &Vec3) -> [f64; 3] {
    [f(a.x()), f(a.y()), f(a.z())]
}

fn some_viewport() -> Viewport {
    Viewport {
        pixel00_loc: v([-1.0, 1.0, -1.0]),
        pixel_delta_u: v([0.02, 0.0, 0.0]),
        pixel_delta_v: v([0.0, -0.02, 0.0]),
        u: v([1.0, 0.0, 0.0]),
        v: v([0.0, 1.0, 0.0]),
        w: v([0.0, 0.0, 1.0]),
        defocus_disk_u: v([0.1, 0.0, 0.0]),
        defocus_disk_v: v([0.0, 0.1, 0.0]),
    }
}

#[test]
fn camera_default_settings() {
    assert_eq!(DEFAULT_VFOV_BITS, 90.0f64.to_bits());
    assert_eq!(DEFAULT_FOCUS_DIST_BITS, 10.0f64.to_bits());
    let c = Camera::default();
    assert_eq!(c.image_width, 100);
    assert_eq!(f(c.aspect_ratio), 1.0);
    assert_eq!(c.samples_per_pixel, 10);
    assert_eq!(c.max_depth, 10);
    assert_eq!(f(c.vfov), 90.0);
    assert_eq!(arr(&c.lookfrom), [0.0, 0.0, -1.0]);
    assert_eq!(arr(&c.lookat), [0.0, 0.0, 0.0]);
    assert_eq!(arr(&c.vup), [0.0, 1.0, 0.0]);
    assert_eq!(f(c.defocus_angle), 0.0);
    assert_eq!(f(c.focus_dist), 10.0);
    assert_eq!(c.image_height, 0);
    assert_eq!(arr(&c.center), [0.0, 0.0, 0.0]);
    assert_eq!(arr(&c.viewport.pixel00_loc), [0.0, 0.0, 0.0]);
    assert_eq!(arr(&c.viewport.defocus_disk_v), [0.0, 0.0, 0.0]);
}

#[test]
fn camera_initialize_keeps_at_least_one_row() {
    for (raw, expect) in [(56, 56), (1, 1), (0, 1), (-3, 1), (i32::MIN, 1), (i32::MAX, i32::MAX)] {
        let mut c = Camera::default();
        c.initialize(raw, some_viewport());
        assert_eq!(c.image_height, expect);
    }
}

#[test]
fn camera_initialize_stores_the_geometry() {
    let mut c = Camera::default();
    c.image_width = 400;
    c.aspect_ratio = s(16.0 / 9.0);
    c.lookfrom = v([13.0, 2.0, 3.0]);
    c.max_depth = 50;
    let raw = ((c.image_width as f64) / f(c.aspect_ratio)) as i32;
    c.initialize(raw, some_viewport());
    assert_eq!(c.image_height, 225);
    assert_eq!(arr(&c.center), [13.0, 2.0, 3.0]);
    assert_eq!(arr(&c.viewport.pixel00_loc), [-1.0, 1.0, -1.0]);
    assert_eq!(arr(&c.viewport.pixel_delta_v), [0.0, -0.02, 0.0]);
    assert_eq!(arr(&c.viewport.w), [0.0, 0.0, 1.0]);
    assert_eq!(c.image_width, 400);
    assert_eq!(c.max_depth, 50);
    assert_eq!(arr(&c.lookfrom), [13.0, 2.0, 3.0]);
    assert_eq!(f(c.aspect_ratio), 16.0 / 9.0);
}

#[test]
fn camera_plan_render_covers_the_image() {
    let mut c = Camera::default();
    c.lookfrom = v([1.0, 2.0, 3.0]);
    let plan = c.plan_render(100, some_viewport());
    assert_eq!(c.image_height, 100);
    assert_eq!(arr(&c.center), [1.0, 2.0, 3.0]);
    assert!(!plan.is_empty());
    assert_eq!(plan[0].start, 0);
    assert_eq!(plan[plan.len() - 1].end, 100);
    for pair in plan.windows(2) {
        assert_eq!(pair[0].end, pair[1].start);
    }
    let per = 100 / (plan.len() as i32);
    for (tid, band) in plan.iter().enumerate() {
        assert_eq!(band.start, per * (tid as i32));
    }
}

#[test]
fn camera_hit_range_starts_past_the_surface() {
    assert_eq!(SHADOW_EPSILON_BITS, 0.001f64.to_bits());
    let range = Camera::hit_range();
    assert_eq!(f(range.min), 0.001);
    assert_eq!(f(range.max), f64::INFINITY);
    assert!(!range.surrounds(s(0.001)));
    assert!(range.surrounds(s(0.0011)));
}

#[test]
fn camera_defocus_only_with_a_positive_angle() {
    let mut c = Camera::default();
    c.initialize(10, some_viewport());
    assert!(!c.defocus_enabled());
    c.defocus_angle = s(-2.0);
    assert!(!c.defocus_enabled());
    c.defocus_angle = s(-0.0);
    assert!(!c.defocus_enabled());
    c.defocus_angle = s(0.6);
    assert!(c.defocus_enabled());
    c.defocus_angle = s(5e-324);
    assert!(c.defocus_enabled());
    c.defocus_angle = s(f64::NAN);
    assert!(c.defocus_enabled());
}

#[test]
fn ray_with_no_depth_left_is_black() {
    for depth in [0, -1, i32::MIN] {
        assert!(Camera::exhausted(depth));
        for encounter in [Encounter::Miss, Encounter::Absorbed, Encounter::Scattered] {
            assert!(matches!(Camera::ray_fate(depth, encounter), RayFate::Black));
        }
    }
    assert!(!Camera::exhausted(1));
    assert!(!Camera::exhausted(50));
}

#[test]
fn ray_that_misses_sees_the_sky() {
    assert!(matches!(Camera::ray_fate(1, Encounter::Miss), RayFate::Sky));
    assert!(matches!(Camera::ray_fate(50, Encounter::Miss), RayFate::Sky));
}

#[test]
fn ray_that_is_absorbed_is_black() {
    assert!(matches!(Camera::ray_fate(1, Encounter::Absorbed), RayFate::Black));
    assert!(matches!(Camera::ray_fate(50, Encounter::Absorbed), RayFate::Black));
}

#[test]
fn ray_that_scatters_loses_one_bounce() {
    assert!(matches!(Camera::ray_fate(50, Encounter::Scattered), RayFate::Bounce { depth: 49 }));
    assert!(matches!(Camera::ray_fate(1, Encounter::Scattered), RayFate::Bounce { depth: 0 }));
    assert!(matches!(
        Camera::ray_fate(i32::MAX, Encounter::Scattered),
        RayFate::Bounce { depth: 2147483646 }
    ));
}

#[test]
fn ray_in_a_hall_of_mirrors_ends_after_max_depth_bounces() {
    let mut depth = 10;
    let mut bounces = 0;
    let fate = loop {
        if Camera::exhausted(depth) {
            break RayFate::Black;
        }
        match Camera::ray_fate(depth, Encounter::Scattered) {
            RayFate::Bounce { depth: left } => {
                depth = left;
                bounces += 1;
            }
            end => break end,
        }
    };
    assert!(matches!(fate, RayFate::Black));
    assert_eq!(bounces, 10);
}

fn sky(direction: [f64; 3]) -> [f64; 3] {
    let world = HittableList::new();
    assert!(world.hit(&Vec::new(), Camera::hit_range()).is_none());
    assert!(matches!(Camera::ray_fate(50, Encounter::Miss), RayFate::Sky));
    let len = (direction[0] * direction[0] + direction[1] * direction[1]
        + direction[2] * direction[2])
        .sqrt();
    let a = (direction[1] / len + 1.0) * 0.5;
    let (low, high) = (arr(&white()), arr(&sky_blue()));
    [
        low[0] * (1.0 - a) + high[0] * a,
        low[1] * (1.0 - a) + high[1] * a,
        low[2] * (1.0 - a) + high[2] * a,
    ]
}

#[test]
fn sky_gradient_of_an_empty_scene() {
    assert_eq!(arr(&sky_blue()), [0.5, 0.7, 1.0]);
    assert_eq!(sky([0.0, 0.0, -1.0]), [0.75, 0.85, 1.0]);
    assert_eq!(sky([0.0, 1.0, 0.0]), [0.5, 0.7, 1.0]);
    assert_eq!(sky([0.0, -1.0, 0.0]), [1.0, 1.0, 1.0]);
}
