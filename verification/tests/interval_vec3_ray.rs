use raytracing_rs::interval::Interval;
use raytracing_rs::ray::Ray;
use raytracing_rs::scalar::Scalar;
use raytracing_rs::vec3::{Vec3, NEAR_ZERO_BITS};

fn s(x: f64) -> Scalar {
    Scalar::from_bits(x.to_bits())
}

fn f(x: Scalar) -> f64 {
    f64::from_bits(x.to_bits())
}

fn v(x: f64, y: f64, z: f64) -> Vec3 {
    Vec3::new(s(x), s(y), s(z))
}

fn bits(a: &Vec3) -> (u64, u64, u64) {
    (a.x().to_bits(), a.y().to_bits(), a.z().to_bits())
}

#[test]
fn interval_new_is_everything() {
    let all = Interval::new();
    assert_eq!(f(all.min), f64::NEG_INFINITY);
    assert_eq!(f(all.max), f64::INFINITY);
    assert!(all.contains(s(0.0)));
    assert!(all.contains(s(-1e300)));
    assert!(all.contains(s(f64::INFINITY)));
    assert!(!all.surrounds(s(f64::INFINITY)));
    assert!(all.surrounds(s(1e300)));
    assert!(!all.contains(s(f64::NAN)));
}

#[test]
fn interval_universe_and_empty() {
    let all = Interval::universe();
    let none = Interval::empty();
    assert_eq!(f(all.min), f64::NEG_INFINITY);
    assert_eq!(f(all.max), f64::INFINITY);
    assert_eq!(f(none.min), f64::INFINITY);
    assert_eq!(f(none.max), f64::NEG_INFINITY);
    for x in [0.0, 1.0, -1.0, f64::INFINITY, f64::NEG_INFINITY, 1e-300] {
        assert!(all.contains(s(x)));
        assert!(!none.contains(s(x)));
        assert!(!none.surrounds(s(x)));
    }
}

#[test]
fn interval_contains_is_inclusive() {
    let i = Interval::new_val(s(1.0), s(2.0));
    assert!(i.contains(s(1.0)));
    assert!(i.contains(s(2.0)));
    assert!(i.contains(s(1.5)));
    assert!(!i.contains(s(0.9999999999999999)));
    assert!(!i.contains(s(2.0000000000000004)));
}

#[test]
fn interval_surrounds_is_exclusive() {
    let i = Interval::new_val(s(1.0), s(2.0));
    assert!(!i.surrounds(s(1.0)));
    assert!(!i.surrounds(s(2.0)));
    assert!(i.surrounds(s(1.5)));
    assert!(i.surrounds(s(1.0000000000000002)));
    assert!(!i.surrounds(s(f64::NAN)));
}

#[test]
fn interval_clamp_saturates() {
    let i = Interval::new_val(s(0.0), s(0.999));
    assert_eq!(f(i.clamp(s(-3.0))), 0.0);
    assert_eq!(f(i.clamp(s(7.0))), 0.999);
    assert_eq!(f(i.clamp(s(0.25))), 0.25);
    assert_eq!(f(i.clamp(s(0.999))), 0.999);
    assert!(f(i.clamp(s(f64::NAN))).is_nan());
}

#[test]
fn interval_agrees_with_hardware() {
    let xs = [-2.0, -0.0, 0.0, 0.5, 1.0, 3.0, f64::INFINITY, f64::NAN];
    for lo in xs {
        for hi in xs {
            let i = Interval::new_val(s(lo), s(hi));
            for x in xs {
                assert_eq!(i.contains(s(x)), lo <= x && x <= hi);
                assert_eq!(i.surrounds(s(x)), lo < x && x < hi);
                let expect = if x < lo {
                    lo
                } else if x > hi {
                    hi
                } else {
                    x
                };
                assert_eq!(i.clamp(s(x)).to_bits(), expect.to_bits());
            }
        }
    }
}

#[test]
fn vec3_new_and_components() {
    let a = v(1.0, -2.0, 3.5);
    assert_eq!(f(a.x()), 1.0);
    assert_eq!(f(a.y()), -2.0);
    assert_eq!(f(a.z()), 3.5);
    assert_eq!(bits(&Vec3::default()), (0, 0, 0));
}

#[test]
fn vec3_neg_flips_every_sign() {
    let a = -v(1.0, -2.0, 0.0);
    assert_eq!(bits(&a), ((-1.0f64).to_bits(), 2.0f64.to_bits(), (-0.0f64).to_bits()));
}

#[test]
fn vec3_near_zero_uses_1e_8() {
    assert_eq!(NEAR_ZERO_BITS, 1e-8f64.to_bits());
    assert!(v(0.0, 0.0, 0.0).near_zero());
    assert!(v(9e-9, -9e-9, 0.0).near_zero());
    assert!(!v(1e-8, 0.0, 0.0).near_zero());
    assert!(!v(0.0, -1e-8, 0.0).near_zero());
    assert!(!v(0.0, 0.0, 1.0).near_zero());
    assert!(!v(f64::NAN, 0.0, 0.0).near_zero());
}

#[test]
fn vec3_inside_unit_ball_is_strict() {
    assert!(Vec3::inside_unit_ball(s(0.0)));
    assert!(Vec3::inside_unit_ball(s(0.9999999999999999)));
    assert!(!Vec3::inside_unit_ball(s(1.0)));
    assert!(!Vec3::inside_unit_ball(s(2.5)));
    assert!(!Vec3::inside_unit_ball(s(f64::NAN)));
}

#[test]
fn vec3_on_hemisphere_follows_the_normal() {
    let a = v(0.6, 0.0, -0.8);
    assert_eq!(bits(&Vec3::on_hemisphere(&a, s(0.3))), bits(&a));
    assert_eq!(bits(&Vec3::on_hemisphere(&a, s(-0.3))), bits(&(-a)));
    assert_eq!(bits(&Vec3::on_hemisphere(&a, s(0.0))), bits(&(-a)));
}

#[test]
fn ray_keeps_origin_and_direction() {
    let r = Ray::new(&v(1.0, 2.0, 3.0), &v(0.0, -1.0, 0.5));
    assert_eq!(bits(&r.origin()), bits(&v(1.0, 2.0, 3.0)));
    assert_eq!(bits(&r.direction()), bits(&v(0.0, -1.0, 0.5)));
    let blank = Ray::default();
    assert_eq!(bits(&blank.origin()), (0, 0, 0));
    assert_eq!(bits(&blank.direction()), (0, 0, 0));
}
