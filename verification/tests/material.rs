use raytracing_rs::color::{black, white};
use raytracing_rs::hittable::HitRecord;
use raytracing_rs::material::{Dielectric, Lambertian, Material, Metal};
use raytracing_rs::ray::Ray;
use raytracing_rs::scalar::Scalar;
use raytracing_rs::sphere::Sphere;
use raytracing_rs::vec3::Vec3;

fn s(x: f64) -> Scalar {
    Scalar::from_bits(x.to_bits())
}

fn f(x: Scalar) -> f64 {
    f64::from_bits(x.to_bits())
}

fn v(a: [f64; 3]) -> Vec3 {
    Vec3::new(s(a[0]), s(a[1]), s(a[2]))
}

fn arr(a: &Vec3) -> [f64; 3] {
    [f(a.x()), f(a.y()), f(a.z())]
}

fn dot(a: [f64; 3], b: [f64; 3]) -> f64 {
    a[0] * b[0] + a[1] * b[1] + a[2] * b[2]
}

fn unit(a: [f64; 3]) -> [f64; 3] {
    let len = dot(a, a).sqrt();
    [a[0] / len, a[1] / len, a[2] / len]
}

fn reflect(a: [f64; 3], n: [f64; 3]) -> [f64; 3] {
    let d = 2.0 * dot(a, n);
    [a[0] - n[0] * d, a[1] - n[1] * d, a[2] - n[2] * d]
}

fn record_at(p: [f64; 3], normal: [f64; 3]) -> HitRecord {
    let sphere = Sphere::new(v([0.0, 0.0, 0.0]), s(1.0), Material::Dielectric(Dielectric::new(s(1.5))));
    sphere.hit_record(s(1.0), v(p), &v(normal), s(-1.0))
}

#[test]
fn colours_black_and_white() {
    assert_eq!(arr(&black()), [0.0, 0.0, 0.0]);
    assert_eq!(arr(&white()), [1.0, 1.0, 1.0]);
}

#[test]
fn lambertian_always_scatters_with_its_albedo() {
    let albedo = [0.8, 0.3, 0.1];
    let m = Lambertian::new(&v(albedo));
    let rec = record_at([1.0, 2.0, 3.0], [0.0, 1.0, 0.0]);
    for candidate in [[0.3, 1.4, -0.2], [0.0, 2.0, 0.0], [-0.9, 0.1, 0.0], [0.0, 0.0, 0.0]] {
        let mut attenuation = black();
        let mut scattered = Ray::default();
        assert!(m.scatter(&rec, &v(candidate), &mut attenuation, &mut scattered));
        assert_eq!(arr(&attenuation), albedo);
        assert_eq!(arr(&scattered.origin()), [1.0, 2.0, 3.0]);
    }
}

#[test]
fn lambertian_scatters_along_the_candidate() {
    let m = Lambertian::new(&v([0.5, 0.5, 0.5]));
    let rec = record_at([0.0, 0.0, 1.0], [0.0, 0.0, 1.0]);
    let mut attenuation = black();
    let mut scattered = Ray::default();
    m.scatter(&rec, &v([0.25, -0.5, 1.75]), &mut attenuation, &mut scattered);
    assert_eq!(arr(&scattered.direction()), [0.25, -0.5, 1.75]);
}

#[test]
fn lambertian_falls_back_to_the_normal() {
    let m = Lambertian::new(&v([0.5, 0.5, 0.5]));
    let rec = record_at([0.0, 0.0, 1.0], [0.0, 0.0, 1.0]);
    let mut attenuation = black();
    let mut scattered = Ray::default();
    assert!(m.scatter(&rec, &v([1e-9, -1e-10, 0.0]), &mut attenuation, &mut scattered));
    assert_eq!(arr(&scattered.direction()), [0.0, 0.0, 1.0]);
    assert!(m.scatter(&rec, &v([1e-8, 0.0, 0.0]), &mut attenuation, &mut scattered));
    assert_eq!(arr(&scattered.direction()), [1e-8, 0.0, 0.0]);
}

#[test]
fn lambertian_default_is_black() {
    assert_eq!(arr(&Lambertian::default().albedo), [0.0, 0.0, 0.0]);
}

#[test]
fn metal_clamps_its_fuzz() {
    let a = v([0.7, 0.6, 0.5]);
    assert_eq!(f(Metal::new(&a, s(0.0)).fuzz()), 0.0);
    assert_eq!(f(Metal::new(&a, s(0.3)).fuzz()), 0.3);
    assert_eq!(f(Metal::new(&a, s(0.9999999999999999)).fuzz()), 0.9999999999999999);
    assert_eq!(f(Metal::new(&a, s(1.0)).fuzz()), 1.0);
    assert_eq!(f(Metal::new(&a, s(7.5)).fuzz()), 1.0);
    assert_eq!(f(Metal::new(&a, s(f64::INFINITY)).fuzz()), 1.0);
    assert_eq!(f(Metal::new(&a, s(f64::NAN)).fuzz()), 1.0);
    assert_eq!(f(Metal::new(&a, s(-0.5)).fuzz()), 0.0);
    assert_eq!(f(Metal::new(&a, s(f64::NEG_INFINITY)).fuzz()), 0.0);
    assert_eq!(arr(&Metal::new(&a, s(0.3)).albedo()), [0.7, 0.6, 0.5]);
    assert_eq!(f(Metal::default().fuzz()), 0.0);
    assert_eq!(arr(&Metal::default().albedo()), [0.0, 0.0, 0.0]);
}

#[test]
fn metal_without_fuzz_mirrors_the_ray() {
    let m = Metal::new(&v([0.7, 0.6, 0.5]), s(0.0));
    let normal = [0.0, 1.0, 0.0];
    let rec = record_at([2.0, 0.0, 0.0], normal);
    let incoming = unit([1.0, -1.0, 0.0]);
    let fuzz = f(m.fuzz());
    let random = unit([0.3, -0.4, 0.5]);
    let mirrored = reflect(incoming, normal);
    let candidate = [
        mirrored[0] + random[0] * fuzz,
        mirrored[1] + random[1] * fuzz,
        mirrored[2] + random[2] * fuzz,
    ];
    let mut attenuation = black();
    let mut scattered = Ray::default();
    let kept = m.scatter(&rec, &v(candidate), s(dot(candidate, normal)), &mut attenuation, &mut scattered);
    assert!(kept);
    assert_eq!(arr(&attenuation), [0.7, 0.6, 0.5]);
    assert_eq!(arr(&scattered.origin()), [2.0, 0.0, 0.0]);
    let out = arr(&scattered.direction());
    assert_eq!(out[0], incoming[0]);
    assert_eq!(out[1], -incoming[1]);
    assert_eq!(out[2], 0.0);
}

#[test]
fn metal_absorbs_what_goes_into_the_surface() {
    let m = Metal::new(&v([0.7, 0.6, 0.5]), s(1.0));
    let rec = record_at([0.0, 0.0, 0.0], [0.0, 1.0, 0.0]);
    let mut attenuation = black();
    let mut scattered = Ray::default();
    assert!(!m.scatter(&rec, &v([0.5, -0.1, 0.0]), s(-0.1), &mut attenuation, &mut scattered));
    assert_eq!(arr(&attenuation), [0.7, 0.6, 0.5]);
    assert_eq!(arr(&scattered.direction()), [0.5, -0.1, 0.0]);
    assert!(!m.scatter(&rec, &v([0.5, 0.0, 0.0]), s(0.0), &mut attenuation, &mut scattered));
    assert!(!m.scatter(&rec, &v([0.5, 0.0, 0.0]), s(f64::NAN), &mut attenuation, &mut scattered));
    assert!(m.scatter(&rec, &v([0.5, 0.1, 0.0]), s(0.1), &mut attenuation, &mut scattered));
}

#[test]
fn dielectric_ratio_depends_on_the_face() {
    let glass = Dielectric::new(s(1.5));
    assert_eq!(f(glass.ir), 1.5);
    assert_eq!(f(glass.refraction_ratio(true, s(1.0 / 1.5))), 1.0 / 1.5);
    assert_eq!(f(glass.refraction_ratio(false, s(1.0 / 1.5))), 1.5);
    assert_eq!(f(Dielectric::default().ir), 0.0);
}

#[test]
fn dielectric_cosine_is_capped_at_one() {
    assert_eq!(f(Dielectric::cos_theta(s(0.25))), 0.25);
    assert_eq!(f(Dielectric::cos_theta(s(1.0000000000000002))), 1.0);
    assert_eq!(f(Dielectric::cos_theta(s(1.0))), 1.0);
    assert_eq!(f(Dielectric::cos_theta(s(-0.5))), -0.5);
}

#[test]
fn dielectric_total_internal_reflection() {
    assert!(Dielectric::cannot_refract(s(1.2)));
    assert!(!Dielectric::cannot_refract(s(1.0)));
    assert!(!Dielectric::cannot_refract(s(0.7)));
    assert!(!Dielectric::cannot_refract(s(f64::NAN)));
}

#[test]
fn dielectric_always_scatters_white() {
    let glass = Dielectric::new(s(1.5));
    let rec = record_at([0.0, 0.0, 1.0], [0.0, 0.0, 1.0]);
    let reflected = [0.0, 0.6, 0.8];
    let refracted = [0.0, 0.3, -0.95];
    let cases = [
        (1.2, 0.1, 0.9, reflected),
        (1.2, 0.1, 0.0, reflected),
        (0.6, 0.5, 0.4, reflected),
        (0.6, 0.5, 0.5, refracted),
        (0.6, 0.04, 0.9, refracted),
        (1.0, 0.04, 0.9, refracted),
        (f64::NAN, f64::NAN, 0.3, refracted),
    ];
    for (grazing, reflectance, draw, expect) in cases {
        let mut attenuation = black();
        let mut scattered = Ray::default();
        let kept = glass.scatter(
            &rec,
            s(grazing),
            s(reflectance),
            s(draw),
            &v(reflected),
            &v(refracted),
            &mut attenuation,
            &mut scattered,
        );
        assert!(kept);
        assert_eq!(arr(&attenuation), [1.0, 1.0, 1.0]);
        assert_eq!(arr(&scattered.origin()), [0.0, 0.0, 1.0]);
        assert_eq!(arr(&scattered.direction()), expect);
    }
}
