//! The decision core of a Monte-Carlo path tracer.
//!
//! The tracer's numbers are IEEE 754 doubles. This crate holds them by their
//! encodings and owns everything the tracer decides: which root of a sphere's
//! quadratic counts as a hit, which object of a scene is nearest, where the
//! surface normal points, whether and where a material scatters, when a light
//! path ends, which rows each worker renders and in what order the rendered
//! bands are joined. The arithmetic between those decisions is the caller's.

pub mod camera;
pub mod color;
pub mod decimal;
pub mod hittable;
pub mod hittable_list;
pub mod interval;
pub mod material;
pub mod ray;
pub mod render;
pub mod rtweekend;
pub mod scalar;
pub mod sphere;
pub mod vec3;
