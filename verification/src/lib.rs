//! A progressive ray tracer over saturating fixed-point arithmetic.
//!
//! Scene geometry is a list of spheres with diffuse, metal, or glass
//! materials. Rays from a configurable camera are traced recursively to a
//! bounded depth, and successive frames may be blended into a running
//! average. All numbers are Q16.16 fixed-point values carried in `i64`.

pub mod accum;
pub mod camera;
pub mod fixed;
pub mod rng;
pub mod scene;
pub mod hit;
pub mod material;
pub mod pixel;
pub mod ray;
pub mod render;
pub mod sphere;
pub mod state;
pub mod trig;
pub mod vec3;

pub use fixed::Fp;
