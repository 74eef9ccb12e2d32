//! A Monte Carlo ray tracer over fixed-point arithmetic.
//!
//! The renderer turns a scene of spheres with diffuse, metallic and
//! dielectric materials into a flat row-major RGB byte buffer.  All scalar
//! arithmetic is carried out on [`fixed::Fixed`], a saturating fixed-point
//! number, so that every stage of the pipeline — ray generation, sphere
//! intersection, material scattering, the recursive sky-lit integrator and
//! tone mapping — is a proved mathematical function of its inputs and of the
//! pseudo-random stream that drives the sampling.

pub mod camera;
pub mod fixed;
pub mod hitable;
pub mod material;
pub mod ray;
pub mod rng;
pub mod vec3;
