//! Decision logic of a Monte-Carlo path tracer over spheres.
//!
//! The floating-point geometry (vectors, ray–sphere roots, scattering directions,
//! the sky gradient) is computed by the caller; this library holds the choices
//! that sit between those computations and proves them: which root of the
//! ray–sphere quadratic is the hit, and how a path of bounces ends.
pub mod hit;
pub mod integrator;
pub mod material;
