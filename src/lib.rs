//! The decisions of a stochastic path tracer, on integers.
//!
//! - `scene`: which root of a sphere's quadratic is hit, and which member of
//!   a scene is hit first, over order keys of ray parameters.
//! - `integrator`: the bounce budget of the recursive radiance integrator and
//!   how a path ends.
//! - `ppm`: the plain-text P3 image that quantized pixels are written to.
pub mod integrator;
pub mod ppm;
pub mod scene;
