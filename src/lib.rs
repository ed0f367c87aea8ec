//! Escape-time fractal fields over a rectangle of the complex plane,
//! computed sequentially or on a scoped worker pool, with a colour ramp
//! and a strong/weak scaling benchmark.
//!
//! Coordinates are fixed-point integers: a value `v` stands for the real
//! number `v / SCALE`.

pub mod escape;
pub mod viewport;
pub mod engine;
pub mod color;
pub mod stats;
pub mod scaling;
