//! A minimal bouncing-ball simulation core: a point mass advanced by one
//! Euler step per frame inside fixed logical bounds, with axis-aligned
//! reflection, together with a frame counter that refreshes a
//! frames-per-second label once every sixty frames.
//!
//! Coordinates and velocities are held in thousandths of a logical unit,
//! so the whole core is integer arithmetic.

pub mod label;
pub mod motion;
pub mod rng;
pub mod sampler;
pub mod state;
