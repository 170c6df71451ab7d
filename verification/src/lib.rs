//! Piecewise cubic-Bezier path representation and the sampling pipeline that
//! turns a sparse sequence of control points into dense, uniformly spaced
//! positions and velocities along the path.
//!
//! Coordinates are exact integers: an anchor or control offset is a pair of
//! `i64` components, the parameter along a segment is the rational `step/res`,
//! and evaluated positions and velocities are returned as exact integer
//! numerators over the fixed denominators `res^3` and `res^2`. A host that
//! works in floating point converts at the boundary (for example by scaling
//! its coordinates to a fixed-point grid).

pub mod curve;
pub mod eval;
pub mod flatten;
pub mod laws;
pub mod sample;
pub mod vec2;
pub mod windows;
