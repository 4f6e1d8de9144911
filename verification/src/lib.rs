//! Verified control core for slow-roll inflation observables.
//!
//! The numerical work (potentials, quadrature sums, midpoints) is floating-point
//! arithmetic carried out by the caller. This crate holds everything around it
//! that can be decided exactly: the order of binary64 values, parameter tables,
//! the potential factory, scan grids, the Simpson refinement schedule and node
//! weights, and the bracketing decisions of the two root searches. Real values
//! cross the boundary as IEEE-754 binary64 bit patterns.

pub mod bisect;
pub mod calculation;
pub mod config;
pub mod models;
pub mod params;
pub mod quadrature;
pub mod scalar;
