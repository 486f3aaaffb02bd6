//! A verified two-dimensional three-body gravity simulator.
//!
//! Scalar state (masses, positions, velocities) is carried as IEEE-754
//! binary64 bit patterns in `u64` values; the arithmetic itself sits
//! behind a small set of trusted wrappers in [`fp`]. The integration
//! engine in [`engine`] and the trajectory recorder in [`recorder`] are
//! verified against exact contracts over that model: each contract pins
//! every intermediate operation of a step, so the produced trajectory is
//! a function of the initial conditions and parameters alone.

pub mod engine;
pub mod fp;
pub mod recorder;
