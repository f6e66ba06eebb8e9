//! Core movement logic for a 2D platformer character: per-tick contact
//! classification, coyote time, jump buffering, variable-height jumps with
//! asymmetric gravity, smoothed horizontal acceleration, and facing updates.
//!
//! All quantities are fixed-point integers in thousandths: positions and
//! heights in milli-units, times in milliseconds, velocities in
//! milli-units per second. This keeps every tick computation exact and
//! free of floating point.

pub mod helpers;
pub mod laws;
pub mod player;
pub mod timer;
pub mod units;
