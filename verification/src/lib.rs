//! Core of a small real-time agent simulation: a population of point agents
//! spawns at a shared home location, performs an unbounded random walk in
//! velocity space, and is advanced each frame by time-scaled integration.
//!
//! All world-space quantities are fixed-point integers so that every frame
//! update is exact:
//!   - positions are held in micro-units (one unit is 1_000_000),
//!   - velocities in milli-units per second (one unit per second is 1_000),
//!   - frame durations in milliseconds.
//! With these scales, `velocity * frame_ms * time_scale` is itself a position
//! step in micro-units, with no division or rounding anywhere.

pub mod agent;
pub mod arena;
pub mod clock;
pub mod rng;
pub mod sim;
