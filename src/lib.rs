//! Per-tick simulation core of a Pong game: fixed-timestep motion,
//! axis-aligned collision classification, reflection with a bounded
//! perturbation, and scoring.
//!
//! Quantities are fixed-point integers: lengths in hundred-thousandths of a
//! world unit, velocities in hundredths of a world unit per second, and time in
//! milliseconds, so that a velocity times a duration is exactly a length.

pub mod arena;
pub mod collision;
pub mod components;
pub mod motion;
pub mod paddle;
pub mod timestep;
