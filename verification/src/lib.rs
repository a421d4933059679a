//! A verified core for a 2D arcade simulation in the style of Asteroids.
//!
//! The library models the per-tick pipeline of the game: ship control,
//! weapon cooldown and projectile spawning, motion integration with
//! boundary reflection, projectile lifetimes, and pairwise circle
//! collision resolution with its score effects.  All coordinates are
//! fixed-point integers; the host chooses the scale and supplies the
//! trigonometry-derived heading vectors, so that no floating-point
//! arithmetic enters the verified core.

pub mod math;
pub mod entities;
pub mod world;
pub mod collision;
pub mod laws;
