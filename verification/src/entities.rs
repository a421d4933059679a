//! The simulation's entities and its tunable configuration.

use vstd::prelude::*;
use crate::math::{Vec2, in_range, COORD_LIMIT};

verus! {

/// Tunable constants, fixed at startup by the host.
///
/// Magnitudes that only scale the trigonometric heading vectors (thrust
/// strength, bullet speed, asteroid speed) live with the host, which
/// computes those vectors; the core holds the constants its own rules read.
#[derive(Clone, Copy, PartialEq, Eq, Structural, Debug)]
pub struct Config {
    /// Collision radius of the ship.
    pub ship_size: i64,
    /// Angle units added (left) or subtracted (right) per tick of turning.
    pub turn_rate: i64,
    /// Time units a ship must wait between shots.
    pub fire_delay: u64,
    /// Time units a projectile lives before it is removed.
    pub bullet_lifetime: u64,
    /// Collision radius of a projectile.
    pub bullet_radius: i64,
    /// Extra clearance an asteroid spawn must keep from the ship.
    pub clear_radius: i64,
}

impl Config {
    pub open spec fn wf(self) -> bool {
        &&& 0 <= self.ship_size as int <= COORD_LIMIT as int
        &&& 0 <= self.turn_rate as int <= COORD_LIMIT as int
        &&& 0 <= self.bullet_radius as int <= COORD_LIMIT as int
        &&& 0 <= self.clear_radius as int <= COORD_LIMIT as int
    }
}

/// The raw control flags sampled by the host once per tick.
#[derive(Clone, Copy, PartialEq, Eq, Structural, Debug)]
pub struct Intents {
    pub turn_left: bool,
    pub turn_right: bool,
    pub thrust: bool,
    pub fire: bool,
}

/// The player's ship: its spatial state and its control state machine.
#[derive(Clone, Copy, PartialEq, Eq, Structural, Debug)]
pub struct Ship {
    pub pos: Vec2,
    pub vel: Vec2,
    /// Facing angle in host-chosen angle units; accumulates without
    /// normalisation.
    pub angle: i64,
    /// Set each tick from input; read only by presentation.
    pub thrusting: bool,
    /// Set each tick from input; gates the weapon system.
    pub fire_intent: bool,
    /// Remaining wait before the next shot; counts down to zero.
    pub cooldown: u64,
}

impl Ship {
    pub open spec fn wf(self) -> bool {
        self.pos.wf() && self.vel.wf() && in_range(self.angle)
    }
}

/// A projectile with a bounded lifetime.
#[derive(Clone, Copy, PartialEq, Eq, Structural, Debug)]
pub struct Bullet {
    pub pos: Vec2,
    pub vel: Vec2,
    /// Time lived so far; clamped at `lifetime`.
    pub elapsed: u64,
    /// Total time the projectile may live.
    pub lifetime: u64,
}

impl Bullet {
    pub open spec fn wf(self) -> bool {
        self.pos.wf() && self.vel.wf() && self.elapsed <= self.lifetime
    }
}

/// A drifting rock; its radius is fixed at spawn.
#[derive(Clone, Copy, PartialEq, Eq, Structural, Debug)]
pub struct Asteroid {
    pub pos: Vec2,
    pub vel: Vec2,
    pub radius: i64,
}

impl Asteroid {
    pub open spec fn wf(self) -> bool {
        self.pos.wf() && self.vel.wf() && 0 <= self.radius as int <= COORD_LIMIT as int
    }
}

} // verus!
