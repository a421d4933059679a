//! The simulation world and the per-tick phase functions.
//!
//! A tick runs its phases in a fixed order: input application, thrust,
//! weapon spawn, motion integration (with boundary reflection), lifetime
//! advancement and removal, then collision resolution.  A projectile
//! whose lifetime expires in a tick is removed before collisions are
//! evaluated, so it cannot score in that same tick; this is the
//! documented ordering choice of this core.

use vstd::prelude::*;
use crate::math::{
    Vec2, COORD_LIMIT, clamped, vadd, cadd, vec_add, cmul_dt, wrap1, wrap_coord,
    count_down, tick_down,
};
use crate::entities::{Config, Intents, Ship, Bullet, Asteroid};

verus! {

/// The mathematical model of a [`World`]: the same data over `Seq` and `int`.
pub ghost struct WorldModel {
    pub ship: Option<Ship>,
    pub bullets: Seq<Bullet>,
    pub asteroids: Seq<Asteroid>,
    pub score: int,
}

/// The whole simulation state owned by the tick driver.
pub struct World {
    pub config: Config,
    /// At most one ship exists; it is destroyed permanently on collision.
    pub ship: Option<Ship>,
    pub bullets: Vec<Bullet>,
    pub asteroids: Vec<Asteroid>,
    pub score: i64,
}

impl View for World {
    type V = WorldModel;

    open spec fn view(&self) -> WorldModel {
        WorldModel {
            ship: self.ship,
            bullets: self.bullets@,
            asteroids: self.asteroids@,
            score: self.score as int,
        }
    }
}

pub open spec fn ship_wf_opt(s: Option<Ship>) -> bool {
    match s {
        Some(sh) => sh.wf(),
        None => true,
    }
}

impl WorldModel {
    /// Every entity is within the saturation bounds and every projectile's
    /// elapsed time is within its lifetime.
    pub open spec fn wf(self) -> bool {
        &&& ship_wf_opt(self.ship)
        &&& forall|i: int| 0 <= i < self.bullets.len() ==> (#[trigger] self.bullets[i]).wf()
        &&& forall|i: int|
            0 <= i < self.asteroids.len() ==> (#[trigger] self.asteroids[i]).wf()
        &&& -(COORD_LIMIT as int) <= self.score <= COORD_LIMIT as int
    }
}

// ---------------------------------------------------------------------------
// Phase specifications
// ---------------------------------------------------------------------------

/// The control state machine on one ship: turn by the configured rate for
/// each held direction (both may apply), then record the thrust and fire
/// flags for this tick.
pub open spec fn ship_after_input(s: Ship, input: Intents, cfg: Config) -> Ship {
    let a1 = clamped(s.angle + if input.turn_left { cfg.turn_rate as int } else { 0 });
    let a2 = clamped(a1 - if input.turn_right { cfg.turn_rate as int } else { 0 });
    Ship { angle: a2 as i64, thrusting: input.thrust, fire_intent: input.fire, ..s }
}

/// Input application: updates the ship's control state; everything else is
/// untouched.
pub open spec fn input_step(m: WorldModel, input: Intents, cfg: Config) -> WorldModel {
    match m.ship {
        Some(s) => WorldModel { ship: Some(ship_after_input(s, input, cfg)), ..m },
        None => m,
    }
}

/// Thrust: while the thrust flag is held, the host-supplied acceleration
/// vector (thrust magnitude times the facing direction) is added to the
/// ship's velocity; velocity accumulates without any speed cap.
pub open spec fn thrust_step(m: WorldModel, thrust_vel: Vec2) -> WorldModel {
    match m.ship {
        Some(s) => if s.thrusting {
            WorldModel { ship: Some(Ship { vel: vadd(s.vel, thrust_vel), ..s }), ..m }
        } else {
            m
        },
        None => m,
    }
}

/// Weapon system: the cooldown always counts down by `dt` (clamped at
/// zero); if fire intent is held and the countdown has reached zero, one
/// projectile spawns at the ship's position with the ship's velocity plus
/// the host-supplied muzzle vector, and the cooldown resets to the
/// configured delay.  Intent without a ready cooldown is a silent no-op.
pub open spec fn shoot_step(m: WorldModel, dt: u64, shot_vel: Vec2, cfg: Config) -> WorldModel {
    match m.ship {
        None => m,
        Some(s) => {
            let cd = count_down(s.cooldown as int, dt);
            if s.fire_intent && cd == 0 {
                WorldModel {
                    ship: Some(Ship { cooldown: cfg.fire_delay, ..s }),
                    bullets: m.bullets.push(
                        Bullet {
                            pos: s.pos,
                            vel: vadd(s.vel, shot_vel),
                            elapsed: 0,
                            lifetime: cfg.bullet_lifetime,
                        },
                    ),
                    ..m
                }
            } else {
                WorldModel { ship: Some(Ship { cooldown: cd as u64, ..s }), ..m }
            }
        }
    }
}

/// One integration step of a point: translate by velocity times elapsed
/// time, then reflect each axis that left the viewport.
pub open spec fn moved_vec(p: Vec2, v: Vec2, dt: u64, hw: i64, hh: i64) -> Vec2 {
    Vec2 {
        x: wrap1(clamped(p.x + clamped(v.x as int * dt as int)), hw as int) as i64,
        y: wrap1(clamped(p.y + clamped(v.y as int * dt as int)), hh as int) as i64,
    }
}

pub open spec fn moved_ship(s: Ship, dt: u64, hw: i64, hh: i64) -> Ship {
    Ship { pos: moved_vec(s.pos, s.vel, dt, hw, hh), ..s }
}

pub open spec fn moved_bullet(b: Bullet, dt: u64, hw: i64, hh: i64) -> Bullet {
    Bullet { pos: moved_vec(b.pos, b.vel, dt, hw, hh), ..b }
}

pub open spec fn moved_asteroid(a: Asteroid, dt: u64, hw: i64, hh: i64) -> Asteroid {
    Asteroid { pos: moved_vec(a.pos, a.vel, dt, hw, hh), ..a }
}

/// Motion integration: every movable entity advances and wraps; velocities
/// and all other fields are untouched.
pub open spec fn motion_step(m: WorldModel, dt: u64, hw: i64, hh: i64) -> WorldModel {
    WorldModel {
        ship: match m.ship {
            Some(s) => Some(moved_ship(s, dt, hw, hh)),
            None => None,
        },
        bullets: m.bullets.map_values(|b: Bullet| moved_bullet(b, dt, hw, hh)),
        asteroids: m.asteroids.map_values(|a: Asteroid| moved_asteroid(a, dt, hw, hh)),
        ..m
    }
}

/// Elapsed time of a lifetime after one tick, clamped at the duration.
pub open spec fn advanced_elapsed(e: u64, dur: u64, dt: u64) -> int {
    if e + dt >= dur {
        dur as int
    } else {
        e as int + dt as int
    }
}

pub open spec fn aged_bullet(b: Bullet, dt: u64) -> Bullet {
    Bullet { elapsed: advanced_elapsed(b.elapsed, b.lifetime, dt) as u64, ..b }
}

/// A projectile expires exactly when its elapsed time has reached its
/// configured lifetime.
pub open spec fn expired(b: Bullet) -> bool {
    b.elapsed >= b.lifetime
}

/// The projectiles that remain after advancing every lifetime by `dt` and
/// removing the expired ones, keeping their stored order.
pub open spec fn survivors(bs: Seq<Bullet>, dt: u64) -> Seq<Bullet>
    decreases bs.len(),
{
    if bs.len() == 0 {
        Seq::empty()
    } else {
        survivors(bs.drop_last(), dt) + if expired(aged_bullet(bs.last(), dt)) {
            Seq::empty()
        } else {
            seq![aged_bullet(bs.last(), dt)]
        }
    }
}

/// Lifetime tracking: projectiles age by `dt` and expired ones are
/// removed, in the same tick, before collisions are evaluated.
pub open spec fn lifetime_step(m: WorldModel, dt: u64) -> WorldModel {
    WorldModel { bullets: survivors(m.bullets, dt), ..m }
}

/// One whole simulation tick, phases in their required order: input
/// application, thrust, weapon spawn, motion integration with wrapping,
/// lifetime removal, then collision resolution with its score effects.
pub open spec fn tick_spec(
    m: WorldModel,
    cfg: Config,
    input: Intents,
    thrust_vel: Vec2,
    shot_vel: Vec2,
    dt: u64,
    hw: i64,
    hh: i64,
) -> WorldModel {
    let m1 = input_step(m, input, cfg);
    let m2 = thrust_step(m1, thrust_vel);
    let m3 = shoot_step(m2, dt, shot_vel, cfg);
    let m4 = motion_step(m3, dt, hw, hh);
    let m5 = lifetime_step(m4, dt);
    crate::collision::collide_step(m5, cfg)
}

// ---------------------------------------------------------------------------
// Executable phases
// ---------------------------------------------------------------------------

/// Advance one point by its velocity and reflect it at the viewport edges.
pub fn move_point(p: Vec2, v: Vec2, dt: u64, hw: i64, hh: i64) -> (r: Vec2)
    requires
        p.wf(),
        v.wf(),
        0 <= hw,
        0 <= hh,
    ensures
        r == moved_vec(p, v, dt, hw, hh),
        r.wf(),
{
    let nx = wrap_coord(cadd(p.x, cmul_dt(v.x, dt)), hw);
    let ny = wrap_coord(cadd(p.y, cmul_dt(v.y, dt)), hh);
    Vec2 { x: nx, y: ny }
}

impl World {
    pub open spec fn wf(self) -> bool {
        self@.wf() && self.config.wf()
    }

    /// A fresh world with no entities and a zero score.
    pub fn new(config: Config) -> (w: World)
        requires
            config.wf(),
        ensures
            w.wf(),
            w.config == config,
            w@.ship is None,
            w@.bullets == Seq::<Bullet>::empty(),
            w@.asteroids == Seq::<Asteroid>::empty(),
            w@.score == 0,
    {
        let w = World {
            config,
            ship: None,
            bullets: Vec::new(),
            asteroids: Vec::new(),
            score: 0,
        };
        proof {
            assert(w@.bullets =~= Seq::<Bullet>::empty());
            assert(w@.asteroids =~= Seq::<Asteroid>::empty());
        }
        w
    }

    /// Place the player's ship, facing angle zero with a ready weapon.
    pub fn spawn_ship(&mut self, pos: Vec2, vel: Vec2)
        requires
            old(self).wf(),
            pos.wf(),
            vel.wf(),
        ensures
            final(self).wf(),
            final(self).config == old(self).config,
            final(self)@ == (WorldModel {
                ship: Some(
                    Ship {
                        pos,
                        vel,
                        angle: 0,
                        thrusting: false,
                        fire_intent: false,
                        cooldown: 0,
                    },
                ),
                ..old(self)@
            }),
    {
        self.ship = Some(
            Ship { pos, vel, angle: 0, thrusting: false, fire_intent: false, cooldown: 0 },
        );
    }

    /// Append one asteroid; its radius never changes afterwards.
    pub fn spawn_asteroid(&mut self, pos: Vec2, vel: Vec2, radius: i64)
        requires
            old(self).wf(),
            pos.wf(),
            vel.wf(),
            0 <= radius as int <= COORD_LIMIT as int,
        ensures
            final(self).wf(),
            final(self).config == old(self).config,
            final(self)@ == (WorldModel {
                asteroids: old(self)@.asteroids.push(Asteroid { pos, vel, radius }),
                ..old(self)@
            }),
    {
        self.asteroids.push(Asteroid { pos, vel, radius });
    }

    /// Whether a candidate asteroid position keeps the configured
    /// clearance from a ship position: the distance between the centres
    /// must exceed the clearance plus the asteroid's radius.  The host
    /// draws random candidates and keeps the first that satisfies this.
    pub fn asteroid_spawn_clear(&self, pos: Vec2, ship_pos: Vec2, radius: i64) -> (r: bool)
        requires
            self.wf(),
            pos.wf(),
            ship_pos.wf(),
            0 <= radius as int <= COORD_LIMIT as int,
        ensures
            r == crate::math::circles_apart(
                pos,
                ship_pos,
                radius as int + self.config.clear_radius as int,
            ),
    {
        let rsum = radius + self.config.clear_radius;
        crate::math::check_apart(pos, ship_pos, rsum)
    }

    /// The ship's facing angle after this tick's turn input, if a ship
    /// exists.  The host reads it to compute the heading vectors it
    /// passes to [`World::apply_thrust`] and [`World::shoot`].
    pub fn angle_after_turn(&self, input: Intents) -> (r: Option<i64>)
        requires
            self.wf(),
        ensures
            match self@.ship {
                Some(s) => r == Some(ship_after_input(s, input, self.config).angle),
                None => r is None,
            },
    {
        match self.ship {
            None => None,
            Some(s) => {
                let a1 = cadd(s.angle, if input.turn_left { self.config.turn_rate } else { 0 });
                let a2 = cadd(a1, if input.turn_right { -self.config.turn_rate } else { 0 });
                Some(a2)
            }
        }
    }

    /// Input application: turn the ship and record this tick's thrust and
    /// fire flags.
    pub fn handle_input(&mut self, input: Intents)
        requires
            old(self).wf(),
        ensures
            final(self).wf(),
            final(self).config == old(self).config,
            final(self)@ == input_step(old(self)@, input, old(self).config),
    {
        let cfg = self.config;
        match self.ship {
            None => {}
            Some(s) => {
                let a1 = cadd(s.angle, if input.turn_left { cfg.turn_rate } else { 0 });
                let a2 = cadd(a1, if input.turn_right { -cfg.turn_rate } else { 0 });
                self.ship = Some(
                    Ship { angle: a2, thrusting: input.thrust, fire_intent: input.fire, ..s },
                );
            }
        }
    }

    /// Thrust: add the host-supplied acceleration vector to the ship's
    /// velocity while the thrust flag is held.
    pub fn apply_thrust(&mut self, thrust_vel: Vec2)
        requires
            old(self).wf(),
        ensures
            final(self).wf(),
            final(self).config == old(self).config,
            final(self)@ == thrust_step(old(self)@, thrust_vel),
    {
        match self.ship {
            None => {}
            Some(s) => {
                if s.thrusting {
                    self.ship = Some(Ship { vel: vec_add(s.vel, thrust_vel), ..s });
                }
            }
        }
    }

    /// Weapon system: advance the cooldown and, when fire intent meets a
    /// ready cooldown, spawn one projectile and reset the cooldown to the
    /// configured delay.
    pub fn shoot(&mut self, dt: u64, shot_vel: Vec2)
        requires
            old(self).wf(),
        ensures
            final(self).wf(),
            final(self).config == old(self).config,
            final(self)@ == shoot_step(old(self)@, dt, shot_vel, old(self).config),
    {
        match self.ship {
            None => {}
            Some(s) => {
                let cd = tick_down(s.cooldown, dt);
                if s.fire_intent && cd == 0 {
                    self.ship = Some(Ship { cooldown: self.config.fire_delay, ..s });
                    let b = Bullet {
                        pos: s.pos,
                        vel: vec_add(s.vel, shot_vel),
                        elapsed: 0,
                        lifetime: self.config.bullet_lifetime,
                    };
                    self.bullets.push(b);
                } else {
                    self.ship = Some(Ship { cooldown: cd, ..s });
                }
            }
        }
    }

    /// Motion integration: advance every entity by its velocity over `dt`
    /// and reflect positions at the viewport half-extents.
    pub fn move_objects(&mut self, dt: u64, half_width: i64, half_height: i64)
        requires
            old(self).wf(),
            0 <= half_width,
            0 <= half_height,
        ensures
            final(self).wf(),
            final(self).config == old(self).config,
            final(self)@ == motion_step(old(self)@, dt, half_width, half_height),
    {
        let ghost m0 = self@;
        match self.ship {
            None => {}
            Some(s) => {
                self.ship = Some(Ship { pos: move_point(s.pos, s.vel, dt, half_width, half_height), ..s });
            }
        }

        let nb = self.bullets.len();
        let mut new_bullets: Vec<Bullet> = Vec::new();
        let mut i: usize = 0;
        while i < nb
            invariant
                0 <= i <= nb,
                nb == self.bullets.len(),
                self.bullets@ == m0.bullets,
                0 <= half_width,
                0 <= half_height,
                forall|k: int| 0 <= k < nb ==> (#[trigger] m0.bullets[k]).wf(),
                new_bullets@.len() == i,
                forall|k: int|
                    0 <= k < i ==> #[trigger] new_bullets@[k] == moved_bullet(
                        m0.bullets[k],
                        dt,
                        half_width,
                        half_height,
                    ),
            decreases nb - i,
        {
            let b = self.bullets[i];
            new_bullets.push(Bullet { pos: move_point(b.pos, b.vel, dt, half_width, half_height), ..b });
            i += 1;
        }
        self.bullets = new_bullets;

        let na = self.asteroids.len();
        let mut new_asteroids: Vec<Asteroid> = Vec::new();
        let mut j: usize = 0;
        while j < na
            invariant
                0 <= j <= na,
                na == self.asteroids.len(),
                self.asteroids@ == m0.asteroids,
                0 <= half_width,
                0 <= half_height,
                forall|k: int| 0 <= k < na ==> (#[trigger] m0.asteroids[k]).wf(),
                new_asteroids@.len() == j,
                forall|k: int|
                    0 <= k < j ==> #[trigger] new_asteroids@[k] == moved_asteroid(
                        m0.asteroids[k],
                        dt,
                        half_width,
                        half_height,
                    ),
            decreases na - j,
        {
            let a = self.asteroids[j];
            new_asteroids.push(
                Asteroid { pos: move_point(a.pos, a.vel, dt, half_width, half_height), ..a },
            );
            j += 1;
        }
        self.asteroids = new_asteroids;

        proof {
            assert(self@.bullets =~= motion_step(m0, dt, half_width, half_height).bullets);
            assert(self@.asteroids =~= motion_step(m0, dt, half_width, half_height).asteroids);
        }
    }

    /// Lifetime tracking: age every projectile by `dt` and remove the
    /// expired ones before collisions are evaluated this tick.
    pub fn despawn_timed_out_entities(&mut self, dt: u64)
        requires
            old(self).wf(),
        ensures
            final(self).wf(),
            final(self).config == old(self).config,
            final(self)@ == lifetime_step(old(self)@, dt),
    {
        let ghost m0 = self@;
        let nb = self.bullets.len();
        let mut kept: Vec<Bullet> = Vec::new();
        let mut i: usize = 0;
        while i < nb
            invariant
                0 <= i <= nb,
                nb == self.bullets.len(),
                self.bullets@ == m0.bullets,
                forall|k: int| 0 <= k < nb ==> (#[trigger] m0.bullets[k]).wf(),
                kept@ == survivors(m0.bullets.take(i as int), dt),
                forall|k: int| 0 <= k < kept@.len() ==> (#[trigger] kept@[k]).wf(),
            decreases nb - i,
        {
            let b = self.bullets[i];
            let aged_dur: u64 = if dt >= b.lifetime - b.elapsed {
                b.lifetime
            } else {
                b.elapsed + dt
            };
            let nbv = Bullet { elapsed: aged_dur, ..b };
            proof {
                assert(nbv == aged_bullet(m0.bullets[i as int], dt));
                assert(m0.bullets.take(i as int + 1).drop_last() =~= m0.bullets.take(i as int));
                assert(m0.bullets.take(i as int + 1).last() == m0.bullets[i as int]);
            }
            if nbv.elapsed < nbv.lifetime {
                kept.push(nbv);
            }
            proof {
                assert(kept@ =~= survivors(m0.bullets.take(i as int + 1), dt));
            }
            i += 1;
        }
        proof {
            assert(m0.bullets.take(nb as int) =~= m0.bullets);
        }
        self.bullets = kept;
    }

    /// Run one whole simulation tick.  The host samples the input flags
    /// once, computes the two heading vectors (thrust magnitude and
    /// bullet speed, each times the unit vector of the post-turn facing
    /// angle), measures `dt`, and reads the viewport half-extents.
    pub fn tick(
        &mut self,
        input: Intents,
        thrust_vel: Vec2,
        shot_vel: Vec2,
        dt: u64,
        half_width: i64,
        half_height: i64,
    )
        requires
            old(self).wf(),
            0 <= half_width,
            0 <= half_height,
        ensures
            final(self).wf(),
            final(self).config == old(self).config,
            final(self)@ == tick_spec(
                old(self)@,
                old(self).config,
                input,
                thrust_vel,
                shot_vel,
                dt,
                half_width,
                half_height,
            ),
    {
        self.handle_input(input);
        self.apply_thrust(thrust_vel);
        self.shoot(dt, shot_vel);
        self.move_objects(dt, half_width, half_height);
        self.despawn_timed_out_entities(dt);
        self.check_collisions();
    }
}

} // verus!
