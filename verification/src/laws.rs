//! The laws of the simulation, stated and proved over the phase
//! specifications: boundary wrapping, cooldown behaviour, the fire-rate
//! bound, lifetime termination, collision symmetry, and score
//! conservation.

use vstd::prelude::*;
use crate::math::{COORD_LIMIT, clamped, wrap1, count_down};
use crate::entities::{Config, Ship, Bullet, Asteroid, Intents};
use crate::math::Vec2;
use crate::world::{
    WorldModel, input_step, thrust_step, shoot_step, motion_step, lifetime_step, moved_ship,
    moved_bullet, moved_asteroid, aged_bullet, expired,
};
use crate::collision::{
    resolve, resolve_from, collide_step, first_live_hit, count_true,
    bullet_hits_asteroid, asteroid_hits_ship,
};

verus! {

/// The magnitude of an integer.
pub open spec fn mag(v: int) -> int {
    if v >= 0 {
        v
    } else {
        -v
    }
}

/// Wrap invariant: a coordinate strictly outside the viewport half-extent
/// leaves the wrap step with its sign flipped and its magnitude
/// unchanged; one inside is untouched.
pub proof fn lemma_wrap_invariant(x: int, h: int)
    requires
        0 <= h,
    ensures
        (x < -h || x > h) ==> wrap1(x, h) == -x,
        mag(wrap1(x, h)) == mag(x),
        (-h <= x <= h) ==> wrap1(x, h) == x,
{
}

/// Wrapping moves only the position: motion integration leaves every
/// entity's velocity — and all its other fields — unchanged.
pub proof fn lemma_motion_preserves_velocity(
    s: Ship,
    b: Bullet,
    a: Asteroid,
    dt: u64,
    hw: i64,
    hh: i64,
)
    ensures
        moved_ship(s, dt, hw, hh).vel == s.vel,
        moved_ship(s, dt, hw, hh).angle == s.angle,
        moved_ship(s, dt, hw, hh).cooldown == s.cooldown,
        moved_bullet(b, dt, hw, hh).vel == b.vel,
        moved_bullet(b, dt, hw, hh).elapsed == b.elapsed,
        moved_bullet(b, dt, hw, hh).lifetime == b.lifetime,
        moved_asteroid(a, dt, hw, hh).vel == a.vel,
        moved_asteroid(a, dt, hw, hh).radius == a.radius,
{
}

/// Cooldown monotonicity: the countdown never goes below zero, and a tick
/// on which fire intent meets a ready countdown resets the cooldown to
/// exactly the configured delay.
pub proof fn lemma_cooldown(m: WorldModel, dt: u64, shot_vel: Vec2, cfg: Config)
    ensures
        forall|c: int| #[trigger] count_down(c, dt) >= 0,
        (match m.ship {
            Some(s) => (s.fire_intent && count_down(s.cooldown as int, dt) == 0)
                ==> (match shoot_step(m, dt, shot_vel, cfg).ship {
                Some(s2) => s2.cooldown == cfg.fire_delay,
                None => false,
            }),
            None => true,
        }),
        (match m.ship {
            Some(s) => (!s.fire_intent || count_down(s.cooldown as int, dt) != 0)
                ==> (match shoot_step(m, dt, shot_vel, cfg).ship {
                Some(s2) => s2.cooldown as int == count_down(s.cooldown as int, dt),
                None => false,
            }),
            None => true,
        }),
{
}

/// The sum of a sequence of elapsed times.
pub open spec fn sum_of(dts: Seq<u64>) -> int
    decreases dts.len(),
{
    if dts.len() == 0 {
        0
    } else {
        sum_of(dts.drop_last()) + dts.last()
    }
}

/// The cooldown after `i` ticks of pure countdown from `c0`, which is how
/// the weapon system evolves the cooldown on every tick that does not
/// fire.
pub open spec fn cooldown_run(c0: u64, dts: Seq<u64>, i: int) -> int
    decreases i,
{
    if i <= 0 {
        c0 as int
    } else {
        count_down(cooldown_run(c0, dts, i - 1), dts[i - 1])
    }
}

proof fn lemma_cooldown_run_lower(c0: u64, dts: Seq<u64>, i: int)
    requires
        0 <= i <= dts.len(),
    ensures
        cooldown_run(c0, dts, i) >= c0 - sum_of(dts.take(i)),
        cooldown_run(c0, dts, i) >= 0,
    decreases i,
{
    if i > 0 {
        lemma_cooldown_run_lower(c0, dts, i - 1);
        assert(dts.take(i).drop_last() =~= dts.take(i - 1));
        assert(dts.take(i).last() == dts[i - 1]);
    }
}

/// Fire-rate bound: a weapon whose cooldown was just reset to the delay
/// `d` cannot be ready again until the elapsed tick times sum to at least
/// `d`.  With continuous fire intent a shot happens exactly on a tick
/// whose countdown reaches zero, so at most one projectile spawns per `d`
/// time units of simulated time.
pub proof fn lemma_fire_rate_bound(d: u64, dts: Seq<u64>, k: int)
    requires
        0 <= k <= dts.len(),
        cooldown_run(d, dts, k) == 0,
    ensures
        sum_of(dts.take(k)) >= d,
{
    lemma_cooldown_run_lower(d, dts, k);
}

/// The world after `i` ticks of the weapon system, with the same muzzle
/// vector each tick.
pub open spec fn shoot_run(
    m: WorldModel,
    dts: Seq<u64>,
    shot_vel: Vec2,
    cfg: Config,
    i: int,
) -> WorldModel
    decreases i,
{
    if i <= 0 {
        m
    } else {
        shoot_step(shoot_run(m, dts, shot_vel, cfg, i - 1), dts[i - 1], shot_vel, cfg)
    }
}

/// The weapon system spawned a projectile on tick `i` of the run.
pub open spec fn fired_at(m: WorldModel, dts: Seq<u64>, shot_vel: Vec2, cfg: Config, i: int) -> bool {
    shoot_run(m, dts, shot_vel, cfg, i + 1).bullets.len() > shoot_run(
        m,
        dts,
        shot_vel,
        cfg,
        i,
    ).bullets.len()
}

proof fn lemma_shoot_run_cooldown(
    m: WorldModel,
    dts: Seq<u64>,
    shot_vel: Vec2,
    cfg: Config,
    i: int,
)
    requires
        0 <= i <= dts.len(),
        m.ship matches Some(s) && s.fire_intent,
        forall|j: int| 0 <= j < i ==> !fired_at(m, dts, shot_vel, cfg, j),
    ensures
        ({
            let mi = shoot_run(m, dts, shot_vel, cfg, i);
            &&& mi.bullets == m.bullets
            &&& (match (mi.ship, m.ship) {
                (Some(si), Some(s)) => si.fire_intent && si.cooldown as int == cooldown_run(
                    s.cooldown,
                    dts,
                    i,
                ),
                _ => false,
            })
        }),
    decreases i,
{
    if i > 0 {
        lemma_shoot_run_cooldown(m, dts, shot_vel, cfg, i - 1);
        let prev = shoot_run(m, dts, shot_vel, cfg, i - 1);
        let here = shoot_run(m, dts, shot_vel, cfg, i);
        assert(!fired_at(m, dts, shot_vel, cfg, i - 1));
        if count_down(prev.ship.unwrap().cooldown as int, dts[i - 1]) == 0 {
            // firing would have grown the projectile store
            assert(here.bullets.len() == prev.bullets.len() + 1);
            assert(false);
        }
    }
}

/// Fire-rate bound, stated of the weapon system itself: starting right
/// after a shot (cooldown at the full delay, fire intent held), if the
/// next shot of the run happens on tick `k`, then the elapsed times of
/// ticks `0..=k` sum to at least the configured delay.  At most one
/// projectile spawns per delay of simulated time.
pub proof fn lemma_fire_rate_of_weapon(
    m: WorldModel,
    dts: Seq<u64>,
    shot_vel: Vec2,
    cfg: Config,
    k: int,
)
    requires
        0 <= k < dts.len(),
        m.ship matches Some(s) && s.fire_intent && s.cooldown == cfg.fire_delay,
        forall|j: int| 0 <= j < k ==> !fired_at(m, dts, shot_vel, cfg, j),
        fired_at(m, dts, shot_vel, cfg, k),
    ensures
        sum_of(dts.take(k + 1)) >= cfg.fire_delay,
{
    lemma_shoot_run_cooldown(m, dts, shot_vel, cfg, k);
    let mk = shoot_run(m, dts, shot_vel, cfg, k);
    // the spawn on tick k means the countdown reached zero there
    if count_down(mk.ship.unwrap().cooldown as int, dts[k]) != 0 {
        assert(shoot_run(m, dts, shot_vel, cfg, k + 1).bullets == mk.bullets);
        assert(false);
    }
    assert(cooldown_run(cfg.fire_delay, dts, k + 1) == 0);
    lemma_fire_rate_bound(cfg.fire_delay, dts, k + 1);
}

/// A projectile after `i` ticks of lifetime advancement.
pub open spec fn bullet_after_ticks(b: Bullet, dts: Seq<u64>, i: int) -> Bullet
    decreases i,
{
    if i <= 0 {
        b
    } else {
        aged_bullet(bullet_after_ticks(b, dts, i - 1), dts[i - 1])
    }
}

/// Lifetime termination: a projectile spawned with zero elapsed time has,
/// after any run of ticks, lived exactly the accumulated tick time capped
/// at its lifetime; it is expired — and hence removed by the lifetime
/// step — exactly from the first tick where the accumulated time reaches
/// its lifetime, and never earlier.
pub proof fn lemma_lifetime_termination(b: Bullet, dts: Seq<u64>, i: int)
    requires
        b.elapsed == 0,
        0 <= i <= dts.len(),
    ensures
        bullet_after_ticks(b, dts, i).lifetime == b.lifetime,
        bullet_after_ticks(b, dts, i).elapsed as int == (if sum_of(dts.take(i))
            >= b.lifetime as int {
            b.lifetime as int
        } else {
            sum_of(dts.take(i))
        }),
        expired(bullet_after_ticks(b, dts, i)) <==> sum_of(dts.take(i)) >= b.lifetime as int,
    decreases i,
{
    if i > 0 {
        lemma_lifetime_termination(b, dts, i - 1);
        assert(dts.take(i).drop_last() =~= dts.take(i - 1));
        assert(dts.take(i).last() == dts[i - 1]);
    } else {
        assert(dts.take(0) =~= Seq::<u64>::empty());
    }
}

/// Collision symmetry: with one asteroid and one projectile, overlap
/// removes both and raises the score by exactly one in that tick, while
/// no overlap leaves both untouched and the score unchanged.
pub proof fn lemma_collision_symmetry(a: Asteroid, b: Bullet, cfg: Config)
    ensures
        bullet_hits_asteroid(b, a, cfg) ==> ({
            let r = resolve_from(seq![a], seq![b], None, cfg, 0, seq![true], false);
            r.asteroids.len() == 0 && r.bullet_alive == seq![false] && r.score_delta == 1
        }),
        !bullet_hits_asteroid(b, a, cfg) ==> ({
            let r = resolve_from(seq![a], seq![b], None, cfg, 0, seq![true], false);
            r.asteroids == seq![a] && r.bullet_alive == seq![true] && r.score_delta == 0
        }),
{
    let alive = seq![true];
    if bullet_hits_asteroid(b, a, cfg) {
        assert(first_live_hit(a, seq![b], alive, cfg, 0) == Some(0int));
        let upd = alive.update(0int, false);
        let rest = resolve_from(seq![a], seq![b], None, cfg, 1, upd, false);
        assert(rest.asteroids =~= Seq::<Asteroid>::empty());
        assert(rest.bullet_alive == upd && rest.score_delta == 0);
        let r = resolve_from(seq![a], seq![b], None, cfg, 0, alive, false);
        assert(r.bullet_alive == upd && r.score_delta == 1 && r.asteroids == rest.asteroids);
        assert(upd =~= seq![false]);
    } else {
        assert(first_live_hit(a, seq![b], alive, cfg, 1) is None);
        assert(first_live_hit(a, seq![b], alive, cfg, 0) is None);
        let r = resolve_from(seq![a], seq![b], None, cfg, 0, alive, false);
        let rest = resolve_from(seq![a], seq![b], None, cfg, 1, alive, false);
        assert(rest.asteroids =~= Seq::<Asteroid>::empty());
        assert(r.asteroids =~= seq![a]);
        assert(r.bullet_alive =~= seq![true]);
    }
}

/// The ship counterpart of collision symmetry: with one asteroid, no
/// projectiles and a live ship, overlap removes the asteroid and the
/// ship and lowers the score by exactly one; no overlap leaves all
/// untouched.
pub proof fn lemma_ship_collision(a: Asteroid, s: Ship, cfg: Config)
    ensures
        asteroid_hits_ship(a, s, cfg) ==> ({
            let r = resolve_from(seq![a], Seq::empty(), Some(s), cfg, 0, Seq::empty(), true);
            r.asteroids.len() == 0 && !r.ship_alive && r.score_delta == -1
        }),
        !asteroid_hits_ship(a, s, cfg) ==> ({
            let r = resolve_from(seq![a], Seq::empty(), Some(s), cfg, 0, Seq::empty(), true);
            r.asteroids == seq![a] && r.ship_alive && r.score_delta == 0
        }),
{
    let bullets = Seq::<Bullet>::empty();
    let alive = Seq::<bool>::empty();
    assert(first_live_hit(a, bullets, alive, cfg, 0) is None);
    let rest = resolve_from(seq![a], bullets, Some(s), cfg, 1, alive, true);
    assert(rest.asteroids =~= Seq::<Asteroid>::empty());
    let rest2 = resolve_from(seq![a], bullets, Some(s), cfg, 1, alive, false);
    assert(rest2.asteroids =~= Seq::<Asteroid>::empty());
    if !asteroid_hits_ship(a, s, cfg) {
        let r = resolve_from(seq![a], bullets, Some(s), cfg, 0, alive, true);
        assert(r.asteroids =~= seq![a]);
    }
}

/// Score conservation, part one: no phase but collision resolution
/// touches the score.
pub proof fn lemma_only_collisions_change_score(
    m: WorldModel,
    cfg: Config,
    input: Intents,
    thrust_vel: Vec2,
    shot_vel: Vec2,
    dt: u64,
    hw: i64,
    hh: i64,
)
    ensures
        input_step(m, input, cfg).score == m.score,
        thrust_step(m, thrust_vel).score == m.score,
        shoot_step(m, dt, shot_vel, cfg).score == m.score,
        motion_step(m, dt, hw, hh).score == m.score,
        lifetime_step(m, dt).score == m.score,
        collide_step(m, cfg).score == clamped(m.score + resolve(m, cfg).score_delta),
{
}

proof fn lemma_first_live_hit_some(
    a: Asteroid,
    bullets: Seq<Bullet>,
    alive: Seq<bool>,
    cfg: Config,
    j0: int,
    j: int,
)
    requires
        first_live_hit(a, bullets, alive, cfg, j0) == Some(j),
    ensures
        j0 <= j < bullets.len(),
        alive[j],
        bullet_hits_asteroid(bullets[j], a, cfg),
    decreases bullets.len() - j0,
{
    if 0 <= j0 < bullets.len() {
        if alive[j0] && bullet_hits_asteroid(bullets[j0], a, cfg) {
        } else {
            lemma_first_live_hit_some(a, bullets, alive, cfg, j0 + 1, j);
        }
    }
}

proof fn lemma_count_true_update(mask: Seq<bool>, j: int)
    requires
        0 <= j < mask.len(),
        mask[j],
    ensures
        count_true(mask.update(j, false)) == count_true(mask) - 1,
    decreases mask.len(),
{
    let upd = mask.update(j, false);
    if j == mask.len() - 1 {
        assert(upd.drop_last() =~= mask.drop_last());
    } else {
        assert(upd.drop_last() =~= mask.drop_last().update(j, false));
        lemma_count_true_update(mask.drop_last(), j);
    }
}

proof fn lemma_resolve_delta_decomposed(
    asteroids: Seq<Asteroid>,
    bullets: Seq<Bullet>,
    ship: Option<Ship>,
    cfg: Config,
    i: int,
    alive: Seq<bool>,
    ship_alive: bool,
)
    requires
        alive.len() == bullets.len(),
    ensures
        ({
            let r = resolve_from(asteroids, bullets, ship, cfg, i, alive, ship_alive);
            &&& r.bullet_alive.len() == alive.len()
            &&& r.score_delta == (count_true(alive) - count_true(r.bullet_alive)) - (
            if ship_alive && !r.ship_alive {
                1int
            } else {
                0int
            })
            &&& (!ship_alive ==> !r.ship_alive)
        }),
    decreases asteroids.len() - i,
{
    if i < 0 || i >= asteroids.len() {
    } else {
        let a = asteroids[i];
        match first_live_hit(a, bullets, alive, cfg, 0) {
            Some(j) => {
                lemma_first_live_hit_some(a, bullets, alive, cfg, 0, j);
                lemma_count_true_update(alive, j);
                lemma_resolve_delta_decomposed(
                    asteroids,
                    bullets,
                    ship,
                    cfg,
                    i + 1,
                    alive.update(j, false),
                    ship_alive,
                );
            }
            None => {
                if ship_alive && crate::collision::opt_ship_hit(a, ship, cfg) {
                    lemma_resolve_delta_decomposed(
                        asteroids,
                        bullets,
                        ship,
                        cfg,
                        i + 1,
                        alive,
                        false,
                    );
                } else {
                    lemma_resolve_delta_decomposed(
                        asteroids,
                        bullets,
                        ship,
                        cfg,
                        i + 1,
                        alive,
                        ship_alive,
                    );
                }
            }
        }
    }
}

proof fn lemma_count_true_all(n: int)
    requires
        0 <= n,
    ensures
        crate::collision::all_true(n).len() == n,
        count_true(crate::collision::all_true(n)) == n,
    decreases n,
{
    if n > 0 {
        lemma_count_true_all(n - 1);
        assert(crate::collision::all_true(n).drop_last() =~= crate::collision::all_true(n - 1));
    }
}

/// Score conservation, part two: the resolver's net score delta is
/// exactly the number of projectiles it spent (one per asteroid destroyed
/// by a projectile) minus one if it destroyed the ship.  Together with
/// part one, summing the per-tick deltas of a run reproduces the final
/// score as long as it stays within the saturation bound.
pub proof fn lemma_score_matches_removals(m: WorldModel, cfg: Config)
    ensures
        ({
            let r = resolve(m, cfg);
            r.score_delta == (m.bullets.len() - count_true(r.bullet_alive)) - (
            if (m.ship is Some) && !r.ship_alive {
                1int
            } else {
                0int
            })
        }),
{
    lemma_count_true_all(m.bullets.len() as int);
    lemma_resolve_delta_decomposed(
        m.asteroids,
        m.bullets,
        m.ship,
        cfg,
        0,
        crate::collision::all_true(m.bullets.len() as int),
        m.ship is Some,
    );
}

/// A score within the saturation bound moves by exactly the resolver's
/// delta.
pub proof fn lemma_score_applies_delta(m: WorldModel, cfg: Config)
    ensures
        (-(COORD_LIMIT as int) <= m.score + resolve(m, cfg).score_delta <= COORD_LIMIT as int)
            ==> collide_step(m, cfg).score == m.score + resolve(m, cfg).score_delta,
{
}

} // verus!
