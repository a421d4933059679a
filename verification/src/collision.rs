//! Pairwise collision resolution and its score effects.
//!
//! Each tick every asteroid is compared against every projectile and
//! against the ship.  Removal is eager, first match wins: an asteroid is
//! destroyed by the first still-live projectile that overlaps it (scoring
//! one point), and a projectile spent this way cannot destroy a second
//! asteroid in the same tick.  An asteroid that no projectile touches and
//! that overlaps the still-live ship destroys the ship and itself and
//! costs one point; later asteroids then find no ship to hit.

use vstd::prelude::*;
use crate::math::{Vec2, COORD_LIMIT, clamped, circles_overlap, check_overlap};
use crate::entities::{Config, Ship, Bullet, Asteroid};
use crate::world::{World, WorldModel};

verus! {

/// A projectile and an asteroid collide when the distance between their
/// centres is below the sum of their radii.
pub open spec fn bullet_hits_asteroid(b: Bullet, a: Asteroid, cfg: Config) -> bool {
    circles_overlap(a.pos, b.pos, a.radius as int + cfg.bullet_radius as int)
}

/// An asteroid and the ship collide when the distance between their
/// centres is below the asteroid's radius plus the ship's size.
pub open spec fn asteroid_hits_ship(a: Asteroid, s: Ship, cfg: Config) -> bool {
    circles_overlap(a.pos, s.pos, a.radius as int + cfg.ship_size as int)
}

pub open spec fn opt_ship_hit(a: Asteroid, ship: Option<Ship>, cfg: Config) -> bool {
    match ship {
        Some(s) => asteroid_hits_ship(a, s, cfg),
        None => false,
    }
}

/// The position of the first still-live projectile that hits asteroid
/// `a`, searching from index `j` on; `None` if there is none.
pub open spec fn first_live_hit(
    a: Asteroid,
    bullets: Seq<Bullet>,
    alive: Seq<bool>,
    cfg: Config,
    j: int,
) -> Option<int>
    decreases bullets.len() - j,
{
    if j < 0 || j >= bullets.len() {
        None
    } else if alive[j] && bullet_hits_asteroid(bullets[j], a, cfg) {
        Some(j)
    } else {
        first_live_hit(a, bullets, alive, cfg, j + 1)
    }
}

/// The outcome of one tick of collision resolution.
pub ghost struct Resolution {
    /// The asteroids that survive, in their stored order.
    pub asteroids: Seq<Asteroid>,
    /// For each projectile the scan started with, whether it is still live.
    pub bullet_alive: Seq<bool>,
    /// Whether the ship is still alive.
    pub ship_alive: bool,
    /// The net score change: one up per asteroid destroyed by a
    /// projectile, one down if the ship is destroyed.
    pub score_delta: int,
}

/// Resolve asteroids from index `i` on, given which projectiles are still
/// live and whether the ship still stands.
pub open spec fn resolve_from(
    asteroids: Seq<Asteroid>,
    bullets: Seq<Bullet>,
    ship: Option<Ship>,
    cfg: Config,
    i: int,
    alive: Seq<bool>,
    ship_alive: bool,
) -> Resolution
    decreases asteroids.len() - i,
{
    if i < 0 || i >= asteroids.len() {
        Resolution { asteroids: Seq::empty(), bullet_alive: alive, ship_alive, score_delta: 0 }
    } else {
        let a = asteroids[i];
        match first_live_hit(a, bullets, alive, cfg, 0) {
            Some(j) => {
                let rest = resolve_from(
                    asteroids,
                    bullets,
                    ship,
                    cfg,
                    i + 1,
                    alive.update(j, false),
                    ship_alive,
                );
                Resolution { score_delta: rest.score_delta + 1, ..rest }
            }
            None => {
                if ship_alive && opt_ship_hit(a, ship, cfg) {
                    let rest = resolve_from(asteroids, bullets, ship, cfg, i + 1, alive, false);
                    Resolution { score_delta: rest.score_delta - 1, ..rest }
                } else {
                    let rest = resolve_from(asteroids, bullets, ship, cfg, i + 1, alive, ship_alive);
                    Resolution { asteroids: seq![a] + rest.asteroids, ..rest }
                }
            }
        }
    }
}

/// A mask with `n` entries, all live.
pub open spec fn all_true(n: int) -> Seq<bool> {
    Seq::new(n as nat, |i: int| true)
}

/// Resolve a whole world: every projectile starts live and the ship
/// starts alive when it exists.
pub open spec fn resolve(m: WorldModel, cfg: Config) -> Resolution {
    resolve_from(
        m.asteroids,
        m.bullets,
        m.ship,
        cfg,
        0,
        all_true(m.bullets.len() as int),
        m.ship is Some,
    )
}

/// The elements of `s` whose mask entry is live, in order.
pub open spec fn filter_by_mask(s: Seq<Bullet>, mask: Seq<bool>) -> Seq<Bullet>
    decreases s.len(),
{
    if s.len() == 0 {
        Seq::empty()
    } else {
        filter_by_mask(s.drop_last(), mask.drop_last()) + if mask.len() >= s.len()
            && mask[s.len() - 1] {
            seq![s.last()]
        } else {
            Seq::empty()
        }
    }
}

/// How many mask entries are live.
pub open spec fn count_true(mask: Seq<bool>) -> int
    decreases mask.len(),
{
    if mask.len() == 0 {
        0
    } else {
        count_true(mask.drop_last()) + if mask.last() { 1int } else { 0int }
    }
}

/// Collision resolution as a step on the world model: surviving asteroids
/// and projectiles remain, a destroyed ship is gone, and the score moves
/// by the resolution's net delta (saturating at the coordinate bound).
pub open spec fn collide_step(m: WorldModel, cfg: Config) -> WorldModel {
    let r = resolve(m, cfg);
    WorldModel {
        asteroids: r.asteroids,
        bullets: filter_by_mask(m.bullets, r.bullet_alive),
        ship: if r.ship_alive { m.ship } else { None },
        score: clamped(m.score + r.score_delta),
    }
}

impl World {
    /// Scan every asteroid against every projectile and the ship, remove
    /// what collides (eagerly, first match wins) and apply the score
    /// changes.
    pub fn check_collisions(&mut self)
        requires
            old(self).wf(),
        ensures
            final(self).wf(),
            final(self).config == old(self).config,
            final(self)@ == collide_step(old(self)@, old(self).config),
    {
        let ghost m0 = self@;
        let cfg = self.config;
        let nb = self.bullets.len();
        let na = self.asteroids.len();

        let mut alive: Vec<bool> = Vec::new();
        let mut t: usize = 0;
        while t < nb
            invariant
                t <= nb,
                alive@.len() == t,
                forall|k: int| 0 <= k < t ==> alive@[k] == true,
            decreases nb - t,
        {
            alive.push(true);
            t += 1;
        }
        proof {
            assert(alive@ =~= all_true(nb as int));
        }

        let ship0 = self.ship;
        let mut ship_alive: bool = ship0.is_some();
        let mut kept: Vec<Asteroid> = Vec::new();
        let mut delta: i128 = 0;
        let mut i: usize = 0;
        while i < na
            invariant
                i <= na,
                na == self.asteroids.len(),
                nb == self.bullets.len(),
                self.asteroids@ == m0.asteroids,
                self.bullets@ == m0.bullets,
                self.ship == m0.ship,
                ship0 == m0.ship,
                self.config == cfg,
                self@ == m0,
                m0.wf(),
                cfg.wf(),
                alive@.len() == nb,
                -(i as int) <= delta as int <= i as int,
                forall|k: int| 0 <= k < kept@.len() ==> (#[trigger] kept@[k]).wf(),
                ({
                    let full = resolve_from(
                        m0.asteroids,
                        m0.bullets,
                        m0.ship,
                        cfg,
                        0,
                        all_true(nb as int),
                        m0.ship is Some,
                    );
                    let rest = resolve_from(
                        m0.asteroids,
                        m0.bullets,
                        m0.ship,
                        cfg,
                        i as int,
                        alive@,
                        ship_alive,
                    );
                    &&& full.asteroids == kept@ + rest.asteroids
                    &&& full.bullet_alive == rest.bullet_alive
                    &&& full.ship_alive == rest.ship_alive
                    &&& full.score_delta == delta as int + rest.score_delta
                }),
            decreases na - i,
        {
            let a = self.asteroids[i];
            let rsum = a.radius + cfg.bullet_radius;

            let mut found: Option<usize> = None;
            let mut j: usize = 0;
            while j < nb && found.is_none()
                invariant
                    j <= nb,
                    nb == self.bullets.len(),
                    self.bullets@ == m0.bullets,
                    m0.wf(),
                    cfg.wf(),
                    a.wf(),
                    alive@.len() == nb,
                    rsum as int == a.radius as int + cfg.bullet_radius as int,
                    match found {
                        None => first_live_hit(a, m0.bullets, alive@, cfg, 0)
                            == first_live_hit(a, m0.bullets, alive@, cfg, j as int),
                        Some(jj) => jj < nb && first_live_hit(a, m0.bullets, alive@, cfg, 0)
                            == Some(jj as int),
                    },
                decreases nb - j, (if found is None { 1int } else { 0int }),
            {
                let lv = alive[j];
                if lv && check_overlap(a.pos, self.bullets[j].pos, rsum) {
                    found = Some(j);
                } else {
                    proof {
                        assert(first_live_hit(a, m0.bullets, alive@, cfg, j as int)
                            == first_live_hit(a, m0.bullets, alive@, cfg, j as int + 1));
                    }
                    j += 1;
                }
            }

            proof {
                assert(m0.asteroids[i as int] == a);
            }
            match found {
                Some(jj) => {
                    let ghost alive_before = alive@;
                    alive.set(jj, false);
                    delta = delta + 1;
                    proof {
                        assert(alive@ =~= alive_before.update(jj as int, false));
                    }
                }
                None => {
                    proof {
                        assert(first_live_hit(a, m0.bullets, alive@, cfg, nb as int) is None);
                    }
                    let mut ship_case: bool = false;
                    if ship_alive {
                        match ship0 {
                            Some(s) => {
                                let rsum_s = a.radius + cfg.ship_size;
                                if check_overlap(a.pos, s.pos, rsum_s) {
                                    ship_case = true;
                                }
                            }
                            None => {}
                        }
                    }
                    if ship_case {
                        ship_alive = false;
                        delta = delta - 1;
                    } else {
                        let ghost kept_before = kept@;
                        kept.push(a);
                        proof {
                            assert(kept@ =~= kept_before + seq![a]);
                        }
                    }
                }
            }
            i += 1;
        }

        proof {
            let full = resolve_from(
                m0.asteroids,
                m0.bullets,
                m0.ship,
                cfg,
                0,
                all_true(nb as int),
                m0.ship is Some,
            );
            let rest = resolve_from(
                m0.asteroids,
                m0.bullets,
                m0.ship,
                cfg,
                na as int,
                alive@,
                ship_alive,
            );
            assert(rest.asteroids =~= Seq::<Asteroid>::empty());
            assert(full.asteroids =~= kept@);
            assert(full.bullet_alive == alive@);
            assert(full.ship_alive == ship_alive);
            assert(full.score_delta == delta as int);
        }

        self.asteroids = kept;

        let mut remaining: Vec<Bullet> = Vec::new();
        let mut q: usize = 0;
        while q < nb
            invariant
                q <= nb,
                nb == self.bullets.len(),
                self.bullets@ == m0.bullets,
                alive@.len() == nb,
                m0.wf(),
                remaining@ == filter_by_mask(m0.bullets.take(q as int), alive@.take(q as int)),
                forall|k: int| 0 <= k < remaining@.len() ==> (#[trigger] remaining@[k]).wf(),
            decreases nb - q,
        {
            let lv = alive[q];
            let b = self.bullets[q];
            proof {
                assert(m0.bullets.take(q as int + 1).drop_last() =~= m0.bullets.take(q as int));
                assert(alive@.take(q as int + 1).drop_last() =~= alive@.take(q as int));
            }
            if lv {
                remaining.push(b);
            }
            proof {
                assert(remaining@ =~= filter_by_mask(
                    m0.bullets.take(q as int + 1),
                    alive@.take(q as int + 1),
                ));
            }
            q += 1;
        }
        proof {
            assert(m0.bullets.take(nb as int) =~= m0.bullets);
            assert(alive@.take(nb as int) =~= alive@);
        }
        self.bullets = remaining;

        if !ship_alive {
            self.ship = None;
        }

        let s2: i128 = self.score as i128 + delta;
        let ns: i64 = if s2 > COORD_LIMIT as i128 {
            COORD_LIMIT
        } else if s2 < -(COORD_LIMIT as i128) {
            -COORD_LIMIT
        } else {
            s2 as i64
        };
        self.score = ns;
    }
}

} // verus!
