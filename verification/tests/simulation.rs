use asteroids::entities::{Bullet, Config, Intents};
use asteroids::math::{Vec2, COORD_LIMIT};
use asteroids::world::World;

fn cfg() -> Config {
    Config {
        ship_size: 10,
        turn_rate: 13,
        fire_delay: 500,
        bullet_lifetime: 3000,
        bullet_radius: 1,
        clear_radius: 100,
    }
}

fn v(x: i64, y: i64) -> Vec2 {
    Vec2 { x, y }
}

fn no_input() -> Intents {
    Intents { turn_left: false, turn_right: false, thrust: false, fire: false }
}

#[test]
fn shot_hits_rock() {
    let mut w = World::new(cfg());
    w.spawn_asteroid(v(0, 0), v(0, 0), 20);
    w.bullets.push(Bullet { pos: v(5, 0), vel: v(7, 0), elapsed: 0, lifetime: 3000 });
    w.check_collisions();
    assert_eq!(w.score, 1);
    assert_eq!(w.asteroids.len(), 0);
    assert_eq!(w.bullets.len(), 0);
}

#[test]
fn near_miss() {
    let mut w = World::new(cfg());
    w.spawn_asteroid(v(0, 0), v(0, 0), 20);
    w.bullets.push(Bullet { pos: v(25, 0), vel: v(0, 0), elapsed: 0, lifetime: 3000 });
    w.check_collisions();
    assert_eq!(w.score, 0);
    assert_eq!(w.asteroids.len(), 1);
    assert_eq!(w.bullets.len(), 1);
}

#[test]
fn grazing_contact_does_not_collide() {
    // distance exactly equal to the radius sum is not a collision
    let mut w = World::new(cfg());
    w.spawn_asteroid(v(0, 0), v(0, 0), 20);
    w.bullets.push(Bullet { pos: v(21, 0), vel: v(0, 0), elapsed: 0, lifetime: 3000 });
    w.check_collisions();
    assert_eq!(w.score, 0);
    assert_eq!(w.asteroids.len(), 1);
    assert_eq!(w.bullets.len(), 1);
}

#[test]
fn ship_destroyed() {
    let mut w = World::new(cfg());
    w.spawn_ship(v(0, 0), v(0, 0));
    w.spawn_asteroid(v(15, 0), v(0, 0), 20);
    w.check_collisions();
    assert_eq!(w.score, -1);
    assert!(w.ship.is_none());
    assert_eq!(w.asteroids.len(), 0);
    // the game continues with zero ships: a further tick changes nothing
    w.tick(no_input(), v(0, 0), v(0, 0), 16, 100, 100);
    assert!(w.ship.is_none());
    assert_eq!(w.score, -1);
}

#[test]
fn wrap_reflects_out_of_bounds_x() {
    let mut w = World::new(cfg());
    w.spawn_asteroid(v(90, 0), v(20, 0), 20);
    w.move_objects(1, 100, 100);
    let a = w.asteroids[0];
    assert_eq!(a.pos, v(-110, 0));
    assert_eq!(a.vel, v(20, 0), "wrapping must not change velocity");
}

#[test]
fn wrap_reflects_out_of_bounds_y() {
    let mut w = World::new(cfg());
    w.spawn_asteroid(v(0, -95), v(0, -10), 20);
    w.move_objects(1, 100, 100);
    let a = w.asteroids[0];
    assert_eq!(a.pos, v(0, 105));
    assert_eq!(a.vel, v(0, -10));
}

#[test]
fn no_wrap_at_exact_boundary() {
    let mut w = World::new(cfg());
    w.spawn_asteroid(v(80, 0), v(20, 0), 20);
    w.move_objects(1, 100, 100);
    assert_eq!(w.asteroids[0].pos, v(100, 0));
}

#[test]
fn reflection_oscillates_outside_viewport() {
    // the wrap is a sign flip, not a teleport to the opposite edge: a
    // stationary entity left outside the viewport keeps reflecting
    let mut w = World::new(cfg());
    w.spawn_asteroid(v(150, 0), v(0, 0), 20);
    w.move_objects(1, 100, 100);
    assert_eq!(w.asteroids[0].pos, v(-150, 0));
    w.move_objects(1, 100, 100);
    assert_eq!(w.asteroids[0].pos, v(150, 0));
}

#[test]
fn motion_translates_by_velocity_times_dt() {
    let mut w = World::new(cfg());
    w.spawn_ship(v(1, 2), v(3, -4));
    w.bullets.push(Bullet { pos: v(0, 0), vel: v(5, 5), elapsed: 0, lifetime: 3000 });
    w.move_objects(10, 1000, 1000);
    assert_eq!(w.ship.unwrap().pos, v(31, -38));
    assert_eq!(w.bullets[0].pos, v(50, 50));
}

#[test]
fn turning_accumulates_and_cancels() {
    let mut w = World::new(cfg());
    w.spawn_ship(v(0, 0), v(0, 0));
    let left = Intents { turn_left: true, ..no_input() };
    w.handle_input(left);
    assert_eq!(w.ship.unwrap().angle, 13);
    w.handle_input(left);
    assert_eq!(w.ship.unwrap().angle, 26);
    let both = Intents { turn_left: true, turn_right: true, ..no_input() };
    w.handle_input(both);
    assert_eq!(w.ship.unwrap().angle, 26, "both directions held cancel out");
    let right = Intents { turn_right: true, ..no_input() };
    w.handle_input(right);
    assert_eq!(w.ship.unwrap().angle, 13);
}

#[test]
fn thrust_adds_velocity_only_while_held() {
    let mut w = World::new(cfg());
    w.spawn_ship(v(0, 0), v(5, 10));
    w.handle_input(Intents { thrust: true, ..no_input() });
    assert!(w.ship.unwrap().thrusting);
    w.apply_thrust(v(2, -3));
    assert_eq!(w.ship.unwrap().vel, v(7, 7));
    w.handle_input(no_input());
    assert!(!w.ship.unwrap().thrusting);
    w.apply_thrust(v(2, -3));
    assert_eq!(w.ship.unwrap().vel, v(7, 7), "no thrust flag, no velocity change");
}

#[test]
fn cooldown_resets_to_delay_on_shot() {
    let mut w = World::new(cfg());
    w.spawn_ship(v(1, 2), v(3, 4));
    w.handle_input(Intents { fire: true, ..no_input() });
    w.shoot(16, v(100, 0));
    // a fresh ship has a ready weapon: the first shot is immediate
    assert_eq!(w.bullets.len(), 1);
    assert_eq!(w.ship.unwrap().cooldown, 500);
    let b = w.bullets[0];
    assert_eq!(b.pos, v(1, 2), "projectile starts at the ship's position");
    assert_eq!(b.vel, v(103, 4), "projectile velocity is ship velocity plus muzzle vector");
    assert_eq!(b.elapsed, 0);
    assert_eq!(b.lifetime, 3000);
}

#[test]
fn fire_intent_with_cooldown_is_silent_noop() {
    let mut w = World::new(cfg());
    w.spawn_ship(v(0, 0), v(0, 0));
    w.handle_input(Intents { fire: true, ..no_input() });
    w.shoot(16, v(100, 0));
    assert_eq!(w.bullets.len(), 1);
    w.shoot(100, v(100, 0));
    assert_eq!(w.bullets.len(), 1, "cooldown not elapsed: no spawn, no error");
    assert_eq!(w.ship.unwrap().cooldown, 400);
}

#[test]
fn no_fire_without_intent() {
    let mut w = World::new(cfg());
    w.spawn_ship(v(0, 0), v(0, 0));
    w.shoot(16, v(100, 0));
    assert_eq!(w.bullets.len(), 0);
}

#[test]
fn fire_rate_bound_one_shot_per_delay() {
    // continuous fire intent, delay 500, ticks of 100: exactly one shot
    // per 500 time units after the first
    let mut w = World::new(cfg());
    w.spawn_ship(v(0, 0), v(0, 0));
    w.handle_input(Intents { fire: true, ..no_input() });
    let mut spawned = vec![];
    for tick in 0..16 {
        let before = w.bullets.len();
        w.shoot(100, v(100, 0));
        if w.bullets.len() > before {
            spawned.push(tick);
        }
    }
    assert_eq!(spawned, vec![0, 5, 10, 15]);
    for pair in spawned.windows(2) {
        assert!((pair[1] - pair[0]) * 100 >= 500);
    }
}

#[test]
fn cooldown_never_negative() {
    let mut w = World::new(cfg());
    w.spawn_ship(v(0, 0), v(0, 0));
    // a huge dt on a small cooldown clamps at zero rather than underflowing
    w.shoot(u64::MAX, v(0, 0));
    assert_eq!(w.ship.unwrap().cooldown, 0);
}

#[test]
fn lifetime_removes_exactly_at_expiry() {
    let mut w = World::new(cfg());
    w.bullets.push(Bullet { pos: v(0, 0), vel: v(0, 0), elapsed: 0, lifetime: 300 });
    w.despawn_timed_out_entities(100);
    assert_eq!(w.bullets.len(), 1, "not removed before its lifetime is reached");
    assert_eq!(w.bullets[0].elapsed, 100);
    w.despawn_timed_out_entities(100);
    assert_eq!(w.bullets[0].elapsed, 200);
    w.despawn_timed_out_entities(100);
    assert_eq!(w.bullets.len(), 0, "removed on the tick its lifetime is reached");
}

#[test]
fn lifetime_elapsed_clamps_at_duration() {
    let mut w = World::new(cfg());
    w.bullets.push(Bullet { pos: v(0, 0), vel: v(0, 0), elapsed: 0, lifetime: 300 });
    w.bullets.push(Bullet { pos: v(0, 0), vel: v(0, 0), elapsed: 0, lifetime: 10_000 });
    w.despawn_timed_out_entities(5000);
    assert_eq!(w.bullets.len(), 1);
    assert_eq!(w.bullets[0].elapsed, 5000);
    assert_eq!(w.bullets[0].lifetime, 10_000);
}

#[test]
fn expiring_bullet_cannot_score_same_tick() {
    // this core removes expired projectiles before collisions run
    let mut w = World::new(cfg());
    w.spawn_asteroid(v(0, 0), v(0, 0), 20);
    w.bullets.push(Bullet { pos: v(5, 0), vel: v(0, 0), elapsed: 250, lifetime: 300 });
    w.tick(no_input(), v(0, 0), v(0, 0), 100, 1000, 1000);
    assert_eq!(w.bullets.len(), 0);
    assert_eq!(w.asteroids.len(), 1, "the expired projectile no longer collides");
    assert_eq!(w.score, 0);
}

#[test]
fn eager_removal_first_match_wins() {
    // one asteroid, two projectiles in range: only the first is spent
    let mut w = World::new(cfg());
    w.spawn_asteroid(v(0, 0), v(0, 0), 20);
    w.bullets.push(Bullet { pos: v(5, 0), vel: v(0, 0), elapsed: 0, lifetime: 3000 });
    w.bullets.push(Bullet { pos: v(-5, 0), vel: v(0, 0), elapsed: 0, lifetime: 3000 });
    w.check_collisions();
    assert_eq!(w.score, 1);
    assert_eq!(w.asteroids.len(), 0);
    assert_eq!(w.bullets.len(), 1);
    assert_eq!(w.bullets[0].pos, v(-5, 0), "the second projectile survives");
}

#[test]
fn spent_bullet_cannot_hit_second_asteroid() {
    // two asteroids around one projectile: the first asteroid in store
    // order consumes it, the second survives
    let mut w = World::new(cfg());
    w.spawn_asteroid(v(10, 0), v(0, 0), 20);
    w.spawn_asteroid(v(-10, 0), v(0, 0), 20);
    w.bullets.push(Bullet { pos: v(0, 0), vel: v(0, 0), elapsed: 0, lifetime: 3000 });
    w.check_collisions();
    assert_eq!(w.score, 1);
    assert_eq!(w.asteroids.len(), 1);
    assert_eq!(w.asteroids[0].pos, v(-10, 0));
    assert_eq!(w.bullets.len(), 0);
}

#[test]
fn destroyed_ship_blocks_later_ship_hits() {
    // two asteroids both overlapping the ship: only the first removal
    // counts, the second asteroid finds no ship and survives
    let mut w = World::new(cfg());
    w.spawn_ship(v(0, 0), v(0, 0));
    w.spawn_asteroid(v(15, 0), v(0, 0), 20);
    w.spawn_asteroid(v(-15, 0), v(0, 0), 20);
    w.check_collisions();
    assert_eq!(w.score, -1);
    assert!(w.ship.is_none());
    assert_eq!(w.asteroids.len(), 1);
    assert_eq!(w.asteroids[0].pos, v(-15, 0));
}

#[test]
fn bullet_hit_takes_precedence_over_ship_hit() {
    // an asteroid overlapping both a projectile and the ship is destroyed
    // by the projectile; the ship survives and the score goes up
    let mut w = World::new(cfg());
    w.spawn_ship(v(15, 0), v(0, 0));
    w.spawn_asteroid(v(0, 0), v(0, 0), 20);
    w.bullets.push(Bullet { pos: v(5, 0), vel: v(0, 0), elapsed: 0, lifetime: 3000 });
    w.check_collisions();
    assert_eq!(w.score, 1);
    assert!(w.ship.is_some());
    assert_eq!(w.asteroids.len(), 0);
    assert_eq!(w.bullets.len(), 0);
}

#[test]
fn score_conservation_over_a_run() {
    // the score only ever moves in the collision phase; summing the
    // per-tick deltas reproduces the final score
    let mut w = World::new(cfg());
    w.spawn_ship(v(0, 0), v(0, 0));
    w.spawn_asteroid(v(200, 0), v(0, 0), 20);
    w.spawn_asteroid(v(-300, 0), v(0, 0), 20);
    w.bullets.push(Bullet { pos: v(185, 0), vel: v(1, 0), elapsed: 0, lifetime: 10_000 });
    let mut deltas: Vec<i64> = vec![];
    for _ in 0..10 {
        let before = w.score;
        w.tick(no_input(), v(0, 0), v(0, 0), 1, 10_000, 10_000);
        deltas.push(w.score - before);
    }
    let total: i64 = deltas.iter().sum();
    assert_eq!(w.score, total);
    assert_eq!(w.score, 1, "the drifting projectile takes out one asteroid");
    assert_eq!(w.asteroids.len(), 1);
}

#[test]
fn asteroid_spawn_clearance() {
    let w = {
        let mut w = World::new(cfg());
        w.spawn_ship(v(0, 0), v(0, 0));
        w
    };
    // clearance: distance must exceed clear radius plus asteroid radius
    assert!(w.asteroid_spawn_clear(v(121, 0), v(0, 0), 20));
    assert!(!w.asteroid_spawn_clear(v(120, 0), v(0, 0), 20));
    assert!(!w.asteroid_spawn_clear(v(0, 0), v(0, 0), 20));
}

#[test]
fn angle_after_turn_matches_handle_input() {
    let mut w = World::new(cfg());
    w.spawn_ship(v(0, 0), v(0, 0));
    let left = Intents { turn_left: true, ..no_input() };
    let peek = w.angle_after_turn(left);
    w.handle_input(left);
    assert_eq!(peek, Some(w.ship.unwrap().angle));
    let none = World::new(cfg()).angle_after_turn(left);
    assert_eq!(none, None);
}

#[test]
fn full_tick_pipeline_spawns_moves_and_scores() {
    // one tick: the ship fires, the new projectile moves with the tick's
    // motion phase and immediately destroys the asteroid ahead
    let mut w = World::new(cfg());
    w.spawn_ship(v(0, 0), v(0, 0));
    w.spawn_asteroid(v(120, 0), v(0, 0), 20);
    let fire = Intents { fire: true, ..no_input() };
    w.tick(fire, v(0, 0), v(100, 0), 1, 10_000, 10_000);
    assert_eq!(w.score, 1);
    assert_eq!(w.asteroids.len(), 0);
    assert_eq!(w.bullets.len(), 0);
    assert_eq!(w.ship.unwrap().cooldown, 500);
}

#[test]
fn velocity_saturates_at_coordinate_bound() {
    let mut w = World::new(cfg());
    w.spawn_ship(v(0, 0), v(COORD_LIMIT - 5, 0));
    w.handle_input(Intents { thrust: true, ..no_input() });
    w.apply_thrust(v(100, -100));
    let s = w.ship.unwrap();
    assert_eq!(s.vel.x, COORD_LIMIT, "saturates instead of overflowing");
    assert_eq!(s.vel.y, -100);
}

#[test]
fn wrap_at_saturated_coordinate() {
    let mut w = World::new(cfg());
    w.spawn_asteroid(v(COORD_LIMIT, 0), v(0, 0), 20);
    w.move_objects(1, 100, 100);
    assert_eq!(w.asteroids[0].pos, v(-COORD_LIMIT, 0));
}

#[test]
fn asteroid_radius_immutable_through_ticks() {
    let mut w = World::new(cfg());
    w.spawn_asteroid(v(0, 0), v(3, 4), 20);
    for _ in 0..5 {
        w.tick(no_input(), v(0, 0), v(0, 0), 7, 1000, 1000);
    }
    assert_eq!(w.asteroids[0].radius, 20);
    assert_eq!(w.asteroids[0].vel, v(3, 4));
}
