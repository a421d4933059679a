//! Saturating fixed-point arithmetic on 2D coordinates, the boundary
//! reflection rule, and the squared-distance circle-overlap test.

use vstd::prelude::*;

verus! {

/// Greatest magnitude any stored coordinate (position, velocity, angle,
/// radius, score) may reach.  Arithmetic saturates at this bound, which is
/// small enough that every squared distance fits comfortably in an `i128`.
pub const COORD_LIMIT: i64 = 0x1000_0000_0000_0000;

/// Clamp a mathematical integer into `[-COORD_LIMIT, COORD_LIMIT]`.
pub open spec fn clamped(v: int) -> int {
    if v > COORD_LIMIT as int {
        COORD_LIMIT as int
    } else if v < -(COORD_LIMIT as int) {
        -(COORD_LIMIT as int)
    } else {
        v
    }
}

/// A coordinate that the saturating arithmetic can produce.
pub open spec fn in_range(v: i64) -> bool {
    -(COORD_LIMIT as int) <= v as int <= COORD_LIMIT as int
}

/// A 2D point or vector in fixed-point world units.
#[derive(Clone, Copy, PartialEq, Eq, Structural, Debug)]
pub struct Vec2 {
    pub x: i64,
    pub y: i64,
}

impl Vec2 {
    /// Both coordinates are within the saturation bound.
    pub open spec fn wf(self) -> bool {
        in_range(self.x) && in_range(self.y)
    }
}

/// Componentwise saturating vector addition.
pub open spec fn vadd(a: Vec2, b: Vec2) -> Vec2 {
    Vec2 { x: clamped(a.x + b.x) as i64, y: clamped(a.y + b.y) as i64 }
}

/// Saturating scalar addition.
pub fn cadd(a: i64, b: i64) -> (r: i64)
    ensures
        r as int == clamped(a + b),
        in_range(r),
{
    let s: i128 = a as i128 + b as i128;
    if s > COORD_LIMIT as i128 {
        COORD_LIMIT
    } else if s < -(COORD_LIMIT as i128) {
        -COORD_LIMIT
    } else {
        s as i64
    }
}

/// Saturating vector addition.
pub fn vec_add(a: Vec2, b: Vec2) -> (r: Vec2)
    ensures
        r == vadd(a, b),
        r.wf(),
{
    Vec2 { x: cadd(a.x, b.x), y: cadd(a.y, b.y) }
}

/// Saturating product of a velocity component and an elapsed time.
pub fn cmul_dt(v: i64, dt: u64) -> (r: i64)
    requires
        in_range(v),
    ensures
        r as int == clamped(v as int * dt as int),
        in_range(r),
{
    proof {
        let vi = v as int;
        let di = dt as int;
        assert(vi * di <= 0x1000_0000_0000_0000 * 0xffff_ffff_ffff_ffff
            && vi * di >= -0x1000_0000_0000_0000 * 0xffff_ffff_ffff_ffff) by (nonlinear_arith)
            requires
                -0x1000_0000_0000_0000 <= vi <= 0x1000_0000_0000_0000,
                0 <= di <= 0xffff_ffff_ffff_ffff,
        ;
    }
    let p: i128 = (v as i128) * (dt as i128);
    if p > COORD_LIMIT as i128 {
        COORD_LIMIT
    } else if p < -(COORD_LIMIT as i128) {
        -COORD_LIMIT
    } else {
        p as i64
    }
}

/// The boundary reflection rule on one axis: a coordinate strictly outside
/// `[-h, h]` has its sign flipped (magnitude kept); one inside is unchanged.
/// This is a reflection through the origin, not a teleport to the opposite
/// edge: an entity left far outside the viewport oscillates between the
/// two mirrored positions.  That is the deliberate, compatible behaviour
/// of this simulation.
pub open spec fn wrap1(x: int, h: int) -> int {
    if x < -h || x > h {
        -x
    } else {
        x
    }
}

/// Apply the reflection rule to one coordinate.
pub fn wrap_coord(x: i64, h: i64) -> (r: i64)
    requires
        in_range(x),
        0 <= h,
    ensures
        r as int == wrap1(x as int, h as int),
        in_range(r),
{
    if x < -h || x > h {
        -x
    } else {
        x
    }
}

/// Saturating countdown of a timer by an elapsed time, clamped at zero.
pub open spec fn count_down(c: int, dt: u64) -> int {
    if c > dt as int {
        c - dt as int
    } else {
        0
    }
}

/// Advance a countdown timer, never going below zero.
pub fn tick_down(c: u64, dt: u64) -> (r: u64)
    ensures
        r as int == count_down(c as int, dt),
{
    if c > dt {
        c - dt
    } else {
        0
    }
}

/// Squared Euclidean distance between two points.
pub open spec fn dist_sq(p: Vec2, q: Vec2) -> int {
    (p.x - q.x) * (p.x - q.x) + (p.y - q.y) * (p.y - q.y)
}

/// Two circles centred at `p` and `q` overlap when the distance between
/// the centres is strictly below the sum of the radii; comparing squares
/// keeps the test exact in integers.
pub open spec fn circles_overlap(p: Vec2, q: Vec2, rsum: int) -> bool {
    dist_sq(p, q) < rsum * rsum
}

/// Two centres are strictly farther apart than `rsum`: the squared
/// distance exceeds the squared sum.  At exactly `rsum` the circles
/// neither overlap nor are apart.
pub open spec fn circles_apart(p: Vec2, q: Vec2, rsum: int) -> bool {
    dist_sq(p, q) > rsum * rsum
}

/// Decide whether two circles overlap, comparing squared distances.
pub fn check_overlap(p: Vec2, q: Vec2, rsum: i64) -> (r: bool)
    requires
        p.wf(),
        q.wf(),
        0 <= rsum as int <= 2 * COORD_LIMIT as int,
    ensures
        r == circles_overlap(p, q, rsum as int),
{
    let dx: i128 = p.x as i128 - q.x as i128;
    let dy: i128 = p.y as i128 - q.y as i128;
    proof {
        let b: int = 0x2000_0000_0000_0000int;
        assert(dx * dx <= b * b && dx * dx >= 0) by (nonlinear_arith)
            requires
                -b <= dx <= b,
        ;
        assert(dy * dy <= b * b && dy * dy >= 0) by (nonlinear_arith)
            requires
                -b <= dy <= b,
        ;
        assert((rsum as int) * (rsum as int) <= b * b && (rsum as int) * (rsum as int) >= 0)
            by (nonlinear_arith)
            requires
                0 <= rsum as int <= b,
        ;
    }
    let d2: i128 = dx * dx + dy * dy;
    let rs: i128 = (rsum as i128) * (rsum as i128);
    d2 < rs
}

/// Decide whether two centres are strictly farther apart than `rsum`.
pub fn check_apart(p: Vec2, q: Vec2, rsum: i64) -> (r: bool)
    requires
        p.wf(),
        q.wf(),
        0 <= rsum as int <= 2 * COORD_LIMIT as int,
    ensures
        r == circles_apart(p, q, rsum as int),
{
    let dx: i128 = p.x as i128 - q.x as i128;
    let dy: i128 = p.y as i128 - q.y as i128;
    proof {
        let b: int = 0x2000_0000_0000_0000int;
        assert(dx * dx <= b * b && dx * dx >= 0) by (nonlinear_arith)
            requires
                -b <= dx <= b,
        ;
        assert(dy * dy <= b * b && dy * dy >= 0) by (nonlinear_arith)
            requires
                -b <= dy <= b,
        ;
        assert((rsum as int) * (rsum as int) <= b * b && (rsum as int) * (rsum as int) >= 0)
            by (nonlinear_arith)
            requires
                0 <= rsum as int <= b,
        ;
    }
    let d2: i128 = dx * dx + dy * dy;
    let rs: i128 = (rsum as i128) * (rsum as i128);
    d2 > rs
}

} // verus!
