//! The play area and its fixed-point geometry: 2D vectors in milli-units,
//! squared distances, and clamping of candidate positions to the arena bounds.

use vstd::prelude::*;

verus! {

/// A 2D point or vector in thousandths of a world unit.
#[derive(Clone, Copy, Debug, PartialEq, Eq, Structural)]
pub struct Vec2 {
    pub x: i64,
    pub y: i64,
}

/// Westernmost reachable coordinate, in milli-units.
pub const ARENA_MIN_X: i64 = -11000;
/// Easternmost reachable coordinate, in milli-units.
pub const ARENA_MAX_X: i64 = 11000;
/// Southernmost reachable coordinate, in milli-units.
pub const ARENA_MIN_Y: i64 = -4000;
/// Northernmost reachable coordinate, in milli-units.
pub const ARENA_MAX_Y: i64 = 17000;

/// Largest coordinate magnitude, in milli-units, that the geometry accepts.
/// Keeping every coordinate within this bound keeps squared distances within
/// `i64` range.
pub const COORD_LIMIT: i64 = 1_000_000_000;

/// Whether both coordinates of `p` are within `COORD_LIMIT` in magnitude.
pub open spec fn coord_ok(p: Vec2) -> bool {
    -COORD_LIMIT <= p.x <= COORD_LIMIT && -COORD_LIMIT <= p.y <= COORD_LIMIT
}

/// A single coordinate clamped into `[lo, hi]`.
pub open spec fn clamp_coord_spec(v: int, lo: int, hi: int) -> int {
    if v < lo {
        lo
    } else if v > hi {
        hi
    } else {
        v
    }
}

/// The point `p` moved to the nearest point of the arena rectangle.
pub open spec fn clamp_to_arena_spec(p: Vec2) -> Vec2 {
    Vec2 {
        x: clamp_coord_spec(p.x as int, ARENA_MIN_X as int, ARENA_MAX_X as int) as i64,
        y: clamp_coord_spec(p.y as int, ARENA_MIN_Y as int, ARENA_MAX_Y as int) as i64,
    }
}

/// Whether `p` lies inside the arena rectangle.
pub open spec fn in_arena(p: Vec2) -> bool {
    ARENA_MIN_X <= p.x <= ARENA_MAX_X && ARENA_MIN_Y <= p.y <= ARENA_MAX_Y
}

/// The squared distance between `a` and `b`, in squared milli-units.
pub open spec fn dist_sq_spec(a: Vec2, b: Vec2) -> int {
    (a.x - b.x) * (a.x - b.x) + (a.y - b.y) * (a.y - b.y)
}

/// Clamp one coordinate into `[lo, hi]`.
fn clamp_coord(v: i64, lo: i64, hi: i64) -> (r: i64)
    requires
        lo <= hi,
    ensures
        r == clamp_coord_spec(v as int, lo as int, hi as int),
{
    if v < lo {
        lo
    } else if v > hi {
        hi
    } else {
        v
    }
}

/// Move a candidate position to the nearest point inside the arena bounds.
pub fn clamp_to_arena(p: Vec2) -> (r: Vec2)
    ensures
        r == clamp_to_arena_spec(p),
        in_arena(r),
{
    Vec2 {
        x: clamp_coord(p.x, ARENA_MIN_X, ARENA_MAX_X),
        y: clamp_coord(p.y, ARENA_MIN_Y, ARENA_MAX_Y),
    }
}

/// Clamping to the arena is idempotent: clamping twice equals clamping once.
pub proof fn lemma_clamp_idempotent(p: Vec2)
    ensures
        clamp_to_arena_spec(clamp_to_arena_spec(p)) == clamp_to_arena_spec(p),
{
}

/// Points inside the arena are fixed by clamping.
pub proof fn lemma_clamp_fixes_arena_points(p: Vec2)
    requires
        in_arena(p),
    ensures
        clamp_to_arena_spec(p) == p,
{
}

/// The squared distance between `a` and `b`.
pub fn dist_sq(a: Vec2, b: Vec2) -> (r: i64)
    requires
        coord_ok(a),
        coord_ok(b),
    ensures
        r == dist_sq_spec(a, b),
{
    let dx: i64 = a.x - b.x;
    let dy: i64 = a.y - b.y;
    proof {
        assert(0 <= dx * dx <= 4_000_000_000_000_000_000) by (nonlinear_arith)
            requires
                -2_000_000_000 <= dx <= 2_000_000_000,
        ;
        assert(0 <= dy * dy <= 4_000_000_000_000_000_000) by (nonlinear_arith)
            requires
                -2_000_000_000 <= dy <= 2_000_000_000,
        ;
    }
    dx * dx + dy * dy
}

/// The point a bounded offset `(ox, oy)` away from `center`, clamped to the
/// arena.
pub open spec fn point_near(center: Vec2, ox: int, oy: int) -> Vec2 {
    clamp_to_arena_spec(
        Vec2 { x: (center.x + ox) as i64, y: (center.y + oy) as i64 },
    )
}

/// A random point within a bounded offset of `center`, clamped to the arena
/// bounds: used to place a respawned bot near the player and to place the
/// restorative pickup.
pub fn random_point_near(center: Vec2) -> (r: Vec2)
    requires
        coord_ok(center),
    ensures
        in_arena(r),
        exists|ox: int, oy: int|
            {
                &&& -(crate::rng::OFFSET_RANGE as int) <= ox <= crate::rng::OFFSET_RANGE
                &&& -(crate::rng::OFFSET_RANGE as int) <= oy <= crate::rng::OFFSET_RANGE
                &&& #[trigger] point_near(center, ox, oy) == r
            },
{
    let ox = crate::rng::random_offset();
    let oy = crate::rng::random_offset();
    let candidate = Vec2 { x: center.x + ox, y: center.y + oy };
    let r = clamp_to_arena(candidate);
    proof {
        assert(point_near(center, ox as int, oy as int) == r);
    }
    r
}

/// Test a candidate position for a hazard spawn: the candidate is clamped to
/// the arena, and accepted only if it still lies at least `min_r` milli-units
/// away from `center`; a candidate pulled too close by the clamping is
/// rejected, and the caller draws a fresh one.
pub fn accept_spawn_candidate(center: Vec2, candidate: Vec2, min_r: i64) -> (r: Option<Vec2>)
    requires
        coord_ok(center),
        0 <= min_r <= 1_000_000,
    ensures
        match r {
            Some(p) => p == clamp_to_arena_spec(candidate) && dist_sq_spec(p, center) >= min_r
                * min_r,
            None => dist_sq_spec(clamp_to_arena_spec(candidate), center) < min_r * min_r,
        },
{
    let clamped = clamp_to_arena(candidate);
    proof {
        assert(0 <= min_r * min_r <= 1_000_000_000_000) by (nonlinear_arith)
            requires
                0 <= min_r <= 1_000_000,
        ;
    }
    if dist_sq(clamped, center) >= min_r * min_r {
        Some(clamped)
    } else {
        None
    }
}

} // verus!
