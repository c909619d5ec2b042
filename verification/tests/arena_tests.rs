//! Arena geometry: clamping to the play area, spawn-candidate acceptance,
//! and the randomised placement helpers.

use nysodi::accept_spawn_candidate;
use nysodi::arena::ARENA_MAX_X;
use nysodi::arena::ARENA_MAX_Y;
use nysodi::arena::ARENA_MIN_X;
use nysodi::arena::ARENA_MIN_Y;
use nysodi::clamp_to_arena;
use nysodi::dist_sq;
use nysodi::random_point_near;
use nysodi::Vec2;

#[test]
fn test_map_edges_clamping() {
    let test_positions = [
        Vec2 { x: -20000, y: 0 },
        Vec2 { x: 20000, y: 0 },
        Vec2 { x: 0, y: -10000 },
        Vec2 { x: 0, y: 20000 },
    ];
    let expected = [
        Vec2 { x: -11000, y: 0 },
        Vec2 { x: 11000, y: 0 },
        Vec2 { x: 0, y: -4000 },
        Vec2 { x: 0, y: 17000 },
    ];

    for (&cand, &exp) in test_positions.iter().zip(expected.iter()) {
        let clamped = clamp_to_arena(cand);
        assert_eq!(clamped, exp, "Clamped {:?} -> {:?}", cand, clamped);
    }
}

#[test]
fn clamping_twice_equals_clamping_once() {
    let candidates = [
        Vec2 { x: -20000, y: 30000 },
        Vec2 { x: 20000, y: -30000 },
        Vec2 { x: 5000, y: 5000 },
        Vec2 { x: -11000, y: 17000 },
        Vec2 { x: 0, y: 0 },
    ];
    for &c in candidates.iter() {
        let once = clamp_to_arena(c);
        let twice = clamp_to_arena(once);
        assert_eq!(once, twice);
    }
}

#[test]
fn clamping_fixes_interior_points() {
    let p = Vec2 { x: 4000, y: -2000 };
    assert_eq!(clamp_to_arena(p), p);
}

#[test]
fn dist_sq_exact_values() {
    let a = Vec2 { x: 0, y: 0 };
    let b = Vec2 { x: 3000, y: 4000 };
    assert_eq!(dist_sq(a, b), 25_000_000);
    assert_eq!(dist_sq(b, a), 25_000_000);
    assert_eq!(dist_sq(a, a), 0);
}

#[test]
fn spawn_candidate_accepted_when_far_enough() {
    let center = Vec2 { x: 0, y: 0 };
    let candidate = Vec2 { x: 9000, y: 0 };
    let r = accept_spawn_candidate(center, candidate, 5000);
    assert_eq!(r, Some(candidate));
}

#[test]
fn spawn_candidate_rejected_when_clamping_pulls_it_close() {
    let center = Vec2 { x: 0, y: 0 };
    // Too close even before clamping.
    assert_eq!(accept_spawn_candidate(center, Vec2 { x: 3000, y: 0 }, 5000), None);
    // Far before clamping, but the arena edge pulls it within the minimum
    // radius of a center near the edge.
    let edge_center = Vec2 { x: 10000, y: 0 };
    let r = accept_spawn_candidate(edge_center, Vec2 { x: 30000, y: 0 }, 5000);
    assert_eq!(r, None);
}

#[test]
fn spawn_candidate_is_clamped() {
    let center = Vec2 { x: -10000, y: 0 };
    let r = accept_spawn_candidate(center, Vec2 { x: 30000, y: 30000 }, 5000);
    assert_eq!(r, Some(Vec2 { x: 11000, y: 17000 }));
}

#[test]
fn random_point_near_stays_in_arena_and_near_center() {
    let center = Vec2 { x: 0, y: 8000 };
    for _ in 0..200 {
        let p = random_point_near(center);
        assert!(ARENA_MIN_X <= p.x && p.x <= ARENA_MAX_X);
        assert!(ARENA_MIN_Y <= p.y && p.y <= ARENA_MAX_Y);
        // The center sits well inside the arena, so the clamped point must
        // still lie within the offset box around it.
        assert!((p.x - center.x).abs() <= 5000);
        assert!((p.y - center.y).abs() <= 5000);
    }
}

#[test]
fn random_point_near_far_outside_center_clamps_to_edge() {
    let center = Vec2 { x: 100_000, y: 100_000 };
    for _ in 0..50 {
        let p = random_point_near(center);
        assert_eq!(p.x, ARENA_MAX_X);
        assert_eq!(p.y, ARENA_MAX_Y);
    }
}
