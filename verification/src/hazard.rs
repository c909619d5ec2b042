//! The hazard system's rules: tiered area damage around a detonated
//! explosive, the lingering hazard's whole-time-unit damage ticks, the
//! restorative pickup's numbers, and the placement constraints for a freshly
//! spawned hazard pair.

use crate::arena::coord_ok;
use crate::arena::dist_sq;
use crate::arena::dist_sq_spec;
use crate::arena::Vec2;
use crate::bot::with_pending;
use crate::bot::Bot;
use vstd::arithmetic::div_mod::lemma_fundamental_div_mod;
use vstd::arithmetic::div_mod::lemma_fundamental_div_mod_converse;
use vstd::prelude::*;

verus! {

/// Milli-time a spawned restorative pickup waits unclaimed before despawning.
pub const ITEM_LIFETIME: i64 = 5000;

/// Health restored by the restorative pickup, capped at the ceiling.
pub const HEAL_AMOUNT: i64 = 30;

/// Health below which a restorative pickup is offered.
pub const LOW_HEALTH_THRESHOLD: i64 = 50;

/// Squared milli-distance within which a pickup or hazard is touched.
pub const PICKUP_RANGE_SQ: i64 = 1_000_000;

/// Milli-time between hazard-pair spawns.
pub const BOMB_PERIOD: i64 = 30000;

/// Milli-time the detonated explosive stays shown before hiding.
pub const EXPLOSION_HIDE_DELAY: i64 = 500;

/// Milli-time the lingering hazard stays armed.
pub const FIRE_DURATION: i64 = 8000;

/// Milli-time between two damage ticks of the lingering hazard.
pub const FIRE_TICK_PERIOD: i64 = 1000;

/// Health every bot loses to one lingering-hazard tick.
pub const FIRE_TICK_DAMAGE: i64 = 5;

/// Squared milli-distance of the explosive's outer damage radius.
pub const EXPLOSION_RADIUS_SQ: i64 = 36_000_000;

/// Squared milli-distance bounding the innermost damage tier.
pub const TIER_1_SQ: i64 = 9_000_000;

/// Squared milli-distance bounding the second damage tier.
pub const TIER_2_SQ: i64 = 16_000_000;

/// Squared milli-distance bounding the third damage tier.
pub const TIER_3_SQ: i64 = 25_000_000;

/// Damage within the innermost tier.
pub const TIER_1_DAMAGE: i64 = 100;

/// Damage within the second tier.
pub const TIER_2_DAMAGE: i64 = 70;

/// Damage within the third tier.
pub const TIER_3_DAMAGE: i64 = 40;

/// Damage within the outermost tier.
pub const TIER_4_DAMAGE: i64 = 10;

/// Closest milli-distance from the player at which a hazard may spawn.
pub const MIN_PLAYER_DISTANCE: i64 = 5000;

/// Farthest milli-distance from the player at which a hazard may spawn.
pub const MAX_PLAYER_DISTANCE: i64 = 11000;

/// Minimum milli-distance between the two hazards of one spawned pair.
pub const MIN_SEPARATION: i64 = 4000;

/// Squared form of `MIN_SEPARATION`.
pub const MIN_SEPARATION_SQ: i64 = 16_000_000;

/// Explosion damage by distance band: the full squared-distance tier table.
pub open spec fn damage_for_dist_sq_spec(d2: int) -> int {
    if d2 <= TIER_1_SQ {
        TIER_1_DAMAGE as int
    } else if d2 <= TIER_2_SQ {
        TIER_2_DAMAGE as int
    } else if d2 <= TIER_3_SQ {
        TIER_3_DAMAGE as int
    } else if d2 <= EXPLOSION_RADIUS_SQ {
        TIER_4_DAMAGE as int
    } else {
        0
    }
}

/// Explosion damage for a bot at squared milli-distance `d2` from the
/// detonation point.
pub fn damage_for_dist_sq(d2: i64) -> (dmg: i64)
    ensures
        dmg == damage_for_dist_sq_spec(d2 as int),
{
    if d2 <= TIER_1_SQ {
        TIER_1_DAMAGE
    } else if d2 <= TIER_2_SQ {
        TIER_2_DAMAGE
    } else if d2 <= TIER_3_SQ {
        TIER_3_DAMAGE
    } else if d2 <= EXPLOSION_RADIUS_SQ {
        TIER_4_DAMAGE
    } else {
        0
    }
}

/// Area-damage tiering is monotonically non-increasing with distance, and
/// exactly zero beyond the outer radius.
pub proof fn lemma_damage_tiers_monotonic(d2_near: int, d2_far: int)
    requires
        d2_near <= d2_far,
    ensures
        damage_for_dist_sq_spec(d2_far) <= damage_for_dist_sq_spec(d2_near),
        d2_far > EXPLOSION_RADIUS_SQ ==> damage_for_dist_sq_spec(d2_far) == 0,
{
}

/// Whether a freshly drawn hazard pair keeps the required separation: the
/// explosive and the lingering hazard must spawn at least `MIN_SEPARATION`
/// milli-units apart, or the second position is drawn again.
pub fn hazard_pair_separated(a: Vec2, b: Vec2) -> (r: bool)
    requires
        coord_ok(a),
        coord_ok(b),
    ensures
        r == (dist_sq_spec(a, b) >= MIN_SEPARATION_SQ),
{
    dist_sq(a, b) >= MIN_SEPARATION_SQ
}

/// The bot `b` with an explosion at squared distance `d2` queued against it:
/// within the outer radius the tier damage is deducted from the committed
/// health, floored at zero, through the deferred-update queue; beyond it the
/// bot is untouched.
pub open spec fn after_explosion(b: Bot, d2: int) -> Bot {
    if d2 <= EXPLOSION_RADIUS_SQ {
        with_pending(
            b,
            (if b.health - damage_for_dist_sq_spec(d2) >= 0 {
                b.health - damage_for_dist_sq_spec(d2)
            } else {
                0
            }) as i64,
        )
    } else {
        b
    }
}

/// Detonation: every bot within the outer radius has the tier damage for its
/// distance queued on its deferred-update slot; bots beyond the radius are
/// untouched.  Damage is queued, never applied directly, so a bot defeated
/// here is accounted on its own next tick.
pub fn explosion_damage(bots: &mut Vec<Bot>, positions: &Vec<Vec2>, center: Vec2)
    requires
        old(bots)@.len() == positions@.len(),
        coord_ok(center),
        forall|i: int| 0 <= i < positions@.len() ==> coord_ok(#[trigger] positions@[i]),
    ensures
        final(bots)@.len() == old(bots)@.len(),
        forall|i: int|
            0 <= i < final(bots)@.len() ==> final(bots)@[i] == after_explosion(
                old(bots)@[i],
                dist_sq_spec(positions@[i], center),
            ),
{
    let n = bots.len();
    let mut i: usize = 0;
    while i < n
        invariant
            0 <= i <= n,
            n == bots@.len(),
            bots@.len() == old(bots)@.len(),
            positions@.len() == old(bots)@.len(),
            coord_ok(center),
            forall|k: int| 0 <= k < positions@.len() ==> coord_ok(#[trigger] positions@[k]),
            forall|k: int|
                0 <= k < i ==> bots@[k] == after_explosion(
                    old(bots)@[k],
                    dist_sq_spec(positions@[k], center),
                ),
            forall|k: int| i <= k < n ==> bots@[k] == old(bots)@[k],
        decreases n - i,
    {
        let d2 = dist_sq(positions[i], center);
        if d2 <= EXPLOSION_RADIUS_SQ {
            let dmg = damage_for_dist_sq(d2);
            let h = bots[i].get_health();
            let nh = if h >= dmg {
                h - dmg
            } else {
                0
            };
            bots[i].set_health(nh);
        }
        i = i + 1;
    }
}

/// The bot `b` with one lingering-hazard tick queued against it.
pub open spec fn after_fire_tick(b: Bot) -> Bot {
    with_pending(
        b,
        (if b.health - FIRE_TICK_DAMAGE >= 0 {
            b.health - FIRE_TICK_DAMAGE
        } else {
            0
        }) as i64,
    )
}

/// One lingering-hazard damage tick: every bot, with no range check, has the
/// tick damage deducted from its committed health, floored at zero, through
/// its deferred-update slot.  Within one tick the deduction is computed from
/// the committed health, so repeating the call before the next commit queues
/// the same value again rather than stacking.
pub fn fire_tick_damage(bots: &mut Vec<Bot>)
    ensures
        final(bots)@.len() == old(bots)@.len(),
        forall|i: int|
            0 <= i < final(bots)@.len() ==> final(bots)@[i] == after_fire_tick(old(bots)@[i]),
{
    let n = bots.len();
    let mut i: usize = 0;
    while i < n
        invariant
            0 <= i <= n,
            n == bots@.len(),
            bots@.len() == old(bots)@.len(),
            forall|k: int| 0 <= k < i ==> bots@[k] == after_fire_tick(old(bots)@[k]),
            forall|k: int| i <= k < n ==> bots@[k] == old(bots)@[k],
        decreases n - i,
    {
        let h = bots[i].get_health();
        let nh = if h >= FIRE_TICK_DAMAGE {
            h - FIRE_TICK_DAMAGE
        } else {
            0
        };
        bots[i].set_health(nh);
        i = i + 1;
    }
}

/// The lingering hazard's carry accumulator never double-counts fractional
/// time: if, after some elapsed armed time, the carry holds the elapsed
/// time's remainder modulo the tick period and the fired count holds its
/// quotient, then after one more frame of `dt` the same holds of the total
/// elapsed time.  Cumulative ticks over any frame sequence therefore equal
/// the whole time-units of armed time, and cumulative damage per bot is the
/// tick damage times that count.
pub proof fn lemma_fire_accumulator(elapsed: int, dt: int)
    requires
        0 <= elapsed,
        0 <= dt,
    ensures
        (elapsed % (FIRE_TICK_PERIOD as int) + dt) / (FIRE_TICK_PERIOD as int) + elapsed / (
        FIRE_TICK_PERIOD as int) == (elapsed + dt) / (FIRE_TICK_PERIOD as int),
        (elapsed % (FIRE_TICK_PERIOD as int) + dt) % (FIRE_TICK_PERIOD as int) == (elapsed + dt)
            % (FIRE_TICK_PERIOD as int),
{
    let p = FIRE_TICK_PERIOD as int;
    let q = elapsed / p;
    let r = elapsed % p;
    lemma_fundamental_div_mod(elapsed, p);
    let q2 = (r + dt) / p;
    let r2 = (r + dt) % p;
    lemma_fundamental_div_mod(r + dt, p);
    assert(elapsed + dt == (q + q2) * p + r2) by (nonlinear_arith)
        requires
            elapsed == q * p + r,
            r + dt == q2 * p + r2,
    ;
    lemma_fundamental_div_mod_converse(elapsed + dt, p, q + q2, r2);
}

} // verus!
