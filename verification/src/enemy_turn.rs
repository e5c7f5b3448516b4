//! Decision policy for the automated opponent: a health-ratio-driven
//! allocation heuristic with three regimes.

use crate::pool::{compute_pool, spec_pool};
use crate::turn::Turn;
use crate::unit::Unit;
use rand::Rng;
use vstd::prelude::*;

verus! {

/// Health as the regime ratio reads it: clamped at 0 from below, so a unit
/// driven below zero counts as fully depleted rather than as a negative
/// ratio.
pub open spec fn clamped_health(health: int) -> int {
    if health > 0 {
        health
    } else {
        0
    }
}

/// Low-health (defensive) regime: the health ratio is below 0.33.
pub open spec fn ratio_low(health: int, max_health: int) -> bool {
    100 * clamped_health(health) < 33 * max_health
}

/// High-health (aggressive) regime: the health ratio is above 0.66.
pub open spec fn ratio_high(health: int, max_health: int) -> bool {
    100 * clamped_health(health) > 66 * max_health
}

/// What the decision policy guarantees of every allocation it returns for a
/// unit acting with the pool `pool`: it never overspends the pool, the
/// defensive regime commits at least half the pool to defend, and the
/// aggressive regime commits at least half the pool to attack.
pub open spec fn policy_ok(t: Turn, pool: int, unit: Unit) -> bool {
    let max_health = unit.unit_type.spec_stats().0;
    &&& t.spent() <= pool
    &&& ratio_low(unit.health as int, max_health) ==> t.defend >= pool / 2
    &&& ratio_high(unit.health as int, max_health) ==> t.attack >= pool / 2
}

/// Relies on rand::Rng::gen_range over an inclusive range on the
/// thread-local generator: it panics only on an empty range and returns a
/// value inside the range.
#[verifier::external_body]
fn draw_in_range(lo: u32, hi: u32) -> (r: u32)
    requires
        lo <= hi,
    ensures
        lo <= r <= hi,
{
    rand::thread_rng().gen_range(lo..=hi)
}

/// Relies on rand::Rng::gen_ratio on the thread-local generator: it panics
/// only when the denominator is 0 or the numerator exceeds it, and nothing
/// can be promised of the boolean it draws.
#[verifier::external_body]
fn draw_chance(numerator: u32, denominator: u32) -> bool
    requires
        0 < denominator,
        numerator <= denominator,
{
    rand::thread_rng().gen_ratio(numerator, denominator)
}

/// A small deterministic draw source, so regime selection and draw values
/// are reproducible from a seed when the ambient generator is not wanted.
pub struct SeededRng {
    pub state: u64,
}

/// The successor of the generator state: one step of its linear congruence.
pub open spec fn spec_step(state: u64) -> u64 {
    state.wrapping_mul(6364136223846793005).wrapping_add(1442695040888963407)
}

/// The value in `[lo, hi]` that one draw yields from a given prior state:
/// the high half of the stepped state, folded into the span.
pub open spec fn spec_draw(state: u64, lo: int, hi: int) -> int {
    lo + ((spec_step(state) as int / 0x100000000) % (hi - lo + 1))
}

impl SeededRng {
    /// Starts a deterministic stream from a seed.
    pub fn new(seed: u64) -> (r: SeededRng)
        ensures
            r.state == seed,
    {
        SeededRng { state: seed }
    }

    /// Advances the stream and returns a value in `[lo, hi]`: a pure
    /// function of the prior state and the bounds, so equal states draw
    /// equal values.
    pub fn next_in_range(&mut self, lo: u32, hi: u32) -> (r: u32)
        requires
            lo <= hi,
        ensures
            lo <= r <= hi,
            r == spec_draw(old(self).state, lo as int, hi as int),
            final(self).state == spec_step(old(self).state),
    {
        self.state = self.state.wrapping_mul(6364136223846793005).wrapping_add(
            1442695040888963407,
        );
        let s = self.state;
        let high_bits = s >> 32;
        assert(high_bits == s / 0x100000000 && high_bits <= 0xffff_ffffu64) by (bit_vector)
            requires
                high_bits == s >> 32,
        ;
        let span: u64 = (hi - lo) as u64 + 1;
        let off = high_bits % span;
        lo + (off as u32)
    }

    /// Advances the stream and reports true in roughly `num` of `den`
    /// draws, again as a pure function of the prior state.
    pub fn chance(&mut self, num: u32, den: u32) -> (b: bool)
        requires
            0 < den,
            num <= den,
        ensures
            b == (spec_draw(old(self).state, 0, den - 1) < num),
            final(self).state == spec_step(old(self).state),
    {
        let draw = self.next_in_range(0, den - 1);
        draw < num
    }
}

/// The allocation the seeded policy yields and the draw state it leaves
/// behind, as a pure function of its inputs: the regime chosen by the
/// health ratio, each guarded draw, and the state stepping. Equal inputs
/// and equal seeds therefore give equal allocations.
pub open spec fn spec_policy(
    saved_points: u32,
    base_points: u32,
    unit: Unit,
    state: u64,
) -> (Turn, u64) {
    let pool = spec_pool(base_points as int, saved_points as int);
    let max_health = unit.unit_type.spec_stats().0;
    if ratio_low(unit.health as int, max_health) {
        let defend = spec_draw(state, pool / 2, pool);
        let s1 = spec_step(state);
        let rem = pool - defend;
        if rem > 0 {
            let s2 = spec_step(s1);
            if spec_draw(s1, 0, 9) < 3 {
                (Turn { attack: spec_draw(s2, 1, rem) as u32, defend: defend as u32 }, spec_step(
                    s2,
                ))
            } else {
                (Turn { attack: 0, defend: defend as u32 }, s2)
            }
        } else {
            (Turn { attack: 0, defend: defend as u32 }, s1)
        }
    } else if ratio_high(unit.health as int, max_health) {
        let attack = spec_draw(state, pool / 2, pool);
        let s1 = spec_step(state);
        let rem = pool - attack;
        if rem > 0 {
            let s2 = spec_step(s1);
            if spec_draw(s1, 0, 4) < 2 {
                (Turn { attack: attack as u32, defend: spec_draw(s2, 1, rem) as u32 }, spec_step(
                    s2,
                ))
            } else {
                (Turn { attack: attack as u32, defend: 0 }, s2)
            }
        } else {
            (Turn { attack: attack as u32, defend: 0 }, s1)
        }
    } else {
        let attack = spec_draw(state, 0, pool);
        let s1 = spec_step(state);
        let rem = pool - attack;
        if rem > 0 {
            (Turn { attack: attack as u32, defend: spec_draw(s1, 0, rem) as u32 }, spec_step(s1))
        } else {
            (Turn { attack: attack as u32, defend: 0 }, s1)
        }
    }
}

/// Chooses the enemy's allocation for one turn from its saved and base
/// points and its health state: mostly defend at low health, mostly attack
/// at high health, a random mix in between. Every draw is guarded so the
/// pool-0 case degrades to `(0, 0)` and no draw ever sees an empty range.
/// The remainder `pool - attack - defend` is recoverable by the caller as
/// the unit's carry-over.
pub fn enemy_turn(saved_points: u32, base_points: u32, unit: &Unit) -> (t: Turn)
    requires
        unit.wf(),
    ensures
        policy_ok(t, spec_pool(base_points as int, saved_points as int), *unit),
{
    let max_pool = compute_pool(base_points, saved_points);
    let mut pool = max_pool;
    let mut attack: u32 = 0;
    let mut defend: u32 = 0;

    let hp = if unit.health > 0 {
        unit.health
    } else {
        0
    };
    let (max_health, _) = unit.unit_type.stats();

    if 100 * hp < 33 * max_health {
        // Low health: mostly defend.
        defend = draw_in_range(pool / 2, pool);
        pool = pool - defend;
        if pool > 0 && draw_chance(3, 10) {
            attack = draw_in_range(1, pool);
            pool = pool - attack;
        }
    } else if 100 * hp > 66 * max_health {
        // High health: mostly attack.
        attack = draw_in_range(pool / 2, pool);
        pool = pool - attack;
        if pool > 0 && draw_chance(2, 5) {
            defend = draw_in_range(1, pool);
            pool = pool - defend;
        }
    } else {
        // Balanced health: mix randomly.
        attack = draw_in_range(0, pool);
        pool = pool - attack;
        if pool > 0 {
            defend = draw_in_range(0, pool);
            pool = pool - defend;
        }
    }

    Turn { attack, defend }
}

/// The decision policy as a pure function of its inputs and an injected
/// deterministic draw source: the same three regimes and the same
/// guarantees as `enemy_turn`, and the result and successor state are
/// exactly `spec_policy` of the inputs, so equal seeds reproduce equal
/// allocations.
pub fn enemy_turn_seeded(
    saved_points: u32,
    base_points: u32,
    unit: &Unit,
    rng: &mut SeededRng,
) -> (t: Turn)
    requires
        unit.wf(),
    ensures
        policy_ok(t, spec_pool(base_points as int, saved_points as int), *unit),
        (t, final(rng).state) == spec_policy(saved_points, base_points, *unit, old(rng).state),
{
    let max_pool = compute_pool(base_points, saved_points);
    let mut pool = max_pool;
    let mut attack: u32 = 0;
    let mut defend: u32 = 0;

    let hp = if unit.health > 0 {
        unit.health
    } else {
        0
    };
    let (max_health, _) = unit.unit_type.stats();

    if 100 * hp < 33 * max_health {
        // Low health: mostly defend.
        defend = rng.next_in_range(pool / 2, pool);
        pool = pool - defend;
        if pool > 0 && rng.chance(3, 10) {
            attack = rng.next_in_range(1, pool);
            pool = pool - attack;
        }
    } else if 100 * hp > 66 * max_health {
        // High health: mostly attack.
        attack = rng.next_in_range(pool / 2, pool);
        pool = pool - attack;
        if pool > 0 && rng.chance(2, 5) {
            defend = rng.next_in_range(1, pool);
            pool = pool - defend;
        }
    } else {
        // Balanced health: mix randomly.
        attack = rng.next_in_range(0, pool);
        pool = pool - attack;
        if pool > 0 {
            defend = rng.next_in_range(0, pool);
            pool = pool - defend;
        }
    }

    Turn { attack, defend }
}

} // verus!
