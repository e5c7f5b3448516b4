//! Point pool economy: per-round point budgeting and carry-over capping.

use vstd::prelude::*;

verus! {

/// Base points granted to each side at the start of a round:
/// `min(4, round + 1)`. Defined for `round >= 1`.
pub open spec fn spec_base_points(round: int) -> int {
    if round + 1 >= 4 {
        4
    } else {
        round + 1
    }
}

/// Point budget available to one acting unit on a turn: `min(8, base + saved)`.
pub open spec fn spec_pool(base: int, saved: int) -> int {
    if base + saved >= 8 {
        8
    } else {
        base + saved
    }
}

/// Points saved for the acting unit's next turn: `min(8, pool - spent)`.
pub open spec fn spec_carry_over(pool: int, spent: int) -> int {
    if pool - spent >= 8 {
        8
    } else {
        pool - spent
    }
}

/// Returns base points for a round, growing with the round number until
/// saturating at 4.
pub fn base_points_for_round(round: u32) -> (p: u32)
    requires
        round >= 1,
    ensures
        p == spec_base_points(round as int),
{
    if round >= 3 {
        4
    } else {
        1 + round
    }
}

/// Combines a side's base points with its saved points, capping the pool at 8.
pub fn compute_pool(base: u32, saved: u32) -> (pool: u32)
    ensures
        pool == spec_pool(base as int, saved as int),
        pool <= 8,
{
    if saved >= 8 || base >= 8 - saved {
        8
    } else {
        base + saved
    }
}

/// Unspent points carried over to the acting unit's next turn, capped at 8.
/// Spending more than the pool is a contract violation upstream, so it is
/// ruled out here rather than clamped.
pub fn compute_carry_over(pool: u32, spent: u32) -> (saved: u32)
    requires
        spent <= pool,
    ensures
        saved == spec_carry_over(pool as int, spent as int),
        saved <= 8,
{
    let rest = pool - spent;
    if rest >= 8 {
        8
    } else {
        rest
    }
}

/// Base points never decrease from one round to the next.
pub proof fn lemma_base_points_monotone(r1: int, r2: int)
    requires
        1 <= r1 <= r2,
    ensures
        spec_base_points(r1) <= spec_base_points(r2),
{
}

/// Base points saturate at 4 from round 3 on.
pub proof fn lemma_base_points_cap(r: int)
    requires
        r >= 3,
    ensures
        spec_base_points(r) == 4,
{
}

/// Every pool built from non-negative inputs lies in `[0, 8]`.
pub proof fn lemma_pool_range(base: int, saved: int)
    requires
        base >= 0,
        saved >= 0,
    ensures
        0 <= spec_pool(base, saved) <= 8,
{
}

} // verus!
