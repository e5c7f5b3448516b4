//! Team-level helpers: counting living units and finding the acting unit.

use crate::unit::Unit;
use vstd::prelude::*;

verus! {

/// Number of units in the team whose health is above zero.
pub open spec fn spec_alive_count(team: Seq<Unit>) -> int
    decreases team.len(),
{
    if team.len() == 0 {
        0
    } else {
        spec_alive_count(team.drop_last()) + if team.last().health > 0 {
            1int
        } else {
            0int
        }
    }
}

/// A team in which every unit's health is at or below zero has no living
/// units; a team with any living unit has a positive count.
pub proof fn lemma_alive_count_zero_iff(team: Seq<Unit>)
    ensures
        spec_alive_count(team) == 0 <==> (forall|i: int|
            0 <= i < team.len() ==> team[i].health <= 0),
    decreases team.len(),
{
    if team.len() > 0 {
        lemma_alive_count_zero_iff(team.drop_last());
        lemma_alive_count_bounds(team.drop_last());
        assert(forall|i: int| 0 <= i < team.len() - 1 ==> team.drop_last()[i] == team[i]);
    }
}

/// The alive count always lies between 0 and the team size.
pub proof fn lemma_alive_count_bounds(team: Seq<Unit>)
    ensures
        0 <= spec_alive_count(team) <= team.len(),
    decreases team.len(),
{
    if team.len() > 0 {
        lemma_alive_count_bounds(team.drop_last());
    }
}

/// Counts how many units in a team are alive.
pub fn team_alive_count(team: &Vec<Unit>) -> (n: usize)
    ensures
        n == spec_alive_count(team@),
        n <= team@.len(),
{
    let mut n: usize = 0;
    let mut i: usize = 0;
    while i < team.len()
        invariant
            i <= team@.len(),
            n <= i,
            n == spec_alive_count(team@.take(i as int)),
        decreases team@.len() - i,
    {
        proof {
            assert(team@.take(i + 1).drop_last() =~= team@.take(i as int));
            assert(team@.take(i + 1).last() == team@[i as int]);
        }
        if team[i].is_alive() {
            n = n + 1;
        }
        i = i + 1;
    }
    proof {
        assert(team@.take(team@.len() as int) =~= team@);
    }
    n
}

/// Slot `i` holds the first living unit in team order.
pub open spec fn is_first_alive(team: Seq<Unit>, i: int) -> bool {
    &&& 0 <= i < team.len()
    &&& team[i].health > 0
    &&& forall|j: int| 0 <= j < i ==> team[j].health <= 0
}

/// Finds the first living unit in team order, the slot that acts and is
/// targeted on that side's turn.
pub fn first_alive_index(team: &Vec<Unit>) -> (r: Option<usize>)
    ensures
        match r {
            Some(i) => is_first_alive(team@, i as int),
            None => forall|j: int| 0 <= j < team@.len() ==> team@[j].health <= 0,
        },
{
    let mut i: usize = 0;
    while i < team.len()
        invariant
            i <= team@.len(),
            forall|j: int| 0 <= j < i ==> team@[j].health <= 0,
        decreases team@.len() - i,
    {
        if team[i].is_alive() {
            return Some(i);
        }
        i = i + 1;
    }
    None
}

/// Swaps slot `i` with slot 0, making that unit the frontliner.
pub fn swap_to_front(team: &mut Vec<Unit>, i: usize)
    requires
        i < old(team)@.len(),
    ensures
        final(team)@ == old(team)@.update(0, old(team)@[i as int]).update(i as int, old(team)@[0]),
{
    if i == 0 {
        proof {
            assert(team@.update(0, team@[0]).update(0, team@[0]) =~= team@);
        }
        return ;
    }
    let u = team.remove(i);
    let v = team.remove(0);
    team.insert(0, u);
    team.insert(i, v);
    proof {
        assert(team@ =~= old(team)@.update(0, old(team)@[i as int]).update(
            i as int,
            old(team)@[0],
        ));
    }
}

} // verus!
