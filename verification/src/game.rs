//! Round/match controller: sequences turns between the player team and one
//! enemy team, tracks per-unit carry-over, rotates the frontliner, and
//! reports the terminal transitions.
//!
//! The library itself never loops: each call advances the match by exactly
//! one step, so a caller whose sides perpetually allocate nothing is itself
//! responsible for bounding the number of rounds it plays.

use crate::enemy_turn::{enemy_turn, policy_ok};
use crate::misc::{
    first_alive_index, is_first_alive, lemma_alive_count_bounds, lemma_alive_count_zero_iff,
    spec_alive_count, swap_to_front, team_alive_count,
};
use crate::pool::{
    base_points_for_round, compute_carry_over, compute_pool, spec_base_points, spec_carry_over,
    spec_pool,
};
use crate::resolve::{dir_damage, dir_logged, event_is, lemma_dir_damage_bounds, resolve_pair, Event};
use crate::turn::Turn;
use crate::unit::{GameError, Unit};
use vstd::pervasive::unreached;
use vstd::prelude::*;

verus! {

/// The most damage one turn can deal to one unit: base damage at most 18
/// times at most 8 attack points.
pub const MAX_TURN_DAMAGE: i32 = 144;

/// Where a match stands.
#[derive(Clone, Copy, PartialEq, Eq, Structural, Debug)]
pub enum MatchOutcome {
    /// Both teams still have living units.
    InProgress,
    /// The enemy team has no living units: the player wins the round.
    PlayerWin,
    /// The player team has no living units: the player loses the match.
    PlayerLoss,
}

/// A team is three well-formed units. Health never falls below
/// `1 - MAX_TURN_DAMAGE`, because only a living unit (health at least 1) is
/// ever targeted and one turn deals it at most `MAX_TURN_DAMAGE`.
pub open spec fn team_wf(team: Seq<Unit>) -> bool {
    &&& team.len() == 3
    &&& forall|i: int| 0 <= i < team.len() ==> (#[trigger] team[i]).wf()
    &&& forall|i: int| 0 <= i < team.len() ==> (#[trigger] team[i]).health > -MAX_TURN_DAMAGE
}

/// Two units that differ at most in their health.
pub open spec fn same_unit_but_health(a: Unit, b: Unit) -> bool {
    &&& a.name == b.name
    &&& a.unit_type == b.unit_type
    &&& a.base_damage == b.base_damage
}

/// One match between the player team and one enemy team. Carry-over is
/// tracked per unit identity: one value for the player side's acting slot
/// and one per enemy slot.
pub struct MatchState {
    pub player_team: Vec<Unit>,
    pub enemy_team: Vec<Unit>,
    pub round: u32,
    pub player_saved: u32,
    pub enemy_saved: Vec<u32>,
}

/// Exact effect of one resolved turn on the match state: `post` is `pre`
/// with both damage directions applied to the two acting units, both sides'
/// carry-over updated, the round advanced, and `events` the structured log
/// of the exchange.
pub open spec fn turn_post(
    pre: MatchState,
    player_turn: Turn,
    et: Turn,
    ei: int,
    post: MatchState,
    events: Seq<Event>,
) -> bool {
    let ppool = spec_pool(spec_base_points(pre.round as int), pre.player_saved as int);
    let epool = spec_pool(spec_base_points(pre.round as int), pre.enemy_saved@[ei] as int);
    let pu = pre.player_team@[0];
    let eu = pre.enemy_team@[ei];
    let to_enemy = dir_damage(player_turn.attack, et.defend, pu.base_damage as int);
    let to_player = dir_damage(et.attack, player_turn.defend, eu.base_damage as int);
    &&& is_first_alive(pre.enemy_team@, ei)
    &&& post.player_team@.len() == 3
    &&& post.enemy_team@.len() == 3
    &&& (forall|j: int| 1 <= j < 3 ==> post.player_team@[j] == pre.player_team@[j])
    &&& (forall|j: int| 0 <= j < 3 && j != ei ==> post.enemy_team@[j] == pre.enemy_team@[j])
    &&& same_unit_but_health(post.player_team@[0], pu)
    &&& post.player_team@[0].health == pu.health - to_player
    &&& same_unit_but_health(post.enemy_team@[ei], eu)
    &&& post.enemy_team@[ei].health == eu.health - to_enemy
    &&& post.player_saved == spec_carry_over(ppool, player_turn.spent())
    &&& post.enemy_saved@.len() == 3
    &&& (forall|j: int| 0 <= j < 3 && j != ei ==> post.enemy_saved@[j] == pre.enemy_saved@[j])
    &&& post.enemy_saved@[ei] == spec_carry_over(epool, et.spent())
    &&& post.round == if pre.round < u32::MAX {
        pre.round + 1
    } else {
        pre.round as int
    }
    &&& events.len() == dir_logged(player_turn.attack) + dir_logged(et.attack)
    &&& (player_turn.attack > 0 ==> event_is(
        events[0],
        pu,
        eu,
        player_turn.attack,
        et.defend,
        pu.base_damage as int,
    ))
    &&& (et.attack > 0 ==> event_is(
        events[events.len() - 1],
        eu,
        pu,
        et.attack,
        player_turn.defend,
        eu.base_damage as int,
    ))
}

impl MatchState {
    /// Well-formedness: both teams are three well-formed units, both sides'
    /// carry-over is capped at 8, and rounds are 1-indexed.
    pub open spec fn wf(self) -> bool {
        &&& team_wf(self.player_team@)
        &&& team_wf(self.enemy_team@)
        &&& self.enemy_saved@.len() == 3
        &&& self.player_saved <= 8
        &&& (forall|i: int| 0 <= i < 3 ==> self.enemy_saved@[i] <= 8)
        &&& self.round >= 1
    }

    /// Where the match stands: enemy elimination is checked first, so a turn
    /// that fells both teams counts as a player win.
    pub open spec fn spec_outcome(self) -> MatchOutcome {
        if spec_alive_count(self.enemy_team@) == 0 {
            MatchOutcome::PlayerWin
        } else if spec_alive_count(self.player_team@) == 0 {
            MatchOutcome::PlayerLoss
        } else {
            MatchOutcome::InProgress
        }
    }

    /// Starts a match at round 1 against a fresh enemy team while the player
    /// side keeps the savings it carried out of its previous match. Each
    /// enemy unit starts with no savings of its own.
    pub fn new_carrying(player_team: Vec<Unit>, enemy_team: Vec<Unit>, player_saved: u32) -> (m:
        MatchState)
        requires
            team_wf(player_team@),
            team_wf(enemy_team@),
            player_saved <= 8,
        ensures
            m.wf(),
            m.player_team@ == player_team@,
            m.enemy_team@ == enemy_team@,
            m.round == 1,
            m.player_saved == player_saved,
            forall|i: int| 0 <= i < 3 ==> m.enemy_saved@[i] == 0,
    {
        let mut enemy_saved: Vec<u32> = Vec::new();
        enemy_saved.push(0);
        enemy_saved.push(0);
        enemy_saved.push(0);
        MatchState { player_team, enemy_team, round: 1, player_saved, enemy_saved }
    }

    /// Starts a match between two teams at round 1 with no saved points.
    pub fn new(player_team: Vec<Unit>, enemy_team: Vec<Unit>) -> (m: MatchState)
        requires
            team_wf(player_team@),
            team_wf(enemy_team@),
        ensures
            m.wf(),
            m.player_team@ == player_team@,
            m.enemy_team@ == enemy_team@,
            m.round == 1,
            m.player_saved == 0,
            forall|i: int| 0 <= i < 3 ==> m.enemy_saved@[i] == 0,
    {
        Self::new_carrying(player_team, enemy_team, 0)
    }

    /// The player side's point pool for the current round.
    pub fn player_pool(&self) -> (pool: u32)
        requires
            self.wf(),
        ensures
            pool == spec_pool(spec_base_points(self.round as int), self.player_saved as int),
            pool <= 8,
    {
        let base = base_points_for_round(self.round);
        compute_pool(base, self.player_saved)
    }

    /// The pool of the enemy unit in slot `idx` for the current round.
    pub fn enemy_pool(&self, idx: usize) -> (pool: u32)
        requires
            self.wf(),
            idx < 3,
        ensures
            pool == spec_pool(spec_base_points(self.round as int), self.enemy_saved@[idx as int] as int),
            pool <= 8,
    {
        let base = base_points_for_round(self.round);
        compute_pool(base, self.enemy_saved[idx])
    }

    /// The slot of the enemy unit that acts and is targeted this turn: the
    /// first living unit in enemy team order.
    pub fn enemy_acting_index(&self) -> (r: Option<usize>)
        ensures
            match r {
                Some(i) => is_first_alive(self.enemy_team@, i as int),
                None => spec_alive_count(self.enemy_team@) == 0,
            },
    {
        let r = first_alive_index(&self.enemy_team);
        proof {
            if r is None {
                lemma_alive_count_zero_iff(self.enemy_team@);
            }
        }
        r
    }

    /// Reports where the match stands.
    pub fn outcome(&self) -> (o: MatchOutcome)
        requires
            self.wf(),
        ensures
            o == self.spec_outcome(),
    {
        if team_alive_count(&self.enemy_team) == 0 {
            MatchOutcome::PlayerWin
        } else if team_alive_count(&self.player_team) == 0 {
            MatchOutcome::PlayerLoss
        } else {
            MatchOutcome::InProgress
        }
    }

    /// If the player's frontliner has fallen, promotes the first living unit
    /// to slot 0. Returns false, leaving the state unchanged, exactly when
    /// no player unit is alive.
    pub fn prepare_frontliner(&mut self) -> (ok: bool)
        requires
            old(self).wf(),
        ensures
            final(self).wf(),
            ok <==> spec_alive_count(old(self).player_team@) > 0,
            !ok ==> *final(self) == *old(self),
            ok ==> final(self).player_team@[0].health > 0,
            ok ==> exists|i: int|
                #[trigger] is_first_alive(old(self).player_team@, i)
                    && final(self).player_team@ == old(self).player_team@.update(
                    0,
                    old(self).player_team@[i],
                ).update(i, old(self).player_team@[0]),
            final(self).enemy_team == old(self).enemy_team,
            final(self).round == old(self).round,
            final(self).player_saved == old(self).player_saved,
            final(self).enemy_saved == old(self).enemy_saved,
    {
        proof {
            lemma_alive_count_zero_iff(self.player_team@);
            lemma_alive_count_bounds(self.player_team@);
        }
        if self.player_team[0].is_alive() {
            proof {
                let s = self.player_team@;
                assert(is_first_alive(s, 0));
                assert(s.update(0, s[0]).update(0, s[0]) =~= s);
            }
            return true;
        }
        match first_alive_index(&self.player_team) {
            None => false,
            Some(idx) => {
                swap_to_front(&mut self.player_team, idx);
                true
            },
        }
    }

    /// Applies the player's manual frontliner choice, swapping slot 0 with
    /// slot `slot`. A slot out of range or holding a fallen unit is refused
    /// and the state is left unchanged.
    pub fn swap_frontliner(&mut self, slot: usize) -> (ok: bool)
        requires
            old(self).wf(),
        ensures
            final(self).wf(),
            ok <==> (slot < 3 && old(self).player_team@[slot as int].health > 0),
            !ok ==> *final(self) == *old(self),
            ok ==> final(self).player_team@ == old(self).player_team@.update(
                0,
                old(self).player_team@[slot as int],
            ).update(slot as int, old(self).player_team@[0]),
            final(self).enemy_team == old(self).enemy_team,
            final(self).round == old(self).round,
            final(self).player_saved == old(self).player_saved,
            final(self).enemy_saved == old(self).enemy_saved,
    {
        if slot >= 3 {
            return false;
        }
        if !self.player_team[slot].is_alive() {
            return false;
        }
        swap_to_front(&mut self.player_team, slot);
        true
    }

    /// Heals the whole player team back to archetype maximum, as happens
    /// after a round win.
    pub fn heal_player_team(&mut self)
        requires
            old(self).wf(),
        ensures
            final(self).wf(),
            final(self).player_team@.len() == 3,
            forall|i: int|
                0 <= i < 3 ==> same_unit_but_health(
                    #[trigger] final(self).player_team@[i],
                    old(self).player_team@[i],
                ),
            forall|i: int|
                0 <= i < 3 ==> (#[trigger] final(self).player_team@[i]).health == old(
                    self,
                ).player_team@[i].unit_type.spec_stats().0,
            final(self).enemy_team == old(self).enemy_team,
            final(self).round == old(self).round,
            final(self).player_saved == old(self).player_saved,
            final(self).enemy_saved == old(self).enemy_saved,
    {
        let mut i: usize = 0;
        while i < self.player_team.len()
            invariant
                old(self).wf(),
                i <= 3,
                self.player_team@.len() == 3,
                forall|j: int|
                    i <= j < 3 ==> #[trigger] self.player_team@[j] == old(self).player_team@[j],
                forall|j: int|
                    0 <= j < i ==> same_unit_but_health(
                        #[trigger] self.player_team@[j],
                        old(self).player_team@[j],
                    ),
                forall|j: int|
                    0 <= j < i ==> (#[trigger] self.player_team@[j]).health == old(
                        self,
                    ).player_team@[j].unit_type.spec_stats().0,
                self.enemy_team == old(self).enemy_team,
                self.round == old(self).round,
                self.player_saved == old(self).player_saved,
                self.enemy_saved == old(self).enemy_saved,
            decreases 3 - i,
        {
            let ut = self.player_team[i].unit_type;
            let (max_health, _) = ut.stats();
            let u = &mut self.player_team[i];
            u.health = max_health;
            i = i + 1;
        }
    }

    /// Resolves one full turn from both sides' allocations. The player's
    /// allocation is checked against the player pool: overspending it is a
    /// loud `AllocationOverflow`, never a silent clamp, and leaves the state
    /// untouched. The enemy allocation must respect the acting enemy unit's
    /// pool, which the decision policy guarantees by construction. On
    /// success, both damage directions are applied simultaneously, both
    /// sides' carry-over is recomputed, the round advances (saturating far
    /// beyond any reachable round), and the structured log of the exchange
    /// is returned.
    pub fn resolve_turn(&mut self, player_turn: &Turn, et: &Turn) -> (r: Result<
        Vec<Event>,
        GameError,
    >)
        requires
            old(self).wf(),
            old(self).player_team@[0].health > 0,
            spec_alive_count(old(self).enemy_team@) > 0,
            forall|ei: int|
                is_first_alive(old(self).enemy_team@, ei) ==> et.spent() <= spec_pool(
                    spec_base_points(old(self).round as int),
                    old(self).enemy_saved@[ei] as int,
                ),
        ensures
            final(self).wf(),
            r is Err <==> player_turn.spent() > spec_pool(
                spec_base_points(old(self).round as int),
                old(self).player_saved as int,
            ),
            r is Err ==> r->Err_0 == GameError::AllocationOverflow && *final(self) == *old(self),
            r is Ok ==> forall|ei: int|
                is_first_alive(old(self).enemy_team@, ei) ==> turn_post(
                    *old(self),
                    *player_turn,
                    *et,
                    ei,
                    *final(self),
                    r->Ok_0@,
                ),
    {
        let base = base_points_for_round(self.round);
        let ppool = compute_pool(base, self.player_saved);
        if player_turn.attack > ppool || player_turn.defend > ppool - player_turn.attack {
            return Err(GameError::AllocationOverflow);
        }
        let spent = player_turn.attack + player_turn.defend;

        let ei = match first_alive_index(&self.enemy_team) {
            Some(i) => i,
            None => {
                proof {
                    lemma_alive_count_zero_iff(self.enemy_team@);
                }
                unreached()
            },
        };
        let epool = compute_pool(base, self.enemy_saved[ei]);
        let espent = et.attack + et.defend;

        proof {
            lemma_dir_damage_bounds(
                player_turn.attack,
                et.defend,
                self.player_team@[0].base_damage as int,
            );
            lemma_dir_damage_bounds(
                et.attack,
                player_turn.defend,
                self.enemy_team@[ei as int].base_damage as int,
            );
        }
        let mut log: Vec<Event> = Vec::new();
        resolve_pair(&mut self.player_team[0], player_turn, &mut self.enemy_team[ei], et, &mut log);

        self.player_saved = compute_carry_over(ppool, spent);
        let ecarry = compute_carry_over(epool, espent);
        let slot = &mut self.enemy_saved[ei];
        *slot = ecarry;

        if self.round < u32::MAX {
            self.round = self.round + 1;
        }
        Ok(log)
    }

    /// Plays one full turn: draws the enemy's allocation from the decision
    /// policy for the acting enemy unit, then resolves both sides. Whatever
    /// the policy drew, the resulting state is one resolved turn against an
    /// allocation that respected the enemy pool and the policy's regime
    /// guarantees.
    pub fn play_turn(&mut self, player_turn: &Turn) -> (r: Result<Vec<Event>, GameError>)
        requires
            old(self).wf(),
            old(self).player_team@[0].health > 0,
            spec_alive_count(old(self).enemy_team@) > 0,
        ensures
            final(self).wf(),
            r is Err <==> player_turn.spent() > spec_pool(
                spec_base_points(old(self).round as int),
                old(self).player_saved as int,
            ),
            r is Err ==> r->Err_0 == GameError::AllocationOverflow && *final(self) == *old(self),
            r is Ok ==> exists|et: Turn, ei: int|
                policy_ok(
                    et,
                    spec_pool(
                        spec_base_points(old(self).round as int),
                        old(self).enemy_saved@[ei] as int,
                    ),
                    old(self).enemy_team@[ei],
                ) && #[trigger] turn_post(
                    *old(self),
                    *player_turn,
                    et,
                    ei,
                    *final(self),
                    r->Ok_0@,
                ),
    {
        let ei = match first_alive_index(&self.enemy_team) {
            Some(i) => i,
            None => {
                proof {
                    lemma_alive_count_zero_iff(self.enemy_team@);
                }
                unreached()
            },
        };
        let base = base_points_for_round(self.round);
        let et = enemy_turn(self.enemy_saved[ei], base, &self.enemy_team[ei]);
        let r = self.resolve_turn(player_turn, &et);
        proof {
            if r is Ok {
                assert(turn_post(
                    *old(self),
                    *player_turn,
                    et,
                    ei as int,
                    *self,
                    r->Ok_0@,
                ));
            }
        }
        r
    }
}

} // verus!
