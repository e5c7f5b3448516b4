//! Turn resolution engine: compares two allocations, computes damage for
//! both directions at once, and produces a structured log.

use crate::turn::Turn;
use crate::unit::Unit;
use vstd::prelude::*;

verus! {

/// One attack direction's structured outcome within a turn: either damage
/// dealt (`blocked == false`) or an attack fully absorbed by the defence
/// (`blocked == true`). Attacking with 0 points produces no record.
#[derive(Debug)]
pub struct Event {
    pub actor: String,
    pub target: String,
    pub attack_points: u32,
    pub defend_points: u32,
    pub damage: i32,
    pub blocked: bool,
}

/// Damage one direction deals: `base_damage * (attack - defend)` when the
/// attack overcomes the defence, 0 otherwise.
pub open spec fn dir_damage(attack: u32, defend: u32, base_damage: int) -> int {
    if attack > defend {
        base_damage * (attack - defend)
    } else {
        0
    }
}

/// Damage for one direction is non-negative and, with base damage at most 18
/// and at most 8 attack points, never exceeds 144.
pub proof fn lemma_dir_damage_bounds(attack: u32, defend: u32, base_damage: int)
    requires
        0 <= base_damage <= 18,
        attack <= 8,
    ensures
        0 <= dir_damage(attack, defend, base_damage) <= 144,
{
    if attack > defend {
        assert(0 <= base_damage * (attack - defend) <= 144) by (nonlinear_arith)
            requires
                0 <= base_damage <= 18,
                0 < attack - defend <= 8,
        ;
    }
}

/// How many records one direction logs: a hit and a fully blocked attack
/// are one record each; attacking with 0 points logs nothing.
pub open spec fn dir_logged(attack: u32) -> int {
    if attack > 0 {
        1
    } else {
        0
    }
}

/// The record one direction logs, field by field.
pub open spec fn event_is(
    e: Event,
    actor: Unit,
    target: Unit,
    attack: u32,
    defend: u32,
    base_damage: int,
) -> bool {
    &&& e.actor == actor.name
    &&& e.target == target.name
    &&& e.attack_points == attack
    &&& e.defend_points == defend
    &&& e.damage == dir_damage(attack, defend, base_damage)
    &&& e.blocked == (attack > 0 && attack <= defend)
}

/// Resolves both directions of one turn simultaneously: each side's attack
/// is compared against the other side's pre-damage defend value, damage is
/// subtracted from the target's health (which has no floor during
/// computation), and each attempted attack is appended to the log as a hit
/// or as blocked. Damage from one direction never reduces the opposing
/// side's effective defence within the same turn.
pub fn resolve_pair(
    player_unit: &mut Unit,
    player_turn: &Turn,
    enemy_unit: &mut Unit,
    enemy_turn: &Turn,
    log: &mut Vec<Event>,
)
    requires
        old(player_unit).wf(),
        old(enemy_unit).wf(),
        player_turn.spent() <= 8,
        enemy_turn.spent() <= 8,
        old(player_unit).health - 144 >= i32::MIN,
        old(enemy_unit).health - 144 >= i32::MIN,
    ensures
        final(enemy_unit).health == old(enemy_unit).health - dir_damage(
            player_turn.attack,
            enemy_turn.defend,
            old(player_unit).base_damage as int,
        ),
        final(player_unit).health == old(player_unit).health - dir_damage(
            enemy_turn.attack,
            player_turn.defend,
            old(enemy_unit).base_damage as int,
        ),
        final(player_unit).name == old(player_unit).name,
        final(player_unit).unit_type == old(player_unit).unit_type,
        final(player_unit).base_damage == old(player_unit).base_damage,
        final(enemy_unit).name == old(enemy_unit).name,
        final(enemy_unit).unit_type == old(enemy_unit).unit_type,
        final(enemy_unit).base_damage == old(enemy_unit).base_damage,
        final(player_unit).wf(),
        final(enemy_unit).wf(),
        final(log)@.len() == old(log)@.len() + dir_logged(player_turn.attack) + dir_logged(
            enemy_turn.attack,
        ),
        forall|i: int| 0 <= i < old(log)@.len() ==> final(log)@[i] == old(log)@[i],
        player_turn.attack > 0 ==> event_is(
            final(log)@[old(log)@.len() as int],
            *old(player_unit),
            *old(enemy_unit),
            player_turn.attack,
            enemy_turn.defend,
            old(player_unit).base_damage as int,
        ),
        enemy_turn.attack > 0 ==> event_is(
            final(log)@[final(log)@.len() - 1],
            *old(enemy_unit),
            *old(player_unit),
            enemy_turn.attack,
            player_turn.defend,
            old(enemy_unit).base_damage as int,
        ),
{
    let p_att = player_turn.attack;
    let p_def = player_turn.defend;
    let e_att = enemy_turn.attack;
    let e_def = enemy_turn.defend;

    // Player attack resolution.
    if p_att > e_def {
        let diff = (p_att - e_def) as i32;
        proof {
            assert(0 <= player_unit.base_damage * diff <= 144) by (nonlinear_arith)
                requires
                    0 <= player_unit.base_damage <= 18,
                    0 <= diff <= 8,
            ;
        }
        let dmg = player_unit.base_damage * diff;
        enemy_unit.health = enemy_unit.health - dmg;
        log.push(
            Event {
                actor: player_unit.name.clone(),
                target: enemy_unit.name.clone(),
                attack_points: p_att,
                defend_points: e_def,
                damage: dmg,
                blocked: false,
            },
        );
    } else if p_att > 0 {
        log.push(
            Event {
                actor: player_unit.name.clone(),
                target: enemy_unit.name.clone(),
                attack_points: p_att,
                defend_points: e_def,
                damage: 0,
                blocked: true,
            },
        );
    }

    // Enemy attack resolution, against the player's pre-damage defend value.
    if e_att > p_def {
        let diff = (e_att - p_def) as i32;
        proof {
            assert(0 <= enemy_unit.base_damage * diff <= 144) by (nonlinear_arith)
                requires
                    0 <= enemy_unit.base_damage <= 18,
                    0 <= diff <= 8,
            ;
        }
        let dmg = enemy_unit.base_damage * diff;
        player_unit.health = player_unit.health - dmg;
        log.push(
            Event {
                actor: enemy_unit.name.clone(),
                target: player_unit.name.clone(),
                attack_points: e_att,
                defend_points: p_def,
                damage: dmg,
                blocked: false,
            },
        );
    } else if e_att > 0 {
        log.push(
            Event {
                actor: enemy_unit.name.clone(),
                target: player_unit.name.clone(),
                attack_points: e_att,
                defend_points: p_def,
                damage: 0,
                blocked: true,
            },
        );
    }
}

} // verus!
