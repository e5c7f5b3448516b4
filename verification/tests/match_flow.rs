use combat_sim::game::{MatchOutcome, MatchState};
use combat_sim::misc::team_alive_count;
use combat_sim::turn::Turn;
use combat_sim::unit::{GameError, Unit, UnitType};

fn team(names: [&str; 3], t: UnitType) -> Vec<Unit> {
    names.iter().map(|n| Unit::new(n, t).unwrap()).collect()
}

#[test]
fn alive_count_counts_positive_health() {
    let mut units = team(["a", "b", "c"], UnitType::Medium);
    assert_eq!(team_alive_count(&units), 3);
    units[0].health = 0;
    units[2].health = -7;
    assert_eq!(team_alive_count(&units), 1);
}

#[test]
fn eliminated_team_reports_zero_alive_and_ends_the_match() {
    let player = team(["a", "b", "c"], UnitType::Large);
    let mut enemy = team(["x", "y", "z"], UnitType::Light);
    for u in enemy.iter_mut() {
        u.health = -3;
    }
    assert_eq!(team_alive_count(&enemy), 0);
    let m = MatchState::new(player, enemy);
    assert_eq!(m.outcome(), MatchOutcome::PlayerWin);

    let mut player2 = team(["a", "b", "c"], UnitType::Large);
    let enemy2 = team(["x", "y", "z"], UnitType::Light);
    for u in player2.iter_mut() {
        u.health = 0;
    }
    let m2 = MatchState::new(player2, enemy2);
    assert_eq!(m2.outcome(), MatchOutcome::PlayerLoss);
}

#[test]
fn overspending_the_pool_fails_loudly() {
    let mut m = MatchState::new(
        team(["a", "b", "c"], UnitType::Large),
        team(["x", "y", "z"], UnitType::Light),
    );
    // Round 1: base points 2, no savings, pool 2.
    assert_eq!(m.player_pool(), 2);
    let before = m.player_team[0].health;
    let r = m.play_turn(&Turn { attack: 2, defend: 1 });
    assert_eq!(r.unwrap_err(), GameError::AllocationOverflow);
    // The failed turn changed nothing.
    assert_eq!(m.round, 1);
    assert_eq!(m.player_team[0].health, before);
}

#[test]
fn unspent_points_carry_over_capped() {
    let mut m = MatchState::new(
        team(["a", "b", "c"], UnitType::Large),
        team(["x", "y", "z"], UnitType::Large),
    );
    // Spend nothing for three rounds: savings 2, then min(8, 2+3) = 5,
    // then min(8, 5+4) = 8; pool stays capped at 8 afterwards.
    let zero = Turn { attack: 0, defend: 0 };
    let et = Turn { attack: 0, defend: 0 };
    assert!(m.resolve_turn(&zero, &et).is_ok());
    assert_eq!(m.player_saved, 2);
    assert_eq!(m.round, 2);
    assert!(m.resolve_turn(&zero, &et).is_ok());
    assert_eq!(m.player_saved, 5);
    assert!(m.resolve_turn(&zero, &et).is_ok());
    assert_eq!(m.player_saved, 8);
    assert_eq!(m.player_pool(), 8);
    assert!(m.resolve_turn(&zero, &et).is_ok());
    assert_eq!(m.player_saved, 8);
}

#[test]
fn savings_carry_into_a_new_match() {
    // A new match against the next enemy team keeps the player side's
    // savings: round 1 base points 2 plus 8 carried, capped at 8.
    let m = MatchState::new_carrying(
        team(["a", "b", "c"], UnitType::Large),
        team(["x", "y", "z"], UnitType::Large),
        8,
    );
    assert_eq!(m.player_saved, 8);
    assert_eq!(m.player_pool(), 8);
    assert_eq!(m.enemy_saved, vec![0, 0, 0]);
    assert_eq!(m.round, 1);
}

#[test]
fn enemy_carry_over_tracked_per_unit() {
    let mut m = MatchState::new(
        team(["a", "b", "c"], UnitType::Large),
        team(["x", "y", "z"], UnitType::Large),
    );
    // Enemy frontliner spends its full pool; its slot alone is updated.
    let r = m.resolve_turn(&Turn { attack: 0, defend: 0 }, &Turn { attack: 1, defend: 1 });
    assert!(r.is_ok());
    assert_eq!(m.enemy_saved, vec![0, 0, 0]);
    let r2 = m.resolve_turn(&Turn { attack: 0, defend: 0 }, &Turn { attack: 1, defend: 0 });
    assert!(r2.is_ok());
    assert_eq!(m.enemy_saved, vec![2, 0, 0]);
}

#[test]
fn turn_resolution_applies_both_directions() {
    let mut m = MatchState::new(
        team(["a", "b", "c"], UnitType::Large),
        team(["x", "y", "z"], UnitType::Medium),
    );
    let log = m
        .resolve_turn(&Turn { attack: 2, defend: 0 }, &Turn { attack: 1, defend: 1 })
        .unwrap();
    // Player: 8 * (2 - 1) = 8 on the enemy; enemy: 12 * (1 - 0) = 12 back.
    assert_eq!(m.enemy_team[0].health, 90 - 8);
    assert_eq!(m.player_team[0].health, 120 - 12);
    assert_eq!(log.len(), 2);
}

#[test]
fn repeated_zero_turns_advance_without_looping_or_damage() {
    // Both sides submitting nothing is an accepted stalemate: every call
    // returns after one turn, nothing changes but the round counter, and
    // the caller stays in charge of bounding the match.
    let mut m = MatchState::new(
        team(["a", "b", "c"], UnitType::Medium),
        team(["x", "y", "z"], UnitType::Medium),
    );
    let zero = Turn { attack: 0, defend: 0 };
    for round in 1..=100u32 {
        assert_eq!(m.round, round);
        assert!(m.prepare_frontliner());
        let log = m.resolve_turn(&zero, &zero).unwrap();
        assert!(log.is_empty());
        assert_eq!(m.outcome(), MatchOutcome::InProgress);
        assert_eq!(m.player_team[0].health, 90);
        assert_eq!(m.enemy_team[0].health, 90);
    }
}

#[test]
fn fallen_frontliner_is_auto_promoted() {
    let mut m = MatchState::new(
        team(["a", "b", "c"], UnitType::Medium),
        team(["x", "y", "z"], UnitType::Medium),
    );
    m.player_team[0].health = 0;
    m.player_team[1].health = -4;
    assert!(m.prepare_frontliner());
    assert_eq!(m.player_team[0].name, "c");
    assert!(m.player_team[0].is_alive());

    for u in m.player_team.iter_mut() {
        u.health = 0;
    }
    assert!(!m.prepare_frontliner());
}

#[test]
fn manual_swap_requires_a_living_target() {
    let mut m = MatchState::new(
        team(["a", "b", "c"], UnitType::Medium),
        team(["x", "y", "z"], UnitType::Medium),
    );
    m.player_team[1].health = 0;
    assert!(!m.swap_frontliner(1));
    assert_eq!(m.player_team[0].name, "a");
    assert!(!m.swap_frontliner(3));
    assert!(m.swap_frontliner(2));
    assert_eq!(m.player_team[0].name, "c");
    assert_eq!(m.player_team[2].name, "a");
}

#[test]
fn round_win_heals_the_player_team() {
    let mut m = MatchState::new(
        team(["a", "b", "c"], UnitType::Light),
        team(["x", "y", "z"], UnitType::Light),
    );
    m.player_team[0].health = 3;
    m.player_team[1].health = -9;
    m.heal_player_team();
    for u in m.player_team.iter() {
        assert_eq!(u.health, 60);
    }
}

#[test]
fn enemy_turn_of_a_match_respects_the_enemy_pool() {
    let mut m = MatchState::new(
        team(["a", "b", "c"], UnitType::Large),
        team(["x", "y", "z"], UnitType::Light),
    );
    // Fell the first enemy: the second acts, with its own savings.
    m.enemy_team[0].health = 0;
    let zero = Turn { attack: 0, defend: 0 };
    let r = m.play_turn(&zero);
    assert!(r.is_ok());
    // Only the acting slot's carry-over moved; the dead slot kept its 0.
    assert_eq!(m.enemy_saved[0], 0);
    assert!(m.enemy_saved[1] <= 8);
    assert_eq!(m.enemy_team[0].health, 0);
}
