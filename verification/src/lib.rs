//! Core of a turn-based combat simulator: two teams of three units spend a
//! shared, capped, round-increasing point pool each turn on attacking and
//! defending. The library holds the point economy, the enemy decision policy,
//! the turn resolution rules and the match state machine; all input and output
//! live outside it.

pub mod enemy_turn;
pub mod game;
pub mod misc;
pub mod pool;
pub mod resolve;
pub mod turn;
pub mod unit;
