//! Monte Carlo estimate of which participant of a board game is the first
//! to run out of money.
//!
//! `rules` holds the chance sub-games, `board` and `navigation` the fixed
//! board and movement over it, `model` the mathematical model of a trial's
//! state and of a turn, `engine` the executable state machine, `trial` and
//! `driver` the round engine and the Monte Carlo loop, `random` the draws,
//! and `laws` the properties proved of all of it.

pub mod board;
pub mod driver;
pub mod engine;
pub mod laws;
pub mod model;
pub mod navigation;
pub mod player;
pub mod random;
pub mod rules;
pub mod trial;
