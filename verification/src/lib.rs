//! Rules engine for a four-color Ludo board game for 2 to 4 players.
//!
//! The engine is a deterministic state machine over a single [`game::Game`]
//! record: players join fixed color slots, turn order is drawn from delivered
//! entropy, and each turn rolls a die and moves one token, with capture,
//! blocking, forced-skip and win detection. Every transition validates first
//! and mutates only on success, so a rejected action leaves the record
//! unchanged.

pub mod game;
pub mod rng;
pub mod engine;
pub mod laws;
