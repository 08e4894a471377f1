//! A falling-block puzzle engine with a heuristic opponent.
//!
//! The `game` modules hold the simulation: pieces, the board, wall kicks,
//! movement, timers, scoring and the coordinator that ties them together.
//! The `ai` modules search placements and drive the same action interface.
//! Every executable function carries a contract, and Verus proves all of
//! them but five. Those five are believed, not proved: the four calls into
//! the `rand` crate in `rng`, and the making of a `String` from characters in
//! `text`. Each says in its comment what it claims of the code it calls.

pub mod time;
pub mod game;
pub mod ai;
pub mod input;
pub mod modes;
pub mod menu;
pub mod flow;
pub mod config;
pub mod scores;
pub mod layout;
pub mod theme;
pub mod rng;
pub mod text;
