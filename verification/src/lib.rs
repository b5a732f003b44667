//! Rules of a top-down dungeon crawler, kept apart from the engine that draws it.
//!
//! Every decision the game takes each frame — which walls block the player, which
//! monster lands a hit, how many monsters a room still owes, which sprite frame comes
//! next, what the score screens print — is a function here from plain values to plain
//! values, with a contract that says what it returns.

pub mod plugins;
pub mod resources;
pub mod scenes;
pub mod utils;
