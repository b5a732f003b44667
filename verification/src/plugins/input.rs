//! What the keyboard does to the player.

pub mod cheat;
pub mod movement;
