//! The rules of play, one module for each part of the game loop.

pub mod classic_mode;
pub mod input;
pub mod monster;
pub mod player;
pub mod survival_mode;
