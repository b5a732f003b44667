//! Monsters: when they appear and how they are drawn.

pub mod animation;
pub mod invinsible;
pub mod spawn;
