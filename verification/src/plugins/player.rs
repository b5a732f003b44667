//! The player: stats, collisions and sprite frames.

pub mod animation;
pub mod collisions;
pub mod invisible;
pub mod stats;
