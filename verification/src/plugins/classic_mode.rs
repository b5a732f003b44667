//! The dungeon mode.

pub mod ui;
