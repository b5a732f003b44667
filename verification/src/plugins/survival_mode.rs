//! The wave mode.

pub mod ui;
