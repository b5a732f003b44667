//! Helpers shared by the game rules: text for numbers and times, and the draw of lots.

pub mod chance;
pub mod clock;
pub mod decimal;
