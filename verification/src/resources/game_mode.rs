//! The two ways to play.

use vstd::prelude::*;

verus! {

/// How a run is played.
#[derive(Clone, Copy, Debug, PartialEq, Eq, Structural)]
pub enum GameMode {
    /// Clear the rooms of a dungeon floor by floor.
    ClassicMode,
    /// Hold out against timed waves of monsters.
    SurvivalMode,
}

} // verus!
