//! Per-frame facts about the player.

use vstd::prelude::*;

verus! {

/// The directions in which no wall stops the player this frame.
#[derive(Clone, Copy, Debug, PartialEq, Eq, Structural)]
pub struct PlayerAvailableMovement {
    pub can_move_up: bool,
    pub can_move_down: bool,
    pub can_move_left: bool,
    pub can_move_right: bool,
}

} // verus!
