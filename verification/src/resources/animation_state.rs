//! What a sprite is doing.

use vstd::prelude::*;

verus! {

/// Animation a sprite is playing.
#[derive(Clone, Copy, Debug, PartialEq, Eq, Structural)]
pub enum AnimationState {
    Idle,
    Moving,
    Hit,
}

} // verus!
