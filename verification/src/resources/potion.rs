//! Potions lying in the dungeon.

use vstd::prelude::*;

verus! {

/// What a potion does when the player walks over it.
#[derive(Clone, Copy, Debug, PartialEq, Eq, Structural)]
pub enum PotionType {
    Heal,
    SpeedUp,
    EvasionUp,
    Focus,
}

} // verus!
