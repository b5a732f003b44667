//! Monsters and the bookkeeping of how many a room holds.

use vstd::prelude::*;

verus! {

/// Class of a monster, as far as the rules tell classes apart.
#[derive(Clone, Copy, Debug, PartialEq, Eq, Structural)]
pub enum MonsterClass {
    Zombie,
    Swampy,
    /// Every class drawn from a full-length sprite strip.
    Other,
}

/// Counters that govern spawning in the current room or wave.
#[derive(Clone, Copy, Debug, PartialEq, Eq, Structural)]
pub struct MonsterSpawnController {
    /// Most monsters that may be alive at once.
    pub max_avalible_monsters: usize,
    /// Monsters the room must see defeated before it counts as cleared.
    pub require_monster: usize,
    /// Monsters defeated so far.
    pub killed_monsters: usize,
    /// Monsters alive right now.
    pub alive_monsters: usize,
}

} // verus!
