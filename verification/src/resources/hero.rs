//! Who the player can be.

use vstd::prelude::*;

verus! {

/// Gender of a hero.
#[derive(Clone, Copy, Debug, PartialEq, Eq, Structural)]
pub enum Gender {
    Male,
    Female,
}

/// Class of a hero.
#[derive(Clone, Copy, Debug, PartialEq, Eq, Structural)]
pub enum HeroClass {
    Elf,
    Knight,
    Lizard,
    Wizard,
}

} // verus!
