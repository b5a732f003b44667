//! Hero skills.

use vstd::prelude::*;

verus! {

/// Which skill a hero carries.
#[derive(Clone, Copy, Debug, PartialEq, Eq, Structural)]
pub enum SkillType {
    /// Armor, charged by defeated monsters. It changes no stat.
    Armor,
    /// While it runs the hero is faster, hits harder by chance, and dodges for
    /// certain.
    TimeToHunt,
    /// While it runs the hero is faster, hits harder by chance and by rule, and
    /// restores health by chance.
    AnimalInstinct,
}

} // verus!
