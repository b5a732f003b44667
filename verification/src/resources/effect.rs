//! Timed effects on the player.

use vstd::prelude::*;

verus! {

/// Kind of a timed effect.
#[derive(Clone, Copy, Debug, PartialEq, Eq, Structural)]
pub enum EffectType {
    /// Raises movement speed.
    SpeedUp,
    /// Lowers movement speed.
    Slow,
    /// Raises the chance to dodge.
    EvasionUp,
    /// Lowers the damage dealt.
    ReduceDamage,
    /// Raises the chance of a critical hit.
    Focus,
    /// An effect that changes no stat.
    Stun,
}

} // verus!
