//! The moments after a hit, when the player cannot be hurt again.

use vstd::prelude::*;

verus! {

/// How a sprite is coloured.
#[derive(Clone, Copy, Debug, PartialEq, Eq, Structural)]
pub enum SpriteTint {
    /// Flushed red from a hit.
    Red,
    /// Its own colours.
    Plain,
}

/// Which of the player's two timers still run and have to be advanced: the
/// shield against further hits, and the flush of red.
#[derive(Clone, Copy, Debug, PartialEq, Eq, Structural)]
pub struct Ticks {
    pub duration: bool,
    pub hurt_duration: bool,
}

/// Picks the timers to advance this frame: each one that has not run out.
pub fn invincible_cooldown(duration_finished: bool, hurt_duration_finished: bool) -> (ticks: Ticks)
    ensures
        ticks.duration == !duration_finished,
        ticks.hurt_duration == !hurt_duration_finished,
{
    Ticks { duration: !duration_finished, hurt_duration: !hurt_duration_finished }
}

/// Colours the player: red until the flush from the last hit has run out.
pub fn hurt_duration_color(hurt_duration_finished: bool) -> (tint: SpriteTint)
    ensures
        tint == (if hurt_duration_finished {
            SpriteTint::Plain
        } else {
            SpriteTint::Red
        }),
{
    if !hurt_duration_finished {
        SpriteTint::Red
    } else {
        SpriteTint::Plain
    }
}

} // verus!
