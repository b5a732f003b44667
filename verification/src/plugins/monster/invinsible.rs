//! The flush of red on a monster that was just hit.

use vstd::prelude::*;
use crate::plugins::player::invisible::SpriteTint;

verus! {

/// Colours a monster and tells whether its flush timer has to be advanced: the
/// monster is red, and the timer runs, until the flush has run out.
pub fn hurt_duration_color(hurt_duration_finished: bool) -> (result: (SpriteTint, bool))
    ensures
        result.0 == (if hurt_duration_finished {
            SpriteTint::Plain
        } else {
            SpriteTint::Red
        }),
        result.1 == !hurt_duration_finished,
{
    if !hurt_duration_finished {
        (SpriteTint::Red, true)
    } else {
        (SpriteTint::Plain, false)
    }
}

} // verus!
