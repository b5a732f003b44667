//! Which frame of a monster's sprite strip comes next.

use vstd::prelude::*;
use crate::resources::animation_state::AnimationState;

verus! {

/// The first frame of the cycle a monster plays.
///
/// A monster with a strip of eight frames walks on its second half; every other
/// animation plays on the first four frames.
pub open spec fn cycle_start(state: AnimationState, total_tiles: int) -> int {
    if state == AnimationState::Moving && total_tiles == 8 {
        4
    } else {
        0
    }
}

/// The frame after `index` in a monster's strip.
///
/// Inside its cycle of four frames the animation moves on by one and wraps from
/// the last frame to the first; a frame outside the cycle restarts it. Being hit
/// holds the frame.
pub open spec fn next_frame(state: AnimationState, total_tiles: int, index: int) -> int {
    if state == AnimationState::Hit {
        index
    } else {
        let first = cycle_start(state, total_tiles);
        if index >= first + 3 || index < first {
            first
        } else {
            index + 1
        }
    }
}

/// Steps a monster's animation by one frame.
pub fn animation_handle(animation_state: AnimationState, total_tiles: usize, index: usize) -> (next: usize)
    ensures
        next == next_frame(animation_state, total_tiles as int, index as int),
{
    match animation_state {
        AnimationState::Idle => {
            let min_index: usize = 0;
            let max_index: usize = 3;
            if index >= max_index || index < min_index {
                min_index
            } else {
                index + 1
            }
        },
        AnimationState::Moving => {
            if total_tiles == 8 {
                let min_index: usize = 4;
                let max_index: usize = 7;
                if index >= max_index || index < min_index {
                    min_index
                } else {
                    index + 1
                }
            } else {
                let min_index: usize = 0;
                let max_index: usize = 3;
                if index >= max_index || index < min_index {
                    min_index
                } else {
                    index + 1
                }
            }
        },
        AnimationState::Hit => index,
    }
}

/// The frame reached from `index` after `steps` steps.
pub open spec fn frame_after(state: AnimationState, total_tiles: int, index: int, steps: nat) -> int
    decreases steps,
{
    if steps == 0 {
        index
    } else {
        next_frame(state, total_tiles, frame_after(state, total_tiles, index, (steps - 1) as nat))
    }
}

/// A monster that stands or walks always shows a frame of its cycle after one
/// step, and a frame that its strip holds if the strip has four or eight frames.
pub proof fn lemma_next_frame_in_cycle(state: AnimationState, total_tiles: int, index: int)
    requires
        state != AnimationState::Hit,
    ensures
        cycle_start(state, total_tiles) <= next_frame(state, total_tiles, index) <= cycle_start(
            state,
            total_tiles,
        ) + 3,
        total_tiles == 4 || total_tiles == 8 ==> next_frame(state, total_tiles, index)
            < total_tiles,
{
}

/// Inside its cycle a monster's animation repeats every four steps.
pub proof fn lemma_frame_cycle_period(state: AnimationState, total_tiles: int, index: int)
    requires
        state != AnimationState::Hit,
        cycle_start(state, total_tiles) <= index <= cycle_start(state, total_tiles) + 3,
    ensures
        frame_after(state, total_tiles, index, 4) == index,
{
    reveal_with_fuel(frame_after, 5);
}

} // verus!
