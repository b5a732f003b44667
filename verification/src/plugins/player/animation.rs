//! Which frame of the player's sprite strip comes next.

use vstd::prelude::*;
use crate::resources::animation_state::AnimationState;

verus! {

/// The frame after `index` in the player's strip.
///
/// Standing still cycles through frames 0 to 4, walking through frames 4 to 7;
/// a frame outside the cycle restarts it. Being hit holds the frame.
pub open spec fn next_frame(state: AnimationState, index: int) -> int {
    match state {
        AnimationState::Idle => if index > 3 || index < 0 {
            0
        } else {
            index + 1
        },
        AnimationState::Moving => if index >= 7 || index < 4 {
            4
        } else {
            index + 1
        },
        AnimationState::Hit => index,
    }
}

/// The frame shown while the player flinches: the last of the strip.
pub fn hurt_frame(texture_count: usize) -> (index: usize)
    requires
        texture_count > 0,
    ensures
        index == texture_count - 1,
{
    texture_count - 1
}

/// Steps the player's animation by one frame.
pub fn player_animation_system(animation_state: AnimationState, index: usize) -> (next: usize)
    ensures
        next == next_frame(animation_state, index as int),
{
    match animation_state {
        AnimationState::Idle => {
            let min_index: usize = 0;
            let max_index: usize = 3;
            if index > max_index || index < min_index {
                min_index
            } else {
                index + 1
            }
        },
        AnimationState::Moving => {
            let min_index: usize = 4;
            let max_index: usize = 7;
            if index >= max_index || index < min_index {
                min_index
            } else {
                index + 1
            }
        },
        AnimationState::Hit => index,
    }
}

/// The frame reached from `index` after `steps` steps.
pub open spec fn frame_after(state: AnimationState, index: int, steps: nat) -> int
    decreases steps,
{
    if steps == 0 {
        index
    } else {
        next_frame(state, frame_after(state, index, (steps - 1) as nat))
    }
}

/// After one step the standing animation stays within frames 0 to 4 and the
/// walking animation within frames 4 to 7, wherever it started.
pub proof fn lemma_next_frame_in_cycle(state: AnimationState, index: int)
    ensures
        state == AnimationState::Idle ==> 0 <= next_frame(state, index) <= 4,
        state == AnimationState::Moving ==> 4 <= next_frame(state, index) <= 7,
{
}

/// The standing animation repeats every five steps and the walking animation
/// every four, once it is inside its cycle.
pub proof fn lemma_frame_cycle_period(index: int)
    ensures
        0 <= index <= 4 ==> frame_after(AnimationState::Idle, index, 5) == index,
        4 <= index <= 7 ==> frame_after(AnimationState::Moving, index, 4) == index,
{
    reveal_with_fuel(frame_after, 6);
}

} // verus!
