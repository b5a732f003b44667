//! Where the movement keys take the player.

use vstd::prelude::*;
use crate::resources::animation_state::AnimationState;
use crate::resources::player::PlayerAvailableMovement;

verus! {

/// The movement keys held down this frame.
#[derive(Clone, Copy, Debug, PartialEq, Eq, Structural)]
pub struct MovementKeys {
    pub up: bool,
    pub down: bool,
    pub left: bool,
    pub right: bool,
}

/// Which way the player's sprite looks.
#[derive(Clone, Copy, Debug, PartialEq, Eq, Structural)]
pub enum Facing {
    Left,
    Right,
}

/// What the keys do to the player this frame.
#[derive(Clone, Copy, Debug, PartialEq, Eq, Structural)]
pub struct Movement {
    /// Steps to the right (negative: to the left), in strides.
    pub horizontal: i8,
    /// Steps upward (negative: downward), in strides.
    pub vertical: i8,
    /// The way to turn the sprite, if it turns.
    pub facing: Option<Facing>,
    /// The animation to play.
    pub animation_state: AnimationState,
}

/// One stride if the key is held and the way is free, none otherwise.
pub open spec fn stride(key: bool, free: bool) -> int {
    if key && free {
        1
    } else {
        0
    }
}

/// Strides to the right: a free right key makes one, a free left key undoes one.
pub open spec fn horizontal_strides(keys: MovementKeys, available: PlayerAvailableMovement) -> int {
    stride(keys.right, available.can_move_right) - stride(keys.left, available.can_move_left)
}

/// Strides upward: a free up key makes one, a free down key undoes one.
pub open spec fn vertical_strides(keys: MovementKeys, available: PlayerAvailableMovement) -> int {
    stride(keys.up, available.can_move_up) - stride(keys.down, available.can_move_down)
}

/// Turns the movement keys into movement.
///
/// Every held key whose direction no wall closes moves the player by one stride;
/// opposite keys cancel. `stride_sign` is the sign of the stride's length (speed
/// times tile size times frame time): 1 as a rule, 0 when the player cannot
/// move at all, -1 when the speed has dropped below zero. The sprite
/// turns toward the side the player moves to, and plays the walking animation
/// exactly when the player changes place.
pub fn player_movement_handle_system(
    keys: MovementKeys,
    available: PlayerAvailableMovement,
    stride_sign: i8,
) -> (movement: Movement)
    requires
        -1 <= stride_sign <= 1,
    ensures
        movement.horizontal == horizontal_strides(keys, available),
        movement.vertical == vertical_strides(keys, available),
        movement.facing == (if movement.horizontal * stride_sign < 0 {
            Some(Facing::Left)
        } else if movement.horizontal * stride_sign > 0 {
            Some(Facing::Right)
        } else {
            None::<Facing>
        }),
        movement.animation_state == (if stride_sign != 0 && (movement.horizontal != 0
            || movement.vertical != 0) {
            AnimationState::Moving
        } else {
            AnimationState::Idle
        }),
{
    let mut horizontal: i8 = 0;
    let mut vertical: i8 = 0;
    if keys.up {
        if available.can_move_up {
            vertical += 1;
        }
    }
    if keys.down {
        if available.can_move_down {
            vertical -= 1;
        }
    }
    if keys.left {
        if available.can_move_left {
            horizontal -= 1;
        }
    }
    if keys.right {
        if available.can_move_right {
            horizontal += 1;
        }
    }
    let turn: i8 = if stride_sign == 0 {
        0
    } else if stride_sign > 0 {
        horizontal
    } else {
        -horizontal
    };
    assert(turn == horizontal * stride_sign) by (nonlinear_arith)
        requires
            -1 <= stride_sign <= 1,
            turn == (if stride_sign == 0 { 0 } else if stride_sign > 0 { horizontal as int } else { -horizontal }),
    ;
    let facing = if turn < 0 {
        Some(Facing::Left)
    } else if turn > 0 {
        Some(Facing::Right)
    } else {
        None
    };
    let animation_state = if stride_sign != 0 && (horizontal != 0 || vertical != 0) {
        AnimationState::Moving
    } else {
        AnimationState::Idle
    };
    Movement { horizontal, vertical, facing, animation_state }
}

/// A wall stops the player: no key moves them toward a closed side.
pub proof fn lemma_walls_stop_movement(keys: MovementKeys, available: PlayerAvailableMovement)
    ensures
        !available.can_move_right ==> horizontal_strides(keys, available) <= 0,
        !available.can_move_left ==> horizontal_strides(keys, available) >= 0,
        !available.can_move_up ==> vertical_strides(keys, available) <= 0,
        !available.can_move_down ==> vertical_strides(keys, available) >= 0,
{
}

} // verus!
