use dungeon_crawler::plugins::input::cheat::knight_skill_cheat;
use dungeon_crawler::plugins::input::movement::{
    player_movement_handle_system, Facing, Movement, MovementKeys,
};
use dungeon_crawler::resources::animation_state::AnimationState;
use dungeon_crawler::resources::player::PlayerAvailableMovement;
use dungeon_crawler::resources::skill::SkillType;

fn keys(up: bool, down: bool, left: bool, right: bool) -> MovementKeys {
    MovementKeys { up, down, left, right }
}

fn open() -> PlayerAvailableMovement {
    PlayerAvailableMovement {
        can_move_up: true,
        can_move_down: true,
        can_move_left: true,
        can_move_right: true,
    }
}

fn still() -> Movement {
    Movement { horizontal: 0, vertical: 0, facing: None, animation_state: AnimationState::Idle }
}

#[test]
fn no_key_no_movement() {
    assert_eq!(player_movement_handle_system(keys(false, false, false, false), open(), 1), still());
}

#[test]
fn each_key_moves_one_stride() {
    assert_eq!(
        player_movement_handle_system(keys(true, false, false, false), open(), 1),
        Movement {
            horizontal: 0,
            vertical: 1,
            facing: None,
            animation_state: AnimationState::Moving
        }
    );
    assert_eq!(
        player_movement_handle_system(keys(false, true, false, false), open(), 1),
        Movement {
            horizontal: 0,
            vertical: -1,
            facing: None,
            animation_state: AnimationState::Moving
        }
    );
    assert_eq!(
        player_movement_handle_system(keys(false, false, true, false), open(), 1),
        Movement {
            horizontal: -1,
            vertical: 0,
            facing: Some(Facing::Left),
            animation_state: AnimationState::Moving
        }
    );
    assert_eq!(
        player_movement_handle_system(keys(false, false, false, true), open(), 1),
        Movement {
            horizontal: 1,
            vertical: 0,
            facing: Some(Facing::Right),
            animation_state: AnimationState::Moving
        }
    );
}

#[test]
fn opposite_keys_cancel() {
    assert_eq!(player_movement_handle_system(keys(true, true, false, false), open(), 1), still());
    assert_eq!(player_movement_handle_system(keys(false, false, true, true), open(), 1), still());
    assert_eq!(player_movement_handle_system(keys(true, true, true, true), open(), 1), still());
}

#[test]
fn diagonal_movement() {
    assert_eq!(
        player_movement_handle_system(keys(true, false, true, false), open(), 1),
        Movement {
            horizontal: -1,
            vertical: 1,
            facing: Some(Facing::Left),
            animation_state: AnimationState::Moving
        }
    );
}

#[test]
fn walls_stop_the_player() {
    let walled = PlayerAvailableMovement {
        can_move_up: false,
        can_move_down: false,
        can_move_left: false,
        can_move_right: false,
    };
    assert_eq!(player_movement_handle_system(keys(true, true, true, true), walled, 1), still());
    assert_eq!(player_movement_handle_system(keys(true, false, false, true), walled, 1), still());
}

#[test]
fn blocked_key_no_longer_cancels_its_opposite() {
    let no_right = PlayerAvailableMovement { can_move_right: false, ..open() };
    assert_eq!(
        player_movement_handle_system(keys(false, false, true, true), no_right, 1),
        Movement {
            horizontal: -1,
            vertical: 0,
            facing: Some(Facing::Left),
            animation_state: AnimationState::Moving
        }
    );
    let no_up = PlayerAvailableMovement { can_move_up: false, ..open() };
    assert_eq!(
        player_movement_handle_system(keys(true, true, false, false), no_up, 1),
        Movement {
            horizontal: 0,
            vertical: -1,
            facing: None,
            animation_state: AnimationState::Moving
        }
    );
}

#[test]
fn zero_stride_keeps_the_player_idle() {
    assert_eq!(
        player_movement_handle_system(keys(true, false, false, true), open(), 0),
        Movement {
            horizontal: 1,
            vertical: 1,
            facing: None,
            animation_state: AnimationState::Idle
        }
    );
}

#[test]
fn negative_stride_turns_the_other_way() {
    assert_eq!(
        player_movement_handle_system(keys(false, false, false, true), open(), -1),
        Movement {
            horizontal: 1,
            vertical: 0,
            facing: Some(Facing::Left),
            animation_state: AnimationState::Moving
        }
    );
    assert_eq!(
        player_movement_handle_system(keys(false, false, true, false), open(), -1),
        Movement {
            horizontal: -1,
            vertical: 0,
            facing: Some(Facing::Right),
            animation_state: AnimationState::Moving
        }
    );
}

#[test]
fn armor_cheat_counts_only_for_the_knight() {
    assert_eq!(knight_skill_cheat(true, SkillType::Armor, 0), 1);
    assert_eq!(knight_skill_cheat(true, SkillType::Armor, 41), 42);
    assert_eq!(knight_skill_cheat(true, SkillType::TimeToHunt, 5), 5);
    assert_eq!(knight_skill_cheat(true, SkillType::AnimalInstinct, 5), 5);
}

#[test]
fn armor_cheat_needs_the_key() {
    assert_eq!(knight_skill_cheat(false, SkillType::Armor, 3), 3);
    assert_eq!(knight_skill_cheat(false, SkillType::Armor, usize::MAX), usize::MAX);
}
