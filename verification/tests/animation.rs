use dungeon_crawler::plugins::monster::animation::animation_handle;
use dungeon_crawler::plugins::monster::invinsible::hurt_duration_color as monster_hurt_color;
use dungeon_crawler::plugins::player::animation::{hurt_frame, player_animation_system};
use dungeon_crawler::plugins::player::invisible::{
    hurt_duration_color, invincible_cooldown, SpriteTint, Ticks,
};
use dungeon_crawler::resources::animation_state::AnimationState;
use dungeon_crawler::scenes::hero_select_scene::{
    hero_image_animation_handle, AnimationController, HeroImageComponent,
};

#[test]
fn monster_idle_cycles_through_first_four_frames() {
    assert_eq!(animation_handle(AnimationState::Idle, 8, 0), 1);
    assert_eq!(animation_handle(AnimationState::Idle, 8, 1), 2);
    assert_eq!(animation_handle(AnimationState::Idle, 8, 2), 3);
    assert_eq!(animation_handle(AnimationState::Idle, 8, 3), 0);
}

#[test]
fn monster_idle_restarts_from_outside_the_cycle() {
    assert_eq!(animation_handle(AnimationState::Idle, 8, 4), 0);
    assert_eq!(animation_handle(AnimationState::Idle, 8, 7), 0);
    assert_eq!(animation_handle(AnimationState::Idle, 4, usize::MAX), 0);
}

#[test]
fn monster_with_eight_tiles_walks_on_second_half() {
    assert_eq!(animation_handle(AnimationState::Moving, 8, 4), 5);
    assert_eq!(animation_handle(AnimationState::Moving, 8, 5), 6);
    assert_eq!(animation_handle(AnimationState::Moving, 8, 6), 7);
    assert_eq!(animation_handle(AnimationState::Moving, 8, 7), 4);
    assert_eq!(animation_handle(AnimationState::Moving, 8, 0), 4);
    assert_eq!(animation_handle(AnimationState::Moving, 8, 3), 4);
    assert_eq!(animation_handle(AnimationState::Moving, 8, 8), 4);
}

#[test]
fn monster_with_four_tiles_walks_on_first_half() {
    assert_eq!(animation_handle(AnimationState::Moving, 4, 0), 1);
    assert_eq!(animation_handle(AnimationState::Moving, 4, 2), 3);
    assert_eq!(animation_handle(AnimationState::Moving, 4, 3), 0);
    assert_eq!(animation_handle(AnimationState::Moving, 4, 5), 0);
}

#[test]
fn monster_with_other_tile_count_walks_like_four() {
    assert_eq!(animation_handle(AnimationState::Moving, 6, 1), 2);
    assert_eq!(animation_handle(AnimationState::Moving, 0, 3), 0);
}

#[test]
fn monster_hit_holds_the_frame() {
    for index in [0usize, 3, 5, 7, 100] {
        assert_eq!(animation_handle(AnimationState::Hit, 8, index), index);
        assert_eq!(animation_handle(AnimationState::Hit, 4, index), index);
    }
}

#[test]
fn monster_cycle_repeats_every_four_steps() {
    for (state, tiles, first) in [
        (AnimationState::Idle, 4usize, 0usize),
        (AnimationState::Idle, 8, 0),
        (AnimationState::Moving, 4, 0),
        (AnimationState::Moving, 8, 4),
    ] {
        for start in first..first + 4 {
            let mut index = start;
            for _ in 0..4 {
                index = animation_handle(state, tiles, index);
                assert!(first <= index && index <= first + 3);
            }
            assert_eq!(index, start);
        }
    }
}

#[test]
fn player_idle_cycle_has_five_frames() {
    assert_eq!(player_animation_system(AnimationState::Idle, 0), 1);
    assert_eq!(player_animation_system(AnimationState::Idle, 1), 2);
    assert_eq!(player_animation_system(AnimationState::Idle, 2), 3);
    assert_eq!(player_animation_system(AnimationState::Idle, 3), 4);
    assert_eq!(player_animation_system(AnimationState::Idle, 4), 0);
    assert_eq!(player_animation_system(AnimationState::Idle, 5), 0);
    assert_eq!(player_animation_system(AnimationState::Idle, 8), 0);
}

#[test]
fn player_walk_cycle_has_four_frames() {
    assert_eq!(player_animation_system(AnimationState::Moving, 4), 5);
    assert_eq!(player_animation_system(AnimationState::Moving, 5), 6);
    assert_eq!(player_animation_system(AnimationState::Moving, 6), 7);
    assert_eq!(player_animation_system(AnimationState::Moving, 7), 4);
    assert_eq!(player_animation_system(AnimationState::Moving, 0), 4);
    assert_eq!(player_animation_system(AnimationState::Moving, 3), 4);
    assert_eq!(player_animation_system(AnimationState::Moving, 8), 4);
}

#[test]
fn player_hit_holds_the_frame() {
    for index in [0usize, 4, 8, 1000] {
        assert_eq!(player_animation_system(AnimationState::Hit, index), index);
    }
}

#[test]
fn player_cycles_repeat() {
    for start in 0..=4usize {
        let mut index = start;
        for _ in 0..5 {
            index = player_animation_system(AnimationState::Idle, index);
        }
        assert_eq!(index, start);
    }
    for start in 4..=7usize {
        let mut index = start;
        for _ in 0..4 {
            index = player_animation_system(AnimationState::Moving, index);
        }
        assert_eq!(index, start);
    }
}

#[test]
fn hurt_frame_is_the_last_of_the_strip() {
    assert_eq!(hurt_frame(1), 0);
    assert_eq!(hurt_frame(9), 8);
}

#[test]
fn timers_tick_until_they_run_out() {
    assert_eq!(invincible_cooldown(false, false), Ticks { duration: true, hurt_duration: true });
    assert_eq!(invincible_cooldown(true, false), Ticks { duration: false, hurt_duration: true });
    assert_eq!(invincible_cooldown(false, true), Ticks { duration: true, hurt_duration: false });
    assert_eq!(invincible_cooldown(true, true), Ticks { duration: false, hurt_duration: false });
}

#[test]
fn player_is_red_while_hurt() {
    assert_eq!(hurt_duration_color(false), SpriteTint::Red);
    assert_eq!(hurt_duration_color(true), SpriteTint::Plain);
}

#[test]
fn monster_is_red_and_ticking_while_hurt() {
    assert_eq!(monster_hurt_color(false), (SpriteTint::Red, true));
    assert_eq!(monster_hurt_color(true), (SpriteTint::Plain, false));
}

#[test]
fn only_the_hovered_portrait_moves() {
    let controller =
        AnimationController { run_animation: true, hero_image: HeroImageComponent::FemaleKnight };
    assert_eq!(
        hero_image_animation_handle(HeroImageComponent::FemaleKnight, &controller, true, 2),
        3
    );
    assert_eq!(
        hero_image_animation_handle(HeroImageComponent::MaleKnight, &controller, true, 2),
        2
    );
}

#[test]
fn portrait_waits_for_the_clock() {
    let controller =
        AnimationController { run_animation: true, hero_image: HeroImageComponent::MaleElf };
    assert_eq!(hero_image_animation_handle(HeroImageComponent::MaleElf, &controller, false, 1), 1);
}

#[test]
fn portrait_rests_when_nothing_is_hovered() {
    let controller =
        AnimationController { run_animation: false, hero_image: HeroImageComponent::MaleElf };
    assert_eq!(hero_image_animation_handle(HeroImageComponent::MaleElf, &controller, true, 1), 1);
}

#[test]
fn portrait_cycle_has_five_frames() {
    let controller =
        AnimationController { run_animation: true, hero_image: HeroImageComponent::MaleWizard };
    let step = |index| {
        hero_image_animation_handle(HeroImageComponent::MaleWizard, &controller, true, index)
    };
    assert_eq!(step(0), 1);
    assert_eq!(step(3), 4);
    assert_eq!(step(4), 0);
    assert_eq!(step(8), 0);
}
