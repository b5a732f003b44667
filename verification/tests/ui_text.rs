use dungeon_crawler::plugins::classic_mode::ui as classic;
use dungeon_crawler::plugins::survival_mode::ui as survival;

#[test]
fn first_floor_is_announced_at_start() {
    assert_eq!(classic::center_text("Floor"), "Floor 1");
    assert_eq!(classic::center_text("Tầng"), "Tầng 1");
}

#[test]
fn floor_announcement_counts_from_one() {
    assert_eq!(
        classic::center_text_handle_system(false, "Floor", 0),
        Some(String::from("Floor 1"))
    );
    assert_eq!(
        classic::center_text_handle_system(false, "Floor", 9),
        Some(String::from("Floor 10"))
    );
}

#[test]
fn floor_announcement_goes_away_with_its_timer() {
    assert_eq!(classic::center_text_handle_system(true, "Floor", 3), None);
}

#[test]
fn floor_number_is_rewritten_on_change() {
    assert_eq!(classic::top_right_conner_text_handle_system(true, 0), Some(String::from("1")));
    assert_eq!(classic::top_right_conner_text_handle_system(true, 4), Some(String::from("5")));
    assert_eq!(classic::top_right_conner_text_handle_system(false, 4), None);
}

#[test]
fn first_wave_is_announced_at_start() {
    assert_eq!(survival::center_text("Wave"), "Wave 1");
}

#[test]
fn wave_announcement_shows_the_wave_number() {
    assert_eq!(
        survival::center_text_handle_system(false, "Wave", 1),
        Some(String::from("Wave 1"))
    );
    assert_eq!(
        survival::center_text_handle_system(false, "Wave", 12),
        Some(String::from("Wave 12"))
    );
    assert_eq!(
        survival::center_text_handle_system(false, "Đợt", 0),
        Some(String::from("Đợt 0"))
    );
}

#[test]
fn wave_announcement_goes_away_with_its_timer() {
    assert_eq!(survival::center_text_handle_system(true, "Wave", 2), None);
}

#[test]
fn wave_number_is_rewritten_on_change() {
    assert_eq!(survival::wave_text_handle_system(true, 3), Some(String::from("3")));
    assert_eq!(survival::wave_text_handle_system(true, 10), Some(String::from("10")));
    assert_eq!(survival::wave_text_handle_system(false, 3), None);
}

#[test]
fn wave_countdown_shows_time_left() {
    assert_eq!(survival::wave_countdown_text_handle_system(60, 0), "01:00");
    assert_eq!(survival::wave_countdown_text_handle_system(60, 1), "00:59");
    assert_eq!(survival::wave_countdown_text_handle_system(60, 55), "00:05");
    assert_eq!(survival::wave_countdown_text_handle_system(60, 60), "00:00");
    assert_eq!(survival::wave_countdown_text_handle_system(600, 75), "08:45");
}

#[test]
fn wave_countdown_past_the_end() {
    assert_eq!(survival::wave_countdown_text_handle_system(60, 62), "00:-2");
}
