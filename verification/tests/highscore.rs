use dungeon_crawler::resources::game_mode::GameMode;
use dungeon_crawler::resources::glossary::{
    Glossary, HelpSceneText, HighscoreSceneText, InGameText, LoadingSceneText, MainMenuSceneText,
    OptionsSceneText, ResultSceneText, SharedText,
};
use dungeon_crawler::resources::hero::{Gender, HeroClass};
use dungeon_crawler::resources::language::Language;
use dungeon_crawler::resources::profile::StoredProfile;
use dungeon_crawler::scenes::highscore_scene::{
    line_text, texts_handle_system, try_texts_handle_system, ButtonComponent,
    HighscoreBookComponent, PrefixWordComponent,
};
use dungeon_crawler::utils::clock::Moment;

fn s(text: &str) -> String {
    String::from(text)
}

fn glossary() -> Glossary {
    Glossary {
        highscore_scene_text: HighscoreSceneText {
            name: s("Name: "),
            gender: s("Gender: "),
            game_mode: s("Mode: "),
            total_killed_monsters: s("Killed: "),
            total_cleared_rooms: s("Rooms: "),
            total_cleared_waves: s("Waves: "),
            date: s("Date: "),
            playtime: s("Playtime: "),
        },
        main_menu_scene_text: MainMenuSceneText {
            play: s("Play"),
            highscore: s("Highscore"),
            options: s("Options"),
            help: s("Help"),
            credits: s("Credits"),
            quit: s("Quit"),
        },
        loading_scene_text: LoadingSceneText { loading: s("Loading") },
        options_scene_text: OptionsSceneText {
            options: s("Options"),
            enable_music: s("Music"),
            enable_sound: s("Sound"),
            language: s("Language"),
        },
        result_scene_text: ResultSceneText {
            result: s("Result"),
            date: s("Date: "),
            start_time: s("Start: "),
            end_time: s("End: "),
            total_killed_monsters: s("Killed monsters: "),
            total_cleared_rooms: s("Cleared rooms: "),
            total_cleared_waves: s("Cleared waves: "),
            playtime: s("Play time: "),
        },
        help_scene_text: HelpSceneText {
            help: s("Help"),
            move_up: s("Move up"),
            move_down: s("Move down"),
            move_left: s("Move left"),
            move_right: s("Move right"),
            use_skill: s("Use skill"),
            attack: s("Attack"),
            aim: s("Aim"),
        },
        ingame_text: InGameText {
            floor: s("Floor"),
            wave: s("Wave"),
            upgrade: s("Upgrade"),
            skill: s("Skill"),
            stats: s("Stats"),
            weapon: s("Weapon"),
            effect: s("Effect"),
            movement_speed: s("Speed"),
            strength: s("Strength"),
            intelligence: s("Intelligence"),
            critical_chance: s("Critical"),
            dodge_chance: s("Dodge"),
            restore_chance: s("Restore"),
            damage_percent_bonus: s("Damage"),
        },
        shared_text: SharedText {
            male: s("Male"),
            female: s("Female"),
            classic_mode: s("Classic mode"),
            survival_mode: s("Survival mode"),
            select_game_mode: s("Select game mode"),
            select_hero: s("Select hero"),
            continue_: s("Continue"),
            quit: s("Quit"),
        },
    }
}

fn stored(name: &str, hero_class: HeroClass, gender: Gender) -> StoredProfile {
    StoredProfile {
        name: s(name),
        gender,
        hero_class,
        game_mode: GameMode::SurvivalMode,
        total_killed_monsters: 120,
        total_cleared_rooms: 0,
        total_cleared_waves: 7,
        date: s("2024-11-09T21:04:05+07:00"),
        playtime: 754,
    }
}

fn three_runs() -> Vec<StoredProfile> {
    vec![
        stored("first", HeroClass::Elf, Gender::Male),
        stored("second", HeroClass::Wizard, Gender::Female),
        stored("third", HeroClass::Lizard, Gender::Male),
    ]
}

fn play(book: &mut HighscoreBookComponent) -> Vec<usize> {
    let mut frames = Vec::new();
    while let Some(frame) = book.book_animation_handle_system() {
        frames.push(frame);
    }
    frames
}

fn some_date() -> Moment {
    Moment { year: 2024, month: 11, day: 9, hour: 21, minute: 4, second: 5 }
}

#[test]
fn highscore_buttons_in_order() {
    assert_eq!(
        ButtonComponent::iterator(),
        vec![ButtonComponent::Return, ButtonComponent::Next, ButtonComponent::Previous]
    );
}

#[test]
fn page_lines_in_order() {
    assert_eq!(
        PrefixWordComponent::iterator(),
        vec![
            PrefixWordComponent::Name,
            PrefixWordComponent::Gender,
            PrefixWordComponent::GameMode,
            PrefixWordComponent::TotalKilledMonsters,
            PrefixWordComponent::TotalClearedRooms,
            PrefixWordComponent::TotalClearedWaves,
            PrefixWordComponent::Date,
            PrefixWordComponent::Playtime,
        ]
    );
}

#[test]
fn new_book_is_closed_and_at_rest() {
    let book = HighscoreBookComponent::new(three_runs());
    assert_eq!(book.current_page(), -1);
    assert_eq!(book.total_pages(), 3);
    assert!(!book.is_reverse());
    assert!(!book.is_animating());
    assert!(book.is_page_in_book());
    assert!(book.shown_profile().is_none());
    assert_eq!(book.hero_image_handle_system(), None);
}

#[test]
fn book_at_rest_has_no_frame_to_draw() {
    let mut book = HighscoreBookComponent::new(three_runs());
    assert_eq!(book.book_animation_handle_system(), None);
    assert_eq!(book.current_page(), -1);
}

#[test]
fn next_opens_the_closed_book() {
    let mut book = HighscoreBookComponent::new(three_runs());
    book.press_next();
    assert!(book.is_animating());
    assert!(!book.is_reverse());
    assert_eq!(book.current_page(), -1);
    assert_eq!(play(&mut book), vec![0, 1, 2, 3]);
    assert!(!book.is_animating());
    assert_eq!(book.current_page(), 0);
    assert_eq!(book.shown_profile().map(|p| p.name.clone()), Some(s("first")));
}

#[test]
fn next_turns_a_page_forward() {
    let mut book = HighscoreBookComponent::new(three_runs());
    book.press_next();
    play(&mut book);
    book.press_next();
    assert_eq!(play(&mut book), vec![3, 4, 5, 6, 3]);
    assert_eq!(book.current_page(), 1);
    assert_eq!(book.shown_profile().map(|p| p.name.clone()), Some(s("second")));
    book.press_next();
    assert_eq!(play(&mut book), vec![3, 4, 5, 6, 3]);
    assert_eq!(book.current_page(), 2);
}

#[test]
fn next_on_the_last_page_closes_the_book() {
    let mut book = HighscoreBookComponent::new(three_runs());
    for _ in 0..3 {
        book.press_next();
        play(&mut book);
    }
    assert_eq!(book.current_page(), 2);
    book.press_next();
    assert_eq!(play(&mut book), vec![3, 2, 1, 0]);
    assert_eq!(book.current_page(), -1);
    assert!(book.shown_profile().is_none());
}

#[test]
fn previous_turns_a_page_back() {
    let mut book = HighscoreBookComponent::new(three_runs());
    for _ in 0..3 {
        book.press_next();
        play(&mut book);
    }
    book.press_previous();
    assert!(book.is_reverse());
    assert_eq!(play(&mut book), vec![3, 6, 5, 4, 3]);
    assert_eq!(book.current_page(), 1);
}

#[test]
fn previous_on_the_first_page_closes_the_book() {
    let mut book = HighscoreBookComponent::new(three_runs());
    book.press_next();
    play(&mut book);
    book.press_previous();
    assert_eq!(play(&mut book), vec![3, 2, 1, 0]);
    assert_eq!(book.current_page(), -1);
    assert!(book.is_page_in_book());
}

#[test]
fn previous_on_the_closed_book_leaves_the_book() {
    let mut book = HighscoreBookComponent::new(three_runs());
    book.press_previous();
    assert_eq!(play(&mut book), vec![3, 6, 5, 4, 3]);
    assert_eq!(book.current_page(), -2);
    assert!(!book.is_page_in_book());
    assert!(!book.page_exists());
    assert!(book.can_turn());
}

#[test]
fn page_exists_while_the_book_is_in_order() {
    let mut book = HighscoreBookComponent::new(three_runs());
    assert!(book.page_exists());
    book.press_next();
    assert!(book.page_exists());
    play(&mut book);
    assert!(book.page_exists());
    assert!(book.can_turn());
}

#[test]
fn page_turned_back_from_outside_the_book_keeps_going() {
    let mut book = HighscoreBookComponent::new(three_runs());
    book.press_previous();
    play(&mut book);
    book.press_next();
    assert_eq!(play(&mut book), vec![3, 4, 5, 6, 3]);
    assert_eq!(book.current_page(), -1);
    assert!(book.is_page_in_book());
}

#[test]
fn forward_then_back_returns_to_the_page() {
    let mut book = HighscoreBookComponent::new(three_runs());
    book.press_next();
    play(&mut book);
    book.press_next();
    play(&mut book);
    book.press_previous();
    play(&mut book);
    assert_eq!(book.current_page(), 0);
    assert!(book.is_page_in_book());
}

#[test]
fn buttons_are_ignored_while_the_book_moves() {
    let mut book = HighscoreBookComponent::new(three_runs());
    book.press_next();
    assert_eq!(book.book_animation_handle_system(), Some(0));
    book.press_previous();
    book.press_next();
    assert!(!book.is_reverse());
    assert_eq!(play(&mut book), vec![1, 2, 3]);
    assert_eq!(book.current_page(), 0);
}

#[test]
fn page_is_hidden_while_the_book_moves() {
    let mut book = HighscoreBookComponent::new(three_runs());
    book.press_next();
    play(&mut book);
    book.press_next();
    assert!(book.shown_profile().is_none());
    assert_eq!(book.hero_image_handle_system(), None);
    assert_eq!(book.book_animation_handle_system(), Some(3));
    assert!(book.shown_profile().is_none());
}

#[test]
fn empty_book_opens_and_closes_at_once() {
    let mut book = HighscoreBookComponent::new(Vec::new());
    assert_eq!(book.total_pages(), 0);
    book.press_next();
    assert_eq!(play(&mut book), vec![0, 1, 2, 3]);
    assert_eq!(book.current_page(), -1);
    assert!(book.shown_profile().is_none());
}

#[test]
fn one_page_book() {
    let mut book = HighscoreBookComponent::new(vec![stored("only", HeroClass::Knight, Gender::Female)]);
    book.press_next();
    assert_eq!(play(&mut book), vec![0, 1, 2, 3]);
    assert_eq!(book.current_page(), 0);
    assert_eq!(book.hero_image_handle_system(), Some((HeroClass::Knight, Gender::Female)));
    book.press_next();
    assert_eq!(play(&mut book), vec![3, 2, 1, 0]);
    assert_eq!(book.current_page(), -1);
}

#[test]
fn portrait_follows_the_page() {
    let mut book = HighscoreBookComponent::new(three_runs());
    book.press_next();
    play(&mut book);
    assert_eq!(book.hero_image_handle_system(), Some((HeroClass::Elf, Gender::Male)));
    book.press_next();
    play(&mut book);
    assert_eq!(book.hero_image_handle_system(), Some((HeroClass::Wizard, Gender::Female)));
    book.press_next();
    play(&mut book);
    assert_eq!(book.hero_image_handle_system(), Some((HeroClass::Lizard, Gender::Male)));
}

#[test]
fn name_and_gender_lines() {
    let g = glossary();
    let p = stored("Zelda", HeroClass::Elf, Gender::Female);
    assert_eq!(
        line_text(PrefixWordComponent::Name, &p, &g, Language::EN, &some_date()),
        "Name: Zelda"
    );
    assert_eq!(
        line_text(PrefixWordComponent::Gender, &p, &g, Language::EN, &some_date()),
        "Gender: Female"
    );
    let p = stored("Link", HeroClass::Elf, Gender::Male);
    assert_eq!(
        line_text(PrefixWordComponent::Gender, &p, &g, Language::EN, &some_date()),
        "Gender: Male"
    );
}

#[test]
fn mode_line_has_no_label() {
    let g = glossary();
    let mut p = stored("x", HeroClass::Elf, Gender::Male);
    assert_eq!(
        line_text(PrefixWordComponent::GameMode, &p, &g, Language::EN, &some_date()),
        "Survival mode"
    );
    p.game_mode = GameMode::ClassicMode;
    assert_eq!(
        line_text(PrefixWordComponent::GameMode, &p, &g, Language::EN, &some_date()),
        "Classic mode"
    );
}

#[test]
fn count_lines() {
    let g = glossary();
    let p = stored("x", HeroClass::Elf, Gender::Male);
    assert_eq!(
        line_text(PrefixWordComponent::TotalKilledMonsters, &p, &g, Language::EN, &some_date()),
        "Killed: 120"
    );
    assert_eq!(
        line_text(PrefixWordComponent::TotalClearedRooms, &p, &g, Language::EN, &some_date()),
        "Rooms: 0"
    );
    assert_eq!(
        line_text(PrefixWordComponent::TotalClearedWaves, &p, &g, Language::EN, &some_date()),
        "Waves: 7"
    );
}

#[test]
fn date_and_playtime_lines() {
    let g = glossary();
    let p = stored("x", HeroClass::Elf, Gender::Male);
    assert_eq!(
        line_text(PrefixWordComponent::Date, &p, &g, Language::EN, &some_date()),
        "Date: 11-09-2024"
    );
    assert_eq!(
        line_text(PrefixWordComponent::Date, &p, &g, Language::VI, &some_date()),
        "Date: 09-11-2024"
    );
    assert_eq!(
        line_text(PrefixWordComponent::Playtime, &p, &g, Language::VI, &some_date()),
        "Playtime: 00:12:34"
    );
}

#[test]
fn page_texts_read_the_date_of_the_run() {
    let p = stored("Ganon", HeroClass::Knight, Gender::Male);
    let lines =
        texts_handle_system(&PrefixWordComponent::iterator(), &p, &glossary(), Language::EN);
    assert_eq!(
        lines,
        vec![
            s("Name: Ganon"),
            s("Gender: Male"),
            s("Survival mode"),
            s("Killed: 120"),
            s("Rooms: 0"),
            s("Waves: 7"),
            s("Date: 11-09-2024"),
            s("Playtime: 00:12:34"),
        ]
    );
}

#[test]
fn page_texts_follow_the_words_asked_for() {
    let p = stored("Ganon", HeroClass::Knight, Gender::Male);
    let words = vec![
        PrefixWordComponent::Playtime,
        PrefixWordComponent::Date,
        PrefixWordComponent::Date,
        PrefixWordComponent::Name,
    ];
    assert_eq!(
        texts_handle_system(&words, &p, &glossary(), Language::VI),
        vec![s("Playtime: 00:12:34"), s("Date: 09-11-2024"), s("Date: 09-11-2024"), s("Name: Ganon")]
    );
    assert_eq!(
        texts_handle_system(&Vec::new(), &p, &glossary(), Language::VI),
        Vec::<String>::new()
    );
}

#[test]
fn page_texts_without_date_need_no_valid_date() {
    let mut p = stored("Ganon", HeroClass::Knight, Gender::Male);
    p.date = s("long ago");
    let words = vec![PrefixWordComponent::Name, PrefixWordComponent::Playtime];
    assert_eq!(
        texts_handle_system(&words, &p, &glossary(), Language::EN),
        vec![s("Name: Ganon"), s("Playtime: 00:12:34")]
    );
    assert_eq!(
        try_texts_handle_system(&words, &p, &glossary(), Language::EN),
        Some(vec![s("Name: Ganon"), s("Playtime: 00:12:34")])
    );
}

#[test]
fn try_page_texts_gives_nothing_on_an_invalid_date() {
    let mut p = stored("Ganon", HeroClass::Knight, Gender::Male);
    p.date = s("long ago");
    assert_eq!(
        try_texts_handle_system(&PrefixWordComponent::iterator(), &p, &glossary(), Language::EN),
        None
    );
}

#[test]
fn try_page_texts_agrees_with_page_texts_on_a_valid_date() {
    let p = stored("Ganon", HeroClass::Knight, Gender::Male);
    let words = PrefixWordComponent::iterator();
    assert_eq!(
        try_texts_handle_system(&words, &p, &glossary(), Language::VI),
        Some(texts_handle_system(&words, &p, &glossary(), Language::VI))
    );
}
