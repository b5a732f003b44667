//! The record of one run, while it is played and once it is kept.

use vstd::prelude::*;
use crate::resources::game_mode::GameMode;
use crate::resources::hero::{Gender, HeroClass};
use crate::scenes::hero_select_scene::{class_of, gender_of, ButtonComponent};

verus! {

/// The run in progress.
#[derive(Debug, Clone)]
pub struct Profile {
    pub name: String,
    pub game_mode: GameMode,
    pub hero_class: HeroClass,
    pub gender: Gender,
    /// When the run began, as an RFC 3339 date and time.
    pub start_time: String,
    /// When the run ended, as an RFC 3339 date and time.
    pub end_time: String,
    pub total_killed_monsters: usize,
    pub total_cleared_rooms: usize,
    pub total_cleared_waves: usize,
    /// Whether the last floor was cleared.
    pub is_run_completed: bool,
    /// Whether the run is over, won or not.
    pub is_run_finished: bool,
}

impl Profile {
    /// Writes the player's name into the record.
    pub fn set_name(&mut self, name: String)
        ensures
            *final(self) == (Profile { name, ..*old(self) }),
    {
        self.name = name;
    }

    /// Writes the chosen game mode into the record.
    pub fn set_game_mode(&mut self, game_mode: GameMode)
        ensures
            *final(self) == (Profile { game_mode, ..*old(self) }),
    {
        self.game_mode = game_mode;
    }

    /// Writes the hero on the chosen button into the record.
    pub fn set_hero(&mut self, hero: ButtonComponent)
        ensures
            *final(self) == (Profile {
                hero_class: class_of(hero),
                gender: gender_of(hero),
                ..*old(self)
            }),
    {
        let (hero_class, gender) = hero.hero();
        self.hero_class = hero_class;
        self.gender = gender;
    }
}

/// A finished run as the highscore book keeps it.
#[derive(Debug, Clone)]
pub struct StoredProfile {
    pub name: String,
    pub gender: Gender,
    pub hero_class: HeroClass,
    pub game_mode: GameMode,
    pub total_killed_monsters: usize,
    pub total_cleared_rooms: usize,
    pub total_cleared_waves: usize,
    /// The day of the run, as an RFC 3339 date and time.
    pub date: String,
    /// Length of the run in seconds.
    pub playtime: i64,
}

} // verus!
