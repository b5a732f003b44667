//! The game's plain data: settings, the words of a language, run records and the small
//! enumerations the rules branch on.

pub mod animation_state;
pub mod dungeon;
pub mod effect;
pub mod game_mode;
pub mod glossary;
pub mod hero;
pub mod language;
pub mod monster;
pub mod player;
pub mod potion;
pub mod profile;
pub mod setting;
pub mod skill;
