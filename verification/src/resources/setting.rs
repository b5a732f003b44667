//! What the player chose on the options screen.

use vstd::prelude::*;
use crate::resources::language::Language;

verus! {

/// Sound, music and language choices.
#[derive(Debug)]
pub struct Setting {
    enable_sound: bool,
    enable_music: bool,
    language: Language,
}

/// The choices, apart from how they are stored.
pub struct SettingView {
    pub enable_sound: bool,
    pub enable_music: bool,
    pub language: Language,
}

impl View for Setting {
    type V = SettingView;

    closed spec fn view(&self) -> SettingView {
        SettingView {
            enable_sound: self.enable_sound,
            enable_music: self.enable_music,
            language: self.language,
        }
    }
}

/// The settings a player starts with when none are found on disk: sound and
/// music on, in English.
pub open spec fn fallback() -> SettingView {
    SettingView { enable_sound: true, enable_music: true, language: Language::EN }
}

impl Setting {
    /// Settings with the given switches; the language starts as English.
    pub fn new(enable_sound: bool, enable_music: bool) -> (setting: Self)
        ensures
            setting@ == (SettingView { enable_sound, enable_music, language: Language::EN }),
    {
        Setting { enable_sound, enable_music, language: Language::EN }
    }

    pub fn get_enable_sound(&self) -> (on: bool)
        ensures
            on == self@.enable_sound,
    {
        self.enable_sound
    }

    pub fn get_enable_music(&self) -> (on: bool)
        ensures
            on == self@.enable_music,
    {
        self.enable_music
    }

    pub fn get_language(&self) -> (language: Language)
        ensures
            language == self@.language,
    {
        self.language
    }

    pub fn set_enable_sound(&mut self, enable_sound: bool)
        ensures
            final(self)@ == (SettingView { enable_sound, ..old(self)@ }),
    {
        self.enable_sound = enable_sound;
    }

    pub fn set_enable_music(&mut self, enable_music: bool)
        ensures
            final(self)@ == (SettingView { enable_music, ..old(self)@ }),
    {
        self.enable_music = enable_music;
    }

    pub fn set_language(&mut self, language: Language)
        ensures
            final(self)@ == (SettingView { language, ..old(self)@ }),
    {
        self.language = language;
    }

    /// Takes over the settings found on disk. Where none were found, the
    /// [`fallback`] settings are taken, and the result tells the caller to write
    /// them to disk.
    pub fn load_setting(&mut self, stored: Option<Setting>) -> (write_back: bool)
        ensures
            write_back == (stored is None),
            final(self)@ == (match stored {
                Some(found) => found@,
                None => fallback(),
            }),
    {
        let (setting, write_back) = match stored {
            Some(found) => (found, false),
            None => (Setting::new(true, true), true),
        };
        self.enable_sound = setting.enable_sound;
        self.enable_music = setting.enable_music;
        self.language = setting.language;
        write_back
    }
}

} // verus!
