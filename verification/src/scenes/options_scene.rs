//! The options screen: sound, music and language.

use vstd::prelude::*;
use crate::resources::glossary::OptionsSceneText;
use crate::resources::language::Language;
use crate::resources::setting::Setting;
use crate::scenes::{Interaction, SceneState};

verus! {

/// The two flags that pick the language.
#[derive(Clone, Copy, Debug, PartialEq, Eq, Structural)]
pub enum PairButtonComponent {
    Vietnamese,
    English,
}

/// The picture buttons of the screen.
#[derive(Clone, Copy, Debug, PartialEq, Eq, Structural)]
pub enum ButtonComponent {
    Return,
    EnableSound,
    EnableMusic,
}

/// The labels of the screen.
#[derive(Clone, Copy, Debug, PartialEq, Eq, Structural)]
pub enum TextComponent {
    Options,
    EnableSound,
    EnableMusic,
    Language,
}

impl PairButtonComponent {
    /// The flags from left to right.
    pub fn iterator() -> (order: Vec<PairButtonComponent>)
        ensures
            order@ == seq![PairButtonComponent::Vietnamese, PairButtonComponent::English],
    {
        let order = vec![
            PairButtonComponent::Vietnamese,
            PairButtonComponent::English,
        ];
        order
    }

    /// The language a flag stands for.
    pub fn language(self) -> (language: Language)
        ensures
            language == language_of(self),
    {
        match self {
            PairButtonComponent::Vietnamese => Language::VI,
            PairButtonComponent::English => Language::EN,
        }
    }
}

impl ButtonComponent {
    /// The picture buttons in the order in which the screen lays them out.
    pub fn iterator() -> (order: Vec<ButtonComponent>)
        ensures
            order@ == seq![
                ButtonComponent::Return,
                ButtonComponent::EnableSound,
                ButtonComponent::EnableMusic,
            ],
    {
        let order = vec![
            ButtonComponent::Return,
            ButtonComponent::EnableSound,
            ButtonComponent::EnableMusic,
        ];
        order
    }
}

impl TextComponent {
    /// The labels from top to bottom.
    pub fn iterator() -> (order: Vec<TextComponent>)
        ensures
            order@ == seq![
                TextComponent::Options,
                TextComponent::EnableSound,
                TextComponent::EnableMusic,
                TextComponent::Language,
            ],
    {
        let order = vec![
            TextComponent::Options,
            TextComponent::EnableSound,
            TextComponent::EnableMusic,
            TextComponent::Language,
        ];
        order
    }
}

/// The language a flag stands for.
pub open spec fn language_of(button: PairButtonComponent) -> Language {
    match button {
        PairButtonComponent::Vietnamese => Language::VI,
        PairButtonComponent::English => Language::EN,
    }
}

/// The pictures a button of this screen can show.
#[derive(Clone, Copy, Debug, PartialEq, Eq, Structural)]
pub enum Icon {
    HomeNormal,
    HomeHovered,
    HomeClicked,
    SoundOn,
    SoundOff,
    SoundHovered,
    MusicOn,
    MusicOff,
    MusicHovered,
}

/// The picture a button shows at rest: the way home, or the state of its switch.
pub open spec fn resting_icon(button: ButtonComponent, sound: bool, music: bool) -> Icon {
    match button {
        ButtonComponent::Return => Icon::HomeNormal,
        ButtonComponent::EnableSound => if sound {
            Icon::SoundOn
        } else {
            Icon::SoundOff
        },
        ButtonComponent::EnableMusic => if music {
            Icon::MusicOn
        } else {
            Icon::MusicOff
        },
    }
}

/// The picture a button shows under the pointer.
pub open spec fn hovered_icon(button: ButtonComponent) -> Icon {
    match button {
        ButtonComponent::Return => Icon::HomeHovered,
        ButtonComponent::EnableSound => Icon::SoundHovered,
        ButtonComponent::EnableMusic => Icon::MusicHovered,
    }
}

/// The labels that the screen starts with, from top to bottom: the title, then
/// the words for music, sound and language.
pub fn texts(text: &OptionsSceneText) -> (labels: Vec<String>)
    ensures
        labels@.len() == 4,
        labels@[0]@ == text.options@,
        labels@[1]@ == text.enable_music@,
        labels@[2]@ == text.enable_sound@,
        labels@[3]@ == text.language@,
{
    let mut labels: Vec<String> = Vec::new();
    labels.push(text.options.clone());
    labels.push(text.enable_music.clone());
    labels.push(text.enable_sound.clone());
    labels.push(text.language.clone());
    labels
}

/// The name under which the label at place `index` is registered with the
/// engine.
pub fn text_name(index: usize) -> (component_name: &'static str)
    ensures
        component_name@ == (if index == 0 {
            "OptionsText"@
        } else if index == 1 {
            "EnableMusicText"@
        } else if index == 2 {
            "EnableSoundText"@
        } else if index == 3 {
            "LanguageText"@
        } else {
            "Unknown text"@
        }),
{
    if index == 0 {
        "OptionsText"
    } else if index == 1 {
        "EnableMusicText"
    } else if index == 2 {
        "EnableSoundText"
    } else if index == 3 {
        "LanguageText"
    } else {
        "Unknown text"
    }
}

/// The name under which a picture button is registered with the engine.
pub fn button_name(button: ButtonComponent) -> (component_name: &'static str)
    ensures
        component_name@ == (match button {
            ButtonComponent::Return => "Return"@,
            ButtonComponent::EnableSound => "EnableSound"@,
            ButtonComponent::EnableMusic => "EnableMusic"@,
        }),
{
    match button {
        ButtonComponent::Return => "Return",
        ButtonComponent::EnableSound => "EnableSound",
        ButtonComponent::EnableMusic => "EnableMusic",
    }
}

/// The name under which a flag is registered with the engine.
pub fn flag_name(pair_button: PairButtonComponent) -> (component_name: &'static str)
    ensures
        component_name@ == (match pair_button {
            PairButtonComponent::Vietnamese => "Vietnamese"@,
            PairButtonComponent::English => "English"@,
        }),
{
    match pair_button {
        PairButtonComponent::Vietnamese => "Vietnamese",
        PairButtonComponent::English => "English",
    }
}

/// The picture a button starts with.
pub fn buttons(button: ButtonComponent, setting: &Setting) -> (icon: Icon)
    ensures
        icon == resting_icon(button, setting@.enable_sound, setting@.enable_music),
{
    match button {
        ButtonComponent::Return => Icon::HomeNormal,
        ButtonComponent::EnableSound => {
            if setting.get_enable_sound() {
                Icon::SoundOn
            } else {
                Icon::SoundOff
            }
        },
        ButtonComponent::EnableMusic => {
            if setting.get_enable_music() {
                Icon::MusicOn
            } else {
                Icon::MusicOff
            }
        },
    }
}

/// Whether a flag is drawn as the chosen one: it is when it stands for the
/// language of the settings.
pub fn pair_buttons(pair_button: PairButtonComponent, setting: &Setting) -> (selected: bool)
    ensures
        selected == (language_of(pair_button) == setting@.language),
{
    match pair_button {
        PairButtonComponent::Vietnamese => match setting.get_language() {
            Language::VI => true,
            Language::EN => false,
        },
        PairButtonComponent::English => match setting.get_language() {
            Language::VI => false,
            Language::EN => true,
        },
    }
}

/// Reacts to the pointer on a picture button.
///
/// At rest and under the pointer the button only changes its picture. A press
/// on the way home leads to the main menu; a press on a switch flips it and
/// leaves the picture alone.
pub fn button_handle_system(interaction: Interaction, button: ButtonComponent, setting: &mut Setting) -> (result: (Option<Icon>, Option<SceneState>))
    ensures
        final(setting)@.language == old(setting)@.language,
        final(setting)@.enable_sound == (if interaction == Interaction::Pressed && button
            == ButtonComponent::EnableSound {
            !old(setting)@.enable_sound
        } else {
            old(setting)@.enable_sound
        }),
        final(setting)@.enable_music == (if interaction == Interaction::Pressed && button
            == ButtonComponent::EnableMusic {
            !old(setting)@.enable_music
        } else {
            old(setting)@.enable_music
        }),
        result.0 == (match interaction {
            Interaction::Idle => Some(resting_icon(button, old(setting)@.enable_sound, old(setting)@.enable_music)),
            Interaction::Hovered => Some(hovered_icon(button)),
            Interaction::Pressed => if button == ButtonComponent::Return {
                Some(Icon::HomeClicked)
            } else {
                None::<Icon>
            },
        }),
        result.1 == (if interaction == Interaction::Pressed && button == ButtonComponent::Return {
            Some(SceneState::MainMenuScene)
        } else {
            None::<SceneState>
        }),
{
    match button {
        ButtonComponent::Return => match interaction {
            Interaction::Idle => (Some(Icon::HomeNormal), None),
            Interaction::Hovered => (Some(Icon::HomeHovered), None),
            Interaction::Pressed => (Some(Icon::HomeClicked), Some(SceneState::MainMenuScene)),
        },
        ButtonComponent::EnableSound => match interaction {
            Interaction::Idle => {
                if setting.get_enable_sound() {
                    (Some(Icon::SoundOn), None)
                } else {
                    (Some(Icon::SoundOff), None)
                }
            },
            Interaction::Hovered => (Some(Icon::SoundHovered), None),
            Interaction::Pressed => {
                let enable_sound = setting.get_enable_sound();
                setting.set_enable_sound(!enable_sound);
                (None, None)
            },
        },
        ButtonComponent::EnableMusic => match interaction {
            Interaction::Idle => {
                if setting.get_enable_music() {
                    (Some(Icon::MusicOn), None)
                } else {
                    (Some(Icon::MusicOff), None)
                }
            },
            Interaction::Hovered => (Some(Icon::MusicHovered), None),
            Interaction::Pressed => {
                let enable_music = setting.get_enable_music();
                setting.set_enable_music(!enable_music);
                (None, None)
            },
        },
    }
}

/// What a flag does: how it is drawn, or the language that the dictionary has to
/// switch to.
#[derive(Clone, Copy, Debug, PartialEq, Eq, Structural)]
pub enum FlagReaction {
    /// Draw the flag as chosen (`true`) or not.
    Draw(bool),
    /// The language changed: load its words.
    Switch(Language),
    /// Nothing changes.
    Keep,
}

/// Reacts to the pointer on a flag.
///
/// At rest and under the pointer the flag is drawn as chosen exactly when it
/// stands for the language of the settings. A press on the flag of another
/// language makes that language the one of the settings; a press on the flag of
/// the current language changes nothing.
pub fn pair_button_handle_system(interaction: Interaction, button: PairButtonComponent, setting: &mut Setting) -> (reaction: FlagReaction)
    ensures
        final(setting)@.enable_sound == old(setting)@.enable_sound,
        final(setting)@.enable_music == old(setting)@.enable_music,
        interaction != Interaction::Pressed ==> final(setting)@.language == old(setting)@.language
            && reaction == FlagReaction::Draw(language_of(button) == old(setting)@.language),
        interaction == Interaction::Pressed ==> final(setting)@.language == language_of(button)
            && reaction == (if language_of(button) != old(setting)@.language {
            FlagReaction::Switch(language_of(button))
        } else {
            FlagReaction::Keep
        }),
{
    let language = button.language();
    match interaction {
        Interaction::Idle | Interaction::Hovered => FlagReaction::Draw(
            language == setting.get_language(),
        ),
        Interaction::Pressed => {
            if setting.get_language() != language {
                setting.set_language(language);
                FlagReaction::Switch(language)
            } else {
                FlagReaction::Keep
            }
        },
    }
}

/// The words of a label in the current language.
pub fn text_handle_system(text_type: TextComponent, text: &OptionsSceneText) -> (label: String)
    ensures
        label@ == (match text_type {
            TextComponent::Options => text.options@,
            TextComponent::EnableSound => text.enable_sound@,
            TextComponent::EnableMusic => text.enable_music@,
            TextComponent::Language => text.language@,
        }),
{
    match text_type {
        TextComponent::Options => text.options.clone(),
        TextComponent::EnableSound => text.enable_sound.clone(),
        TextComponent::EnableMusic => text.enable_music.clone(),
        TextComponent::Language => text.language.clone(),
    }
}

} // verus!
