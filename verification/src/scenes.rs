//! The screens of the game: what each one shows and where its buttons lead.

use vstd::prelude::*;

pub mod game_mode_select_scene;
pub mod help_scene;
pub mod hero_select_scene;
pub mod highscore_scene;
pub mod main_menu_scene;
pub mod menu_box;
pub mod options_scene;
pub mod pause_scene;
pub mod result_scene;

verus! {

/// The screen the game is on.
#[derive(Clone, Copy, Debug, PartialEq, Eq, Structural)]
pub enum SceneState {
    MainMenuScene,
    HighscoreScene,
    OptionsScene,
    HelpScene,
    CreditsScene,
    GameModeSelectScene,
    HeroSelectScene,
    PreClassicMode,
    PreSurvivalMode,
    InGameClassicMode,
    InGameSurvivalMode,
    ResultScene,
}

/// What the pointer is doing to a button.
#[derive(Clone, Copy, Debug, PartialEq, Eq, Structural)]
pub enum Interaction {
    /// The pointer is elsewhere.
    Idle,
    /// The pointer rests on the button.
    Hovered,
    /// The button is held down.
    Pressed,
}

/// The colour of a menu entry's text.
#[derive(Clone, Copy, Debug, PartialEq, Eq, Structural)]
pub enum TextTint {
    /// At rest.
    Gray,
    /// Under the pointer.
    Black,
    /// Pressed.
    Red,
}

/// The picture on the button that leads back to the main menu.
#[derive(Clone, Copy, Debug, PartialEq, Eq, Structural)]
pub enum HomeIcon {
    Normal,
    Hovered,
    Clicked,
}

/// What the button back to the main menu does: the picture it takes on, and the
/// screen to go to if it was pressed.
#[derive(Clone, Copy, Debug, PartialEq, Eq, Structural)]
pub struct ReturnReaction {
    pub icon: HomeIcon,
    pub next_scene: Option<SceneState>,
}

/// How the button back to the main menu reacts to the pointer.
pub open spec fn return_reaction(interaction: Interaction) -> ReturnReaction {
    match interaction {
        Interaction::Idle => ReturnReaction { icon: HomeIcon::Normal, next_scene: None },
        Interaction::Hovered => ReturnReaction { icon: HomeIcon::Hovered, next_scene: None },
        Interaction::Pressed => ReturnReaction {
            icon: HomeIcon::Clicked,
            next_scene: Some(SceneState::MainMenuScene),
        },
    }
}

/// Reacts to the pointer on the button back to the main menu. Every screen that
/// has the button uses it in the same way.
pub fn return_button_handle(interaction: Interaction) -> (reaction: ReturnReaction)
    ensures
        reaction == return_reaction(interaction),
{
    match interaction {
        Interaction::Idle => ReturnReaction { icon: HomeIcon::Normal, next_scene: None },
        Interaction::Hovered => ReturnReaction { icon: HomeIcon::Hovered, next_scene: None },
        Interaction::Pressed => ReturnReaction {
            icon: HomeIcon::Clicked,
            next_scene: Some(SceneState::MainMenuScene),
        },
    }
}

} // verus!
