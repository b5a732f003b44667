//! The screen on which the player picks how to play.

use vstd::prelude::*;
use crate::resources::game_mode::GameMode;
use crate::resources::glossary::SharedText;
use crate::resources::profile::Profile;
use crate::scenes::{return_reaction, Interaction, ReturnReaction, HomeIcon, SceneState, TextTint};

verus! {

/// The buttons of the screen.
#[derive(Clone, Copy, Debug, PartialEq, Eq, Structural)]
pub enum ButtonComponent {
    Return,
    ClassicMode,
    SurvivalMode,
}

/// The buttons in the order in which the screen lays them out.
pub open spec fn button_order() -> Seq<ButtonComponent> {
    seq![ButtonComponent::Return, ButtonComponent::ClassicMode, ButtonComponent::SurvivalMode]
}

impl ButtonComponent {
    /// The buttons in the order of [`button_order`].
    pub fn iterator() -> (order: Vec<ButtonComponent>)
        ensures
            order@ == button_order(),
    {
        let order = vec![
            ButtonComponent::Return,
            ButtonComponent::ClassicMode,
            ButtonComponent::SurvivalMode,
        ];
        order
    }
}

/// The game mode behind a button, if it stands for one.
pub open spec fn mode_of(button: ButtonComponent) -> Option<GameMode> {
    match button {
        ButtonComponent::Return => None,
        ButtonComponent::ClassicMode => Some(GameMode::ClassicMode),
        ButtonComponent::SurvivalMode => Some(GameMode::SurvivalMode),
    }
}

/// The glossary's label of the button at place `index` of [`button_order`]: the
/// second reads "classic mode", every later one "survival mode". The button at
/// the first place shows a picture and has no label.
pub fn buttons(index: usize, text: &SharedText) -> (label: Option<&str>)
    ensures
        index == 0 ==> label is None,
        index == 1 ==> label is Some && label->0@ == text.classic_mode@,
        index > 1 ==> label is Some && label->0@ == text.survival_mode@,
{
    if index == 0 {
        None
    } else if index == 1 {
        Some(text.classic_mode.as_str())
    } else {
        Some(text.survival_mode.as_str())
    }
}

/// Reacts to the pointer on a button with a label.
///
/// The label is gray at rest and black under the pointer. Pressing a mode
/// button writes the mode into the run's record and leads to the choice of a
/// hero; in every other case the record stays as it is and so does the screen.
pub fn button_handle_system(interaction: Interaction, button: ButtonComponent, profile: &mut Profile) -> (result: (Option<TextTint>, Option<SceneState>))
    ensures
        result.0 == (match interaction {
            Interaction::Idle => Some(TextTint::Gray),
            Interaction::Hovered => Some(TextTint::Black),
            Interaction::Pressed => None::<TextTint>,
        }),
        interaction == Interaction::Pressed && mode_of(button) is Some ==> result.1 == Some(
            SceneState::HeroSelectScene,
        ) && *final(profile) == (Profile { game_mode: mode_of(button)->0, ..*old(profile) }),
        !(interaction == Interaction::Pressed && mode_of(button) is Some) ==> result.1 is None
            && *final(profile) == *old(profile),
{
    match interaction {
        Interaction::Idle => (Some(TextTint::Gray), None),
        Interaction::Hovered => (Some(TextTint::Black), None),
        Interaction::Pressed => {
            if button == ButtonComponent::ClassicMode {
                profile.game_mode = GameMode::ClassicMode;
                (None, Some(SceneState::HeroSelectScene))
            } else if button == ButtonComponent::SurvivalMode {
                profile.game_mode = GameMode::SurvivalMode;
                (None, Some(SceneState::HeroSelectScene))
            } else {
                (None, None)
            }
        },
    }
}

/// Reacts to the pointer on the button back to the main menu; the other buttons
/// do not take part.
pub fn return_button_handle(interaction: Interaction, button: ButtonComponent) -> (reaction: Option<ReturnReaction>)
    ensures
        reaction == (if button == ButtonComponent::Return {
            Some(return_reaction(interaction))
        } else {
            None::<ReturnReaction>
        }),
{
    if button == ButtonComponent::Return {
        Some(
            match interaction {
                Interaction::Idle => ReturnReaction { icon: HomeIcon::Normal, next_scene: None },
                Interaction::Hovered => ReturnReaction { icon: HomeIcon::Hovered, next_scene: None },
                Interaction::Pressed => ReturnReaction {
                    icon: HomeIcon::Clicked,
                    next_scene: Some(SceneState::MainMenuScene),
                },
            },
        )
    } else {
        None
    }
}

} // verus!
