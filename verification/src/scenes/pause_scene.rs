//! The pause menu that lies over a running game.

use vstd::prelude::*;
use crate::resources::glossary::SharedText;
use crate::resources::profile::Profile;
use crate::scenes::{Interaction, SceneState, TextTint};

verus! {

/// The entries of the pause menu.
#[derive(Clone, Copy, Debug, PartialEq, Eq, Structural)]
pub enum ButtonComponent {
    Continue,
    Quit,
}

impl ButtonComponent {
    /// The entries from top to bottom.
    pub fn iterator() -> (order: Vec<ButtonComponent>)
        ensures
            order@ == seq![ButtonComponent::Continue, ButtonComponent::Quit],
    {
        let order = vec![
            ButtonComponent::Continue,
            ButtonComponent::Quit,
        ];
        order
    }
}

/// What an entry of the pause menu does.
#[derive(Clone, Copy, Debug, PartialEq, Eq, Structural)]
pub struct Reaction {
    /// The colour the entry's text takes on, if it changes.
    pub tint: Option<TextTint>,
    /// Whether the pause menu goes away.
    pub close_menu: bool,
    /// The screen to go to, if the game is left.
    pub next_scene: Option<SceneState>,
}

/// The label of an entry, as the glossary words it.
pub fn buttons(button: ButtonComponent, text: &SharedText) -> (label: String)
    ensures
        label@ == (match button {
            ButtonComponent::Continue => text.continue_@,
            ButtonComponent::Quit => text.quit@,
        }),
{
    match button {
        ButtonComponent::Continue => text.continue_.clone(),
        ButtonComponent::Quit => text.quit.clone(),
    }
}

/// Reacts to the pointer on an entry of the pause menu.
///
/// The text is gray at rest and black under the pointer. Any press closes the
/// menu; a press on "quit" also ends the run and leads to the main menu.
pub fn button_handle_system(interaction: Interaction, button: ButtonComponent, profile: &mut Profile) -> (reaction: Reaction)
    ensures
        reaction == (match interaction {
            Interaction::Idle => Reaction {
                tint: Some(TextTint::Gray),
                close_menu: false,
                next_scene: None,
            },
            Interaction::Hovered => Reaction {
                tint: Some(TextTint::Black),
                close_menu: false,
                next_scene: None,
            },
            Interaction::Pressed => Reaction {
                tint: None,
                close_menu: true,
                next_scene: if button == ButtonComponent::Quit {
                    Some(SceneState::MainMenuScene)
                } else {
                    None
                },
            },
        }),
        *final(profile) == (if interaction == Interaction::Pressed && button
            == ButtonComponent::Quit {
            Profile { is_run_finished: true, ..*old(profile) }
        } else {
            *old(profile)
        }),
{
    match interaction {
        Interaction::Idle => Reaction { tint: Some(TextTint::Gray), close_menu: false, next_scene: None },
        Interaction::Hovered => Reaction {
            tint: Some(TextTint::Black),
            close_menu: false,
            next_scene: None,
        },
        Interaction::Pressed => {
            let mut next_scene = None;
            if button == ButtonComponent::Quit {
                profile.is_run_finished = true;
                next_scene = Some(SceneState::MainMenuScene);
            }
            Reaction { tint: None, close_menu: true, next_scene }
        },
    }
}

} // verus!
