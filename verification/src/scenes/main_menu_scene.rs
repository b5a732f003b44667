//! The main menu: six entries, each leading to a screen or out of the game.

use vstd::prelude::*;
use crate::resources::glossary::MainMenuSceneText;
use crate::scenes::{Interaction, SceneState, TextTint};

verus! {

/// The entries of the main menu.
#[derive(Clone, Copy, Debug, PartialEq, Eq, Structural)]
pub enum ButtonComponent {
    Play,
    Highscore,
    Options,
    Help,
    Credits,
    Quit,
}

/// The entries from top to bottom.
pub open spec fn button_order() -> Seq<ButtonComponent> {
    seq![
        ButtonComponent::Play,
        ButtonComponent::Highscore,
        ButtonComponent::Options,
        ButtonComponent::Help,
        ButtonComponent::Credits,
        ButtonComponent::Quit,
    ]
}

impl ButtonComponent {
    /// The entries in the order of [`button_order`].
    pub fn iterator() -> (order: Vec<ButtonComponent>)
        ensures
            order@ == button_order(),
    {
        let order = vec![
            ButtonComponent::Play,
            ButtonComponent::Highscore,
            ButtonComponent::Options,
            ButtonComponent::Help,
            ButtonComponent::Credits,
            ButtonComponent::Quit,
        ];
        order
    }
}

/// What pressing an entry leads to.
#[derive(Clone, Copy, Debug, PartialEq, Eq, Structural)]
pub enum Destination {
    /// Stay on the menu.
    Stay,
    /// Go to another screen.
    Scene(SceneState),
    /// Leave the game.
    Exit,
}

/// What an entry of the menu does: the colour its text takes on and where it
/// leads.
#[derive(Clone, Copy, Debug, PartialEq, Eq, Structural)]
pub struct Reaction {
    pub tint: TextTint,
    pub destination: Destination,
}

/// The screen behind each entry; the last entry leaves the game.
pub open spec fn destination_of(button: ButtonComponent) -> Destination {
    match button {
        ButtonComponent::Play => Destination::Scene(SceneState::GameModeSelectScene),
        ButtonComponent::Highscore => Destination::Scene(SceneState::HighscoreScene),
        ButtonComponent::Options => Destination::Scene(SceneState::OptionsScene),
        ButtonComponent::Help => Destination::Scene(SceneState::HelpScene),
        ButtonComponent::Credits => Destination::Scene(SceneState::CreditsScene),
        ButtonComponent::Quit => Destination::Exit,
    }
}

/// How an entry reacts to the pointer: gray at rest, black under the pointer,
/// red and on its way when pressed.
pub open spec fn reaction(interaction: Interaction, button: ButtonComponent) -> Reaction {
    match interaction {
        Interaction::Idle => Reaction { tint: TextTint::Gray, destination: Destination::Stay },
        Interaction::Hovered => Reaction { tint: TextTint::Black, destination: Destination::Stay },
        Interaction::Pressed => Reaction { tint: TextTint::Red, destination: destination_of(button) },
    }
}

/// The label of an entry, as the glossary words it.
pub fn buttons(button: ButtonComponent, text: &MainMenuSceneText) -> (label: &str)
    ensures
        label@ == (match button {
            ButtonComponent::Play => text.play@,
            ButtonComponent::Highscore => text.highscore@,
            ButtonComponent::Options => text.options@,
            ButtonComponent::Help => text.help@,
            ButtonComponent::Credits => text.credits@,
            ButtonComponent::Quit => text.quit@,
        }),
{
    match button {
        ButtonComponent::Play => text.play.as_str(),
        ButtonComponent::Highscore => text.highscore.as_str(),
        ButtonComponent::Options => text.options.as_str(),
        ButtonComponent::Help => text.help.as_str(),
        ButtonComponent::Credits => text.credits.as_str(),
        ButtonComponent::Quit => text.quit.as_str(),
    }
}

/// Reacts to the pointer on an entry of the menu.
pub fn button_handle_system(interaction: Interaction, button: ButtonComponent) -> (result: Reaction)
    ensures
        result == reaction(interaction, button),
{
    match interaction {
        Interaction::Idle => Reaction { tint: TextTint::Gray, destination: Destination::Stay },
        Interaction::Hovered => Reaction { tint: TextTint::Black, destination: Destination::Stay },
        Interaction::Pressed => {
            let destination = match button {
                ButtonComponent::Play => Destination::Scene(SceneState::GameModeSelectScene),
                ButtonComponent::Highscore => Destination::Scene(SceneState::HighscoreScene),
                ButtonComponent::Options => Destination::Scene(SceneState::OptionsScene),
                ButtonComponent::Help => Destination::Scene(SceneState::HelpScene),
                ButtonComponent::Credits => Destination::Scene(SceneState::CreditsScene),
                ButtonComponent::Quit => Destination::Exit,
            };
            Reaction { tint: TextTint::Red, destination }
        },
    }
}

/// No two entries lead to the same place, and only a pressed entry leads
/// anywhere.
pub proof fn lemma_entries_lead_apart(interaction: Interaction, a: ButtonComponent, b: ButtonComponent)
    ensures
        destination_of(a) == destination_of(b) ==> a == b,
        destination_of(a) != Destination::Stay,
        interaction != Interaction::Pressed ==> reaction(interaction, a).destination == Destination::Stay,
{
}

} // verus!
