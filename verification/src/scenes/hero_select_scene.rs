//! The screen on which the player picks a hero.

use vstd::prelude::*;
use crate::resources::game_mode::GameMode;
use crate::resources::hero::{Gender, HeroClass};
use crate::resources::profile::Profile;
use crate::scenes::{Interaction, SceneState};

verus! {

/// The eight heroes, as buttons.
#[derive(Clone, Copy, Debug, PartialEq, Eq, Structural)]
pub enum ButtonComponent {
    MaleElf,
    FemaleElf,
    MaleKnight,
    FemaleKnight,
    MaleWizard,
    FemaleWizard,
    MaleLizard,
    FemaleLizard,
}

/// The eight heroes, as portraits.
#[derive(Clone, Copy, Debug, PartialEq, Eq, Structural)]
pub enum HeroImageComponent {
    MaleElf,
    FemaleElf,
    MaleKnight,
    FemaleKnight,
    MaleWizard,
    FemaleWizard,
    MaleLizard,
    FemaleLizard,
}

/// The buttons row by row: the four men, then the four women, each row in the
/// order elf, knight, wizard, lizard.
pub open spec fn button_order() -> Seq<ButtonComponent> {
    seq![
        ButtonComponent::MaleElf,
        ButtonComponent::MaleKnight,
        ButtonComponent::MaleWizard,
        ButtonComponent::MaleLizard,
        ButtonComponent::FemaleElf,
        ButtonComponent::FemaleKnight,
        ButtonComponent::FemaleWizard,
        ButtonComponent::FemaleLizard,
    ]
}

/// The class of the hero on a button.
pub open spec fn class_of(button: ButtonComponent) -> HeroClass {
    match button {
        ButtonComponent::MaleElf | ButtonComponent::FemaleElf => HeroClass::Elf,
        ButtonComponent::MaleKnight | ButtonComponent::FemaleKnight => HeroClass::Knight,
        ButtonComponent::MaleWizard | ButtonComponent::FemaleWizard => HeroClass::Wizard,
        ButtonComponent::MaleLizard | ButtonComponent::FemaleLizard => HeroClass::Lizard,
    }
}

/// The gender of the hero on a button.
pub open spec fn gender_of(button: ButtonComponent) -> Gender {
    match button {
        ButtonComponent::MaleElf | ButtonComponent::MaleKnight | ButtonComponent::MaleWizard
        | ButtonComponent::MaleLizard => Gender::Male,
        ButtonComponent::FemaleElf | ButtonComponent::FemaleKnight | ButtonComponent::FemaleWizard
        | ButtonComponent::FemaleLizard => Gender::Female,
    }
}

/// The portrait of a hero of the given class and gender.
pub open spec fn portrait(hero_class: HeroClass, gender: Gender) -> HeroImageComponent {
    match (hero_class, gender) {
        (HeroClass::Elf, Gender::Male) => HeroImageComponent::MaleElf,
        (HeroClass::Elf, Gender::Female) => HeroImageComponent::FemaleElf,
        (HeroClass::Knight, Gender::Male) => HeroImageComponent::MaleKnight,
        (HeroClass::Knight, Gender::Female) => HeroImageComponent::FemaleKnight,
        (HeroClass::Lizard, Gender::Male) => HeroImageComponent::MaleLizard,
        (HeroClass::Lizard, Gender::Female) => HeroImageComponent::FemaleLizard,
        (HeroClass::Wizard, Gender::Male) => HeroImageComponent::MaleWizard,
        (HeroClass::Wizard, Gender::Female) => HeroImageComponent::FemaleWizard,
    }
}

/// The word for a class in the name of a portrait.
pub open spec fn class_word(hero_class: HeroClass) -> Seq<char> {
    match hero_class {
        HeroClass::Elf => "Elf"@,
        HeroClass::Knight => "Knight"@,
        HeroClass::Lizard => "Lizard"@,
        HeroClass::Wizard => "Wizard"@,
    }
}

/// The word for a gender in the name of a portrait.
pub open spec fn gender_word(gender: Gender) -> Seq<char> {
    match gender {
        Gender::Male => "Male"@,
        Gender::Female => "Female"@,
    }
}

impl ButtonComponent {
    /// The buttons in the order of [`button_order`].
    pub fn iterator() -> (order: Vec<ButtonComponent>)
        ensures
            order@ == button_order(),
    {
        let order = vec![
            ButtonComponent::MaleElf,
            ButtonComponent::MaleKnight,
            ButtonComponent::MaleWizard,
            ButtonComponent::MaleLizard,
            ButtonComponent::FemaleElf,
            ButtonComponent::FemaleKnight,
            ButtonComponent::FemaleWizard,
            ButtonComponent::FemaleLizard,
        ];
        order
    }

    /// The class and gender of the hero on the button.
    pub fn hero(self) -> (hero: (HeroClass, Gender))
        ensures
            hero.0 == class_of(self),
            hero.1 == gender_of(self),
    {
        match self {
            ButtonComponent::MaleElf => (HeroClass::Elf, Gender::Male),
            ButtonComponent::FemaleElf => (HeroClass::Elf, Gender::Female),
            ButtonComponent::MaleKnight => (HeroClass::Knight, Gender::Male),
            ButtonComponent::FemaleKnight => (HeroClass::Knight, Gender::Female),
            ButtonComponent::MaleWizard => (HeroClass::Wizard, Gender::Male),
            ButtonComponent::FemaleWizard => (HeroClass::Wizard, Gender::Female),
            ButtonComponent::MaleLizard => (HeroClass::Lizard, Gender::Male),
            ButtonComponent::FemaleLizard => (HeroClass::Lizard, Gender::Female),
        }
    }
}

/// Which portrait moves, and whether it does.
#[derive(Clone, Copy, Debug, PartialEq, Eq, Structural)]
pub struct AnimationController {
    pub run_animation: bool,
    pub hero_image: HeroImageComponent,
}

/// Picks the portrait of a hero and names it: the class, an underscore, the
/// gender.
pub fn heroes_images(hero_class: HeroClass, gender: Gender) -> (image: (HeroImageComponent, String))
    ensures
        image.0 == portrait(hero_class, gender),
        image.1@ == class_word(hero_class) + seq!['_'] + gender_word(gender),
{
    let hero_image = match hero_class {
        HeroClass::Elf => match gender {
            Gender::Male => HeroImageComponent::MaleElf,
            Gender::Female => HeroImageComponent::FemaleElf,
        },
        HeroClass::Knight => match gender {
            Gender::Male => HeroImageComponent::MaleKnight,
            Gender::Female => HeroImageComponent::FemaleKnight,
        },
        HeroClass::Lizard => match gender {
            Gender::Male => HeroImageComponent::MaleLizard,
            Gender::Female => HeroImageComponent::FemaleLizard,
        },
        HeroClass::Wizard => match gender {
            Gender::Male => HeroImageComponent::MaleWizard,
            Gender::Female => HeroImageComponent::FemaleWizard,
        },
    };
    let mut component_name = String::from_str(
        match hero_class {
            HeroClass::Elf => "Elf",
            HeroClass::Knight => "Knight",
            HeroClass::Lizard => "Lizard",
            HeroClass::Wizard => "Wizard",
        },
    );
    proof {
        reveal_strlit("_");
    }
    component_name.append("_");
    component_name.append(
        match gender {
            Gender::Male => "Male",
            Gender::Female => "Female",
        },
    );
    assert(component_name@ =~= class_word(hero_class) + seq!['_'] + gender_word(gender));
    (hero_image, component_name)
}

/// The name under which the button at place `index` of [`button_order`] is
/// registered with the engine. The names follow a list of their own, which
/// starts one place late and ends on the female wizard.
pub fn heroes_buttons(index: usize) -> (component_name: &'static str)
    ensures
        component_name@ == (if index == 1 {
            "MaleElf"@
        } else if index == 2 {
            "MaleKnight"@
        } else if index == 3 {
            "MaleLizard"@
        } else if index == 4 {
            "MaleWizard"@
        } else if index == 5 {
            "FemaleElf"@
        } else if index == 6 {
            "FemaleKnight"@
        } else if index == 7 {
            "FemaleLizard"@
        } else {
            "FemaleWizard"@
        }),
{
    if index == 1 {
        "MaleElf"
    } else if index == 2 {
        "MaleKnight"
    } else if index == 3 {
        "MaleLizard"
    } else if index == 4 {
        "MaleWizard"
    } else if index == 5 {
        "FemaleElf"
    } else if index == 6 {
        "FemaleKnight"
    } else if index == 7 {
        "FemaleLizard"
    } else {
        "FemaleWizard"
    }
}

/// Reacts to the pointer on a hero's button.
///
/// At rest no portrait moves. Under the pointer the hero's own portrait starts
/// to move. A press writes the hero into the run's record and leads to the
/// preparation of the mode that the record names.
pub fn hero_select_handle(
    interaction: Interaction,
    button: ButtonComponent,
    animation_controller: &mut AnimationController,
    profile: &mut Profile,
) -> (next_scene: Option<SceneState>)
    ensures
        interaction == Interaction::Idle ==> next_scene is None && *final(profile) == *old(profile)
            && *final(animation_controller) == (AnimationController {
            run_animation: false,
            ..*old(animation_controller)
        }),
        interaction == Interaction::Hovered ==> next_scene is None && *final(profile) == *old(
            profile,
        ) && *final(animation_controller) == (AnimationController {
            run_animation: true,
            hero_image: portrait(class_of(button), gender_of(button)),
        }),
        interaction == Interaction::Pressed ==> *final(animation_controller) == *old(
            animation_controller,
        ) && *final(profile) == (Profile {
            hero_class: class_of(button),
            gender: gender_of(button),
            ..*old(profile)
        }) && next_scene == Some(
            if old(profile).game_mode == GameMode::ClassicMode {
                SceneState::PreClassicMode
            } else {
                SceneState::PreSurvivalMode
            },
        ),
{
    match interaction {
        Interaction::Idle => {
            animation_controller.run_animation = false;
            None
        },
        Interaction::Hovered => {
            animation_controller.run_animation = true;
            animation_controller.hero_image = match button {
                ButtonComponent::MaleElf => HeroImageComponent::MaleElf,
                ButtonComponent::FemaleElf => HeroImageComponent::FemaleElf,
                ButtonComponent::MaleKnight => HeroImageComponent::MaleKnight,
                ButtonComponent::FemaleKnight => HeroImageComponent::FemaleKnight,
                ButtonComponent::MaleLizard => HeroImageComponent::MaleLizard,
                ButtonComponent::FemaleLizard => HeroImageComponent::FemaleLizard,
                ButtonComponent::MaleWizard => HeroImageComponent::MaleWizard,
                ButtonComponent::FemaleWizard => HeroImageComponent::FemaleWizard,
            };
            None
        },
        Interaction::Pressed => {
            profile.set_hero(button);
            if profile.game_mode == GameMode::ClassicMode {
                Some(SceneState::PreClassicMode)
            } else {
                Some(SceneState::PreSurvivalMode)
            }
        },
    }
}

/// The frame after `index` in a portrait's strip: frames 0 to 4 in a cycle; a
/// frame outside the cycle restarts it.
pub open spec fn next_portrait_frame(index: int) -> int {
    if index > 3 || index < 0 {
        0
    } else {
        index + 1
    }
}

/// Whether the portrait of a hero is the one that moves. While it is, the
/// animation clock runs for it.
pub fn portrait_moves(hero_image: HeroImageComponent, animation_controller: &AnimationController) -> (moves: bool)
    ensures
        moves == (animation_controller.run_animation && hero_image
            == animation_controller.hero_image),
{
    animation_controller.run_animation && hero_image == animation_controller.hero_image
}

/// Steps the portrait of one hero.
///
/// Only the portrait under the pointer moves, and only when the animation clock
/// has just struck; every other portrait keeps its frame.
pub fn hero_image_animation_handle(
    hero_image: HeroImageComponent,
    animation_controller: &AnimationController,
    timer_just_finished: bool,
    index: usize,
) -> (next: usize)
    ensures
        next == (if animation_controller.run_animation && hero_image
            == animation_controller.hero_image && timer_just_finished {
            next_portrait_frame(index as int)
        } else {
            index as int
        }),
{
    if portrait_moves(hero_image, animation_controller) {
        if timer_just_finished {
            let min_index: usize = 0;
            let max_index: usize = 3;
            if index > max_index || index < min_index {
                return min_index;
            } else {
                return index + 1;
            }
        }
    }
    index
}

/// Each hero has their own button: class and gender tell the buttons apart, and
/// the portrait that moves under a button is the one of its hero.
pub proof fn lemma_buttons_tell_heroes_apart(a: ButtonComponent, b: ButtonComponent)
    ensures
        class_of(a) == class_of(b) && gender_of(a) == gender_of(b) ==> a == b,
        portrait(class_of(a), gender_of(a)) == portrait(class_of(b), gender_of(b)) ==> a == b,
{
}

} // verus!
