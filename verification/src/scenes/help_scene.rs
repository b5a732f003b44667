//! The help screen: what each key does.

use vstd::prelude::*;
use crate::resources::glossary::HelpSceneText;

verus! {

/// The keys behind the seven actions, in the order in which the screen lists
/// the actions.
pub open spec fn control_keys() -> Seq<Seq<char>> {
    seq!["W"@, "S"@, "A"@, "D"@, "SPACE"@, "MOUSE 1"@, "MOUSE"@]
}

/// The title of the screen and, below it, the glossary's names of the seven
/// actions: the four directions, the skill, the attack and the aim.
pub fn texts(text: &HelpSceneText) -> (labels: Vec<String>)
    ensures
        labels@.len() == 8,
        labels@[0]@ == text.help@,
        labels@[1]@ == text.move_up@,
        labels@[2]@ == text.move_down@,
        labels@[3]@ == text.move_left@,
        labels@[4]@ == text.move_right@,
        labels@[5]@ == text.use_skill@,
        labels@[6]@ == text.attack@,
        labels@[7]@ == text.aim@,
{
    let mut labels: Vec<String> = Vec::new();
    labels.push(text.help.clone());
    labels.push(text.move_up.clone());
    labels.push(text.move_down.clone());
    labels.push(text.move_left.clone());
    labels.push(text.move_right.clone());
    labels.push(text.use_skill.clone());
    labels.push(text.attack.clone());
    labels.push(text.aim.clone());
    labels
}

/// The key that stands beside the action at place `index`.
pub fn control_texts(index: usize) -> (key: &'static str)
    requires
        index < 7,
    ensures
        key@ == control_keys()[index as int],
{
    if index == 0 {
        "W"
    } else if index == 1 {
        "S"
    } else if index == 2 {
        "A"
    } else if index == 3 {
        "D"
    } else if index == 4 {
        "SPACE"
    } else if index == 5 {
        "MOUSE 1"
    } else {
        "MOUSE"
    }
}

} // verus!
