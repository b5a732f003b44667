//! The texts over the dungeon: the floor announced in the middle of the screen
//! and its number in the corner.

use vstd::prelude::*;
use crate::utils::decimal::{decimal, push_decimal, decimal_string};

verus! {

/// The announcement of a floor: the glossary's word for "floor", a space, and
/// the number of the floor counted from 1.
pub open spec fn floor_announcement(floor_word: Seq<char>, current_floor_index: int) -> Seq<char> {
    floor_word + seq![' '] + decimal((current_floor_index + 1) as nat)
}

/// The announcement shown when the game starts: the first floor.
pub fn center_text(floor_word: &str) -> (text: String)
    ensures
        text@ == floor_announcement(floor_word@, 0),
{
    proof {
        reveal_strlit(" ");
    }
    let mut text = String::from_str(floor_word);
    text.append(" ");
    push_decimal(&mut text, 1);
    assert(text@ =~= floor_announcement(floor_word@, 0));
    text
}

/// Decides what the middle of the screen shows.
///
/// The announcement of the current floor stays up until its timer has run out;
/// after that nothing is shown.
pub fn center_text_handle_system(timer_finished: bool, floor_word: &str, current_floor_index: usize) -> (shown: Option<String>)
    requires
        !timer_finished ==> current_floor_index < usize::MAX,
    ensures
        timer_finished ==> shown is None,
        !timer_finished ==> shown is Some && shown->0@ == floor_announcement(
            floor_word@,
            current_floor_index as int,
        ),
{
    if timer_finished {
        None
    } else {
        proof {
            reveal_strlit(" ");
        }
        let mut text = String::from_str(floor_word);
        text.append(" ");
        push_decimal(&mut text, (current_floor_index + 1) as u64);
        assert(text@ =~= floor_announcement(floor_word@, current_floor_index as int));
        Some(text)
    }
}

/// Decides what the corner of the screen shows: the number of the floor, counted
/// from 1, rewritten whenever the player's progress changed.
pub fn top_right_conner_text_handle_system(stats_changed: bool, current_floor_index: usize) -> (shown: Option<String>)
    requires
        stats_changed ==> current_floor_index < usize::MAX,
    ensures
        !stats_changed ==> shown is None,
        stats_changed ==> shown is Some && shown->0@ == decimal((current_floor_index + 1) as nat),
{
    if stats_changed {
        Some(decimal_string((current_floor_index + 1) as u64))
    } else {
        None
    }
}

} // verus!
