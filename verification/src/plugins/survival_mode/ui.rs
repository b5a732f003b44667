//! The texts over a wave: the wave announced in the middle of the screen, its
//! number in the corner, and the time it has left.

use vstd::prelude::*;
use crate::utils::clock::{countdown_text, push_countdown};
use crate::utils::decimal::{decimal, decimal_string, push_decimal};

verus! {

/// The announcement of a wave: the glossary's word for "wave", a space, and the
/// number of the wave.
pub open spec fn wave_announcement(wave_word: Seq<char>, wave_number: int) -> Seq<char> {
    wave_word + seq![' '] + decimal(wave_number as nat)
}

/// The announcement shown when the game starts: the first wave.
pub fn center_text(wave_word: &str) -> (text: String)
    ensures
        text@ == wave_announcement(wave_word@, 1),
{
    proof {
        reveal_strlit(" ");
    }
    let mut text = String::from_str(wave_word);
    text.append(" ");
    push_decimal(&mut text, 1);
    assert(text@ =~= wave_announcement(wave_word@, 1));
    text
}

/// Decides what the middle of the screen shows.
///
/// The announcement of the current wave stays up until its timer has run out;
/// after that nothing is shown.
pub fn center_text_handle_system(timer_finished: bool, wave_word: &str, wave_number: usize) -> (shown: Option<String>)
    ensures
        timer_finished ==> shown is None,
        !timer_finished ==> shown is Some && shown->0@ == wave_announcement(
            wave_word@,
            wave_number as int,
        ),
{
    if timer_finished {
        None
    } else {
        proof {
            reveal_strlit(" ");
        }
        let mut text = String::from_str(wave_word);
        text.append(" ");
        push_decimal(&mut text, wave_number as u64);
        assert(text@ =~= wave_announcement(wave_word@, wave_number as int));
        Some(text)
    }
}

/// Decides what the corner of the screen shows: the number of the wave,
/// rewritten whenever the wave changed.
pub fn wave_text_handle_system(wave_changed: bool, wave_number: usize) -> (shown: Option<String>)
    ensures
        !wave_changed ==> shown is None,
        wave_changed ==> shown is Some && shown->0@ == decimal(wave_number as nat),
{
    if wave_changed {
        Some(decimal_string(wave_number as u64))
    } else {
        None
    }
}

/// Writes the time a wave has left.
///
/// `wave_duration` is the length of the wave and `elapsed_seconds` the whole
/// seconds that have passed of it. The text shows the difference as minutes
/// within the hour and seconds.
pub fn wave_countdown_text_handle_system(wave_duration: i64, elapsed_seconds: i64) -> (text: String)
    requires
        i64::MIN <= wave_duration - elapsed_seconds <= i64::MAX,
    ensures
        text@ == countdown_text(wave_duration - elapsed_seconds),
{
    let seconds_left = wave_duration - elapsed_seconds;
    let mut text = String::new();
    push_countdown(&mut text, seconds_left);
    assert(text@ =~= countdown_text(wave_duration - elapsed_seconds));
    text
}

} // verus!
