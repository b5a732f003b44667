//! Dates, times of day and durations, read from a run's time stamps and printed
//! the way the score screens show them.

use vstd::prelude::*;
use chrono::{DateTime, Datelike, Timelike};
use crate::resources::language::Language;
use crate::utils::decimal::{
    push_signed_decimal, push_two_digits, signed_decimal, trunc_div, trunc_rem, two_digits,
    lemma_two_digits_width,
};

verus! {

/// The calendar and clock fields of a time stamp, as written in its own time zone.
#[derive(Clone, Copy, Debug, PartialEq, Eq, Structural)]
pub struct Moment {
    pub year: i32,
    pub month: u32,
    pub day: u32,
    pub hour: u32,
    pub minute: u32,
    pub second: u32,
}

/// What `chrono` reads from a text as an RFC 3339 date and time: its fields in
/// the written time zone, or `None` where `chrono` rejects the text.
pub uninterp spec fn rfc3339_moment(text: Seq<char>) -> Option<Moment>;

/// The whole seconds from one RFC 3339 time stamp to another as `chrono` counts
/// them, rounded toward zero, or `None` where it rejects either text.
pub uninterp spec fn rfc3339_elapsed_seconds(start: Seq<char>, end: Seq<char>) -> Option<i64>;

/// Calls `chrono::DateTime::parse_from_rfc3339` and reads the result's `year`,
/// `month`, `day`, `hour`, `minute` and `second`.
///
/// Trusted: the outcome depends on the text alone. Nothing is claimed about
/// which texts `chrono` accepts or which fields it reads from them.
#[verifier::external_body]
pub(crate) fn parse_moment(text: &str) -> (moment: Option<Moment>)
    ensures
        moment == rfc3339_moment(text@),
{
    match DateTime::parse_from_rfc3339(text) {
        Ok(at) => Some(Moment {
            year: at.year(),
            month: at.month(),
            day: at.day(),
            hour: at.hour(),
            minute: at.minute(),
            second: at.second(),
        }),
        Err(_) => None,
    }
}

/// Parses both texts with `chrono::DateTime::parse_from_rfc3339`, subtracts the
/// first moment from the second and takes `num_seconds` of the difference.
///
/// Trusted: the outcome depends on the two texts alone. Nothing is claimed about
/// the number that comes out.
#[verifier::external_body]
pub(crate) fn elapsed_seconds(start: &str, end: &str) -> (elapsed: Option<i64>)
    ensures
        elapsed == rfc3339_elapsed_seconds(start@, end@),
{
    match (DateTime::parse_from_rfc3339(start), DateTime::parse_from_rfc3339(end)) {
        (Ok(from), Ok(to)) => Some((to - from).num_seconds()),
        _ => None,
    }
}

/// A date as the screens print it: day before month in Vietnamese, month before
/// day in English, each padded to two digits, then the year.
pub open spec fn date_text(moment: Moment, language: Language) -> Seq<char> {
    match language {
        Language::VI => two_digits(moment.day as int) + seq!['-'] + two_digits(moment.month as int)
            + seq!['-'] + signed_decimal(moment.year as int),
        Language::EN => two_digits(moment.month as int) + seq!['-'] + two_digits(
            moment.day as int,
        ) + seq!['-'] + signed_decimal(moment.year as int),
    }
}

/// A time of day as the screens print it: `HH:MM:SS`.
pub open spec fn clock_text(moment: Moment) -> Seq<char> {
    two_digits(moment.hour as int) + seq![':'] + two_digits(moment.minute as int) + seq![':']
        + two_digits(moment.second as int)
}

/// A length of time as the screens print it: hours, minutes and seconds, each
/// padded to two digits. Hours are not capped.
pub open spec fn duration_text(seconds: int) -> Seq<char> {
    two_digits(trunc_div(trunc_div(seconds, 60), 60)) + seq![':'] + two_digits(
        trunc_rem(trunc_div(seconds, 60), 60),
    ) + seq![':'] + two_digits(trunc_rem(seconds, 60))
}

/// The time left in a wave as the screen prints it: minutes within the hour and
/// seconds, `MM:SS`.
pub open spec fn countdown_text(seconds: int) -> Seq<char> {
    two_digits(trunc_rem(trunc_div(seconds, 60), 60)) + seq![':'] + two_digits(
        trunc_rem(seconds, 60),
    )
}

/// Appends the date of `moment` in the order `language` asks for.
pub fn push_date(out: &mut String, moment: &Moment, language: Language)
    ensures
        final(out)@ == old(out)@ + date_text(*moment, language),
{
    proof {
        reveal_strlit("-");
    }
    match language {
        Language::VI => {
            push_two_digits(out, moment.day as i64);
            out.append("-");
            push_two_digits(out, moment.month as i64);
        },
        Language::EN => {
            push_two_digits(out, moment.month as i64);
            out.append("-");
            push_two_digits(out, moment.day as i64);
        },
    }
    out.append("-");
    push_signed_decimal(out, moment.year as i64);
    assert(out@ =~= old(out)@ + date_text(*moment, language));
}

/// Appends the time of day of `moment`.
pub fn push_clock(out: &mut String, moment: &Moment)
    ensures
        final(out)@ == old(out)@ + clock_text(*moment),
{
    proof {
        reveal_strlit(":");
    }
    push_two_digits(out, moment.hour as i64);
    out.append(":");
    push_two_digits(out, moment.minute as i64);
    out.append(":");
    push_two_digits(out, moment.second as i64);
    assert(out@ =~= old(out)@ + clock_text(*moment));
}

/// Appends a length of time given in seconds.
pub fn push_duration(out: &mut String, seconds: i64)
    ensures
        final(out)@ == old(out)@ + duration_text(seconds as int),
{
    proof {
        reveal_strlit(":");
    }
    push_two_digits(out, (seconds / 60) / 60);
    out.append(":");
    push_two_digits(out, (seconds / 60) % 60);
    out.append(":");
    push_two_digits(out, seconds % 60);
    assert(out@ =~= old(out)@ + duration_text(seconds as int));
}

/// Appends the time left in a wave, given in seconds.
pub fn push_countdown(out: &mut String, seconds: i64)
    ensures
        final(out)@ == old(out)@ + countdown_text(seconds as int),
{
    proof {
        reveal_strlit(":");
    }
    push_two_digits(out, (seconds / 60) % 60);
    out.append(":");
    push_two_digits(out, seconds % 60);
    assert(out@ =~= old(out)@ + countdown_text(seconds as int));
}

/// A time of day whose fields are in range is printed with exactly eight
/// characters, colons at the third and sixth place.
pub proof fn lemma_clock_text_shape(moment: Moment)
    requires
        moment.hour <= 23,
        moment.minute <= 59,
        moment.second <= 59,
    ensures
        clock_text(moment).len() == 8,
        clock_text(moment)[2] == ':',
        clock_text(moment)[5] == ':',
{
    lemma_two_digits_width(moment.hour as int);
    lemma_two_digits_width(moment.minute as int);
    lemma_two_digits_width(moment.second as int);
}

/// A countdown that has not run out is printed with exactly five characters,
/// whatever its length.
pub proof fn lemma_countdown_text_shape(seconds: int)
    requires
        0 <= seconds,
    ensures
        countdown_text(seconds).len() == 5,
        countdown_text(seconds)[2] == ':',
{
    lemma_two_digits_width(trunc_rem(trunc_div(seconds, 60), 60));
    lemma_two_digits_width(trunc_rem(seconds, 60));
}

/// Both languages print the same date with the same number of characters, and
/// agree on where the year stands.
pub proof fn lemma_date_text_languages(moment: Moment)
    ensures
        date_text(moment, Language::VI).len() == date_text(moment, Language::EN).len(),
        (moment.day == moment.month) ==> date_text(moment, Language::VI) == date_text(
            moment,
            Language::EN,
        ),
{
}

/// The three fields of a length of time add up to it again, and minutes and
/// seconds stay below sixty in size. A negative length has the fields of the
/// positive one, each with a minus sign.
pub proof fn lemma_duration_fields_add_up(seconds: int)
    ensures
        ({
            let hours = trunc_div(trunc_div(seconds, 60), 60);
            let minutes = trunc_rem(trunc_div(seconds, 60), 60);
            let rest = trunc_rem(seconds, 60);
            &&& hours * 3600 + minutes * 60 + rest == seconds
            &&& -60 < minutes < 60
            &&& -60 < rest < 60
            &&& seconds >= 0 ==> hours >= 0 && minutes >= 0 && rest >= 0
            &&& hours == -trunc_div(trunc_div(-seconds, 60), 60)
            &&& minutes == -trunc_rem(trunc_div(-seconds, 60), 60)
            &&& rest == -trunc_rem(-seconds, 60)
        }),
{
}

} // verus!
