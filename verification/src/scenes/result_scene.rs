//! The screen after a run: the lines that sum it up, its buttons, and the box in
//! which the player types a name for the highscore book.

use vstd::prelude::*;
use crate::resources::game_mode::GameMode;
use crate::resources::glossary::Glossary;
use crate::resources::language::Language;
use crate::resources::profile::Profile;
use crate::utils::clock::{
    clock_text, date_text, duration_text, elapsed_seconds, parse_moment, push_clock, push_date,
    push_duration, rfc3339_elapsed_seconds, rfc3339_moment, Moment,
};
use crate::utils::decimal::{decimal, push_decimal};
use crate::scenes::{return_reaction, HomeIcon, Interaction, SceneState};
use vstd::utf8::is_ascii_chars;

verus! {

/// The lines of the summary.
#[derive(Clone, Copy, Debug, PartialEq, Eq, Structural)]
pub enum PrefixWordComponent {
    GameMode,
    Date,
    StartTime,
    EndTime,
    Playtime,
    TotalKilledMonsters,
    TotalClearedRooms,
    TotalClearedWaves,
}

/// The order in which the summary lists its lines, top to bottom.
pub open spec fn line_order() -> Seq<PrefixWordComponent> {
    seq![
        PrefixWordComponent::GameMode,
        PrefixWordComponent::Date,
        PrefixWordComponent::StartTime,
        PrefixWordComponent::EndTime,
        PrefixWordComponent::Playtime,
        PrefixWordComponent::TotalKilledMonsters,
        PrefixWordComponent::TotalClearedWaves,
        PrefixWordComponent::TotalClearedRooms,
    ]
}

impl PrefixWordComponent {
    /// The lines in the order of [`line_order`].
    pub fn iterator() -> (order: Vec<PrefixWordComponent>)
        ensures
            order@ == line_order(),
    {
        let order = vec![
            PrefixWordComponent::GameMode,
            PrefixWordComponent::Date,
            PrefixWordComponent::StartTime,
            PrefixWordComponent::EndTime,
            PrefixWordComponent::Playtime,
            PrefixWordComponent::TotalKilledMonsters,
            PrefixWordComponent::TotalClearedWaves,
            PrefixWordComponent::TotalClearedRooms,
        ];
        order
    }
}

/// The time stamps of a run, read: when it began, when it ended, and the whole
/// seconds in between.
#[derive(Clone, Copy, Debug, PartialEq, Eq, Structural)]
pub struct RunTimes {
    pub start: Moment,
    pub end: Moment,
    pub playtime: i64,
}

/// The times of a run as its two time stamps give them, or `None` if one of the
/// stamps is not a valid RFC 3339 date and time.
pub open spec fn run_times(profile: Profile) -> Option<RunTimes> {
    match (
        rfc3339_moment(profile.start_time@),
        rfc3339_moment(profile.end_time@),
        rfc3339_elapsed_seconds(profile.start_time@, profile.end_time@),
    ) {
        (Some(start), Some(end), Some(playtime)) => Some(RunTimes { start, end, playtime }),
        _ => None,
    }
}

/// The text of one summary line.
///
/// The game mode stands alone, by its name in the glossary. Every other line is
/// the glossary's label followed by its value: the date and the start time come
/// from the start stamp, the end time from the end stamp, the play time is the
/// span between the two, and the three totals are printed in decimal.
pub open spec fn line(
    word: PrefixWordComponent,
    profile: Profile,
    glossary: Glossary,
    language: Language,
    times: RunTimes,
) -> Seq<char> {
    match word {
        PrefixWordComponent::GameMode => if profile.game_mode == GameMode::ClassicMode {
            glossary.shared_text.classic_mode@
        } else {
            glossary.shared_text.survival_mode@
        },
        PrefixWordComponent::Date => glossary.result_scene_text.date@ + date_text(
            times.start,
            language,
        ),
        PrefixWordComponent::StartTime => glossary.result_scene_text.start_time@ + clock_text(
            times.start,
        ),
        PrefixWordComponent::EndTime => glossary.result_scene_text.end_time@ + clock_text(
            times.end,
        ),
        PrefixWordComponent::Playtime => glossary.result_scene_text.playtime@ + duration_text(
            times.playtime as int,
        ),
        PrefixWordComponent::TotalKilledMonsters => glossary.result_scene_text.total_killed_monsters@
            + decimal(profile.total_killed_monsters as nat),
        PrefixWordComponent::TotalClearedRooms => glossary.result_scene_text.total_cleared_rooms@
            + decimal(profile.total_cleared_rooms as nat),
        PrefixWordComponent::TotalClearedWaves => glossary.result_scene_text.total_cleared_waves@
            + decimal(profile.total_cleared_waves as nat),
    }
}

/// The name under which a summary line is registered with the engine.
pub fn component_name(word: PrefixWordComponent) -> (name: &'static str)
    ensures
        name@ == (match word {
            PrefixWordComponent::GameMode => "GameMode"@,
            PrefixWordComponent::Date => "Date"@,
            PrefixWordComponent::StartTime => "StartTime"@,
            PrefixWordComponent::EndTime => "EndTime"@,
            PrefixWordComponent::TotalKilledMonsters => "TotalKilledMonsters"@,
            PrefixWordComponent::TotalClearedRooms => "TotalClearedRooms"@,
            PrefixWordComponent::TotalClearedWaves => "TotalClearedWaves"@,
            PrefixWordComponent::Playtime => "Playtime"@,
        }),
{
    match word {
        PrefixWordComponent::GameMode => "GameMode",
        PrefixWordComponent::Date => "Date",
        PrefixWordComponent::StartTime => "StartTime",
        PrefixWordComponent::EndTime => "EndTime",
        PrefixWordComponent::TotalKilledMonsters => "TotalKilledMonsters",
        PrefixWordComponent::TotalClearedRooms => "TotalClearedRooms",
        PrefixWordComponent::TotalClearedWaves => "TotalClearedWaves",
        PrefixWordComponent::Playtime => "Playtime",
    }
}

/// Writes one summary line from a run whose time stamps have been read.
pub fn line_text(
    word: PrefixWordComponent,
    profile: &Profile,
    glossary: &Glossary,
    language: Language,
    times: &RunTimes,
) -> (text: String)
    ensures
        text@ == line(word, *profile, *glossary, language, *times),
{
    match word {
        PrefixWordComponent::GameMode => {
            if profile.game_mode == GameMode::ClassicMode {
                glossary.shared_text.classic_mode.clone()
            } else {
                glossary.shared_text.survival_mode.clone()
            }
        },
        PrefixWordComponent::Date => {
            let mut text = glossary.result_scene_text.date.clone();
            push_date(&mut text, &times.start, language);
            text
        },
        PrefixWordComponent::StartTime => {
            let mut text = glossary.result_scene_text.start_time.clone();
            push_clock(&mut text, &times.start);
            text
        },
        PrefixWordComponent::EndTime => {
            let mut text = glossary.result_scene_text.end_time.clone();
            push_clock(&mut text, &times.end);
            text
        },
        PrefixWordComponent::Playtime => {
            let mut text = glossary.result_scene_text.playtime.clone();
            push_duration(&mut text, times.playtime);
            text
        },
        PrefixWordComponent::TotalKilledMonsters => {
            let mut text = glossary.result_scene_text.total_killed_monsters.clone();
            push_decimal(&mut text, profile.total_killed_monsters as u64);
            text
        },
        PrefixWordComponent::TotalClearedRooms => {
            let mut text = glossary.result_scene_text.total_cleared_rooms.clone();
            push_decimal(&mut text, profile.total_cleared_rooms as u64);
            text
        },
        PrefixWordComponent::TotalClearedWaves => {
            let mut text = glossary.result_scene_text.total_cleared_waves.clone();
            push_decimal(&mut text, profile.total_cleared_waves as u64);
            text
        },
    }
}

/// Writes the whole summary, one text for each line of [`line_order`], from a
/// run whose time stamps have been read.
pub fn texts_from(profile: &Profile, glossary: &Glossary, language: Language, times: &RunTimes) -> (lines: Vec<String>)
    ensures
        lines@.len() == line_order().len(),
        forall|i: int| 0 <= i < lines@.len() ==> (#[trigger] lines@[i])@ == line(line_order()[i], *profile, *glossary, language, *times),
{
    let order = PrefixWordComponent::iterator();
    let mut lines: Vec<String> = Vec::new();
    let mut index: usize = 0;
    while index < order.len()
        invariant
            order@ == line_order(),
            index <= order@.len(),
            lines@.len() == index,
            forall|i: int| 0 <= i < lines@.len() ==> (#[trigger] lines@[i])@ == line(line_order()[i], *profile, *glossary, language, *times),
        decreases order@.len() - index,
    {
        let text = line_text(order[index], profile, glossary, language, times);
        lines.push(text);
        index += 1;
    }
    lines
}

/// Reads the two time stamps of a run.
pub fn read_times(profile: &Profile) -> (times: Option<RunTimes>)
    ensures
        times == run_times(*profile),
{
    let start = parse_moment(profile.start_time.as_str());
    let end = parse_moment(profile.end_time.as_str());
    let playtime = elapsed_seconds(profile.start_time.as_str(), profile.end_time.as_str());
    match (start, end, playtime) {
        (Some(start), Some(end), Some(playtime)) => Some(RunTimes { start, end, playtime }),
        _ => None,
    }
}

/// Writes the summary of a run whose two time stamps are valid.
pub fn texts(profile: &Profile, glossary: &Glossary, language: Language) -> (lines: Vec<String>)
    requires
        run_times(*profile) is Some,
    ensures
        lines@.len() == line_order().len(),
        forall|i: int| 0 <= i < lines@.len() ==> (#[trigger] lines@[i])@ == line(line_order()[i], *profile, *glossary, language, run_times(*profile)->0),
{
    let times = read_times(profile);
    texts_from(profile, glossary, language, &times.unwrap())
}

/// Writes the summary of a run, or nothing if one of its time stamps is not a
/// valid RFC 3339 date and time.
pub fn try_texts(profile: &Profile, glossary: &Glossary, language: Language) -> (lines: Option<Vec<String>>)
    ensures
        lines is Some <==> run_times(*profile) is Some,
        lines matches Some(l) ==> l@.len() == line_order().len() && forall|i: int| 0 <= i < l@.len() ==> (#[trigger] l@[i])@ == line(line_order()[i], *profile, *glossary, language, run_times(*profile)->0),
{
    match read_times(profile) {
        Some(_) => Some(texts(profile, glossary, language)),
        None => None,
    }
}

/// The buttons of the result screen.
#[derive(Clone, Copy, Debug, PartialEq, Eq, Structural)]
pub enum ButtonComponent {
    Return,
    PlayAgain,
    SaveProfile,
}

/// The pictures a button of this screen can show.
#[derive(Clone, Copy, Debug, PartialEq, Eq, Structural)]
pub enum Icon {
    Home(HomeIcon),
    Leaderboard,
    LeaderboardHovered,
    Restart,
    RestartHovered,
}

/// What a button of the result screen does.
#[derive(Clone, Copy, Debug, PartialEq, Eq, Structural)]
pub struct Reaction {
    /// The picture the button takes on, if it changes.
    pub icon: Option<Icon>,
    /// The screen to go to, if any.
    pub next_scene: Option<SceneState>,
    /// Whether the box for the player's name opens.
    pub open_name_entry: bool,
}

/// How a button reacts to the pointer.
///
/// The way home behaves as on every screen. The other two change their picture
/// at rest and under the pointer; pressed, "save" opens the box for the player's
/// name and "play again" leads to the choice of a game mode.
pub open spec fn reaction(button: ButtonComponent, interaction: Interaction) -> Reaction {
    match button {
        ButtonComponent::Return => Reaction {
            icon: Some(Icon::Home(return_reaction(interaction).icon)),
            next_scene: return_reaction(interaction).next_scene,
            open_name_entry: false,
        },
        ButtonComponent::SaveProfile => match interaction {
            Interaction::Idle => Reaction {
                icon: Some(Icon::Leaderboard),
                next_scene: None,
                open_name_entry: false,
            },
            Interaction::Hovered => Reaction {
                icon: Some(Icon::LeaderboardHovered),
                next_scene: None,
                open_name_entry: false,
            },
            Interaction::Pressed => Reaction { icon: None, next_scene: None, open_name_entry: true },
        },
        ButtonComponent::PlayAgain => match interaction {
            Interaction::Idle => Reaction {
                icon: Some(Icon::Restart),
                next_scene: None,
                open_name_entry: false,
            },
            Interaction::Hovered => Reaction {
                icon: Some(Icon::RestartHovered),
                next_scene: None,
                open_name_entry: false,
            },
            Interaction::Pressed => Reaction {
                icon: None,
                next_scene: Some(SceneState::GameModeSelectScene),
                open_name_entry: false,
            },
        },
    }
}

/// Reacts to the pointer on a button of the result screen.
pub fn button_handle_system(button: ButtonComponent, interaction: Interaction) -> (result: Reaction)
    ensures
        result == reaction(button, interaction),
{
    match button {
        ButtonComponent::Return => match interaction {
            Interaction::Idle => Reaction {
                icon: Some(Icon::Home(HomeIcon::Normal)),
                next_scene: None,
                open_name_entry: false,
            },
            Interaction::Hovered => Reaction {
                icon: Some(Icon::Home(HomeIcon::Hovered)),
                next_scene: None,
                open_name_entry: false,
            },
            Interaction::Pressed => Reaction {
                icon: Some(Icon::Home(HomeIcon::Clicked)),
                next_scene: Some(SceneState::MainMenuScene),
                open_name_entry: false,
            },
        },
        ButtonComponent::SaveProfile => match interaction {
            Interaction::Idle => Reaction {
                icon: Some(Icon::Leaderboard),
                next_scene: None,
                open_name_entry: false,
            },
            Interaction::Hovered => Reaction {
                icon: Some(Icon::LeaderboardHovered),
                next_scene: None,
                open_name_entry: false,
            },
            Interaction::Pressed => Reaction { icon: None, next_scene: None, open_name_entry: true },
        },
        ButtonComponent::PlayAgain => match interaction {
            Interaction::Idle => Reaction {
                icon: Some(Icon::Restart),
                next_scene: None,
                open_name_entry: false,
            },
            Interaction::Hovered => Reaction {
                icon: Some(Icon::RestartHovered),
                next_scene: None,
                open_name_entry: false,
            },
            Interaction::Pressed => Reaction {
                icon: None,
                next_scene: Some(SceneState::GameModeSelectScene),
                open_name_entry: false,
            },
        },
    }
}

/// Whether the result screen offers to save the run: every run may be kept but
/// a dungeon run that was not completed.
pub fn save_profile_button(profile: &Profile) -> (offered: bool)
    ensures
        offered == !(profile.game_mode == GameMode::ClassicMode && !profile.is_run_completed),
{
    if profile.game_mode == GameMode::ClassicMode && !profile.is_run_completed {
        return false;
    }
    true
}

/// The box in which the player types a name. The name holds plain ASCII only.
#[derive(Debug)]
pub struct UserInput {
    open: bool,
    user_name: String,
}

/// What the box is, apart from how it is stored.
pub struct UserInputView {
    /// Whether the box is open.
    pub open: bool,
    /// What has been typed.
    pub user_name: Seq<char>,
}

impl View for UserInput {
    type V = UserInputView;

    closed spec fn view(&self) -> UserInputView {
        UserInputView { open: self.open, user_name: self.user_name@ }
    }
}

/// The editing keys that went down this frame.
#[derive(Clone, Copy, Debug, PartialEq, Eq, Structural)]
pub struct KeysJustPressed {
    pub enter: bool,
    pub escape: bool,
    pub backspace: bool,
}

/// Longest name, in characters, after which the box takes no further key.
pub const NAME_LIMIT: usize = 12;

/// The characters that the first `n` key presses add to the name: the first
/// character of each press whose text is plain ASCII.
pub open spec fn typed_text(typed: Seq<String>, n: int) -> Seq<char>
    decreases n,
{
    if n <= 0 {
        Seq::empty()
    } else if is_ascii_chars(typed[n - 1]@) {
        typed_text(typed, n - 1).push(typed[n - 1]@[0])
    } else {
        typed_text(typed, n - 1)
    }
}

/// The name after the editing keys: enter and escape empty it, then backspace
/// takes its last character away.
pub open spec fn name_after_keys(name: Seq<char>, keys: KeysJustPressed) -> Seq<char> {
    let kept = if keys.enter || keys.escape {
        Seq::empty()
    } else {
        name
    };
    if keys.backspace && kept.len() > 0 {
        kept.drop_last()
    } else {
        kept
    }
}

/// The name after a frame: the editing keys come first; then, unless the name
/// is already longer than [`NAME_LIMIT`], everything typed in the frame is added.
pub open spec fn name_after_frame(name: Seq<char>, keys: KeysJustPressed, typed: Seq<String>) -> Seq<char> {
    let kept = name_after_keys(name, keys);
    if kept.len() <= NAME_LIMIT {
        kept + typed_text(typed, typed.len() as int)
    } else {
        kept
    }
}

/// Every key press in plain ASCII carries at least one character.
pub open spec fn presses_carry_text(typed: Seq<String>) -> bool {
    forall|i: int| 0 <= i < typed.len() && is_ascii_chars((#[trigger] typed[i])@) ==> typed[i]@.len() > 0
}

/// Whether the frame can be handled: whenever the key presses of the frame are
/// read (the box is open and the name within the limit once the editing keys are
/// done), each press in plain ASCII carries a character.
pub open spec fn can_handle(input: UserInputView, keys: KeysJustPressed, typed: Seq<String>) -> bool {
    input.open && name_after_keys(input.user_name, keys).len() <= NAME_LIMIT
        ==> presses_carry_text(typed)
}

impl UserInput {
    #[verifier::type_invariant]
    spec fn plain(&self) -> bool {
        is_ascii_chars(self.user_name@)
    }

    /// A closed, empty box.
    pub fn new() -> (input: Self)
        ensures
            input@ == (UserInputView { open: false, user_name: Seq::empty() }),
    {
        UserInput { open: false, user_name: String::new() }
    }

    /// Whether the box is open.
    pub fn is_open(&self) -> (open: bool)
        ensures
            open == self@.open,
    {
        self.open
    }

    /// What has been typed.
    pub fn user_name(&self) -> (name: &str)
        ensures
            name@ == self@.user_name,
            is_ascii_chars(name@),
    {
        proof {
            use_type_invariant(self);
        }
        self.user_name.as_str()
    }

    /// Opens the box; what has been typed stays.
    pub fn open(&mut self)
        ensures
            final(self)@ == (UserInputView { open: true, ..old(self)@ }),
    {
        proof {
            use_type_invariant(&*self);
        }
        self.open = true;
    }
}

/// Tests [`can_handle`].
pub fn user_input_ready(input: &UserInput, keys: KeysJustPressed, typed: &Vec<String>) -> (ready: bool)
    ensures
        ready == can_handle(input@, keys, typed@),
{
    if !input.is_open() {
        return true;
    }
    let length = input.user_name().unicode_len();
    let kept: usize = if keys.enter || keys.escape {
        0
    } else {
        length
    };
    let after: usize = if keys.backspace && kept > 0 {
        (kept - 1) as usize
    } else {
        kept
    };
    assert(after == name_after_keys(input@.user_name, keys).len());
    if after > NAME_LIMIT {
        return true;
    }
    let mut index: usize = 0;
    while index < typed.len()
        invariant
            input@.open,
            name_after_keys(input@.user_name, keys).len() <= NAME_LIMIT,
            index <= typed@.len(),
            forall|i: int| 0 <= i < index && is_ascii_chars((#[trigger] typed@[i])@) ==> typed@[i]@.len() > 0,
        decreases typed@.len() - index,
    {
        let character = typed[index].as_str();
        if character.is_ascii() && character.unicode_len() == 0 {
            return false;
        }
        index += 1;
    }
    true
}

/// Lets the player edit the name for the highscore book.
///
/// A closed box ignores everything. In an open box enter hands the name over
/// (it is returned, the box is emptied, and the game goes on to the highscore
/// book), escape closes and empties the box, backspace takes the last character
/// away, and the key presses of the frame are added as [`name_after_frame`]
/// says. `typed[i]` is the text of the `i`-th key pressed in the frame. The
/// limit counts characters, which in a name of plain ASCII are its bytes.
pub fn user_input_handle(input: &mut UserInput, keys: KeysJustPressed, typed: &Vec<String>) -> (submitted: Option<String>)
    requires
        can_handle(old(input)@, keys, typed@),
    ensures
        !old(input)@.open ==> submitted is None && final(input)@ == old(input)@,
        old(input)@.open ==> final(input)@.open == !keys.escape && final(input)@.user_name
            == name_after_frame(old(input)@.user_name, keys, typed@),
        old(input)@.open && keys.enter ==> submitted is Some && submitted->0@ == old(
            input,
        )@.user_name,
        old(input)@.open && !keys.enter ==> submitted is None,
        is_ascii_chars(final(input)@.user_name),
{
    proof {
        use_type_invariant(&*input);
    }
    if !input.open {
        return None;
    }
    let mut submitted = None;
    let mut user_name = input.user_name.clone();
    if keys.enter {
        submitted = Some(user_name);
        user_name = String::new();
    }
    if keys.escape {
        input.open = false;
        user_name = String::new();
    }
    if keys.backspace {
        let length = user_name.as_str().unicode_len();
        if length > 0 {
            user_name = String::from_str(user_name.as_str().substring_ascii(0, length - 1));
        }
    }
    assert(user_name@ =~= name_after_keys(old(input)@.user_name, keys));
    if user_name.as_str().unicode_len() <= NAME_LIMIT {
        let ghost kept = user_name@;
        let mut index: usize = 0;
        while index < typed.len()
            invariant
                presses_carry_text(typed@),
                index <= typed@.len(),
                is_ascii_chars(user_name@),
                user_name@ == kept + typed_text(typed@, index as int),
            decreases typed@.len() - index,
        {
            let character = typed[index].as_str();
            if character.is_ascii() {
                let first = character.substring_ascii(0, 1);
                let ghost before = user_name@;
                user_name.append(first);
                assert(first@ =~= seq![character@[0]]);
                assert(user_name@ =~= kept + typed_text(typed@, index as int + 1));
                assert(is_ascii_chars(user_name@)) by {
                    assert forall|i: int| 0 <= i < user_name@.len() implies '\0' <= #[trigger] user_name@[i] <= '\u{7f}' by {
                        if i < before.len() {
                            assert(user_name@[i] == before[i]);
                        } else {
                            assert(user_name@[i] == character@[0]);
                        }
                    }
                }
            }
            index += 1;
        }
    }
    input.user_name = user_name;
    submitted
}

/// A box that takes one plain letter per frame never holds more than thirteen:
/// once the name is longer than the limit, typing adds nothing.
pub proof fn lemma_name_stops_growing(name: Seq<char>, keys: KeysJustPressed, typed: Seq<String>)
    requires
        name.len() <= NAME_LIMIT + 1,
        typed.len() <= 1,
    ensures
        name_after_frame(name, keys, typed).len() <= NAME_LIMIT + 1,
{
    let kept = name_after_keys(name, keys);
    assert(kept.len() <= name.len());
    if typed.len() == 1 {
        assert(typed_text(typed, 1).len() <= typed_text(typed, 0).len() + 1);
        assert(typed_text(typed, 0).len() == 0);
    } else {
        assert(typed_text(typed, 0).len() == 0);
    }
}

/// Escape and enter both leave an empty name behind, whatever was typed
/// before, when nothing is typed in the same frame.
pub proof fn lemma_enter_and_escape_empty_the_name(name: Seq<char>, keys: KeysJustPressed)
    requires
        keys.enter || keys.escape,
    ensures
        name_after_frame(name, keys, Seq::<String>::empty()).len() == 0,
{
    assert(typed_text(Seq::<String>::empty(), 0).len() == 0);
}

} // verus!
