//! The highscore book: a closed book that opens on the first kept run, turns a
//! page for each further one, and closes again behind the last.

use vstd::prelude::*;
use crate::resources::game_mode::GameMode;
use crate::resources::glossary::Glossary;
use crate::resources::hero::{Gender, HeroClass};
use crate::resources::language::Language;
use crate::resources::profile::StoredProfile;
use crate::utils::clock::{
    date_text, duration_text, parse_moment, push_date, push_duration, rfc3339_moment, Moment,
};
use crate::utils::decimal::{decimal, push_decimal};

verus! {

/// The buttons of the highscore screen.
#[derive(Clone, Copy, Debug, PartialEq, Eq, Structural)]
pub enum ButtonComponent {
    Return,
    Next,
    Previous,
}

impl ButtonComponent {
    /// The buttons in the order in which the screen lays them out.
    pub fn iterator() -> (order: Vec<ButtonComponent>)
        ensures
            order@ == seq![ButtonComponent::Return, ButtonComponent::Next, ButtonComponent::Previous],
    {
        let order = vec![
            ButtonComponent::Return,
            ButtonComponent::Next,
            ButtonComponent::Previous,
        ];
        order
    }
}

/// The lines of a page of the book.
#[derive(Clone, Copy, Debug, PartialEq, Eq, Structural)]
pub enum PrefixWordComponent {
    Name,
    Gender,
    GameMode,
    TotalKilledMonsters,
    TotalClearedRooms,
    TotalClearedWaves,
    Date,
    Playtime,
}

/// The order in which a page lists its lines.
pub open spec fn line_order() -> Seq<PrefixWordComponent> {
    seq![
        PrefixWordComponent::Name,
        PrefixWordComponent::Gender,
        PrefixWordComponent::GameMode,
        PrefixWordComponent::TotalKilledMonsters,
        PrefixWordComponent::TotalClearedRooms,
        PrefixWordComponent::TotalClearedWaves,
        PrefixWordComponent::Date,
        PrefixWordComponent::Playtime,
    ]
}

impl PrefixWordComponent {
    /// The lines in the order of [`line_order`].
    pub fn iterator() -> (order: Vec<PrefixWordComponent>)
        ensures
            order@ == line_order(),
    {
        let order = vec![
            PrefixWordComponent::Name,
            PrefixWordComponent::Gender,
            PrefixWordComponent::GameMode,
            PrefixWordComponent::TotalKilledMonsters,
            PrefixWordComponent::TotalClearedRooms,
            PrefixWordComponent::TotalClearedWaves,
            PrefixWordComponent::Date,
            PrefixWordComponent::Playtime,
        ];
        order
    }
}

/// Sprite frames of the book as it opens.
pub open spec fn opening_frames() -> Seq<usize> {
    seq![0, 1, 2, 3]
}

/// Sprite frames of a page turning forward.
pub open spec fn forward_frames() -> Seq<usize> {
    seq![3, 4, 5, 6, 3]
}

/// Sprite frames of the book as it closes.
pub open spec fn closing_frames() -> Seq<usize> {
    seq![3, 2, 1, 0]
}

/// Sprite frames of a page turning back.
pub open spec fn backward_frames() -> Seq<usize> {
    seq![3, 6, 5, 4, 3]
}

/// What the book is, apart from how it is stored.
#[verifier::ext_equal]
pub struct BookView {
    /// The open page, counted from 0; -1 while the book is closed.
    pub current_page: int,
    /// Number of pages, one for each kept run.
    pub total_pages: nat,
    /// Whether the running (or last) animation leafs backward.
    pub is_reverse: bool,
    /// Sprite frames of the running animation; empty while the book is at rest.
    pub frames: Seq<usize>,
    /// Position in `frames` of the frame to show next.
    pub next_frame: nat,
    /// The kept runs, one for each page.
    pub profiles: Seq<StoredProfile>,
}

impl BookView {
    /// There is one page for each run, the position in a running animation is one
    /// of its frames, and every frame is one of the seven sprites of the book.
    pub open spec fn wf(self) -> bool {
        &&& self.total_pages == self.profiles.len()
        &&& self.total_pages <= isize::MAX
        &&& self.frames.len() > 0 ==> self.next_frame < self.frames.len()
        &&& forall|i: int| 0 <= i < self.frames.len() ==> #[trigger] self.frames[i] < 7
    }

    /// The book is closed or open on one of its pages.
    pub open spec fn page_in_book(self) -> bool {
        -1 <= self.current_page < self.total_pages
    }

    /// Whether a page is on display: the book is open and at rest.
    pub open spec fn shows_page(self) -> bool {
        self.current_page != -1 && self.frames.len() == 0
    }

    /// If a page is on display, it is a page of the book.
    pub open spec fn page_exists(self) -> bool {
        self.shows_page() ==> 0 <= self.current_page < self.total_pages
    }

    /// The page can be turned without leaving the range of page numbers.
    pub open spec fn can_turn(self) -> bool {
        isize::MIN < self.current_page < isize::MAX
    }

    /// The book after the "next" button was pressed. A book in motion ignores the
    /// button. A closed book opens, an open one turns a page forward, and on its
    /// last page it closes.
    pub open spec fn after_next(self) -> BookView {
        if self.frames.len() != 0 {
            self
        } else {
            let rest = BookView { is_reverse: false, next_frame: 0, ..self };
            if self.current_page == -1 {
                BookView { frames: opening_frames(), ..rest }
            } else if self.current_page < self.total_pages - 1 {
                BookView { frames: forward_frames(), ..rest }
            } else if self.current_page == self.total_pages - 1 {
                BookView { frames: closing_frames(), ..rest }
            } else {
                rest
            }
        }
    }

    /// The book after the "previous" button was pressed. A book in motion ignores
    /// the button. On its first page the book closes; anywhere else it turns a
    /// page back.
    pub open spec fn after_previous(self) -> BookView {
        if self.frames.len() != 0 {
            self
        } else {
            BookView {
                is_reverse: true,
                next_frame: 0,
                frames: if self.current_page == 0 {
                    closing_frames()
                } else {
                    backward_frames()
                },
                ..self
            }
        }
    }

    /// The page the book lands on when its animation ends: one back or one
    /// forward, and closed again once it has passed the last page.
    pub open spec fn landing_page(self) -> int {
        let page = if self.is_reverse {
            self.current_page - 1
        } else {
            self.current_page + 1
        };
        if page > self.total_pages - 1 {
            -1
        } else {
            page
        }
    }

    /// The book after one tick of its animation clock. A book at rest stays as it
    /// is. A book in motion moves on by one frame, and with the last frame comes
    /// to rest on its landing page.
    pub open spec fn after_tick(self) -> BookView {
        if self.frames.len() == 0 {
            self
        } else if self.next_frame + 1 == self.frames.len() {
            BookView {
                frames: Seq::empty(),
                next_frame: 0,
                current_page: self.landing_page(),
                ..self
            }
        } else {
            BookView { next_frame: self.next_frame + 1, ..self }
        }
    }
}

impl BookView {
    /// The book after `ticks` ticks of its animation clock.
    pub open spec fn after_ticks(self, ticks: nat) -> BookView
        decreases ticks,
    {
        if ticks == 0 {
            self
        } else {
            self.after_tick().after_ticks((ticks - 1) as nat)
        }
    }

    /// Whether the book lies still.
    pub open spec fn at_rest(self) -> bool {
        self.frames.len() == 0
    }
}

/// A book in motion ignores both buttons.
pub proof fn lemma_moving_book_ignores_buttons(book: BookView)
    requires
        !book.at_rest(),
    ensures
        book.after_next() == book,
        book.after_previous() == book,
{
}

/// "Next" on a book at rest, followed by the whole animation, turns exactly one
/// page: the closed book opens on the first page, an open book shows the
/// following page, and behind the last page (or with no page at all) the book
/// lies closed again. The runs in the book stay as they are.
pub proof fn lemma_next_turns_one_page(book: BookView)
    requires
        book.wf(),
        book.page_in_book(),
        book.at_rest(),
    ensures
        ({
            let moving = book.after_next();
            let landed = moving.after_ticks(moving.frames.len());
            &&& !moving.at_rest()
            &&& landed.at_rest()
            &&& landed.wf()
            &&& landed.page_in_book()
            &&& landed.profiles == book.profiles
            &&& landed.current_page == (if book.current_page + 1 < book.total_pages {
                book.current_page + 1
            } else {
                -1
            })
        }),
{
    reveal_with_fuel(BookView::after_ticks, 6);
    let moving = book.after_next();
    assert(moving.frames.len() == 4 || moving.frames.len() == 5);
}

/// "Previous" on an open book at rest, followed by the whole animation, turns
/// exactly one page back; from the first page the book closes.
pub proof fn lemma_previous_turns_one_page_back(book: BookView)
    requires
        book.wf(),
        book.page_in_book(),
        book.at_rest(),
        book.current_page >= 0,
    ensures
        ({
            let moving = book.after_previous();
            let landed = moving.after_ticks(moving.frames.len());
            &&& !moving.at_rest()
            &&& landed.at_rest()
            &&& landed.wf()
            &&& landed.page_in_book()
            &&& landed.profiles == book.profiles
            &&& landed.current_page == book.current_page - 1
        }),
{
    reveal_with_fuel(BookView::after_ticks, 6);
    let moving = book.after_previous();
    assert(moving.frames.len() == 4 || moving.frames.len() == 5);
}

/// Leafing forward and then back shows the page the reader started from.
pub proof fn lemma_forward_then_back(book: BookView)
    requires
        book.wf(),
        book.page_in_book(),
        book.at_rest(),
        book.current_page + 1 < book.total_pages,
    ensures
        ({
            let forward = book.after_next();
            let there = forward.after_ticks(forward.frames.len());
            let backward = there.after_previous();
            let back = backward.after_ticks(backward.frames.len());
            &&& back.at_rest()
            &&& back.current_page == book.current_page
            &&& back.profiles == book.profiles
        }),
{
    lemma_next_turns_one_page(book);
    let forward = book.after_next();
    let there = forward.after_ticks(forward.frames.len());
    lemma_previous_turns_one_page_back(there);
}

/// The highscore book.
#[derive(Debug)]
pub struct HighscoreBookComponent {
    current_page: isize,
    total_pages: usize,
    is_reverse: bool,
    animation_indexes: Vec<usize>,
    animation_index: usize,
    profiles: Vec<StoredProfile>,
}

impl View for HighscoreBookComponent {
    type V = BookView;

    closed spec fn view(&self) -> BookView {
        BookView {
            current_page: self.current_page as int,
            total_pages: self.total_pages as nat,
            is_reverse: self.is_reverse,
            frames: self.animation_indexes@,
            next_frame: self.animation_index as nat,
            profiles: self.profiles@,
        }
    }
}

impl HighscoreBookComponent {
    #[verifier::type_invariant]
    spec fn well_formed(&self) -> bool {
        self@.wf()
    }

    /// A closed book at rest with one page for each of `profiles`.
    pub fn new(profiles: Vec<StoredProfile>) -> (book: Self)
        requires
            profiles@.len() <= isize::MAX,
        ensures
            book@ == (BookView {
                current_page: -1,
                total_pages: profiles@.len(),
                is_reverse: false,
                frames: Seq::empty(),
                next_frame: 0,
                profiles: profiles@,
            }),
            book@.wf(),
            book@.page_in_book(),
    {
        HighscoreBookComponent {
            current_page: -1,
            total_pages: profiles.len(),
            is_reverse: false,
            animation_indexes: Vec::new(),
            animation_index: 0,
            profiles,
        }
    }

    /// Reacts to a press of the "next" button.
    pub fn press_next(&mut self)
        ensures
            final(self)@ == old(self)@.after_next(),
            final(self)@.wf(),
    {
        proof {
            use_type_invariant(&*self);
        }
        let total_pages = self.total_pages as isize;
        if self.animation_indexes.len() == 0 {
            self.is_reverse = false;
            self.animation_index = 0;
            if self.current_page == -1 {
                self.animation_indexes = vec![0, 1, 2, 3];
            } else if self.current_page < total_pages - 1 {
                self.animation_indexes = vec![3, 4, 5, 6, 3];
            } else if self.current_page == total_pages - 1 {
                self.animation_indexes = vec![3, 2, 1, 0];
            }
        }
        assert(self@ =~= old(self)@.after_next());
    }

    /// Reacts to a press of the "previous" button.
    pub fn press_previous(&mut self)
        ensures
            final(self)@ == old(self)@.after_previous(),
            final(self)@.wf(),
    {
        proof {
            use_type_invariant(&*self);
        }
        if self.animation_indexes.len() == 0 {
            self.is_reverse = true;
            self.animation_index = 0;
            self.animation_indexes = if self.current_page == 0 {
                vec![3, 2, 1, 0]
            } else {
                vec![3, 6, 5, 4, 3]
            };
        }
        assert(self@ =~= old(self)@.after_previous());
    }

    /// Advances the animation by one tick of its clock and returns the sprite
    /// frame to draw, or `None` if the book is at rest.
    ///
    /// A book that is closed or open on one of its pages stays so, with one
    /// exception: a page turned back from the closed book lands before the
    /// first page, where there is no run to show.
    pub fn book_animation_handle_system(&mut self) -> (frame: Option<usize>)
        requires
            old(self)@.can_turn(),
        ensures
            final(self)@ == old(self)@.after_tick(),
            frame == (if old(self)@.frames.len() == 0 {
                None
            } else {
                Some(old(self)@.frames[old(self)@.next_frame as int])
            }),
            frame matches Some(f) ==> f < 7,
            final(self)@.wf(),
            old(self)@.page_in_book() && !(old(self)@.is_reverse && old(self)@.current_page == -1)
                ==> final(self)@.page_in_book(),
    {
        proof {
            use_type_invariant(&*self);
        }
        if self.animation_indexes.len() == 0 {
            return None;
        }
        let frame = self.animation_indexes[self.animation_index];
        if self.animation_index + 1 != self.animation_indexes.len() {
            self.animation_index += 1;
        } else {
            self.animation_indexes = Vec::new();
            self.animation_index = 0;
            if self.is_reverse {
                self.current_page -= 1;
            } else {
                self.current_page += 1;
            }
            let total_pages = self.total_pages as isize;
            if self.current_page > total_pages - 1 {
                self.current_page = -1;
            }
        }
        assert(self@ =~= old(self)@.after_tick());
        Some(frame)
    }

    /// The open page, counted from 0; -1 while the book is closed.
    pub fn current_page(&self) -> (page: isize)
        ensures
            page == self@.current_page,
    {
        self.current_page
    }

    /// Number of pages in the book.
    pub fn total_pages(&self) -> (pages: usize)
        ensures
            pages == self@.total_pages,
    {
        self.total_pages
    }

    /// Whether the running (or last) animation leafs backward.
    pub fn is_reverse(&self) -> (reverse: bool)
        ensures
            reverse == self@.is_reverse,
    {
        self.is_reverse
    }

    /// Whether an animation is running.
    pub fn is_animating(&self) -> (moving: bool)
        ensures
            moving == (self@.frames.len() != 0),
    {
        self.animation_indexes.len() != 0
    }

    /// Whether the book is closed or open on one of its pages.
    pub fn is_page_in_book(&self) -> (inside: bool)
        ensures
            inside == self@.page_in_book(),
    {
        self.current_page >= -1 && (self.current_page < 0 || (self.current_page as usize)
            < self.total_pages)
    }

    /// Tests [`BookView::can_turn`].
    pub fn can_turn(&self) -> (possible: bool)
        ensures
            possible == self@.can_turn(),
    {
        isize::MIN < self.current_page && self.current_page < isize::MAX
    }

    /// Tests [`BookView::page_exists`].
    pub fn page_exists(&self) -> (exists: bool)
        ensures
            exists == self@.page_exists(),
    {
        if self.current_page != -1 && self.animation_indexes.len() == 0 {
            self.current_page >= 0 && (self.current_page as usize) < self.total_pages
        } else {
            true
        }
    }

    /// The run on display: the one of the open page while the book is at rest,
    /// none while the book is closed or in motion.
    pub fn shown_profile(&self) -> (shown: Option<&StoredProfile>)
        requires
            self@.page_exists(),
        ensures
            shown is Some <==> self@.shows_page(),
            shown matches Some(profile) ==> *profile == self@.profiles[self@.current_page],
    {
        proof {
            use_type_invariant(self);
        }
        if self.current_page != -1 && self.animation_indexes.len() == 0 {
            Some(&self.profiles[self.current_page as usize])
        } else {
            None
        }
    }

    /// Whose portrait the page shows, if a page is on display.
    pub fn hero_image_handle_system(&self) -> (hero: Option<(HeroClass, Gender)>)
        requires
            self@.page_exists(),
        ensures
            hero is Some <==> self@.shows_page(),
            hero matches Some(h) ==> h.0 == self@.profiles[self@.current_page].hero_class && h.1
                == self@.profiles[self@.current_page].gender,
    {
        match self.shown_profile() {
            Some(profile) => Some((profile.hero_class, profile.gender)),
            None => None,
        }
    }
}

/// The text of one line of a page.
///
/// The game mode stands alone, by its name in the glossary. Every other line is
/// the glossary's label followed by its value: the name as typed, the word for
/// the gender, the totals in decimal, the date in the order the language asks for,
/// and the play time as hours, minutes and seconds.
pub open spec fn line(
    word: PrefixWordComponent,
    profile: StoredProfile,
    glossary: Glossary,
    language: Language,
    date: Moment,
) -> Seq<char> {
    match word {
        PrefixWordComponent::Name => glossary.highscore_scene_text.name@ + profile.name@,
        PrefixWordComponent::Gender => glossary.highscore_scene_text.gender@ + (match profile.gender {
            Gender::Female => glossary.shared_text.female@,
            Gender::Male => glossary.shared_text.male@,
        }),
        PrefixWordComponent::GameMode => match profile.game_mode {
            GameMode::ClassicMode => glossary.shared_text.classic_mode@,
            GameMode::SurvivalMode => glossary.shared_text.survival_mode@,
        },
        PrefixWordComponent::TotalKilledMonsters => glossary.highscore_scene_text.total_killed_monsters@
            + decimal(profile.total_killed_monsters as nat),
        PrefixWordComponent::TotalClearedRooms => glossary.highscore_scene_text.total_cleared_rooms@
            + decimal(profile.total_cleared_rooms as nat),
        PrefixWordComponent::TotalClearedWaves => glossary.highscore_scene_text.total_cleared_waves@
            + decimal(profile.total_cleared_waves as nat),
        PrefixWordComponent::Date => glossary.highscore_scene_text.date@ + date_text(date, language),
        PrefixWordComponent::Playtime => glossary.highscore_scene_text.playtime@ + duration_text(
            profile.playtime as int,
        ),
    }
}

/// Writes one line of a page for a run whose date has been read.
pub fn line_text(
    word: PrefixWordComponent,
    profile: &StoredProfile,
    glossary: &Glossary,
    language: Language,
    date: &Moment,
) -> (text: String)
    ensures
        text@ == line(word, *profile, *glossary, language, *date),
{
    match word {
        PrefixWordComponent::Name => {
            let prefix = glossary.highscore_scene_text.name.clone();
            prefix.concat(profile.name.as_str())
        },
        PrefixWordComponent::Gender => {
            let prefix = glossary.highscore_scene_text.gender.clone();
            match profile.gender {
                Gender::Female => prefix.concat(glossary.shared_text.female.as_str()),
                Gender::Male => prefix.concat(glossary.shared_text.male.as_str()),
            }
        },
        PrefixWordComponent::GameMode => {
            match profile.game_mode {
                GameMode::ClassicMode => glossary.shared_text.classic_mode.clone(),
                GameMode::SurvivalMode => glossary.shared_text.survival_mode.clone(),
            }
        },
        PrefixWordComponent::TotalKilledMonsters => {
            let mut text = glossary.highscore_scene_text.total_killed_monsters.clone();
            push_decimal(&mut text, profile.total_killed_monsters as u64);
            text
        },
        PrefixWordComponent::TotalClearedRooms => {
            let mut text = glossary.highscore_scene_text.total_cleared_rooms.clone();
            push_decimal(&mut text, profile.total_cleared_rooms as u64);
            text
        },
        PrefixWordComponent::TotalClearedWaves => {
            let mut text = glossary.highscore_scene_text.total_cleared_waves.clone();
            push_decimal(&mut text, profile.total_cleared_waves as u64);
            text
        },
        PrefixWordComponent::Date => {
            let mut text = glossary.highscore_scene_text.date.clone();
            push_date(&mut text, date, language);
            text
        },
        PrefixWordComponent::Playtime => {
            let mut text = glossary.highscore_scene_text.playtime.clone();
            push_duration(&mut text, profile.playtime);
            text
        },
    }
}

/// Whether the lines asked for can be written: the date of the run is a valid
/// RFC 3339 date and time, or no line shows it.
pub open spec fn can_write(words: Seq<PrefixWordComponent>, profile: StoredProfile) -> bool {
    words.contains(PrefixWordComponent::Date) ==> rfc3339_moment(profile.date@) is Some
}

/// Writes the lines `words` of the page of `profile`, one text for each.
pub fn texts_handle_system(
    words: &Vec<PrefixWordComponent>,
    profile: &StoredProfile,
    glossary: &Glossary,
    language: Language,
) -> (lines: Vec<String>)
    requires
        can_write(words@, *profile),
    ensures
        lines@.len() == words@.len(),
        forall|i: int| 0 <= i < lines@.len() ==> (#[trigger] lines@[i])@ == line(words@[i], *profile, *glossary, language, rfc3339_moment(profile.date@)->0),
{
    let mut lines: Vec<String> = Vec::new();
    let mut index: usize = 0;
    while index < words.len()
        invariant
            can_write(words@, *profile),
            index <= words@.len(),
            lines@.len() == index,
            forall|i: int| 0 <= i < lines@.len() ==> (#[trigger] lines@[i])@ == line(words@[i], *profile, *glossary, language, rfc3339_moment(profile.date@)->0),
        decreases words@.len() - index,
    {
        let word = words[index];
        let text = if word == PrefixWordComponent::Date {
            assert(words@.contains(words@[index as int]));
            let date = parse_moment(profile.date.as_str());
            line_text(word, profile, glossary, language, &date.unwrap())
        } else {
            let unused = Moment { year: 0, month: 0, day: 0, hour: 0, minute: 0, second: 0 };
            line_text(word, profile, glossary, language, &unused)
        };
        lines.push(text);
        index += 1;
    }
    lines
}

/// Writes the lines `words` of the page of `profile`, or nothing if a date line
/// is asked for and the date of the run is not a valid RFC 3339 date and time.
pub fn try_texts_handle_system(
    words: &Vec<PrefixWordComponent>,
    profile: &StoredProfile,
    glossary: &Glossary,
    language: Language,
) -> (lines: Option<Vec<String>>)
    ensures
        lines is Some <==> can_write(words@, *profile),
        lines matches Some(l) ==> l@.len() == words@.len() && forall|i: int| 0 <= i < l@.len() ==> (#[trigger] l@[i])@ == line(words@[i], *profile, *glossary, language, rfc3339_moment(profile.date@)->0),
{
    let mut asks_for_date = false;
    let mut index: usize = 0;
    while index < words.len()
        invariant
            index <= words@.len(),
            asks_for_date <==> exists|i: int| 0 <= i < index && words@[i] == PrefixWordComponent::Date,
        decreases words@.len() - index,
    {
        if words[index] == PrefixWordComponent::Date {
            asks_for_date = true;
        }
        index += 1;
    }
    if asks_for_date && parse_moment(profile.date.as_str()).is_none() {
        None
    } else {
        Some(texts_handle_system(words, profile, glossary, language))
    }
}

} // verus!
