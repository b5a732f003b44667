//! Which bonuses make up the player's stats.
//!
//! The stats themselves are fractions that the engine adds up. What is decided
//! here is the list of bonuses to add, and in which order: first those of the
//! hero's skill while it runs, then one for each timed effect that has not run
//! out, in the order in which the effects were started.

use vstd::prelude::*;
use crate::resources::effect::EffectType;
use crate::resources::skill::SkillType;

verus! {

/// The stats a bonus can change.
#[derive(Clone, Copy, Debug, PartialEq, Eq, Structural)]
pub enum Stat {
    /// Movement speed, as a share of the base speed.
    Speed,
    /// Damage dealt, as a share.
    Damage,
    CriticalChance,
    DodgeChance,
    RestoreChance,
}

/// Where the size of a bonus is found.
#[derive(Clone, Copy, Debug, PartialEq, Eq, Structural)]
pub enum BonusSource {
    /// The figure that the hero's skill gives for the stat.
    Skill,
    /// One whole: the stat's bonus is set to certainty.
    Certain,
    /// The bonus of the effect described at this place of the effect table.
    Effect(usize),
}

/// One term of a stat: the bonus from `source` goes to `stat`.
#[derive(Clone, Copy, Debug, PartialEq, Eq, Structural)]
pub struct Bonus {
    pub stat: Stat,
    pub source: BonusSource,
}

/// A timed effect on the player and whether its time has run out.
#[derive(Clone, Copy, Debug, PartialEq, Eq, Structural)]
pub struct ActiveEffect {
    pub effect_type: EffectType,
    pub finished: bool,
}

/// The stat that an effect changes, if it changes one.
pub open spec fn stat_of(effect_type: EffectType) -> Option<Stat> {
    match effect_type {
        EffectType::SpeedUp | EffectType::Slow => Some(Stat::Speed),
        EffectType::EvasionUp => Some(Stat::DodgeChance),
        EffectType::ReduceDamage => Some(Stat::Damage),
        EffectType::Focus => Some(Stat::CriticalChance),
        EffectType::Stun => None,
    }
}

/// The bonuses of a hero's skill, in the order in which they are added. A skill
/// that is not running gives none.
pub open spec fn skill_bonuses(skill: SkillType, skill_finished: bool) -> Seq<Bonus> {
    if skill_finished {
        Seq::empty()
    } else {
        match skill {
            SkillType::TimeToHunt => seq![
                Bonus { stat: Stat::Speed, source: BonusSource::Skill },
                Bonus { stat: Stat::CriticalChance, source: BonusSource::Skill },
                Bonus { stat: Stat::DodgeChance, source: BonusSource::Certain },
            ],
            SkillType::AnimalInstinct => seq![
                Bonus { stat: Stat::Speed, source: BonusSource::Skill },
                Bonus { stat: Stat::CriticalChance, source: BonusSource::Skill },
                Bonus { stat: Stat::RestoreChance, source: BonusSource::Skill },
                Bonus { stat: Stat::Damage, source: BonusSource::Skill },
            ],
            SkillType::Armor => Seq::empty(),
        }
    }
}

/// Whether `index` is the first place of the effect table that describes
/// `effect_type`.
pub open spec fn is_first_entry(information: Seq<EffectType>, effect_type: EffectType, index: int) -> bool {
    &&& 0 <= index < information.len()
    &&& information[index] == effect_type
    &&& forall|j: int| 0 <= j < index ==> information[j] != effect_type
}

/// The first place of the effect table that describes `effect_type`; the length
/// of the table if none does.
pub open spec fn first_entry(information: Seq<EffectType>, effect_type: EffectType) -> int
    decreases information.len(),
{
    if information.len() == 0 {
        0
    } else if information[0] == effect_type {
        0
    } else {
        1 + first_entry(information.drop_first(), effect_type)
    }
}

/// The bonuses of the first `n` timed effects, in their order. An effect counts
/// while it has not run out and if it changes a stat.
pub open spec fn effect_bonuses(effects: Seq<ActiveEffect>, information: Seq<EffectType>, n: int) -> Seq<Bonus>
    decreases n,
{
    if n <= 0 {
        Seq::empty()
    } else {
        let earlier = effect_bonuses(effects, information, n - 1);
        let effect = effects[n - 1];
        match stat_of(effect.effect_type) {
            Some(stat) if !effect.finished => earlier.push(
                Bonus {
                    stat,
                    source: BonusSource::Effect(first_entry(information, effect.effect_type) as usize),
                },
            ),
            _ => earlier,
        }
    }
}

/// A bonus that comes from the effect table points at one of its rows.
pub open spec fn place_in_table(source: BonusSource, information: Seq<EffectType>) -> bool {
    source matches BonusSource::Effect(place) ==> place < information.len()
}

/// Every timed effect that still runs is described in the effect table.
pub open spec fn all_described(effects: Seq<ActiveEffect>, information: Seq<EffectType>) -> bool {
    forall|i: int| 0 <= i < effects.len() && !(#[trigger] effects[i]).finished ==> information.contains(effects[i].effect_type)
}

/// [`first_entry`] finds the first place that describes the effect.
pub proof fn lemma_first_entry(information: Seq<EffectType>, effect_type: EffectType)
    ensures
        0 <= first_entry(information, effect_type) <= information.len(),
        information.contains(effect_type) <==> first_entry(information, effect_type) < information.len(),
        information.contains(effect_type) ==> is_first_entry(information, effect_type, first_entry(information, effect_type)),
    decreases information.len(),
{
    if information.len() == 0 {
    } else if information[0] == effect_type {
    } else {
        let rest = information.drop_first();
        lemma_first_entry(rest, effect_type);
        let found = first_entry(rest, effect_type);
        if information.contains(effect_type) {
            let i = choose|i: int| 0 <= i < information.len() && information[i] == effect_type;
            assert(rest[i - 1] == effect_type);
            assert(rest.contains(effect_type));
        }
        if found < rest.len() {
            assert(information[found + 1] == rest[found]);
            assert forall|j: int| 0 <= j < found + 1 implies information[j] != effect_type by {
                if j > 0 {
                    assert(rest[j - 1] == information[j]);
                }
            }
        }
    }
}

/// Looks an effect up in the effect table.
pub fn find_information(information: &Vec<EffectType>, effect_type: EffectType) -> (place: Option<usize>)
    ensures
        match place {
            Some(index) => is_first_entry(information@, effect_type, index as int) && index == first_entry(information@, effect_type),
            None => !information@.contains(effect_type),
        },
{
    let mut index: usize = 0;
    while index < information.len()
        invariant
            index <= information@.len(),
            forall|j: int| 0 <= j < index ==> information@[j] != effect_type,
        decreases information@.len() - index,
    {
        if information[index] == effect_type {
            proof {
                lemma_first_entry(information@, effect_type);
            }
            return Some(index);
        }
        index += 1;
    }
    None
}

/// Tests [`all_described`].
pub fn effects_described(effects: &Vec<ActiveEffect>, information: &Vec<EffectType>) -> (described: bool)
    ensures
        described == all_described(effects@, information@),
{
    let mut index: usize = 0;
    while index < effects.len()
        invariant
            index <= effects@.len(),
            forall|i: int| 0 <= i < index && !(#[trigger] effects@[i]).finished ==> information@.contains(effects@[i].effect_type),
        decreases effects@.len() - index,
    {
        let effect = effects[index];
        if !effect.finished && find_information(information, effect.effect_type).is_none() {
            return false;
        }
        index += 1;
    }
    true
}

/// Lists the bonuses that make up the player's stats this frame.
///
/// The list starts with the bonuses of the hero's skill, if it runs, and goes
/// on with one bonus for each timed effect that still runs and changes a stat.
/// Adding them up in this order, stat by stat, gives the figures that the stats
/// are computed from.
pub fn update_stats(
    skill: SkillType,
    skill_finished: bool,
    effects: &Vec<ActiveEffect>,
    information: &Vec<EffectType>,
) -> (bonuses: Vec<Bonus>)
    requires
        all_described(effects@, information@),
    ensures
        bonuses@ == skill_bonuses(skill, skill_finished) + effect_bonuses(
            effects@,
            information@,
            effects@.len() as int,
        ),
        forall|k: int| 0 <= k < bonuses@.len() ==> place_in_table(
            (#[trigger] bonuses@[k]).source,
            information@,
        ),
{
    let mut bonuses: Vec<Bonus> = Vec::new();
    if skill == SkillType::TimeToHunt && !skill_finished {
        bonuses.push(Bonus { stat: Stat::Speed, source: BonusSource::Skill });
        bonuses.push(Bonus { stat: Stat::CriticalChance, source: BonusSource::Skill });
        bonuses.push(Bonus { stat: Stat::DodgeChance, source: BonusSource::Certain });
    }
    if skill == SkillType::AnimalInstinct && !skill_finished {
        bonuses.push(Bonus { stat: Stat::Speed, source: BonusSource::Skill });
        bonuses.push(Bonus { stat: Stat::CriticalChance, source: BonusSource::Skill });
        bonuses.push(Bonus { stat: Stat::RestoreChance, source: BonusSource::Skill });
        bonuses.push(Bonus { stat: Stat::Damage, source: BonusSource::Skill });
    }
    assert(bonuses@ =~= skill_bonuses(skill, skill_finished));
    let mut index: usize = 0;
    while index < effects.len()
        invariant
            all_described(effects@, information@),
            index <= effects@.len(),
            bonuses@ == skill_bonuses(skill, skill_finished) + effect_bonuses(
                effects@,
                information@,
                index as int,
            ),
        decreases effects@.len() - index,
    {
        let effect = effects[index];
        if !effect.finished {
            let place = find_information(information, effect.effect_type);
            let source = BonusSource::Effect(place.unwrap());
            match effect.effect_type {
                EffectType::SpeedUp | EffectType::Slow => {
                    bonuses.push(Bonus { stat: Stat::Speed, source });
                },
                EffectType::EvasionUp => {
                    bonuses.push(Bonus { stat: Stat::DodgeChance, source });
                },
                EffectType::ReduceDamage => {
                    bonuses.push(Bonus { stat: Stat::Damage, source });
                },
                EffectType::Focus => {
                    bonuses.push(Bonus { stat: Stat::CriticalChance, source });
                },
                _ => {},
            }
        }
        index += 1;
        assert(bonuses@ =~= skill_bonuses(skill, skill_finished) + effect_bonuses(
            effects@,
            information@,
            index as int,
        ));
    }
    proof {
        assert(information@.len() == information.len());
        lemma_effect_places_are_in_table(effects@, information@, effects@.len() as int);
    }
    bonuses
}

/// Every bonus of a timed effect points at the first row of the effect table
/// that describes an effect of its stat, as long as every running effect is
/// described.
pub proof fn lemma_effect_places_are_in_table(
    effects: Seq<ActiveEffect>,
    information: Seq<EffectType>,
    n: int,
)
    requires
        all_described(effects, information),
        0 <= n <= effects.len(),
        information.len() <= usize::MAX,
    ensures
        forall|k: int| 0 <= k < effect_bonuses(effects, information, n).len() ==> {
            let bonus = #[trigger] effect_bonuses(effects, information, n)[k];
            &&& place_in_table(bonus.source, information)
            &&& bonus.source matches BonusSource::Effect(place) && stat_of(
                information[place as int],
            ) == Some(bonus.stat)
        },
    decreases n,
{
    if n > 0 {
        lemma_effect_places_are_in_table(effects, information, n - 1);
        let effect = effects[n - 1];
        if !effect.finished {
            lemma_first_entry(information, effect.effect_type);
        }
        let earlier = effect_bonuses(effects, information, n - 1);
        let now = effect_bonuses(effects, information, n);
        assert forall|k: int| 0 <= k < now.len() implies {
            let bonus = #[trigger] now[k];
            &&& place_in_table(bonus.source, information)
            &&& bonus.source matches BonusSource::Effect(place) && stat_of(
                information[place as int],
            ) == Some(bonus.stat)
        } by {
            if k < earlier.len() {
                assert(now[k] == earlier[k]);
            } else {
                assert(information.contains(effect.effect_type));
                assert(is_first_entry(
                    information,
                    effect.effect_type,
                    first_entry(information, effect.effect_type),
                ));
            }
        }
    }
}

/// Only the hero's skill can make a dodge certain, and only Time to Hunt does.
pub proof fn lemma_certainty_comes_from_the_hunt(
    skill: SkillType,
    skill_finished: bool,
    effects: Seq<ActiveEffect>,
    information: Seq<EffectType>,
    n: int,
)
    ensures
        forall|k: int| 0 <= k < effect_bonuses(effects, information, n).len() ==> (#[trigger] effect_bonuses(effects, information, n)[k]).source is Effect,
        (exists|k: int| 0 <= k < skill_bonuses(skill, skill_finished).len() && (#[trigger] skill_bonuses(skill, skill_finished)[k]).source == BonusSource::Certain)
            <==> (skill == SkillType::TimeToHunt && !skill_finished),
    decreases n,
{
    if n > 0 {
        lemma_certainty_comes_from_the_hunt(skill, skill_finished, effects, information, n - 1);
    }
    if skill == SkillType::TimeToHunt && !skill_finished {
        assert(skill_bonuses(skill, skill_finished)[2].source == BonusSource::Certain);
    }
}

/// When nothing runs — no skill, and every effect has run out — no bonus
/// applies.
pub proof fn lemma_nothing_running_gives_no_bonus(
    skill: SkillType,
    effects: Seq<ActiveEffect>,
    information: Seq<EffectType>,
    n: int,
)
    requires
        0 <= n <= effects.len(),
        forall|i: int| 0 <= i < effects.len() ==> (#[trigger] effects[i]).finished,
    ensures
        skill_bonuses(skill, true).len() == 0,
        effect_bonuses(effects, information, n).len() == 0,
    decreases n,
{
    if n > 0 {
        lemma_nothing_running_gives_no_bonus(skill, effects, information, n - 1);
    }
}

} // verus!
