use dungeon_crawler::plugins::player::stats::{
    effects_described, find_information, update_stats, ActiveEffect, Bonus, BonusSource, Stat,
};
use dungeon_crawler::resources::effect::EffectType;
use dungeon_crawler::resources::skill::SkillType;

fn table() -> Vec<EffectType> {
    vec![
        EffectType::Stun,
        EffectType::ReduceDamage,
        EffectType::Slow,
        EffectType::SpeedUp,
        EffectType::EvasionUp,
        EffectType::Focus,
    ]
}

fn running(effect_type: EffectType) -> ActiveEffect {
    ActiveEffect { effect_type, finished: false }
}

fn over(effect_type: EffectType) -> ActiveEffect {
    ActiveEffect { effect_type, finished: true }
}

fn skill(stat: Stat) -> Bonus {
    Bonus { stat, source: BonusSource::Skill }
}

fn effect(stat: Stat, place: usize) -> Bonus {
    Bonus { stat, source: BonusSource::Effect(place) }
}

#[test]
fn find_information_returns_the_first_place() {
    let information = vec![EffectType::Slow, EffectType::Focus, EffectType::Slow];
    assert_eq!(find_information(&information, EffectType::Slow), Some(0));
    assert_eq!(find_information(&information, EffectType::Focus), Some(1));
}

#[test]
fn find_information_of_missing_effect() {
    let information = vec![EffectType::Slow, EffectType::Focus];
    assert_eq!(find_information(&information, EffectType::Stun), None);
    assert_eq!(find_information(&Vec::new(), EffectType::Slow), None);
}

#[test]
fn nothing_running_gives_no_bonus() {
    for s in [SkillType::Armor, SkillType::TimeToHunt, SkillType::AnimalInstinct] {
        assert_eq!(update_stats(s, true, &Vec::new(), &table()), Vec::new());
        assert_eq!(
            update_stats(s, true, &vec![over(EffectType::Focus), over(EffectType::Slow)], &table()),
            Vec::new()
        );
    }
}

#[test]
fn armor_gives_no_bonus_even_while_running() {
    assert_eq!(update_stats(SkillType::Armor, false, &Vec::new(), &table()), Vec::new());
}

#[test]
fn time_to_hunt_makes_the_dodge_certain() {
    assert_eq!(
        update_stats(SkillType::TimeToHunt, false, &Vec::new(), &table()),
        vec![
            skill(Stat::Speed),
            skill(Stat::CriticalChance),
            Bonus { stat: Stat::DodgeChance, source: BonusSource::Certain },
        ]
    );
}

#[test]
fn animal_instinct_raises_four_stats() {
    assert_eq!(
        update_stats(SkillType::AnimalInstinct, false, &Vec::new(), &table()),
        vec![
            skill(Stat::Speed),
            skill(Stat::CriticalChance),
            skill(Stat::RestoreChance),
            skill(Stat::Damage),
        ]
    );
}

#[test]
fn each_effect_goes_to_its_stat() {
    let effects = vec![
        running(EffectType::SpeedUp),
        running(EffectType::Slow),
        running(EffectType::EvasionUp),
        running(EffectType::ReduceDamage),
        running(EffectType::Focus),
    ];
    assert_eq!(
        update_stats(SkillType::Armor, true, &effects, &table()),
        vec![
            effect(Stat::Speed, 3),
            effect(Stat::Speed, 2),
            effect(Stat::DodgeChance, 4),
            effect(Stat::Damage, 1),
            effect(Stat::CriticalChance, 5),
        ]
    );
}

#[test]
fn stun_changes_no_stat() {
    assert_eq!(
        update_stats(SkillType::Armor, true, &vec![running(EffectType::Stun)], &table()),
        Vec::new()
    );
}

#[test]
fn finished_effects_are_skipped() {
    let effects = vec![
        over(EffectType::SpeedUp),
        running(EffectType::Focus),
        over(EffectType::Focus),
        running(EffectType::Slow),
    ];
    assert_eq!(
        update_stats(SkillType::Armor, false, &effects, &table()),
        vec![effect(Stat::CriticalChance, 5), effect(Stat::Speed, 2)]
    );
}

#[test]
fn finished_effect_needs_no_entry_in_the_table() {
    let effects = vec![over(EffectType::Stun), running(EffectType::Focus)];
    assert_eq!(
        update_stats(SkillType::Armor, true, &effects, &vec![EffectType::Focus]),
        vec![effect(Stat::CriticalChance, 0)]
    );
}

#[test]
fn skill_bonuses_come_before_effect_bonuses() {
    let effects = vec![running(EffectType::EvasionUp), running(EffectType::SpeedUp)];
    assert_eq!(
        update_stats(SkillType::TimeToHunt, false, &effects, &table()),
        vec![
            skill(Stat::Speed),
            skill(Stat::CriticalChance),
            Bonus { stat: Stat::DodgeChance, source: BonusSource::Certain },
            effect(Stat::DodgeChance, 4),
            effect(Stat::Speed, 3),
        ]
    );
}

#[test]
fn duplicate_table_entries_resolve_to_the_first() {
    let information = vec![EffectType::Focus, EffectType::Slow, EffectType::Focus, EffectType::Slow];
    let effects = vec![running(EffectType::Slow), running(EffectType::Focus)];
    assert_eq!(
        update_stats(SkillType::Armor, true, &effects, &information),
        vec![effect(Stat::Speed, 1), effect(Stat::CriticalChance, 0)]
    );
}

#[test]
fn same_effect_twice_counts_twice() {
    let effects = vec![running(EffectType::SpeedUp), running(EffectType::SpeedUp)];
    assert_eq!(
        update_stats(SkillType::Armor, true, &effects, &table()),
        vec![effect(Stat::Speed, 3), effect(Stat::Speed, 3)]
    );
}

#[test]
fn running_effects_must_be_described() {
    let information = vec![EffectType::Focus];
    assert!(effects_described(&Vec::new(), &Vec::new()));
    assert!(effects_described(&vec![running(EffectType::Focus)], &information));
    assert!(!effects_described(&vec![running(EffectType::Slow)], &information));
    assert!(!effects_described(
        &vec![running(EffectType::Focus), running(EffectType::Stun)],
        &information
    ));
    assert!(effects_described(&vec![over(EffectType::Slow), running(EffectType::Focus)], &information));
}
