//! How many monsters a room or a wave receives, and which kinds are allowed in.

use vstd::prelude::*;
use crate::resources::monster::{MonsterClass, MonsterSpawnController};
use crate::utils::chance::random_index;
use crate::utils::decimal::{decimal, push_decimal};

verus! {

/// The highest monster level met on a floor of the dungeon: level 1 on the first
/// two floors, level 2 on the next two, level 3 below that.
pub open spec fn classic_max_level(floor_index: int) -> int {
    if floor_index < 2 {
        1
    } else if floor_index < 4 {
        2
    } else {
        3
    }
}

/// The highest monster level met in a wave: level 1 up to the third wave,
/// level 2 up to the fifth, level 3 after that.
pub open spec fn survival_max_level(wave_number: int) -> int {
    if wave_number <= 3 {
        1
    } else if wave_number <= 5 {
        2
    } else {
        3
    }
}

/// Whether the monster kind at `index` of the catalogue may appear when kinds
/// up to `max_level` are allowed.
pub open spec fn is_candidate(levels: Seq<usize>, max_level: int, index: int) -> bool {
    0 <= index < levels.len() && levels[index] <= max_level
}

/// Monsters a dungeon room receives now: as many as fit under the cap on living
/// monsters, but no more than the room still owes once the living and the
/// defeated are counted.
pub open spec fn classic_spawn_count(controller: MonsterSpawnController) -> int {
    let room = controller.max_avalible_monsters - controller.alive_monsters;
    let owed = controller.require_monster - controller.killed_monsters
        - controller.alive_monsters;
    if room <= 0 || owed <= 0 {
        0
    } else if room <= owed {
        room
    } else {
        owed
    }
}

/// Monsters a running wave receives now: as many as fit under the cap on living
/// monsters.
pub open spec fn survival_spawn_count(controller: MonsterSpawnController) -> int {
    if controller.alive_monsters < controller.max_avalible_monsters {
        controller.max_avalible_monsters - controller.alive_monsters
    } else {
        0
    }
}

/// Whether a dungeon room can be filled: in a room that is not cleared the living
/// and the defeated together do not exceed what the room owes, and if a monster
/// is due, the catalogue holds a kind that may appear on this floor.
pub open spec fn classic_spawn_ready(
    controller: MonsterSpawnController,
    is_room_cleared: bool,
    current_floor_index: int,
    levels: Seq<usize>,
) -> bool {
    !is_room_cleared ==> {
        &&& controller.alive_monsters + controller.killed_monsters <= controller.require_monster
        &&& classic_spawn_count(controller) > 0 ==> exists|i: int|
            is_candidate(levels, classic_max_level(current_floor_index), i)
    }
}

/// Whether a wave can be filled: if a monster is due while the wave runs, the
/// catalogue holds a kind that may appear in this wave.
pub open spec fn survival_spawn_ready(
    controller: MonsterSpawnController,
    wave_timer_finished: bool,
    wave_number: int,
    levels: Seq<usize>,
) -> bool {
    !wave_timer_finished && survival_spawn_count(controller) > 0 ==> exists|i: int|
        is_candidate(levels, survival_max_level(wave_number), i)
}

/// The controller after `count` more monsters came alive.
pub open spec fn with_spawned(controller: MonsterSpawnController, count: int) -> MonsterSpawnController {
    MonsterSpawnController {
        alive_monsters: (controller.alive_monsters + count) as usize,
        ..controller
    }
}

/// Computes [`classic_max_level`].
pub fn monsters_max_level_classic(current_floor_index: usize) -> (level: usize)
    ensures
        level == classic_max_level(current_floor_index as int),
{
    if current_floor_index < 2 {
        1
    } else if current_floor_index < 4 {
        2
    } else {
        3
    }
}

/// Computes [`survival_max_level`].
pub fn monsters_max_level_survival(wave_number: usize) -> (level: usize)
    ensures
        level == survival_max_level(wave_number as int),
{
    if wave_number <= 3 {
        1
    } else if wave_number <= 5 {
        2
    } else {
        3
    }
}

/// Picks from the catalogue the monster kinds of level `max_level` or lower.
///
/// `levels[i]` is the level of kind `i`. The result lists the positions of the
/// allowed kinds in catalogue order: each position once, none left out.
pub fn select_monsters(levels: &Vec<usize>, max_level: usize) -> (selected: Vec<usize>)
    ensures
        forall|k: int| 0 <= k < selected.len() ==> is_candidate(levels@, max_level as int, #[trigger] selected[k] as int),
        forall|j: int, k: int| 0 <= j < k < selected.len() ==> selected[j] < selected[k],
        forall|i: int| is_candidate(levels@, max_level as int, i) ==> selected@.contains(i as usize),
{
    let mut selected: Vec<usize> = Vec::new();
    let mut i: usize = 0;
    while i < levels.len()
        invariant
            i <= levels.len(),
            forall|k: int| 0 <= k < selected.len() ==> is_candidate(levels@, max_level as int, #[trigger] selected[k] as int) && selected[k] < i,
            forall|j: int, k: int| 0 <= j < k < selected.len() ==> selected[j] < selected[k],
            forall|c: int| 0 <= c < i && is_candidate(levels@, max_level as int, c) ==> selected@.contains(c as usize),
        decreases levels.len() - i,
    {
        if levels[i] <= max_level {
            let ghost before = selected@;
            selected.push(i);
            assert(selected@[before.len() as int] == i);
            assert forall|c: int| 0 <= c < i + 1 && is_candidate(levels@, max_level as int, c) implies selected@.contains(c as usize) by {
                if c < i {
                    let k = choose|k: int| 0 <= k < before.len() && before[k] == c as usize;
                    assert(selected@[k] == c as usize);
                }
            }
        }
        i += 1;
    }
    selected
}

/// Number of sprite frames in the animation strip of a monster class: zombies
/// and swampies have four, every other class eight.
pub fn total_tiles(class: MonsterClass) -> (tiles: usize)
    ensures
        tiles == (if class == MonsterClass::Zombie || class == MonsterClass::Swampy { 4int } else { 8int }),
{
    match class {
        MonsterClass::Zombie | MonsterClass::Swampy => 4,
        _ => 8,
    }
}

/// The name a monster gets when it appears: the word `Monster` and the number
/// of monsters alive just before it.
pub open spec fn monster_name(alive_before: int) -> Seq<char> {
    "Monster "@ + decimal(alive_before as nat)
}

/// Builds [`monster_name`].
pub fn component_name(alive_monsters: usize) -> (name: String)
    ensures
        name@ == monster_name(alive_monsters as int),
{
    let mut name = String::from_str("Monster ");
    push_decimal(&mut name, alive_monsters as u64);
    name
}

/// Tells whether the catalogue holds a kind of level `max_level` or lower.
fn has_candidate(levels: &Vec<usize>, max_level: usize) -> (found: bool)
    ensures
        found == exists|i: int| is_candidate(levels@, max_level as int, i),
{
    let selected = select_monsters(levels, max_level);
    if selected.len() > 0 {
        assert(is_candidate(levels@, max_level as int, selected@[0] as int));
        true
    } else {
        assert forall|i: int| !is_candidate(levels@, max_level as int, i) by {
            if is_candidate(levels@, max_level as int, i) {
                assert(selected@.contains(i as usize));
            }
        }
        false
    }
}

/// Tests [`classic_spawn_ready`].
pub fn can_spawn_classic(
    monster_spawn_controller: &MonsterSpawnController,
    is_room_cleared: bool,
    current_floor_index: usize,
    levels: &Vec<usize>,
) -> (ready: bool)
    ensures
        ready == classic_spawn_ready(
            *monster_spawn_controller,
            is_room_cleared,
            current_floor_index as int,
            levels@,
        ),
{
    if is_room_cleared {
        return true;
    }
    let alive = monster_spawn_controller.alive_monsters;
    let killed = monster_spawn_controller.killed_monsters;
    let require = monster_spawn_controller.require_monster;
    if killed > require || alive > require - killed {
        return false;
    }
    if alive < monster_spawn_controller.max_avalible_monsters && require - killed - alive != 0 {
        has_candidate(levels, monsters_max_level_classic(current_floor_index))
    } else {
        true
    }
}

/// Tests [`survival_spawn_ready`].
pub fn can_spawn_survival(
    monster_spawn_controller: &MonsterSpawnController,
    wave_timer_finished: bool,
    wave_number: usize,
    levels: &Vec<usize>,
) -> (ready: bool)
    ensures
        ready == survival_spawn_ready(
            *monster_spawn_controller,
            wave_timer_finished,
            wave_number as int,
            levels@,
        ),
{
    if !wave_timer_finished && monster_spawn_controller.alive_monsters
        < monster_spawn_controller.max_avalible_monsters {
        has_candidate(levels, monsters_max_level_survival(wave_number))
    } else {
        true
    }
}

/// Fills a dungeon room with monsters.
///
/// Nothing happens in a cleared room. Otherwise monsters appear one by one while
/// fewer are alive than the cap allows and the room still owes some; each is a
/// kind drawn at random among those that [`select_monsters`] allows on this
/// floor. The result names the kind of each new monster, in the order in which
/// they appear; the `k`-th of them is called `monster_name(alive + k)` for the
/// count of living monsters on entry.
pub fn spawn_monsters_classic_mode(
    monster_spawn_controller: &mut MonsterSpawnController,
    is_room_cleared: bool,
    current_floor_index: usize,
    levels: &Vec<usize>,
) -> (spawned: Vec<usize>)
    requires
        classic_spawn_ready(
            *old(monster_spawn_controller),
            is_room_cleared,
            current_floor_index as int,
            levels@,
        ),
    ensures
        is_room_cleared ==> spawned@.len() == 0 && *final(monster_spawn_controller) == *old(
            monster_spawn_controller,
        ),
        !is_room_cleared ==> spawned@.len() == classic_spawn_count(*old(monster_spawn_controller))
            && *final(monster_spawn_controller) == with_spawned(
            *old(monster_spawn_controller),
            classic_spawn_count(*old(monster_spawn_controller)),
        ),
        forall|k: int| 0 <= k < spawned@.len() ==> is_candidate(
            levels@,
            classic_max_level(current_floor_index as int),
            #[trigger] spawned@[k] as int,
        ),
{
    let mut spawned: Vec<usize> = Vec::new();
    if is_room_cleared {
        return spawned;
    }
    let max_avalible_monsters = monster_spawn_controller.max_avalible_monsters;
    let require_monsters = monster_spawn_controller.require_monster;
    let killed_monsters = monster_spawn_controller.killed_monsters;
    let monsters_max_level = monsters_max_level_classic(current_floor_index);
    let raw_selected_monsters = select_monsters(levels, monsters_max_level);
    let ghost start = *old(monster_spawn_controller);
    let ghost count = classic_spawn_count(start);
    while monster_spawn_controller.alive_monsters < max_avalible_monsters && (require_monsters - (
        monster_spawn_controller.alive_monsters + killed_monsters)) != 0
        invariant
            start.alive_monsters + start.killed_monsters <= start.require_monster,
            max_avalible_monsters == start.max_avalible_monsters,
            require_monsters == start.require_monster,
            killed_monsters == start.killed_monsters,
            count == classic_spawn_count(start),
            monsters_max_level == classic_max_level(current_floor_index as int),
            spawned@.len() <= count,
            *monster_spawn_controller == with_spawned(start, spawned@.len() as int),
            monster_spawn_controller.alive_monsters == start.alive_monsters + spawned@.len(),
            monster_spawn_controller.alive_monsters + killed_monsters <= require_monsters,
            count > 0 ==> raw_selected_monsters@.len() > 0,
            forall|k: int| 0 <= k < raw_selected_monsters@.len() ==> is_candidate(
                levels@,
                monsters_max_level as int,
                #[trigger] raw_selected_monsters@[k] as int,
            ),
            forall|k: int| 0 <= k < spawned@.len() ==> is_candidate(
                levels@,
                monsters_max_level as int,
                #[trigger] spawned@[k] as int,
            ),
        decreases max_avalible_monsters - monster_spawn_controller.alive_monsters,
    {
        let random_raw_monster_index = random_index(raw_selected_monsters.len());
        spawned.push(raw_selected_monsters[random_raw_monster_index]);
        monster_spawn_controller.alive_monsters += 1;
    }
    spawned
}

/// Fills a wave with monsters.
///
/// Nothing happens once the wave's time is up. Otherwise monsters appear one by
/// one until as many are alive as the cap allows; each is a kind drawn at random
/// among those that [`select_monsters`] allows in this wave. The result names
/// the kind of each new monster, in the order in which they appear.
pub fn spawn_monsters_survival_mode(
    monster_spawn_controller: &mut MonsterSpawnController,
    wave_timer_finished: bool,
    wave_number: usize,
    levels: &Vec<usize>,
) -> (spawned: Vec<usize>)
    requires
        survival_spawn_ready(
            *old(monster_spawn_controller),
            wave_timer_finished,
            wave_number as int,
            levels@,
        ),
    ensures
        wave_timer_finished ==> spawned@.len() == 0 && *final(monster_spawn_controller) == *old(
            monster_spawn_controller,
        ),
        !wave_timer_finished ==> spawned@.len() == survival_spawn_count(
            *old(monster_spawn_controller),
        ) && *final(monster_spawn_controller) == with_spawned(
            *old(monster_spawn_controller),
            survival_spawn_count(*old(monster_spawn_controller)),
        ),
        forall|k: int| 0 <= k < spawned@.len() ==> is_candidate(
            levels@,
            survival_max_level(wave_number as int),
            #[trigger] spawned@[k] as int,
        ),
{
    let mut spawned: Vec<usize> = Vec::new();
    let max_avalible_monsters = monster_spawn_controller.max_avalible_monsters;
    if wave_timer_finished {
        return spawned;
    }
    if monster_spawn_controller.alive_monsters < max_avalible_monsters {
        let monsters_max_level = monsters_max_level_survival(wave_number);
        let raw_selected_monsters = select_monsters(levels, monsters_max_level);
        let ghost start = *old(monster_spawn_controller);
        while monster_spawn_controller.alive_monsters < max_avalible_monsters
            invariant
                max_avalible_monsters == start.max_avalible_monsters,
                start.alive_monsters < max_avalible_monsters,
                monsters_max_level == survival_max_level(wave_number as int),
                *monster_spawn_controller == with_spawned(start, spawned@.len() as int),
                monster_spawn_controller.alive_monsters == start.alive_monsters + spawned@.len(),
                monster_spawn_controller.alive_monsters <= max_avalible_monsters,
                raw_selected_monsters@.len() > 0,
                forall|k: int| 0 <= k < raw_selected_monsters@.len() ==> is_candidate(
                    levels@,
                    monsters_max_level as int,
                    #[trigger] raw_selected_monsters@[k] as int,
                ),
                forall|k: int| 0 <= k < spawned@.len() ==> is_candidate(
                    levels@,
                    monsters_max_level as int,
                    #[trigger] spawned@[k] as int,
                ),
            decreases max_avalible_monsters - monster_spawn_controller.alive_monsters,
        {
            let random_raw_monster_index = random_index(raw_selected_monsters.len());
            spawned.push(raw_selected_monsters[random_raw_monster_index]);
            monster_spawn_controller.alive_monsters += 1;
        }
    }
    spawned
}

/// A dungeon room that was just filled takes no further monster, stays within
/// its cap if it was within it before, and still owes no less than nothing.
pub proof fn lemma_classic_room_is_full_after_spawning(controller: MonsterSpawnController)
    requires
        controller.alive_monsters + controller.killed_monsters <= controller.require_monster,
    ensures
        ({
            let count = classic_spawn_count(controller);
            let filled = with_spawned(controller, count);
            &&& count >= 0
            &&& classic_spawn_count(filled) == 0
            &&& filled.alive_monsters + filled.killed_monsters <= filled.require_monster
            &&& controller.alive_monsters <= controller.max_avalible_monsters
                ==> filled.alive_monsters <= filled.max_avalible_monsters
        }),
{
}

/// A wave that was just filled holds exactly as many living monsters as its cap
/// allows, unless it held more before, and takes no further monster.
pub proof fn lemma_wave_is_full_after_spawning(controller: MonsterSpawnController)
    ensures
        ({
            let count = survival_spawn_count(controller);
            let filled = with_spawned(controller, count);
            &&& count >= 0
            &&& survival_spawn_count(filled) == 0
            &&& controller.alive_monsters <= controller.max_avalible_monsters
                ==> filled.alive_monsters == filled.max_avalible_monsters
        }),
{
}

/// Deeper floors and later waves never shut out a kind of monster that was
/// allowed before.
pub proof fn lemma_candidates_only_grow(levels: Seq<usize>, index: int, earlier: int, later: int)
    requires
        earlier <= later,
    ensures
        classic_max_level(earlier) <= classic_max_level(later),
        survival_max_level(earlier) <= survival_max_level(later),
        is_candidate(levels, classic_max_level(earlier), index) ==> is_candidate(
            levels,
            classic_max_level(later),
            index,
        ),
        is_candidate(levels, survival_max_level(earlier), index) ==> is_candidate(
            levels,
            survival_max_level(later),
            index,
        ),
{
}

} // verus!
