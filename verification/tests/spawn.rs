use dungeon_crawler::plugins::monster::spawn::{
    can_spawn_classic, can_spawn_survival, component_name, monsters_max_level_classic, monsters_max_level_survival, select_monsters,
    spawn_monsters_classic_mode, spawn_monsters_survival_mode, total_tiles,
};
use dungeon_crawler::resources::monster::{MonsterClass, MonsterSpawnController};

fn controller(max: usize, require: usize, killed: usize, alive: usize) -> MonsterSpawnController {
    MonsterSpawnController {
        max_avalible_monsters: max,
        require_monster: require,
        killed_monsters: killed,
        alive_monsters: alive,
    }
}

#[test]
fn classic_level_by_floor() {
    assert_eq!(monsters_max_level_classic(0), 1);
    assert_eq!(monsters_max_level_classic(1), 1);
    assert_eq!(monsters_max_level_classic(2), 2);
    assert_eq!(monsters_max_level_classic(3), 2);
    assert_eq!(monsters_max_level_classic(4), 3);
    assert_eq!(monsters_max_level_classic(100), 3);
}

#[test]
fn survival_level_by_wave() {
    assert_eq!(monsters_max_level_survival(0), 1);
    assert_eq!(monsters_max_level_survival(1), 1);
    assert_eq!(monsters_max_level_survival(3), 1);
    assert_eq!(monsters_max_level_survival(4), 2);
    assert_eq!(monsters_max_level_survival(5), 2);
    assert_eq!(monsters_max_level_survival(6), 3);
    assert_eq!(monsters_max_level_survival(usize::MAX), 3);
}

#[test]
fn select_keeps_catalogue_order() {
    let levels = vec![1, 3, 2, 1, 2, 3];
    assert_eq!(select_monsters(&levels, 1), vec![0, 3]);
    assert_eq!(select_monsters(&levels, 2), vec![0, 2, 3, 4]);
    assert_eq!(select_monsters(&levels, 3), vec![0, 1, 2, 3, 4, 5]);
}

#[test]
fn select_from_empty_catalogue() {
    assert_eq!(select_monsters(&Vec::new(), 3), Vec::<usize>::new());
}

#[test]
fn select_when_nothing_is_allowed() {
    assert_eq!(select_monsters(&vec![2, 3, 2], 1), Vec::<usize>::new());
    assert_eq!(select_monsters(&vec![1, 1], 0), Vec::<usize>::new());
}

#[test]
fn tiles_by_class() {
    assert_eq!(total_tiles(MonsterClass::Zombie), 4);
    assert_eq!(total_tiles(MonsterClass::Swampy), 4);
    assert_eq!(total_tiles(MonsterClass::Other), 8);
}

#[test]
fn monster_names_count_from_the_living() {
    assert_eq!(component_name(0), "Monster 0");
    assert_eq!(component_name(7), "Monster 7");
    assert_eq!(component_name(12), "Monster 12");
}

#[test]
fn classic_cleared_room_gets_nothing() {
    let mut c = controller(5, 10, 0, 0);
    let spawned = spawn_monsters_classic_mode(&mut c, true, 0, &vec![1, 2, 3]);
    assert!(spawned.is_empty());
    assert_eq!(c, controller(5, 10, 0, 0));
}

#[test]
fn classic_fills_up_to_the_cap() {
    let mut c = controller(5, 10, 0, 0);
    let spawned = spawn_monsters_classic_mode(&mut c, false, 0, &vec![1, 2, 3]);
    assert_eq!(spawned.len(), 5);
    assert_eq!(c, controller(5, 10, 0, 5));
}

#[test]
fn classic_stops_at_what_the_room_owes() {
    let mut c = controller(5, 10, 7, 1);
    let spawned = spawn_monsters_classic_mode(&mut c, false, 0, &vec![1]);
    assert_eq!(spawned.len(), 2);
    assert_eq!(c, controller(5, 10, 7, 3));
}

#[test]
fn classic_owes_nothing_when_all_are_accounted_for() {
    let mut c = controller(5, 10, 8, 2);
    let spawned = spawn_monsters_classic_mode(&mut c, false, 0, &vec![1]);
    assert!(spawned.is_empty());
    assert_eq!(c, controller(5, 10, 8, 2));
}

#[test]
fn classic_full_room_gets_nothing() {
    let mut c = controller(3, 10, 0, 3);
    let spawned = spawn_monsters_classic_mode(&mut c, false, 4, &vec![1, 2, 3]);
    assert!(spawned.is_empty());
    assert_eq!(c, controller(3, 10, 0, 3));
}

#[test]
fn classic_needs_no_candidate_when_nothing_spawns() {
    let mut c = controller(3, 3, 3, 0);
    let spawned = spawn_monsters_classic_mode(&mut c, false, 0, &Vec::new());
    assert!(spawned.is_empty());
    assert_eq!(c, controller(3, 3, 3, 0));
}

#[test]
fn classic_picks_only_allowed_kinds() {
    let levels = vec![3, 1, 2, 3, 1];
    for _ in 0..50 {
        let mut c = controller(8, 8, 0, 0);
        let spawned = spawn_monsters_classic_mode(&mut c, false, 1, &levels);
        assert_eq!(spawned.len(), 8);
        for kind in spawned {
            assert!(kind == 1 || kind == 4);
        }
    }
}

#[test]
fn classic_deeper_floors_allow_stronger_kinds() {
    let levels = vec![3, 3, 2];
    let mut c = controller(4, 4, 0, 0);
    let spawned = spawn_monsters_classic_mode(&mut c, false, 2, &levels);
    assert_eq!(spawned, vec![2, 2, 2, 2]);
    let mut c = controller(40, 40, 0, 0);
    let spawned = spawn_monsters_classic_mode(&mut c, false, 4, &levels);
    assert_eq!(spawned.len(), 40);
    assert!(spawned.iter().all(|kind| *kind < 3));
}

#[test]
fn classic_single_candidate_is_always_drawn() {
    let mut c = controller(6, 6, 1, 2);
    let spawned = spawn_monsters_classic_mode(&mut c, false, 0, &vec![2, 1, 3]);
    assert_eq!(spawned, vec![1, 1, 1]);
    assert_eq!(c.alive_monsters, 5);
}

#[test]
fn classic_draws_vary_over_many_rooms() {
    let levels = vec![1, 1, 1, 1];
    let mut seen = [false; 4];
    for _ in 0..200 {
        let mut c = controller(4, 4, 0, 0);
        for kind in spawn_monsters_classic_mode(&mut c, false, 0, &levels) {
            seen[kind] = true;
        }
    }
    assert!(seen.iter().all(|s| *s));
}

#[test]
fn survival_finished_wave_gets_nothing() {
    let mut c = controller(5, 0, 0, 1);
    let spawned = spawn_monsters_survival_mode(&mut c, true, 1, &vec![1]);
    assert!(spawned.is_empty());
    assert_eq!(c, controller(5, 0, 0, 1));
}

#[test]
fn survival_fills_up_to_the_cap() {
    let mut c = controller(5, 0, 9, 1);
    let spawned = spawn_monsters_survival_mode(&mut c, false, 1, &vec![1]);
    assert_eq!(spawned, vec![0, 0, 0, 0]);
    assert_eq!(c, controller(5, 0, 9, 5));
}

#[test]
fn survival_full_wave_gets_nothing() {
    let mut c = controller(5, 0, 0, 5);
    let spawned = spawn_monsters_survival_mode(&mut c, false, 9, &Vec::new());
    assert!(spawned.is_empty());
    assert_eq!(c, controller(5, 0, 0, 5));
    let mut c = controller(5, 0, 0, 9);
    let spawned = spawn_monsters_survival_mode(&mut c, false, 9, &Vec::new());
    assert!(spawned.is_empty());
    assert_eq!(c, controller(5, 0, 0, 9));
}

#[test]
fn survival_picks_only_allowed_kinds() {
    let levels = vec![2, 1, 3, 2];
    for _ in 0..50 {
        let mut c = controller(6, 0, 0, 0);
        let spawned = spawn_monsters_survival_mode(&mut c, false, 4, &levels);
        assert_eq!(spawned.len(), 6);
        assert!(spawned.iter().all(|kind| *kind == 0 || *kind == 1 || *kind == 3));
    }
}

#[test]
fn classic_cleared_room_is_always_ready() {
    assert!(can_spawn_classic(&controller(5, 1, 9, 9), true, 0, &Vec::new()));
}

#[test]
fn classic_is_not_ready_when_more_are_accounted_for_than_owed() {
    assert!(!can_spawn_classic(&controller(5, 10, 8, 3), false, 0, &vec![1]));
    assert!(!can_spawn_classic(&controller(5, 10, 11, 0), false, 0, &vec![1]));
    assert!(!can_spawn_classic(&controller(5, 10, usize::MAX, 1), false, 0, &vec![1]));
    assert!(can_spawn_classic(&controller(5, 10, 8, 2), false, 0, &vec![1]));
}

#[test]
fn classic_needs_a_candidate_only_when_a_monster_is_due() {
    assert!(!can_spawn_classic(&controller(5, 10, 0, 0), false, 0, &Vec::new()));
    assert!(!can_spawn_classic(&controller(5, 10, 0, 0), false, 0, &vec![2, 3]));
    assert!(can_spawn_classic(&controller(5, 10, 0, 0), false, 2, &vec![2, 3]));
    assert!(can_spawn_classic(&controller(5, 10, 0, 5), false, 0, &Vec::new()));
    assert!(can_spawn_classic(&controller(5, 10, 10, 0), false, 0, &Vec::new()));
}

#[test]
fn survival_needs_a_candidate_only_when_a_monster_is_due() {
    assert!(can_spawn_survival(&controller(5, 0, 0, 0), true, 1, &Vec::new()));
    assert!(can_spawn_survival(&controller(5, 0, 0, 5), false, 1, &Vec::new()));
    assert!(!can_spawn_survival(&controller(5, 0, 0, 4), false, 1, &Vec::new()));
    assert!(!can_spawn_survival(&controller(5, 0, 0, 4), false, 3, &vec![2]));
    assert!(can_spawn_survival(&controller(5, 0, 0, 4), false, 4, &vec![2]));
}
