use robo_swarm::arrow::Arrow;
use robo_swarm::defender::Defender;
use robo_swarm::fork::Fork;
use robo_swarm::grid::GridCoords;
use robo_swarm::grouper::{Grouper, GROUP_SIZE};
use robo_swarm::robot::RobotStore;
use robo_swarm::team::Team;
use robo_swarm::vec2i::Vec2I;

fn cell(x: i32, y: i32) -> GridCoords {
    GridCoords { x, y }
}

fn store_with(team: Team, ids: &[u64]) -> RobotStore {
    let mut store = RobotStore::new();
    for &id in ids {
        store.spawn_robot(id, team);
    }
    store
}

fn engine_dir_of(store: &RobotStore, id: u64) -> Vec2I {
    store.get(id).expect("robot must exist").engine_dir
}

#[test]
fn arrow_sets_engine_dir_exactly() {
    let mut store = store_with(Team::Enemy, &[1]);
    let dir = Vec2I::new(-707, 707);
    let arrow = Arrow::new(Team::Enemy, dir, cell(3, 3));
    assert_eq!(engine_dir_of(&store, 1), Vec2I::new(0, 0));
    assert!(arrow.trigger(&mut store, 1));
    assert_eq!(engine_dir_of(&store, 1), dir);
}

#[test]
fn arrow_retrigger_is_idempotent() {
    let mut store = store_with(Team::Player, &[1]);
    let dir = Vec2I::new(1000, 0);
    let arrow = Arrow::new(Team::Player, dir, cell(0, 0));
    assert!(arrow.trigger(&mut store, 1));
    assert!(arrow.trigger(&mut store, 1));
    assert_eq!(engine_dir_of(&store, 1), dir);
}

#[test]
fn arrow_ignores_opposing_robot() {
    let mut store = store_with(Team::Enemy, &[1]);
    let arrow = Arrow::new(Team::Player, Vec2I::new(1000, 0), cell(0, 0));
    assert!(!arrow.trigger(&mut store, 1));
    assert_eq!(engine_dir_of(&store, 1), Vec2I::new(0, 0));
}

#[test]
fn arrow_ignores_missing_robot() {
    let mut store = store_with(Team::Player, &[1]);
    let arrow = Arrow::new(Team::Player, Vec2I::new(1000, 0), cell(0, 0));
    assert!(!arrow.trigger(&mut store, 99));
}

#[test]
fn fork_alternates_left_right() {
    let left = Vec2I::new(707, 707);
    let right = Vec2I::new(707, -707);
    let mut fork = Fork::new(Team::Player, [left, right], cell(2, 2));
    let mut store = store_with(Team::Player, &[1, 2, 3, 4, 5]);
    for (id, expected) in [(1, left), (2, right), (3, left), (4, right), (5, left)] {
        assert!(fork.trigger(&mut store, id));
        assert_eq!(engine_dir_of(&store, id), expected);
    }
    assert_eq!(fork.forked_count, 5);
}

#[test]
fn fork_ignores_opposing_robot_and_keeps_counter() {
    let mut fork = Fork::new(Team::Player, [Vec2I::new(1, 0), Vec2I::new(0, 1)], cell(0, 0));
    let mut store = store_with(Team::Enemy, &[1]);
    assert!(!fork.trigger(&mut store, 1));
    assert_eq!(fork.forked_count, 0);
    assert_eq!(engine_dir_of(&store, 1), Vec2I::new(0, 0));
}

#[test]
fn grouper_releases_exactly_at_group_size() {
    let dir = Vec2I::new(0, -1000);
    let mut grouper = Grouper::new(Team::Enemy, dir, cell(1, 1));
    let ids: Vec<u64> = (1..=GROUP_SIZE as u64).collect();
    let mut store = store_with(Team::Enemy, &ids);

    for &id in ids.iter().take(GROUP_SIZE - 1) {
        assert!(grouper.on_robot_overlap(&mut store, id).is_none());
    }
    assert_eq!(grouper.group.len(), GROUP_SIZE - 1);
    for &id in ids.iter().take(GROUP_SIZE - 1) {
        assert_eq!(engine_dir_of(&store, id), Vec2I::new(0, 0));
    }

    let released = grouper
        .on_robot_overlap(&mut store, GROUP_SIZE as u64)
        .expect("the final insertion must release the batch");
    let mut sorted = released.clone();
    sorted.sort();
    assert_eq!(sorted, ids);
    assert!(grouper.group.is_empty());
    for &id in &ids {
        assert_eq!(engine_dir_of(&store, id), dir);
    }
}

#[test]
fn grouper_holds_below_group_size() {
    let mut grouper = Grouper::new(Team::Player, Vec2I::new(1000, 0), cell(1, 1));
    let ids: Vec<u64> = (1..=(GROUP_SIZE as u64 - 1)).collect();
    let mut store = store_with(Team::Player, &ids);
    for &id in &ids {
        assert!(grouper.on_robot_overlap(&mut store, id).is_none());
    }
    assert_eq!(grouper.group.len(), GROUP_SIZE - 1);
    for &id in &ids {
        assert_eq!(engine_dir_of(&store, id), Vec2I::new(0, 0));
    }
}

#[test]
fn grouper_insert_is_idempotent_per_robot() {
    let mut grouper = Grouper::new(Team::Player, Vec2I::new(1000, 0), cell(1, 1));
    let mut store = store_with(Team::Player, &[1]);
    assert!(grouper.on_robot_overlap(&mut store, 1).is_none());
    assert!(grouper.on_robot_overlap(&mut store, 1).is_none());
    assert_eq!(grouper.group.len(), 1);
}

#[test]
fn defender_pops_oldest_once_threshold_is_reached() {
    let dir = Vec2I::new(0, 1000);
    let mut defender = Defender::new(Team::Enemy, dir, cell(4, 4));
    let ids: Vec<u64> = (1..=26).collect();
    let mut store = store_with(Team::Enemy, &ids);

    let mut popped_total: Vec<u64> = Vec::new();
    for &id in &ids {
        popped_total.extend(defender.on_robot_overlap(&mut store, id));
    }

    // 26 arrivals at threshold 25 (pop while the queue holds 25 or more):
    // the 25th and 26th arrivals each pop one, so the two oldest robots
    // have been released and the 24 most recent remain queued.
    assert_eq!(popped_total, vec![1, 2]);
    assert_eq!(defender.queue, (3..=26).collect::<Vec<u64>>());
    assert_eq!(engine_dir_of(&store, 1), dir);
    assert_eq!(engine_dir_of(&store, 2), dir);
    for id in 3..=26 {
        assert_eq!(engine_dir_of(&store, id), Vec2I::new(0, 0));
    }
}

#[test]
fn defender_queue_holds_below_threshold() {
    let mut defender = Defender::new(Team::Player, Vec2I::new(1, 1), cell(0, 0));
    let ids: Vec<u64> = (1..=24).collect();
    let mut store = store_with(Team::Player, &ids);
    for &id in &ids {
        assert!(defender.on_robot_overlap(&mut store, id).is_empty());
    }
    assert_eq!(defender.queue, ids);
}

#[test]
fn defender_ignores_opposing_robot() {
    let mut defender = Defender::new(Team::Player, Vec2I::new(1, 1), cell(0, 0));
    let mut store = store_with(Team::Enemy, &[1]);
    assert!(defender.on_robot_overlap(&mut store, 1).is_empty());
    assert!(defender.queue.is_empty());
}

#[test]
fn defender_prunes_despawned_robots_lazily() {
    let mut defender = Defender::new(Team::Player, Vec2I::new(1, 1), cell(0, 0));
    let mut store = store_with(Team::Player, &[1, 2, 3]);
    for id in [1, 2, 3] {
        defender.on_robot_overlap(&mut store, id);
    }
    // Robot 2 dies and is swept away; the queue is pruned lazily.
    for _ in 0..5 {
        assert!(store.damage_robot(2, 1));
    }
    store.mark_dead_pass();
    assert_eq!(store.remove_dead(), vec![2]);
    defender.prune(&store);
    assert_eq!(defender.queue, vec![1, 3]);
}
