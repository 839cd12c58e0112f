use robo_swarm::arrow::Arrow;
use robo_swarm::cache::{CollisionCache, CollisionEvent};
use robo_swarm::grid::GridCoords;
use robo_swarm::level::{LevelController, LevelState};
use robo_swarm::portal::{push_targets, Portal};
use robo_swarm::robot::{
    drive_force, force_floor, keep_target, nearest_target, resolve_target, RobotStore,
    TARGET_DROP_DISTANCE,
};
use robo_swarm::team::Team;
use robo_swarm::vec2i::Vec2I;

#[test]
fn drive_force_scales_a_unit_direction_to_full_strength() {
    let rest = Vec2I::new(0, 0);
    let driven = drive_force(rest, Vec2I::new(1000, 0), false);
    assert_eq!(driven, Vec2I::new(100_000, 0));
    // The full drive force clears the deadzone.
    assert_eq!(force_floor(driven), driven);
}

#[test]
fn a_target_suppresses_the_drive() {
    let rest = Vec2I::new(0, 0);
    assert_eq!(drive_force(rest, Vec2I::new(1000, 0), true), rest);
}

#[test]
fn force_floor_zeroes_below_the_deadzone() {
    assert_eq!(force_floor(Vec2I::new(24_999, 0)), Vec2I::new(0, 0));
    assert_eq!(force_floor(Vec2I::new(0, -24_999)), Vec2I::new(0, 0));
    assert_eq!(force_floor(Vec2I::new(25_000, 0)), Vec2I::new(25_000, 0));
    assert_eq!(force_floor(Vec2I::new(17_678, 17_678)), Vec2I::new(17_678, 17_678));
}

#[test]
fn nearest_target_picks_the_first_minimum() {
    assert_eq!(nearest_target(&Vec::new()), None);
    let candidates = vec![(10u64, 50u64), (11, 20), (12, 20), (13, 90)];
    assert_eq!(nearest_target(&candidates), Some(1));
}

#[test]
fn targets_are_dropped_past_range_or_on_despawn() {
    assert_eq!(keep_target(Some(7), TARGET_DROP_DISTANCE), Some(7));
    assert_eq!(keep_target(Some(7), TARGET_DROP_DISTANCE + 1), None);
    let mut store = RobotStore::new();
    store.spawn_robot(7, Team::Enemy);
    assert_eq!(resolve_target(Some(7), &store), Some(7));
    assert_eq!(resolve_target(Some(8), &store), None);
    assert_eq!(resolve_target(None, &store), None);
}

/// One player portal that never spawns, one enemy portal that does, an
/// empty bounded grid, no gadgets, and a target-acquisition radius that
/// reaches nothing: the enemy robot appears on schedule, its default zero
/// engine direction drives it nowhere, and the level never leaves the
/// playing state.
#[test]
fn unguided_robot_never_advances_and_nobody_wins() {
    let mut controller = LevelController::new(1);
    controller.on_level_loaded();

    let mut player_portal = Portal::new(Team::Player, Vec2I::new(1000, 0), 0, false);
    let mut enemy_portal = Portal::new(Team::Enemy, Vec2I::new(-1000, 0), 1_000_000, true);
    player_portal.place();
    enemy_portal.place();

    let mut store = RobotStore::new();
    let mut next_id: u64 = 1;
    let dt: u64 = 250_000;

    for tick in 0..40 {
        if let Some(req) = player_portal.tick_spawn(dt) {
            store.spawn_robot(next_id, req.team);
            next_id += 1;
        }
        if let Some(req) = enemy_portal.tick_spawn(dt) {
            store.spawn_robot(next_id, req.team);
            next_id += 1;
        }
        // After the first period elapses, exactly one enemy robot exists.
        if tick == 3 {
            assert_eq!(store.len(), 1);
            let robot = store.get(1).expect("the enemy robot spawned");
            assert_eq!(robot.team, Team::Enemy);
            assert_eq!(robot.engine_dir, Vec2I::new(0, 0));
        }

        // Locomotion: no steering neighbours, no target in radius, no
        // gadget ever assigned a direction — the accumulated force stays
        // below the deadzone and is floored to zero: no advance.
        let candidates: Vec<(u64, u64)> = Vec::new();
        assert_eq!(nearest_target(&candidates), None);
        store.reset_forces();
        store.apply_engine_dirs();
        store.floor_forces();
        for id in 1..next_id {
            let robot = store.get(id).unwrap();
            assert_eq!(robot.force, Vec2I::new(0, 0));
        }

        controller.check_victory(&vec![Team::Player, Team::Enemy]);
        assert_eq!(controller.state, LevelState::Playing);
        assert!(!controller.victory_flag);
        assert!(!controller.defeat_flag);
    }

    // The enemy portal kept spawning on schedule; the player portal never did.
    assert_eq!(store.len(), 10);
}

/// The portal push zone drives exactly the same-team robots that overlap
/// the sensor and still exist.
#[test]
fn portal_push_targets_same_team_live_robots() {
    let mut store = RobotStore::new();
    store.spawn_robot(1, Team::Player);
    store.spawn_robot(2, Team::Enemy);
    store.spawn_robot(3, Team::Player);

    let sensor: u64 = 500;
    let mut cache = CollisionCache::new();
    let events = vec![
        CollisionEvent::Begin(sensor, 1),
        CollisionEvent::Begin(sensor, 2),
        CollisionEvent::Begin(sensor, 3),
        CollisionEvent::Begin(sensor, 4), // despawned long ago
        CollisionEvent::End(sensor, 3),   // left the zone again
    ];
    cache.cache_collisions(&events, &vec![sensor]);

    let mut overlapping = cache.overlaps_of(sensor);
    overlapping.sort();
    let driven = push_targets(&overlapping, &store, Team::Player);
    assert_eq!(driven, vec![1]);
    let driven_enemy = push_targets(&overlapping, &store, Team::Enemy);
    assert_eq!(driven_enemy, vec![2]);
}

/// An arrow placed in a robot's travel path, pointing away from the
/// robot's portal: on the first overlap-begin with the arrow's sensor the
/// robot's engine direction becomes exactly the arrow's direction, and
/// the drive force turns with it.
#[test]
fn arrow_in_the_travel_path_redirects_the_robot() {
    let mut store = RobotStore::new();
    let mut portal = Portal::new(Team::Enemy, Vec2I::new(1000, 0), 1_000_000, true);
    portal.place();
    let req = portal.tick_spawn(1_000_000).expect("spawn fires");
    store.spawn_robot(42, req.team);

    // The portal ejects to the right; the arrow sends its robots upward,
    // away from the portal.
    let arrow = Arrow::new(Team::Enemy, Vec2I::new(0, 1000), GridCoords { x: 5, y: 2 });

    // Before the overlap the robot still follows its spawn default.
    let before = store.get(42).unwrap().engine_dir;
    assert_eq!(before, Vec2I::new(0, 0));

    // First overlap-begin with the arrow's sensor.
    assert!(arrow.trigger(&mut store, 42));
    let after = store.get(42).unwrap().engine_dir;
    assert_eq!(after, Vec2I::new(0, 1000));

    // The redirected drive pushes the robot exactly upward.
    let force = drive_force(Vec2I::new(0, 0), after, false);
    assert_eq!(force, Vec2I::new(0, 100_000));
    assert_eq!(force_floor(force), force);
}

/// The tick's force passes over the whole arena: reset, separation
/// contributions, directional drive, then the deadzone floor — written
/// into each robot's accumulator.
#[test]
fn store_force_passes_accumulate_and_floor() {
    let mut store = RobotStore::new();
    store.spawn_robot(1, Team::Player);
    store.spawn_robot(2, Team::Player);
    let arrow = Arrow::new(Team::Player, Vec2I::new(1000, 0), GridCoords { x: 1, y: 1 });
    assert!(arrow.trigger(&mut store, 1));

    store.reset_forces();
    // A separation contribution from a nearby robot lands on robot 1.
    assert!(store.add_force(1, Vec2I::new(0, 30_000)));
    assert!(!store.add_force(99, Vec2I::new(1, 1)), "a stale id changes nothing");
    store.apply_engine_dirs();
    store.floor_forces();

    // Robot 1: separation plus full drive; robot 2: nothing, floored to zero.
    assert_eq!(store.get(1).unwrap().force, Vec2I::new(100_000, 30_000));
    assert_eq!(store.get(2).unwrap().force, Vec2I::new(0, 0));

    // The next tick starts from zero again.
    store.reset_forces();
    assert_eq!(store.get(1).unwrap().force, Vec2I::new(0, 0));
}
