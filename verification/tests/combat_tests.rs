use robo_swarm::bullet::{
    fire_decision, resolve_bullet_hit, Bullet, CanonCooldown, BULLET_LIFETIME_MICROS,
    CANON_COOLDOWN_MICROS,
};
use robo_swarm::groups::{
    arrow_sensor_groups, defender_sensor_groups, fork_sensor_groups, grouper_sensor_groups,
    pairs_with, portal_groups, portal_sensor_groups, robot_groups, wall_groups,
};
use robo_swarm::hp::{Life, PORTAL_START_HP, ROBOT_START_HP};
use robo_swarm::portal::{Portal, SpawnTimer};
use robo_swarm::team::Team;
use robo_swarm::vec2i::Vec2I;

#[test]
fn opposing_teams() {
    assert_eq!(Team::Player.opposing(), Team::Enemy);
    assert_eq!(Team::Enemy.opposing(), Team::Player);
}

#[test]
fn bullet_hits_only_the_opposing_team() {
    let mut life = Life::new(ROBOT_START_HP);
    assert!(resolve_bullet_hit(Team::Player, Team::Enemy, &mut life));
    assert_eq!(life.curr_hp, ROBOT_START_HP - 1);
    assert!(!resolve_bullet_hit(Team::Enemy, Team::Enemy, &mut life));
    assert_eq!(life.curr_hp, ROBOT_START_HP - 1);
}

#[test]
fn five_hits_deplete_a_robot() {
    let mut life = Life::new(ROBOT_START_HP);
    for i in 0..ROBOT_START_HP {
        assert!(!life.is_depleted(), "still alive after {i} hits");
        resolve_bullet_hit(Team::Enemy, Team::Player, &mut life);
    }
    assert!(life.is_depleted());
}

#[test]
fn portal_takes_fifty_hits() {
    let mut life = Life::new(PORTAL_START_HP);
    for _ in 0..PORTAL_START_HP {
        resolve_bullet_hit(Team::Player, Team::Enemy, &mut life);
    }
    assert!(life.is_depleted());
    assert_eq!(life.curr_hp, 0);
}

#[test]
fn bullet_expires_at_its_lifetime() {
    let mut bullet = Bullet::new(Team::Player);
    assert!(!bullet.tick(BULLET_LIFETIME_MICROS - 1));
    assert!(bullet.tick(1));
    let mut fresh = Bullet::new(Team::Enemy);
    assert!(fresh.tick(BULLET_LIFETIME_MICROS));
}

#[test]
fn firing_needs_cooldown_target_and_aim() {
    assert!(fire_decision(true, true, true));
    assert!(!fire_decision(false, true, true));
    assert!(!fire_decision(true, false, true));
    assert!(!fire_decision(true, true, false));
}

#[test]
fn canon_cooldown_is_primed_then_counts_its_period() {
    let mut cooldown = CanonCooldown::new(CANON_COOLDOWN_MICROS);
    assert!(cooldown.tick(0), "a fresh cannon may fire at once");
    assert!(cooldown.tick(0), "ready holds until the caller restarts it");

    // A fired shot restarts the cooldown with the next jittered period.
    cooldown.restart(CANON_COOLDOWN_MICROS + 300_000);
    assert!(!cooldown.tick(1_000_000));
    assert!(!cooldown.tick(299_999));
    assert!(cooldown.tick(1));

    // A shorter jittered period next time around.
    cooldown.restart(CANON_COOLDOWN_MICROS - 450_000);
    assert!(!cooldown.tick(549_999));
    assert!(cooldown.tick(1));
}

#[test]
fn spawn_timer_disabled_by_zero_rate_never_fires() {
    let mut timer = SpawnTimer::new(1_000_000, false);
    for _ in 0..100 {
        assert!(!timer.tick(1_000_000, true));
    }
}

#[test]
fn spawn_timer_primed_fires_immediately_then_periodically() {
    let mut timer = SpawnTimer::new(1_000_000, true);
    assert!(timer.tick(0, true), "a primed timer fires at the first open tick");
    assert!(!timer.tick(999_999, true));
    assert!(timer.tick(1, true));
}

#[test]
fn spawn_timer_waits_for_placement() {
    let mut timer = SpawnTimer::new(1_000_000, true);
    assert!(!timer.tick(5_000_000, false), "an unplaced portal holds the completed timer");
    assert!(timer.tick(0, true), "it fires as soon as the portal is placed");
}

#[test]
fn portal_spawns_its_team_in_its_direction_once_placed() {
    let dir = Vec2I::new(0, -1000);
    let mut portal = Portal::new(Team::Enemy, dir, 500_000, true);
    assert!(portal.tick_spawn(500_000).is_none(), "not placed yet");
    portal.place();
    let req = portal.tick_spawn(0).expect("primed timer fires at placement");
    assert_eq!(req.team, Team::Enemy);
    assert_eq!(req.dir, dir);
    assert!(portal.tick_spawn(499_999).is_none());
    assert!(portal.tick_spawn(1).is_some());
}

#[test]
fn gadget_sensors_admit_only_their_own_team() {
    for team in [Team::Player, Team::Enemy] {
        let own = robot_groups(team);
        let other = robot_groups(team.opposing());
        for sensor in [
            arrow_sensor_groups(team),
            fork_sensor_groups(team),
            grouper_sensor_groups(team),
            defender_sensor_groups(team),
            portal_sensor_groups(team),
        ] {
            assert!(pairs_with(sensor, own), "a sensor must admit its own team's robots");
            assert!(!pairs_with(sensor, other), "a sensor must ignore the opposing robots");
        }
    }
}

#[test]
fn portals_are_seen_by_the_opposing_side_only() {
    for team in [Team::Player, Team::Enemy] {
        let portal = portal_groups(team);
        assert!(pairs_with(portal, robot_groups(team.opposing())));
        assert!(!pairs_with(portal, robot_groups(team)));
    }
}

#[test]
fn walls_block_both_robot_classes() {
    let wall = wall_groups();
    assert!(pairs_with(wall, robot_groups(Team::Player)));
    assert!(pairs_with(wall, robot_groups(Team::Enemy)));
}
