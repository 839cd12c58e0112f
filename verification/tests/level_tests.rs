use robo_swarm::level::{evaluate_outcome, LevelController, LevelOutcome, LevelState};
use robo_swarm::team::Team;

fn playing_controller() -> LevelController {
    let mut c = LevelController::new(3);
    c.on_level_loaded();
    assert_eq!(c.state, LevelState::Playing);
    c
}

#[test]
fn outcome_ongoing_while_both_sides_hold_portals() {
    assert_eq!(evaluate_outcome(&vec![Team::Player, Team::Enemy]), LevelOutcome::Ongoing);
}

#[test]
fn outcome_victory_with_no_enemy_portal() {
    assert_eq!(evaluate_outcome(&vec![Team::Player]), LevelOutcome::Victory);
    assert_eq!(evaluate_outcome(&vec![Team::Player, Team::Player]), LevelOutcome::Victory);
}

#[test]
fn outcome_defeat_with_no_player_portal() {
    assert_eq!(evaluate_outcome(&vec![Team::Enemy]), LevelOutcome::Defeat);
    assert_eq!(evaluate_outcome(&vec![Team::Enemy, Team::Enemy]), LevelOutcome::Defeat);
    // No portals at all also reads as defeat: the player holds nothing.
    assert_eq!(evaluate_outcome(&Vec::new()), LevelOutcome::Defeat);
}

#[test]
fn victory_transitions_exactly_once_per_cycle() {
    let mut c = playing_controller();
    let won = vec![Team::Player];
    c.check_victory(&won);
    assert_eq!(c.state, LevelState::Win);
    assert!(c.victory_flag);
    assert_eq!(c.max_attainable_level, 1);

    // Further evaluations change nothing, whatever the portals say now.
    let snapshot = c;
    c.check_victory(&won);
    c.check_victory(&vec![Team::Enemy]);
    assert_eq!(c, snapshot);
}

#[test]
fn defeat_transition_regardless_of_enemy_count() {
    let mut c = playing_controller();
    c.check_victory(&vec![Team::Enemy, Team::Enemy, Team::Enemy]);
    assert_eq!(c.state, LevelState::Loss);
    assert!(c.defeat_flag);
    assert!(!c.victory_flag);
    assert_eq!(c.max_attainable_level, 0);
}

#[test]
fn ongoing_portals_leave_the_controller_alone() {
    let mut c = playing_controller();
    c.check_victory(&vec![Team::Player, Team::Enemy]);
    assert_eq!(c.state, LevelState::Playing);
    assert!(!c.victory_flag);
    assert!(!c.defeat_flag);
}

#[test]
fn reset_rearms_the_evaluation() {
    let mut c = playing_controller();
    c.check_victory(&vec![Team::Player]);
    assert!(c.victory_flag);
    c.reset();
    assert_eq!(c.state, LevelState::WaitingLevelSpawn);
    assert!(!c.victory_flag);
    assert!(!c.defeat_flag);
    c.on_level_loaded();
    c.check_victory(&vec![Team::Enemy]);
    assert_eq!(c.state, LevelState::Loss);
}

#[test]
fn evaluation_runs_only_while_playing() {
    let mut c = LevelController::new(3);
    assert_eq!(c.state, LevelState::WaitingLevelSpawn);
    c.check_victory(&vec![Team::Player]);
    assert_eq!(c.state, LevelState::WaitingLevelSpawn);
    assert!(!c.victory_flag);
}

#[test]
fn level_progression_follows_the_watermark() {
    let mut c = LevelController::new(3);
    assert!(!c.can_go_next());
    assert!(!c.can_go_prev());
    assert!(!c.change_level_next());

    // Winning the first level unlocks the second.
    c.on_level_loaded();
    c.check_victory(&vec![Team::Player]);
    assert_eq!(c.max_attainable_level, 1);
    assert!(c.can_go_next());
    assert!(c.change_level_next());
    assert_eq!(c.level_index, 1);

    // The third level is not unlocked yet.
    assert!(!c.can_go_next());
    assert!(c.can_go_prev());
    assert!(c.change_level_prev());
    assert_eq!(c.level_index, 0);
}

#[test]
fn replaying_an_earlier_level_never_lowers_the_watermark() {
    let mut c = LevelController::new(8);
    c.max_attainable_level = 5;
    c.level_index = 0;
    c.on_level_loaded();
    // Winning the first level again leaves the higher watermark standing.
    c.check_victory(&vec![Team::Player]);
    assert_eq!(c.state, LevelState::Win);
    assert_eq!(c.max_attainable_level, 5);

    // Winning at the watermark's edge raises it by one.
    c.reset();
    c.level_index = 5;
    c.on_level_loaded();
    c.check_victory(&vec![Team::Player]);
    assert_eq!(c.max_attainable_level, 6);
}

#[test]
fn last_level_has_no_next() {
    let mut c = LevelController::new(1);
    c.on_level_loaded();
    c.check_victory(&vec![Team::Player]);
    assert_eq!(c.max_attainable_level, 1);
    // index + 1 reaches the level count: nothing further to go to.
    assert!(!c.can_go_next());
}
