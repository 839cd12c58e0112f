//! The level session controller: win/loss evaluation, level progression
//! and reset.
//!
//! Portals are the objectives.  While a level is actively playing, the
//! controller counts live portals by team each tick: zero player portals
//! mean defeat, whatever the enemy still holds; zero enemy portals with
//! at least one player portal mean victory and raise the progression
//! watermark.  Either transition happens at most once per level-reset
//! cycle — once flagged, evaluation is a no-op until a reset clears the
//! flags.

use vstd::prelude::*;

verus! {

use crate::team::Team;

/// What one evaluation of the live portals says.
#[derive(Clone, Copy, PartialEq, Eq, Structural, Debug)]
pub enum LevelOutcome {
    Victory,
    Defeat,
    Ongoing,
}

/// The lifecycle of the loaded level.
#[derive(Clone, Copy, PartialEq, Eq, Structural, Debug)]
pub enum LevelState {
    WaitingLevelSpawn,
    Playing,
    Win,
    Loss,
}

/// How many portals of the given team a team list holds.
pub open spec fn spec_count_team(teams: Seq<Team>, t: Team) -> nat
    decreases teams.len(),
{
    if teams.len() == 0 {
        0
    } else {
        spec_count_team(teams.drop_last(), t) + if teams.last() == t {
            1nat
        } else {
            0nat
        }
    }
}

/// The win/loss rule over live portal teams: no player portal left is
/// defeat (whatever the enemy holds); otherwise no enemy portal left is
/// victory; otherwise the level goes on.
pub open spec fn spec_evaluate(teams: Seq<Team>) -> LevelOutcome {
    if spec_count_team(teams, Team::Player) == 0 {
        LevelOutcome::Defeat
    } else if spec_count_team(teams, Team::Enemy) == 0 {
        LevelOutcome::Victory
    } else {
        LevelOutcome::Ongoing
    }
}

/// Count live portals by team and apply the win/loss rule.
pub fn evaluate_outcome(portal_teams: &Vec<Team>) -> (r: LevelOutcome)
    ensures
        r == spec_evaluate(portal_teams@),
{
    let mut players: usize = 0;
    let mut enemies: usize = 0;
    let mut i: usize = 0;
    while i < portal_teams.len()
        invariant
            i <= portal_teams@.len(),
            players == spec_count_team(portal_teams@.take(i as int), Team::Player),
            enemies == spec_count_team(portal_teams@.take(i as int), Team::Enemy),
            players <= i,
            enemies <= i,
        decreases portal_teams@.len() - i,
    {
        proof {
            assert(portal_teams@.take(i as int + 1).drop_last() =~= portal_teams@.take(i as int));
        }
        match portal_teams[i] {
            Team::Player => {
                players = players + 1;
            },
            Team::Enemy => {
                enemies = enemies + 1;
            },
        }
        i += 1;
    }
    proof {
        assert(portal_teams@.take(portal_teams@.len() as int) =~= portal_teams@);
    }
    if players == 0 {
        LevelOutcome::Defeat
    } else if enemies == 0 {
        LevelOutcome::Victory
    } else {
        LevelOutcome::Ongoing
    }
}

/// The session controller: level selection, the progression watermark,
/// and the per-level victory/defeat flags.
#[derive(Clone, Copy, PartialEq, Eq, Structural, Debug)]
pub struct LevelController {
    pub state: LevelState,
    pub level_index: usize,
    pub level_count: usize,
    pub max_attainable_level: usize,
    pub victory_flag: bool,
    pub defeat_flag: bool,
}

/// The watermark after a victory on the given level: raised to unlock the
/// following level, and never lowered — winning a replayed earlier level
/// leaves a higher watermark standing.
pub open spec fn spec_raised_watermark(watermark: usize, level_index: usize) -> usize {
    if watermark >= level_index + 1 {
        watermark
    } else {
        (level_index + 1) as usize
    }
}

/// Where one evaluation takes the controller.  Evaluation runs only in the
/// actively-playing state with neither flag set; a victory raises the
/// progression watermark to unlock the next level.
pub open spec fn spec_check_step(c: LevelController, teams: Seq<Team>) -> LevelController {
    if c.state != LevelState::Playing || c.victory_flag || c.defeat_flag {
        c
    } else {
        match spec_evaluate(teams) {
            LevelOutcome::Defeat => LevelController {
                state: LevelState::Loss,
                defeat_flag: true,
                ..c
            },
            LevelOutcome::Victory => LevelController {
                state: LevelState::Win,
                victory_flag: true,
                max_attainable_level: spec_raised_watermark(c.max_attainable_level, c.level_index),
                ..c
            },
            LevelOutcome::Ongoing => c,
        }
    }
}

impl LevelController {
    /// A fresh session: first level, nothing unlocked, no level loaded.
    pub fn new(level_count: usize) -> (r: LevelController)
        ensures
            r == (LevelController {
                state: LevelState::WaitingLevelSpawn,
                level_index: 0,
                level_count,
                max_attainable_level: 0,
                victory_flag: false,
                defeat_flag: false,
            }),
    {
        LevelController {
            state: LevelState::WaitingLevelSpawn,
            level_index: 0,
            level_count,
            max_attainable_level: 0,
            victory_flag: false,
            defeat_flag: false,
        }
    }

    /// The level finished loading: play begins.
    pub fn on_level_loaded(&mut self)
        ensures
            *final(self) == (LevelController { state: LevelState::Playing, ..*old(self) }),
    {
        self.state = LevelState::Playing;
    }

    /// The per-tick win/loss evaluation over the live portals' teams.
    pub fn check_victory(&mut self, portal_teams: &Vec<Team>)
        requires
            old(self).level_index < usize::MAX,
        ensures
            *final(self) == spec_check_step(*old(self), portal_teams@),
    {
        if !matches!(self.state, LevelState::Playing) || self.victory_flag || self.defeat_flag {
            return ;
        }
        match evaluate_outcome(portal_teams) {
            LevelOutcome::Defeat => {
                self.state = LevelState::Loss;
                self.defeat_flag = true;
            },
            LevelOutcome::Victory => {
                self.state = LevelState::Win;
                self.victory_flag = true;
                if self.max_attainable_level < self.level_index + 1 {
                    self.max_attainable_level = self.level_index + 1;
                }
            },
            LevelOutcome::Ongoing => {},
        }
    }

    /// An external reset request: both flags clear and the level respawns,
    /// so evaluation is armed again.
    pub fn reset(&mut self)
        ensures
            *final(self) == (LevelController {
                state: LevelState::WaitingLevelSpawn,
                victory_flag: false,
                defeat_flag: false,
                ..*old(self)
            }),
    {
        self.state = LevelState::WaitingLevelSpawn;
        self.victory_flag = false;
        self.defeat_flag = false;
    }

    /// Whether the next-level button is enabled: another level exists and
    /// the player has unlocked it.
    pub fn can_go_next(&self) -> (r: bool)
        ensures
            r == (self.level_index + 1 < self.level_count && self.level_index
                < self.max_attainable_level),
    {
        self.level_index < usize::MAX && self.level_index + 1 < self.level_count
            && self.level_index < self.max_attainable_level
    }

    /// Whether the previous-level button is enabled: not on the first
    /// level.
    pub fn can_go_prev(&self) -> (r: bool)
        ensures
            r == (self.level_index > 0),
    {
        self.level_index > 0
    }

    /// Step to the next level when unlocked; refused otherwise.
    pub fn change_level_next(&mut self) -> (r: bool)
        ensures
            r == (old(self).level_index + 1 < old(self).level_count && old(self).level_index < old(
                self,
            ).max_attainable_level),
            r ==> *final(self) == (LevelController {
                level_index: (old(self).level_index + 1) as usize,
                ..*old(self)
            }),
            !r ==> *final(self) == *old(self),
    {
        if self.can_go_next() {
            self.level_index = self.level_index + 1;
            true
        } else {
            false
        }
    }

    /// Step to the previous level when one exists; refused otherwise.
    pub fn change_level_prev(&mut self) -> (r: bool)
        ensures
            r == (old(self).level_index > 0),
            r ==> *final(self) == (LevelController {
                level_index: (old(self).level_index - 1) as usize,
                ..*old(self)
            }),
            !r ==> *final(self) == *old(self),
    {
        if self.can_go_prev() {
            self.level_index = self.level_index - 1;
            true
        } else {
            false
        }
    }
}

/// The win condition fires exactly once per level-reset cycle: with the
/// level playing and neither flag set, portals with no enemy and at least
/// one player entry flag victory, move the state to `Win` and raise the
/// watermark to unlock the level after this one — and from then on every
/// further evaluation, over any portals whatever, changes nothing until a
/// reset.
pub proof fn lemma_victory_exactly_once(c: LevelController, teams: Seq<Team>, later: Seq<Team>)
    requires
        c.state == LevelState::Playing,
        !c.victory_flag,
        !c.defeat_flag,
        c.level_index < usize::MAX,
        spec_count_team(teams, Team::Enemy) == 0,
        spec_count_team(teams, Team::Player) >= 1,
    ensures
        ({
            let c1 = spec_check_step(c, teams);
            c1.state == LevelState::Win && c1.victory_flag && c1.max_attainable_level
                >= c.level_index + 1 && c1.max_attainable_level == spec_raised_watermark(
                c.max_attainable_level,
                c.level_index,
            ) && spec_check_step(c1, later) == c1
        }),
{
}

/// The progression watermark never goes down: whatever the portals say,
/// one evaluation leaves `max_attainable_level` at least where it was —
/// winning a replayed earlier level cannot lock an unlocked level again.
pub proof fn lemma_watermark_never_decreases(c: LevelController, teams: Seq<Team>)
    requires
        c.level_index < usize::MAX,
    ensures
        spec_check_step(c, teams).max_attainable_level >= c.max_attainable_level,
{
}

/// The loss condition: with the level playing and neither flag set,
/// portals with no player entry — whatever the enemy count — flag defeat
/// and move the state to `Loss`, and further evaluation changes nothing
/// until a reset.
pub proof fn lemma_defeat_on_no_player_portal(
    c: LevelController,
    teams: Seq<Team>,
    later: Seq<Team>,
)
    requires
        c.state == LevelState::Playing,
        !c.victory_flag,
        !c.defeat_flag,
        spec_count_team(teams, Team::Player) == 0,
    ensures
        ({
            let c1 = spec_check_step(c, teams);
            c1.state == LevelState::Loss && c1.defeat_flag && spec_check_step(c1, later) == c1
        }),
{
}

} // verus!
