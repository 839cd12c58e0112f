//! Portals: stationary spawners and destruction objectives.
//!
//! Each portal ticks its own spawn timer and, once placed in the world,
//! emits a spawn request for a robot of its team in its ejection direction
//! every time the timer completes.  A spawn rate of zero disables the
//! timer entirely.  The timer starts primed, so a placed portal spawns
//! its first robot at the first tick.

use vstd::prelude::*;

verus! {

use crate::team::Team;
use crate::vec2i::Vec2I;
use crate::hp::{Life, PORTAL_START_HP};
use crate::robot::RobotStore;

/// A repeating countdown in integer microseconds.  `enabled == false`
/// models a zero spawn rate: such a timer never fires.
#[derive(Clone, Copy, PartialEq, Eq, Structural, Debug)]
pub struct SpawnTimer {
    pub period_micros: u64,
    pub elapsed_micros: u64,
    pub enabled: bool,
}

impl SpawnTimer {
    /// The elapsed time never runs past the period.
    pub open spec fn wf(self) -> bool {
        self.elapsed_micros <= self.period_micros
    }

    /// A fresh timer is primed: it fires at the first released tick.
    pub fn new(period_micros: u64, enabled: bool) -> (r: SpawnTimer)
        ensures
            r.wf(),
            r.period_micros == period_micros,
            r.elapsed_micros == period_micros,
            r.enabled == enabled,
    {
        SpawnTimer { period_micros, elapsed_micros: period_micros, enabled }
    }

    /// Advance the timer by `dt` microseconds.  It fires — and restarts —
    /// exactly when it is enabled, the hold is released, and the period
    /// has elapsed; while held, a completed timer stays primed and fires
    /// as soon as the hold is released.
    pub fn tick(&mut self, dt: u64, released: bool) -> (fired: bool)
        requires
            old(self).wf(),
        ensures
            final(self).wf(),
            final(self).period_micros == old(self).period_micros,
            final(self).enabled == old(self).enabled,
            fired == (old(self).enabled && released && old(self).elapsed_micros + dt >= old(
                self,
            ).period_micros),
            final(self).elapsed_micros == if fired {
                0u64
            } else if old(self).elapsed_micros + dt >= old(self).period_micros {
                old(self).period_micros
            } else {
                (old(self).elapsed_micros + dt) as u64
            },
    {
        let completed = dt >= self.period_micros - self.elapsed_micros;
        if completed {
            self.elapsed_micros = self.period_micros;
        } else {
            self.elapsed_micros = self.elapsed_micros + dt;
        }
        if self.enabled && released && completed {
            self.elapsed_micros = 0;
            true
        } else {
            false
        }
    }
}

/// A portal: team-owned spawner with an ejection direction, a spawn
/// timer, an explicit placement flag (it spawns nothing until the level
/// places it), and hit points making it a destruction objective.
#[derive(Clone, Copy, Debug)]
pub struct Portal {
    pub team: Team,
    pub dir: Vec2I,
    pub timer: SpawnTimer,
    pub placed: bool,
    pub life: Life,
}

/// A request to the robot arena: spawn one robot of this team, ejected in
/// this direction from the portal's position.
#[derive(Clone, Copy, Debug)]
pub struct SpawnRequest {
    pub team: Team,
    pub dir: Vec2I,
}

impl Portal {
    /// A freshly loaded portal: full hit points, primed timer, not yet
    /// placed.  `period_micros` comes from the level's spawn-rate field;
    /// `enabled` is false when that rate is zero.
    pub fn new(team: Team, dir: Vec2I, period_micros: u64, enabled: bool) -> (r: Portal)
        ensures
            r.timer.wf(),
            r.team == team,
            r.dir == dir,
            r.timer.period_micros == period_micros,
            r.timer.elapsed_micros == period_micros,
            r.timer.enabled == enabled,
            !r.placed,
            r.life == (Life { max_hp: PORTAL_START_HP, curr_hp: PORTAL_START_HP }),
    {
        Portal {
            team,
            dir,
            timer: SpawnTimer::new(period_micros, enabled),
            placed: false,
            life: Life::new(PORTAL_START_HP),
        }
    }

    /// The level placed the portal into the world; spawning is unlocked.
    pub fn place(&mut self)
        ensures
            *final(self) == (Portal { placed: true, ..*old(self) }),
    {
        self.placed = true;
    }

    /// One spawn tick: when the timer fires — enabled, placed, period
    /// elapsed — the portal requests one robot of its team in its
    /// ejection direction and the timer restarts.  When nothing fires the
    /// timer is not reset: a completed timer held by a missing placement
    /// stays primed, so the portal spawns the moment it is placed.
    pub fn tick_spawn(&mut self, dt: u64) -> (r: Option<SpawnRequest>)
        requires
            old(self).timer.wf(),
        ensures
            final(self).timer.wf(),
            final(self).team == old(self).team,
            final(self).dir == old(self).dir,
            final(self).placed == old(self).placed,
            final(self).life == old(self).life,
            final(self).timer.period_micros == old(self).timer.period_micros,
            final(self).timer.enabled == old(self).timer.enabled,
            r == if old(self).timer.enabled && old(self).placed && old(self).timer.elapsed_micros
                + dt >= old(self).timer.period_micros {
                Some(SpawnRequest { team: old(self).team, dir: old(self).dir })
            } else {
                None::<SpawnRequest>
            },
            final(self).timer.elapsed_micros == if r.is_some() {
                0u64
            } else if old(self).timer.elapsed_micros + dt >= old(self).timer.period_micros {
                old(self).timer.period_micros
            } else {
                (old(self).timer.elapsed_micros + dt) as u64
            },
    {
        let fired = self.timer.tick(dt, self.placed);
        if fired {
            Some(SpawnRequest { team: self.team, dir: self.dir })
        } else {
            None
        }
    }
}

/// The robots of a push-sensor overlap list that the portal drives: those
/// that still exist in the arena and are of the portal's team, in list
/// order.
pub open spec fn spec_push_targets(overlapping: Seq<u64>, store: RobotStore, team: Team) -> Seq<
    u64,
>
    decreases overlapping.len(),
{
    if overlapping.len() == 0 {
        Seq::empty()
    } else {
        let rest = spec_push_targets(overlapping.drop_last(), store, team);
        if store.spec_contains(overlapping.last()) && store.spec_robot(overlapping.last()).team
            == team {
            rest.push(overlapping.last())
        } else {
            rest
        }
    }
}

/// Select the robots a portal's push sensor drives this tick: of the
/// entities overlapping the sensor, those still in the arena and of the
/// portal's team.  Each selected robot receives the continuous outward
/// push (with its lateral jitter) from the physics side for as long as it
/// stays in the zone.
pub fn push_targets(overlapping: &Vec<u64>, store: &RobotStore, team: Team) -> (r: Vec<u64>)
    requires
        store.wf(),
    ensures
        r@ == spec_push_targets(overlapping@, *store, team),
{
    let mut r: Vec<u64> = Vec::new();
    let mut i: usize = 0;
    while i < overlapping.len()
        invariant
            store.wf(),
            i <= overlapping@.len(),
            r@ == spec_push_targets(overlapping@.take(i as int), *store, team),
        decreases overlapping@.len() - i,
    {
        proof {
            assert(overlapping@.take(i as int + 1).drop_last() =~= overlapping@.take(i as int));
        }
        let id = overlapping[i];
        match store.get(id) {
            Some(robot) => {
                if robot.team == team {
                    r.push(id);
                }
            },
            None => {},
        }
        i += 1;
    }
    proof {
        assert(overlapping@.take(overlapping@.len() as int) =~= overlapping@);
    }
    r
}

} // verus!
