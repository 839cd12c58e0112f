//! Robots: the mobile agents, their per-tick locomotion force pipeline,
//! their target acquisition, and the arena that owns them.
//!
//! Robots are stored in an arena keyed by stable integer ids; gadget
//! triggers, combat and the death sweep all address them by id, and a
//! missing id is treated as a stale weak reference, never a fault.

use vstd::prelude::*;

verus! {

use crate::team::Team;
use crate::vec2i::{Vec2I, in_bounds, DIR_SCALE};
use crate::hp::{Life, ROBOT_START_HP};

/// Engine directions stay within a few direction units of length; the
/// bound keeps the scaled drive force inside the working vector range.
pub const DIR_LIMIT: i64 = 10_000;

/// Whether a vector is small enough to serve as an engine direction.
pub open spec fn dir_in_bounds(v: Vec2I) -> bool {
    -DIR_LIMIT <= v.x <= DIR_LIMIT && -DIR_LIMIT <= v.y <= DIR_LIMIT
}

/// Force contributed per fixed-point direction unit when the engine drives:
/// a unit-length direction (components of size [`DIR_SCALE`]) yields the
/// original drive strength of `100000` force units.
pub const ENGINE_FORCE_PER_DIR_UNIT: i64 = 100;

/// Accumulated forces with magnitude below this are zeroed at the end of a
/// tick — a deadzone against jitter from near-zero rounding.
pub const FORCE_DEADZONE: i64 = 25000;

/// A stored target further away than this many world units is dropped.
pub const TARGET_DROP_DISTANCE: u64 = 200;

/// One mobile agent.  `engine_dir` is the travel direction the most recent
/// gadget interaction assigned (zero until any does); `target` is a weak
/// reference to the opposing entity the robot currently fires at; `force`
/// is the external-force accumulator the physics collaborator integrates.
#[derive(Clone, Copy, Debug)]
pub struct Robot {
    pub team: Team,
    pub engine_dir: Vec2I,
    pub life: Life,
    pub target: Option<u64>,
    pub force: Vec2I,
    pub dead: bool,
}

/// An arena slot: a robot under its stable id.
#[derive(Clone, Copy, Debug)]
pub struct RobotEntry {
    pub id: u64,
    pub robot: Robot,
}

/// The arena of live robots, keyed by stable integer ids.
pub struct RobotStore {
    pub entries: Vec<RobotEntry>,
}

impl RobotStore {
    /// Structural invariant: ids are unique.
    pub open spec fn wf(self) -> bool {
        forall|i: int, j: int|
            0 <= i < j < self.entries@.len() ==> self.entries@[i].id != self.entries@[j].id
    }

    pub open spec fn spec_contains(self, id: u64) -> bool {
        exists|i: int| 0 <= i < self.entries@.len() && self.entries@[i].id == id
    }

    pub open spec fn spec_index_of(self, id: u64) -> int {
        choose|i: int| 0 <= i < self.entries@.len() && self.entries@[i].id == id
    }

    pub open spec fn spec_robot(self, id: u64) -> Robot {
        self.entries@[self.spec_index_of(id)].robot
    }

    pub open spec fn spec_ids(self) -> Seq<u64> {
        self.entries@.map_values(|e: RobotEntry| e.id)
    }

    pub fn new() -> (r: RobotStore)
        ensures
            r.wf(),
            r.entries@.len() == 0,
            forall|id: u64| !r.spec_contains(id),
    {
        RobotStore { entries: Vec::new() }
    }

    pub fn len(&self) -> (r: usize)
        ensures
            r == self.entries@.len(),
    {
        self.entries.len()
    }

    fn find(&self, id: u64) -> (r: Option<usize>)
        requires
            self.wf(),
        ensures
            match r {
                Some(i) => i < self.entries@.len() && self.entries@[i as int].id == id
                    && self.spec_index_of(id) == i as int,
                None => !self.spec_contains(id),
            },
    {
        let mut i: usize = 0;
        while i < self.entries.len()
            invariant
                self.wf(),
                i <= self.entries@.len(),
                forall|j: int| 0 <= j < i ==> self.entries@[j].id != id,
            decreases self.entries@.len() - i,
        {
            if self.entries[i].id == id {
                proof {
                    let w = self.spec_index_of(id);
                    assert(self.entries@[i as int].id == id);
                    assert(0 <= w < self.entries@.len() && self.entries@[w].id == id);
                    assert(w == i as int);
                }
                return Some(i);
            }
            i += 1;
        }
        None
    }

    pub fn contains(&self, id: u64) -> (r: bool)
        requires
            self.wf(),
        ensures
            r == self.spec_contains(id),
    {
        self.find(id).is_some()
    }

    /// Try to read a robot; a missing id yields `None` (a stale weak
    /// reference is dropped, never a fault).
    pub fn get(&self, id: u64) -> (r: Option<Robot>)
        requires
            self.wf(),
        ensures
            r == if self.spec_contains(id) {
                Some(self.spec_robot(id))
            } else {
                None::<Robot>
            },
    {
        match self.find(id) {
            Some(i) => Some(self.entries[i].robot),
            None => None,
        }
    }

    /// A portal's spawn event creates a robot: full hit points, no target,
    /// zero engine direction and zero accumulated force.
    pub fn spawn_robot(&mut self, id: u64, team: Team)
        requires
            old(self).wf(),
            !old(self).spec_contains(id),
        ensures
            final(self).wf(),
            final(self).entries@ == old(self).entries@.push(
                RobotEntry {
                    id,
                    robot: Robot {
                        team,
                        engine_dir: Vec2I::spec_zero(),
                        life: Life { max_hp: ROBOT_START_HP, curr_hp: ROBOT_START_HP },
                        target: None,
                        force: Vec2I::spec_zero(),
                        dead: false,
                    },
                },
            ),
    {
        let robot = Robot {
            team,
            engine_dir: Vec2I::zero(),
            life: Life::new(ROBOT_START_HP),
            target: None,
            force: Vec2I::zero(),
            dead: false,
        };
        self.entries.push(RobotEntry { id, robot });
    }

    /// Assign a robot's engine direction, as a triggered gadget does.
    /// Reports whether the robot still exists.
    pub fn set_engine_dir(&mut self, id: u64, dir: Vec2I) -> (found: bool)
        requires
            old(self).wf(),
        ensures
            final(self).wf(),
            found == old(self).spec_contains(id),
            final(self).entries@.len() == old(self).entries@.len(),
            forall|i: int|
                0 <= i < old(self).entries@.len() && old(self).entries@[i].id != id ==> final(self).entries@[i] == old(self).entries@[i],
            forall|i: int|
                0 <= i < old(self).entries@.len() && old(self).entries@[i].id == id ==> final(self).entries@[i] == (RobotEntry {
                    id,
                    robot: Robot { engine_dir: dir, ..old(self).entries@[i].robot },
                }),
    {
        match self.find(id) {
            Some(i) => {
                let entry = &mut self.entries[i];
                entry.robot.engine_dir = dir;
                true
            },
            None => false,
        }
    }

    /// Assign one direction to every listed robot that still exists, as a
    /// grouper's batch release or a defender's pop does.  Robots not listed
    /// keep their state; listed ids that no longer resolve are skipped.
    pub fn assign_dir_to_all(&mut self, ids: &Vec<u64>, dir: Vec2I)
        requires
            old(self).wf(),
        ensures
            final(self).wf(),
            final(self).entries@.len() == old(self).entries@.len(),
            forall|i: int|
                0 <= i < old(self).entries@.len() && !ids@.contains(old(self).entries@[i].id)
                    ==> final(self).entries@[i] == old(self).entries@[i],
            forall|i: int|
                0 <= i < old(self).entries@.len() && ids@.contains(old(self).entries@[i].id)
                    ==> final(self).entries@[i] == (RobotEntry {
                    id: old(self).entries@[i].id,
                    robot: Robot { engine_dir: dir, ..old(self).entries@[i].robot },
                }),
    {
        let ghost pre = *self;
        let mut k: usize = 0;
        while k < ids.len()
            invariant
                k <= ids@.len(),
                self.wf(),
                self.entries@.len() == pre.entries@.len(),
                forall|i: int|
                    0 <= i < pre.entries@.len() && !ids@.take(k as int).contains(
                        pre.entries@[i].id,
                    ) ==> self.entries@[i] == pre.entries@[i],
                forall|i: int|
                    0 <= i < pre.entries@.len() && ids@.take(k as int).contains(pre.entries@[i].id)
                        ==> self.entries@[i] == (RobotEntry {
                        id: pre.entries@[i].id,
                        robot: Robot { engine_dir: dir, ..pre.entries@[i].robot },
                    }),
                forall|i: int|
                    0 <= i < pre.entries@.len() ==> #[trigger] self.entries@[i].id
                        == pre.entries@[i].id,
            decreases ids@.len() - k,
        {
            let ghost mid = *self;
            self.set_engine_dir(ids[k], dir);
            proof {
                assert(ids@.take(k as int + 1) =~= ids@.take(k as int).push(ids@[k as int]));
                assert forall|i: int|
                    0 <= i < pre.entries@.len() && ids@.take(k as int + 1).contains(
                        pre.entries@[i].id,
                    ) implies self.entries@[i] == (RobotEntry {
                    id: pre.entries@[i].id,
                    robot: Robot { engine_dir: dir, ..pre.entries@[i].robot },
                }) by {
                    broadcast use vstd::seq_lib::lemma_seq_contains_after_push;

                    if pre.entries@[i].id == ids@[k as int] {
                        assert(mid.entries@[i].id == ids@[k as int]);
                    } else {
                        assert(ids@.take(k as int).contains(pre.entries@[i].id));
                        assert(self.entries@[i] == mid.entries@[i]);
                    }
                }
                assert forall|i: int|
                    0 <= i < pre.entries@.len() && !ids@.take(k as int + 1).contains(
                        pre.entries@[i].id,
                    ) implies self.entries@[i] == pre.entries@[i] by {
                    broadcast use vstd::seq_lib::lemma_seq_contains_after_push;

                    assert(!ids@.take(k as int).contains(pre.entries@[i].id));
                    assert(mid.entries@[i] == pre.entries@[i]);
                    assert(mid.entries@[i].id != ids@[k as int]);
                }
            }
            k += 1;
        }
        proof {
            assert(ids@.take(ids@.len() as int) =~= ids@);
        }
    }

    /// Store the outcome of a robot's target acquisition: the nearest
    /// opposing entity in range, or nothing.  A present target suppresses
    /// the robot's directional drive — it stands and fires instead.
    /// Reports whether the robot still exists.
    pub fn set_target(&mut self, id: u64, target: Option<u64>) -> (found: bool)
        requires
            old(self).wf(),
        ensures
            final(self).wf(),
            found == old(self).spec_contains(id),
            final(self).entries@.len() == old(self).entries@.len(),
            forall|i: int|
                0 <= i < old(self).entries@.len() && old(self).entries@[i].id != id ==> final(self).entries@[i] == old(self).entries@[i],
            forall|i: int|
                0 <= i < old(self).entries@.len() && old(self).entries@[i].id == id ==> final(self).entries@[i] == (RobotEntry {
                    id,
                    robot: Robot { target, ..old(self).entries@[i].robot },
                }),
    {
        match self.find(id) {
            Some(i) => {
                let entry = &mut self.entries[i];
                entry.robot.target = target;
                true
            },
            None => false,
        }
    }

    /// The start-of-tick pass: every robot's accumulated external force
    /// is cleared before any of this tick's contributions arrive.
    pub fn reset_forces(&mut self)
        requires
            old(self).wf(),
        ensures
            final(self).wf(),
            final(self).entries@.len() == old(self).entries@.len(),
            forall|i: int|
                0 <= i < old(self).entries@.len() ==> final(self).entries@[i] == (RobotEntry {
                    id: old(self).entries@[i].id,
                    robot: Robot { force: Vec2I::spec_zero(), ..old(self).entries@[i].robot },
                }),
    {
        let ghost pre = *self;
        let n = self.entries.len();
        let mut i: usize = 0;
        while i < n
            invariant
                i <= n,
                n == pre.entries@.len(),
                self.entries@.len() == pre.entries@.len(),
                forall|j: int| i <= j < n ==> self.entries@[j] == pre.entries@[j],
                forall|j: int|
                    0 <= j < i ==> self.entries@[j] == (RobotEntry {
                        id: pre.entries@[j].id,
                        robot: Robot { force: Vec2I::spec_zero(), ..pre.entries@[j].robot },
                    }),
            decreases n - i,
        {
            let entry = &mut self.entries[i];
            entry.robot.force = Vec2I::zero();
            i += 1;
        }
    }

    /// One separation or push contribution lands on a robot's force
    /// accumulator; the physics collaborator computes its magnitude, the
    /// arena records the sum.  Reports whether the robot still exists.
    pub fn add_force(&mut self, id: u64, contribution: Vec2I) -> (found: bool)
        requires
            old(self).wf(),
            in_bounds(contribution),
            old(self).spec_contains(id) ==> in_bounds(old(self).spec_robot(id).force),
        ensures
            final(self).wf(),
            found == old(self).spec_contains(id),
            final(self).entries@.len() == old(self).entries@.len(),
            forall|i: int|
                0 <= i < old(self).entries@.len() && old(self).entries@[i].id != id ==> final(self).entries@[i] == old(self).entries@[i],
            forall|i: int|
                0 <= i < old(self).entries@.len() && old(self).entries@[i].id == id ==> final(self).entries@[i] == (RobotEntry {
                    id,
                    robot: Robot {
                        force: Vec2I {
                            x: (old(self).entries@[i].robot.force.x + contribution.x) as i64,
                            y: (old(self).entries@[i].robot.force.y + contribution.y) as i64,
                        },
                        ..old(self).entries@[i].robot
                    },
                }),
    {
        match self.find(id) {
            Some(i) => {
                proof {
                    assert forall|j: int|
                        0 <= j < old(self).entries@.len() && old(self).entries@[j].id
                            == id implies old(self).entries@[j].robot == old(self).spec_robot(
                        id,
                    ) by {
                        let w = old(self).spec_index_of(id);
                        assert(0 <= w < old(self).entries@.len() && old(self).entries@[w].id
                            == id);
                        assert(w == j);
                    }
                }
                let summed = self.entries[i].robot.force.add(contribution);
                let entry = &mut self.entries[i];
                entry.robot.force = summed;
                true
            },
            None => false,
        }
    }

    /// The directional-drive pass: every robot without a target adds its
    /// engine direction, scaled to drive strength, to its accumulator; a
    /// robot holding a target stands to fire and adds nothing.
    pub fn apply_engine_dirs(&mut self)
        requires
            old(self).wf(),
            forall|i: int|
                0 <= i < old(self).entries@.len() ==> in_bounds(
                    (#[trigger] old(self).entries@[i]).robot.force,
                ) && dir_in_bounds(old(self).entries@[i].robot.engine_dir),
        ensures
            final(self).wf(),
            final(self).entries@.len() == old(self).entries@.len(),
            forall|i: int|
                0 <= i < old(self).entries@.len() ==> final(self).entries@[i] == (RobotEntry {
                    id: old(self).entries@[i].id,
                    robot: Robot {
                        force: Vec2I {
                            x: spec_drive_force(
                                old(self).entries@[i].robot.force,
                                old(self).entries@[i].robot.engine_dir,
                                old(self).entries@[i].robot.target.is_some(),
                            ).0 as i64,
                            y: spec_drive_force(
                                old(self).entries@[i].robot.force,
                                old(self).entries@[i].robot.engine_dir,
                                old(self).entries@[i].robot.target.is_some(),
                            ).1 as i64,
                        },
                        ..old(self).entries@[i].robot
                    },
                }),
    {
        let ghost pre = *self;
        let n = self.entries.len();
        let mut i: usize = 0;
        while i < n
            invariant
                i <= n,
                n == pre.entries@.len(),
                self.entries@.len() == pre.entries@.len(),
                forall|j: int|
                    0 <= j < n ==> in_bounds((#[trigger] pre.entries@[j]).robot.force)
                        && dir_in_bounds(pre.entries@[j].robot.engine_dir),
                forall|j: int| i <= j < n ==> self.entries@[j] == pre.entries@[j],
                forall|j: int|
                    0 <= j < i ==> self.entries@[j] == (RobotEntry {
                        id: pre.entries@[j].id,
                        robot: Robot {
                            force: Vec2I {
                                x: spec_drive_force(
                                    pre.entries@[j].robot.force,
                                    pre.entries@[j].robot.engine_dir,
                                    pre.entries@[j].robot.target.is_some(),
                                ).0 as i64,
                                y: spec_drive_force(
                                    pre.entries@[j].robot.force,
                                    pre.entries@[j].robot.engine_dir,
                                    pre.entries@[j].robot.target.is_some(),
                                ).1 as i64,
                            },
                            ..pre.entries@[j].robot
                        },
                    }),
            decreases n - i,
        {
            let e = self.entries[i];
            let driven = drive_force(e.robot.force, e.robot.engine_dir, e.robot.target.is_some());
            let entry = &mut self.entries[i];
            entry.robot.force = driven;
            i += 1;
        }
    }

    /// The end-of-tick force floor: every robot whose total accumulated
    /// force falls below the deadzone has it zeroed.
    pub fn floor_forces(&mut self)
        requires
            old(self).wf(),
            forall|i: int|
                0 <= i < old(self).entries@.len() ==> in_bounds(
                    (#[trigger] old(self).entries@[i]).robot.force,
                ),
        ensures
            final(self).wf(),
            final(self).entries@.len() == old(self).entries@.len(),
            forall|i: int|
                0 <= i < old(self).entries@.len() ==> final(self).entries@[i] == (RobotEntry {
                    id: old(self).entries@[i].id,
                    robot: Robot {
                        force: Vec2I {
                            x: spec_force_floor(
                                old(self).entries@[i].robot.force.x as int,
                                old(self).entries@[i].robot.force.y as int,
                            ).0 as i64,
                            y: spec_force_floor(
                                old(self).entries@[i].robot.force.x as int,
                                old(self).entries@[i].robot.force.y as int,
                            ).1 as i64,
                        },
                        ..old(self).entries@[i].robot
                    },
                }),
    {
        let ghost pre = *self;
        let n = self.entries.len();
        let mut i: usize = 0;
        while i < n
            invariant
                i <= n,
                n == pre.entries@.len(),
                self.entries@.len() == pre.entries@.len(),
                forall|j: int|
                    0 <= j < n ==> in_bounds((#[trigger] pre.entries@[j]).robot.force),
                forall|j: int| i <= j < n ==> self.entries@[j] == pre.entries@[j],
                forall|j: int|
                    0 <= j < i ==> self.entries@[j] == (RobotEntry {
                        id: pre.entries@[j].id,
                        robot: Robot {
                            force: Vec2I {
                                x: spec_force_floor(
                                    pre.entries@[j].robot.force.x as int,
                                    pre.entries@[j].robot.force.y as int,
                                ).0 as i64,
                                y: spec_force_floor(
                                    pre.entries@[j].robot.force.x as int,
                                    pre.entries@[j].robot.force.y as int,
                                ).1 as i64,
                            },
                            ..pre.entries@[j].robot
                        },
                    }),
            decreases n - i,
        {
            let e = self.entries[i];
            let floored = force_floor(e.robot.force);
            let entry = &mut self.entries[i];
            entry.robot.force = floored;
            i += 1;
        }
    }

    /// A bullet hit on a robot: its life loses `amount` points.  Reports
    /// whether the robot still exists; a stale id changes nothing.
    pub fn damage_robot(&mut self, id: u64, amount: i32) -> (found: bool)
        requires
            old(self).wf(),
            0 <= amount,
            old(self).spec_contains(id) ==> i32::MIN + amount <= old(self).spec_robot(
                id,
            ).life.curr_hp,
        ensures
            final(self).wf(),
            found == old(self).spec_contains(id),
            final(self).entries@.len() == old(self).entries@.len(),
            forall|i: int|
                0 <= i < old(self).entries@.len() && old(self).entries@[i].id != id ==> final(self).entries@[i] == old(self).entries@[i],
            forall|i: int|
                0 <= i < old(self).entries@.len() && old(self).entries@[i].id == id ==> final(self).entries@[i] == (RobotEntry {
                    id,
                    robot: Robot {
                        life: Life {
                            curr_hp: (old(self).entries@[i].robot.life.curr_hp - amount) as i32,
                            ..old(self).entries@[i].robot.life
                        },
                        ..old(self).entries@[i].robot
                    },
                }),
    {
        match self.find(id) {
            Some(i) => {
                proof {
                    assert forall|j: int|
                        0 <= j < old(self).entries@.len() && old(self).entries@[j].id
                            == id implies old(self).entries@[j].robot == old(self).spec_robot(
                        id,
                    ) by {
                        let w = old(self).spec_index_of(id);
                        assert(0 <= w < old(self).entries@.len() && old(self).entries@[w].id
                            == id);
                        assert(w == j);
                    }
                }
                let entry = &mut self.entries[i];
                entry.robot.life.apply_damage(amount);
                true
            },
            None => false,
        }
    }

    /// The post-update pass over hit points: every robot whose life is
    /// depleted is marked dead, to be consumed by the next death sweep.
    pub fn mark_dead_pass(&mut self)
        requires
            old(self).wf(),
        ensures
            final(self).wf(),
            final(self).entries@.len() == old(self).entries@.len(),
            forall|i: int|
                0 <= i < old(self).entries@.len() ==> final(self).entries@[i] == (RobotEntry {
                    id: old(self).entries@[i].id,
                    robot: Robot {
                        dead: old(self).entries@[i].robot.dead || old(
                            self,
                        ).entries@[i].robot.life.spec_depleted(),
                        ..old(self).entries@[i].robot
                    },
                }),
    {
        let ghost pre = *self;
        let n = self.entries.len();
        let mut i: usize = 0;
        while i < n
            invariant
                i <= n,
                n == pre.entries@.len(),
                self.entries@.len() == pre.entries@.len(),
                forall|j: int| i <= j < n ==> self.entries@[j] == pre.entries@[j],
                forall|j: int|
                    0 <= j < i ==> self.entries@[j] == (RobotEntry {
                        id: pre.entries@[j].id,
                        robot: Robot {
                            dead: pre.entries@[j].robot.dead
                                || pre.entries@[j].robot.life.spec_depleted(),
                            ..pre.entries@[j].robot
                        },
                    }),
            decreases n - i,
        {
            if self.entries[i].robot.life.curr_hp <= 0 {
                let entry = &mut self.entries[i];
                entry.robot.dead = true;
            }
            i += 1;
        }
    }

    /// The death sweep: dead robots are removed, and their ids returned in
    /// arena order so the caller can raise one explosion per despawn.
    pub fn remove_dead(&mut self) -> (removed: Vec<u64>)
        requires
            old(self).wf(),
        ensures
            final(self).wf(),
            final(self).entries@ == spec_live_entries(old(self).entries@),
            removed@ == spec_dead_ids(old(self).entries@),
    {
        let ghost pre = *self;
        let mut kept: Vec<RobotEntry> = Vec::new();
        let mut removed: Vec<u64> = Vec::new();
        let mut i: usize = 0;
        while i < self.entries.len()
            invariant
                i <= self.entries@.len(),
                *self == pre,
                kept@ == spec_live_entries(pre.entries@.take(i as int)),
                removed@ == spec_dead_ids(pre.entries@.take(i as int)),
            decreases self.entries@.len() - i,
        {
            let ghost tk = pre.entries@.take(i as int);
            let ghost tk1 = pre.entries@.take(i as int + 1);
            proof {
                assert(tk1.drop_last() =~= tk);
                assert(tk1.last() == pre.entries@[i as int]);
            }
            let e = self.entries[i];
            if e.robot.dead {
                removed.push(e.id);
            } else {
                kept.push(e);
            }
            i += 1;
        }
        proof {
            assert(pre.entries@.take(pre.entries@.len() as int) =~= pre.entries@);
            lemma_live_entries_distinct_ids(pre.entries@);
        }
        self.entries = kept;
        removed
    }
}

/// The live entries of an arena slice, in order: what a death sweep keeps.
pub open spec fn spec_live_entries(s: Seq<RobotEntry>) -> Seq<RobotEntry>
    decreases s.len(),
{
    if s.len() == 0 {
        s
    } else {
        let rest = spec_live_entries(s.drop_last());
        if s.last().robot.dead {
            rest
        } else {
            rest.push(s.last())
        }
    }
}

/// The ids of the dead entries of an arena slice, in order: what a death
/// sweep removes and reports.
pub open spec fn spec_dead_ids(s: Seq<RobotEntry>) -> Seq<u64>
    decreases s.len(),
{
    if s.len() == 0 {
        Seq::empty()
    } else {
        let rest = spec_dead_ids(s.drop_last());
        if s.last().robot.dead {
            rest.push(s.last().id)
        } else {
            rest
        }
    }
}

/// The death sweep keeps ids distinct: the kept entries all come from the
/// original sequence, whose ids were distinct.
proof fn lemma_live_entries_distinct_ids(s: Seq<RobotEntry>)
    requires
        forall|i: int, j: int| 0 <= i < j < s.len() ==> s[i].id != s[j].id,
    ensures
        forall|i: int, j: int|
            0 <= i < j < spec_live_entries(s).len() ==> spec_live_entries(s)[i].id
                != spec_live_entries(s)[j].id,
        forall|x: RobotEntry| #[trigger] spec_live_entries(s).contains(x) ==> s.contains(x),
    decreases s.len(),
{
    if s.len() > 0 {
        let prefix = s.drop_last();
        lemma_live_entries_distinct_ids(prefix);
        let f = spec_live_entries(s);
        let pf = spec_live_entries(prefix);
        assert forall|x: RobotEntry| #[trigger] f.contains(x) implies s.contains(x) by {
            let j = choose|j: int| 0 <= j < f.len() && f[j] == x;
            if !s.last().robot.dead && j == f.len() - 1 {
                assert(s[s.len() - 1] == x);
            } else {
                assert(pf[j] == x);
                assert(pf.contains(x));
                assert(prefix.contains(x));
                let w = choose|w: int| 0 <= w < prefix.len() && prefix[w] == x;
                assert(s[w] == x);
            }
        }
        assert forall|i: int, j: int| 0 <= i < j < f.len() implies f[i].id != f[j].id by {
            if !s.last().robot.dead && j == f.len() - 1 {
                assert(f[i] == pf[i]);
                assert(pf.contains(f[i]));
                assert(prefix.contains(f[i]));
                let w = choose|w: int| 0 <= w < prefix.len() && prefix[w] == f[i];
                assert(s[w] == f[i]);
                assert(f[j] == s[s.len() - 1]);
            } else {
                assert(f[i] == pf[i]);
                assert(f[j] == pf[j]);
            }
        }
    }
}

/// Pick the nearest candidate: the index of the first entry whose distance
/// key is minimal, mirroring a scan that replaces its best pick only on a
/// strictly smaller distance.  Candidates are `(entity id, distance key)`
/// pairs; any monotone encoding of distance serves as the key.
pub fn nearest_target(candidates: &Vec<(u64, u64)>) -> (r: Option<usize>)
    ensures
        match r {
            Some(i) => i < candidates@.len() && (forall|j: int|
                0 <= j < candidates@.len() ==> (#[trigger] candidates@[j]).1 >= candidates@[i as int].1) && (forall|j: int| 0 <= j < i ==> (#[trigger] candidates@[j]).1 > candidates@[i as int].1),
            None => candidates@.len() == 0,
        },
{
    if candidates.len() == 0 {
        return None;
    }
    let mut best: usize = 0;
    let mut k: usize = 1;
    while k < candidates.len()
        invariant
            best < k <= candidates@.len(),
            forall|j: int| 0 <= j < k ==> (#[trigger] candidates@[j]).1 >= candidates@[best as int].1,
            forall|j: int| 0 <= j < best ==> (#[trigger] candidates@[j]).1 > candidates@[best as int].1,
        decreases candidates@.len() - k,
    {
        if candidates[k].1 < candidates[best].1 {
            best = k;
        }
        k += 1;
    }
    Some(best)
}

/// Keep a stored target only while it is within the drop range; past the
/// threshold the weak reference is cleared.
pub fn keep_target(target: Option<u64>, distance: u64) -> (r: Option<u64>)
    ensures
        r == if distance <= TARGET_DROP_DISTANCE {
            target
        } else {
            None::<u64>
        },
{
    if distance <= TARGET_DROP_DISTANCE {
        target
    } else {
        None
    }
}

/// Resolve a weak target reference against the arena: a target that no
/// longer exists is dropped.
pub fn resolve_target(target: Option<u64>, store: &RobotStore) -> (r: Option<u64>)
    requires
        store.wf(),
    ensures
        r == match target {
            Some(t) => if store.spec_contains(t) {
                Some(t)
            } else {
                None::<u64>
            },
            None => None::<u64>,
        },
{
    match target {
        Some(t) => {
            if store.contains(t) {
                Some(t)
            } else {
                None
            }
        },
        None => None,
    }
}

/// What the directional drive yields, componentwise: the force unchanged
/// while a target suppresses the drive, else the engine direction scaled
/// to drive strength and added on.
pub open spec fn spec_drive_force(force: Vec2I, engine_dir: Vec2I, has_target: bool) -> (int, int) {
    if has_target {
        (force.x as int, force.y as int)
    } else {
        (
            force.x + engine_dir.x * ENGINE_FORCE_PER_DIR_UNIT,
            force.y + engine_dir.y * ENGINE_FORCE_PER_DIR_UNIT,
        )
    }
}

/// What the force floor yields, componentwise: zero below the deadzone,
/// the force itself at or above it.
pub open spec fn spec_force_floor(x: int, y: int) -> (int, int) {
    if x * x + y * y < FORCE_DEADZONE * FORCE_DEADZONE {
        (0int, 0int)
    } else {
        (x, y)
    }
}

/// The directional drive of the locomotion pipeline: a robot without a
/// target adds its engine direction, scaled to drive strength, to its
/// accumulated force; a robot holding a target stands to fire and adds
/// nothing.
pub fn drive_force(force: Vec2I, engine_dir: Vec2I, has_target: bool) -> (r: Vec2I)
    requires
        in_bounds(force),
        dir_in_bounds(engine_dir),
    ensures
        (r.x as int, r.y as int) == spec_drive_force(force, engine_dir, has_target),
{
    if has_target {
        force
    } else {
        proof {
            assert(dir_in_bounds(engine_dir) ==> in_bounds(engine_dir));
            assert(-DIR_LIMIT * ENGINE_FORCE_PER_DIR_UNIT <= engine_dir.x
                * ENGINE_FORCE_PER_DIR_UNIT <= DIR_LIMIT * ENGINE_FORCE_PER_DIR_UNIT)
                by (nonlinear_arith)
                requires
                    -DIR_LIMIT <= engine_dir.x <= DIR_LIMIT,
            ;
            assert(-DIR_LIMIT * ENGINE_FORCE_PER_DIR_UNIT <= engine_dir.y
                * ENGINE_FORCE_PER_DIR_UNIT <= DIR_LIMIT * ENGINE_FORCE_PER_DIR_UNIT)
                by (nonlinear_arith)
                requires
                    -DIR_LIMIT <= engine_dir.y <= DIR_LIMIT,
            ;
        }
        let scaled = engine_dir.scale(ENGINE_FORCE_PER_DIR_UNIT);
        force.add(scaled)
    }
}

/// The force floor ending the pipeline: a total force whose magnitude is
/// below the deadzone is zeroed, so near-zero rounding never drives a
/// robot.
pub fn force_floor(force: Vec2I) -> (r: Vec2I)
    requires
        in_bounds(force),
    ensures
        (r.x as int, r.y as int) == spec_force_floor(force.x as int, force.y as int),
{
    let m = force.mag_sq();
    if m < FORCE_DEADZONE * FORCE_DEADZONE {
        Vec2I::zero()
    } else {
        force
    }
}

/// A robot that no gadget has touched does not advance: from a zero force
/// accumulator and a zero engine direction, the drive adds nothing and the
/// floor keeps the total force at zero, whether or not a target suppresses
/// the drive.
pub proof fn lemma_unset_engine_dir_never_moves(has_target: bool)
    ensures
        spec_drive_force(Vec2I::spec_zero(), Vec2I::spec_zero(), has_target) == (0int, 0int),
        spec_force_floor(0int, 0int) == (0int, 0int),
{
}

} // verus!
