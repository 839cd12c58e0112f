//! The fork gadget: an alternating two-way splitter.
//!
//! A fork owns two directions, symmetric about its base direction.  Each
//! triggering overlap-begin assigns `dirs[count % 2]` to the robot and
//! increments the counter, so an incoming stream of robots is split
//! alternately left and right.

use vstd::prelude::*;

verus! {

use crate::team::Team;
use crate::vec2i::Vec2I;
use crate::grid::GridCoords;
use crate::robot::{Robot, RobotEntry, RobotStore};

/// A placed fork: team, its two alternating directions, how many robots
/// it has split so far, and the grid cell it occupies.
#[derive(Clone, Copy, Debug)]
pub struct Fork {
    pub team: Team,
    pub dirs: [Vec2I; 2],
    pub forked_count: u64,
    pub coords: GridCoords,
}

impl Fork {
    /// A fresh fork has split nothing yet.
    pub fn new(team: Team, dirs: [Vec2I; 2], coords: GridCoords) -> (r: Fork)
        ensures
            r.team == team,
            r.dirs == dirs,
            r.forked_count == 0,
            r.coords == coords,
    {
        Fork { team, dirs, forked_count: 0, coords }
    }

    /// The direction the next trigger will assign.
    pub open spec fn spec_next_dir(self) -> Vec2I {
        if self.forked_count % 2 == 0 {
            self.dirs[0]
        } else {
            self.dirs[1]
        }
    }

    /// The fork after one trigger: the counter advanced by one.
    pub open spec fn spec_step(self) -> Fork {
        Fork { forked_count: (self.forked_count + 1) as u64, ..self }
    }

    /// An overlap-begin between this fork's sensor and a robot: when the
    /// robot exists and is of the fork's team, it receives the current
    /// alternating direction and the trigger counter advances; otherwise
    /// nothing changes.
    pub fn trigger(&mut self, store: &mut RobotStore, robot_id: u64) -> (applied: bool)
        requires
            old(store).wf(),
            old(self).forked_count < u64::MAX,
        ensures
            final(store).wf(),
            applied == (old(store).spec_contains(robot_id) && old(store).spec_robot(
                robot_id,
            ).team == old(self).team),
            *final(self) == if applied {
                old(self).spec_step()
            } else {
                *old(self)
            },
            final(store).entries@.len() == old(store).entries@.len(),
            forall|i: int|
                0 <= i < old(store).entries@.len() && old(store).entries@[i].id != robot_id
                    ==> final(store).entries@[i] == old(store).entries@[i],
            forall|i: int|
                0 <= i < old(store).entries@.len() && old(store).entries@[i].id == robot_id
                    ==> final(store).entries@[i] == if applied {
                    (RobotEntry {
                        id: robot_id,
                        robot: Robot {
                            engine_dir: old(self).spec_next_dir(),
                            ..old(store).entries@[i].robot
                        },
                    })
                } else {
                    old(store).entries@[i]
                },
    {
        match store.get(robot_id) {
            Some(robot) => {
                if robot.team == self.team {
                    let which = (self.forked_count % 2) as usize;
                    let dir = self.dirs[which];
                    store.set_engine_dir(robot_id, dir);
                    self.forked_count = self.forked_count + 1;
                    proof {
                        assert forall|i: int|
                            0 <= i < old(store).entries@.len() && old(store).entries@[i].id
                                == robot_id implies old(store).entries@[i].robot == old(
                            store,
                        ).spec_robot(robot_id) by {
                            let w = old(store).spec_index_of(robot_id);
                            assert(0 <= w < old(store).entries@.len() && old(
                                store,
                            ).entries@[w].id == robot_id);
                            assert(w == i);
                        }
                    }
                    true
                } else {
                    false
                }
            },
            None => false,
        }
    }
}

/// The directions a fork assigns over `n` consecutive triggering passes,
/// in order.
pub open spec fn spec_fork_outputs(f: Fork, n: nat) -> Seq<Vec2I>
    decreases n,
{
    if n == 0 {
        Seq::empty()
    } else {
        seq![f.spec_next_dir()] + spec_fork_outputs(f.spec_step(), (n - 1) as nat)
    }
}

/// Fork alternation: over any `n` consecutive triggering passes, the
/// `k`-th assigned direction is `dirs[(count + k) % 2]` — starting from a
/// fresh fork, the stream `dirs[0], dirs[1], dirs[0], dirs[1], ...`.
pub proof fn lemma_fork_alternation(f: Fork, n: nat)
    requires
        f.forked_count + n <= u64::MAX,
    ensures
        spec_fork_outputs(f, n).len() == n,
        forall|k: int|
            0 <= k < n ==> spec_fork_outputs(f, n)[k] == if (f.forked_count + k) % 2 == 0 {
                f.dirs[0]
            } else {
                f.dirs[1]
            },
    decreases n,
{
    if n > 0 {
        lemma_fork_alternation(f.spec_step(), (n - 1) as nat);
        let out = spec_fork_outputs(f, n);
        let rest = spec_fork_outputs(f.spec_step(), (n - 1) as nat);
        assert forall|k: int|
            0 <= k < n implies out[k] == if (f.forked_count + k) % 2 == 0 {
            f.dirs[0]
        } else {
            f.dirs[1]
        } by {
            if k == 0 {
                assert(out[0] == f.spec_next_dir());
            } else {
                assert(out[k] == rest[k - 1]);
                assert((f.forked_count + 1 + (k - 1)) % 2 == (f.forked_count + k) % 2);
            }
        }
    }
}

} // verus!
