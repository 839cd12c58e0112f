//! The arrow gadget: the simplest directional influence.
//!
//! An arrow owns a fixed direction; whenever a same-team robot begins to
//! overlap its sensor, the robot's engine direction becomes exactly that
//! direction.  Re-triggering assigns the same value, so the influence is
//! idempotent.

use vstd::prelude::*;

verus! {

use crate::team::Team;
use crate::vec2i::Vec2I;
use crate::grid::GridCoords;
use crate::robot::{Robot, RobotEntry, RobotStore};

/// A placed arrow: team, the direction it assigns, and the grid cell it
/// occupies for spacing checks.
#[derive(Clone, Copy, Debug)]
pub struct Arrow {
    pub team: Team,
    pub dir: Vec2I,
    pub coords: GridCoords,
}

impl Arrow {
    pub fn new(team: Team, dir: Vec2I, coords: GridCoords) -> (r: Arrow)
        ensures
            r.team == team,
            r.dir == dir,
            r.coords == coords,
    {
        Arrow { team, dir, coords }
    }

    /// An overlap-begin between this arrow's sensor and a robot: when the
    /// robot exists and is of the arrow's team, its engine direction is
    /// set to exactly the arrow's direction; otherwise nothing changes.
    pub fn trigger(&self, store: &mut RobotStore, robot_id: u64) -> (applied: bool)
        requires
            old(store).wf(),
        ensures
            final(store).wf(),
            applied == (old(store).spec_contains(robot_id) && old(store).spec_robot(
                robot_id,
            ).team == self.team),
            final(store).entries@.len() == old(store).entries@.len(),
            forall|i: int|
                0 <= i < old(store).entries@.len() && old(store).entries@[i].id != robot_id
                    ==> final(store).entries@[i] == old(store).entries@[i],
            forall|i: int|
                0 <= i < old(store).entries@.len() && old(store).entries@[i].id == robot_id
                    ==> final(store).entries@[i] == if applied {
                    (RobotEntry {
                        id: robot_id,
                        robot: Robot { engine_dir: self.dir, ..old(store).entries@[i].robot },
                    })
                } else {
                    old(store).entries@[i]
                },
    {
        match store.get(robot_id) {
            Some(robot) => {
                if robot.team == self.team {
                    store.set_engine_dir(robot_id, self.dir);
                    proof {
                        assert forall|i: int|
                            0 <= i < old(store).entries@.len() && old(store).entries@[i].id
                                == robot_id implies old(store).entries@[i].robot == old(
                            store,
                        ).spec_robot(robot_id) by {
                            let w = old(store).spec_index_of(robot_id);
                            assert(0 <= w < old(store).entries@.len() && old(
                                store,
                            ).entries@[w].id == robot_id);
                            assert(w == i);
                        }
                    }
                    true
                } else {
                    false
                }
            },
            None => false,
        }
    }
}

/// Re-triggering an arrow is idempotent: assigning the arrow's direction
/// to a robot that already carries it leaves the robot unchanged.
pub proof fn lemma_arrow_trigger_idempotent(r: Robot, dir: Vec2I)
    ensures
        (Robot { engine_dir: dir, ..(Robot { engine_dir: dir, ..r }) }) == (Robot {
            engine_dir: dir,
            ..r
        }),
{
}

} // verus!
