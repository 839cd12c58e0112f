//! The defender gadget: a FIFO holding queue.
//!
//! A defender queues the ids of same-team robots that overlap its sensor.
//! Whenever the queue reaches [`GROUP_SIZE`] entries it pops from the
//! front, assigning its direction to each popped robot, until the queue is
//! below the threshold again — so the queue is kept near the threshold
//! size and robots leave in arrival order.  Robots that despawn while
//! queued are pruned lazily.  (While queued, robots are additionally
//! nudged toward the defender each tick; that continuous steering is part
//! of the force pipeline the physics collaborator integrates.)

use vstd::prelude::*;

verus! {

use crate::team::Team;
use crate::vec2i::Vec2I;
use crate::grid::GridCoords;
use crate::robot::{Robot, RobotEntry, RobotStore};
use crate::grouper::GROUP_SIZE;

/// A placed defender: team, the direction popped robots receive, the
/// waiting queue in arrival order, and the grid cell it occupies.
#[derive(Debug)]
pub struct Defender {
    pub team: Team,
    pub dir: Vec2I,
    pub queue: Vec<u64>,
    pub coords: GridCoords,
}

/// What one arrival does to the queue: the id joins at the back, and if
/// that fills the queue to [`GROUP_SIZE`] the front entry is popped.
/// The popped ids are returned in pop order.
pub open spec fn spec_defender_push(queue: Seq<u64>, id: u64) -> (Seq<u64>, Seq<u64>) {
    let q1 = queue.push(id);
    if q1.len() >= GROUP_SIZE {
        (q1.drop_first(), seq![q1.first()])
    } else {
        (q1, Seq::empty())
    }
}

/// Queue and total popped ids after pushing a stream of arrivals, one at
/// a time, into an empty defender.
pub open spec fn spec_defender_run(ids: Seq<u64>) -> (Seq<u64>, Seq<u64>)
    decreases ids.len(),
{
    if ids.len() == 0 {
        (Seq::empty(), Seq::empty())
    } else {
        let (q, popped) = spec_defender_run(ids.drop_last());
        let (q2, newly) = spec_defender_push(q, ids.last());
        (q2, popped + newly)
    }
}

impl Defender {
    /// Structural invariant: the queue stays strictly below the batch
    /// size — reaching it pops back down at once.
    pub open spec fn wf(self) -> bool {
        self.queue@.len() < GROUP_SIZE
    }

    /// A fresh defender holds no robots.
    pub fn new(team: Team, dir: Vec2I, coords: GridCoords) -> (r: Defender)
        ensures
            r.wf(),
            r.team == team,
            r.dir == dir,
            r.coords == coords,
            r.queue@ == Seq::<u64>::empty(),
    {
        Defender { team, dir, queue: Vec::new(), coords }
    }

    /// Push one robot id to the back of the queue, then pop from the
    /// front while the queue is at or above [`GROUP_SIZE`].  The popped
    /// ids are returned in pop order.
    fn enqueue(&mut self, robot_id: u64) -> (popped: Vec<u64>)
        requires
            old(self).wf(),
        ensures
            final(self).wf(),
            final(self).team == old(self).team,
            final(self).dir == old(self).dir,
            final(self).coords == old(self).coords,
            ({
                let (q, p) = spec_defender_push(old(self).queue@, robot_id);
                final(self).queue@ == q && popped@ == p
            }),
    {
        self.queue.push(robot_id);
        let mut popped: Vec<u64> = Vec::new();
        while self.queue.len() >= GROUP_SIZE
            invariant
                self.team == old(self).team,
                self.dir == old(self).dir,
                self.coords == old(self).coords,
                old(self).queue@.len() < GROUP_SIZE,
                ({
                    let q1 = old(self).queue@.push(robot_id);
                    (self.queue@ == q1 && popped@ == Seq::<u64>::empty()) || (q1.len() >= GROUP_SIZE
                        && self.queue@ == q1.drop_first() && popped@ == seq![q1.first()])
                }),
            decreases self.queue@.len(),
        {
            let front = self.queue.remove(0);
            popped.push(front);
            proof {
                let q1 = old(self).queue@.push(robot_id);
                assert(self.queue@ =~= q1.drop_first());
                assert(popped@ =~= seq![q1.first()]);
            }
        }
        popped
    }

    /// An overlap-begin between this defender's sensor and a robot: a
    /// same-team existing robot joins the back of the queue; while the
    /// queue is at the threshold, front entries are popped and each popped
    /// robot still in the arena receives the defender's direction.  The
    /// popped ids are returned in pop order, empty while the queue is
    /// still filling or when the robot was foreign.
    pub fn on_robot_overlap(&mut self, store: &mut RobotStore, robot_id: u64) -> (popped: Vec<
        u64,
    >)
        requires
            old(self).wf(),
            old(store).wf(),
        ensures
            final(self).wf(),
            final(store).wf(),
            final(self).team == old(self).team,
            final(self).dir == old(self).dir,
            final(self).coords == old(self).coords,
            final(store).entries@.len() == old(store).entries@.len(),
            ({
                let accepted = old(store).spec_contains(robot_id) && old(store).spec_robot(
                    robot_id,
                ).team == old(self).team;
                let (q, p) = spec_defender_push(old(self).queue@, robot_id);
                &&& (!accepted ==> *final(self) == *old(self) && final(store).entries@ == old(
                    store,
                ).entries@ && popped@ == Seq::<u64>::empty())
                &&& (accepted ==> final(self).queue@ == q && popped@ == p && (forall|i: int|
                    0 <= i < old(store).entries@.len() && p.contains(old(store).entries@[i].id)
                        ==> final(store).entries@[i] == (RobotEntry {
                        id: old(store).entries@[i].id,
                        robot: Robot { engine_dir: old(self).dir, ..old(store).entries@[i].robot },
                    })) && (forall|i: int|
                    0 <= i < old(store).entries@.len() && !p.contains(old(store).entries@[i].id)
                        ==> final(store).entries@[i] == old(store).entries@[i]))
            }),
    {
        let accepted = match store.get(robot_id) {
            Some(robot) => robot.team == self.team,
            None => false,
        };
        if !accepted {
            return Vec::new();
        }
        let popped = self.enqueue(robot_id);
        store.assign_dir_to_all(&popped, self.dir);
        popped
    }

    /// Prune stale queue entries: robots that despawned while waiting are
    /// dropped, the survivors keeping their order.
    pub fn prune(&mut self, store: &RobotStore)
        requires
            old(self).wf(),
            store.wf(),
        ensures
            final(self).wf(),
            final(self).team == old(self).team,
            final(self).dir == old(self).dir,
            final(self).coords == old(self).coords,
            final(self).queue@ == spec_live_ids(old(self).queue@, *store),
    {
        let ghost pre = *self;
        let mut kept: Vec<u64> = Vec::new();
        let mut i: usize = 0;
        while i < self.queue.len()
            invariant
                store.wf(),
                i <= self.queue@.len(),
                *self == pre,
                kept@ == spec_live_ids(pre.queue@.take(i as int), *store),
                kept@.len() <= i,
            decreases self.queue@.len() - i,
        {
            let ghost tk = pre.queue@.take(i as int);
            let ghost tk1 = pre.queue@.take(i as int + 1);
            proof {
                assert(tk1.drop_last() =~= tk);
                assert(tk1.last() == pre.queue@[i as int]);
            }
            let id = self.queue[i];
            if store.contains(id) {
                kept.push(id);
            }
            i += 1;
        }
        proof {
            assert(pre.queue@.take(pre.queue@.len() as int) =~= pre.queue@);
        }
        self.queue = kept;
    }
}

/// The ids of a queue slice whose robots still exist in the arena, in
/// order: what a lazy prune keeps.
pub open spec fn spec_live_ids(q: Seq<u64>, store: RobotStore) -> Seq<u64>
    decreases q.len(),
{
    if q.len() == 0 {
        Seq::empty()
    } else {
        let rest = spec_live_ids(q.drop_last(), store);
        if store.spec_contains(q.last()) {
            rest.push(q.last())
        } else {
            rest
        }
    }
}

/// Defender queue flow: pushing `n` arrivals into an empty defender, one
/// at a time, pops exactly the first `n - (GROUP_SIZE - 1)` of them (none
/// while `n` is below the threshold), each exactly once and in arrival
/// order, and leaves the most recent arrivals — at most
/// `GROUP_SIZE - 1` of them — waiting in the queue.
pub proof fn lemma_defender_queue_flow(ids: Seq<u64>)
    ensures
        ({
            let (q, popped) = spec_defender_run(ids);
            let cut: int = if ids.len() >= GROUP_SIZE - 1 {
                ids.len() - (GROUP_SIZE - 1)
            } else {
                0
            };
            popped == ids.take(cut) && q == ids.skip(cut)
        }),
    decreases ids.len(),
{
    if ids.len() == 0 {
        assert(ids.take(0) =~= Seq::<u64>::empty());
        assert(ids.skip(0) =~= Seq::<u64>::empty());
    } else {
        let prefix = ids.drop_last();
        lemma_defender_queue_flow(prefix);
        let (q0, p0) = spec_defender_run(prefix);
        let cut0: int = if prefix.len() >= GROUP_SIZE - 1 {
            prefix.len() - (GROUP_SIZE - 1)
        } else {
            0
        };
        let (q, popped) = spec_defender_run(ids);
        let cut: int = if ids.len() >= GROUP_SIZE - 1 {
            ids.len() - (GROUP_SIZE - 1)
        } else {
            0
        };
        let q1 = q0.push(ids.last());
        if q1.len() >= GROUP_SIZE {
            assert(cut == cut0 + 1);
            assert(q1.first() == ids[cut0]);
            assert(popped =~= ids.take(cut));
            assert(q =~= ids.skip(cut));
        } else {
            assert(cut == cut0);
            assert(popped =~= ids.take(cut));
            assert(q =~= ids.skip(cut));
        }
    }
}

} // verus!
