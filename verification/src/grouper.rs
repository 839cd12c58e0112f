//! The grouper gadget: batch release at a fixed group size.
//!
//! A grouper accumulates the ids of same-team robots that overlap its
//! sensor into a duplicate-free set.  The moment the set reaches
//! [`GROUP_SIZE`] members, every accumulated robot receives the grouper's
//! direction at once and the set empties — an edge-triggered batch
//! release, not a sliding window.

use vstd::prelude::*;

verus! {

use crate::team::Team;
use crate::vec2i::Vec2I;
use crate::grid::GridCoords;
use crate::robot::{Robot, RobotEntry, RobotStore};
use crate::util::vec_contains_u64;

/// Robots released per batch, by grouper and defender alike.
pub const GROUP_SIZE: usize = 25;

/// A placed grouper: team, the direction its batches receive, the ids
/// accumulated so far, and the grid cell it occupies.
#[derive(Debug)]
pub struct Grouper {
    pub team: Team,
    pub dir: Vec2I,
    pub group: Vec<u64>,
    pub coords: GridCoords,
}

/// What one insertion does to an accumulation set: an already-present id
/// changes nothing; a fresh id joins the set, and if that fills it to
/// [`GROUP_SIZE`] the whole set is released and cleared.
pub open spec fn spec_grouper_insert(group: Seq<u64>, id: u64) -> (Seq<u64>, Option<Seq<u64>>) {
    if group.contains(id) {
        (group, None)
    } else if group.len() + 1 < GROUP_SIZE {
        (group.push(id), None)
    } else {
        (Seq::empty(), Some(group.push(id)))
    }
}

/// The accumulation set after inserting the given fresh distinct ids, one
/// at a time, into an empty grouper.
pub open spec fn spec_group_after(ids: Seq<u64>) -> Seq<u64>
    decreases ids.len(),
{
    if ids.len() == 0 {
        Seq::empty()
    } else {
        spec_grouper_insert(spec_group_after(ids.drop_last()), ids.last()).0
    }
}

impl Grouper {
    /// Structural invariant: the set is duplicate-free and strictly below
    /// the batch size — reaching the size releases and clears it at once.
    pub open spec fn wf(self) -> bool {
        self.group@.no_duplicates() && self.group@.len() < GROUP_SIZE
    }

    /// A fresh grouper has accumulated nothing.
    pub fn new(team: Team, dir: Vec2I, coords: GridCoords) -> (r: Grouper)
        ensures
            r.wf(),
            r.team == team,
            r.dir == dir,
            r.coords == coords,
            r.group@ == Seq::<u64>::empty(),
    {
        Grouper { team, dir, group: Vec::new(), coords }
    }

    /// Insert one robot id into the accumulation set; a release returns
    /// the full batch, in accumulation order.
    fn insert(&mut self, robot_id: u64) -> (released: Option<Vec<u64>>)
        requires
            old(self).wf(),
        ensures
            final(self).wf(),
            final(self).team == old(self).team,
            final(self).dir == old(self).dir,
            final(self).coords == old(self).coords,
            ({
                let (g, rel) = spec_grouper_insert(old(self).group@, robot_id);
                final(self).group@ == g && (match (released, rel) {
                    (Some(v), Some(s)) => v@ == s,
                    (None, None) => true,
                    _ => false,
                })
            }),
    {
        if vec_contains_u64(&self.group, robot_id) {
            return None;
        }
        self.group.push(robot_id);
        if self.group.len() < GROUP_SIZE {
            proof {
                broadcast use vstd::seq_lib::lemma_seq_contains_after_push;

            }
            None
        } else {
            let batch = self.group.split_off(0);
            proof {
                assert(batch@ =~= old(self).group@.push(robot_id));
                assert(self.group@ =~= Seq::<u64>::empty());
            }
            Some(batch)
        }
    }

    /// An overlap-begin between this grouper's sensor and a robot: a
    /// same-team existing robot joins the set; when that fills the set to
    /// [`GROUP_SIZE`], every batched robot still in the arena receives the
    /// grouper's direction and the set empties.  The released batch is
    /// returned, `None` while the set is still filling or when the robot
    /// was foreign.
    pub fn on_robot_overlap(&mut self, store: &mut RobotStore, robot_id: u64) -> (released: Option<
        Vec<u64>,
    >)
        requires
            old(self).wf(),
            old(store).wf(),
        ensures
            final(self).wf(),
            final(store).wf(),
            final(self).team == old(self).team,
            final(self).dir == old(self).dir,
            final(self).coords == old(self).coords,
            final(store).entries@.len() == old(store).entries@.len(),
            ({
                let accepted = old(store).spec_contains(robot_id) && old(store).spec_robot(
                    robot_id,
                ).team == old(self).team;
                let (g, rel) = spec_grouper_insert(old(self).group@, robot_id);
                &&& (!accepted ==> *final(self) == *old(self) && final(store).entries@ == old(
                    store,
                ).entries@ && released.is_none())
                &&& (accepted ==> final(self).group@ == g && (match (released, rel) {
                    (Some(v), Some(s)) => v@ == s && (forall|i: int|
                        0 <= i < old(store).entries@.len() && s.contains(
                            old(store).entries@[i].id,
                        ) ==> final(store).entries@[i] == (RobotEntry {
                            id: old(store).entries@[i].id,
                            robot: Robot {
                                engine_dir: old(self).dir,
                                ..old(store).entries@[i].robot
                            },
                        })) && (forall|i: int|
                        0 <= i < old(store).entries@.len() && !s.contains(
                            old(store).entries@[i].id,
                        ) ==> final(store).entries@[i] == old(store).entries@[i]),
                    (None, None) => final(store).entries@ == old(store).entries@,
                    _ => false,
                }))
            }),
    {
        let accepted = match store.get(robot_id) {
            Some(robot) => robot.team == self.team,
            None => false,
        };
        if !accepted {
            return None;
        }
        match self.insert(robot_id) {
            Some(batch) => {
                store.assign_dir_to_all(&batch, self.dir);
                Some(batch)
            },
            None => None,
        }
    }
}

/// Grouper batch release: feeding `GROUP_SIZE` distinct fresh ids into an
/// empty grouper one at a time leaves every earlier prefix accumulated
/// without a release, and the final insertion releases exactly the whole
/// batch, in order, leaving the set empty.
pub proof fn lemma_grouper_batch_release(ids: Seq<u64>)
    requires
        ids.no_duplicates(),
        ids.len() == GROUP_SIZE,
    ensures
        forall|k: int|
            0 <= k < GROUP_SIZE ==> #[trigger] spec_group_after(ids.take(k)) == ids.take(k),
        spec_grouper_insert(spec_group_after(ids.take(GROUP_SIZE - 1)), ids[GROUP_SIZE - 1]) == (
            Seq::<u64>::empty(),
            Some(ids),
        ),
{
    assert forall|k: int|
        0 <= k < GROUP_SIZE implies #[trigger] spec_group_after(ids.take(k)) == ids.take(k) by {
        lemma_group_fills(ids, k);
    }
    lemma_group_fills(ids, GROUP_SIZE - 1);
    let prefix = ids.take(GROUP_SIZE - 1);
    let last = ids[GROUP_SIZE - 1];
    assert(!prefix.contains(last)) by {
        if prefix.contains(last) {
            let j = choose|j: int| 0 <= j < prefix.len() && prefix[j] == last;
            assert(ids[j] == ids[GROUP_SIZE - 1]);
        }
    }
    assert(prefix.push(last) =~= ids);
}

/// Every proper prefix of a distinct id stream accumulates verbatim.
proof fn lemma_group_fills(ids: Seq<u64>, k: int)
    requires
        ids.no_duplicates(),
        ids.len() <= GROUP_SIZE,
        0 <= k < GROUP_SIZE,
        k <= ids.len(),
    ensures
        spec_group_after(ids.take(k)) == ids.take(k),
    decreases k,
{
    if k > 0 {
        lemma_group_fills(ids, k - 1);
        let tk = ids.take(k);
        assert(tk.drop_last() =~= ids.take(k - 1));
        assert(tk.last() == ids[k - 1]);
        assert(!ids.take(k - 1).contains(ids[k - 1])) by {
            if ids.take(k - 1).contains(ids[k - 1]) {
                let j = choose|j: int|
                    0 <= j < k - 1 && #[trigger] ids.take(k - 1)[j] == ids[k - 1];
                assert(ids[j] == ids[k - 1]);
            }
        }
        assert(ids.take(k - 1).push(ids[k - 1]) =~= tk);
    } else {
        assert(ids.take(0) =~= Seq::<u64>::empty());
    }
}

} // verus!
