//! Collision-event bookkeeping.
//!
//! The physics collaborator reports raw begin/end overlap events between
//! shape pairs.  A consumer that owns some of the shapes (a portal's sensor
//! zones, for example) folds those events into a live adjacency set: which
//! other entities currently overlap each of its own.  The cache keeps an
//! entry for an owned id exactly while its overlap set is non-empty, holds
//! no duplicate entries, and ignores event pairs in which it owns neither
//! participant.

use vstd::prelude::*;

verus! {

use crate::util::{vec_contains_u64, vec_find_u64, lemma_remove_keeps_distinct};

broadcast use vstd::seq_lib::lemma_seq_contains_after_push;

/// One raw overlap event from the physics collaborator: the ids of the
/// shape pair that started or stopped overlapping.
#[derive(Clone, Copy, PartialEq, Eq, Structural, Debug)]
pub enum CollisionEvent {
    Begin(u64, u64),
    End(u64, u64),
}

impl CollisionEvent {
    pub open spec fn first_id(self) -> u64 {
        match self {
            CollisionEvent::Begin(a, _) => a,
            CollisionEvent::End(a, _) => a,
        }
    }

    pub open spec fn second_id(self) -> u64 {
        match self {
            CollisionEvent::Begin(_, b) => b,
            CollisionEvent::End(_, b) => b,
        }
    }

    pub open spec fn is_begin(self) -> bool {
        match self {
            CollisionEvent::Begin(_, _) => true,
            CollisionEvent::End(_, _) => false,
        }
    }
}

/// How one event reads for a consumer owning the ids in `mine`: the owned
/// participant, the other participant, and whether the overlap begins.
/// `None` when neither participant is owned — such a pair is ignored.
pub open spec fn resolve_event(ev: CollisionEvent, mine: Seq<u64>) -> Option<(u64, u64, bool)> {
    if mine.contains(ev.first_id()) {
        Some((ev.first_id(), ev.second_id(), ev.is_begin()))
    } else if mine.contains(ev.second_id()) {
        Some((ev.second_id(), ev.first_id(), ev.is_begin()))
    } else {
        None
    }
}

/// Whether the pair `(me, other)` is live after a stream of events: the
/// most recent event resolving to the pair decides, a begin leaving it live
/// and an end not; with no such event the initial state stands.
pub open spec fn pair_live_after(
    events: Seq<CollisionEvent>,
    mine: Seq<u64>,
    me: u64,
    other: u64,
    init: bool,
) -> bool
    decreases events.len(),
{
    if events.len() == 0 {
        init
    } else {
        match resolve_event(events.last(), mine) {
            Some(r) => if r.0 == me && r.1 == other {
                r.2
            } else {
                pair_live_after(events.drop_last(), mine, me, other, init)
            },
            None => pair_live_after(events.drop_last(), mine, me, other, init),
        }
    }
}

/// The begin flags of the events that resolve to the pair `(me, other)`,
/// in stream order.
pub open spec fn matching_begins(
    events: Seq<CollisionEvent>,
    mine: Seq<u64>,
    me: u64,
    other: u64,
) -> Seq<bool>
    decreases events.len(),
{
    if events.len() == 0 {
        Seq::empty()
    } else {
        let rest = matching_begins(events.drop_last(), mine, me, other);
        match resolve_event(events.last(), mine) {
            Some(r) => if r.0 == me && r.1 == other {
                rest.push(r.2)
            } else {
                rest
            },
            None => rest,
        }
    }
}

/// The overlap set of one owned entity.
pub struct OverlapEntry {
    pub key: u64,
    pub others: Vec<u64>,
}

/// Live adjacency sets, one entry per owned entity that currently overlaps
/// anything.
pub struct CollisionCache {
    pub entries: Vec<OverlapEntry>,
}

impl CollisionCache {
    /// Structural invariant: entry keys are unique, and every entry's
    /// overlap set is non-empty and duplicate-free — an entity appears as
    /// a key exactly while something overlaps it.
    pub open spec fn wf(self) -> bool {
        &&& forall|i: int, j: int|
            0 <= i < j < self.entries@.len() ==> self.entries@[i].key != self.entries@[j].key
        &&& forall|i: int|
            0 <= i < self.entries@.len() ==> (#[trigger] self.entries@[i]).others@.len() > 0
                && self.entries@[i].others@.no_duplicates()
    }

    pub open spec fn spec_contains_key(self, k: u64) -> bool {
        exists|i: int| 0 <= i < self.entries@.len() && self.entries@[i].key == k
    }

    pub open spec fn spec_contains_pair(self, me: u64, other: u64) -> bool {
        exists|i: int|
            0 <= i < self.entries@.len() && self.entries@[i].key == me
                && self.entries@[i].others@.contains(other)
    }

    pub fn new() -> (r: CollisionCache)
        ensures
            r.wf(),
            forall|m: u64, o: u64| !r.spec_contains_pair(m, o),
            forall|k: u64| !r.spec_contains_key(k),
    {
        CollisionCache { entries: Vec::new() }
    }

    /// An entity has an entry exactly while its overlap set is non-empty.
    pub proof fn lemma_key_iff_overlap(self, k: u64)
        requires
            self.wf(),
        ensures
            self.spec_contains_key(k) <==> exists|o: u64| self.spec_contains_pair(k, o),
    {
        if self.spec_contains_key(k) {
            let i = choose|i: int| 0 <= i < self.entries@.len() && self.entries@[i].key == k;
            let o = self.entries@[i].others@[0];
            assert(self.entries@[i].others@.contains(o));
            assert(self.spec_contains_pair(k, o));
        }
    }

    fn find_key(&self, k: u64) -> (r: Option<usize>)
        ensures
            match r {
                Some(i) => i < self.entries@.len() && self.entries@[i as int].key == k,
                None => !self.spec_contains_key(k),
            },
    {
        let mut i: usize = 0;
        while i < self.entries.len()
            invariant
                i <= self.entries@.len(),
                forall|j: int| 0 <= j < i ==> self.entries@[j].key != k,
            decreases self.entries@.len() - i,
        {
            if self.entries[i].key == k {
                return Some(i);
            }
            i += 1;
        }
        None
    }

    /// Whether `other` currently overlaps the owned entity `me`.
    pub fn contains_pair(&self, me: u64, other: u64) -> (r: bool)
        requires
            self.wf(),
        ensures
            r == self.spec_contains_pair(me, other),
    {
        match self.find_key(me) {
            Some(i) => {
                let r = vec_contains_u64(&self.entries[i].others, other);
                proof {
                    if self.spec_contains_pair(me, other) {
                        let j = choose|j: int|
                            0 <= j < self.entries@.len() && self.entries@[j].key == me
                                && self.entries@[j].others@.contains(other);
                        assert(j == i as int);
                    }
                }
                r
            },
            None => false,
        }
    }

    /// The entities currently overlapping the owned entity `me` — for a
    /// portal's push sensor, the same-team robots in its zone this tick.
    pub fn overlaps_of(&self, me: u64) -> (r: Vec<u64>)
        requires
            self.wf(),
        ensures
            forall|o: u64| #[trigger] r@.contains(o) == self.spec_contains_pair(me, o),
    {
        match self.find_key(me) {
            Some(i) => {
                let src = &self.entries[i].others;
                let mut r: Vec<u64> = Vec::new();
                let mut k: usize = 0;
                while k < src.len()
                    invariant
                        k <= src@.len(),
                        r@ == src@.take(k as int),
                    decreases src@.len() - k,
                {
                    proof {
                        assert(src@.take(k as int + 1) =~= src@.take(k as int).push(
                            src@[k as int],
                        ));
                    }
                    r.push(src[k]);
                    k += 1;
                }
                proof {
                    assert(src@.take(src@.len() as int) =~= src@);
                    assert forall|o: u64| #[trigger] r@.contains(o) implies self.spec_contains_pair(
                        me,
                        o,
                    ) by {
                        assert(self.entries@[i as int].key == me);
                    }
                    assert forall|o: u64| self.spec_contains_pair(me, o) implies r@.contains(o) by {
                        let j = choose|j: int|
                            0 <= j < self.entries@.len() && self.entries@[j].key == me
                                && self.entries@[j].others@.contains(o);
                        assert(j == i as int);
                    }
                }
                r
            },
            None => {
                let r: Vec<u64> = Vec::new();
                proof {
                    assert forall|o: u64| !self.spec_contains_pair(me, o) by {
                        if self.spec_contains_pair(me, o) {
                            assert(self.spec_contains_key(me));
                        }
                    }
                }
                r
            },
        }
    }

    /// Record an overlap begin: insert `other` into `me`'s set, creating
    /// the entry if absent.  Inserting an already-present pair changes
    /// nothing (idempotent begin).
    fn insert_pair(&mut self, me: u64, other: u64)
        requires
            old(self).wf(),
        ensures
            final(self).wf(),
            forall|m: u64, o: u64|
                #[trigger] final(self).spec_contains_pair(m, o) <==> (old(self).spec_contains_pair(
                    m,
                    o,
                ) || (m == me && o == other)),
    {
        let ghost pre = *self;
        match self.find_key(me) {
            Some(i) => {
                if !vec_contains_u64(&self.entries[i].others, other) {
                    let entry = &mut self.entries[i];
                    entry.others.push(other);
                }
                proof {
                    assert forall|m: u64, o: u64|
                        #[trigger] self.spec_contains_pair(m, o) <==> (pre.spec_contains_pair(m, o)
                            || (m == me && o == other)) by {
                        if pre.spec_contains_pair(m, o) {
                            let j = choose|j: int|
                                0 <= j < pre.entries@.len() && pre.entries@[j].key == m
                                    && pre.entries@[j].others@.contains(o);
                            assert(self.entries@[j].key == m);
                            assert(self.entries@[j].others@.contains(o));
                        }
                        if m == me && o == other {
                            assert(self.entries@[i as int].key == me);
                            assert(self.entries@[i as int].others@.contains(other));
                        }
                        if self.spec_contains_pair(m, o) {
                            let j = choose|j: int|
                                0 <= j < self.entries@.len() && self.entries@[j].key == m
                                    && self.entries@[j].others@.contains(o);
                            if j != i as int {
                                assert(pre.entries@[j] == self.entries@[j]);
                            }
                        }
                    }
                }
            },
            None => {
                let mut others: Vec<u64> = Vec::new();
                others.push(other);
                self.entries.push(OverlapEntry { key: me, others });
                proof {
                    let n = pre.entries@.len() as int;
                    assert forall|m: u64, o: u64|
                        #[trigger] self.spec_contains_pair(m, o) <==> (pre.spec_contains_pair(m, o)
                            || (m == me && o == other)) by {
                        if pre.spec_contains_pair(m, o) {
                            let j = choose|j: int|
                                0 <= j < pre.entries@.len() && pre.entries@[j].key == m
                                    && pre.entries@[j].others@.contains(o);
                            assert(self.entries@[j].key == m);
                            assert(self.entries@[j].others@.contains(o));
                        }
                        if m == me && o == other {
                            assert(self.entries@[n].key == me);
                            assert(self.entries@[n].others@[0] == other);
                            assert(self.entries@[n].others@.contains(other));
                        }
                        if self.spec_contains_pair(m, o) {
                            let j = choose|j: int|
                                0 <= j < self.entries@.len() && self.entries@[j].key == m
                                    && self.entries@[j].others@.contains(o);
                            if j < n {
                                assert(pre.entries@[j] == self.entries@[j]);
                            }
                        }
                    }
                    assert forall|i2: int, j2: int|
                        0 <= i2 < j2 < self.entries@.len() implies self.entries@[i2].key
                        != self.entries@[j2].key by {
                        if j2 == n {
                            assert(!pre.spec_contains_key(me));
                        }
                    }
                }
            },
        }
    }

    /// Record an overlap end: remove `other` from `me`'s set; when the set
    /// empties, the entry itself goes.  Ending an absent pair changes
    /// nothing.
    fn remove_pair(&mut self, me: u64, other: u64)
        requires
            old(self).wf(),
        ensures
            final(self).wf(),
            forall|m: u64, o: u64|
                #[trigger] final(self).spec_contains_pair(m, o) <==> (old(self).spec_contains_pair(
                    m,
                    o,
                ) && !(m == me && o == other)),
    {
        let ghost pre = *self;
        match self.find_key(me) {
            Some(i) => {
                let p = vec_find_u64(&self.entries[i].others, other);
                match p {
                    Some(p) => {
                        let ghost old_others = self.entries@[i as int].others@;
                        let entry = &mut self.entries[i];
                        entry.others.remove(p);
                        proof {
                            lemma_remove_keeps_distinct(old_others, p as int);
                        }
                        if self.entries[i].others.len() == 0 {
                            self.entries.remove(i);
                            proof {
                                pre.entries@.remove_ensures(i as int);
                                assert forall|m: u64, o: u64|
                                    #[trigger] self.spec_contains_pair(m, o) <==> (
                                    pre.spec_contains_pair(m, o) && !(m == me && o == other)) by {
                                    if self.spec_contains_pair(m, o) {
                                        let j = choose|j: int|
                                            0 <= j < self.entries@.len() && self.entries@[j].key
                                                == m && self.entries@[j].others@.contains(o);
                                        if j < i as int {
                                            assert(pre.entries@[j] == self.entries@[j]);
                                            assert(m != me);
                                        } else {
                                            assert(pre.entries@[j + 1] == self.entries@[j]);
                                            assert(m != me);
                                        }
                                    }
                                    if pre.spec_contains_pair(m, o) && !(m == me && o == other) {
                                        let j = choose|j: int|
                                            0 <= j < pre.entries@.len() && pre.entries@[j].key == m
                                                && pre.entries@[j].others@.contains(o);
                                        if j == i as int {
                                            assert(m == me);
                                            assert(old_others.contains(o));
                                            assert(o == other);
                                        } else if j < i as int {
                                            assert(self.entries@[j] == pre.entries@[j]);
                                        } else {
                                            assert(self.entries@[j - 1] == pre.entries@[j]);
                                        }
                                    }
                                }
                                assert forall|i2: int, j2: int|
                                    0 <= i2 < j2 < self.entries@.len() implies self.entries@[i2].key
                                    != self.entries@[j2].key by {
                                    let i0: int = if i2 < i as int {
                                        i2
                                    } else {
                                        i2 + 1
                                    };
                                    let j0: int = if j2 < i as int {
                                        j2
                                    } else {
                                        j2 + 1
                                    };
                                    assert(self.entries@[i2] == pre.entries@[i0]);
                                    assert(self.entries@[j2] == pre.entries@[j0]);
                                }
                                assert forall|i2: int|
                                    0 <= i2 < self.entries@.len() implies (
                                    #[trigger] self.entries@[i2]).others@.len() > 0
                                    && self.entries@[i2].others@.no_duplicates() by {
                                    let i0: int = if i2 < i as int {
                                        i2
                                    } else {
                                        i2 + 1
                                    };
                                    assert(self.entries@[i2] == pre.entries@[i0]);
                                }
                            }
                        } else {
                            proof {
                                assert forall|m: u64, o: u64|
                                    #[trigger] self.spec_contains_pair(m, o) <==> (
                                    pre.spec_contains_pair(m, o) && !(m == me && o == other)) by {
                                    if self.spec_contains_pair(m, o) {
                                        let j = choose|j: int|
                                            0 <= j < self.entries@.len() && self.entries@[j].key
                                                == m && self.entries@[j].others@.contains(o);
                                        if j != i as int {
                                            assert(pre.entries@[j] == self.entries@[j]);
                                        } else {
                                            assert(old_others.contains(o) && o != other);
                                        }
                                    }
                                    if pre.spec_contains_pair(m, o) && !(m == me && o == other) {
                                        let j = choose|j: int|
                                            0 <= j < pre.entries@.len() && pre.entries@[j].key == m
                                                && pre.entries@[j].others@.contains(o);
                                        if j == i as int {
                                            assert(m == me && o != other);
                                            assert(self.entries@[j].others@.contains(o));
                                        } else {
                                            assert(self.entries@[j] == pre.entries@[j]);
                                        }
                                    }
                                }
                            }
                        }
                    },
                    None => {
                        proof {
                            assert forall|m: u64, o: u64|
                                #[trigger] self.spec_contains_pair(m, o) <==> (
                                pre.spec_contains_pair(m, o) && !(m == me && o == other)) by {
                                if pre.spec_contains_pair(m, o) && m == me && o == other {
                                    let j = choose|j: int|
                                        0 <= j < pre.entries@.len() && pre.entries@[j].key == m
                                            && pre.entries@[j].others@.contains(o);
                                    assert(j == i as int);
                                }
                            }
                        }
                    },
                }
            },
            None => {
                proof {
                    assert forall|m: u64, o: u64|
                        #[trigger] self.spec_contains_pair(m, o) <==> (pre.spec_contains_pair(m, o)
                            && !(m == me && o == other)) by {
                        if pre.spec_contains_pair(m, o) && m == me && o == other {
                            assert(pre.spec_contains_key(me));
                        }
                    }
                }
            },
        }
    }

    /// Fold one tick's worth of begin/end events into the cache.  `mine`
    /// lists the entity ids this consumer owns; for each event the owned
    /// participant keys the update and the other participant is inserted
    /// or removed, while pairs owning neither participant are ignored.
    /// Afterwards a pair is live exactly as the event stream dictates.
    pub fn cache_collisions(&mut self, events: &Vec<CollisionEvent>, mine: &Vec<u64>)
        requires
            old(self).wf(),
        ensures
            final(self).wf(),
            forall|m: u64, o: u64|
                #[trigger] final(self).spec_contains_pair(m, o) == pair_live_after(
                    events@,
                    mine@,
                    m,
                    o,
                    old(self).spec_contains_pair(m, o),
                ),
    {
        let ghost pre = *self;
        let mut k: usize = 0;
        while k < events.len()
            invariant
                k <= events@.len(),
                self.wf(),
                forall|m: u64, o: u64|
                    #[trigger] self.spec_contains_pair(m, o) == pair_live_after(
                        events@.take(k as int),
                        mine@,
                        m,
                        o,
                        pre.spec_contains_pair(m, o),
                    ),
            decreases events@.len() - k,
        {
            let ghost prefix = events@.take(k as int);
            let ghost prefix1 = events@.take(k as int + 1);
            proof {
                assert(prefix1.drop_last() =~= prefix);
                assert(prefix1.last() == events@[k as int]);
            }
            let ev = events[k];
            let (a, b, beg) = match ev {
                CollisionEvent::Begin(a, b) => (a, b, true),
                CollisionEvent::End(a, b) => (a, b, false),
            };
            if vec_contains_u64(mine, a) {
                if beg {
                    self.insert_pair(a, b);
                } else {
                    self.remove_pair(a, b);
                }
            } else if vec_contains_u64(mine, b) {
                if beg {
                    self.insert_pair(b, a);
                } else {
                    self.remove_pair(b, a);
                }
            }
            k += 1;
        }
        proof {
            assert(events@.take(events@.len() as int) =~= events@);
        }
    }
}

/// The live state of a pair is decided by its most recent matching event:
/// the begin flag of the last event resolving to the pair, or the initial
/// state when none does.
pub proof fn lemma_pair_live_is_last_matching(
    events: Seq<CollisionEvent>,
    mine: Seq<u64>,
    me: u64,
    other: u64,
    init: bool,
)
    ensures
        ({
            let ms = matching_begins(events, mine, me, other);
            pair_live_after(events, mine, me, other, init) == if ms.len() == 0 {
                init
            } else {
                ms.last()
            }
        }),
    decreases events.len(),
{
    if events.len() > 0 {
        lemma_pair_live_is_last_matching(events.drop_last(), mine, me, other, init);
    }
}

/// Round trip: when the events resolving to a given pair alternate
/// begin/end in equal numbers — each begin matched by a later end — the
/// pair is absent from a cache that started without it, whatever unrelated
/// events surround them.
pub proof fn lemma_cache_round_trip(
    events: Seq<CollisionEvent>,
    mine: Seq<u64>,
    me: u64,
    other: u64,
)
    requires
        ({
            let ms = matching_begins(events, mine, me, other);
            ms.len() % 2 == 0 && (forall|i: int| 0 <= i < ms.len() ==> ms[i] == (i % 2 == 0))
        }),
    ensures
        !pair_live_after(events, mine, me, other, false),
{
    lemma_pair_live_is_last_matching(events, mine, me, other, false);
    let ms = matching_begins(events, mine, me, other);
    if ms.len() != 0 {
        assert(ms.last() == ((ms.len() - 1) % 2 == 0));
        assert((ms.len() - 1) % 2 == 1);
    }
}

} // verus!
