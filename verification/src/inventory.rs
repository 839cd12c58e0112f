//! Per-session gadget inventory: one counter per gadget kind, consumed on
//! placement, refunded on reclaim, reset to level-defined amounts on load.

use vstd::prelude::*;

verus! {

/// The four placeable directional gadget kinds.
#[derive(Clone, Copy, PartialEq, Eq, Structural, Debug)]
pub enum GadgetKind {
    Arrow,
    Fork,
    Grouper,
    Defender,
}

/// How many gadgets of each kind the player may still place.
#[derive(Clone, Copy, PartialEq, Eq, Structural, Debug)]
pub struct Inventory {
    pub arrow_count: u32,
    pub fork_count: u32,
    pub grouper_count: u32,
    pub defender_count: u32,
}

impl Inventory {
    pub open spec fn spec_count(self, kind: GadgetKind) -> u32 {
        match kind {
            GadgetKind::Arrow => self.arrow_count,
            GadgetKind::Fork => self.fork_count,
            GadgetKind::Grouper => self.grouper_count,
            GadgetKind::Defender => self.defender_count,
        }
    }

    pub open spec fn spec_with_count(self, kind: GadgetKind, n: u32) -> Inventory {
        match kind {
            GadgetKind::Arrow => Inventory { arrow_count: n, ..self },
            GadgetKind::Fork => Inventory { fork_count: n, ..self },
            GadgetKind::Grouper => Inventory { grouper_count: n, ..self },
            GadgetKind::Defender => Inventory { defender_count: n, ..self },
        }
    }

    /// The level-defined starting counts, applied on (re)load.
    pub fn reset(arrows: u32, forks: u32, groupers: u32, defenders: u32) -> (r: Inventory)
        ensures
            r.arrow_count == arrows,
            r.fork_count == forks,
            r.grouper_count == groupers,
            r.defender_count == defenders,
    {
        Inventory {
            arrow_count: arrows,
            fork_count: forks,
            grouper_count: groupers,
            defender_count: defenders,
        }
    }

    pub fn count(&self, kind: GadgetKind) -> (r: u32)
        ensures
            r == self.spec_count(kind),
    {
        match kind {
            GadgetKind::Arrow => self.arrow_count,
            GadgetKind::Fork => self.fork_count,
            GadgetKind::Grouper => self.grouper_count,
            GadgetKind::Defender => self.defender_count,
        }
    }

    /// Whether a new placement drag of this kind may begin: at least one
    /// unit left and no drag already in flight.  At zero the initiation is
    /// simply refused.
    pub fn can_start_drag(&self, kind: GadgetKind, already_dragging: bool) -> (r: bool)
        ensures
            r == (self.spec_count(kind) > 0 && !already_dragging),
    {
        self.count(kind) > 0 && !already_dragging
    }

    /// Consume one unit on commit.  Fails, changing nothing, when the
    /// counter is already zero.
    pub fn try_consume(&mut self, kind: GadgetKind) -> (r: bool)
        ensures
            r == (old(self).spec_count(kind) > 0),
            r ==> *final(self) == old(self).spec_with_count(
                kind,
                (old(self).spec_count(kind) - 1) as u32,
            ),
            !r ==> *final(self) == *old(self),
    {
        let c = self.count(kind);
        if c == 0 {
            return false;
        }
        match kind {
            GadgetKind::Arrow => {
                self.arrow_count = c - 1;
            },
            GadgetKind::Fork => {
                self.fork_count = c - 1;
            },
            GadgetKind::Grouper => {
                self.grouper_count = c - 1;
            },
            GadgetKind::Defender => {
                self.defender_count = c - 1;
            },
        }
        true
    }

    /// Return one unit when a placed gadget is reclaimed by a click.
    pub fn refund(&mut self, kind: GadgetKind)
        requires
            old(self).spec_count(kind) < u32::MAX,
        ensures
            *final(self) == old(self).spec_with_count(
                kind,
                (old(self).spec_count(kind) + 1) as u32,
            ),
    {
        let c = self.count(kind);
        match kind {
            GadgetKind::Arrow => {
                self.arrow_count = c + 1;
            },
            GadgetKind::Fork => {
                self.fork_count = c + 1;
            },
            GadgetKind::Grouper => {
                self.grouper_count = c + 1;
            },
            GadgetKind::Defender => {
                self.defender_count = c + 1;
            },
        }
    }
}

} // verus!
