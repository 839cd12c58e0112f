//! The placement drag state machine.
//!
//! A placement in flight follows the mouse while `Dragging`, is
//! re-validated against the grid every tick, freezes on a valid drop into
//! `SettingDirection` (aiming around the frozen cell), and a second drop
//! commits it — consuming one inventory unit — while a cancel request
//! discards it from either live phase.  A drop requested while the
//! position is invalid is discarded and the state does not advance.

use vstd::prelude::*;

verus! {

use crate::grid::{GridCoords, LevelSizeInfo, coord_bounded, placement_valid, spec_placement_valid};
use crate::inventory::{GadgetKind, Inventory};

/// The lifecycle phase of one placement in flight.
#[derive(Clone, Copy, PartialEq, Eq, Debug)]
pub enum DragState {
    /// Following the mouse, re-validated every tick.
    Dragging,
    /// Translation frozen at the resolved cell; orientation follows the
    /// mouse around it.
    SettingDirection { anchor: GridCoords },
    /// Terminal: the real gadget was spawned and an inventory unit spent.
    Committed,
    /// Terminal: discarded without commit; nothing to refund, since
    /// inventory is only spent at commit.
    Cancelled,
}

/// One placement in flight: the gadget kind being placed, the phase, the
/// current validity tag, and the resolved cell while valid.
#[derive(Clone, Copy, PartialEq, Eq, Debug)]
pub struct DragSession {
    pub kind: GadgetKind,
    pub phase: DragState,
    pub valid: bool,
    pub coords: Option<GridCoords>,
}

/// Where a drop request leads: nowhere unless the position is valid;
/// from `Dragging` to `SettingDirection` anchored at the resolved cell;
/// from `SettingDirection` to `Committed`; terminal phases ignore it.
pub open spec fn spec_drop_step(s: DragSession) -> DragSession {
    if !s.valid {
        s
    } else {
        match s.phase {
            DragState::Dragging => match s.coords {
                Some(c) => DragSession { phase: DragState::SettingDirection { anchor: c }, ..s },
                None => s,
            },
            DragState::SettingDirection { anchor } => DragSession {
                phase: DragState::Committed,
                ..s
            },
            DragState::Committed => s,
            DragState::Cancelled => s,
        }
    }
}

/// Where a cancel request leads: both live phases are discarded; the
/// terminal phases ignore it.
pub open spec fn spec_cancel_step(s: DragSession) -> DragSession {
    match s.phase {
        DragState::Dragging => DragSession { phase: DragState::Cancelled, ..s },
        DragState::SettingDirection { anchor } => DragSession {
            phase: DragState::Cancelled,
            ..s
        },
        DragState::Committed => s,
        DragState::Cancelled => s,
    }
}

impl DragSession {
    /// A drag starts following the mouse, not yet valid anywhere.
    pub fn start(kind: GadgetKind) -> (r: DragSession)
        ensures
            r.kind == kind,
            r.phase == DragState::Dragging,
            !r.valid,
            r.coords.is_none(),
    {
        DragSession { kind, phase: DragState::Dragging, valid: false, coords: None }
    }

    /// The per-tick re-validation while dragging: the candidate cell under
    /// the mouse is checked against bounds, walls and gadget spacing; the
    /// validity tag and the resolved cell follow the check.  Outside the
    /// `Dragging` phase nothing changes (while aiming, the frozen cell's
    /// validity stands).
    pub fn revalidate(
        &mut self,
        c: GridCoords,
        info: &LevelSizeInfo,
        walls: &Vec<GridCoords>,
        occupied: &Vec<GridCoords>,
    )
        requires
            coord_bounded(c),
            forall|i: int| 0 <= i < occupied@.len() ==> coord_bounded(#[trigger] occupied@[i]),
        ensures
            final(self).kind == old(self).kind,
            final(self).phase == old(self).phase,
            old(self).phase != DragState::Dragging ==> *final(self) == *old(self),
            old(self).phase == DragState::Dragging ==> final(self).valid == spec_placement_valid(
                c,
                *info,
                walls@,
                occupied@,
            ) && final(self).coords == if final(self).valid {
                Some(c)
            } else {
                None::<GridCoords>
            },
    {
        if matches!(self.phase, DragState::Dragging) {
            let ok = placement_valid(c, info, walls, occupied);
            self.valid = ok;
            self.coords = if ok {
                Some(c)
            } else {
                None
            };
        }
    }

    /// A drop request: advances `Dragging → SettingDirection → Committed`
    /// when the position is valid, and is discarded otherwise.  The commit
    /// consumes one inventory unit of the session's kind; no other step
    /// touches the inventory.  Returns whether this request committed.
    pub fn drop_request(&mut self, inventory: &mut Inventory) -> (committed: bool)
        requires
            old(self).valid && matches!(
                old(self).phase,
                DragState::SettingDirection { .. },
            ) ==> old(inventory).spec_count(old(self).kind) > 0,
        ensures
            *final(self) == spec_drop_step(*old(self)),
            committed == (old(self).valid && matches!(
                old(self).phase,
                DragState::SettingDirection { .. },
            )),
            committed ==> *final(inventory) == old(inventory).spec_with_count(
                old(self).kind,
                (old(inventory).spec_count(old(self).kind) - 1) as u32,
            ),
            !committed ==> *final(inventory) == *old(inventory),
    {
        if !self.valid {
            return false;
        }
        match self.phase {
            DragState::Dragging => {
                match self.coords {
                    Some(c) => {
                        self.phase = DragState::SettingDirection { anchor: c };
                    },
                    None => {},
                }
                false
            },
            DragState::SettingDirection { anchor: _ } => {
                self.phase = DragState::Committed;
                inventory.try_consume(self.kind);
                true
            },
            DragState::Committed => false,
            DragState::Cancelled => false,
        }
    }

    /// A cancel request: discards the placement from either live phase
    /// without touching the inventory (nothing was spent yet).
    pub fn cancel_request(&mut self)
        ensures
            *final(self) == spec_cancel_step(*old(self)),
    {
        match self.phase {
            DragState::Dragging => {
                self.phase = DragState::Cancelled;
            },
            DragState::SettingDirection { anchor: _ } => {
                self.phase = DragState::Cancelled;
            },
            DragState::Committed => {},
            DragState::Cancelled => {},
        }
    }
}

/// The transition order of a placement is exactly
/// `Dragging → SettingDirection → Committed`, with `Cancelled` reachable
/// from the two live phases only; a drop request while invalid never
/// advances the phase, the only way into `SettingDirection` is a valid
/// drop while `Dragging`, the only way into `Committed` is a valid drop
/// while `SettingDirection`, and the terminal phases never change again.
pub proof fn lemma_drag_transition_order(s: DragSession, c: GridCoords)
    ensures
        !s.valid ==> spec_drop_step(s) == s,
        s.valid && s.phase == DragState::Dragging && s.coords == Some(c) ==> spec_drop_step(
            s,
        ).phase == (DragState::SettingDirection { anchor: c }),
        matches!(spec_drop_step(s).phase, DragState::SettingDirection { .. }) && s.phase
            != spec_drop_step(s).phase ==> s.valid && s.phase == DragState::Dragging,
        spec_drop_step(s).phase == DragState::Committed && s.phase != DragState::Committed
            ==> s.valid && matches!(s.phase, DragState::SettingDirection { .. }),
        spec_cancel_step(s).phase == DragState::Cancelled && s.phase != DragState::Cancelled
            ==> (s.phase == DragState::Dragging || matches!(
            s.phase,
            DragState::SettingDirection { .. },
        )),
        s.phase == DragState::Committed ==> spec_drop_step(s) == s && spec_cancel_step(s) == s,
        s.phase == DragState::Cancelled ==> spec_drop_step(s) == s && spec_cancel_step(s) == s,
{
}

} // verus!
