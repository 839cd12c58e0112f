//! Hit points of robots and portals, and the death rule.
//!
//! Each bullet hit costs one point; an entity whose current points reach
//! zero or less is marked dead and consumed by a later sweep.

use vstd::prelude::*;

verus! {

/// A robot leaves its portal with this many hit points.
pub const ROBOT_START_HP: i32 = 5;

/// A portal starts with this many hit points.
pub const PORTAL_START_HP: i32 = 50;

/// Remaining and maximal hit points of a robot or portal.
#[derive(Clone, Copy, PartialEq, Eq, Structural, Debug)]
pub struct Life {
    pub max_hp: i32,
    pub curr_hp: i32,
}

impl Life {
    /// A fresh entity starts at its full hit points.
    pub fn new(max_hp: i32) -> (r: Life)
        ensures
            r.max_hp == max_hp,
            r.curr_hp == max_hp,
    {
        Life { max_hp, curr_hp: max_hp }
    }

    /// Lose `amount` points, as a bullet hit (amount 1) does.
    pub fn apply_damage(&mut self, amount: i32)
        requires
            0 <= amount,
            i32::MIN + amount <= old(self).curr_hp,
        ensures
            final(self).curr_hp == old(self).curr_hp - amount,
            final(self).max_hp == old(self).max_hp,
    {
        self.curr_hp = self.curr_hp - amount;
    }

    pub open spec fn spec_depleted(self) -> bool {
        self.curr_hp <= 0
    }

    /// Whether the owner has crossed the death threshold and is due to be
    /// marked dead.
    pub fn is_depleted(&self) -> (r: bool)
        ensures
            r == self.spec_depleted(),
    {
        self.curr_hp <= 0
    }
}

} // verus!
