//! The two sides of a match and the relation between them.

use vstd::prelude::*;

verus! {

/// Which side a robot, portal or gadget belongs to.  Every sensor in the
/// game is filtered so that a gadget only ever influences robots of its own
/// team, while combat (targeting, bullets) only crosses teams.
#[derive(Clone, Copy, PartialEq, Eq, Structural, Debug)]
pub enum Team {
    Player,
    Enemy,
}

impl Team {
    /// The team that this team fights: targeting sensors, bullets and the
    /// win/loss evaluation all look at the opposing side.
    pub fn opposing(self) -> (r: Team)
        ensures
            r == self.spec_opposing(),
    {
        match self {
            Team::Player => Team::Enemy,
            Team::Enemy => Team::Player,
        }
    }

    pub open spec fn spec_opposing(self) -> Team {
        match self {
            Team::Player => Team::Enemy,
            Team::Enemy => Team::Player,
        }
    }
}

/// Opposition swaps the two teams and nothing else: it is an involution,
/// and no team opposes itself.
pub proof fn lemma_opposing_involutive(t: Team)
    ensures
        t.spec_opposing().spec_opposing() == t,
        t.spec_opposing() != t,
{
}

} // verus!
