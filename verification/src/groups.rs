//! Collision-group filtering.
//!
//! The physics collaborator restricts which shape pairs may generate
//! overlap events by a bitmask pairing: each shape carries a membership
//! mask and a filter mask, and two shapes interact only when each one's
//! membership intersects the other's filter.  The group assignments here
//! are what make every gadget sensor team-exclusive: a player gadget
//! sensor admits player robots only, an enemy sensor enemy robots only.

use vstd::prelude::*;

verus! {

use crate::team::Team;

/// One bit per object class, combined into membership and filter masks.
pub struct ObjectGroup;

impl ObjectGroup {
    pub const PLAYER_ROBOT: u32 = 1u32 << 1;

    pub const ENEMY_ROBOT: u32 = 1u32 << 2;

    pub const WALL: u32 = 1u32 << 3;

    pub const ROBOT_STEERING_SENSOR: u32 = 1u32 << 4;

    pub const PLAYER_PORTAL: u32 = 1u32 << 5;

    pub const ENEMY_PORTAL: u32 = 1u32 << 6;

    pub const PLAYER_ARROW_SENSOR: u32 = 1u32 << 7;

    pub const ENEMY_ARROW_SENSOR: u32 = 1u32 << 8;

    pub const PLAYER_PORTAL_SENSOR: u32 = 1u32 << 9;

    pub const ENEMY_PORTAL_SENSOR: u32 = 1u32 << 10;

    pub const CLICKABLE: u32 = 1u32 << 11;

    pub const PLAYER_TARGETING_SENSOR: u32 = 1u32 << 12;

    pub const ENEMY_TARGETING_SENSOR: u32 = 1u32 << 13;

    pub const PLAYER_BULLET: u32 = 1u32 << 14;

    pub const ENEMY_BULLET: u32 = 1u32 << 15;

    pub const PLAYER_FORK_SENSOR: u32 = 1u32 << 16;

    pub const ENEMY_FORK_SENSOR: u32 = 1u32 << 17;

    pub const PLAYER_GROUPER_SENSOR: u32 = 1u32 << 18;

    pub const ENEMY_GROUPER_SENSOR: u32 = 1u32 << 19;

    pub const PLAYER_DEFENDER_SENSOR: u32 = 1u32 << 20;

    pub const ENEMY_DEFENDER_SENSOR: u32 = 1u32 << 21;
}

/// A shape's broad-phase identity: what it is, and what it interacts
/// with.
#[derive(Clone, Copy, PartialEq, Eq, Structural, Debug)]
pub struct CollisionGroups {
    pub memberships: u32,
    pub filters: u32,
}

/// Build a group pairing from a membership mask and a filter mask.
pub fn coll_groups(members: u32, filters: u32) -> (r: CollisionGroups)
    ensures
        r.memberships == members,
        r.filters == filters,
{
    CollisionGroups { memberships: members, filters }
}

/// The pairing rule of the physics collaborator: two shapes may generate
/// overlap events only when each one's membership intersects the other's
/// filter.
pub open spec fn spec_pairs(a: CollisionGroups, b: CollisionGroups) -> bool {
    (a.memberships & b.filters) != 0 && (b.memberships & a.filters) != 0
}

/// Whether two shapes may generate overlap events against each other.
pub fn pairs_with(a: CollisionGroups, b: CollisionGroups) -> (r: bool)
    ensures
        r == spec_pairs(a, b),
{
    (a.memberships & b.filters) != 0 && (b.memberships & a.filters) != 0
}

/// The mask naming a team's robots.
pub fn robot_member_bit(team: Team) -> (r: u32)
    ensures
        r == (if team == Team::Player {
            ObjectGroup::PLAYER_ROBOT
        } else {
            ObjectGroup::ENEMY_ROBOT
        }),
{
    match team {
        Team::Player => ObjectGroup::PLAYER_ROBOT,
        Team::Enemy => ObjectGroup::ENEMY_ROBOT,
    }
}

/// The groups of a robot body: a member of its team's robot class that
/// interacts with both robot classes, walls, every same-team gadget and
/// portal sensor, the steering sensor, and the opposing side's targeting
/// sensors, bullets and portals.
pub fn robot_groups(team: Team) -> (r: CollisionGroups)
    ensures
        r.memberships == (if team == Team::Player {
            ObjectGroup::PLAYER_ROBOT
        } else {
            ObjectGroup::ENEMY_ROBOT
        }),
{
    match team {
        Team::Player => coll_groups(
            ObjectGroup::PLAYER_ROBOT,
            ObjectGroup::ENEMY_ROBOT | ObjectGroup::WALL | ObjectGroup::PLAYER_PORTAL_SENSOR
                | ObjectGroup::PLAYER_ROBOT | ObjectGroup::PLAYER_ARROW_SENSOR
                | ObjectGroup::ROBOT_STEERING_SENSOR | ObjectGroup::ENEMY_TARGETING_SENSOR
                | ObjectGroup::ENEMY_BULLET | ObjectGroup::ENEMY_PORTAL
                | ObjectGroup::PLAYER_FORK_SENSOR | ObjectGroup::PLAYER_GROUPER_SENSOR
                | ObjectGroup::PLAYER_DEFENDER_SENSOR,
        ),
        Team::Enemy => coll_groups(
            ObjectGroup::ENEMY_ROBOT,
            ObjectGroup::PLAYER_ROBOT | ObjectGroup::WALL | ObjectGroup::ENEMY_PORTAL_SENSOR
                | ObjectGroup::ENEMY_ROBOT | ObjectGroup::ENEMY_ARROW_SENSOR
                | ObjectGroup::ROBOT_STEERING_SENSOR | ObjectGroup::PLAYER_TARGETING_SENSOR
                | ObjectGroup::PLAYER_BULLET | ObjectGroup::PLAYER_PORTAL
                | ObjectGroup::ENEMY_FORK_SENSOR | ObjectGroup::ENEMY_GROUPER_SENSOR
                | ObjectGroup::ENEMY_DEFENDER_SENSOR,
        ),
    }
}

/// The groups of an arrow's robot sensor: it admits its own team's robots
/// and nothing else.
pub fn arrow_sensor_groups(team: Team) -> (r: CollisionGroups)
    ensures
        r == (if team == Team::Player {
            CollisionGroups {
                memberships: ObjectGroup::PLAYER_ARROW_SENSOR,
                filters: ObjectGroup::PLAYER_ROBOT,
            }
        } else {
            CollisionGroups {
                memberships: ObjectGroup::ENEMY_ARROW_SENSOR,
                filters: ObjectGroup::ENEMY_ROBOT,
            }
        }),
{
    match team {
        Team::Player => coll_groups(ObjectGroup::PLAYER_ARROW_SENSOR, ObjectGroup::PLAYER_ROBOT),
        Team::Enemy => coll_groups(ObjectGroup::ENEMY_ARROW_SENSOR, ObjectGroup::ENEMY_ROBOT),
    }
}

/// The groups of a fork's robot sensor: same-team robots only.
pub fn fork_sensor_groups(team: Team) -> (r: CollisionGroups)
    ensures
        r == (if team == Team::Player {
            CollisionGroups {
                memberships: ObjectGroup::PLAYER_FORK_SENSOR,
                filters: ObjectGroup::PLAYER_ROBOT,
            }
        } else {
            CollisionGroups {
                memberships: ObjectGroup::ENEMY_FORK_SENSOR,
                filters: ObjectGroup::ENEMY_ROBOT,
            }
        }),
{
    match team {
        Team::Player => coll_groups(ObjectGroup::PLAYER_FORK_SENSOR, ObjectGroup::PLAYER_ROBOT),
        Team::Enemy => coll_groups(ObjectGroup::ENEMY_FORK_SENSOR, ObjectGroup::ENEMY_ROBOT),
    }
}

/// The groups of a grouper's robot sensor: same-team robots only.
pub fn grouper_sensor_groups(team: Team) -> (r: CollisionGroups)
    ensures
        r == (if team == Team::Player {
            CollisionGroups {
                memberships: ObjectGroup::PLAYER_GROUPER_SENSOR,
                filters: ObjectGroup::PLAYER_ROBOT,
            }
        } else {
            CollisionGroups {
                memberships: ObjectGroup::ENEMY_GROUPER_SENSOR,
                filters: ObjectGroup::ENEMY_ROBOT,
            }
        }),
{
    match team {
        Team::Player => coll_groups(ObjectGroup::PLAYER_GROUPER_SENSOR, ObjectGroup::PLAYER_ROBOT),
        Team::Enemy => coll_groups(ObjectGroup::ENEMY_GROUPER_SENSOR, ObjectGroup::ENEMY_ROBOT),
    }
}

/// The groups of a defender's robot sensor: same-team robots only.
pub fn defender_sensor_groups(team: Team) -> (r: CollisionGroups)
    ensures
        r == (if team == Team::Player {
            CollisionGroups {
                memberships: ObjectGroup::PLAYER_DEFENDER_SENSOR,
                filters: ObjectGroup::PLAYER_ROBOT,
            }
        } else {
            CollisionGroups {
                memberships: ObjectGroup::ENEMY_DEFENDER_SENSOR,
                filters: ObjectGroup::ENEMY_ROBOT,
            }
        }),
{
    match team {
        Team::Player => coll_groups(ObjectGroup::PLAYER_DEFENDER_SENSOR, ObjectGroup::PLAYER_ROBOT),
        Team::Enemy => coll_groups(ObjectGroup::ENEMY_DEFENDER_SENSOR, ObjectGroup::ENEMY_ROBOT),
    }
}

/// The groups of a portal's push sensor: same-team robots only.
pub fn portal_sensor_groups(team: Team) -> (r: CollisionGroups)
    ensures
        r == (if team == Team::Player {
            CollisionGroups {
                memberships: ObjectGroup::PLAYER_PORTAL_SENSOR,
                filters: ObjectGroup::PLAYER_ROBOT,
            }
        } else {
            CollisionGroups {
                memberships: ObjectGroup::ENEMY_PORTAL_SENSOR,
                filters: ObjectGroup::ENEMY_ROBOT,
            }
        }),
{
    match team {
        Team::Player => coll_groups(ObjectGroup::PLAYER_PORTAL_SENSOR, ObjectGroup::PLAYER_ROBOT),
        Team::Enemy => coll_groups(ObjectGroup::ENEMY_PORTAL_SENSOR, ObjectGroup::ENEMY_ROBOT),
    }
}

/// The groups of a portal body: the opposing side's robots, bullets and
/// targeting sensors see it — its destruction is their goal.
pub fn portal_groups(team: Team) -> (r: CollisionGroups)
    ensures
        r == (if team == Team::Player {
            CollisionGroups {
                memberships: ObjectGroup::PLAYER_PORTAL,
                filters: ObjectGroup::ENEMY_ROBOT | ObjectGroup::ENEMY_BULLET
                    | ObjectGroup::ENEMY_TARGETING_SENSOR,
            }
        } else {
            CollisionGroups {
                memberships: ObjectGroup::ENEMY_PORTAL,
                filters: ObjectGroup::PLAYER_ROBOT | ObjectGroup::PLAYER_BULLET
                    | ObjectGroup::PLAYER_TARGETING_SENSOR,
            }
        }),
{
    match team {
        Team::Player => coll_groups(
            ObjectGroup::PLAYER_PORTAL,
            ObjectGroup::ENEMY_ROBOT | ObjectGroup::ENEMY_BULLET
                | ObjectGroup::ENEMY_TARGETING_SENSOR,
        ),
        Team::Enemy => coll_groups(
            ObjectGroup::ENEMY_PORTAL,
            ObjectGroup::PLAYER_ROBOT | ObjectGroup::PLAYER_BULLET
                | ObjectGroup::PLAYER_TARGETING_SENSOR,
        ),
    }
}

/// The groups of a wall collider: both robot classes and the steering
/// sensor feel it.
pub fn wall_groups() -> (r: CollisionGroups)
    ensures
        r == (CollisionGroups {
            memberships: ObjectGroup::WALL,
            filters: ObjectGroup::ENEMY_ROBOT | ObjectGroup::PLAYER_ROBOT
                | ObjectGroup::ROBOT_STEERING_SENSOR,
        }),
{
    coll_groups(
        ObjectGroup::WALL,
        ObjectGroup::ENEMY_ROBOT | ObjectGroup::PLAYER_ROBOT | ObjectGroup::ROBOT_STEERING_SENSOR,
    )
}

} // verus!
