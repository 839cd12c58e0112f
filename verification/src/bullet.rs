//! Bullets and hit resolution.
//!
//! A cannon fires a bullet once its cooldown has completed, it holds a
//! target, and its barrel is aimed.  A bullet lives for a fixed time,
//! flies at constant speed (the physics collaborator moves it), and on
//! intersecting an opposing entity costs that entity one hit point and
//! despawns.

use vstd::prelude::*;

verus! {

use crate::team::Team;
use crate::hp::Life;

/// How long a bullet flies before despawning without a hit.
pub const BULLET_LIFETIME_MICROS: u64 = 2_000_000;

/// A bullet in flight: whose side fired it, and how far through its
/// lifetime it is.
#[derive(Clone, Copy, PartialEq, Eq, Structural, Debug)]
pub struct Bullet {
    pub team: Team,
    pub age_micros: u64,
}

impl Bullet {
    /// A freshly fired bullet.
    pub fn new(team: Team) -> (r: Bullet)
        ensures
            r.team == team,
            r.age_micros == 0,
    {
        Bullet { team, age_micros: 0 }
    }

    /// Age the bullet by `dt`; it expires — and is due to despawn — once
    /// its lifetime has elapsed.
    pub fn tick(&mut self, dt: u64) -> (expired: bool)
        requires
            old(self).age_micros <= BULLET_LIFETIME_MICROS,
        ensures
            final(self).team == old(self).team,
            expired == (old(self).age_micros + dt >= BULLET_LIFETIME_MICROS),
            final(self).age_micros == if old(self).age_micros + dt >= BULLET_LIFETIME_MICROS {
                BULLET_LIFETIME_MICROS
            } else {
                (old(self).age_micros + dt) as u64
            },
    {
        if dt >= BULLET_LIFETIME_MICROS - self.age_micros {
            self.age_micros = BULLET_LIFETIME_MICROS;
            true
        } else {
            self.age_micros = self.age_micros + dt;
            false
        }
    }
}

/// A cannon fires at most once per cooldown period.
pub const CANON_COOLDOWN_MICROS: u64 = 1_000_000;

/// The cannon's firing cooldown, counting integer microseconds.  It
/// starts primed, so the first shot needs no wait, and it is restarted by
/// the caller with the next period — the original jitters each period
/// around the base by a random offset, and that offset arrives here as a
/// plain value.
#[derive(Clone, Copy, PartialEq, Eq, Structural, Debug)]
pub struct CanonCooldown {
    pub period_micros: u64,
    pub elapsed_micros: u64,
}

impl CanonCooldown {
    /// The elapsed time never runs past the period.
    pub open spec fn wf(self) -> bool {
        self.elapsed_micros <= self.period_micros
    }

    /// A fresh cooldown is primed: the cannon may fire at once.
    pub fn new(period_micros: u64) -> (r: CanonCooldown)
        ensures
            r.wf(),
            r.period_micros == period_micros,
            r.elapsed_micros == period_micros,
    {
        CanonCooldown { period_micros, elapsed_micros: period_micros }
    }

    /// Advance the cooldown by `dt` microseconds.  It reads ready exactly
    /// when the period has elapsed, and stays ready — it does not restart
    /// itself, since a ready cannon may still be waiting for a target or
    /// for its aim.
    pub fn tick(&mut self, dt: u64) -> (ready: bool)
        requires
            old(self).wf(),
        ensures
            final(self).wf(),
            final(self).period_micros == old(self).period_micros,
            ready == (old(self).elapsed_micros + dt >= old(self).period_micros),
            final(self).elapsed_micros == if old(self).elapsed_micros + dt >= old(
                self,
            ).period_micros {
                old(self).period_micros
            } else {
                (old(self).elapsed_micros + dt) as u64
            },
    {
        if dt >= self.period_micros - self.elapsed_micros {
            self.elapsed_micros = self.period_micros;
            true
        } else {
            self.elapsed_micros = self.elapsed_micros + dt;
            false
        }
    }

    /// Restart the cooldown after it read ready, with the next period —
    /// the base period plus the caller's jitter offset.
    pub fn restart(&mut self, next_period_micros: u64)
        ensures
            final(self).wf(),
            final(self).period_micros == next_period_micros,
            final(self).elapsed_micros == 0,
    {
        self.period_micros = next_period_micros;
        self.elapsed_micros = 0;
    }
}

/// Resolve a bullet touching an entity: only an opposing entity is hit,
/// losing exactly one hit point; a same-team touch changes nothing.
/// Returns whether the hit landed — a landed hit despawns the bullet.
pub fn resolve_bullet_hit(bullet_team: Team, target_team: Team, target_life: &mut Life) -> (hit:
    bool)
    requires
        i32::MIN < old(target_life).curr_hp,
    ensures
        hit == (bullet_team != target_team),
        hit ==> *final(target_life) == (Life {
            curr_hp: (old(target_life).curr_hp - 1) as i32,
            ..*old(target_life)
        }),
        !hit ==> *final(target_life) == *old(target_life),
{
    let opposing = match (bullet_team, target_team) {
        (Team::Player, Team::Enemy) => true,
        (Team::Enemy, Team::Player) => true,
        _ => false,
    };
    if opposing {
        target_life.apply_damage(1);
        true
    } else {
        false
    }
}

/// The firing rule: a cannon fires exactly when its cooldown has
/// completed, it holds a live target, and the barrel is aimed within
/// tolerance of that target.
pub fn fire_decision(cooldown_ready: bool, has_target: bool, aimed: bool) -> (fire: bool)
    ensures
        fire == (cooldown_ready && has_target && aimed),
{
    cooldown_ready && has_target && aimed
}

} // verus!
