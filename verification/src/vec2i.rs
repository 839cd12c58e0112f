//! Fixed-point plane vectors.
//!
//! The physics collaborator works in floating point; this crate does not.
//! Directions and forces are carried as integer vectors in a fixed-point
//! scale chosen by the caller: a unit-length direction is scaled so that its
//! components are on the order of [`DIR_SCALE`].  The simulation logic only
//! stores, compares, adds and scales these vectors, so the integer model is
//! exact for everything the contracts speak about.

use vstd::prelude::*;

verus! {

/// Components of a unit-length direction vector are scaled by this factor:
/// a robot travelling straight right has engine direction `(1000, 0)`.
pub const DIR_SCALE: i64 = 1000;

/// Magnitude bound under which every vector of this crate stays; sums and
/// squares of components bounded by it fit comfortably in an `i64`.
pub const COORD_BOUND: i64 = 0x4000_0000;

/// A plane vector with fixed-point integer components.
#[derive(Clone, Copy, PartialEq, Eq, Structural, Debug)]
pub struct Vec2I {
    pub x: i64,
    pub y: i64,
}

/// Whether both components are within the working magnitude bound.
pub open spec fn in_bounds(v: Vec2I) -> bool {
    -COORD_BOUND <= v.x <= COORD_BOUND && -COORD_BOUND <= v.y <= COORD_BOUND
}

impl Vec2I {
    pub fn new(x: i64, y: i64) -> (r: Vec2I)
        ensures
            r == (Vec2I { x, y }),
    {
        Vec2I { x, y }
    }

    /// The zero vector: the default engine direction of a fresh robot and
    /// the force accumulator at the start of every tick.
    pub fn zero() -> (r: Vec2I)
        ensures
            r == Vec2I::spec_zero(),
    {
        Vec2I { x: 0, y: 0 }
    }

    pub open spec fn spec_zero() -> Vec2I {
        Vec2I { x: 0, y: 0 }
    }

    /// Componentwise sum.
    pub fn add(self, other: Vec2I) -> (r: Vec2I)
        requires
            in_bounds(self),
            in_bounds(other),
        ensures
            r.x == self.x + other.x,
            r.y == self.y + other.y,
    {
        Vec2I { x: self.x + other.x, y: self.y + other.y }
    }

    /// Componentwise scaling by a non-negative factor.
    pub fn scale(self, k: i64) -> (r: Vec2I)
        requires
            in_bounds(self),
            0 <= k <= DIR_SCALE,
        ensures
            r.x == self.x * k,
            r.y == self.y * k,
    {
        proof {
            lemma_scale_fits(self.x as int, k as int);
            lemma_scale_fits(self.y as int, k as int);
        }
        Vec2I { x: self.x * k, y: self.y * k }
    }

    /// Squared Euclidean magnitude; comparing squares avoids square roots,
    /// which the integer model cannot take.
    pub fn mag_sq(self) -> (r: i64)
        requires
            in_bounds(self),
        ensures
            r == self.x * self.x + self.y * self.y,
    {
        proof {
            lemma_square_fits(self.x as int);
            lemma_square_fits(self.y as int);
        }
        self.x * self.x + self.y * self.y
    }

    pub open spec fn spec_mag_sq(self) -> int {
        self.x * self.x + self.y * self.y
    }
}

proof fn lemma_scale_fits(a: int, k: int)
    requires
        -COORD_BOUND <= a <= COORD_BOUND,
        0 <= k <= DIR_SCALE,
    ensures
        i64::MIN <= a * k <= i64::MAX,
{
    assert(a * k <= COORD_BOUND * DIR_SCALE) by (nonlinear_arith)
        requires
            -COORD_BOUND <= a <= COORD_BOUND,
            0 <= k <= DIR_SCALE,
    ;
    assert(-(COORD_BOUND * DIR_SCALE) <= a * k) by (nonlinear_arith)
        requires
            -COORD_BOUND <= a <= COORD_BOUND,
            0 <= k <= DIR_SCALE,
    ;
}

proof fn lemma_square_fits(a: int)
    requires
        -COORD_BOUND <= a <= COORD_BOUND,
    ensures
        0 <= a * a,
        a * a <= COORD_BOUND * COORD_BOUND,
        2 * (COORD_BOUND * COORD_BOUND) <= i64::MAX,
{
    assert(0 <= a * a && a * a <= COORD_BOUND * COORD_BOUND) by (nonlinear_arith)
        requires
            -COORD_BOUND <= a <= COORD_BOUND,
    ;
}

} // verus!
