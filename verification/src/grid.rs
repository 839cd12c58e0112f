//! Level geometry: tile-grid coordinates, bounds, walls and the placement
//! validity rule.
//!
//! World↔grid coordinate transforms live with the level-format collaborator;
//! this module works on the resolved grid coordinates alone.

use vstd::prelude::*;

verus! {

/// Grid coordinates stay well within this bound; it keeps the squared
/// distances of the spacing rule inside `i64`.
pub const GRID_COORD_BOUND: i32 = 0x10_0000;

/// A cell of the level's tile grid.
#[derive(Clone, Copy, PartialEq, Eq, Structural, Debug)]
pub struct GridCoords {
    pub x: i32,
    pub y: i32,
}

pub open spec fn coord_bounded(c: GridCoords) -> bool {
    -GRID_COORD_BOUND <= c.x <= GRID_COORD_BOUND && -GRID_COORD_BOUND <= c.y <= GRID_COORD_BOUND
}

/// Squared Euclidean distance between two cells.
pub open spec fn spec_sq_dist(a: GridCoords, b: GridCoords) -> int {
    (a.x - b.x) * (a.x - b.x) + (a.y - b.y) * (a.y - b.y)
}

/// Grid dimensions of the loaded level, in cells, and the side of one
/// square tile in world pixels.
#[derive(Clone, Copy, PartialEq, Eq, Structural, Debug)]
pub struct LevelSizeInfo {
    pub width: i32,
    pub height: i32,
    pub tile_size: i32,
}

impl LevelSizeInfo {
    /// Dimensions are positive and small enough that pixel sizes fit.
    pub open spec fn wf(self) -> bool {
        0 < self.width <= GRID_COORD_BOUND && 0 < self.height <= GRID_COORD_BOUND && 0
            < self.tile_size <= 0x1000
    }

    /// The level's extent in world pixels, per axis.
    pub fn pixel_size(&self) -> (r: (i64, i64))
        requires
            self.wf(),
        ensures
            r.0 == self.width * self.tile_size,
            r.1 == self.height * self.tile_size,
    {
        proof {
            assert(self.width * self.tile_size <= GRID_COORD_BOUND as int * 0x1000)
                by (nonlinear_arith)
                requires
                    0 < self.width <= GRID_COORD_BOUND && 0 < self.tile_size <= 0x1000,
            ;
            assert(self.height * self.tile_size <= GRID_COORD_BOUND as int * 0x1000)
                by (nonlinear_arith)
                requires
                    0 < self.height <= GRID_COORD_BOUND && 0 < self.tile_size <= 0x1000,
            ;
        }
        (self.width as i64 * self.tile_size as i64, self.height as i64 * self.tile_size as i64)
    }

    /// The tile side repeated per axis, as the square tile's dimensions.
    pub fn tile_size_vec(&self) -> (r: (i32, i32))
        ensures
            r.0 == self.tile_size,
            r.1 == self.tile_size,
    {
        (self.tile_size, self.tile_size)
    }

    pub open spec fn spec_in_bound(self, c: GridCoords) -> bool {
        0 <= c.x < self.width && 0 <= c.y < self.height
    }

    /// Whether a cell lies inside the level rectangle.
    pub fn grid_coords_in_bound(&self, c: GridCoords) -> (r: bool)
        ensures
            r == self.spec_in_bound(c),
    {
        c.x >= 0 && c.x < self.width && c.y >= 0 && c.y < self.height
    }
}

/// The level format counts grid rows downward; the world counts them
/// upward.  Converting a level-format cell flips its row within the
/// level's height.
pub open spec fn spec_level_cell_to_grid(p: GridCoords, height: i32) -> GridCoords {
    GridCoords { x: p.x, y: (height - 1 - p.y) as i32 }
}

/// Convert a level-format cell to a grid cell by flipping its row.
pub fn level_cell_to_grid(p: GridCoords, height: i32) -> (r: GridCoords)
    requires
        coord_bounded(p),
        0 <= p.y < height,
        0 < height <= GRID_COORD_BOUND,
    ensures
        r == spec_level_cell_to_grid(p, height),
        coord_bounded(r),
{
    GridCoords { x: p.x, y: height - 1 - p.y }
}

/// The world position of a cell's center, per axis: the cell scaled to
/// pixels plus half a tile.
pub open spec fn spec_cell_center(c: GridCoords, tile_size: i32) -> (int, int) {
    (c.x * tile_size + tile_size / 2, c.y * tile_size + tile_size / 2)
}

/// The world position of a cell's center.
pub fn cell_center(c: GridCoords, tile_size: i32) -> (r: (i64, i64))
    requires
        coord_bounded(c),
        0 < tile_size <= 0x1000,
    ensures
        (r.0 as int, r.1 as int) == spec_cell_center(c, tile_size),
        -0x2_0000_0000 <= r.0 <= 0x2_0000_0000,
        -0x2_0000_0000 <= r.1 <= 0x2_0000_0000,
{
    proof {
        assert(-(GRID_COORD_BOUND as int) * 0x1000 <= c.x * tile_size <= GRID_COORD_BOUND as int
            * 0x1000) by (nonlinear_arith)
            requires
                -GRID_COORD_BOUND <= c.x <= GRID_COORD_BOUND,
                0 < tile_size <= 0x1000,
        ;
        assert(-(GRID_COORD_BOUND as int) * 0x1000 <= c.y * tile_size <= GRID_COORD_BOUND as int
            * 0x1000) by (nonlinear_arith)
            requires
                -GRID_COORD_BOUND <= c.y <= GRID_COORD_BOUND,
                0 < tile_size <= 0x1000,
        ;
    }
    (
        c.x as i64 * tile_size as i64 + tile_size as i64 / 2,
        c.y as i64 * tile_size as i64 + tile_size as i64 / 2,
    )
}

/// The level-load fix-up of an enemy-placed gadget's direction.  The
/// level format stores the direction as a raw grid point; once the level
/// geometry is known, that point is flipped into grid space and the
/// gadget's effective direction runs from its own cell's center to the
/// target cell's center (the caller normalizes it for presentation).  The
/// staged point is consumed: a gadget whose staging field is already
/// empty was fixed up before, and the fix-up is a no-op — idempotent over
/// repeated level-loaded events.
pub fn fixup_gadget_direction(staged: Option<GridCoords>, own: GridCoords, info: &LevelSizeInfo)
    -> (r: Option<(i64, i64)>)
    requires
        info.wf(),
        coord_bounded(own),
        staged.is_some() ==> coord_bounded(staged.unwrap()) && 0 <= staged.unwrap().y
            < info.height,
    ensures
        staged.is_none() ==> r.is_none(),
        staged.is_some() ==> r.is_some() && ({
            let target = spec_level_cell_to_grid(staged.unwrap(), info.height);
            let (tx, ty) = spec_cell_center(target, info.tile_size);
            let (ox, oy) = spec_cell_center(own, info.tile_size);
            r.unwrap().0 == tx - ox && r.unwrap().1 == ty - oy
        }),
{
    match staged {
        Some(p) => {
            let target = level_cell_to_grid(p, info.height);
            let (tx, ty) = cell_center(target, info.tile_size);
            let (ox, oy) = cell_center(own, info.tile_size);
            Some((tx - ox, ty - oy))
        },
        None => None,
    }
}

/// The spacing rule: no occupying gadget may lie within Euclidean distance
/// 2 of the candidate cell, i.e. every occupied cell's squared distance is
/// at least 4.
pub open spec fn spec_spacing_ok(c: GridCoords, occupied: Seq<GridCoords>) -> bool {
    forall|i: int| 0 <= i < occupied.len() ==> spec_sq_dist(#[trigger] occupied[i], c) >= 4
}

/// Placement validity: the cell is inside the level, is not a wall, and
/// keeps distance from every cell an existing gadget occupies.  It is a
/// pure function of these inputs and of nothing else.
pub open spec fn spec_placement_valid(
    c: GridCoords,
    info: LevelSizeInfo,
    walls: Seq<GridCoords>,
    occupied: Seq<GridCoords>,
) -> bool {
    info.spec_in_bound(c) && !walls.contains(c) && spec_spacing_ok(c, occupied)
}

fn sq_dist(a: GridCoords, b: GridCoords) -> (r: i64)
    requires
        coord_bounded(a),
        coord_bounded(b),
    ensures
        r == spec_sq_dist(a, b),
{
    let dx: i64 = a.x as i64 - b.x as i64;
    let dy: i64 = a.y as i64 - b.y as i64;
    proof {
        assert(dx * dx + dy * dy <= 2 * ((2 * GRID_COORD_BOUND as int) * (2 * GRID_COORD_BOUND
            as int)) && dx * dx >= 0 && dy * dy >= 0) by (nonlinear_arith)
            requires
                -2 * GRID_COORD_BOUND as int <= dx <= 2 * GRID_COORD_BOUND as int,
                -2 * GRID_COORD_BOUND as int <= dy <= 2 * GRID_COORD_BOUND as int,
        ;
    }
    dx * dx + dy * dy
}

/// Decide whether a dragged gadget may be dropped on cell `c`: inside the
/// level, not on a wall, and no existing gadget within distance 2.  The
/// result depends on the arguments alone, so re-validating the same state
/// in any order gives the same answer.
pub fn placement_valid(
    c: GridCoords,
    info: &LevelSizeInfo,
    walls: &Vec<GridCoords>,
    occupied: &Vec<GridCoords>,
) -> (r: bool)
    requires
        coord_bounded(c),
        forall|i: int| 0 <= i < occupied@.len() ==> coord_bounded(#[trigger] occupied@[i]),
    ensures
        r == spec_placement_valid(c, *info, walls@, occupied@),
{
    if !info.grid_coords_in_bound(c) {
        return false;
    }
    let mut i: usize = 0;
    while i < walls.len()
        invariant
            i <= walls@.len(),
            forall|j: int| 0 <= j < i ==> walls@[j] != c,
        decreases walls@.len() - i,
    {
        if walls[i].x == c.x && walls[i].y == c.y {
            assert(walls@[i as int] == c);
            return false;
        }
        i += 1;
    }
    let mut k: usize = 0;
    while k < occupied.len()
        invariant
            k <= occupied@.len(),
            coord_bounded(c),
            forall|i2: int| 0 <= i2 < occupied@.len() ==> coord_bounded(#[trigger] occupied@[i2]),
            forall|j: int| 0 <= j < k ==> spec_sq_dist(#[trigger] occupied@[j], c) >= 4,
        decreases occupied@.len() - k,
    {
        if sq_dist(occupied[k], c) < 4 {
            return false;
        }
        k += 1;
    }
    true
}

} // verus!
