use vstd::prelude::*;

use crate::geometry::{COORD_BOUND, Vec3};

verus! {

/// One continuous world coordinate, described by the two things the grid
/// snap reads of it: its integer floor, and whether a nonzero fractional
/// part remains above that floor. The floor and the ceiling of the
/// coordinate are both recovered from this pair.
#[derive(Clone, Copy, PartialEq, Eq, Structural, Debug)]
pub struct WorldCoord {
    pub floor: i64,
    pub fractional: bool,
}

impl WorldCoord {
    /// The floor of the coordinate.
    pub open spec fn floor_int(self) -> int {
        self.floor as int
    }

    /// The ceiling of the coordinate: the floor itself on a whole number,
    /// one above it otherwise.
    pub open spec fn ceil_int(self) -> int {
        if self.fractional {
            self.floor + 1
        } else {
            self.floor as int
        }
    }

    /// The coordinate lies far enough inside the coordinate range that a
    /// snapped cell and its unit-box neighbours stay in range too.
    pub open spec fn in_range(self) -> bool {
        -COORD_BOUND + 2 <= self.floor && self.floor <= COORD_BOUND - 2
    }

    /// A whole-numbered coordinate.
    pub fn whole(units: i64) -> (c: WorldCoord)
        ensures
            c == (WorldCoord { floor: units, fractional: false }),
    {
        WorldCoord { floor: units, fractional: false }
    }
}

/// A continuous world position, one coordinate per axis.
#[derive(Clone, Copy, PartialEq, Eq, Structural, Debug)]
pub struct WorldPos {
    pub x: WorldCoord,
    pub y: WorldCoord,
    pub z: WorldCoord,
}

impl WorldPos {
    /// Every coordinate is far enough inside the coordinate range.
    pub open spec fn in_range(self) -> bool {
        self.x.in_range() && self.y.in_range() && self.z.in_range()
    }
}

/// The grid cell a world position snaps to: the floor on the first axis and
/// the ceiling on the remaining two, independent of which face was hit.
pub open spec fn grid_pos_spec(p: WorldPos) -> (int, int, int) {
    (p.x.floor_int(), p.y.ceil_int(), p.z.ceil_int())
}

/// Maps a continuous world position to the integer grid cell it snaps to.
/// The rounding is fixed per axis — floor on x, ceiling on y and z —
/// whatever face of a cell the position came from.
pub fn get_grid_pos(world_pos: WorldPos) -> (cell: Vec3)
    requires
        world_pos.in_range(),
    ensures
        cell.x as int == grid_pos_spec(world_pos).0,
        cell.y as int == grid_pos_spec(world_pos).1,
        cell.z as int == grid_pos_spec(world_pos).2,
        -COORD_BOUND + 1 <= cell.x <= COORD_BOUND - 1,
        -COORD_BOUND + 1 <= cell.y <= COORD_BOUND - 1,
        -COORD_BOUND + 1 <= cell.z <= COORD_BOUND - 1,
{
    let x = world_pos.x.floor;
    let y = if world_pos.y.fractional {
        world_pos.y.floor + 1
    } else {
        world_pos.y.floor
    };
    let z = if world_pos.z.fractional {
        world_pos.z.floor + 1
    } else {
        world_pos.z.floor
    };
    Vec3 { x, y, z }
}

/// Snapping is deterministic: the same continuous position always yields
/// the same grid cell.
pub proof fn lemma_snap_deterministic(p: WorldPos, q: WorldPos)
    requires
        p == q,
    ensures
        grid_pos_spec(p) == grid_pos_spec(q),
{
}

} // verus!
