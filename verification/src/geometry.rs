use vstd::prelude::*;

use crate::color::Rgba;

verus! {

/// Every coordinate handled by the geometry (box origins and the far ends
/// `origin + extents`) is kept within `[-COORD_BOUND, COORD_BOUND]`, so sums
/// and differences of two coordinates always fit in `i64`.
pub const COORD_BOUND: i64 = 0x1000_0000_0000;

pub open spec fn coord_in_range(v: int) -> bool {
    -(COORD_BOUND as int) <= v && v <= COORD_BOUND as int
}

/// Smaller of two mathematical integers.
pub open spec fn imin(a: int, b: int) -> int {
    if a <= b {
        a
    } else {
        b
    }
}

/// Larger of two mathematical integers.
pub open spec fn imax(a: int, b: int) -> int {
    if a >= b {
        a
    } else {
        b
    }
}

/// A point or displacement on the integer grid.
#[derive(Clone, Copy, PartialEq, Eq, Structural, Debug)]
pub struct Vec3 {
    pub x: i64,
    pub y: i64,
    pub z: i64,
}

/// One renderable vertex: a grid position tagged with a color.
#[derive(Clone, Copy, PartialEq, Eq, Structural, Debug)]
pub struct Vertex {
    pub pos: Vec3,
    pub color: Rgba,
}

/// Builds one vertex from a position and a color.
pub fn vertex(pos: Vec3, col: Rgba) -> (v: Vertex)
    ensures
        v == (Vertex { pos, color: col }),
{
    Vertex { pos, color: col }
}

/// Whether corner `k` (in the fixed corner enumeration) lies at the far end
/// of the x axis (1) or at the origin end (0).
pub open spec fn mask_x(k: int) -> int {
    if k == 1 || k == 2 || k == 5 || k == 6 {
        1
    } else {
        0
    }
}

/// Same, for the y axis.
pub open spec fn mask_y(k: int) -> int {
    if k == 2 || k == 3 || k == 6 || k == 7 {
        1
    } else {
        0
    }
}

/// Same, for the z axis.
pub open spec fn mask_z(k: int) -> int {
    if 4 <= k {
        1
    } else {
        0
    }
}

/// Corner index `face_corner(f, j)` of the `j`-th vertex of face `f`.
/// This table is fixed; triangulation and face culling depend on it.
pub open spec fn face_corner(f: int, j: int) -> int {
    if f == 0 {
        if j == 0 { 0 } else if j == 1 { 1 } else if j == 2 { 2 } else { 3 }
    } else if f == 1 {
        if j == 0 { 1 } else if j == 1 { 0 } else if j == 2 { 4 } else { 5 }
    } else if f == 2 {
        if j == 0 { 2 } else if j == 1 { 1 } else if j == 2 { 5 } else { 6 }
    } else if f == 3 {
        if j == 0 { 3 } else if j == 1 { 2 } else if j == 2 { 6 } else { 7 }
    } else if f == 4 {
        if j == 0 { 3 } else if j == 1 { 0 } else if j == 2 { 4 } else { 7 }
    } else {
        if j == 0 { 4 } else if j == 1 { 5 } else if j == 2 { 6 } else { 7 }
    }
}

/// An axis-aligned box: an origin corner, a signed per-axis extents vector
/// (negative components span in the negative direction), and a color used
/// for every generated vertex.
#[derive(Clone, Copy, PartialEq, Eq, Structural, Debug)]
pub struct Cuboid {
    pub origin: Vec3,
    pub extents: Vec3,
    pub color: Rgba,
}

impl Cuboid {
    /// Both ends of the box lie within the coordinate range on every axis.
    pub open spec fn wf(self) -> bool {
        &&& coord_in_range(self.origin.x as int)
        &&& coord_in_range(self.origin.x + self.extents.x)
        &&& coord_in_range(self.origin.y as int)
        &&& coord_in_range(self.origin.y + self.extents.y)
        &&& coord_in_range(self.origin.z as int)
        &&& coord_in_range(self.origin.z + self.extents.z)
    }

    /// The x coordinate of corner `k`: the origin, displaced by the extents
    /// on the axes that `k`'s mask selects.
    pub open spec fn corner_x(self, k: int) -> int {
        if mask_x(k) == 1 {
            self.origin.x + self.extents.x
        } else {
            self.origin.x as int
        }
    }

    /// The y coordinate of corner `k`.
    pub open spec fn corner_y(self, k: int) -> int {
        if mask_y(k) == 1 {
            self.origin.y + self.extents.y
        } else {
            self.origin.y as int
        }
    }

    /// The z coordinate of corner `k`.
    pub open spec fn corner_z(self, k: int) -> int {
        if mask_z(k) == 1 {
            self.origin.z + self.extents.z
        } else {
            self.origin.z as int
        }
    }

    /// Corner `k` as a point.
    pub open spec fn corner(self, k: int) -> Vec3 {
        Vec3 {
            x: self.corner_x(k) as i64,
            y: self.corner_y(k) as i64,
            z: self.corner_z(k) as i64,
        }
    }

    /// Smallest x coordinate over the eight corners.
    pub open spec fn lo_x(self) -> int {
        imin(self.origin.x as int, self.origin.x + self.extents.x)
    }

    /// Largest x coordinate over the eight corners.
    pub open spec fn hi_x(self) -> int {
        imax(self.origin.x as int, self.origin.x + self.extents.x)
    }

    /// Smallest y coordinate over the eight corners.
    pub open spec fn lo_y(self) -> int {
        imin(self.origin.y as int, self.origin.y + self.extents.y)
    }

    /// Largest y coordinate over the eight corners.
    pub open spec fn hi_y(self) -> int {
        imax(self.origin.y as int, self.origin.y + self.extents.y)
    }

    /// Smallest z coordinate over the eight corners.
    pub open spec fn lo_z(self) -> int {
        imin(self.origin.z as int, self.origin.z + self.extents.z)
    }

    /// Largest z coordinate over the eight corners.
    pub open spec fn hi_z(self) -> int {
        imax(self.origin.z as int, self.origin.z + self.extents.z)
    }

    /// Builds a box from an origin, a signed extents vector and a color.
    pub fn new(origin: Vec3, extents: Vec3, color: Rgba) -> (c: Cuboid)
        requires
            coord_in_range(origin.x as int),
            coord_in_range(origin.x + extents.x),
            coord_in_range(origin.y as int),
            coord_in_range(origin.y + extents.y),
            coord_in_range(origin.z as int),
            coord_in_range(origin.z + extents.z),
        ensures
            c == (Cuboid { origin, extents, color }),
            c.wf(),
    {
        Cuboid { origin, extents, color }
    }

    /// The eight corners, in the fixed enumeration that the face table
    /// refers to.
    pub fn corner_points(&self) -> (pts: Vec<Vec3>)
        requires
            self.wf(),
        ensures
            pts@.len() == 8,
            forall|k: int| 0 <= k < 8 ==> #[trigger] pts@[k] == self.corner(k),
    {
        let o = self.origin;
        let e = self.extents;
        let mut pts: Vec<Vec3> = Vec::new();
        pts.push(Vec3 { x: o.x, y: o.y, z: o.z });
        pts.push(Vec3 { x: o.x + e.x, y: o.y, z: o.z });
        pts.push(Vec3 { x: o.x + e.x, y: o.y + e.y, z: o.z });
        pts.push(Vec3 { x: o.x, y: o.y + e.y, z: o.z });
        pts.push(Vec3 { x: o.x, y: o.y, z: o.z + e.z });
        pts.push(Vec3 { x: o.x + e.x, y: o.y, z: o.z + e.z });
        pts.push(Vec3 { x: o.x + e.x, y: o.y + e.y, z: o.z + e.z });
        pts.push(Vec3 { x: o.x, y: o.y + e.y, z: o.z + e.z });
        assert forall|k: int| 0 <= k < 8 implies #[trigger] pts@[k] == self.corner(k) by {
            if k == 0 {
            } else if k == 1 {
            } else if k == 2 {
            } else if k == 3 {
            } else if k == 4 {
            } else if k == 5 {
            } else if k == 6 {
            } else {
            }
        }
        pts
    }

    /// Vertex `i` of the 24-vertex render set: the `(i % 4)`-th corner of
    /// face `i / 4`, tagged with the box's color.
    pub open spec fn render_vertex(self, i: int) -> Vertex {
        Vertex { pos: self.corner(face_corner(i / 4, i % 4)), color: self.color }
    }

    /// The full render set: six faces with four corners each.
    pub open spec fn render_vertices(self) -> Seq<Vertex> {
        Seq::new(24, |i: int| self.render_vertex(i))
    }

    /// The 24 renderable vertices of the box: for each of the six faces its
    /// four corners in table order, every vertex carrying the box's color.
    pub fn vertices(&self) -> (vs: Vec<Vertex>)
        requires
            self.wf(),
        ensures
            vs@ == self.render_vertices(),
            vs@.len() == 24,
    {
        let mut vertex_data: Vec<Vertex> = Vec::new();
        let corner_points = self.corner_points();
        let color = self.color;

        vertex_data.push(vertex(corner_points[0], color));
        vertex_data.push(vertex(corner_points[1], color));
        vertex_data.push(vertex(corner_points[2], color));
        vertex_data.push(vertex(corner_points[3], color));

        vertex_data.push(vertex(corner_points[1], color));
        vertex_data.push(vertex(corner_points[0], color));
        vertex_data.push(vertex(corner_points[4], color));
        vertex_data.push(vertex(corner_points[5], color));

        vertex_data.push(vertex(corner_points[2], color));
        vertex_data.push(vertex(corner_points[1], color));
        vertex_data.push(vertex(corner_points[5], color));
        vertex_data.push(vertex(corner_points[6], color));

        vertex_data.push(vertex(corner_points[3], color));
        vertex_data.push(vertex(corner_points[2], color));
        vertex_data.push(vertex(corner_points[6], color));
        vertex_data.push(vertex(corner_points[7], color));

        vertex_data.push(vertex(corner_points[3], color));
        vertex_data.push(vertex(corner_points[0], color));
        vertex_data.push(vertex(corner_points[4], color));
        vertex_data.push(vertex(corner_points[7], color));

        vertex_data.push(vertex(corner_points[4], color));
        vertex_data.push(vertex(corner_points[5], color));
        vertex_data.push(vertex(corner_points[6], color));
        vertex_data.push(vertex(corner_points[7], color));

        proof {
            assert forall|i: int| 0 <= i < 24 implies vertex_data@[i]
                == self.render_vertices()[i] by {
                if i == 0 {
                } else if i == 1 {
                } else if i == 2 {
                } else if i == 3 {
                } else if i == 4 {
                } else if i == 5 {
                } else if i == 6 {
                } else if i == 7 {
                } else if i == 8 {
                } else if i == 9 {
                } else if i == 10 {
                } else if i == 11 {
                } else if i == 12 {
                } else if i == 13 {
                } else if i == 14 {
                } else if i == 15 {
                } else if i == 16 {
                } else if i == 17 {
                } else if i == 18 {
                } else if i == 19 {
                } else if i == 20 {
                } else if i == 21 {
                } else if i == 22 {
                } else {
                }
            }
            assert(vertex_data@ =~= self.render_vertices());
        }
        vertex_data
    }

    /// The minimal axis-aligned box enclosing this box and `other`:
    /// its origin is the componentwise minimum over the sixteen corner
    /// points of the two boxes, its extents the componentwise maximum
    /// minus that minimum (so never negative), and it keeps this box's
    /// color.
    pub fn containing_cube(&self, other: &Cuboid) -> (r: Cuboid)
        requires
            self.wf(),
            other.wf(),
        ensures
            r == union_cuboid(*self, *other),
            r.wf(),
            r.extents.x >= 0 && r.extents.y >= 0 && r.extents.z >= 0,
    {
        let lo_x = min_coord(
            min_coord(self.origin.x, self.origin.x + self.extents.x),
            min_coord(other.origin.x, other.origin.x + other.extents.x),
        );
        let hi_x = max_coord(
            max_coord(self.origin.x, self.origin.x + self.extents.x),
            max_coord(other.origin.x, other.origin.x + other.extents.x),
        );
        let lo_y = min_coord(
            min_coord(self.origin.y, self.origin.y + self.extents.y),
            min_coord(other.origin.y, other.origin.y + other.extents.y),
        );
        let hi_y = max_coord(
            max_coord(self.origin.y, self.origin.y + self.extents.y),
            max_coord(other.origin.y, other.origin.y + other.extents.y),
        );
        let lo_z = min_coord(
            min_coord(self.origin.z, self.origin.z + self.extents.z),
            min_coord(other.origin.z, other.origin.z + other.extents.z),
        );
        let hi_z = max_coord(
            max_coord(self.origin.z, self.origin.z + self.extents.z),
            max_coord(other.origin.z, other.origin.z + other.extents.z),
        );
        Cuboid {
            origin: Vec3 { x: lo_x, y: lo_y, z: lo_z },
            extents: Vec3 { x: hi_x - lo_x, y: hi_y - lo_y, z: hi_z - lo_z },
            color: self.color,
        }
    }
}

/// Smaller of two coordinates.
fn min_coord(a: i64, b: i64) -> (r: i64)
    ensures
        r as int == imin(a as int, b as int),
{
    if a <= b {
        a
    } else {
        b
    }
}

/// Larger of two coordinates.
fn max_coord(a: i64, b: i64) -> (r: i64)
    ensures
        r as int == imax(a as int, b as int),
{
    if a >= b {
        a
    } else {
        b
    }
}

/// Smallest x coordinate over the sixteen corners of the two boxes.
pub open spec fn union_lo_x(a: Cuboid, b: Cuboid) -> int {
    imin(a.lo_x(), b.lo_x())
}

/// Largest x coordinate over the sixteen corners of the two boxes.
pub open spec fn union_hi_x(a: Cuboid, b: Cuboid) -> int {
    imax(a.hi_x(), b.hi_x())
}

/// Smallest y coordinate over the sixteen corners of the two boxes.
pub open spec fn union_lo_y(a: Cuboid, b: Cuboid) -> int {
    imin(a.lo_y(), b.lo_y())
}

/// Largest y coordinate over the sixteen corners of the two boxes.
pub open spec fn union_hi_y(a: Cuboid, b: Cuboid) -> int {
    imax(a.hi_y(), b.hi_y())
}

/// Smallest z coordinate over the sixteen corners of the two boxes.
pub open spec fn union_lo_z(a: Cuboid, b: Cuboid) -> int {
    imin(a.lo_z(), b.lo_z())
}

/// Largest z coordinate over the sixteen corners of the two boxes.
pub open spec fn union_hi_z(a: Cuboid, b: Cuboid) -> int {
    imax(a.hi_z(), b.hi_z())
}

/// The box that `containing_cube` returns: origin at the componentwise
/// minimum over both boxes' corners, extents spanning to the componentwise
/// maximum, colored as `a`.
pub open spec fn union_cuboid(a: Cuboid, b: Cuboid) -> Cuboid {
    Cuboid {
        origin: Vec3 {
            x: union_lo_x(a, b) as i64,
            y: union_lo_y(a, b) as i64,
            z: union_lo_z(a, b) as i64,
        },
        extents: Vec3 {
            x: (union_hi_x(a, b) - union_lo_x(a, b)) as i64,
            y: (union_hi_y(a, b) - union_lo_y(a, b)) as i64,
            z: (union_hi_z(a, b) - union_lo_z(a, b)) as i64,
        },
        color: a.color,
    }
}

/// The axis-aligned bounding box of a single box: the same point set with
/// the origin moved to the minimal corner and non-negative extents.
pub open spec fn aabb(a: Cuboid) -> Cuboid {
    Cuboid {
        origin: Vec3 { x: a.lo_x() as i64, y: a.lo_y() as i64, z: a.lo_z() as i64 },
        extents: Vec3 {
            x: (a.hi_x() - a.lo_x()) as i64,
            y: (a.hi_y() - a.lo_y()) as i64,
            z: (a.hi_z() - a.lo_z()) as i64,
        },
        color: a.color,
    }
}

/// The containing-box union does not depend on the order of its arguments:
/// both orders give the same origin and extents, and when the two boxes
/// share a color the results are equal outright.
pub proof fn lemma_containing_commutative(a: Cuboid, b: Cuboid)
    ensures
        union_cuboid(a, b).origin == union_cuboid(b, a).origin,
        union_cuboid(a, b).extents == union_cuboid(b, a).extents,
        a.color == b.color ==> union_cuboid(a, b) == union_cuboid(b, a),
{
}

/// The containing box of a box with itself is exactly the axis-aligned
/// bounding box of that box alone.
pub proof fn lemma_containing_self(a: Cuboid)
    ensures
        union_cuboid(a, a) == aabb(a),
{
}

/// The containing box's own corner bounds coincide with the componentwise
/// minimum and maximum over all sixteen corners of the two boxes: every
/// corner of either box lies between them, and each bound is attained by
/// some corner of one of the boxes.
pub proof fn lemma_union_bounds_are_corner_bounds(a: Cuboid, b: Cuboid)
    requires
        a.wf(),
        b.wf(),
    ensures
        union_cuboid(a, b).lo_x() == union_lo_x(a, b),
        union_cuboid(a, b).hi_x() == union_hi_x(a, b),
        union_cuboid(a, b).lo_y() == union_lo_y(a, b),
        union_cuboid(a, b).hi_y() == union_hi_y(a, b),
        union_cuboid(a, b).lo_z() == union_lo_z(a, b),
        union_cuboid(a, b).hi_z() == union_hi_z(a, b),
        forall|k: int|
            0 <= k < 8 ==> union_lo_x(a, b) <= #[trigger] a.corner_x(k) <= union_hi_x(a, b)
                && union_lo_x(a, b) <= #[trigger] b.corner_x(k) <= union_hi_x(a, b),
        forall|k: int|
            0 <= k < 8 ==> union_lo_y(a, b) <= #[trigger] a.corner_y(k) <= union_hi_y(a, b)
                && union_lo_y(a, b) <= #[trigger] b.corner_y(k) <= union_hi_y(a, b),
        forall|k: int|
            0 <= k < 8 ==> union_lo_z(a, b) <= #[trigger] a.corner_z(k) <= union_hi_z(a, b)
                && union_lo_z(a, b) <= #[trigger] b.corner_z(k) <= union_hi_z(a, b),
        exists|k: int| 0 <= k < 8 && (a.corner_x(k) == union_lo_x(a, b) || b.corner_x(k)
            == union_lo_x(a, b)),
        exists|k: int| 0 <= k < 8 && (a.corner_x(k) == union_hi_x(a, b) || b.corner_x(k)
            == union_hi_x(a, b)),
        exists|k: int| 0 <= k < 8 && (a.corner_y(k) == union_lo_y(a, b) || b.corner_y(k)
            == union_lo_y(a, b)),
        exists|k: int| 0 <= k < 8 && (a.corner_y(k) == union_hi_y(a, b) || b.corner_y(k)
            == union_hi_y(a, b)),
        exists|k: int| 0 <= k < 8 && (a.corner_z(k) == union_lo_z(a, b) || b.corner_z(k)
            == union_lo_z(a, b)),
        exists|k: int| 0 <= k < 8 && (a.corner_z(k) == union_hi_z(a, b) || b.corner_z(k)
            == union_hi_z(a, b)),
{
    assert(a.corner_x(0) == a.origin.x as int);
    assert(a.corner_x(1) == a.origin.x + a.extents.x);
    assert(b.corner_x(0) == b.origin.x as int);
    assert(b.corner_x(1) == b.origin.x + b.extents.x);
    assert(a.corner_y(0) == a.origin.y as int);
    assert(a.corner_y(2) == a.origin.y + a.extents.y);
    assert(b.corner_y(0) == b.origin.y as int);
    assert(b.corner_y(2) == b.origin.y + b.extents.y);
    assert(a.corner_z(0) == a.origin.z as int);
    assert(a.corner_z(4) == a.origin.z + a.extents.z);
    assert(b.corner_z(0) == b.origin.z as int);
    assert(b.corner_z(4) == b.origin.z + b.extents.z);
}

} // verus!
