use vstd::prelude::*;

use crate::geometry::Vec3;

verus! {

/// A displacement of length one along a single axis, possibly negative.
pub open spec fn is_unit_axis(v: Vec3) -> bool {
    ||| ((v.x == 1 || v.x == -1) && v.y == 0 && v.z == 0)
    ||| (v.x == 0 && (v.y == 1 || v.y == -1) && v.z == 0)
    ||| (v.x == 0 && v.y == 0 && (v.z == 1 || v.z == -1))
}

/// The axis a unit axis vector lies on.
pub open spec fn axis_of(v: Vec3) -> int {
    if v.x != 0 {
        0
    } else if v.y != 0 {
        1
    } else {
        2
    }
}

/// An orthonormal description of one face of a grid cell: the face normal
/// and the two in-plane tangent directions, three mutually orthogonal
/// signed unit axis vectors. The raycast collaborator supplies one of
/// these with every hit.
#[derive(Clone, Copy, PartialEq, Eq, Structural, Debug)]
pub struct Plane {
    pub normal: Vec3,
    pub left: Vec3,
    pub down: Vec3,
}

impl Plane {
    /// The three basis vectors are signed unit axis vectors on three
    /// distinct axes.
    pub open spec fn wf(self) -> bool {
        &&& is_unit_axis(self.normal)
        &&& is_unit_axis(self.left)
        &&& is_unit_axis(self.down)
        &&& axis_of(self.normal) != axis_of(self.left)
        &&& axis_of(self.normal) != axis_of(self.down)
        &&& axis_of(self.left) != axis_of(self.down)
    }

    /// The sum of the three basis vectors, component by component. Because
    /// the basis covers all three axes with one signed unit vector each,
    /// every component is 1 or -1.
    pub open spec fn octant_spec(self) -> Vec3 {
        Vec3 {
            x: (self.left.x + self.down.x + self.normal.x) as i64,
            y: (self.left.y + self.down.y + self.normal.y) as i64,
            z: (self.left.z + self.down.z + self.normal.z) as i64,
        }
    }

    /// Sums the basis vectors into the signed unit extents of the cursor
    /// box: the sum selects which of the eight cells adjacent to the
    /// snapped grid corner the hit face actually denotes.
    pub fn octant_extents(&self) -> (e: Vec3)
        requires
            self.wf(),
        ensures
            e == self.octant_spec(),
            e.x == 1 || e.x == -1,
            e.y == 1 || e.y == -1,
            e.z == 1 || e.z == -1,
    {
        Vec3 {
            x: self.left.x + self.down.x + self.normal.x,
            y: self.left.y + self.down.y + self.normal.y,
            z: self.left.z + self.down.z + self.normal.z,
        }
    }

    /// The grid plane z = 0, seen from positive z: the default cursor
    /// orientation before any raycast hit arrives.
    pub fn xy_plane() -> (p: Plane)
        ensures
            p == xy_plane_spec(),
            p.wf(),
    {
        Plane {
            normal: Vec3 { x: 0, y: 0, z: 1 },
            left: Vec3 { x: -1, y: 0, z: 0 },
            down: Vec3 { x: 0, y: -1, z: 0 },
        }
    }
}

/// The default plane that `xy_plane` returns.
pub open spec fn xy_plane_spec() -> Plane {
    Plane {
        normal: Vec3 { x: 0, y: 0, z: 1 },
        left: Vec3 { x: -1i64, y: 0, z: 0 },
        down: Vec3 { x: 0, y: -1i64, z: 0 },
    }
}

} // verus!
