use vstd::prelude::*;

use crate::color::Rgba;
use crate::geometry::{Cuboid, Vec3, Vertex};

verus! {

/// One colored voxel occupying a grid slot.
#[derive(Clone, Copy, PartialEq, Eq, Structural, Debug)]
pub struct Voxel {
    pub color: Rgba,
}

/// Failure reported by a bounds-checked grid access.
#[derive(Clone, Copy, PartialEq, Eq, Structural, Debug)]
pub enum GridError {
    /// An index fell outside `[0, extent)` on some axis; the grid was left
    /// unchanged.
    OutOfBounds,
}

/// Largest grid side length the manager accepts; it keeps the slot count
/// and the vertex count of a full rebuild comfortably inside `usize`.
pub const MAX_EXTENT: usize = 256;

/// The unit-extent box rendered for a voxel present at `(x, y, z)`.
pub open spec fn unit_cube(x: int, y: int, z: int, color: Rgba) -> Cuboid {
    Cuboid {
        origin: Vec3 { x: x as i64, y: y as i64, z: z as i64 },
        extents: Vec3 { x: 1i64, y: 1i64, z: 1i64 },
        color,
    }
}

/// A dense cube of `extent × extent × extent` optional colored voxels,
/// stored as one flat contiguous array addressed by
/// `x·extent² + y·extent + z`. The side length is fixed at construction.
pub struct VoxelManager {
    cubes: Vec<Option<Voxel>>,
    extent: usize,
}

impl VoxelManager {
    /// The side length of the cube.
    pub closed spec fn extent_spec(self) -> int {
        self.extent as int
    }

    /// The flat array holds exactly one slot per cell.
    pub closed spec fn wf(self) -> bool {
        self.extent <= MAX_EXTENT && self.cubes@.len() == self.extent * self.extent
            * self.extent
    }

    /// Whether `(x, y, z)` addresses a cell of the cube.
    pub open spec fn in_bounds(self, x: int, y: int, z: int) -> bool {
        0 <= x < self.extent_spec() && 0 <= y < self.extent_spec() && 0 <= z
            < self.extent_spec()
    }

    /// The voxel stored at `(x, y, z)`, `None` outside the cube.
    pub closed spec fn voxel(self, x: int, y: int, z: int) -> Option<Voxel> {
        if self.in_bounds(x, y, z) {
            self.cubes@[x * self.extent_spec() * self.extent_spec() + y * self.extent_spec()
                + z]
        } else {
            None
        }
    }

    /// Builds an empty grid of side `extent`.
    pub fn new(extent: usize) -> (m: VoxelManager)
        requires
            extent <= MAX_EXTENT,
        ensures
            m.wf(),
            m.extent_spec() == extent,
            forall|x: int, y: int, z: int| m.voxel(x, y, z) is None,
    {
        proof {
            assert(extent * extent <= 65536 && extent * extent * extent <= 16777216) by (nonlinear_arith)
                requires
                    extent <= 256,
            ;
        }
        let count = extent * extent * extent;
        let mut cubes: Vec<Option<Voxel>> = Vec::new();
        let mut i: usize = 0;
        while i < count
            invariant
                i <= count,
                cubes@.len() == i,
                forall|t: int| 0 <= t < i ==> cubes@[t] is None,
            decreases count - i,
        {
            cubes.push(None);
            i = i + 1;
        }
        let m = VoxelManager { cubes, extent };
        proof {
            assert forall|x: int, y: int, z: int| m.voxel(x, y, z) is None by {
                if m.in_bounds(x, y, z) {
                    lemma_flat_index_bounds(extent as int, x, y, z);
                }
            }
        }
        m
    }

    /// The side length of the cube.
    pub fn extent(&self) -> (e: usize)
        ensures
            e as int == self.extent_spec(),
    {
        self.extent
    }

    /// Stores a voxel of the given color at `(x, y, z)`. An index outside
    /// the cube is rejected with `OutOfBounds` and the grid is left
    /// unchanged.
    pub fn set(&mut self, x: usize, y: usize, z: usize, color: Rgba) -> (r: Result<
        (),
        GridError,
    >)
        requires
            old(self).wf(),
        ensures
            final(self).wf(),
            final(self).extent_spec() == old(self).extent_spec(),
            r is Ok <==> old(self).in_bounds(x as int, y as int, z as int),
            r is Err ==> r == Err::<(), GridError>(GridError::OutOfBounds) && *final(self)
                == *old(self),
            r is Ok ==> final(self).voxel(x as int, y as int, z as int) == Some(
                Voxel { color },
            ),
            forall|i: int, j: int, k: int|
                !(i == x as int && j == y as int && k == z as int)
                    ==> #[trigger] final(self).voxel(i, j, k) == old(self).voxel(i, j, k),
    {
        if x < self.extent && y < self.extent && z < self.extent {
            proof {
                lemma_flat_index_bounds(self.extent_spec(), x as int, y as int, z as int);
            }
            let idx = x * self.extent * self.extent + y * self.extent + z;
            self.cubes[idx] = Some(Voxel { color });
            proof {
                self.lemma_store_updates_one_slot(*old(self), x as int, y as int, z as int);
            }
            Ok(())
        } else {
            Err(GridError::OutOfBounds)
        }
    }

    /// Empties the slot at `(x, y, z)`. An index outside the cube is
    /// rejected with `OutOfBounds` and the grid is left unchanged.
    pub fn clear(&mut self, x: usize, y: usize, z: usize) -> (r: Result<(), GridError>)
        requires
            old(self).wf(),
        ensures
            final(self).wf(),
            final(self).extent_spec() == old(self).extent_spec(),
            r is Ok <==> old(self).in_bounds(x as int, y as int, z as int),
            r is Err ==> r == Err::<(), GridError>(GridError::OutOfBounds) && *final(self)
                == *old(self),
            r is Ok ==> final(self).voxel(x as int, y as int, z as int) is None,
            forall|i: int, j: int, k: int|
                !(i == x as int && j == y as int && k == z as int)
                    ==> #[trigger] final(self).voxel(i, j, k) == old(self).voxel(i, j, k),
    {
        if x < self.extent && y < self.extent && z < self.extent {
            proof {
                lemma_flat_index_bounds(self.extent_spec(), x as int, y as int, z as int);
            }
            let idx = x * self.extent * self.extent + y * self.extent + z;
            self.cubes[idx] = None;
            proof {
                self.lemma_store_updates_one_slot(*old(self), x as int, y as int, z as int);
            }
            Ok(())
        } else {
            Err(GridError::OutOfBounds)
        }
    }

    /// The color of the voxel at `(x, y, z)`, `None` when the slot is
    /// empty or the index lies outside the cube.
    pub fn get(&self, x: usize, y: usize, z: usize) -> (r: Option<Rgba>)
        requires
            self.wf(),
        ensures
            self.voxel(x as int, y as int, z as int) is Some ==> r == Some(
                self.voxel(x as int, y as int, z as int)->Some_0.color,
            ),
            self.voxel(x as int, y as int, z as int) is None ==> r is None,
    {
        if x < self.extent && y < self.extent && z < self.extent {
            proof {
                lemma_flat_index_bounds(self.extent_spec(), x as int, y as int, z as int);
            }
            let idx = x * self.extent * self.extent + y * self.extent + z;
            match self.cubes[idx] {
                Some(v) => Some(v.color),
                None => None,
            }
        } else {
            None
        }
    }

    /// Vertices contributed by the slot `(x, y, z)`: the 24 render
    /// vertices of a unit box at that cell when a voxel is present,
    /// nothing otherwise.
    pub open spec fn slot_vertices(self, x: int, y: int, z: int) -> Seq<Vertex> {
        match self.voxel(x, y, z) {
            Some(v) => unit_cube(x, y, z, v.color).render_vertices(),
            None => Seq::empty(),
        }
    }

    /// Vertices of the slots `(x, y, 0) .. (x, y, nz)`, in z order.
    pub open spec fn row_vertices(self, x: int, y: int, nz: int) -> Seq<Vertex>
        decreases nz,
    {
        if nz <= 0 {
            Seq::empty()
        } else {
            self.row_vertices(x, y, nz - 1) + self.slot_vertices(x, y, nz - 1)
        }
    }

    /// Vertices of the full rows `(x, 0) .. (x, ny)`, in y then z order.
    pub open spec fn sheet_vertices(self, x: int, ny: int) -> Seq<Vertex>
        decreases ny,
    {
        if ny <= 0 {
            Seq::empty()
        } else {
            self.sheet_vertices(x, ny - 1) + self.row_vertices(x, ny - 1, self.extent_spec())
        }
    }

    /// Vertices of the full sheets `0 .. nx`, in x then y then z order.
    pub open spec fn prefix_vertices(self, nx: int) -> Seq<Vertex>
        decreases nx,
    {
        if nx <= 0 {
            Seq::empty()
        } else {
            self.prefix_vertices(nx - 1) + self.sheet_vertices(nx - 1, self.extent_spec())
        }
    }

    /// Every renderable vertex of the grid: each present voxel contributes
    /// the 24 vertices of its unit box, slots scanned in x, y, z order.
    pub open spec fn render_vertices(self) -> Seq<Vertex> {
        self.prefix_vertices(self.extent_spec())
    }

    /// 1 when a voxel is present at `(x, y, z)`, 0 otherwise.
    pub open spec fn slot_count(self, x: int, y: int, z: int) -> nat {
        if self.voxel(x, y, z) is Some {
            1nat
        } else {
            0nat
        }
    }

    /// Present voxels among the slots `(x, y, 0) .. (x, y, nz)`.
    pub open spec fn row_count(self, x: int, y: int, nz: int) -> nat
        decreases nz,
    {
        if nz <= 0 {
            0nat
        } else {
            self.row_count(x, y, nz - 1) + self.slot_count(x, y, nz - 1)
        }
    }

    /// Present voxels among the full rows `(x, 0) .. (x, ny)`.
    pub open spec fn sheet_count(self, x: int, ny: int) -> nat
        decreases ny,
    {
        if ny <= 0 {
            0nat
        } else {
            self.sheet_count(x, ny - 1) + self.row_count(x, ny - 1, self.extent_spec())
        }
    }

    /// Present voxels among the full sheets `0 .. nx`.
    pub open spec fn prefix_count(self, nx: int) -> nat
        decreases nx,
    {
        if nx <= 0 {
            0nat
        } else {
            self.prefix_count(nx - 1) + self.sheet_count(nx - 1, self.extent_spec())
        }
    }

    /// Number of voxels present in the grid.
    pub open spec fn count_present(self) -> nat {
        self.prefix_count(self.extent_spec())
    }

    /// A row's vertex run is 24 vertices per present voxel in it.
    proof fn lemma_row_len(self, x: int, y: int, nz: int)
        ensures
            self.row_vertices(x, y, nz).len() == 24 * self.row_count(x, y, nz),
        decreases nz,
    {
        if nz > 0 {
            self.lemma_row_len(x, y, nz - 1);
        }
    }

    /// A sheet's vertex run is 24 vertices per present voxel in it.
    proof fn lemma_sheet_len(self, x: int, ny: int)
        ensures
            self.sheet_vertices(x, ny).len() == 24 * self.sheet_count(x, ny),
        decreases ny,
    {
        if ny > 0 {
            self.lemma_sheet_len(x, ny - 1);
            self.lemma_row_len(x, ny - 1, self.extent_spec());
        }
    }

    /// A sheet-prefix's vertex run is 24 vertices per present voxel in it.
    proof fn lemma_prefix_len(self, nx: int)
        ensures
            self.prefix_vertices(nx).len() == 24 * self.prefix_count(nx),
        decreases nx,
    {
        if nx > 0 {
            self.lemma_prefix_len(nx - 1);
            self.lemma_sheet_len(nx - 1, self.extent_spec());
        }
    }

    /// Scans every slot of the dense cube and appends, for each present
    /// voxel, the 24 render vertices of a unit box at its cell with its
    /// stored color. The result is a full rebuild: 24 vertices per present
    /// voxel, in x, y, z scan order.
    pub fn vertices(&self) -> (vs: Vec<Vertex>)
        requires
            self.wf(),
        ensures
            vs@ == self.render_vertices(),
            vs@.len() == 24 * self.count_present(),
    {
        let extent = self.extent;
        let mut vertex_data: Vec<Vertex> = Vec::new();
        let mut x: usize = 0;
        while x < extent
            invariant
                self.wf(),
                extent == self.extent_spec(),
                x <= extent,
                vertex_data@ == self.prefix_vertices(x as int),
            decreases extent - x,
        {
            let mut y: usize = 0;
            while y < extent
                invariant
                    self.wf(),
                    extent == self.extent_spec(),
                    x < extent,
                    y <= extent,
                    vertex_data@ == self.prefix_vertices(x as int) + self.sheet_vertices(
                        x as int,
                        y as int,
                    ),
                decreases extent - y,
            {
                let mut z: usize = 0;
                while z < extent
                    invariant
                        self.wf(),
                        extent == self.extent_spec(),
                        x < extent,
                        y < extent,
                        z <= extent,
                        vertex_data@ == self.prefix_vertices(x as int) + self.sheet_vertices(
                            x as int,
                            y as int,
                        ) + self.row_vertices(x as int, y as int, z as int),
                    decreases extent - z,
                {
                    if let Some(voxel) = self.get_slot(x, y, z) {
                        let cube = Cuboid::new(
                            Vec3 { x: x as i64, y: y as i64, z: z as i64 },
                            Vec3 { x: 1, y: 1, z: 1 },
                            voxel.color,
                        );
                        let mut cube_vertices = cube.vertices();
                        vertex_data.append(&mut cube_vertices);
                        proof {
                            assert(cube == unit_cube(x as int, y as int, z as int, voxel.color));
                            assert(vertex_data@ =~= self.prefix_vertices(x as int)
                                + self.sheet_vertices(x as int, y as int) + self.row_vertices(
                                x as int,
                                y as int,
                                z as int + 1,
                            ));
                        }
                    } else {
                        proof {
                            assert(vertex_data@ =~= self.prefix_vertices(x as int)
                                + self.sheet_vertices(x as int, y as int) + self.row_vertices(
                                x as int,
                                y as int,
                                z as int + 1,
                            ));
                        }
                    }
                    z = z + 1;
                }
                proof {
                    assert(vertex_data@ =~= self.prefix_vertices(x as int) + self.sheet_vertices(
                        x as int,
                        y as int + 1,
                    ));
                }
                y = y + 1;
            }
            proof {
                assert(vertex_data@ =~= self.prefix_vertices(x as int + 1));
            }
            x = x + 1;
        }
        proof {
            self.lemma_prefix_len(self.extent_spec());
        }
        vertex_data
    }

    /// Reads the slot at an in-cube cell.
    fn get_slot(&self, x: usize, y: usize, z: usize) -> (r: Option<Voxel>)
        requires
            self.wf(),
            self.in_bounds(x as int, y as int, z as int),
        ensures
            r == self.voxel(x as int, y as int, z as int),
    {
        proof {
            lemma_flat_index_bounds(self.extent_spec(), x as int, y as int, z as int);
        }
        let idx = x * self.extent * self.extent + y * self.extent + z;
        self.cubes[idx]
    }

    /// After writing one flat slot, every other cell reads as before.
    proof fn lemma_store_updates_one_slot(self, prev: VoxelManager, x: int, y: int, z: int)
        requires
            prev.wf(),
            self.wf(),
            self.extent_spec() == prev.extent_spec(),
            prev.in_bounds(x, y, z),
            self.cubes@ =~= prev.cubes@.update(
                x * prev.extent_spec() * prev.extent_spec() + y * prev.extent_spec() + z,
                self.cubes@[x * prev.extent_spec() * prev.extent_spec() + y * prev.extent_spec()
                    + z],
            ),
        ensures
            forall|i: int, j: int, k: int|
                !(i == x && j == y && k == z) ==> #[trigger] self.voxel(i, j, k) == prev.voxel(
                    i,
                    j,
                    k,
                ),
    {
        let e = prev.extent_spec();
        lemma_flat_index_bounds(e, x, y, z);
        assert forall|i: int, j: int, k: int|
            !(i == x && j == y && k == z) implies #[trigger] self.voxel(i, j, k) == prev.voxel(
            i,
            j,
            k,
        ) by {
            if prev.in_bounds(i, j, k) {
                lemma_flat_index_bounds(e, i, j, k);
                if i * e * e + j * e + k == x * e * e + y * e + z {
                    lemma_flat_index_injective(e, i, j, k, x, y, z);
                }
            }
        }
    }
}

/// Bounds on the flat slot index `x·e² + y·e + z` of an in-cube cell.
proof fn lemma_flat_index_bounds(e: int, x: int, y: int, z: int)
    requires
        0 <= x < e,
        0 <= y < e,
        0 <= z < e,
        e <= 256,
    ensures
        0 <= x * e * e + y * e + z < e * e * e,
        e * e * e <= 16777216,
        x * e <= 65280,
        x * e * e <= 16711680,
        y * e <= 65280,
{
    assert(0 <= x * e * e + y * e + z < e * e * e && e * e * e <= 16777216 && x * e <= 65280
        && x * e * e <= 16711680 && y * e <= 65280) by (nonlinear_arith)
        requires
            0 <= x < e,
            0 <= y < e,
            0 <= z < e,
            e <= 256,
    ;
}

/// Two in-cube cells with the same flat slot index are the same cell.
proof fn lemma_flat_index_injective(e: int, x: int, y: int, z: int, i: int, j: int, k: int)
    requires
        0 <= x < e,
        0 <= y < e,
        0 <= z < e,
        0 <= i < e,
        0 <= j < e,
        0 <= k < e,
        x * e * e + y * e + z == i * e * e + j * e + k,
    ensures
        x == i && y == j && z == k,
{
    assert((x * e + y) * e + z == (i * e + j) * e + k) by (nonlinear_arith)
        requires
            x * e * e + y * e + z == i * e * e + j * e + k,
    ;
    assert(x * e + y == i * e + j && z == k) by (nonlinear_arith)
        requires
            (x * e + y) * e + z == (i * e + j) * e + k,
            0 <= z < e,
            0 <= k < e,
    ;
    assert(x == i && y == j) by (nonlinear_arith)
        requires
            x * e + y == i * e + j,
            0 <= y < e,
            0 <= j < e,
    ;
}

} // verus!
