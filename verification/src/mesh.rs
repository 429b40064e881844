use vstd::prelude::*;

use crate::color::Rgba;
use crate::geometry::{vertex, Cuboid, Vec3, Vertex};

verus! {

/// Largest grid-line count the mesh generator accepts: it keeps every
/// vertex index of the generated line list inside `u16`.
pub const MAX_MESH_COUNT: u16 = 5460;

/// A white vertex at integer coordinates.
pub open spec fn white_at(x: int, y: int, z: int) -> Vertex {
    Vertex {
        pos: Vec3 { x: x as i64, y: y as i64, z: z as i64 },
        color: Rgba { r: 255, g: 255, b: 255, a: 255 },
    }
}

/// Builds a white vertex, the color of the interior grid lines.
pub fn white_vertex(pos: Vec3) -> (v: Vertex)
    ensures
        v == (Vertex { pos, color: Rgba { r: 255, g: 255, b: 255, a: 255 } }),
{
    vertex(pos, Rgba::white())
}

/// Builds a translucent red vertex, the color of the cursor overlay.
pub fn half_red_vertex(pos: Vec3) -> (v: Vertex)
    ensures
        v == (Vertex { pos, color: Rgba { r: 255, g: 0, b: 0, a: 51 } }),
{
    vertex(pos, Rgba::half_alpha_red())
}

/// The six axis-line vertices heading the grid mesh: one colored line per
/// coordinate axis, from the origin to `m` units out.
pub open spec fn axis_line_vertices(m: int) -> Seq<Vertex> {
    seq![
        Vertex { pos: Vec3 { x: 0, y: 0, z: 0 }, color: Rgba { r: 255, g: 0, b: 0, a: 255 } },
        Vertex {
            pos: Vec3 { x: m as i64, y: 0, z: 0 },
            color: Rgba { r: 255, g: 0, b: 0, a: 255 },
        },
        Vertex { pos: Vec3 { x: 0, y: 0, z: 0 }, color: Rgba { r: 0, g: 255, b: 0, a: 255 } },
        Vertex {
            pos: Vec3 { x: 0, y: m as i64, z: 0 },
            color: Rgba { r: 0, g: 255, b: 0, a: 255 },
        },
        Vertex { pos: Vec3 { x: 0, y: 0, z: 0 }, color: Rgba { r: 0, g: 0, b: 255, a: 255 } },
        Vertex {
            pos: Vec3 { x: 0, y: 0, z: m as i64 },
            color: Rgba { r: 0, g: 0, b: 255, a: 255 },
        },
    ]
}

/// The twelve white vertices drawn for grid line `i`: two lines on the
/// back wall, two on the left wall and two on the floor, each given as a
/// start and end vertex of a line segment.
pub open spec fn grid_line_ring(m: int, i: int) -> Seq<Vertex> {
    seq![
        white_at(0, i, 0),
        white_at(m, i, 0),
        white_at(i, 0, 0),
        white_at(i, m, 0),
        white_at(0, i, 0),
        white_at(0, i, m),
        white_at(0, 0, i),
        white_at(0, m, i),
        white_at(i, 0, 0),
        white_at(i, 0, m),
        white_at(0, 0, i),
        white_at(m, 0, i),
    ]
}

/// The grid-line rings for lines `1 ..= k`, in order.
pub open spec fn grid_line_rings_upto(m: int, k: int) -> Seq<Vertex>
    decreases k,
{
    if k <= 0 {
        Seq::empty()
    } else {
        grid_line_rings_upto(m, k - 1) + grid_line_ring(m, k)
    }
}

/// The whole grid-mesh vertex list: the three axis lines, then the rings
/// of white grid lines.
pub open spec fn mesh_vertices_spec(m: int) -> Seq<Vertex> {
    axis_line_vertices(m) + grid_line_rings_upto(m, m)
}

/// Pushes one vertex and the line-list index pointing at it.
fn push_indexed(vertex_data: &mut Vec<Vertex>, index_data: &mut Vec<u16>, v: Vertex)
    requires
        old(vertex_data)@.len() == old(index_data)@.len(),
        old(vertex_data)@.len() < 65536,
        forall|j: int|
            0 <= j < old(index_data)@.len() ==> #[trigger] old(index_data)@[j] as int == j,
    ensures
        final(vertex_data)@ == old(vertex_data)@.push(v),
        final(index_data)@.len() == final(vertex_data)@.len(),
        forall|j: int|
            0 <= j < final(index_data)@.len() ==> #[trigger] final(index_data)@[j] as int == j,
{
    vertex_data.push(v);
    index_data.push((vertex_data.len() - 1) as u16);
}

/// Generates the grid's line-list mesh: three colored axis lines and, for
/// every line `1 ..= meshes`, twelve white vertices outlining the back
/// wall, left wall and floor of the grid. The index list simply numbers
/// the vertices in order.
pub fn generate_mesh_vertices(meshes: u16) -> (r: (Vec<Vertex>, Vec<u16>))
    requires
        meshes <= MAX_MESH_COUNT,
    ensures
        r.0@ == mesh_vertices_spec(meshes as int),
        r.0@.len() == 6 + 12 * meshes,
        r.1@.len() == r.0@.len(),
        forall|j: int| 0 <= j < r.1@.len() ==> #[trigger] r.1@[j] as int == j,
{
    let mut vertex_data: Vec<Vertex> = Vec::new();
    let mut index_data: Vec<u16> = Vec::new();
    let mesh_count = meshes as i64;

    // X axis
    push_indexed(&mut vertex_data, &mut index_data, vertex(Vec3 { x: 0, y: 0, z: 0 }, Rgba::red()));
    push_indexed(
        &mut vertex_data,
        &mut index_data,
        vertex(Vec3 { x: mesh_count, y: 0, z: 0 }, Rgba::red()),
    );

    // Y axis
    push_indexed(
        &mut vertex_data,
        &mut index_data,
        vertex(Vec3 { x: 0, y: 0, z: 0 }, Rgba::green()),
    );
    push_indexed(
        &mut vertex_data,
        &mut index_data,
        vertex(Vec3 { x: 0, y: mesh_count, z: 0 }, Rgba::green()),
    );

    // Z axis
    push_indexed(
        &mut vertex_data,
        &mut index_data,
        vertex(Vec3 { x: 0, y: 0, z: 0 }, Rgba::blue()),
    );
    push_indexed(
        &mut vertex_data,
        &mut index_data,
        vertex(Vec3 { x: 0, y: 0, z: mesh_count }, Rgba::blue()),
    );

    proof {
        assert(vertex_data@ =~= axis_line_vertices(meshes as int) + grid_line_rings_upto(
            meshes as int,
            0,
        ));
    }

    let mut i: u16 = 1;
    while i <= meshes
        invariant
            meshes <= MAX_MESH_COUNT,
            1 <= i <= meshes + 1,
            mesh_count == meshes as i64,
            vertex_data@ == axis_line_vertices(meshes as int) + grid_line_rings_upto(
                meshes as int,
                i as int - 1,
            ),
            vertex_data@.len() == 6 + 12 * (i as int - 1),
            index_data@.len() == vertex_data@.len(),
            forall|j: int|
                0 <= j < index_data@.len() ==> #[trigger] index_data@[j] as int == j,
        decreases meshes + 1 - i,
    {
        let fi = i as i64;

        // back
        push_indexed(&mut vertex_data, &mut index_data, white_vertex(Vec3 { x: 0, y: fi, z: 0 }));
        push_indexed(
            &mut vertex_data,
            &mut index_data,
            white_vertex(Vec3 { x: mesh_count, y: fi, z: 0 }),
        );
        push_indexed(&mut vertex_data, &mut index_data, white_vertex(Vec3 { x: fi, y: 0, z: 0 }));
        push_indexed(
            &mut vertex_data,
            &mut index_data,
            white_vertex(Vec3 { x: fi, y: mesh_count, z: 0 }),
        );

        // left
        push_indexed(&mut vertex_data, &mut index_data, white_vertex(Vec3 { x: 0, y: fi, z: 0 }));
        push_indexed(
            &mut vertex_data,
            &mut index_data,
            white_vertex(Vec3 { x: 0, y: fi, z: mesh_count }),
        );
        push_indexed(&mut vertex_data, &mut index_data, white_vertex(Vec3 { x: 0, y: 0, z: fi }));
        push_indexed(
            &mut vertex_data,
            &mut index_data,
            white_vertex(Vec3 { x: 0, y: mesh_count, z: fi }),
        );

        // bottom
        push_indexed(&mut vertex_data, &mut index_data, white_vertex(Vec3 { x: fi, y: 0, z: 0 }));
        push_indexed(
            &mut vertex_data,
            &mut index_data,
            white_vertex(Vec3 { x: fi, y: 0, z: mesh_count }),
        );
        push_indexed(&mut vertex_data, &mut index_data, white_vertex(Vec3 { x: 0, y: 0, z: fi }));
        push_indexed(
            &mut vertex_data,
            &mut index_data,
            white_vertex(Vec3 { x: mesh_count, y: 0, z: fi }),
        );

        proof {
            assert(vertex_data@ =~= axis_line_vertices(meshes as int) + grid_line_rings_upto(
                meshes as int,
                i as int,
            ));
        }
        i = i + 1;
    }
    (vertex_data, index_data)
}

/// The triangle-list index pattern for the cursor box: each face's four
/// vertices are triangulated as two triangles with the fixed local
/// pattern 0, 1, 2, 2, 3, 0.
pub open spec fn cursor_index_seq() -> Seq<u16> {
    seq![
        0u16, 1, 2, 2, 3, 0,
        4, 5, 6, 6, 7, 4,
        8, 9, 10, 10, 11, 8,
        12, 13, 14, 14, 15, 12,
        16, 17, 18, 18, 19, 16,
        20, 21, 22, 22, 23, 20,
    ]
}

/// Generates the cursor overlay batch: the box's 24 render vertices and
/// the fixed 36-entry triangle-list index pattern over them.
pub fn generate_cursor_vertices(cuboid: &Cuboid) -> (r: (Vec<Vertex>, Vec<u16>))
    requires
        cuboid.wf(),
    ensures
        r.0@ == cuboid.render_vertices(),
        r.1@ == cursor_index_seq(),
{
    let mut index_data: Vec<u16> = Vec::new();
    index_data.push(0);
    index_data.push(1);
    index_data.push(2);
    index_data.push(2);
    index_data.push(3);
    index_data.push(0);
    index_data.push(4);
    index_data.push(5);
    index_data.push(6);
    index_data.push(6);
    index_data.push(7);
    index_data.push(4);
    index_data.push(8);
    index_data.push(9);
    index_data.push(10);
    index_data.push(10);
    index_data.push(11);
    index_data.push(8);
    index_data.push(12);
    index_data.push(13);
    index_data.push(14);
    index_data.push(14);
    index_data.push(15);
    index_data.push(12);
    index_data.push(16);
    index_data.push(17);
    index_data.push(18);
    index_data.push(18);
    index_data.push(19);
    index_data.push(16);
    index_data.push(20);
    index_data.push(21);
    index_data.push(22);
    index_data.push(22);
    index_data.push(23);
    index_data.push(20);
    proof {
        assert(index_data@ =~= cursor_index_seq());
    }
    (cuboid.vertices(), index_data)
}

} // verus!
