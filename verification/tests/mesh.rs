use voxel_editor::color::Rgba;
use voxel_editor::geometry::{Cuboid, Vec3};
use voxel_editor::mesh::{generate_cursor_vertices, generate_mesh_vertices};

fn white() -> Rgba {
    Rgba { r: 255, g: 255, b: 255, a: 255 }
}

#[test]
fn mesh_has_axis_lines_and_12_vertices_per_grid_line() {
    let (vd, id) = generate_mesh_vertices(16);
    assert_eq!(vd.len(), 6 + 12 * 16);
    assert_eq!(id.len(), vd.len());
    for (j, &ix) in id.iter().enumerate() {
        assert_eq!(ix as usize, j);
    }
}

#[test]
fn mesh_axis_lines_are_colored_and_span_the_grid() {
    let (vd, _) = generate_mesh_vertices(4);
    assert_eq!(vd[0].pos, Vec3 { x: 0, y: 0, z: 0 });
    assert_eq!(vd[0].color, Rgba { r: 255, g: 0, b: 0, a: 255 });
    assert_eq!(vd[1].pos, Vec3 { x: 4, y: 0, z: 0 });
    assert_eq!(vd[1].color, Rgba { r: 255, g: 0, b: 0, a: 255 });
    assert_eq!(vd[3].pos, Vec3 { x: 0, y: 4, z: 0 });
    assert_eq!(vd[3].color, Rgba { r: 0, g: 255, b: 0, a: 255 });
    assert_eq!(vd[5].pos, Vec3 { x: 0, y: 0, z: 4 });
    assert_eq!(vd[5].color, Rgba { r: 0, g: 0, b: 255, a: 255 });
}

#[test]
fn mesh_first_ring_outlines_walls_and_floor() {
    let (vd, _) = generate_mesh_vertices(4);
    let ring: Vec<(i64, i64, i64)> = vec![
        (0, 1, 0),
        (4, 1, 0),
        (1, 0, 0),
        (1, 4, 0),
        (0, 1, 0),
        (0, 1, 4),
        (0, 0, 1),
        (0, 4, 1),
        (1, 0, 0),
        (1, 0, 4),
        (0, 0, 1),
        (4, 0, 1),
    ];
    for (k, &(x, y, z)) in ring.iter().enumerate() {
        assert_eq!(vd[6 + k].pos, Vec3 { x, y, z });
        assert_eq!(vd[6 + k].color, white());
    }
}

#[test]
fn mesh_with_no_grid_lines_is_just_the_axes() {
    let (vd, id) = generate_mesh_vertices(0);
    assert_eq!(vd.len(), 6);
    assert_eq!(id.len(), 6);
}

#[test]
fn cursor_batch_has_24_vertices_and_fixed_triangle_indices() {
    let cube = Cuboid::new(
        Vec3 { x: 0, y: 0, z: 0 },
        Vec3 { x: 1, y: 1, z: 1 },
        Rgba { r: 255, g: 0, b: 0, a: 51 },
    );
    let (vd, id) = generate_cursor_vertices(&cube);
    assert_eq!(vd.len(), 24);
    let expected: Vec<u16> = vec![
        0, 1, 2, 2, 3, 0, //
        4, 5, 6, 6, 7, 4, //
        8, 9, 10, 10, 11, 8, //
        12, 13, 14, 14, 15, 12, //
        16, 17, 18, 18, 19, 16, //
        20, 21, 22, 22, 23, 20,
    ];
    assert_eq!(id, expected);
    assert_eq!(vd, cube.vertices());
}
