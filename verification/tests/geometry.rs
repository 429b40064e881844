use voxel_editor::color::Rgba;
use voxel_editor::geometry::{vertex, Cuboid, Vec3, Vertex};

fn red() -> Rgba {
    Rgba { r: 255, g: 0, b: 0, a: 255 }
}

fn corner_table() -> [usize; 24] {
    [
        0, 1, 2, 3, //
        1, 0, 4, 5, //
        2, 1, 5, 6, //
        3, 2, 6, 7, //
        3, 0, 4, 7, //
        4, 5, 6, 7,
    ]
}

#[test]
fn vertex_builder_tags_position_and_color() {
    let v = vertex(Vec3 { x: 3, y: -2, z: 7 }, red());
    assert_eq!(v, Vertex { pos: Vec3 { x: 3, y: -2, z: 7 }, color: red() });
}

#[test]
fn corner_points_follow_fixed_enumeration() {
    let c = Cuboid::new(Vec3 { x: 1, y: 2, z: 3 }, Vec3 { x: 1, y: 1, z: 1 }, red());
    let pts = c.corner_points();
    let expected = [
        (1, 2, 3),
        (2, 2, 3),
        (2, 3, 3),
        (1, 3, 3),
        (1, 2, 4),
        (2, 2, 4),
        (2, 3, 4),
        (1, 3, 4),
    ];
    assert_eq!(pts.len(), 8);
    for (k, &(x, y, z)) in expected.iter().enumerate() {
        assert_eq!(pts[k], Vec3 { x, y, z });
    }
}

#[test]
fn corner_points_handle_negative_extents() {
    let c = Cuboid::new(Vec3 { x: 0, y: 0, z: 0 }, Vec3 { x: -1, y: -1, z: 1 }, red());
    let pts = c.corner_points();
    assert_eq!(pts[0], Vec3 { x: 0, y: 0, z: 0 });
    assert_eq!(pts[1], Vec3 { x: -1, y: 0, z: 0 });
    assert_eq!(pts[2], Vec3 { x: -1, y: -1, z: 0 });
    assert_eq!(pts[6], Vec3 { x: -1, y: -1, z: 1 });
}

#[test]
fn degenerate_extents_still_yield_all_vertices() {
    let c = Cuboid::new(Vec3 { x: 5, y: 5, z: 5 }, Vec3 { x: 0, y: 0, z: 0 }, red());
    let vs = c.vertices();
    assert_eq!(vs.len(), 24);
    for v in &vs {
        assert_eq!(v.pos, Vec3 { x: 5, y: 5, z: 5 });
        assert_eq!(v.color, red());
    }
}

#[test]
fn vertices_follow_face_table() {
    let c = Cuboid::new(Vec3 { x: 1, y: 2, z: 3 }, Vec3 { x: 1, y: 1, z: 1 }, red());
    let pts = c.corner_points();
    let vs = c.vertices();
    assert_eq!(vs.len(), 24);
    for (i, &k) in corner_table().iter().enumerate() {
        assert_eq!(vs[i].pos, pts[k]);
        assert_eq!(vs[i].color, red());
    }
}

#[test]
fn containing_is_commutative() {
    let a = Cuboid::new(Vec3 { x: -3, y: 1, z: 2 }, Vec3 { x: 5, y: -4, z: 1 }, red());
    let b = Cuboid::new(Vec3 { x: 2, y: 2, z: -7 }, Vec3 { x: 1, y: 9, z: 3 }, red());
    let ab = a.containing_cube(&b);
    let ba = b.containing_cube(&a);
    assert_eq!(ab, ba);
}

#[test]
fn containing_self_is_own_bounding_box() {
    let a = Cuboid::new(Vec3 { x: 4, y: 4, z: 4 }, Vec3 { x: -2, y: 3, z: -1 }, red());
    let aa = a.containing_cube(&a);
    assert_eq!(aa.origin, Vec3 { x: 2, y: 4, z: 3 });
    assert_eq!(aa.extents, Vec3 { x: 2, y: 3, z: 1 });
    assert_eq!(aa.color, red());
}

#[test]
fn containing_bounds_match_corner_extremes() {
    let a = Cuboid::new(Vec3 { x: -3, y: 1, z: 2 }, Vec3 { x: 5, y: -4, z: 1 }, red());
    let b = Cuboid::new(Vec3 { x: 2, y: 2, z: -7 }, Vec3 { x: 1, y: 9, z: 3 }, red());
    let u = a.containing_cube(&b);
    let mut corners = a.corner_points();
    corners.extend(b.corner_points());
    let min_x = corners.iter().map(|p| p.x).min().unwrap();
    let max_x = corners.iter().map(|p| p.x).max().unwrap();
    let min_y = corners.iter().map(|p| p.y).min().unwrap();
    let max_y = corners.iter().map(|p| p.y).max().unwrap();
    let min_z = corners.iter().map(|p| p.z).min().unwrap();
    let max_z = corners.iter().map(|p| p.z).max().unwrap();
    assert_eq!(u.origin, Vec3 { x: min_x, y: min_y, z: min_z });
    assert_eq!(
        u.extents,
        Vec3 { x: max_x - min_x, y: max_y - min_y, z: max_z - min_z }
    );
}

#[test]
fn containing_spans_separated_unit_boxes() {
    let anchor = Cuboid::new(Vec3 { x: 0, y: 0, z: 0 }, Vec3 { x: 1, y: 1, z: 1 }, red());
    let drag_end = Cuboid::new(Vec3 { x: 2, y: 2, z: 2 }, Vec3 { x: 1, y: 1, z: 1 }, red());
    let committed = anchor.containing_cube(&drag_end);
    assert_eq!(committed.origin, Vec3 { x: 0, y: 0, z: 0 });
    assert_eq!(committed.extents, Vec3 { x: 3, y: 3, z: 3 });
}
