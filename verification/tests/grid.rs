use voxel_editor::color::Rgba;
use voxel_editor::geometry::{Vec3, Vertex};
use voxel_editor::voxel_manager::{GridError, VoxelManager};

fn red() -> Rgba {
    Rgba { r: 255, g: 0, b: 0, a: 255 }
}

fn blue() -> Rgba {
    Rgba { r: 0, g: 0, b: 255, a: 255 }
}

#[test]
fn new_grid_is_empty() {
    let m = VoxelManager::new(4);
    assert_eq!(m.extent(), 4);
    for x in 0..4 {
        for y in 0..4 {
            for z in 0..4 {
                assert_eq!(m.get(x, y, z), None);
            }
        }
    }
    assert_eq!(m.vertices().len(), 0);
}

#[test]
fn set_then_get_roundtrip() {
    let mut m = VoxelManager::new(4);
    assert_eq!(m.set(1, 2, 3, red()), Ok(()));
    assert_eq!(m.get(1, 2, 3), Some(red()));
    assert_eq!(m.get(3, 2, 1), None);
}

#[test]
fn clear_empties_a_slot() {
    let mut m = VoxelManager::new(4);
    assert_eq!(m.set(0, 0, 0, blue()), Ok(()));
    assert_eq!(m.clear(0, 0, 0), Ok(()));
    assert_eq!(m.get(0, 0, 0), None);
    assert_eq!(m.vertices().len(), 0);
}

#[test]
fn out_of_bounds_set_is_rejected_and_grid_unchanged() {
    let mut m = VoxelManager::new(4);
    assert_eq!(m.set(1, 1, 1, red()), Ok(()));
    assert_eq!(m.set(5, 5, 5, blue()), Err(GridError::OutOfBounds));
    assert_eq!(m.set(4, 0, 0, blue()), Err(GridError::OutOfBounds));
    assert_eq!(m.get(5, 5, 5), None);
    assert_eq!(m.get(1, 1, 1), Some(red()));
    assert_eq!(m.vertices().len(), 24);
}

#[test]
fn out_of_bounds_clear_is_rejected() {
    let mut m = VoxelManager::new(2);
    assert_eq!(m.clear(0, 2, 0), Err(GridError::OutOfBounds));
}

#[test]
fn vertex_count_is_24_per_present_voxel() {
    let mut m = VoxelManager::new(3);
    assert_eq!(m.vertices().len(), 0);
    m.set(0, 0, 0, red()).unwrap();
    assert_eq!(m.vertices().len(), 24);
    m.set(2, 1, 0, blue()).unwrap();
    assert_eq!(m.vertices().len(), 48);
    m.set(2, 1, 0, red()).unwrap();
    assert_eq!(m.vertices().len(), 48);
    m.clear(0, 0, 0).unwrap();
    assert_eq!(m.vertices().len(), 24);
}

#[test]
fn single_voxel_mesh_matches_unit_box_at_its_cell() {
    let mut m = VoxelManager::new(4);
    m.set(1, 2, 3, red()).unwrap();
    let vs = m.vertices();
    assert_eq!(vs.len(), 24);
    for v in &vs {
        assert_eq!(v.color, red());
    }
    let corners = [
        Vec3 { x: 1, y: 2, z: 3 },
        Vec3 { x: 2, y: 2, z: 3 },
        Vec3 { x: 2, y: 3, z: 3 },
        Vec3 { x: 1, y: 3, z: 3 },
        Vec3 { x: 1, y: 2, z: 4 },
        Vec3 { x: 2, y: 2, z: 4 },
        Vec3 { x: 2, y: 3, z: 4 },
        Vec3 { x: 1, y: 3, z: 4 },
    ];
    let table: [usize; 24] = [
        0, 1, 2, 3, //
        1, 0, 4, 5, //
        2, 1, 5, 6, //
        3, 2, 6, 7, //
        3, 0, 4, 7, //
        4, 5, 6, 7,
    ];
    for (i, &k) in table.iter().enumerate() {
        assert_eq!(vs[i], Vertex { pos: corners[k], color: red() });
    }
}

#[test]
fn mesh_scans_slots_in_x_y_z_order() {
    let mut m = VoxelManager::new(2);
    m.set(1, 0, 0, blue()).unwrap();
    m.set(0, 0, 1, red()).unwrap();
    let vs = m.vertices();
    assert_eq!(vs.len(), 48);
    // (0,0,1) comes before (1,0,0) in scan order
    assert_eq!(vs[0].color, red());
    assert_eq!(vs[0].pos, Vec3 { x: 0, y: 0, z: 1 });
    assert_eq!(vs[24].color, blue());
    assert_eq!(vs[24].pos, Vec3 { x: 1, y: 0, z: 0 });
}

#[test]
fn zero_extent_grid_rejects_everything() {
    let mut m = VoxelManager::new(0);
    assert_eq!(m.extent(), 0);
    assert_eq!(m.set(0, 0, 0, red()), Err(GridError::OutOfBounds));
    assert_eq!(m.get(0, 0, 0), None);
    assert_eq!(m.vertices().len(), 0);
}
