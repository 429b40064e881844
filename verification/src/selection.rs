use vstd::prelude::*;

use crate::color::Rgba;
use crate::geometry::{union_cuboid, Cuboid, Vec3};
use crate::plane::{xy_plane_spec, Plane};
use crate::snap::{get_grid_pos, grid_pos_spec, WorldPos};

verus! {

/// The unit cursor box built for a raycast hit: its origin is the grid
/// cell the hit position snaps to, its extents are the sum of the hit
/// face's basis vectors (selecting one of the eight cells adjacent to that
/// corner), and it is drawn translucent red.
pub open spec fn octant_cursor(pos: WorldPos, p: Plane) -> Cuboid {
    Cuboid {
        origin: Vec3 {
            x: grid_pos_spec(pos).0 as i64,
            y: grid_pos_spec(pos).1 as i64,
            z: grid_pos_spec(pos).2 as i64,
        },
        extents: p.octant_spec(),
        color: Rgba { r: 255, g: 0, b: 0, a: 51 },
    }
}

/// The cursor box held before any raycast hit arrives: a unit box at the
/// origin oriented by the default grid plane.
pub open spec fn initial_cursor() -> Cuboid {
    Cuboid {
        origin: Vec3 { x: 0, y: 0, z: 0 },
        extents: xy_plane_spec().octant_spec(),
        color: Rgba { r: 255, g: 0, b: 0, a: 51 },
    }
}

/// Tracks the hover cursor box and the live drag-rectangle bounding box,
/// driven by snapped raycast results. A missing hit never discards state;
/// it only disables rendering of the cursor.
pub struct SelectionController {
    /// The hover cursor box; during a drag, the drag's anchor.
    pub cursor_cube: Cuboid,
    /// The box built at the far end of the live drag, when one is active.
    pub drag_end: Option<Cuboid>,
    /// The committed bounding box of the live drag, when one is active:
    /// the containing box of the anchor cursor and the drag end.
    pub draw_cube: Option<Cuboid>,
    /// Whether the cursor geometry should be rendered at all.
    pub render_cursor: bool,
}

impl SelectionController {
    /// The held boxes stay within the coordinate range.
    pub open spec fn wf(self) -> bool {
        &&& self.cursor_cube.wf()
        &&& self.drag_end is Some ==> self.drag_end->Some_0.wf()
        &&& self.draw_cube is Some ==> self.draw_cube->Some_0.wf()
    }

    /// A fresh controller: default cursor at the origin, no drag, cursor
    /// rendering enabled.
    pub fn new() -> (s: SelectionController)
        ensures
            s.cursor_cube == initial_cursor(),
            s.drag_end is None,
            s.draw_cube is None,
            s.render_cursor,
            s.wf(),
    {
        let plane = Plane::xy_plane();
        let cursor_cube = Cuboid::new(
            Vec3 { x: 0, y: 0, z: 0 },
            plane.octant_extents(),
            Rgba::half_alpha_red(),
        );
        SelectionController { cursor_cube, drag_end: None, draw_cube: None, render_cursor: true }
    }

    /// Moves the hover cursor for a new raycast result. A hit snaps the
    /// position to its grid cell and rebuilds the cursor box there; a
    /// missing hit only disables cursor rendering, retaining all state.
    pub fn update_cursor_pos(&mut self, pos: WorldPos, plane: Option<&Plane>)
        requires
            old(self).wf(),
            pos.in_range(),
            plane is Some ==> plane->Some_0.wf(),
        ensures
            final(self).wf(),
            final(self).drag_end == old(self).drag_end,
            final(self).draw_cube == old(self).draw_cube,
            plane is Some ==> final(self).cursor_cube == octant_cursor(pos, *plane->Some_0)
                && final(self).render_cursor,
            plane is None ==> final(self).cursor_cube == old(self).cursor_cube
                && !final(self).render_cursor,
    {
        match plane {
            Some(plane) => {
                let cell = get_grid_pos(pos);
                self.cursor_cube = Cuboid::new(
                    cell,
                    plane.octant_extents(),
                    Rgba::half_alpha_red(),
                );
                self.render_cursor = true;
            },
            None => {
                self.render_cursor = false;
            },
        }
    }

    /// Extends the live drag to a new raycast result. A hit builds the
    /// drag-end box the same way the cursor is built and commits the
    /// bounding box of the anchor cursor and that end box as the drag
    /// rectangle; a missing hit only disables cursor rendering.
    pub fn update_draw_rectangle(&mut self, pos: WorldPos, plane: Option<&Plane>)
        requires
            old(self).wf(),
            pos.in_range(),
            plane is Some ==> plane->Some_0.wf(),
        ensures
            final(self).wf(),
            final(self).cursor_cube == old(self).cursor_cube,
            plane is Some ==> final(self).drag_end == Some(octant_cursor(pos, *plane->Some_0))
                && final(self).draw_cube == Some(
                union_cuboid(old(self).cursor_cube, octant_cursor(pos, *plane->Some_0)),
            ) && final(self).render_cursor,
            plane is None ==> final(self).drag_end == old(self).drag_end && final(self).draw_cube
                == old(self).draw_cube && !final(self).render_cursor,
    {
        match plane {
            Some(plane) => {
                let end_cube = Cuboid::new(
                    get_grid_pos(pos),
                    plane.octant_extents(),
                    Rgba::half_alpha_red(),
                );
                let draw_cube = self.cursor_cube.containing_cube(&end_cube);
                self.drag_end = Some(end_cube);
                self.draw_cube = Some(draw_cube);
                self.render_cursor = true;
            },
            None => {
                self.render_cursor = false;
            },
        }
    }

    /// Ends a drag: hands the committed bounding box (if a drag was live)
    /// to the caller, which applies it to the voxel grid, and forgets the
    /// drag rectangle.
    pub fn release(&mut self) -> (committed: Option<Cuboid>)
        requires
            old(self).wf(),
        ensures
            final(self).wf(),
            committed == old(self).draw_cube,
            final(self).drag_end is None,
            final(self).draw_cube is None,
            final(self).cursor_cube == old(self).cursor_cube,
            final(self).render_cursor == old(self).render_cursor,
    {
        let committed = self.draw_cube;
        self.drag_end = None;
        self.draw_cube = None;
        committed
    }
}

} // verus!
