pub mod color;
pub mod geometry;
pub mod mesh;
pub mod plane;
pub mod selection;
pub mod snap;
pub mod voxel_manager;
