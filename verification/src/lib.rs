//! Turns a triangle mesh and its voxelization into the table that a
//! voxel-sculpting application imports: merged mesh buffers, the grid's
//! addressing level, and one axis-remapped record per occupied cell.

pub mod error;
pub mod export;
pub mod level;
pub mod mesh;
pub mod obj;
pub mod resolution;
