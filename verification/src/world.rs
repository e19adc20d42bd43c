//! Voxel storage, materials and meshing.

pub mod chunk;
pub mod gen;
pub mod material;
pub mod meta;
