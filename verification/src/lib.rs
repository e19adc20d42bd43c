//! Palette-compressed voxel grids and the greedy surface extraction that
//! turns them into render geometry.
//!
//! Everything in this crate works on integers: positions are lattice
//! coordinates, normals are integer unit vectors, and material attributes are
//! carried as IEEE-754 bit patterns so that they can be compared and
//! deduplicated exactly.

pub mod arguments;
pub mod color;
pub mod convert;
pub mod data;
pub mod ext;
pub mod math;
pub mod util;
pub mod world;
