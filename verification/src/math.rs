//! Integer vectors, matrices, axes and cube sides.

pub mod aabb;
pub mod axis;
pub mod iter;
pub mod mat;
pub mod side;
pub mod vec;
