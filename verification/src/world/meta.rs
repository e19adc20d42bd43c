//! World metadata.

use vstd::prelude::*;
use crate::math::aabb::AABB;
use crate::math::vec::IVec3;

verus! {

/// A structure placed in the world.
#[derive(Debug)]
pub struct Structure {
    /// The box that the structure lies in.
    pub bounds: AABB<IVec3>,
}

} // verus!
