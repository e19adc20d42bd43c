//! Axis-aligned boxes.

use vstd::prelude::*;
use super::vec::IVec3;

verus! {

/// A test whether a region holds a value.
pub trait Contains<T> {
    /// What the test answers.
    spec fn spec_contains(&self, value: &T) -> bool;

    fn test_contains(&self, value: &T) -> (r: bool)
        ensures
            r == self.spec_contains(value),
    ;
}

/// A test whether a region and a value have a point in common.
pub trait Intersects<T> {
    /// What the test answers.
    spec fn spec_intersects(&self, value: &T) -> bool;

    fn test_intersects(&self, value: &T) -> (r: bool)
        ensures
            r == self.spec_intersects(value),
    ;
}

/// The position of a chunk in the world, in chunks.
#[derive(Clone, Copy, Debug, PartialEq, Eq, Structural, Hash)]
pub struct ChunkPos {
    pub value: IVec3,
}

/// An axis-aligned box, given by two corners.
#[derive(Debug)]
pub struct AABB<T> {
    /// Inclusive lower bound
    pub start: T,
    /// Inclusive upper bound
    pub end: T,
}

impl<T: Copy> Clone for AABB<T> {
    fn clone(&self) -> (r: Self)
        ensures
            r == *self,
    {
        AABB { start: self.start, end: self.end }
    }
}

impl<T: Copy> Copy for AABB<T> {

}

impl<T> AABB<T> {
    /// The box with the given corners, which are taken as they are.
    pub fn new_unchecked(start: T, end: T) -> (r: Self)
        ensures
            r.start == start,
            r.end == end,
    {
        AABB { start, end }
    }
}

/// The smaller of two numbers.
pub open spec fn spec_min(a: int, b: int) -> int {
    if a < b {
        a
    } else {
        b
    }
}

/// The larger of two numbers.
pub open spec fn spec_max(a: int, b: int) -> int {
    if a < b {
        b
    } else {
        a
    }
}

fn ordered(a: i32, b: i32) -> (r: (i32, i32))
    ensures
        r.0 == spec_min(a as int, b as int),
        r.1 == spec_max(a as int, b as int),
{
    if a < b {
        (a, b)
    } else {
        (b, a)
    }
}

impl AABB<IVec3> {
    /// True when no component of the lower corner exceeds that of the
    /// upper corner.
    pub open spec fn spec_ordered(&self) -> bool {
        self.start.x <= self.end.x && self.start.y <= self.end.y && self.start.z <= self.end.z
    }

    /// The box spanned by two points: its lower corner holds the smaller
    /// and its upper corner the larger of each pair of components.
    pub fn new(start: IVec3, end: IVec3) -> (r: Self)
        ensures
            r.spec_ordered(),
            r.start.x == spec_min(start.x as int, end.x as int),
            r.start.y == spec_min(start.y as int, end.y as int),
            r.start.z == spec_min(start.z as int, end.z as int),
            r.end.x == spec_max(start.x as int, end.x as int),
            r.end.y == spec_max(start.y as int, end.y as int),
            r.end.z == spec_max(start.z as int, end.z as int),
    {
        let (x0, x1) = ordered(start.x, end.x);
        let (y0, y1) = ordered(start.y, end.y);
        let (z0, z1) = ordered(start.z, end.z);
        AABB { start: IVec3 { x: x0, y: y0, z: z0 }, end: IVec3 { x: x1, y: y1, z: z1 } }
    }

    /// True when the lower corner plus half the upper corner fits the
    /// component type.
    pub open spec fn spec_center_fits(&self) -> bool {
        &&& spec_fits_i32(self.start.x + spec_half(self.end.x as int))
        &&& spec_fits_i32(self.start.y + spec_half(self.end.y as int))
        &&& spec_fits_i32(self.start.z + spec_half(self.end.z as int))
    }

    /// The lower corner plus half the upper corner, component by
    /// component, with the half rounded towards zero. The result must fit
    /// the component type.
    pub fn center(&self) -> (r: IVec3)
        requires
            self.spec_center_fits(),
        ensures
            r.x == self.start.x + spec_half(self.end.x as int),
            r.y == self.start.y + spec_half(self.end.y as int),
            r.z == self.start.z + spec_half(self.end.z as int),
    {
        IVec3 {
            x: self.start.x + self.end.x / 2,
            y: self.start.y + self.end.y / 2,
            z: self.start.z + self.end.z / 2,
        }
    }
}

/// Half of `v`, rounded towards zero.
pub open spec fn spec_half(v: int) -> int {
    if v >= 0 {
        v / 2
    } else {
        -((-v) / 2)
    }
}

/// Whether `v` is a value of `i32`.
pub open spec fn spec_fits_i32(v: int) -> bool {
    i32::MIN <= v <= i32::MAX
}

impl Contains<ChunkPos> for AABB<ChunkPos> {
    open spec fn spec_contains(&self, value: &ChunkPos) -> bool {
        let v = value.value;
        let s = self.start.value;
        let e = self.end.value;
        v.x >= s.x && v.y >= s.y && v.z >= s.z && v.x <= e.x && v.y <= e.y && v.z <= e.z
    }

    fn test_contains(&self, value: &ChunkPos) -> (r: bool) {
        let v = value.value;
        let s = self.start.value;
        let e = self.end.value;
        v.x >= s.x && v.y >= s.y && v.z >= s.z && v.x <= e.x && v.y <= e.y && v.z <= e.z
    }
}

/// A single position has a point in common with a box when the box holds
/// it.
impl Intersects<ChunkPos> for AABB<ChunkPos> {
    open spec fn spec_intersects(&self, value: &ChunkPos) -> bool {
        self.spec_contains(value)
    }

    fn test_intersects(&self, value: &ChunkPos) -> (r: bool) {
        self.test_contains(value)
    }
}

} // verus!
