//! Extensions of the vector types.

use vstd::prelude::*;
use crate::math::axis::WorldAxis;
use crate::math::vec::{IVec3, UVec3};

verus! {

/// A conversion between two types that are not each other's.
pub trait Convert<Into>: Sized {
    /// Whether the value has an image in the target type.
    spec fn spec_convertible(self) -> bool;

    /// The value that the conversion yields.
    spec fn spec_convert(self) -> Into;

    fn convert(self) -> (r: Into)
        requires
            self.spec_convertible(),
        ensures
            r == self.spec_convert(),
    ;
}

impl Convert<IVec3> for UVec3 {
    open spec fn spec_convertible(self) -> bool {
        self.x <= i32::MAX && self.y <= i32::MAX && self.z <= i32::MAX
    }

    open spec fn spec_convert(self) -> IVec3 {
        IVec3 { x: self.x as i32, y: self.y as i32, z: self.z as i32 }
    }

    fn convert(self) -> (r: IVec3) {
        IVec3 { x: self.x as i32, y: self.y as i32, z: self.z as i32 }
    }
}

impl Convert<UVec3> for IVec3 {
    open spec fn spec_convertible(self) -> bool {
        self.x >= 0 && self.y >= 0 && self.z >= 0
    }

    open spec fn spec_convert(self) -> UVec3 {
        UVec3 { x: self.x as u32, y: self.y as u32, z: self.z as u32 }
    }

    fn convert(self) -> (r: UVec3) {
        UVec3 { x: self.x as u32, y: self.y as u32, z: self.z as u32 }
    }
}

/// Access to the components of a vector by axis.
pub trait VecExt<T>: Sized {
    /// The number of components.
    spec fn spec_dim() -> nat;

    /// The component along `axis`, if the vector has one.
    spec fn spec_axis_coord(&self, axis: WorldAxis) -> Option<T>;

    /// The sum of the components, over the integers.
    spec fn spec_sum(&self) -> int;

    /// Whether the sum of the components fits the component type.
    spec fn spec_sum_fits(&self) -> bool;

    /// The number of components.
    fn dim() -> (r: usize)
        ensures
            r == Self::spec_dim(),
    ;

    fn get_axis_coord(&self, axis: WorldAxis) -> (r: Option<T>)
        ensures
            r == self.spec_axis_coord(axis),
    ;

    /// The component type as a number.
    spec fn spec_value(v: T) -> int;

    /// The sum of the components, which must fit the component type.
    fn sum(&self) -> (r: T)
        requires
            self.spec_sum_fits(),
        ensures
            Self::spec_value(r) == self.spec_sum(),
    ;
}

impl VecExt<u32> for UVec3 {
    open spec fn spec_dim() -> nat {
        3
    }

    open spec fn spec_axis_coord(&self, axis: WorldAxis) -> Option<u32> {
        Some(self.spec_axis(axis))
    }

    open spec fn spec_sum(&self) -> int {
        self.x + self.y + self.z
    }

    open spec fn spec_sum_fits(&self) -> bool {
        self.x + self.y + self.z <= u32::MAX
    }

    fn dim() -> (r: usize) {
        3
    }

    fn get_axis_coord(&self, axis: WorldAxis) -> (r: Option<u32>) {
        Some(self.axis(axis))
    }

    open spec fn spec_value(v: u32) -> int {
        v as int
    }

    fn sum(&self) -> (r: u32) {
        self.x + self.y + self.z
    }
}

} // verus!
