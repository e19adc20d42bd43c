//! The three world axes.

use vstd::prelude::*;
use super::vec::{IVec2, IVec3, UVec2, UVec3};

verus! {

/// One of the three coordinate axes.
#[derive(Clone, Copy, Debug, PartialEq, Eq, Structural, Hash)]
pub enum WorldAxis {
    X,
    Y,
    Z,
}

impl WorldAxis {
    /// Position of the axis in the order X, Y, Z.
    pub open spec fn spec_index(self) -> int {
        match self {
            WorldAxis::X => 0,
            WorldAxis::Y => 1,
            WorldAxis::Z => 2,
        }
    }

    /// The unsigned unit vector along this axis.
    pub open spec fn spec_as_uvec3(self) -> UVec3 {
        match self {
            WorldAxis::X => UVec3 { x: 1, y: 0, z: 0 },
            WorldAxis::Y => UVec3 { x: 0, y: 1, z: 0 },
            WorldAxis::Z => UVec3 { x: 0, y: 0, z: 1 },
        }
    }

    /// The signed unit vector along this axis.
    pub open spec fn spec_as_ivec3(self) -> IVec3 {
        match self {
            WorldAxis::X => IVec3 { x: 1, y: 0, z: 0 },
            WorldAxis::Y => IVec3 { x: 0, y: 1, z: 0 },
            WorldAxis::Z => IVec3 { x: 0, y: 0, z: 1 },
        }
    }

    /// The two axes that span the plane perpendicular to this one, in
    /// ascending order.
    pub open spec fn spec_slice_plane(self) -> (WorldAxis, WorldAxis) {
        match self {
            WorldAxis::X => (WorldAxis::Y, WorldAxis::Z),
            WorldAxis::Y => (WorldAxis::X, WorldAxis::Z),
            WorldAxis::Z => (WorldAxis::X, WorldAxis::Y),
        }
    }

    pub fn as_usize(self) -> (r: usize)
        ensures
            r == self.spec_index(),
    {
        match self {
            WorldAxis::X => 0,
            WorldAxis::Y => 1,
            WorldAxis::Z => 2,
        }
    }

    #[verifier::when_used_as_spec(spec_as_uvec3)]
    pub fn as_uvec3(self) -> (r: UVec3)
        ensures
            r == self.spec_as_uvec3(),
    {
        match self {
            WorldAxis::X => UVec3 { x: 1, y: 0, z: 0 },
            WorldAxis::Y => UVec3 { x: 0, y: 1, z: 0 },
            WorldAxis::Z => UVec3 { x: 0, y: 0, z: 1 },
        }
    }

    #[verifier::when_used_as_spec(spec_as_ivec3)]
    pub fn as_ivec3(self) -> (r: IVec3)
        ensures
            r == self.spec_as_ivec3(),
    {
        match self {
            WorldAxis::X => IVec3 { x: 1, y: 0, z: 0 },
            WorldAxis::Y => IVec3 { x: 0, y: 1, z: 0 },
            WorldAxis::Z => IVec3 { x: 0, y: 0, z: 1 },
        }
    }

    pub fn slice_plane(self) -> (r: [WorldAxis; 2])
        ensures
            r@ =~= seq![self.spec_slice_plane().0, self.spec_slice_plane().1],
            r[0] != self,
            r[1] != self,
            r[0] != r[1],
    {
        match self {
            WorldAxis::X => [WorldAxis::Y, WorldAxis::Z],
            WorldAxis::Y => [WorldAxis::X, WorldAxis::Z],
            WorldAxis::Z => [WorldAxis::X, WorldAxis::Y],
        }
    }
}

/// Conversion of an axis into the unit vector of a given vector type.
pub trait AsVecT<T>: Sized {
    /// Whether the target type has a component for this axis.
    spec fn spec_has_axis(self) -> bool;

    /// The unit vector that the conversion yields.
    spec fn spec_as_vec_t(self) -> T;

    fn as_vec_t(self) -> (r: T)
        requires
            self.spec_has_axis(),
        ensures
            r == self.spec_as_vec_t(),
    ;
}

impl AsVecT<UVec3> for WorldAxis {
    open spec fn spec_has_axis(self) -> bool {
        true
    }

    open spec fn spec_as_vec_t(self) -> UVec3 {
        self.spec_as_uvec3()
    }

    fn as_vec_t(self) -> (r: UVec3) {
        self.as_uvec3()
    }
}

impl AsVecT<IVec3> for WorldAxis {
    open spec fn spec_has_axis(self) -> bool {
        true
    }

    open spec fn spec_as_vec_t(self) -> IVec3 {
        self.spec_as_ivec3()
    }

    fn as_vec_t(self) -> (r: IVec3) {
        self.as_ivec3()
    }
}

impl AsVecT<UVec2> for WorldAxis {
    open spec fn spec_has_axis(self) -> bool {
        self != WorldAxis::Z
    }

    open spec fn spec_as_vec_t(self) -> UVec2 {
        match self {
            WorldAxis::X => UVec2 { x: 1, y: 0 },
            _ => UVec2 { x: 0, y: 1 },
        }
    }

    fn as_vec_t(self) -> (r: UVec2) {
        match self {
            WorldAxis::X => UVec2 { x: 1, y: 0 },
            _ => UVec2 { x: 0, y: 1 },
        }
    }
}

impl AsVecT<IVec2> for WorldAxis {
    open spec fn spec_has_axis(self) -> bool {
        self != WorldAxis::Z
    }

    open spec fn spec_as_vec_t(self) -> IVec2 {
        match self {
            WorldAxis::X => IVec2 { x: 1, y: 0 },
            _ => IVec2 { x: 0, y: 1 },
        }
    }

    fn as_vec_t(self) -> (r: IVec2) {
        match self {
            WorldAxis::X => IVec2 { x: 1, y: 0 },
            _ => IVec2 { x: 0, y: 1 },
        }
    }
}

impl UVec3 {
    /// The component along `axis`.
    pub open spec fn spec_axis(self, axis: WorldAxis) -> u32 {
        match axis {
            WorldAxis::X => self.x,
            WorldAxis::Y => self.y,
            WorldAxis::Z => self.z,
        }
    }

    #[verifier::when_used_as_spec(spec_axis)]
    pub fn axis(self, axis: WorldAxis) -> (r: u32)
        ensures
            r == self.spec_axis(axis),
    {
        match axis {
            WorldAxis::X => self.x,
            WorldAxis::Y => self.y,
            WorldAxis::Z => self.z,
        }
    }
}

impl IVec3 {
    /// The component along `axis`.
    pub open spec fn spec_axis(self, axis: WorldAxis) -> i32 {
        match axis {
            WorldAxis::X => self.x,
            WorldAxis::Y => self.y,
            WorldAxis::Z => self.z,
        }
    }

    #[verifier::when_used_as_spec(spec_axis)]
    pub fn axis(self, axis: WorldAxis) -> (r: i32)
        ensures
            r == self.spec_axis(axis),
    {
        match axis {
            WorldAxis::X => self.x,
            WorldAxis::Y => self.y,
            WorldAxis::Z => self.z,
        }
    }
}

} // verus!
