//! 3×3 integer matrices, used for the axis-aligned rotations of cube sides.

use vstd::prelude::*;
use super::vec::IVec3;

verus! {

/// A 3×3 integer matrix, stored by columns.
#[derive(Clone, Copy, Debug, PartialEq, Eq, Structural, Hash)]
pub struct Mat3 {
    pub x_axis: IVec3,
    pub y_axis: IVec3,
    pub z_axis: IVec3,
}

impl Mat3 {
    /// The identity matrix.
    pub open spec fn spec_identity() -> Mat3 {
        Mat3 {
            x_axis: IVec3 { x: 1, y: 0, z: 0 },
            y_axis: IVec3 { x: 0, y: 1, z: 0 },
            z_axis: IVec3 { x: 0, y: 0, z: 1 },
        }
    }

    /// The diagonal matrix with the components of `d` on its diagonal.
    pub open spec fn spec_from_diagonal(d: IVec3) -> Mat3 {
        Mat3 {
            x_axis: IVec3 { x: d.x, y: 0, z: 0 },
            y_axis: IVec3 { x: 0, y: d.y, z: 0 },
            z_axis: IVec3 { x: 0, y: 0, z: d.z },
        }
    }

    /// Row `i` of the matrix: the coefficients that produce output
    /// component `i`.
    pub open spec fn spec_row(self, i: int) -> IVec3 {
        if i == 0 {
            IVec3 { x: self.x_axis.x, y: self.y_axis.x, z: self.z_axis.x }
        } else if i == 1 {
            IVec3 { x: self.x_axis.y, y: self.y_axis.y, z: self.z_axis.y }
        } else {
            IVec3 { x: self.x_axis.z, y: self.y_axis.z, z: self.z_axis.z }
        }
    }

    /// The matrix-vector product over the integers.
    pub open spec fn spec_mul_vec3(self, v: (int, int, int)) -> (int, int, int) {
        (
            times(self.x_axis.x, v.0) + times(self.y_axis.x, v.1) + times(self.z_axis.x, v.2),
            times(self.x_axis.y, v.0) + times(self.y_axis.y, v.1) + times(self.z_axis.y, v.2),
            times(self.x_axis.z, v.0) + times(self.y_axis.z, v.1) + times(self.z_axis.z, v.2),
        )
    }

    /// True when every entry is -1, 0 or 1.
    pub open spec fn spec_is_unit(self) -> bool {
        &&& unit_vec(self.x_axis)
        &&& unit_vec(self.y_axis)
        &&& unit_vec(self.z_axis)
    }

    /// True when the matrix equals its transpose.
    pub open spec fn spec_is_symmetric(self) -> bool {
        &&& self.y_axis.x == self.x_axis.y
        &&& self.z_axis.x == self.x_axis.z
        &&& self.z_axis.y == self.y_axis.z
    }

    pub fn identity() -> (r: Mat3)
        ensures
            r == Mat3::spec_identity(),
    {
        Mat3 {
            x_axis: IVec3 { x: 1, y: 0, z: 0 },
            y_axis: IVec3 { x: 0, y: 1, z: 0 },
            z_axis: IVec3 { x: 0, y: 0, z: 1 },
        }
    }

    pub fn from_diagonal(d: IVec3) -> (r: Mat3)
        ensures
            r == Mat3::spec_from_diagonal(d),
    {
        Mat3 {
            x_axis: IVec3 { x: d.x, y: 0, z: 0 },
            y_axis: IVec3 { x: 0, y: d.y, z: 0 },
            z_axis: IVec3 { x: 0, y: 0, z: d.z },
        }
    }

    /// Row `i`, for `i` in 0..3.
    pub fn row(self, i: usize) -> (r: IVec3)
        requires
            i < 3,
        ensures
            r == self.spec_row(i as int),
    {
        if i == 0 {
            IVec3 { x: self.x_axis.x, y: self.y_axis.x, z: self.z_axis.x }
        } else if i == 1 {
            IVec3 { x: self.x_axis.y, y: self.y_axis.y, z: self.z_axis.y }
        } else {
            IVec3 { x: self.x_axis.z, y: self.y_axis.z, z: self.z_axis.z }
        }
    }

    /// Multiplies the matrix with a vector of 64-bit components. The entries
    /// of the matrix must be -1, 0 or 1 and the components of the vector
    /// small enough for three of them to be summed.
    pub fn mul_vec3(self, x: i64, y: i64, z: i64) -> (r: (i64, i64, i64))
        requires
            self.spec_is_unit(),
            -0x1_0000_0000_0000 <= x <= 0x1_0000_0000_0000,
            -0x1_0000_0000_0000 <= y <= 0x1_0000_0000_0000,
            -0x1_0000_0000_0000 <= z <= 0x1_0000_0000_0000,
        ensures
            (r.0 as int, r.1 as int, r.2 as int) == self.spec_mul_vec3((x as int, y as int, z as int)),
            -0x3_0000_0000_0000 <= r.0 <= 0x3_0000_0000_0000,
            -0x3_0000_0000_0000 <= r.1 <= 0x3_0000_0000_0000,
            -0x3_0000_0000_0000 <= r.2 <= 0x3_0000_0000_0000,
    {
        let r0 = scale(self.x_axis.x, x) + scale(self.y_axis.x, y) + scale(self.z_axis.x, z);
        let r1 = scale(self.x_axis.y, x) + scale(self.y_axis.y, y) + scale(self.z_axis.y, z);
        let r2 = scale(self.x_axis.z, x) + scale(self.y_axis.z, y) + scale(self.z_axis.z, z);
        (r0, r1, r2)
    }
}

/// The product `c * v`, with the coefficients -1, 0 and 1 written out so
/// that products with them stay linear.
pub open spec fn times(c: i32, v: int) -> int {
    if c == 0 {
        0
    } else if c == 1 {
        v
    } else if c == -1 {
        -v
    } else {
        c * v
    }
}

/// True when every component is -1, 0 or 1.
pub open spec fn unit_vec(v: IVec3) -> bool {
    &&& -1 <= v.x <= 1
    &&& -1 <= v.y <= 1
    &&& -1 <= v.z <= 1
}

/// The product of a coefficient in {-1, 0, 1} with a value.
fn scale(c: i32, v: i64) -> (r: i64)
    requires
        -1 <= c <= 1,
        -0x1_0000_0000_0000 <= v <= 0x1_0000_0000_0000,
    ensures
        r == times(c, v as int),
        -0x1_0000_0000_0000 <= r <= 0x1_0000_0000_0000,
{
    if c == 0 {
        0
    } else if c == 1 {
        v
    } else {
        -v
    }
}

} // verus!
