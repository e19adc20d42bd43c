//! The six sides of a cube.

use vstd::prelude::*;
use super::axis::WorldAxis;
use super::mat::Mat3;
use super::vec::{IVec3, OuterProductExt};

verus! {

/// One of the six axis-aligned outward normals of a cube.
///
/// The sides come in pairs, one pair per axis, with the positive direction
/// first: East/West on X, Top/Bottom on Y, South/North on Z.
#[derive(Clone, Copy, Debug, PartialEq, Eq, Structural, Hash)]
pub enum Side {
    /// +X
    East,
    /// -X
    West,
    /// +Y
    Top,
    /// -Y
    Bottom,
    /// +Z
    South,
    /// -Z
    North,
}

/// Number of sides.
pub const SIDE_COUNT: usize = 6;

impl Default for Side {
    fn default() -> (r: Side)
        ensures
            r == Side::East,
    {
        Side::East
    }
}

impl Side {
    /// Position of the side in the order East, West, Top, Bottom, South,
    /// North.
    pub open spec fn spec_index(self) -> int {
        match self {
            Side::East => 0,
            Side::West => 1,
            Side::Top => 2,
            Side::Bottom => 3,
            Side::South => 4,
            Side::North => 5,
        }
    }

    /// The side with the given position, East for positions past the end.
    pub open spec fn spec_from_index(i: int) -> Side {
        if i == 1 {
            Side::West
        } else if i == 2 {
            Side::Top
        } else if i == 3 {
            Side::Bottom
        } else if i == 4 {
            Side::South
        } else if i == 5 {
            Side::North
        } else {
            Side::East
        }
    }

    /// The side that faces the other way on the same axis.
    pub open spec fn spec_opposite(self) -> Side {
        match self {
            Side::East => Side::West,
            Side::West => Side::East,
            Side::Top => Side::Bottom,
            Side::Bottom => Side::Top,
            Side::South => Side::North,
            Side::North => Side::South,
        }
    }

    /// True for the sides that point down their axis.
    pub open spec fn spec_is_negative(self) -> bool {
        self == Side::West || self == Side::Bottom || self == Side::North
    }

    /// The axis the side lies on.
    pub open spec fn spec_axis(self) -> WorldAxis {
        match self {
            Side::East | Side::West => WorldAxis::X,
            Side::Top | Side::Bottom => WorldAxis::Y,
            Side::South | Side::North => WorldAxis::Z,
        }
    }

    /// The outward unit vector of the side.
    pub open spec fn spec_direction(self) -> IVec3 {
        match self {
            Side::East => IVec3 { x: 1, y: 0, z: 0 },
            Side::West => IVec3 { x: -1i32 as i32, y: 0, z: 0 },
            Side::Top => IVec3 { x: 0, y: 1, z: 0 },
            Side::Bottom => IVec3 { x: 0, y: -1i32 as i32, z: 0 },
            Side::South => IVec3 { x: 0, y: 0, z: 1 },
            Side::North => IVec3 { x: 0, y: 0, z: -1i32 as i32 },
        }
    }

    /// The half turn that exchanges the two sides of an axis: about the Z
    /// axis for the X and Y pairs, about the Y axis for the Z pair.
    pub open spec fn spec_half_turn(axis: WorldAxis) -> Mat3 {
        match axis {
            WorldAxis::Z => Mat3::spec_from_diagonal(IVec3 { x: -1i32 as i32, y: 1, z: -1i32 as i32 }),
            _ => Mat3::spec_from_diagonal(IVec3 { x: -1i32 as i32, y: -1i32 as i32, z: 1 }),
        }
    }

    /// The rotation that carries the frame of `self` onto the frame of
    /// `other`: the identity for equal sides, a half turn for opposite
    /// sides, and otherwise the half turn about the bisector of the two
    /// directions, which is `s * s^T - I` for their sum `s`.
    pub open spec fn spec_rotation_to(self, other: Side) -> Mat3 {
        if self == other {
            Mat3::spec_identity()
        } else if other == self.spec_opposite() {
            Side::spec_half_turn(self.spec_axis())
        } else {
            let a = self.spec_direction();
            let b = other.spec_direction();
            let s = IVec3 { x: (a.x + b.x) as i32, y: (a.y + b.y) as i32, z: (a.z + b.z) as i32 };
            let m = s.spec_outer_product();
            Mat3 {
                x_axis: IVec3 { x: (m.x_axis.x - 1) as i32, y: m.x_axis.y, z: m.x_axis.z },
                y_axis: IVec3 { x: m.y_axis.x, y: (m.y_axis.y - 1) as i32, z: m.y_axis.z },
                z_axis: IVec3 { x: m.z_axis.x, y: m.z_axis.y, z: (m.z_axis.z - 1) as i32 },
            }
        }
    }

    /// All sides, in index order.
    pub fn all() -> (r: [Side; 6])
        ensures
            forall|i: int| 0 <= i < 6 ==> (#[trigger] r[i]).spec_index() == i,
    {
        [Side::East, Side::West, Side::Top, Side::Bottom, Side::South, Side::North]
    }

    pub fn as_usize(self) -> (r: usize)
        ensures
            r == self.spec_index(),
            r < 6,
    {
        match self {
            Side::East => 0,
            Side::West => 1,
            Side::Top => 2,
            Side::Bottom => 3,
            Side::South => 4,
            Side::North => 5,
        }
    }

    /// Same as [`Side::as_usize`].
    pub fn index(self) -> (r: usize)
        ensures
            r == self.spec_index(),
            r < 6,
    {
        self.as_usize()
    }

    /// The side with the given index, or `None` past the end.
    pub fn from_index(i: usize) -> (r: Option<Side>)
        ensures
            i < 6 ==> r == Some(Side::spec_from_index(i as int)),
            i < 6 ==> Side::spec_from_index(i as int).spec_index() == i,
            i >= 6 ==> r.is_none(),
    {
        match i {
            0 => Some(Side::East),
            1 => Some(Side::West),
            2 => Some(Side::Top),
            3 => Some(Side::Bottom),
            4 => Some(Side::South),
            5 => Some(Side::North),
            _ => None,
        }
    }

    #[verifier::when_used_as_spec(spec_opposite)]
    pub fn opposite(self) -> (r: Side)
        ensures
            r == self.spec_opposite(),
            r.spec_opposite() == self,
            r.spec_axis() == self.spec_axis(),
            r != self,
    {
        match self {
            Side::East => Side::West,
            Side::West => Side::East,
            Side::Top => Side::Bottom,
            Side::Bottom => Side::Top,
            Side::South => Side::North,
            Side::North => Side::South,
        }
    }

    /// The side reached by tilting upwards: North from Top, South from
    /// Bottom, Top from every horizontal side.
    pub fn up(self) -> (r: Side)
        ensures
            r == match self {
                Side::Top => Side::North,
                Side::Bottom => Side::South,
                _ => Side::Top,
            },
    {
        match self {
            Side::Top => Side::North,
            Side::Bottom => Side::South,
            _ => Side::Top,
        }
    }

    /// The side reached by tilting downwards: South from Top, North from
    /// Bottom, Bottom from every horizontal side.
    pub fn down(self) -> (r: Side)
        ensures
            r == match self {
                Side::Top => Side::South,
                Side::Bottom => Side::North,
                _ => Side::Bottom,
            },
    {
        match self {
            Side::Top => Side::South,
            Side::Bottom => Side::North,
            _ => Side::Bottom,
        }
    }

    #[verifier::when_used_as_spec(spec_is_negative)]
    pub fn is_negative(self) -> (r: bool)
        ensures
            r == self.spec_is_negative(),
            r == (self.spec_index() % 2 == 1),
    {
        match self {
            Side::West | Side::Bottom | Side::North => true,
            _ => false,
        }
    }

    #[verifier::when_used_as_spec(spec_axis)]
    pub fn axis(self) -> (r: WorldAxis)
        ensures
            r == self.spec_axis(),
            r.spec_index() == self.spec_index() / 2,
    {
        match self {
            Side::East | Side::West => WorldAxis::X,
            Side::Top | Side::Bottom => WorldAxis::Y,
            Side::South | Side::North => WorldAxis::Z,
        }
    }

    #[verifier::when_used_as_spec(spec_direction)]
    pub fn direction(self) -> (r: IVec3)
        ensures
            r == self.spec_direction(),
    {
        let unit = self.axis().as_ivec3();
        if self.is_negative() {
            IVec3 { x: -unit.x, y: -unit.y, z: -unit.z }
        } else {
            unit
        }
    }

    /// The outward unit normal of the side; the same vector as
    /// [`Side::direction`].
    pub fn normal(self) -> (r: IVec3)
        ensures
            r == self.spec_direction(),
    {
        self.direction()
    }

    /// The name of the side.
    pub fn name(self) -> (r: &'static str)
        ensures
            r@ == match self {
                Side::East => "East"@,
                Side::West => "West"@,
                Side::Top => "Top"@,
                Side::Bottom => "Bottom"@,
                Side::South => "South"@,
                Side::North => "North"@,
            },
    {
        match self {
            Side::East => "East",
            Side::West => "West",
            Side::Top => "Top",
            Side::Bottom => "Bottom",
            Side::South => "South",
            Side::North => "North",
        }
    }

    /// The rotation that carries the frame of this side onto the frame of
    /// `other`. It turns the direction of this side into the direction of
    /// `other` and is its own inverse.
    #[verifier::when_used_as_spec(spec_rotation_to)]
    pub fn rotation_to(self, other: Side) -> (r: Mat3)
        ensures
            r == self.spec_rotation_to(other),
            r.spec_is_unit(),
            r.spec_is_symmetric(),
            r.spec_mul_vec3(
                (
                    self.spec_direction().x as int,
                    self.spec_direction().y as int,
                    self.spec_direction().z as int,
                ),
            ) == (
                other.spec_direction().x as int,
                other.spec_direction().y as int,
                other.spec_direction().z as int,
            ),
    {
        proof {
            lemma_rotation_maps_direction(self, other);
            lemma_rotation_involution(self, other, (0, 0, 0));
        }
        if self == other {
            return Mat3::identity();
        }
        let a = self.direction();
        let b = other.direction();
        let s = IVec3 { x: a.x + b.x, y: a.y + b.y, z: a.z + b.z };
        if s.x == 0 && s.y == 0 && s.z == 0 {
            match self.axis() {
                WorldAxis::Z => Mat3::from_diagonal(IVec3 { x: -1, y: 1, z: -1 }),
                _ => Mat3::from_diagonal(IVec3 { x: -1, y: -1, z: 1 }),
            }
        } else {
            let m = s.outer_product();
            Mat3 {
                x_axis: IVec3 { x: m.x_axis.x - 1, y: m.x_axis.y, z: m.x_axis.z },
                y_axis: IVec3 { x: m.y_axis.x, y: m.y_axis.y - 1, z: m.y_axis.z },
                z_axis: IVec3 { x: m.z_axis.x, y: m.z_axis.y, z: m.z_axis.z - 1 },
            }
        }
    }
}

/// A rotation between two sides carries the direction of the first onto the
/// direction of the second.
pub proof fn lemma_rotation_maps_direction(a: Side, b: Side)
    ensures
        ({
            let d = a.spec_direction();
            let e = b.spec_direction();
            a.spec_rotation_to(b).spec_mul_vec3((d.x as int, d.y as int, d.z as int)) == (
                e.x as int,
                e.y as int,
                e.z as int,
            )
        }),
{
}

/// Every rotation between two sides is symmetric, has entries in
/// {-1, 0, 1} only, and is its own inverse.
pub proof fn lemma_rotation_involution(a: Side, b: Side, v: (int, int, int))
    ensures
        a.spec_rotation_to(b).spec_is_unit(),
        a.spec_rotation_to(b).spec_is_symmetric(),
        a.spec_rotation_to(b).spec_mul_vec3(a.spec_rotation_to(b).spec_mul_vec3(v)) == v,
{
}

} // verus!
