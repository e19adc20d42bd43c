//! Walks along one axis of a grid.

use vstd::prelude::*;
use core::marker::PhantomData;
use super::axis::WorldAxis;
use super::vec::{IVec3, UVec3, X, Y, Z};

verus! {

/// A step along an axis, up or down.
#[derive(Clone, Copy, Debug, PartialEq, Eq, Structural)]
pub enum IterDirUnit {
    X,
    Y,
    Z,
    RX,
    RY,
    RZ,
}

impl IterDirUnit {
    /// The step as a vector.
    pub open spec fn spec_as_ivec3(self) -> IVec3 {
        match self {
            IterDirUnit::X => IVec3 { x: 1, y: 0, z: 0 },
            IterDirUnit::Y => IVec3 { x: 0, y: 1, z: 0 },
            IterDirUnit::Z => IVec3 { x: 0, y: 0, z: 1 },
            IterDirUnit::RX => IVec3 { x: -1i32 as i32, y: 0, z: 0 },
            IterDirUnit::RY => IVec3 { x: 0, y: -1i32 as i32, z: 0 },
            IterDirUnit::RZ => IVec3 { x: 0, y: 0, z: -1i32 as i32 },
        }
    }

    #[verifier::when_used_as_spec(spec_as_ivec3)]
    pub fn as_ivec3(self) -> (r: IVec3)
        ensures
            r == self.spec_as_ivec3(),
    {
        match self {
            IterDirUnit::X => IVec3 { x: 1, y: 0, z: 0 },
            IterDirUnit::Y => IVec3 { x: 0, y: 1, z: 0 },
            IterDirUnit::Z => IVec3 { x: 0, y: 0, z: 1 },
            IterDirUnit::RX => IVec3 { x: -1, y: 0, z: 0 },
            IterDirUnit::RY => IVec3 { x: 0, y: -1, z: 0 },
            IterDirUnit::RZ => IVec3 { x: 0, y: 0, z: -1 },
        }
    }
}

/// Marks the walk down the axis that `D` walks up.
pub struct Reverse<D>(pub D);

/// A direction of a walk, fixed by a type.
pub trait IterDirection {
    /// The step of the walk.
    spec fn spec_unit() -> IterDirUnit;

    /// The axis of the walk.
    spec fn spec_axis() -> WorldAxis;

    /// Whether the walk goes down the axis.
    spec fn spec_inverse() -> bool;

    fn unit() -> (r: IterDirUnit)
        ensures
            r == Self::spec_unit(),
    ;

    fn axis() -> (r: WorldAxis)
        ensures
            r == Self::spec_axis(),
    ;

    fn inverse() -> (r: bool)
        ensures
            r == Self::spec_inverse(),
    ;
}

impl IterDirection for X {
    open spec fn spec_unit() -> IterDirUnit {
        IterDirUnit::X
    }

    open spec fn spec_axis() -> WorldAxis {
        WorldAxis::X
    }

    open spec fn spec_inverse() -> bool {
        false
    }

    fn unit() -> (r: IterDirUnit) {
        IterDirUnit::X
    }

    fn axis() -> (r: WorldAxis) {
        WorldAxis::X
    }

    fn inverse() -> (r: bool) {
        false
    }
}

impl IterDirection for Y {
    open spec fn spec_unit() -> IterDirUnit {
        IterDirUnit::Y
    }

    open spec fn spec_axis() -> WorldAxis {
        WorldAxis::Y
    }

    open spec fn spec_inverse() -> bool {
        false
    }

    fn unit() -> (r: IterDirUnit) {
        IterDirUnit::Y
    }

    fn axis() -> (r: WorldAxis) {
        WorldAxis::Y
    }

    fn inverse() -> (r: bool) {
        false
    }
}

impl IterDirection for Z {
    open spec fn spec_unit() -> IterDirUnit {
        IterDirUnit::Z
    }

    open spec fn spec_axis() -> WorldAxis {
        WorldAxis::Z
    }

    open spec fn spec_inverse() -> bool {
        false
    }

    fn unit() -> (r: IterDirUnit) {
        IterDirUnit::Z
    }

    fn axis() -> (r: WorldAxis) {
        WorldAxis::Z
    }

    fn inverse() -> (r: bool) {
        false
    }
}

impl IterDirection for Reverse<X> {
    open spec fn spec_unit() -> IterDirUnit {
        IterDirUnit::RX
    }

    open spec fn spec_axis() -> WorldAxis {
        WorldAxis::X
    }

    open spec fn spec_inverse() -> bool {
        true
    }

    fn unit() -> (r: IterDirUnit) {
        IterDirUnit::RX
    }

    fn axis() -> (r: WorldAxis) {
        WorldAxis::X
    }

    fn inverse() -> (r: bool) {
        true
    }
}

impl IterDirection for Reverse<Y> {
    open spec fn spec_unit() -> IterDirUnit {
        IterDirUnit::RY
    }

    open spec fn spec_axis() -> WorldAxis {
        WorldAxis::Y
    }

    open spec fn spec_inverse() -> bool {
        true
    }

    fn unit() -> (r: IterDirUnit) {
        IterDirUnit::RY
    }

    fn axis() -> (r: WorldAxis) {
        WorldAxis::Y
    }

    fn inverse() -> (r: bool) {
        true
    }
}

impl IterDirection for Reverse<Z> {
    open spec fn spec_unit() -> IterDirUnit {
        IterDirUnit::RZ
    }

    open spec fn spec_axis() -> WorldAxis {
        WorldAxis::Z
    }

    open spec fn spec_inverse() -> bool {
        true
    }

    fn unit() -> (r: IterDirUnit) {
        IterDirUnit::RZ
    }

    fn axis() -> (r: WorldAxis) {
        WorldAxis::Z
    }

    fn inverse() -> (r: bool) {
        true
    }
}

/// The position with its component along `axis` set to `value`.
pub open spec fn spec_with_axis(pos: UVec3, axis: WorldAxis, value: u32) -> UVec3 {
    match axis {
        WorldAxis::X => UVec3 { x: value, y: pos.y, z: pos.z },
        WorldAxis::Y => UVec3 { x: pos.x, y: value, z: pos.z },
        WorldAxis::Z => UVec3 { x: pos.x, y: pos.y, z: value },
    }
}

fn with_axis(pos: UVec3, axis: WorldAxis, value: u32) -> (r: UVec3)
    ensures
        r == spec_with_axis(pos, axis, value),
{
    match axis {
        WorldAxis::X => UVec3 { x: value, y: pos.y, z: pos.z },
        WorldAxis::Y => UVec3 { x: pos.x, y: value, z: pos.z },
        WorldAxis::Z => UVec3 { x: pos.x, y: pos.y, z: value },
    }
}

/// The state of a walk: where it stands and where it ends, with `None`
/// for a walk that has ended.
pub struct Walk {
    pub pos: UVec3,
    pub to: Option<u32>,
}

/// One step of a walk along `axis`: the position that the step yields, if
/// the walk has not passed its end, and the state after the step. A walk
/// up yields its position while that is not past the end and moves up by
/// one; a walk down yields its position while that is not before the end
/// and moves down by one. A walk that yields its last position, or a
/// position at the edge of the range of `u32`, ends there.
pub open spec fn spec_step(w: Walk, axis: WorldAxis, reverse: bool) -> (Option<UVec3>, Walk) {
    match w.to {
        None => (None, w),
        Some(to) => {
            let at = w.pos.spec_axis(axis);
            if reverse {
                if at >= to {
                    if at == to {
                        (Some(w.pos), Walk { pos: w.pos, to: None })
                    } else {
                        (
                            Some(w.pos),
                            Walk { pos: spec_with_axis(w.pos, axis, (at - 1) as u32), to: w.to },
                        )
                    }
                } else {
                    (None, w)
                }
            } else {
                if at <= to {
                    if at == u32::MAX {
                        (Some(w.pos), Walk { pos: w.pos, to: None })
                    } else {
                        (
                            Some(w.pos),
                            Walk { pos: spec_with_axis(w.pos, axis, (at + 1) as u32), to: w.to },
                        )
                    }
                } else {
                    (None, w)
                }
            }
        },
    }
}

fn step(pos: UVec3, to: Option<u32>, axis: WorldAxis, reverse: bool) -> (r: (Option<UVec3>, UVec3, Option<u32>))
    ensures
        (r.0, Walk { pos: r.1, to: r.2 }) == spec_step(Walk { pos, to }, axis, reverse),
{
    let end = match to {
        Some(t) => t,
        None => {
            return (None, pos, to);
        },
    };
    let at = pos.axis(axis);
    if reverse {
        if at >= end {
            if at == end {
                (Some(pos), pos, None)
            } else {
                (Some(pos), with_axis(pos, axis, at - 1), to)
            }
        } else {
            (None, pos, to)
        }
    } else {
        if at <= end {
            if at == u32::MAX {
                (Some(pos), pos, None)
            } else {
                (Some(pos), with_axis(pos, axis, at + 1), to)
            }
        } else {
            (None, pos, to)
        }
    }
}

/// A walk along an axis that is chosen when the walk is made.
pub struct DynAxisIter {
    pub axis: WorldAxis,
    pub reverse: bool,
    pub pos: UVec3,
    pub to: Option<u32>,
}

impl DynAxisIter {
    /// The walk up `axis` from `from` until the component along the axis
    /// is `to`.
    pub fn new(axis: WorldAxis, from: UVec3, to: u32) -> (r: Self)
        ensures
            r.axis == axis,
            !r.reverse,
            r.pos == from,
            r.to == Some(to),
    {
        DynAxisIter { axis, reverse: false, pos: from, to: Some(to) }
    }

    /// The walk down `axis` from `from` until the component along the
    /// axis is `to`.
    pub fn new_reverse(axis: WorldAxis, from: UVec3, to: u32) -> (r: Self)
        ensures
            r.axis == axis,
            r.reverse,
            r.pos == from,
            r.to == Some(to),
    {
        DynAxisIter { axis, reverse: true, pos: from, to: Some(to) }
    }

    /// The next position of the walk.
    pub fn next(&mut self) -> (r: Option<UVec3>)
        ensures
            final(self).axis == old(self).axis,
            final(self).reverse == old(self).reverse,
            (r, Walk { pos: final(self).pos, to: final(self).to }) == spec_step(
                Walk { pos: old(self).pos, to: old(self).to },
                old(self).axis,
                old(self).reverse,
            ),
    {
        let (r, pos, to) = step(self.pos, self.to, self.axis, self.reverse);
        self.pos = pos;
        self.to = to;
        r
    }
}

/// A walk along an axis that is fixed by the type `Dir`.
pub struct StaticAxisIter<Dir: IterDirection> {
    pub pos: UVec3,
    pub to: Option<u32>,
    pub _phantom: PhantomData<Dir>,
}

impl<Dir: IterDirection> StaticAxisIter<Dir> {
    /// The walk from `from` until the component along the axis is `to`.
    pub fn new(from: UVec3, to: u32) -> (r: Self)
        ensures
            r.pos == from,
            r.to == Some(to),
    {
        StaticAxisIter { pos: from, to: Some(to), _phantom: PhantomData }
    }

    /// The next position of the walk.
    pub fn next(&mut self) -> (r: Option<UVec3>)
        ensures
            (r, Walk { pos: final(self).pos, to: final(self).to }) == spec_step(
                Walk { pos: old(self).pos, to: old(self).to },
                Dir::spec_axis(),
                Dir::spec_inverse(),
            ),
    {
        let (r, pos, to) = step(self.pos, self.to, Dir::axis(), Dir::inverse());
        self.pos = pos;
        self.to = to;
        r
    }
}

} // verus!
