//! Views that re-map the coordinates of a grid: a side view shows a grid as
//! if one of its six sides were its front, a slice view shows one layer of
//! a grid as a 2D array.

use vstd::prelude::*;
use vstd::std_specs::cmp::PartialEqSpec;
use core::marker::PhantomData;
use crate::math::mat::Mat3;
use crate::math::side::{lemma_rotation_involution, Side};
use crate::math::vec::{IVec3, UVec2, UVec3};
use super::{
    palette_key_of, palette_value, ChunkValueIndex, SizedGrid, SizedGridMut, CHUNK_FRONT,
};

verus! {

/// The value in `0..=u32::MAX` closest to `v`.
pub open spec fn spec_clamp_u32(v: int) -> u32 {
    if v < 0 {
        0u32
    } else if v > u32::MAX {
        u32::MAX
    } else {
        v as u32
    }
}

fn clamp_u32(v: i64) -> (r: u32)
    ensures
        r == spec_clamp_u32(v as int),
{
    if v < 0 {
        0
    } else if v > u32::MAX as i64 {
        u32::MAX
    } else {
        v as u32
    }
}

/// 1 when the entries of `row` sum to less than zero, else 0.
pub open spec fn spec_row_flips(row: IVec3) -> i32 {
    if row.x + row.y + row.z < 0 {
        1
    } else {
        0
    }
}

/// Pairs a rotation with the vector that marks its flipped rows: component
/// `i` is 1 when row `i` of the rotation sums to less than zero, and 0
/// otherwise. Scaled by the extent minus one, that vector is the translation
/// that brings the rotated coordinates back into the grid.
pub fn wrapped_rows(mul: Mat3) -> (r: (Mat3, IVec3))
    ensures
        r.0 == mul,
        r.1 == (IVec3 {
            x: spec_row_flips(mul.spec_row(0)),
            y: spec_row_flips(mul.spec_row(1)),
            z: spec_row_flips(mul.spec_row(2)),
        }),
{
    (mul, IVec3 { x: row_flips(mul.row(0)), y: row_flips(mul.row(1)), z: row_flips(mul.row(2)) })
}

fn row_flips(row: IVec3) -> (r: i32)
    ensures
        r == spec_row_flips(row),
{
    let sum: i64 = (row.x as i64) + (row.y as i64) + (row.z as i64);
    if sum < 0 {
        1
    } else {
        0
    }
}

/// The rotation and flip marks of each side, in index order: entry `i` is
/// `wrapped_rows` of the rotation from the front of a grid to side `i`.
pub fn side_view_transforms() -> (r: [(Mat3, IVec3); 6])
    ensures
        forall|i: int|
            0 <= i < 6 ==> (#[trigger] r[i]).0 == CHUNK_FRONT.spec_rotation_to(Side::spec_from_index(i)),
        forall|i: int|
            0 <= i < 6 ==> (#[trigger] r[i]).1 == spec_flips(
                CHUNK_FRONT.spec_rotation_to(Side::spec_from_index(i)),
            ),
{
    [
        wrapped_rows(CHUNK_FRONT.rotation_to(Side::East)),
        wrapped_rows(CHUNK_FRONT.rotation_to(Side::West)),
        wrapped_rows(CHUNK_FRONT.rotation_to(Side::Top)),
        wrapped_rows(CHUNK_FRONT.rotation_to(Side::Bottom)),
        wrapped_rows(CHUNK_FRONT.rotation_to(Side::South)),
        wrapped_rows(CHUNK_FRONT.rotation_to(Side::North)),
    ]
}

/// The flip marks of a rotation, row by row.
pub open spec fn spec_flips(m: Mat3) -> IVec3 {
    IVec3 {
        x: spec_row_flips(m.spec_row(0)),
        y: spec_row_flips(m.spec_row(1)),
        z: spec_row_flips(m.spec_row(2)),
    }
}

/// A rotation with entries in {-1, 0, 1} and a translation: the map from
/// the coordinates of a view to the coordinates of the grid behind it.
#[derive(Clone, Copy, Debug, PartialEq, Eq, Structural)]
pub struct SideTransform {
    pub rotation: Mat3,
    pub translation: UVec3,
}

/// The translation of the view of a grid of extent `size`: the extent
/// minus one along each flipped row, 0 along the others.
pub open spec fn spec_translation(flips: IVec3, size: UVec3) -> UVec3 {
    UVec3 {
        x: if flips.x == 1 && size.x > 0 {
            (size.x - 1) as u32
        } else {
            0
        },
        y: if flips.y == 1 && size.y > 0 {
            (size.y - 1) as u32
        } else {
            0
        },
        z: if flips.z == 1 && size.z > 0 {
            (size.z - 1) as u32
        } else {
            0
        },
    }
}

/// The transform of the view that shows a grid of extent `size` with
/// `side` as its front.
pub open spec fn spec_view_transform(side: Side, size: UVec3) -> SideTransform {
    let rotation = CHUNK_FRONT.spec_rotation_to(side);
    SideTransform { rotation, translation: spec_translation(spec_flips(rotation), size) }
}

/// The extent of the view that shows a grid of extent `size` with `side` as
/// its front: the views of the X pair exchange `x` and `z`, those of the Y
/// pair exchange `y` and `z`.
pub open spec fn spec_view_size(side: Side, size: UVec3) -> UVec3 {
    match side {
        Side::East | Side::West => UVec3 { x: size.z, y: size.y, z: size.x },
        Side::Top | Side::Bottom => UVec3 { x: size.x, y: size.z, z: size.y },
        Side::South | Side::North => size,
    }
}

impl SideTransform {
    /// The rotation applied to `p`, plus the translation.
    pub open spec fn spec_apply(self, p: UVec3) -> (int, int, int) {
        let m = self.rotation.spec_mul_vec3((p.x as int, p.y as int, p.z as int));
        (m.0 + self.translation.x, m.1 + self.translation.y, m.2 + self.translation.z)
    }

    /// The rotation applied to `p` minus the translation.
    pub open spec fn spec_unapply(self, p: UVec3) -> (int, int, int) {
        self.rotation.spec_mul_vec3(
            (p.x - self.translation.x, p.y - self.translation.y, p.z - self.translation.z),
        )
    }

    /// The grid position that the view position `p` stands for, each
    /// component clamped to the range of `u32`.
    pub open spec fn spec_transform_position(self, p: UVec3) -> UVec3 {
        let a = self.spec_apply(p);
        UVec3 { x: spec_clamp_u32(a.0), y: spec_clamp_u32(a.1), z: spec_clamp_u32(a.2) }
    }

    /// The view position that stands for the grid position `p`, each
    /// component clamped to the range of `u32`.
    pub open spec fn spec_inverse_position(self, p: UVec3) -> UVec3 {
        let a = self.spec_unapply(p);
        UVec3 { x: spec_clamp_u32(a.0), y: spec_clamp_u32(a.1), z: spec_clamp_u32(a.2) }
    }

    /// The transform of the view of a grid of extent `size` from `side`.
    pub fn for_side(side: Side, size: UVec3) -> (r: SideTransform)
        ensures
            r == spec_view_transform(side, size),
            r.rotation.spec_is_unit(),
    {
        let (rotation, flips) = wrapped_rows(CHUNK_FRONT.rotation_to(side));
        proof {
            lemma_rotation_involution(CHUNK_FRONT, side, (0, 0, 0));
        }
        let translation = UVec3 {
            x: if flips.x == 1 && size.x > 0 { size.x - 1 } else { 0 },
            y: if flips.y == 1 && size.y > 0 { size.y - 1 } else { 0 },
            z: if flips.z == 1 && size.z > 0 { size.z - 1 } else { 0 },
        };
        SideTransform { rotation, translation }
    }

    pub fn transform_position(&self, pos: UVec3) -> (r: UVec3)
        requires
            self.rotation.spec_is_unit(),
        ensures
            r == self.spec_transform_position(pos),
    {
        let m = self.rotation.mul_vec3(pos.x as i64, pos.y as i64, pos.z as i64);
        UVec3 {
            x: clamp_u32(m.0 + self.translation.x as i64),
            y: clamp_u32(m.1 + self.translation.y as i64),
            z: clamp_u32(m.2 + self.translation.z as i64),
        }
    }

    pub fn inverse_position(&self, pos: UVec3) -> (r: UVec3)
        requires
            self.rotation.spec_is_unit(),
        ensures
            r == self.spec_inverse_position(pos),
    {
        let m = self.rotation.mul_vec3(
            pos.x as i64 - self.translation.x as i64,
            pos.y as i64 - self.translation.y as i64,
            pos.z as i64 - self.translation.z as i64,
        );
        UVec3 { x: clamp_u32(m.0), y: clamp_u32(m.1), z: clamp_u32(m.2) }
    }
}

/// The map from the lattice points of the view of a grid of extent `size`
/// from `side` to the lattice points of the grid. Cell `p` lies between the
/// lattice points `p` and `p + (1, 1, 1)`, so along a flipped row the
/// translation is the extent itself.
pub open spec fn spec_lattice_transform(side: Side, size: UVec3) -> SideTransform {
    let rotation = CHUNK_FRONT.spec_rotation_to(side);
    let flips = spec_flips(rotation);
    SideTransform {
        rotation,
        translation: UVec3 {
            x: if flips.x == 1 {
                size.x
            } else {
                0
            },
            y: if flips.y == 1 {
                size.y
            } else {
                0
            },
            z: if flips.z == 1 {
                size.z
            } else {
                0
            },
        },
    }
}

impl Side {
    /// The lattice point of a grid of extent `size` that the lattice point
    /// `(pos.x, pos.y, depth)` of the view from this side stands for.
    pub open spec fn spec_depth_pos(self, size: UVec3, depth: u32, pos: UVec2) -> UVec3 {
        spec_lattice_transform(self, size).spec_transform_position(
            UVec3 { x: pos.x, y: pos.y, z: depth },
        )
    }

    /// Places a lattice point of the view from this side in the grid. A
    /// point of the view with every coordinate up to the extent of the view
    /// has its place inside the extent of the grid.
    pub fn depth_pos(self, size: UVec3, depth: u32, pos: UVec2) -> (r: UVec3)
        ensures
            r == self.spec_depth_pos(size, depth, pos),
            pos.x <= spec_view_size(self, size).x && pos.y <= spec_view_size(self, size).y && depth
                <= spec_view_size(self, size).z ==> r.x <= size.x && r.y <= size.y && r.z <= size.z,
    {
        let (rotation, flips) = wrapped_rows(CHUNK_FRONT.rotation_to(self));
        proof {
            lemma_rotation_involution(CHUNK_FRONT, self, (0, 0, 0));
        }
        let t = SideTransform {
            rotation,
            translation: UVec3 {
                x: if flips.x == 1 { size.x } else { 0 },
                y: if flips.y == 1 { size.y } else { 0 },
                z: if flips.z == 1 { size.z } else { 0 },
            },
        };
        t.transform_position(UVec3 { x: pos.x, y: pos.y, z: depth })
    }
}

/// The extent of the view from `side` of a grid of extent `size`.
pub fn view_size(side: Side, size: UVec3) -> (r: UVec3)
    ensures
        r == spec_view_size(side, size),
{
    match side {
        Side::East | Side::West => UVec3 { x: size.z, y: size.y, z: size.x },
        Side::Top | Side::Bottom => UVec3 { x: size.x, y: size.z, z: size.y },
        Side::South | Side::North => size,
    }
}

/// The transform of a view maps the positions of the view onto the
/// positions of the grid, and the inverse transform maps each image back to
/// where it came from.
pub proof fn lemma_transform_inverse(side: Side, size: UVec3, p: UVec3)
    requires
        p.spec_within(spec_view_size(side, size)),
    ensures
        spec_view_transform(side, size).spec_transform_position(p).spec_within(size),
        spec_view_transform(side, size).spec_inverse_position(
            spec_view_transform(side, size).spec_transform_position(p),
        ) == p,
{
}

/// The inverse transform of a view maps the positions of the grid onto the
/// positions of the view, and the transform maps each image back to where
/// it came from.
pub proof fn lemma_inverse_transform(side: Side, size: UVec3, q: UVec3)
    requires
        q.spec_within(size),
    ensures
        spec_view_transform(side, size).spec_inverse_position(q).spec_within(
            spec_view_size(side, size),
        ),
        spec_view_transform(side, size).spec_transform_position(
            spec_view_transform(side, size).spec_inverse_position(q),
        ) == q,
{
}

} // verus!

verus! {

/// A grid seen from one of its sides: the same cells and palette, with the
/// positions re-mapped so that depth runs in the direction of the side.
pub struct SideView<'d, T, G: SizedGrid<T>> {
    pub inner: &'d G,
    pub side: Side,
    pub transform: SideTransform,
    pub _phantom: PhantomData<T>,
}

impl<'d, T, G: SizedGrid<T>> SideView<'d, T, G> {
    /// The view of `inner` from `side`.
    pub fn new(inner: &'d G, side: Side) -> (r: Self)
        requires
            inner.grid_wf(),
        ensures
            r.grid_wf(),
            r == (SideView {
                inner,
                side,
                transform: spec_view_transform(side, inner.spec_size()),
                _phantom: PhantomData,
            }),
    {
        let size = inner.size();
        SideView { inner, side, transform: SideTransform::for_side(side, size), _phantom: PhantomData }
    }

    /// The position in the grid that the position `pos` of the view stands
    /// for.
    pub fn transform_position(&self, pos: UVec3) -> (r: UVec3)
        requires
            self.grid_wf(),
        ensures
            r == self.transform.spec_transform_position(pos),
            pos.spec_within(self.spec_size()) ==> r.spec_within(self.inner.spec_size()),
    {
        proof {
            lemma_rotation_involution(CHUNK_FRONT, self.side, (0, 0, 0));
            if pos.spec_within(self.spec_size()) {
                lemma_transform_inverse(self.side, self.inner.spec_size(), pos);
            }
        }
        self.transform.transform_position(pos)
    }

    /// The position in the view that stands for the position `pos` of the
    /// grid.
    pub fn inverse_position(&self, pos: UVec3) -> (r: UVec3)
        requires
            self.grid_wf(),
        ensures
            r == self.transform.spec_inverse_position(pos),
            pos.spec_within(self.inner.spec_size()) ==> r.spec_within(self.spec_size()),
    {
        proof {
            lemma_rotation_involution(CHUNK_FRONT, self.side, (0, 0, 0));
            if pos.spec_within(self.inner.spec_size()) {
                lemma_inverse_transform(self.side, self.inner.spec_size(), pos);
            }
        }
        self.transform.inverse_position(pos)
    }
}

impl<'d, T, G: SizedGrid<T>> SizedGrid<T> for SideView<'d, T, G> {
    open spec fn grid_wf(&self) -> bool {
        &&& self.inner.grid_wf()
        &&& self.transform == spec_view_transform(self.side, self.inner.spec_size())
    }

    open spec fn spec_size(&self) -> UVec3 {
        spec_view_size(self.side, self.inner.spec_size())
    }

    open spec fn spec_values(&self) -> Seq<T> {
        self.inner.spec_values()
    }

    open spec fn spec_position_index(&self, pos: UVec3) -> int {
        self.inner.spec_position_index(self.transform.spec_transform_position(pos))
    }

    open spec fn spec_key(&self, pos: UVec3) -> u16 {
        self.inner.spec_key(self.transform.spec_transform_position(pos))
    }

    proof fn lemma_grid_wf(&self) {
        self.inner.lemma_grid_wf();
        assert forall|pos: UVec3| pos.spec_within(self.spec_size()) implies #[trigger] self.spec_key(
            pos,
        ) <= self.spec_values().len() by {
            lemma_transform_inverse(self.side, self.inner.spec_size(), pos);
        }
    }

    fn size(&self) -> (r: UVec3) {
        view_size(self.side, self.inner.size())
    }

    fn get_position_index(&self, pos: UVec3) -> (r: usize) {
        self.inner.get_position_index(self.transform_position(pos))
    }

    fn get_pos_key(&self, pos: UVec3) -> (r: Option<ChunkValueIndex>) {
        if pos.within(self.size()) {
            self.inner.get_pos_key(self.transform_position(pos))
        } else {
            None
        }
    }

    fn values(&self) -> (r: Vec<&T>) {
        self.inner.values()
    }

    fn index_of_value(&self, value: &T) -> (r: Option<u16>) where T: PartialEq {
        self.inner.index_of_value(value)
    }

    fn value_of_index(&self, index: u16) -> (r: Option<&T>) {
        self.inner.value_of_index(index)
    }

    fn get_pos_value(&self, pos: UVec3) -> (r: Option<&T>) {
        if pos.within(self.size()) {
            self.inner.get_pos_value(self.transform_position(pos))
        } else {
            None
        }
    }
}

/// One layer of a grid, at a fixed depth along its third axis, seen as a 2D
/// array over the other two.
pub struct SliceView<'d, T, G: SizedGrid<T>> {
    pub inner: &'d G,
    pub depth: u32,
    pub _phantom: PhantomData<T>,
}

impl<'d, T, G: SizedGrid<T>> SliceView<'d, T, G> {
    /// The invariant of the slice: the grid is well-formed and has a layer
    /// at the depth of the slice.
    pub open spec fn wf(&self) -> bool {
        &&& self.inner.grid_wf()
        &&& self.depth < self.inner.spec_size().z
    }

    /// The extent of the slice.
    pub open spec fn spec_size(&self) -> UVec2 {
        UVec2 { x: self.inner.spec_size().x, y: self.inner.spec_size().y }
    }

    /// True for the positions inside the slice.
    pub open spec fn spec_contains(&self, pos: UVec2) -> bool {
        pos.x < self.inner.spec_size().x && pos.y < self.inner.spec_size().y
    }

    /// The position in the grid of the cell `pos` of the slice.
    pub open spec fn spec_lift(&self, pos: UVec2) -> UVec3 {
        UVec3 { x: pos.x, y: pos.y, z: self.depth }
    }

    /// The key of cell `pos`, or `None` outside the slice.
    pub open spec fn spec_pos_key(&self, pos: UVec2) -> Option<ChunkValueIndex> {
        if self.spec_contains(pos) {
            Some(self.inner.spec_key(self.spec_lift(pos)))
        } else {
            None
        }
    }

    /// The value of cell `pos`: `None` for an empty cell and outside the
    /// slice.
    pub open spec fn spec_pos_value(&self, pos: UVec2) -> Option<T> {
        if self.spec_contains(pos) {
            palette_value(self.inner.spec_values(), self.inner.spec_key(self.spec_lift(pos)))
        } else {
            None
        }
    }

    /// The slice of `inner` at `depth`, which must be a layer of the grid.
    pub fn new(inner: &'d G, depth: u32) -> (r: Self)
        requires
            inner.grid_wf(),
            depth < inner.spec_size().z,
        ensures
            r.wf(),
            r == (SliceView { inner, depth, _phantom: PhantomData }),
    {
        SliceView { inner, depth, _phantom: PhantomData }
    }

    /// The slice of `inner` at `depth`, or `None` when the grid has no
    /// layer there: for a negative depth and for one past the last layer.
    pub fn try_new(inner: &'d G, depth: i64) -> (r: Option<Self>)
        requires
            inner.grid_wf(),
        ensures
            r.is_some() == (0 <= depth < inner.spec_size().z),
            r.is_some() ==> r.unwrap().wf() && r.unwrap() == (SliceView {
                inner,
                depth: depth as u32,
                _phantom: PhantomData,
            }),
    {
        if depth >= 0 && depth < inner.size().z as i64 {
            Some(SliceView { inner, depth: depth as u32, _phantom: PhantomData })
        } else {
            None
        }
    }

    pub fn size(&self) -> (r: UVec2)
        requires
            self.wf(),
        ensures
            r == self.spec_size(),
    {
        self.inner.size().xy()
    }

    /// The place of cell `pos` in the storage of the grid.
    pub fn get_position_index(&self, pos: UVec2) -> (r: usize)
        requires
            self.wf(),
            self.spec_contains(pos),
        ensures
            r == self.inner.spec_position_index(self.spec_lift(pos)),
    {
        self.inner.get_position_index(pos.extend(self.depth))
    }

    pub fn get_pos_key(&self, pos: UVec2) -> (r: Option<ChunkValueIndex>)
        requires
            self.wf(),
        ensures
            r == self.spec_pos_key(pos),
    {
        self.inner.get_pos_key(pos.extend(self.depth))
    }

    /// The palette of the grid, entry by entry.
    pub fn values(&self) -> (r: Vec<&T>)
        requires
            self.wf(),
        ensures
            r@.len() == self.inner.spec_values().len(),
            forall|i: int| 0 <= i < r@.len() ==> *(#[trigger] r@[i]) == self.inner.spec_values()[i],
    {
        self.inner.values()
    }

    /// The key of the first palette entry equal to `value`.
    pub fn index_of_value(&self, value: &T) -> (r: Option<u16>) where T: PartialEq
        requires
            self.wf(),
        ensures
            T::obeys_eq_spec() ==> r == palette_key_of(self.inner.spec_values(), *value),
    {
        self.inner.index_of_value(value)
    }

    pub fn get_pos_value(&self, pos: UVec2) -> (r: Option<&T>)
        requires
            self.wf(),
        ensures
            match r {
                Some(v) => self.spec_pos_value(pos) == Some(*v),
                None => self.spec_pos_value(pos).is_none(),
            },
    {
        self.inner.get_pos_value(pos.extend(self.depth))
    }
}

/// One layer of a grid, at a fixed depth along its third axis, open for
/// writing as a 2D array over the other two.
pub struct SliceViewMut<'d, T, G: SizedGridMut<T>> {
    pub inner: &'d mut G,
    pub depth: u32,
    pub _phantom: PhantomData<T>,
}

impl<'d, T, G: SizedGridMut<T>> SliceViewMut<'d, T, G> {
    /// The invariant of the slice: the grid is well-formed and has a layer
    /// at the depth of the slice.
    pub open spec fn wf(&self) -> bool {
        &&& self.inner.grid_wf()
        &&& self.depth < self.inner.spec_size().z
    }

    /// The position in the grid of the cell `pos` of the slice.
    pub open spec fn spec_lift(&self, pos: UVec2) -> UVec3 {
        UVec3 { x: pos.x, y: pos.y, z: self.depth }
    }

    /// The slice of `inner` at `depth`, which must be a layer of the grid.
    pub fn new(inner: &'d mut G, depth: u32) -> (r: Self)
        requires
            old(inner).grid_wf(),
            depth < old(inner).spec_size().z,
        ensures
            r.wf(),
            *r.inner == *old(inner),
            *final(r.inner) == *final(inner),
            r.depth == depth,
    {
        SliceViewMut { inner, depth, _phantom: PhantomData }
    }

    pub fn set_pos_id(&mut self, pos: UVec2, value: ChunkValueIndex)
        requires
            old(self).wf(),
            value <= old(self).inner.spec_values().len(),
        ensures
            final(self).wf(),
            final(self).depth == old(self).depth,
            *final(final(self).inner) == *final(old(self).inner),
            final(self).inner.spec_size() == old(self).inner.spec_size(),
            final(self).inner.spec_values() == old(self).inner.spec_values(),
            forall|q: UVec3|
                q.spec_within(old(self).inner.spec_size()) ==> #[trigger] final(self).inner.spec_key(q)
                    == (if q == old(self).spec_lift(pos) {
                    value
                } else {
                    old(self).inner.spec_key(q)
                }),
    {
        self.inner.set_pos_id(pos.extend(self.depth), value);
    }
}

} // verus!

verus! {

impl<'d, T, G: SizedGridMut<T>> SliceViewMut<'d, T, G> {
    /// The grid behind the slice.
    pub open spec fn spec_grid(&self) -> G {
        *self.inner
    }

    /// The extent of the slice.
    pub open spec fn spec_size(&self) -> UVec2 {
        UVec2 { x: self.inner.spec_size().x, y: self.inner.spec_size().y }
    }

    /// True for the positions inside the slice.
    pub open spec fn spec_contains(&self, pos: UVec2) -> bool {
        pos.x < self.inner.spec_size().x && pos.y < self.inner.spec_size().y
    }

    /// The slice of `inner` at `depth`, or `None` when the grid has no
    /// layer there.
    pub fn try_new(inner: &'d mut G, depth: u32) -> (r: Option<Self>)
        requires
            old(inner).grid_wf(),
        ensures
            r.is_some() == (depth < old(inner).spec_size().z),
            match r {
                Some(v) => v.wf() && *v.inner == *old(inner) && *final(v.inner) == *final(inner)
                    && v.depth == depth,
                None => *final(inner) == *old(inner),
            },
    {
        if depth < inner.size().z {
            Some(SliceViewMut { inner, depth, _phantom: PhantomData })
        } else {
            None
        }
    }

    pub fn size(&self) -> (r: UVec2)
        requires
            self.wf(),
        ensures
            r == self.spec_size(),
    {
        self.inner.size().xy()
    }

    /// The place of cell `pos` in the storage of the grid.
    pub fn get_position_index(&self, pos: UVec2) -> (r: usize)
        requires
            self.wf(),
            self.spec_contains(pos),
        ensures
            r == self.spec_grid().spec_position_index(self.spec_lift(pos)),
    {
        self.inner.get_position_index(pos.extend(self.depth))
    }

    pub fn get_pos_key(&self, pos: UVec2) -> (r: Option<ChunkValueIndex>)
        requires
            self.wf(),
        ensures
            r == (if self.spec_contains(pos) {
                Some(self.spec_grid().spec_key(self.spec_lift(pos)))
            } else {
                None
            }),
    {
        self.inner.get_pos_key(pos.extend(self.depth))
    }

    /// The palette of the grid, entry by entry.
    pub fn get_values(&self) -> (r: Vec<&T>)
        requires
            self.wf(),
        ensures
            r@.len() == self.spec_grid().spec_values().len(),
            forall|i: int| 0 <= i < r@.len() ==> *(#[trigger] r@[i]) == self.spec_grid().spec_values()[i],
    {
        self.inner.values()
    }

    /// The key of the first palette entry equal to `value`.
    pub fn index_of_value(&self, value: &T) -> (r: Option<u16>) where T: PartialEq
        requires
            self.wf(),
        ensures
            T::obeys_eq_spec() ==> r == palette_key_of(self.spec_grid().spec_values(), *value),
    {
        self.inner.index_of_value(value)
    }

    pub fn get_pos_value(&self, pos: UVec2) -> (r: Option<&T>)
        requires
            self.wf(),
        ensures
            match r {
                Some(v) => self.spec_contains(pos) && palette_value(
                    self.spec_grid().spec_values(),
                    self.spec_grid().spec_key(self.spec_lift(pos)),
                ) == Some(*v),
                None => !self.spec_contains(pos) || palette_value(
                    self.spec_grid().spec_values(),
                    self.spec_grid().spec_key(self.spec_lift(pos)),
                ).is_none(),
            },
    {
        self.inner.get_pos_value(pos.extend(self.depth))
    }

    /// Looks `key` up in the palette of the grid and appends it when it is
    /// not there. The palette must have room for a new value.
    pub fn insert_key(&mut self, key: T) -> (r: u16) where T: PartialEq
        requires
            old(self).wf(),
            T::obeys_eq_spec(),
            super::palette_slot(old(self).inner.spec_values(), key) < super::MAX_CHUNK_VALUES,
        ensures
            final(self).wf(),
            final(self).depth == old(self).depth,
            *final(final(self).inner) == *final(old(self).inner),
            final(self).inner.spec_size() == old(self).inner.spec_size(),
            final(self).inner.spec_values() == super::palette_with(old(self).inner.spec_values(), key),
            super::palette_distinct(old(self).inner.spec_values()) ==> super::palette_distinct(
                final(self).inner.spec_values(),
            ),
            r == super::palette_slot(old(self).inner.spec_values(), key) + 1,
            forall|q: UVec3|
                q.spec_within(old(self).inner.spec_size()) ==> #[trigger] final(self).inner.spec_key(q)
                    == old(self).inner.spec_key(q),
    {
        self.inner.insert_key(key)
    }

    /// Stores `value` in cell `pos` of the slice. Does nothing outside the
    /// slice. The palette must have room for a value that is new.
    pub fn set_pos_value(&mut self, pos: UVec2, value: Option<T>) where T: PartialEq
        requires
            old(self).wf(),
            T::obeys_eq_spec(),
            super::set_has_room(
                old(self).inner.spec_size(),
                old(self).inner.spec_values(),
                old(self).spec_lift(pos),
                value,
            ),
        ensures
            final(self).wf(),
            final(self).depth == old(self).depth,
            *final(final(self).inner) == *final(old(self).inner),
            super::stored(old(self).inner, final(self).inner, old(self).spec_lift(pos), value),
    {
        self.inner.set_pos_value(pos.extend(self.depth), value);
    }

    /// As [`SliceViewMut::set_pos_value`], with a value that is cloned when
    /// it has to be appended to the palette.
    pub fn set_or_clone_pos_value(&mut self, pos: UVec2, value: Option<&T>) where T: PartialEq + Clone
        requires
            old(self).wf(),
            T::obeys_eq_spec(),
            match value {
                Some(v) => super::set_has_room(
                    old(self).inner.spec_size(),
                    old(self).inner.spec_values(),
                    old(self).spec_lift(pos),
                    Some(*v),
                ),
                None => true,
            },
        ensures
            final(self).wf(),
            final(self).depth == old(self).depth,
            *final(final(self).inner) == *final(old(self).inner),
            final(self).inner.spec_size() == old(self).inner.spec_size(),
            forall|q: UVec3|
                q.spec_within(old(self).inner.spec_size()) ==> #[trigger] final(self).inner.spec_key(q)
                    == (if q == old(self).spec_lift(pos) {
                    match value {
                        Some(v) => super::key_after_set(old(self).inner.spec_values(), Some(*v)),
                        None => 0u16,
                    }
                } else {
                    old(self).inner.spec_key(q)
                }),
    {
        self.inner.set_or_clone_pos_value(pos.extend(self.depth), value);
    }
}

} // verus!

verus! {

/// The cell next to `pos` on `side`, if the grid has one there.
pub open spec fn spec_neighbor_pos(size: UVec3, pos: UVec3, side: Side) -> Option<UVec3> {
    let d = side.spec_direction();
    let x = pos.x + d.x;
    let y = pos.y + d.y;
    let z = pos.z + d.z;
    if 0 <= x < size.x && 0 <= y < size.y && 0 <= z < size.z {
        Some(UVec3 { x: x as u32, y: y as u32, z: z as u32 })
    } else {
        None
    }
}

/// The position one layer further into the view than `p`, or one layer
/// less far, if the view has such a layer.
pub open spec fn spec_next_layer(view_size: UVec3, p: UVec3, far: bool) -> Option<UVec3> {
    if far {
        if p.z + 1 < view_size.z {
            Some(UVec3 { x: p.x, y: p.y, z: (p.z + 1) as u32 })
        } else {
            None
        }
    } else {
        if p.z > 0 {
            Some(UVec3 { x: p.x, y: p.y, z: (p.z - 1) as u32 })
        } else {
            None
        }
    }
}

/// The layers of a view lie along its side: the cell one layer further
/// into the view stands for the cell of the grid that is next on the side
/// of the view, and the cell one layer less far for the cell that is next
/// on the opposite side. Where the view has no such layer, the grid has no
/// such cell.
pub proof fn lemma_view_neighbor(side: Side, size: UVec3, p: UVec3, far: bool)
    requires
        p.spec_within(spec_view_size(side, size)),
    ensures
        ({
            let t = spec_view_transform(side, size);
            let towards = if far {
                side
            } else {
                side.spec_opposite()
            };
            spec_neighbor_pos(size, t.spec_transform_position(p), towards) == (match spec_next_layer(
                spec_view_size(side, size),
                p,
                far,
            ) {
                Some(q) => Some(t.spec_transform_position(q)),
                None => None,
            })
        }),
{
}

} // verus!

verus! {

impl<'d, T, G: SizedGridMut<T>> SliceViewMut<'d, T, G> {
    /// The key of cell `pos` of the slice, open for writing, or `None`
    /// outside the slice.
    pub fn get_pos_key_mut(&mut self, pos: UVec2) -> (r: Option<&mut ChunkValueIndex>)
        requires
            old(self).wf(),
        ensures
            final(self).depth == old(self).depth,
            *final(final(self).inner) == *final(old(self).inner),
            final(self).inner.spec_size() == old(self).inner.spec_size(),
            final(self).inner.spec_values() == old(self).inner.spec_values(),
            match r {
                Some(k) => *final(k) <= old(self).inner.spec_values().len() ==> final(self).wf(),
                None => final(self).wf(),
            },
            match r {
                Some(k) => old(self).spec_contains(pos) && *k == old(self).inner.spec_key(
                    old(self).spec_lift(pos),
                ) && forall|q: UVec3|
                    q.spec_within(old(self).inner.spec_size()) ==> #[trigger] final(self).inner.spec_key(
                        q,
                    ) == (if q == old(self).spec_lift(pos) {
                        *final(k)
                    } else {
                        old(self).inner.spec_key(q)
                    }),
                None => !old(self).spec_contains(pos) && forall|q: UVec3|
                    q.spec_within(old(self).inner.spec_size()) ==> #[trigger] final(self).inner.spec_key(
                        q,
                    ) == old(self).inner.spec_key(q),
            },
    {
        self.inner.get_pos_key_mut(pos.extend(self.depth))
    }

    /// The palette of the grid, open for writing.
    pub fn value_list_mut(&mut self) -> (r: &mut Vec<T>)
        requires
            old(self).wf(),
        ensures
            (*r)@ == old(self).inner.spec_values(),
            final(self).inner.spec_values() == (*final(r))@,
            old(self).inner.spec_values().len() <= (*final(r))@.len() <= super::MAX_CHUNK_VALUES
                ==> final(self).wf(),
            final(self).depth == old(self).depth,
            *final(final(self).inner) == *final(old(self).inner),
            final(self).inner.spec_size() == old(self).inner.spec_size(),
            forall|q: UVec3|
                q.spec_within(old(self).inner.spec_size()) ==> #[trigger] final(self).inner.spec_key(q)
                    == old(self).inner.spec_key(q),
    {
        self.inner.value_list_mut()
    }
}

} // verus!
