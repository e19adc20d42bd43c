//! The record of the faces that rectangles cover already.

use vstd::prelude::*;

verus! {

/// For every cell of a layer and each of its two face directions, the depth
/// of the layer in which a rectangle last covered that face, or -1 where
/// none ever did. It is held in a three-dimensional `ndarray` array whose
/// axes are the row, the place in the row and the face direction.
#[verifier::external_body]
pub struct Consumed {
    cells: ndarray::Array3<i64>,
}

/// What the array holds for each row, place and face direction.
pub uninterp spec fn consumed_cells(c: Consumed) -> Map<(int, int, int), i64>;

/// The lengths of the three axes of the array.
pub uninterp spec fn consumed_dim(c: Consumed) -> (int, int, int);

/// The entry of the array for row `i`, place `j` and face direction `f`.
pub open spec fn consumed_at(c: Consumed, i: int, j: int, f: int) -> i64 {
    consumed_cells(c)[(i, j, f)]
}

/// The array of `rows` by `cols` cells with two face directions that
/// `ndarray::Array3::from_elem` makes with -1 in every entry. `from_elem`
/// needs the product of the axis lengths that are not 0 to fit in `isize`.
#[verifier::external_body]
pub(crate) fn consumed_new(rows: usize, cols: usize) -> (r: Consumed)
    requires
        2 * (if rows == 0 {
            1int
        } else {
            rows as int
        }) * (if cols == 0 {
            1int
        } else {
            cols as int
        }) <= isize::MAX,
    ensures
        consumed_dim(r) == (rows as int, cols as int, 2int),
        forall|i: int, j: int, f: int|
            0 <= i < rows && 0 <= j < cols && 0 <= f < 2 ==> #[trigger] consumed_cells(r)[(i, j, f)]
                == -1,
{
    Consumed { cells: ndarray::Array3::from_elem((rows, cols, 2), -1i64) }
}

/// Reads one entry with the index operator of `ndarray`, which needs the
/// index to lie inside the array.
#[verifier::external_body]
pub(crate) fn consumed_get(c: &Consumed, i: usize, j: usize, f: usize) -> (r: i64)
    requires
        i < consumed_dim(*c).0,
        j < consumed_dim(*c).1,
        f < consumed_dim(*c).2,
    ensures
        r == consumed_cells(*c)[(i as int, j as int, f as int)],
{
    c.cells[(i, j, f)]
}

/// Writes one entry with the index operator of `ndarray`, which needs the
/// index to lie inside the array. The other entries and the lengths of the
/// axes stay as they are.
#[verifier::external_body]
pub(crate) fn consumed_set(c: &mut Consumed, i: usize, j: usize, f: usize, v: i64)
    requires
        i < consumed_dim(*old(c)).0,
        j < consumed_dim(*old(c)).1,
        f < consumed_dim(*old(c)).2,
    ensures
        consumed_cells(*final(c)) == consumed_cells(*old(c)).insert(
            (i as int, j as int, f as int),
            v,
        ),
        consumed_dim(*final(c)) == consumed_dim(*old(c)),
{
    c.cells[(i, j, f)] = v;
}

} // verus!
