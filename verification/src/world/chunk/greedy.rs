//! The greedy rectangle merge, stated over plain sequences.
//!
//! One face direction of one layer is a 2D array of *face keys*: the key of
//! the cell where the cell shows a face in that direction, 0 where it shows
//! none. The merge scans the array row by row (`x` is the row, `y` the place
//! in the row), and at every cell that shows a face which no earlier
//! rectangle covers it grows a rectangle: first along the row, then over the
//! following rows, as far as the cells show a face of the same key that no
//! rectangle covers yet.

use vstd::prelude::*;

verus! {

/// A rectangle of merged faces: it starts at row `x`, place `y`, covers
/// `rows` rows and `cols` places of each row. All its cells have the key
/// `key`.
#[derive(Clone, Copy, Debug, PartialEq, Eq, Structural)]
pub struct Quad {
    pub x: u32,
    pub y: u32,
    pub rows: u32,
    pub cols: u32,
    pub key: u16,
}

impl Quad {
    /// The number of cells that the rectangle covers.
    pub open spec fn spec_area(self) -> int {
        self.rows * self.cols
    }

    /// True when the rectangle covers the cell in row `i` at place `j`.
    pub open spec fn spec_covers(self, i: int, j: int) -> bool {
        self.x <= i < self.x + self.rows && self.y <= j < self.y + self.cols
    }
}

/// True when `cells` has `rows` rows of `cols` entries each.
pub open spec fn has_shape<A>(cells: Seq<Seq<A>>, rows: int, cols: int) -> bool {
    &&& cells.len() == rows
    &&& forall|i: int| 0 <= i < rows ==> (#[trigger] cells[i]).len() == cols
}

/// True when the cell in row `i` at place `j` exists, shows a face of key
/// `key` and is not covered yet.
pub open spec fn free_cell(cells: Seq<Seq<u16>>, mask: Seq<Seq<bool>>, i: int, j: int, key: u16) -> bool {
    &&& 0 <= i < cells.len()
    &&& 0 <= j < cells[i].len()
    &&& cells[i][j] == key
    &&& !mask[i][j]
}

/// The length of the longest run of free cells of key `key` in row `x` that
/// starts at place `y`, given that the first `w` cells of it are free.
pub open spec fn run_width(
    cells: Seq<Seq<u16>>,
    mask: Seq<Seq<bool>>,
    x: int,
    y: int,
    key: u16,
    w: int,
) -> int
    decreases cells[x].len() - (y + w),
{
    if 0 <= x < cells.len() && 0 <= y + w && free_cell(cells, mask, x, y + w, key) {
        run_width(cells, mask, x, y, key, w + 1)
    } else {
        w
    }
}

/// True when the `w` cells of row `i` from place `y` on are free cells of
/// key `key`.
pub open spec fn row_free(
    cells: Seq<Seq<u16>>,
    mask: Seq<Seq<bool>>,
    i: int,
    y: int,
    w: int,
    key: u16,
) -> bool {
    forall|j: int| y <= j < y + w ==> free_cell(cells, mask, i, j, key)
}

/// The number of rows from row `x` on whose `w` cells from place `y` on are
/// all free cells of key `key`, given that the first `h` of them are.
pub open spec fn run_height(
    cells: Seq<Seq<u16>>,
    mask: Seq<Seq<bool>>,
    x: int,
    y: int,
    w: int,
    key: u16,
    h: int,
) -> int
    decreases cells.len() - (x + h),
{
    if 0 <= x + h < cells.len() && row_free(cells, mask, x + h, y, w, key) {
        run_height(cells, mask, x, y, w, key, h + 1)
    } else {
        h
    }
}

/// The mask with the cells of the rectangle added.
pub open spec fn mark(mask: Seq<Seq<bool>>, x: int, y: int, rows: int, cols: int) -> Seq<Seq<bool>> {
    Seq::new(
        mask.len(),
        |i: int|
            Seq::new(
                mask[i].len(),
                |j: int| mask[i][j] || (x <= i < x + rows && y <= j < y + cols),
            ),
    )
}

/// The rectangle that the merge grows from the free cell in row `x` at
/// place `y`: as wide as the run of free cells of its key in its row, and as
/// high as the rows below repeat that run.
pub open spec fn grow(cells: Seq<Seq<u16>>, mask: Seq<Seq<bool>>, x: int, y: int) -> Quad {
    let key = cells[x][y];
    let w = run_width(cells, mask, x, y, key, 1);
    let h = run_height(cells, mask, x, y, w, key, 1);
    Quad { x: x as u32, y: y as u32, rows: h as u32, cols: w as u32, key }
}

/// The rectangles that the merge emits from the cell in row `x` at place
/// `y` on, with `mask` marking the cells that earlier rectangles cover.
pub open spec fn scan(cells: Seq<Seq<u16>>, mask: Seq<Seq<bool>>, x: int, y: int) -> Seq<Quad>
    decreases cells.len() - x, cells[x].len() - y,
{
    if x < 0 || y < 0 || x >= cells.len() {
        Seq::empty()
    } else if y >= cells[x].len() {
        scan(cells, mask, x + 1, 0)
    } else if cells[x][y] != 0 && !mask[x][y] {
        let q = grow(cells, mask, x, y);
        seq![q] + scan(cells, mark(mask, x, y, q.rows as int, q.cols as int), x, y + 1)
    } else {
        scan(cells, mask, x, y + 1)
    }
}

/// The mask that covers nothing.
pub open spec fn empty_mask(rows: int, cols: int) -> Seq<Seq<bool>> {
    Seq::new(rows as nat, |i: int| Seq::new(cols as nat, |j: int| false))
}

/// The rectangles that the merge emits for a whole array of face keys.
pub open spec fn merge(cells: Seq<Seq<u16>>, rows: int, cols: int) -> Seq<Quad> {
    scan(cells, empty_mask(rows, cols), 0, 0)
}

/// The sum of the areas of the rectangles.
pub open spec fn total_area(quads: Seq<Quad>) -> int
    decreases quads.len(),
{
    if quads.len() == 0 {
        0
    } else {
        total_area(quads.drop_last()) + quads.last().spec_area()
    }
}

/// The number of marks among the first `n` entries of a row.
pub open spec fn row_count(row: Seq<bool>, n: int) -> int
    decreases n,
{
    if n <= 0 {
        0
    } else {
        row_count(row, n - 1) + if row[n - 1] {
            1int
        } else {
            0int
        }
    }
}

/// The number of marks in the first `n` rows.
pub open spec fn grid_count(mask: Seq<Seq<bool>>, n: int) -> int
    decreases n,
{
    if n <= 0 {
        0
    } else {
        grid_count(mask, n - 1) + row_count(mask[n - 1], mask[n - 1].len() as int)
    }
}

/// The cells that show a face.
pub open spec fn shown(cells: Seq<Seq<u16>>) -> Seq<Seq<bool>> {
    Seq::new(cells.len(), |i: int| Seq::new(cells[i].len(), |j: int| cells[i][j] != 0))
}

/// The number of cells that show a face: what a scan that looks at every
/// cell by itself counts.
pub open spec fn face_count(cells: Seq<Seq<u16>>) -> int {
    grid_count(shown(cells), cells.len() as int)
}

/// The area of a list of rectangles with one more at its end.
pub proof fn lemma_area_push(quads: Seq<Quad>, q: Quad)
    ensures
        total_area(quads.push(q)) == total_area(quads) + q.spec_area(),
{
    assert(quads.push(q).drop_last() == quads);
}

/// The area of two lists of rectangles, one after the other.
pub proof fn lemma_area_concat(a: Seq<Quad>, b: Seq<Quad>)
    ensures
        total_area(a + b) == total_area(a) + total_area(b),
    decreases b.len(),
{
    if b.len() == 0 {
        assert(a + b == a);
    } else {
        assert((a + b).drop_last() == a + b.drop_last());
        lemma_area_concat(a, b.drop_last());
    }
}

/// The cells of a run are free, and the run ends at the end of the row or
/// before a cell that is not free.
pub proof fn lemma_run_width(
    cells: Seq<Seq<u16>>,
    mask: Seq<Seq<bool>>,
    x: int,
    y: int,
    key: u16,
    w: int,
)
    requires
        0 <= x < cells.len(),
        0 <= y,
        0 <= w,
        y + w <= cells[x].len(),
        forall|j: int| y <= j < y + w ==> free_cell(cells, mask, x, j, key),
    ensures
        w <= run_width(cells, mask, x, y, key, w),
        y + run_width(cells, mask, x, y, key, w) <= cells[x].len(),
        row_free(cells, mask, x, y, run_width(cells, mask, x, y, key, w), key),
        !free_cell(cells, mask, x, y + run_width(cells, mask, x, y, key, w), key),
    decreases cells[x].len() - (y + w),
{
    if free_cell(cells, mask, x, y + w, key) {
        lemma_run_width(cells, mask, x, y, key, w + 1);
    }
}

/// The rows of a rectangle repeat its run, and the rectangle ends at the
/// last row or before a row that does not repeat it.
pub proof fn lemma_run_height(
    cells: Seq<Seq<u16>>,
    mask: Seq<Seq<bool>>,
    x: int,
    y: int,
    w: int,
    key: u16,
    h: int,
)
    requires
        0 <= x,
        0 <= h,
        x + h <= cells.len(),
        forall|i: int| x <= i < x + h ==> row_free(cells, mask, i, y, w, key),
    ensures
        h <= run_height(cells, mask, x, y, w, key, h),
        x + run_height(cells, mask, x, y, w, key, h) <= cells.len(),
        forall|i: int|
            x <= i < x + run_height(cells, mask, x, y, w, key, h) ==> row_free(
                cells,
                mask,
                i,
                y,
                w,
                key,
            ),
        x + run_height(cells, mask, x, y, w, key, h) < cells.len() ==> !row_free(
            cells,
            mask,
            x + run_height(cells, mask, x, y, w, key, h),
            y,
            w,
            key,
        ),
    decreases cells.len() - (x + h),
{
    if x + h < cells.len() && row_free(cells, mask, x + h, y, w, key) {
        lemma_run_height(cells, mask, x, y, w, key, h + 1);
    }
}

/// What holds of the rectangle grown from a free cell: it lies inside the
/// array, has at least one cell, and all its cells are free cells of its
/// key.
pub proof fn lemma_grow(cells: Seq<Seq<u16>>, mask: Seq<Seq<bool>>, rows: int, cols: int, x: int, y: int)
    requires
        has_shape(cells, rows, cols),
        has_shape(mask, rows, cols),
        0 <= x < rows,
        0 <= y < cols,
        rows <= u32::MAX,
        cols <= u32::MAX,
        !mask[x][y],
    ensures
        ({
            let q = grow(cells, mask, x, y);
            &&& q.x == x
            &&& q.y == y
            &&& q.key == cells[x][y]
            &&& 1 <= q.rows
            &&& 1 <= q.cols
            &&& x + q.rows <= rows
            &&& y + q.cols <= cols
            &&& q.cols == run_width(cells, mask, x, y, cells[x][y], 1)
            &&& q.rows == run_height(cells, mask, x, y, q.cols as int, cells[x][y], 1)
            &&& forall|i: int, j: int|
                q.spec_covers(i, j) ==> #[trigger] free_cell(cells, mask, i, j, q.key)
        }),
{
    let key = cells[x][y];
    assert(free_cell(cells, mask, x, y, key));
    lemma_run_width(cells, mask, x, y, key, 1);
    let w = run_width(cells, mask, x, y, key, 1);
    assert(row_free(cells, mask, x, y, w, key));
    lemma_run_height(cells, mask, x, y, w, key, 1);
    let h = run_height(cells, mask, x, y, w, key, 1);
    let q = grow(cells, mask, x, y);
    assert forall|i: int, j: int| q.spec_covers(i, j) implies #[trigger] free_cell(
        cells,
        mask,
        i,
        j,
        q.key,
    ) by {
        assert(row_free(cells, mask, i, y, w, key));
    }
}

/// Marks added to a row in places that had none raise its count by their
/// number.
pub proof fn lemma_row_count_mark(row: Seq<bool>, marked: Seq<bool>, y: int, cols: int, n: int)
    requires
        0 <= y,
        0 <= cols,
        y + cols <= row.len(),
        marked.len() == row.len(),
        0 <= n <= row.len(),
        forall|j: int| 0 <= j < row.len() ==> marked[j] == (row[j] || y <= j < y + cols),
        forall|j: int| y <= j < y + cols ==> !row[j],
    ensures
        row_count(marked, n) == row_count(row, n) + (if n <= y {
            0
        } else if n <= y + cols {
            n - y
        } else {
            cols
        }),
    decreases n,
{
    if n > 0 {
        lemma_row_count_mark(row, marked, y, cols, n - 1);
    }
}

/// Two rows that agree on their first `n` entries have the same count
/// there.
pub proof fn lemma_row_count_equal(a: Seq<bool>, b: Seq<bool>, n: int)
    requires
        0 <= n <= a.len(),
        n <= b.len(),
        forall|j: int| 0 <= j < n ==> a[j] == b[j],
    ensures
        row_count(a, n) == row_count(b, n),
    decreases n,
{
    if n > 0 {
        lemma_row_count_equal(a, b, n - 1);
    }
}

/// Marking a rectangle of cells that had no marks raises the count of the
/// mask by the area of the rectangle.
pub proof fn lemma_grid_count_mark(
    mask: Seq<Seq<bool>>,
    rows: int,
    cols: int,
    x: int,
    y: int,
    h: int,
    w: int,
    n: int,
)
    requires
        has_shape(mask, rows, cols),
        0 <= x,
        0 <= y,
        0 <= h,
        0 <= w,
        x + h <= rows,
        y + w <= cols,
        0 <= n <= rows,
        forall|i: int, j: int| x <= i < x + h && y <= j < y + w ==> !(#[trigger] mask[i][j]),
    ensures
        has_shape(mark(mask, x, y, h, w), rows, cols),
        grid_count(mark(mask, x, y, h, w), n) == grid_count(mask, n) + w * (if n <= x {
            0
        } else if n <= x + h {
            n - x
        } else {
            h
        }),
    decreases n,
{
    let marked = mark(mask, x, y, h, w);
    if n > 0 {
        lemma_grid_count_mark(mask, rows, cols, x, y, h, w, n - 1);
        let i = n - 1;
        if x <= i < x + h {
            assert forall|j: int| y <= j < y + w implies !mask[i][j] by {
                assert(!mask[i][j]);
            }
            lemma_row_count_mark(mask[i], marked[i], y, w, cols);
            assert(w * (n - x) == w * (n - 1 - x) + w) by (nonlinear_arith);
        } else {
            lemma_row_count_equal(mask[i], marked[i], cols);
            if n > x + h {
                assert(i >= x + h);
            } else {
                assert(w * 0 == 0);
            }
        }
    } else {
        assert(w * 0 == 0);
    }
}

/// Two masks that agree on every cell of their first `n` rows have the same
/// count there.
pub proof fn lemma_grid_count_equal(a: Seq<Seq<bool>>, b: Seq<Seq<bool>>, rows: int, cols: int, n: int)
    requires
        has_shape(a, rows, cols),
        has_shape(b, rows, cols),
        0 <= n <= rows,
        forall|i: int, j: int| 0 <= i < n && 0 <= j < cols ==> a[i][j] == b[i][j],
    ensures
        grid_count(a, n) == grid_count(b, n),
    decreases n,
{
    if n > 0 {
        lemma_grid_count_equal(a, b, rows, cols, n - 1);
        lemma_row_count_equal(a[n - 1], b[n - 1], cols);
    }
}

/// True when the cell in row `i` at place `j` comes before the cell in row
/// `x` at place `y` in the order of the scan.
pub open spec fn scanned(i: int, j: int, x: int, y: int) -> bool {
    i < x || (i == x && j < y)
}

/// The state of a scan that has come to row `x`, place `y`: the mask marks
/// only cells that show a face, and marks every such cell that the scan has
/// passed.
pub open spec fn scan_state(
    cells: Seq<Seq<u16>>,
    mask: Seq<Seq<bool>>,
    rows: int,
    cols: int,
    x: int,
    y: int,
) -> bool {
    &&& has_shape(cells, rows, cols)
    &&& has_shape(mask, rows, cols)
    &&& rows <= u32::MAX
    &&& cols <= u32::MAX
    &&& 0 <= x
    &&& 0 <= y
    &&& forall|i: int, j: int|
        0 <= i < rows && 0 <= j < cols && #[trigger] mask[i][j] ==> cells[i][j] != 0
    &&& forall|i: int, j: int|
        0 <= i < rows && 0 <= j < cols && scanned(i, j, x, y) && cells[i][j] != 0
            ==> #[trigger] mask[i][j]
}

/// The state of the scan after it grew a rectangle from the cell in row
/// `x` at place `y` and moved on by one place.
pub proof fn lemma_scan_step(
    cells: Seq<Seq<u16>>,
    mask: Seq<Seq<bool>>,
    rows: int,
    cols: int,
    x: int,
    y: int,
)
    requires
        scan_state(cells, mask, rows, cols, x, y),
        x < rows,
        y < cols,
        cells[x][y] != 0,
        !mask[x][y],
    ensures
        ({
            let q = grow(cells, mask, x, y);
            let marked = mark(mask, x, y, q.rows as int, q.cols as int);
            &&& scan_state(cells, marked, rows, cols, x, y + 1)
            &&& grid_count(marked, rows) == grid_count(mask, rows) + q.spec_area()
            &&& forall|j: int| y <= j < y + q.cols ==> #[trigger] marked[x][j]
        }),
{
    lemma_grow(cells, mask, rows, cols, x, y);
    let q = grow(cells, mask, x, y);
    let h = q.rows as int;
    let w = q.cols as int;
    let marked = mark(mask, x, y, h, w);
    assert forall|i: int, j: int| x <= i < x + h && y <= j < y + w implies !(#[trigger] mask[i][j]) by {
        assert(q.spec_covers(i, j));
        assert(free_cell(cells, mask, i, j, q.key));
    }
    lemma_grid_count_mark(mask, rows, cols, x, y, h, w, rows);
    assert(w * h == h * w) by (nonlinear_arith);
    assert forall|i: int, j: int| 0 <= i < rows && 0 <= j < cols && #[trigger] marked[i][j] implies cells[i][j]
        != 0 by {
        if !mask[i][j] {
            assert(q.spec_covers(i, j));
            assert(free_cell(cells, mask, i, j, q.key));
        }
    }
    assert forall|i: int, j: int|
        0 <= i < rows && 0 <= j < cols && scanned(i, j, x, y + 1) && cells[i][j] != 0 implies #[trigger] marked[i][j] by {
        if i == x && j == y {
            assert(q.spec_covers(i, j));
        } else {
            assert(scanned(i, j, x, y));
            assert(mask[i][j]);
        }
    }
}

/// The rectangles that the merge emits from a state of the scan on cover
/// exactly the cells that show a face and that the mask does not cover yet:
/// their areas add up to the number of those cells.
pub proof fn lemma_scan_area(
    cells: Seq<Seq<u16>>,
    mask: Seq<Seq<bool>>,
    rows: int,
    cols: int,
    x: int,
    y: int,
)
    requires
        scan_state(cells, mask, rows, cols, x, y),
        x <= rows,
        y <= cols,
    ensures
        total_area(scan(cells, mask, x, y)) + grid_count(mask, rows) == face_count(cells),
    decreases rows - x, cols - y,
{
    if x >= rows {
        assert(has_shape(shown(cells), rows, cols));
        assert forall|i: int, j: int| 0 <= i < rows && 0 <= j < cols implies mask[i][j] == shown(
            cells,
        )[i][j] by {
            if cells[i][j] != 0 {
                assert(scanned(i, j, x, y));
            }
        }
        lemma_grid_count_equal(mask, shown(cells), rows, cols, rows);
    } else if y >= cols {
        assert forall|i: int, j: int|
            0 <= i < rows && 0 <= j < cols && scanned(i, j, x + 1, 0) && cells[i][j] != 0 implies #[trigger] mask[i][j] by {
            assert(scanned(i, j, x, y));
        }
        lemma_scan_area(cells, mask, rows, cols, x + 1, 0);
    } else if cells[x][y] != 0 && !mask[x][y] {
        let q = grow(cells, mask, x, y);
        let marked = mark(mask, x, y, q.rows as int, q.cols as int);
        lemma_scan_step(cells, mask, rows, cols, x, y);
        lemma_scan_area(cells, marked, rows, cols, x, y + 1);
        lemma_area_concat(seq![q], scan(cells, marked, x, y + 1));
        lemma_area_push(Seq::empty(), q);
        assert(Seq::<Quad>::empty().push(q) =~= seq![q]);
    } else {
        assert forall|i: int, j: int|
            0 <= i < rows && 0 <= j < cols && scanned(i, j, x, y + 1) && cells[i][j] != 0 implies #[trigger] mask[i][j] by {
            if !(i == x && j == y) {
                assert(scanned(i, j, x, y));
            }
        }
        lemma_scan_area(cells, mask, rows, cols, x, y + 1);
    }
}

/// The count of the mask that covers nothing is 0.
pub proof fn lemma_empty_mask_count(rows: int, cols: int, n: int)
    requires
        0 <= n <= rows,
        0 <= cols,
    ensures
        has_shape(empty_mask(rows, cols), rows, cols),
        grid_count(empty_mask(rows, cols), n) == 0,
    decreases n,
{
    if n > 0 {
        lemma_empty_mask_count(rows, cols, n - 1);
        lemma_row_zero(empty_mask(rows, cols)[n - 1], cols);
    }
}

/// The count of a row without marks is 0.
pub proof fn lemma_row_zero(row: Seq<bool>, n: int)
    requires
        0 <= n <= row.len(),
        forall|j: int| 0 <= j < n ==> !row[j],
    ensures
        row_count(row, n) == 0,
    decreases n,
{
    if n > 0 {
        lemma_row_zero(row, n - 1);
    }
}

/// Merging changes the number of rectangles, never what they cover: the
/// areas of the rectangles that the merge emits for an array of face keys
/// add up to the number of cells that show a face.
pub proof fn lemma_merge_area(cells: Seq<Seq<u16>>, rows: int, cols: int)
    requires
        has_shape(cells, rows, cols),
        0 <= rows <= u32::MAX,
        0 <= cols <= u32::MAX,
    ensures
        total_area(merge(cells, rows, cols)) == face_count(cells),
{
    lemma_empty_mask_count(rows, cols, rows);
    lemma_scan_area(cells, empty_mask(rows, cols), rows, cols, 0, 0);
}

} // verus!

verus! {

/// The scan emits nothing for cells that are covered already: it passes
/// over `n` covered cells of a row without a rectangle.
pub proof fn lemma_scan_skip(cells: Seq<Seq<u16>>, mask: Seq<Seq<bool>>, x: int, y: int, n: int)
    requires
        0 <= x < cells.len(),
        0 <= y,
        0 <= n,
        y + n <= cells[x].len(),
        forall|j: int| y <= j < y + n ==> #[trigger] mask[x][j],
    ensures
        scan(cells, mask, x, y) == scan(cells, mask, x, y + n),
    decreases n,
{
    if n > 0 {
        assert(mask[x][y]);
        lemma_scan_skip(cells, mask, x, y + 1, n - 1);
    }
}

/// At the end of a row the scan goes on with the next row, and after the
/// last row it emits nothing.
pub proof fn lemma_scan_row_end(cells: Seq<Seq<u16>>, mask: Seq<Seq<bool>>, x: int)
    requires
        0 <= x < cells.len(),
    ensures
        scan(cells, mask, x, cells[x].len() as int) == scan(cells, mask, x + 1, 0),
        scan(cells, mask, cells.len() as int, 0) == Seq::<Quad>::empty(),
{
}

/// What the scan emits at a cell: the rectangle grown from it and then
/// what it emits from the next place on with that rectangle covered, or,
/// where the cell shows no face or is covered, what it emits from the next
/// place on.
pub proof fn lemma_scan_unfold(cells: Seq<Seq<u16>>, mask: Seq<Seq<bool>>, x: int, y: int)
    requires
        0 <= x < cells.len(),
        0 <= y < cells[x].len(),
    ensures
        cells[x][y] != 0 && !mask[x][y] ==> scan(cells, mask, x, y) == seq![grow(cells, mask, x, y)]
            + scan(
            cells,
            mark(
                mask,
                x,
                y,
                grow(cells, mask, x, y).rows as int,
                grow(cells, mask, x, y).cols as int,
            ),
            x,
            y + 1,
        ),
        !(cells[x][y] != 0 && !mask[x][y]) ==> scan(cells, mask, x, y) == scan(cells, mask, x, y + 1),
{
}

} // verus!
