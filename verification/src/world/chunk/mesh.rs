//! Surface extraction: the faces of a grid that can be seen, merged into
//! rectangles.

use vstd::prelude::*;
use crate::data::{LoadedMaterials, MaterialProperties};
use crate::math::side::Side;
use crate::math::vec::{UVec2, UVec3};
use crate::world::material::MaterialID;
use super::consumed::{consumed_at, consumed_cells, consumed_dim, consumed_get, consumed_new, consumed_set, Consumed};
use super::greedy::{free_cell, grow, has_shape, mark, merge, row_free, run_height, run_width, scan, Quad};
use super::view::{spec_view_size, view_size, SideView, SliceView};
use super::{palette_value, SizedGrid};

verus! {

/// The four corners of a rectangular face, as lattice points of the grid:
/// the corner at the origin of the face, the corner at the end of its first
/// extent, the corner at the end of its second extent, and the corner
/// opposite the origin.
#[derive(Clone, Copy, Debug)]
pub struct MeshFace {
    pub corners: [UVec3; 4],
}

/// The corners of the face that starts at the lattice point `position` of
/// the view from `side` and extends by `size` over the first two axes of the
/// view.
pub open spec fn spec_face_corners(side: Side, position: UVec3, chunk_size: UVec3, size: UVec2) -> [UVec3; 4] {
    [
        side.spec_depth_pos(chunk_size, position.z, UVec2 { x: position.x, y: position.y }),
        side.spec_depth_pos(
            chunk_size,
            position.z,
            UVec2 { x: (position.x + size.x) as u32, y: position.y },
        ),
        side.spec_depth_pos(
            chunk_size,
            position.z,
            UVec2 { x: position.x, y: (position.y + size.y) as u32 },
        ),
        side.spec_depth_pos(
            chunk_size,
            position.z,
            UVec2 { x: (position.x + size.x) as u32, y: (position.y + size.y) as u32 },
        ),
    ]
}

/// The corners of the near face of a rectangle of cells: the face in the
/// plane where the cells begin along the depth of the view.
pub fn face_from_side_pos(side: Side, position: UVec3, chunk_size: UVec3, size: UVec2) -> (r: [UVec3; 4])
    requires
        position.x + size.x <= u32::MAX,
        position.y + size.y <= u32::MAX,
    ensures
        r == spec_face_corners(side, position, chunk_size, size),
{
    [
        side.depth_pos(chunk_size, position.z, UVec2 { x: position.x, y: position.y }),
        side.depth_pos(chunk_size, position.z, UVec2 { x: position.x + size.x, y: position.y }),
        side.depth_pos(chunk_size, position.z, UVec2 { x: position.x, y: position.y + size.y }),
        side.depth_pos(
            chunk_size,
            position.z,
            UVec2 { x: position.x + size.x, y: position.y + size.y },
        ),
    ]
}

/// The corners of the far face of a rectangle of cells: the face one step
/// further along the depth of the view, where the cells end.
pub fn opposite_face_from_side_pos(
    side: Side,
    position: UVec3,
    chunk_size: UVec3,
    size: UVec2,
) -> (r: [UVec3; 4])
    requires
        position.x + size.x <= u32::MAX,
        position.y + size.y <= u32::MAX,
        position.z < u32::MAX,
    ensures
        r == spec_face_corners(
            side,
            UVec3 { x: position.x, y: position.y, z: (position.z + 1) as u32 },
            chunk_size,
            size,
        ),
{
    face_from_side_pos(
        side,
        UVec3 { x: position.x, y: position.y, z: position.z + 1 },
        chunk_size,
        size,
    )
}

impl MeshFace {
    /// The near face of the rectangle of cells that starts at cell
    /// `position` of the view from `side`.
    pub fn new(side: Side, position: UVec3, chunk_size: UVec3, size: UVec2) -> (r: MeshFace)
        requires
            position.x + size.x <= u32::MAX,
            position.y + size.y <= u32::MAX,
        ensures
            r.corners == spec_face_corners(side, position, chunk_size, size),
    {
        MeshFace { corners: face_from_side_pos(side, position, chunk_size, size) }
    }

    /// The far face of the rectangle of cells that starts at cell
    /// `position` of the view from `side`.
    pub fn new_opposite(side: Side, position: UVec3, chunk_size: UVec3, size: UVec2) -> (r: MeshFace)
        requires
            position.x + size.x <= u32::MAX,
            position.y + size.y <= u32::MAX,
            position.z < u32::MAX,
        ensures
            r.corners == spec_face_corners(
                side,
                UVec3 { x: position.x, y: position.y, z: (position.z + 1) as u32 },
                chunk_size,
                size,
            ),
    {
        MeshFace { corners: opposite_face_from_side_pos(side, position, chunk_size, size) }
    }
}

/// One rectangle of the surface: its corners, the palette key of its
/// material, the side it faces, and its extent in cells.
#[derive(Clone, Copy, Debug)]
pub struct FaceInfo {
    pub face: MeshFace,
    pub key: u16,
    pub side: Side,
    pub size: UVec2,
}

/// The face that a rectangle of the layer at `depth` of the view from
/// `side` stands for. Its near face looks against the side, its far face
/// looks along it.
pub open spec fn spec_face_info(side: Side, far: bool, depth: u32, chunk_size: UVec3, q: Quad) -> FaceInfo {
    let size = UVec2 { x: q.rows, y: q.cols };
    let plane = if far {
        (depth + 1) as u32
    } else {
        depth
    };
    FaceInfo {
        face: MeshFace {
            corners: spec_face_corners(side, UVec3 { x: q.x, y: q.y, z: plane }, chunk_size, size),
        },
        key: q.key,
        side: if far {
            side
        } else {
            side.spec_opposite()
        },
        size,
    }
}

/// The faces that a list of rectangles stands for.
pub open spec fn spec_faces(side: Side, far: bool, depth: u32, chunk_size: UVec3, quads: Seq<Quad>) -> Seq<
    FaceInfo,
> {
    Seq::new(quads.len(), |i: int| spec_face_info(side, far, depth, chunk_size, quads[i]))
}

impl FaceInfo {
    /// The number of unit faces that the rectangle covers.
    pub open spec fn spec_area(self) -> int {
        self.size.x * self.size.y
    }

    /// The near face of the rectangle `q` of the layer at `depth`.
    pub fn new(side: Side, depth: u32, chunk_size: UVec3, q: Quad) -> (r: FaceInfo)
        requires
            q.x + q.rows <= u32::MAX,
            q.y + q.cols <= u32::MAX,
        ensures
            r == spec_face_info(side, false, depth, chunk_size, q),
    {
        let size = UVec2 { x: q.rows, y: q.cols };
        FaceInfo {
            face: MeshFace::new(side, UVec3 { x: q.x, y: q.y, z: depth }, chunk_size, size),
            key: q.key,
            side: side.opposite(),
            size,
        }
    }

    /// The far face of the rectangle `q` of the layer at `depth`.
    pub fn new_opposite(side: Side, depth: u32, chunk_size: UVec3, q: Quad) -> (r: FaceInfo)
        requires
            q.x + q.rows <= u32::MAX,
            q.y + q.cols <= u32::MAX,
            depth < u32::MAX,
        ensures
            r == spec_face_info(side, true, depth, chunk_size, q),
    {
        let size = UVec2 { x: q.rows, y: q.cols };
        FaceInfo {
            face: MeshFace::new_opposite(side, UVec3 { x: q.x, y: q.y, z: depth }, chunk_size, size),
            key: q.key,
            side,
            size,
        }
    }
}

/// Whether a face of a cell of material `current` can be seen past the
/// neighbour `above`. A neighbour that the registry knows hides the face
/// when it is opaque or of the same material; any other neighbour, and no
/// neighbour, hides nothing. A face that nothing hides can be seen when
/// its own material is drawn.
pub open spec fn spec_face_visible(
    above: Option<Seq<char>>,
    current: Seq<char>,
    current_mat: MaterialProperties,
    loaded: &LoadedMaterials,
) -> bool {
    let hidden = match above {
        Some(a) => match loaded.spec_get(a) {
            Some(m) => m.spec_is_opaque() || a == current,
            None => false,
        },
        None => false,
    };
    !hidden && current_mat.spec_is_drawn()
}

/// Whether a face of a cell of material `current`, whose record is
/// `current_mat`, can be seen past a neighbour of material `above`. An
/// opaque neighbour and a neighbour of the same material hide the face; a
/// neighbour without a record, a translucent neighbour of another material
/// and no neighbour hide nothing. A material with an alpha of zero shows no
/// faces at all.
pub fn is_block_face_visible(
    above: Option<&MaterialID>,
    current: &MaterialID,
    current_mat: &MaterialProperties,
    loaded: &LoadedMaterials,
) -> (r: bool)
    ensures
        r == spec_face_visible(
            match above {
                Some(a) => Some(a@),
                None => None,
            },
            current@,
            *current_mat,
            loaded,
        ),
{
    if let Some(a) = above {
        if let Some(above_mat) = loaded.get(a) {
            if above_mat.is_opaque() {
                return false;
            }
            if *a == *current {
                return false;
            }
        }
    }
    current_mat.is_drawn()
}

} // verus!

verus! {

/// The name of the material of cell `pos` of a slice, if the cell holds
/// one.
pub open spec fn spec_slice_material<'a, G: SizedGrid<MaterialID>>(
    slice: Option<SliceView<'a, MaterialID, G>>,
    pos: UVec2,
) -> Option<Seq<char>> {
    match slice {
        Some(s) => match s.spec_pos_value(pos) {
            Some(v) => Some(v@),
            None => None,
        },
        None => None,
    }
}

/// The face key of cell `pos` of the slice `at` towards the slice
/// `neighbor`: the palette key of the cell when the cell holds a material
/// of the registry whose face towards the neighbour can be seen, and 0
/// otherwise.
pub open spec fn spec_face_key<'a, G: SizedGrid<MaterialID>>(
    at: SliceView<'a, MaterialID, G>,
    neighbor: Option<SliceView<'a, MaterialID, G>>,
    loaded: &LoadedMaterials,
    pos: UVec2,
) -> u16 {
    match at.spec_pos_value(pos) {
        Some(current) => match loaded.spec_get(current@) {
            Some(m) => if spec_face_visible(spec_slice_material(neighbor, pos), current@, m, loaded) {
                at.inner.spec_key(at.spec_lift(pos))
            } else {
                0
            },
            None => 0,
        },
        None => 0,
    }
}

/// The face keys of all cells of the slice `at` towards the slice
/// `neighbor`, row by row: row `i` holds the cells with `x == i`.
pub open spec fn face_cells<'a, G: SizedGrid<MaterialID>>(
    at: SliceView<'a, MaterialID, G>,
    neighbor: Option<SliceView<'a, MaterialID, G>>,
    loaded: &LoadedMaterials,
) -> Seq<Seq<u16>> {
    Seq::new(
        at.spec_size().x as nat,
        |i: int|
            Seq::new(
                at.spec_size().y as nat,
                |j: int| spec_face_key(at, neighbor, loaded, UVec2 { x: i as u32, y: j as u32 }),
            ),
    )
}

/// The faces of one direction that rectangles of the layer at `depth`
/// cover: those whose entry in the record is `depth`.
pub open spec fn mask_of(c: Consumed, rows: int, cols: int, f: int, depth: i64) -> Seq<Seq<bool>> {
    Seq::new(rows as nat, |i: int| Seq::new(cols as nat, |j: int| consumed_at(c, i, j, f) == depth))
}

/// True when every material that a cell of the slice holds has a record in
/// the registry.
pub open spec fn slice_registered<'a, G: SizedGrid<MaterialID>>(
    at: SliceView<'a, MaterialID, G>,
    loaded: &LoadedMaterials,
) -> bool {
    forall|pos: UVec2|
        (#[trigger] at.spec_pos_value(pos)) matches Some(v) ==> loaded.spec_get(v@).is_some()
}

/// True when the slice, if there is one, is well-formed.
pub open spec fn neighbor_wf<'a, G: SizedGrid<MaterialID>>(
    neighbor: Option<SliceView<'a, MaterialID, G>>,
) -> bool {
    match neighbor {
        Some(s) => s.wf(),
        None => true,
    }
}

fn face_key<'a, G: SizedGrid<MaterialID>>(
    at: &SliceView<'a, MaterialID, G>,
    neighbor: &Option<SliceView<'a, MaterialID, G>>,
    loaded: &LoadedMaterials,
    pos: UVec2,
) -> (k: u16)
    requires
        at.wf(),
        neighbor_wf(*neighbor),
    ensures
        k == spec_face_key(*at, *neighbor, loaded, pos),
{
    let key = match at.get_pos_key(pos) {
        Some(k) => k,
        None => {
            return 0;
        },
    };
    let current = match at.inner.value_of_index(key) {
        Some(v) => v,
        None => {
            return 0;
        },
    };
    let material = match loaded.get(current) {
        Some(m) => m,
        None => {
            return 0;
        },
    };
    let above = match neighbor {
        Some(s) => s.get_pos_value(pos),
        None => None,
    };
    if is_block_face_visible(above, current, material, loaded) {
        key
    } else {
        0
    }
}

/// The state that the functions of one layer share: the slice is
/// well-formed, and the record has the extent of the layer and two face
/// directions.
pub open spec fn layer_state<'a, G: SizedGrid<MaterialID>>(
    at: SliceView<'a, MaterialID, G>,
    c: Consumed,
) -> bool {
    &&& at.wf()
    &&& consumed_dim(c) == (at.spec_size().x as int, at.spec_size().y as int, 2int)
}

/// Whether cell (`i`, `j`) of the layer still has a face of key `key` to
/// give to a rectangle.
fn cell_free<'a, G: SizedGrid<MaterialID>>(
    at: &SliceView<'a, MaterialID, G>,
    neighbor: &Option<SliceView<'a, MaterialID, G>>,
    loaded: &LoadedMaterials,
    consumed: &Consumed,
    f: usize,
    i: u32,
    j: u32,
    key: u16,
) -> (r: bool)
    requires
        layer_state(*at, *consumed),
        neighbor_wf(*neighbor),
        f < 2,
    ensures
        r == free_cell(
            face_cells(*at, *neighbor, loaded),
            mask_of(
                *consumed,
                at.spec_size().x as int,
                at.spec_size().y as int,
                f as int,
                at.depth as i64,
            ),
            i as int,
            j as int,
            key,
        ),
{
    let size = at.size();
    if i >= size.x || j >= size.y {
        return false;
    }
    let k = face_key(at, neighbor, loaded, UVec2 { x: i, y: j });
    k == key && consumed_get(consumed, i as usize, j as usize, f) != at.depth as i64
}

/// Grows the rectangle of the free cell (`x`, `y`): returns the number of
/// places it covers in its row and the number of rows it covers.
fn check_side<'a, G: SizedGrid<MaterialID>>(
    at: &SliceView<'a, MaterialID, G>,
    neighbor: &Option<SliceView<'a, MaterialID, G>>,
    loaded: &LoadedMaterials,
    consumed: &Consumed,
    f: usize,
    x: u32,
    y: u32,
    key: u16,
) -> (r: (u32, u32))
    requires
        layer_state(*at, *consumed),
        neighbor_wf(*neighbor),
        f < 2,
        x < at.spec_size().x,
        y < at.spec_size().y,
        free_cell(
            face_cells(*at, *neighbor, loaded),
            mask_of(
                *consumed,
                at.spec_size().x as int,
                at.spec_size().y as int,
                f as int,
                at.depth as i64,
            ),
            x as int,
            y as int,
            key,
        ),
    ensures
        ({
            let cells = face_cells(*at, *neighbor, loaded);
            let mask = mask_of(
                *consumed,
                at.spec_size().x as int,
                at.spec_size().y as int,
                f as int,
                at.depth as i64,
            );
            &&& r.0 == run_width(cells, mask, x as int, y as int, key, 1)
            &&& r.1 == run_height(cells, mask, x as int, y as int, r.0 as int, key, 1)
            &&& 1 <= r.0
            &&& 1 <= r.1
            &&& x + r.1 <= at.spec_size().x
            &&& y + r.0 <= at.spec_size().y
        }),
{
    let size = at.size();
    let ghost cells = face_cells(*at, *neighbor, loaded);
    let ghost mask = mask_of(*consumed, size.x as int, size.y as int, f as int, at.depth as i64);
    let mut w: u32 = 1;
    while w < size.y - y && cell_free(at, neighbor, loaded, consumed, f, x, y + w, key)
        invariant
            layer_state(*at, *consumed),
            neighbor_wf(*neighbor),
            f < 2,
            size == at.spec_size(),
            x < size.x,
            y < size.y,
            1 <= w <= size.y - y,
            cells == face_cells(*at, *neighbor, loaded),
            mask == mask_of(*consumed, size.x as int, size.y as int, f as int, at.depth as i64),
            run_width(cells, mask, x as int, y as int, key, 1) == run_width(
                cells,
                mask,
                x as int,
                y as int,
                key,
                w as int,
            ),
            forall|j: int| y <= j < y + w ==> free_cell(cells, mask, x as int, j, key),
        decreases size.y - y - w,
    {
        w += 1;
    }
    assert(!free_cell(cells, mask, x as int, y + w, key));
    assert(row_free(cells, mask, x as int, y as int, w as int, key));
    let mut h: u32 = 1;
    loop
        invariant
            layer_state(*at, *consumed),
            neighbor_wf(*neighbor),
            f < 2,
            size == at.spec_size(),
            x < size.x,
            y < size.y,
            1 <= w <= size.y - y,
            1 <= h <= size.x - x,
            cells == face_cells(*at, *neighbor, loaded),
            mask == mask_of(*consumed, size.x as int, size.y as int, f as int, at.depth as i64),
            run_height(cells, mask, x as int, y as int, w as int, key, 1) == run_height(
                cells,
                mask,
                x as int,
                y as int,
                w as int,
                key,
                h as int,
            ),
        ensures
            1 <= h <= size.x - x,
            h == run_height(cells, mask, x as int, y as int, w as int, key, 1),
        decreases size.x - x - h,
    {
        if h >= size.x - x {
            break ;
        }
        let mut j: u32 = 0;
        let mut all_free = true;
        let ghost row = x + h;
        while j < w && all_free
            invariant
                row == x + h,
                layer_state(*at, *consumed),
                neighbor_wf(*neighbor),
                f < 2,
                size == at.spec_size(),
                x < size.x,
                y < size.y,
                1 <= w <= size.y - y,
                1 <= h < size.x - x,
                j <= w,
                cells == face_cells(*at, *neighbor, loaded),
                mask == mask_of(*consumed, size.x as int, size.y as int, f as int, at.depth as i64),
                all_free ==> forall|m: int|
                    y <= m < y + j ==> #[trigger] free_cell(cells, mask, row, m, key),
                !all_free ==> !row_free(cells, mask, row, y as int, w as int, key),
            decreases w - j + (if all_free {
                    1int
                } else {
                    0int
                }),
        {
            if cell_free(at, neighbor, loaded, consumed, f, x + h, y + j, key) {
                j += 1;
            } else {
                all_free = false;
                assert(!free_cell(cells, mask, row, y + j, key));
            }
        }
        if !all_free {
            break ;
        }
        assert(row_free(cells, mask, row, y as int, w as int, key));
        h += 1;
    }
    (w, h)
}

} // verus!

verus! {

/// Records the depth `depth` for the face direction `f` of every cell of a
/// rectangle.
fn mark_rect(consumed: &mut Consumed, f: usize, x: u32, y: u32, rows: u32, cols: u32, depth: i64)
    requires
        f < consumed_dim(*old(consumed)).2,
        x + rows <= consumed_dim(*old(consumed)).0,
        y + cols <= consumed_dim(*old(consumed)).1,
        x + rows <= u32::MAX,
        y + cols <= u32::MAX,
    ensures
        consumed_dim(*final(consumed)) == consumed_dim(*old(consumed)),
        forall|i: int, j: int, g: int|
            #[trigger] consumed_at(*final(consumed), i, j, g) == (if g == f && x <= i < x + rows && y
                <= j < y + cols {
                depth
            } else {
                consumed_at(*old(consumed), i, j, g)
            }),
{
    let mut i: u32 = 0;
    while i < rows
        invariant
            i <= rows,
            x + rows <= u32::MAX,
            y + cols <= u32::MAX,
            f < consumed_dim(*consumed).2,
            x + rows <= consumed_dim(*consumed).0,
            y + cols <= consumed_dim(*consumed).1,
            consumed_dim(*consumed) == consumed_dim(*old(consumed)),
            forall|a: int, b: int, g: int|
                #[trigger] consumed_at(*consumed, a, b, g) == (if g == f && x <= a < x + i && y <= b < y
                    + cols {
                    depth
                } else {
                    consumed_at(*old(consumed), a, b, g)
                }),
        decreases rows - i,
    {
        let mut j: u32 = 0;
        while j < cols
            invariant
                i < rows,
                j <= cols,
                x + rows <= u32::MAX,
                y + cols <= u32::MAX,
                f < consumed_dim(*consumed).2,
                x + rows <= consumed_dim(*consumed).0,
                y + cols <= consumed_dim(*consumed).1,
                consumed_dim(*consumed) == consumed_dim(*old(consumed)),
                forall|a: int, b: int, g: int|
                    #[trigger] consumed_at(*consumed, a, b, g) == (if g == f && ((x <= a < x + i && y
                        <= b < y + cols) || (a == x + i && y <= b < y + j)) {
                        depth
                    } else {
                        consumed_at(*old(consumed), a, b, g)
                    }),
            decreases cols - j,
        {
            let ghost before = *consumed;
            consumed_set(consumed, (x + i) as usize, (y + j) as usize, f, depth);
            proof {
                assert forall|a: int, b: int, g: int| #[trigger]
                    consumed_at(*consumed, a, b, g) == (if g == f && ((x <= a < x + i && y <= b < y
                        + cols) || (a == x + i && y <= b < y + j + 1)) {
                        depth
                    } else {
                        consumed_at(*old(consumed), a, b, g)
                    }) by {
                    assert(consumed_at(before, a, b, g) == (if g == f && ((x <= a < x + i && y <= b < y
                        + cols) || (a == x + i && y <= b < y + j)) {
                        depth
                    } else {
                        consumed_at(*old(consumed), a, b, g)
                    }));
                    if (a, b, g) == ((x + i) as int, (y + j) as int, f as int) {
                    } else {
                        assert(consumed_cells(*consumed)[(a, b, g)] == consumed_cells(before)[(a, b, g)]);
                    }
                }
            }
            j += 1;
        }
        i += 1;
    }
}

/// 1 for the far face direction, 0 for the near one.
pub open spec fn face_index(far: bool) -> int {
    if far {
        1
    } else {
        0
    }
}

/// Emits the rectangle of cell (`x`, `y`) in one face direction, if the
/// cell shows a face there that no rectangle covers yet: grows the
/// rectangle, records its cells as covered and appends its face to `faces`.
/// Returns the number of places that the rectangle covers in its row, or 0
/// when there is none.
fn emit_face<'a, G: SizedGrid<MaterialID>>(
    at: &SliceView<'a, MaterialID, G>,
    neighbor: &Option<SliceView<'a, MaterialID, G>>,
    loaded: &LoadedMaterials,
    consumed: &mut Consumed,
    far: bool,
    side: Side,
    chunk_size: UVec3,
    x: u32,
    y: u32,
    faces: &mut Vec<FaceInfo>,
) -> (w: u32)
    requires
        layer_state(*at, *old(consumed)),
        neighbor_wf(*neighbor),
        x < at.spec_size().x,
        y < at.spec_size().y,
    ensures
        layer_state(*at, *final(consumed)),
        ({
            let rows = at.spec_size().x as int;
            let cols = at.spec_size().y as int;
            let d = at.depth as i64;
            let f = face_index(far);
            let cells = face_cells(*at, *neighbor, loaded);
            let before = mask_of(*old(consumed), rows, cols, f, d);
            let after = mask_of(*final(consumed), rows, cols, f, d);
            &&& mask_of(*final(consumed), rows, cols, 1 - f, d) == mask_of(
                *old(consumed),
                rows,
                cols,
                1 - f,
                d,
            )
            &&& forall|i: int, j: int, g: int|
                #[trigger] consumed_at(*final(consumed), i, j, g) == d || consumed_at(
                    *final(consumed),
                    i,
                    j,
                    g,
                ) == consumed_at(*old(consumed), i, j, g)
            &&& if cells[x as int][y as int] != 0 && !before[x as int][y as int] {
                let q = grow(cells, before, x as int, y as int);
                &&& final(faces)@ == old(faces)@.push(
                    spec_face_info(side, far, at.depth, chunk_size, q),
                )
                &&& after == mark(before, x as int, y as int, q.rows as int, q.cols as int)
                &&& w == q.cols
                &&& w >= 1
                &&& q.rows >= 1
                &&& x + q.rows <= rows
                &&& y + w <= cols
            } else {
                &&& final(faces)@ == old(faces)@
                &&& after == before
                &&& w == 0
            }
        }),
{
    let f: usize = if far { 1 } else { 0 };
    let ghost rows = at.spec_size().x as int;
    let ghost cols = at.spec_size().y as int;
    let ghost d = at.depth as i64;
    let ghost cells = face_cells(*at, *neighbor, loaded);
    let ghost before = mask_of(*consumed, rows, cols, f as int, d);
    let key = face_key(at, neighbor, loaded, UVec2 { x, y });
    if key == 0 || consumed_get(consumed, x as usize, y as usize, f) == at.depth as i64 {
        return 0;
    }
    assert(free_cell(cells, before, x as int, y as int, key));
    let (w, h) = check_side(at, neighbor, loaded, consumed, f, x, y, key);
    let q = Quad { x, y, rows: h, cols: w, key };
    assert(q == grow(cells, before, x as int, y as int));
    mark_rect(consumed, f, x, y, h, w, at.depth as i64);
    proof {
        let after = mask_of(*consumed, rows, cols, f as int, d);
        assert(after =~~= mark(before, x as int, y as int, h as int, w as int));
        assert(mask_of(*consumed, rows, cols, 1 - f, d) =~~= mask_of(*old(consumed), rows, cols, 1 - f, d));
    }
    let face = if far {
        FaceInfo::new_opposite(side, at.depth, chunk_size, q)
    } else {
        FaceInfo::new(side, at.depth, chunk_size, q)
    };
    faces.push(face);
    w
}

} // verus!

verus! {

/// The near and the far faces of one layer, merged into rectangles.
/// `consumed` must hold no entry for the depth of the layer yet.
fn mesh_layer<'a, G: SizedGrid<MaterialID>>(
    at: &SliceView<'a, MaterialID, G>,
    before: &Option<SliceView<'a, MaterialID, G>>,
    after: &Option<SliceView<'a, MaterialID, G>>,
    loaded: &LoadedMaterials,
    side: Side,
    chunk_size: UVec3,
    consumed: &mut Consumed,
) -> (r: (Vec<FaceInfo>, Vec<FaceInfo>))
    requires
        layer_state(*at, *old(consumed)),
        neighbor_wf(*before),
        neighbor_wf(*after),
        forall|i: int, j: int, g: int|
            0 <= i < at.spec_size().x && 0 <= j < at.spec_size().y && 0 <= g < 2
                ==> #[trigger] consumed_at(*old(consumed), i, j, g) != at.depth,
    ensures
        layer_state(*at, *final(consumed)),
        r.0@ == spec_faces(
            side,
            false,
            at.depth,
            chunk_size,
            merge(
                face_cells(*at, *before, loaded),
                at.spec_size().x as int,
                at.spec_size().y as int,
            ),
        ),
        r.1@ == spec_faces(
            side,
            true,
            at.depth,
            chunk_size,
            merge(face_cells(*at, *after, loaded), at.spec_size().x as int, at.spec_size().y as int),
        ),
        forall|i: int, j: int, g: int|
            #[trigger] consumed_at(*final(consumed), i, j, g) == at.depth || consumed_at(
                *final(consumed),
                i,
                j,
                g,
            ) == consumed_at(*old(consumed), i, j, g),
{
    let size = at.size();
    let ghost rows = size.x as int;
    let ghost cols = size.y as int;
    let ghost d = at.depth as i64;
    let ghost near_cells = face_cells(*at, *before, loaded);
    let ghost far_cells = face_cells(*at, *after, loaded);
    let ghost mut near_quads: Seq<Quad> = Seq::empty();
    let ghost mut far_quads: Seq<Quad> = Seq::empty();
    let mut near: Vec<FaceInfo> = Vec::new();
    let mut far: Vec<FaceInfo> = Vec::new();
    proof {
        assert(mask_of(*consumed, rows, cols, 0, d) =~~= super::greedy::empty_mask(rows, cols));
        assert(mask_of(*consumed, rows, cols, 1, d) =~~= super::greedy::empty_mask(rows, cols));
        assert(near@ =~= spec_faces(side, false, at.depth, chunk_size, near_quads));
        assert(far@ =~= spec_faces(side, true, at.depth, chunk_size, far_quads));
    }
    let mut x: u32 = 0;
    while x < size.x
        invariant
            x <= size.x,
            size == at.spec_size(),
            rows == size.x,
            cols == size.y,
            d == at.depth,
            layer_state(*at, *consumed),
            neighbor_wf(*before),
            neighbor_wf(*after),
            near_cells == face_cells(*at, *before, loaded),
            far_cells == face_cells(*at, *after, loaded),
            near@ == spec_faces(side, false, at.depth, chunk_size, near_quads),
            far@ == spec_faces(side, true, at.depth, chunk_size, far_quads),
            near_quads + scan(near_cells, mask_of(*consumed, rows, cols, 0, d), x as int, 0) == merge(
                near_cells,
                rows,
                cols,
            ),
            far_quads + scan(far_cells, mask_of(*consumed, rows, cols, 1, d), x as int, 0) == merge(
                far_cells,
                rows,
                cols,
            ),
            forall|i: int, j: int, g: int|
                #[trigger] consumed_at(*consumed, i, j, g) == d || consumed_at(*consumed, i, j, g)
                    == consumed_at(*old(consumed), i, j, g),
        decreases size.x - x,
    {
        let mut y: u32 = 0;
        while y < size.y
            invariant
                x < size.x,
                y <= size.y,
                size == at.spec_size(),
                rows == size.x,
                cols == size.y,
                d == at.depth,
                layer_state(*at, *consumed),
                neighbor_wf(*before),
                neighbor_wf(*after),
                near_cells == face_cells(*at, *before, loaded),
                far_cells == face_cells(*at, *after, loaded),
                near@ == spec_faces(side, false, at.depth, chunk_size, near_quads),
                far@ == spec_faces(side, true, at.depth, chunk_size, far_quads),
                near_quads + scan(near_cells, mask_of(*consumed, rows, cols, 0, d), x as int, y as int)
                    == merge(near_cells, rows, cols),
                far_quads + scan(far_cells, mask_of(*consumed, rows, cols, 1, d), x as int, y as int)
                    == merge(far_cells, rows, cols),
                forall|i: int, j: int, g: int|
                    #[trigger] consumed_at(*consumed, i, j, g) == d || consumed_at(*consumed, i, j, g)
                        == consumed_at(*old(consumed), i, j, g),
            decreases size.y - y,
        {
            let ghost near_mask = mask_of(*consumed, rows, cols, 0, d);
            let ghost far_mask = mask_of(*consumed, rows, cols, 1, d);
            let near_width = emit_face(at, before, loaded, consumed, false, side, chunk_size, x, y, &mut near);
            let ghost c1 = *consumed;
            let far_width = emit_face(at, after, loaded, consumed, true, side, chunk_size, x, y, &mut far);
            let step: u32 = if near_width > 0 && far_width > 0 {
                if near_width < far_width {
                    near_width
                } else {
                    far_width
                }
            } else {
                1
            };
            proof {
                let near_after = mask_of(*consumed, rows, cols, 0, d);
                let far_after = mask_of(*consumed, rows, cols, 1, d);
                assert(near_after == mask_of(c1, rows, cols, 0, d));
                assert(far_mask == mask_of(c1, rows, cols, 1, d));
                super::greedy::lemma_scan_unfold(near_cells, near_mask, x as int, y as int);
                super::greedy::lemma_scan_unfold(far_cells, far_mask, x as int, y as int);
                let ghost near_before = near_quads;
                let ghost far_before = far_quads;
                if near_cells[x as int][y as int] != 0 && !near_mask[x as int][y as int] {
                    let q = grow(near_cells, near_mask, x as int, y as int);
                    near_quads = near_quads.push(q);
                    assert(near_quads + scan(near_cells, near_after, x as int, y + 1) =~= near_before + (
                    seq![q] + scan(near_cells, near_after, x as int, y + 1)));
                    assert(near@ =~= spec_faces(side, false, at.depth, chunk_size, near_quads));
                }
                if far_cells[x as int][y as int] != 0 && !far_mask[x as int][y as int] {
                    let q = grow(far_cells, far_mask, x as int, y as int);
                    far_quads = far_quads.push(q);
                    assert(far_quads + scan(far_cells, far_after, x as int, y + 1) =~= far_before + (
                    seq![q] + scan(far_cells, far_after, x as int, y + 1)));
                    assert(far@ =~= spec_faces(side, true, at.depth, chunk_size, far_quads));
                }
                assert(near_quads + scan(near_cells, near_after, x as int, y + 1) == merge(
                    near_cells,
                    rows,
                    cols,
                ));
                assert(far_quads + scan(far_cells, far_after, x as int, y + 1) == merge(
                    far_cells,
                    rows,
                    cols,
                ));
                if step > 1 {
                    let qn = grow(near_cells, near_mask, x as int, y as int);
                    let qf = grow(far_cells, far_mask, x as int, y as int);
                    assert(near_after == mark(near_mask, x as int, y as int, qn.rows as int, qn.cols as int));
                    assert(far_after == mark(far_mask, x as int, y as int, qf.rows as int, qf.cols as int));
                    assert forall|j: int| y + 1 <= j < y + step implies #[trigger] near_after[x as int][j] by {
                    }
                    assert forall|j: int| y + 1 <= j < y + step implies #[trigger] far_after[x as int][j] by {
                    }
                }
                super::greedy::lemma_scan_skip(near_cells, near_after, x as int, y + 1, step - 1);
                super::greedy::lemma_scan_skip(far_cells, far_after, x as int, y + 1, step - 1);
            }
            y += step;
        }
        proof {
            super::greedy::lemma_scan_row_end(
                near_cells,
                mask_of(*consumed, rows, cols, 0, d),
                x as int,
            );
            super::greedy::lemma_scan_row_end(far_cells, mask_of(*consumed, rows, cols, 1, d), x as int);
        }
        x += 1;
    }
    proof {
        if rows > 0 {
            super::greedy::lemma_scan_row_end(near_cells, mask_of(*consumed, rows, cols, 0, d), 0);
            super::greedy::lemma_scan_row_end(far_cells, mask_of(*consumed, rows, cols, 1, d), 0);
        }
        assert(near_quads =~= merge(near_cells, rows, cols));
        assert(far_quads =~= merge(far_cells, rows, cols));
    }
    (near, far)
}

} // verus!

verus! {

/// The layer of a grid at `depth`.
pub open spec fn spec_slice<'a, G: SizedGrid<MaterialID>>(blocks: &'a G, depth: u32) -> SliceView<
    'a,
    MaterialID,
    G,
> {
    SliceView { inner: blocks, depth, _phantom: core::marker::PhantomData }
}

/// The layer that the near faces of the layer at `depth` look at: the
/// layer before it, or `outside` for the first layer.
pub open spec fn spec_before<'a, G: SizedGrid<MaterialID>>(
    blocks: &'a G,
    depth: u32,
    outside: Option<SliceView<'a, MaterialID, G>>,
) -> Option<SliceView<'a, MaterialID, G>> {
    if depth > 0 {
        Some(spec_slice(blocks, (depth - 1) as u32))
    } else {
        outside
    }
}

/// The layer that the far faces of the layer at `depth` look at: the layer
/// after it, or `outside` for the last layer.
pub open spec fn spec_after<'a, G: SizedGrid<MaterialID>>(
    blocks: &'a G,
    depth: u32,
    outside: Option<SliceView<'a, MaterialID, G>>,
) -> Option<SliceView<'a, MaterialID, G>> {
    if depth + 1 < blocks.spec_size().z {
        Some(spec_slice(blocks, (depth + 1) as u32))
    } else {
        outside
    }
}

/// The faces of one direction of the layer at `depth` of a grid that is
/// seen from `side`, merged into rectangles, with `neighbor` as the layer
/// that the faces look at.
pub open spec fn layer_faces<'a, G: SizedGrid<MaterialID>>(
    blocks: &'a G,
    loaded: &LoadedMaterials,
    side: Side,
    depth: u32,
    neighbor: Option<SliceView<'a, MaterialID, G>>,
    far: bool,
) -> Seq<FaceInfo> {
    spec_faces(
        side,
        far,
        depth,
        spec_view_size(side, blocks.spec_size()),
        merge(
            face_cells(spec_slice(blocks, depth), neighbor, loaded),
            blocks.spec_size().x as int,
            blocks.spec_size().y as int,
        ),
    )
}

/// Whether the record of covered faces of a layer of `rows` by `cols`
/// cells can be allocated: twice the number of cells, with an extent of 0
/// counted as 1, must fit in `isize`.
pub open spec fn mask_fits(rows: u32, cols: u32) -> bool {
    2 * (if rows == 0 {
        1int
    } else {
        rows as int
    }) * (if cols == 0 {
        1int
    } else {
        cols as int
    }) <= isize::MAX
}

/// Meshes one layer of a grid that is seen from `side`: merges the faces
/// of the layer at `depth` that can be seen into rectangles. Returns the
/// near faces, which look against `side`, and the far faces, which look
/// along it. `top` and `bottom` are the layers that border the grid before
/// its first and after its last layer, if there are any.
///
/// Every material of the layer must have a record in the registry.
pub fn mesh_inner_slice<'a, G: SizedGrid<MaterialID>>(
    blocks: &'a G,
    loaded: &LoadedMaterials,
    side: Side,
    depth: u32,
    top: &Option<SliceView<'a, MaterialID, G>>,
    bottom: &Option<SliceView<'a, MaterialID, G>>,
) -> (r: (Vec<FaceInfo>, Vec<FaceInfo>))
    requires
        blocks.grid_wf(),
        depth < blocks.spec_size().z,
        neighbor_wf(*top),
        neighbor_wf(*bottom),
        slice_registered(spec_slice(blocks, depth), loaded),
        mask_fits(blocks.spec_size().x, blocks.spec_size().y),
    ensures
        r.0@ == layer_faces(blocks, loaded, side, depth, spec_before(blocks, depth, *top), false),
        r.1@ == layer_faces(blocks, loaded, side, depth, spec_after(blocks, depth, *bottom), true),
{
    let size = blocks.size();
    let mut consumed = consumed_new(size.x as usize, size.y as usize);
    mesh_inner_slice_with(blocks, loaded, side, depth, top, bottom, &mut consumed)
}

/// As [`mesh_inner_slice`], with a record of covered faces that holds no
/// entry for `depth` or a later layer yet.
fn mesh_inner_slice_with<'a, G: SizedGrid<MaterialID>>(
    blocks: &'a G,
    loaded: &LoadedMaterials,
    side: Side,
    depth: u32,
    top: &Option<SliceView<'a, MaterialID, G>>,
    bottom: &Option<SliceView<'a, MaterialID, G>>,
    consumed: &mut Consumed,
) -> (r: (Vec<FaceInfo>, Vec<FaceInfo>))
    requires
        blocks.grid_wf(),
        depth < blocks.spec_size().z,
        neighbor_wf(*top),
        neighbor_wf(*bottom),
        consumed_dim(*old(consumed)) == (
            blocks.spec_size().x as int,
            blocks.spec_size().y as int,
            2int,
        ),
        forall|i: int, j: int, g: int|
            0 <= i < blocks.spec_size().x && 0 <= j < blocks.spec_size().y && 0 <= g < 2
                ==> #[trigger] consumed_at(*old(consumed), i, j, g) < depth,
    ensures
        r.0@ == layer_faces(blocks, loaded, side, depth, spec_before(blocks, depth, *top), false),
        r.1@ == layer_faces(blocks, loaded, side, depth, spec_after(blocks, depth, *bottom), true),
        consumed_dim(*final(consumed)) == consumed_dim(*old(consumed)),
        forall|i: int, j: int, g: int|
            0 <= i < blocks.spec_size().x && 0 <= j < blocks.spec_size().y && 0 <= g < 2
                ==> #[trigger] consumed_at(*final(consumed), i, j, g) <= depth,
{
    let size = blocks.size();
    let chunk_size = view_size(side, size);
    let at = SliceView::new(blocks, depth);
    let inner_before = SliceView::try_new(blocks, depth as i64 - 1);
    let inner_after = SliceView::try_new(blocks, depth as i64 + 1);
    let before = if inner_before.is_some() {
        &inner_before
    } else {
        top
    };
    let after = if inner_after.is_some() {
        &inner_after
    } else {
        bottom
    };
    assert(*before == spec_before(blocks, depth, *top));
    assert(*after == spec_after(blocks, depth, *bottom));
    mesh_layer(&at, before, after, loaded, side, chunk_size, consumed)
}

} // verus!

verus! {

/// The view of a grid from `side`.
pub open spec fn spec_side_view<'d, G: SizedGrid<MaterialID>>(blocks: &'d G, side: Side) -> SideView<
    'd,
    MaterialID,
    G,
> {
    SideView {
        inner: blocks,
        side,
        transform: super::view::spec_view_transform(side, blocks.spec_size()),
        _phantom: core::marker::PhantomData,
    }
}

/// The layer that the faces of one direction of the layer at `depth` look
/// at when nothing borders the grid.
pub open spec fn spec_neighbor<'a, G: SizedGrid<MaterialID>>(blocks: &'a G, depth: u32, far: bool) -> Option<
    SliceView<'a, MaterialID, G>,
> {
    if far {
        spec_after(blocks, depth, None)
    } else {
        spec_before(blocks, depth, None)
    }
}

/// The faces of one direction of the first `n` layers of a grid that is
/// seen from `side`, layer after layer.
pub open spec fn side_faces<'a, G: SizedGrid<MaterialID>>(
    blocks: &'a G,
    loaded: &LoadedMaterials,
    side: Side,
    far: bool,
    n: int,
) -> Seq<FaceInfo>
    decreases n,
{
    if n <= 0 {
        Seq::empty()
    } else {
        side_faces(blocks, loaded, side, far, n - 1) + layer_faces(
            blocks,
            loaded,
            side,
            (n - 1) as u32,
            spec_neighbor(blocks, (n - 1) as u32, far),
            far,
        )
    }
}

/// True when every material that a cell of the grid holds has a record in
/// the registry.
pub open spec fn grid_registered<G: SizedGrid<MaterialID>>(blocks: &G, loaded: &LoadedMaterials) -> bool {
    forall|pos: UVec3|
        pos.spec_within(blocks.spec_size()) ==> (palette_value(
            blocks.spec_values(),
            #[trigger] blocks.spec_key(pos),
        ) matches Some(v) ==> loaded.spec_get(v@).is_some())
}

/// Meshes a grid along one axis: looks at the grid from `side` and merges,
/// layer by layer, the faces that can be seen into rectangles. Returns the
/// faces that look against `side` and the faces that look along it, each
/// list in the order of the layers.
///
/// Every material of the grid must have a record in the registry.
pub fn mesh_side<G: SizedGrid<MaterialID>>(blocks: &G, loaded: &LoadedMaterials, side: Side) -> (r: (
    Vec<FaceInfo>,
    Vec<FaceInfo>,
))
    requires
        blocks.grid_wf(),
        grid_registered(blocks, loaded),
        mask_fits(
            spec_view_size(side, blocks.spec_size()).x,
            spec_view_size(side, blocks.spec_size()).y,
        ),
    ensures
        r.0@ == side_faces(
            &spec_side_view(blocks, side),
            loaded,
            side,
            false,
            spec_view_size(side, blocks.spec_size()).z as int,
        ),
        r.1@ == side_faces(
            &spec_side_view(blocks, side),
            loaded,
            side,
            true,
            spec_view_size(side, blocks.spec_size()).z as int,
        ),
{
    let view = SideView::new(blocks, side);
    let size = view.size();
    let mut near: Vec<FaceInfo> = Vec::new();
    let mut far: Vec<FaceInfo> = Vec::new();
    let mut consumed = consumed_new(size.x as usize, size.y as usize);
    let outside: Option<SliceView<'_, MaterialID, SideView<'_, MaterialID, G>>> = None;
    let mut depth: u32 = 0;
    while depth < size.z
        invariant
            depth <= size.z,
            view.grid_wf(),
            view == spec_side_view(blocks, side),
            size == view.spec_size(),
            outside.is_none(),
            consumed_dim(consumed) == (size.x as int, size.y as int, 2int),
            forall|i: int, j: int, g: int|
                0 <= i < size.x && 0 <= j < size.y && 0 <= g < 2 ==> #[trigger] consumed_at(
                    consumed,
                    i,
                    j,
                    g,
                ) < depth,
            near@ == side_faces(&view, loaded, side, false, depth as int),
            far@ == side_faces(&view, loaded, side, true, depth as int),
        decreases size.z - depth,
    {
        let (mut layer_near, mut layer_far) = mesh_inner_slice_with(
            &view,
            loaded,
            side,
            depth,
            &outside,
            &outside,
            &mut consumed,
        );
        near.append(&mut layer_near);
        far.append(&mut layer_far);
        depth += 1;
    }
    (near, far)
}

/// The side of the axis of `side` that points up the axis.
pub open spec fn spec_primary(side: Side) -> Side {
    if side.spec_is_negative() {
        side.spec_opposite()
    } else {
        side
    }
}

/// The faces of a grid that look towards `side`, merged into rectangles:
/// those of the view along the axis of `side` that look along it for a side
/// that points up its axis, and those that look against it for a side that
/// points down.
pub open spec fn mesh_faces<G: SizedGrid<MaterialID>>(
    blocks: &G,
    loaded: &LoadedMaterials,
    side: Side,
) -> Seq<FaceInfo> {
    let primary = spec_primary(side);
    side_faces(
        &spec_side_view(blocks, primary),
        loaded,
        primary,
        !side.spec_is_negative(),
        spec_view_size(primary, blocks.spec_size()).z as int,
    )
}

/// Whether the record of covered faces can be allocated for each of the
/// three views that the mesher looks at a grid of extent `size` from.
pub open spec fn grid_mask_fits(size: UVec3) -> bool {
    &&& mask_fits(size.z, size.y)
    &&& mask_fits(size.x, size.z)
    &&& mask_fits(size.x, size.y)
}

/// Meshes a grid: merges the faces of its cells that can be seen into
/// rectangles, for each of the six sides. Entry `i` of the result holds the
/// faces that look towards the side with index `i`.
///
/// Every material of the grid must have a record in the registry.
pub fn greedy_mesh<G: SizedGrid<MaterialID>>(blocks: &G, loaded: &LoadedMaterials) -> (r: [Vec<FaceInfo>; 6])
    requires
        blocks.grid_wf(),
        grid_registered(blocks, loaded),
        grid_mask_fits(blocks.spec_size()),
    ensures
        forall|i: int|
            0 <= i < 6 ==> (#[trigger] r[i])@ == mesh_faces(blocks, loaded, Side::spec_from_index(i)),
        mesh_view(r) == spec_greedy_mesh(blocks, loaded),
        mesh_area(mesh_view(r)) == visible_face_count(blocks, loaded),
        forall|i: int|
            0 <= i < 6 ==> faces_area((#[trigger] r[i])@) == super::count::grid_visible_set(
                blocks,
                loaded,
                Side::spec_from_index(i),
            ).len(),
{
    let (west, east) = mesh_side(blocks, loaded, Side::East);
    let (bottom, top) = mesh_side(blocks, loaded, Side::Top);
    let (north, south) = mesh_side(blocks, loaded, Side::South);
    let r = [east, west, top, bottom, south, north];
    proof {
        assert(mesh_view(r) =~= spec_greedy_mesh(blocks, loaded));
        lemma_greedy_mesh_area(blocks, loaded);
        assert forall|i: int| 0 <= i < 6 implies faces_area((#[trigger] r[i])@)
            == super::count::grid_visible_set(blocks, loaded, Side::spec_from_index(i)).len() by {
            super::count::lemma_mesh_covers_visible_faces(blocks, loaded, Side::spec_from_index(i));
        }
    }
    r
}

} // verus!

verus! {

/// The number of unit faces that a list of rectangles covers.
pub open spec fn faces_area(faces: Seq<FaceInfo>) -> int
    decreases faces.len(),
{
    if faces.len() == 0 {
        0
    } else {
        faces_area(faces.drop_last()) + faces.last().spec_area()
    }
}

/// The area of two lists of faces, one after the other.
pub proof fn lemma_faces_area_concat(a: Seq<FaceInfo>, b: Seq<FaceInfo>)
    ensures
        faces_area(a + b) == faces_area(a) + faces_area(b),
    decreases b.len(),
{
    if b.len() == 0 {
        assert(a + b == a);
    } else {
        assert((a + b).drop_last() == a + b.drop_last());
        lemma_faces_area_concat(a, b.drop_last());
    }
}

/// The faces that a list of rectangles stands for cover as many unit faces
/// as the rectangles cover cells.
pub proof fn lemma_spec_faces_area(side: Side, far: bool, depth: u32, chunk_size: UVec3, quads: Seq<Quad>)
    ensures
        faces_area(spec_faces(side, far, depth, chunk_size, quads)) == super::greedy::total_area(quads),
    decreases quads.len(),
{
    if quads.len() > 0 {
        assert(spec_faces(side, far, depth, chunk_size, quads).drop_last() =~= spec_faces(
            side,
            far,
            depth,
            chunk_size,
            quads.drop_last(),
        ));
        lemma_spec_faces_area(side, far, depth, chunk_size, quads.drop_last());
    }
}

/// The number of faces of one direction of the layer at `depth` that can
/// be seen, counted cell by cell.
pub open spec fn layer_face_count<'a, G: SizedGrid<MaterialID>>(
    blocks: &'a G,
    loaded: &LoadedMaterials,
    depth: u32,
    neighbor: Option<SliceView<'a, MaterialID, G>>,
) -> int {
    super::greedy::face_count(face_cells(spec_slice(blocks, depth), neighbor, loaded))
}

/// The rectangles of a layer cover exactly the faces of the layer that can
/// be seen.
pub proof fn lemma_layer_area<'a, G: SizedGrid<MaterialID>>(
    blocks: &'a G,
    loaded: &LoadedMaterials,
    side: Side,
    depth: u32,
    neighbor: Option<SliceView<'a, MaterialID, G>>,
    far: bool,
)
    ensures
        faces_area(layer_faces(blocks, loaded, side, depth, neighbor, far)) == layer_face_count(
            blocks,
            loaded,
            depth,
            neighbor,
        ),
{
    let cells = face_cells(spec_slice(blocks, depth), neighbor, loaded);
    let rows = blocks.spec_size().x as int;
    let cols = blocks.spec_size().y as int;
    assert(has_shape(cells, rows, cols));
    super::greedy::lemma_merge_area(cells, rows, cols);
    lemma_spec_faces_area(
        side,
        far,
        depth,
        spec_view_size(side, blocks.spec_size()),
        merge(cells, rows, cols),
    );
}

/// The number of faces of one direction of the first `n` layers of a grid
/// that can be seen, counted cell by cell.
pub open spec fn side_face_count<'a, G: SizedGrid<MaterialID>>(
    blocks: &'a G,
    loaded: &LoadedMaterials,
    far: bool,
    n: int,
) -> int
    decreases n,
{
    if n <= 0 {
        0
    } else {
        side_face_count(blocks, loaded, far, n - 1) + layer_face_count(
            blocks,
            loaded,
            (n - 1) as u32,
            spec_neighbor(blocks, (n - 1) as u32, far),
        )
    }
}

/// The rectangles of the first `n` layers cover exactly the faces of those
/// layers that can be seen.
pub proof fn lemma_side_area<'a, G: SizedGrid<MaterialID>>(
    blocks: &'a G,
    loaded: &LoadedMaterials,
    side: Side,
    far: bool,
    n: int,
)
    ensures
        faces_area(side_faces(blocks, loaded, side, far, n)) == side_face_count(blocks, loaded, far, n),
    decreases n,
{
    if n > 0 {
        lemma_side_area(blocks, loaded, side, far, n - 1);
        lemma_layer_area(
            blocks,
            loaded,
            side,
            (n - 1) as u32,
            spec_neighbor(blocks, (n - 1) as u32, far),
            far,
        );
        lemma_faces_area_concat(
            side_faces(blocks, loaded, side, far, n - 1),
            layer_faces(
                blocks,
                loaded,
                side,
                (n - 1) as u32,
                spec_neighbor(blocks, (n - 1) as u32, far),
                far,
            ),
        );
    }
}

/// The number of faces of a grid towards `side` that can be seen, counted
/// cell by cell.
pub open spec fn visible_faces<G: SizedGrid<MaterialID>>(
    blocks: &G,
    loaded: &LoadedMaterials,
    side: Side,
) -> int {
    let primary = spec_primary(side);
    side_face_count(
        &spec_side_view(blocks, primary),
        loaded,
        !side.spec_is_negative(),
        spec_view_size(primary, blocks.spec_size()).z as int,
    )
}

/// The number of faces of a grid that can be seen, over all six sides.
pub open spec fn visible_face_count<G: SizedGrid<MaterialID>>(blocks: &G, loaded: &LoadedMaterials) -> int {
    visible_faces(blocks, loaded, Side::East) + visible_faces(blocks, loaded, Side::West)
        + visible_faces(blocks, loaded, Side::Top) + visible_faces(blocks, loaded, Side::Bottom)
        + visible_faces(blocks, loaded, Side::South) + visible_faces(blocks, loaded, Side::North)
}

/// The unit faces that the rectangles of a mesh cover, over all six sides.
pub open spec fn mesh_area(mesh: Seq<Seq<FaceInfo>>) -> int {
    faces_area(mesh[0]) + faces_area(mesh[1]) + faces_area(mesh[2]) + faces_area(mesh[3])
        + faces_area(mesh[4]) + faces_area(mesh[5])
}

/// The mesh of a grid, side by side.
pub open spec fn spec_greedy_mesh<G: SizedGrid<MaterialID>>(blocks: &G, loaded: &LoadedMaterials) -> Seq<
    Seq<FaceInfo>,
> {
    Seq::new(6, |i: int| mesh_faces(blocks, loaded, Side::spec_from_index(i)))
}

/// Merging changes the number of rectangles, never what they cover: the
/// rectangles of the mesh of a grid cover as many unit faces as a scan
/// that looks at every cell and every side by itself finds to be seen.
pub proof fn lemma_greedy_mesh_area<G: SizedGrid<MaterialID>>(blocks: &G, loaded: &LoadedMaterials)
    ensures
        mesh_area(spec_greedy_mesh(blocks, loaded)) == visible_face_count(blocks, loaded),
        forall|i: int|
            0 <= i < 6 ==> faces_area(#[trigger] spec_greedy_mesh(blocks, loaded)[i]) == visible_faces(
                blocks,
                loaded,
                Side::spec_from_index(i),
            ),
{
    assert forall|i: int| 0 <= i < 6 implies faces_area(#[trigger] spec_greedy_mesh(blocks, loaded)[i])
        == visible_faces(blocks, loaded, Side::spec_from_index(i)) by {
        let side = Side::spec_from_index(i);
        let primary = spec_primary(side);
        lemma_side_area(
            &spec_side_view(blocks, primary),
            loaded,
            primary,
            !side.spec_is_negative(),
            spec_view_size(primary, blocks.spec_size()).z as int,
        );
    }
    let mesh = spec_greedy_mesh(blocks, loaded);
    assert(faces_area(mesh[0]) == visible_faces(blocks, loaded, Side::East));
    assert(faces_area(mesh[1]) == visible_faces(blocks, loaded, Side::West));
    assert(faces_area(mesh[2]) == visible_faces(blocks, loaded, Side::Top));
    assert(faces_area(mesh[3]) == visible_faces(blocks, loaded, Side::Bottom));
    assert(faces_area(mesh[4]) == visible_faces(blocks, loaded, Side::South));
    assert(faces_area(mesh[5]) == visible_faces(blocks, loaded, Side::North));
}

/// The six lists of a mesh as sequences.
pub open spec fn mesh_view(mesh: [Vec<FaceInfo>; 6]) -> Seq<Seq<FaceInfo>> {
    Seq::new(6, |i: int| mesh[i]@)
}

/// Meshing is a function of the grid and the registry: two meshes of the
/// same grid with the same registry hold the same faces in the same order.
pub proof fn lemma_greedy_mesh_deterministic<G: SizedGrid<MaterialID>>(
    blocks: &G,
    loaded: &LoadedMaterials,
    first: [Vec<FaceInfo>; 6],
    second: [Vec<FaceInfo>; 6],
)
    requires
        mesh_view(first) == spec_greedy_mesh(blocks, loaded),
        mesh_view(second) == spec_greedy_mesh(blocks, loaded),
    ensures
        forall|i: int| 0 <= i < 6 ==> (#[trigger] first[i])@ == second[i]@,
{
    assert forall|i: int| 0 <= i < 6 implies (#[trigger] first[i])@ == second[i]@ by {
        assert(mesh_view(first)[i] == mesh_view(second)[i]);
    }
}

} // verus!

verus! {

/// The grids that border a grid, one for each side that has one.
pub struct MeshingContext<'a, T> {
    pub sides: [Option<&'a super::ChunkStore<T>>; 6],
}

impl<'a, T> MeshingContext<'a, T> {
    /// The grid that borders on `side`, if there is one.
    pub open spec fn spec_side(&self, side: Side) -> Option<&'a super::ChunkStore<T>> {
        self.sides[side.spec_index()]
    }

    /// True when every bordering grid is well-formed.
    pub open spec fn wf(&self) -> bool {
        forall|i: int|
            0 <= i < 6 ==> ((#[trigger] self.sides[i]) matches Some(grid) ==> grid.wf())
    }

    /// Whether a grid borders on `side`.
    pub fn has(&self, side: Side) -> (r: bool)
        ensures
            r == self.spec_side(side).is_some(),
    {
        self.sides[side.as_usize()].is_some()
    }

    /// The grid that borders on `side`, seen from the side opposite to
    /// `side`.
    pub fn get(&self, side: Side) -> (r: Option<SideView<'a, T, super::ChunkStore<T>>>)
        requires
            self.wf(),
        ensures
            match self.spec_side(side) {
                Some(grid) => r.is_some() && r.unwrap().grid_wf() && r.unwrap().inner == grid
                    && r.unwrap().side == side.spec_opposite(),
                None => r.is_none(),
            },
    {
        match self.sides[side.as_usize()] {
            Some(grid) => Some(SideView::new(grid, side.opposite())),
            None => None,
        }
    }

    /// The value of cell `pos` of the first layer of the grid that borders
    /// on `side`, seen from the side opposite to `side`.
    pub fn get_entry(&self, side: Side, pos: UVec2) -> (r: Option<&'a T>)
        requires
            self.wf(),
        ensures
            match self.spec_side(side) {
                Some(grid) => {
                    let view = SideView::<T, super::ChunkStore<T>> {
                        inner: grid,
                        side: side.spec_opposite(),
                        transform: super::view::spec_view_transform(side.spec_opposite(), grid.size),
                        _phantom: core::marker::PhantomData,
                    };
                    let value = super::grid_pos_value(&view, UVec3 { x: pos.x, y: pos.y, z: 0 });
                    match r {
                        Some(v) => value == Some(*v),
                        None => value.is_none(),
                    }
                },
                None => r.is_none(),
            },
    {
        match self.sides[side.as_usize()] {
            Some(grid) => {
                let view = SideView::new(grid, side.opposite());
                let at = UVec3 { x: pos.x, y: pos.y, z: 0 };
                if at.within(view.size()) {
                    grid.get_pos_value(view.transform_position(at))
                } else {
                    None
                }
            },
            None => None,
        }
    }
}

/// What of a grid has been meshed, and what has changed since.
#[derive(Debug)]
pub struct MeshingState {
    /// The sides that were meshed with the grid that borders on them.
    pub meshed_sides: [bool; 6],
    /// Whether the inside of the grid has been meshed.
    pub meshed_internals: bool,
    /// The cells that have changed since the mesh was made.
    pub invalidated: Vec<UVec3>,
}

impl Default for MeshingState {
    fn default() -> (r: MeshingState)
        ensures
            forall|i: int| 0 <= i < 6 ==> !(#[trigger] r.meshed_sides[i]),
            !r.meshed_internals,
            r.invalidated@.len() == 0,
    {
        MeshingState {
            meshed_sides: [false, false, false, false, false, false],
            meshed_internals: false,
            invalidated: Vec::new(),
        }
    }
}

impl MeshingState {
    /// Records that the cell at `location` has changed.
    pub fn mark_dirty(&mut self, location: UVec3)
        ensures
            final(self).invalidated@ == old(self).invalidated@.push(location),
            final(self).meshed_sides == old(self).meshed_sides,
            final(self).meshed_internals == old(self).meshed_internals,
    {
        self.invalidated.push(location);
    }
}

} // verus!

verus! {

/// The face key of cell `pos` of a grid towards `side`, in the coordinates
/// of the grid itself: the palette key of the cell when the cell holds a
/// material of the registry whose face can be seen past the cell next to it
/// on `side`, and 0 otherwise.
pub open spec fn grid_face_key<G: SizedGrid<MaterialID>>(
    blocks: &G,
    loaded: &LoadedMaterials,
    pos: UVec3,
    side: Side,
) -> u16 {
    match super::grid_pos_value(blocks, pos) {
        Some(current) => match loaded.spec_get(current@) {
            Some(m) => {
                let above = match super::view::spec_neighbor_pos(blocks.spec_size(), pos, side) {
                    Some(q) => match super::grid_pos_value(blocks, q) {
                        Some(v) => Some(v@),
                        None => None,
                    },
                    None => None,
                };
                if spec_face_visible(above, current@, m, loaded) {
                    blocks.spec_key(pos)
                } else {
                    0
                }
            },
            None => 0,
        },
        None => 0,
    }
}

/// What the mesher sees through a view is what the grid holds: the face
/// key of a cell of a layer of the view from `side`, towards the next
/// layer or the layer before, is the face key of the cell of the grid that
/// it stands for, towards `side` or the opposite side.
pub proof fn lemma_view_face_key<G: SizedGrid<MaterialID>>(
    blocks: &G,
    loaded: &LoadedMaterials,
    side: Side,
    far: bool,
    p: UVec3,
)
    requires
        p.spec_within(spec_view_size(side, blocks.spec_size())),
    ensures
        spec_face_key(
            spec_slice(&spec_side_view(blocks, side), p.z),
            spec_neighbor(&spec_side_view(blocks, side), p.z, far),
            loaded,
            UVec2 { x: p.x, y: p.y },
        ) == grid_face_key(
            blocks,
            loaded,
            super::view::spec_view_transform(side, blocks.spec_size()).spec_transform_position(p),
            if far {
                side
            } else {
                side.spec_opposite()
            },
        ),
{
    let size = blocks.spec_size();
    let view = spec_side_view(blocks, side);
    super::view::lemma_transform_inverse(side, size, p);
    super::view::lemma_view_neighbor(side, size, p, far);
    match super::view::spec_next_layer(spec_view_size(side, size), p, far) {
        Some(q) => {
            super::view::lemma_transform_inverse(side, size, q);
            let layer = spec_slice(&view, q.z);
            assert(spec_neighbor(&view, p.z, far) == Some(layer));
            assert(layer.spec_lift(UVec2 { x: p.x, y: p.y }) == q);
        },
        None => {
            assert(spec_neighbor(&view, p.z, far).is_none());
        },
    }
    let at = spec_slice(&view, p.z);
    assert(at.spec_lift(UVec2 { x: p.x, y: p.y }) == p);
}

} // verus!

verus! {

/// Counts the faces of one direction of a layer that can be seen, cell by
/// cell.
fn count_layer_faces<'a, G: SizedGrid<MaterialID>>(
    at: &SliceView<'a, MaterialID, G>,
    neighbor: &Option<SliceView<'a, MaterialID, G>>,
    loaded: &LoadedMaterials,
) -> (r: u128)
    requires
        at.wf(),
        neighbor_wf(*neighbor),
    ensures
        r == super::greedy::face_count(face_cells(*at, *neighbor, loaded)),
        r <= at.spec_size().x * at.spec_size().y,
{
    let size = at.size();
    let ghost cells = face_cells(*at, *neighbor, loaded);
    let ghost shown = super::greedy::shown(cells);
    let mut count: u128 = 0;
    let mut x: u32 = 0;
    while x < size.x
        invariant
            x <= size.x,
            size == at.spec_size(),
            at.wf(),
            neighbor_wf(*neighbor),
            cells == face_cells(*at, *neighbor, loaded),
            shown == super::greedy::shown(cells),
            count == super::greedy::grid_count(shown, x as int),
            count <= x * size.y,
        decreases size.x - x,
    {
        let mut row: u128 = 0;
        let mut y: u32 = 0;
        while y < size.y
            invariant
                x < size.x,
                y <= size.y,
                size == at.spec_size(),
                at.wf(),
                neighbor_wf(*neighbor),
                cells == face_cells(*at, *neighbor, loaded),
                shown == super::greedy::shown(cells),
                row == super::greedy::row_count(shown[x as int], y as int),
                row <= y,
            decreases size.y - y,
        {
            if face_key(at, neighbor, loaded, UVec2 { x, y }) != 0 {
                row += 1;
            }
            y += 1;
        }
        assert(x * size.y + size.y == (x + 1) * size.y) by (nonlinear_arith);
        assert((x + 1) * size.y <= 0x1_0000_0000 * 0x1_0000_0000) by (nonlinear_arith)
            requires
                x + 1 <= 0x1_0000_0000,
                size.y <= 0x1_0000_0000,
        ;
        count += row;
        x += 1;
    }
    assert(x * size.y == size.x * size.y);
    count
}

/// Counts the faces of one direction of all layers of a grid that can be
/// seen, cell by cell.
fn count_side_faces<G: SizedGrid<MaterialID>>(blocks: &G, loaded: &LoadedMaterials, far: bool) -> (r: u128)
    requires
        blocks.grid_wf(),
    ensures
        r == side_face_count(blocks, loaded, far, blocks.spec_size().z as int),
{
    let size = blocks.size();
    let mut total: u128 = 0;
    let mut depth: u32 = 0;
    let ghost area = size.x * size.y;
    assert(0 <= area <= 0x1_0000_0000 * 0x1_0000_0000) by (nonlinear_arith)
        requires
            area == size.x * size.y,
            0 <= size.x <= 0x1_0000_0000,
            0 <= size.y <= 0x1_0000_0000,
    ;
    while depth < size.z
        invariant
            depth <= size.z,
            size == blocks.spec_size(),
            blocks.grid_wf(),
            area == size.x * size.y,
            0 <= area <= 0x1_0000_0000 * 0x1_0000_0000,
            total == side_face_count(blocks, loaded, far, depth as int),
            total <= depth * area,
        decreases size.z - depth,
    {
        let at = SliceView::new(blocks, depth);
        let next = if far {
            SliceView::try_new(blocks, depth as i64 + 1)
        } else {
            SliceView::try_new(blocks, depth as i64 - 1)
        };
        assert(next == spec_neighbor(blocks, depth, far));
        let layer = count_layer_faces(&at, &next, loaded);
        assert(depth * area + area == (depth + 1) * area) by (nonlinear_arith);
        assert((depth + 1) * area <= 0x1_0000_0000 * (0x1_0000_0000 * 0x1_0000_0000)) by (nonlinear_arith)
            requires
                depth + 1 <= 0x1_0000_0000,
                0 <= area <= 0x1_0000_0000 * 0x1_0000_0000,
        ;
        total += layer;
        depth += 1;
    }
    total
}

/// Counts the faces of a grid towards `side` that can be seen, looking at
/// every cell by itself.
pub fn count_visible_faces<G: SizedGrid<MaterialID>>(blocks: &G, loaded: &LoadedMaterials, side: Side) -> (r:
    u128)
    requires
        blocks.grid_wf(),
    ensures
        r == visible_faces(blocks, loaded, side),
        r == super::count::grid_visible_set(blocks, loaded, side).len(),
{
    proof {
        super::count::lemma_visible_faces_in_grid(blocks, loaded, side);
    }
    let primary = if side.is_negative() {
        side.opposite()
    } else {
        side
    };
    let view = SideView::new(blocks, primary);
    count_side_faces(&view, loaded, !side.is_negative())
}

} // verus!
