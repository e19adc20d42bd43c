//! The faces that can be seen, as a set of cells: what the count of the
//! mesher amounts to in the coordinates of the grid.

use vstd::prelude::*;
use vstd::relations::injective_on;
use vstd::set_lib::{lemma_map_size, lemma_set_disjoint_lens};
use crate::data::LoadedMaterials;
use crate::math::side::Side;
use crate::math::vec::{UVec2, UVec3};
use crate::world::material::MaterialID;
use super::greedy::{grid_count, row_count, shown};
use super::mesh::{
    face_cells, grid_face_key, lemma_view_face_key, side_face_count, spec_face_key, spec_neighbor,
    spec_primary, spec_side_view, spec_slice, visible_faces,
};
use super::view::{
    lemma_inverse_transform, lemma_transform_inverse, spec_view_size, spec_view_transform,
};
use super::SizedGrid;

verus! {

/// True when cell `q` of the grid shows a face towards `side`.
pub open spec fn grid_shows<G: SizedGrid<MaterialID>>(
    blocks: &G,
    loaded: &LoadedMaterials,
    side: Side,
    q: UVec3,
) -> bool {
    q.spec_within(blocks.spec_size()) && grid_face_key(blocks, loaded, q, side) != 0
}

/// The cells of a grid that show a face towards `side`.
pub open spec fn grid_visible_set<G: SizedGrid<MaterialID>>(
    blocks: &G,
    loaded: &LoadedMaterials,
    side: Side,
) -> Set<UVec3> {
    Set::new(|q: UVec3| grid_shows(blocks, loaded, side, q))
}

/// True when cell `p` of a grid shows a face towards the next layer, or
/// towards the layer before.
pub open spec fn layer_shows<G: SizedGrid<MaterialID>>(
    blocks: &G,
    loaded: &LoadedMaterials,
    far: bool,
    p: UVec3,
) -> bool {
    p.spec_within(blocks.spec_size()) && spec_face_key(
        spec_slice(blocks, p.z),
        spec_neighbor(blocks, p.z, far),
        loaded,
        UVec2 { x: p.x, y: p.y },
    ) != 0
}

/// The cells of row `x` of layer `z` before place `n` that show a face.
pub open spec fn row_set<G: SizedGrid<MaterialID>>(
    blocks: &G,
    loaded: &LoadedMaterials,
    far: bool,
    x: int,
    z: int,
    n: int,
) -> Set<UVec3> {
    Set::new(|p: UVec3| p.x == x && p.z == z && p.y < n && layer_shows(blocks, loaded, far, p))
}

/// The cells of the rows before row `m` of layer `z` that show a face.
pub open spec fn layer_set<G: SizedGrid<MaterialID>>(
    blocks: &G,
    loaded: &LoadedMaterials,
    far: bool,
    z: int,
    m: int,
) -> Set<UVec3> {
    Set::new(|p: UVec3| p.z == z && p.x < m && layer_shows(blocks, loaded, far, p))
}

/// The cells of the layers before layer `k` that show a face.
pub open spec fn side_set<G: SizedGrid<MaterialID>>(
    blocks: &G,
    loaded: &LoadedMaterials,
    far: bool,
    k: int,
) -> Set<UVec3> {
    Set::new(|p: UVec3| p.z < k && layer_shows(blocks, loaded, far, p))
}

/// The count of a row is the number of its cells that show a face.
pub proof fn lemma_row_set<G: SizedGrid<MaterialID>>(
    blocks: &G,
    loaded: &LoadedMaterials,
    far: bool,
    x: int,
    z: int,
    n: int,
)
    requires
        0 <= x < blocks.spec_size().x,
        0 <= z < blocks.spec_size().z,
        0 <= n <= blocks.spec_size().y,
    ensures
        row_set(blocks, loaded, far, x, z, n).finite(),
        row_set(blocks, loaded, far, x, z, n).len() == row_count(
            shown(
                face_cells(
                    spec_slice(blocks, z as u32),
                    spec_neighbor(blocks, z as u32, far),
                    loaded,
                ),
            )[x],
            n,
        ),
    decreases n,
{
    let here = row_set(blocks, loaded, far, x, z, n);
    if n == 0 {
        assert(here =~= Set::<UVec3>::empty());
    } else {
        lemma_row_set(blocks, loaded, far, x, z, n - 1);
        let before = row_set(blocks, loaded, far, x, z, n - 1);
        let p = UVec3 { x: x as u32, y: (n - 1) as u32, z: z as u32 };
        if layer_shows(blocks, loaded, far, p) {
            assert(here =~= before.insert(p));
        } else {
            assert(here =~= before);
        }
    }
}

/// The count of the rows of a layer is the number of their cells that show
/// a face.
pub proof fn lemma_layer_set<G: SizedGrid<MaterialID>>(
    blocks: &G,
    loaded: &LoadedMaterials,
    far: bool,
    z: int,
    m: int,
)
    requires
        0 <= z < blocks.spec_size().z,
        0 <= m <= blocks.spec_size().x,
    ensures
        layer_set(blocks, loaded, far, z, m).finite(),
        layer_set(blocks, loaded, far, z, m).len() == grid_count(
            shown(
                face_cells(
                    spec_slice(blocks, z as u32),
                    spec_neighbor(blocks, z as u32, far),
                    loaded,
                ),
            ),
            m,
        ),
    decreases m,
{
    let here = layer_set(blocks, loaded, far, z, m);
    if m == 0 {
        assert(here =~= Set::<UVec3>::empty());
    } else {
        lemma_layer_set(blocks, loaded, far, z, m - 1);
        lemma_row_set(blocks, loaded, far, m - 1, z, blocks.spec_size().y as int);
        let before = layer_set(blocks, loaded, far, z, m - 1);
        let row = row_set(blocks, loaded, far, m - 1, z, blocks.spec_size().y as int);
        assert(here =~= before + row);
        assert(before.disjoint(row));
        lemma_set_disjoint_lens(before, row);
    }
}

/// The count of the layers of a grid is the number of their cells that
/// show a face.
pub proof fn lemma_side_set<G: SizedGrid<MaterialID>>(
    blocks: &G,
    loaded: &LoadedMaterials,
    far: bool,
    k: int,
)
    requires
        0 <= k <= blocks.spec_size().z,
    ensures
        side_set(blocks, loaded, far, k).finite(),
        side_set(blocks, loaded, far, k).len() == side_face_count(blocks, loaded, far, k),
    decreases k,
{
    let here = side_set(blocks, loaded, far, k);
    if k == 0 {
        assert(here =~= Set::<UVec3>::empty());
    } else {
        lemma_side_set(blocks, loaded, far, k - 1);
        lemma_layer_set(blocks, loaded, far, k - 1, blocks.spec_size().x as int);
        let before = side_set(blocks, loaded, far, k - 1);
        let layer = layer_set(blocks, loaded, far, k - 1, blocks.spec_size().x as int);
        assert(here =~= before + layer);
        assert(before.disjoint(layer));
        lemma_set_disjoint_lens(before, layer);
    }
}

/// The count of the mesher is a count of the grid: the number of faces
/// towards `side` that the mesher finds to be seen, layer by layer through
/// its view, is the number of cells of the grid that show a face towards
/// `side`.
pub proof fn lemma_visible_faces_in_grid<G: SizedGrid<MaterialID>>(
    blocks: &G,
    loaded: &LoadedMaterials,
    side: Side,
)
    ensures
        grid_visible_set(blocks, loaded, side).finite(),
        visible_faces(blocks, loaded, side) == grid_visible_set(blocks, loaded, side).len(),
{
    let primary = spec_primary(side);
    let far = !side.spec_is_negative();
    let size = blocks.spec_size();
    let view = spec_side_view(blocks, primary);
    let depth = spec_view_size(primary, size).z as int;
    let transform = spec_view_transform(primary, size);
    let seen = side_set(&view, loaded, far, depth);
    let f = |p: UVec3| transform.spec_transform_position(p);
    let target = grid_visible_set(blocks, loaded, side);
    lemma_side_set(&view, loaded, far, depth);
    assert forall|p: UVec3| seen.contains(p) implies target.contains(#[trigger] f(p)) by {
        lemma_transform_inverse(primary, size, p);
        lemma_view_face_key(blocks, loaded, primary, far, p);
    }
    assert forall|q: UVec3| target.contains(q) implies seen.map(f).contains(q) by {
        let p = transform.spec_inverse_position(q);
        lemma_inverse_transform(primary, size, q);
        lemma_view_face_key(blocks, loaded, primary, far, p);
        assert(seen.contains(p));
        assert(f(p) == q);
    }
    assert(seen.map(f) =~= target);
    assert forall|a: UVec3, b: UVec3|
        seen.contains(a) && seen.contains(b) && #[trigger] f(a) == #[trigger] f(b) implies a == b by {
        lemma_transform_inverse(primary, size, a);
        lemma_transform_inverse(primary, size, b);
    }
    assert(injective_on(f, seen));
    lemma_map_size(seen, target, f);
}

} // verus!

verus! {

/// Merging changes the number of rectangles, never what they cover: the
/// rectangles that the mesh of a grid holds for a side cover as many unit
/// faces as the grid has cells that show a face towards that side.
pub proof fn lemma_mesh_covers_visible_faces<G: SizedGrid<MaterialID>>(
    blocks: &G,
    loaded: &LoadedMaterials,
    side: Side,
)
    ensures
        super::mesh::faces_area(super::mesh::mesh_faces(blocks, loaded, side)) == grid_visible_set(
            blocks,
            loaded,
            side,
        ).len(),
{
    let primary = spec_primary(side);
    super::mesh::lemma_side_area(
        &spec_side_view(blocks, primary),
        loaded,
        primary,
        !side.spec_is_negative(),
        spec_view_size(primary, blocks.spec_size()).z as int,
    );
    lemma_visible_faces_in_grid(blocks, loaded, side);
}

} // verus!
