//! The palette grid: a dense 3D array of small indices into a list of
//! distinct values.

use vstd::prelude::*;
use vstd::std_specs::cmp::PartialEqSpec;
use crate::math::side::Side;
use crate::math::vec::UVec3;

pub mod builder;
pub mod consumed;
pub mod count;
pub mod greedy;
pub mod index_set;
pub mod mesh;
pub mod view;

verus! {

/// The type of the entries of a grid: 0 for an empty cell, otherwise one
/// more than a position in the palette.
pub type ChunkValueIndex = u16;

/// The largest number of distinct values one grid can hold.
pub const MAX_CHUNK_VALUES: usize = 65535;

/// The side that a grid faces when it is looked at without rotation.
pub const CHUNK_FRONT: Side = Side::South;

/// The position of the first entry at or after `from` that equals `value`,
/// or the length of `values` when there is none.
pub open spec fn first_match_from<T: PartialEq>(values: Seq<T>, value: T, from: int) -> int
    decreases values.len() - from,
{
    if from < 0 || from >= values.len() {
        values.len() as int
    } else if values[from].eq_spec(&value) {
        from
    } else {
        first_match_from(values, value, from + 1)
    }
}

/// The palette position that `value` occupies or would be given: that of
/// the first equal entry, or the end of the palette.
pub open spec fn palette_slot<T: PartialEq>(values: Seq<T>, value: T) -> int {
    first_match_from(values, value, 0)
}

/// True when no two entries of the palette are equal.
pub open spec fn palette_distinct<T: PartialEq>(values: Seq<T>) -> bool {
    forall|i: int, j: int|
        #![trigger values[i], values[j]]
        0 <= i < j < values.len() ==> !values[i].eq_spec(&values[j])
}

/// The palette after `value` was looked up or inserted.
pub open spec fn palette_with<T: PartialEq>(values: Seq<T>, value: T) -> Seq<T> {
    if palette_slot(values, value) < values.len() {
        values
    } else {
        values.push(value)
    }
}

/// What `first_match_from` returns: a position in range that holds an equal
/// entry with no equal entry between `from` and it, or the length when no
/// entry from `from` on is equal.
pub proof fn lemma_first_match<T: PartialEq>(values: Seq<T>, value: T, from: int)
    requires
        0 <= from <= values.len(),
    ensures
        from <= first_match_from(values, value, from) <= values.len(),
        first_match_from(values, value, from) < values.len() ==> values[first_match_from(
            values,
            value,
            from,
        )].eq_spec(&value),
        forall|j: int|
            from <= j < first_match_from(values, value, from) ==> !(#[trigger] values[j]).eq_spec(
                &value,
            ),
    decreases values.len() - from,
{
    if from < values.len() && !values[from].eq_spec(&value) {
        lemma_first_match(values, value, from + 1);
    }
}

/// The linear position of cell `pos` in a grid of extent `size`: `x` varies
/// fastest, then `z`, then `y`.
pub open spec fn linear_index(size: UVec3, pos: UVec3) -> int {
    pos.x + pos.z * size.x + pos.y * (size.x * size.z)
}

/// The number of cells of a grid of extent `size`.
pub open spec fn cell_count(size: UVec3) -> int {
    size.x * size.y * size.z
}

/// A position inside the grid has a linear position below the cell count.
pub proof fn lemma_linear_index_bound(size: UVec3, pos: UVec3)
    requires
        pos.spec_within(size),
    ensures
        0 <= linear_index(size, pos) < cell_count(size),
        pos.z * size.x + pos.x < size.x * size.z,
        0 <= pos.y * (size.x * size.z),
{
    let sx = size.x as int;
    let sy = size.y as int;
    let sz = size.z as int;
    let x = pos.x as int;
    let y = pos.y as int;
    let z = pos.z as int;
    assert(z * sx + x < sx * sz && 0 <= z * sx) by (nonlinear_arith)
        requires
            0 <= x < sx,
            0 <= z < sz,
    ;
    assert(x + z * sx + y * (sx * sz) < sx * sy * sz && 0 <= y * (sx * sz)) by (nonlinear_arith)
        requires
            0 <= y < sy,
            0 <= x + z * sx < sx * sz,
    ;
}

/// Two positions inside the grid with the same linear position are equal.
pub proof fn lemma_linear_index_injective(size: UVec3, p: UVec3, q: UVec3)
    requires
        p.spec_within(size),
        q.spec_within(size),
        linear_index(size, p) == linear_index(size, q),
    ensures
        p == q,
{
    let sx = size.x as int;
    let sz = size.z as int;
    let a = p.x + p.z * sx;
    let b = q.x + q.z * sx;
    lemma_linear_index_bound(size, p);
    lemma_linear_index_bound(size, q);
    assert(p.y == q.y) by (nonlinear_arith)
        requires
            0 <= a < sx * sz,
            0 <= b < sx * sz,
            a + p.y * (sx * sz) == b + q.y * (sx * sz),
    ;
    assert(a == b);
    assert(p.z == q.z) by (nonlinear_arith)
        requires
            0 <= p.x < sx,
            0 <= q.x < sx,
            p.x + p.z * sx == q.x + q.z * sx,
    ;
}

} // verus!

verus! {

/// The value that a key of a grid stands for: none for key 0 and for keys
/// past the palette.
pub open spec fn palette_value<T>(values: Seq<T>, index: u16) -> Option<T> {
    if 1 <= index <= values.len() {
        Some(values[index - 1])
    } else {
        None
    }
}

/// Read access to a 3D grid of palette keys.
pub trait SizedGrid<T>: Sized {
    /// The invariant of the grid: its palette holds at most 65,535 values
    /// and every key stored in it is 0 or a position of the palette plus 1.
    spec fn grid_wf(&self) -> bool;

    /// The extent of the grid.
    spec fn spec_size(&self) -> UVec3;

    /// The palette.
    spec fn spec_values(&self) -> Seq<T>;

    /// The place of cell `pos` in the underlying storage.
    spec fn spec_position_index(&self, pos: UVec3) -> int;

    /// The key stored for cell `pos`, for positions inside the grid.
    spec fn spec_key(&self, pos: UVec3) -> u16;

    /// What the invariant says about the keys.
    proof fn lemma_grid_wf(&self)
        requires
            self.grid_wf(),
        ensures
            self.spec_values().len() <= MAX_CHUNK_VALUES,
            forall|pos: UVec3|
                pos.spec_within(self.spec_size()) ==> #[trigger] self.spec_key(pos)
                    <= self.spec_values().len(),
    ;

    fn size(&self) -> (r: UVec3)
        requires
            self.grid_wf(),
        ensures
            r == self.spec_size(),
    ;

    fn get_position_index(&self, pos: UVec3) -> (r: usize)
        requires
            self.grid_wf(),
            pos.spec_within(self.spec_size()),
        ensures
            r == self.spec_position_index(pos),
    ;

    /// The key of cell `pos`, or `None` outside the grid.
    fn get_pos_key(&self, pos: UVec3) -> (r: Option<ChunkValueIndex>)
        requires
            self.grid_wf(),
        ensures
            r == (if pos.spec_within(self.spec_size()) {
                Some(self.spec_key(pos))
            } else {
                None
            }),
    ;

    /// The palette, entry by entry.
    fn values(&self) -> (r: Vec<&T>)
        requires
            self.grid_wf(),
        ensures
            r@.len() == self.spec_values().len(),
            forall|i: int| 0 <= i < r@.len() ==> *(#[trigger] r@[i]) == self.spec_values()[i],
    ;

    /// The key of the first palette entry equal to `value`.
    fn index_of_value(&self, value: &T) -> (r: Option<u16>) where T: PartialEq
        requires
            self.grid_wf(),
        ensures
            T::obeys_eq_spec() ==> r == palette_key_of(self.spec_values(), *value),
    ;

    /// The palette entry that `index` stands for.
    fn value_of_index(&self, index: u16) -> (r: Option<&T>)
        requires
            self.grid_wf(),
        ensures
            match r {
                Some(v) => palette_value(self.spec_values(), index) == Some(*v),
                None => palette_value(self.spec_values(), index).is_none(),
            },
    ;

    /// The value of cell `pos`: `None` for an empty cell and outside the
    /// grid.
    fn get_pos_value(&self, pos: UVec3) -> (r: Option<&T>)
        requires
            self.grid_wf(),
        ensures
            match r {
                Some(v) => pos.spec_within(self.spec_size()) && palette_value(
                    self.spec_values(),
                    self.spec_key(pos),
                ) == Some(*v),
                None => !pos.spec_within(self.spec_size()) || palette_value(
                    self.spec_values(),
                    self.spec_key(pos),
                ).is_none(),
            },
    ;
}

/// The value of cell `pos`: `None` for an empty cell and outside the grid.
pub open spec fn grid_pos_value<T, G: SizedGrid<T>>(grid: &G, pos: UVec3) -> Option<T> {
    if pos.spec_within(grid.spec_size()) {
        palette_value(grid.spec_values(), grid.spec_key(pos))
    } else {
        None
    }
}

/// The key under which `value` is found in the palette, if it is there.
pub open spec fn palette_key_of<T: PartialEq>(values: Seq<T>, value: T) -> Option<u16> {
    if palette_slot(values, value) < values.len() {
        Some((palette_slot(values, value) + 1) as u16)
    } else {
        None
    }
}

/// Write access to a 3D grid of palette keys.
pub trait SizedGridMut<T>: SizedGrid<T> {
    /// The key of cell `pos`, open for writing, or `None` outside the
    /// grid. The caller keeps the grid well-formed by writing only 0 or a
    /// position of the palette plus 1.
    fn get_pos_key_mut(&mut self, pos: UVec3) -> (r: Option<&mut ChunkValueIndex>)
        requires
            old(self).grid_wf(),
        ensures
            final(self).spec_size() == old(self).spec_size(),
            final(self).spec_values() == old(self).spec_values(),
            match r {
                Some(k) => *final(k) <= old(self).spec_values().len() ==> final(self).grid_wf(),
                None => final(self).grid_wf(),
            },
            match r {
                Some(k) => pos.spec_within(old(self).spec_size()) && *k == old(self).spec_key(pos)
                    && forall|q: UVec3|
                    q.spec_within(old(self).spec_size()) ==> #[trigger] final(self).spec_key(q) == (if q
                        == pos {
                        *final(k)
                    } else {
                        old(self).spec_key(q)
                    }),
                None => !pos.spec_within(old(self).spec_size()) && forall|q: UVec3|
                    q.spec_within(old(self).spec_size()) ==> #[trigger] final(self).spec_key(q) == old(
                        self,
                    ).spec_key(q),
            },
    ;

    /// The palette, open for writing. The caller keeps the grid
    /// well-formed by leaving at least as many values in the palette as the
    /// keys of the grid refer to, and at most 65,535.
    fn value_list_mut(&mut self) -> (r: &mut Vec<T>)
        requires
            old(self).grid_wf(),
        ensures
            (*r)@ == old(self).spec_values(),
            final(self).spec_values() == (*final(r))@,
            final(self).spec_size() == old(self).spec_size(),
            old(self).spec_values().len() <= (*final(r))@.len() <= MAX_CHUNK_VALUES
                ==> final(self).grid_wf(),
            forall|q: UVec3|
                q.spec_within(old(self).spec_size()) ==> #[trigger] final(self).spec_key(q) == old(
                    self,
                ).spec_key(q),
    ;

    /// Looks `key` up in the palette and appends it when it is not there.
    /// Returns the key under which the value now stands. The palette must
    /// have room for a new value.
    fn insert_key(&mut self, key: T) -> (r: u16) where T: PartialEq
        requires
            old(self).grid_wf(),
            T::obeys_eq_spec(),
            palette_slot(old(self).spec_values(), key) < MAX_CHUNK_VALUES,
        ensures
            final(self).grid_wf(),
            final(self).spec_size() == old(self).spec_size(),
            final(self).spec_values() == palette_with(old(self).spec_values(), key),
            r == palette_slot(old(self).spec_values(), key) + 1,
            1 <= r <= final(self).spec_values().len(),
            palette_distinct(old(self).spec_values()) ==> palette_distinct(final(self).spec_values()),
            forall|q: UVec3|
                q.spec_within(old(self).spec_size()) ==> #[trigger] final(self).spec_key(q) == old(
                    self,
                ).spec_key(q),
    ;

    /// Stores `value` as the key of cell `pos`. Does nothing outside the
    /// grid.
    fn set_pos_id(&mut self, pos: UVec3, value: ChunkValueIndex)
        requires
            old(self).grid_wf(),
            value <= old(self).spec_values().len(),
        ensures
            final(self).grid_wf(),
            final(self).spec_size() == old(self).spec_size(),
            final(self).spec_values() == old(self).spec_values(),
            forall|q: UVec3|
                q.spec_within(old(self).spec_size()) ==> #[trigger] final(self).spec_key(q) == (if q
                    == pos {
                    value
                } else {
                    old(self).spec_key(q)
                }),
    ;

    /// Stores `value` in cell `pos`: `None` empties the cell, `Some` looks
    /// the value up in the palette or appends it. Does nothing outside the
    /// grid. The palette must have room for a value that is new.
    fn set_pos_value(&mut self, pos: UVec3, value: Option<T>) where T: PartialEq
        requires
            old(self).grid_wf(),
            T::obeys_eq_spec(),
            set_has_room(old(self).spec_size(), old(self).spec_values(), pos, value),
        ensures
            final(self).grid_wf(),
            final(self).spec_size() == old(self).spec_size(),
            final(self).spec_values() == values_after_set(
                old(self).spec_size(),
                old(self).spec_values(),
                pos,
                value,
            ),
            palette_distinct(old(self).spec_values()) ==> palette_distinct(final(self).spec_values()),
            forall|q: UVec3|
                q.spec_within(old(self).spec_size()) ==> #[trigger] final(self).spec_key(q) == (if q
                    == pos {
                    key_after_set(old(self).spec_values(), value)
                } else {
                    old(self).spec_key(q)
                }),
    ;

    /// As [`SizedGridMut::set_pos_value`], with a value that is cloned when
    /// it has to be appended to the palette.
    fn set_or_clone_pos_value(&mut self, pos: UVec3, value: Option<&T>) where T: PartialEq + Clone
        requires
            old(self).grid_wf(),
            T::obeys_eq_spec(),
            match value {
                Some(v) => set_has_room(
                    old(self).spec_size(),
                    old(self).spec_values(),
                    pos,
                    Some(*v),
                ),
                None => true,
            },
        ensures
            final(self).grid_wf(),
            final(self).spec_size() == old(self).spec_size(),
            match value {
                Some(v) => {
                    let slot = palette_slot(old(self).spec_values(), *v);
                    let len = old(self).spec_values().len();
                    if pos.spec_within(old(self).spec_size()) && slot == len {
                        &&& final(self).spec_values().len() == len + 1
                        &&& final(self).spec_values().subrange(0, len as int) == old(
                            self,
                        ).spec_values()
                        &&& cloned(*v, final(self).spec_values()[len as int])
                    } else {
                        final(self).spec_values() == old(self).spec_values()
                    }
                },
                None => final(self).spec_values() == old(self).spec_values(),
            },
            forall|q: UVec3|
                q.spec_within(old(self).spec_size()) ==> #[trigger] final(self).spec_key(q) == (if q
                    == pos {
                    match value {
                        Some(v) => key_after_set(old(self).spec_values(), Some(*v)),
                        None => 0u16,
                    }
                } else {
                    old(self).spec_key(q)
                }),
    ;
}

/// Whether storing `value` at `pos` needs no more room than the palette
/// has: a write outside the grid, of `None`, or of a value that the palette
/// holds already needs none.
pub open spec fn set_has_room<T: PartialEq>(
    size: UVec3,
    values: Seq<T>,
    pos: UVec3,
    value: Option<T>,
) -> bool {
    match value {
        Some(v) => pos.spec_within(size) ==> palette_slot(values, v) < MAX_CHUNK_VALUES,
        None => true,
    }
}

/// The palette after `value` was stored at `pos`.
pub open spec fn values_after_set<T: PartialEq>(
    size: UVec3,
    values: Seq<T>,
    pos: UVec3,
    value: Option<T>,
) -> Seq<T> {
    match value {
        Some(v) => if pos.spec_within(size) {
            palette_with(values, v)
        } else {
            values
        },
        None => values,
    }
}

/// The key that a cell holds after `value` was stored in it.
pub open spec fn key_after_set<T: PartialEq>(values: Seq<T>, value: Option<T>) -> u16 {
    match value {
        Some(v) => (palette_slot(values, v) + 1) as u16,
        None => 0u16,
    }
}

} // verus!

verus! {

/// The meshing algorithm of a chunk.
#[derive(Clone, Copy, Debug, PartialEq, Eq, Structural, Hash)]
pub enum Mesher {
    Greedy,
}

impl Default for Mesher {
    fn default() -> (r: Mesher)
        ensures
            r == Mesher::Greedy,
    {
        Mesher::Greedy
    }
}

/// Per-chunk settings.
#[derive(Debug)]
pub struct ChunkInfo {
    pub mesher: Mesher,
}

impl Default for ChunkInfo {
    fn default() -> (r: ChunkInfo)
        ensures
            r.mesher == Mesher::Greedy,
    {
        ChunkInfo { mesher: Mesher::Greedy }
    }
}

/// A 3D grid of values, stored as 16-bit keys into a palette of distinct
/// values. Cells are laid out with `x` varying fastest, then `z`, then `y`,
/// so that horizontal slices are contiguous.
#[derive(Debug)]
pub struct ChunkStore<T> {
    /// The palette: the distinct values of the grid, in order of insertion.
    pub values: Vec<T>,
    /// The extent of the grid.
    pub size: UVec3,
    /// One key per cell: 0 for an empty cell, otherwise one more than a
    /// position in `values`.
    pub content: Vec<ChunkValueIndex>,
}

impl<T> ChunkStore<T> {
    /// The invariant of the store: one key per cell, at most 65,535 palette
    /// entries, and every key 0 or a position of the palette plus 1.
    pub open spec fn wf(&self) -> bool {
        &&& self.content@.len() == cell_count(self.size)
        &&& self.values@.len() <= MAX_CHUNK_VALUES
        &&& forall|i: int|
            0 <= i < self.content@.len() ==> #[trigger] self.content@[i] <= self.values@.len()
    }

    /// True when no two palette entries are equal.
    pub open spec fn spec_deduplicated(&self) -> bool where T: PartialEq {
        palette_distinct(self.values@)
    }

    /// The value of cell `pos`: `None` for an empty cell and outside the
    /// grid.
    pub open spec fn spec_get(&self, pos: UVec3) -> Option<T> {
        if pos.spec_within(self.size) {
            palette_value(self.values@, self.content@[linear_index(self.size, pos)])
        } else {
            None
        }
    }

    /// A grid of the given extent with every cell empty and an empty
    /// palette. The number of cells must fit in `usize`.
    pub fn new(size: UVec3) -> (r: ChunkStore<T>)
        requires
            cell_count(size) <= usize::MAX,
        ensures
            r.wf(),
            r.size == size,
            r.values@.len() == 0,
            r.content@ == Seq::new(cell_count(size) as nat, |i: int| 0u16),
    {
        proof {
            lemma_cell_count_parts(size);
        }
        let count: usize = if size.y == 0 {
            0
        } else {
            let plane: usize = size.x as usize * size.z as usize;
            plane * size.y as usize
        };
        let r = ChunkStore { values: Vec::with_capacity(count / 100), size, content: vec![0u16; count] };
        assert(r.content@ =~= Seq::new(cell_count(size) as nat, |i: int| 0u16));
        r
    }

    /// The grid of extent zero.
    pub fn empty() -> (r: ChunkStore<T>)
        ensures
            r.wf(),
            r.size == (UVec3 { x: 0, y: 0, z: 0 }),
            r.values@.len() == 0,
            r.content@.len() == 0,
    {
        let r = ChunkStore { values: Vec::new(), size: UVec3 { x: 0, y: 0, z: 0 }, content: Vec::new() };
        assert(cell_count(r.size) == 0) by (nonlinear_arith)
            requires
                r.size.x == 0,
                cell_count(r.size) == r.size.x * r.size.y * r.size.z,
        ;
        r
    }

    /// True for a grid of extent zero, and for one that has neither cells
    /// nor palette entries.
    pub fn is_empty(&self) -> (r: bool)
        ensures
            r == (self.size == (UVec3 { x: 0, y: 0, z: 0 }) || (self.values@.len() == 0
                && self.content@.len() == 0)),
    {
        (self.size.x == 0 && self.size.y == 0 && self.size.z == 0) || (self.values.len() == 0
            && self.content.len() == 0)
    }

    /// A grid of the same shape and keys whose palette holds `f` of each
    /// entry of this one. `f` is called once per palette entry, in order.
    pub fn map<V, F: Fn(&T) -> V>(&self, f: F) -> (r: ChunkStore<V>)
        requires
            self.wf(),
            forall|t: &T| f.requires((t,)),
        ensures
            r.wf(),
            r.size == self.size,
            r.content@ == self.content@,
            r.values@.len() == self.values@.len(),
            forall|i: int|
                0 <= i < self.values@.len() ==> f.ensures((&self.values@[i],), #[trigger] r.values@[i]),
    {
        let mut values: Vec<V> = Vec::with_capacity(self.values.len());
        let mut i: usize = 0;
        while i < self.values.len()
            invariant
                i <= self.values@.len(),
                values@.len() == i,
                forall|t: &T| f.requires((t,)),
                forall|j: int| 0 <= j < i ==> f.ensures((&self.values@[j],), #[trigger] values@[j]),
            decreases self.values@.len() - i,
        {
            let v = f(&self.values[i]);
            values.push(v);
            i += 1;
        }
        ChunkStore { values, size: self.size, content: self.content.clone() }
    }

    /// As [`ChunkStore::map`], consuming the grid and its palette entries.
    pub fn map_into<V, F: Fn(T) -> V>(self, f: F) -> (r: ChunkStore<V>)
        requires
            self.wf(),
            forall|t: T| f.requires((t,)),
        ensures
            r.wf(),
            r.size == self.size,
            r.content@ == self.content@,
            r.values@.len() == self.values@.len(),
            forall|i: int|
                0 <= i < self.values@.len() ==> f.ensures((self.values@[i],), #[trigger] r.values@[i]),
    {
        let ChunkStore { values: mut old_values, size, content } = self;
        let ghost before = old_values@;
        let mut reversed: Vec<V> = Vec::with_capacity(old_values.len());
        while old_values.len() > 0
            invariant
                old_values@.len() <= before.len(),
                old_values@ == before.subrange(0, old_values@.len() as int),
                reversed@.len() == before.len() - old_values@.len(),
                forall|t: T| f.requires((t,)),
                forall|j: int|
                    0 <= j < reversed@.len() ==> f.ensures(
                        (before[before.len() - 1 - j],),
                        #[trigger] reversed@[j],
                    ),
            decreases old_values@.len(),
        {
            let t = old_values.pop().unwrap();
            let v = f(t);
            reversed.push(v);
        }
        let mut values: Vec<V> = Vec::with_capacity(reversed.len());
        while reversed.len() > 0
            invariant
                reversed@.len() + values@.len() == before.len(),
                forall|j: int|
                    0 <= j < reversed@.len() ==> f.ensures(
                        (before[before.len() - 1 - j],),
                        #[trigger] reversed@[j],
                    ),
                forall|j: int| 0 <= j < values@.len() ==> f.ensures((before[j],), #[trigger] values@[j]),
            decreases reversed@.len(),
        {
            let v = reversed.pop().unwrap();
            values.push(v);
        }
        ChunkStore { values, size, content }
    }
}

/// The factors of the cell count are products that do not exceed it when
/// the grid has cells, and the count is 0 when an extent is 0.
pub proof fn lemma_cell_count_parts(size: UVec3)
    ensures
        0 <= cell_count(size),
        cell_count(size) == (size.x * size.z) * size.y,
        size.y > 0 ==> size.x * size.z <= cell_count(size),
        size.y == 0 || size.x == 0 || size.z == 0 ==> cell_count(size) == 0,
        0 <= size.x * size.z,
{
    let sx = size.x as int;
    let sy = size.y as int;
    let sz = size.z as int;
    assert(0 <= sx * sy * sz && sx * sy * sz == (sx * sz) * sy && 0 <= sx * sz && (sy > 0 ==> sx * sz
        <= sx * sy * sz) && (sy == 0 || sx == 0 || sz == 0 ==> sx * sy * sz == 0))
        by (nonlinear_arith)
        requires
            0 <= sx,
            0 <= sy,
            0 <= sz,
    ;
}

} // verus!

verus! {

impl<T> SizedGrid<T> for ChunkStore<T> {
    open spec fn grid_wf(&self) -> bool {
        self.wf()
    }

    open spec fn spec_size(&self) -> UVec3 {
        self.size
    }

    open spec fn spec_values(&self) -> Seq<T> {
        self.values@
    }

    open spec fn spec_position_index(&self, pos: UVec3) -> int {
        linear_index(self.size, pos)
    }

    open spec fn spec_key(&self, pos: UVec3) -> u16 {
        self.content@[linear_index(self.size, pos)]
    }

    proof fn lemma_grid_wf(&self) {
        assert forall|pos: UVec3| pos.spec_within(self.spec_size()) implies #[trigger] self.spec_key(
            pos,
        ) <= self.spec_values().len() by {
            lemma_linear_index_bound(self.size, pos);
        }
    }

    fn size(&self) -> (r: UVec3) {
        self.size
    }

    fn get_position_index(&self, pos: UVec3) -> (r: usize) {
        proof {
            lemma_linear_index_bound(self.size, pos);
            lemma_cell_count_parts(self.size);
            assert(self.content.len() == cell_count(self.size));
        }
        let plane: usize = self.size.x as usize * self.size.z as usize;
        let row: usize = pos.z as usize * self.size.x as usize;
        assert(row + pos.x < plane) by (nonlinear_arith)
            requires
                row == pos.z * self.size.x,
                plane == self.size.x * self.size.z,
                pos.x < self.size.x,
                pos.z < self.size.z,
        ;
        assert(pos.y * plane + plane <= cell_count(self.size)) by (nonlinear_arith)
            requires
                plane == self.size.x * self.size.z,
                pos.y < self.size.y,
                cell_count(self.size) == (self.size.x * self.size.z) * self.size.y,
        ;
        pos.x as usize + row + pos.y as usize * plane
    }

    fn get_pos_key(&self, pos: UVec3) -> (r: Option<ChunkValueIndex>) {
        if pos.within(self.size) {
            let i = self.get_position_index(pos);
            proof {
                lemma_linear_index_bound(self.size, pos);
            }
            Some(self.content[i])
        } else {
            None
        }
    }

    fn values(&self) -> (r: Vec<&T>) {
        let mut result: Vec<&T> = Vec::with_capacity(self.values.len());
        let mut i: usize = 0;
        while i < self.values.len()
            invariant
                i <= self.values@.len(),
                result@.len() == i,
                forall|j: int| 0 <= j < i ==> *(#[trigger] result@[j]) == self.values@[j],
            decreases self.values@.len() - i,
        {
            result.push(&self.values[i]);
            i += 1;
        }
        result
    }

    fn index_of_value(&self, value: &T) -> (r: Option<u16>) where T: PartialEq {
        let mut i: usize = 0;
        while i < self.values.len()
            invariant
                i <= self.values@.len() <= MAX_CHUNK_VALUES,
                T::obeys_eq_spec() ==> first_match_from(self.values@, *value, 0) == first_match_from(
                    self.values@,
                    *value,
                    i as int,
                ),
            decreases self.values@.len() - i,
        {
            if self.values[i] == *value {
                return Some((i + 1) as u16);
            }
            i += 1;
        }
        None
    }

    fn value_of_index(&self, index: u16) -> (r: Option<&T>) {
        if index == 0 || index as usize > self.values.len() {
            None
        } else {
            Some(&self.values[index as usize - 1])
        }
    }

    fn get_pos_value(&self, pos: UVec3) -> (r: Option<&T>) {
        match self.get_pos_key(pos) {
            Some(i) => self.value_of_index(i),
            None => None,
        }
    }
}

impl<T> SizedGridMut<T> for ChunkStore<T> {
    fn get_pos_key_mut(&mut self, pos: UVec3) -> (r: Option<&mut ChunkValueIndex>) {
        if pos.within(self.size) {
            let i = self.get_position_index(pos);
            proof {
                lemma_linear_index_bound(self.size, pos);
                assert forall|q: UVec3, v: u16|
                    q.spec_within(self.size) && q != pos implies #[trigger] self.content@.update(
                    linear_index(self.size, pos),
                    v,
                )[linear_index(self.size, q)] == self.content@[linear_index(self.size, q)] by {
                    lemma_linear_index_bound(self.size, q);
                    if linear_index(self.size, q) == linear_index(self.size, pos) {
                        lemma_linear_index_injective(self.size, q, pos);
                    }
                }
            }
            Some(&mut self.content[i])
        } else {
            None
        }
    }

    fn value_list_mut(&mut self) -> (r: &mut Vec<T>) {
        &mut self.values
    }

    fn insert_key(&mut self, key: T) -> (r: u16) where T: PartialEq {
        proof {
            lemma_first_match(self.values@, key, 0);
            lemma_insert_keeps_distinct(self.values@, key);
        }
        match self.index_of_value(&key) {
            Some(k) => k,
            None => {
                self.values.push(key);
                self.values.len() as u16
            },
        }
    }

    fn set_pos_id(&mut self, pos: UVec3, value: ChunkValueIndex) {
        if pos.within(self.size) {
            let i = self.get_position_index(pos);
            proof {
                lemma_linear_index_bound(self.size, pos);
            }
            self.content.set(i, value);
            proof {
                assert forall|q: UVec3| q.spec_within(old(self).spec_size()) implies #[trigger] self.spec_key(
                    q,
                ) == (if q == pos {
                    value
                } else {
                    old(self).spec_key(q)
                }) by {
                    lemma_linear_index_bound(self.size, q);
                    if q != pos && linear_index(self.size, q) == linear_index(self.size, pos) {
                        lemma_linear_index_injective(self.size, q, pos);
                    }
                }
            }
        }
    }

    fn set_pos_value(&mut self, pos: UVec3, value: Option<T>) where T: PartialEq {
        if !pos.within(self.size) {
            return ;
        }
        let i = match value {
            Some(it) => self.insert_key(it),
            None => 0,
        };
        self.set_pos_id(pos, i);
    }

    fn set_or_clone_pos_value(&mut self, pos: UVec3, value: Option<&T>) where T: PartialEq + Clone {
        if !pos.within(self.size) {
            return ;
        }
        let i = match value {
            Some(it) => {
                proof {
                    lemma_first_match(self.values@, *it, 0);
                }
                match self.index_of_value(it) {
                    Some(k) => k,
                    None => {
                        self.values.push(it.clone());
                        assert(self.values@.subrange(0, old(self).values@.len() as int) == old(
                            self,
                        ).values@);
                        self.values.len() as u16
                    },
                }
            },
            None => 0,
        };
        self.set_pos_id(pos, i);
    }
}

} // verus!

verus! {

/// The grid `after` is the grid `before` with `value` stored in cell
/// `pos`: what `set_pos_value` leaves behind.
pub open spec fn stored<T: PartialEq, G: SizedGrid<T>>(
    before: &G,
    after: &G,
    pos: UVec3,
    value: Option<T>,
) -> bool {
    &&& after.spec_size() == before.spec_size()
    &&& after.spec_values() == values_after_set(before.spec_size(), before.spec_values(), pos, value)
    &&& forall|q: UVec3|
        q.spec_within(before.spec_size()) ==> #[trigger] after.spec_key(q) == (if q == pos {
            key_after_set(before.spec_values(), value)
        } else {
            before.spec_key(q)
        })
}

/// A cell gives back what was stored in it: after a value was stored, the
/// value of the cell is that value or a palette entry equal to it, and
/// after `None` was stored the cell is empty. Every other cell has the
/// value it had.
pub proof fn lemma_set_then_get<T: PartialEq, G: SizedGrid<T>>(
    before: &G,
    after: &G,
    pos: UVec3,
    value: Option<T>,
)
    requires
        before.grid_wf(),
        pos.spec_within(before.spec_size()),
        set_has_room(before.spec_size(), before.spec_values(), pos, value),
        stored(before, after, pos, value),
    ensures
        match value {
            Some(v) => grid_pos_value(after, pos) matches Some(w) && (w == v || w.eq_spec(&v)),
            None => grid_pos_value(after, pos).is_none(),
        },
        forall|q: UVec3|
            q != pos ==> #[trigger] grid_pos_value(after, q) == grid_pos_value(before, q),
{
    before.lemma_grid_wf();
    match value {
        Some(v) => {
            lemma_first_match(before.spec_values(), v, 0);
        },
        None => {},
    }
    assert forall|q: UVec3| q != pos implies #[trigger] grid_pos_value(after, q) == grid_pos_value(
        before,
        q,
    ) by {
        if q.spec_within(before.spec_size()) {
            assert(after.spec_key(q) == before.spec_key(q));
            assert(before.spec_key(q) <= before.spec_values().len());
        }
    }
}

/// The first match in a palette with one more entry at its end: where the
/// shorter palette has a match it is the same, and where it has none it is
/// the new entry if that matches.
pub proof fn lemma_first_match_pushed<T: PartialEq>(values: Seq<T>, last: T, value: T, from: int)
    requires
        0 <= from <= values.len(),
    ensures
        first_match_from(values, value, from) < values.len() ==> first_match_from(
            values.push(last),
            value,
            from,
        ) == first_match_from(values, value, from),
        first_match_from(values, value, from) == values.len() && last.eq_spec(&value)
            ==> first_match_from(values.push(last), value, from) == values.len(),
        first_match_from(values, value, from) == values.len() && !last.eq_spec(&value)
            ==> first_match_from(values.push(last), value, from) == values.len() + 1,
    decreases values.len() - from,
{
    let longer = values.push(last);
    if from < values.len() {
        assert(longer[from] == values[from]);
        if !values[from].eq_spec(&value) {
            lemma_first_match_pushed(values, last, value, from + 1);
        }
    } else {
        assert(longer[from] == last);
        assert(first_match_from(longer, value, from + 1) == longer.len());
    }
}

/// Inserting deduplicates: a value that is equal to itself is given the
/// same place and the same key every time it is inserted, and the palette
/// does not grow when the value is inserted again.
pub proof fn lemma_insert_twice<T: PartialEq>(values: Seq<T>, value: T)
    requires
        value.eq_spec(&value),
    ensures
        palette_slot(palette_with(values, value), value) == palette_slot(values, value),
        palette_key_of(palette_with(values, value), value) == Some(
            (palette_slot(values, value) + 1) as u16,
        ),
        palette_with(palette_with(values, value), value) == palette_with(values, value),
{
    lemma_first_match(values, value, 0);
    lemma_first_match_pushed(values, value, value, 0);
}

/// A palette without equal entries stays without them when a value is
/// inserted.
pub proof fn lemma_insert_keeps_distinct<T: PartialEq>(values: Seq<T>, value: T)
    ensures
        palette_distinct(values) ==> palette_distinct(palette_with(values, value)),
{
    lemma_first_match(values, value, 0);
    if palette_distinct(values) && palette_slot(values, value) == values.len() {
        let longer = values.push(value);
        assert forall|i: int, j: int|
            #![trigger longer[i], longer[j]]
            0 <= i < j < longer.len() implies !longer[i].eq_spec(&longer[j]) by {
            if j < values.len() {
                assert(!values[i].eq_spec(&values[j]));
            } else {
                assert(!values[i].eq_spec(&value));
            }
        }
    }
}

} // verus!

verus! {

/// The palette of a grid is full: it holds 65,535 values, and the value to
/// be stored is not among them.
#[derive(Clone, Copy, Debug, PartialEq, Eq, Structural)]
pub struct PaletteFull;

impl<T> ChunkStore<T> {
    /// As `set_pos_value`, for callers that cannot tell whether the palette
    /// has room: stores `value` in cell `pos`, or leaves the grid as it is
    /// and returns an error when the value would be the 65,536th of the
    /// palette.
    pub fn try_set_pos_value(&mut self, pos: UVec3, value: Option<T>) -> (r: Result<(), PaletteFull>) where
        T: PartialEq,

        requires
            old(self).wf(),
            T::obeys_eq_spec(),
        ensures
            final(self).wf(),
            r.is_ok() == set_has_room(old(self).size, old(self).values@, pos, value),
            r.is_ok() ==> stored(old(self), final(self), pos, value),
            r.is_err() ==> *final(self) == *old(self),
    {
        if !pos.within(self.size) {
            return Ok(());
        }
        match value {
            Some(v) => {
                proof {
                    lemma_first_match(self.values@, v, 0);
                }
                if self.index_of_value(&v).is_none() && self.values.len() >= MAX_CHUNK_VALUES {
                    return Err(PaletteFull);
                }
                self.set_pos_value(pos, Some(v));
            },
            None => {
                self.set_pos_value(pos, None);
            },
        }
        Ok(())
    }
}

impl<T: Clone> Clone for ChunkStore<T> {
    fn clone(&self) -> (r: Self)
        ensures
            r.size == self.size,
            r.content@ == self.content@,
            r.values@.len() == self.values@.len(),
            forall|i: int| 0 <= i < self.values@.len() ==> cloned(#[trigger] self.values@[i], r.values@[i]),
    {
        ChunkStore { values: self.values.clone(), size: self.size, content: self.content.clone() }
    }
}

} // verus!

verus! {

impl<T> ChunkStore<T> {
    /// The value of cell `pos`: `None` for an empty cell and outside the
    /// grid.
    pub fn get(&self, pos: UVec3) -> (r: Option<&T>)
        requires
            self.wf(),
        ensures
            match r {
                Some(v) => self.spec_get(pos) == Some(*v),
                None => self.spec_get(pos).is_none(),
            },
    {
        self.get_pos_value(pos)
    }

    /// Stores `value` in cell `pos`: `None` empties the cell, `Some` looks
    /// the value up in the palette or appends it. Does nothing outside the
    /// grid. The palette must have room for a value that is new.
    pub fn set(&mut self, pos: UVec3, value: Option<T>) where T: PartialEq
        requires
            old(self).wf(),
            T::obeys_eq_spec(),
            set_has_room(old(self).size, old(self).values@, pos, value),
        ensures
            final(self).wf(),
            stored(old(self), final(self), pos, value),
            old(self).spec_deduplicated() ==> final(self).spec_deduplicated(),
            final(self).spec_get(pos) == (if pos.spec_within(old(self).size) {
                match value {
                    Some(v) => Some(final(self).values@[palette_slot(old(self).values@, v)]),
                    None => None,
                }
            } else {
                None
            }),
    {
        proof {
            if value.is_some() {
                lemma_first_match(self.values@, value.unwrap(), 0);
            }
        }
        self.set_pos_value(pos, value);
        proof {
            if pos.spec_within(self.size) {
                assert(self.spec_key(pos) == key_after_set(old(self).values@, value));
            }
        }
    }
}

} // verus!
