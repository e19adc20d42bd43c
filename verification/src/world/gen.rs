//! Producers of grid contents.

use vstd::prelude::*;
use crate::math::vec::{IVec3, UVec3};
use vstd::std_specs::cmp::PartialEqSpec;
use crate::world::chunk::{palette_slot, ChunkStore, ChunkValueIndex, SizedGrid, SizedGridMut, MAX_CHUNK_VALUES};
use crate::world::material::MaterialID;

verus! {

/// Fills the grid of a chunk.
pub trait TerrainGenerator<T> {
    /// Whether the generator can fill the grid: whether the palette of the
    /// grid has room for what the generator stores.
    spec fn spec_can_generate(&self, blocks: &ChunkStore<T>) -> bool;

    /// Fills the grid of the chunk at `pos`. The grid keeps its extent.
    fn generate(&self, pos: IVec3, blocks: &mut ChunkStore<T>)
        requires
            old(blocks).wf(),
            self.spec_can_generate(old(blocks)),
        ensures
            final(blocks).wf(),
            final(blocks).size == old(blocks).size,
    ;
}

/// How a generator treats what a grid holds already.
#[derive(Clone, Copy, Debug, PartialEq, Eq, Structural)]
pub enum WriteMode {
    /// Write only over existing content
    Color,
    /// Write over any existing content
    Replace,
    /// Add non-destructively to existing content
    Masked,
}

/// Fills every cell with one value.
#[derive(Debug)]
pub struct Fill<T> {
    pub material: T,
}

impl<T: PartialEq + Clone> TerrainGenerator<T> for Fill<T> {
    open spec fn spec_can_generate(&self, blocks: &ChunkStore<T>) -> bool {
        &&& T::obeys_eq_spec()
        &&& palette_slot(blocks.values@, self.material) < MAX_CHUNK_VALUES
    }

    /// Looks the value up in the palette, appends a clone of it when it is
    /// not there, and stores its key in every cell.
    fn generate(&self, pos: IVec3, blocks: &mut ChunkStore<T>)
        ensures
            forall|i: int|
                0 <= i < final(blocks).content@.len() ==> #[trigger] final(blocks).content@[i]
                    == palette_slot(old(blocks).values@, self.material) + 1,
            ({
                let slot = palette_slot(old(blocks).values@, self.material);
                let len = old(blocks).values@.len();
                if slot == len {
                    &&& final(blocks).values@.len() == len + 1
                    &&& final(blocks).values@.subrange(0, len as int) == old(blocks).values@
                    &&& cloned(self.material, final(blocks).values@[len as int])
                } else {
                    final(blocks).values@ == old(blocks).values@
                }
            }),
    {
        proof {
            crate::world::chunk::lemma_first_match(blocks.values@, self.material, 0);
        }
        let id = match blocks.index_of_value(&self.material) {
            Some(k) => k,
            None => {
                blocks.values.push(self.material.clone());
                assert(blocks.values@.subrange(0, old(blocks).values@.len() as int) == old(blocks).values@);
                blocks.values.len() as u16
            },
        };
        fill_keys(blocks, id);
    }
}

/// Stores the key `id` in every cell of the grid.
pub fn fill_keys<T>(blocks: &mut ChunkStore<T>, id: ChunkValueIndex)
    requires
        old(blocks).wf(),
        id <= old(blocks).values@.len(),
    ensures
        final(blocks).wf(),
        final(blocks).size == old(blocks).size,
        final(blocks).values@ == old(blocks).values@,
        forall|i: int| 0 <= i < final(blocks).content@.len() ==> #[trigger] final(blocks).content@[i] == id,
{
    let n = blocks.content.len();
    let mut i: usize = 0;
    while i < n
        invariant
            i <= n,
            n == blocks.content@.len(),
            blocks.content@.len() == old(blocks).content@.len(),
            blocks.size == old(blocks).size,
            blocks.values@ == old(blocks).values@,
            blocks.wf(),
            id <= blocks.values@.len(),
            forall|j: int| 0 <= j < i ==> #[trigger] blocks.content@[j] == id,
        decreases n - i,
    {
        blocks.content.set(i, id);
        i += 1;
    }
}

/// Terrain from layered noise: stone up to the height of the terrain,
/// covered by dirt with grass on top.
#[derive(Clone, Copy, Debug)]
pub struct SimplexChunkGen {
    pub seed: u32,
    /// The number of cells of a column that the cover of dirt and grass
    /// takes.
    pub dirt_height: u8,
}

/// The key that a column of terrain of the given height holds at `y`:
/// stone below the height, then dirt, then one cell of grass as the last
/// cell of the cover, and nothing above.
pub open spec fn column_key(
    y: int,
    height: int,
    dirt_height: int,
    stone: ChunkValueIndex,
    dirt: ChunkValueIndex,
    grass: ChunkValueIndex,
) -> Option<ChunkValueIndex> {
    if y < height {
        Some(stone)
    } else if y < height + dirt_height - 1 {
        Some(dirt)
    } else if y == height + dirt_height - 1 {
        Some(grass)
    } else {
        None
    }
}

impl SimplexChunkGen {
    /// The number of cells that the stone of a column can take at most:
    /// the height of the grid less the cover.
    pub fn max_height(&self, size: UVec3) -> (r: u32)
        ensures
            r == (if size.y >= self.dirt_height {
                size.y - self.dirt_height
            } else {
                0
            }),
    {
        if size.y >= self.dirt_height as u32 {
            size.y - self.dirt_height as u32
        } else {
            0
        }
    }

    /// Fills the column at (`x`, `z`) with terrain of the given height.
    /// Cells above the terrain keep what they hold, and what of the
    /// terrain lies above the grid is left out.
    pub fn fill_column(
        &self,
        blocks: &mut ChunkStore<MaterialID>,
        x: u32,
        z: u32,
        height: u32,
        stone: ChunkValueIndex,
        dirt: ChunkValueIndex,
        grass: ChunkValueIndex,
    )
        requires
            old(blocks).wf(),
            stone <= old(blocks).values@.len(),
            dirt <= old(blocks).values@.len(),
            grass <= old(blocks).values@.len(),
        ensures
            final(blocks).wf(),
            final(blocks).size == old(blocks).size,
            final(blocks).values@ == old(blocks).values@,
            forall|q: UVec3|
                q.spec_within(old(blocks).size) ==> #[trigger] final(blocks).spec_key(q) == (if q.x == x
                    && q.z == z {
                    match column_key(q.y as int, height as int, self.dirt_height as int, stone, dirt, grass) {
                        Some(k) => k,
                        None => old(blocks).spec_key(q),
                    }
                } else {
                    old(blocks).spec_key(q)
                }),
    {
        let top: u64 = height as u64 + self.dirt_height as u64;
        let mut y: u32 = 0;
        while y < blocks.size.y && (y as u64) < top
            invariant
                y <= blocks.size.y,
                top == height + self.dirt_height,
                blocks.wf(),
                blocks.size == old(blocks).size,
                blocks.values@ == old(blocks).values@,
                stone <= blocks.values@.len(),
                dirt <= blocks.values@.len(),
                grass <= blocks.values@.len(),
                forall|q: UVec3|
                    q.spec_within(old(blocks).size) ==> #[trigger] blocks.spec_key(q) == (if q.x == x
                        && q.z == z && q.y < y {
                        match column_key(
                            q.y as int,
                            height as int,
                            self.dirt_height as int,
                            stone,
                            dirt,
                            grass,
                        ) {
                            Some(k) => k,
                            None => old(blocks).spec_key(q),
                        }
                    } else {
                        old(blocks).spec_key(q)
                    }),
            decreases blocks.size.y - y,
        {
            let key = if y < height {
                stone
            } else if (y as u64) + 1 < top {
                dirt
            } else {
                grass
            };
            let ghost before = *blocks;
            blocks.set_pos_id(UVec3 { x, y, z }, key);
            proof {
                assert forall|q: UVec3| q.spec_within(old(blocks).size) implies #[trigger] blocks.spec_key(q)
                    == (if q.x == x && q.z == z && q.y < y + 1 {
                    match column_key(q.y as int, height as int, self.dirt_height as int, stone, dirt, grass) {
                        Some(k) => k,
                        None => old(blocks).spec_key(q),
                    }
                } else {
                    old(blocks).spec_key(q)
                }) by {
                    assert(blocks.spec_key(q) == (if q == (UVec3 { x, y, z }) {
                        key
                    } else {
                        before.spec_key(q)
                    }));
                }
            }
            y += 1;
        }
    }
}

} // verus!
