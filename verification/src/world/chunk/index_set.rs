//! The insertion-ordered sets of `indexmap` that the mesh assembly
//! deduplicates its vertices and face properties with.

use vstd::prelude::*;
use crate::data::FaceKey;

verus! {

/// `indexmap::IndexSet`: a hash set that keeps its items in the order in
/// which they were inserted. Nothing is known of a set but what the
/// functions below say.
#[verifier::external_type_specification]
#[verifier::external_body]
#[verifier::reject_recursive_types(T)]
#[verifier::reject_recursive_types(S)]
pub struct ExIndexSet<T, S>(indexmap::IndexSet<T, S>);

/// `ahash::RandomState`: the hasher of the vertex set.
#[verifier::external_type_specification]
#[verifier::external_body]
pub struct ExAHashState(ahash::RandomState);

/// A vertex as nested tuples of integers: position, normal, texture
/// coordinate, and palette key with side index.
pub type VertexKey = ((u32, u32, u32), (i32, i32, i32), (u32, u32), (u16, u8));

/// The set of the vertices of a mesh.
pub type VertexSet = indexmap::IndexSet<VertexKey, ahash::RandomState>;

/// The set of the face properties of a mesh.
pub type FaceSet = indexmap::IndexSet<FaceKey, std::hash::RandomState>;

/// The items of a vertex set, in the order in which they were inserted.
pub uninterp spec fn vertex_set_items(s: VertexSet) -> Seq<VertexKey>;

/// The items of a face set, in the order in which they were inserted.
pub uninterp spec fn face_set_items(s: FaceSet) -> Seq<FaceKey>;

/// The result of inserting `item` into an insertion-ordered set that holds
/// `items`: the set itself when it holds the item already, else the set
/// with the item at its end.
pub open spec fn set_push<K>(items: Seq<K>, item: K) -> Seq<K> {
    if items.contains(item) {
        items
    } else {
        items.push(item)
    }
}

/// The empty vertex set, made by `IndexSet::with_capacity_and_hasher` with
/// a new `ahash::RandomState`.
#[verifier::external_body]
pub(crate) fn vertex_set_new() -> (r: VertexSet)
    ensures
        vertex_set_items(r) == Seq::<VertexKey>::empty(),
{
    indexmap::IndexSet::with_capacity_and_hasher(64, ahash::RandomState::new())
}

/// `IndexSet::insert_full`: an item that the set holds already stays where
/// it is, and its index and `false` are returned; a new item goes to the
/// end of the set, and its index and `true` are returned.
#[verifier::external_body]
pub(crate) fn vertex_set_insert_full(s: &mut VertexSet, item: VertexKey) -> (r: (usize, bool))
    ensures
        vertex_set_items(*final(s)) == set_push(vertex_set_items(*old(s)), item),
        r.1 == !vertex_set_items(*old(s)).contains(item),
        0 <= r.0 < vertex_set_items(*final(s)).len(),
        vertex_set_items(*final(s))[r.0 as int] == item,
{
    s.insert_full(item)
}

/// The items that `IndexSet::iter` yields: all items, in the order in which
/// they were inserted.
#[verifier::external_body]
pub(crate) fn vertex_set_to_vec(s: &VertexSet) -> (r: Vec<VertexKey>)
    ensures
        r@ == vertex_set_items(*s),
{
    s.iter().copied().collect()
}

/// The empty face set, made by `IndexSet::with_capacity`.
#[verifier::external_body]
pub(crate) fn face_set_new(capacity: usize) -> (r: FaceSet)
    ensures
        face_set_items(r) == Seq::<FaceKey>::empty(),
{
    indexmap::IndexSet::with_capacity(capacity)
}

/// `IndexSet::insert_full`: an item that the set holds already stays where
/// it is, and its index and `false` are returned; a new item goes to the
/// end of the set, and its index and `true` are returned.
#[verifier::external_body]
pub(crate) fn face_set_insert_full(s: &mut FaceSet, item: FaceKey) -> (r: (usize, bool))
    ensures
        face_set_items(*final(s)) == set_push(face_set_items(*old(s)), item),
        r.1 == !face_set_items(*old(s)).contains(item),
        0 <= r.0 < face_set_items(*final(s)).len(),
        face_set_items(*final(s))[r.0 as int] == item,
{
    s.insert_full(item)
}

/// The items that `IndexSet::into_iter` yields: all items, in the order in
/// which they were inserted.
#[verifier::external_body]
pub(crate) fn face_set_into_vec(s: FaceSet) -> (r: Vec<FaceKey>)
    ensures
        r@ == face_set_items(s),
{
    s.into_iter().collect()
}

/// Inserting into a set without repeated items leaves it without repeated
/// items, keeps every item where it is, and makes the set hold the item.
pub proof fn lemma_set_push<K>(items: Seq<K>, item: K)
    requires
        items.no_duplicates(),
    ensures
        set_push(items, item).no_duplicates(),
        set_push(items, item).contains(item),
        items.len() <= set_push(items, item).len() <= items.len() + 1,
        forall|i: int| 0 <= i < items.len() ==> #[trigger] set_push(items, item)[i] == items[i],
        forall|k: K| items.contains(k) ==> set_push(items, item).contains(k),
{
    if items.contains(item) {
    } else {
        let longer = items.push(item);
        assert(longer[items.len() as int] == item);
        assert forall|k: K| items.contains(k) implies longer.contains(k) by {
            let i = choose|i: int| 0 <= i < items.len() && items[i] == k;
            assert(longer[i] == k);
        }
    }
}

} // verus!
