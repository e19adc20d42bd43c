use voxel_mesher::math::mat::Mat3;
use voxel_mesher::math::side::Side;
use voxel_mesher::math::vec::{IVec3, UVec2, UVec3};
use voxel_mesher::world::chunk::mesh::{MeshingContext, MeshingState};
use voxel_mesher::world::chunk::view::{
    side_view_transforms, view_size, wrapped_rows, SideTransform, SideView, SliceView, SliceViewMut,
};
use voxel_mesher::world::chunk::{ChunkStore, SizedGrid, SizedGridMut, CHUNK_FRONT, MAX_CHUNK_VALUES};

fn numbered(size: UVec3) -> ChunkStore<u32> {
    let mut store = ChunkStore::new(size);
    for x in 0..size.x {
        for y in 0..size.y {
            for z in 0..size.z {
                store.set_pos_value(UVec3::new(x, y, z), Some(x * 100 + y * 10 + z));
            }
        }
    }
    store
}

#[test]
fn inverse_undoes_transform_for_every_side_and_position() {
    let size = UVec3::new(2, 3, 4);
    let store: ChunkStore<u32> = ChunkStore::new(size);
    for side in Side::all() {
        let view = SideView::new(&store, side);
        let vs = view.size();
        assert_eq!(vs.x as u64 * vs.y as u64 * vs.z as u64, 24);
        let mut seen = std::collections::HashSet::new();
        for x in 0..vs.x {
            for y in 0..vs.y {
                for z in 0..vs.z {
                    let p = UVec3::new(x, y, z);
                    let q = view.transform_position(p);
                    assert!(q.x < size.x && q.y < size.y && q.z < size.z);
                    assert_eq!(view.inverse_position(q), p);
                    assert!(seen.insert((q.x, q.y, q.z)));
                }
            }
        }
        for x in 0..size.x {
            for y in 0..size.y {
                for z in 0..size.z {
                    let q = UVec3::new(x, y, z);
                    assert_eq!(view.transform_position(view.inverse_position(q)), q);
                }
            }
        }
    }
}

#[test]
fn depth_of_a_view_runs_along_its_side() {
    let size = UVec3::new(3, 4, 5);
    let store: ChunkStore<u32> = ChunkStore::new(size);
    for side in Side::all() {
        let view = SideView::new(&store, side);
        let d = side.direction();
        let a = view.transform_position(UVec3::new(1, 1, 0));
        let b = view.transform_position(UVec3::new(1, 1, 1));
        assert_eq!(
            (b.x as i64 - a.x as i64, b.y as i64 - a.y as i64, b.z as i64 - a.z as i64),
            (d.x as i64, d.y as i64, d.z as i64)
        );
    }
}

#[test]
fn east_view_maps_positions_as_documented() {
    let store = numbered(UVec3::new(2, 3, 4));
    let view = SideView::new(&store, Side::East);
    assert_eq!(view.size(), UVec3::new(4, 3, 2));
    assert_eq!(view.transform_position(UVec3::new(3, 0, 1)), UVec3::new(1, 2, 3));
    assert_eq!(view.get_pos_value(UVec3::new(3, 0, 1)), Some(&123));
    assert_eq!(view.get_pos_value(UVec3::new(0, 2, 0)), Some(&0));
    assert_eq!(view.get_pos_value(UVec3::new(4, 0, 0)), None);
    assert_eq!(view.get_pos_key(UVec3::new(0, 3, 0)), None);
    assert_eq!(view.get_pos_key(UVec3::new(0, 0, 2)), None);
    assert_eq!(view.get_position_index(UVec3::new(3, 0, 1)), store.get_position_index(UVec3::new(1, 2, 3)));
    assert_eq!(view.values().len(), 24);
    assert_eq!(view.index_of_value(&123), store.index_of_value(&123));
    assert_eq!(view.value_of_index(1), Some(&0));
    let top = SideView::new(&store, Side::Top);
    assert_eq!(top.size(), UVec3::new(2, 4, 3));
    assert_eq!(top.transform_position(UVec3::new(0, 3, 2)), UVec3::new(1, 2, 3));
    let south = SideView::new(&store, Side::South);
    assert_eq!(south.transform_position(UVec3::new(1, 2, 3)), UVec3::new(1, 2, 3));
    let north = SideView::new(&store, Side::North);
    assert_eq!(north.transform_position(UVec3::new(0, 2, 0)), UVec3::new(1, 2, 3));
    let west = SideView::new(&store, Side::West);
    assert_eq!(west.transform_position(UVec3::new(0, 0, 0)), UVec3::new(1, 2, 3));
    let bottom = SideView::new(&store, Side::Bottom);
    assert_eq!(bottom.transform_position(UVec3::new(0, 0, 0)), UVec3::new(1, 2, 3));
}

#[test]
fn transforms_clamp_outside_the_grid() {
    let t = SideTransform::for_side(Side::West, UVec3::new(2, 3, 4));
    assert_eq!(t.translation, UVec3::new(1, 2, 3));
    assert_eq!(t.transform_position(UVec3::new(9, 9, 9)), UVec3::new(0, 0, 0));
    assert_eq!(t.inverse_position(UVec3::new(0, 0, 0)), UVec3::new(3, 2, 1));
    let s = SideTransform::for_side(Side::South, UVec3::new(0, 0, 0));
    assert_eq!(s.translation, UVec3::new(0, 0, 0));
    assert_eq!(s.transform_position(UVec3::new(u32::MAX, 1, 2)), UVec3::new(u32::MAX, 1, 2));
    let e = SideTransform::for_side(Side::East, UVec3::new(0, 0, 0));
    assert_eq!(e.translation, UVec3::new(0, 0, 0));
    assert_eq!(e.transform_position(UVec3::new(1, 5, 7)), UVec3::new(7, 0, 1));
    assert_eq!(view_size(Side::Bottom, UVec3::new(1, 2, 3)), UVec3::new(1, 3, 2));
}

#[test]
fn wrapped_rows_marks_the_flipped_rows() {
    let (m, flips) = wrapped_rows(CHUNK_FRONT.rotation_to(Side::East));
    assert_eq!(m, CHUNK_FRONT.rotation_to(Side::East));
    assert_eq!(flips, IVec3::new(0, 1, 0));
    assert_eq!(wrapped_rows(CHUNK_FRONT.rotation_to(Side::West)).1, IVec3::new(1, 1, 1));
    assert_eq!(wrapped_rows(Mat3::identity()).1, IVec3::new(0, 0, 0));
    assert_eq!(wrapped_rows(Mat3::from_diagonal(IVec3::new(-1, 1, -1))).1, IVec3::new(1, 0, 1));
    let table = side_view_transforms();
    for side in Side::all() {
        assert_eq!(table[side.as_usize()], wrapped_rows(CHUNK_FRONT.rotation_to(side)));
    }
    assert_eq!(CHUNK_FRONT, Side::South);
    assert_eq!(MAX_CHUNK_VALUES, 65535);
}

#[test]
fn slices_read_one_layer() {
    let store = numbered(UVec3::new(2, 3, 4));
    let slice = SliceView::new(&store, 2);
    assert_eq!(slice.size(), UVec2::new(2, 3));
    assert_eq!(slice.get_pos_value(UVec2::new(1, 2)), Some(&122));
    assert_eq!(slice.get_pos_value(UVec2::new(2, 0)), None);
    assert_eq!(slice.get_pos_key(UVec2::new(0, 3)), None);
    assert_eq!(slice.get_pos_key(UVec2::new(0, 0)), store.get_pos_key(UVec3::new(0, 0, 2)));
    assert_eq!(slice.get_position_index(UVec2::new(1, 2)), 1 + 2 * 2 + 2 * 8);
    assert_eq!(slice.values().len(), 24);
    assert_eq!(slice.index_of_value(&122), store.index_of_value(&122));
    assert!(SliceView::try_new(&store, 0).is_some());
    assert!(SliceView::try_new(&store, 3).is_some());
    assert!(SliceView::try_new(&store, 4).is_none());
    assert!(SliceView::try_new(&store, -1).is_none());
    assert!(SliceView::try_new(&store, i64::MAX).is_none());
    assert_eq!(SliceView::try_new(&store, 1).unwrap().depth, 1);
    let view = SideView::new(&store, Side::East);
    let layer = SliceView::new(&view, 1);
    assert_eq!(layer.size(), UVec2::new(4, 3));
    assert_eq!(layer.get_pos_value(UVec2::new(3, 0)), Some(&123));
}

#[test]
fn mutable_slices_write_one_layer() {
    let mut store: ChunkStore<u32> = ChunkStore::new(UVec3::new(2, 2, 3));
    {
        let mut slice = SliceViewMut::new(&mut store, 1);
        assert_eq!(slice.size(), UVec2::new(2, 2));
        slice.set_pos_value(UVec2::new(1, 0), Some(40));
        slice.set_pos_value(UVec2::new(5, 0), Some(41));
        slice.set_or_clone_pos_value(UVec2::new(0, 1), Some(&50));
        assert_eq!(slice.insert_key(40), 1);
        assert_eq!(slice.insert_key(60), 3);
        slice.set_pos_id(UVec2::new(1, 1), 3);
        assert_eq!(slice.get_pos_value(UVec2::new(1, 0)), Some(&40));
        assert_eq!(slice.get_pos_key(UVec2::new(0, 1)), Some(2));
        assert_eq!(slice.index_of_value(&50), Some(2));
        assert_eq!(slice.get_values().len(), 3);
        assert_eq!(slice.get_position_index(UVec2::new(1, 1)), 1 + 2 + 6);
    }
    assert_eq!(store.values, vec![40, 50, 60]);
    assert_eq!(store.get_pos_value(UVec3::new(1, 0, 1)), Some(&40));
    assert_eq!(store.get_pos_value(UVec3::new(0, 1, 1)), Some(&50));
    assert_eq!(store.get_pos_value(UVec3::new(1, 1, 1)), Some(&60));
    assert_eq!(store.get_pos_value(UVec3::new(1, 0, 0)), None);
    assert_eq!(store.content.iter().filter(|k| **k != 0).count(), 3);
    assert!(SliceViewMut::try_new(&mut store, 3).is_none());
    assert!(SliceViewMut::try_new(&mut store, 2).is_some());
    {
        let mut slice = SliceViewMut::new(&mut store, 2);
        match slice.get_pos_key_mut(UVec2::new(0, 0)) {
            Some(key) => {
                assert_eq!(*key, 0);
                *key = 2;
            }
            None => panic!("the cell is inside the slice"),
        }
        assert!(slice.get_pos_key_mut(UVec2::new(2, 0)).is_none());
        slice.value_list_mut().push(70);
        assert_eq!(slice.index_of_value(&70), Some(4));
    }
    assert_eq!(store.get_pos_value(UVec3::new(0, 0, 2)), Some(&50));
    assert_eq!(store.values, vec![40, 50, 60, 70]);
    match store.get_pos_key_mut(UVec3::new(1, 1, 1)) {
        Some(key) => {
            assert_eq!(*key, 3);
            *key = 0;
        }
        None => panic!("the cell is inside the grid"),
    }
    assert!(store.get_pos_key_mut(UVec3::new(0, 0, 3)).is_none());
    assert_eq!(store.get_pos_value(UVec3::new(1, 1, 1)), None);
    store.value_list_mut().push(80);
    assert_eq!(store.value_of_index(5), Some(&80));
}

#[test]
fn store_transforms_keep_shape_and_keys() {
    let mut store: ChunkStore<u32> = ChunkStore::new(UVec3::new(2, 1, 2));
    store.set_pos_value(UVec3::new(0, 0, 0), Some(3));
    store.set_pos_value(UVec3::new(1, 0, 1), Some(4));
    store.set_pos_value(UVec3::new(1, 0, 0), Some(3));
    let mapped = store.map(|v| format!("v{}", v));
    assert_eq!(mapped.values, vec!["v3".to_string(), "v4".to_string()]);
    assert_eq!(mapped.content, store.content);
    assert_eq!(mapped.size, store.size);
    let copy = store.clone();
    assert_eq!(copy.values, store.values);
    assert_eq!(copy.content, store.content);
    let doubled = store.map_into(|v| v * 2);
    assert_eq!(doubled.values, vec![6, 8]);
    assert_eq!(doubled.get_pos_value(UVec3::new(1, 0, 1)), Some(&8));
    assert_eq!(doubled.content, vec![1, 1, 0, 2]);
    assert!(!doubled.is_empty());
    assert!(ChunkStore::<u32>::empty().is_empty());
    assert!(ChunkStore::<u32>::new(UVec3::new(0, 0, 0)).is_empty());
    assert!(!ChunkStore::<u32>::new(UVec3::new(1, 1, 1)).is_empty());
    let mut ids: ChunkStore<u32> = ChunkStore::new(UVec3::new(1, 1, 1));
    ids.insert_key(8);
    ids.set_pos_id(UVec3::new(0, 0, 0), 1);
    ids.set_pos_id(UVec3::new(1, 0, 0), 1);
    assert_eq!(ids.content, vec![1]);
    ids.set_or_clone_pos_value(UVec3::new(0, 0, 0), Some(&9));
    assert_eq!(ids.values, vec![8, 9]);
    ids.set_or_clone_pos_value(UVec3::new(0, 0, 0), None);
    assert_eq!(ids.content, vec![0]);
    assert_eq!(ids.values().len(), 2);
    assert_eq!(ids.size(), UVec3::new(1, 1, 1));
}

#[test]
fn meshing_context_reads_bordering_grids() {
    let east = numbered(UVec3::new(2, 2, 2));
    let mut sides: [Option<&ChunkStore<u32>>; 6] = [None; 6];
    sides[Side::East.as_usize()] = Some(&east);
    let context = MeshingContext { sides };
    assert!(context.has(Side::East));
    assert!(!context.has(Side::West));
    assert!(context.get(Side::West).is_none());
    let view = context.get(Side::East).unwrap();
    assert_eq!(view.side, Side::West);
    assert_eq!(view.transform_position(UVec3::new(0, 0, 0)), UVec3::new(1, 1, 1));
    assert_eq!(context.get_entry(Side::East, UVec2::new(0, 0)), Some(&111));
    assert_eq!(context.get_entry(Side::East, UVec2::new(1, 1)), Some(&100));
    assert_eq!(context.get_entry(Side::East, UVec2::new(2, 0)), None);
    assert_eq!(context.get_entry(Side::Top, UVec2::new(0, 0)), None);
    let mut state = MeshingState::default();
    assert!(state.invalidated.is_empty());
    assert!(!state.meshed_internals);
    state.mark_dirty(UVec3::new(1, 2, 3));
    state.mark_dirty(UVec3::new(4, 5, 6));
    assert_eq!(state.invalidated, vec![UVec3::new(1, 2, 3), UVec3::new(4, 5, 6)]);
    assert_eq!(state.meshed_sides, [false; 6]);
}
