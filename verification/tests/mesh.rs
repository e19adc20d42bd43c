use voxel_mesher::data::{
    BlockFaces, FaceProperties, LoadedMaterials, MaterialProperties, BITS_HALF, BITS_ONE,
};
use voxel_mesher::math::side::Side;
use voxel_mesher::math::vec::{UVec2, UVec3, UVec4};
use voxel_mesher::world::chunk::mesh::{
    count_visible_faces, greedy_mesh, is_block_face_visible, mesh_inner_slice, mesh_side, FaceInfo,
    MeshFace,
};
use voxel_mesher::world::chunk::view::{SideView, SliceView};
use voxel_mesher::world::chunk::{ChunkStore, SizedGrid, SizedGridMut};
use voxel_mesher::world::material::MaterialID;

fn material(alpha: f32) -> MaterialProperties {
    MaterialProperties {
        color: UVec4::new(BITS_ONE, BITS_HALF, BITS_HALF, alpha.to_bits()),
        faces: None,
    }
}

fn registry() -> LoadedMaterials {
    let mut loaded = LoadedMaterials::new();
    loaded.insert_material(MaterialID::new("common:stone"), material(1.0));
    loaded.insert_material(MaterialID::new("common:dirt"), material(1.0));
    loaded.insert_material(MaterialID::new("common:glass"), material(0.5));
    loaded.insert_material(MaterialID::new("common:water"), material(0.25));
    loaded.insert_material(MaterialID::new("common:ghost"), material(0.0));
    loaded
}

fn filled(size: UVec3, name: &str) -> ChunkStore<MaterialID> {
    let mut store = ChunkStore::new(size);
    for x in 0..size.x {
        for y in 0..size.y {
            for z in 0..size.z {
                store.set_pos_value(UVec3::new(x, y, z), Some(MaterialID::new(name)));
            }
        }
    }
    store
}

fn area(faces: &[FaceInfo]) -> u64 {
    faces.iter().map(|f| f.size.x as u64 * f.size.y as u64).sum()
}

fn total_area(mesh: &[Vec<FaceInfo>; 6]) -> u64 {
    mesh.iter().map(|faces| area(faces)).sum()
}

fn along(p: UVec3, side: Side) -> u32 {
    match side {
        Side::East | Side::West => p.x,
        Side::Top | Side::Bottom => p.y,
        Side::South | Side::North => p.z,
    }
}

fn neighbour(p: UVec3, side: Side, size: UVec3) -> Option<UVec3> {
    let d = side.direction();
    let x = p.x as i64 + d.x as i64;
    let y = p.y as i64 + d.y as i64;
    let z = p.z as i64 + d.z as i64;
    if x < 0 || y < 0 || z < 0 || x >= size.x as i64 || y >= size.y as i64 || z >= size.z as i64 {
        None
    } else {
        Some(UVec3::new(x as u32, y as u32, z as u32))
    }
}

/// Counts the faces that can be seen, cell by cell and side by side, in the
/// coordinates of the grid itself.
fn naive_count(store: &ChunkStore<MaterialID>, loaded: &LoadedMaterials, side: Side) -> u64 {
    let mut count = 0;
    for x in 0..store.size.x {
        for y in 0..store.size.y {
            for z in 0..store.size.z {
                let p = UVec3::new(x, y, z);
                let current = match store.get_pos_value(p) {
                    Some(c) => c,
                    None => continue,
                };
                let props = loaded.get(current).unwrap();
                let above = neighbour(p, side, store.size).and_then(|q| store.get_pos_value(q));
                let hidden = match above.and_then(|a| loaded.get(a).map(|m| (a, m))) {
                    Some((a, m)) => m.color.w == 1.0f32.to_bits() || a == current,
                    None => false,
                };
                let alpha = f32::from_bits(props.color.w);
                if !hidden && alpha != 0.0 {
                    count += 1;
                }
            }
        }
    }
    count
}

fn scrambled(size: UVec3, seed: u64) -> ChunkStore<MaterialID> {
    let names = ["common:stone", "common:dirt", "common:glass", "common:water", "common:ghost"];
    let mut store = ChunkStore::new(size);
    let mut state = seed;
    for x in 0..size.x {
        for y in 0..size.y {
            for z in 0..size.z {
                state = state.wrapping_mul(6364136223846793005).wrapping_add(1442695040888963407);
                let pick = (state >> 33) % 8;
                if pick < 5 {
                    store.set_pos_value(UVec3::new(x, y, z), Some(MaterialID::new(names[pick as usize])));
                }
            }
        }
    }
    store
}

fn snapshot(mesh: &[Vec<FaceInfo>; 6]) -> Vec<Vec<([UVec3; 4], u16, Side, UVec2)>> {
    mesh.iter()
        .map(|faces| faces.iter().map(|f| (f.face.corners, f.key, f.side, f.size)).collect())
        .collect()
}

#[test]
fn single_voxel_emits_six_unit_quads() {
    let store = filled(UVec3::new(1, 1, 1), "common:stone");
    let mesh = greedy_mesh(&store, &registry());
    for side in Side::all() {
        let faces = &mesh[side.as_usize()];
        assert_eq!(faces.len(), 1);
        assert_eq!(faces[0].size, UVec2::new(1, 1));
        assert_eq!(faces[0].key, 1);
        assert_eq!(faces[0].side, side);
        let plane = if side.is_negative() { 0 } else { 1 };
        for c in faces[0].face.corners {
            assert_eq!(along(c, side), plane);
            assert!(c.x <= 1 && c.y <= 1 && c.z <= 1);
        }
    }
    assert_eq!(
        mesh[Side::East.as_usize()][0].face.corners,
        [UVec3::new(1, 1, 0), UVec3::new(1, 1, 1), UVec3::new(1, 0, 0), UVec3::new(1, 0, 1)]
    );
    assert_eq!(
        mesh[Side::West.as_usize()][0].face.corners,
        [UVec3::new(0, 1, 0), UVec3::new(0, 1, 1), UVec3::new(0, 0, 0), UVec3::new(0, 0, 1)]
    );
    assert_eq!(
        mesh[Side::Top.as_usize()][0].face.corners,
        [UVec3::new(1, 1, 0), UVec3::new(0, 1, 0), UVec3::new(1, 1, 1), UVec3::new(0, 1, 1)]
    );
    assert_eq!(
        mesh[Side::North.as_usize()][0].face.corners,
        [UVec3::new(0, 0, 0), UVec3::new(1, 0, 0), UVec3::new(0, 1, 0), UVec3::new(1, 1, 0)]
    );
    assert_eq!(
        mesh[Side::South.as_usize()][0].face.corners,
        [UVec3::new(0, 0, 1), UVec3::new(1, 0, 1), UVec3::new(0, 1, 1), UVec3::new(1, 1, 1)]
    );
}

#[test]
fn uniform_cube_emits_one_quad_per_outer_face() {
    let store = filled(UVec3::new(2, 2, 2), "common:stone");
    let mesh = greedy_mesh(&store, &registry());
    for side in Side::all() {
        let faces = &mesh[side.as_usize()];
        assert_eq!(faces.len(), 1);
        assert_eq!(faces[0].size, UVec2::new(2, 2));
        assert_eq!(faces[0].side, side);
        let plane = if side.is_negative() { 0 } else { 2 };
        for c in faces[0].face.corners {
            assert_eq!(along(c, side), plane);
        }
    }
    assert_eq!(total_area(&mesh), 24);
}

#[test]
fn uniform_box_merges_each_face_into_one_quad() {
    let store = filled(UVec3::new(3, 4, 5), "common:dirt");
    let mesh = greedy_mesh(&store, &registry());
    let expected = [(5, 4), (5, 4), (3, 5), (3, 5), (3, 4), (3, 4)];
    for side in Side::all() {
        let faces = &mesh[side.as_usize()];
        assert_eq!(faces.len(), 1);
        let (rows, cols) = expected[side.as_usize()];
        assert_eq!(faces[0].size, UVec2::new(rows, cols));
    }
    assert_eq!(total_area(&mesh), 2 * (20 + 15 + 12));
}

#[test]
fn merged_area_equals_naive_face_count() {
    let loaded = registry();
    for (i, size) in [UVec3::new(4, 4, 4), UVec3::new(3, 5, 2), UVec3::new(1, 6, 3), UVec3::new(5, 1, 1)]
        .into_iter()
        .enumerate()
    {
        let store = scrambled(size, 17 + i as u64);
        let mesh = greedy_mesh(&store, &loaded);
        for side in Side::all() {
            assert_eq!(area(&mesh[side.as_usize()]), naive_count(&store, &loaded, side));
            assert_eq!(count_visible_faces(&store, &loaded, side), naive_count(&store, &loaded, side) as u128);
        }
    }
}

#[test]
fn counting_faces_cell_by_cell() {
    let loaded = registry();
    let cube = filled(UVec3::new(2, 3, 4), "common:stone");
    assert_eq!(count_visible_faces(&cube, &loaded, Side::East), 12);
    assert_eq!(count_visible_faces(&cube, &loaded, Side::West), 12);
    assert_eq!(count_visible_faces(&cube, &loaded, Side::Top), 8);
    assert_eq!(count_visible_faces(&cube, &loaded, Side::Bottom), 8);
    assert_eq!(count_visible_faces(&cube, &loaded, Side::South), 6);
    assert_eq!(count_visible_faces(&cube, &loaded, Side::North), 6);
    let ghost = filled(UVec3::new(2, 2, 2), "common:ghost");
    assert_eq!(count_visible_faces(&ghost, &loaded, Side::Top), 0);
    let empty: ChunkStore<MaterialID> = ChunkStore::empty();
    assert_eq!(count_visible_faces(&empty, &loaded, Side::North), 0);
    let mut pair = filled(UVec3::new(1, 2, 1), "common:glass");
    pair.set_pos_value(UVec3::new(0, 0, 0), Some(MaterialID::new("common:water")));
    assert_eq!(count_visible_faces(&pair, &loaded, Side::Top), 2);
    assert_eq!(count_visible_faces(&pair, &loaded, Side::Bottom), 2);
    assert_eq!(count_visible_faces(&pair, &loaded, Side::East), 2);
}

#[test]
fn quads_cover_only_cells_of_their_material() {
    let loaded = registry();
    let store = scrambled(UVec3::new(4, 3, 5), 99);
    let mesh = greedy_mesh(&store, &loaded);
    for side in Side::all() {
        let mut covered = std::collections::HashSet::new();
        for f in &mesh[side.as_usize()] {
            assert_eq!(f.side, side);
            let c = f.face.corners;
            let lo = UVec3::new(
                c.iter().map(|p| p.x).min().unwrap(),
                c.iter().map(|p| p.y).min().unwrap(),
                c.iter().map(|p| p.z).min().unwrap(),
            );
            let hi = UVec3::new(
                c.iter().map(|p| p.x).max().unwrap(),
                c.iter().map(|p| p.y).max().unwrap(),
                c.iter().map(|p| p.z).max().unwrap(),
            );
            assert_eq!(along(lo, side), along(hi, side));
            let extent = (hi.x - lo.x).max(1) as u64 * (hi.y - lo.y).max(1) as u64
                * (hi.z - lo.z).max(1) as u64;
            assert_eq!(extent, f.size.x as u64 * f.size.y as u64);
            let back = if side.is_negative() { 0 } else { 1 };
            for x in lo.x..hi.x.max(lo.x + 1) {
                for y in lo.y..hi.y.max(lo.y + 1) {
                    for z in lo.z..hi.z.max(lo.z + 1) {
                        let cell = match side {
                            Side::East | Side::West => UVec3::new(x - back, y, z),
                            Side::Top | Side::Bottom => UVec3::new(x, y - back, z),
                            Side::South | Side::North => UVec3::new(x, y, z - back),
                        };
                        assert_eq!(store.get_pos_key(cell), Some(f.key));
                        assert!(covered.insert((cell.x, cell.y, cell.z)));
                    }
                }
            }
        }
        assert_eq!(covered.len() as u64, naive_count(&store, &loaded, side));
    }
}

#[test]
fn meshing_twice_gives_identical_output() {
    let loaded = registry();
    let store = scrambled(UVec3::new(4, 4, 4), 5);
    let first = greedy_mesh(&store, &loaded);
    let second = greedy_mesh(&store, &loaded);
    assert_eq!(snapshot(&first), snapshot(&second));
    assert!(total_area(&first) > 0);
}

#[test]
fn width_grows_before_height() {
    let mut store = filled(UVec3::new(3, 3, 1), "common:stone");
    store.set_pos_value(UVec3::new(0, 2, 0), None);
    let loaded = registry();
    let (near, far) = mesh_side(&store, &loaded, Side::South);
    let sizes: Vec<(UVec2, [UVec3; 4])> = near.iter().map(|f| (f.size, f.face.corners)).collect();
    assert_eq!(
        sizes,
        vec![
            (
                UVec2::new(3, 2),
                [UVec3::new(0, 0, 0), UVec3::new(3, 0, 0), UVec3::new(0, 2, 0), UVec3::new(3, 2, 0)]
            ),
            (
                UVec2::new(2, 1),
                [UVec3::new(1, 2, 0), UVec3::new(3, 2, 0), UVec3::new(1, 3, 0), UVec3::new(3, 3, 0)]
            ),
        ]
    );
    assert!(near.iter().all(|f| f.side == Side::North));
    assert_eq!(far.len(), 2);
    assert!(far.iter().all(|f| f.side == Side::South));
    assert!(far.iter().all(|f| f.face.corners.iter().all(|c| c.z == 1)));
}

#[test]
fn rectangles_do_not_overlap_earlier_ones() {
    let mut store: ChunkStore<MaterialID> = ChunkStore::new(UVec3::new(2, 2, 1));
    let stone = MaterialID::new("common:stone");
    store.set_pos_value(UVec3::new(0, 1, 0), Some(stone.clone()));
    store.set_pos_value(UVec3::new(1, 0, 0), Some(stone.clone()));
    store.set_pos_value(UVec3::new(1, 1, 0), Some(stone));
    let (near, _) = mesh_side(&store, &registry(), Side::South);
    let found: Vec<(u32, u32, UVec2)> =
        near.iter().map(|f| (f.face.corners[0].x, f.face.corners[0].y, f.size)).collect();
    assert_eq!(found, vec![(0, 1, UVec2::new(2, 1)), (1, 0, UVec2::new(1, 1))]);
    assert_eq!(area(&near), 3);
}

#[test]
fn different_materials_are_not_merged() {
    let mut store = filled(UVec3::new(2, 1, 1), "common:stone");
    store.set_pos_value(UVec3::new(1, 0, 0), Some(MaterialID::new("common:dirt")));
    let mesh = greedy_mesh(&store, &registry());
    assert_eq!(mesh[Side::Top.as_usize()].len(), 2);
    assert_eq!(mesh[Side::South.as_usize()].len(), 2);
    assert_eq!(mesh[Side::East.as_usize()].len(), 1);
    assert_eq!(mesh[Side::East.as_usize()][0].key, 2);
    assert_eq!(mesh[Side::West.as_usize()].len(), 1);
    assert_eq!(mesh[Side::West.as_usize()][0].key, 1);
    assert_eq!(total_area(&mesh), 10);
}

#[test]
fn opacity_decides_what_is_hidden() {
    let loaded = registry();
    let stone = MaterialID::new("common:stone");
    let glass = MaterialID::new("common:glass");
    let water = MaterialID::new("common:water");
    let ghost = MaterialID::new("common:ghost");
    let unknown = MaterialID::new("common:unknown");
    let props = |id: &MaterialID| *loaded.get(id).unwrap();
    assert!(is_block_face_visible(None, &stone, &props(&stone), &loaded));
    assert!(!is_block_face_visible(Some(&stone), &stone, &props(&stone), &loaded));
    assert!(!is_block_face_visible(Some(&stone), &glass, &props(&glass), &loaded));
    assert!(is_block_face_visible(Some(&glass), &stone, &props(&stone), &loaded));
    assert!(!is_block_face_visible(Some(&glass), &glass, &props(&glass), &loaded));
    assert!(is_block_face_visible(Some(&water), &glass, &props(&glass), &loaded));
    assert!(is_block_face_visible(Some(&ghost), &stone, &props(&stone), &loaded));
    assert!(!is_block_face_visible(None, &ghost, &props(&ghost), &loaded));
    assert!(is_block_face_visible(Some(&unknown), &stone, &props(&stone), &loaded));
    let negative_zero = MaterialProperties { color: UVec4::new(0, 0, 0, (-0.0f32).to_bits()), faces: None };
    assert!(!is_block_face_visible(None, &stone, &negative_zero, &loaded));
}

#[test]
fn glass_on_stone_shows_the_stone_but_not_the_glass_face() {
    let mut store = filled(UVec3::new(1, 2, 1), "common:stone");
    store.set_pos_value(UVec3::new(0, 1, 0), Some(MaterialID::new("common:glass")));
    let mesh = greedy_mesh(&store, &registry());
    let top: Vec<u16> = mesh[Side::Top.as_usize()].iter().map(|f| f.key).collect();
    let bottom: Vec<u16> = mesh[Side::Bottom.as_usize()].iter().map(|f| f.key).collect();
    assert_eq!(top, vec![1, 2]);
    assert_eq!(bottom, vec![1]);
    assert_eq!(mesh[Side::East.as_usize()].len(), 2);
}

#[test]
fn invisible_material_emits_nothing() {
    let store = filled(UVec3::new(2, 2, 2), "common:ghost");
    let mesh = greedy_mesh(&store, &registry());
    assert_eq!(total_area(&mesh), 0);
    assert!(mesh.iter().all(|faces| faces.is_empty()));
}

#[test]
fn empty_and_flat_grids_mesh_to_nothing() {
    let loaded = registry();
    let empty: ChunkStore<MaterialID> = ChunkStore::empty();
    assert!(greedy_mesh(&empty, &loaded).iter().all(|faces| faces.is_empty()));
    let flat: ChunkStore<MaterialID> = ChunkStore::new(UVec3::new(3, 0, 2));
    assert!(greedy_mesh(&flat, &loaded).iter().all(|faces| faces.is_empty()));
    let hollow: ChunkStore<MaterialID> = ChunkStore::new(UVec3::new(3, 3, 3));
    assert!(greedy_mesh(&hollow, &loaded).iter().all(|faces| faces.is_empty()));
}

#[test]
fn bordering_layers_hide_boundary_faces() {
    let loaded = registry();
    let store = filled(UVec3::new(2, 2, 2), "common:stone");
    let other = filled(UVec3::new(2, 2, 2), "common:dirt");
    let glassy = filled(UVec3::new(2, 2, 2), "common:glass");
    let none = None;
    let (near, far) = mesh_inner_slice(&store, &loaded, Side::South, 0, &none, &none);
    assert_eq!(area(&near), 4);
    assert_eq!(area(&far), 0);
    let border = Some(SliceView::new(&other, 1));
    let (near, far) = mesh_inner_slice(&store, &loaded, Side::South, 0, &border, &none);
    assert_eq!(area(&near), 0);
    assert_eq!(area(&far), 0);
    let (near, far) = mesh_inner_slice(&store, &loaded, Side::South, 1, &none, &border);
    assert_eq!(area(&near), 0);
    assert_eq!(area(&far), 0);
    let see_through = Some(SliceView::new(&glassy, 0));
    let (near, far) = mesh_inner_slice(&store, &loaded, Side::South, 1, &none, &see_through);
    assert_eq!(area(&near), 0);
    assert_eq!(area(&far), 4);
    assert_eq!(far[0].side, Side::South);
    assert_eq!(far[0].size, UVec2::new(2, 2));
}

#[test]
fn a_layer_of_a_side_view_is_meshed_in_view_coordinates() {
    let loaded = registry();
    let store = filled(UVec3::new(2, 3, 4), "common:stone");
    let view = SideView::new(&store, Side::East);
    assert_eq!(view.size(), UVec3::new(4, 3, 2));
    let none = None;
    let (near, far) = mesh_inner_slice(&view, &loaded, Side::East, 1, &none, &none);
    assert_eq!(near.len(), 0);
    assert_eq!(far.len(), 1);
    assert_eq!(far[0].size, UVec2::new(4, 3));
    assert_eq!(far[0].side, Side::East);
    assert!(far[0].face.corners.iter().all(|c| c.x == 2));
    assert_eq!(far[0].face.corners[0], UVec3::new(2, 3, 0));
    assert_eq!(far[0].face.corners[3], UVec3::new(2, 0, 4));
}

#[test]
fn face_placement_follows_the_side() {
    let size = UVec3::new(5, 6, 7);
    let at = UVec2::new(1, 2);
    assert_eq!(Side::South.depth_pos(size, 3, at), UVec3::new(1, 2, 3));
    assert_eq!(Side::North.depth_pos(size, 3, at), UVec3::new(4, 2, 4));
    assert_eq!(Side::East.depth_pos(size, 3, at), UVec3::new(3, 4, 1));
    assert_eq!(Side::West.depth_pos(size, 3, at), UVec3::new(2, 4, 6));
    assert_eq!(Side::Top.depth_pos(size, 3, at), UVec3::new(4, 3, 2));
    assert_eq!(Side::Bottom.depth_pos(size, 3, at), UVec3::new(4, 3, 5));
    let face = MeshFace::new(Side::South, UVec3::new(1, 2, 3), size, UVec2::new(2, 3));
    assert_eq!(
        face.corners,
        [UVec3::new(1, 2, 3), UVec3::new(3, 2, 3), UVec3::new(1, 5, 3), UVec3::new(3, 5, 3)]
    );
    let far = MeshFace::new_opposite(Side::South, UVec3::new(1, 2, 3), size, UVec2::new(2, 3));
    assert_eq!(
        far.corners,
        [UVec3::new(1, 2, 4), UVec3::new(3, 2, 4), UVec3::new(1, 5, 4), UVec3::new(3, 5, 4)]
    );
}

#[test]
fn sided_faces_are_resolved_per_side() {
    let uniform = FaceProperties::with_base_color(UVec4::new(1, 2, 3, 4));
    let special = FaceProperties::with_base_color(UVec4::new(9, 9, 9, 9));
    let mut overrides = [None; 6];
    overrides[Side::Top.as_usize()] = Some(special);
    let faces = BlockFaces::Sided { face: uniform, face_override: overrides };
    for side in Side::all() {
        let expected = if side == Side::Top { special } else { uniform };
        assert_eq!(faces.face(side), expected);
    }
    let props = MaterialProperties { color: UVec4::new(7, 7, 7, BITS_ONE), faces: None };
    assert_eq!(props.face(Side::East), FaceProperties::with_base_color(props.color));
}
