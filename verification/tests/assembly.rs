use voxel_mesher::data::{
    BlockFaces, FaceProperties, LoadedMaterials, MaterialProperties, BITS_HALF, BITS_ONE,
};
use voxel_mesher::math::side::Side;
use voxel_mesher::math::vec::{IVec3, UVec2, UVec3, UVec4};
use voxel_mesher::world::chunk::builder::{MeshBuilder, StagedVertex};
use voxel_mesher::world::chunk::mesh::greedy_mesh;
use voxel_mesher::world::chunk::{ChunkStore, SizedGridMut};
use voxel_mesher::world::material::MaterialID;

fn opaque(r: u32) -> MaterialProperties {
    MaterialProperties { color: UVec4::new(r, BITS_HALF, BITS_HALF, BITS_ONE), faces: None }
}

fn vertex(x: u32, y: u32, z: u32, u: u32, v: u32, id: u16, side: Side) -> StagedVertex {
    StagedVertex {
        position: UVec3::new(x, y, z),
        normal: side.normal(),
        uv: UVec2::new(u, v),
        material_side: (id, side),
    }
}

fn mesh_of(store: &ChunkStore<MaterialID>, loaded: &LoadedMaterials) -> MeshBuilder {
    let mesh = greedy_mesh(store, loaded);
    let mut builder = MeshBuilder::new();
    for faces in mesh.iter() {
        builder.push_faces(faces);
    }
    builder
}

#[test]
fn pushing_a_vertex_twice_shares_its_index() {
    let mut builder = MeshBuilder::new();
    builder.push(vertex(0, 0, 0, 0, 0, 1, Side::Top));
    builder.push(vertex(1, 0, 0, 1, 0, 1, Side::Top));
    builder.push(vertex(0, 0, 0, 0, 0, 1, Side::Top));
    builder.push(vertex(0, 0, 0, 0, 0, 2, Side::Top));
    builder.push(vertex(0, 0, 0, 0, 0, 1, Side::Bottom));
    builder.push(vertex(1, 0, 0, 1, 0, 1, Side::Top));
    assert_eq!(builder.indices, vec![0, 1, 0, 2, 3, 1]);
    assert_eq!(builder.vertices.len(), 4);
    let first = builder.vertices.get_index(0).copied().unwrap();
    assert_eq!(first, ((0, 0, 0), (0, 1, 0), (0, 0), (1, 2)));
    let fourth = builder.vertices.get_index(3).copied().unwrap();
    assert_eq!(fourth, ((0, 0, 0), (0, -1, 0), (0, 0), (1, 3)));
}

#[test]
fn vertex_keys_round_trip() {
    let v = vertex(4, 5, 6, 1, 0, 77, Side::North);
    let key = v.key();
    assert_eq!(key, ((4, 5, 6), (0, 0, -1), (1, 0), (77, 5)));
    let back = StagedVertex::from_key(key);
    assert_eq!(back.position, v.position);
    assert_eq!(back.normal, IVec3::new(0, 0, -1));
    assert_eq!(back.uv, v.uv);
    assert_eq!(back.material_side, (77, Side::North));
}

#[test]
fn a_face_becomes_two_triangles_with_shared_corners() {
    let mut builder = MeshBuilder::new();
    let corners = [UVec3::new(0, 0, 0), UVec3::new(2, 0, 0), UVec3::new(0, 3, 0), UVec3::new(2, 3, 0)];
    builder.push_face(7, Side::North, corners);
    assert_eq!(builder.indices, vec![0, 1, 2, 1, 3, 2]);
    assert_eq!(builder.vertices.len(), 4);
    let keys: Vec<_> = builder.vertices.iter().copied().collect();
    assert_eq!(
        keys,
        vec![
            ((0, 0, 0), (0, 0, -1), (0, 0), (7, 5)),
            ((2, 0, 0), (0, 0, -1), (1, 0), (7, 5)),
            ((0, 3, 0), (0, 0, -1), (0, 1), (7, 5)),
            ((2, 3, 0), (0, 0, -1), (1, 1), (7, 5)),
        ]
    );
    builder.push_face(7, Side::North, corners);
    assert_eq!(builder.vertices.len(), 4);
    assert_eq!(builder.indices, vec![0, 1, 2, 1, 3, 2, 0, 1, 2, 1, 3, 2]);
}

#[test]
fn building_a_single_voxel() {
    let mut loaded = LoadedMaterials::new();
    let stone = MaterialID::new("common:stone");
    loaded.insert_material(stone.clone(), opaque(42));
    let mut store = ChunkStore::new(UVec3::new(1, 1, 1));
    store.set_pos_value(UVec3::new(0, 0, 0), Some(stone));
    let (data, table) = mesh_of(&store, &loaded).build(&store, &loaded);
    assert_eq!(data.positions.len(), 24);
    assert_eq!(data.normals.len(), 24);
    assert_eq!(data.uvs.len(), 24);
    assert_eq!(data.face_indices, vec![1; 24]);
    assert_eq!(data.indices.len(), 36);
    assert_eq!(&data.indices[0..6], &[0, 1, 2, 1, 3, 2]);
    assert_eq!(&data.indices[30..36], &[20, 21, 22, 21, 23, 22]);
    assert_eq!(table.len(), 2);
    assert_eq!(table[0], FaceProperties::missing());
    assert_eq!(table[1], FaceProperties::with_base_color(UVec4::new(42, BITS_HALF, BITS_HALF, BITS_ONE)));
    assert_eq!(data.normals[0], IVec3::new(1, 0, 0));
    assert_eq!(data.positions[0], UVec3::new(1, 1, 0));
    assert_eq!(data.uvs[0], UVec2::new(0, 0));
    assert_eq!(data.uvs[3], UVec2::new(1, 1));
    assert_eq!(data.normals[23], IVec3::new(0, 0, -1));
}

#[test]
fn top_override_gets_its_own_property_index() {
    let uniform = FaceProperties::with_base_color(UVec4::new(1, 1, 1, BITS_ONE));
    let special = FaceProperties::with_base_color(UVec4::new(2, 2, 2, BITS_ONE));
    let mut overrides = [None; 6];
    overrides[Side::Top.as_usize()] = Some(special);
    let grass = MaterialID::new("common:grass");
    let mut loaded = LoadedMaterials::new();
    loaded.insert_material(
        grass.clone(),
        MaterialProperties {
            color: UVec4::new(0, 0, 0, BITS_ONE),
            faces: Some(BlockFaces::Sided { face: uniform, face_override: overrides }),
        },
    );
    let mut store = ChunkStore::new(UVec3::new(2, 2, 2));
    for x in 0..2 {
        for y in 0..2 {
            for z in 0..2 {
                store.set_pos_value(UVec3::new(x, y, z), Some(grass.clone()));
            }
        }
    }
    let (data, table) = mesh_of(&store, &loaded).build(&store, &loaded);
    assert_eq!(table, vec![FaceProperties::missing(), uniform, special]);
    assert_eq!(data.positions.len(), 24);
    for i in 0..data.positions.len() {
        if data.normals[i] == IVec3::new(0, 1, 0) {
            assert_eq!(data.face_indices[i], 2);
            assert_eq!(data.positions[i].y, 2);
        } else {
            assert_eq!(data.face_indices[i], 1);
        }
    }
    assert_eq!(data.face_indices.iter().filter(|i| **i == 2).count(), 4);
}

#[test]
fn equal_face_properties_share_a_table_entry() {
    let mut loaded = LoadedMaterials::new();
    let a = MaterialID::new("a");
    let b = MaterialID::new("b");
    let c = MaterialID::new("c");
    loaded.insert_material(a.clone(), opaque(5));
    loaded.insert_material(b.clone(), opaque(5));
    loaded.insert_material(c.clone(), opaque(6));
    let mut store = ChunkStore::new(UVec3::new(3, 1, 1));
    store.set_pos_value(UVec3::new(0, 0, 0), Some(a));
    store.set_pos_value(UVec3::new(1, 0, 0), Some(b));
    store.set_pos_value(UVec3::new(2, 0, 0), Some(c));
    let (data, table) = mesh_of(&store, &loaded).build(&store, &loaded);
    assert_eq!(table.len(), 3);
    assert_eq!(table[1].base_color.x, 6);
    assert_eq!(table[2].base_color.x, 5);
    assert_eq!(&data.face_indices[0..4], &[1, 1, 1, 1]);
    assert_eq!(&data.face_indices[4..8], &[2, 2, 2, 2]);
    assert!(data.face_indices.iter().all(|i| *i == 1 || *i == 2));
    assert_eq!(data.indices.len() % 3, 0);
    assert!(data.indices.iter().all(|i| (*i as usize) < data.positions.len()));
}

#[test]
fn building_twice_gives_identical_buffers() {
    let mut loaded = LoadedMaterials::new();
    let stone = MaterialID::new("common:stone");
    let dirt = MaterialID::new("common:dirt");
    loaded.insert_material(stone.clone(), opaque(1));
    loaded.insert_material(dirt.clone(), opaque(2));
    let mut store = ChunkStore::new(UVec3::new(3, 3, 3));
    for x in 0..3 {
        for y in 0..3 {
            for z in 0..3 {
                let id = if (x + y + z) % 2 == 0 { stone.clone() } else { dirt.clone() };
                if (x, y, z) != (1, 1, 1) {
                    store.set_pos_value(UVec3::new(x, y, z), Some(id));
                }
            }
        }
    }
    let (first, first_table) = mesh_of(&store, &loaded).build(&store, &loaded);
    let (second, second_table) = mesh_of(&store, &loaded).build(&store, &loaded);
    assert_eq!(first.positions, second.positions);
    assert_eq!(first.normals, second.normals);
    assert_eq!(first.uvs, second.uvs);
    assert_eq!(first.face_indices, second.face_indices);
    assert_eq!(first.indices, second.indices);
    assert_eq!(first_table, second_table);
    assert_eq!(first_table.len(), 3);
}

#[test]
fn an_empty_builder_builds_the_reserved_entry_only() {
    let loaded = LoadedMaterials::new();
    let store: ChunkStore<MaterialID> = ChunkStore::empty();
    let (data, table) = MeshBuilder::new().build(&store, &loaded);
    assert!(MeshBuilder::default().vertices.is_empty());
    assert!(MeshBuilder::default().indices.is_empty());
    assert!(data.positions.is_empty());
    assert!(data.indices.is_empty());
    assert_eq!(table, vec![FaceProperties::missing()]);
}

#[test]
fn default_and_missing_face_properties_have_the_documented_values() {
    let d = FaceProperties::default();
    assert_eq!(d.base_color, UVec4::new(1.0f32.to_bits(), 1.0f32.to_bits(), 1.0f32.to_bits(), 1.0f32.to_bits()));
    assert_eq!(d.emissive_color, UVec4::new(0, 0, 0, 1.0f32.to_bits()));
    assert_eq!(d.uv, UVec2::new(0, 0));
    assert_eq!((d.roughness, d.metallic, d.reflectance), (0.5f32.to_bits(), 0.5f32.to_bits(), 0.5f32.to_bits()));
    let m = FaceProperties::missing();
    assert_eq!(
        m.base_color,
        UVec4::new(0.86f32.to_bits(), 0.08f32.to_bits(), 0.24f32.to_bits(), 1.0f32.to_bits())
    );
    assert_eq!(m.emissive_color, UVec4::new(0, 0, 0, 1.0f32.to_bits()));
    assert_eq!((m.roughness, m.metallic, m.reflectance), (0.8f32.to_bits(), 0.2f32.to_bits(), 0.9f32.to_bits()));
    assert_eq!(FaceProperties::from_key(m.key()), m);
    assert_eq!(d.key().3, (BITS_HALF, BITS_HALF, BITS_HALF));
}

#[test]
fn registry_replaces_and_normalises() {
    let mut loaded = LoadedMaterials::new();
    let a = MaterialID::new("pack:a");
    assert!(loaded.get(&a).is_none());
    loaded.insert_material(a.clone(), opaque(3));
    let got = *loaded.get(&a).unwrap();
    assert_eq!(got.color.x, 3);
    match got.faces {
        Some(BlockFaces::Uniform { face }) => {
            assert_eq!(face, FaceProperties::with_base_color(UVec4::new(3, BITS_HALF, BITS_HALF, BITS_ONE)))
        }
        _ => panic!("faces must be uniform"),
    }
    loaded.insert_material(MaterialID::new("pack:b"), opaque(4));
    loaded.insert_material(a.clone(), opaque(9));
    assert_eq!(loaded.properties.len(), 2);
    assert_eq!(loaded.get(&a).unwrap().color.x, 9);
    assert_eq!(loaded.get(&MaterialID::new("pack:b")).unwrap().color.x, 4);
    assert!(loaded.get(&MaterialID::new("pack:c")).is_none());
    assert!(opaque(1).is_opaque());
    assert!(opaque(1).is_drawn());
    let clear = MaterialProperties { color: UVec4::new(0, 0, 0, 0), faces: None };
    assert!(!clear.is_opaque());
    assert!(!clear.is_drawn());
    let d = MaterialProperties::default();
    assert_eq!(d.color, UVec4::new(BITS_ONE, BITS_ONE, BITS_ONE, BITS_ONE));
    assert!(d.faces.is_none());
}
