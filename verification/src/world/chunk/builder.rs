//! Mesh assembly: turns the rectangles of a mesh into vertex and index
//! buffers and a table of the face properties that the vertices use.

use vstd::prelude::*;
use crate::data::{FaceKey, FaceProperties, LoadedMaterials};
use crate::math::side::Side;
use crate::math::vec::{IVec3, UVec2, UVec3};
use crate::world::material::MaterialID;
use super::index_set::{
    face_set_insert_full, face_set_into_vec, face_set_items, face_set_new, lemma_set_push, set_push,
    vertex_set_insert_full, vertex_set_items, vertex_set_new, vertex_set_to_vec, VertexKey, VertexSet,
};
use super::mesh::FaceInfo;
use super::{palette_value, ChunkStore, SizedGrid};

verus! {

/// A vertex before it is given its place in the buffers. Two vertices are
/// the same when all their components are.
#[derive(Clone, Copy, Debug)]
pub struct StagedVertex {
    /// The lattice point of the grid that the vertex lies on.
    pub position: UVec3,
    /// The outward normal of the face that the vertex belongs to.
    pub normal: IVec3,
    /// The place of the vertex on its face: 0 or 1 along each extent.
    pub uv: UVec2,
    /// The palette key of the material and the side that the face looks
    /// towards.
    pub material_side: (u16, Side),
}

impl StagedVertex {
    /// The components as nested tuples.
    pub open spec fn spec_key(self) -> VertexKey {
        (
            (self.position.x, self.position.y, self.position.z),
            (self.normal.x, self.normal.y, self.normal.z),
            (self.uv.x, self.uv.y),
            (self.material_side.0, self.material_side.1.spec_index() as u8),
        )
    }

    /// The vertex with the given components.
    pub open spec fn spec_from_key(k: VertexKey) -> StagedVertex {
        StagedVertex {
            position: UVec3 { x: k.0.0, y: k.0.1, z: k.0.2 },
            normal: IVec3 { x: k.1.0, y: k.1.1, z: k.1.2 },
            uv: UVec2 { x: k.2.0, y: k.2.1 },
            material_side: (k.3.0, Side::spec_from_index(k.3.1 as int)),
        }
    }

    #[verifier::when_used_as_spec(spec_key)]
    pub fn key(self) -> (r: VertexKey)
        ensures
            r == self.spec_key(),
            StagedVertex::spec_from_key(r) == self,
            r.3.1 < 6,
    {
        (
            (self.position.x, self.position.y, self.position.z),
            (self.normal.x, self.normal.y, self.normal.z),
            (self.uv.x, self.uv.y),
            (self.material_side.0, self.material_side.1.as_usize() as u8),
        )
    }

    /// The vertex with the given components; a side index past the last
    /// side stands for the first side.
    #[verifier::when_used_as_spec(spec_from_key)]
    pub fn from_key(k: VertexKey) -> (r: StagedVertex)
        ensures
            r == StagedVertex::spec_from_key(k),
    {
        let side = match Side::from_index(k.3.1 as usize) {
            Some(s) => s,
            None => Side::East,
        };
        StagedVertex {
            position: UVec3 { x: k.0.0, y: k.0.1, z: k.0.2 },
            normal: IVec3 { x: k.1.0, y: k.1.1, z: k.1.2 },
            uv: UVec2 { x: k.2.0, y: k.2.1 },
            material_side: (k.3.0, side),
        }
    }
}

/// The vertices and indices of a mesh under construction, as plain
/// sequences.
pub struct Staged {
    pub vertices: Seq<VertexKey>,
    pub indices: Seq<u32>,
}

/// The place of `item` in `items`: the first position that holds it, or
/// the length when none does.
pub open spec fn position_of<K>(items: Seq<K>, item: K, from: int) -> int
    decreases items.len() - from,
{
    if from < 0 || from >= items.len() {
        items.len() as int
    } else if items[from] == item {
        from
    } else {
        position_of(items, item, from + 1)
    }
}

/// In a sequence without repeated items, the place of an item is the one
/// position that holds it.
pub proof fn lemma_position_of<K>(items: Seq<K>, i: int, from: int)
    requires
        items.no_duplicates(),
        0 <= from <= i < items.len(),
    ensures
        position_of(items, items[i], from) == i,
    decreases items.len() - from,
{
    if from < i {
        lemma_position_of(items, i, from + 1);
    }
}

/// The mesh under construction after one more vertex: the vertex is added
/// to the vertices unless it is among them, and its place among them is
/// added to the indices.
pub open spec fn staged_push(s: Staged, v: VertexKey) -> Staged {
    let vertices = set_push(s.vertices, v);
    Staged { vertices, indices: s.indices.push(position_of(vertices, v, 0) as u32) }
}

/// The six vertices of the two triangles of a face with the given
/// corners: the first triangle over the corners 0, 1 and 2, the second over
/// the corners 1, 3 and 2.
pub open spec fn face_vertices(id: u16, side: Side, corners: [UVec3; 4]) -> Seq<StagedVertex> {
    let n = side.spec_direction();
    seq![
        StagedVertex { position: corners[0], normal: n, uv: UVec2 { x: 0, y: 0 }, material_side: (id, side) },
        StagedVertex { position: corners[1], normal: n, uv: UVec2 { x: 1, y: 0 }, material_side: (id, side) },
        StagedVertex { position: corners[2], normal: n, uv: UVec2 { x: 0, y: 1 }, material_side: (id, side) },
        StagedVertex { position: corners[1], normal: n, uv: UVec2 { x: 1, y: 0 }, material_side: (id, side) },
        StagedVertex { position: corners[3], normal: n, uv: UVec2 { x: 1, y: 1 }, material_side: (id, side) },
        StagedVertex { position: corners[2], normal: n, uv: UVec2 { x: 0, y: 1 }, material_side: (id, side) },
    ]
}

/// The mesh under construction after the first `n` of a list of vertices.
pub open spec fn staged_push_all(s: Staged, vertices: Seq<StagedVertex>, n: int) -> Staged
    decreases n,
{
    if n <= 0 {
        s
    } else {
        staged_push(staged_push_all(s, vertices, n - 1), vertices[n - 1].spec_key())
    }
}

/// Collects the vertices of a mesh without repeating any, and the index of
/// each vertex in the order in which the vertices were pushed.
pub struct MeshBuilder {
    pub vertices: VertexSet,
    pub indices: Vec<u32>,
}

impl MeshBuilder {
    /// The vertices and indices as plain sequences.
    pub open spec fn staged(&self) -> Staged {
        Staged { vertices: vertex_set_items(self.vertices), indices: self.indices@ }
    }

    /// The invariant of the builder: no vertex is held twice, the vertices
    /// can be counted in 32 bits, every vertex names a side, and every
    /// index is the place of a vertex.
    pub open spec fn wf(&self) -> bool {
        let s = self.staged();
        &&& s.vertices.no_duplicates()
        &&& s.vertices.len() <= u32::MAX
        &&& forall|i: int| 0 <= i < s.vertices.len() ==> (#[trigger] s.vertices[i]).3.1 < 6
        &&& forall|i: int| 0 <= i < s.indices.len() ==> #[trigger] s.indices[i] < s.vertices.len()
    }

    /// The builder without vertices.
    pub fn new() -> (r: MeshBuilder)
        ensures
            r.wf(),
            r.staged().vertices.len() == 0,
            r.staged().indices.len() == 0,
    {
        MeshBuilder { vertices: vertex_set_new(), indices: Vec::with_capacity(128) }
    }

    /// Adds a vertex: to the vertices unless it is among them, and its
    /// index to the indices. A new vertex must leave the number of vertices
    /// within 32 bits.
    pub fn push(&mut self, v: StagedVertex)
        requires
            old(self).wf(),
            old(self).staged().vertices.contains(v.spec_key()) || old(self).staged().vertices.len()
                < u32::MAX,
        ensures
            final(self).wf(),
            final(self).staged() == staged_push(old(self).staged(), v.spec_key()),
    {
        let key = v.key();
        proof {
            lemma_set_push(vertex_set_items(self.vertices), key);
        }
        let ghost before = vertex_set_items(self.vertices);
        let (i, _) = vertex_set_insert_full(&mut self.vertices, key);
        proof {
            let after = vertex_set_items(self.vertices);
            lemma_position_of(after, i as int, 0);
            assert forall|j: int| 0 <= j < after.len() implies (#[trigger] after[j]).3.1 < 6 by {
                if j < before.len() {
                    assert(after[j] == before[j]);
                    assert(before[j].3.1 < 6);
                } else {
                    assert(after == before.push(key));
                    assert(after[j] == key);
                }
            }
        }
        self.indices.push(i as u32);
        proof {
            let st = self.staged();
            assert(st.vertices == vertex_set_items(self.vertices));
            assert(st.vertices.no_duplicates());
            assert(st.vertices.len() <= u32::MAX);
            assert forall|j: int| 0 <= j < st.vertices.len() implies (#[trigger] st.vertices[j]).3.1 < 6 by {
            }
            assert forall|j: int| 0 <= j < st.indices.len() implies #[trigger] st.indices[j]
                < st.vertices.len() by {
                if j < old(self).indices@.len() {
                    assert(st.indices[j] == old(self).staged().indices[j]);
                    assert(old(self).staged().indices[j] < old(self).staged().vertices.len());
                } else {
                    assert(st.indices[j] == i as u32);
                }
            }
        }
    }

    /// Adds the two triangles of a face. The builder must have room for
    /// four more vertices.
    pub fn push_face(&mut self, id: u16, side: Side, corners: [UVec3; 4])
        requires
            old(self).wf(),
            old(self).staged().vertices.len() + 4 <= u32::MAX,
        ensures
            final(self).wf(),
            final(self).staged() == staged_push_all(
                old(self).staged(),
                face_vertices(id, side, corners),
                6,
            ),
            final(self).staged().vertices.len() <= old(self).staged().vertices.len() + 4,
    {
        let n = side.normal();
        let ghost all = face_vertices(id, side, corners);
        let ghost start = self.staged();
        let v0 = StagedVertex { position: corners[0], normal: n, uv: UVec2 { x: 0, y: 0 }, material_side: (id, side) };
        let v1 = StagedVertex { position: corners[1], normal: n, uv: UVec2 { x: 1, y: 0 }, material_side: (id, side) };
        let v2 = StagedVertex { position: corners[2], normal: n, uv: UVec2 { x: 0, y: 1 }, material_side: (id, side) };
        let v3 = StagedVertex { position: corners[3], normal: n, uv: UVec2 { x: 1, y: 1 }, material_side: (id, side) };
        proof {
            assert(staged_push_all(start, all, 0) == start);
            lemma_set_push(self.staged().vertices, v0.spec_key());
        }
        self.push(v0);
        assert(self.staged() == staged_push_all(start, all, 1));
        proof {
            lemma_set_push(self.staged().vertices, v1.spec_key());
        }
        self.push(v1);
        assert(self.staged() == staged_push_all(start, all, 2));
        proof {
            lemma_set_push(self.staged().vertices, v2.spec_key());
        }
        self.push(v2);
        assert(self.staged() == staged_push_all(start, all, 3));
        proof {
            lemma_set_push(self.staged().vertices, v1.spec_key());
        }
        self.push(v1);
        assert(self.staged() == staged_push_all(start, all, 4));
        proof {
            lemma_set_push(self.staged().vertices, v3.spec_key());
        }
        self.push(v3);
        assert(self.staged() == staged_push_all(start, all, 5));
        proof {
            lemma_set_push(self.staged().vertices, v2.spec_key());
        }
        self.push(v2);
        assert(self.staged() == staged_push_all(start, all, 6));
    }
}

} // verus!

verus! {

/// The mesh under construction after the two triangles of each of the
/// first `n` faces of a list.
pub open spec fn staged_push_faces(s: Staged, faces: Seq<FaceInfo>, n: int) -> Staged
    decreases n,
{
    if n <= 0 {
        s
    } else {
        staged_push_all(
            staged_push_faces(s, faces, n - 1),
            face_vertices(faces[n - 1].key, faces[n - 1].side, faces[n - 1].face.corners),
            6,
        )
    }
}

impl MeshBuilder {
    /// Adds the two triangles of every face of a list, in the order of the
    /// list. The builder must have room for four more vertices per face.
    pub fn push_faces(&mut self, faces: &Vec<FaceInfo>)
        requires
            old(self).wf(),
            old(self).staged().vertices.len() + 4 * faces@.len() <= u32::MAX,
        ensures
            final(self).wf(),
            final(self).staged() == staged_push_faces(old(self).staged(), faces@, faces@.len() as int),
    {
        let mut i: usize = 0;
        while i < faces.len()
            invariant
                i <= faces@.len(),
                self.wf(),
                self.staged().vertices.len() <= old(self).staged().vertices.len() + 4 * i,
                old(self).staged().vertices.len() + 4 * faces@.len() <= u32::MAX,
                self.staged() == staged_push_faces(old(self).staged(), faces@, i as int),
            decreases faces@.len() - i,
        {
            let f = &faces[i];
            self.push_face(f.key, f.side, f.face.corners);
            i += 1;
        }
    }
}

/// The buffers of a mesh: per vertex its position, normal, texture
/// coordinate and the index of its face properties in the property table,
/// and the indices of the vertices of the triangles, three per triangle.
#[derive(Debug)]
pub struct MeshData {
    pub positions: Vec<UVec3>,
    pub normals: Vec<IVec3>,
    pub uvs: Vec<UVec2>,
    pub face_indices: Vec<u32>,
    pub indices: Vec<u32>,
}

/// The face properties of a vertex: those of the side of the vertex in the
/// record of its material, or the properties of a missing face where the
/// material cannot be found.
pub open spec fn vertex_face(v: VertexKey, chunk: &ChunkStore<MaterialID>, materials: &LoadedMaterials) -> FaceProperties {
    let vertex = StagedVertex::spec_from_key(v);
    match palette_value(chunk.values@, vertex.material_side.0) {
        Some(id) => match materials.spec_get(id@) {
            Some(p) => p.spec_face(vertex.material_side.1),
            None => FaceProperties::spec_missing(),
        },
        None => FaceProperties::spec_missing(),
    }
}

/// True when the palette key of the vertex stands for a material that has
/// a record in the registry.
pub open spec fn vertex_resolves(v: VertexKey, chunk: &ChunkStore<MaterialID>, materials: &LoadedMaterials) -> bool {
    match palette_value(chunk.values@, v.3.0) {
        Some(id) => materials.spec_get(id@).is_some(),
        None => false,
    }
}

/// The property table after the first `n` vertices: it starts with the
/// properties of a missing face, and the properties of each vertex are
/// added at its end unless the table holds them already.
pub open spec fn property_table(
    vertices: Seq<VertexKey>,
    chunk: &ChunkStore<MaterialID>,
    materials: &LoadedMaterials,
    n: int,
) -> Seq<FaceKey>
    decreases n,
{
    if n <= 0 {
        seq![FaceProperties::spec_missing().spec_key()]
    } else {
        set_push(
            property_table(vertices, chunk, materials, n - 1),
            vertex_face(vertices[n - 1], chunk, materials).spec_key(),
        )
    }
}

/// The buffers `data` and the property table `table` are what the mesh
/// under construction `s` is built into.
pub open spec fn built(
    s: Staged,
    chunk: &ChunkStore<MaterialID>,
    materials: &LoadedMaterials,
    data: MeshData,
    table: Seq<FaceProperties>,
) -> bool {
    let n = s.vertices.len() as int;
    let keys = property_table(s.vertices, chunk, materials, n);
    &&& data.indices@ == s.indices
    &&& data.positions@ == Seq::new(n as nat, |i: int| StagedVertex::spec_from_key(s.vertices[i]).position)
    &&& data.normals@ == Seq::new(n as nat, |i: int| StagedVertex::spec_from_key(s.vertices[i]).normal)
    &&& data.uvs@ == Seq::new(n as nat, |i: int| StagedVertex::spec_from_key(s.vertices[i]).uv)
    &&& data.face_indices@ == Seq::new(
        n as nat,
        |i: int| position_of(keys, vertex_face(s.vertices[i], chunk, materials).spec_key(), 0) as u32,
    )
    &&& table == Seq::new(keys.len(), |i: int| FaceProperties::spec_from_key(keys[i]))
}

/// What holds of the property table: it has no entry twice, starts with
/// the properties of a missing face, and holds the properties of each of
/// the first `n` vertices.
pub proof fn lemma_property_table(
    vertices: Seq<VertexKey>,
    chunk: &ChunkStore<MaterialID>,
    materials: &LoadedMaterials,
    n: int,
)
    requires
        0 <= n <= vertices.len(),
    ensures
        property_table(vertices, chunk, materials, n).no_duplicates(),
        1 <= property_table(vertices, chunk, materials, n).len() <= n + 1,
        property_table(vertices, chunk, materials, n)[0] == FaceProperties::spec_missing().spec_key(),
        forall|j: int|
            0 <= j < n ==> property_table(vertices, chunk, materials, n).contains(
                #[trigger] vertex_face(vertices[j], chunk, materials).spec_key(),
            ),
    decreases n,
{
    if n > 0 {
        lemma_property_table(vertices, chunk, materials, n - 1);
        let shorter = property_table(vertices, chunk, materials, n - 1);
        let item = vertex_face(vertices[n - 1], chunk, materials).spec_key();
        lemma_set_push(shorter, item);
        let longer = property_table(vertices, chunk, materials, n);
        assert(longer == set_push(shorter, item));
        assert(longer[0] == shorter[0]);
        assert forall|j: int| 0 <= j < n implies longer.contains(
            #[trigger] vertex_face(vertices[j], chunk, materials).spec_key(),
        ) by {
            if j < n - 1 {
                assert(shorter.contains(vertex_face(vertices[j], chunk, materials).spec_key()));
            }
        }
    } else {
        let t = property_table(vertices, chunk, materials, n);
        assert(t.len() == 1);
    }
}

/// Building is a function of the mesh under construction, the grid and the
/// registry: two results for the same three hold the same buffers and the
/// same property table.
pub proof fn lemma_build_deterministic(
    s: Staged,
    chunk: &ChunkStore<MaterialID>,
    materials: &LoadedMaterials,
    first: MeshData,
    first_table: Seq<FaceProperties>,
    second: MeshData,
    second_table: Seq<FaceProperties>,
)
    requires
        built(s, chunk, materials, first, first_table),
        built(s, chunk, materials, second, second_table),
    ensures
        first.positions@ == second.positions@,
        first.normals@ == second.normals@,
        first.uvs@ == second.uvs@,
        first.face_indices@ == second.face_indices@,
        first.indices@ == second.indices@,
        first_table == second_table,
{
}

/// The face properties of a vertex whose material the registry knows.
fn resolve_face(v: VertexKey, chunk: &ChunkStore<MaterialID>, materials: &LoadedMaterials) -> (r: FaceProperties)
    requires
        chunk.wf(),
    ensures
        r == vertex_face(v, chunk, materials),
{
    let vertex = StagedVertex::from_key(v);
    match chunk.value_of_index(vertex.material_side.0) {
        Some(id) => match materials.get(id) {
            Some(p) => p.face(vertex.material_side.1),
            None => FaceProperties::missing(),
        },
        None => FaceProperties::missing(),
    }
}

impl MeshBuilder {
    /// Builds the buffers of the mesh and the table of the face properties
    /// that its vertices use. The table starts with the properties of a
    /// missing face and holds no properties twice.
    ///
    /// The palette key of every vertex must stand for a material of
    /// `chunk` that has a record in `materials`.
    pub fn build(self, chunk: &ChunkStore<MaterialID>, materials: &LoadedMaterials) -> (r: (
        MeshData,
        Vec<FaceProperties>,
    ))
        requires
            self.wf(),
            chunk.wf(),
            forall|i: int|
                0 <= i < self.staged().vertices.len() ==> vertex_resolves(
                    #[trigger] self.staged().vertices[i],
                    chunk,
                    materials,
                ),
        ensures
            built(self.staged(), chunk, materials, r.0, r.1@),
            r.1@.len() >= 1,
            r.1@[0] == FaceProperties::spec_missing(),
            forall|i: int|
                0 <= i < r.0.face_indices@.len() ==> (#[trigger] r.0.face_indices@[i]) < r.1@.len() && r.1@[r.0.face_indices@[i] as int]
                    == vertex_face(self.staged().vertices[i], chunk, materials),
    {
        let ghost s = self.staged();
        let vertices = vertex_set_to_vec(&self.vertices);
        let n = vertices.len();
        let mut face_properties = face_set_new(n / 8);
        let (_, _) = face_set_insert_full(&mut face_properties, FaceProperties::missing().key());
        assert(face_set_items(face_properties) =~= property_table(s.vertices, chunk, materials, 0));
        let mut positions: Vec<UVec3> = Vec::with_capacity(n);
        let mut normals: Vec<IVec3> = Vec::with_capacity(n);
        let mut uvs: Vec<UVec2> = Vec::with_capacity(n);
        let mut face_indices: Vec<u32> = Vec::with_capacity(n);
        let mut i: usize = 0;
        while i < n
            invariant
                i <= n,
                n == s.vertices.len(),
                n <= u32::MAX,
                vertices@ == s.vertices,
                chunk.wf(),
                face_set_items(face_properties) == property_table(s.vertices, chunk, materials, i as int),
                positions@ == Seq::new(i as nat, |j: int| StagedVertex::spec_from_key(s.vertices[j]).position),
                normals@ == Seq::new(i as nat, |j: int| StagedVertex::spec_from_key(s.vertices[j]).normal),
                uvs@ == Seq::new(i as nat, |j: int| StagedVertex::spec_from_key(s.vertices[j]).uv),
                face_indices@.len() == i,
                forall|j: int|
                    0 <= j < i ==> (#[trigger] face_indices@[j]) < face_set_items(face_properties).len()
                        && face_set_items(face_properties)[face_indices@[j] as int] == vertex_face(
                        s.vertices[j],
                        chunk,
                        materials,
                    ).spec_key(),
            decreases n - i,
        {
            let key = vertices[i];
            let vertex = StagedVertex::from_key(key);
            positions.push(vertex.position);
            normals.push(vertex.normal);
            uvs.push(vertex.uv);
            let face = resolve_face(key, chunk, materials);
            let ghost before = face_set_items(face_properties);
            proof {
                lemma_property_table(s.vertices, chunk, materials, i as int);
                lemma_set_push(before, face.spec_key());
            }
            let (index, _) = face_set_insert_full(&mut face_properties, face.key());
            face_indices.push(index as u32);
            proof {
                let after = face_set_items(face_properties);
                assert(after == property_table(s.vertices, chunk, materials, i + 1));
                assert forall|j: int| 0 <= j < i + 1 implies (#[trigger] face_indices@[j]) < after.len()
                    && after[face_indices@[j] as int] == vertex_face(s.vertices[j], chunk, materials).spec_key() by {
                    if j < i {
                        assert(after[face_indices@[j] as int] == before[face_indices@[j] as int]);
                    }
                }
                assert(positions@ =~= Seq::new(
                    (i + 1) as nat,
                    |j: int| StagedVertex::spec_from_key(s.vertices[j]).position,
                ));
                assert(normals@ =~= Seq::new(
                    (i + 1) as nat,
                    |j: int| StagedVertex::spec_from_key(s.vertices[j]).normal,
                ));
                assert(uvs@ =~= Seq::new((i + 1) as nat, |j: int| StagedVertex::spec_from_key(s.vertices[j]).uv));
            }
            i += 1;
        }
        let ghost keys = face_set_items(face_properties);
        let table_keys = face_set_into_vec(face_properties);
        let mut table: Vec<FaceProperties> = Vec::with_capacity(table_keys.len());
        let mut k: usize = 0;
        while k < table_keys.len()
            invariant
                k <= table_keys@.len(),
                table_keys@ == keys,
                table@ == Seq::new(k as nat, |j: int| FaceProperties::spec_from_key(keys[j])),
            decreases table_keys@.len() - k,
        {
            table.push(FaceProperties::from_key(table_keys[k]));
            assert(table@ =~= Seq::new((k + 1) as nat, |j: int| FaceProperties::spec_from_key(keys[j])));
            k += 1;
        }
        proof {
            lemma_property_table(s.vertices, chunk, materials, n as int);
            assert forall|j: int| 0 <= j < n implies #[trigger] face_indices@[j] == position_of(
                keys,
                vertex_face(s.vertices[j], chunk, materials).spec_key(),
                0,
            ) as u32 by {
                lemma_position_of(keys, face_indices@[j] as int, 0);
            }
            assert(face_indices@ =~= Seq::new(
                n as nat,
                |j: int| position_of(keys, vertex_face(s.vertices[j], chunk, materials).spec_key(), 0) as u32,
            ));
        }
        (MeshData { positions, normals, uvs, face_indices, indices: self.indices }, table)
    }
}

} // verus!

verus! {

impl Default for MeshBuilder {
    fn default() -> (r: MeshBuilder)
        ensures
            r.wf(),
            r.staged().vertices.len() == 0,
            r.staged().indices.len() == 0,
    {
        MeshBuilder::new()
    }
}

} // verus!
