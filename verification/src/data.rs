//! Material records and the registry that the mesher resolves them from.
//!
//! Every real-valued attribute is held as the IEEE-754 bit pattern of a
//! 32-bit float. Two attribute values are the same when their bit patterns
//! are, which is the equality that the property table is deduplicated by.

use vstd::prelude::*;
use vstd::string::StringExecFns;
use crate::math::side::Side;
use crate::math::vec::{UVec2, UVec4};
use crate::world::material::MaterialID;

verus! {

/// The bit pattern of 1.0.
pub const BITS_ONE: u32 = 0x3F80_0000;

/// The bit pattern of 0.5.
pub const BITS_HALF: u32 = 0x3F00_0000;

/// The bit pattern of 0.0.
pub const BITS_ZERO: u32 = 0;

/// The bit pattern of -0.0, which compares equal to 0.0 as a number.
pub const BITS_NEG_ZERO: u32 = 0x8000_0000;

/// The visual attributes of one face of a material, as bit patterns.
#[derive(Clone, Copy, Debug, PartialEq, Eq, Structural, Hash)]
pub struct FaceProperties {
    /// Red, green, blue and alpha of the base colour.
    pub base_color: UVec4,
    /// The origin of the face in the texture.
    pub uv: UVec2,
    /// Red, green, blue and alpha of the emitted colour.
    pub emissive_color: UVec4,
    pub roughness: u32,
    pub metallic: u32,
    pub reflectance: u32,
}

/// The components of a [`FaceProperties`] as nested tuples of integers, in
/// the order of its fields.
pub type FaceKey = ((u32, u32, u32, u32), (u32, u32), (u32, u32, u32, u32), (u32, u32, u32));

impl FaceProperties {
    /// The attributes that are used where a material names none: white base
    /// colour, black emitted colour, both at full alpha, and 0.5 for
    /// roughness, metallic and reflectance.
    pub open spec fn spec_default() -> FaceProperties {
        FaceProperties {
            base_color: UVec4 { x: BITS_ONE, y: BITS_ONE, z: BITS_ONE, w: BITS_ONE },
            uv: UVec2 { x: 0, y: 0 },
            emissive_color: UVec4 { x: 0, y: 0, z: 0, w: BITS_ONE },
            roughness: BITS_HALF,
            metallic: BITS_HALF,
            reflectance: BITS_HALF,
        }
    }

    /// The attributes that mark a face whose material could not be found:
    /// base colour (0.86, 0.08, 0.24, 1.0), roughness 0.8, metallic 0.2,
    /// reflectance 0.9. They hold the first place of every property table.
    pub open spec fn spec_missing() -> FaceProperties {
        FaceProperties {
            base_color: UVec4 { x: 0x3F5C_28F6, y: 0x3DA3_D70A, z: 0x3E75_C28F, w: BITS_ONE },
            uv: UVec2 { x: 0, y: 0 },
            emissive_color: UVec4 { x: 0, y: 0, z: 0, w: BITS_ONE },
            roughness: 0x3F4C_CCCD,
            metallic: 0x3E4C_CCCD,
            reflectance: 0x3F66_6666,
        }
    }

    /// The components as nested tuples.
    pub open spec fn spec_key(self) -> FaceKey {
        (
            (self.base_color.x, self.base_color.y, self.base_color.z, self.base_color.w),
            (self.uv.x, self.uv.y),
            (
                self.emissive_color.x,
                self.emissive_color.y,
                self.emissive_color.z,
                self.emissive_color.w,
            ),
            (self.roughness, self.metallic, self.reflectance),
        )
    }

    /// The attributes with the given components.
    pub open spec fn spec_from_key(k: FaceKey) -> FaceProperties {
        FaceProperties {
            base_color: UVec4 { x: k.0.0, y: k.0.1, z: k.0.2, w: k.0.3 },
            uv: UVec2 { x: k.1.0, y: k.1.1 },
            emissive_color: UVec4 { x: k.2.0, y: k.2.1, z: k.2.2, w: k.2.3 },
            roughness: k.3.0,
            metallic: k.3.1,
            reflectance: k.3.2,
        }
    }

    pub fn missing() -> (r: FaceProperties)
        ensures
            r == FaceProperties::spec_missing(),
    {
        FaceProperties {
            base_color: UVec4 { x: 0x3F5C_28F6, y: 0x3DA3_D70A, z: 0x3E75_C28F, w: BITS_ONE },
            uv: UVec2 { x: 0, y: 0 },
            emissive_color: UVec4 { x: 0, y: 0, z: 0, w: BITS_ONE },
            roughness: 0x3F4C_CCCD,
            metallic: 0x3E4C_CCCD,
            reflectance: 0x3F66_6666,
        }
    }

    /// The default attributes with `color` as their base colour.
    pub fn with_base_color(color: UVec4) -> (r: FaceProperties)
        ensures
            r == (FaceProperties { base_color: color, ..FaceProperties::spec_default() }),
    {
        FaceProperties {
            base_color: color,
            uv: UVec2 { x: 0, y: 0 },
            emissive_color: UVec4 { x: 0, y: 0, z: 0, w: BITS_ONE },
            roughness: BITS_HALF,
            metallic: BITS_HALF,
            reflectance: BITS_HALF,
        }
    }

    #[verifier::when_used_as_spec(spec_key)]
    pub fn key(self) -> (r: FaceKey)
        ensures
            r == self.spec_key(),
            FaceProperties::spec_from_key(r) == self,
    {
        (
            (self.base_color.x, self.base_color.y, self.base_color.z, self.base_color.w),
            (self.uv.x, self.uv.y),
            (
                self.emissive_color.x,
                self.emissive_color.y,
                self.emissive_color.z,
                self.emissive_color.w,
            ),
            (self.roughness, self.metallic, self.reflectance),
        )
    }

    #[verifier::when_used_as_spec(spec_from_key)]
    pub fn from_key(k: FaceKey) -> (r: FaceProperties)
        ensures
            r == FaceProperties::spec_from_key(k),
            r.spec_key() == k,
    {
        FaceProperties {
            base_color: UVec4 { x: k.0.0, y: k.0.1, z: k.0.2, w: k.0.3 },
            uv: UVec2 { x: k.1.0, y: k.1.1 },
            emissive_color: UVec4 { x: k.2.0, y: k.2.1, z: k.2.2, w: k.2.3 },
            roughness: k.3.0,
            metallic: k.3.1,
            reflectance: k.3.2,
        }
    }
}

impl Default for FaceProperties {
    fn default() -> (r: FaceProperties)
        ensures
            r == FaceProperties::spec_default(),
    {
        FaceProperties::with_base_color(UVec4 { x: BITS_ONE, y: BITS_ONE, z: BITS_ONE, w: BITS_ONE })
    }
}

/// The faces of a material: the same on every side, or with attributes of
/// their own on some sides.
#[derive(Clone, Copy, Debug)]
pub enum BlockFaces {
    Uniform { face: FaceProperties },
    /// `face_override` holds, in the index order of the sides, the
    /// attributes of the sides that have their own.
    Sided { face: FaceProperties, face_override: [Option<FaceProperties>; 6] },
}

impl BlockFaces {
    /// The attributes of the face on `side`: those that the side has of its
    /// own, else those that all sides share.
    pub open spec fn spec_face(self, side: Side) -> FaceProperties {
        match self {
            BlockFaces::Uniform { face } => face,
            BlockFaces::Sided { face, face_override } => match face_override[side.spec_index()] {
                Some(f) => f,
                None => face,
            },
        }
    }

    pub fn face(&self, side: Side) -> (r: FaceProperties)
        ensures
            r == self.spec_face(side),
    {
        match self {
            BlockFaces::Uniform { face } => *face,
            BlockFaces::Sided { face, face_override } => match face_override[side.as_usize()] {
                Some(f) => f,
                None => *face,
            },
        }
    }
}

impl Default for BlockFaces {
    fn default() -> (r: BlockFaces)
        ensures
            r == (BlockFaces::Uniform { face: FaceProperties::spec_default() }),
    {
        BlockFaces::Uniform { face: FaceProperties::default() }
    }
}

/// What the registry holds for one material.
#[derive(Clone, Copy, Debug)]
pub struct MaterialProperties {
    /// Red, green, blue and alpha of the material. The alpha decides what
    /// the material hides and whether it is drawn at all.
    pub color: UVec4,
    /// The faces of the material; `None` stands for uniform faces in the
    /// colour of the material.
    pub faces: Option<BlockFaces>,
}

impl MaterialProperties {
    /// True when the alpha of the material is 1.0: the material hides what
    /// lies behind it.
    pub open spec fn spec_is_opaque(self) -> bool {
        self.color.w == BITS_ONE
    }

    /// True when the alpha of the material is not 0.0: the material has
    /// faces to draw.
    pub open spec fn spec_is_drawn(self) -> bool {
        self.color.w != BITS_ZERO && self.color.w != BITS_NEG_ZERO
    }

    /// The faces of the material, with uniform faces in the colour of the
    /// material where it names none.
    pub open spec fn spec_faces(self) -> BlockFaces {
        match self.faces {
            Some(f) => f,
            None => BlockFaces::Uniform {
                face: FaceProperties { base_color: self.color, ..FaceProperties::spec_default() },
            },
        }
    }

    /// The attributes of the face of the material on `side`.
    pub open spec fn spec_face(self, side: Side) -> FaceProperties {
        self.spec_faces().spec_face(side)
    }

    pub fn is_opaque(&self) -> (r: bool)
        ensures
            r == self.spec_is_opaque(),
    {
        self.color.w == BITS_ONE
    }

    pub fn is_drawn(&self) -> (r: bool)
        ensures
            r == self.spec_is_drawn(),
    {
        self.color.w != BITS_ZERO && self.color.w != BITS_NEG_ZERO
    }

    pub fn face(&self, side: Side) -> (r: FaceProperties)
        ensures
            r == self.spec_face(side),
    {
        match &self.faces {
            Some(f) => f.face(side),
            None => FaceProperties::with_base_color(self.color),
        }
    }
}

impl Default for MaterialProperties {
    fn default() -> (r: MaterialProperties)
        ensures
            r.color == (UVec4 { x: BITS_ONE, y: BITS_ONE, z: BITS_ONE, w: BITS_ONE }),
            r.faces.is_none(),
    {
        MaterialProperties {
            color: UVec4 { x: BITS_ONE, y: BITS_ONE, z: BITS_ONE, w: BITS_ONE },
            faces: None,
        }
    }
}

/// One material of the registry.
#[derive(Debug)]
pub struct MaterialEntry {
    pub id: MaterialID,
    pub properties: MaterialProperties,
}

/// The position of the first entry from `from` on whose name is `name`, or
/// the number of entries when there is none.
pub open spec fn entry_from(entries: Seq<MaterialEntry>, name: Seq<char>, from: int) -> int
    decreases entries.len() - from,
{
    if from < 0 || from >= entries.len() {
        entries.len() as int
    } else if entries[from].id@ == name {
        from
    } else {
        entry_from(entries, name, from + 1)
    }
}

/// What `entry_from` returns: a position from `from` on that holds the
/// name, with no entry of that name before it, or the number of entries.
pub proof fn lemma_entry_from(entries: Seq<MaterialEntry>, name: Seq<char>, from: int)
    requires
        0 <= from <= entries.len(),
    ensures
        from <= entry_from(entries, name, from) <= entries.len(),
        entry_from(entries, name, from) < entries.len() ==> entries[entry_from(
            entries,
            name,
            from,
        )].id@ == name,
        forall|j: int| from <= j < entry_from(entries, name, from) ==> (#[trigger] entries[j]).id@ != name,
    decreases entries.len() - from,
{
    if from < entries.len() && entries[from].id@ != name {
        lemma_entry_from(entries, name, from + 1);
    }
}

/// The registry of materials: the record of every material that has one,
/// found by the name of the material.
#[derive(Debug)]
pub struct LoadedMaterials {
    pub properties: Vec<MaterialEntry>,
}

impl LoadedMaterials {
    /// The invariant of the registry: no two entries have the same name,
    /// and every entry names its faces.
    pub open spec fn wf(&self) -> bool {
        &&& forall|i: int, j: int|
            #![trigger self.properties@[i], self.properties@[j]]
            0 <= i < j < self.properties@.len() ==> self.properties@[i].id@ != self.properties@[j].id@
        &&& forall|i: int|
            0 <= i < self.properties@.len() ==> (#[trigger] self.properties@[i]).properties.faces.is_some()
    }

    /// The record of the material called `name`.
    pub open spec fn spec_get(&self, name: Seq<char>) -> Option<MaterialProperties> {
        let i = entry_from(self.properties@, name, 0);
        if i < self.properties@.len() {
            Some(self.properties@[i].properties)
        } else {
            None
        }
    }

    /// The registry without materials.
    pub fn new() -> (r: LoadedMaterials)
        ensures
            r.wf(),
            r.properties@.len() == 0,
            forall|name: Seq<char>| r.spec_get(name).is_none(),
    {
        LoadedMaterials { properties: Vec::new() }
    }

    /// The record of the material `id`.
    pub fn get(&self, id: &MaterialID) -> (r: Option<&MaterialProperties>)
        ensures
            match r {
                Some(p) => self.spec_get(id@) == Some(*p),
                None => self.spec_get(id@).is_none(),
            },
    {
        let mut i: usize = 0;
        while i < self.properties.len()
            invariant
                i <= self.properties@.len(),
                entry_from(self.properties@, id@, 0) == entry_from(self.properties@, id@, i as int),
            decreases self.properties@.len() - i,
        {
            if self.properties[i].id == *id {
                return Some(&self.properties[i].properties);
            }
            i += 1;
        }
        None
    }

    /// Records `props` for the material `id`, in place of what the registry
    /// held for it. Properties that name no faces get uniform faces in
    /// their colour.
    pub fn insert_material(&mut self, id: MaterialID, props: MaterialProperties)
        requires
            old(self).wf(),
        ensures
            final(self).wf(),
            forall|name: Seq<char>|
                #[trigger] final(self).spec_get(name) == (if name == id@ {
                    Some(MaterialProperties { color: props.color, faces: Some(props.spec_faces()) })
                } else {
                    old(self).spec_get(name)
                }),
    {
        let faces = match props.faces {
            Some(f) => f,
            None => BlockFaces::Uniform { face: FaceProperties::with_base_color(props.color) },
        };
        let record = MaterialProperties { color: props.color, faces: Some(faces) };
        let ghost before = self.properties@;
        let ghost id_name = id@;
        let mut i: usize = 0;
        while i < self.properties.len()
            invariant
                i <= self.properties@.len(),
                self.properties@ == before,
                before == old(self).properties@,
                old(self).wf(),
                id_name == id@,
                record == (MaterialProperties { color: props.color, faces: Some(props.spec_faces()) }),
                entry_from(before, id_name, 0) == entry_from(before, id_name, i as int),
            decreases self.properties@.len() - i,
        {
            if self.properties[i].id == id {
                self.properties.set(i, MaterialEntry { id, properties: record });
                proof {
                    let after = self.properties@;
                    assert forall|name: Seq<char>| #[trigger]
                        self.spec_get(name) == (if name == id_name {
                            Some(record)
                        } else {
                            old(self).spec_get(name)
                        }) by {
                        lemma_entry_same_names(before, after, name, 0);
                        lemma_entry_from(before, name, 0);
                    }
                }
                return ;
            }
            i += 1;
        }
        self.properties.push(MaterialEntry { id, properties: record });
        proof {
            let after = self.properties@;
            lemma_entry_from(before, id_name, 0);
            assert forall|name: Seq<char>| #[trigger]
                self.spec_get(name) == (if name == id_name {
                    Some(record)
                } else {
                    old(self).spec_get(name)
                }) by {
                lemma_entry_pushed(before, after, name, 0);
                lemma_entry_from(before, name, 0);
            }
        }
    }
}

/// Two lists of entries with the same names in the same places find every
/// name in the same place.
pub proof fn lemma_entry_same_names(
    a: Seq<MaterialEntry>,
    b: Seq<MaterialEntry>,
    name: Seq<char>,
    from: int,
)
    requires
        a.len() == b.len(),
        0 <= from <= a.len(),
        forall|i: int| 0 <= i < a.len() ==> (#[trigger] a[i]).id@ == b[i].id@,
    ensures
        entry_from(a, name, from) == entry_from(b, name, from),
    decreases a.len() - from,
{
    if from < a.len() {
        assert(a[from].id@ == b[from].id@);
        if a[from].id@ != name {
            lemma_entry_same_names(a, b, name, from + 1);
        }
    }
}

/// A list with one more entry at its end finds a name where the shorter
/// list finds it, and a name that the shorter list lacks at the new entry
/// when that has the name.
pub proof fn lemma_entry_pushed(a: Seq<MaterialEntry>, b: Seq<MaterialEntry>, name: Seq<char>, from: int)
    requires
        b.len() == a.len() + 1,
        0 <= from <= a.len(),
        forall|i: int| 0 <= i < a.len() ==> (#[trigger] a[i]) == b[i],
    ensures
        entry_from(a, name, from) < a.len() ==> entry_from(b, name, from) == entry_from(a, name, from),
        entry_from(a, name, from) == a.len() && b[a.len() as int].id@ == name ==> entry_from(
            b,
            name,
            from,
        ) == a.len(),
        entry_from(a, name, from) == a.len() && b[a.len() as int].id@ != name ==> entry_from(
            b,
            name,
            from,
        ) == b.len(),
    decreases a.len() - from,
{
    if from < a.len() {
        assert(a[from] == b[from]);
        if a[from].id@ != name {
            lemma_entry_pushed(a, b, name, from + 1);
        }
    } else {
        assert(entry_from(b, name, from + 1) == b.len());
    }
}

/// The identifier of the material `name` of the content pack `pack_id`: the
/// two joined by a colon.
pub fn qualified_material_id(pack_id: &str, name: &str) -> (r: MaterialID)
    ensures
        r@ == pack_id@ + ":"@ + name@,
{
    let joined = String::from_str(pack_id).concat(":").concat(name);
    MaterialID::new(joined.as_str())
}

} // verus!
