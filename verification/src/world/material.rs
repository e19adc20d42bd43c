//! Material identifiers.

use vstd::prelude::*;
use vstd::string::StringExecFns;

verus! {

/// Identifies a block material by name. Two identifiers are equal when
/// their names hold the same characters, and they are ordered as their
/// names are.
#[derive(Debug, PartialOrd, Ord, Hash)]
pub struct MaterialID {
    pub name: String,
}

impl View for MaterialID {
    type V = Seq<char>;

    open spec fn view(&self) -> Seq<char> {
        self.name@
    }
}

impl PartialEq for MaterialID {
    fn eq(&self, other: &Self) -> (r: bool) {
        self.name == other.name
    }
}

impl Eq for MaterialID {

}

impl vstd::std_specs::cmp::PartialEqSpecImpl for MaterialID {
    open spec fn obeys_eq_spec() -> bool {
        true
    }

    open spec fn eq_spec(&self, other: &Self) -> bool {
        self@ == other@
    }
}

impl Clone for MaterialID {
    fn clone(&self) -> (r: Self)
        ensures
            r@ == self@,
    {
        MaterialID { name: self.name.clone() }
    }
}

impl Default for MaterialID {
    fn default() -> (r: Self)
        ensures
            r@ == "unknown"@,
    {
        MaterialID::new("unknown")
    }
}

impl MaterialID {
    /// The identifier with the given name.
    pub fn new(id: &str) -> (r: MaterialID)
        ensures
            r@ == id@,
    {
        MaterialID { name: String::from_str(id) }
    }

    /// The reserved identifier of empty space.
    pub fn air() -> (r: MaterialID)
        ensures
            r@ == "air"@,
    {
        MaterialID::new("air")
    }

    /// The name of the material.
    pub fn as_str(&self) -> (r: &str)
        ensures
            r@ == self@,
    {
        self.name.as_str()
    }

    /// Whether this is the identifier of empty space.
    pub fn is_air(&self) -> (r: bool)
        ensures
            r == (self@ == "air"@),
    {
        let air = MaterialID::air();
        *self == air
    }
}

/// What a cell of the world holds.
#[derive(Debug)]
pub enum Block {
    /// Empty space.
    Air,
    /// A block of one registered material.
    MaterialID(MaterialID),
    /// A block combined out of several materials.
    Multiblock(),
}

impl Default for Block {
    fn default() -> (r: Self)
        ensures
            r is Air,
    {
        Block::Air
    }
}

impl Block {
    /// The material of the block: air for empty space, the block's own
    /// material for a plain block, nothing for a combined block.
    pub fn material_id(&self) -> (r: Option<MaterialID>)
        ensures
            match *self {
                Block::Air => r.is_some() && r.unwrap()@ == "air"@,
                Block::MaterialID(m) => r.is_some() && r.unwrap()@ == m@,
                Block::Multiblock() => r.is_none(),
            },
    {
        match self {
            Block::Air => Some(MaterialID::air()),
            Block::MaterialID(material) => Some(material.clone()),
            Block::Multiblock() => None,
        }
    }
}

} // verus!
