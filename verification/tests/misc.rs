use voxel_mesher::arguments::Context;
use voxel_mesher::color::{
    hex_char_value, parse_hex_color, parse_hex_pair, parse_hex_single, parse_hex_str,
    parse_trimmed_hex_color, DecimalColor, HexColorError,
};
use voxel_mesher::convert::Convert;
use voxel_mesher::data::qualified_material_id;
use voxel_mesher::math::aabb::AABB;
use voxel_mesher::math::vec::{IVec3, UVec3};
use voxel_mesher::util::weak_str_handle;
use voxel_mesher::world::chunk::{ChunkInfo, ChunkStore, Mesher, SizedGrid, SizedGridMut};
use voxel_mesher::world::gen::{fill_keys, Fill, SimplexChunkGen, TerrainGenerator, WriteMode};
use voxel_mesher::world::material::{Block, MaterialID};
use voxel_mesher::world::meta::Structure;

fn reference_handle(value: &str) -> u128 {
    let mut bytes: u128 = 0;
    let mut i = 0;
    loop {
        let c = value.as_bytes()[i];
        let mut j = 0u8;
        loop {
            bytes ^= (c as u128)
                .wrapping_shl(i as u32)
                .wrapping_add((j as u128 + 1).wrapping_mul(i as u128 + 1));
            j += 1;
            if j == 16 {
                break;
            }
        }
        i += 1;
        if value.len() <= i {
            break;
        }
    }
    bytes
}

#[test]
fn hex_digits() {
    assert_eq!(hex_char_value('0'), Some(0));
    assert_eq!(hex_char_value('9'), Some(9));
    assert_eq!(hex_char_value('A'), Some(10));
    assert_eq!(hex_char_value('F'), Some(15));
    assert_eq!(hex_char_value('a'), Some(10));
    assert_eq!(hex_char_value('f'), Some(15));
    assert_eq!(hex_char_value('g'), None);
    assert_eq!(hex_char_value('G'), None);
    assert_eq!(hex_char_value('/'), None);
    assert_eq!(hex_char_value(':'), None);
    assert_eq!(hex_char_value('@'), None);
    assert_eq!(hex_char_value('`'), None);
    assert_eq!(hex_char_value('é'), None);
    assert_eq!(parse_hex_single("a7", 0), Some(0xAA));
    assert_eq!(parse_hex_single("a7", 1), Some(0x77));
    assert_eq!(parse_hex_single("a7", 2), None);
    assert_eq!(parse_hex_single("ax", 1), None);
    assert_eq!(parse_hex_pair("3cF0", 0), Some(0x3C));
    assert_eq!(parse_hex_pair("3cF0", 2), Some(0xF0));
    assert_eq!(parse_hex_pair("3cF0", 3), None);
    assert_eq!(parse_hex_pair("3cF0", usize::MAX), None);
    assert_eq!(parse_hex_pair("zc", 0), None);
    assert_eq!(parse_hex_pair("cz", 0), None);
}

#[test]
fn hex_colours() {
    assert_eq!(parse_hex_str("f80"), Some([255, 136, 0, 255]));
    assert_eq!(parse_hex_str("FF8000"), Some([255, 128, 0, 255]));
    assert_eq!(parse_hex_str("12345678"), Some([0x12, 0x34, 0x56, 0x78]));
    assert_eq!(parse_hex_str("f80c"), None);
    assert_eq!(parse_hex_str(""), None);
    assert_eq!(parse_hex_str("ff"), None);
    assert_eq!(parse_hex_str("fffff"), None);
    assert_eq!(parse_hex_str("fffffff"), None);
    assert_eq!(parse_hex_str("ggg"), None);
    assert_eq!(parse_hex_str("ff80zz"), None);
    assert_eq!(parse_hex_str("ééé"), None);
    assert_eq!(parse_hex_str("é0"), None);
    assert_eq!(parse_hex_color("#cceecc"), Ok([0xCC, 0xEE, 0xCC, 255]));
    assert_eq!(parse_hex_color("  #abc\n"), Ok([0xAA, 0xBB, 0xCC, 255]));
    assert_eq!(parse_hex_color("\t#01020304 "), Ok([1, 2, 3, 4]));
    assert_eq!(parse_hex_color("abc"), Err(HexColorError::MissingHash));
    assert_eq!(parse_hex_color(""), Err(HexColorError::MissingHash));
    assert_eq!(parse_hex_color("   "), Err(HexColorError::MissingHash));
    assert_eq!(parse_hex_color("é#fff"), Err(HexColorError::MissingHash));
    assert_eq!(parse_hex_color("#"), Err(HexColorError::InvalidValue));
    assert_eq!(parse_hex_color("#abcd"), Err(HexColorError::InvalidValue));
    assert_eq!(parse_hex_color("#ab cd ef"), Err(HexColorError::InvalidValue));
    assert_eq!(parse_hex_color("#ééé"), Err(HexColorError::InvalidValue));
    assert_eq!(parse_trimmed_hex_color(" #fff"), Err(HexColorError::MissingHash));
    assert_eq!(parse_trimmed_hex_color("#fff "), Err(HexColorError::InvalidValue));
    assert_eq!(parse_trimmed_hex_color("#fff"), Ok([255, 255, 255, 255]));
    assert_eq!(HexColorError::MissingHash.message(), "hex color must start with a '#' char");
    assert_eq!(HexColorError::InvalidValue.message(), "invalid hex color value");
    assert_eq!(DecimalColor(0x80FF4020).to_rgba(), [0x20, 0x40, 0xFF, 0x80]);
    assert_eq!(DecimalColor(0).to_rgba(), [0, 0, 0, 0]);
    assert_eq!(DecimalColor(u32::MAX).to_rgba(), [255, 255, 255, 255]);
}

#[test]
fn handle_identifiers() {
    assert_eq!(weak_str_handle("a"), 0);
    assert_eq!(weak_str_handle("ab"), 32);
    assert_eq!(weak_str_handle("chunk_shader"), 1856);
    for name in ["chunk_shader", "x", "a longer name with spaces", "ünïcödé"] {
        assert_eq!(weak_str_handle(name), reference_handle(name));
    }
    let long: String = std::iter::repeat('z').take(200).collect();
    assert_eq!(weak_str_handle(&long), reference_handle(&long));
}

#[test]
fn material_identifiers() {
    let a = MaterialID::new("common:stone");
    assert_eq!(a.as_str(), "common:stone");
    assert!(a == MaterialID::new("common:stone"));
    assert!(a != MaterialID::new("common:dirt"));
    assert!(a.clone() == a);
    assert!(MaterialID::new("common:dirt") < a);
    assert!(MaterialID::new("common:stone2") > a);
    assert_eq!(a.cmp(&MaterialID::new("common:stone")), std::cmp::Ordering::Equal);
    let mut set = std::collections::HashSet::new();
    set.insert(a.clone());
    assert!(set.contains(&MaterialID::new("common:stone")));
    assert!(MaterialID::air().is_air());
    assert!(!a.is_air());
    assert_eq!(MaterialID::air().as_str(), "air");
    assert_eq!(MaterialID::default().as_str(), "unknown");
    assert_eq!(qualified_material_id("common", "stone").as_str(), "common:stone");
    assert_eq!(qualified_material_id("", "").as_str(), ":");
    assert!(Block::default().material_id().unwrap().is_air());
    assert_eq!(Block::MaterialID(a.clone()).material_id().unwrap().as_str(), "common:stone");
    assert!(Block::Multiblock().material_id().is_none());
}

#[test]
fn fill_stores_one_value_everywhere() {
    let mut store: ChunkStore<MaterialID> = ChunkStore::new(UVec3::new(2, 3, 2));
    store.set_pos_value(UVec3::new(0, 0, 0), Some(MaterialID::new("common:dirt")));
    let fill = Fill { material: MaterialID::new("common:stone") };
    fill.generate(IVec3::new(0, 0, 0), &mut store);
    assert_eq!(store.values.len(), 2);
    assert_eq!(store.values[1].as_str(), "common:stone");
    assert!(store.content.iter().all(|k| *k == 2));
    fill.generate(IVec3::new(5, 5, 5), &mut store);
    assert_eq!(store.values.len(), 2);
    assert!(store.content.iter().all(|k| *k == 2));
    Fill { material: MaterialID::new("common:dirt") }.generate(IVec3::new(0, 0, 0), &mut store);
    assert!(store.content.iter().all(|k| *k == 1));
    fill_keys(&mut store, 0);
    assert!(store.content.iter().all(|k| *k == 0));
    assert_eq!(store.size, UVec3::new(2, 3, 2));
    let numbers = Fill { material: 7u32 };
    let mut grid: ChunkStore<u32> = ChunkStore::new(UVec3::new(1, 1, 2));
    numbers.generate(IVec3::new(0, 0, 0), &mut grid);
    assert_eq!(grid.values, vec![7]);
    assert_eq!(grid.content, vec![1, 1]);
}

#[test]
fn columns_of_terrain() {
    let gen = SimplexChunkGen { seed: 1, dirt_height: 3 };
    assert_eq!(gen.max_height(UVec3::new(4, 16, 4)), 13);
    assert_eq!(gen.max_height(UVec3::new(4, 2, 4)), 0);
    let mut store: ChunkStore<MaterialID> = ChunkStore::new(UVec3::new(2, 8, 2));
    let stone = store.insert_key(MaterialID::new("common:stone"));
    let dirt = store.insert_key(MaterialID::new("common:dirt"));
    let grass = store.insert_key(MaterialID::new("common:grass"));
    assert_eq!((stone, dirt, grass), (1, 2, 3));
    gen.fill_column(&mut store, 1, 0, 2, stone, dirt, grass);
    let column: Vec<u16> = (0..8).map(|y| store.get_pos_key(UVec3::new(1, y, 0)).unwrap()).collect();
    assert_eq!(column, vec![1, 1, 2, 2, 3, 0, 0, 0]);
    assert!((0..8).all(|y| store.get_pos_key(UVec3::new(0, y, 0)) == Some(0)));
    assert!((0..8).all(|y| store.get_pos_key(UVec3::new(1, y, 1)) == Some(0)));
    gen.fill_column(&mut store, 0, 1, 7, stone, dirt, grass);
    let column: Vec<u16> = (0..8).map(|y| store.get_pos_key(UVec3::new(0, y, 1)).unwrap()).collect();
    assert_eq!(column, vec![1, 1, 1, 1, 1, 1, 1, 2]);
    gen.fill_column(&mut store, 0, 0, 0, stone, dirt, grass);
    let column: Vec<u16> = (0..8).map(|y| store.get_pos_key(UVec3::new(0, y, 0)).unwrap()).collect();
    assert_eq!(column, vec![2, 2, 3, 0, 0, 0, 0, 0]);
    let bare = SimplexChunkGen { seed: 1, dirt_height: 0 };
    bare.fill_column(&mut store, 1, 1, 2, stone, dirt, grass);
    let column: Vec<u16> = (0..8).map(|y| store.get_pos_key(UVec3::new(1, y, 1)).unwrap()).collect();
    assert_eq!(column, vec![1, 1, 0, 0, 0, 0, 0, 0]);
    bare.fill_column(&mut store, 9, 9, 2, stone, dirt, grass);
    assert_eq!(store.content.iter().filter(|k| **k != 0).count(), 5 + 8 + 3 + 2);
}

#[test]
fn small_types() {
    let context = Context::new(true);
    assert!(context.debug_asset_loader());
    assert!(!Context::new(false).debug_asset_loader());
    let same: u32 = Convert::convert(5u32);
    assert_eq!(same, 5);
    let text: String = Convert::convert(String::from("x"));
    assert_eq!(text, "x");
    assert_eq!(Mesher::default(), Mesher::Greedy);
    assert_eq!(ChunkInfo::default().mesher, Mesher::Greedy);
    assert_eq!(WriteMode::Replace, WriteMode::Replace);
    assert_ne!(WriteMode::Color, WriteMode::Masked);
    let structure = Structure { bounds: AABB::new(IVec3::new(3, 3, 3), IVec3::new(0, 0, 0)) };
    assert_eq!(structure.bounds.start, IVec3::new(0, 0, 0));
    assert_eq!(structure.bounds.end, IVec3::new(3, 3, 3));
    let store: ChunkStore<u8> = ChunkStore::new(UVec3::new(1, 2, 3));
    assert_eq!(store.size(), UVec3::new(1, 2, 3));
}
