//! Wire formats: integers, texts, tags, positions, items and chunks.

use bytes::{BufMut, Bytes, BytesMut};
use proxy_core::converter::chunk_repack::{
    flattened_to_modern_biomes, legacy_to_flattened, modern_biomes_to_new_height, new_height_to_modern_biomes,
    ChunkData, ChunkFormat, ChunkRepacker, RepackError,
};
use proxy_core::converter::chunk_section::{
    bits_per_block_for_palette, BiomeChunkSection, BiomeConverter, BlockStateConverter, FlattenedChunkSection,
};
use proxy_core::converter::items::{
    convert_set_slot_legacy_to_modern, convert_set_slot_modern_to_legacy, has_state_id, is_legacy_slot,
    legacy_slot_to_modern, map_equipment_slot, map_legacy_equipment_slot, modern_slot_parsable,
    modern_slot_to_legacy, slot_layout, SlotError, SlotLayout,
};
use proxy_core::converter::outcome::{build_payload, split_id};
use proxy_core::converter::safe::Reader;
use proxy_core::flattening::{BlockFlatteningTable, ItemFlatteningTable};
use proxy_core::nbt::nbt_or_empty;
use proxy_core::position::{
    decode_legacy_position, decode_modern_position, encode_legacy_position, encode_modern_position, to_legacy_layout,
    Position,
};
use proxy_core::slot::{LegacySlot, LegacySlotData, Slot, SlotData};
use proxy_core::text::json_escape;
use proxy_core::version::{nearest, Epoch, ProtocolVersion};
use proxy_core::writer::Writer;
use std::io::Read;

fn reader(b: &[u8]) -> Reader {
    Reader::new(Bytes::from(b.to_vec()))
}

#[test]
fn variable_length_integers() {
    for (x, bytes) in [
        (0, vec![0x00u8]),
        (1, vec![0x01]),
        (127, vec![0x7F]),
        (128, vec![0x80, 0x01]),
        (25565, vec![0xDD, 0xC7, 0x01]),
        (i32::MAX, vec![0xFF, 0xFF, 0xFF, 0xFF, 0x07]),
        (-1, vec![0xFF, 0xFF, 0xFF, 0xFF, 0x0F]),
        (i32::MIN, vec![0x80, 0x80, 0x80, 0x80, 0x08]),
    ] {
        let mut w = Writer::new();
        w.varint(x);
        assert_eq!(&w.freeze()[..], &bytes[..]);
        assert_eq!(reader(&bytes).varint(), Some(x));
    }
    assert_eq!(reader(&[0x80]).varint(), None);
    assert_eq!(reader(&[0x80, 0x80, 0x80, 0x80, 0x80, 0x01]).varint(), None);
}

#[test]
fn fixed_integers_come_back_in_order() {
    let mut w = Writer::new();
    w.u8(1);
    w.i8(-2);
    w.u16(0x0304);
    w.i16(-5);
    w.u32(0x0607_0809);
    w.i32(-10);
    w.u64(0x0102_0304_0506_0708);
    w.i64(-11);
    w.u16_le(0x0304);
    w.u32_le(0x0506_0708);
    w.u64_le(0x0102_0304_0506_0708);
    let b = w.freeze();
    assert_eq!(&b[..4], &[1, 0xFE, 3, 4]);
    assert_eq!(&b[30..32], &[4, 3]);
    let mut r = Reader::new(b);
    assert_eq!(r.u8(), Some(1));
    assert_eq!(r.i8(), Some(-2));
    assert_eq!(r.u16(), Some(0x0304));
    assert_eq!(r.i16(), Some(-5));
    assert_eq!(r.get_u32(), 0x0607_0809);
    assert_eq!(r.i32(), Some(-10));
    assert_eq!(r.get_u64(), 0x0102_0304_0506_0708);
    assert_eq!(r.i64(), Some(-11));
    assert_eq!(r.get_u16_le(), 0x0304);
    assert_eq!(r.get_u32_le(), 0x0506_0708);
    assert_eq!(r.get_u64_le(), 0x0102_0304_0506_0708);
    assert_eq!(r.u8(), None);
}

#[test]
fn texts_come_back() {
    for s in ["", "hello", "grün", "日本", "😀"] {
        let mut w = Writer::new();
        w.string(s);
        w.ucs2(s);
        let mut r = Reader::new(w.freeze());
        assert_eq!(r.string().as_deref(), Some(s));
        let units = r.ucs2_units().unwrap();
        assert_eq!(String::from_utf16(&units).unwrap(), s);
        assert_eq!(r.remaining(), 0);
    }
    assert_eq!(reader(&[2, 0xC3, 0x28]).string(), None);
    assert_eq!(reader(&[5, b'a']).string(), None);
    assert_eq!(reader(&[0xFF, 0xFF, 0xFF, 0xFF, 0x0F]).string(), None);
    assert_eq!(reader(&[0, 1, 0]).ucs2_units(), None);
}

#[test]
fn packets_split_as_they_were_built() {
    let (id, body) = split_id(build_payload(0xEE, b"abc")).unwrap();
    assert_eq!(id, 0xEE);
    assert_eq!(&body[..], b"abc");
    assert!(split_id(Bytes::new()).is_none());
}

#[test]
fn tags_are_skipped_whole() {
    // A compound with a byte, a string and a list of two shorts.
    let doc: Vec<u8> = vec![
        0x0A, 0, 0, 0x01, 0, 1, b'b', 7, 0x08, 0, 1, b's', 0, 2, b'h', b'i', 0x09, 0, 1, b'l', 0x02, 0, 0, 0, 2, 0, 1,
        0, 2, 0x00,
    ];
    let mut long = doc.clone();
    long.push(0x55);
    let mut r = reader(&long);
    assert!(r.skip_nbt());
    assert_eq!(r.u8(), Some(0x55));
    assert!(!reader(&doc[..doc.len() - 1]).skip_nbt());
    assert_eq!(nbt_or_empty(Bytes::from(doc.clone())).bytes, doc);
    assert_eq!(nbt_or_empty(Bytes::from_static(&[0x0A, 0])).bytes, vec![0x0A, 0, 0, 0]);
}

#[test]
fn positions_come_back_in_both_layouts() {
    for p in [
        Position::new(0, 0, 0),
        Position::new(10, 80, -30),
        Position::new(-33554432, -2048, 33554431),
        Position::new(33554431, 2047, -33554432),
    ] {
        let (legacy, modern) = (encode_legacy_position(p) as u64, encode_modern_position(p) as u64);
        assert_eq!(decode_legacy_position(legacy), p);
        assert_eq!(decode_modern_position(modern), p);
        assert_eq!(to_legacy_layout(modern), legacy);
    }
    assert_eq!(encode_legacy_position(Position::new(1, 2, 3)), (1 << 38) | (2 << 26) | 3);
    assert_eq!(encode_modern_position(Position::new(1, 2, 3)), (1 << 38) | (3 << 12) | 2);
}

#[test]
fn protocols_have_a_nearest_release() {
    for (raw, v) in [
        (78, ProtocolVersion::V1_6_4),
        (5, ProtocolVersion::V1_7_10),
        (47, ProtocolVersion::V1_8),
        (340, ProtocolVersion::V1_12_2),
        (404, ProtocolVersion::V1_13_2),
        (754, ProtocolVersion::V1_16_5),
        (762, ProtocolVersion::V1_19_4),
        (765, ProtocolVersion::V1_20_4),
        (767, ProtocolVersion::V1_21),
    ] {
        assert_eq!(nearest(raw), v);
        assert_eq!(v.id(), raw);
    }
    assert_eq!(nearest(0).epoch(), Epoch::V1_7);
    assert_eq!(nearest(u32::MAX).epoch(), Epoch::V1_21Plus);
}

// Items.

fn table() -> ItemFlatteningTable {
    ItemFlatteningTable { pairs: vec![(1, 101), (2, 102), (1, 999), (7, 101)] }
}

#[test]
fn tables_take_the_first_pair() {
    assert_eq!(table().legacy_to_modern(1), Some(101));
    assert_eq!(table().modern_to_legacy(101), Some(1));
    assert_eq!(table().legacy_to_modern(5), None);
    assert_eq!(table().modern_to_legacy(5), None);
    let blocks = BlockFlatteningTable { pairs: vec![(16, 1), (17, 2)] };
    assert_eq!(blocks.legacy_to_modern(17), Some(2));
    assert_eq!(blocks.modern_to_legacy(1), Some(16));
    assert_eq!(blocks.modern_to_legacy(3), None);
}

#[test]
fn slot_shapes_by_release() {
    assert_eq!(slot_layout(ProtocolVersion::V1_12_2), SlotLayout::Legacy);
    assert_eq!(slot_layout(ProtocolVersion::V1_16_5), SlotLayout::Modern);
    assert_eq!(slot_layout(ProtocolVersion::V1_19_4), SlotLayout::ModernWithStateId);
    assert_eq!(slot_layout(ProtocolVersion::V1_13_2), SlotLayout::Modern);
    assert!(is_legacy_slot(ProtocolVersion::V1_8));
    assert!(modern_slot_parsable(ProtocolVersion::V1_19_4));
    assert!(has_state_id(ProtocolVersion::V1_21));
}

#[test]
fn equipment_indices_undo_each_other() {
    assert_eq!(map_equipment_slot(1), None);
    assert_eq!(map_equipment_slot(6), None);
    assert_eq!(map_legacy_equipment_slot(5), None);
    assert_eq!(map_legacy_equipment_slot(-1), None);
    for i in 0i16..=4 {
        assert_eq!(map_equipment_slot(map_legacy_equipment_slot(i).unwrap()), Some(i));
    }
}

#[test]
fn items_come_back_without_their_damage() {
    let item = LegacySlot(Some(LegacySlotData { item_id: 2, count: 3, damage: 9, nbt: None }));
    let modern = legacy_slot_to_modern(&item, &table());
    let d = modern.0.as_ref().unwrap();
    assert_eq!((d.item_id, d.count), (102, 3));
    let back = modern_slot_to_legacy(&modern, &table()).0.unwrap();
    assert_eq!((back.item_id, back.count, back.damage), (2, 3, 0));
    // An id outside the table keeps its low bits.
    let strange = Slot(Some(SlotData { item_id: 0x1_0005, count: 1, nbt: None }));
    assert_eq!(modern_slot_to_legacy(&strange, &table()).0.unwrap().item_id, 5);
    let unlisted = LegacySlot(Some(LegacySlotData { item_id: -7, count: 1, damage: 4, nbt: None }));
    let modern = legacy_slot_to_modern(&unlisted, &table());
    assert_eq!(modern.0.as_ref().unwrap().item_id, -7);
    let back = modern_slot_to_legacy(&modern, &table()).0.unwrap();
    assert_eq!((back.item_id, back.count, back.damage), (-7, 1, 0));
    assert!(modern_slot_to_legacy(&Slot(None), &table()).0.is_none());
    assert!(legacy_slot_to_modern(&LegacySlot(None), &table()).0.is_none());
}

#[test]
fn slots_come_back() {
    let mut w = Writer::new();
    w.slot(&Slot(Some(SlotData { item_id: 300, count: 64, nbt: None })));
    w.slot(&Slot(None));
    let b = w.freeze();
    assert_eq!(&b[..], &[1, 0xAC, 0x02, 64, 0, 0]);
    let mut r = Reader::new(b);
    let d = r.slot().unwrap().0.unwrap();
    assert_eq!((d.item_id, d.count), (300, 64));
    assert!(r.slot().unwrap().0.is_none());
    assert!(r.slot().is_none());
}

#[test]
fn set_slot_bodies_convert() {
    let mut body = BytesMut::new();
    body.put_slice(&[0, 0, 5, 1, 0xE6, 0x07, 12, 0]);
    let pairs = ItemFlatteningTable { pairs: vec![(4, 0x3E6)] };
    assert_eq!(convert_set_slot_modern_to_legacy(&mut body, &pairs), Ok(()));
    assert_eq!(&body[..5], &[0, 0, 5, 0, 4]);
    assert_eq!(body[5], 12);

    let mut cut = BytesMut::new();
    cut.put_slice(&[0, 0, 5, 1, 0x80]);
    assert_eq!(convert_set_slot_modern_to_legacy(&mut cut, &pairs), Err(SlotError::Slot));
    assert_eq!(&cut[..], &[1, 0x80]);

    let mut old = BytesMut::new();
    old.put_slice(&[0, 0, 5, 0]);
    assert_eq!(convert_set_slot_legacy_to_modern(&mut old, &pairs), Ok(()));
    assert_eq!(&old[..], &[0, 0, 5, 0]);

    let mut full = BytesMut::new();
    full.put_slice(&[0, 0, 5, 1, 0, 4, 12, 0, 0, 0]);
    assert_eq!(convert_set_slot_legacy_to_modern(&mut full, &pairs), Ok(()));
    assert_eq!(&full[..], &[0, 0, 5, 1, 0xE6, 0x07, 12, 0]);

    let mut bad = BytesMut::new();
    bad.put_slice(&[0, 0, 5, 1, 0, 4, 12, 0, 0]);
    assert_eq!(convert_set_slot_legacy_to_modern(&mut bad, &pairs), Err(SlotError::TagLength));
}

// Chunks.

fn legacy_chunk() -> Vec<u8> {
    let mut v = vec![1u8, 0];
    let mut blocks = vec![0u8; 4096];
    blocks[0] = 1;
    blocks[4095] = 2;
    v.extend(blocks);
    v.extend(vec![0u8; 2048]);
    v.extend(vec![0x77u8; 2048]);
    v.extend(vec![0xFFu8; 2048]);
    v
}

fn repacker() -> ChunkRepacker {
    let pairs = vec![
        (0u16, "minecraft:air".to_string()),
        (16, "minecraft:stone".to_string()),
        (32, "minecraft:grass_block".to_string()),
    ];
    ChunkRepacker::with_tables(
        BlockStateConverter { pairs, unknown_name: "minecraft:air".to_string(), unknown_id: 0 },
        BiomeConverter::new(),
    )
}

#[test]
fn palettes_have_widths() {
    assert_eq!(bits_per_block_for_palette(1), 4);
    assert_eq!(bits_per_block_for_palette(16), 4);
    assert_eq!(bits_per_block_for_palette(17), 8);
    assert_eq!(bits_per_block_for_palette(256), 8);
    assert_eq!(bits_per_block_for_palette(257), 9);
}

#[test]
fn chunks_survive_the_flattening() {
    let chunk = legacy_chunk();
    let r = repacker();
    let flat = r.try_repack(&chunk, ProtocolVersion::V1_12_2, ProtocolVersion::V1_13_2).unwrap().unwrap();
    assert_ne!(flat, chunk);
    let back = r.try_repack(&flat, ProtocolVersion::V1_13_2, ProtocolVersion::V1_12_2).unwrap().unwrap();
    assert_eq!(back, chunk);
    assert_eq!(r.repack(&chunk, ProtocolVersion::V1_12_2, ProtocolVersion::V1_13_2), Ok(flat));
}

#[test]
fn chunks_with_biomes_are_written_like_those_without() {
    let r = repacker();
    let (v12, v13, v16) = (ProtocolVersion::V1_12_2, ProtocolVersion::V1_13_2, ProtocolVersion::V1_16_5);
    assert_eq!(r.try_repack(&[0, 0], v13, v16), Some(Ok(vec![0, 0])));
    let flat = r.try_repack(&legacy_chunk(), v12, v13).unwrap().unwrap();
    assert_eq!(r.try_repack(&flat, v13, v16), Some(Ok(flat.clone())));
    assert_eq!(r.try_repack(&legacy_chunk(), v12, v16), Some(Ok(flat.clone())));
    assert_eq!(r.try_repack(&flat, v16, v12), Some(Ok(legacy_chunk())));
}

#[test]
fn chunks_of_taller_worlds_come_back() {
    let r = repacker();
    let (v16, v20) = (ProtocolVersion::V1_16_5, ProtocolVersion::V1_20_4);
    let flat = r.try_repack(&legacy_chunk(), ProtocolVersion::V1_12_2, v16).unwrap().unwrap();
    let tall = r.try_repack(&flat, v16, v20).unwrap().unwrap();
    // A wider mask, and 64 biomes.
    assert_eq!(tall.len(), flat.len() + 2 + 64 * 4);
    assert_eq!(r.try_repack(&tall, v20, v16), Some(Ok(flat)));
}

#[test]
fn chunks_of_one_format_are_left_alone() {
    let r = ChunkRepacker::default();
    assert_eq!(r.try_repack(&[1, 2, 3], ProtocolVersion::V1_8, ProtocolVersion::V1_12_2), Some(Ok(vec![1, 2, 3])));
    assert!(r.block_converter().pairs.is_empty());
    assert!(r.biome_converter().pairs.is_empty());
}

#[test]
fn chunks_that_end_early() {
    let chunk = legacy_chunk();
    let r = repacker();
    let (a, b) = (ProtocolVersion::V1_12_2, ProtocolVersion::V1_13_2);
    assert_eq!(r.try_repack(&chunk[..1], a, b), None);
    assert_eq!(r.try_repack(&chunk[..100], a, b), Some(Err(RepackError::BlockIds)));
    assert_eq!(r.try_repack(&chunk[..2 + 4096 + 1], a, b), Some(Err(RepackError::BlockMetadata)));
    assert_eq!(r.try_repack(&chunk[..2 + 6144 + 1], a, b), Some(Err(RepackError::BlockLight)));
    assert_eq!(r.try_repack(&chunk[..2 + 8192 + 1], a, b), Some(Err(RepackError::SkyLight)));
    assert!(matches!(
        r.try_repack(&chunk, a, ProtocolVersion::V1_20_4),
        Some(Err(RepackError::Unsupported { from: ChunkFormat::Legacy, to: ChunkFormat::NewHeight }))
    ));
}

#[test]
fn repacking_errors_have_their_words() {
    let ended = Read::read_exact(&mut &[0u8; 3][..], &mut [0u8; 4]).unwrap_err().to_string();
    let cut = [
        (RepackError::BlockIds, "Failed to read block IDs: "),
        (RepackError::BlockMetadata, "Failed to read block metadata: "),
        (RepackError::BlockLight, "Failed to read block light: "),
        (RepackError::SkyLight, "Failed to read sky light: "),
        (RepackError::PaletteEntry, "Failed to read palette entry: "),
    ];
    for (error, start) in cut {
        assert_eq!(error.message(), format!("{start}{ended}"));
    }
    assert_eq!(RepackError::PaletteText.message(), "Invalid UTF-8 in palette");
    assert_eq!(
        RepackError::StatesTooLarge { bytes: 16_777_217 }.message(),
        "Block state data too large: 16777217 bytes (max 16 MiB)"
    );
    assert_eq!(
        RepackError::StatesBeyondEnd { bytes: 4096, left: 10 }.message(),
        "Block state data (4096 bytes) exceeds remaining buffer (10 bytes)"
    );
    let expected = [
        (ChunkFormat::Legacy, "Expected legacy chunk"),
        (ChunkFormat::Flattened, "Expected flattened chunk"),
        (ChunkFormat::ModernBiomes, "Expected modern biome chunk"),
        (ChunkFormat::NewHeight, "Expected new height chunk"),
    ];
    for (format, words) in expected {
        assert_eq!(RepackError::Expected { format }.message(), words);
    }
    let all = [ChunkFormat::Legacy, ChunkFormat::Flattened, ChunkFormat::ModernBiomes, ChunkFormat::NewHeight];
    for from in all {
        assert_eq!(from.name(), format!("{from:?}"));
        for to in all {
            let words = format!("Unsupported conversion: {from:?} \u{2192} {to:?}");
            assert_eq!(RepackError::Unsupported { from, to }.message(), words);
        }
    }
}

#[test]
fn biomes_of_taller_worlds_come_back() {
    let section = BiomeChunkSection {
        block_states: FlattenedChunkSection {
            palette: vec!["minecraft:stone".to_string()],
            block_states: vec![7],
            block_light: vec![1],
            sky_light: vec![2],
        },
        biomes: (0..64).collect(),
    };
    let low = match new_height_to_modern_biomes(ChunkData::NewHeight(vec![section])) {
        Some(Ok(ChunkData::ModernBiomes(v))) => v,
        _ => panic!("expected a lower chunk"),
    };
    assert_eq!(low[0].biomes.len(), 256);
    for k in 0..256 {
        assert_eq!(low[0].biomes[k], k as i32 / 4);
    }
    match modern_biomes_to_new_height(ChunkData::ModernBiomes(low)) {
        Ok(ChunkData::NewHeight(v)) => {
            assert_eq!(v.len(), 1);
            assert_eq!(v[0].biomes, (0..64).collect::<Vec<i32>>());
            assert_eq!(v[0].block_states.palette, ["minecraft:stone"]);
            assert_eq!(v[0].block_states.block_states, [7]);
        }
        _ => panic!("expected a taller chunk"),
    }
    let crowded = BiomeChunkSection {
        block_states: FlattenedChunkSection {
            palette: vec![],
            block_states: vec![],
            block_light: vec![],
            sky_light: vec![],
        },
        biomes: vec![0; 65],
    };
    assert!(new_height_to_modern_biomes(ChunkData::NewHeight(vec![crowded])).is_none());
    assert!(matches!(
        flattened_to_modern_biomes(ChunkData::Legacy(vec![])),
        Err(RepackError::Expected { format: ChunkFormat::Flattened })
    ));
    assert!(matches!(
        legacy_to_flattened(ChunkData::Flattened(vec![]), &BlockStateConverter::new()),
        Some(Err(RepackError::Expected { format: ChunkFormat::Legacy }))
    ));
}

#[test]
fn json_strings_hold_their_texts() {
    assert_eq!(json_escape(""), "\"\"");
    assert_eq!(json_escape("a\"b\\c\n\r\t\u{1}\u{1f}/\u{e9}"), "\"a\\\"b\\\\c\\n\\r\\t\\u0001\\u001f/\u{e9}\"");
    // Texts that look like each other's escapes stay apart.
    assert_ne!(json_escape("\n"), json_escape("\\n"));
}
