//! Packets through single converters and through the dispatcher.

use bytes::{Buf, BufMut, Bytes, BytesMut};
use proxy_core::converter::chunk_repack::{chunk_format_for_version, ChunkFormat, ChunkRepacker};
use proxy_core::converter::dispatch::{assemble, canonical_for_dispatch, local_route, plan, OutsideLeg, OutsideRule, Step};
use proxy_core::converter::modern_to_v1_8;
use proxy_core::converter::outcome::build_payload;
use proxy_core::converter::safe::{guard, Reader};
use proxy_core::converter::v1_12_2_to_v1_6_4;
use proxy_core::converter::v1_16_5_to_v1_12_2;
use proxy_core::converter::v1_20_4_to_v1_16_5;
use proxy_core::converter::v1_6_4_to_v1_12_2;
use proxy_core::converter::v1_6_4_to_v1_16_5;
use proxy_core::converter::v1_7_to_v1_8;
use proxy_core::converter::v1_8_to_modern;
use proxy_core::converter::{split_id, ConversionDirection, ConversionResult, PacketConverter, Surroundings};
use proxy_core::flattening::{Flattening, ItemFlatteningTable};
use proxy_core::ident::offline_uuid;
use proxy_core::position::{encode_legacy_position, encode_modern_position, Position};
use proxy_core::version::{CanonicalVersion, ProtocolVersion};
use proxy_core::writer::Writer;
use std::sync::Arc;

fn varint(x: i32) -> Bytes {
    let mut w = Writer::new();
    w.varint(x);
    w.freeze()
}

fn text(s: &str) -> Bytes {
    let mut w = Writer::new();
    w.string(s);
    w.freeze()
}

/// Takes a variable-length integer off the front.
fn take_varint(b: &mut Bytes) -> i32 {
    let mut value: u32 = 0;
    let mut shift = 0;
    loop {
        let byte = b.get_u8();
        value |= ((byte & 0x7F) as u32) << shift;
        if byte & 0x80 == 0 {
            return value as i32;
        }
        shift += 7;
    }
}

/// Takes a text off the front.
fn take_text(b: &mut Bytes) -> String {
    let n = take_varint(b) as usize;
    String::from_utf8(b.split_to(n).to_vec()).unwrap()
}

fn payload_with_id(id: u8, body: &[u8]) -> Bytes {
    build_payload(id, body)
}

fn only(r: ConversionResult) -> Bytes {
    match r {
        ConversionResult::Converted(mut v) => {
            assert_eq!(v.len(), 1);
            v.remove(0)
        }
        _ => panic!("expected Converted"),
    }
}

#[test]
fn chunk_format_detection() {
    assert_eq!(chunk_format_for_version(ProtocolVersion::V1_12_2), ChunkFormat::Legacy);
    assert_eq!(chunk_format_for_version(ProtocolVersion::V1_13_2), ChunkFormat::Flattened);
    assert_eq!(chunk_format_for_version(ProtocolVersion::V1_16_5), ChunkFormat::ModernBiomes);
}

#[test]
fn needs_repack() {
    assert!(ChunkRepacker::needs_repack(ProtocolVersion::V1_12_2, ProtocolVersion::V1_13_2));
    assert!(!ChunkRepacker::needs_repack(ProtocolVersion::V1_12_2, ProtocolVersion::V1_12_2));
}

#[test]
fn v1_19_4_folds_to_v1_16_5_for_dispatch() {
    assert_eq!(canonical_for_dispatch(762), CanonicalVersion::V1_16_5);
    assert_eq!(canonical_for_dispatch(754), CanonicalVersion::V1_16_5);
    assert_eq!(canonical_for_dispatch(765), CanonicalVersion::V1_20_4);
    assert_eq!(canonical_for_dispatch(767), CanonicalVersion::V1_20_4);
}

#[test]
fn s2c_1_20_4_server_to_1_19_4_client_routes_via_v1_20_4_to_v1_16_5() {
    let body = 12345i64.to_be_bytes();
    let payload = payload_with_id(0x24, &body);
    let result = PacketConverter::convert(
        payload,
        ConversionDirection::ServerToClient { server_proto: 765, client_proto: 762 },
        &Surroundings::new(0),
    );
    match result {
        ConversionResult::Converted(out) => {
            assert_eq!(out.len(), 1);
            let (id, rest) = split_id(out[0].clone()).expect("packet has an id");
            assert_eq!(id, 0x24);
            assert_eq!(rest.len(), 8);
        }
        ConversionResult::Passthrough => {}
        _ => panic!("unexpected dispatch result"),
    }
}

#[test]
fn c2s_1_19_4_client_to_1_16_5_server_stays_passthrough() {
    let body = b"\x05hello";
    let payload = payload_with_id(0x05, body);
    let result = PacketConverter::convert(
        payload,
        ConversionDirection::ClientToServer { client_proto: 762, server_proto: 754 },
        &Surroundings::new(0),
    );
    assert!(matches!(result, ConversionResult::Passthrough));
}

#[test]
fn c2s_1_16_5_client_to_1_19_4_server_stays_passthrough() {
    let payload = payload_with_id(0x03, b"\x04test");
    let result = PacketConverter::convert(
        payload,
        ConversionDirection::ClientToServer { client_proto: 754, server_proto: 762 },
        &Surroundings::new(0),
    );
    assert!(matches!(result, ConversionResult::Passthrough));
}

#[test]
fn c2s_1_20_4_client_to_1_6_4_server_chains_through_three_converters() {
    let body = 42i64.to_be_bytes();
    let payload = payload_with_id(0x15, &body);
    let result = PacketConverter::convert(
        payload,
        ConversionDirection::ClientToServer { client_proto: 765, server_proto: 78 },
        &Surroundings::new(0),
    );
    match result {
        ConversionResult::Converted(out) => {
            assert_eq!(out.len(), 1);
            let mut bytes = out[0].clone();
            let id = take_varint(&mut bytes) as u8;
            let _ = id;
        }
        ConversionResult::Drop => {}
        ConversionResult::Passthrough => {}
        _ => panic!("unexpected"),
    }
}

#[test]
fn c2s_1_21_client_to_1_6_4_server_reaches_long_haul_arm() {
    let payload = payload_with_id(0xEE, &[0u8; 16]);
    let result = PacketConverter::convert(
        payload,
        ConversionDirection::ClientToServer { client_proto: 767, server_proto: 78 },
        &Surroundings::new(0),
    );
    assert!(
        matches!(result, ConversionResult::Passthrough | ConversionResult::Drop),
        "long-haul arm must not crash for arbitrary packet ids"
    );
}

#[test]
fn a_1_6_4_server_of_a_1_7_10_client_goes_the_way_of_the_later_ones() {
    let attack = payload_with_id(0x02, &[0, 0, 0, 7, 1]);
    let to_server = ConversionDirection::ClientToServer { client_proto: 5, server_proto: 78 };
    assert!(local_route(to_server));
    assert!(matches!(PacketConverter::convert(attack, to_server, &Surroundings::new(0)), ConversionResult::Drop));
    let unknown = payload_with_id(0x7E, &[1]);
    assert!(matches!(PacketConverter::convert(unknown, to_server, &Surroundings::new(0)), ConversionResult::Passthrough));

    let to_client = ConversionDirection::ServerToClient { server_proto: 78, client_proto: 5 };
    assert!(!local_route(to_client));
    let swing = payload_with_id(0x06, &[9, 0]);
    match plan(swing, to_client, (0, 0), &Surroundings::new(0), None) {
        Some(Step::Outside { leg, packets, rule }) => {
            assert!(matches!(leg, OutsideLeg::V1_8_To_V1_7_S2c));
            assert!(matches!(rule, OutsideRule::Converted));
            assert_eq!(packets, vec![payload_with_id(0x0B, &[9, 0])]);
        }
        _ => panic!("expected a leg outside"),
    }
}

#[test]
fn answers_from_outside_are_put_together() {
    let (a, b, c) = (Bytes::from_static(b"a"), Bytes::from_static(b"b"), Bytes::from_static(b"c"));
    let two = vec![a.clone(), b.clone()];
    let answers = || vec![ConversionResult::Converted(vec![c.clone()]), ConversionResult::Passthrough];
    match assemble(&two, answers(), OutsideRule::Converted) {
        ConversionResult::Converted(v) => assert_eq!(v, vec![c.clone()]),
        _ => panic!("expected Converted"),
    }
    match assemble(&two, answers(), OutsideRule::ConvertedOrKept) {
        ConversionResult::Converted(v) => assert_eq!(v, vec![c.clone(), b.clone()]),
        _ => panic!("expected Converted"),
    }
    let none = || vec![ConversionResult::Drop, ConversionResult::InjectS2C(vec![c.clone()])];
    assert!(matches!(assemble(&two, none(), OutsideRule::ConvertedOrKept), ConversionResult::Drop));
    let one = vec![a.clone()];
    match assemble(&one, vec![ConversionResult::InjectS2C(vec![c.clone()])], OutsideRule::Sole) {
        ConversionResult::InjectS2C(v) => assert_eq!(v, vec![c.clone()]),
        _ => panic!("expected InjectS2C"),
    }
    assert!(matches!(assemble(&one, vec![ConversionResult::Passthrough], OutsideRule::Sole), ConversionResult::Passthrough));
}

#[test]
fn chunk_data_goes_through_the_repacker() {
    let mut body = vec![1u8, 0, 4, 1, 0, 13, 0];
    body.extend_from_slice(b"minecraft:air");
    body.extend_from_slice(&2048u32.to_le_bytes());
    body.extend_from_slice(&[0; 2048]);
    body.extend_from_slice(&[7; 2048]);
    body.extend_from_slice(&[9; 2048]);
    let packet = payload_with_id(v1_16_5_to_v1_12_2::V16_S2C_CHUNK_DATA, &body);
    let down = ConversionDirection::ServerToClient { server_proto: 754, client_proto: 340 };
    let cx = Surroundings::new(0);
    assert!(matches!(
        PacketConverter::convert_with_repacker(packet.clone(), down, None, &cx),
        ConversionResult::Drop
    ));
    let mut expected = vec![1u8, 0];
    expected.extend_from_slice(&[0; 4096 + 2048]);
    expected.extend_from_slice(&[7; 2048]);
    expected.extend_from_slice(&[9; 2048]);
    let repacker = Arc::new(ChunkRepacker::new());
    let sent = only(PacketConverter::convert_with_repacker(packet, down, Some(repacker), &cx));
    assert_eq!(sent, payload_with_id(v1_16_5_to_v1_12_2::V12_S2C_CHUNK_DATA, &expected));
    let cut = payload_with_id(v1_16_5_to_v1_12_2::V16_S2C_CHUNK_DATA, &body[..100]);
    let repacker = Arc::new(ChunkRepacker::new());
    assert!(matches!(
        PacketConverter::convert_with_repacker(cut, down, Some(repacker), &cx),
        ConversionResult::Drop
    ));
}

fn ucs2(s: &str) -> Vec<u8> {
    let units: Vec<u16> = s.encode_utf16().collect();
    let mut out = (units.len() as u16).to_be_bytes().to_vec();
    for u in units {
        out.extend_from_slice(&u.to_be_bytes());
    }
    out
}

#[test]
fn a_thrown_object_keeps_its_thrower_in_32_bits() {
    let mut body = BytesMut::new();
    body.put_i32(300);
    body.put_i8(2);
    body.put_i32(32);
    body.put_i32(-64);
    body.put_i32(1);
    body.put_i8(5);
    body.put_i8(6);
    body.put_i32(7);
    for v in [10i16, 11, 12] {
        body.put_i16(v);
    }
    let mut expected = BytesMut::new();
    expected.extend_from_slice(&varint(300));
    expected.put_u8(2);
    expected.put_f64(1.0);
    expected.put_f64(-2.0);
    expected.put_f64(0.03125);
    expected.put_i8(5);
    expected.put_i8(6);
    expected.put_i32(7);
    for v in [10i16, 11, 12] {
        expected.put_i16(v);
    }
    let sent = only(v1_6_4_to_v1_12_2::convert_s2c(payload_with_id(0x17, &body)));
    assert_eq!(sent, payload_with_id(v1_6_4_to_v1_12_2::V112_S2C_SPAWN_OBJECT, &expected));
}

#[test]
fn an_explosion_keeps_its_records_and_its_push() {
    let mut body = BytesMut::new();
    for _ in 0..3 {
        body.put_f64(0.0);
    }
    body.put_f32(1.0);
    body.put_i32(1);
    body.put_slice(&[1, 2, 3]);
    for v in [0.5f32, 0.25, -1.0] {
        body.put_f32(v);
    }
    let mut out = BytesMut::new();
    out.put_u8(0x1C);
    out.put_slice(&[0; 12]);
    out.put_f32(1.0);
    out.put_i32(1);
    out.put_slice(&[1, 2, 3]);
    for v in [0.5f32, 0.25, -1.0] {
        out.put_f32(v);
    }
    assert_eq!(only(v1_6_4_to_v1_12_2::s2c_explosion(body.clone().freeze())), out.freeze());
    let short = body.freeze().slice(..46);
    assert!(matches!(v1_6_4_to_v1_12_2::s2c_explosion(short), ConversionResult::Passthrough));
}

#[test]
fn equipment_is_dropped_for_1_6_4() {
    let go = |b: &'static [u8]| v1_12_2_to_v1_6_4::s2c_entity_equipment(Bytes::from_static(b));
    assert!(matches!(go(&[5, 0, 0]), ConversionResult::Drop));
    assert!(matches!(go(&[5]), ConversionResult::Passthrough));
    let packet = payload_with_id(0x3F, &[5, 0, 0]);
    assert!(matches!(v1_12_2_to_v1_6_4::convert_s2c(packet), ConversionResult::Drop));
}

#[test]
fn a_block_change_comes_back_from_1_12_2() {
    let mut body = BytesMut::new();
    body.put_i32(-33_554_432);
    body.put_u8(255);
    body.put_i32(33_554_431);
    body.put_slice(&varint(4095));
    body.put_u8(15);
    let body = body.freeze();
    let (id, there) = split_id(only(v1_8_to_modern::s2c_block_change(body.clone()))).unwrap();
    assert_eq!(id, 0x0B);
    let (id, back) = split_id(only(modern_to_v1_8::s2c_block_change(there))).unwrap();
    assert_eq!((id, back), (0x23, body));
}

/// The body of a packet from a 1.6.4 client or server for 1.12.2, with the id that it must have.
fn newer(r: ConversionResult, id: u8) -> Bytes {
    let (got, body) = split_id(only(r)).unwrap();
    assert_eq!(got, id);
    body
}

#[test]
fn a_keep_alive_of_a_1_6_4_client_is_a_long() {
    let body = newer(v1_6_4_to_v1_12_2::convert_c2s(payload_with_id(0x00, &[0xFF, 0xFF, 0xFF, 0xFE])), 0x0B);
    assert_eq!(&body[..], &(-2i64).to_be_bytes());
    assert!(matches!(
        v1_6_4_to_v1_12_2::convert_c2s(payload_with_id(0x00, &[1, 2, 3])),
        ConversionResult::Passthrough
    ));
}

#[test]
fn digging_of_a_1_6_4_client_has_a_packed_place() {
    let mut packet = BytesMut::new();
    packet.put_i8(2);
    packet.put_i32(-100);
    packet.put_i8(64);
    packet.put_i32(250);
    packet.put_i8(5);
    let body = newer(v1_6_4_to_v1_12_2::c2s_player_digging(packet.clone().freeze()), 0x14);
    let place = encode_legacy_position(Position { x: -100, y: 64, z: 250 });
    assert_eq!(body, [&[2][..], &place.to_be_bytes(), &[5]].concat());
    // And back.
    let back = newer(v1_12_2_to_v1_6_4::c2s_player_digging(body), 0x0E);
    assert_eq!(back, packet.freeze());
}

#[test]
fn placement_of_a_1_6_4_client_has_a_hand_and_singles() {
    let mut packet = BytesMut::new();
    packet.put_i32(7);
    packet.put_u8(200);
    packet.put_i32(-8);
    packet.put_i8(1);
    packet.put_i16(-1);
    packet.put_slice(&[8, 15, 0]);
    let body = newer(v1_6_4_to_v1_12_2::c2s_player_block_placement(packet.clone().freeze()), 0x1F);
    let mut expected = BytesMut::new();
    expected.put_i64(encode_legacy_position(Position { x: 7, y: 200, z: -8 }));
    expected.put_slice(&[1, 0]);
    expected.put_f32(0.5);
    expected.put_f32(0.9375);
    expected.put_f32(0.0);
    assert_eq!(body, expected.freeze());
    // And back.
    let back = newer(v1_12_2_to_v1_6_4::c2s_player_block_placement(body), 0x0F);
    assert_eq!(back, packet.clone().freeze());
    let short = packet.freeze().slice(..14);
    assert!(matches!(v1_6_4_to_v1_12_2::c2s_player_block_placement(short), ConversionResult::Passthrough));
}

#[test]
fn a_held_slot_has_the_width_of_its_release() {
    let held = newer(v1_6_4_to_v1_12_2::c2s_held_item_change(Bytes::from_static(&[0, 8])), 0x1A);
    assert_eq!(&held[..], &[0, 8]);
    let back = newer(v1_12_2_to_v1_6_4::c2s_held_item_change(held), 0x10);
    assert_eq!(&back[..], &[0, 8]);
    let shown = newer(v1_6_4_to_v1_12_2::s2c_held_item_change(Bytes::from_static(&[0, 3])), 0x3A);
    assert_eq!(&shown[..], &[3]);
    assert!(matches!(
        v1_6_4_to_v1_12_2::s2c_held_item_change(Bytes::from_static(&[3])),
        ConversionResult::Passthrough
    ));
    let shown = newer(
        v1_6_4_to_v1_16_5::s2c_held_item_change(Bytes::from_static(&[1, 0])),
        v1_6_4_to_v1_16_5::V165_S2C_HELD_ITEM_CHANGE,
    );
    assert_eq!(shown, varint(256));
}

#[test]
fn steering_comes_back_from_1_12_2() {
    for flags in 0u8..4 {
        let mut packet = BytesMut::new();
        packet.put_f32(0.5);
        packet.put_f32(-1.0);
        packet.put_u8(flags & 1);
        packet.put_u8(flags >> 1);
        let body = newer(v1_6_4_to_v1_12_2::c2s_steer_vehicle(packet.clone().freeze()), 0x16);
        assert_eq!(body[8], flags);
        let back = newer(v1_12_2_to_v1_6_4::c2s_steer_vehicle(body), 0x1B);
        assert_eq!(back, packet.freeze());
    }
}

#[test]
fn an_objective_is_name_value_and_mode() {
    let id = v1_6_4_to_v1_12_2::V112_S2C_SCOREBOARD_OBJECTIVE;
    let go = |mode: u8| {
        let body = [&ucs2("kills")[..], &ucs2("Kills")[..], &[mode]].concat();
        newer(v1_6_4_to_v1_12_2::convert_s2c(payload_with_id(0xCE, &body)), id)
    };
    assert_eq!(go(0), [&text("kills")[..], &text("Kills")[..], &[0]].concat());
    assert_eq!(go(1), [&text("kills")[..], &[1]].concat());
    assert_eq!(go(2), [&text("kills")[..], &text("Kills")[..], &[2]].concat());
    assert_eq!(go(9), [&text("kills")[..], &text("Kills")[..], &[2]].concat());
}

#[test]
fn steps_come_back_from_1_12_2() {
    let packet = [&300i32.to_be_bytes()[..], &[1, 0x80, 0x7F]].concat();
    let body = newer(v1_6_4_to_v1_12_2::s2c_entity_rel_move(Bytes::from(packet.clone())), 0x26);
    let mut expected = BytesMut::new();
    expected.put_slice(&varint(300));
    expected.put_i16(128);
    expected.put_i16(-16384);
    expected.put_i16(16256);
    expected.put_u8(0);
    assert_eq!(body, expected.freeze());
    let back = newer(v1_12_2_to_v1_6_4::s2c_entity_rel_move(body), 0x1F);
    assert_eq!(back, packet);
}

#[test]
fn entities_of_1_6_4_stand_in_32nds() {
    let mut moved = BytesMut::new();
    moved.put_i32(300);
    moved.put_i32(48);
    moved.put_i32(-16);
    moved.put_i32(2048);
    moved.put_slice(&[64, 0xF0]);
    let body = newer(
        v1_6_4_to_v1_12_2::s2c_entity_teleport(moved.freeze()),
        v1_6_4_to_v1_12_2::V112_S2C_ENTITY_TELEPORT,
    );
    let mut expected = BytesMut::new();
    expected.put_slice(&varint(300));
    expected.put_f64(1.5);
    expected.put_f64(-0.5);
    expected.put_f64(64.0);
    expected.put_slice(&[64, 0xF0, 0]);
    assert_eq!(body, expected.freeze());

    let mut spawned = BytesMut::new();
    spawned.put_i32(300);
    spawned.put_slice(&ucs2("Ann"));
    spawned.put_i32(48);
    spawned.put_i32(-16);
    spawned.put_i32(2048);
    spawned.put_slice(&[64, 0xF0, 1, 20]);
    let body = newer(v1_6_4_to_v1_12_2::s2c_spawn_player(spawned.freeze(), (11, 12)), 0x05);
    let mut expected = BytesMut::new();
    expected.put_slice(&varint(300));
    expected.put_u64(11);
    expected.put_u64(12);
    expected.put_f64(1.5);
    expected.put_f64(-0.5);
    expected.put_f64(64.0);
    expected.put_slice(&[64, 0xF0, 0xFF]);
    assert_eq!(body, expected.freeze());

    let still = newer(
        v1_6_4_to_v1_12_2::s2c_entity(Bytes::from_static(&[0, 0, 1, 44])),
        v1_6_4_to_v1_12_2::V112_S2C_ENTITY,
    );
    assert_eq!(still, varint(300));
    assert!(matches!(
        v1_6_4_to_v1_12_2::s2c_entity(Bytes::from_static(&[0, 0, 1])),
        ConversionResult::Passthrough
    ));
}

#[test]
fn a_block_change_of_1_6_4_comes_back_from_1_12_2() {
    let mut packet = BytesMut::new();
    packet.put_i32(-33_554_432);
    packet.put_u8(255);
    packet.put_i32(33_554_431);
    packet.put_i16(35);
    packet.put_u8(14);
    let packet = packet.freeze();
    let body = newer(v1_6_4_to_v1_12_2::s2c_block_change(packet.clone()), 0x0B);
    let place = encode_legacy_position(Position { x: -33_554_432, y: 255, z: 33_554_431 });
    assert_eq!(body, [&place.to_be_bytes()[..], &varint(35 * 16 + 14)[..]].concat());
    let back = newer(v1_12_2_to_v1_6_4::s2c_block_change(body), 0x35);
    assert_eq!(back, packet);
    assert!(matches!(
        v1_6_4_to_v1_12_2::s2c_block_change(packet.slice(..11)),
        ConversionResult::Passthrough
    ));
}

#[test]
fn abilities_take_nine_bytes() {
    let body = Bytes::from_static(&[5, 0x3D, 0x4C, 0xCC, 0xCD, 0x3D, 0xCC, 0xCC, 0xCD]);
    assert_eq!(newer(v1_6_4_to_v1_12_2::s2c_player_abilities(body.clone()), 0x2C), body);
    let id = v1_6_4_to_v1_16_5::V165_S2C_PLAYER_ABILITIES;
    assert_eq!(newer(v1_6_4_to_v1_16_5::s2c_player_abilities(body.clone()), id), body);
    let short = body.slice(..8);
    assert!(matches!(v1_6_4_to_v1_12_2::s2c_player_abilities(short), ConversionResult::Passthrough));
}

#[test]
fn equipment_of_1_16_5_has_an_id_and_a_place_of_variable_length() {
    // The boots of entity 300, which are none.
    let body = [&varint(300)[..], &[2, 0]].concat();
    let sent = v1_16_5_to_v1_12_2::s2c_entity_equipment(Bytes::from(body), &Flattening::new()).expect("reads");
    assert_eq!(newer(sent, 0x3F), [&varint(300)[..], &[1, 0]].concat());
}

#[test]
fn a_sign_for_1_16_5_is_packed_in_the_newer_order() {
    let mut packet = BytesMut::new();
    packet.put_i32(-5);
    packet.put_i16(70);
    packet.put_i32(1000);
    packet.put_slice(&ucs2("a"));
    packet.put_slice(&ucs2(""));
    packet.put_slice(&ucs2("b"));
    packet.put_slice(&ucs2(""));
    let sent = v1_6_4_to_v1_16_5::try_convert_c2s(payload_with_id(0x82, &packet)).expect("reads");
    let body = newer(sent, v1_6_4_to_v1_16_5::V165_C2S_UPDATE_SIGN);
    let place = encode_modern_position(Position { x: -5, y: 70, z: 1000 });
    assert_eq!(
        body,
        [&place.to_be_bytes()[..], &text("a")[..], &text("")[..], &text("b")[..], &text("")[..]].concat()
    );
}

#[test]
fn a_horse_window_ends_with_32_bits() {
    let mut body = vec![3, 11];
    body.extend_from_slice(&ucs2("Horse"));
    body.extend_from_slice(&[2, 1, 0, 0, 1, 44]);
    let mut expected = BytesMut::new();
    expected.put_u8(3);
    expected.extend_from_slice(&text("EntityHorse"));
    expected.extend_from_slice(&text("Horse"));
    expected.put_u8(2);
    expected.put_i32(300);
    let sent = only(v1_6_4_to_v1_12_2::convert_s2c(payload_with_id(0x64, &body)));
    assert_eq!(sent, payload_with_id(v1_6_4_to_v1_12_2::V112_S2C_OPEN_WINDOW, &expected));
}

#[test]
fn a_removed_score_ends_behind_its_mode() {
    let id = v1_6_4_to_v1_12_2::V112_S2C_UPDATE_SCORE;
    let mut body = ucs2("Ann");
    body.push(1);
    let removed = only(v1_6_4_to_v1_12_2::convert_s2c(payload_with_id(0xCF, &body)));
    assert_eq!(removed, payload_with_id(id, &[&text("Ann")[..], &[1]].concat()));
    let mut body = ucs2("Ann");
    body.push(0);
    body.extend_from_slice(&ucs2("kills"));
    body.extend_from_slice(&[0, 0, 1, 44]);
    let kept = only(v1_6_4_to_v1_12_2::convert_s2c(payload_with_id(0xCF, &body)));
    assert_eq!(kept, payload_with_id(id, &[&text("Ann")[..], &[0], &text("kills")[..], &varint(300)[..]].concat()));
}

#[test]
fn a_listed_player_has_the_id_of_the_name() {
    let mut body = ucs2("Ann");
    body.extend_from_slice(&[1, 0, 40]);
    let (high, low) = offline_uuid("Ann");
    let mut expected = BytesMut::new();
    expected.extend_from_slice(&[0, 1]);
    expected.put_u64(high);
    expected.put_u64(low);
    expected.extend_from_slice(&text("Ann"));
    expected.extend_from_slice(&[0, 0, 0]);
    let sent = only(v1_6_4_to_v1_12_2::convert_s2c(payload_with_id(0xC9, &body)));
    assert_eq!(sent, payload_with_id(v1_6_4_to_v1_12_2::V112_S2C_PLAYER_LIST_ITEM, &expected));
    let direct = v1_6_4_to_v1_12_2::added_player("Ann", (high, low));
    assert_eq!(only(direct), sent);
}

fn modern_s2c(id: u8, body: &[u8], proto: u32) -> Option<(u8, Bytes)> {
    match modern_to_v1_8::convert_s2c(payload_with_id(id, body), proto, &ItemFlatteningTable::new()) {
        ConversionResult::Converted(mut pkts) if pkts.len() == 1 => {
            let mut p = pkts.remove(0);
            let new_id = take_varint(&mut p) as u8;
            Some((new_id, p))
        }
        _ => None,
    }
}

fn pack_position(x: i32, y: i32, z: i32) -> i64 {
    (((x as i64) & 0x3FF_FFFF) << 38) | (((y as i64) & 0xFFF) << 26) | ((z as i64) & 0x3FF_FFFF)
}

#[test]
fn keep_alive_long_to_varint() {
    let mut body = BytesMut::new();
    body.put_i64(99);
    let (id, mut rest) = modern_s2c(modern_to_v1_8::V112_S2C_KEEP_ALIVE, &body, 340).unwrap();
    assert_eq!(id, modern_to_v1_8::V18_S2C_KEEP_ALIVE);
    assert_eq!(take_varint(&mut rest), 99);
}

#[test]
fn join_game_dimension_narrows() {
    let mut body = BytesMut::new();
    body.put_i32(7);
    body.put_u8(1);
    body.put_i32(-1);
    body.put_u8(2);
    body.put_u8(20);
    body.put_slice(&text("default"));
    body.put_u8(0);
    let (id, mut rest) = modern_s2c(modern_to_v1_8::V112_S2C_JOIN_GAME, &body, 340).unwrap();
    assert_eq!(id, modern_to_v1_8::V18_S2C_JOIN_GAME);
    assert_eq!(rest.get_i32(), 7);
    assert_eq!(rest.get_u8(), 1);
    assert_eq!(rest.get_i8(), -1);
}

#[test]
fn player_pos_look_strips_teleport_id() {
    let mut body = BytesMut::new();
    body.put_f64(1.0);
    body.put_f64(2.0);
    body.put_f64(3.0);
    body.put_f32(10.0);
    body.put_f32(20.0);
    body.put_u8(0);
    body.put_slice(&varint(42));
    let (id, rest) = modern_s2c(modern_to_v1_8::V112_S2C_PLAYER_POS_LOOK, &body, 340).unwrap();
    assert_eq!(id, modern_to_v1_8::V18_S2C_PLAYER_POS_LOOK);
    assert_eq!(rest.len(), 33);
}

#[test]
fn block_change_unpacks_position_and_state() {
    let pos = pack_position(100, 64, -50);
    let block_state = (5_i32 << 4) | 7;
    let mut body = BytesMut::new();
    body.put_i64(pos);
    body.put_slice(&varint(block_state));
    let (id, mut rest) = modern_s2c(modern_to_v1_8::V112_S2C_BLOCK_CHANGE, &body, 340).unwrap();
    assert_eq!(id, modern_to_v1_8::V18_S2C_BLOCK_CHANGE);
    assert_eq!(rest.get_i32(), 100);
    assert_eq!(rest.get_u8(), 64);
    assert_eq!(rest.get_i32(), -50);
    assert_eq!(take_varint(&mut rest), 5);
    assert_eq!(rest.get_u8(), 7);
}

#[test]
fn entity_teleport_scales_to_fixed_point() {
    let mut body = BytesMut::new();
    body.put_slice(&varint(10));
    body.put_f64(1.5);
    body.put_f64(64.0);
    body.put_f64(-2.25);
    body.put_u8(0);
    body.put_u8(0);
    body.put_u8(1);
    let (id, mut rest) = modern_s2c(modern_to_v1_8::V112_S2C_ENTITY_TELEPORT, &body, 340).unwrap();
    assert_eq!(id, modern_to_v1_8::V18_S2C_ENTITY_TELEPORT);
    assert_eq!(take_varint(&mut rest), 10);
    assert_eq!(rest.get_i32(), 48);
    assert_eq!(rest.get_i32(), 2048);
    assert_eq!(rest.get_i32(), -72);
}

#[test]
fn entity_rel_move_scales_delta() {
    let mut body = BytesMut::new();
    body.put_slice(&varint(7));
    body.put_i16(256);
    body.put_i16(-128);
    body.put_i16(0);
    body.put_u8(1);
    let (id, mut rest) = modern_s2c(modern_to_v1_8::V112_S2C_ENTITY_REL_MOVE, &body, 340).unwrap();
    assert_eq!(id, modern_to_v1_8::V18_S2C_ENTITY_REL_MOVE);
    assert_eq!(take_varint(&mut rest), 7);
    assert_eq!(rest.get_i8(), 2);
    assert_eq!(rest.get_i8(), -1);
    assert_eq!(rest.get_i8(), 0);
    assert_eq!(rest.get_u8(), 1);
}

#[test]
fn boss_bar_drops() {
    let full = payload_with_id(modern_to_v1_8::V112_S2C_BOSS_BAR, &[]);
    match modern_to_v1_8::convert_s2c(full, 340, &ItemFlatteningTable::new()) {
        ConversionResult::Drop => {}
        _ => panic!("BossBar should drop"),
    }
}

#[test]
fn reader_short_read_is_none() {
    let mut r = Reader::new(Bytes::from_static(&[0x01, 0x02]));
    assert_eq!(r.u8(), Some(0x01));
    assert_eq!(r.i32(), None);
    assert_eq!(r.remaining(), 1);
}

#[test]
fn guard_catches_panic() {
    let r = guard("test", None);
    assert!(matches!(r, ConversionResult::Drop));
}

#[test]
fn keep_alive_truncates_i64_to_i32() {
    let mut body = BytesMut::new();
    body.put_i64(0x0000_0000_DEAD_BEEFu64 as i64);
    let payload = build_payload(v1_12_2_to_v1_6_4::V112_C2S_KEEP_ALIVE, &body);
    let mut out = only(v1_12_2_to_v1_6_4::convert_c2s(payload));
    let id = take_varint(&mut out) as u8;
    assert_eq!(id, v1_12_2_to_v1_6_4::V164_C2S_KEEP_ALIVE);
    assert_eq!(out.get_i32(), 0xDEAD_BEEFu32 as i32);
}

#[test]
fn chat_encodes_ucs2_big_endian() {
    let msg = "Hi";
    let mut body = BytesMut::new();
    body.put_slice(&varint(msg.len() as i32));
    body.extend_from_slice(msg.as_bytes());
    let payload = build_payload(v1_12_2_to_v1_6_4::V112_C2S_CHAT, &body);
    let mut out = only(v1_12_2_to_v1_6_4::convert_c2s(payload));
    let id = take_varint(&mut out) as u8;
    assert_eq!(id, v1_12_2_to_v1_6_4::V164_C2S_CHAT);
    assert_eq!(out.get_u16(), 2);
    assert_eq!(out.get_u16(), 0x0048);
    assert_eq!(out.get_u16(), 0x0069);
}

#[test]
fn chat_truncates_to_100_chars() {
    let msg = "X".repeat(200);
    let mut body = BytesMut::new();
    body.put_slice(&varint(msg.len() as i32));
    body.extend_from_slice(msg.as_bytes());
    let payload = build_payload(v1_12_2_to_v1_6_4::V112_C2S_CHAT, &body);
    let mut out = only(v1_12_2_to_v1_6_4::convert_c2s(payload));
    let _id = take_varint(&mut out);
    let n = out.get_u16();
    assert_eq!(n, 100, "1.6.4 chat capped at 100 chars");
}

#[test]
fn legacy_position_roundtrip_via_re_encode() {
    for p in [
        Position::new(0, 0, 0),
        Position::new(100, 64, -200),
        Position::new(-33554432, 2047, 33554431),
    ] {
        let packed = encode_legacy_position(p);
        let v = packed as i64;
        let mut x = (v >> 38) & 0x3FF_FFFF;
        let mut y = (v >> 26) & 0xFFF;
        let mut z = v & 0x3FF_FFFF;
        if x >= 0x200_0000 {
            x -= 0x400_0000;
        }
        if z >= 0x200_0000 {
            z -= 0x400_0000;
        }
        if y >= 0x800 {
            y -= 0x1000;
        }
        assert_eq!(Position { x: x as i32, y: y as i32, z: z as i32 }, p, "legacy roundtrip");
    }
}

#[test]
fn join_game_strips_codec_and_translates_dimension() {
    const MINIMAL_NBT: &[u8] = &[0x0A, 0x00, 0x00, 0x00];

    let mut body = BytesMut::new();
    body.put_i32(7);
    body.put_u8(0);
    body.put_u8(2);
    body.put_i8(-1);
    body.put_slice(&varint(1));
    let w = b"minecraft:the_nether";
    body.put_slice(&varint(w.len() as i32));
    body.extend_from_slice(w);
    body.extend_from_slice(MINIMAL_NBT);
    body.extend_from_slice(MINIMAL_NBT);
    body.put_slice(&varint(w.len() as i32));
    body.extend_from_slice(w);
    body.put_i64(0);
    body.put_slice(&varint(0));
    body.put_slice(&varint(8));
    body.put_u8(0);
    body.put_u8(1);
    body.put_u8(0);
    body.put_u8(0);

    let mut out = only(v1_16_5_to_v1_12_2::s2c_join_game(body.freeze()));
    let id = take_varint(&mut out) as u8;
    assert_eq!(id, v1_16_5_to_v1_12_2::V12_S2C_JOIN_GAME);
    let eid = out.get_i32();
    assert_eq!(eid, 7);
    let gm = out.get_u8();
    assert_eq!(gm, 2);
    let dim = out.get_i32();
    assert_eq!(dim, -1);
}

#[test]
fn spawn_position_repacks_to_legacy_layout() {
    let pos = Position::new(10, 80, -30);
    let mut body = BytesMut::new();
    body.put_u64(encode_modern_position(pos) as u64);

    let mut out = only(v1_16_5_to_v1_12_2::s2c_spawn_position(body.freeze()));
    let id = take_varint(&mut out) as u8;
    assert_eq!(id, v1_16_5_to_v1_12_2::V12_S2C_SPAWN_POSITION);
    let packed = out.get_u64();
    assert_eq!(packed, encode_legacy_position(pos) as u64);
}

#[test]
fn chat_strips_sender_uuid() {
    let json = br#"{"text":"hi"}"#;
    let mut body = BytesMut::new();
    body.put_slice(&varint(json.len() as i32));
    body.extend_from_slice(json);
    body.put_u8(0);
    body.put_u64(0);
    body.put_u64(0);

    let mut out = only(v1_16_5_to_v1_12_2::s2c_chat(body.freeze()).expect("reads"));
    let id = take_varint(&mut out) as u8;
    assert_eq!(id, v1_16_5_to_v1_12_2::V12_S2C_CHAT);
    let len = take_varint(&mut out) as usize;
    assert_eq!(len, json.len());
    out.advance(len);
    let pos = out.get_u8();
    assert_eq!(pos, 0);
    assert_eq!(out.remaining(), 0);
}

#[test]
fn login_start_drops_uuid_suffix() {
    let mut body = BytesMut::new();
    body.extend_from_slice(&text("alex"));
    body.put_i64(0xDEADBEEF);
    body.put_i64(0xCAFEBABE);
    let payload = build_payload(v1_20_4_to_v1_16_5::V1204_LOGIN_C2S_LOGIN_START, &body);
    let out = only(v1_20_4_to_v1_16_5::convert_c2s(payload, 765, &Vec::new()));
    let (id, mut rest) = split_id(out).unwrap();
    assert_eq!(id, v1_20_4_to_v1_16_5::V165_LOGIN_C2S_LOGIN_START);
    assert_eq!(take_text(&mut rest), "alex");
    assert_eq!(rest.remaining(), 0);
}

#[test]
fn login_ack_injects_finish_configuration() {
    let payload = build_payload(v1_20_4_to_v1_16_5::V1204_LOGIN_C2S_LOGIN_ACK, &[]);
    match v1_20_4_to_v1_16_5::convert_c2s(payload, 765, &Vec::new()) {
        ConversionResult::InjectS2C(packets) => {
            assert_eq!(packets.len(), 1, "proto 765: exactly one synthetic packet");
            assert_eq!(packets[0].len(), 1, "id varint only, empty body");
            assert_eq!(packets[0][0], 0x02);
        }
        _ => panic!("expected InjectS2C"),
    }
}

#[test]
fn login_ack_766_injects_registry_data_then_finish() {
    let registries = vec![Bytes::from_static(&[0x07, 1]), Bytes::from_static(&[0x07, 2])];
    let payload = build_payload(v1_20_4_to_v1_16_5::V1204_LOGIN_C2S_LOGIN_ACK, &[]);
    match v1_20_4_to_v1_16_5::convert_c2s(payload, 766, &registries) {
        ConversionResult::InjectS2C(packets) => {
            assert!(packets.len() > 1, "proto 766: expected RegistryData + FinishConfiguration");
            assert_eq!(packets[0], registries[0]);
            assert_eq!(packets[1], registries[1]);
            let last = &packets[packets.len() - 1];
            assert_eq!(last[0], 0x03, "last packet should be FinishConfiguration (0x03)");
        }
        _ => panic!("expected InjectS2C"),
    }
}

#[test]
fn finish_configuration_ack_is_dropped() {
    let payload = build_payload(v1_20_4_to_v1_16_5::V1204_CONFIG_C2S_FINISH_CONFIGURATION_ACK, &[]);
    assert!(matches!(
        v1_20_4_to_v1_16_5::convert_c2s(payload, 765, &Vec::new()),
        ConversionResult::Drop
    ));
}

#[test]
fn chat_strips_signature_and_metadata() {
    let mut body = BytesMut::new();
    body.extend_from_slice(&text("hello"));
    body.put_i64(123);
    body.put_i64(456);
    body.put_u8(0);
    body.put_slice(&varint(0));
    let payload = build_payload(v1_20_4_to_v1_16_5::V1204_PLAY_C2S_CHAT_MESSAGE, &body);
    let out = only(v1_20_4_to_v1_16_5::convert_c2s(payload, 765, &Vec::new()));
    let (id, mut rest) = split_id(out).unwrap();
    assert_eq!(id, v1_20_4_to_v1_16_5::V165_PLAY_C2S_CHAT_MESSAGE);
    assert_eq!(take_text(&mut rest), "hello");
    assert_eq!(rest.remaining(), 0);
}

#[test]
fn encryption_response_with_token_passes_through_shape() {
    let mut body = BytesMut::new();
    let secret = [0xAAu8; 16];
    let token = [0xBBu8; 4];
    body.put_slice(&varint(secret.len() as i32));
    body.extend_from_slice(&secret);
    body.put_u8(1);
    body.put_slice(&varint(token.len() as i32));
    body.extend_from_slice(&token);
    let payload = build_payload(v1_20_4_to_v1_16_5::V1204_LOGIN_C2S_ENCRYPTION_RESPONSE, &body);
    let out = only(v1_20_4_to_v1_16_5::convert_c2s(payload, 765, &Vec::new()));
    let (id, mut rest) = split_id(out).unwrap();
    assert_eq!(id, v1_20_4_to_v1_16_5::V165_LOGIN_C2S_ENCRYPTION_RESPONSE);
    let slen = take_varint(&mut rest) as usize;
    assert_eq!(slen, secret.len());
    let s = rest.split_to(slen);
    assert_eq!(&s[..], &secret[..]);
    let tlen = take_varint(&mut rest) as usize;
    assert_eq!(tlen, token.len());
    let t = rest.split_to(tlen);
    assert_eq!(&t[..], &token[..]);
}

fn pack_pos(x: i64, y: i64, z: i64) -> i64 {
    ((x & 0x3FF_FFFF) << 38) | ((y & 0xFFF) << 26) | (z & 0x3FF_FFFF)
}

#[test]
fn position_roundtrip_via_spawn_position() {
    let mut body = BytesMut::new();
    body.put_i32(10);
    body.put_i32(64);
    body.put_i32(-3);
    let pkt = only(v1_7_to_v1_8::s2c_spawn_position(body.freeze()));
    let (id, mut rest) = split_id(pkt).unwrap();
    assert_eq!(id, v1_7_to_v1_8::V18_S2C_SPAWN_POSITION);
    let packed = rest.get_i64();
    assert_eq!(packed, pack_pos(10, 64, -3));
}

#[test]
fn chat_appends_position_byte() {
    let mut body = BytesMut::new();
    body.put_slice(&text("hello"));
    let pkt = only(v1_7_to_v1_8::s2c_chat(body.freeze()));
    let (id, mut rest) = split_id(pkt).unwrap();
    assert_eq!(id, v1_7_to_v1_8::V18_S2C_CHAT);
    let s = take_text(&mut rest);
    assert_eq!(s, "hello");
    assert_eq!(rest.get_u8(), 0);
}

#[test]
fn player_pos_look_drops_stance() {
    let mut body = BytesMut::new();
    body.put_f64(1.0);
    body.put_f64(72.62);
    body.put_f64(71.0);
    body.put_f64(2.0);
    body.put_f32(90.0);
    body.put_f32(0.0);
    body.put_u8(1);
    let pkt = only(v1_7_to_v1_8::s2c_player_pos_look(body.freeze()));
    let (id, mut rest) = split_id(pkt).unwrap();
    assert_eq!(id, v1_7_to_v1_8::V18_S2C_PLAYER_POS_LOOK);
    assert_eq!(rest.get_f64(), 1.0);
    assert_eq!(rest.get_f64(), 71.0);
    assert_eq!(rest.get_f64(), 2.0);
    assert_eq!(rest.get_f32(), 90.0);
    assert_eq!(rest.get_f32(), 0.0);
    assert_eq!(rest.get_u8(), 0);
}

#[test]
fn entity_destroy_widens_count_and_ids() {
    let mut body = BytesMut::new();
    body.put_i8(2);
    body.put_i32(42);
    body.put_i32(7);
    let pkt = only(v1_7_to_v1_8::s2c_entity_destroy(body.freeze()));
    let (id, mut rest) = split_id(pkt).unwrap();
    assert_eq!(id, v1_7_to_v1_8::V18_S2C_ENTITY_DESTROY);
    assert_eq!(take_varint(&mut rest), 2);
    assert_eq!(take_varint(&mut rest), 42);
    assert_eq!(take_varint(&mut rest), 7);
}

#[test]
fn c2s_digging_uses_packed_position() {
    let mut body = BytesMut::new();
    body.put_i8(0);
    body.put_i32(100);
    body.put_u8(64);
    body.put_i32(-50);
    body.put_i8(1);
    let pkt = only(v1_7_to_v1_8::c2s_player_digging(body.freeze()));
    let (id, mut rest) = split_id(pkt).unwrap();
    assert_eq!(id, v1_7_to_v1_8::V18_C2S_PLAYER_DIGGING);
    assert_eq!(rest.get_i8(), 0);
    assert_eq!(rest.get_i64(), pack_pos(100, 64, -50));
    assert_eq!(rest.get_i8(), 1);
}

fn v1_8_c2s(id: u8, body: &[u8], proto: u32) -> Option<(u8, Bytes)> {
    match v1_8_to_modern::convert_c2s(payload_with_id(id, body), proto, 0) {
        ConversionResult::Converted(mut pkts) if pkts.len() == 1 => {
            let mut p = pkts.remove(0);
            let new_id = take_varint(&mut p) as u8;
            Some((new_id, p))
        }
        _ => None,
    }
}

#[test]
fn keep_alive_varint_to_long() {
    let body = varint(0x1234);
    let (id, mut r) = v1_8_c2s(v1_8_to_modern::V18_C2S_KEEP_ALIVE, &body, 340).unwrap();
    assert_eq!(id, v1_8_to_modern::V112_C2S_KEEP_ALIVE);
    assert_eq!(r.get_i64(), 0x1234);
}

#[test]
fn chat_rewrap() {
    let body = text("hello");
    let (id, mut rest) = v1_8_c2s(v1_8_to_modern::V18_C2S_CHAT, &body, 340).unwrap();
    assert_eq!(id, v1_8_to_modern::V112_C2S_CHAT);
    assert_eq!(take_text(&mut rest), "hello");
}

#[test]
fn use_entity_attack_no_hand() {
    let mut body = BytesMut::new();
    body.put_slice(&varint(42));
    body.put_slice(&varint(1));
    let (id, mut rest) = v1_8_c2s(v1_8_to_modern::V18_C2S_USE_ENTITY, &body, 340).unwrap();
    assert_eq!(id, v1_8_to_modern::V112_C2S_USE_ENTITY);
    assert_eq!(take_varint(&mut rest), 42);
    assert_eq!(take_varint(&mut rest), 1);
    assert!(rest.is_empty());
}

#[test]
fn use_entity_interact_appends_hand() {
    let mut body = BytesMut::new();
    body.put_slice(&varint(7));
    body.put_slice(&varint(0));
    let (id, mut rest) = v1_8_c2s(v1_8_to_modern::V18_C2S_USE_ENTITY, &body, 340).unwrap();
    assert_eq!(id, v1_8_to_modern::V112_C2S_USE_ENTITY);
    assert_eq!(take_varint(&mut rest), 7);
    assert_eq!(take_varint(&mut rest), 0);
    assert_eq!(take_varint(&mut rest), 0);
}

#[test]
fn animation_gets_hand() {
    let (id, mut rest) = v1_8_c2s(v1_8_to_modern::V18_C2S_ANIMATION, &[], 340).unwrap();
    assert_eq!(id, v1_8_to_modern::V112_C2S_ANIMATION);
    assert_eq!(take_varint(&mut rest), 0);
}

#[test]
fn entity_action_widens_to_varint() {
    let mut body = BytesMut::new();
    body.put_i32(99);
    body.put_u8(3);
    body.put_i32(0);
    let (id, mut rest) = v1_8_c2s(v1_8_to_modern::V18_C2S_ENTITY_ACTION, &body, 340).unwrap();
    assert_eq!(id, v1_8_to_modern::V112_C2S_ENTITY_ACTION);
    assert_eq!(take_varint(&mut rest), 99);
    assert_eq!(take_varint(&mut rest), 3);
    assert_eq!(take_varint(&mut rest), 0);
}

#[test]
fn digging_packs_position() {
    let mut body = BytesMut::new();
    body.put_u8(0);
    body.put_i32(10);
    body.put_u8(64);
    body.put_i32(-20);
    body.put_i8(1);
    let (id, mut rest) = v1_8_c2s(v1_8_to_modern::V18_C2S_DIGGING, &body, 340).unwrap();
    assert_eq!(id, v1_8_to_modern::V112_C2S_DIGGING);
    assert_eq!(take_varint(&mut rest), 0);
    let pos = rest.get_i64();
    let want = v1_8_to_modern::pack_position(10, 64, -20);
    assert_eq!(pos, want);
    assert_eq!(take_varint(&mut rest), 1);
}

#[test]
fn settings_appends_main_hand() {
    let mut body = BytesMut::new();
    body.put_slice(&text("en_US"));
    body.put_i8(8);
    body.put_i8(0);
    body.put_u8(1);
    body.put_u8(0x7F);
    let (id, rest) = v1_8_c2s(v1_8_to_modern::V18_C2S_SETTINGS, &body, 340).unwrap();
    assert_eq!(id, v1_8_to_modern::V112_C2S_SETTINGS);
    let last = rest[rest.len() - 1];
    assert_eq!(last, 1);
}

#[test]
fn other_packets_passthrough_outside_epoch() {
    let full = payload_with_id(v1_8_to_modern::V18_C2S_KEEP_ALIVE, &varint(123));
    match v1_8_to_modern::convert_c2s(full, 754, 0) {
        ConversionResult::Passthrough => {}
        _ => panic!("expected passthrough for non-1.12 epoch"),
    }
}
