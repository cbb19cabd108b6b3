//! What becomes of the packets of 1.8 for 1.12.2, field by field.

use crate::converter::laws::fields::{
    fields_read, i16_field, i32_field, i64_field, i8_field, sendable, text_field, u32_field,
    u64_field, varint_field,
};
use crate::converter::outcome::{Outcome, converted, packet};
use crate::converter::v1_8_to_modern::{spec_convert_c2s, spec_convert_s2c};
use crate::number::{double_of_fixed, single_of_sixteenths};
use crate::position::legacy_bits;
use crate::text::{string_at, wire_string};
use crate::varint::varint;
use crate::wire::{be32, be64, be_i16, be_i32, be_i64, i16_at, i32_at, i8_at};
use vstd::prelude::*;

verus! {

/// KeepAlive: the variable-length id becomes an `i64`.
pub proof fn s2c_keep_alive(id: i32, rest: Seq<u8>, server_proto: u32)
    requires
        107 <= server_proto < 393,
    ensures
        spec_convert_s2c(packet(
            0x00,
            varint_field(id) + rest,
        ), server_proto) == converted(
            0x1F,
            be_i64(id as i64),
        ),
{
    broadcast use fields_read;
}

/// KeepAlive: one that ends before its last field is left alone.
pub proof fn s2c_keep_alive_cut_off(server_proto: u32)
    requires
        107 <= server_proto < 393,
    ensures
        spec_convert_s2c(packet(
            0x00,
            Seq::<u8>::empty(),
        ), server_proto) == Outcome::Passthrough,
{
    broadcast use fields_read;
}

/// JoinGame: the dimension becomes 32 bits. What is missing behind the game mode has a default.
#[verifier::rlimit(80)]
pub proof fn s2c_join_game(
    entity_id: i32,
    game_mode: u8,
    dimension: i8,
    difficulty: u8,
    max_players: u8,
    level_type: Seq<char>,
    reduced_debug: u8,
    rest: Seq<u8>,
    server_proto: u32,
)
    requires
        107 <= server_proto < 393,
        sendable(level_type),
    ensures
        spec_convert_s2c(packet(
            0x01,
            i32_field(entity_id) + seq![game_mode] + i8_field(dimension) + seq![difficulty]
                + seq![max_players] + text_field(level_type) + seq![reduced_debug] + rest,
        ), server_proto) == converted(
            0x23,
            be_i32(entity_id) + seq![game_mode] + be_i32(dimension as i32) + seq![difficulty]
                + seq![max_players] + wire_string(level_type) + seq![reduced_debug],
        ),
{
    broadcast use fields_read;
    let b = i32_field(entity_id) + seq![game_mode] + i8_field(dimension) + seq![difficulty]
            + seq![max_players] + text_field(level_type) + seq![reduced_debug] + rest;
    assert(i32_at(b, 0) == entity_id);
    assert(b[4] == game_mode);
    assert(i8_at(b, 5) == dimension);
    assert(b[6] == difficulty);
    assert(b[7] == max_players);
    let p1: int = (8 + text_field(level_type).len()) as int;
    assert(string_at(b, 8) == Some((level_type, p1)));
    assert(b[p1] == reduced_debug);
}

/// JoinGame: one that ends before its last field is left alone.
pub proof fn s2c_join_game_cut_off(entity_id: i32, server_proto: u32)
    requires
        107 <= server_proto < 393,
    ensures
        spec_convert_s2c(packet(
            0x01,
            i32_field(entity_id),
        ), server_proto) == Outcome::Passthrough,
{
    broadcast use fields_read;
}

/// JoinGame: what is missing at the end has its default.
#[verifier::rlimit(80)]
pub proof fn s2c_join_game_defaults(entity_id: i32, game_mode: u8, server_proto: u32)
    requires
        107 <= server_proto < 393,
    ensures
        spec_convert_s2c(packet(
            0x01,
            i32_field(entity_id) + seq![game_mode],
        ), server_proto) == converted(
            0x23,
            be_i32(entity_id) + seq![game_mode] + be_i32(0i8 as i32) + seq![2u8] + seq![100u8]
                + wire_string("default"@) + seq![0u8],
        ),
{
    broadcast use fields_read;
}

/// PlayerPositionAndLook: teleport id 0 at the end.
#[verifier::rlimit(80)]
pub proof fn s2c_player_pos_look(
    x: u64,
    y: u64,
    z: u64,
    yaw: u32,
    pitch: u32,
    flags: u8,
    rest: Seq<u8>,
    server_proto: u32,
)
    requires
        107 <= server_proto < 393,
    ensures
        spec_convert_s2c(packet(
            0x08,
            u64_field(x) + u64_field(y) + u64_field(z) + u32_field(yaw) + u32_field(pitch) + seq![flags]
                + rest,
        ), server_proto) == converted(
            0x2F,
            be64(x) + be64(y) + be64(z) + be32(yaw) + be32(pitch) + seq![flags] + varint(0i32),
        ),
{
    broadcast use fields_read;
}

/// PlayerPositionAndLook: one that ends before its last field is left alone.
#[verifier::rlimit(60)]
pub proof fn s2c_player_pos_look_cut_off(
    x: u64,
    y: u64,
    z: u64,
    yaw: u32,
    short: Seq<u8>,
    server_proto: u32,
)
    requires
        107 <= server_proto < 393,
        short.len() < 4,
    ensures
        spec_convert_s2c(packet(
            0x08,
            u64_field(x) + u64_field(y) + u64_field(z) + u32_field(yaw) + short,
        ), server_proto) == Outcome::Passthrough,
{
    broadcast use fields_read;
}

/// PlayerPositionAndLook: what is missing at the end has its default.
pub proof fn s2c_player_pos_look_defaults(
    x: u64,
    y: u64,
    z: u64,
    yaw: u32,
    pitch: u32,
    server_proto: u32,
)
    requires
        107 <= server_proto < 393,
    ensures
        spec_convert_s2c(packet(
            0x08,
            u64_field(x) + u64_field(y) + u64_field(z) + u32_field(yaw) + u32_field(pitch),
        ), server_proto) == converted(
            0x2F,
            be64(x) + be64(y) + be64(z) + be32(yaw) + be32(pitch) + seq![0u8] + varint(0i32),
        ),
{
    broadcast use fields_read;
}

/// CollectItem: one item is collected.
pub proof fn s2c_collect_item(collected: i32, collector: i32, rest: Seq<u8>, server_proto: u32)
    requires
        107 <= server_proto < 393,
    ensures
        spec_convert_s2c(packet(
            0x0D,
            varint_field(collected) + varint_field(collector) + rest,
        ), server_proto) == converted(
            0x4B,
            varint(collected) + varint(collector) + varint(1i32),
        ),
{
    broadcast use fields_read;
}

/// CollectItem: one that ends before its last field is left alone.
pub proof fn s2c_collect_item_cut_off(collected: i32, server_proto: u32)
    requires
        107 <= server_proto < 393,
    ensures
        spec_convert_s2c(packet(
            0x0D,
            varint_field(collected),
        ), server_proto) == Outcome::Passthrough,
{
    broadcast use fields_read;
}

/// EntityTeleport: the coordinates, in 32nds of a block, become doubles.
#[verifier::rlimit(80)]
pub proof fn s2c_entity_teleport(
    entity_id: i32,
    x: i32,
    y: i32,
    z: i32,
    yaw: u8,
    pitch: u8,
    on_ground: u8,
    rest: Seq<u8>,
    server_proto: u32,
)
    requires
        107 <= server_proto < 393,
    ensures
        spec_convert_s2c(packet(
            0x18,
            varint_field(entity_id) + i32_field(x) + i32_field(y) + i32_field(z) + seq![yaw]
                + seq![pitch] + seq![on_ground] + rest,
        ), server_proto) == converted(
            0x4C,
            varint(entity_id) + be64(double_of_fixed(x as int, 5)) + be64(double_of_fixed(y as int, 5))
                + be64(double_of_fixed(z as int, 5)) + seq![yaw] + seq![pitch] + seq![on_ground],
        ),
{
    broadcast use fields_read;
}

/// EntityTeleport: one that ends before its last field is left alone.
pub proof fn s2c_entity_teleport_cut_off(
    entity_id: i32,
    x: i32,
    y: i32,
    short: Seq<u8>,
    server_proto: u32,
)
    requires
        107 <= server_proto < 393,
        short.len() < 4,
    ensures
        spec_convert_s2c(packet(
            0x18,
            varint_field(entity_id) + i32_field(x) + i32_field(y) + short,
        ), server_proto) == Outcome::Passthrough,
{
    broadcast use fields_read;
}

/// EntityTeleport: what is missing at the end has its default.
pub proof fn s2c_entity_teleport_defaults(entity_id: i32, x: i32, y: i32, z: i32, server_proto: u32)
    requires
        107 <= server_proto < 393,
    ensures
        spec_convert_s2c(packet(
            0x18,
            varint_field(entity_id) + i32_field(x) + i32_field(y) + i32_field(z),
        ), server_proto) == converted(
            0x4C,
            varint(entity_id) + be64(double_of_fixed(x as int, 5)) + be64(double_of_fixed(y as int, 5))
                + be64(double_of_fixed(z as int, 5)) + seq![0u8] + seq![0u8] + seq![1u8],
        ),
{
    broadcast use fields_read;
}

/// BlockChange: the place is packed, and the id and the low four bits of the metadata become
/// one state.
pub proof fn s2c_block_change(
    x: i32,
    y: u8,
    z: i32,
    block_id: i32,
    metadata: u8,
    rest: Seq<u8>,
    server_proto: u32,
)
    requires
        107 <= server_proto < 393,
    ensures
        spec_convert_s2c(packet(
            0x23,
            i32_field(x) + seq![y] + i32_field(z) + varint_field(block_id) + seq![metadata] + rest,
        ), server_proto) == converted(
            0x0B,
            be_i64(legacy_bits(x as int, y as int, z as int) as i64)
                + varint((block_id << 4) | (metadata as i32 & 0xF)),
        ),
{
    broadcast use fields_read;
}

/// BlockChange: one that ends before its last field is left alone.
pub proof fn s2c_block_change_cut_off(x: i32, y: u8, z: i32, server_proto: u32)
    requires
        107 <= server_proto < 393,
    ensures
        spec_convert_s2c(packet(
            0x23,
            i32_field(x) + seq![y] + i32_field(z),
        ), server_proto) == Outcome::Passthrough,
{
    broadcast use fields_read;
}

/// BlockChange: what is missing at the end has its default.
pub proof fn s2c_block_change_defaults(x: i32, y: u8, z: i32, block_id: i32, server_proto: u32)
    requires
        107 <= server_proto < 393,
    ensures
        spec_convert_s2c(packet(
            0x23,
            i32_field(x) + seq![y] + i32_field(z) + varint_field(block_id),
        ), server_proto) == converted(
            0x0B,
            be_i64(legacy_bits(x as int, y as int, z as int) as i64)
                + varint((block_id << 4) | (0u8 as i32 & 0xF)),
        ),
{
    broadcast use fields_read;
}

/// These packets toward the client keep their bodies and change their ids.
pub proof fn s2c_bodies_kept(b: Seq<u8>, server_proto: u32)
    requires
        107 <= server_proto < 393,
    ensures
        spec_convert_s2c(packet(0x16, b), server_proto) == converted(0x27, b),
        spec_convert_s2c(packet(0x02, b), server_proto) == converted(0x0F, b),
        spec_convert_s2c(packet(0x07, b), server_proto) == converted(0x35, b),
        spec_convert_s2c(packet(0x03, b), server_proto) == converted(0x47, b),
        spec_convert_s2c(packet(0x04, b), server_proto) == converted(0x3F, b),
        spec_convert_s2c(packet(0x05, b), server_proto) == converted(0x46, b),
        spec_convert_s2c(packet(0x06, b), server_proto) == converted(0x41, b),
        spec_convert_s2c(packet(0x09, b), server_proto) == converted(0x3A, b),
        spec_convert_s2c(packet(0x0A, b), server_proto) == converted(0x30, b),
        spec_convert_s2c(packet(0x0B, b), server_proto) == converted(0x06, b),
        spec_convert_s2c(packet(0x0C, b), server_proto) == converted(0x05, b),
        spec_convert_s2c(packet(0x0E, b), server_proto) == converted(0x00, b),
        spec_convert_s2c(packet(0x0F, b), server_proto) == converted(0x03, b),
        spec_convert_s2c(packet(0x10, b), server_proto) == converted(0x04, b),
        spec_convert_s2c(packet(0x11, b), server_proto) == converted(0x01, b),
        spec_convert_s2c(packet(0x12, b), server_proto) == converted(0x3E, b),
        spec_convert_s2c(packet(0x13, b), server_proto) == converted(0x32, b),
        spec_convert_s2c(packet(0x14, b), server_proto) == converted(0x28, b),
        spec_convert_s2c(packet(0x19, b), server_proto) == converted(0x36, b),
        spec_convert_s2c(packet(0x1A, b), server_proto) == converted(0x1B, b),
        spec_convert_s2c(packet(0x1B, b), server_proto) == converted(0x3D, b),
        spec_convert_s2c(packet(0x1C, b), server_proto) == converted(0x3C, b),
        spec_convert_s2c(packet(0x1D, b), server_proto) == converted(0x4F, b),
        spec_convert_s2c(packet(0x1E, b), server_proto) == converted(0x33, b),
        spec_convert_s2c(packet(0x1F, b), server_proto) == converted(0x40, b),
        spec_convert_s2c(packet(0x20, b), server_proto) == converted(0x4E, b),
        spec_convert_s2c(packet(0x21, b), server_proto) == converted(0x20, b),
        spec_convert_s2c(packet(0x22, b), server_proto) == converted(0x10, b),
        spec_convert_s2c(packet(0x24, b), server_proto) == converted(0x0A, b),
        spec_convert_s2c(packet(0x25, b), server_proto) == converted(0x08, b),
        spec_convert_s2c(packet(0x35, b), server_proto) == converted(0x09, b),
        spec_convert_s2c(packet(0x27, b), server_proto) == converted(0x1C, b),
        spec_convert_s2c(packet(0x28, b), server_proto) == converted(0x21, b),
        spec_convert_s2c(packet(0x29, b), server_proto) == converted(0x49, b),
        spec_convert_s2c(packet(0x2A, b), server_proto) == converted(0x22, b),
        spec_convert_s2c(packet(0x2B, b), server_proto) == converted(0x1E, b),
        spec_convert_s2c(packet(0x2C, b), server_proto) == converted(0x02, b),
        spec_convert_s2c(packet(0x2D, b), server_proto) == converted(0x13, b),
        spec_convert_s2c(packet(0x2E, b), server_proto) == converted(0x12, b),
        spec_convert_s2c(packet(0x2F, b), server_proto) == converted(0x16, b),
        spec_convert_s2c(packet(0x30, b), server_proto) == converted(0x14, b),
        spec_convert_s2c(packet(0x31, b), server_proto) == converted(0x15, b),
        spec_convert_s2c(packet(0x32, b), server_proto) == converted(0x11, b),
        spec_convert_s2c(packet(0x36, b), server_proto) == converted(0x2A, b),
        spec_convert_s2c(packet(0x37, b), server_proto) == converted(0x07, b),
        spec_convert_s2c(packet(0x38, b), server_proto) == converted(0x2E, b),
        spec_convert_s2c(packet(0x39, b), server_proto) == converted(0x2C, b),
        spec_convert_s2c(packet(0x3A, b), server_proto) == converted(0x0E, b),
        spec_convert_s2c(packet(0x3B, b), server_proto) == converted(0x42, b),
        spec_convert_s2c(packet(0x3C, b), server_proto) == converted(0x45, b),
        spec_convert_s2c(packet(0x3D, b), server_proto) == converted(0x3B, b),
        spec_convert_s2c(packet(0x3E, b), server_proto) == converted(0x44, b),
        spec_convert_s2c(packet(0x3F, b), server_proto) == converted(0x18, b),
        spec_convert_s2c(packet(0x40, b), server_proto) == converted(0x1A, b),
        spec_convert_s2c(packet(0x41, b), server_proto) == converted(0x0D, b),
        spec_convert_s2c(packet(0x42, b), server_proto) == converted(0x2D, b),
        spec_convert_s2c(packet(0x43, b), server_proto) == converted(0x39, b),
        spec_convert_s2c(packet(0x44, b), server_proto) == converted(0x38, b),
        spec_convert_s2c(packet(0x45, b), server_proto) == converted(0x48, b),
        spec_convert_s2c(packet(0x47, b), server_proto) == converted(0x4A, b),
        spec_convert_s2c(packet(0x48, b), server_proto) == converted(0x34, b),
        spec_convert_s2c(packet(0x34, b), server_proto) == converted(0x24, b),
{
    broadcast use fields_read;
}

/// These packets toward the client go no further.
pub proof fn s2c_dropped(b: Seq<u8>, server_proto: u32)
    requires
        107 <= server_proto < 393,
    ensures
        spec_convert_s2c(packet(0x33, b), server_proto) == Outcome::Drop,
{
    broadcast use fields_read;
}

/// All other packets toward the client are left alone.
pub proof fn s2c_others_left_alone(id: u8, b: Seq<u8>, server_proto: u32)
    requires
        107 <= server_proto < 393,
        id != 0x00 && id != 0x01 && id != 0x02 && id != 0x03 && id != 0x04 && id != 0x05 &&
        id != 0x06 && id != 0x07 && id != 0x08 && id != 0x09 && id != 0x0A && id != 0x0B &&
        id != 0x0C && id != 0x0D && id != 0x0E && id != 0x0F && id != 0x10 && id != 0x11 &&
        id != 0x12 && id != 0x13 && id != 0x14 && id != 0x15 && id != 0x16 && id != 0x17 &&
        id != 0x18 && id != 0x19 && id != 0x1A && id != 0x1B && id != 0x1C && id != 0x1D &&
        id != 0x1E && id != 0x1F && id != 0x20 && id != 0x21 && id != 0x22 && id != 0x23 &&
        id != 0x24 && id != 0x25 && id != 0x27 && id != 0x28 && id != 0x29 && id != 0x2A &&
        id != 0x2B && id != 0x2C && id != 0x2D && id != 0x2E && id != 0x2F && id != 0x30 &&
        id != 0x31 && id != 0x32 && id != 0x33 && id != 0x34 && id != 0x35 && id != 0x36 &&
        id != 0x37 && id != 0x38 && id != 0x39 && id != 0x3A && id != 0x3B && id != 0x3C &&
        id != 0x3D && id != 0x3E && id != 0x3F && id != 0x40 && id != 0x41 && id != 0x42 &&
        id != 0x43 && id != 0x44 && id != 0x45 && id != 0x47 && id != 0x48,
    ensures
        spec_convert_s2c(packet(id, b), server_proto) == Outcome::Passthrough,
{
    broadcast use fields_read;
}

/// KeepAlive: the variable-length id becomes an `i64`.
pub proof fn c2s_keep_alive(id: i32, rest: Seq<u8>, server_proto: u32, millis: i64)
    requires
        107 <= server_proto < 393,
    ensures
        spec_convert_c2s(packet(
            0x00,
            varint_field(id) + rest,
        ), server_proto, millis) == converted(
            0x0B,
            be_i64(id as i64),
        ),
{
    broadcast use fields_read;
}

/// KeepAlive: one that ends before its last field is left alone.
pub proof fn c2s_keep_alive_cut_off(server_proto: u32, millis: i64)
    requires
        107 <= server_proto < 393,
    ensures
        spec_convert_c2s(packet(
            0x00,
            Seq::<u8>::empty(),
        ), server_proto, millis) == Outcome::Passthrough,
{
    broadcast use fields_read;
}

/// Chat: the text alone.
pub proof fn c2s_chat_to_1_12(message: Seq<char>, rest: Seq<u8>, server_proto: u32, millis: i64)
    requires
        107 <= server_proto < 393,
        sendable(message),
    ensures
        spec_convert_c2s(packet(
            0x01,
            text_field(message) + rest,
        ), server_proto, millis) == converted(
            0x02,
            wire_string(message),
        ),
{
    broadcast use fields_read;
}

/// Chat: one that ends before its last field is left alone.
pub proof fn c2s_chat_to_1_12_cut_off(server_proto: u32, millis: i64)
    requires
        107 <= server_proto < 393,
    ensures
        spec_convert_c2s(packet(
            0x01,
            Seq::<u8>::empty(),
        ), server_proto, millis) == Outcome::Passthrough,
{
    broadcast use fields_read;
}

/// PlayerDigging: status and face become variable-length, and the place is packed. A shorter
/// one is left alone.
pub proof fn c2s_digging_to_1_12(
    status: u8,
    x: i32,
    y: u8,
    z: i32,
    face: i8,
    rest: Seq<u8>,
    server_proto: u32,
    millis: i64,
    short: Seq<u8>,
)
    requires
        107 <= server_proto < 393,
    ensures
        spec_convert_c2s(packet(
            0x07,
            seq![status] + i32_field(x) + seq![y] + i32_field(z) + i8_field(face) + rest,
        ), server_proto, millis) == converted(
            0x13,
            varint(status as i32) + be_i64(legacy_bits(x as int, y as int, z as int) as i64)
                + varint(face as i32),
        ),
        short.len() < 11 ==> spec_convert_c2s(packet(0x07, short), server_proto, millis) == Outcome::Passthrough,
{
    broadcast use fields_read;
}

/// EntityAction: all three numbers become variable-length. A shorter one is left alone.
pub proof fn c2s_entity_action_to_1_12(
    entity_id: i32,
    action: u8,
    jump_boost: i32,
    rest: Seq<u8>,
    server_proto: u32,
    millis: i64,
    short: Seq<u8>,
)
    requires
        107 <= server_proto < 393,
    ensures
        spec_convert_c2s(packet(
            0x0B,
            i32_field(entity_id) + seq![action] + i32_field(jump_boost) + rest,
        ), server_proto, millis) == converted(
            0x15,
            varint(entity_id) + varint(action as i32) + varint(jump_boost),
        ),
        short.len() < 9 ==> spec_convert_c2s(packet(0x0B, short), server_proto, millis) == Outcome::Passthrough,
{
    broadcast use fields_read;
}

/// UpdateSign: the place is packed.
#[verifier::rlimit(80)]
pub proof fn c2s_update_sign_to_1_12(
    x: i32,
    y: i16,
    z: i32,
    first: Seq<char>,
    second: Seq<char>,
    third: Seq<char>,
    fourth: Seq<char>,
    rest: Seq<u8>,
    server_proto: u32,
    millis: i64,
)
    requires
        107 <= server_proto < 393,
        sendable(first),
        sendable(second),
        sendable(third),
        sendable(fourth),
    ensures
        spec_convert_c2s(packet(
            0x12,
            i32_field(x) + i16_field(y) + i32_field(z) + text_field(first) + text_field(second)
                + text_field(third) + text_field(fourth) + rest,
        ), server_proto, millis) == converted(
            0x1C,
            be_i64(legacy_bits(x as int, y as int, z as int) as i64) + wire_string(first)
                + wire_string(second) + wire_string(third) + wire_string(fourth),
        ),
{
    broadcast use fields_read;
}

/// UpdateSign: one that ends before its last field is left alone.
#[verifier::rlimit(60)]
pub proof fn c2s_update_sign_to_1_12_cut_off(
    x: i32,
    y: i16,
    z: i32,
    first: Seq<char>,
    second: Seq<char>,
    third: Seq<char>,
    server_proto: u32,
    millis: i64,
)
    requires
        107 <= server_proto < 393,
        sendable(first),
        sendable(second),
        sendable(third),
    ensures
        spec_convert_c2s(packet(
            0x12,
            i32_field(x) + i16_field(y) + i32_field(z) + text_field(first) + text_field(second)
                + text_field(third),
        ), server_proto, millis) == Outcome::Passthrough,
{
    broadcast use fields_read;
}

/// These packets toward the server keep their bodies and change their ids.
pub proof fn c2s_bodies_kept(b: Seq<u8>, server_proto: u32, millis: i64)
    requires
        107 <= server_proto < 393,
    ensures
        spec_convert_c2s(packet(0x03, b), server_proto, millis) == converted(0x0F, b),
        spec_convert_c2s(packet(0x04, b), server_proto, millis) == converted(0x0C, b),
        spec_convert_c2s(packet(0x05, b), server_proto, millis) == converted(0x0E, b),
        spec_convert_c2s(packet(0x06, b), server_proto, millis) == converted(0x0D, b),
        spec_convert_c2s(packet(0x09, b), server_proto, millis) == converted(0x1A, b),
        spec_convert_c2s(packet(0x0C, b), server_proto, millis) == converted(0x16, b),
        spec_convert_c2s(packet(0x0D, b), server_proto, millis) == converted(0x08, b),
        spec_convert_c2s(packet(0x0E, b), server_proto, millis) == converted(0x07, b),
        spec_convert_c2s(packet(0x0F, b), server_proto, millis) == converted(0x05, b),
        spec_convert_c2s(packet(0x10, b), server_proto, millis) == converted(0x1B, b),
        spec_convert_c2s(packet(0x11, b), server_proto, millis) == converted(0x06, b),
        spec_convert_c2s(packet(0x13, b), server_proto, millis) == converted(0x12, b),
        spec_convert_c2s(packet(0x16, b), server_proto, millis) == converted(0x03, b),
        spec_convert_c2s(packet(0x17, b), server_proto, millis) == converted(0x09, b),
        spec_convert_c2s(packet(0x18, b), server_proto, millis) == converted(0x1E, b),
        spec_convert_c2s(packet(0x19, b), server_proto, millis) == converted(0x18, b),
{
    broadcast use fields_read;
}

/// All other packets toward the server are left alone.
pub proof fn c2s_others_left_alone(id: u8, b: Seq<u8>, server_proto: u32, millis: i64)
    requires
        107 <= server_proto < 393,
        id != 0x00 && id != 0x01 && id != 0x02 && id != 0x03 && id != 0x04 && id != 0x05 &&
        id != 0x06 && id != 0x07 && id != 0x08 && id != 0x09 && id != 0x0A && id != 0x0B &&
        id != 0x0C && id != 0x0D && id != 0x0E && id != 0x0F && id != 0x10 && id != 0x11 &&
        id != 0x12 && id != 0x13 && id != 0x14 && id != 0x15 && id != 0x16 && id != 0x17 &&
        id != 0x18 && id != 0x19,
    ensures
        spec_convert_c2s(packet(id, b), server_proto, millis) == Outcome::Passthrough,
{
    broadcast use fields_read;
}

/// EntityRelativeMove: the steps, 32nds of a block, become 4096ths.
#[verifier::rlimit(80)]
pub proof fn s2c_entity_rel_move(
    entity_id: i32,
    dx: i8,
    dy: i8,
    dz: i8,
    on_ground: u8,
    rest: Seq<u8>,
    server_proto: u32,
)
    requires
        107 <= server_proto < 393,
    ensures
        spec_convert_s2c(
            packet(
                0x15,
                varint_field(entity_id) + i8_field(dx) + i8_field(dy) + i8_field(dz) + seq![on_ground] + rest,
            ),
            server_proto,
        ) == converted(
            0x25,
            varint(entity_id) + be_i16((128 * dx) as i16) + be_i16((128 * dy) as i16) + be_i16(
                (128 * dz) as i16,
            ) + seq![on_ground],
        ),
        spec_convert_s2c(
            packet(0x15, varint_field(entity_id) + i8_field(dx) + i8_field(dy) + i8_field(dz)),
            server_proto,
        ) == converted(
            0x25,
            varint(entity_id) + be_i16((128 * dx) as i16) + be_i16((128 * dy) as i16) + be_i16(
                (128 * dz) as i16,
            ) + seq![1u8],
        ),
{
    broadcast use fields_read;
}

/// EntityLookAndRelativeMove: the steps, 32nds of a block, become 4096ths.
#[verifier::rlimit(80)]
pub proof fn s2c_entity_look_rel_move(
    entity_id: i32,
    dx: i8,
    dy: i8,
    dz: i8,
    yaw: u8,
    pitch: u8,
    on_ground: u8,
    rest: Seq<u8>,
    server_proto: u32,
)
    requires
        107 <= server_proto < 393,
    ensures
        spec_convert_s2c(
            packet(
                0x17,
                varint_field(entity_id) + i8_field(dx) + i8_field(dy) + i8_field(dz) + seq![yaw] + seq![pitch]
                    + seq![on_ground] + rest,
            ),
            server_proto,
        ) == converted(
            0x26,
            varint(entity_id) + be_i16((128 * dx) as i16) + be_i16((128 * dy) as i16) + be_i16(
                (128 * dz) as i16,
            ) + seq![yaw] + seq![pitch] + seq![on_ground],
        ),
        spec_convert_s2c(
            packet(0x17, varint_field(entity_id) + i8_field(dx) + i8_field(dy) + i8_field(dz)),
            server_proto,
        ) == converted(
            0x26,
            varint(entity_id) + be_i16((128 * dx) as i16) + be_i16((128 * dy) as i16) + be_i16(
                (128 * dz) as i16,
            ) + seq![0u8] + seq![0u8] + seq![1u8],
        ),
{
    broadcast use fields_read;
}

/// UseEntity: an interaction is made with the main hand, an attack has no hand, and an
/// interaction at a place keeps the place and is made with the main hand.
pub proof fn c2s_use_entity(
    target: i32,
    action: i32,
    x: u32,
    y: u32,
    z: u32,
    rest: Seq<u8>,
    server_proto: u32,
    millis: i64,
)
    requires
        107 <= server_proto < 393,
    ensures
        spec_convert_c2s(packet(0x02, varint_field(target) + varint_field(0) + rest), server_proto, millis)
            == converted(0x0A, varint(target) + varint(0) + varint(0)),
        spec_convert_c2s(packet(0x02, varint_field(target) + varint_field(1) + rest), server_proto, millis)
            == converted(0x0A, varint(target) + varint(1)),
        spec_convert_c2s(
            packet(
                0x02,
                varint_field(target) + varint_field(2) + u32_field(x) + u32_field(y) + u32_field(z) + rest,
            ),
            server_proto,
            millis,
        ) == converted(
            0x0A,
            varint(target) + varint(2) + be32(x) + be32(y) + be32(z) + varint(0),
        ),
        action < 0 || action > 2 ==> spec_convert_c2s(
            packet(0x02, varint_field(target) + varint_field(action) + rest),
            server_proto,
            millis,
        ) == Outcome::Passthrough,
{
    broadcast use fields_read;
}

/// BlockPlacement: the place is packed, the hand is the main one, the held item is dropped,
/// and where the block was hit, in sixteenths, becomes a single.
#[verifier::rlimit(60)]
pub proof fn c2s_block_place(
    x: i32,
    y: u8,
    z: i32,
    face: i8,
    cx: u8,
    cy: u8,
    cz: u8,
    rest: Seq<u8>,
    server_proto: u32,
    millis: i64,
)
    requires
        107 <= server_proto < 393,
        !(face == -1 && x == -1 && z == -1 && y == 0xFF),
    ensures
        spec_convert_c2s(
            packet(
                0x08,
                i32_field(x) + seq![y] + i32_field(z) + i8_field(face) + i16_field(-1i16) + seq![cx] + seq![cy]
                    + seq![cz] + rest,
            ),
            server_proto,
            millis,
        ) == converted(
            0x1F,
            be_i64(legacy_bits(x as int, y as int, z as int) as i64) + varint(face as i32) + varint(0) + be32(
                single_of_sixteenths(cx as int),
            ) + be32(single_of_sixteenths(cy as int)) + be32(single_of_sixteenths(cz as int)),
        ),
{
    broadcast use fields_read;

    let b = i32_field(x) + seq![y] + i32_field(z) + i8_field(face) + i16_field(-1i16) + seq![cx] + seq![cy] + seq![cz]
        + rest;
    assert(i32_at(b, 0) == x);
    assert(b[4] == y);
    assert(i32_at(b, 5) == z);
    assert(i8_at(b, 9) == face);
    assert(i16_at(b, 10) == -1);
    assert(b[12] == cx);
    assert(b[13] == cy);
    assert(b[14] == cz);
}

/// BlockPlacement at no place uses the item in the main hand.
pub proof fn c2s_use_item(rest: Seq<u8>, server_proto: u32, millis: i64)
    requires
        107 <= server_proto < 393,
    ensures
        spec_convert_c2s(
            packet(0x08, i32_field(-1i32) + seq![0xFFu8] + i32_field(-1i32) + i8_field(-1i8) + rest),
            server_proto,
            millis,
        ) == converted(0x20, varint(0)),
{
    broadcast use fields_read;
}

/// Animation: the main hand swings.
pub proof fn c2s_animation(b: Seq<u8>, server_proto: u32, millis: i64)
    requires
        107 <= server_proto < 393,
    ensures
        spec_convert_c2s(packet(0x0A, b), server_proto, millis) == converted(0x1D, seq![0u8]),
{
    broadcast use fields_read;

    assert(varint(0) =~= seq![0u8]);
}

/// TabComplete: a text that starts with a slash is marked as a command, and the place stays
/// behind its mark.
pub proof fn c2s_tab_complete(
    text: Seq<char>,
    mark: u8,
    place: i64,
    rest: Seq<u8>,
    server_proto: u32,
    millis: i64,
)
    requires
        107 <= server_proto < 393,
        sendable(text),
    ensures
        mark != 0 ==> spec_convert_c2s(
            packet(0x14, text_field(text) + seq![mark] + i64_field(place) + rest),
            server_proto,
            millis,
        ) == converted(
            0x01,
            wire_string(text) + seq![
                if text.len() > 0 && text[0] == '/' {
                    1u8
                } else {
                    0u8
                },
            ] + seq![1u8] + be_i64(place),
        ),
        spec_convert_c2s(packet(0x14, text_field(text) + seq![0u8] + rest), server_proto, millis)
            == converted(
            0x01,
            wire_string(text) + seq![
                if text.len() > 0 && text[0] == '/' {
                    1u8
                } else {
                    0u8
                },
            ] + seq![0u8],
        ),
{
    broadcast use fields_read;
}

/// ClientSettings: the main hand is the right one, which is 1.
pub proof fn c2s_settings(b: Seq<u8>, server_proto: u32, millis: i64)
    requires
        107 <= server_proto < 393,
    ensures
        spec_convert_c2s(packet(0x15, b), server_proto, millis) == converted(0x04, b.push(1)),
{
    broadcast use fields_read;

    assert(varint(1) =~= seq![1u8]);
    assert(b + seq![1u8] =~= b.push(1));
}

/// Chat for servers newer than 1.12.2: the time, no salt, no signature, and no more.
pub proof fn c2s_chat_to_modern(
    message: Seq<char>,
    rest: Seq<u8>,
    server_proto: u32,
    millis: i64,
)
    requires
        server_proto >= 393,
        sendable(message),
    ensures
        spec_convert_c2s(packet(0x01, text_field(message) + rest), server_proto, millis) == converted(
            0x05,
            wire_string(message) + be_i64(millis) + be_i64(0) + varint(0) + seq![0u8],
        ),
{
    broadcast use fields_read;
}

/// All else for servers newer than 1.12.2 is left alone.
pub proof fn others_to_modern(id: u8, b: Seq<u8>, server_proto: u32, millis: i64)
    requires
        server_proto >= 393,
    ensures
        id != 0x01 ==> spec_convert_c2s(packet(id, b), server_proto, millis) == Outcome::Passthrough,
        spec_convert_s2c(packet(id, b), server_proto) == Outcome::Passthrough,
{
    broadcast use fields_read;
}

} // verus!
