//! What becomes of the packets of 1.6.4 for 1.16.5, field by field.

use crate::converter::laws::fields::{
    fields_read, i16_field, i32_field, i8_field, middle, sendable_before_1_7, u16_field, u32_field,
    u64_field, ucs2_field, varint_field,
};
use crate::converter::outcome::{Outcome, converted, packet};
use crate::converter::v1_6_4_to_v1_16_5::{newer_items, sign_lines, spec_convert_c2s, spec_convert_s2c};
use crate::flattening::{Flattening, newer_block, newer_item};
use crate::number::{double_of_fixed, single_of_sixteenths};
use crate::position::modern_bits;
use crate::text::{json_component, quotes_escaped, ucs2_at, utf16, wire_string};
use crate::varint::{varint, varint_at};
use crate::wire::{be32, be64, be_i16, be_i64, be_i8, i16_at, i32_at, i8_at};
use vstd::prelude::*;

verus! {

/// KeepAlive: the `i32` id becomes an `i64`. A shorter one is left alone.
pub proof fn s2c_keep_alive(id: i32, rest: Seq<u8>, uuid: (u64, u64), t: Flattening, short: Seq<u8>)
    ensures
        spec_convert_s2c(packet(
            0x00,
            i32_field(id) + rest,
        ), uuid, t) == Some(converted(
            0x1F,
            be_i64(id as i64),
        )),
        short.len() < 4 ==> spec_convert_s2c(packet(0x00, short), uuid, t) == Some(Outcome::Passthrough),
{
    broadcast use fields_read;
}

/// Chat: the text changes its encoding, and gets position 0 and a sender of all zeros.
pub proof fn s2c_chat(message: Seq<char>, rest: Seq<u8>, uuid: (u64, u64), t: Flattening)
    requires
        sendable_before_1_7(message),
    ensures
        spec_convert_s2c(packet(
            0x03,
            ucs2_field(message) + rest,
        ), uuid, t) == Some(converted(
            0x0E,
            wire_string(message) + seq![0u8] + be_i64(0i64) + be_i64(0i64),
        )),
{
    broadcast use fields_read;
}

/// Chat: one that ends before its last field is left alone.
pub proof fn s2c_chat_cut_off(uuid: (u64, u64), t: Flattening)
    ensures
        spec_convert_s2c(packet(
            0x03,
            Seq::<u8>::empty(),
        ), uuid, t) == Some(Outcome::Passthrough),
{
    broadcast use fields_read;
}

/// PlayerPositionAndLook: x, stance, y, z, yaw, pitch and the ground flag become x, y, z, yaw,
/// pitch, no relative flags and teleport id 0. A shorter one is left alone.
#[verifier::rlimit(80)]
pub proof fn s2c_player_pos_look(
    x: u64,
    stance: u64,
    y: u64,
    z: u64,
    yaw: u32,
    pitch: u32,
    on_ground: u8,
    rest: Seq<u8>,
    uuid: (u64, u64),
    t: Flattening,
    short: Seq<u8>,
)
    ensures
        spec_convert_s2c(packet(
            0x0D,
            u64_field(x) + u64_field(stance) + u64_field(y) + u64_field(z) + u32_field(yaw)
                + u32_field(pitch) + seq![on_ground] + rest,
        ), uuid, t) == Some(converted(
            0x34,
            be64(x) + be64(y) + be64(z) + be32(yaw) + be32(pitch) + seq![0u8] + varint(0i32),
        )),
        short.len() < 41 ==> spec_convert_s2c(packet(0x0D, short), uuid, t) == Some(Outcome::Passthrough),
{
    broadcast use fields_read;
}

/// s2c_spawn_player
#[verifier::rlimit(80)]
pub proof fn s2c_spawn_player(
    entity_id: i32,
    name: Seq<char>,
    x: i32,
    y: i32,
    z: i32,
    yaw: i8,
    pitch: i8,
    current_item: i16,
    rest: Seq<u8>,
    uuid: (u64, u64),
    t: Flattening,
)
    requires
        sendable_before_1_7(name),
    ensures
        spec_convert_s2c(packet(
            0x14,
            i32_field(entity_id) + ucs2_field(name) + i32_field(x) + i32_field(y) + i32_field(z)
                + i8_field(yaw) + i8_field(pitch) + i16_field(current_item) + rest,
        ), uuid, t) == Some(converted(
            0x04,
            varint(entity_id) + be_i64(uuid.0 as i64) + be_i64(uuid.1 as i64)
                + be64(double_of_fixed(x as int, 5)) + be64(double_of_fixed(y as int, 5))
                + be64(double_of_fixed(z as int, 5)) + seq![yaw as u8] + seq![pitch as u8]
                + seq![0xFFu8],
        )),
{
    broadcast use fields_read;
}

/// s2c_spawn_player: one that ends before its last field is left alone.
#[verifier::rlimit(60)]
pub proof fn s2c_spawn_player_cut_off(
    entity_id: i32,
    name: Seq<char>,
    x: i32,
    y: i32,
    z: i32,
    yaw: i8,
    pitch: i8,
    short: Seq<u8>,
    uuid: (u64, u64),
    t: Flattening,
)
    requires
        sendable_before_1_7(name),
        short.len() < 2,
    ensures
        spec_convert_s2c(packet(
            0x14,
            i32_field(entity_id) + ucs2_field(name) + i32_field(x) + i32_field(y) + i32_field(z)
                + i8_field(yaw) + i8_field(pitch) + short,
        ), uuid, t) == Some(Outcome::Passthrough),
{
    broadcast use fields_read;
}

/// EntityTeleport: the coordinates, in 32nds of a block, become doubles. A shorter one is left
/// alone.
#[verifier::rlimit(80)]
pub proof fn s2c_entity_teleport(
    entity_id: i32,
    x: i32,
    y: i32,
    z: i32,
    yaw: i8,
    pitch: i8,
    rest: Seq<u8>,
    uuid: (u64, u64),
    t: Flattening,
    short: Seq<u8>,
)
    ensures
        spec_convert_s2c(packet(
            0x22,
            i32_field(entity_id) + i32_field(x) + i32_field(y) + i32_field(z) + i8_field(yaw)
                + i8_field(pitch) + rest,
        ), uuid, t) == Some(converted(
            0x56,
            varint(entity_id) + be64(double_of_fixed(x as int, 5)) + be64(double_of_fixed(y as int, 5))
                + be64(double_of_fixed(z as int, 5)) + seq![yaw as u8] + seq![pitch as u8] + seq![0u8],
        )),
        short.len() < 18 ==> spec_convert_s2c(packet(0x22, short), uuid, t) == Some(Outcome::Passthrough),
{
    broadcast use fields_read;
}

/// EntityRelativeMove: the steps, in 32nds of a block, become 4096ths. A shorter one is left
/// alone.
pub proof fn s2c_entity_rel_move(
    entity_id: i32,
    dx: i8,
    dy: i8,
    dz: i8,
    rest: Seq<u8>,
    uuid: (u64, u64),
    t: Flattening,
    short: Seq<u8>,
)
    ensures
        spec_convert_s2c(packet(
            0x15,
            i32_field(entity_id) + i8_field(dx) + i8_field(dy) + i8_field(dz) + rest,
        ), uuid, t) == Some(converted(
            0x27,
            varint(entity_id) + be_i16((dx * 128) as i16) + be_i16((dy * 128) as i16)
                + be_i16((dz * 128) as i16) + seq![0u8],
        )),
        short.len() < 7 ==> spec_convert_s2c(packet(0x15, short), uuid, t) == Some(Outcome::Passthrough),
{
    broadcast use fields_read;
}

/// s2c_entity A shorter one is left alone.
#[verifier::rlimit(80)]
pub proof fn s2c_entity(
    entity_id: i32,
    entity_type: i8,
    x: i32,
    y: i32,
    z: i32,
    yaw: i8,
    pitch: i8,
    head_pitch: i8,
    vx: i16,
    vy: i16,
    vz: i16,
    rest: Seq<u8>,
    uuid: (u64, u64),
    t: Flattening,
    short: Seq<u8>,
)
    ensures
        spec_convert_s2c(packet(
            0x1E,
            i32_field(entity_id) + i8_field(entity_type) + i32_field(x) + i32_field(y) + i32_field(z)
                + i8_field(yaw) + i8_field(pitch) + i8_field(head_pitch) + i16_field(vx) + i16_field(vy)
                + i16_field(vz) + rest,
        ), uuid, t) == Some(converted(
            0x00,
            varint(entity_id) + be_i64(uuid.0 as i64) + be_i64(uuid.1 as i64)
                + varint(entity_type as i32) + be64(double_of_fixed(x as int, 5))
                + be64(double_of_fixed(y as int, 5)) + be64(double_of_fixed(z as int, 5))
                + seq![yaw as u8] + seq![pitch as u8] + seq![head_pitch as u8] + be_i16(vx) + be_i16(vy)
                + be_i16(vz),
        )),
        short.len() < 26 ==> spec_convert_s2c(packet(0x1E, short), uuid, t) == Some(Outcome::Passthrough),
{
    broadcast use fields_read;
}

/// Experience: level and total become variable-length. A body of 4 to 7 bytes is too short for
/// what is read of it. A shorter one is left alone.
pub proof fn s2c_experience(
    bar: u32,
    level: i16,
    total: i16,
    rest: Seq<u8>,
    uuid: (u64, u64),
    t: Flattening,
    short: Seq<u8>,
)
    ensures
        spec_convert_s2c(packet(
            0x2B,
            u32_field(bar) + i16_field(level) + i16_field(total) + rest,
        ), uuid, t) == Some(converted(
            0x48,
            be32(bar) + varint(level as i32) + varint(total as i32),
        )),
        short.len() < 4 ==> spec_convert_s2c(packet(0x2B, short), uuid, t) == Some(Outcome::Passthrough),
{
    broadcast use fields_read;
}

/// HeldItemChange: the slot becomes variable-length. A shorter one is left alone.
pub proof fn s2c_held_item_change(
    slot: i16,
    rest: Seq<u8>,
    uuid: (u64, u64),
    t: Flattening,
    short: Seq<u8>,
)
    ensures
        spec_convert_s2c(packet(
            0x10,
            i16_field(slot) + rest,
        ), uuid, t) == Some(converted(
            0x3F,
            varint(slot as i32),
        )),
        short.len() < 2 ==> spec_convert_s2c(packet(0x10, short), uuid, t) == Some(Outcome::Passthrough),
{
    broadcast use fields_read;
}

/// PlayerAbilities: flags and the two speeds. A shorter one is left alone.
pub proof fn s2c_player_abilities(
    flags: u8,
    flying_speed: u32,
    walking_speed: u32,
    rest: Seq<u8>,
    uuid: (u64, u64),
    t: Flattening,
    short: Seq<u8>,
)
    ensures
        spec_convert_s2c(packet(
            0x43,
            seq![flags] + u32_field(flying_speed) + u32_field(walking_speed) + rest,
        ), uuid, t) == Some(converted(
            0x2F,
            seq![flags] + be32(flying_speed) + be32(walking_speed),
        )),
        short.len() < 9 ==> spec_convert_s2c(packet(0x43, short), uuid, t) == Some(Outcome::Passthrough),
{
    broadcast use fields_read;
}

/// Disconnect: the reason becomes a chat component. Only quotes are escaped.
pub proof fn s2c_disconnect(message: Seq<char>, rest: Seq<u8>, uuid: (u64, u64), t: Flattening)
    requires
        sendable_before_1_7(message),
    ensures
        spec_convert_s2c(packet(
            0xFF,
            ucs2_field(message) + rest,
        ), uuid, t) == Some(converted(
            0x19,
            wire_string(json_component(quotes_escaped(message))),
        )),
{
    broadcast use fields_read;
}

/// Disconnect: one that ends before its last field is left alone.
pub proof fn s2c_disconnect_cut_off(uuid: (u64, u64), t: Flattening)
    ensures
        spec_convert_s2c(packet(
            0xFF,
            Seq::<u8>::empty(),
        ), uuid, t) == Some(Outcome::Passthrough),
{
    broadcast use fields_read;
}

/// All other packets toward the client are left alone.
pub proof fn s2c_others_left_alone(id: u8, b: Seq<u8>, uuid: (u64, u64), t: Flattening)
    requires
        id != 0x00 && id != 0x03 && id != 0x0D && id != 0x10 && id != 0x14 && id != 0x15 &&
        id != 0x1C && id != 0x1E && id != 0x22 && id != 0x2B && id != 0x35 && id != 0x43 &&
        id != 0x67 && id != 0x68 && id != 0xFF,
    ensures
        spec_convert_s2c(packet(id, b), uuid, t) == Some(Outcome::Passthrough),
{
    broadcast use fields_read;
}

/// KeepAlive: the `i32` id becomes an `i64`. A shorter one is left alone.
pub proof fn c2s_keep_alive(id: i32, rest: Seq<u8>, short: Seq<u8>)
    ensures
        spec_convert_c2s(packet(
            0x00,
            i32_field(id) + rest,
        )) == Some(converted(
            0x10,
            be_i64(id as i64),
        )),
        short.len() < 4 ==> spec_convert_c2s(packet(0x00, short)) == Some(Outcome::Passthrough),
{
    broadcast use fields_read;
}

/// Chat: the text changes its encoding.
pub proof fn c2s_chat(message: Seq<char>, rest: Seq<u8>)
    requires
        sendable_before_1_7(message),
    ensures
        spec_convert_c2s(packet(
            0x03,
            ucs2_field(message) + rest,
        )) == Some(converted(
            0x03,
            wire_string(message),
        )),
{
    broadcast use fields_read;
}

/// Chat: one that ends before its last field is left alone.
pub proof fn c2s_chat_cut_off()
    ensures
        spec_convert_c2s(packet(
            0x03,
            Seq::<u8>::empty(),
        )) == Some(Outcome::Passthrough),
{
    broadcast use fields_read;
}

/// UseEntity: the target, 1 for an attack and 0 for an interaction, and no sneaking. A shorter
/// one is left alone.
pub proof fn c2s_use_entity(user: i32, target: i32, left_click: u8, rest: Seq<u8>, short: Seq<u8>)
    ensures
        spec_convert_c2s(packet(
            0x07,
            i32_field(user) + i32_field(target) + seq![left_click] + rest,
        )) == Some(converted(
            0x0E,
            varint(target) + varint(if left_click != 0 { 1i32 } else { 0i32 }) + seq![0u8],
        )),
        short.len() < 9 ==> spec_convert_c2s(packet(0x07, short)) == Some(Outcome::Passthrough),
{
    broadcast use fields_read;
}

/// PlayerPosition: the stance, which stands behind y, is dropped. A shorter one is left alone.
pub proof fn c2s_move_player_pos(
    x: u64,
    y: u64,
    stance: u64,
    z: u64,
    on_ground: u8,
    rest: Seq<u8>,
    short: Seq<u8>,
)
    ensures
        spec_convert_c2s(packet(
            0x0B,
            u64_field(x) + u64_field(y) + u64_field(stance) + u64_field(z) + seq![on_ground] + rest,
        )) == Some(converted(
            0x12,
            be64(x) + be64(y) + be64(z) + seq![if on_ground != 0 { 1u8 } else { 0u8 }],
        )),
        short.len() < 33 ==> spec_convert_c2s(packet(0x0B, short)) == Some(Outcome::Passthrough),
{
    broadcast use fields_read;
}

/// PlayerLook: the ground flag is written as 0 or 1. A shorter one is left alone.
pub proof fn c2s_move_player_rot(yaw: u32, pitch: u32, on_ground: u8, rest: Seq<u8>, short: Seq<u8>)
    ensures
        spec_convert_c2s(packet(
            0x0C,
            u32_field(yaw) + u32_field(pitch) + seq![on_ground] + rest,
        )) == Some(converted(
            0x13,
            be32(yaw) + be32(pitch) + seq![if on_ground != 0 { 1u8 } else { 0u8 }],
        )),
        short.len() < 9 ==> spec_convert_c2s(packet(0x0C, short)) == Some(Outcome::Passthrough),
{
    broadcast use fields_read;
}

/// PlayerPositionAndLook: the stance, which stands behind x, is dropped. A shorter one is left
/// alone.
#[verifier::rlimit(80)]
pub proof fn c2s_player_pos_look(
    x: u64,
    stance: u64,
    y: u64,
    z: u64,
    yaw: u32,
    pitch: u32,
    on_ground: u8,
    rest: Seq<u8>,
    short: Seq<u8>,
)
    ensures
        spec_convert_c2s(packet(
            0x0D,
            u64_field(x) + u64_field(stance) + u64_field(y) + u64_field(z) + u32_field(yaw)
                + u32_field(pitch) + seq![on_ground] + rest,
        )) == Some(converted(
            0x14,
            be64(x) + be64(y) + be64(z) + be32(yaw) + be32(pitch)
                + seq![if on_ground != 0 { 1u8 } else { 0u8 }],
        )),
        short.len() < 41 ==> spec_convert_c2s(packet(0x0D, short)) == Some(Outcome::Passthrough),
{
    broadcast use fields_read;
}

/// PlayerDigging: status and face become variable-length, and the place is packed. A shorter
/// one is left alone.
pub proof fn c2s_player_digging(
    status: i8,
    x: i32,
    y: i8,
    z: i32,
    face: i8,
    rest: Seq<u8>,
    short: Seq<u8>,
)
    ensures
        spec_convert_c2s(packet(
            0x0E,
            i8_field(status) + i32_field(x) + i8_field(y) + i32_field(z) + i8_field(face) + rest,
        )) == Some(converted(
            0x1B,
            varint(status as i32) + be_i64(modern_bits(x as int, y as int, z as int) as i64)
                + varint(face as i32),
        )),
        short.len() < 11 ==> spec_convert_c2s(packet(0x0E, short)) == Some(Outcome::Passthrough),
{
    broadcast use fields_read;
}

/// PlayerBlockPlacement: the main hand, the packed place, the face, the cursor in 16ths of a
/// block as singles, and not inside a block. A body of 10 to 14 bytes is too short for what is
/// read of it. A shorter one is left alone.
#[verifier::rlimit(80)]
pub proof fn c2s_player_block_placement(
    x: i32,
    y: i8,
    z: i32,
    direction: i8,
    held_item: i16,
    cx: i8,
    cy: i8,
    cz: i8,
    rest: Seq<u8>,
    short: Seq<u8>,
)
    ensures
        spec_convert_c2s(packet(
            0x0F,
            i32_field(x) + i8_field(y) + i32_field(z) + i8_field(direction) + i16_field(held_item)
                + i8_field(cx) + i8_field(cy) + i8_field(cz) + rest,
        )) == Some(converted(
            0x2E,
            varint(0i32) + be_i64(modern_bits(x as int, y as int, z as int) as i64)
                + varint(direction as i32) + be32(single_of_sixteenths(cx as int))
                + be32(single_of_sixteenths(cy as int)) + be32(single_of_sixteenths(cz as int))
                + seq![0u8],
        )),
        short.len() < 10 ==> spec_convert_c2s(packet(0x0F, short)) == Some(Outcome::Passthrough),
{
    broadcast use fields_read;
}

/// HeldItemChange: the slot becomes variable-length. A shorter one is left alone.
pub proof fn c2s_held_item_change(slot: i16, rest: Seq<u8>, short: Seq<u8>)
    ensures
        spec_convert_c2s(packet(
            0x10,
            i16_field(slot) + rest,
        )) == Some(converted(
            0x25,
            varint(slot as i32),
        )),
        short.len() < 2 ==> spec_convert_c2s(packet(0x10, short)) == Some(Outcome::Passthrough),
{
    broadcast use fields_read;
}

/// Animation: the main hand.
pub proof fn c2s_animation(rest: Seq<u8>)
    ensures
        spec_convert_c2s(packet(
            0x12,
            rest,
        )) == Some(converted(
            0x2C,
            varint(0i32),
        )),
{
    broadcast use fields_read;
}

/// EntityAction: id and action become variable-length, with no jump boost. A shorter one is
/// left alone.
pub proof fn c2s_entity_action(entity_id: i32, action_id: i8, rest: Seq<u8>, short: Seq<u8>)
    ensures
        spec_convert_c2s(packet(
            0x13,
            i32_field(entity_id) + i8_field(action_id) + rest,
        )) == Some(converted(
            0x1C,
            varint(entity_id) + varint(action_id as i32) + varint(0i32),
        )),
        short.len() < 5 ==> spec_convert_c2s(packet(0x13, short)) == Some(Outcome::Passthrough),
{
    broadcast use fields_read;
}

/// ClientCommand: the action becomes variable-length. A shorter one is left alone.
pub proof fn c2s_client_command(action: i8, rest: Seq<u8>, short: Seq<u8>)
    ensures
        spec_convert_c2s(packet(
            0x16,
            i8_field(action) + rest,
        )) == Some(converted(
            0x04,
            varint(action as i32),
        )),
        short.len() < 1 ==> spec_convert_c2s(packet(0x16, short)) == Some(Outcome::Passthrough),
{
    broadcast use fields_read;
}

/// CloseWindow: the window's number alone. A shorter one is left alone.
pub proof fn c2s_close_window(window_id: u8, rest: Seq<u8>, short: Seq<u8>)
    ensures
        spec_convert_c2s(packet(
            0x65,
            seq![window_id] + rest,
        )) == Some(converted(
            0x0A,
            seq![window_id],
        )),
        short.len() < 1 ==> spec_convert_c2s(packet(0x65, short)) == Some(Outcome::Passthrough),
{
    broadcast use fields_read;
}

/// PlayerAbilities: the flags alone. A shorter one is left alone.
pub proof fn c2s_player_abilities(
    flags: i8,
    flying_speed: u32,
    walking_speed: u32,
    rest: Seq<u8>,
    short: Seq<u8>,
)
    ensures
        spec_convert_c2s(packet(
            0xCA,
            i8_field(flags) + u32_field(flying_speed) + u32_field(walking_speed) + rest,
        )) == Some(converted(
            0x19,
            be_i8(flags),
        )),
        short.len() < 9 ==> spec_convert_c2s(packet(0xCA, short)) == Some(Outcome::Passthrough),
{
    broadcast use fields_read;
}

/// ClientSettings: the low two bits of the chat flags become the chat mode; colours are on, all
/// skin parts are shown, and the main hand is the right one.
pub proof fn c2s_client_settings(
    locale: Seq<char>,
    view_distance: i8,
    chat_flags: i8,
    difficulty: i8,
    show_cape: u8,
    rest: Seq<u8>,
)
    requires
        sendable_before_1_7(locale),
    ensures
        spec_convert_c2s(packet(
            0xCC,
            ucs2_field(locale) + i8_field(view_distance) + i8_field(chat_flags) + i8_field(difficulty)
                + seq![show_cape] + rest,
        )) == Some(converted(
            0x05,
            wire_string(locale) + be_i8(view_distance) + varint((chat_flags & 0x03) as i32) + seq![1u8]
                + seq![0x7Fu8] + varint(1i32),
        )),
{
    broadcast use fields_read;
}

/// ClientSettings: one that ends before its last field is left alone.
pub proof fn c2s_client_settings_cut_off(
    locale: Seq<char>,
    view_distance: i8,
    chat_flags: i8,
    difficulty: i8,
)
    requires
        sendable_before_1_7(locale),
    ensures
        spec_convert_c2s(packet(
            0xCC,
            ucs2_field(locale) + i8_field(view_distance) + i8_field(chat_flags) + i8_field(difficulty),
        )) == Some(Outcome::Passthrough),
{
    broadcast use fields_read;
}

/// These packets toward the server go no further.
pub proof fn c2s_dropped(b: Seq<u8>)
    ensures
        spec_convert_c2s(packet(0x0A, b)) == Some(Outcome::Drop),
{
    broadcast use fields_read;
}

/// All other packets toward the server are left alone.
pub proof fn c2s_others_left_alone(id: u8, b: Seq<u8>)
    requires
        id != 0x00 && id != 0x03 && id != 0x07 && id != 0x0A && id != 0x0B && id != 0x0C &&
        id != 0x0D && id != 0x0E && id != 0x0F && id != 0x10 && id != 0x12 && id != 0x13 &&
        id != 0x16 && id != 0x65 && id != 0x82 && id != 0xCA && id != 0xCC && id != 0xFA,
    ensures
        spec_convert_c2s(packet(id, b)) == Some(Outcome::Passthrough),
{
    broadcast use fields_read;
}

/// BlockChange: the place is packed in the newer order, and the state is the table's for the id
/// and the metadata; one that the table does not know goes no further.
#[verifier::rlimit(60)]
pub proof fn s2c_block_change(
    x: i32,
    y: i8,
    z: i32,
    block: i32,
    metadata: i8,
    rest: Seq<u8>,
    uuid: (u64, u64),
    t: Flattening,
)
    requires
        0 <= block < 0x1000,
        0 <= metadata < 16,
    ensures
        ({
            let o = spec_convert_s2c(
                packet(
                    0x35,
                    i32_field(x) + i8_field(y) + i32_field(z) + i32_field(block) + i8_field(metadata) + rest,
                ),
                uuid,
                t,
            );
            &&& newer_block(t.blocks.pairs@, (16 * block + metadata) as u32) matches Some(state) ==> o == Some(
                converted(
                    0x0B,
                    be_i64(modern_bits(x as int, y as int, z as int) as i64) + varint(state as i32),
                ),
            )
            &&& newer_block(t.blocks.pairs@, (16 * block + metadata) as u32) is None ==> o == Some(Outcome::Drop)
        }),
{
    broadcast use fields_read;

    assert(((block as u32) << 4) | ((metadata as u32) & 0xF) == (16 * block + metadata) as u32) by (bit_vector)
        requires
            0 <= block < 0x1000,
            0 <= metadata < 16,
    ;
    let b = i32_field(x) + i8_field(y) + i32_field(z) + i32_field(block) + i8_field(metadata) + rest;
    assert(i32_at(b, 0) == x);
    assert(i8_at(b, 4) == y);
    assert(i32_at(b, 5) == z);
    assert(i32_at(b, 9) == block);
    assert(i8_at(b, 13) == metadata);
}

/// SetSlot: an item without tags takes its newer id, its count stays, and its damage is lost;
/// an id that the table does not know stays. An empty slot stays empty.
#[verifier::rlimit(60)]
pub proof fn s2c_set_slot(
    window: u8,
    place: i16,
    id: i16,
    count: u8,
    damage: i16,
    rest: Seq<u8>,
    uuid: (u64, u64),
    t: Flattening,
    newer: i32,
)
    requires
        newer_item(t.items.pairs@, id) matches Some(n) ==> newer == n as i32,
        newer_item(t.items.pairs@, id) is None ==> newer == id,
    ensures
        spec_convert_s2c(
            packet(
                0x67,
                seq![window] + i16_field(place) + seq![1u8] + i16_field(id) + seq![count] + i16_field(damage)
                    + varint_field(0) + rest,
            ),
            uuid,
            t,
        ) == Some(
            converted(
                0x15,
                seq![window] + be_i16(place) + (seq![1u8] + varint(newer) + be_i8(count as i8) + seq![0u8]),
            ),
        ),
        spec_convert_s2c(packet(0x67, seq![window] + i16_field(place) + seq![0u8] + rest), uuid, t) == Some(
            converted(0x15, seq![window] + be_i16(place) + seq![0u8]),
        ),
{
    broadcast use fields_read;

    let b = seq![window] + i16_field(place) + seq![1u8] + i16_field(id) + seq![count] + i16_field(damage)
        + varint_field(0) + rest;
    assert(i16_at(b, 1) == place);
    assert(b[3] == 1);
    assert(i16_at(b, 4) == id);
    assert(b[6] == count);
    assert(i16_at(b, 7) == damage);
    assert(varint_at(b, 9) == Some((0i32, 9 + varint_field(0).len() as int)));
    let c = seq![window] + i16_field(place) + seq![0u8] + rest;
    assert(c[3] == 0);
}

/// WindowItems: each slot takes its newer form, in order.
#[verifier::rlimit(60)]
pub proof fn s2c_window_items(
    window: u8,
    id: i16,
    count: u8,
    damage: i16,
    rest: Seq<u8>,
    uuid: (u64, u64),
    t: Flattening,
    newer: i32,
)
    requires
        newer_item(t.items.pairs@, id) matches Some(n) ==> newer == n as i32,
        newer_item(t.items.pairs@, id) is None ==> newer == id,
    ensures
        spec_convert_s2c(
            packet(
                0x68,
                seq![window] + i16_field(2) + seq![1u8] + i16_field(id) + seq![count] + i16_field(damage)
                    + varint_field(0) + seq![0u8] + rest,
            ),
            uuid,
            t,
        ) == Some(
            converted(
                0x13,
                seq![window] + (seq![1u8] + varint(newer) + be_i8(count as i8) + seq![0u8] + seq![0u8]),
            ),
        ),
{
    broadcast use fields_read;

    reveal_with_fuel(newer_items, 3);
    let b = seq![window] + i16_field(2) + seq![1u8] + i16_field(id) + seq![count] + i16_field(damage)
        + varint_field(0) + seq![0u8] + rest;
    let q: int = 9 + varint_field(0).len() as int;
    assert(i16_at(b, 1) == 2);
    assert(b[3] == 1);
    assert(i16_at(b, 4) == id);
    assert(b[6] == count);
    assert(i16_at(b, 7) == damage);
    assert(varint_at(b, 9) == Some((0i32, q)));
    assert(b[q] == 0);
    assert(seq![0u8] + Seq::<u8>::empty() =~= seq![0u8]);
}

/// EntityEquipment: the places behind the hand move up by one, for the off hand, and the item
/// takes its newer form. Other places go no further.
#[verifier::rlimit(60)]
pub proof fn s2c_entity_equipment(
    entity_id: i32,
    place: i16,
    id: i16,
    count: u8,
    damage: i16,
    rest: Seq<u8>,
    uuid: (u64, u64),
    t: Flattening,
    newer: i32,
)
    requires
        newer_item(t.items.pairs@, id) matches Some(n) ==> newer == n as i32,
        newer_item(t.items.pairs@, id) is None ==> newer == id,
    ensures
        ({
            let o = spec_convert_s2c(
                packet(
                    0x1C,
                    i32_field(entity_id) + i16_field(place) + seq![1u8] + i16_field(id) + seq![count] + i16_field(damage)
                        + varint_field(0) + rest,
                ),
                uuid,
                t,
            );
            let item = seq![1u8] + varint(newer) + be_i8(count as i8) + seq![0u8];
            &&& place == 0 ==> o == Some(converted(0x47, varint(entity_id) + varint(0) + item))
            &&& 1 <= place <= 4 ==> o == Some(
                converted(0x47, varint(entity_id) + varint((place + 1) as i32) + item),
            )
            &&& place < 0 || place > 4 ==> o == Some(Outcome::Drop)
        }),
{
    broadcast use fields_read;

    let b = i32_field(entity_id) + i16_field(place) + seq![1u8] + i16_field(id) + seq![count] + i16_field(damage)
        + varint_field(0) + rest;
    assert(i32_at(b, 0) == entity_id);
    assert(i16_at(b, 4) == place);
    assert(b[6] == 1);
    assert(i16_at(b, 7) == id);
    assert(b[9] == count);
    assert(i16_at(b, 10) == damage);
    assert(varint_at(b, 12) == Some((0i32, 12 + varint_field(0).len() as int)));
}

/// UpdateSign: the place is packed in the newer order, and the four lines stay in order.
#[verifier::rlimit(60)]
pub proof fn c2s_update_sign(
    x: i32,
    y: i16,
    z: i32,
    first: Seq<char>,
    second: Seq<char>,
    third: Seq<char>,
    fourth: Seq<char>,
    rest: Seq<u8>,
)
    requires
        sendable_before_1_7(first),
        sendable_before_1_7(second),
        sendable_before_1_7(third),
        sendable_before_1_7(fourth),
    ensures
        spec_convert_c2s(
            packet(
                0x82,
                i32_field(x) + i16_field(y) + i32_field(z) + ucs2_field(first) + ucs2_field(second) + ucs2_field(third)
                    + ucs2_field(fourth) + rest,
            ),
        ) == Some(
            converted(
                0x2B,
                be_i64(modern_bits(x as int, y as int, z as int) as i64) + (wire_string(first) + (wire_string(
                    second,
                ) + (wire_string(third) + wire_string(fourth)))),
            ),
        ),
{
    broadcast use fields_read;

    reveal_with_fuel(sign_lines, 5);
    let b = i32_field(x) + i16_field(y) + i32_field(z) + ucs2_field(first) + ucs2_field(second) + ucs2_field(third)
        + ucs2_field(fourth) + rest;
    let p: int = 10 + ucs2_field(first).len() as int;
    let q: int = p + ucs2_field(second).len();
    let r: int = q + ucs2_field(third).len();
    let s: int = r + ucs2_field(fourth).len();
    assert(i32_at(b, 0) == x);
    assert(i16_at(b, 4) == y);
    assert(i32_at(b, 6) == z);
    assert(ucs2_at(b, 10) == Some((utf16(first), p)));
    assert(ucs2_at(b, p) == Some((utf16(second), q)));
    assert(ucs2_at(b, q) == Some((utf16(third), r)));
    assert(ucs2_at(b, r) == Some((utf16(fourth), s)));
    assert(wire_string(fourth) + Seq::<u8>::empty() =~= wire_string(fourth));
}

/// PluginMessage: the channel's text and as many bytes as their count says.
pub proof fn c2s_plugin_message(channel: Seq<char>, data: Seq<u8>, rest: Seq<u8>)
    requires
        sendable_before_1_7(channel),
        data.len() <= 0xFFFF,
    ensures
        spec_convert_c2s(packet(0xFA, ucs2_field(channel) + u16_field(data.len() as u16) + data + rest)) == Some(
            converted(0x0B, wire_string(channel) + data),
        ),
{
    broadcast use fields_read;

    let front = ucs2_field(channel) + u16_field(data.len() as u16);
    middle(front, data, rest);
}

} // verus!
