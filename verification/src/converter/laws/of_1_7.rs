//! What becomes of the packets of 1.7.10 for 1.8, field by field.

use crate::converter::laws::fields::{
    fields_read, i16_field, i32_field, i8_field, ids_behind_count, joined, sendable, text_field,
    u32_field, u64_field, varint_field,
};
use crate::converter::outcome::{Outcome, converted, packet};
use crate::converter::v1_7_to_v1_8::{
    attributes_from, modifier_count, spec_convert_c2s, spec_convert_s2c,
};
use crate::position::legacy_bits;
use crate::text::{divided, json_line_of, string_at, undivided, wire_string, wire_strings};
use crate::varint::varint;
use crate::wire::{be32, be64, be_i32, be_i64, be_i8, i16_at, i32_at, u64_at};
use vstd::prelude::*;

verus! {

/// EntityEquipment: the id becomes variable-length. A shorter one is left alone.
pub proof fn s2c_equipment(entity_id: i32, tail: Seq<u8>, short: Seq<u8>)
    requires
        tail.len() >= 2,
    ensures
        spec_convert_s2c(packet(
            0x04,
            i32_field(entity_id) + tail,
        )) == converted(
            0x04,
            varint(entity_id) + tail,
        ),
        short.len() < 6 ==> spec_convert_s2c(packet(0x04, short)) == Outcome::Passthrough,
{
    broadcast use fields_read;
}

/// SpawnPosition: the place is packed. A shorter one is left alone.
pub proof fn s2c_spawn_position(x: i32, y: i32, z: i32, rest: Seq<u8>, short: Seq<u8>)
    ensures
        spec_convert_s2c(packet(
            0x05,
            i32_field(x) + i32_field(y) + i32_field(z) + rest,
        )) == converted(
            0x05,
            be_i64(legacy_bits(x as int, y as int, z as int) as i64),
        ),
        short.len() < 12 ==> spec_convert_s2c(packet(0x05, short)) == Outcome::Passthrough,
{
    broadcast use fields_read;
}

/// UpdateHealth: the food becomes variable-length. A shorter one is left alone.
pub proof fn s2c_update_health(health: u32, food: i16, tail: Seq<u8>, short: Seq<u8>)
    requires
        tail.len() >= 2,
    ensures
        spec_convert_s2c(packet(
            0x06,
            u32_field(health) + i16_field(food) + tail,
        )) == converted(
            0x06,
            be32(health) + varint(food as i32) + tail,
        ),
        short.len() < 8 ==> spec_convert_s2c(packet(0x06, short)) == Outcome::Passthrough,
{
    broadcast use fields_read;
}

/// PlayerPositionAndLook: the stance, which stands behind x, is dropped, and no relative flags
/// take the place of the ground flag. A shorter one is left alone.
#[verifier::rlimit(80)]
pub proof fn s2c_player_pos_look(
    x: u64,
    stance: u64,
    y: u64,
    z: u64,
    yaw: u32,
    pitch: u32,
    on_ground: u8,
    rest: Seq<u8>,
    short: Seq<u8>,
)
    ensures
        spec_convert_s2c(packet(
            0x08,
            u64_field(x) + u64_field(stance) + u64_field(y) + u64_field(z) + u32_field(yaw)
                + u32_field(pitch) + seq![on_ground] + rest,
        )) == converted(
            0x08,
            be64(x) + be64(y) + be64(z) + be32(yaw) + be32(pitch) + seq![0u8],
        ),
        short.len() < 41 ==> spec_convert_s2c(packet(0x08, short)) == Outcome::Passthrough,
{
    broadcast use fields_read;
}

/// UseBed: the id becomes variable-length, and the place is packed. A shorter one is left
/// alone.
pub proof fn s2c_use_bed(entity_id: i32, x: i32, y: u8, z: i32, rest: Seq<u8>, short: Seq<u8>)
    ensures
        spec_convert_s2c(packet(
            0x0A,
            i32_field(entity_id) + i32_field(x) + seq![y] + i32_field(z) + rest,
        )) == converted(
            0x0A,
            varint(entity_id) + be_i64(legacy_bits(x as int, y as int, z as int) as i64),
        ),
        short.len() < 13 ==> spec_convert_s2c(packet(0x0A, short)) == Outcome::Passthrough,
{
    broadcast use fields_read;
}

/// SpawnPainting: the place is packed, and the direction keeps its low eight bits. A missing
/// direction is 0.
#[verifier::rlimit(80)]
pub proof fn s2c_spawn_painting(
    entity_id: i32,
    title: Seq<char>,
    x: i32,
    y: i32,
    z: i32,
    direction: i32,
    rest: Seq<u8>,
)
    requires
        sendable(title),
    ensures
        spec_convert_s2c(packet(
            0x10,
            varint_field(entity_id) + text_field(title) + i32_field(x) + i32_field(y) + i32_field(z)
                + i32_field(direction) + rest,
        )) == converted(
            0x10,
            varint(entity_id) + wire_string(title)
                + be_i64(legacy_bits(x as int, y as int, z as int) as i64) + seq![direction as u8],
        ),
{
    broadcast use fields_read;
}

/// SpawnPainting: one that ends before its last field is left alone.
#[verifier::rlimit(60)]
pub proof fn s2c_spawn_painting_cut_off(
    entity_id: i32,
    title: Seq<char>,
    x: i32,
    y: i32,
    short: Seq<u8>,
)
    requires
        sendable(title),
        short.len() < 4,
    ensures
        spec_convert_s2c(packet(
            0x10,
            varint_field(entity_id) + text_field(title) + i32_field(x) + i32_field(y) + short,
        )) == Outcome::Passthrough,
{
    broadcast use fields_read;
}

/// SpawnPainting: what is missing at the end has its default.
pub proof fn s2c_spawn_painting_defaults(entity_id: i32, title: Seq<char>, x: i32, y: i32, z: i32)
    requires
        sendable(title),
    ensures
        spec_convert_s2c(packet(
            0x10,
            varint_field(entity_id) + text_field(title) + i32_field(x) + i32_field(y) + i32_field(z),
        )) == converted(
            0x10,
            varint(entity_id) + wire_string(title)
                + be_i64(legacy_bits(x as int, y as int, z as int) as i64) + seq![0i32 as u8],
        ),
{
    broadcast use fields_read;
}

/// EntityVelocity: the id becomes variable-length. A shorter one is left alone.
pub proof fn s2c_entity_velocity(entity_id: i32, tail: Seq<u8>, short: Seq<u8>)
    requires
        tail.len() >= 6,
    ensures
        spec_convert_s2c(packet(
            0x12,
            i32_field(entity_id) + tail,
        )) == converted(
            0x12,
            varint(entity_id) + tail,
        ),
        short.len() < 10 ==> spec_convert_s2c(packet(0x12, short)) == Outcome::Passthrough,
{
    broadcast use fields_read;
}

/// Entity: the id becomes variable-length. A shorter one is left alone.
pub proof fn s2c_entity(entity_id: i32, rest: Seq<u8>, short: Seq<u8>)
    ensures
        spec_convert_s2c(packet(
            0x14,
            i32_field(entity_id) + rest,
        )) == converted(
            0x14,
            varint(entity_id),
        ),
        short.len() < 4 ==> spec_convert_s2c(packet(0x14, short)) == Outcome::Passthrough,
{
    broadcast use fields_read;
}

/// EntityRelativeMove: the id becomes variable-length, and the entity is on the ground. A
/// shorter one is left alone.
pub proof fn s2c_entity_rel_move(entity_id: i32, tail: Seq<u8>, short: Seq<u8>)
    requires
        tail.len() >= 2,
    ensures
        spec_convert_s2c(packet(
            0x15,
            i32_field(entity_id) + tail,
        )) == converted(
            0x15,
            varint(entity_id) + tail + seq![1u8],
        ),
        short.len() < 6 ==> spec_convert_s2c(packet(0x15, short)) == Outcome::Passthrough,
{
    broadcast use fields_read;
}

/// EntityLook: the id becomes variable-length, and the entity is on the ground. A shorter one
/// is left alone.
pub proof fn s2c_entity_look(entity_id: i32, tail: Seq<u8>, short: Seq<u8>)
    requires
        tail.len() >= 2,
    ensures
        spec_convert_s2c(packet(
            0x16,
            i32_field(entity_id) + tail,
        )) == converted(
            0x16,
            varint(entity_id) + tail + seq![1u8],
        ),
        short.len() < 6 ==> spec_convert_s2c(packet(0x16, short)) == Outcome::Passthrough,
{
    broadcast use fields_read;
}

/// EntityLookAndRelativeMove: the id becomes variable-length, and the entity is on the ground.
/// A shorter one is left alone.
pub proof fn s2c_entity_look_rel_move(entity_id: i32, tail: Seq<u8>, short: Seq<u8>)
    requires
        tail.len() >= 4,
    ensures
        spec_convert_s2c(packet(
            0x17,
            i32_field(entity_id) + tail,
        )) == converted(
            0x17,
            varint(entity_id) + tail + seq![1u8],
        ),
        short.len() < 8 ==> spec_convert_s2c(packet(0x17, short)) == Outcome::Passthrough,
{
    broadcast use fields_read;
}

/// EntityTeleport: the id becomes variable-length, and the entity is on the ground. A shorter
/// one is left alone.
pub proof fn s2c_entity_teleport(entity_id: i32, tail: Seq<u8>, short: Seq<u8>)
    requires
        tail.len() >= 14,
    ensures
        spec_convert_s2c(packet(
            0x18,
            i32_field(entity_id) + tail,
        )) == converted(
            0x18,
            varint(entity_id) + tail + seq![1u8],
        ),
        short.len() < 18 ==> spec_convert_s2c(packet(0x18, short)) == Outcome::Passthrough,
{
    broadcast use fields_read;
}

/// EntityHeadLook: the id becomes variable-length. A shorter one is left alone.
pub proof fn s2c_entity_head_look(entity_id: i32, tail: Seq<u8>, short: Seq<u8>)
    requires
        tail.len() >= 1,
    ensures
        spec_convert_s2c(packet(
            0x19,
            i32_field(entity_id) + tail,
        )) == converted(
            0x19,
            varint(entity_id) + tail,
        ),
        short.len() < 5 ==> spec_convert_s2c(packet(0x19, short)) == Outcome::Passthrough,
{
    broadcast use fields_read;
}

/// EntityEffect: id and duration become variable-length, and the particles are shown. A shorter
/// one is left alone.
pub proof fn s2c_entity_effect(
    entity_id: i32,
    effect_id: i8,
    amplifier: i8,
    duration: i16,
    rest: Seq<u8>,
    short: Seq<u8>,
)
    ensures
        spec_convert_s2c(packet(
            0x1D,
            i32_field(entity_id) + i8_field(effect_id) + i8_field(amplifier) + i16_field(duration)
                + rest,
        )) == converted(
            0x1D,
            varint(entity_id) + be_i8(effect_id) + be_i8(amplifier) + varint(duration as i32)
                + seq![0u8],
        ),
        short.len() < 8 ==> spec_convert_s2c(packet(0x1D, short)) == Outcome::Passthrough,
{
    broadcast use fields_read;
}

/// RemoveEntityEffect: the id becomes variable-length. A shorter one is left alone.
pub proof fn s2c_remove_entity_effect(entity_id: i32, tail: Seq<u8>, short: Seq<u8>)
    requires
        tail.len() >= 1,
    ensures
        spec_convert_s2c(packet(
            0x1E,
            i32_field(entity_id) + tail,
        )) == converted(
            0x1E,
            varint(entity_id) + tail,
        ),
        short.len() < 5 ==> spec_convert_s2c(packet(0x1E, short)) == Outcome::Passthrough,
{
    broadcast use fields_read;
}

/// Experience: level and total become variable-length. A shorter one is left alone.
pub proof fn s2c_experience(bar: u32, level: i16, total: i16, rest: Seq<u8>, short: Seq<u8>)
    ensures
        spec_convert_s2c(packet(
            0x1F,
            u32_field(bar) + i16_field(level) + i16_field(total) + rest,
        )) == converted(
            0x1F,
            be32(bar) + varint(level as i32) + varint(total as i32),
        ),
        short.len() < 8 ==> spec_convert_s2c(packet(0x1F, short)) == Outcome::Passthrough,
{
    broadcast use fields_read;
}

/// BlockAction: the place is packed. A shorter one is left alone.
pub proof fn s2c_block_action(x: i32, y: i16, z: i32, tail: Seq<u8>, short: Seq<u8>)
    requires
        tail.len() >= 1,
    ensures
        spec_convert_s2c(packet(
            0x24,
            i32_field(x) + i16_field(y) + i32_field(z) + tail,
        )) == converted(
            0x24,
            be_i64(legacy_bits(x as int, y as int, z as int) as i64) + tail,
        ),
        short.len() < 11 ==> spec_convert_s2c(packet(0x24, short)) == Outcome::Passthrough,
{
    broadcast use fields_read;
}

/// BlockBreakAnimation: the place is packed.
pub proof fn s2c_block_break_anim(entity_id: i32, x: i32, y: i32, z: i32, stage: i8, rest: Seq<u8>)
    ensures
        spec_convert_s2c(packet(
            0x25,
            varint_field(entity_id) + i32_field(x) + i32_field(y) + i32_field(z) + i8_field(stage)
                + rest,
        )) == converted(
            0x25,
            varint(entity_id) + be_i64(legacy_bits(x as int, y as int, z as int) as i64) + be_i8(stage),
        ),
{
    broadcast use fields_read;
}

/// BlockBreakAnimation: one that ends before its last field is left alone.
pub proof fn s2c_block_break_anim_cut_off(entity_id: i32, x: i32, y: i32, z: i32)
    ensures
        spec_convert_s2c(packet(
            0x25,
            varint_field(entity_id) + i32_field(x) + i32_field(y) + i32_field(z),
        )) == Outcome::Passthrough,
{
    broadcast use fields_read;
}

/// Effect: the place is packed. A shorter one is left alone.
pub proof fn s2c_effect(effect_id: i32, x: i32, y: u8, z: i32, tail: Seq<u8>, short: Seq<u8>)
    requires
        tail.len() >= 2,
    ensures
        spec_convert_s2c(packet(
            0x28,
            i32_field(effect_id) + i32_field(x) + seq![y] + i32_field(z) + tail,
        )) == converted(
            0x28,
            be_i32(effect_id) + be_i64(legacy_bits(x as int, y as int, z as int) as i64) + tail,
        ),
        short.len() < 15 ==> spec_convert_s2c(packet(0x28, short)) == Outcome::Passthrough,
{
    broadcast use fields_read;
}

/// UpdateSign: the place is packed, and the four lines become chat components.
#[verifier::rlimit(80)]
pub proof fn s2c_update_sign(
    x: i32,
    y: i16,
    z: i32,
    first: Seq<char>,
    second: Seq<char>,
    third: Seq<char>,
    fourth: Seq<char>,
    rest: Seq<u8>,
)
    requires
        sendable(first),
        sendable(second),
        sendable(third),
        sendable(fourth),
    ensures
        spec_convert_s2c(packet(
            0x33,
            i32_field(x) + i16_field(y) + i32_field(z) + text_field(first) + text_field(second)
                + text_field(third) + text_field(fourth) + rest,
        )) == converted(
            0x33,
            be_i64(legacy_bits(x as int, y as int, z as int) as i64) + wire_string(json_line_of(first))
                + wire_string(json_line_of(second)) + wire_string(json_line_of(third))
                + wire_string(json_line_of(fourth)),
        ),
{
    broadcast use fields_read;
}

/// UpdateSign: one that ends before its last field is left alone.
#[verifier::rlimit(60)]
pub proof fn s2c_update_sign_cut_off(
    x: i32,
    y: i16,
    z: i32,
    first: Seq<char>,
    second: Seq<char>,
    third: Seq<char>,
)
    requires
        sendable(first),
        sendable(second),
        sendable(third),
    ensures
        spec_convert_s2c(packet(
            0x33,
            i32_field(x) + i16_field(y) + i32_field(z) + text_field(first) + text_field(second)
                + text_field(third),
        )) == Outcome::Passthrough,
{
    broadcast use fields_read;
}

/// UpdateTileEntity: the place is packed. A shorter one is left alone.
pub proof fn s2c_update_tile_entity(x: i32, y: i16, z: i32, tail: Seq<u8>, short: Seq<u8>)
    ensures
        spec_convert_s2c(packet(
            0x35,
            i32_field(x) + i16_field(y) + i32_field(z) + tail,
        )) == converted(
            0x35,
            be_i64(legacy_bits(x as int, y as int, z as int) as i64) + tail,
        ),
        short.len() < 10 ==> spec_convert_s2c(packet(0x35, short)) == Outcome::Passthrough,
{
    broadcast use fields_read;
}

/// OpenSignEditor: the place is packed. A shorter one is left alone.
pub proof fn s2c_open_sign_editor(x: i32, y: i32, z: i32, rest: Seq<u8>, short: Seq<u8>)
    ensures
        spec_convert_s2c(packet(
            0x36,
            i32_field(x) + i32_field(y) + i32_field(z) + rest,
        )) == converted(
            0x36,
            be_i64(legacy_bits(x as int, y as int, z as int) as i64),
        ),
        short.len() < 12 ==> spec_convert_s2c(packet(0x36, short)) == Outcome::Passthrough,
{
    broadcast use fields_read;
}

/// These packets toward the client keep their bodies and change their ids.
pub proof fn s2c_bodies_kept(b: Seq<u8>)
    ensures
        spec_convert_s2c(packet(0x23, b)) == converted(0x23, b),
{
    broadcast use fields_read;
}

/// These packets toward the client go no further.
pub proof fn s2c_dropped(b: Seq<u8>)
    ensures
        spec_convert_s2c(packet(0x0C, b)) == Outcome::Drop,
        spec_convert_s2c(packet(0x21, b)) == Outcome::Drop,
        spec_convert_s2c(packet(0x22, b)) == Outcome::Drop,
        spec_convert_s2c(packet(0x26, b)) == Outcome::Drop,
        spec_convert_s2c(packet(0x2A, b)) == Outcome::Drop,
        spec_convert_s2c(packet(0x34, b)) == Outcome::Drop,
        spec_convert_s2c(packet(0x38, b)) == Outcome::Drop,
{
    broadcast use fields_read;
}

/// All other packets toward the client are left alone.
pub proof fn s2c_others_left_alone(id: u8, b: Seq<u8>)
    requires
        id != 0x01 && id != 0x02 && id != 0x04 && id != 0x05 && id != 0x06 && id != 0x08 &&
        id != 0x0A && id != 0x0C && id != 0x10 && id != 0x12 && id != 0x13 && id != 0x14 &&
        id != 0x15 && id != 0x16 && id != 0x17 && id != 0x18 && id != 0x19 && id != 0x1D &&
        id != 0x1E && id != 0x1F && id != 0x20 && id != 0x21 && id != 0x22 && id != 0x23 &&
        id != 0x24 && id != 0x25 && id != 0x26 && id != 0x28 && id != 0x2A && id != 0x2D &&
        id != 0x33 && id != 0x34 && id != 0x35 && id != 0x36 && id != 0x38 && id != 0x3A &&
        id != 0x3E,
    ensures
        spec_convert_s2c(packet(id, b)) == Outcome::Passthrough,
{
    broadcast use fields_read;
}

/// UseEntity: the target becomes variable-length; mouse button 1 is an attack, all others are
/// an interaction. A shorter one is left alone.
pub proof fn c2s_use_entity(target: i32, mouse: i8, rest: Seq<u8>, short: Seq<u8>)
    ensures
        spec_convert_c2s(packet(
            0x02,
            i32_field(target) + i8_field(mouse) + rest,
        )) == converted(
            0x02,
            varint(target) + varint(if mouse == 1 { 1i32 } else { 0i32 }),
        ),
        short.len() < 5 ==> spec_convert_c2s(packet(0x02, short)) == Outcome::Passthrough,
{
    broadcast use fields_read;
}

/// PlayerPositionAndLook: the stance, which stands behind y, is dropped. A shorter one is left
/// alone.
#[verifier::rlimit(80)]
pub proof fn c2s_player_pos_look(
    x: u64,
    y: u64,
    stance: u64,
    z: u64,
    yaw: u32,
    pitch: u32,
    on_ground: u8,
    rest: Seq<u8>,
    short: Seq<u8>,
)
    ensures
        spec_convert_c2s(packet(
            0x06,
            u64_field(x) + u64_field(y) + u64_field(stance) + u64_field(z) + u32_field(yaw)
                + u32_field(pitch) + seq![on_ground] + rest,
        )) == converted(
            0x06,
            be64(x) + be64(y) + be64(z) + be32(yaw) + be32(pitch) + seq![on_ground],
        ),
        short.len() < 41 ==> spec_convert_c2s(packet(0x06, short)) == Outcome::Passthrough,
{
    broadcast use fields_read;
}

/// PlayerDigging: the place is packed. A shorter one is left alone.
pub proof fn c2s_player_digging(
    status: i8,
    x: i32,
    y: u8,
    z: i32,
    face: i8,
    rest: Seq<u8>,
    short: Seq<u8>,
)
    ensures
        spec_convert_c2s(packet(
            0x07,
            i8_field(status) + i32_field(x) + seq![y] + i32_field(z) + i8_field(face) + rest,
        )) == converted(
            0x07,
            be_i8(status) + be_i64(legacy_bits(x as int, y as int, z as int) as i64) + be_i8(face),
        ),
        short.len() < 11 ==> spec_convert_c2s(packet(0x07, short)) == Outcome::Passthrough,
{
    broadcast use fields_read;
}

/// PlayerBlockPlacement: the place is packed. A shorter one is left alone.
pub proof fn c2s_player_block_place(x: i32, y: u8, z: i32, direction: i8, tail: Seq<u8>, short: Seq<u8>)
    ensures
        spec_convert_c2s(packet(
            0x08,
            i32_field(x) + seq![y] + i32_field(z) + i8_field(direction) + tail,
        )) == converted(
            0x08,
            be_i64(legacy_bits(x as int, y as int, z as int) as i64) + be_i8(direction) + tail,
        ),
        short.len() < 10 ==> spec_convert_c2s(packet(0x08, short)) == Outcome::Passthrough,
{
    broadcast use fields_read;
}

/// UpdateSign: the place is packed, and the four lines become chat components.
#[verifier::rlimit(80)]
pub proof fn c2s_update_sign(
    x: i32,
    y: i16,
    z: i32,
    first: Seq<char>,
    second: Seq<char>,
    third: Seq<char>,
    fourth: Seq<char>,
    rest: Seq<u8>,
)
    requires
        sendable(first),
        sendable(second),
        sendable(third),
        sendable(fourth),
    ensures
        spec_convert_c2s(packet(
            0x12,
            i32_field(x) + i16_field(y) + i32_field(z) + text_field(first) + text_field(second)
                + text_field(third) + text_field(fourth) + rest,
        )) == converted(
            0x12,
            be_i64(legacy_bits(x as int, y as int, z as int) as i64) + wire_string(json_line_of(first))
                + wire_string(json_line_of(second)) + wire_string(json_line_of(third))
                + wire_string(json_line_of(fourth)),
        ),
{
    broadcast use fields_read;
}

/// UpdateSign: one that ends before its last field is left alone.
#[verifier::rlimit(60)]
pub proof fn c2s_update_sign_cut_off(
    x: i32,
    y: i16,
    z: i32,
    first: Seq<char>,
    second: Seq<char>,
    third: Seq<char>,
)
    requires
        sendable(first),
        sendable(second),
        sendable(third),
    ensures
        spec_convert_c2s(packet(
            0x12,
            i32_field(x) + i16_field(y) + i32_field(z) + text_field(first) + text_field(second)
                + text_field(third),
        )) == Outcome::Passthrough,
{
    broadcast use fields_read;
}

/// All other packets toward the server are left alone.
pub proof fn c2s_others_left_alone(id: u8, b: Seq<u8>)
    requires
        id != 0x02 && id != 0x06 && id != 0x07 && id != 0x08 && id != 0x12,
    ensures
        spec_convert_c2s(packet(id, b)) == Outcome::Passthrough,
{
    broadcast use fields_read;
}

/// JoinGame: debug information is shown. An empty one is left alone.
pub proof fn s2c_join_game(b: Seq<u8>)
    ensures
        b.len() > 0 ==> spec_convert_s2c(packet(0x01, b)) == converted(0x01, b.push(0)),
        spec_convert_s2c(packet(0x01, seq![])) == Outcome::Passthrough,
{
    broadcast use fields_read;

    assert(b + seq![0u8] =~= b.push(0));
}

/// Chat: the message stands in the chat box, which is place 0.
pub proof fn s2c_chat(b: Seq<u8>)
    ensures
        spec_convert_s2c(packet(0x02, b)) == converted(0x02, b.push(0)),
{
    broadcast use fields_read;

    assert(b + seq![0u8] =~= b.push(0));
}

/// DestroyEntities: the count and each id become variable-length, in order. One that is
/// shorter than its count says is left alone.
pub proof fn s2c_entity_destroy(count: i8, ids: Seq<u8>, parts: Seq<Seq<u8>>)
    requires
        0 <= count,
        parts.len() == count,
        forall|i: int| 0 <= i < count ==> #[trigger] parts[i] == varint(i32_at(ids, 4 * i)),
    ensures
        4 * count <= ids.len() ==> spec_convert_s2c(packet(0x13, i8_field(count) + ids)) == converted(
            0x13,
            varint(count as i32) + joined(parts),
        ),
        4 * count > ids.len() ==> spec_convert_s2c(packet(0x13, i8_field(count) + ids))
            == Outcome::Passthrough,
{
    broadcast use fields_read;

    if 4 * count <= ids.len() {
        ids_behind_count(count, ids, parts);
    }
}

/// EntityProperties: the id becomes variable-length, and so does the count of each attribute's
/// modifiers, of 25 bytes each, that stand behind its key and its value. One without attributes
/// has only the two counts.
#[verifier::rlimit(60)]
pub proof fn s2c_entity_properties(
    entity_id: i32,
    key: Seq<char>,
    value: u64,
    count: i16,
    modifiers: Seq<u8>,
    rest: Seq<u8>,
)
    requires
        sendable(key),
        0 <= count,
        modifiers.len() == 25 * count,
    ensures
        spec_convert_s2c(
            packet(
                0x20,
                i32_field(entity_id) + i32_field(1) + text_field(key) + u64_field(value) + i16_field(count)
                    + modifiers + rest,
            ),
        ) == converted(
            0x20,
            varint(entity_id) + be_i32(1) + (wire_string(key) + be64(value) + varint(count as i32) + modifiers),
        ),
        spec_convert_s2c(packet(0x20, i32_field(entity_id) + i32_field(0) + rest)) == converted(
            0x20,
            varint(entity_id) + be_i32(0),
        ),
{
    broadcast use fields_read;

    let front = i32_field(entity_id) + i32_field(1) + text_field(key) + u64_field(value) + i16_field(count);
    let b = front + modifiers + rest;
    let q: int = 8 + text_field(key).len() as int;
    assert(i32_at(b, 0) == entity_id);
    assert(i32_at(b, 4) == 1);
    assert(string_at(b, 8) == Some((key, q)));
    assert(u64_at(b, q) == value);
    assert(i16_at(b, q + 8) == count);
    let end = q + 10 + modifier_count(count) * 25;
    assert(b.subrange(q + 10, q + 10 + 25 * count) =~= modifiers);
    reveal_with_fuel(attributes_from, 2);
    let one = wire_string(key) + be64(value) + varint(count as i32) + modifiers;
    assert(one + Seq::<u8>::empty() =~= one);
    let none = varint(entity_id) + be_i32(0);
    assert(none + Seq::<u8>::empty() =~= none);
}

/// OpenWindow: the kind becomes a name, and the rest stays. A shorter one is left alone.
pub proof fn s2c_open_window(window: u8, kind: u8, rest: Seq<u8>, name: Seq<char>)
    requires
        rest.len() >= 1,
        kind == 0 ==> name == "minecraft:chest"@,
        kind == 1 ==> name == "minecraft:crafting_table"@,
        kind == 2 ==> name == "minecraft:furnace"@,
        kind == 3 ==> name == "minecraft:dispenser"@,
        kind == 4 ==> name == "minecraft:enchanting_table"@,
        kind == 5 ==> name == "minecraft:brewing_stand"@,
        kind == 6 ==> name == "minecraft:villager"@,
        kind == 7 ==> name == "minecraft:beacon"@,
        kind == 8 ==> name == "minecraft:anvil"@,
        kind == 9 ==> name == "minecraft:hopper"@,
        kind == 10 ==> name == "minecraft:dropper"@,
        kind == 11 ==> name == "EntityHorse"@,
        kind > 11 ==> name == "minecraft:chest"@,
    ensures
        spec_convert_s2c(packet(0x2D, seq![window] + seq![kind] + rest)) == converted(
            0x2D,
            seq![window] + wire_string(name) + rest,
        ),
{
    broadcast use fields_read;

    let b = seq![window] + seq![kind] + rest;
    assert(b.skip(2) =~= rest);
}

/// TabComplete: the proposals, which stand in one text with a zero character between them,
/// become texts of their own behind their count. An empty text holds none.
#[verifier::rlimit(60)]
pub proof fn s2c_tab_complete(first: Seq<char>, second: Seq<char>, rest: Seq<u8>)
    requires
        !first.contains('\0'),
        !second.contains('\0'),
        first.len() > 0,
        sendable(first),
        sendable(first.push('\0') + second),
        sendable(Seq::<char>::empty()),
    ensures
        spec_convert_s2c(packet(0x3A, text_field(first) + rest)) == converted(
            0x3A,
            varint(1) + wire_string(first),
        ),
        spec_convert_s2c(packet(0x3A, text_field(first.push('\0') + second) + rest)) == converted(
            0x3A,
            varint(2) + (wire_string(first) + wire_string(second)),
        ),
        spec_convert_s2c(packet(0x3A, text_field(Seq::<char>::empty()) + rest)) == converted(0x3A, varint(0)),
{
    broadcast use fields_read;

    undivided(first, '\0');
    divided(first, second, '\0');
    reveal_with_fuel(wire_strings, 3);
    assert(seq![first].drop_last() =~= seq![]);
    assert(seq![first].push(second).drop_last() =~= seq![first]);
    assert(Seq::<u8>::empty() + wire_string(first) =~= wire_string(first));
    assert(varint(0) + Seq::<u8>::empty() =~= varint(0));
}

/// ScoreboardTeam: a team that is made or changed shows its name tags to all.
#[verifier::rlimit(60)]
pub proof fn s2c_scoreboard_team(name: Seq<char>, mode: u8, rest: Seq<u8>)
    requires
        sendable(name),
    ensures
        mode == 0 || mode == 2 ==> spec_convert_s2c(packet(0x3E, text_field(name) + seq![mode] + rest))
            == converted(0x3E, wire_string(name) + (seq![mode] + rest) + wire_string("always"@)),
        mode == 1 || mode >= 3 ==> spec_convert_s2c(packet(0x3E, text_field(name) + seq![mode] + rest))
            == converted(0x3E, wire_string(name) + (seq![mode] + rest)),
{
    broadcast use fields_read;

    let b = text_field(name) + seq![mode] + rest;
    let p: int = text_field(name).len() as int;
    assert(string_at(b, 0) == Some((name, p)));
    assert(b[p] == mode);
    assert(b.skip(p) =~= seq![mode] + rest);
}

/// Button 1 of a 1.7.10 client attacks its target, and button 0 interacts with it.
#[verifier::rlimit(60)]
pub proof fn c2s_attack_and_interact(target: i32)
    ensures
        spec_convert_c2s(seq![0x02u8] + (be_i32(target) + seq![1u8])) == Outcome::Converted(
            seq![seq![0x02u8] + (varint(target) + seq![1u8])],
        ),
        spec_convert_c2s(seq![0x02u8] + (be_i32(target) + seq![0u8])) == Outcome::Converted(
            seq![seq![0x02u8] + (varint(target) + seq![0u8])],
        ),
{
    reveal(i32_field);
    reveal(i8_field);
    let none = Seq::<u8>::empty();
    assert(be_i8(1) =~= seq![1u8] && be_i8(0) =~= seq![0u8]);
    assert(i32_field(target) + i8_field(1) + none =~= be_i32(target) + seq![1u8]);
    assert(i32_field(target) + i8_field(0) + none =~= be_i32(target) + seq![0u8]);
    c2s_use_entity(target, 1, none, none);
    c2s_use_entity(target, 0, none, none);
    assert(varint(0x02) =~= seq![0x02u8] && varint(1) =~= seq![1u8] && varint(0) =~= seq![0u8]);
}

} // verus!
