//! What becomes of the packets of 1.6.4 for 1.12.2, field by field.

use crate::converter::laws::fields::{
    fields_read, i16_field, i32_field, i64_field, i8_field, ids_behind_count, joined, middle,
    sendable_before_1_7, u16_field, u32_field, u64_field, ucs2_field,
};
use crate::converter::outcome::{Outcome, converted, packet};
use crate::converter::v1_6_4_to_v1_12_2::{plain_slots, spec_convert_c2s, spec_convert_s2c};
use crate::ident::offline_id;
use crate::number::{double_of_fixed, narrowed, single_of_sixteenths, single_of_sixty_thirds};
use crate::position::legacy_bits;
use crate::text::{json_component, json_escaped, quotes_escaped, ucs2_at, utf16, wire_string};
use crate::varint::varint;
use crate::wire::{be32, be64, be_i16, be_i32, be_i64, be_i8, i16_at, i32_at, i8_at, u32_at};
use vstd::prelude::*;

verus! {

/// KeepAlive: the `i32` id becomes an `i64`, as the newer client has it from 1.12.2 on. A
/// shorter one is left alone.
pub proof fn s2c_keep_alive(id: i32, rest: Seq<u8>, uuid: (u64, u64), short: Seq<u8>)
    ensures
        spec_convert_s2c(packet(
            0x00,
            i32_field(id) + rest,
        ), uuid) == converted(
            0x1F,
            be_i64(id as i64),
        ),
        short.len() < 4 ==> spec_convert_s2c(packet(0x00, short), uuid) == Outcome::Passthrough,
{
    broadcast use fields_read;
}

/// LoginRequest becomes JoinGame: the world height is dropped, the level type moves behind the
/// player limit, and reduced debug information is off.
#[verifier::rlimit(80)]
pub proof fn s2c_login_request(
    entity_id: i32,
    level_type: Seq<char>,
    gamemode: i8,
    dimension: i8,
    difficulty: i8,
    world_height: u8,
    max_players: u8,
    rest: Seq<u8>,
    uuid: (u64, u64),
)
    requires
        sendable_before_1_7(level_type),
    ensures
        spec_convert_s2c(packet(
            0x01,
            i32_field(entity_id) + ucs2_field(level_type) + i8_field(gamemode) + i8_field(dimension)
                + i8_field(difficulty) + seq![world_height] + seq![max_players] + rest,
        ), uuid) == converted(
            0x23,
            be_i32(entity_id) + seq![gamemode as u8] + be_i32(dimension as i32) + seq![difficulty as u8]
                + seq![max_players] + wire_string(level_type) + seq![0u8],
        ),
{
    broadcast use fields_read;
}

/// LoginRequest: one that ends before its last field is left alone.
#[verifier::rlimit(60)]
pub proof fn s2c_login_request_cut_off(
    entity_id: i32,
    level_type: Seq<char>,
    gamemode: i8,
    dimension: i8,
    difficulty: i8,
    world_height: u8,
    uuid: (u64, u64),
)
    requires
        sendable_before_1_7(level_type),
    ensures
        spec_convert_s2c(packet(
            0x01,
            i32_field(entity_id) + ucs2_field(level_type) + i8_field(gamemode) + i8_field(dimension)
                + i8_field(difficulty) + seq![world_height],
        ), uuid) == Outcome::Passthrough,
{
    broadcast use fields_read;
}

/// Chat: a plain text becomes a chat component at position 0.
pub proof fn s2c_chat(message: Seq<char>, rest: Seq<u8>, uuid: (u64, u64))
    requires
        sendable_before_1_7(message),
    ensures
        spec_convert_s2c(packet(
            0x03,
            ucs2_field(message) + rest,
        ), uuid) == converted(
            0x0F,
            wire_string(json_component(json_escaped(message))) + seq![0u8],
        ),
{
    broadcast use fields_read;
}

/// Chat: one that ends before its last field is left alone.
pub proof fn s2c_chat_cut_off(uuid: (u64, u64))
    ensures
        spec_convert_s2c(packet(
            0x03,
            Seq::<u8>::empty(),
        ), uuid) == Outcome::Passthrough,
{
    broadcast use fields_read;
}

/// Respawn: the world height is dropped.
pub proof fn s2c_respawn(
    dimension: i32,
    difficulty: i8,
    gamemode: i8,
    world_height: i16,
    level_type: Seq<char>,
    rest: Seq<u8>,
    uuid: (u64, u64),
)
    requires
        sendable_before_1_7(level_type),
    ensures
        spec_convert_s2c(packet(
            0x09,
            i32_field(dimension) + i8_field(difficulty) + i8_field(gamemode) + i16_field(world_height)
                + ucs2_field(level_type) + rest,
        ), uuid) == converted(
            0x35,
            be_i32(dimension) + seq![difficulty as u8] + seq![gamemode as u8] + wire_string(level_type),
        ),
{
    broadcast use fields_read;
}

/// Respawn: one that ends before its last field is left alone.
pub proof fn s2c_respawn_cut_off(
    dimension: i32,
    difficulty: i8,
    gamemode: i8,
    world_height: i16,
    uuid: (u64, u64),
)
    ensures
        spec_convert_s2c(packet(
            0x09,
            i32_field(dimension) + i8_field(difficulty) + i8_field(gamemode) + i16_field(world_height),
        ), uuid) == Outcome::Passthrough,
{
    broadcast use fields_read;
}

/// EntityEquipment: the item is taken away. A shorter one is left alone.
pub proof fn s2c_entity_equipment_real(
    entity_id: i32,
    slot: i16,
    rest: Seq<u8>,
    uuid: (u64, u64),
    short: Seq<u8>,
)
    ensures
        spec_convert_s2c(packet(
            0x05,
            i32_field(entity_id) + i16_field(slot) + rest,
        ), uuid) == converted(
            0x3F,
            varint(entity_id) + varint(slot as i32) + seq![0u8],
        ),
        short.len() < 6 ==> spec_convert_s2c(packet(0x05, short), uuid) == Outcome::Passthrough,
{
    broadcast use fields_read;
}

/// PlayerPositionAndLook: x, stance, y, z, yaw, pitch and the ground flag become x, y, z, yaw,
/// pitch, no relative flags and teleport id 0. A shorter one is left alone.
#[verifier::rlimit(80)]
pub proof fn s2c_player_pos_look(
    x: u64,
    stance: u64,
    y: u64,
    z: u64,
    yaw: u32,
    pitch: u32,
    on_ground: u8,
    rest: Seq<u8>,
    uuid: (u64, u64),
    short: Seq<u8>,
)
    ensures
        spec_convert_s2c(packet(
            0x0D,
            u64_field(x) + u64_field(stance) + u64_field(y) + u64_field(z) + u32_field(yaw)
                + u32_field(pitch) + seq![on_ground] + rest,
        ), uuid) == converted(
            0x2F,
            be64(x) + be64(y) + be64(z) + be32(yaw) + be32(pitch) + seq![0u8] + varint(0i32),
        ),
        short.len() < 41 ==> spec_convert_s2c(packet(0x0D, short), uuid) == Outcome::Passthrough,
{
    broadcast use fields_read;
}

/// s2c_spawn_player
#[verifier::rlimit(80)]
pub proof fn s2c_spawn_player(
    entity_id: i32,
    name: Seq<char>,
    x: i32,
    y: i32,
    z: i32,
    yaw: i8,
    pitch: i8,
    rest: Seq<u8>,
    uuid: (u64, u64),
)
    requires
        sendable_before_1_7(name),
        rest.len() >= 2,
    ensures
        spec_convert_s2c(packet(
            0x14,
            i32_field(entity_id) + ucs2_field(name) + i32_field(x) + i32_field(y) + i32_field(z)
                + i8_field(yaw) + i8_field(pitch) + rest,
        ), uuid) == converted(
            0x05,
            varint(entity_id) + be_i64(uuid.0 as i64) + be_i64(uuid.1 as i64)
                + be64(double_of_fixed(x as int, 5)) + be64(double_of_fixed(y as int, 5))
                + be64(double_of_fixed(z as int, 5)) + seq![yaw as u8] + seq![pitch as u8]
                + seq![0xFFu8],
        ),
{
    broadcast use fields_read;
    let b = i32_field(entity_id) + ucs2_field(name) + i32_field(x) + i32_field(y) + i32_field(z)
            + i8_field(yaw) + i8_field(pitch) + rest;
    assert(i32_at(b, 0) == entity_id);
    let p1: int = (4 + ucs2_field(name).len()) as int;
    assert(ucs2_at(b, 4) == Some((utf16(name), p1)));
    assert(i32_at(b, p1) == x);
    assert(i32_at(b, p1 + 4) == y);
    assert(i32_at(b, p1 + 8) == z);
    assert(i8_at(b, p1 + 12) == yaw);
    assert(i8_at(b, p1 + 13) == pitch);
}

/// s2c_spawn_player: one that ends before its last field is left alone.
#[verifier::rlimit(60)]
pub proof fn s2c_spawn_player_cut_off(
    entity_id: i32,
    name: Seq<char>,
    x: i32,
    y: i32,
    z: i32,
    yaw: i8,
    uuid: (u64, u64),
)
    requires
        sendable_before_1_7(name),
    ensures
        spec_convert_s2c(packet(
            0x14,
            i32_field(entity_id) + ucs2_field(name) + i32_field(x) + i32_field(y) + i32_field(z)
                + i8_field(yaw),
        ), uuid) == Outcome::Passthrough,
{
    broadcast use fields_read;
}

/// Animation: the id becomes variable-length. A shorter one is left alone.
pub proof fn s2c_animation(
    entity_id: i32,
    animation: u8,
    rest: Seq<u8>,
    uuid: (u64, u64),
    short: Seq<u8>,
)
    ensures
        spec_convert_s2c(packet(
            0x12,
            i32_field(entity_id) + seq![animation] + rest,
        ), uuid) == converted(
            0x06,
            varint(entity_id) + seq![animation],
        ),
        short.len() < 5 ==> spec_convert_s2c(packet(0x12, short), uuid) == Outcome::Passthrough,
{
    broadcast use fields_read;
}

/// SpawnMob: fixed-point coordinates become doubles, the metadata is empty. A shorter one is
/// left alone.
#[verifier::rlimit(80)]
pub proof fn s2c_spawn_mob(
    eid: i32,
    kind: u8,
    x: i32,
    y: i32,
    z: i32,
    yaw: i8,
    pitch: i8,
    head_pitch: i8,
    vx: i16,
    vy: i16,
    vz: i16,
    rest: Seq<u8>,
    uuid: (u64, u64),
    short: Seq<u8>,
)
    ensures
        spec_convert_s2c(packet(
            0x18,
            i32_field(eid) + seq![kind] + i32_field(x) + i32_field(y) + i32_field(z) + i8_field(yaw)
                + i8_field(pitch) + i8_field(head_pitch) + i16_field(vx) + i16_field(vy) + i16_field(vz)
                + rest,
        ), uuid) == converted(
            0x03,
            varint(eid) + seq![kind] + be64(double_of_fixed(x as int, 5))
                + be64(double_of_fixed(y as int, 5)) + be64(double_of_fixed(z as int, 5)) + be_i8(yaw)
                + be_i8(pitch) + be_i8(head_pitch) + be_i16(vx) + be_i16(vy) + be_i16(vz) + seq![0x7Fu8],
        ),
        short.len() < 26 ==> spec_convert_s2c(packet(0x18, short), uuid) == Outcome::Passthrough,
{
    broadcast use fields_read;
}

/// s2c_spawn_painting
#[verifier::rlimit(80)]
pub proof fn s2c_spawn_painting(
    eid: i32,
    title: Seq<char>,
    x: i32,
    y: i32,
    z: i32,
    direction: i32,
    rest: Seq<u8>,
    uuid: (u64, u64),
)
    requires
        sendable_before_1_7(title),
    ensures
        spec_convert_s2c(packet(
            0x19,
            i32_field(eid) + ucs2_field(title) + i32_field(x) + i32_field(y) + i32_field(z)
                + i32_field(direction) + rest,
        ), uuid) == converted(
            0x04,
            varint(eid) + be_i64(uuid.0 as i64) + be_i64(uuid.1 as i64)
                + be_i64(legacy_bits(x as int, y as int, z as int) as i64) + be_i8(direction as i8)
                + wire_string(title),
        ),
{
    broadcast use fields_read;
}

/// s2c_spawn_painting: one that ends before its last field is left alone.
#[verifier::rlimit(60)]
pub proof fn s2c_spawn_painting_cut_off(
    eid: i32,
    title: Seq<char>,
    x: i32,
    y: i32,
    z: i32,
    short: Seq<u8>,
    uuid: (u64, u64),
)
    requires
        sendable_before_1_7(title),
        short.len() < 4,
    ensures
        spec_convert_s2c(packet(
            0x19,
            i32_field(eid) + ucs2_field(title) + i32_field(x) + i32_field(y) + i32_field(z) + short,
        ), uuid) == Outcome::Passthrough,
{
    broadcast use fields_read;
}

/// SpawnExperienceOrb: fixed-point coordinates become doubles. A shorter one is left alone.
pub proof fn s2c_spawn_exp_orb(
    eid: i32,
    x: i32,
    y: i32,
    z: i32,
    count: i16,
    rest: Seq<u8>,
    uuid: (u64, u64),
    short: Seq<u8>,
)
    ensures
        spec_convert_s2c(packet(
            0x1A,
            i32_field(eid) + i32_field(x) + i32_field(y) + i32_field(z) + i16_field(count) + rest,
        ), uuid) == converted(
            0x01,
            varint(eid) + be64(double_of_fixed(x as int, 5)) + be64(double_of_fixed(y as int, 5))
                + be64(double_of_fixed(z as int, 5)) + be_i16(count),
        ),
        short.len() < 18 ==> spec_convert_s2c(packet(0x1A, short), uuid) == Outcome::Passthrough,
{
    broadcast use fields_read;
}

/// EntityTeleport: fixed-point coordinates become doubles, and the entity is off the ground. A
/// shorter one is left alone.
#[verifier::rlimit(80)]
pub proof fn s2c_entity_teleport(
    entity_id: i32,
    x: i32,
    y: i32,
    z: i32,
    yaw: i8,
    pitch: i8,
    rest: Seq<u8>,
    uuid: (u64, u64),
    short: Seq<u8>,
)
    ensures
        spec_convert_s2c(packet(
            0x22,
            i32_field(entity_id) + i32_field(x) + i32_field(y) + i32_field(z) + i8_field(yaw)
                + i8_field(pitch) + rest,
        ), uuid) == converted(
            0x4C,
            varint(entity_id) + be64(double_of_fixed(x as int, 5)) + be64(double_of_fixed(y as int, 5))
                + be64(double_of_fixed(z as int, 5)) + seq![yaw as u8] + seq![pitch as u8] + seq![0u8],
        ),
        short.len() < 18 ==> spec_convert_s2c(packet(0x22, short), uuid) == Outcome::Passthrough,
{
    broadcast use fields_read;
}

/// EntityRelativeMove: steps of 1/32 become steps of 1/4096, and the entity is off the ground.
/// A shorter one is left alone.
pub proof fn s2c_entity_rel_move(
    entity_id: i32,
    dx: i8,
    dy: i8,
    dz: i8,
    rest: Seq<u8>,
    uuid: (u64, u64),
    short: Seq<u8>,
)
    ensures
        spec_convert_s2c(packet(
            0x15,
            i32_field(entity_id) + i8_field(dx) + i8_field(dy) + i8_field(dz) + rest,
        ), uuid) == converted(
            0x26,
            varint(entity_id) + be_i16((dx * 128) as i16) + be_i16((dy * 128) as i16)
                + be_i16((dz * 128) as i16) + seq![0u8],
        ),
        short.len() < 7 ==> spec_convert_s2c(packet(0x15, short), uuid) == Outcome::Passthrough,
{
    broadcast use fields_read;
}

/// Entity: the id becomes variable-length. A shorter one is left alone.
pub proof fn s2c_entity(entity_id: i32, rest: Seq<u8>, uuid: (u64, u64), short: Seq<u8>)
    ensures
        spec_convert_s2c(packet(
            0x1E,
            i32_field(entity_id) + rest,
        ), uuid) == converted(
            0x25,
            varint(entity_id),
        ),
        short.len() < 4 ==> spec_convert_s2c(packet(0x1E, short), uuid) == Outcome::Passthrough,
{
    broadcast use fields_read;
}

/// EntityVelocity: the id becomes variable-length. A shorter one is left alone.
pub proof fn s2c_entity_velocity(
    eid: i32,
    vx: i16,
    vy: i16,
    vz: i16,
    rest: Seq<u8>,
    uuid: (u64, u64),
    short: Seq<u8>,
)
    ensures
        spec_convert_s2c(packet(
            0x1C,
            i32_field(eid) + i16_field(vx) + i16_field(vy) + i16_field(vz) + rest,
        ), uuid) == converted(
            0x3E,
            varint(eid) + be_i16(vx) + be_i16(vy) + be_i16(vz),
        ),
        short.len() < 10 ==> spec_convert_s2c(packet(0x1C, short), uuid) == Outcome::Passthrough,
{
    broadcast use fields_read;
}

/// EntityLook: the id becomes variable-length, and the entity is off the ground. A shorter one
/// is left alone.
pub proof fn s2c_entity_look(
    eid: i32,
    yaw: i8,
    pitch: i8,
    rest: Seq<u8>,
    uuid: (u64, u64),
    short: Seq<u8>,
)
    ensures
        spec_convert_s2c(packet(
            0x20,
            i32_field(eid) + i8_field(yaw) + i8_field(pitch) + rest,
        ), uuid) == converted(
            0x28,
            varint(eid) + be_i8(yaw) + be_i8(pitch) + seq![0u8],
        ),
        short.len() < 6 ==> spec_convert_s2c(packet(0x20, short), uuid) == Outcome::Passthrough,
{
    broadcast use fields_read;
}

/// EntityLookAndRelativeMove: steps of 1/32 become steps of 1/4096. A shorter one is left
/// alone.
#[verifier::rlimit(80)]
pub proof fn s2c_entity_look_rel_move(
    eid: i32,
    dx: i8,
    dy: i8,
    dz: i8,
    yaw: i8,
    pitch: i8,
    rest: Seq<u8>,
    uuid: (u64, u64),
    short: Seq<u8>,
)
    ensures
        spec_convert_s2c(packet(
            0x21,
            i32_field(eid) + i8_field(dx) + i8_field(dy) + i8_field(dz) + i8_field(yaw)
                + i8_field(pitch) + rest,
        ), uuid) == converted(
            0x27,
            varint(eid) + be_i16((dx * 128) as i16) + be_i16((dy * 128) as i16)
                + be_i16((dz * 128) as i16) + be_i8(yaw) + be_i8(pitch) + seq![0u8],
        ),
        short.len() < 9 ==> spec_convert_s2c(packet(0x21, short), uuid) == Outcome::Passthrough,
{
    broadcast use fields_read;
}

/// EntityStatus: the same fields. A shorter one is left alone.
pub proof fn s2c_entity_status(eid: i32, status: i8, rest: Seq<u8>, uuid: (u64, u64), short: Seq<u8>)
    ensures
        spec_convert_s2c(packet(
            0x26,
            i32_field(eid) + i8_field(status) + rest,
        ), uuid) == converted(
            0x1B,
            be_i32(eid) + be_i8(status),
        ),
        short.len() < 5 ==> spec_convert_s2c(packet(0x26, short), uuid) == Outcome::Passthrough,
{
    broadcast use fields_read;
}

/// AttachEntity: the same fields. A shorter one is left alone.
pub proof fn s2c_attach_entity(
    riding: i32,
    vehicle: i32,
    state: u8,
    rest: Seq<u8>,
    uuid: (u64, u64),
    short: Seq<u8>,
)
    ensures
        spec_convert_s2c(packet(
            0x27,
            i32_field(riding) + i32_field(vehicle) + seq![state] + rest,
        ), uuid) == converted(
            0x3D,
            be_i32(riding) + be_i32(vehicle) + seq![state],
        ),
        short.len() < 9 ==> spec_convert_s2c(packet(0x27, short), uuid) == Outcome::Passthrough,
{
    broadcast use fields_read;
}

/// EntityMetadata: the metadata is empty. A shorter one is left alone.
pub proof fn s2c_entity_metadata(eid: i32, rest: Seq<u8>, uuid: (u64, u64), short: Seq<u8>)
    ensures
        spec_convert_s2c(packet(
            0x28,
            i32_field(eid) + rest,
        ), uuid) == converted(
            0x3C,
            varint(eid) + seq![0x7Fu8],
        ),
        short.len() < 4 ==> spec_convert_s2c(packet(0x28, short), uuid) == Outcome::Passthrough,
{
    broadcast use fields_read;
}

/// EntityEffect: the id becomes variable-length, and particles show. A shorter one is left
/// alone.
pub proof fn s2c_entity_effect(
    eid: i32,
    effect: i8,
    amplifier: i8,
    duration: i16,
    rest: Seq<u8>,
    uuid: (u64, u64),
    short: Seq<u8>,
)
    ensures
        spec_convert_s2c(packet(
            0x29,
            i32_field(eid) + i8_field(effect) + i8_field(amplifier) + i16_field(duration) + rest,
        ), uuid) == converted(
            0x4F,
            varint(eid) + be_i8(effect) + be_i8(amplifier) + be_i16(duration) + seq![0u8],
        ),
        short.len() < 8 ==> spec_convert_s2c(packet(0x29, short), uuid) == Outcome::Passthrough,
{
    broadcast use fields_read;
}

/// RemoveEntityEffect: the id becomes variable-length. A shorter one is left alone.
pub proof fn s2c_remove_entity_effect(
    eid: i32,
    effect: i8,
    rest: Seq<u8>,
    uuid: (u64, u64),
    short: Seq<u8>,
)
    ensures
        spec_convert_s2c(packet(
            0x2A,
            i32_field(eid) + i8_field(effect) + rest,
        ), uuid) == converted(
            0x33,
            varint(eid) + be_i8(effect),
        ),
        short.len() < 5 ==> spec_convert_s2c(packet(0x2A, short), uuid) == Outcome::Passthrough,
{
    broadcast use fields_read;
}

/// EntityProperties: the id becomes variable-length, the rest stays. A shorter one is left
/// alone.
pub proof fn s2c_entity_properties(eid: i32, tail: Seq<u8>, uuid: (u64, u64), short: Seq<u8>)
    ensures
        spec_convert_s2c(packet(
            0x2C,
            i32_field(eid) + tail,
        ), uuid) == converted(
            0x4E,
            varint(eid) + tail,
        ),
        short.len() < 4 ==> spec_convert_s2c(packet(0x2C, short), uuid) == Outcome::Passthrough,
{
    broadcast use fields_read;
}

/// BlockChange: the place is packed, and the block id and the low four bits of its metadata
/// become one state. A shorter one is left alone.
pub proof fn s2c_block_change(
    x: i32,
    y: u8,
    z: i32,
    block_id: i16,
    metadata: u8,
    rest: Seq<u8>,
    uuid: (u64, u64),
    short: Seq<u8>,
)
    ensures
        spec_convert_s2c(packet(
            0x35,
            i32_field(x) + seq![y] + i32_field(z) + i16_field(block_id) + seq![metadata] + rest,
        ), uuid) == converted(
            0x0B,
            be_i64(legacy_bits(x as int, y as int, z as int) as i64)
                + varint((block_id * 16 + metadata % 16) as i32),
        ),
        short.len() < 12 ==> spec_convert_s2c(packet(0x35, short), uuid) == Outcome::Passthrough,
{
    broadcast use fields_read;
}

/// BlockAction: the place is packed, the block id variable-length. A shorter one is left alone.
#[verifier::rlimit(80)]
pub proof fn s2c_block_action(
    x: i32,
    y: i16,
    z: i32,
    first: i8,
    second: i8,
    block_id: i16,
    rest: Seq<u8>,
    uuid: (u64, u64),
    short: Seq<u8>,
)
    ensures
        spec_convert_s2c(packet(
            0x36,
            i32_field(x) + i16_field(y) + i32_field(z) + i8_field(first) + i8_field(second)
                + i16_field(block_id) + rest,
        ), uuid) == converted(
            0x0A,
            be_i64(legacy_bits(x as int, y as int, z as int) as i64) + be_i8(first) + be_i8(second)
                + varint(block_id as i32),
        ),
        short.len() < 14 ==> spec_convert_s2c(packet(0x36, short), uuid) == Outcome::Passthrough,
{
    broadcast use fields_read;
}

/// BlockBreakAnimation: the place is packed, the id variable-length. A shorter one is left
/// alone.
pub proof fn s2c_block_break_animation(
    breaker: i32,
    x: i32,
    y: i8,
    z: i32,
    stage: i8,
    rest: Seq<u8>,
    uuid: (u64, u64),
    short: Seq<u8>,
)
    ensures
        spec_convert_s2c(packet(
            0x37,
            i32_field(breaker) + i32_field(x) + i8_field(y) + i32_field(z) + i8_field(stage) + rest,
        ), uuid) == converted(
            0x08,
            varint(breaker) + be_i64(legacy_bits(x as int, y as int, z as int) as i64) + be_i8(stage),
        ),
        short.len() < 14 ==> spec_convert_s2c(packet(0x37, short), uuid) == Outcome::Passthrough,
{
    broadcast use fields_read;
}

/// Effect: the place is packed, and the volume flag is 0 or 1. A shorter one is left alone.
#[verifier::rlimit(80)]
pub proof fn s2c_effect(
    effect: i32,
    x: i32,
    y: u8,
    z: i32,
    data: i32,
    fixed_volume: u8,
    rest: Seq<u8>,
    uuid: (u64, u64),
    short: Seq<u8>,
)
    ensures
        spec_convert_s2c(packet(
            0x3D,
            i32_field(effect) + i32_field(x) + seq![y] + i32_field(z) + i32_field(data)
                + seq![fixed_volume] + rest,
        ), uuid) == converted(
            0x21,
            be_i32(effect) + be_i64(legacy_bits(x as int, y as int, z as int) as i64) + be_i32(data)
                + seq![if fixed_volume != 0 { 1u8 } else { 0u8 }],
        ),
        short.len() < 18 ==> spec_convert_s2c(packet(0x3D, short), uuid) == Outcome::Passthrough,
{
    broadcast use fields_read;
}

/// NamedSoundEffect: the category is the master volume, the pitch a single of 63 steps.
#[verifier::rlimit(80)]
pub proof fn s2c_named_sound(
    name: Seq<char>,
    x: i32,
    y: i32,
    z: i32,
    volume: u32,
    pitch: i8,
    rest: Seq<u8>,
    uuid: (u64, u64),
)
    requires
        sendable_before_1_7(name),
    ensures
        spec_convert_s2c(packet(
            0x3E,
            ucs2_field(name) + i32_field(x) + i32_field(y) + i32_field(z) + u32_field(volume)
                + i8_field(pitch) + rest,
        ), uuid) == converted(
            0x19,
            wire_string(name) + varint(0i32) + be_i32(x) + be_i32(y) + be_i32(z) + be32(volume)
                + be32(single_of_sixty_thirds(pitch as int)),
        ),
{
    broadcast use fields_read;
}

/// NamedSoundEffect: one that ends before its last field is left alone.
#[verifier::rlimit(60)]
pub proof fn s2c_named_sound_cut_off(
    name: Seq<char>,
    x: i32,
    y: i32,
    z: i32,
    volume: u32,
    uuid: (u64, u64),
)
    requires
        sendable_before_1_7(name),
    ensures
        spec_convert_s2c(packet(
            0x3E,
            ucs2_field(name) + i32_field(x) + i32_field(y) + i32_field(z) + u32_field(volume),
        ), uuid) == Outcome::Passthrough,
{
    broadcast use fields_read;
}

/// ChangeGameState: the same fields. A shorter one is left alone.
pub proof fn s2c_game_state(reason: u8, value: u32, rest: Seq<u8>, uuid: (u64, u64), short: Seq<u8>)
    ensures
        spec_convert_s2c(packet(
            0x46,
            seq![reason] + u32_field(value) + rest,
        ), uuid) == converted(
            0x1E,
            seq![reason] + be32(value),
        ),
        short.len() < 5 ==> spec_convert_s2c(packet(0x46, short), uuid) == Outcome::Passthrough,
{
    broadcast use fields_read;
}

/// SpawnGlobalEntity: fixed-point coordinates become doubles. A shorter one is left alone.
pub proof fn s2c_spawn_global_entity(
    eid: i32,
    kind: u8,
    x: i32,
    y: i32,
    z: i32,
    rest: Seq<u8>,
    uuid: (u64, u64),
    short: Seq<u8>,
)
    ensures
        spec_convert_s2c(packet(
            0x47,
            i32_field(eid) + seq![kind] + i32_field(x) + i32_field(y) + i32_field(z) + rest,
        ), uuid) == converted(
            0x02,
            varint(eid) + seq![kind] + be64(double_of_fixed(x as int, 5))
                + be64(double_of_fixed(y as int, 5)) + be64(double_of_fixed(z as int, 5)),
        ),
        short.len() < 17 ==> spec_convert_s2c(packet(0x47, short), uuid) == Outcome::Passthrough,
{
    broadcast use fields_read;
}

/// CloseWindow: the same field. A shorter one is left alone.
pub proof fn s2c_close_window_s2c(window_id: u8, rest: Seq<u8>, uuid: (u64, u64), short: Seq<u8>)
    ensures
        spec_convert_s2c(packet(
            0x65,
            seq![window_id] + rest,
        ), uuid) == converted(
            0x12,
            seq![window_id],
        ),
        short.len() < 1 ==> spec_convert_s2c(packet(0x65, short), uuid) == Outcome::Passthrough,
{
    broadcast use fields_read;
}

/// UpdateWindowProperty: the same fields. A shorter one is left alone.
pub proof fn s2c_update_window_property(
    window_id: u8,
    property: i16,
    value: i16,
    rest: Seq<u8>,
    uuid: (u64, u64),
    short: Seq<u8>,
)
    ensures
        spec_convert_s2c(packet(
            0x69,
            seq![window_id] + i16_field(property) + i16_field(value) + rest,
        ), uuid) == converted(
            0x15,
            seq![window_id] + be_i16(property) + be_i16(value),
        ),
        short.len() < 5 ==> spec_convert_s2c(packet(0x69, short), uuid) == Outcome::Passthrough,
{
    broadcast use fields_read;
}

/// ConfirmTransaction: the same fields. A shorter one is left alone.
pub proof fn s2c_confirm_transaction_s2c(
    window_id: u8,
    action: i16,
    accepted: u8,
    rest: Seq<u8>,
    uuid: (u64, u64),
    short: Seq<u8>,
)
    ensures
        spec_convert_s2c(packet(
            0x6A,
            seq![window_id] + i16_field(action) + seq![accepted] + rest,
        ), uuid) == converted(
            0x11,
            seq![window_id] + be_i16(action) + seq![accepted],
        ),
        short.len() < 4 ==> spec_convert_s2c(packet(0x6A, short), uuid) == Outcome::Passthrough,
{
    broadcast use fields_read;
}

/// Experience: level and total become variable-length. A shorter one is left alone.
pub proof fn s2c_experience(
    bar: u32,
    level: i16,
    total: i16,
    rest: Seq<u8>,
    uuid: (u64, u64),
    short: Seq<u8>,
)
    ensures
        spec_convert_s2c(packet(
            0x2B,
            u32_field(bar) + i16_field(level) + i16_field(total) + rest,
        ), uuid) == converted(
            0x40,
            be32(bar) + varint(level as i32) + varint(total as i32),
        ),
        short.len() < 4 ==> spec_convert_s2c(packet(0x2B, short), uuid) == Outcome::Passthrough,
{
    broadcast use fields_read;
}

/// HeldItemChange: the slot keeps its low eight bits. A shorter one is left alone.
pub proof fn s2c_held_item_change(slot: i16, rest: Seq<u8>, uuid: (u64, u64), short: Seq<u8>)
    ensures
        spec_convert_s2c(packet(
            0x10,
            i16_field(slot) + rest,
        ), uuid) == converted(
            0x3A,
            be_i8(slot as i8),
        ),
        short.len() < 2 ==> spec_convert_s2c(packet(0x10, short), uuid) == Outcome::Passthrough,
{
    broadcast use fields_read;
}

/// PlayerAbilities: the same fields. A shorter one is left alone.
pub proof fn s2c_player_abilities(
    flags: u8,
    flying: u32,
    walking: u32,
    rest: Seq<u8>,
    uuid: (u64, u64),
    short: Seq<u8>,
)
    ensures
        spec_convert_s2c(packet(
            0x43,
            seq![flags] + u32_field(flying) + u32_field(walking) + rest,
        ), uuid) == converted(
            0x2C,
            seq![flags] + be32(flying) + be32(walking),
        ),
        short.len() < 9 ==> spec_convert_s2c(packet(0x43, short), uuid) == Outcome::Passthrough,
{
    broadcast use fields_read;
}

/// Disconnect: a plain text becomes a chat component. Quotation marks are escaped.
pub proof fn s2c_disconnect(message: Seq<char>, rest: Seq<u8>, uuid: (u64, u64))
    requires
        sendable_before_1_7(message),
    ensures
        spec_convert_s2c(packet(
            0xFF,
            ucs2_field(message) + rest,
        ), uuid) == converted(
            0x1A,
            wire_string(json_component(quotes_escaped(message))),
        ),
{
    broadcast use fields_read;
}

/// Disconnect: one that ends before its last field is left alone.
pub proof fn s2c_disconnect_cut_off(uuid: (u64, u64))
    ensures
        spec_convert_s2c(packet(
            0xFF,
            Seq::<u8>::empty(),
        ), uuid) == Outcome::Passthrough,
{
    broadcast use fields_read;
}

/// TimeUpdate: the same fields. A shorter one is left alone.
pub proof fn s2c_time_update(
    age: i64,
    time_of_day: i64,
    rest: Seq<u8>,
    uuid: (u64, u64),
    short: Seq<u8>,
)
    ensures
        spec_convert_s2c(packet(
            0x04,
            i64_field(age) + i64_field(time_of_day) + rest,
        ), uuid) == converted(
            0x47,
            be_i64(age) + be_i64(time_of_day),
        ),
        short.len() < 16 ==> spec_convert_s2c(packet(0x04, short), uuid) == Outcome::Passthrough,
{
    broadcast use fields_read;
}

/// SpawnPosition: three integers become a packed position. A shorter one is left alone.
pub proof fn s2c_spawn_position(x: i32, y: i32, z: i32, rest: Seq<u8>, uuid: (u64, u64), short: Seq<u8>)
    ensures
        spec_convert_s2c(packet(
            0x06,
            i32_field(x) + i32_field(y) + i32_field(z) + rest,
        ), uuid) == converted(
            0x46,
            be_i64(legacy_bits(x as int, y as int, z as int) as i64),
        ),
        short.len() < 12 ==> spec_convert_s2c(packet(0x06, short), uuid) == Outcome::Passthrough,
{
    broadcast use fields_read;
}

/// UpdateHealth: the food level becomes variable-length. A shorter one is left alone.
pub proof fn s2c_update_health(
    health: u32,
    food: i16,
    saturation: u32,
    rest: Seq<u8>,
    uuid: (u64, u64),
    short: Seq<u8>,
)
    ensures
        spec_convert_s2c(packet(
            0x08,
            u32_field(health) + i16_field(food) + u32_field(saturation) + rest,
        ), uuid) == converted(
            0x41,
            be32(health) + varint(food as i32) + be32(saturation),
        ),
        short.len() < 10 ==> spec_convert_s2c(packet(0x08, short), uuid) == Outcome::Passthrough,
{
    broadcast use fields_read;
}

/// CollectItem: the ids become variable-length, and the count is one. A shorter one is left
/// alone.
pub proof fn s2c_collect_item(
    collected: i32,
    collector: i32,
    rest: Seq<u8>,
    uuid: (u64, u64),
    short: Seq<u8>,
)
    ensures
        spec_convert_s2c(packet(
            0x16,
            i32_field(collected) + i32_field(collector) + rest,
        ), uuid) == converted(
            0x4B,
            varint(collected) + varint(collector) + varint(1i32),
        ),
        short.len() < 8 ==> spec_convert_s2c(packet(0x16, short), uuid) == Outcome::Passthrough,
{
    broadcast use fields_read;
}

/// EntityHeadLook: the id becomes variable-length. A shorter one is left alone.
pub proof fn s2c_entity_head_look(eid: i32, yaw: i8, rest: Seq<u8>, uuid: (u64, u64), short: Seq<u8>)
    ensures
        spec_convert_s2c(packet(
            0x23,
            i32_field(eid) + i8_field(yaw) + rest,
        ), uuid) == converted(
            0x36,
            varint(eid) + be_i8(yaw),
        ),
        short.len() < 5 ==> spec_convert_s2c(packet(0x23, short), uuid) == Outcome::Passthrough,
{
    broadcast use fields_read;
}

/// UpdateTileEntity: the place is packed, the data stays. A shorter one is left alone.
pub proof fn s2c_update_tile_entity(
    x: i32,
    y: i16,
    z: i32,
    action: u8,
    data: Seq<u8>,
    uuid: (u64, u64),
    short: Seq<u8>,
)
    ensures
        spec_convert_s2c(packet(
            0x84,
            i32_field(x) + i16_field(y) + i32_field(z) + seq![action] + data,
        ), uuid) == converted(
            0x09,
            be_i64(legacy_bits(x as int, y as int, z as int) as i64) + seq![action] + data,
        ),
        short.len() < 11 ==> spec_convert_s2c(packet(0x84, short), uuid) == Outcome::Passthrough,
{
    broadcast use fields_read;
}

/// Statistic: one statistic becomes a list of one. A shorter one is left alone.
pub proof fn s2c_statistic(statistic: i32, amount: i8, rest: Seq<u8>, uuid: (u64, u64), short: Seq<u8>)
    ensures
        spec_convert_s2c(packet(
            0xC8,
            i32_field(statistic) + i8_field(amount) + rest,
        ), uuid) == converted(
            0x07,
            varint(1i32) + varint(statistic) + varint(amount as i32),
        ),
        short.len() < 5 ==> spec_convert_s2c(packet(0xC8, short), uuid) == Outcome::Passthrough,
{
    broadcast use fields_read;
}

/// DisplayScoreboard: the name changes its encoding.
pub proof fn s2c_display_scoreboard(position: u8, name: Seq<char>, rest: Seq<u8>, uuid: (u64, u64))
    requires
        sendable_before_1_7(name),
    ensures
        spec_convert_s2c(packet(
            0xD0,
            seq![position] + ucs2_field(name) + rest,
        ), uuid) == converted(
            0x3B,
            seq![position] + wire_string(name),
        ),
{
    broadcast use fields_read;
}

/// DisplayScoreboard: one that ends before its last field is left alone.
pub proof fn s2c_display_scoreboard_cut_off(position: u8, uuid: (u64, u64))
    ensures
        spec_convert_s2c(packet(
            0xD0,
            seq![position],
        ), uuid) == Outcome::Passthrough,
{
    broadcast use fields_read;
}

/// These packets toward the client go no further.
pub proof fn s2c_dropped(b: Seq<u8>, uuid: (u64, u64))
    ensures
        spec_convert_s2c(packet(0x11, b), uuid) == Outcome::Drop,
        spec_convert_s2c(packet(0x34, b), uuid) == Outcome::Drop,
        spec_convert_s2c(packet(0x3F, b), uuid) == Outcome::Drop,
        spec_convert_s2c(packet(0x83, b), uuid) == Outcome::Drop,
        spec_convert_s2c(packet(0xD1, b), uuid) == Outcome::Drop,
{
    broadcast use fields_read;
}

/// All other packets toward the client are left alone.
pub proof fn s2c_others_left_alone(id: u8, b: Seq<u8>, uuid: (u64, u64))
    requires
        id != 0x00 && id != 0x01 && id != 0x03 && id != 0x04 && id != 0x05 && id != 0x06 &&
        id != 0x08 && id != 0x09 && id != 0x0D && id != 0x10 && id != 0x11 && id != 0x12 &&
        id != 0x14 && id != 0x15 && id != 0x16 && id != 0x17 && id != 0x18 && id != 0x19 &&
        id != 0x1A && id != 0x1C && id != 0x1D && id != 0x1E && id != 0x20 && id != 0x21 &&
        id != 0x22 && id != 0x23 && id != 0x26 && id != 0x27 && id != 0x28 && id != 0x29 &&
        id != 0x2A && id != 0x2B && id != 0x2C && id != 0x34 && id != 0x35 && id != 0x36 &&
        id != 0x37 && id != 0x3C && id != 0x3D && id != 0x3E && id != 0x3F && id != 0x43 &&
        id != 0x46 && id != 0x47 && id != 0x64 && id != 0x65 && id != 0x67 && id != 0x68 &&
        id != 0x69 && id != 0x6A && id != 0x83 && id != 0x84 && id != 0xC8 && id != 0xC9 &&
        id != 0xCE && id != 0xCF && id != 0xD0 && id != 0xD1 && id != 0xFA && id != 0xFF,
    ensures
        spec_convert_s2c(packet(id, b), uuid) == Outcome::Passthrough,
{
    broadcast use fields_read;
}

/// KeepAlive: the `i32` id becomes an `i64`. A shorter one is left alone.
pub proof fn c2s_keep_alive(id: i32, rest: Seq<u8>, short: Seq<u8>)
    ensures
        spec_convert_c2s(packet(
            0x00,
            i32_field(id) + rest,
        )) == converted(
            0x0B,
            be_i64(id as i64),
        ),
        short.len() < 4 ==> spec_convert_c2s(packet(0x00, short)) == Outcome::Passthrough,
{
    broadcast use fields_read;
}

/// Chat: the text changes its encoding.
pub proof fn c2s_chat(message: Seq<char>, rest: Seq<u8>)
    requires
        sendable_before_1_7(message),
    ensures
        spec_convert_c2s(packet(
            0x03,
            ucs2_field(message) + rest,
        )) == converted(
            0x02,
            wire_string(message),
        ),
{
    broadcast use fields_read;
}

/// Chat: one that ends before its last field is left alone.
pub proof fn c2s_chat_cut_off()
    ensures
        spec_convert_c2s(packet(
            0x03,
            Seq::<u8>::empty(),
        )) == Outcome::Passthrough,
{
    broadcast use fields_read;
}

/// UseEntity: the user is dropped, and a left click is an attack. A shorter one is left alone.
pub proof fn c2s_use_entity(user: i32, target: i32, left_click: i8, rest: Seq<u8>, short: Seq<u8>)
    ensures
        spec_convert_c2s(packet(
            0x07,
            i32_field(user) + i32_field(target) + i8_field(left_click) + rest,
        )) == converted(
            0x0A,
            varint(target) + varint(if left_click != 0 { 1i32 } else { 0i32 }),
        ),
        short.len() < 9 ==> spec_convert_c2s(packet(0x07, short)) == Outcome::Passthrough,
{
    broadcast use fields_read;
}

/// Player: the same field. A shorter one is left alone.
pub proof fn c2s_player(on_ground: u8, rest: Seq<u8>, short: Seq<u8>)
    ensures
        spec_convert_c2s(packet(
            0x0A,
            seq![on_ground] + rest,
        )) == converted(
            0x0D,
            seq![on_ground],
        ),
        short.len() < 1 ==> spec_convert_c2s(packet(0x0A, short)) == Outcome::Passthrough,
{
    broadcast use fields_read;
}

/// PlayerPosition: the stance is dropped. A shorter one is left alone.
pub proof fn c2s_player_position(
    x: u64,
    y: u64,
    stance: u64,
    z: u64,
    on_ground: u8,
    rest: Seq<u8>,
    short: Seq<u8>,
)
    ensures
        spec_convert_c2s(packet(
            0x0B,
            u64_field(x) + u64_field(y) + u64_field(stance) + u64_field(z) + seq![on_ground] + rest,
        )) == converted(
            0x0C,
            be64(x) + be64(y) + be64(z) + seq![on_ground],
        ),
        short.len() < 33 ==> spec_convert_c2s(packet(0x0B, short)) == Outcome::Passthrough,
{
    broadcast use fields_read;
}

/// PlayerLook: the same fields. A shorter one is left alone.
pub proof fn c2s_player_look(yaw: u32, pitch: u32, on_ground: u8, rest: Seq<u8>, short: Seq<u8>)
    ensures
        spec_convert_c2s(packet(
            0x0C,
            u32_field(yaw) + u32_field(pitch) + seq![on_ground] + rest,
        )) == converted(
            0x0F,
            be32(yaw) + be32(pitch) + seq![on_ground],
        ),
        short.len() < 9 ==> spec_convert_c2s(packet(0x0C, short)) == Outcome::Passthrough,
{
    broadcast use fields_read;
}

/// PlayerPositionAndLook: the stance is dropped, and the ground flag is 0 or 1. A shorter one
/// is left alone.
#[verifier::rlimit(80)]
pub proof fn c2s_player_pos_look(
    x: u64,
    stance: u64,
    y: u64,
    z: u64,
    yaw: u32,
    pitch: u32,
    on_ground: u8,
    rest: Seq<u8>,
    short: Seq<u8>,
)
    ensures
        spec_convert_c2s(packet(
            0x0D,
            u64_field(x) + u64_field(stance) + u64_field(y) + u64_field(z) + u32_field(yaw)
                + u32_field(pitch) + seq![on_ground] + rest,
        )) == converted(
            0x0E,
            be64(x) + be64(y) + be64(z) + be32(yaw) + be32(pitch)
                + seq![if on_ground != 0 { 1u8 } else { 0u8 }],
        ),
        short.len() < 41 ==> spec_convert_c2s(packet(0x0D, short)) == Outcome::Passthrough,
{
    broadcast use fields_read;
}

/// PlayerDigging: the place is packed, and status and face become variable-length. A shorter
/// one is left alone.
pub proof fn c2s_player_digging(
    status: i8,
    x: i32,
    y: i8,
    z: i32,
    face: i8,
    rest: Seq<u8>,
    short: Seq<u8>,
)
    ensures
        spec_convert_c2s(packet(
            0x0E,
            i8_field(status) + i32_field(x) + i8_field(y) + i32_field(z) + i8_field(face) + rest,
        )) == converted(
            0x14,
            varint(status as i32) + be_i64(legacy_bits(x as int, y as int, z as int) as i64)
                + varint(face as i32),
        ),
        short.len() < 11 ==> spec_convert_c2s(packet(0x0E, short)) == Outcome::Passthrough,
{
    broadcast use fields_read;
}

/// PlayerBlockPlacement: the place is packed, the face becomes variable-length, the held item
/// gives way to the main hand, and the cursor goes from 16ths of a block to singles. A shorter
/// one is left alone.
#[verifier::rlimit(80)]
pub proof fn c2s_player_block_placement(
    x: i32,
    y: u8,
    z: i32,
    direction: i8,
    held_item: i16,
    cursor_x: i8,
    cursor_y: i8,
    cursor_z: i8,
    rest: Seq<u8>,
    short: Seq<u8>,
)
    ensures
        spec_convert_c2s(packet(
            0x0F,
            i32_field(x) + seq![y] + i32_field(z) + i8_field(direction) + i16_field(held_item)
                + i8_field(cursor_x) + i8_field(cursor_y) + i8_field(cursor_z) + rest,
        )) == converted(
            0x1F,
            be_i64(legacy_bits(x as int, y as int, z as int) as i64) + varint(direction as i32)
                + varint(0i32) + be32(single_of_sixteenths(cursor_x as int))
                + be32(single_of_sixteenths(cursor_y as int))
                + be32(single_of_sixteenths(cursor_z as int)),
        ),
        short.len() < 15 ==> spec_convert_c2s(packet(0x0F, short)) == Outcome::Passthrough,
{
    broadcast use fields_read;
}

/// HeldItemChange: the same field. A shorter one is left alone.
pub proof fn c2s_held_item_change(slot: i16, rest: Seq<u8>, short: Seq<u8>)
    ensures
        spec_convert_c2s(packet(
            0x10,
            i16_field(slot) + rest,
        )) == converted(
            0x1A,
            be_i16(slot),
        ),
        short.len() < 2 ==> spec_convert_c2s(packet(0x10, short)) == Outcome::Passthrough,
{
    broadcast use fields_read;
}

/// Animation: every animation is a swing of the main hand. A shorter one is left alone.
pub proof fn c2s_animation(rest: Seq<u8>, short: Seq<u8>)
    requires
        rest.len() >= 5,
    ensures
        spec_convert_c2s(packet(
            0x12,
            rest,
        )) == converted(
            0x1D,
            varint(0i32),
        ),
        short.len() < 5 ==> spec_convert_c2s(packet(0x12, short)) == Outcome::Passthrough,
{
    broadcast use fields_read;
}

/// EntityAction: id and action become variable-length, the jump boost is 0. A shorter one is
/// left alone.
pub proof fn c2s_entity_action(entity_id: i32, action: i8, rest: Seq<u8>, short: Seq<u8>)
    ensures
        spec_convert_c2s(packet(
            0x13,
            i32_field(entity_id) + i8_field(action) + rest,
        )) == converted(
            0x15,
            varint(entity_id) + varint(action as i32) + varint(0i32),
        ),
        short.len() < 5 ==> spec_convert_c2s(packet(0x13, short)) == Outcome::Passthrough,
{
    broadcast use fields_read;
}

/// ClientCommand: every command is a respawn. A shorter one is left alone.
pub proof fn c2s_client_command(rest: Seq<u8>, short: Seq<u8>)
    requires
        rest.len() >= 1,
    ensures
        spec_convert_c2s(packet(
            0x16,
            rest,
        )) == converted(
            0x03,
            varint(0i32),
        ),
        short.len() < 1 ==> spec_convert_c2s(packet(0x16, short)) == Outcome::Passthrough,
{
    broadcast use fields_read;
}

/// CloseWindow: the same field. A shorter one is left alone.
pub proof fn c2s_close_window(window_id: u8, rest: Seq<u8>, short: Seq<u8>)
    ensures
        spec_convert_c2s(packet(
            0x65,
            seq![window_id] + rest,
        )) == converted(
            0x08,
            seq![window_id],
        ),
        short.len() < 1 ==> spec_convert_c2s(packet(0x65, short)) == Outcome::Passthrough,
{
    broadcast use fields_read;
}

/// ClickWindow: the mode becomes variable-length, and the item is taken away. A shorter one is
/// left alone.
pub proof fn c2s_click_window(
    window_id: u8,
    slot: i16,
    button: i8,
    action: i16,
    mode: i8,
    rest: Seq<u8>,
    short: Seq<u8>,
)
    ensures
        spec_convert_c2s(packet(
            0x66,
            seq![window_id] + i16_field(slot) + i8_field(button) + i16_field(action) + i8_field(mode)
                + rest,
        )) == converted(
            0x07,
            seq![window_id] + be_i16(slot) + be_i8(button) + be_i16(action) + varint(mode as i32)
                + be_i16(-1i16),
        ),
        short.len() < 7 ==> spec_convert_c2s(packet(0x66, short)) == Outcome::Passthrough,
{
    broadcast use fields_read;
}

/// ConfirmTransaction: the same fields. A shorter one is left alone.
pub proof fn c2s_confirm_tx(window_id: u8, action: i16, accepted: u8, rest: Seq<u8>, short: Seq<u8>)
    ensures
        spec_convert_c2s(packet(
            0x6A,
            seq![window_id] + i16_field(action) + seq![accepted] + rest,
        )) == converted(
            0x05,
            seq![window_id] + be_i16(action) + seq![accepted],
        ),
        short.len() < 4 ==> spec_convert_c2s(packet(0x6A, short)) == Outcome::Passthrough,
{
    broadcast use fields_read;
}

/// UpdateSign: the place is packed, and the four lines change their encoding.
#[verifier::rlimit(80)]
pub proof fn c2s_update_sign(
    x: i32,
    y: i16,
    z: i32,
    first: Seq<char>,
    second: Seq<char>,
    third: Seq<char>,
    fourth: Seq<char>,
    rest: Seq<u8>,
)
    requires
        sendable_before_1_7(first),
        sendable_before_1_7(second),
        sendable_before_1_7(third),
        sendable_before_1_7(fourth),
    ensures
        spec_convert_c2s(packet(
            0x82,
            i32_field(x) + i16_field(y) + i32_field(z) + ucs2_field(first) + ucs2_field(second)
                + ucs2_field(third) + ucs2_field(fourth) + rest,
        )) == converted(
            0x1C,
            be_i64(legacy_bits(x as int, y as int, z as int) as i64) + wire_string(first)
                + wire_string(second) + wire_string(third) + wire_string(fourth),
        ),
{
    broadcast use fields_read;
}

/// UpdateSign: one that ends before its last field is left alone.
#[verifier::rlimit(60)]
pub proof fn c2s_update_sign_cut_off(
    x: i32,
    y: i16,
    z: i32,
    first: Seq<char>,
    second: Seq<char>,
    third: Seq<char>,
)
    requires
        sendable_before_1_7(first),
        sendable_before_1_7(second),
        sendable_before_1_7(third),
    ensures
        spec_convert_c2s(packet(
            0x82,
            i32_field(x) + i16_field(y) + i32_field(z) + ucs2_field(first) + ucs2_field(second)
                + ucs2_field(third),
        )) == Outcome::Passthrough,
{
    broadcast use fields_read;
}

/// PlayerAbilities: the same fields. A shorter one is left alone.
pub proof fn c2s_player_abilities(flags: i8, flying: u32, walking: u32, rest: Seq<u8>, short: Seq<u8>)
    ensures
        spec_convert_c2s(packet(
            0xCA,
            i8_field(flags) + u32_field(flying) + u32_field(walking) + rest,
        )) == converted(
            0x13,
            be_i8(flags) + be32(flying) + be32(walking),
        ),
        short.len() < 9 ==> spec_convert_c2s(packet(0xCA, short)) == Outcome::Passthrough,
{
    broadcast use fields_read;
}

/// TabComplete: the text is no assumed command and has no looked-at block.
pub proof fn c2s_tab_complete(text: Seq<char>, rest: Seq<u8>)
    requires
        sendable_before_1_7(text),
    ensures
        spec_convert_c2s(packet(
            0xCB,
            ucs2_field(text) + rest,
        )) == converted(
            0x01,
            wire_string(text) + seq![0u8] + seq![0u8],
        ),
{
    broadcast use fields_read;
}

/// TabComplete: one that ends before its last field is left alone.
pub proof fn c2s_tab_complete_cut_off()
    ensures
        spec_convert_c2s(packet(
            0xCB,
            Seq::<u8>::empty(),
        )) == Outcome::Passthrough,
{
    broadcast use fields_read;
}

/// ClientSettings: the chat flags are taken apart into mode and colours, the difficulty and the
/// cape are dropped, every skin part shows, and the main hand is the right one.
pub proof fn c2s_client_settings(
    locale: Seq<char>,
    view_distance: i8,
    chat_flags: i8,
    difficulty: i8,
    show_cape: u8,
    rest: Seq<u8>,
)
    requires
        sendable_before_1_7(locale),
    ensures
        spec_convert_c2s(packet(
            0xCC,
            ucs2_field(locale) + i8_field(view_distance) + i8_field(chat_flags) + i8_field(difficulty)
                + seq![show_cape] + rest,
        )) == converted(
            0x04,
            wire_string(locale) + be_i8(view_distance) + varint((chat_flags & 0x7) as i32)
                + seq![if chat_flags & 0x8 != 0 { 1u8 } else { 0u8 }] + seq![0x7Fu8] + varint(1i32),
        ),
{
    broadcast use fields_read;
}

/// ClientSettings: one that ends before its last field is left alone.
pub proof fn c2s_client_settings_cut_off(
    locale: Seq<char>,
    view_distance: i8,
    chat_flags: i8,
    difficulty: i8,
)
    requires
        sendable_before_1_7(locale),
    ensures
        spec_convert_c2s(packet(
            0xCC,
            ucs2_field(locale) + i8_field(view_distance) + i8_field(chat_flags) + i8_field(difficulty),
        )) == Outcome::Passthrough,
{
    broadcast use fields_read;
}

/// ClientStatus: the status becomes variable-length. A shorter one is left alone.
pub proof fn c2s_client_status(status: i8, rest: Seq<u8>, short: Seq<u8>)
    ensures
        spec_convert_c2s(packet(
            0xCD,
            i8_field(status) + rest,
        )) == converted(
            0x03,
            varint(status as i32),
        ),
        short.len() < 1 ==> spec_convert_c2s(packet(0xCD, short)) == Outcome::Passthrough,
{
    broadcast use fields_read;
}

/// SteerVehicle: the two flags become one byte, jumping in bit 0 and leaving in bit 1. A
/// shorter one is left alone.
pub proof fn c2s_steer_vehicle(
    sideways: u32,
    forward: u32,
    jump: u8,
    unmount: u8,
    rest: Seq<u8>,
    short: Seq<u8>,
)
    ensures
        spec_convert_c2s(packet(
            0x1B,
            u32_field(sideways) + u32_field(forward) + seq![jump] + seq![unmount] + rest,
        )) == converted(
            0x16,
            be32(sideways) + be32(forward)
                + seq![((if jump != 0 { 1int } else { 0int }) + (if unmount != 0 { 2int } else { 0int })) as u8],
        ),
        short.len() < 10 ==> spec_convert_c2s(packet(0x1B, short)) == Outcome::Passthrough,
{
    broadcast use fields_read;
}

/// CreativeInventoryAction: the item is taken away. A shorter one is left alone.
pub proof fn c2s_creative_inventory_action(slot: i16, rest: Seq<u8>, short: Seq<u8>)
    ensures
        spec_convert_c2s(packet(
            0x6B,
            i16_field(slot) + rest,
        )) == converted(
            0x1B,
            be_i16(slot) + seq![0u8],
        ),
        short.len() < 2 ==> spec_convert_c2s(packet(0x6B, short)) == Outcome::Passthrough,
{
    broadcast use fields_read;
}

/// EnchantItem: the same fields. A shorter one is left alone.
pub proof fn c2s_enchant_item(window_id: u8, enchantment: u8, rest: Seq<u8>, short: Seq<u8>)
    ensures
        spec_convert_c2s(packet(
            0x6C,
            seq![window_id] + seq![enchantment] + rest,
        )) == converted(
            0x06,
            seq![window_id] + seq![enchantment],
        ),
        short.len() < 2 ==> spec_convert_c2s(packet(0x6C, short)) == Outcome::Passthrough,
{
    broadcast use fields_read;
}

/// All other packets toward the server are left alone.
pub proof fn c2s_others_left_alone(id: u8, b: Seq<u8>)
    requires
        id != 0x00 && id != 0x03 && id != 0x07 && id != 0x0A && id != 0x0B && id != 0x0C &&
        id != 0x0D && id != 0x0E && id != 0x0F && id != 0x10 && id != 0x12 && id != 0x13 &&
        id != 0x16 && id != 0x1B && id != 0x65 && id != 0x66 && id != 0x6A && id != 0x6B &&
        id != 0x6C && id != 0x82 && id != 0xCA && id != 0xCB && id != 0xCC && id != 0xCD &&
        id != 0xFA,
    ensures
        spec_convert_c2s(packet(id, b)) == Outcome::Passthrough,
{
    broadcast use fields_read;
}

/// SpawnObject: the coordinates become doubles and the order stays. Only an object that is
/// thrown by someone and has a speed behind it keeps the speed.
pub proof fn s2c_spawn_object(
    entity_id: i32,
    kind: i8,
    x: i32,
    y: i32,
    z: i32,
    pitch: i8,
    yaw: i8,
    thrower: i32,
    vx: i16,
    vy: i16,
    vz: i16,
    rest: Seq<u8>,
    uuid: (u64, u64),
)
    ensures
        ({
            let b = i32_field(entity_id) + i8_field(kind) + i32_field(x) + i32_field(y) + i32_field(z)
                + i8_field(pitch) + i8_field(yaw) + i32_field(thrower);
            let base = varint(entity_id) + seq![kind as u8] + be64(double_of_fixed(x as int, 5)) + be64(
                double_of_fixed(y as int, 5),
            ) + be64(double_of_fixed(z as int, 5)) + be_i8(pitch) + be_i8(yaw) + be_i32(thrower);
            &&& thrower > 0 ==> spec_convert_s2c(
                packet(0x17, b + i16_field(vx) + i16_field(vy) + i16_field(vz) + rest),
                uuid,
            ) == converted(0x00, base + be_i16(vx) + be_i16(vy) + be_i16(vz))
            &&& thrower <= 0 ==> spec_convert_s2c(packet(0x17, b + rest), uuid) == converted(0x00, base)
            &&& rest.len() < 6 ==> spec_convert_s2c(packet(0x17, b + rest), uuid) == converted(0x00, base)
        }),
{
    broadcast use fields_read;
}

/// Explosion: the place becomes singles, and the offsets of the blocks, three bytes each, and
/// the push stay.
#[verifier::rlimit(60)]
pub proof fn s2c_explosion(
    x: u64,
    y: u64,
    z: u64,
    radius: u32,
    count: i32,
    offsets: Seq<u8>,
    px: u32,
    py: u32,
    pz: u32,
    rest: Seq<u8>,
    uuid: (u64, u64),
)
    requires
        0 <= count,
        offsets.len() == 3 * count,
    ensures
        spec_convert_s2c(
            packet(
                0x3C,
                u64_field(x) + u64_field(y) + u64_field(z) + u32_field(radius) + i32_field(count) + offsets
                    + u32_field(px) + u32_field(py) + u32_field(pz) + rest,
            ),
            uuid,
        ) == converted(
            0x1C,
            be32(narrowed(x)) + be32(narrowed(y)) + be32(narrowed(z)) + be32(radius) + be_i32(count) + offsets
                + be32(px) + be32(py) + be32(pz),
        ),
{
    broadcast use fields_read;

    let front = u64_field(x) + u64_field(y) + u64_field(z) + u32_field(radius) + i32_field(count);
    let b = front + offsets + u32_field(px) + u32_field(py) + u32_field(pz) + rest;
    let end = 32 + 3 * count;
    assert(i32_at(b, 28) == count);
    assert(u32_at(b, end) == px);
    assert(u32_at(b, end + 4) == py);
    assert(u32_at(b, end + 8) == pz);
    assert(b.subrange(32, end) =~= offsets);
}

/// SetSlot: an item is its id, its count and no tag, and -1 is an empty slot. A shorter one is
/// left alone.
#[verifier::rlimit(60)]
pub proof fn s2c_set_slot(
    window: i8,
    place: i16,
    item_id: i16,
    count: i8,
    damage: Seq<u8>,
    rest: Seq<u8>,
    uuid: (u64, u64),
    short: Seq<u8>,
)
    requires
        damage.len() == 2,
    ensures
        item_id != -1 ==> spec_convert_s2c(
            packet(
                0x67,
                i8_field(window) + i16_field(place) + i16_field(item_id) + damage + i8_field(count) + rest,
            ),
            uuid,
        ) == converted(
            0x16,
            be_i8(window) + be_i16(place) + (varint(item_id as i32) + be_i8(count) + seq![0u8]),
        ),
        item_id == -1 ==> spec_convert_s2c(
            packet(
                0x67,
                i8_field(window) + i16_field(place) + i16_field(item_id) + damage + i8_field(count) + rest,
            ),
            uuid,
        ) == converted(0x16, be_i8(window) + be_i16(place) + seq![0u8]),
        short.len() < 8 ==> spec_convert_s2c(packet(0x67, short), uuid) == Outcome::Passthrough,
{
    broadcast use fields_read;

    let front = i8_field(window) + i16_field(place) + i16_field(item_id);
    let b = front + damage + i8_field(count) + rest;
    assert(i8_at(b, 0) == window);
    assert(i16_at(b, 1) == place);
    assert(i16_at(b, 3) == item_id);
    assert(i8_at(b, 7) == count);
}

/// Slots of five bytes each are joined in order.
proof fn plain_slots_joined(b: Seq<u8>, p: int, n: nat, parts: Seq<Seq<u8>>)
    requires
        parts.len() == n,
        forall|i: int|
            0 <= i < n ==> #[trigger] parts[i] == if i16_at(b, p + 5 * i) == -1 {
                seq![0u8]
            } else {
                varint(i16_at(b, p + 5 * i) as i32) + be_i8(i8_at(b, p + 5 * i + 4)) + seq![0u8]
            },
    ensures
        plain_slots(b, p, n) == joined(parts),
    decreases n,
{
    if n > 0 {
        plain_slots_joined(b, p, (n - 1) as nat, parts.drop_last());
        assert(parts.last() == parts[n - 1]);
    }
}

/// WindowItems: each slot, of five bytes, is an item's id, its count and no tag, or empty where
/// the id is -1. One that is shorter than its count says is left alone.
pub proof fn s2c_window_items(b: Seq<u8>, window: i8, count: i16, parts: Seq<Seq<u8>>, uuid: (u64, u64))
    requires
        b.len() >= 3,
        i8_at(b, 0) == window,
        i16_at(b, 1) == count,
        0 <= count,
        parts.len() == count,
        forall|i: int|
            0 <= i < count ==> #[trigger] parts[i] == if i16_at(b, 3 + 5 * i) == -1 {
                seq![0u8]
            } else {
                varint(i16_at(b, 3 + 5 * i) as i32) + be_i8(i8_at(b, 7 + 5 * i)) + seq![0u8]
            },
    ensures
        b.len() >= 3 + 5 * count ==> spec_convert_s2c(packet(0x68, b), uuid) == converted(
            0x14,
            be_i8(window) + varint(0) + joined(parts),
        ),
        b.len() < 3 + 5 * count ==> spec_convert_s2c(packet(0x68, b), uuid) == Outcome::Passthrough,
{
    broadcast use fields_read;

    plain_slots_joined(b, 3, count as nat, parts);
}

/// OpenWindow: the kind becomes a name, the title keeps its text, and a horse's window ends in
/// the horse's id, 0 where it is missing.
pub proof fn s2c_open_window(
    window: u8,
    kind: u8,
    title: Seq<char>,
    slots: u8,
    use_title: u8,
    horse: i32,
    rest: Seq<u8>,
    name: Seq<char>,
    uuid: (u64, u64),
)
    requires
        sendable_before_1_7(title),
        kind == 0 ==> name == "minecraft:chest"@,
        kind == 1 ==> name == "minecraft:crafting_table"@,
        kind == 2 ==> name == "minecraft:furnace"@,
        kind == 3 ==> name == "minecraft:dispenser"@,
        kind == 4 ==> name == "minecraft:enchanting_table"@,
        kind == 5 ==> name == "minecraft:brewing_stand"@,
        kind == 6 ==> name == "minecraft:villager"@,
        kind == 7 ==> name == "minecraft:beacon"@,
        kind == 8 ==> name == "minecraft:anvil"@,
        kind == 9 ==> name == "minecraft:hopper"@,
        kind == 10 ==> name == "minecraft:shulker_box"@,
        kind == 11 ==> name == "EntityHorse"@,
        kind > 11 ==> name == "minecraft:chest"@,
    ensures
        kind != 11 ==> spec_convert_s2c(
            packet(0x64, seq![window] + seq![kind] + ucs2_field(title) + seq![slots] + seq![use_title] + rest),
            uuid,
        ) == converted(0x13, seq![window] + wire_string(name) + wire_string(title) + seq![slots]),
        kind == 11 ==> spec_convert_s2c(
            packet(
                0x64,
                seq![window] + seq![kind] + ucs2_field(title) + seq![slots] + seq![use_title] + i32_field(horse)
                    + rest,
            ),
            uuid,
        ) == converted(
            0x13,
            seq![window] + wire_string(name) + wire_string(title) + seq![slots] + be_i32(horse),
        ),
        kind == 11 && rest.len() < 4 ==> spec_convert_s2c(
            packet(0x64, seq![window] + seq![kind] + ucs2_field(title) + seq![slots] + seq![use_title] + rest),
            uuid,
        ) == converted(
            0x13,
            seq![window] + wire_string(name) + wire_string(title) + seq![slots] + be_i32(0),
        ),
{
    broadcast use fields_read;
}

/// DestroyEntities: the count and each id become variable-length, in order. One that is
/// shorter than its count says is left alone.
pub proof fn s2c_destroy_entities(count: i8, ids: Seq<u8>, parts: Seq<Seq<u8>>, uuid: (u64, u64))
    requires
        0 <= count,
        parts.len() == count,
        forall|i: int| 0 <= i < count ==> #[trigger] parts[i] == varint(i32_at(ids, 4 * i)),
    ensures
        4 * count <= ids.len() ==> spec_convert_s2c(packet(0x1D, i8_field(count) + ids), uuid)
            == converted(0x32, varint(count as i32) + joined(parts)),
        4 * count > ids.len() ==> spec_convert_s2c(packet(0x1D, i8_field(count) + ids), uuid)
            == Outcome::Passthrough,
{
    broadcast use fields_read;

    if 4 * count <= ids.len() {
        ids_behind_count(count, ids, parts);
    }
}

/// PluginMessage: the channel's text and as many bytes as their count says.
pub proof fn s2c_plugin_message(
    channel: Seq<char>,
    data: Seq<u8>,
    rest: Seq<u8>,
    uuid: (u64, u64),
)
    requires
        sendable_before_1_7(channel),
        data.len() <= 0xFFFF,
    ensures
        spec_convert_s2c(
            packet(0xFA, ucs2_field(channel) + u16_field(data.len() as u16) + data + rest),
            uuid,
        ) == converted(0x18, wire_string(channel) + data),
{
    broadcast use fields_read;

    let front = ucs2_field(channel) + u16_field(data.len() as u16);
    middle(front, data, rest);
}

/// PlayerListItem: one player is added, with the id that its name gives, no properties, game
/// mode 0, no delay and no display name, whether it came or left.
pub proof fn s2c_player_list_item(name: Seq<char>, rest: Seq<u8>, uuid: (u64, u64))
    requires
        sendable_before_1_7(name),
        rest.len() >= 3,
    ensures
        spec_convert_s2c(packet(0xC9, ucs2_field(name) + rest), uuid) == converted(
            0x2E,
            varint(0) + varint(1) + be64(offline_id(name).0) + be64(offline_id(name).1) + wire_string(name)
                + varint(0) + varint(0) + seq![0u8],
        ),
{
    broadcast use fields_read;
}

/// ScoreboardObjective: mode 1 removes it and has no text; mode 0 makes it; every other one
/// changes it.
pub proof fn s2c_scoreboard_objective(
    name: Seq<char>,
    value: Seq<char>,
    mode: u8,
    rest: Seq<u8>,
    uuid: (u64, u64),
)
    requires
        sendable_before_1_7(name),
        sendable_before_1_7(value),
    ensures
        ({
            let o = spec_convert_s2c(
                packet(0xCE, ucs2_field(name) + ucs2_field(value) + seq![mode] + rest),
                uuid,
            );
            &&& mode == 1 ==> o == converted(0x42, wire_string(name) + varint(1))
            &&& mode == 0 ==> o == converted(0x42, wire_string(name) + wire_string(value) + varint(0))
            &&& mode > 1 ==> o == converted(0x42, wire_string(name) + wire_string(value) + varint(2))
        }),
{
    broadcast use fields_read;
}

/// UpdateScore: mode 1 removes the score; every other one sets it for its objective.
pub proof fn s2c_update_score(
    item: Seq<char>,
    mode: u8,
    objective: Seq<char>,
    value: i32,
    rest: Seq<u8>,
    uuid: (u64, u64),
)
    requires
        sendable_before_1_7(item),
        sendable_before_1_7(objective),
    ensures
        spec_convert_s2c(packet(0xCF, ucs2_field(item) + seq![1u8] + rest), uuid) == converted(
            0x45,
            wire_string(item) + varint(1),
        ),
        mode != 1 ==> spec_convert_s2c(
            packet(0xCF, ucs2_field(item) + seq![mode] + ucs2_field(objective) + i32_field(value) + rest),
            uuid,
        ) == converted(
            0x45,
            wire_string(item) + varint(0) + wire_string(objective) + varint(value),
        ),
{
    broadcast use fields_read;
}

/// PluginMessage: the channel's text and as many bytes as their count says.
pub proof fn c2s_plugin_message(channel: Seq<char>, data: Seq<u8>, rest: Seq<u8>)
    requires
        sendable_before_1_7(channel),
        data.len() <= 0x7FFF,
    ensures
        spec_convert_c2s(packet(0xFA, ucs2_field(channel) + i16_field(data.len() as i16) + data + rest))
            == converted(0x09, wire_string(channel) + data),
{
    broadcast use fields_read;

    let front = ucs2_field(channel) + i16_field(data.len() as i16);
    middle(front, data, rest);
}

} // verus!
