//! What becomes of the packets of 1.12.2 for 1.6.4, field by field.

use crate::converter::laws::fields::{
    fields_read, i16_field, i32_field, i64_field, i8_field, sendable, text_field, u32_field,
    u64_field, varint_field,
};
use crate::converter::outcome::{Outcome, converted, packet};
use crate::converter::v1_12_2_to_v1_6_4::{
    attributes_at, empty_slots, joined_texts, members_at, modifiers_at, offsets_at,
    spec_convert_c2s, spec_convert_s2c, spec_legacy_block_id, statistics_at, team_details, times,
    varints_as_i32,
};
use crate::number::{fixed_cut, fixed_rounded, over_128, plus_eye_height, sixteenths};
use crate::position::{legacy_bits, packable};
use crate::text::{hex, string_at, ucs2_string, wire_string};
use crate::varint::{varint, varint_at};
use crate::wire::{
    be16, be32, be64, be_i16, be_i32, be_i64, be_i8, i16_at, i32_at, i64_at, i8_at, u32_at, u64_at,
};
use vstd::prelude::*;

verus! {

/// KeepAlive: the id keeps its low 32 bits. A shorter one is left alone.
pub proof fn s2c_keep_alive(id: i64, rest: Seq<u8>, short: Seq<u8>)
    ensures
        spec_convert_s2c(packet(
            0x1F,
            i64_field(id) + rest,
        )) == converted(
            0x00,
            be_i32(id as i32),
        ),
        short.len() < 8 ==> spec_convert_s2c(packet(0x1F, short)) == Outcome::Passthrough,
{
    broadcast use fields_read;
}

/// JoinGame becomes LoginRequest: the level type moves to the front, the dimension becomes a
/// byte, and the unused world height is 0.
#[verifier::rlimit(80)]
pub proof fn s2c_join_game(
    entity_id: i32,
    gamemode: u8,
    dimension: i32,
    difficulty: u8,
    max_players: u8,
    level_type: Seq<char>,
    rest: Seq<u8>,
)
    requires
        sendable(level_type),
    ensures
        spec_convert_s2c(packet(
            0x23,
            i32_field(entity_id) + seq![gamemode] + i32_field(dimension) + seq![difficulty]
                + seq![max_players] + text_field(level_type) + rest,
        )) == converted(
            0x01,
            be_i32(entity_id) + ucs2_string(level_type) + be_i8(gamemode as i8) + be_i8(dimension as i8)
                + be_i8(difficulty as i8) + seq![0u8] + seq![max_players],
        ),
{
    broadcast use fields_read;
}

/// JoinGame: one that ends before its last field is left alone.
#[verifier::rlimit(60)]
pub proof fn s2c_join_game_cut_off(
    entity_id: i32,
    gamemode: u8,
    dimension: i32,
    difficulty: u8,
    max_players: u8,
)
    ensures
        spec_convert_s2c(packet(
            0x23,
            i32_field(entity_id) + seq![gamemode] + i32_field(dimension) + seq![difficulty]
                + seq![max_players],
        )) == Outcome::Passthrough,
{
    broadcast use fields_read;
}

/// Chat: the component changes its encoding, and its position is dropped.
pub proof fn s2c_chat(json: Seq<char>, rest: Seq<u8>)
    requires
        sendable(json),
    ensures
        spec_convert_s2c(packet(
            0x0F,
            text_field(json) + rest,
        )) == converted(
            0x03,
            ucs2_string(json),
        ),
{
    broadcast use fields_read;
}

/// Chat: one that ends before its last field is left alone.
pub proof fn s2c_chat_cut_off()
    ensures
        spec_convert_s2c(packet(
            0x0F,
            Seq::<u8>::empty(),
        )) == Outcome::Passthrough,
{
    broadcast use fields_read;
}

/// TimeUpdate: the same fields. A shorter one is left alone.
pub proof fn s2c_time_update(age: i64, time_of_day: i64, rest: Seq<u8>, short: Seq<u8>)
    ensures
        spec_convert_s2c(packet(
            0x47,
            i64_field(age) + i64_field(time_of_day) + rest,
        )) == converted(
            0x04,
            be_i64(age) + be_i64(time_of_day),
        ),
        short.len() < 16 ==> spec_convert_s2c(packet(0x47, short)) == Outcome::Passthrough,
{
    broadcast use fields_read;
}

/// SpawnPosition: the place is taken apart. A shorter one is left alone.
pub proof fn s2c_spawn_position(x: i32, y: i32, z: i32, rest: Seq<u8>, short: Seq<u8>)
    requires
        packable(x as int, y as int, z as int),
    ensures
        spec_convert_s2c(packet(
            0x46,
            u64_field(legacy_bits(x as int, y as int, z as int)) + rest,
        )) == converted(
            0x06,
            be_i32(x) + be_i32(y) + be_i32(z),
        ),
        short.len() < 8 ==> spec_convert_s2c(packet(0x46, short)) == Outcome::Passthrough,
{
    broadcast use fields_read;
}

/// UpdateHealth: the food level keeps its low 16 bits.
pub proof fn s2c_update_health(health: u32, food: i32, saturation: u32, rest: Seq<u8>)
    ensures
        spec_convert_s2c(packet(
            0x41,
            u32_field(health) + varint_field(food) + u32_field(saturation) + rest,
        )) == converted(
            0x08,
            be32(health) + be_i16(food as i16) + be32(saturation),
        ),
{
    broadcast use fields_read;
}

/// UpdateHealth: one that ends before its last field is left alone.
pub proof fn s2c_update_health_cut_off(health: u32, food: i32, short: Seq<u8>)
    requires
        short.len() < 4,
    ensures
        spec_convert_s2c(packet(
            0x41,
            u32_field(health) + varint_field(food) + short,
        )) == Outcome::Passthrough,
{
    broadcast use fields_read;
}

/// Respawn: the world is 256 blocks high.
pub proof fn s2c_respawn(
    dimension: i32,
    difficulty: u8,
    gamemode: u8,
    level_type: Seq<char>,
    rest: Seq<u8>,
)
    requires
        sendable(level_type),
    ensures
        spec_convert_s2c(packet(
            0x35,
            i32_field(dimension) + seq![difficulty] + seq![gamemode] + text_field(level_type) + rest,
        )) == converted(
            0x09,
            be_i32(dimension) + be_i8(difficulty as i8) + be_i8(gamemode as i8) + be_i16(256i16)
                + ucs2_string(level_type),
        ),
{
    broadcast use fields_read;
}

/// Respawn: one that ends before its last field is left alone.
pub proof fn s2c_respawn_cut_off(dimension: i32, difficulty: u8, gamemode: u8)
    ensures
        spec_convert_s2c(packet(
            0x35,
            i32_field(dimension) + seq![difficulty] + seq![gamemode],
        )) == Outcome::Passthrough,
{
    broadcast use fields_read;
}

/// PlayerPositionAndLook: the stance is the height of the eyes, the relative flags and the
/// teleport id are dropped, and the player stands on the ground. A shorter one is left alone.
#[verifier::rlimit(80)]
pub proof fn s2c_player_pos_look(
    x: u64,
    y: u64,
    z: u64,
    yaw: u32,
    pitch: u32,
    flags: i8,
    rest: Seq<u8>,
    short: Seq<u8>,
)
    ensures
        spec_convert_s2c(packet(
            0x2F,
            u64_field(x) + u64_field(y) + u64_field(z) + u32_field(yaw) + u32_field(pitch)
                + i8_field(flags) + rest,
        )) == converted(
            0x0D,
            be64(x) + be64(plus_eye_height(y)) + be64(y) + be64(z) + be32(yaw) + be32(pitch) + seq![1u8],
        ),
        short.len() < 33 ==> spec_convert_s2c(packet(0x2F, short)) == Outcome::Passthrough,
{
    broadcast use fields_read;
}

/// HeldItemChange: the slot becomes 16 bits. A shorter one is left alone.
pub proof fn s2c_held_item_change(slot: i8, rest: Seq<u8>, short: Seq<u8>)
    ensures
        spec_convert_s2c(packet(
            0x3A,
            i8_field(slot) + rest,
        )) == converted(
            0x10,
            be_i16(slot as i16),
        ),
        short.len() < 1 ==> spec_convert_s2c(packet(0x3A, short)) == Outcome::Passthrough,
{
    broadcast use fields_read;
}

/// PlayerAbilities: the same fields. A shorter one is left alone.
pub proof fn s2c_player_abilities(flags: i8, flying: u32, walking: u32, rest: Seq<u8>, short: Seq<u8>)
    ensures
        spec_convert_s2c(packet(
            0x2C,
            i8_field(flags) + u32_field(flying) + u32_field(walking) + rest,
        )) == converted(
            0xCA,
            be_i8(flags) + be32(flying) + be32(walking),
        ),
        short.len() < 9 ==> spec_convert_s2c(packet(0x2C, short)) == Outcome::Passthrough,
{
    broadcast use fields_read;
}

/// Disconnect: the reason changes its encoding.
pub proof fn s2c_disconnect(reason: Seq<char>, rest: Seq<u8>)
    requires
        sendable(reason),
    ensures
        spec_convert_s2c(packet(
            0x1A,
            text_field(reason) + rest,
        )) == converted(
            0xFF,
            ucs2_string(reason),
        ),
{
    broadcast use fields_read;
}

/// Disconnect: one that ends before its last field is left alone.
pub proof fn s2c_disconnect_cut_off()
    ensures
        spec_convert_s2c(packet(
            0x1A,
            Seq::<u8>::empty(),
        )) == Outcome::Passthrough,
{
    broadcast use fields_read;
}

/// BlockChange: the place is taken apart, the state into the block id above and the metadata in
/// its low four bits. A block id below 0 becomes 0, one above 32767 that.
pub proof fn s2c_block_change(x: i32, y: i32, z: i32, state: i32, rest: Seq<u8>)
    requires
        packable(x as int, y as int, z as int),
    ensures
        spec_convert_s2c(packet(
            0x0B,
            u64_field(legacy_bits(x as int, y as int, z as int)) + varint_field(state) + rest,
        )) == converted(
            0x35,
            be_i32(x) + seq![y as u8] + be_i32(z) + be_i16(spec_legacy_block_id(state))
                + seq![(state as u32 % 16) as u8],
        ),
{
    broadcast use fields_read;
}

/// BlockChange: one that ends before its last field is left alone.
pub proof fn s2c_block_change_cut_off(x: i32, y: i32, z: i32)
    requires
        packable(x as int, y as int, z as int),
    ensures
        spec_convert_s2c(packet(
            0x0B,
            u64_field(legacy_bits(x as int, y as int, z as int)),
        )) == Outcome::Passthrough,
{
    broadcast use fields_read;
}

/// SpawnMob: the coordinates are rounded to fixed-point, and the metadata is empty.
#[verifier::rlimit(80)]
pub proof fn s2c_spawn_mob(
    eid: i32,
    kind: u8,
    x: u64,
    y: u64,
    z: u64,
    yaw: u8,
    pitch: u8,
    head_pitch: u8,
    vx: i16,
    vy: i16,
    vz: i16,
    rest: Seq<u8>,
)
    ensures
        spec_convert_s2c(packet(
            0x03,
            varint_field(eid) + seq![kind] + u64_field(x) + u64_field(y) + u64_field(z) + seq![yaw]
                + seq![pitch] + seq![head_pitch] + i16_field(vx) + i16_field(vy) + i16_field(vz) + rest,
        )) == converted(
            0x18,
            be_i32(eid) + seq![kind] + be_i32(fixed_rounded(x)) + be_i32(fixed_rounded(y))
                + be_i32(fixed_rounded(z)) + seq![yaw] + seq![pitch] + seq![head_pitch] + be_i16(vx)
                + be_i16(vy) + be_i16(vz) + seq![0x7Fu8],
        ),
{
    broadcast use fields_read;
    let b = varint_field(eid) + seq![kind] + u64_field(x) + u64_field(y) + u64_field(z) + seq![yaw]
            + seq![pitch] + seq![head_pitch] + i16_field(vx) + i16_field(vy) + i16_field(vz) + rest;
    let p1: int = varint_field(eid).len() as int;
    assert(varint_at(b, 0) == Some((eid, p1)));
    assert(b[p1] == kind);
    assert(u64_at(b, p1 + 1) == x);
    assert(u64_at(b, p1 + 9) == y);
    assert(u64_at(b, p1 + 17) == z);
    assert(b[p1 + 25] == yaw);
    assert(b[p1 + 26] == pitch);
    assert(b[p1 + 27] == head_pitch);
    assert(i16_at(b, p1 + 28) == vx);
    assert(i16_at(b, p1 + 30) == vy);
    assert(i16_at(b, p1 + 32) == vz);
}

/// SpawnMob: one that ends before its last field is left alone.
#[verifier::rlimit(60)]
pub proof fn s2c_spawn_mob_cut_off(eid: i32, kind: u8, x: u64, y: u64, short: Seq<u8>)
    requires
        short.len() < 8,
    ensures
        spec_convert_s2c(packet(
            0x03,
            varint_field(eid) + seq![kind] + u64_field(x) + u64_field(y) + short,
        )) == Outcome::Passthrough,
{
    broadcast use fields_read;
}

/// SpawnMob: what is missing at the end has its default.
#[verifier::rlimit(80)]
pub proof fn s2c_spawn_mob_defaults(eid: i32, kind: u8, x: u64, y: u64, z: u64)
    ensures
        spec_convert_s2c(packet(
            0x03,
            varint_field(eid) + seq![kind] + u64_field(x) + u64_field(y) + u64_field(z),
        )) == converted(
            0x18,
            be_i32(eid) + seq![kind] + be_i32(fixed_rounded(x)) + be_i32(fixed_rounded(y))
                + be_i32(fixed_rounded(z)) + seq![0u8] + seq![0u8] + seq![0u8] + be_i16(0i16)
                + be_i16(0i16) + be_i16(0i16) + seq![0x7Fu8],
        ),
{
    broadcast use fields_read;
    let b = varint_field(eid) + seq![kind] + u64_field(x) + u64_field(y) + u64_field(z);
    let p1: int = varint_field(eid).len() as int;
    assert(varint_at(b, 0) == Some((eid, p1)));
    assert(b[p1] == kind);
    assert(u64_at(b, p1 + 1) == x);
    assert(u64_at(b, p1 + 9) == y);
    assert(u64_at(b, p1 + 17) == z);
}

/// SpawnPainting: the place is taken apart, and the direction becomes 32 bits.
pub proof fn s2c_spawn_painting(
    eid: i32,
    title: Seq<char>,
    x: i32,
    y: i32,
    z: i32,
    direction: u8,
    rest: Seq<u8>,
)
    requires
        sendable(title),
        packable(x as int, y as int, z as int),
    ensures
        spec_convert_s2c(packet(
            0x04,
            varint_field(eid) + text_field(title) + u64_field(legacy_bits(x as int, y as int, z as int))
                + seq![direction] + rest,
        )) == converted(
            0x19,
            be_i32(eid) + ucs2_string(title) + be_i32(x) + be_i32(y) + be_i32(z)
                + be_i32(direction as i32),
        ),
{
    broadcast use fields_read;
}

/// SpawnPainting: one that ends before its last field is left alone.
pub proof fn s2c_spawn_painting_cut_off(eid: i32, title: Seq<char>, short: Seq<u8>)
    requires
        sendable(title),
        short.len() < 8,
    ensures
        spec_convert_s2c(packet(
            0x04,
            varint_field(eid) + text_field(title) + short,
        )) == Outcome::Passthrough,
{
    broadcast use fields_read;
}

/// SpawnPainting: what is missing at the end has its default.
pub proof fn s2c_spawn_painting_defaults(eid: i32, title: Seq<char>, x: i32, y: i32, z: i32)
    requires
        sendable(title),
        packable(x as int, y as int, z as int),
    ensures
        spec_convert_s2c(packet(
            0x04,
            varint_field(eid) + text_field(title) + u64_field(legacy_bits(x as int, y as int, z as int)),
        )) == converted(
            0x19,
            be_i32(eid) + ucs2_string(title) + be_i32(x) + be_i32(y) + be_i32(z) + be_i32(0u8 as i32),
        ),
{
    broadcast use fields_read;
}

/// SpawnExperienceOrb: the coordinates are rounded to fixed-point.
pub proof fn s2c_spawn_exp_orb(eid: i32, x: u64, y: u64, z: u64, count: i16, rest: Seq<u8>)
    ensures
        spec_convert_s2c(packet(
            0x01,
            varint_field(eid) + u64_field(x) + u64_field(y) + u64_field(z) + i16_field(count) + rest,
        )) == converted(
            0x1A,
            be_i32(eid) + be_i32(fixed_rounded(x)) + be_i32(fixed_rounded(y)) + be_i32(fixed_rounded(z))
                + be_i16(count),
        ),
{
    broadcast use fields_read;
}

/// SpawnExperienceOrb: one that ends before its last field is left alone.
pub proof fn s2c_spawn_exp_orb_cut_off(eid: i32, x: u64, y: u64, short: Seq<u8>)
    requires
        short.len() < 8,
    ensures
        spec_convert_s2c(packet(
            0x01,
            varint_field(eid) + u64_field(x) + u64_field(y) + short,
        )) == Outcome::Passthrough,
{
    broadcast use fields_read;
}

/// SpawnExperienceOrb: what is missing at the end has its default.
pub proof fn s2c_spawn_exp_orb_defaults(eid: i32, x: u64, y: u64, z: u64)
    ensures
        spec_convert_s2c(packet(
            0x01,
            varint_field(eid) + u64_field(x) + u64_field(y) + u64_field(z),
        )) == converted(
            0x1A,
            be_i32(eid) + be_i32(fixed_rounded(x)) + be_i32(fixed_rounded(y)) + be_i32(fixed_rounded(z))
                + be_i16(0i16),
        ),
{
    broadcast use fields_read;
}

/// SpawnGlobalEntity: the id becomes 32 bits.
pub proof fn s2c_spawn_global(eid: i32, kind: i8, x: i32, y: i32, z: i32, rest: Seq<u8>)
    ensures
        spec_convert_s2c(packet(
            0x02,
            varint_field(eid) + i8_field(kind) + i32_field(x) + i32_field(y) + i32_field(z) + rest,
        )) == converted(
            0x47,
            be_i32(eid) + be_i8(kind) + be_i32(x) + be_i32(y) + be_i32(z),
        ),
{
    broadcast use fields_read;
}

/// SpawnGlobalEntity: one that ends before its last field is left alone.
#[verifier::rlimit(60)]
pub proof fn s2c_spawn_global_cut_off(eid: i32, kind: i8, x: i32, y: i32, short: Seq<u8>)
    requires
        short.len() < 4,
    ensures
        spec_convert_s2c(packet(
            0x02,
            varint_field(eid) + i8_field(kind) + i32_field(x) + i32_field(y) + short,
        )) == Outcome::Passthrough,
{
    broadcast use fields_read;
}

/// Entity: the id becomes 32 bits.
pub proof fn s2c_entity(entity_id: i32, rest: Seq<u8>)
    ensures
        spec_convert_s2c(packet(
            0x25,
            varint_field(entity_id) + rest,
        )) == converted(
            0x1E,
            be_i32(entity_id),
        ),
{
    broadcast use fields_read;
}

/// Entity: one that ends before its last field is left alone.
pub proof fn s2c_entity_cut_off()
    ensures
        spec_convert_s2c(packet(
            0x25,
            Seq::<u8>::empty(),
        )) == Outcome::Passthrough,
{
    broadcast use fields_read;
}

/// EntityRelativeMove: steps of 1/4096 become steps of 1/32, cut off, in their low eight bits.
pub proof fn s2c_entity_rel_move(entity_id: i32, dx: i16, dy: i16, dz: i16, rest: Seq<u8>)
    requires
        rest.len() >= 1,
    ensures
        spec_convert_s2c(packet(
            0x26,
            varint_field(entity_id) + i16_field(dx) + i16_field(dy) + i16_field(dz) + rest,
        )) == converted(
            0x1F,
            be_i32(entity_id) + be_i8(over_128(dx as int) as i8) + be_i8(over_128(dy as int) as i8)
                + be_i8(over_128(dz as int) as i8),
        ),
{
    broadcast use fields_read;
}

/// EntityRelativeMove: one that ends before its last field is left alone.
pub proof fn s2c_entity_rel_move_cut_off(entity_id: i32, dx: i16, dy: i16, short: Seq<u8>)
    requires
        short.len() < 2,
    ensures
        spec_convert_s2c(packet(
            0x26,
            varint_field(entity_id) + i16_field(dx) + i16_field(dy) + short,
        )) == Outcome::Passthrough,
{
    broadcast use fields_read;
}

/// EntityLook: the ground flag is dropped.
pub proof fn s2c_entity_look(entity_id: i32, yaw: u8, pitch: u8, rest: Seq<u8>)
    requires
        rest.len() >= 1,
    ensures
        spec_convert_s2c(packet(
            0x28,
            varint_field(entity_id) + seq![yaw] + seq![pitch] + rest,
        )) == converted(
            0x20,
            be_i32(entity_id) + be_i8(yaw as i8) + be_i8(pitch as i8),
        ),
{
    broadcast use fields_read;
}

/// EntityLook: one that ends before its last field is left alone.
pub proof fn s2c_entity_look_cut_off(entity_id: i32, yaw: u8)
    ensures
        spec_convert_s2c(packet(
            0x28,
            varint_field(entity_id) + seq![yaw],
        )) == Outcome::Passthrough,
{
    broadcast use fields_read;
}

/// EntityLookAndRelativeMove: steps of 1/4096 become steps of 1/32, as in EntityRelativeMove.
#[verifier::rlimit(80)]
pub proof fn s2c_entity_look_rel_move(
    entity_id: i32,
    dx: i16,
    dy: i16,
    dz: i16,
    yaw: u8,
    pitch: u8,
    rest: Seq<u8>,
)
    requires
        rest.len() >= 1,
    ensures
        spec_convert_s2c(packet(
            0x27,
            varint_field(entity_id) + i16_field(dx) + i16_field(dy) + i16_field(dz) + seq![yaw]
                + seq![pitch] + rest,
        )) == converted(
            0x21,
            be_i32(entity_id) + be_i8(over_128(dx as int) as i8) + be_i8(over_128(dy as int) as i8)
                + be_i8(over_128(dz as int) as i8) + be_i8(yaw as i8) + be_i8(pitch as i8),
        ),
{
    broadcast use fields_read;
}

/// EntityLookAndRelativeMove: one that ends before its last field is left alone.
#[verifier::rlimit(60)]
pub proof fn s2c_entity_look_rel_move_cut_off(entity_id: i32, dx: i16, dy: i16, dz: i16, yaw: u8)
    ensures
        spec_convert_s2c(packet(
            0x27,
            varint_field(entity_id) + i16_field(dx) + i16_field(dy) + i16_field(dz) + seq![yaw],
        )) == Outcome::Passthrough,
{
    broadcast use fields_read;
}

/// EntityTeleport: the coordinates are cut to fixed-point.
#[verifier::rlimit(80)]
pub proof fn s2c_entity_teleport(
    entity_id: i32,
    x: u64,
    y: u64,
    z: u64,
    yaw: u8,
    pitch: u8,
    rest: Seq<u8>,
)
    requires
        rest.len() >= 1,
    ensures
        spec_convert_s2c(packet(
            0x4C,
            varint_field(entity_id) + u64_field(x) + u64_field(y) + u64_field(z) + seq![yaw]
                + seq![pitch] + rest,
        )) == converted(
            0x22,
            be_i32(entity_id) + be_i32(fixed_cut(x)) + be_i32(fixed_cut(y)) + be_i32(fixed_cut(z))
                + be_i8(yaw as i8) + be_i8(pitch as i8),
        ),
{
    broadcast use fields_read;
    let b = varint_field(entity_id) + u64_field(x) + u64_field(y) + u64_field(z) + seq![yaw] + seq![pitch]
            + rest;
    let p1: int = varint_field(entity_id).len() as int;
    assert(varint_at(b, 0) == Some((entity_id, p1)));
    assert(u64_at(b, p1) == x);
    assert(u64_at(b, p1 + 8) == y);
    assert(u64_at(b, p1 + 16) == z);
    assert(b[p1 + 24] == yaw);
    assert(b[p1 + 25] == pitch);
}

/// EntityTeleport: one that ends before its last field is left alone.
#[verifier::rlimit(60)]
pub proof fn s2c_entity_teleport_cut_off(entity_id: i32, x: u64, y: u64, z: u64, yaw: u8)
    ensures
        spec_convert_s2c(packet(
            0x4C,
            varint_field(entity_id) + u64_field(x) + u64_field(y) + u64_field(z) + seq![yaw],
        )) == Outcome::Passthrough,
{
    broadcast use fields_read;
}

/// EntityHeadLook: the id becomes 32 bits.
pub proof fn s2c_entity_head_look(entity_id: i32, head_yaw: u8, rest: Seq<u8>)
    ensures
        spec_convert_s2c(packet(
            0x36,
            varint_field(entity_id) + seq![head_yaw] + rest,
        )) == converted(
            0x23,
            be_i32(entity_id) + be_i8(head_yaw as i8),
        ),
{
    broadcast use fields_read;
}

/// EntityHeadLook: one that ends before its last field is left alone.
pub proof fn s2c_entity_head_look_cut_off(entity_id: i32)
    ensures
        spec_convert_s2c(packet(
            0x36,
            varint_field(entity_id),
        )) == Outcome::Passthrough,
{
    broadcast use fields_read;
}

/// EntityStatus: the same fields. A shorter one is left alone.
pub proof fn s2c_entity_status(b: Seq<u8>)
    ensures
        spec_convert_s2c(packet(0x1B, b)) == if b.len() < 5 {
            Outcome::Passthrough
        } else {
            converted(0x26, b)
        },
{
    broadcast use fields_read;
}

/// AttachEntity: the same fields. A shorter one is left alone.
pub proof fn s2c_attach_entity(b: Seq<u8>)
    ensures
        spec_convert_s2c(packet(0x3D, b)) == if b.len() < 9 {
            Outcome::Passthrough
        } else {
            converted(0x27, b)
        },
{
    broadcast use fields_read;
}

/// EntityMetadata: the metadata is empty.
pub proof fn s2c_entity_metadata(eid: i32, rest: Seq<u8>)
    ensures
        spec_convert_s2c(packet(
            0x3C,
            varint_field(eid) + rest,
        )) == converted(
            0x28,
            be_i32(eid) + seq![0x7Fu8],
        ),
{
    broadcast use fields_read;
}

/// EntityMetadata: one that ends before its last field is left alone.
pub proof fn s2c_entity_metadata_cut_off()
    ensures
        spec_convert_s2c(packet(
            0x3C,
            Seq::<u8>::empty(),
        )) == Outcome::Passthrough,
{
    broadcast use fields_read;
}

/// RemoveEntityEffect: the id becomes 32 bits.
pub proof fn s2c_remove_entity_effect(eid: i32, effect: i8, rest: Seq<u8>)
    ensures
        spec_convert_s2c(packet(
            0x33,
            varint_field(eid) + i8_field(effect) + rest,
        )) == converted(
            0x2A,
            be_i32(eid) + be_i8(effect),
        ),
{
    broadcast use fields_read;
}

/// RemoveEntityEffect: one that ends before its last field is left alone.
pub proof fn s2c_remove_entity_effect_cut_off()
    ensures
        spec_convert_s2c(packet(
            0x33,
            Seq::<u8>::empty(),
        )) == Outcome::Passthrough,
{
    broadcast use fields_read;
}

/// RemoveEntityEffect: what is missing at the end has its default.
pub proof fn s2c_remove_entity_effect_defaults(eid: i32)
    ensures
        spec_convert_s2c(packet(
            0x33,
            varint_field(eid),
        )) == converted(
            0x2A,
            be_i32(eid) + be_i8(0i8),
        ),
{
    broadcast use fields_read;
}

/// CollectItem: the count is dropped.
pub proof fn s2c_collect_item(collected: i32, collector: i32, rest: Seq<u8>)
    ensures
        spec_convert_s2c(packet(
            0x4B,
            varint_field(collected) + varint_field(collector) + rest,
        )) == converted(
            0x16,
            be_i32(collected) + be_i32(collector),
        ),
{
    broadcast use fields_read;
}

/// CollectItem: one that ends before its last field is left alone.
pub proof fn s2c_collect_item_cut_off(collected: i32)
    ensures
        spec_convert_s2c(packet(
            0x4B,
            varint_field(collected),
        )) == Outcome::Passthrough,
{
    broadcast use fields_read;
}

/// EntityVelocity: the id becomes 32 bits.
pub proof fn s2c_entity_velocity(eid: i32, vx: i16, vy: i16, vz: i16, rest: Seq<u8>)
    ensures
        spec_convert_s2c(packet(
            0x3E,
            varint_field(eid) + i16_field(vx) + i16_field(vy) + i16_field(vz) + rest,
        )) == converted(
            0x1C,
            be_i32(eid) + be_i16(vx) + be_i16(vy) + be_i16(vz),
        ),
{
    broadcast use fields_read;
}

/// EntityVelocity: one that ends before its last field is left alone.
pub proof fn s2c_entity_velocity_cut_off()
    ensures
        spec_convert_s2c(packet(
            0x3E,
            Seq::<u8>::empty(),
        )) == Outcome::Passthrough,
{
    broadcast use fields_read;
}

/// EntityVelocity: what is missing at the end has its default.
pub proof fn s2c_entity_velocity_defaults(eid: i32)
    ensures
        spec_convert_s2c(packet(
            0x3E,
            varint_field(eid),
        )) == converted(
            0x1C,
            be_i32(eid) + be_i16(0i16) + be_i16(0i16) + be_i16(0i16),
        ),
{
    broadcast use fields_read;
}

/// Animation: the id becomes 32 bits.
pub proof fn s2c_animation(eid: i32, animation: u8, rest: Seq<u8>)
    ensures
        spec_convert_s2c(packet(
            0x06,
            varint_field(eid) + seq![animation] + rest,
        )) == converted(
            0x12,
            be_i32(eid) + seq![animation],
        ),
{
    broadcast use fields_read;
}

/// Animation: one that ends before its last field is left alone.
pub proof fn s2c_animation_cut_off(eid: i32)
    ensures
        spec_convert_s2c(packet(
            0x06,
            varint_field(eid),
        )) == Outcome::Passthrough,
{
    broadcast use fields_read;
}

/// BlockBreakAnimation: the place is taken apart.
pub proof fn s2c_block_break_anim(eid: i32, x: i32, y: i32, z: i32, stage: i8, rest: Seq<u8>)
    requires
        packable(x as int, y as int, z as int),
    ensures
        spec_convert_s2c(packet(
            0x08,
            varint_field(eid) + u64_field(legacy_bits(x as int, y as int, z as int)) + i8_field(stage)
                + rest,
        )) == converted(
            0x37,
            be_i32(eid) + be_i32(x) + be_i32(y) + be_i32(z) + be_i8(stage),
        ),
{
    broadcast use fields_read;
}

/// BlockBreakAnimation: one that ends before its last field is left alone.
pub proof fn s2c_block_break_anim_cut_off(eid: i32, short: Seq<u8>)
    requires
        short.len() < 8,
    ensures
        spec_convert_s2c(packet(
            0x08,
            varint_field(eid) + short,
        )) == Outcome::Passthrough,
{
    broadcast use fields_read;
}

/// BlockBreakAnimation: what is missing at the end has its default.
pub proof fn s2c_block_break_anim_defaults(eid: i32, x: i32, y: i32, z: i32)
    requires
        packable(x as int, y as int, z as int),
    ensures
        spec_convert_s2c(packet(
            0x08,
            varint_field(eid) + u64_field(legacy_bits(x as int, y as int, z as int)),
        )) == converted(
            0x37,
            be_i32(eid) + be_i32(x) + be_i32(y) + be_i32(z) + be_i8(0i8),
        ),
{
    broadcast use fields_read;
}

/// BlockAction: the place is taken apart, and the block id keeps its low 16 bits.
pub proof fn s2c_block_action(
    x: i32,
    y: i32,
    z: i32,
    first: u8,
    second: u8,
    block_id: i32,
    rest: Seq<u8>,
)
    requires
        packable(x as int, y as int, z as int),
    ensures
        spec_convert_s2c(packet(
            0x0A,
            u64_field(legacy_bits(x as int, y as int, z as int)) + seq![first] + seq![second]
                + varint_field(block_id) + rest,
        )) == converted(
            0x36,
            be_i32(x) + be_i16(y as i16) + be_i32(z) + seq![first] + seq![second]
                + be_i16(block_id as i16),
        ),
{
    broadcast use fields_read;
}

/// BlockAction: one that ends before its last field is left alone.
pub proof fn s2c_block_action_cut_off(short: Seq<u8>)
    requires
        short.len() < 8,
    ensures
        spec_convert_s2c(packet(
            0x0A,
            short,
        )) == Outcome::Passthrough,
{
    broadcast use fields_read;
}

/// BlockAction: what is missing at the end has its default.
pub proof fn s2c_block_action_defaults(x: i32, y: i32, z: i32)
    requires
        packable(x as int, y as int, z as int),
    ensures
        spec_convert_s2c(packet(
            0x0A,
            u64_field(legacy_bits(x as int, y as int, z as int)),
        )) == converted(
            0x36,
            be_i32(x) + be_i16(y as i16) + be_i32(z) + seq![0u8] + seq![0u8] + be_i16(0i32 as i16),
        ),
{
    broadcast use fields_read;
}

/// TileEntityData: the place is taken apart, the data stays. A shorter one is left alone.
pub proof fn s2c_tile_entity_data(x: i32, y: i32, z: i32, action: u8, data: Seq<u8>, short: Seq<u8>)
    requires
        packable(x as int, y as int, z as int),
    ensures
        spec_convert_s2c(packet(
            0x09,
            u64_field(legacy_bits(x as int, y as int, z as int)) + seq![action] + data,
        )) == converted(
            0x84,
            be_i32(x) + be_i16(y as i16) + be_i32(z) + seq![action] + data,
        ),
        short.len() < 8 ==> spec_convert_s2c(packet(0x09, short)) == Outcome::Passthrough,
{
    broadcast use fields_read;
}

/// CloseWindow: the same field. A shorter one is left alone.
pub proof fn s2c_close_window(b: Seq<u8>)
    ensures
        spec_convert_s2c(packet(0x12, b)) == if b.len() < 1 {
            Outcome::Passthrough
        } else {
            converted(0x65, b)
        },
{
    broadcast use fields_read;
}

/// SetSlot: the item is taken away.
pub proof fn s2c_set_slot(window_id: i8, slot: i16, rest: Seq<u8>)
    ensures
        spec_convert_s2c(packet(
            0x16,
            i8_field(window_id) + i16_field(slot) + rest,
        )) == converted(
            0x67,
            be_i8(window_id) + be_i16(slot) + be_i16(-1i16),
        ),
{
    broadcast use fields_read;
}

/// SetSlot: one that ends before its last field is left alone.
pub proof fn s2c_set_slot_cut_off(window_id: i8, short: Seq<u8>)
    requires
        short.len() < 2,
    ensures
        spec_convert_s2c(packet(
            0x16,
            i8_field(window_id) + short,
        )) == Outcome::Passthrough,
{
    broadcast use fields_read;
}

/// WindowProperty: the same fields. A shorter one is left alone.
pub proof fn s2c_window_property(b: Seq<u8>)
    ensures
        spec_convert_s2c(packet(0x15, b)) == if b.len() < 5 {
            Outcome::Passthrough
        } else {
            converted(0x69, b)
        },
{
    broadcast use fields_read;
}

/// ConfirmTransaction: the same fields. A shorter one is left alone.
pub proof fn s2c_confirm_transaction(b: Seq<u8>)
    ensures
        spec_convert_s2c(packet(0x11, b)) == if b.len() < 4 {
            Outcome::Passthrough
        } else {
            converted(0x6A, b)
        },
{
    broadcast use fields_read;
}

/// OpenSignEditor: the place is taken apart. A shorter one is left alone.
pub proof fn s2c_open_sign_editor(x: i32, y: i32, z: i32, rest: Seq<u8>, short: Seq<u8>)
    requires
        packable(x as int, y as int, z as int),
    ensures
        spec_convert_s2c(packet(
            0x2A,
            u64_field(legacy_bits(x as int, y as int, z as int)) + rest,
        )) == converted(
            0x85,
            be_i32(x) + be_i32(y) + be_i32(z),
        ),
        short.len() < 8 ==> spec_convert_s2c(packet(0x2A, short)) == Outcome::Passthrough,
{
    broadcast use fields_read;
}

/// UpdateScore: the texts change their encoding.
pub proof fn s2c_update_score(
    name: Seq<char>,
    action: u8,
    objective: Seq<char>,
    value: i32,
    rest: Seq<u8>,
)
    requires
        sendable(name),
        sendable(objective),
    ensures
        spec_convert_s2c(packet(
            0x45,
            text_field(name) + seq![action] + text_field(objective) + varint_field(value) + rest,
        )) == converted(
            0xCF,
            ucs2_string(name) + seq![action] + ucs2_string(objective) + be_i32(value),
        ),
{
    broadcast use fields_read;
}

/// UpdateScore: what is missing at the end has its default.
pub proof fn s2c_update_score_defaults(name: Seq<char>, action: u8, objective: Seq<char>)
    requires
        sendable(name),
        sendable(objective),
    ensures
        spec_convert_s2c(packet(
            0x45,
            text_field(name) + seq![action] + text_field(objective),
        )) == converted(
            0xCF,
            ucs2_string(name) + seq![action] + ucs2_string(objective) + be_i32(0i32),
        ),
{
    broadcast use fields_read;
}

/// DisplayScoreboard: the name changes its encoding.
pub proof fn s2c_display_scoreboard(slot: i8, name: Seq<char>, rest: Seq<u8>)
    requires
        sendable(name),
    ensures
        spec_convert_s2c(packet(
            0x3B,
            i8_field(slot) + text_field(name) + rest,
        )) == converted(
            0xD0,
            be_i8(slot) + ucs2_string(name),
        ),
{
    broadcast use fields_read;
}

/// Effect: the place is taken apart.
pub proof fn s2c_effect(effect: i32, x: i32, y: i32, z: i32, data: i32, global: u8, rest: Seq<u8>)
    requires
        packable(x as int, y as int, z as int),
    ensures
        spec_convert_s2c(packet(
            0x21,
            i32_field(effect) + u64_field(legacy_bits(x as int, y as int, z as int)) + i32_field(data)
                + seq![global] + rest,
        )) == converted(
            0x3D,
            be_i32(effect) + be_i32(x) + be_i32(y) + be_i32(z) + be_i32(data) + seq![global],
        ),
{
    broadcast use fields_read;
}

/// Effect: one that ends before its last field is left alone.
pub proof fn s2c_effect_cut_off(effect: i32, short: Seq<u8>)
    requires
        short.len() < 8,
    ensures
        spec_convert_s2c(packet(
            0x21,
            i32_field(effect) + short,
        )) == Outcome::Passthrough,
{
    broadcast use fields_read;
}

/// Effect: what is missing at the end has its default.
pub proof fn s2c_effect_defaults(effect: i32, x: i32, y: i32, z: i32)
    requires
        packable(x as int, y as int, z as int),
    ensures
        spec_convert_s2c(packet(
            0x21,
            i32_field(effect) + u64_field(legacy_bits(x as int, y as int, z as int)),
        )) == converted(
            0x3D,
            be_i32(effect) + be_i32(x) + be_i32(y) + be_i32(z) + be_i32(0i32) + seq![0u8],
        ),
{
    broadcast use fields_read;
}

/// ChangeGameState: the same fields. A shorter one is left alone.
pub proof fn s2c_game_state(b: Seq<u8>)
    ensures
        spec_convert_s2c(packet(0x1E, b)) == if b.len() < 5 {
            Outcome::Passthrough
        } else {
            converted(0x46, b)
        },
{
    broadcast use fields_read;
}

/// These packets toward the client go no further.
pub proof fn s2c_dropped(b: Seq<u8>)
    ensures
        spec_convert_s2c(packet(0x0C, b)) == Outcome::Drop,
        spec_convert_s2c(packet(0x0D, b)) == Outcome::Drop,
        spec_convert_s2c(packet(0x17, b)) == Outcome::Drop,
        spec_convert_s2c(packet(0x1D, b)) == Outcome::Drop,
        spec_convert_s2c(packet(0x29, b)) == Outcome::Drop,
        spec_convert_s2c(packet(0x2B, b)) == Outcome::Drop,
        spec_convert_s2c(packet(0x2D, b)) == Outcome::Drop,
        spec_convert_s2c(packet(0x30, b)) == Outcome::Drop,
        spec_convert_s2c(packet(0x31, b)) == Outcome::Drop,
        spec_convert_s2c(packet(0x34, b)) == Outcome::Drop,
        spec_convert_s2c(packet(0x37, b)) == Outcome::Drop,
        spec_convert_s2c(packet(0x38, b)) == Outcome::Drop,
        spec_convert_s2c(packet(0x39, b)) == Outcome::Drop,
        spec_convert_s2c(packet(0x43, b)) == Outcome::Drop,
        spec_convert_s2c(packet(0x48, b)) == Outcome::Drop,
        spec_convert_s2c(packet(0x49, b)) == Outcome::Drop,
        spec_convert_s2c(packet(0x4A, b)) == Outcome::Drop,
        spec_convert_s2c(packet(0x4D, b)) == Outcome::Drop,
        spec_convert_s2c(packet(0x19, b)) == Outcome::Drop,
        spec_convert_s2c(packet(0x22, b)) == Outcome::Drop,
{
    broadcast use fields_read;
}

/// All other packets toward the client are left alone.
pub proof fn s2c_others_left_alone(id: u8, b: Seq<u8>)
    requires
        id != 0x00 && id != 0x01 && id != 0x02 && id != 0x03 && id != 0x04 && id != 0x05 &&
        id != 0x06 && id != 0x07 && id != 0x08 && id != 0x09 && id != 0x0A && id != 0x0B &&
        id != 0x0C && id != 0x0D && id != 0x0E && id != 0x0F && id != 0x11 && id != 0x12 &&
        id != 0x13 && id != 0x14 && id != 0x15 && id != 0x16 && id != 0x17 && id != 0x18 &&
        id != 0x19 && id != 0x1A && id != 0x1B && id != 0x1C && id != 0x1D && id != 0x1E &&
        id != 0x1F && id != 0x21 && id != 0x22 && id != 0x23 && id != 0x25 && id != 0x26 &&
        id != 0x27 && id != 0x28 && id != 0x29 && id != 0x2A && id != 0x2B && id != 0x2C &&
        id != 0x2D && id != 0x2F && id != 0x30 && id != 0x31 && id != 0x32 && id != 0x33 &&
        id != 0x34 && id != 0x35 && id != 0x36 && id != 0x37 && id != 0x38 && id != 0x39 &&
        id != 0x3A && id != 0x3B && id != 0x3C && id != 0x3D && id != 0x3E && id != 0x3F &&
        id != 0x40 && id != 0x41 && id != 0x42 && id != 0x43 && id != 0x44 && id != 0x45 &&
        id != 0x46 && id != 0x47 && id != 0x48 && id != 0x49 && id != 0x4A && id != 0x4B &&
        id != 0x4C && id != 0x4D && id != 0x4E && id != 0x4F,
    ensures
        spec_convert_s2c(packet(id, b)) == Outcome::Passthrough,
{
    broadcast use fields_read;
}

/// TabComplete: the text changes its encoding, the rest is dropped.
pub proof fn c2s_tab_complete(text: Seq<char>, rest: Seq<u8>)
    requires
        sendable(text),
    ensures
        spec_convert_c2s(packet(
            0x01,
            text_field(text) + rest,
        )) == converted(
            0xCB,
            ucs2_string(text),
        ),
{
    broadcast use fields_read;
}

/// TabComplete: one that ends before its last field is left alone.
pub proof fn c2s_tab_complete_cut_off()
    ensures
        spec_convert_c2s(packet(
            0x01,
            Seq::<u8>::empty(),
        )) == Outcome::Passthrough,
{
    broadcast use fields_read;
}

/// KeepAlive: the id keeps its low 32 bits. A shorter one is left alone.
pub proof fn c2s_keep_alive(id: i64, rest: Seq<u8>, short: Seq<u8>)
    ensures
        spec_convert_c2s(packet(
            0x0B,
            i64_field(id) + rest,
        )) == converted(
            0x00,
            be_i32(id as i32),
        ),
        short.len() < 8 ==> spec_convert_c2s(packet(0x0B, short)) == Outcome::Passthrough,
{
    broadcast use fields_read;
}

/// ClientStatus: the action becomes a byte.
pub proof fn c2s_client_status(action: i32, rest: Seq<u8>)
    ensures
        spec_convert_c2s(packet(
            0x03,
            varint_field(action) + rest,
        )) == converted(
            0xCD,
            be_i8(action as i8),
        ),
{
    broadcast use fields_read;
}

/// ClientStatus: one that ends before its last field is left alone.
pub proof fn c2s_client_status_cut_off()
    ensures
        spec_convert_c2s(packet(
            0x03,
            Seq::<u8>::empty(),
        )) == Outcome::Passthrough,
{
    broadcast use fields_read;
}

/// ConfirmTransaction: the same fields. A shorter one is left alone.
pub proof fn c2s_confirm_transaction(b: Seq<u8>)
    ensures
        spec_convert_c2s(packet(0x05, b)) == if b.len() < 4 {
            Outcome::Passthrough
        } else {
            converted(0x6A, b)
        },
{
    broadcast use fields_read;
}

/// EnchantItem: the same fields. A shorter one is left alone.
pub proof fn c2s_enchant_item(b: Seq<u8>)
    ensures
        spec_convert_c2s(packet(0x06, b)) == if b.len() < 2 {
            Outcome::Passthrough
        } else {
            converted(0x6C, b)
        },
{
    broadcast use fields_read;
}

/// WindowClick: the mode becomes a byte, and the item is taken away.
pub proof fn c2s_window_click(
    window_id: u8,
    slot: i16,
    button: u8,
    action: i16,
    mode: i32,
    rest: Seq<u8>,
)
    ensures
        spec_convert_c2s(packet(
            0x07,
            seq![window_id] + i16_field(slot) + seq![button] + i16_field(action) + varint_field(mode)
                + rest,
        )) == converted(
            0x66,
            be_i8(window_id as i8) + be_i16(slot) + be_i8(button as i8) + be_i16(action)
                + be_i8(mode as i8) + be_i16(-1i16),
        ),
{
    broadcast use fields_read;
}

/// WindowClick: one that ends before its last field is left alone.
pub proof fn c2s_window_click_cut_off(window_id: u8, short: Seq<u8>)
    requires
        short.len() < 2,
    ensures
        spec_convert_c2s(packet(
            0x07,
            seq![window_id] + short,
        )) == Outcome::Passthrough,
{
    broadcast use fields_read;
}

/// WindowClick: what is missing at the end has its default.
pub proof fn c2s_window_click_defaults(window_id: u8, slot: i16)
    ensures
        spec_convert_c2s(packet(
            0x07,
            seq![window_id] + i16_field(slot),
        )) == converted(
            0x66,
            be_i8(window_id as i8) + be_i16(slot) + be_i8(0u8 as i8) + be_i16(0i16) + be_i8(0i32 as i8)
                + be_i16(-1i16),
        ),
{
    broadcast use fields_read;
}

/// CloseWindow: the same field. A shorter one is left alone.
pub proof fn c2s_close_window(window_id: u8, rest: Seq<u8>, short: Seq<u8>)
    ensures
        spec_convert_c2s(packet(
            0x08,
            seq![window_id] + rest,
        )) == converted(
            0x65,
            seq![window_id],
        ),
        short.len() < 1 ==> spec_convert_c2s(packet(0x08, short)) == Outcome::Passthrough,
{
    broadcast use fields_read;
}

/// UseEntity: the user is -1, and only an attack is a left click.
pub proof fn c2s_use_entity(target: i32, kind: i32, rest: Seq<u8>)
    ensures
        spec_convert_c2s(packet(
            0x0A,
            varint_field(target) + varint_field(kind) + rest,
        )) == converted(
            0x07,
            be_i32(-1i32) + be_i32(target) + seq![if kind == 1 { 1u8 } else { 0u8 }],
        ),
{
    broadcast use fields_read;
}

/// UseEntity: one that ends before its last field is left alone.
pub proof fn c2s_use_entity_cut_off(target: i32)
    ensures
        spec_convert_c2s(packet(
            0x0A,
            varint_field(target),
        )) == Outcome::Passthrough,
{
    broadcast use fields_read;
}

/// PlayerPosition: the stance is the height of the eyes, and the ground flag is 0 or 1. A
/// shorter one is left alone.
pub proof fn c2s_move_player_pos(x: u64, y: u64, z: u64, on_ground: u8, rest: Seq<u8>, short: Seq<u8>)
    ensures
        spec_convert_c2s(packet(
            0x0C,
            u64_field(x) + u64_field(y) + u64_field(z) + seq![on_ground] + rest,
        )) == converted(
            0x0B,
            be64(x) + be64(y) + be64(plus_eye_height(y)) + be64(z)
                + seq![if on_ground != 0 { 1u8 } else { 0u8 }],
        ),
        short.len() < 25 ==> spec_convert_c2s(packet(0x0C, short)) == Outcome::Passthrough,
{
    broadcast use fields_read;
}

/// PlayerPositionAndLook: the stance is the height of the eyes, and the ground flag is 0 or 1.
/// A shorter one is left alone.
#[verifier::rlimit(80)]
pub proof fn c2s_player_pos_look(
    x: u64,
    y: u64,
    z: u64,
    yaw: u32,
    pitch: u32,
    on_ground: u8,
    rest: Seq<u8>,
    short: Seq<u8>,
)
    ensures
        spec_convert_c2s(packet(
            0x0E,
            u64_field(x) + u64_field(y) + u64_field(z) + u32_field(yaw) + u32_field(pitch)
                + seq![on_ground] + rest,
        )) == converted(
            0x0D,
            be64(x) + be64(plus_eye_height(y)) + be64(y) + be64(z) + be32(yaw) + be32(pitch)
                + seq![if on_ground != 0 { 1u8 } else { 0u8 }],
        ),
        short.len() < 33 ==> spec_convert_c2s(packet(0x0E, short)) == Outcome::Passthrough,
{
    broadcast use fields_read;
}

/// PlayerLook: the ground flag is 0 or 1. A shorter one is left alone.
pub proof fn c2s_move_player_rot(yaw: u32, pitch: u32, on_ground: u8, rest: Seq<u8>, short: Seq<u8>)
    ensures
        spec_convert_c2s(packet(
            0x0F,
            u32_field(yaw) + u32_field(pitch) + seq![on_ground] + rest,
        )) == converted(
            0x0C,
            be32(yaw) + be32(pitch) + seq![if on_ground != 0 { 1u8 } else { 0u8 }],
        ),
        short.len() < 9 ==> spec_convert_c2s(packet(0x0F, short)) == Outcome::Passthrough,
{
    broadcast use fields_read;
}

/// SteerVehicle: bit 0 of the flags is jumping, bit 1 leaving. A shorter one is left alone.
pub proof fn c2s_steer_vehicle(sideways: u32, forward: u32, flags: u8, rest: Seq<u8>, short: Seq<u8>)
    ensures
        spec_convert_c2s(packet(
            0x16,
            u32_field(sideways) + u32_field(forward) + seq![flags] + rest,
        )) == converted(
            0x1B,
            be32(sideways) + be32(forward) + seq![if flags & 0x01 != 0 { 1u8 } else { 0u8 }]
                + seq![if flags & 0x02 != 0 { 1u8 } else { 0u8 }],
        ),
        short.len() < 9 ==> spec_convert_c2s(packet(0x16, short)) == Outcome::Passthrough,
{
    broadcast use fields_read;
}

/// PlayerAbilities: the same fields. A shorter one is left alone.
pub proof fn c2s_player_abilities(flags: i8, flying: u32, walking: u32, rest: Seq<u8>, short: Seq<u8>)
    ensures
        spec_convert_c2s(packet(
            0x13,
            i8_field(flags) + u32_field(flying) + u32_field(walking) + rest,
        )) == converted(
            0xCA,
            be_i8(flags) + be32(flying) + be32(walking),
        ),
        short.len() < 9 ==> spec_convert_c2s(packet(0x13, short)) == Outcome::Passthrough,
{
    broadcast use fields_read;
}

/// PlayerDigging: the place is taken apart.
pub proof fn c2s_player_digging(status: i32, x: i32, y: i32, z: i32, face: i8, rest: Seq<u8>)
    requires
        packable(x as int, y as int, z as int),
    ensures
        spec_convert_c2s(packet(
            0x14,
            varint_field(status) + u64_field(legacy_bits(x as int, y as int, z as int)) + i8_field(face)
                + rest,
        )) == converted(
            0x0E,
            be_i8(status as i8) + be_i32(x) + be_i8(y as i8) + be_i32(z) + be_i8(face),
        ),
{
    broadcast use fields_read;
}

/// PlayerDigging: one that ends before its last field is left alone.
pub proof fn c2s_player_digging_cut_off(status: i32, x: i32, y: i32, z: i32)
    requires
        packable(x as int, y as int, z as int),
    ensures
        spec_convert_c2s(packet(
            0x14,
            varint_field(status) + u64_field(legacy_bits(x as int, y as int, z as int)),
        )) == Outcome::Passthrough,
{
    broadcast use fields_read;
}

/// EntityAction: the jump boost is dropped.
pub proof fn c2s_entity_action(entity_id: i32, action: i32, rest: Seq<u8>)
    ensures
        spec_convert_c2s(packet(
            0x15,
            varint_field(entity_id) + varint_field(action) + rest,
        )) == converted(
            0x13,
            be_i32(entity_id) + be_i8(action as i8),
        ),
{
    broadcast use fields_read;
}

/// EntityAction: one that ends before its last field is left alone.
pub proof fn c2s_entity_action_cut_off(entity_id: i32)
    ensures
        spec_convert_c2s(packet(
            0x15,
            varint_field(entity_id),
        )) == Outcome::Passthrough,
{
    broadcast use fields_read;
}

/// HeldItemChange: the same field. A shorter one is left alone.
pub proof fn c2s_held_item_change(slot: i16, rest: Seq<u8>, short: Seq<u8>)
    ensures
        spec_convert_c2s(packet(
            0x1A,
            i16_field(slot) + rest,
        )) == converted(
            0x10,
            be_i16(slot),
        ),
        short.len() < 2 ==> spec_convert_c2s(packet(0x1A, short)) == Outcome::Passthrough,
{
    broadcast use fields_read;
}

/// CreativeInventoryAction: the item is taken away.
pub proof fn c2s_creative_inv(slot: i16, rest: Seq<u8>)
    ensures
        spec_convert_c2s(packet(
            0x1B,
            i16_field(slot) + rest,
        )) == converted(
            0x6B,
            be_i16(slot) + be_i16(-1i16),
        ),
{
    broadcast use fields_read;
}

/// CreativeInventoryAction: one that ends before its last field is left alone.
pub proof fn c2s_creative_inv_cut_off(short: Seq<u8>)
    requires
        short.len() < 2,
    ensures
        spec_convert_c2s(packet(
            0x1B,
            short,
        )) == Outcome::Passthrough,
{
    broadcast use fields_read;
}

/// Animation: every animation is a swing of the arm of entity 0.
pub proof fn c2s_animation(rest: Seq<u8>)
    ensures
        spec_convert_c2s(packet(
            0x1D,
            rest,
        )) == converted(
            0x12,
            be_i32(0i32) + be_i8(1i8),
        ),
{
    broadcast use fields_read;
}

/// PlayerBlockPlacement: the place is taken apart, the hand is dropped, the held item is none,
/// and the cursor falls on a sixteenth of the block.
#[verifier::rlimit(80)]
pub proof fn c2s_player_block_placement(
    x: i32,
    y: i32,
    z: i32,
    face: i32,
    hand: i32,
    cx: u32,
    cy: u32,
    cz: u32,
    rest: Seq<u8>,
)
    requires
        packable(x as int, y as int, z as int),
    ensures
        spec_convert_c2s(packet(
            0x1F,
            u64_field(legacy_bits(x as int, y as int, z as int)) + varint_field(face)
                + varint_field(hand) + u32_field(cx) + u32_field(cy) + u32_field(cz) + rest,
        )) == converted(
            0x0F,
            be_i32(x) + seq![y as u8] + be_i32(z) + be_i8(face as i8) + be_i16(-1i16)
                + be_i8(sixteenths(cx)) + be_i8(sixteenths(cy)) + be_i8(sixteenths(cz)),
        ),
{
    broadcast use fields_read;
}

/// PlayerBlockPlacement: one that ends before its last field is left alone.
#[verifier::rlimit(60)]
pub proof fn c2s_player_block_placement_cut_off(
    x: i32,
    y: i32,
    z: i32,
    face: i32,
    hand: i32,
    cx: u32,
    cy: u32,
    short: Seq<u8>,
)
    requires
        packable(x as int, y as int, z as int),
        short.len() < 4,
    ensures
        spec_convert_c2s(packet(
            0x1F,
            u64_field(legacy_bits(x as int, y as int, z as int)) + varint_field(face)
                + varint_field(hand) + u32_field(cx) + u32_field(cy) + short,
        )) == Outcome::Passthrough,
{
    broadcast use fields_read;
}

/// These packets toward the server go no further.
pub proof fn c2s_dropped(b: Seq<u8>)
    ensures
        spec_convert_c2s(packet(0x10, b)) == Outcome::Drop,
        spec_convert_c2s(packet(0x11, b)) == Outcome::Drop,
        spec_convert_c2s(packet(0x12, b)) == Outcome::Drop,
        spec_convert_c2s(packet(0x17, b)) == Outcome::Drop,
        spec_convert_c2s(packet(0x18, b)) == Outcome::Drop,
        spec_convert_c2s(packet(0x19, b)) == Outcome::Drop,
        spec_convert_c2s(packet(0x1E, b)) == Outcome::Drop,
        spec_convert_c2s(packet(0x00, b)) == Outcome::Drop,
        spec_convert_c2s(packet(0x20, b)) == Outcome::Drop,
{
    broadcast use fields_read;
}

/// All other packets toward the server are left alone.
pub proof fn c2s_others_left_alone(id: u8, b: Seq<u8>)
    requires
        id != 0x00 && id != 0x01 && id != 0x02 && id != 0x03 && id != 0x04 && id != 0x05 &&
        id != 0x06 && id != 0x07 && id != 0x08 && id != 0x09 && id != 0x0A && id != 0x0B &&
        id != 0x0C && id != 0x0E && id != 0x0F && id != 0x10 && id != 0x11 && id != 0x12 &&
        id != 0x13 && id != 0x14 && id != 0x15 && id != 0x16 && id != 0x17 && id != 0x18 &&
        id != 0x19 && id != 0x1A && id != 0x1B && id != 0x1C && id != 0x1D && id != 0x1E &&
        id != 0x1F && id != 0x20,
    ensures
        spec_convert_c2s(packet(id, b)) == Outcome::Passthrough,
{
    broadcast use fields_read;
}

/// PluginMessage: the bytes stand behind their count, and the brand has its older channel. More
/// than 32767 bytes go no further.
pub proof fn s2c_plugin_message(channel: Seq<char>, data: Seq<u8>)
    requires
        sendable(channel),
        sendable("minecraft:brand"@),
    ensures
        data.len() <= 0x7FFF && channel != "minecraft:brand"@ ==> spec_convert_s2c(
            packet(0x18, text_field(channel) + data),
        ) == converted(0xFA, ucs2_string(channel) + be_i16(data.len() as i16) + data),
        data.len() <= 0x7FFF ==> spec_convert_s2c(packet(0x18, text_field("minecraft:brand"@) + data))
            == converted(0xFA, ucs2_string("MC|Brand"@) + be_i16(data.len() as i16) + data),
        data.len() > 0x7FFF ==> spec_convert_s2c(packet(0x18, text_field(channel) + data)) == Outcome::Drop,
{
    broadcast use fields_read;
}

/// SpawnPlayer: the name is made of the lower halves of the unique id, the coordinates become
/// 32nds of a block, cut off, and the player holds nothing.
#[verifier::rlimit(60)]
pub proof fn s2c_spawn_player(
    entity_id: i32,
    uuid_hi: i64,
    uuid_lo: i64,
    x: u64,
    y: u64,
    z: u64,
    yaw: u8,
    pitch: u8,
    rest: Seq<u8>,
)
    ensures
        spec_convert_s2c(
            packet(
                0x05,
                varint_field(entity_id) + i64_field(uuid_hi) + i64_field(uuid_lo) + u64_field(x) + u64_field(y)
                    + u64_field(z) + seq![yaw] + seq![pitch] + rest,
            ),
        ) == converted(
            0x14,
            be_i32(entity_id) + ucs2_string(
                "p_"@ + hex(uuid_hi as u32 as nat) + hex(uuid_lo as u32 as nat),
            ) + be_i32(fixed_cut(x)) + be_i32(fixed_cut(y)) + be_i32(fixed_cut(z)) + be_i8(yaw as i8) + be_i8(
                pitch as i8,
            ) + be_i16(0) + seq![0x7Fu8],
        ),
{
    broadcast use fields_read;

    let b = varint_field(entity_id) + i64_field(uuid_hi) + i64_field(uuid_lo) + u64_field(x) + u64_field(y)
        + u64_field(z) + seq![yaw] + seq![pitch] + rest;
    let p: int = varint_field(entity_id).len() as int;
    assert(varint_at(b, 0) == Some((entity_id, p)));
    assert(i64_at(b, p) == uuid_hi);
    assert(i64_at(b, p + 8) == uuid_lo);
    assert(u64_at(b, p + 16) == x);
    assert(u64_at(b, p + 24) == y);
    assert(u64_at(b, p + 32) == z);
    assert(b[p + 40] == yaw);
    assert(b[p + 41] == pitch);
}

/// SpawnObject: the coordinates become 32nds of a block, rounded. Only an object with data and
/// a speed behind it keeps the speed.
#[verifier::rlimit(60)]
pub proof fn s2c_spawn_object(
    entity_id: i32,
    kind: u8,
    x: u64,
    y: u64,
    z: u64,
    yaw: u8,
    pitch: u8,
    data: i32,
    vx: i16,
    vy: i16,
    vz: i16,
    rest: Seq<u8>,
)
    ensures
        ({
            let b = varint_field(entity_id) + seq![kind] + u64_field(x) + u64_field(y) + u64_field(z) + seq![yaw]
                + seq![pitch] + i32_field(data);
            let base = be_i32(entity_id) + seq![kind] + be_i32(fixed_rounded(x)) + be_i32(fixed_rounded(y))
                + be_i32(fixed_rounded(z)) + seq![yaw] + seq![pitch] + be_i32(data);
            &&& data > 0 ==> spec_convert_s2c(
                packet(0x00, b + i16_field(vx) + i16_field(vy) + i16_field(vz) + rest),
            ) == converted(0x17, base + be_i16(vx) + be_i16(vy) + be_i16(vz))
            &&& data <= 0 ==> spec_convert_s2c(packet(0x00, b + rest)) == converted(0x17, base)
        }),
{
    broadcast use fields_read;

    let b = varint_field(entity_id) + seq![kind] + u64_field(x) + u64_field(y) + u64_field(z) + seq![yaw]
        + seq![pitch] + i32_field(data);
    let p: int = varint_field(entity_id).len() as int;
    assert(varint_at(b, 0) == Some((entity_id, p)));
    assert(b[p] == kind);
    assert(u64_at(b, p + 1) == x);
    assert(u64_at(b, p + 9) == y);
    assert(u64_at(b, p + 17) == z);
    assert(b[p + 25] == yaw);
    assert(b[p + 26] == pitch);
    assert(i32_at(b, p + 27) == data);
}

/// EntityEffect: the duration is held between 0 and 32767.
pub proof fn s2c_entity_effect(entity_id: i32, effect: i8, amplifier: i8, duration: i32, rest: Seq<u8>)
    ensures
        spec_convert_s2c(
            packet(
                0x4F,
                varint_field(entity_id) + i8_field(effect) + i8_field(amplifier) + varint_field(duration) + rest,
            ),
        ) == converted(
            0x29,
            be_i32(entity_id) + be_i8(effect) + be_i8(amplifier) + be_i16(
                if duration < 0 {
                    0
                } else if duration > 32767 {
                    32767
                } else {
                    duration as i16
                },
            ),
        ),
{
    broadcast use fields_read;
}

/// SetExperience: the level and the total are held between 0 and 32767.
pub proof fn s2c_set_experience(bar: u32, level: i32, total: i32, rest: Seq<u8>)
    ensures
        spec_convert_s2c(packet(0x40, u32_field(bar) + varint_field(level) + varint_field(total) + rest))
            == converted(
            0x2B,
            be32(bar) + be_i16(
                if level < 0 {
                    0
                } else if level > 32767 {
                    32767
                } else {
                    level as i16
                },
            ) + be_i16(
                if total < 0 {
                    0
                } else if total > 32767 {
                    32767
                } else {
                    total as i16
                },
            ),
        ),
{
    broadcast use fields_read;
}

/// EntityEquipment goes no further.
pub proof fn s2c_entity_equipment(entity_id: i32, slot: i32, rest: Seq<u8>)
    ensures
        spec_convert_s2c(packet(0x3F, varint_field(entity_id) + varint_field(slot) + rest)) == Outcome::Drop,
{
    broadcast use fields_read;
}

/// DestroyEntities: the count becomes a byte and the ids 32 bits wide, in order. More than 127
/// go no further.
#[verifier::rlimit(60)]
pub proof fn s2c_destroy_entities(a: i32, b: i32, count: i32, rest: Seq<u8>)
    ensures
        spec_convert_s2c(packet(0x32, varint_field(0) + rest)) == converted(0x1D, be_i8(0)),
        spec_convert_s2c(packet(0x32, varint_field(1) + varint_field(a) + rest)) == converted(
            0x1D,
            be_i8(1) + be_i32(a),
        ),
        spec_convert_s2c(packet(0x32, varint_field(2) + varint_field(a) + varint_field(b) + rest))
            == converted(0x1D, be_i8(2) + (be_i32(a) + be_i32(b))),
        count < 0 || count > 127 ==> spec_convert_s2c(packet(0x32, varint_field(count) + rest))
            == Outcome::Drop,
{
    broadcast use fields_read;

    reveal_with_fuel(varints_as_i32, 3);
    assert(Seq::<u8>::empty() + be_i32(a) =~= be_i32(a));
    assert(be_i8(0) + Seq::<u8>::empty() =~= be_i8(0));
}

/// A row of ids goes on with the next one.
pub proof fn ids_in_turn(b: Seq<u8>, p: int, n: nat, out: Seq<u8>, q: int, x: i32, end: int)
    requires
        varints_as_i32(b, p, n) == Some((out, q)),
        varint_at(b, q) == Some((x, end)),
    ensures
        varints_as_i32(b, p, n + 1) == Some((out + be_i32(x), end)),
        varints_as_i32(b, p, 0) == Some((Seq::<u8>::empty(), p)),
{
}

/// OpenWindow: the name becomes a kind, and a horse's window ends in the horse's id behind a
/// mark.
pub proof fn s2c_open_window(
    window: u8,
    name: Seq<char>,
    title: Seq<char>,
    slots: u8,
    horse: i32,
    rest: Seq<u8>,
    kind: u8,
)
    requires
        sendable(name),
        sendable(title),
        name == "minecraft:crafting_table"@ ==> kind == 1,
        name == "minecraft:furnace"@ ==> kind == 2,
        name == "minecraft:dispenser"@ ==> kind == 3,
        name == "minecraft:enchanting_table"@ ==> kind == 4,
        name == "minecraft:brewing_stand"@ ==> kind == 5,
        name == "minecraft:villager"@ ==> kind == 6,
        name == "minecraft:beacon"@ ==> kind == 7,
        name == "minecraft:anvil"@ ==> kind == 8,
        name == "minecraft:hopper"@ ==> kind == 9,
        name == "minecraft:dropper"@ ==> kind == 10,
        name == "EntityHorse"@ ==> kind == 11,
        name != "minecraft:crafting_table"@ && name != "minecraft:furnace"@ && name
            != "minecraft:dispenser"@ && name != "minecraft:enchanting_table"@ && name
            != "minecraft:brewing_stand"@ && name != "minecraft:villager"@ && name
            != "minecraft:beacon"@ && name != "minecraft:anvil"@ && name != "minecraft:hopper"@ && name
            != "minecraft:dropper"@ && name != "EntityHorse"@ ==> kind == 0,
    ensures
        kind != 11 ==> spec_convert_s2c(
            packet(0x13, seq![window] + text_field(name) + text_field(title) + seq![slots] + rest),
        ) == converted(0x64, seq![window] + seq![kind] + ucs2_string(title) + seq![slots]),
        kind == 11 ==> spec_convert_s2c(
            packet(
                0x13,
                seq![window] + text_field(name) + text_field(title) + seq![slots] + i32_field(horse) + rest,
            ),
        ) == converted(
            0x64,
            seq![window] + seq![kind] + ucs2_string(title) + seq![slots] + seq![1u8] + be_i32(horse),
        ),
{
    broadcast use fields_read;
}

/// WindowItems: every slot is empty, which is an id of -1.
#[verifier::rlimit(60)]
pub proof fn s2c_window_items(window: u8, count: i16, rest: Seq<u8>, short: Seq<u8>)
    ensures
        ({
            let o = spec_convert_s2c(packet(0x14, seq![window] + i16_field(count) + rest));
            let v = o->Converted_0;
            &&& o is Converted
            &&& v.len() == 1
            &&& count >= 0 ==> v[0].len() == 4 + 2 * count
            &&& v[0].take(4) == packet(0x68, seq![window] + be_i16(count))
            &&& forall|i: int| 4 <= i < v[0].len() ==> v[0][i] == 0xFF
        }),
        short.len() < 3 ==> spec_convert_s2c(packet(0x14, short)) == Outcome::Passthrough,
{
    broadcast use fields_read;

    let n = times(count as int);
    slots_are_empty(n);
    let head = seq![window] + be_i16(count);
    let all = packet(0x68, head + empty_slots(n));
    assert(varint(0x68) =~= seq![0x68u8]);
    assert(all.len() == 4 + 2 * n);
    assert(all.take(4) =~= packet(0x68, head));
    assert forall|i: int| 4 <= i < all.len() implies all[i] == 0xFF by {
        assert(all[i] == empty_slots(n)[i - 4]);
    }
}

/// Empty slots are rows of bytes that are all ones.
proof fn slots_are_empty(n: nat)
    ensures
        empty_slots(n).len() == 2 * n,
        forall|i: int| 0 <= i < 2 * n ==> empty_slots(n)[i] == 0xFF,
    decreases n,
{
    if n > 0 {
        slots_are_empty((n - 1) as nat);
        assert((-1i16) as u16 == 0xFFFF) by (bit_vector);
    }
}

/// Statistics: each name and its value, in order.
pub proof fn s2c_statistics(first: Seq<char>, a: i32, second: Seq<char>, b: i32, rest: Seq<u8>)
    requires
        sendable(first),
        sendable(second),
    ensures
        spec_convert_s2c(packet(0x07, varint_field(1) + text_field(first) + varint_field(a) + rest))
            == converted(0xC8, be_i32(1) + (ucs2_string(first) + be_i32(a))),
        spec_convert_s2c(
            packet(
                0x07,
                varint_field(2) + text_field(first) + varint_field(a) + text_field(second) + varint_field(b) + rest,
            ),
        ) == converted(
            0xC8,
            be_i32(2) + (ucs2_string(first) + be_i32(a) + (ucs2_string(second) + be_i32(b))),
        ),
{
    broadcast use fields_read;

    reveal_with_fuel(statistics_at, 3);
    let one = ucs2_string(first) + be_i32(a);
    assert(Seq::<u8>::empty() + one =~= one);
}

/// TabComplete: the proposals become one text with a zero character between them.
pub proof fn s2c_tab_complete(first: Seq<char>, second: Seq<char>, rest: Seq<u8>)
    requires
        sendable(first),
        sendable(second),
    ensures
        spec_convert_s2c(packet(0x0E, varint_field(0) + rest)) == converted(
            0xCB,
            ucs2_string(Seq::<char>::empty()),
        ),
        spec_convert_s2c(packet(0x0E, varint_field(1) + text_field(first) + rest)) == converted(
            0xCB,
            ucs2_string(first),
        ),
        spec_convert_s2c(packet(0x0E, varint_field(2) + text_field(first) + text_field(second) + rest))
            == converted(0xCB, ucs2_string(first + "\0"@ + second)),
{
    broadcast use fields_read;

    reveal_with_fuel(joined_texts, 3);
}

/// ScoreboardObjective: one that is made or changed keeps its text and its kind, which is
/// "integer" where it is missing; one that is removed has neither.
pub proof fn s2c_scoreboard_obj(
    name: Seq<char>,
    mode: u8,
    display: Seq<char>,
    kind: Seq<char>,
    rest: Seq<u8>,
)
    requires
        sendable(name),
        sendable(display),
        sendable(kind),
    ensures
        mode == 0 || mode == 2 ==> spec_convert_s2c(
            packet(0x42, text_field(name) + seq![mode] + text_field(display) + text_field(kind) + rest),
        ) == converted(
            0xCE,
            ucs2_string(name) + seq![mode] + ucs2_string(display) + ucs2_string(kind),
        ),
        mode == 0 || mode == 2 ==> spec_convert_s2c(
            packet(0x42, text_field(name) + seq![mode] + text_field(display)),
        ) == converted(
            0xCE,
            ucs2_string(name) + seq![mode] + ucs2_string(display) + ucs2_string("integer"@),
        ),
        mode == 1 || mode > 2 ==> spec_convert_s2c(packet(0x42, text_field(name) + seq![mode] + rest))
            == converted(0xCE, ucs2_string(name) + seq![mode]),
{
    broadcast use fields_read;

    let b = text_field(name) + seq![mode] + text_field(display);
    assert(string_at(b, b.len() as int) is None);
}

/// Teams: one that is changed keeps its text, what stands before and behind the names of its
/// members, its flags and its colour; what says who sees names and who collides is dropped.
#[verifier::rlimit(80)]
pub proof fn s2c_teams_changed(
    name: Seq<char>,
    display: Seq<char>,
    before: Seq<char>,
    behind: Seq<char>,
    flags: u8,
    tags: Seq<char>,
    collision: Seq<char>,
    color: u8,
    rest: Seq<u8>,
)
    requires
        sendable(name),
        sendable(display),
        sendable(before),
        sendable(behind),
        sendable(tags),
        sendable(collision),
    ensures
        spec_convert_s2c(
            packet(
                0x44,
                text_field(name) + seq![2u8] + text_field(display) + text_field(before) + text_field(behind)
                    + seq![flags] + text_field(tags) + text_field(collision) + seq![color] + rest,
            ),
        ) == converted(
            0xD1,
            ucs2_string(name) + seq![2u8] + (ucs2_string(display) + ucs2_string(before) + ucs2_string(behind)
                + seq![flags] + seq![color] + seq![flags]),
        ),
{
    broadcast use fields_read;

    let b = text_field(name) + seq![2u8] + text_field(display) + text_field(before) + text_field(behind)
        + seq![flags] + text_field(tags) + text_field(collision) + seq![color] + rest;
    let p1: int = text_field(name).len() as int;
    let p2: int = p1 + 1 + text_field(display).len();
    let p3: int = p2 + text_field(before).len();
    let p4: int = p3 + text_field(behind).len();
    let p5: int = p4 + 1 + text_field(tags).len();
    let p6: int = p5 + text_field(collision).len();
    assert(string_at(b, 0) == Some((name, p1)));
    assert(b[p1] == 2);
    assert(string_at(b, p1 + 1) == Some((display, p2)));
    assert(string_at(b, p2) == Some((before, p3)));
    assert(string_at(b, p3) == Some((behind, p4)));
    assert(b[p4] == flags);
    assert(string_at(b, p4 + 1) == Some((tags, p5)));
    assert(string_at(b, p5) == Some((collision, p6)));
    assert(b[p6] == color);
    let details = ucs2_string(display) + ucs2_string(before) + ucs2_string(behind) + seq![flags] + seq![color]
        + seq![flags];
    assert(team_details(b, p1 + 1).0 == details);
    let changed = ucs2_string(name) + seq![2u8] + details;
    assert(changed + Seq::<u8>::empty() =~= changed);
}

/// Teams: the members of one that get or lose it follow behind their count. One that is removed
/// has nothing more.
#[verifier::rlimit(60)]
pub proof fn s2c_teams_members(name: Seq<char>, mode: u8, member: Seq<char>, rest: Seq<u8>)
    requires
        sendable(name),
        sendable(member),
    ensures
        mode == 3 || mode == 4 ==> spec_convert_s2c(
            packet(0x44, text_field(name) + seq![mode] + varint_field(1) + text_field(member) + rest),
        ) == converted(0xD1, ucs2_string(name) + seq![mode] + (varint(1) + ucs2_string(member))),
        mode == 1 || mode > 4 ==> spec_convert_s2c(packet(0x44, text_field(name) + seq![mode] + rest))
            == converted(0xD1, ucs2_string(name) + seq![mode]),
{
    broadcast use fields_read;

    reveal_with_fuel(members_at, 2);
    let bare = ucs2_string(name) + seq![mode];
    assert(bare + Seq::<u8>::empty() =~= bare);
    assert(Seq::<u8>::empty() + ucs2_string(member) =~= ucs2_string(member));
}

/// Explosion: the count becomes 32 bits wide, and all the rest stays in its order.
#[verifier::rlimit(60)]
pub proof fn s2c_explosion(
    x: u32,
    y: u32,
    z: u32,
    radius: u32,
    dx: i8,
    dy: i8,
    dz: i8,
    px: u32,
    py: u32,
    pz: u32,
    rest: Seq<u8>,
)
    ensures
        spec_convert_s2c(
            packet(
                0x1C,
                u32_field(x) + u32_field(y) + u32_field(z) + u32_field(radius) + varint_field(1) + i8_field(dx)
                    + i8_field(dy) + i8_field(dz) + u32_field(px) + u32_field(py) + u32_field(pz) + rest,
            ),
        ) == converted(
            0x3C,
            be32(x) + be32(y) + be32(z) + be32(radius) + be_i32(1) + (be_i8(dx) + be_i8(dy) + be_i8(dz)) + be32(
                px,
            ) + be32(py) + be32(pz),
        ),
{
    broadcast use fields_read;

    reveal_with_fuel(offsets_at, 2);
    let one = be_i8(dx) + be_i8(dy) + be_i8(dz);
    assert(Seq::<u8>::empty() + one =~= one);
    let b = u32_field(x) + u32_field(y) + u32_field(z) + u32_field(radius) + varint_field(1) + i8_field(dx)
        + i8_field(dy) + i8_field(dz) + u32_field(px) + u32_field(py) + u32_field(pz) + rest;
    let p: int = 16 + varint_field(1).len() as int;
    assert(varint_at(b, 16) == Some((1i32, p)));
    assert(i8_at(b, p) == dx);
    assert(i8_at(b, p + 1) == dy);
    assert(i8_at(b, p + 2) == dz);
    assert(u32_at(b, p + 3) == px);
    assert(u32_at(b, p + 7) == py);
    assert(u32_at(b, p + 11) == pz);
}

/// EntityProperties: the attribute keeps its key and its value, the count of its modifiers
/// becomes 16 bits wide, and each modifier keeps its id, its amount and its operation.
#[verifier::rlimit(80)]
pub proof fn s2c_entity_properties(
    entity_id: i32,
    key: Seq<char>,
    value: u64,
    hi: u64,
    lo: u64,
    amount: u64,
    operation: i8,
    rest: Seq<u8>,
)
    requires
        sendable(key),
    ensures
        spec_convert_s2c(
            packet(
                0x4E,
                varint_field(entity_id) + i32_field(1) + text_field(key) + u64_field(value) + varint_field(1)
                    + u64_field(hi) + u64_field(lo) + u64_field(amount) + i8_field(operation) + rest,
            ),
        ) == converted(
            0x2C,
            be_i32(entity_id) + be_i32(1) + (wire_string(key) + be64(value) + be_i16(1) + (be64(hi) + be64(lo)
                + be64(amount) + be_i8(operation))),
        ),
{
    broadcast use fields_read;

    reveal_with_fuel(attributes_at, 2);
    reveal_with_fuel(modifiers_at, 2);
    let one = be64(hi) + be64(lo) + be64(amount) + be_i8(operation);
    assert(Seq::<u8>::empty() + one =~= one);
    let whole = wire_string(key) + be64(value) + be_i16(1) + one;
    assert(Seq::<u8>::empty() + whole =~= whole);
    let b = varint_field(entity_id) + i32_field(1) + text_field(key) + u64_field(value) + varint_field(1)
        + u64_field(hi) + u64_field(lo) + u64_field(amount) + i8_field(operation) + rest;
    let p: int = varint_field(entity_id).len() as int;
    assert(varint_at(b, 0) == Some((entity_id, p)));
    assert(i32_at(b, p) == 1);
    let q: int = p + 4 + text_field(key).len();
    assert(string_at(b, p + 4) == Some((key, q)));
    assert(u64_at(b, q) == value);
    let r: int = q + 8 + varint_field(1).len();
    assert(varint_at(b, q + 8) == Some((1i32, r)));
    assert(u64_at(b, r) == hi);
    assert(u64_at(b, r + 8) == lo);
    assert(u64_at(b, r + 16) == amount);
    assert(i8_at(b, r + 24) == operation);
    assert(modifiers_at(b, r, 1) == (one, r + 25));
}

/// Chat: a message is cut off behind 100 characters.
pub proof fn c2s_chat(message: Seq<char>, rest: Seq<u8>)
    requires
        sendable(message),
    ensures
        message.len() <= 100 ==> spec_convert_c2s(packet(0x02, text_field(message) + rest)) == converted(
            0x03,
            ucs2_string(message),
        ),
        message.len() > 100 ==> spec_convert_c2s(packet(0x02, text_field(message) + rest)) == converted(
            0x03,
            ucs2_string(message.take(100)),
        ),
{
    broadcast use fields_read;
}

/// ClientSettings: the locale is cut off behind 16 characters, the view distance and the chat
/// mode become bytes, the difficulty is 0 and the cape is shown.
pub proof fn c2s_client_settings(locale: Seq<char>, distance: i8, chat_mode: i32, colors: u8, rest: Seq<u8>)
    requires
        sendable(locale),
    ensures
        spec_convert_c2s(
            packet(
                0x04,
                text_field(locale) + i8_field(distance) + varint_field(chat_mode) + seq![colors] + rest,
            ),
        ) == converted(
            0xCC,
            ucs2_string(
                if locale.len() <= 16 {
                    locale
                } else {
                    locale.take(16)
                },
            ) + be_i8(distance) + be_i8(chat_mode as i8) + be_i8(0) + seq![1u8],
        ),
{
    broadcast use fields_read;
}

/// PluginMessage: the bytes stand behind their count. More than 65535 are left alone.
pub proof fn c2s_plugin_message(channel: Seq<char>, data: Seq<u8>)
    requires
        sendable(channel),
    ensures
        data.len() <= 0xFFFF ==> spec_convert_c2s(packet(0x09, text_field(channel) + data)) == converted(
            0xFA,
            ucs2_string(channel) + be16(data.len() as u16) + data,
        ),
        data.len() > 0xFFFF ==> spec_convert_c2s(packet(0x09, text_field(channel) + data))
            == Outcome::Passthrough,
{
    broadcast use fields_read;
}

/// UpdateSign: the place is unpacked, and each line is cut off behind 15 characters.
#[verifier::rlimit(60)]
pub proof fn c2s_update_sign(
    x: i32,
    y: i32,
    z: i32,
    first: Seq<char>,
    second: Seq<char>,
    third: Seq<char>,
    fourth: Seq<char>,
    rest: Seq<u8>,
)
    requires
        packable(x as int, y as int, z as int),
        sendable(first),
        sendable(second),
        sendable(third),
        sendable(fourth),
        first.len() <= 15,
        second.len() <= 15,
        third.len() > 15,
        fourth.len() <= 15,
    ensures
        spec_convert_c2s(
            packet(
                0x1C,
                u64_field(legacy_bits(x as int, y as int, z as int)) + text_field(first) + text_field(second)
                    + text_field(third) + text_field(fourth) + rest,
            ),
        ) == converted(
            0x82,
            be_i32(x) + be_i16(y as i16) + be_i32(z) + ucs2_string(first) + ucs2_string(second) + ucs2_string(
                third.take(15),
            ) + ucs2_string(fourth),
        ),
{
    broadcast use fields_read;

    let b = u64_field(legacy_bits(x as int, y as int, z as int)) + text_field(first) + text_field(second)
        + text_field(third) + text_field(fourth) + rest;
    let p: int = 8 + text_field(first).len() as int;
    let q: int = p + text_field(second).len();
    let r: int = q + text_field(third).len();
    let s: int = r + text_field(fourth).len();
    assert(u64_at(b, 0) == legacy_bits(x as int, y as int, z as int));
    assert(string_at(b, 8) == Some((first, p)));
    assert(string_at(b, p) == Some((second, q)));
    assert(string_at(b, q) == Some((third, r)));
    assert(string_at(b, r) == Some((fourth, s)));
}

} // verus!
