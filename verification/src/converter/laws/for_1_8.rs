//! What becomes of the packets of later releases for 1.8, field by field.

use crate::converter::items::older_items;
use crate::converter::laws::fields::{
    fields_read, i16_field, i32_field, i64_field, i8_field, sendable, text_field, u32_field,
    u64_field, varint_field,
};
use crate::converter::modern_to_v1_8::spec_convert_s2c;
use crate::converter::outcome::{Outcome, converted, packet};
use crate::flattening::{ItemFlatteningTable, older_item};
use crate::number::{double_of_fixed, fixed_rounded, over_128, thirty_seconds_survive, volume_steps};
use crate::position::{legacy_bits, packable};
use crate::text::{string_at, wire_string};
use crate::varint::{varint, varint_at};
use crate::wire::{
    be32, be64, be_i16, be_i32, be_i64, be_i8, i16_at, i32_at, i64_at, i8_at, u32_at, u64_at,
};
use vstd::prelude::*;

verus! {

/// SpawnObject: the type keeps its low eight bits.
#[verifier::rlimit(80)]
pub proof fn s2c_spawn_object(
    entity_id: i32,
    uuid_hi: i64,
    uuid_lo: i64,
    kind: i32,
    x: u64,
    y: u64,
    z: u64,
    yaw: u8,
    pitch: u8,
    data: i32,
    vx: i16,
    vy: i16,
    vz: i16,
    rest: Seq<u8>,
    server_proto: u32,
    t: ItemFlatteningTable,
)
    requires
        107 <= server_proto < 735,
    ensures
        spec_convert_s2c(packet(
            0x00,
            varint_field(entity_id) + i64_field(uuid_hi) + i64_field(uuid_lo) + varint_field(kind)
                + u64_field(x) + u64_field(y) + u64_field(z) + seq![yaw] + seq![pitch] + i32_field(data)
                + i16_field(vx) + i16_field(vy) + i16_field(vz) + rest,
        ), server_proto, t) == converted(
            0x0E,
            varint(entity_id) + be_i64(uuid_hi) + be_i64(uuid_lo) + be_i8(kind as i8) + be64(x)
                + be64(y) + be64(z) + seq![yaw] + seq![pitch] + be_i32(data) + be_i16(vx) + be_i16(vy)
                + be_i16(vz),
        ),
{
    broadcast use fields_read;
    let b = varint_field(entity_id) + i64_field(uuid_hi) + i64_field(uuid_lo) + varint_field(kind)
            + u64_field(x) + u64_field(y) + u64_field(z) + seq![yaw] + seq![pitch] + i32_field(data)
            + i16_field(vx) + i16_field(vy) + i16_field(vz) + rest;
    let p1: int = varint_field(entity_id).len() as int;
    assert(varint_at(b, 0) == Some((entity_id, p1)));
    assert(i64_at(b, p1) == uuid_hi);
    assert(i64_at(b, p1 + 8) == uuid_lo);
    let p2: int = p1 + 16 + varint_field(kind).len();
    assert(varint_at(b, p1 + 16) == Some((kind, p2)));
    assert(u64_at(b, p2) == x);
    assert(u64_at(b, p2 + 8) == y);
    assert(u64_at(b, p2 + 16) == z);
    assert(b[p2 + 24] == yaw);
    assert(b[p2 + 25] == pitch);
    assert(i32_at(b, p2 + 26) == data);
    assert(i16_at(b, p2 + 30) == vx);
    assert(i16_at(b, p2 + 32) == vy);
    assert(i16_at(b, p2 + 34) == vz);
}

/// SpawnObject: what is missing at the end has its default.
#[verifier::rlimit(80)]
pub proof fn s2c_spawn_object_defaults(
    entity_id: i32,
    uuid_hi: i64,
    uuid_lo: i64,
    kind: i32,
    x: u64,
    y: u64,
    z: u64,
    yaw: u8,
    pitch: u8,
    data: i32,
    server_proto: u32,
    t: ItemFlatteningTable,
)
    requires
        107 <= server_proto < 735,
    ensures
        spec_convert_s2c(packet(
            0x00,
            varint_field(entity_id) + i64_field(uuid_hi) + i64_field(uuid_lo) + varint_field(kind)
                + u64_field(x) + u64_field(y) + u64_field(z) + seq![yaw] + seq![pitch] + i32_field(data),
        ), server_proto, t) == converted(
            0x0E,
            varint(entity_id) + be_i64(uuid_hi) + be_i64(uuid_lo) + be_i8(kind as i8) + be64(x)
                + be64(y) + be64(z) + seq![yaw] + seq![pitch] + be_i32(data) + be_i16(0i16)
                + be_i16(0i16) + be_i16(0i16),
        ),
{
    broadcast use fields_read;
    let b = varint_field(entity_id) + i64_field(uuid_hi) + i64_field(uuid_lo) + varint_field(kind)
            + u64_field(x) + u64_field(y) + u64_field(z) + seq![yaw] + seq![pitch] + i32_field(data);
    let p1: int = varint_field(entity_id).len() as int;
    assert(varint_at(b, 0) == Some((entity_id, p1)));
    assert(i64_at(b, p1) == uuid_hi);
    assert(i64_at(b, p1 + 8) == uuid_lo);
    let p2: int = p1 + 16 + varint_field(kind).len();
    assert(varint_at(b, p1 + 16) == Some((kind, p2)));
    assert(u64_at(b, p2) == x);
    assert(u64_at(b, p2 + 8) == y);
    assert(u64_at(b, p2 + 16) == z);
    assert(b[p2 + 24] == yaw);
    assert(b[p2 + 25] == pitch);
    assert(i32_at(b, p2 + 26) == data);
}

/// SpawnExperienceOrb: the coordinates become 32nds of a block, rounded.
pub proof fn s2c_spawn_exp_orb(
    entity_id: i32,
    x: u64,
    y: u64,
    z: u64,
    count: i16,
    rest: Seq<u8>,
    server_proto: u32,
    t: ItemFlatteningTable,
)
    requires
        107 <= server_proto < 735,
    ensures
        spec_convert_s2c(packet(
            0x01,
            varint_field(entity_id) + u64_field(x) + u64_field(y) + u64_field(z) + i16_field(count)
                + rest,
        ), server_proto, t) == converted(
            0x11,
            varint(entity_id) + be_i32(fixed_rounded(x)) + be_i32(fixed_rounded(y))
                + be_i32(fixed_rounded(z)) + be_i16(count),
        ),
{
    broadcast use fields_read;
}

/// SpawnExperienceOrb: one that ends before its last field is left alone.
pub proof fn s2c_spawn_exp_orb_cut_off(
    entity_id: i32,
    x: u64,
    y: u64,
    short: Seq<u8>,
    server_proto: u32,
    t: ItemFlatteningTable,
)
    requires
        107 <= server_proto < 735,
        short.len() < 8,
    ensures
        spec_convert_s2c(packet(
            0x01,
            varint_field(entity_id) + u64_field(x) + u64_field(y) + short,
        ), server_proto, t) == Outcome::Passthrough,
{
    broadcast use fields_read;
}

/// SpawnExperienceOrb: what is missing at the end has its default.
pub proof fn s2c_spawn_exp_orb_defaults(
    entity_id: i32,
    x: u64,
    y: u64,
    z: u64,
    server_proto: u32,
    t: ItemFlatteningTable,
)
    requires
        107 <= server_proto < 735,
    ensures
        spec_convert_s2c(packet(
            0x01,
            varint_field(entity_id) + u64_field(x) + u64_field(y) + u64_field(z),
        ), server_proto, t) == converted(
            0x11,
            varint(entity_id) + be_i32(fixed_rounded(x)) + be_i32(fixed_rounded(y))
                + be_i32(fixed_rounded(z)) + be_i16(1i16),
        ),
{
    broadcast use fields_read;
}

/// SpawnGlobalEntity: the coordinates become 32nds of a block, rounded.
pub proof fn s2c_spawn_global(
    entity_id: i32,
    kind: u8,
    x: u64,
    y: u64,
    z: u64,
    rest: Seq<u8>,
    server_proto: u32,
    t: ItemFlatteningTable,
)
    requires
        107 <= server_proto < 735,
    ensures
        spec_convert_s2c(packet(
            0x02,
            varint_field(entity_id) + seq![kind] + u64_field(x) + u64_field(y) + u64_field(z) + rest,
        ), server_proto, t) == converted(
            0x2C,
            varint(entity_id) + seq![kind] + be_i32(fixed_rounded(x)) + be_i32(fixed_rounded(y))
                + be_i32(fixed_rounded(z)),
        ),
{
    broadcast use fields_read;
}

/// SpawnMob: the type keeps its low eight bits, the coordinates become 32nds of a block,
/// rounded, and the metadata is empty.
#[verifier::rlimit(80)]
pub proof fn s2c_spawn_mob(
    entity_id: i32,
    uuid_hi: i64,
    uuid_lo: i64,
    kind: i32,
    x: u64,
    y: u64,
    z: u64,
    yaw: u8,
    pitch: u8,
    head_pitch: u8,
    vx: i16,
    vy: i16,
    vz: i16,
    rest: Seq<u8>,
    server_proto: u32,
    t: ItemFlatteningTable,
)
    requires
        107 <= server_proto < 735,
    ensures
        spec_convert_s2c(packet(
            0x03,
            varint_field(entity_id) + i64_field(uuid_hi) + i64_field(uuid_lo) + varint_field(kind)
                + u64_field(x) + u64_field(y) + u64_field(z) + seq![yaw] + seq![pitch]
                + seq![head_pitch] + i16_field(vx) + i16_field(vy) + i16_field(vz) + rest,
        ), server_proto, t) == converted(
            0x0F,
            varint(entity_id) + be_i64(uuid_hi) + be_i64(uuid_lo) + seq![kind as u8]
                + be_i32(fixed_rounded(x)) + be_i32(fixed_rounded(y)) + be_i32(fixed_rounded(z))
                + seq![yaw] + seq![pitch] + seq![head_pitch] + be_i16(vx) + be_i16(vy) + be_i16(vz)
                + seq![0x7Fu8],
        ),
{
    broadcast use fields_read;
    let b = varint_field(entity_id) + i64_field(uuid_hi) + i64_field(uuid_lo) + varint_field(kind)
            + u64_field(x) + u64_field(y) + u64_field(z) + seq![yaw] + seq![pitch] + seq![head_pitch]
            + i16_field(vx) + i16_field(vy) + i16_field(vz) + rest;
    let p1: int = varint_field(entity_id).len() as int;
    assert(varint_at(b, 0) == Some((entity_id, p1)));
    assert(i64_at(b, p1) == uuid_hi);
    assert(i64_at(b, p1 + 8) == uuid_lo);
    let p2: int = p1 + 16 + varint_field(kind).len();
    assert(varint_at(b, p1 + 16) == Some((kind, p2)));
    assert(u64_at(b, p2) == x);
    assert(u64_at(b, p2 + 8) == y);
    assert(u64_at(b, p2 + 16) == z);
    assert(b[p2 + 24] == yaw);
    assert(b[p2 + 25] == pitch);
    assert(b[p2 + 26] == head_pitch);
    assert(i16_at(b, p2 + 27) == vx);
    assert(i16_at(b, p2 + 29) == vy);
    assert(i16_at(b, p2 + 31) == vz);
}

/// SpawnMob: one that ends before its last field is left alone.
#[verifier::rlimit(60)]
pub proof fn s2c_spawn_mob_cut_off(
    entity_id: i32,
    uuid_hi: i64,
    uuid_lo: i64,
    kind: i32,
    x: u64,
    y: u64,
    short: Seq<u8>,
    server_proto: u32,
    t: ItemFlatteningTable,
)
    requires
        107 <= server_proto < 735,
        short.len() < 8,
    ensures
        spec_convert_s2c(packet(
            0x03,
            varint_field(entity_id) + i64_field(uuid_hi) + i64_field(uuid_lo) + varint_field(kind)
                + u64_field(x) + u64_field(y) + short,
        ), server_proto, t) == Outcome::Passthrough,
{
    broadcast use fields_read;
}

/// SpawnMob: what is missing at the end has its default.
#[verifier::rlimit(80)]
pub proof fn s2c_spawn_mob_defaults(
    entity_id: i32,
    uuid_hi: i64,
    uuid_lo: i64,
    kind: i32,
    x: u64,
    y: u64,
    z: u64,
    server_proto: u32,
    t: ItemFlatteningTable,
)
    requires
        107 <= server_proto < 735,
    ensures
        spec_convert_s2c(packet(
            0x03,
            varint_field(entity_id) + i64_field(uuid_hi) + i64_field(uuid_lo) + varint_field(kind)
                + u64_field(x) + u64_field(y) + u64_field(z),
        ), server_proto, t) == converted(
            0x0F,
            varint(entity_id) + be_i64(uuid_hi) + be_i64(uuid_lo) + seq![kind as u8]
                + be_i32(fixed_rounded(x)) + be_i32(fixed_rounded(y)) + be_i32(fixed_rounded(z))
                + seq![0u8] + seq![0u8] + seq![0u8] + be_i16(0i16) + be_i16(0i16) + be_i16(0i16)
                + seq![0x7Fu8],
        ),
{
    broadcast use fields_read;
    let b = varint_field(entity_id) + i64_field(uuid_hi) + i64_field(uuid_lo) + varint_field(kind)
            + u64_field(x) + u64_field(y) + u64_field(z);
    let p1: int = varint_field(entity_id).len() as int;
    assert(varint_at(b, 0) == Some((entity_id, p1)));
    assert(i64_at(b, p1) == uuid_hi);
    assert(i64_at(b, p1 + 8) == uuid_lo);
    let p2: int = p1 + 16 + varint_field(kind).len();
    assert(varint_at(b, p1 + 16) == Some((kind, p2)));
    assert(u64_at(b, p2) == x);
    assert(u64_at(b, p2 + 8) == y);
    assert(u64_at(b, p2 + 16) == z);
}

/// SpawnPlayer: the coordinates become 32nds of a block, rounded, no item is held, and the
/// metadata is empty.
#[verifier::rlimit(80)]
pub proof fn s2c_spawn_player(
    entity_id: i32,
    uuid_hi: i64,
    uuid_lo: i64,
    x: u64,
    y: u64,
    z: u64,
    yaw: u8,
    pitch: u8,
    rest: Seq<u8>,
    server_proto: u32,
    t: ItemFlatteningTable,
)
    requires
        107 <= server_proto < 735,
    ensures
        spec_convert_s2c(packet(
            0x05,
            varint_field(entity_id) + i64_field(uuid_hi) + i64_field(uuid_lo) + u64_field(x)
                + u64_field(y) + u64_field(z) + seq![yaw] + seq![pitch] + rest,
        ), server_proto, t) == converted(
            0x0C,
            varint(entity_id) + be_i64(uuid_hi) + be_i64(uuid_lo) + be_i32(fixed_rounded(x))
                + be_i32(fixed_rounded(y)) + be_i32(fixed_rounded(z)) + seq![yaw] + seq![pitch]
                + be_i16(0i16) + seq![0x7Fu8],
        ),
{
    broadcast use fields_read;
    let b = varint_field(entity_id) + i64_field(uuid_hi) + i64_field(uuid_lo) + u64_field(x) + u64_field(y)
            + u64_field(z) + seq![yaw] + seq![pitch] + rest;
    let p1: int = varint_field(entity_id).len() as int;
    assert(varint_at(b, 0) == Some((entity_id, p1)));
    assert(i64_at(b, p1) == uuid_hi);
    assert(i64_at(b, p1 + 8) == uuid_lo);
    assert(u64_at(b, p1 + 16) == x);
    assert(u64_at(b, p1 + 24) == y);
    assert(u64_at(b, p1 + 32) == z);
    assert(b[p1 + 40] == yaw);
    assert(b[p1 + 41] == pitch);
}

/// SpawnPlayer: one that ends before its last field is left alone.
#[verifier::rlimit(60)]
pub proof fn s2c_spawn_player_cut_off(
    entity_id: i32,
    uuid_hi: i64,
    uuid_lo: i64,
    x: u64,
    y: u64,
    short: Seq<u8>,
    server_proto: u32,
    t: ItemFlatteningTable,
)
    requires
        107 <= server_proto < 735,
        short.len() < 8,
    ensures
        spec_convert_s2c(packet(
            0x05,
            varint_field(entity_id) + i64_field(uuid_hi) + i64_field(uuid_lo) + u64_field(x)
                + u64_field(y) + short,
        ), server_proto, t) == Outcome::Passthrough,
{
    broadcast use fields_read;
}

/// SpawnPlayer: what is missing at the end has its default.
#[verifier::rlimit(80)]
pub proof fn s2c_spawn_player_defaults(
    entity_id: i32,
    uuid_hi: i64,
    uuid_lo: i64,
    x: u64,
    y: u64,
    z: u64,
    server_proto: u32,
    t: ItemFlatteningTable,
)
    requires
        107 <= server_proto < 735,
    ensures
        spec_convert_s2c(packet(
            0x05,
            varint_field(entity_id) + i64_field(uuid_hi) + i64_field(uuid_lo) + u64_field(x)
                + u64_field(y) + u64_field(z),
        ), server_proto, t) == converted(
            0x0C,
            varint(entity_id) + be_i64(uuid_hi) + be_i64(uuid_lo) + be_i32(fixed_rounded(x))
                + be_i32(fixed_rounded(y)) + be_i32(fixed_rounded(z)) + seq![0u8] + seq![0u8]
                + be_i16(0i16) + seq![0x7Fu8],
        ),
{
    broadcast use fields_read;
    let b = varint_field(entity_id) + i64_field(uuid_hi) + i64_field(uuid_lo) + u64_field(x) + u64_field(y)
            + u64_field(z);
    let p1: int = varint_field(entity_id).len() as int;
    assert(varint_at(b, 0) == Some((entity_id, p1)));
    assert(i64_at(b, p1) == uuid_hi);
    assert(i64_at(b, p1 + 8) == uuid_lo);
    assert(u64_at(b, p1 + 16) == x);
    assert(u64_at(b, p1 + 24) == y);
    assert(u64_at(b, p1 + 32) == z);
}

/// NamedSoundEffect: the category keeps its low eight bits, and the volume becomes 63rds,
/// rounded and held in eight bits.
#[verifier::rlimit(80)]
pub proof fn s2c_named_sound(
    name: Seq<char>,
    category: i32,
    x: i32,
    y: i32,
    z: i32,
    volume: u32,
    pitch: u8,
    rest: Seq<u8>,
    server_proto: u32,
    t: ItemFlatteningTable,
)
    requires
        107 <= server_proto < 735,
        sendable(name),
    ensures
        spec_convert_s2c(packet(
            0x19,
            text_field(name) + varint_field(category) + i32_field(x) + i32_field(y) + i32_field(z)
                + u32_field(volume) + seq![pitch] + rest,
        ), server_proto, t) == converted(
            0x29,
            wire_string(name) + seq![category as u8] + be_i32(x) + be_i32(y) + be_i32(z)
                + seq![volume_steps(volume)] + seq![pitch],
        ),
{
    broadcast use fields_read;
    let b = text_field(name) + varint_field(category) + i32_field(x) + i32_field(y) + i32_field(z)
            + u32_field(volume) + seq![pitch] + rest;
    let p1: int = text_field(name).len() as int;
    assert(string_at(b, 0) == Some((name, p1)));
    let p2: int = p1 + varint_field(category).len();
    assert(varint_at(b, p1) == Some((category, p2)));
    assert(i32_at(b, p2) == x);
    assert(i32_at(b, p2 + 4) == y);
    assert(i32_at(b, p2 + 8) == z);
    assert(u32_at(b, p2 + 12) == volume);
    assert(b[p2 + 16] == pitch);
}

/// NamedSoundEffect: one that ends before its last field is left alone.
#[verifier::rlimit(60)]
pub proof fn s2c_named_sound_cut_off(
    name: Seq<char>,
    category: i32,
    x: i32,
    y: i32,
    z: i32,
    short: Seq<u8>,
    server_proto: u32,
    t: ItemFlatteningTable,
)
    requires
        107 <= server_proto < 735,
        sendable(name),
        short.len() < 4,
    ensures
        spec_convert_s2c(packet(
            0x19,
            text_field(name) + varint_field(category) + i32_field(x) + i32_field(y) + i32_field(z)
                + short,
        ), server_proto, t) == Outcome::Passthrough,
{
    broadcast use fields_read;
}

/// NamedSoundEffect: what is missing at the end has its default.
#[verifier::rlimit(80)]
pub proof fn s2c_named_sound_defaults(
    name: Seq<char>,
    category: i32,
    x: i32,
    y: i32,
    z: i32,
    volume: u32,
    server_proto: u32,
    t: ItemFlatteningTable,
)
    requires
        107 <= server_proto < 735,
        sendable(name),
    ensures
        spec_convert_s2c(packet(
            0x19,
            text_field(name) + varint_field(category) + i32_field(x) + i32_field(y) + i32_field(z)
                + u32_field(volume),
        ), server_proto, t) == converted(
            0x29,
            wire_string(name) + seq![category as u8] + be_i32(x) + be_i32(y) + be_i32(z)
                + seq![volume_steps(volume)] + seq![63u8],
        ),
{
    broadcast use fields_read;
    let b = text_field(name) + varint_field(category) + i32_field(x) + i32_field(y) + i32_field(z)
            + u32_field(volume);
    let p1: int = text_field(name).len() as int;
    assert(string_at(b, 0) == Some((name, p1)));
    let p2: int = p1 + varint_field(category).len();
    assert(varint_at(b, p1) == Some((category, p2)));
    assert(i32_at(b, p2) == x);
    assert(i32_at(b, p2 + 4) == y);
    assert(i32_at(b, p2 + 8) == z);
    assert(u32_at(b, p2 + 12) == volume);
}

/// KeepAlive: the low 32 bits of the id become variable-length.
pub proof fn s2c_keep_alive_long_to_varint(
    id: i64,
    rest: Seq<u8>,
    server_proto: u32,
    t: ItemFlatteningTable,
)
    requires
        107 <= server_proto < 735,
    ensures
        spec_convert_s2c(packet(
            0x1F,
            i64_field(id) + rest,
        ), server_proto, t) == converted(
            0x00,
            varint(id as i32),
        ),
{
    broadcast use fields_read;
}

/// KeepAlive: one that ends before its last field is left alone.
pub proof fn s2c_keep_alive_long_to_varint_cut_off(
    short: Seq<u8>,
    server_proto: u32,
    t: ItemFlatteningTable,
)
    requires
        107 <= server_proto < 735,
        short.len() < 8,
    ensures
        spec_convert_s2c(packet(
            0x1F,
            short,
        ), server_proto, t) == Outcome::Passthrough,
{
    broadcast use fields_read;
}

/// JoinGame: the dimension keeps its low eight bits. What is missing behind the game mode has a
/// default.
#[verifier::rlimit(80)]
pub proof fn s2c_join_game(
    entity_id: i32,
    game_mode: u8,
    dimension: i32,
    difficulty: u8,
    max_players: u8,
    level_type: Seq<char>,
    reduced_debug: u8,
    rest: Seq<u8>,
    server_proto: u32,
    t: ItemFlatteningTable,
)
    requires
        107 <= server_proto < 735,
        sendable(level_type),
    ensures
        spec_convert_s2c(packet(
            0x23,
            i32_field(entity_id) + seq![game_mode] + i32_field(dimension) + seq![difficulty]
                + seq![max_players] + text_field(level_type) + seq![reduced_debug] + rest,
        ), server_proto, t) == converted(
            0x01,
            be_i32(entity_id) + seq![game_mode] + be_i8(dimension as i8) + seq![difficulty]
                + seq![max_players] + wire_string(level_type) + seq![reduced_debug],
        ),
{
    broadcast use fields_read;
    let b = i32_field(entity_id) + seq![game_mode] + i32_field(dimension) + seq![difficulty]
            + seq![max_players] + text_field(level_type) + seq![reduced_debug] + rest;
    assert(i32_at(b, 0) == entity_id);
    assert(b[4] == game_mode);
    assert(i32_at(b, 5) == dimension);
    assert(b[9] == difficulty);
    assert(b[10] == max_players);
    let p1: int = (11 + text_field(level_type).len()) as int;
    assert(string_at(b, 11) == Some((level_type, p1)));
    assert(b[p1] == reduced_debug);
}

/// JoinGame: one that ends before its last field is left alone.
pub proof fn s2c_join_game_cut_off(entity_id: i32, server_proto: u32, t: ItemFlatteningTable)
    requires
        107 <= server_proto < 735,
    ensures
        spec_convert_s2c(packet(
            0x23,
            i32_field(entity_id),
        ), server_proto, t) == Outcome::Passthrough,
{
    broadcast use fields_read;
}

/// JoinGame: what is missing at the end has its default.
#[verifier::rlimit(80)]
pub proof fn s2c_join_game_defaults(
    entity_id: i32,
    game_mode: u8,
    server_proto: u32,
    t: ItemFlatteningTable,
)
    requires
        107 <= server_proto < 735,
    ensures
        spec_convert_s2c(packet(
            0x23,
            i32_field(entity_id) + seq![game_mode],
        ), server_proto, t) == converted(
            0x01,
            be_i32(entity_id) + seq![game_mode] + be_i8(0i32 as i8) + seq![2u8] + seq![100u8]
                + wire_string("default"@) + seq![0u8],
        ),
{
    broadcast use fields_read;
}

/// PlayerPositionAndLook: the teleport id is dropped.
#[verifier::rlimit(80)]
pub proof fn s2c_player_pos_look(
    x: u64,
    y: u64,
    z: u64,
    yaw: u32,
    pitch: u32,
    flags: u8,
    rest: Seq<u8>,
    server_proto: u32,
    t: ItemFlatteningTable,
)
    requires
        107 <= server_proto < 735,
    ensures
        spec_convert_s2c(packet(
            0x2F,
            u64_field(x) + u64_field(y) + u64_field(z) + u32_field(yaw) + u32_field(pitch) + seq![flags]
                + rest,
        ), server_proto, t) == converted(
            0x08,
            be64(x) + be64(y) + be64(z) + be32(yaw) + be32(pitch) + seq![flags],
        ),
{
    broadcast use fields_read;
}

/// PlayerPositionAndLook: one that ends before its last field is left alone.
#[verifier::rlimit(60)]
pub proof fn s2c_player_pos_look_cut_off(
    x: u64,
    y: u64,
    z: u64,
    yaw: u32,
    short: Seq<u8>,
    server_proto: u32,
    t: ItemFlatteningTable,
)
    requires
        107 <= server_proto < 735,
        short.len() < 4,
    ensures
        spec_convert_s2c(packet(
            0x2F,
            u64_field(x) + u64_field(y) + u64_field(z) + u32_field(yaw) + short,
        ), server_proto, t) == Outcome::Passthrough,
{
    broadcast use fields_read;
}

/// PlayerPositionAndLook: what is missing at the end has its default.
pub proof fn s2c_player_pos_look_defaults(
    x: u64,
    y: u64,
    z: u64,
    yaw: u32,
    pitch: u32,
    server_proto: u32,
    t: ItemFlatteningTable,
)
    requires
        107 <= server_proto < 735,
    ensures
        spec_convert_s2c(packet(
            0x2F,
            u64_field(x) + u64_field(y) + u64_field(z) + u32_field(yaw) + u32_field(pitch),
        ), server_proto, t) == converted(
            0x08,
            be64(x) + be64(y) + be64(z) + be32(yaw) + be32(pitch) + seq![0u8],
        ),
{
    broadcast use fields_read;
}

/// Respawn: the dimension keeps its low eight bits. What is missing has a default.
#[verifier::rlimit(80)]
pub proof fn s2c_respawn(
    dimension: i32,
    difficulty: u8,
    game_mode: u8,
    level_type: Seq<char>,
    rest: Seq<u8>,
    server_proto: u32,
    t: ItemFlatteningTable,
)
    requires
        107 <= server_proto < 735,
        sendable(level_type),
    ensures
        spec_convert_s2c(packet(
            0x35,
            i32_field(dimension) + seq![difficulty] + seq![game_mode] + text_field(level_type) + rest,
        ), server_proto, t) == converted(
            0x07,
            be_i8(dimension as i8) + seq![difficulty] + seq![game_mode] + wire_string(level_type),
        ),
{
    broadcast use fields_read;
    let b = i32_field(dimension) + seq![difficulty] + seq![game_mode] + text_field(level_type) + rest;
    assert(i32_at(b, 0) == dimension);
    assert(b[4] == difficulty);
    assert(b[5] == game_mode);
    let p1: int = (6 + text_field(level_type).len()) as int;
    assert(string_at(b, 6) == Some((level_type, p1)));
}

/// Respawn: what is missing at the end has its default.
#[verifier::rlimit(80)]
pub proof fn s2c_respawn_defaults(server_proto: u32, t: ItemFlatteningTable)
    requires
        107 <= server_proto < 735,
    ensures
        spec_convert_s2c(packet(
            0x35,
            Seq::<u8>::empty(),
        ), server_proto, t) == converted(
            0x07,
            be_i8(0i32 as i8) + seq![2u8] + seq![0u8] + wire_string("default"@),
        ),
{
    broadcast use fields_read;
}

/// CollectItem: the count is dropped.
pub proof fn s2c_collect_item(
    collected: i32,
    collector: i32,
    rest: Seq<u8>,
    server_proto: u32,
    t: ItemFlatteningTable,
)
    requires
        107 <= server_proto < 735,
    ensures
        spec_convert_s2c(packet(
            0x4B,
            varint_field(collected) + varint_field(collector) + rest,
        ), server_proto, t) == converted(
            0x0D,
            varint(collected) + varint(collector),
        ),
{
    broadcast use fields_read;
}

/// CollectItem: one that ends before its last field is left alone.
pub proof fn s2c_collect_item_cut_off(collected: i32, server_proto: u32, t: ItemFlatteningTable)
    requires
        107 <= server_proto < 735,
    ensures
        spec_convert_s2c(packet(
            0x4B,
            varint_field(collected),
        ), server_proto, t) == Outcome::Passthrough,
{
    broadcast use fields_read;
}

/// EntityTeleport: the coordinates become 32nds of a block, rounded.
#[verifier::rlimit(80)]
pub proof fn s2c_entity_teleport(
    entity_id: i32,
    x: u64,
    y: u64,
    z: u64,
    yaw: u8,
    pitch: u8,
    on_ground: u8,
    rest: Seq<u8>,
    server_proto: u32,
    t: ItemFlatteningTable,
)
    requires
        107 <= server_proto < 735,
    ensures
        spec_convert_s2c(packet(
            0x4C,
            varint_field(entity_id) + u64_field(x) + u64_field(y) + u64_field(z) + seq![yaw]
                + seq![pitch] + seq![on_ground] + rest,
        ), server_proto, t) == converted(
            0x18,
            varint(entity_id) + be_i32(fixed_rounded(x)) + be_i32(fixed_rounded(y))
                + be_i32(fixed_rounded(z)) + seq![yaw] + seq![pitch] + seq![on_ground],
        ),
{
    broadcast use fields_read;
}

/// EntityTeleport: one that ends before its last field is left alone.
pub proof fn s2c_entity_teleport_cut_off(
    entity_id: i32,
    x: u64,
    y: u64,
    short: Seq<u8>,
    server_proto: u32,
    t: ItemFlatteningTable,
)
    requires
        107 <= server_proto < 735,
        short.len() < 8,
    ensures
        spec_convert_s2c(packet(
            0x4C,
            varint_field(entity_id) + u64_field(x) + u64_field(y) + short,
        ), server_proto, t) == Outcome::Passthrough,
{
    broadcast use fields_read;
}

/// EntityTeleport: what is missing at the end has its default.
pub proof fn s2c_entity_teleport_defaults(
    entity_id: i32,
    x: u64,
    y: u64,
    z: u64,
    server_proto: u32,
    t: ItemFlatteningTable,
)
    requires
        107 <= server_proto < 735,
    ensures
        spec_convert_s2c(packet(
            0x4C,
            varint_field(entity_id) + u64_field(x) + u64_field(y) + u64_field(z),
        ), server_proto, t) == converted(
            0x18,
            varint(entity_id) + be_i32(fixed_rounded(x)) + be_i32(fixed_rounded(y))
                + be_i32(fixed_rounded(z)) + seq![0u8] + seq![0u8] + seq![1u8],
        ),
{
    broadcast use fields_read;
}

/// These packets toward the client keep their bodies and change their ids.
pub proof fn s2c_bodies_kept(b: Seq<u8>, server_proto: u32, t: ItemFlatteningTable)
    requires
        107 <= server_proto < 735,
    ensures
        spec_convert_s2c(packet(0x04, b), server_proto, t) == converted(0x10, b),
        spec_convert_s2c(packet(0x06, b), server_proto, t) == converted(0x0B, b),
        spec_convert_s2c(packet(0x07, b), server_proto, t) == converted(0x37, b),
        spec_convert_s2c(packet(0x08, b), server_proto, t) == converted(0x25, b),
        spec_convert_s2c(packet(0x09, b), server_proto, t) == converted(0x35, b),
        spec_convert_s2c(packet(0x0A, b), server_proto, t) == converted(0x24, b),
        spec_convert_s2c(packet(0x0D, b), server_proto, t) == converted(0x41, b),
        spec_convert_s2c(packet(0x0E, b), server_proto, t) == converted(0x3A, b),
        spec_convert_s2c(packet(0x0F, b), server_proto, t) == converted(0x02, b),
        spec_convert_s2c(packet(0x10, b), server_proto, t) == converted(0x22, b),
        spec_convert_s2c(packet(0x11, b), server_proto, t) == converted(0x32, b),
        spec_convert_s2c(packet(0x12, b), server_proto, t) == converted(0x2E, b),
        spec_convert_s2c(packet(0x13, b), server_proto, t) == converted(0x2D, b),
        spec_convert_s2c(packet(0x15, b), server_proto, t) == converted(0x31, b),
        spec_convert_s2c(packet(0x18, b), server_proto, t) == converted(0x3F, b),
        spec_convert_s2c(packet(0x1A, b), server_proto, t) == converted(0x40, b),
        spec_convert_s2c(packet(0x1B, b), server_proto, t) == converted(0x1A, b),
        spec_convert_s2c(packet(0x1C, b), server_proto, t) == converted(0x27, b),
        spec_convert_s2c(packet(0x1E, b), server_proto, t) == converted(0x2B, b),
        spec_convert_s2c(packet(0x20, b), server_proto, t) == converted(0x21, b),
        spec_convert_s2c(packet(0x21, b), server_proto, t) == converted(0x28, b),
        spec_convert_s2c(packet(0x22, b), server_proto, t) == converted(0x2A, b),
        spec_convert_s2c(packet(0x24, b), server_proto, t) == converted(0x34, b),
        spec_convert_s2c(packet(0x27, b), server_proto, t) == converted(0x16, b),
        spec_convert_s2c(packet(0x28, b), server_proto, t) == converted(0x14, b),
        spec_convert_s2c(packet(0x2A, b), server_proto, t) == converted(0x36, b),
        spec_convert_s2c(packet(0x2C, b), server_proto, t) == converted(0x39, b),
        spec_convert_s2c(packet(0x2D, b), server_proto, t) == converted(0x42, b),
        spec_convert_s2c(packet(0x2E, b), server_proto, t) == converted(0x38, b),
        spec_convert_s2c(packet(0x30, b), server_proto, t) == converted(0x0A, b),
        spec_convert_s2c(packet(0x32, b), server_proto, t) == converted(0x13, b),
        spec_convert_s2c(packet(0x33, b), server_proto, t) == converted(0x1E, b),
        spec_convert_s2c(packet(0x34, b), server_proto, t) == converted(0x48, b),
        spec_convert_s2c(packet(0x36, b), server_proto, t) == converted(0x19, b),
        spec_convert_s2c(packet(0x38, b), server_proto, t) == converted(0x44, b),
        spec_convert_s2c(packet(0x39, b), server_proto, t) == converted(0x43, b),
        spec_convert_s2c(packet(0x3A, b), server_proto, t) == converted(0x09, b),
        spec_convert_s2c(packet(0x3B, b), server_proto, t) == converted(0x3D, b),
        spec_convert_s2c(packet(0x3C, b), server_proto, t) == converted(0x1C, b),
        spec_convert_s2c(packet(0x3D, b), server_proto, t) == converted(0x1B, b),
        spec_convert_s2c(packet(0x3E, b), server_proto, t) == converted(0x12, b),
        spec_convert_s2c(packet(0x40, b), server_proto, t) == converted(0x1F, b),
        spec_convert_s2c(packet(0x41, b), server_proto, t) == converted(0x06, b),
        spec_convert_s2c(packet(0x42, b), server_proto, t) == converted(0x3B, b),
        spec_convert_s2c(packet(0x44, b), server_proto, t) == converted(0x3E, b),
        spec_convert_s2c(packet(0x45, b), server_proto, t) == converted(0x3C, b),
        spec_convert_s2c(packet(0x46, b), server_proto, t) == converted(0x05, b),
        spec_convert_s2c(packet(0x47, b), server_proto, t) == converted(0x03, b),
        spec_convert_s2c(packet(0x48, b), server_proto, t) == converted(0x45, b),
        spec_convert_s2c(packet(0x49, b), server_proto, t) == converted(0x29, b),
        spec_convert_s2c(packet(0x4A, b), server_proto, t) == converted(0x47, b),
        spec_convert_s2c(packet(0x4E, b), server_proto, t) == converted(0x20, b),
        spec_convert_s2c(packet(0x4F, b), server_proto, t) == converted(0x1D, b),
{
    broadcast use fields_read;
}

/// These packets toward the client go no further.
pub proof fn s2c_dropped(b: Seq<u8>, server_proto: u32, t: ItemFlatteningTable)
    requires
        107 <= server_proto < 735,
    ensures
        spec_convert_s2c(packet(0x0C, b), server_proto, t) == Outcome::Drop,
        spec_convert_s2c(packet(0x17, b), server_proto, t) == Outcome::Drop,
        spec_convert_s2c(packet(0x1D, b), server_proto, t) == Outcome::Drop,
        spec_convert_s2c(packet(0x29, b), server_proto, t) == Outcome::Drop,
        spec_convert_s2c(packet(0x2B, b), server_proto, t) == Outcome::Drop,
        spec_convert_s2c(packet(0x31, b), server_proto, t) == Outcome::Drop,
        spec_convert_s2c(packet(0x37, b), server_proto, t) == Outcome::Drop,
        spec_convert_s2c(packet(0x43, b), server_proto, t) == Outcome::Drop,
        spec_convert_s2c(packet(0x4D, b), server_proto, t) == Outcome::Drop,
{
    broadcast use fields_read;
}

/// All other packets toward the client are left alone.
pub proof fn s2c_others_left_alone(id: u8, b: Seq<u8>, server_proto: u32, t: ItemFlatteningTable)
    requires
        107 <= server_proto < 735,
        id != 0x00 && id != 0x01 && id != 0x02 && id != 0x03 && id != 0x04 && id != 0x05 &&
        id != 0x06 && id != 0x07 && id != 0x08 && id != 0x09 && id != 0x0A && id != 0x0B &&
        id != 0x0C && id != 0x0D && id != 0x0E && id != 0x0F && id != 0x10 && id != 0x11 &&
        id != 0x12 && id != 0x13 && id != 0x14 && id != 0x15 && id != 0x16 && id != 0x17 &&
        id != 0x18 && id != 0x19 && id != 0x1A && id != 0x1B && id != 0x1C && id != 0x1D &&
        id != 0x1E && id != 0x1F && id != 0x20 && id != 0x21 && id != 0x22 && id != 0x23 &&
        id != 0x24 && id != 0x25 && id != 0x26 && id != 0x27 && id != 0x28 && id != 0x29 &&
        id != 0x2A && id != 0x2B && id != 0x2C && id != 0x2D && id != 0x2E && id != 0x2F &&
        id != 0x30 && id != 0x31 && id != 0x32 && id != 0x33 && id != 0x34 && id != 0x35 &&
        id != 0x36 && id != 0x37 && id != 0x38 && id != 0x39 && id != 0x3A && id != 0x3B &&
        id != 0x3C && id != 0x3D && id != 0x3E && id != 0x3F && id != 0x40 && id != 0x41 &&
        id != 0x42 && id != 0x43 && id != 0x44 && id != 0x45 && id != 0x46 && id != 0x47 &&
        id != 0x48 && id != 0x49 && id != 0x4A && id != 0x4B && id != 0x4C && id != 0x4D &&
        id != 0x4E && id != 0x4F,
    ensures
        spec_convert_s2c(packet(id, b), server_proto, t) == Outcome::Passthrough,
{
    broadcast use fields_read;
}

/// KeepAlive: the low 32 bits of the id become variable-length.
pub proof fn v16_s2c_keep_alive_long_to_varint(
    id: i64,
    rest: Seq<u8>,
    server_proto: u32,
    t: ItemFlatteningTable,
)
    requires
        735 <= server_proto < 759,
    ensures
        spec_convert_s2c(packet(
            0x1F,
            i64_field(id) + rest,
        ), server_proto, t) == converted(
            0x00,
            varint(id as i32),
        ),
{
    broadcast use fields_read;
}

/// KeepAlive: one that ends before its last field is left alone.
pub proof fn v16_s2c_keep_alive_long_to_varint_cut_off(
    short: Seq<u8>,
    server_proto: u32,
    t: ItemFlatteningTable,
)
    requires
        735 <= server_proto < 759,
        short.len() < 8,
    ensures
        spec_convert_s2c(packet(
            0x1F,
            short,
        ), server_proto, t) == Outcome::Passthrough,
{
    broadcast use fields_read;
}

/// JoinGame: the dimension keeps its low eight bits. What is missing behind the game mode has a
/// default.
#[verifier::rlimit(80)]
pub proof fn v16_s2c_join_game(
    entity_id: i32,
    game_mode: u8,
    dimension: i32,
    difficulty: u8,
    max_players: u8,
    level_type: Seq<char>,
    reduced_debug: u8,
    rest: Seq<u8>,
    server_proto: u32,
    t: ItemFlatteningTable,
)
    requires
        735 <= server_proto < 759,
        sendable(level_type),
    ensures
        spec_convert_s2c(packet(
            0x24,
            i32_field(entity_id) + seq![game_mode] + i32_field(dimension) + seq![difficulty]
                + seq![max_players] + text_field(level_type) + seq![reduced_debug] + rest,
        ), server_proto, t) == converted(
            0x01,
            be_i32(entity_id) + seq![game_mode] + be_i8(dimension as i8) + seq![difficulty]
                + seq![max_players] + wire_string(level_type) + seq![reduced_debug],
        ),
{
    broadcast use fields_read;
    let b = i32_field(entity_id) + seq![game_mode] + i32_field(dimension) + seq![difficulty]
            + seq![max_players] + text_field(level_type) + seq![reduced_debug] + rest;
    assert(i32_at(b, 0) == entity_id);
    assert(b[4] == game_mode);
    assert(i32_at(b, 5) == dimension);
    assert(b[9] == difficulty);
    assert(b[10] == max_players);
    let p1: int = (11 + text_field(level_type).len()) as int;
    assert(string_at(b, 11) == Some((level_type, p1)));
    assert(b[p1] == reduced_debug);
}

/// JoinGame: one that ends before its last field is left alone.
pub proof fn v16_s2c_join_game_cut_off(entity_id: i32, server_proto: u32, t: ItemFlatteningTable)
    requires
        735 <= server_proto < 759,
    ensures
        spec_convert_s2c(packet(
            0x24,
            i32_field(entity_id),
        ), server_proto, t) == Outcome::Passthrough,
{
    broadcast use fields_read;
}

/// JoinGame: what is missing at the end has its default.
#[verifier::rlimit(80)]
pub proof fn v16_s2c_join_game_defaults(
    entity_id: i32,
    game_mode: u8,
    server_proto: u32,
    t: ItemFlatteningTable,
)
    requires
        735 <= server_proto < 759,
    ensures
        spec_convert_s2c(packet(
            0x24,
            i32_field(entity_id) + seq![game_mode],
        ), server_proto, t) == converted(
            0x01,
            be_i32(entity_id) + seq![game_mode] + be_i8(0i32 as i8) + seq![2u8] + seq![100u8]
                + wire_string("default"@) + seq![0u8],
        ),
{
    broadcast use fields_read;
}

/// Chat of 1.16.5: the sender is dropped.
pub proof fn s2c_1_16_chat(
    json: Seq<char>,
    position: u8,
    rest: Seq<u8>,
    server_proto: u32,
    t: ItemFlatteningTable,
)
    requires
        735 <= server_proto < 759,
        sendable(json),
    ensures
        spec_convert_s2c(packet(
            0x0E,
            text_field(json) + seq![position] + rest,
        ), server_proto, t) == converted(
            0x02,
            wire_string(json) + seq![position],
        ),
{
    broadcast use fields_read;
}

/// Chat of 1: one that ends before its last field is left alone.
pub proof fn s2c_1_16_chat_cut_off(server_proto: u32, t: ItemFlatteningTable)
    requires
        735 <= server_proto < 759,
    ensures
        spec_convert_s2c(packet(
            0x0E,
            Seq::<u8>::empty(),
        ), server_proto, t) == Outcome::Passthrough,
{
    broadcast use fields_read;
}

/// Chat of 1: what is missing at the end has its default.
pub proof fn s2c_1_16_chat_defaults(json: Seq<char>, server_proto: u32, t: ItemFlatteningTable)
    requires
        735 <= server_proto < 759,
        sendable(json),
    ensures
        spec_convert_s2c(packet(
            0x0E,
            text_field(json),
        ), server_proto, t) == converted(
            0x02,
            wire_string(json) + seq![0u8],
        ),
{
    broadcast use fields_read;
}

/// Respawn: the dimension keeps its low eight bits. What is missing has a default.
#[verifier::rlimit(80)]
pub proof fn v16_s2c_respawn(
    dimension: i32,
    difficulty: u8,
    game_mode: u8,
    level_type: Seq<char>,
    rest: Seq<u8>,
    server_proto: u32,
    t: ItemFlatteningTable,
)
    requires
        735 <= server_proto < 759,
        sendable(level_type),
    ensures
        spec_convert_s2c(packet(
            0x39,
            i32_field(dimension) + seq![difficulty] + seq![game_mode] + text_field(level_type) + rest,
        ), server_proto, t) == converted(
            0x07,
            be_i8(dimension as i8) + seq![difficulty] + seq![game_mode] + wire_string(level_type),
        ),
{
    broadcast use fields_read;
    let b = i32_field(dimension) + seq![difficulty] + seq![game_mode] + text_field(level_type) + rest;
    assert(i32_at(b, 0) == dimension);
    assert(b[4] == difficulty);
    assert(b[5] == game_mode);
    let p1: int = (6 + text_field(level_type).len()) as int;
    assert(string_at(b, 6) == Some((level_type, p1)));
}

/// Respawn: what is missing at the end has its default.
#[verifier::rlimit(80)]
pub proof fn v16_s2c_respawn_defaults(server_proto: u32, t: ItemFlatteningTable)
    requires
        735 <= server_proto < 759,
    ensures
        spec_convert_s2c(packet(
            0x39,
            Seq::<u8>::empty(),
        ), server_proto, t) == converted(
            0x07,
            be_i8(0i32 as i8) + seq![2u8] + seq![0u8] + wire_string("default"@),
        ),
{
    broadcast use fields_read;
}

/// PlayerPositionAndLook: the teleport id is dropped.
#[verifier::rlimit(80)]
pub proof fn v16_s2c_player_pos_look(
    x: u64,
    y: u64,
    z: u64,
    yaw: u32,
    pitch: u32,
    flags: u8,
    rest: Seq<u8>,
    server_proto: u32,
    t: ItemFlatteningTable,
)
    requires
        735 <= server_proto < 759,
    ensures
        spec_convert_s2c(packet(
            0x34,
            u64_field(x) + u64_field(y) + u64_field(z) + u32_field(yaw) + u32_field(pitch) + seq![flags]
                + rest,
        ), server_proto, t) == converted(
            0x08,
            be64(x) + be64(y) + be64(z) + be32(yaw) + be32(pitch) + seq![flags],
        ),
{
    broadcast use fields_read;
}

/// PlayerPositionAndLook: one that ends before its last field is left alone.
#[verifier::rlimit(60)]
pub proof fn v16_s2c_player_pos_look_cut_off(
    x: u64,
    y: u64,
    z: u64,
    yaw: u32,
    short: Seq<u8>,
    server_proto: u32,
    t: ItemFlatteningTable,
)
    requires
        735 <= server_proto < 759,
        short.len() < 4,
    ensures
        spec_convert_s2c(packet(
            0x34,
            u64_field(x) + u64_field(y) + u64_field(z) + u32_field(yaw) + short,
        ), server_proto, t) == Outcome::Passthrough,
{
    broadcast use fields_read;
}

/// PlayerPositionAndLook: what is missing at the end has its default.
pub proof fn v16_s2c_player_pos_look_defaults(
    x: u64,
    y: u64,
    z: u64,
    yaw: u32,
    pitch: u32,
    server_proto: u32,
    t: ItemFlatteningTable,
)
    requires
        735 <= server_proto < 759,
    ensures
        spec_convert_s2c(packet(
            0x34,
            u64_field(x) + u64_field(y) + u64_field(z) + u32_field(yaw) + u32_field(pitch),
        ), server_proto, t) == converted(
            0x08,
            be64(x) + be64(y) + be64(z) + be32(yaw) + be32(pitch) + seq![0u8],
        ),
{
    broadcast use fields_read;
}

/// EntityTeleport: the coordinates become 32nds of a block, rounded.
#[verifier::rlimit(80)]
pub proof fn v16_s2c_entity_teleport(
    entity_id: i32,
    x: u64,
    y: u64,
    z: u64,
    yaw: u8,
    pitch: u8,
    on_ground: u8,
    rest: Seq<u8>,
    server_proto: u32,
    t: ItemFlatteningTable,
)
    requires
        735 <= server_proto < 759,
    ensures
        spec_convert_s2c(packet(
            0x56,
            varint_field(entity_id) + u64_field(x) + u64_field(y) + u64_field(z) + seq![yaw]
                + seq![pitch] + seq![on_ground] + rest,
        ), server_proto, t) == converted(
            0x18,
            varint(entity_id) + be_i32(fixed_rounded(x)) + be_i32(fixed_rounded(y))
                + be_i32(fixed_rounded(z)) + seq![yaw] + seq![pitch] + seq![on_ground],
        ),
{
    broadcast use fields_read;
}

/// EntityTeleport: one that ends before its last field is left alone.
pub proof fn v16_s2c_entity_teleport_cut_off(
    entity_id: i32,
    x: u64,
    y: u64,
    short: Seq<u8>,
    server_proto: u32,
    t: ItemFlatteningTable,
)
    requires
        735 <= server_proto < 759,
        short.len() < 8,
    ensures
        spec_convert_s2c(packet(
            0x56,
            varint_field(entity_id) + u64_field(x) + u64_field(y) + short,
        ), server_proto, t) == Outcome::Passthrough,
{
    broadcast use fields_read;
}

/// EntityTeleport: what is missing at the end has its default.
pub proof fn v16_s2c_entity_teleport_defaults(
    entity_id: i32,
    x: u64,
    y: u64,
    z: u64,
    server_proto: u32,
    t: ItemFlatteningTable,
)
    requires
        735 <= server_proto < 759,
    ensures
        spec_convert_s2c(packet(
            0x56,
            varint_field(entity_id) + u64_field(x) + u64_field(y) + u64_field(z),
        ), server_proto, t) == converted(
            0x18,
            varint(entity_id) + be_i32(fixed_rounded(x)) + be_i32(fixed_rounded(y))
                + be_i32(fixed_rounded(z)) + seq![0u8] + seq![0u8] + seq![1u8],
        ),
{
    broadcast use fields_read;
}

/// NamedSoundEffect: the category keeps its low eight bits, and the volume becomes 63rds,
/// rounded and held in eight bits.
#[verifier::rlimit(80)]
pub proof fn v16_s2c_named_sound(
    name: Seq<char>,
    category: i32,
    x: i32,
    y: i32,
    z: i32,
    volume: u32,
    pitch: u8,
    rest: Seq<u8>,
    server_proto: u32,
    t: ItemFlatteningTable,
)
    requires
        735 <= server_proto < 759,
        sendable(name),
    ensures
        spec_convert_s2c(packet(
            0x18,
            text_field(name) + varint_field(category) + i32_field(x) + i32_field(y) + i32_field(z)
                + u32_field(volume) + seq![pitch] + rest,
        ), server_proto, t) == converted(
            0x29,
            wire_string(name) + seq![category as u8] + be_i32(x) + be_i32(y) + be_i32(z)
                + seq![volume_steps(volume)] + seq![pitch],
        ),
{
    broadcast use fields_read;
    let b = text_field(name) + varint_field(category) + i32_field(x) + i32_field(y) + i32_field(z)
            + u32_field(volume) + seq![pitch] + rest;
    let p1: int = text_field(name).len() as int;
    assert(string_at(b, 0) == Some((name, p1)));
    let p2: int = p1 + varint_field(category).len();
    assert(varint_at(b, p1) == Some((category, p2)));
    assert(i32_at(b, p2) == x);
    assert(i32_at(b, p2 + 4) == y);
    assert(i32_at(b, p2 + 8) == z);
    assert(u32_at(b, p2 + 12) == volume);
    assert(b[p2 + 16] == pitch);
}

/// NamedSoundEffect: one that ends before its last field is left alone.
#[verifier::rlimit(60)]
pub proof fn v16_s2c_named_sound_cut_off(
    name: Seq<char>,
    category: i32,
    x: i32,
    y: i32,
    z: i32,
    short: Seq<u8>,
    server_proto: u32,
    t: ItemFlatteningTable,
)
    requires
        735 <= server_proto < 759,
        sendable(name),
        short.len() < 4,
    ensures
        spec_convert_s2c(packet(
            0x18,
            text_field(name) + varint_field(category) + i32_field(x) + i32_field(y) + i32_field(z)
                + short,
        ), server_proto, t) == Outcome::Passthrough,
{
    broadcast use fields_read;
}

/// NamedSoundEffect: what is missing at the end has its default.
#[verifier::rlimit(80)]
pub proof fn v16_s2c_named_sound_defaults(
    name: Seq<char>,
    category: i32,
    x: i32,
    y: i32,
    z: i32,
    volume: u32,
    server_proto: u32,
    t: ItemFlatteningTable,
)
    requires
        735 <= server_proto < 759,
        sendable(name),
    ensures
        spec_convert_s2c(packet(
            0x18,
            text_field(name) + varint_field(category) + i32_field(x) + i32_field(y) + i32_field(z)
                + u32_field(volume),
        ), server_proto, t) == converted(
            0x29,
            wire_string(name) + seq![category as u8] + be_i32(x) + be_i32(y) + be_i32(z)
                + seq![volume_steps(volume)] + seq![63u8],
        ),
{
    broadcast use fields_read;
    let b = text_field(name) + varint_field(category) + i32_field(x) + i32_field(y) + i32_field(z)
            + u32_field(volume);
    let p1: int = text_field(name).len() as int;
    assert(string_at(b, 0) == Some((name, p1)));
    let p2: int = p1 + varint_field(category).len();
    assert(varint_at(b, p1) == Some((category, p2)));
    assert(i32_at(b, p2) == x);
    assert(i32_at(b, p2 + 4) == y);
    assert(i32_at(b, p2 + 8) == z);
    assert(u32_at(b, p2 + 12) == volume);
}

/// These packets of 1.16 toward the client keep their bodies and change their ids.
pub proof fn v16_bodies_kept(b: Seq<u8>, server_proto: u32, t: ItemFlatteningTable)
    requires
        735 <= server_proto < 759,
    ensures
        spec_convert_s2c(packet(0x2A, b), server_proto, t) == converted(0x16, b),
        spec_convert_s2c(packet(0x37, b), server_proto, t) == converted(0x13, b),
        spec_convert_s2c(packet(0x3B, b), server_proto, t) == converted(0x19, b),
        spec_convert_s2c(packet(0x49, b), server_proto, t) == converted(0x06, b),
        spec_convert_s2c(packet(0x4E, b), server_proto, t) == converted(0x03, b),
        spec_convert_s2c(packet(0x53, b), server_proto, t) == converted(0x47, b),
        spec_convert_s2c(packet(0x46, b), server_proto, t) == converted(0x12, b),
        spec_convert_s2c(packet(0x48, b), server_proto, t) == converted(0x1F, b),
        spec_convert_s2c(packet(0x4B, b), server_proto, t) == converted(0x3B, b),
        spec_convert_s2c(packet(0x4D, b), server_proto, t) == converted(0x3C, b),
        spec_convert_s2c(packet(0x3F, b), server_proto, t) == converted(0x09, b),
        spec_convert_s2c(packet(0x30, b), server_proto, t) == converted(0x39, b),
        spec_convert_s2c(packet(0x42, b), server_proto, t) == converted(0x05, b),
        spec_convert_s2c(packet(0x0D, b), server_proto, t) == converted(0x3A, b),
        spec_convert_s2c(packet(0x19, b), server_proto, t) == converted(0x40, b),
        spec_convert_s2c(packet(0x17, b), server_proto, t) == converted(0x3F, b),
        spec_convert_s2c(packet(0x12, b), server_proto, t) == converted(0x2E, b),
        spec_convert_s2c(packet(0x10, b), server_proto, t) == converted(0x32, b),
        spec_convert_s2c(packet(0x14, b), server_proto, t) == converted(0x31, b),
        spec_convert_s2c(packet(0x2E, b), server_proto, t) == converted(0x38, b),
        spec_convert_s2c(packet(0x1D, b), server_proto, t) == converted(0x2B, b),
        spec_convert_s2c(packet(0x05, b), server_proto, t) == converted(0x0B, b),
        spec_convert_s2c(packet(0x1A, b), server_proto, t) == converted(0x1A, b),
        spec_convert_s2c(packet(0x2B, b), server_proto, t) == converted(0x0A, b),
        spec_convert_s2c(packet(0x44, b), server_proto, t) == converted(0x1C, b),
        spec_convert_s2c(packet(0x3D, b), server_proto, t) == converted(0x1B, b),
        spec_convert_s2c(packet(0x3E, b), server_proto, t) == converted(0x12, b),
        spec_convert_s2c(packet(0x25, b), server_proto, t) == converted(0x34, b),
        spec_convert_s2c(packet(0x2C, b), server_proto, t) == converted(0x39, b),
        spec_convert_s2c(packet(0x41, b), server_proto, t) == converted(0x41, b),
        spec_convert_s2c(packet(0x38, b), server_proto, t) == converted(0x44, b),
        spec_convert_s2c(packet(0x45, b), server_proto, t) == converted(0x45, b),
        spec_convert_s2c(packet(0x0A, b), server_proto, t) == converted(0x24, b),
        spec_convert_s2c(packet(0x09, b), server_proto, t) == converted(0x35, b),
        spec_convert_s2c(packet(0x08, b), server_proto, t) == converted(0x25, b),
        spec_convert_s2c(packet(0x07, b), server_proto, t) == converted(0x37, b),
        spec_convert_s2c(packet(0x2D, b), server_proto, t) == converted(0x42, b),
        spec_convert_s2c(packet(0x21, b), server_proto, t) == converted(0x28, b),
        spec_convert_s2c(packet(0x22, b), server_proto, t) == converted(0x2A, b),
        spec_convert_s2c(packet(0x2F, b), server_proto, t) == converted(0x36, b),
        spec_convert_s2c(packet(0x3C, b), server_proto, t) == converted(0x3B, b),
        spec_convert_s2c(packet(0x26, b), server_proto, t) == converted(0x48, b),
        spec_convert_s2c(packet(0x4F, b), server_proto, t) == converted(0x1D, b),
        spec_convert_s2c(packet(0x33, b), server_proto, t) == converted(0x1E, b),
        spec_convert_s2c(packet(0x4C, b), server_proto, t) == converted(0x0D, b),
        spec_convert_s2c(packet(0x02, b), server_proto, t) == converted(0x2C, b),
        spec_convert_s2c(packet(0x04, b), server_proto, t) == converted(0x10, b),
        spec_convert_s2c(packet(0x11, b), server_proto, t) == converted(0x2E, b),
{
    broadcast use fields_read;
}

/// These packets of 1.16 toward the client go no further.
pub proof fn v16_dropped(b: Seq<u8>, server_proto: u32, t: ItemFlatteningTable)
    requires
        735 <= server_proto < 759,
    ensures
        spec_convert_s2c(packet(0x0C, b), server_proto, t) == Outcome::Drop,
        spec_convert_s2c(packet(0x1C, b), server_proto, t) == Outcome::Drop,
        spec_convert_s2c(packet(0x16, b), server_proto, t) == Outcome::Drop,
        spec_convert_s2c(packet(0x31, b), server_proto, t) == Outcome::Drop,
        spec_convert_s2c(packet(0x23, b), server_proto, t) == Outcome::Drop,
        spec_convert_s2c(packet(0x43, b), server_proto, t) == Outcome::Drop,
{
    broadcast use fields_read;
}

/// All other packets of 1.16 toward the client are left alone.
pub proof fn v16_others_left_alone(id: u8, b: Seq<u8>, server_proto: u32, t: ItemFlatteningTable)
    requires
        735 <= server_proto < 759,
        id != 0x02 && id != 0x04 && id != 0x05 && id != 0x07 && id != 0x08 && id != 0x09 &&
        id != 0x0A && id != 0x0B && id != 0x0C && id != 0x0D && id != 0x0E && id != 0x10 &&
        id != 0x11 && id != 0x12 && id != 0x13 && id != 0x14 && id != 0x15 && id != 0x16 &&
        id != 0x17 && id != 0x18 && id != 0x19 && id != 0x1A && id != 0x1C && id != 0x1D &&
        id != 0x1F && id != 0x21 && id != 0x22 && id != 0x23 && id != 0x24 && id != 0x25 &&
        id != 0x26 && id != 0x28 && id != 0x29 && id != 0x2A && id != 0x2B && id != 0x2C &&
        id != 0x2D && id != 0x2E && id != 0x2F && id != 0x30 && id != 0x31 && id != 0x33 &&
        id != 0x34 && id != 0x37 && id != 0x38 && id != 0x39 && id != 0x3B && id != 0x3C &&
        id != 0x3D && id != 0x3E && id != 0x3F && id != 0x41 && id != 0x42 && id != 0x43 &&
        id != 0x44 && id != 0x45 && id != 0x46 && id != 0x47 && id != 0x48 && id != 0x49 &&
        id != 0x4B && id != 0x4C && id != 0x4D && id != 0x4E && id != 0x4F && id != 0x53 &&
        id != 0x56,
    ensures
        spec_convert_s2c(packet(id, b), server_proto, t) == Outcome::Passthrough,
{
    broadcast use fields_read;
}

/// JoinGame: the dimension keeps its low eight bits. What is missing behind the game mode has a
/// default.
#[verifier::rlimit(80)]
pub proof fn recent_s2c_join_game(
    entity_id: i32,
    game_mode: u8,
    dimension: i32,
    difficulty: u8,
    max_players: u8,
    level_type: Seq<char>,
    reduced_debug: u8,
    rest: Seq<u8>,
    server_proto: u32,
    t: ItemFlatteningTable,
)
    requires
        759 <= server_proto,
        sendable(level_type),
    ensures
        spec_convert_s2c(packet(
            0x28,
            i32_field(entity_id) + seq![game_mode] + i32_field(dimension) + seq![difficulty]
                + seq![max_players] + text_field(level_type) + seq![reduced_debug] + rest,
        ), server_proto, t) == converted(
            0x01,
            be_i32(entity_id) + seq![game_mode] + be_i8(dimension as i8) + seq![difficulty]
                + seq![max_players] + wire_string(level_type) + seq![reduced_debug],
        ),
{
    broadcast use fields_read;
    let b = i32_field(entity_id) + seq![game_mode] + i32_field(dimension) + seq![difficulty]
            + seq![max_players] + text_field(level_type) + seq![reduced_debug] + rest;
    assert(i32_at(b, 0) == entity_id);
    assert(b[4] == game_mode);
    assert(i32_at(b, 5) == dimension);
    assert(b[9] == difficulty);
    assert(b[10] == max_players);
    let p1: int = (11 + text_field(level_type).len()) as int;
    assert(string_at(b, 11) == Some((level_type, p1)));
    assert(b[p1] == reduced_debug);
}

/// JoinGame: one that ends before its last field is left alone.
pub proof fn recent_s2c_join_game_cut_off(entity_id: i32, server_proto: u32, t: ItemFlatteningTable)
    requires
        759 <= server_proto,
    ensures
        spec_convert_s2c(packet(
            0x28,
            i32_field(entity_id),
        ), server_proto, t) == Outcome::Passthrough,
{
    broadcast use fields_read;
}

/// JoinGame: what is missing at the end has its default.
#[verifier::rlimit(80)]
pub proof fn recent_s2c_join_game_defaults(
    entity_id: i32,
    game_mode: u8,
    server_proto: u32,
    t: ItemFlatteningTable,
)
    requires
        759 <= server_proto,
    ensures
        spec_convert_s2c(packet(
            0x28,
            i32_field(entity_id) + seq![game_mode],
        ), server_proto, t) == converted(
            0x01,
            be_i32(entity_id) + seq![game_mode] + be_i8(0i32 as i8) + seq![2u8] + seq![100u8]
                + wire_string("default"@) + seq![0u8],
        ),
{
    broadcast use fields_read;
}

/// PlayerPositionAndLook: the teleport id is dropped.
#[verifier::rlimit(80)]
pub proof fn recent_s2c_player_pos_look(
    x: u64,
    y: u64,
    z: u64,
    yaw: u32,
    pitch: u32,
    flags: u8,
    rest: Seq<u8>,
    server_proto: u32,
    t: ItemFlatteningTable,
)
    requires
        759 <= server_proto,
    ensures
        spec_convert_s2c(packet(
            0x3E,
            u64_field(x) + u64_field(y) + u64_field(z) + u32_field(yaw) + u32_field(pitch) + seq![flags]
                + rest,
        ), server_proto, t) == converted(
            0x08,
            be64(x) + be64(y) + be64(z) + be32(yaw) + be32(pitch) + seq![flags],
        ),
{
    broadcast use fields_read;
}

/// PlayerPositionAndLook: one that ends before its last field is left alone.
#[verifier::rlimit(60)]
pub proof fn recent_s2c_player_pos_look_cut_off(
    x: u64,
    y: u64,
    z: u64,
    yaw: u32,
    short: Seq<u8>,
    server_proto: u32,
    t: ItemFlatteningTable,
)
    requires
        759 <= server_proto,
        short.len() < 4,
    ensures
        spec_convert_s2c(packet(
            0x3E,
            u64_field(x) + u64_field(y) + u64_field(z) + u32_field(yaw) + short,
        ), server_proto, t) == Outcome::Passthrough,
{
    broadcast use fields_read;
}

/// PlayerPositionAndLook: what is missing at the end has its default.
pub proof fn recent_s2c_player_pos_look_defaults(
    x: u64,
    y: u64,
    z: u64,
    yaw: u32,
    pitch: u32,
    server_proto: u32,
    t: ItemFlatteningTable,
)
    requires
        759 <= server_proto,
    ensures
        spec_convert_s2c(packet(
            0x3E,
            u64_field(x) + u64_field(y) + u64_field(z) + u32_field(yaw) + u32_field(pitch),
        ), server_proto, t) == converted(
            0x08,
            be64(x) + be64(y) + be64(z) + be32(yaw) + be32(pitch) + seq![0u8],
        ),
{
    broadcast use fields_read;
}

/// KeepAlive: the low 32 bits of the id become variable-length.
pub proof fn recent_s2c_keep_alive_long_to_varint(
    id: i64,
    rest: Seq<u8>,
    server_proto: u32,
    t: ItemFlatteningTable,
)
    requires
        759 <= server_proto,
    ensures
        spec_convert_s2c(packet(
            0x23,
            i64_field(id) + rest,
        ), server_proto, t) == converted(
            0x00,
            varint(id as i32),
        ),
{
    broadcast use fields_read;
}

/// KeepAlive: one that ends before its last field is left alone.
pub proof fn recent_s2c_keep_alive_long_to_varint_cut_off(
    short: Seq<u8>,
    server_proto: u32,
    t: ItemFlatteningTable,
)
    requires
        759 <= server_proto,
        short.len() < 8,
    ensures
        spec_convert_s2c(packet(
            0x23,
            short,
        ), server_proto, t) == Outcome::Passthrough,
{
    broadcast use fields_read;
}

/// All other packets of 1.19 and later toward the client are left alone.
pub proof fn recent_others_left_alone(id: u8, b: Seq<u8>, server_proto: u32, t: ItemFlatteningTable)
    requires
        759 <= server_proto,
        id != 0x23 && id != 0x28 && id != 0x3E,
    ensures
        spec_convert_s2c(packet(id, b), server_proto, t) == Outcome::Passthrough,
{
    broadcast use fields_read;
}

/// SpawnPlayer: coordinates that are whole numbers of 32nds of a block come out as these
/// numbers, each in its place.
pub proof fn s2c_spawn_player_in_place(
    entity_id: i32,
    uuid_hi: i64,
    uuid_lo: i64,
    x: i32,
    y: i32,
    z: i32,
    yaw: u8,
    pitch: u8,
    rest: Seq<u8>,
    server_proto: u32,
    t: ItemFlatteningTable,
)
    requires
        107 <= server_proto < 735,
    ensures
        spec_convert_s2c(
            packet(
                0x05,
                varint_field(entity_id) + i64_field(uuid_hi) + i64_field(uuid_lo) + u64_field(
                    double_of_fixed(x as int, 5),
                ) + u64_field(double_of_fixed(y as int, 5)) + u64_field(double_of_fixed(z as int, 5))
                    + seq![yaw] + seq![pitch] + rest,
            ),
            server_proto,
            t,
        ) == converted(
            0x0C,
            varint(entity_id) + be_i64(uuid_hi) + be_i64(uuid_lo) + be_i32(x) + be_i32(y) + be_i32(z)
                + seq![yaw] + seq![pitch] + be_i16(0) + seq![0x7Fu8],
        ),
{
    thirty_seconds_survive(x);
    thirty_seconds_survive(y);
    thirty_seconds_survive(z);
    s2c_spawn_player(
        entity_id,
        uuid_hi,
        uuid_lo,
        double_of_fixed(x as int, 5),
        double_of_fixed(y as int, 5),
        double_of_fixed(z as int, 5),
        yaw,
        pitch,
        rest,
        server_proto,
        t,
    );
}

/// Teleport: coordinates that are whole numbers of 32nds of a block come out as these numbers,
/// each in its place.
pub proof fn s2c_entity_teleport_in_place(
    entity_id: i32,
    x: i32,
    y: i32,
    z: i32,
    yaw: u8,
    pitch: u8,
    on_ground: u8,
    rest: Seq<u8>,
    server_proto: u32,
    t: ItemFlatteningTable,
)
    requires
        107 <= server_proto < 735,
    ensures
        spec_convert_s2c(
            packet(
                0x4C,
                varint_field(entity_id) + u64_field(double_of_fixed(x as int, 5)) + u64_field(
                    double_of_fixed(y as int, 5),
                ) + u64_field(double_of_fixed(z as int, 5)) + seq![yaw] + seq![pitch] + seq![on_ground]
                    + rest,
            ),
            server_proto,
            t,
        ) == converted(
            0x18,
            varint(entity_id) + be_i32(x) + be_i32(y) + be_i32(z) + seq![yaw] + seq![pitch] + seq![on_ground],
        ),
{
    thirty_seconds_survive(x);
    thirty_seconds_survive(y);
    thirty_seconds_survive(z);
    s2c_entity_teleport(
        entity_id,
        double_of_fixed(x as int, 5),
        double_of_fixed(y as int, 5),
        double_of_fixed(z as int, 5),
        yaw,
        pitch,
        on_ground,
        rest,
        server_proto,
        t,
    );
}

/// BlockChange: the place is unpacked, and the state becomes the id and four bits of metadata.
#[verifier::rlimit(80)]
pub proof fn s2c_block_change(
    x: i32,
    y: i32,
    z: i32,
    block: i32,
    metadata: i32,
    rest: Seq<u8>,
    server_proto: u32,
    t: ItemFlatteningTable,
)
    requires
        107 <= server_proto < 759,
        packable(x as int, y as int, z as int),
        0 <= block < 0x10_0000,
        0 <= metadata < 16,
    ensures
        spec_convert_s2c(
            packet(
                0x0B,
                i64_field(legacy_bits(x as int, y as int, z as int) as i64) + varint_field(
                    (16 * block + metadata) as i32,
                ) + rest,
            ),
            server_proto,
            t,
        ) == converted(
            0x23,
            be_i32(x) + seq![y as u8] + be_i32(z) + varint(block) + seq![metadata as u8],
        ),
{
    broadcast use fields_read;

    let state = (16 * block + metadata) as i32;
    assert(state >> 4 == block && state & 0xF == metadata) by (bit_vector)
        requires
            state == 16 * block + metadata,
            0 <= block < 0x10_0000,
            0 <= metadata < 16,
    ;
    let bits = legacy_bits(x as int, y as int, z as int);
    assert((bits as i64) as u64 == bits) by (bit_vector);
}

/// EntityRelativeMove: the steps, 4096ths of a block, become 32nds, cut off toward zero and held
/// in a byte.
#[verifier::rlimit(80)]
pub proof fn s2c_entity_rel_move(
    entity_id: i32,
    dx: i16,
    dy: i16,
    dz: i16,
    on_ground: u8,
    rest: Seq<u8>,
    server_proto: u32,
    t: ItemFlatteningTable,
)
    requires
        107 <= server_proto < 735,
        -128 * 128 <= dx < 128 * 128,
        -128 * 128 <= dy < 128 * 128,
        -128 * 128 <= dz < 128 * 128,
    ensures
        spec_convert_s2c(
            packet(
                0x25,
                varint_field(entity_id) + i16_field(dx) + i16_field(dy) + i16_field(dz) + seq![on_ground] + rest,
            ),
            server_proto,
            t,
        ) == converted(
            0x15,
            varint(entity_id) + be_i8(over_128(dx as int) as i8) + be_i8(over_128(dy as int) as i8) + be_i8(
                over_128(dz as int) as i8,
            ) + seq![on_ground],
        ),
{
    broadcast use fields_read;
}

/// EntityLookAndRelativeMove: the steps, 4096ths of a block, become 32nds, cut off toward zero
/// and held in a byte.
#[verifier::rlimit(80)]
pub proof fn s2c_entity_look_rel_move(
    entity_id: i32,
    dx: i16,
    dy: i16,
    dz: i16,
    yaw: u8,
    pitch: u8,
    on_ground: u8,
    rest: Seq<u8>,
    server_proto: u32,
    t: ItemFlatteningTable,
)
    requires
        107 <= server_proto < 735,
        -128 * 128 <= dx < 128 * 128,
        -128 * 128 <= dy < 128 * 128,
        dz >= 128 * 128,
    ensures
        spec_convert_s2c(
            packet(
                0x26,
                varint_field(entity_id) + i16_field(dx) + i16_field(dy) + i16_field(dz) + seq![yaw] + seq![pitch]
                    + seq![on_ground] + rest,
            ),
            server_proto,
            t,
        ) == converted(
            0x17,
            varint(entity_id) + be_i8(over_128(dx as int) as i8) + be_i8(over_128(dy as int) as i8) + be_i8(127)
                + seq![yaw] + seq![pitch] + seq![on_ground],
        ),
{
    broadcast use fields_read;
}

/// SetSlot: the item takes its older id, with damage 0 and the same count; an id that the table
/// does not know keeps its lower 16 bits. An empty slot stays empty.
#[verifier::rlimit(80)]
pub proof fn s2c_set_slot(
    window: u8,
    place: i32,
    id: i32,
    count: i8,
    rest: Seq<u8>,
    server_proto: u32,
    t: ItemFlatteningTable,
    older: i16,
)
    requires
        107 <= server_proto < 735,
        older_item(t.pairs@, id as u32) == Some(older) || older_item(t.pairs@, id as u32) is None && older
            == id as i16,
    ensures
        spec_convert_s2c(
            packet(
                0x16,
                seq![window] + varint_field(place) + seq![1u8] + varint_field(id) + i8_field(count) + seq![0u8]
                    + rest,
            ),
            server_proto,
            t,
        ) == converted(
            0x2F,
            seq![window] + be_i16(place as i16) + (seq![1u8] + (be_i16(older) + be_i8(count) + be_i16(0) + seq![
                0u8,
            ])),
        ),
        spec_convert_s2c(
            packet(0x16, seq![window] + varint_field(place) + seq![0u8] + rest),
            server_proto,
            t,
        ) == converted(0x2F, seq![window] + be_i16(place as i16) + seq![0u8]),
{
    broadcast use fields_read;

    let b = seq![window] + varint_field(place) + seq![1u8] + varint_field(id) + i8_field(count) + seq![0u8] + rest;
    let p: int = 1 + varint_field(place).len() as int;
    let q: int = p + 1 + varint_field(id).len();
    assert(varint_at(b, 1) == Some((place, p)));
    assert(b[p] == 1);
    assert(varint_at(b, p + 1) == Some((id, q)));
    assert(i8_at(b, q) == count);
    assert(b[q + 1] == 0);
}

/// EntityEquipment: the place keeps its lower 16 bits, and the item takes its older form.
#[verifier::rlimit(80)]
pub proof fn s2c_entity_equipment(
    entity_id: i32,
    place: i32,
    id: i32,
    count: i8,
    rest: Seq<u8>,
    server_proto: u32,
    t: ItemFlatteningTable,
    older: i16,
)
    requires
        107 <= server_proto < 735,
        older_item(t.pairs@, id as u32) == Some(older) || older_item(t.pairs@, id as u32) is None && older
            == id as i16,
    ensures
        spec_convert_s2c(
            packet(
                0x3F,
                varint_field(entity_id) + varint_field(place) + seq![1u8] + varint_field(id) + i8_field(count)
                    + seq![0u8] + rest,
            ),
            server_proto,
            t,
        ) == converted(
            0x04,
            varint(entity_id) + be_i16(place as i16) + (seq![1u8] + (be_i16(older) + be_i8(count) + be_i16(0)
                + seq![0u8])),
        ),
{
    broadcast use fields_read;

    let b = varint_field(entity_id) + varint_field(place) + seq![1u8] + varint_field(id) + i8_field(count) + seq![0u8]
        + rest;
    let e: int = varint_field(entity_id).len() as int;
    let p: int = e + varint_field(place).len();
    let q: int = p + 1 + varint_field(id).len();
    assert(varint_at(b, 0) == Some((entity_id, e)));
    assert(varint_at(b, e) == Some((place, p)));
    assert(b[p] == 1);
    assert(varint_at(b, p + 1) == Some((id, q)));
    assert(i8_at(b, q) == count);
    assert(b[q + 1] == 0);
}

/// The steps of 1.16: the packets have other numbers and the same bodies.
#[verifier::rlimit(80)]
pub proof fn v16_steps(
    entity_id: i32,
    dx: i16,
    dy: i16,
    dz: i16,
    yaw: u8,
    pitch: u8,
    on_ground: u8,
    rest: Seq<u8>,
    server_proto: u32,
    t: ItemFlatteningTable,
)
    requires
        735 <= server_proto < 759,
        -128 * 128 <= dx < 128 * 128,
        -128 * 128 <= dy < 128 * 128,
        -128 * 128 <= dz < 128 * 128,
    ensures
        spec_convert_s2c(
            packet(
                0x28,
                varint_field(entity_id) + i16_field(dx) + i16_field(dy) + i16_field(dz) + seq![on_ground] + rest,
            ),
            server_proto,
            t,
        ) == converted(
            0x15,
            varint(entity_id) + be_i8(over_128(dx as int) as i8) + be_i8(over_128(dy as int) as i8) + be_i8(
                over_128(dz as int) as i8,
            ) + seq![on_ground],
        ),
        spec_convert_s2c(
            packet(
                0x29,
                varint_field(entity_id) + i16_field(dx) + i16_field(dy) + i16_field(dz) + seq![yaw] + seq![pitch]
                    + seq![on_ground] + rest,
            ),
            server_proto,
            t,
        ) == converted(
            0x17,
            varint(entity_id) + be_i8(over_128(dx as int) as i8) + be_i8(over_128(dy as int) as i8) + be_i8(
                over_128(dz as int) as i8,
            ) + seq![yaw] + seq![pitch] + seq![on_ground],
        ),
{
    broadcast use fields_read;
}

/// The steps of a move, cut off toward zero: whole 32nds come out as they are.
pub proof fn whole_steps_stay(d: i8)
    ensures
        over_128(128 * d) == d,
{
}

/// An empty slot stays empty in 1.16 as well.
pub proof fn v16_empty_slots(window: u8, place: i32, rest: Seq<u8>, server_proto: u32, t: ItemFlatteningTable)
    requires
        735 <= server_proto < 759,
    ensures
        spec_convert_s2c(
            packet(0x15, seq![window] + varint_field(place) + seq![0u8] + rest),
            server_proto,
            t,
        ) == converted(0x2F, seq![window] + be_i16(place as i16) + seq![0u8]),
{
    broadcast use fields_read;
}

/// WindowItems: the count becomes 16 bits wide, and each slot takes its older form, in order.
#[verifier::rlimit(60)]
pub proof fn s2c_window_items(
    window: u8,
    id: i32,
    count: i8,
    rest: Seq<u8>,
    server_proto: u32,
    t: ItemFlatteningTable,
    older: i16,
)
    requires
        107 <= server_proto < 735,
        older_item(t.pairs@, id as u32) == Some(older) || older_item(t.pairs@, id as u32) is None && older
            == id as i16,
    ensures
        spec_convert_s2c(
            packet(
                0x14,
                seq![window] + varint_field(2) + seq![1u8] + varint_field(id) + i8_field(count) + seq![0u8] + seq![0u8]
                    + rest,
            ),
            server_proto,
            t,
        ) == converted(
            0x30,
            seq![window] + be_i16(2) + (seq![1u8] + (be_i16(older) + be_i8(count) + be_i16(0) + seq![0u8])
                + seq![0u8]),
        ),
{
    broadcast use fields_read;

    reveal_with_fuel(older_items, 3);
    let b = seq![window] + varint_field(2) + seq![1u8] + varint_field(id) + i8_field(count) + seq![0u8] + seq![0u8]
        + rest;
    let p: int = 1 + varint_field(2).len() as int;
    let q: int = p + 1 + varint_field(id).len();
    assert(varint_at(b, 1) == Some((2i32, p)));
    assert(b[p] == 1);
    assert(varint_at(b, p + 1) == Some((id, q)));
    assert(i8_at(b, q) == count);
    assert(b[q + 1] == 0);
    assert(b[q + 2] == 0);
    assert(seq![0u8] + Seq::<u8>::empty() =~= seq![0u8]);
}

} // verus!
