//! 1.6.4 packets for 1.12.2.
//!
//! 1.6.4 identifies a packet by one byte and writes texts as UTF-16 behind a unit count.
//! 1.12.2 prefers variable-length integers, UTF-8 texts and packed positions.

use bytes::Bytes;
use crate::converter::outcome::{ConversionResult, Outcome, converted, emit, split, split_id};
use crate::converter::safe::Reader;
use crate::ident::{fresh_uuid, is_random_uuid, offline_id, offline_uuid, unused_uuid};
use crate::number::{
    double_of_fixed, double_to_single, fixed_to_double, narrowed, single_of_sixteenths,
    single_of_sixty_thirds, sixteenths_to_single, sixty_thirds_to_single,
};
use crate::position::{Position, encode_legacy_position, legacy_bits};
use crate::text::{
    escape_json, escape_quotes, json_component, json_escaped, json_text, quotes_escaped,
    string_from_utf16_lossy, ucs2_at, utf16_lossy, utf16_or_empty, utf16_text_or_empty,
    wire_string,
};
use crate::varint::varint;
use crate::wire::{
    be32, be64, be_i16, be_i32, be_i64, be_i8, bytes_len, bytes_to_vec, content, i16_at, i32_at,
    i64_at, i8_at, u16_at, u32_at, u64_at,
};
use crate::writer::{Writer, empty_then};
use vstd::prelude::*;

verus! {

pub const V164_S2C_KEEP_ALIVE: u8 = 0x00;
pub const V164_S2C_CHAT: u8 = 0x03;
pub const V164_S2C_PLAYER_POS_LOOK: u8 = 0x0D;
pub const V164_S2C_SPAWN_PLAYER: u8 = 0x14;
pub const V164_S2C_ENTITY_TELEPORT: u8 = 0x22;
pub const V164_S2C_ENTITY_REL_MOVE: u8 = 0x15;
pub const V164_S2C_ENTITY: u8 = 0x1E;
pub const V164_S2C_BLOCK_CHANGE: u8 = 0x35;
pub const V164_S2C_SET_SLOT: u8 = 0x67;
pub const V164_S2C_WINDOW_ITEMS: u8 = 0x68;
pub const V164_S2C_EXPERIENCE: u8 = 0x2B;
pub const V164_S2C_HELD_ITEM_CHANGE: u8 = 0x10;
pub const V164_S2C_PLAYER_ABILITIES: u8 = 0x43;
pub const V164_S2C_DISCONNECT: u8 = 0xFF;
pub const V164_S2C_TIME_UPDATE: u8 = 0x04;
pub const V164_S2C_SPAWN_POSITION: u8 = 0x06;
pub const V164_S2C_UPDATE_HEALTH: u8 = 0x08;
pub const V164_S2C_COLLECT_ITEM: u8 = 0x16;
pub const V164_S2C_DESTROY_ENTITIES: u8 = 0x1D;
pub const V164_S2C_ENTITY_HEAD_LOOK: u8 = 0x23;
pub const V164_S2C_PLUGIN_MESSAGE: u8 = 0xFA;
pub const V164_S2C_LOGIN_REQUEST: u8 = 0x01;
pub const V164_S2C_ENTITY_EQUIPMENT_REAL: u8 = 0x05;
pub const V164_S2C_RESPAWN: u8 = 0x09;
pub const V164_S2C_USE_BED: u8 = 0x11;
pub const V164_S2C_ANIMATION: u8 = 0x12;
pub const V164_S2C_SPAWN_OBJECT: u8 = 0x17;
pub const V164_S2C_SPAWN_MOB: u8 = 0x18;
pub const V164_S2C_SPAWN_PAINTING: u8 = 0x19;
pub const V164_S2C_SPAWN_EXP_ORB: u8 = 0x1A;
pub const V164_S2C_ENTITY_VELOCITY: u8 = 0x1C;
pub const V164_S2C_ENTITY_LOOK: u8 = 0x20;
pub const V164_S2C_ENTITY_LOOK_REL_MOVE: u8 = 0x21;
pub const V164_S2C_ENTITY_STATUS: u8 = 0x26;
pub const V164_S2C_ATTACH_ENTITY: u8 = 0x27;
pub const V164_S2C_ENTITY_METADATA: u8 = 0x28;
pub const V164_S2C_ENTITY_EFFECT: u8 = 0x29;
pub const V164_S2C_REMOVE_ENTITY_EFFECT: u8 = 0x2A;
pub const V164_S2C_ENTITY_PROPERTIES: u8 = 0x2C;
pub const V164_S2C_MULTI_BLOCK_CHANGE: u8 = 0x34;
pub const V164_S2C_BLOCK_ACTION: u8 = 0x36;
pub const V164_S2C_BLOCK_BREAK_ANIMATION: u8 = 0x37;
pub const V164_S2C_EXPLOSION: u8 = 0x3C;
pub const V164_S2C_EFFECT: u8 = 0x3D;
pub const V164_S2C_NAMED_SOUND: u8 = 0x3E;
pub const V164_S2C_PARTICLE: u8 = 0x3F;
pub const V164_S2C_GAME_STATE: u8 = 0x46;
pub const V164_S2C_SPAWN_GLOBAL_ENTITY: u8 = 0x47;
pub const V164_S2C_OPEN_WINDOW: u8 = 0x64;
pub const V164_S2C_CLOSE_WINDOW: u8 = 0x65;
pub const V164_S2C_UPDATE_WINDOW_PROPERTY: u8 = 0x69;
pub const V164_S2C_CONFIRM_TRANSACTION: u8 = 0x6A;
pub const V164_S2C_ITEM_DATA: u8 = 0x83;
pub const V164_S2C_UPDATE_TILE_ENTITY: u8 = 0x84;
pub const V164_S2C_STATISTIC: u8 = 0xC8;
pub const V164_S2C_PLAYER_LIST_ITEM: u8 = 0xC9;
pub const V164_S2C_SCOREBOARD_OBJECTIVE: u8 = 0xCE;
pub const V164_S2C_UPDATE_SCORE: u8 = 0xCF;
pub const V164_S2C_DISPLAY_SCOREBOARD: u8 = 0xD0;
pub const V164_S2C_TEAMS: u8 = 0xD1;

pub const V112_S2C_KEEP_ALIVE: u8 = 0x1F;
pub const V112_S2C_CHAT: u8 = 0x0F;
pub const V112_S2C_PLAYER_POS_LOOK: u8 = 0x2F;
pub const V112_S2C_SPAWN_PLAYER: u8 = 0x05;
pub const V112_S2C_ENTITY_TELEPORT: u8 = 0x4C;
pub const V112_S2C_ENTITY_REL_MOVE: u8 = 0x26;
pub const V112_S2C_ENTITY: u8 = 0x25;
pub const V112_S2C_BLOCK_CHANGE: u8 = 0x0B;
pub const V112_S2C_SET_SLOT: u8 = 0x16;
pub const V112_S2C_WINDOW_ITEMS: u8 = 0x14;
pub const V112_S2C_ENTITY_EQUIPMENT: u8 = 0x3F;
pub const V112_S2C_EXPERIENCE: u8 = 0x40;
pub const V112_S2C_HELD_ITEM_CHANGE: u8 = 0x3A;
pub const V112_S2C_PLAYER_ABILITIES: u8 = 0x2C;
pub const V112_S2C_DISCONNECT: u8 = 0x1A;
pub const V112_S2C_PLUGIN_MESSAGE: u8 = 0x18;
pub const V112_S2C_DESTROY_ENTITIES: u8 = 0x32;
pub const V112_S2C_ENTITY_HEAD_LOOK: u8 = 0x36;
pub const V112_S2C_ENTITY_VELOCITY: u8 = 0x3E;
pub const V112_S2C_UPDATE_HEALTH: u8 = 0x41;
pub const V112_S2C_SPAWN_POSITION: u8 = 0x46;
pub const V112_S2C_TIME_UPDATE: u8 = 0x47;
pub const V112_S2C_COLLECT_ITEM: u8 = 0x4B;
pub const V112_S2C_LOGIN: u8 = 0x23;
pub const V112_S2C_RESPAWN: u8 = 0x35;
pub const V112_S2C_SPAWN_OBJECT: u8 = 0x00;
pub const V112_S2C_SPAWN_MOB: u8 = 0x03;
pub const V112_S2C_SPAWN_PAINTING: u8 = 0x04;
pub const V112_S2C_SPAWN_EXP_ORB: u8 = 0x01;
pub const V112_S2C_ENTITY_LOOK: u8 = 0x28;
pub const V112_S2C_ENTITY_LOOK_REL_MOVE: u8 = 0x27;
pub const V112_S2C_ENTITY_STATUS: u8 = 0x1B;
pub const V112_S2C_ATTACH_ENTITY: u8 = 0x3D;
pub const V112_S2C_ENTITY_METADATA: u8 = 0x3C;
pub const V112_S2C_ENTITY_EFFECT: u8 = 0x4F;
pub const V112_S2C_REMOVE_ENTITY_EFFECT: u8 = 0x33;
pub const V112_S2C_ENTITY_PROPERTIES: u8 = 0x4E;
pub const V112_S2C_BLOCK_ACTION: u8 = 0x0A;
pub const V112_S2C_BLOCK_BREAK_ANIMATION: u8 = 0x08;
pub const V112_S2C_EXPLOSION: u8 = 0x1C;
pub const V112_S2C_EFFECT: u8 = 0x21;
pub const V112_S2C_NAMED_SOUND: u8 = 0x19;
pub const V112_S2C_GAME_STATE: u8 = 0x1E;
pub const V112_S2C_SPAWN_GLOBAL_ENTITY: u8 = 0x02;
pub const V112_S2C_OPEN_WINDOW: u8 = 0x13;
pub const V112_S2C_CLOSE_WINDOW: u8 = 0x12;
pub const V112_S2C_UPDATE_WINDOW_PROPERTY: u8 = 0x15;
pub const V112_S2C_CONFIRM_TRANSACTION: u8 = 0x11;
pub const V112_S2C_PLAYER_LIST_ITEM: u8 = 0x2E;
pub const V112_S2C_SCOREBOARD_OBJECTIVE: u8 = 0x42;
pub const V112_S2C_UPDATE_SCORE: u8 = 0x45;
pub const V112_S2C_DISPLAY_SCOREBOARD: u8 = 0x3B;
pub const V112_S2C_ANIMATION: u8 = 0x06;
pub const V112_S2C_STATISTIC: u8 = 0x07;
pub const V112_S2C_TILE_ENTITY_DATA: u8 = 0x09;

/// The list entry of an added player: the unique id, the name, survival mode, a ping of 0 and
/// no display name.
pub open spec fn added_entry(name: Seq<char>, id: (u64, u64)) -> Seq<u8> {
    varint(0) + varint(1) + be64(id.0) + be64(id.1) + wire_string(name) + varint(0) + varint(0) + seq![
        0u8,
    ]
}

/// The packet that adds a player to the list.
pub fn added_player(name: &str, id: (u64, u64)) -> (res: ConversionResult)
    ensures
        res@ == converted(V112_S2C_PLAYER_LIST_ITEM, added_entry(name@, id)),
{
    broadcast use empty_then;

    let mut out = Writer::new();
    out.varint(0);
    out.varint(1);
    out.u64(id.0);
    out.u64(id.1);
    out.string(name);
    out.varint(0);
    out.varint(0);
    out.u8(0);
    emit(V112_S2C_PLAYER_LIST_ITEM, out)
}

/// An item without damage and tags: nothing for item -1, and otherwise id, count and no
/// tags.
pub open spec fn plain_slot(item_id: i16, count: i8) -> Seq<u8> {
    if item_id == -1 {
        seq![0u8]
    } else {
        varint(item_id as i32) + be_i8(count) + seq![0u8]
    }
}

/// `n` items that stand five bytes apart from `p` on.
pub open spec fn plain_slots(b: Seq<u8>, p: int, n: nat) -> Seq<u8>
    decreases n,
{
    if n == 0 {
        seq![]
    } else {
        let q = p + 5 * (n - 1);
        plain_slots(b, p, (n - 1) as nat) + plain_slot(i16_at(b, q), i8_at(b, q + 4))
    }
}

/// `n` ids that stand four bytes apart from `p` on, each variable-length.
pub open spec fn id_list(b: Seq<u8>, p: int, n: nat) -> Seq<u8>
    decreases n,
{
    if n == 0 {
        seq![]
    } else {
        id_list(b, p, (n - 1) as nat) + varint(i32_at(b, p + 4 * (n - 1)))
    }
}

/// The name of a window kind.
pub open spec fn spec_window_kind(kind: u8) -> &'static str {
    match kind {
        0 => "minecraft:chest",
        1 => "minecraft:crafting_table",
        2 => "minecraft:furnace",
        3 => "minecraft:dispenser",
        4 => "minecraft:enchanting_table",
        5 => "minecraft:brewing_stand",
        6 => "minecraft:villager",
        7 => "minecraft:beacon",
        8 => "minecraft:anvil",
        9 => "minecraft:hopper",
        10 => "minecraft:shulker_box",
        11 => "EntityHorse",
        _ => "minecraft:chest",
    }
}

fn window_kind(kind: u8) -> (s: &'static str)
    ensures
        s == spec_window_kind(kind),
{
    match kind {
        0 => "minecraft:chest",
        1 => "minecraft:crafting_table",
        2 => "minecraft:furnace",
        3 => "minecraft:dispenser",
        4 => "minecraft:enchanting_table",
        5 => "minecraft:brewing_stand",
        6 => "minecraft:villager",
        7 => "minecraft:beacon",
        8 => "minecraft:anvil",
        9 => "minecraft:hopper",
        10 => "minecraft:shulker_box",
        11 => "EntityHorse",
        _ => "minecraft:chest",
    }
}

fn put_plain_slot(out: &mut Writer, item_id: i16, count: i8)
    ensures
        final(out)@ == old(out)@ + plain_slot(item_id, count),
{
    let ghost before = out@;
    if item_id == -1 {
        out.u8(0);
    } else {
        out.varint(item_id as i32);
        out.i8(count);
        out.u8(0);
        assert(out@ =~= before + plain_slot(item_id, count));
    }
}

/// WindowItems: the count becomes 0, and the items follow without damage and tags.
pub open spec fn spec_s2c_window_items(b: Seq<u8>) -> Outcome {
    if b.len() < 3 {
        Outcome::Passthrough
    } else {
        let n = if i16_at(b, 1) > 0 { i16_at(b, 1) as nat } else { 0 };
        if b.len() < 3 + 5 * n {
            Outcome::Passthrough
        } else {
            converted(V112_S2C_WINDOW_ITEMS, be_i8(i8_at(b, 0)) + varint(0) + plain_slots(b, 3, n))
        }
    }
}

fn s2c_window_items(body: Bytes) -> (res: ConversionResult)
    ensures
        res@ == spec_s2c_window_items(content(body)),
{
    broadcast use empty_then;

    let ghost b = content(body);
    let mut r = Reader::new(body);
    if !r.has(3) {
        return ConversionResult::Passthrough;
    }
    let window_id: i8 = r.get_i8();
    let count: i16 = r.get_i16();
    let n: usize = if count > 0 { count as usize } else { 0 };
    if !r.has(n * 5) {
        return ConversionResult::Passthrough;
    }
    let mut out = Writer::new();
    out.i8(window_id);
    out.varint(0);
    let ghost head = out@;
    assert(head + plain_slots(b, 3, 0) =~= head);
    let mut i: usize = 0;
    while i < n
        invariant
            i <= n,
            n <= i16::MAX,
            b.len() >= 3 + 5 * n,
            r.valid(),
            r.all() == b,
            r.at() == 3 + 5 * i,
            out@ == head + plain_slots(b, 3, i as nat),
        decreases n - i,
    {
        let item_id: i16 = r.get_i16();
        let _damage: i16 = r.get_i16();
        let slot_count: i8 = r.get_i8();
        put_plain_slot(&mut out, item_id, slot_count);
        i = i + 1;
        assert(out@ =~= head + plain_slots(b, 3, i as nat));
    }
    emit(V112_S2C_WINDOW_ITEMS, out)
}

/// DestroyEntities: the count and the ids become variable-length.
pub open spec fn spec_s2c_destroy_entities(b: Seq<u8>) -> Outcome {
    if b.len() < 1 || i8_at(b, 0) < 0 || b.len() < 1 + 4 * i8_at(b, 0) {
        Outcome::Passthrough
    } else {
        converted(
            V112_S2C_DESTROY_ENTITIES,
            varint(i8_at(b, 0) as i32) + id_list(b, 1, i8_at(b, 0) as nat),
        )
    }
}

fn s2c_destroy_entities(body: Bytes) -> (res: ConversionResult)
    ensures
        res@ == spec_s2c_destroy_entities(content(body)),
{
    broadcast use empty_then;

    let ghost b = content(body);
    let mut r = Reader::new(body);
    if !r.has(1) {
        return ConversionResult::Passthrough;
    }
    let count: i32 = r.get_i8() as i32;
    if count < 0 || !r.has(count as usize * 4) {
        return ConversionResult::Passthrough;
    }
    let mut out = Writer::new();
    out.varint(count);
    let ghost head = out@;
    assert(head + id_list(b, 1, 0) =~= head);
    let mut i: i32 = 0;
    while i < count
        invariant
            0 <= i <= count,
            count == i8_at(b, 0),
            b.len() >= 1 + 4 * count,
            r.valid(),
            r.all() == b,
            r.at() == 1 + 4 * i,
            out@ == head + id_list(b, 1, i as nat),
        decreases count - i,
    {
        let eid: i32 = r.get_i32();
        out.varint(eid);
        i = i + 1;
        assert(out@ =~= head + id_list(b, 1, i as nat));
    }
    emit(V112_S2C_DESTROY_ENTITIES, out)
}

/// KeepAlive: the `i32` id becomes an `i64`, as the newer client has it from 1.12.2 on.
pub open spec fn spec_s2c_keep_alive(b: Seq<u8>) -> Outcome {
    if b.len() < 4 {
        Outcome::Passthrough
    } else {
        converted(V112_S2C_KEEP_ALIVE, be_i64(i32_at(b, 0) as i64))
    }
}

pub fn s2c_keep_alive(body: Bytes) -> (res: ConversionResult)
    ensures
        res@ == spec_s2c_keep_alive(content(body)),
{
    broadcast use empty_then;

    let mut r = Reader::new(body);
    if !r.has(4) {
        return ConversionResult::Passthrough;
    }
    let id: i32 = r.get_i32();
    let mut out = Writer::new();
    out.i64(id as i64);
    emit(V112_S2C_KEEP_ALIVE, out)
}

/// Chat: a plain text becomes a chat component at position 0.
pub open spec fn spec_s2c_chat(b: Seq<u8>) -> Outcome {
    match ucs2_at(b, 0) {
        None => Outcome::Passthrough,
        Some((message, p)) => {
            converted(V112_S2C_CHAT, wire_string(json_component(json_escaped(utf16_lossy(message)))) + seq![0u8])
        },
    }
}

pub fn s2c_chat(body: Bytes) -> (res: ConversionResult)
    ensures
        res@ == spec_s2c_chat(content(body)),
{
    broadcast use empty_then;

    let mut r = Reader::new(body);
    let message_units: Vec<u16> = match r.ucs2_units() {
        Some(u) => u,
        None => {
            return ConversionResult::Passthrough;
        },
    };
    let message: String = string_from_utf16_lossy(message_units.as_slice());
    let json = json_text(escape_json(message.as_str()).as_str());
    let mut out = Writer::new();
    out.string(json.as_str());
    out.u8(0);
    emit(V112_S2C_CHAT, out)
}

/// PlayerPositionAndLook: x, stance, y, z, yaw, pitch and the ground flag become x, y, z,
/// yaw, pitch, no relative flags and teleport id 0.
pub open spec fn spec_s2c_player_pos_look(b: Seq<u8>) -> Outcome {
    if b.len() < 41 {
        Outcome::Passthrough
    } else {
        converted(
            V112_S2C_PLAYER_POS_LOOK,
            be64(u64_at(b, 0)) + be64(u64_at(b, 16)) + be64(u64_at(b, 24)) + be32(u32_at(b, 32))
                + be32(u32_at(b, 36)) + seq![0u8] + varint(0),
        )
    }
}

pub fn s2c_player_pos_look(body: Bytes) -> (res: ConversionResult)
    ensures
        res@ == spec_s2c_player_pos_look(content(body)),
{
    broadcast use empty_then;

    let mut r = Reader::new(body);
    if !r.has(41) {
        return ConversionResult::Passthrough;
    }
    let x: u64 = r.get_u64();
    let _stance: u64 = r.get_u64();
    let y: u64 = r.get_u64();
    let z: u64 = r.get_u64();
    let yaw: u32 = r.get_u32();
    let pitch: u32 = r.get_u32();
    let _on_ground: u8 = r.get_u8();
    let mut out = Writer::new();
    out.u64(x);
    out.u64(y);
    out.u64(z);
    out.u32(yaw);
    out.u32(pitch);
    out.u8(0);
    out.varint(0);
    emit(V112_S2C_PLAYER_POS_LOOK, out)
}

/// SpawnPlayer: the name and the held item are dropped, the player gets the given unique id,
/// fixed-point coordinates become doubles, and the metadata is empty.
pub open spec fn spec_s2c_spawn_player(b: Seq<u8>, uuid: (u64, u64)) -> Outcome {
    if b.len() < 4 {
        Outcome::Passthrough
    } else {
        match ucs2_at(b, 4) {
            None => Outcome::Passthrough,
            Some((name, p)) => {
                if b.len() < p + 16 {
                    Outcome::Passthrough
                } else {
                    converted(
                        V112_S2C_SPAWN_PLAYER,
                        varint(i32_at(b, 0)) + be_i64(uuid.0 as i64) + be_i64(uuid.1 as i64)
                            + be64(double_of_fixed(i32_at(b, p) as int, 5))
                            + be64(double_of_fixed(i32_at(b, p + 4) as int, 5))
                            + be64(double_of_fixed(i32_at(b, p + 8) as int, 5))
                            + seq![i8_at(b, p + 12) as u8] + seq![i8_at(b, p + 13) as u8]
                            + seq![0xFFu8],
                    )
                }
            },
        }
    }
}

pub fn s2c_spawn_player(body: Bytes, uuid: (u64, u64)) -> (res: ConversionResult)
    ensures
        res@ == spec_s2c_spawn_player(content(body), uuid),
{
    broadcast use empty_then;

    let mut r = Reader::new(body);
    if !r.has(4) {
        return ConversionResult::Passthrough;
    }
    let entity_id: i32 = r.get_i32();
    let _name: Vec<u16> = match r.ucs2_units() {
        Some(u) => u,
        None => {
            return ConversionResult::Passthrough;
        },
    };
    if !r.has(16) {
        return ConversionResult::Passthrough;
    }
    let x: i32 = r.get_i32();
    let y: i32 = r.get_i32();
    let z: i32 = r.get_i32();
    let yaw: i8 = r.get_i8();
    let pitch: i8 = r.get_i8();
    let mut out = Writer::new();
    out.varint(entity_id);
    out.i64(uuid.0 as i64);
    out.i64(uuid.1 as i64);
    out.u64(fixed_to_double(x, 5));
    out.u64(fixed_to_double(y, 5));
    out.u64(fixed_to_double(z, 5));
    out.u8(yaw as u8);
    out.u8(pitch as u8);
    out.u8(0xFF);
    emit(V112_S2C_SPAWN_PLAYER, out)
}

/// EntityTeleport: fixed-point coordinates become doubles, and the entity is off the ground.
pub open spec fn spec_s2c_entity_teleport(b: Seq<u8>) -> Outcome {
    if b.len() < 18 {
        Outcome::Passthrough
    } else {
        converted(
            V112_S2C_ENTITY_TELEPORT,
            varint(i32_at(b, 0)) + be64(double_of_fixed(i32_at(b, 4) as int, 5))
                + be64(double_of_fixed(i32_at(b, 8) as int, 5))
                + be64(double_of_fixed(i32_at(b, 12) as int, 5)) + seq![i8_at(b, 16) as u8]
                + seq![i8_at(b, 17) as u8] + seq![0u8],
        )
    }
}

pub fn s2c_entity_teleport(body: Bytes) -> (res: ConversionResult)
    ensures
        res@ == spec_s2c_entity_teleport(content(body)),
{
    broadcast use empty_then;

    let mut r = Reader::new(body);
    if !r.has(18) {
        return ConversionResult::Passthrough;
    }
    let entity_id: i32 = r.get_i32();
    let x: i32 = r.get_i32();
    let y: i32 = r.get_i32();
    let z: i32 = r.get_i32();
    let yaw: i8 = r.get_i8();
    let pitch: i8 = r.get_i8();
    let mut out = Writer::new();
    out.varint(entity_id);
    out.u64(fixed_to_double(x, 5));
    out.u64(fixed_to_double(y, 5));
    out.u64(fixed_to_double(z, 5));
    out.u8(yaw as u8);
    out.u8(pitch as u8);
    out.u8(0);
    emit(V112_S2C_ENTITY_TELEPORT, out)
}

/// EntityRelativeMove: steps of 1/32 become steps of 1/4096, and the entity is off the ground.
pub open spec fn spec_s2c_entity_rel_move(b: Seq<u8>) -> Outcome {
    if b.len() < 7 {
        Outcome::Passthrough
    } else {
        converted(
            V112_S2C_ENTITY_REL_MOVE,
            varint(i32_at(b, 0)) + be_i16((i8_at(b, 4) * 128) as i16)
                + be_i16((i8_at(b, 5) * 128) as i16) + be_i16((i8_at(b, 6) * 128) as i16)
                + seq![0u8],
        )
    }
}

pub fn s2c_entity_rel_move(body: Bytes) -> (res: ConversionResult)
    ensures
        res@ == spec_s2c_entity_rel_move(content(body)),
{
    broadcast use empty_then;

    let mut r = Reader::new(body);
    if !r.has(7) {
        return ConversionResult::Passthrough;
    }
    let entity_id: i32 = r.get_i32();
    let dx: i8 = r.get_i8();
    let dy: i8 = r.get_i8();
    let dz: i8 = r.get_i8();
    let mut out = Writer::new();
    out.varint(entity_id);
    out.i16(dx as i16 * 128);
    out.i16(dy as i16 * 128);
    out.i16(dz as i16 * 128);
    out.u8(0);
    emit(V112_S2C_ENTITY_REL_MOVE, out)
}

/// Entity: the id becomes variable-length.
pub open spec fn spec_s2c_entity(b: Seq<u8>) -> Outcome {
    if b.len() < 4 {
        Outcome::Passthrough
    } else {
        converted(V112_S2C_ENTITY, varint(i32_at(b, 0)))
    }
}

pub fn s2c_entity(body: Bytes) -> (res: ConversionResult)
    ensures
        res@ == spec_s2c_entity(content(body)),
{
    broadcast use empty_then;

    let mut r = Reader::new(body);
    if !r.has(4) {
        return ConversionResult::Passthrough;
    }
    let entity_id: i32 = r.get_i32();
    let mut out = Writer::new();
    out.varint(entity_id);
    emit(V112_S2C_ENTITY, out)
}

/// BlockChange: the place is packed, and the block id and the low four bits of its metadata
/// become one state.
pub open spec fn spec_s2c_block_change(b: Seq<u8>) -> Outcome {
    if b.len() < 12 {
        Outcome::Passthrough
    } else {
        converted(
            V112_S2C_BLOCK_CHANGE,
            be_i64(legacy_bits(i32_at(b, 0) as int, b[4] as int, i32_at(b, 5) as int) as i64)
                + varint((i16_at(b, 9) * 16 + b[11] % 16) as i32),
        )
    }
}

pub fn s2c_block_change(body: Bytes) -> (res: ConversionResult)
    ensures
        res@ == spec_s2c_block_change(content(body)),
{
    broadcast use empty_then;

    let mut r = Reader::new(body);
    if !r.has(12) {
        return ConversionResult::Passthrough;
    }
    let x: i32 = r.get_i32();
    let y: u8 = r.get_u8();
    let z: i32 = r.get_i32();
    let block_id: i16 = r.get_i16();
    let metadata: u8 = r.get_u8();
    let mut out = Writer::new();
    out.i64(encode_legacy_position(Position { x, y: y as i32, z }));
    out.varint(block_id as i32 * 16 + (metadata % 16) as i32);
    emit(V112_S2C_BLOCK_CHANGE, out)
}

/// SetSlot: an item keeps its id and its count, and loses its damage and its tags.
pub open spec fn spec_s2c_set_slot(b: Seq<u8>) -> Outcome {
    if b.len() < 3 {
        Outcome::Passthrough
    } else if b.len() < 8 {
        Outcome::Passthrough
    } else {
        converted(
            V112_S2C_SET_SLOT,
            be_i8(i8_at(b, 0)) + be_i16(i16_at(b, 1)) + plain_slot(i16_at(b, 3), i8_at(b, 7)),
        )
    }
}

pub fn s2c_set_slot(body: Bytes) -> (res: ConversionResult)
    ensures
        res@ == spec_s2c_set_slot(content(body)),
{
    broadcast use empty_then;

    let mut r = Reader::new(body);
    if !r.has(3) {
        return ConversionResult::Passthrough;
    }
    let window_id: i8 = r.get_i8();
    let slot: i16 = r.get_i16();
    if !r.has(5) {
        return ConversionResult::Passthrough;
    }
    let item_id: i16 = r.get_i16();
    let _damage: i16 = r.get_i16();
    let count: i8 = r.get_i8();
    let mut out = Writer::new();
    out.i8(window_id);
    out.i16(slot);
    put_plain_slot(&mut out, item_id, count);
    emit(V112_S2C_SET_SLOT, out)
}

/// Experience: level and total become variable-length.
pub open spec fn spec_s2c_experience(b: Seq<u8>) -> Outcome {
    if b.len() < 4 {
        Outcome::Passthrough
    } else {
        converted(
            V112_S2C_EXPERIENCE,
            be32(u32_at(b, 0)) + varint(i16_at(b, 4) as i32) + varint(i16_at(b, 6) as i32),
        )
    }
}

pub fn s2c_experience(body: Bytes) -> (res: ConversionResult)
    requires
        !(4 <= content(body).len() < 8),
    ensures
        res@ == spec_s2c_experience(content(body)),
{
    broadcast use empty_then;

    let mut r = Reader::new(body);
    if !r.has(4) {
        return ConversionResult::Passthrough;
    }
    let bar: u32 = r.get_u32();
    let level: i16 = r.get_i16();
    let total: i16 = r.get_i16();
    let mut out = Writer::new();
    out.u32(bar);
    out.varint(level as i32);
    out.varint(total as i32);
    emit(V112_S2C_EXPERIENCE, out)
}

/// HeldItemChange: the slot keeps its low eight bits.
pub open spec fn spec_s2c_held_item_change(b: Seq<u8>) -> Outcome {
    if b.len() < 2 {
        Outcome::Passthrough
    } else {
        converted(V112_S2C_HELD_ITEM_CHANGE, be_i8(i16_at(b, 0) as i8))
    }
}

pub fn s2c_held_item_change(body: Bytes) -> (res: ConversionResult)
    ensures
        res@ == spec_s2c_held_item_change(content(body)),
{
    broadcast use empty_then;

    let mut r = Reader::new(body);
    if !r.has(2) {
        return ConversionResult::Passthrough;
    }
    let slot: i16 = r.get_i16();
    let mut out = Writer::new();
    out.i8(slot as i8);
    emit(V112_S2C_HELD_ITEM_CHANGE, out)
}

/// PlayerAbilities: the same fields.
pub open spec fn spec_s2c_player_abilities(b: Seq<u8>) -> Outcome {
    if b.len() < 9 {
        Outcome::Passthrough
    } else {
        converted(
            V112_S2C_PLAYER_ABILITIES,
            seq![b[0]] + be32(u32_at(b, 1)) + be32(u32_at(b, 5)),
        )
    }
}

pub fn s2c_player_abilities(body: Bytes) -> (res: ConversionResult)
    ensures
        res@ == spec_s2c_player_abilities(content(body)),
{
    broadcast use empty_then;

    let mut r = Reader::new(body);
    if !r.has(9) {
        return ConversionResult::Passthrough;
    }
    let flags: u8 = r.get_u8();
    let flying: u32 = r.get_u32();
    let walking: u32 = r.get_u32();
    let mut out = Writer::new();
    out.u8(flags);
    out.u32(flying);
    out.u32(walking);
    emit(V112_S2C_PLAYER_ABILITIES, out)
}

/// Disconnect: a plain text becomes a chat component. Quotation marks are escaped.
pub open spec fn spec_s2c_disconnect(b: Seq<u8>) -> Outcome {
    match ucs2_at(b, 0) {
        None => Outcome::Passthrough,
        Some((message, p)) => {
            converted(V112_S2C_DISCONNECT, wire_string(json_component(quotes_escaped(utf16_lossy(message)))))
        },
    }
}

pub fn s2c_disconnect(body: Bytes) -> (res: ConversionResult)
    ensures
        res@ == spec_s2c_disconnect(content(body)),
{
    broadcast use empty_then;

    let mut r = Reader::new(body);
    let message_units: Vec<u16> = match r.ucs2_units() {
        Some(u) => u,
        None => {
            return ConversionResult::Passthrough;
        },
    };
    let message: String = string_from_utf16_lossy(message_units.as_slice());
    let json = json_text(escape_quotes(message.as_str()).as_str());
    let mut out = Writer::new();
    out.string(json.as_str());
    emit(V112_S2C_DISCONNECT, out)
}

/// TimeUpdate: the same fields.
pub open spec fn spec_s2c_time_update(b: Seq<u8>) -> Outcome {
    if b.len() < 16 {
        Outcome::Passthrough
    } else {
        converted(V112_S2C_TIME_UPDATE, be_i64(i64_at(b, 0)) + be_i64(i64_at(b, 8)))
    }
}

pub fn s2c_time_update(body: Bytes) -> (res: ConversionResult)
    ensures
        res@ == spec_s2c_time_update(content(body)),
{
    broadcast use empty_then;

    let mut r = Reader::new(body);
    if !r.has(16) {
        return ConversionResult::Passthrough;
    }
    let age: i64 = r.get_i64();
    let time_of_day: i64 = r.get_i64();
    let mut out = Writer::new();
    out.i64(age);
    out.i64(time_of_day);
    emit(V112_S2C_TIME_UPDATE, out)
}

/// SpawnPosition: three integers become a packed position.
pub open spec fn spec_s2c_spawn_position(b: Seq<u8>) -> Outcome {
    if b.len() < 12 {
        Outcome::Passthrough
    } else {
        converted(
            V112_S2C_SPAWN_POSITION,
            be_i64(legacy_bits(i32_at(b, 0) as int, i32_at(b, 4) as int, i32_at(b, 8) as int) as i64),
        )
    }
}

pub fn s2c_spawn_position(body: Bytes) -> (res: ConversionResult)
    ensures
        res@ == spec_s2c_spawn_position(content(body)),
{
    broadcast use empty_then;

    let mut r = Reader::new(body);
    if !r.has(12) {
        return ConversionResult::Passthrough;
    }
    let x: i32 = r.get_i32();
    let y: i32 = r.get_i32();
    let z: i32 = r.get_i32();
    let mut out = Writer::new();
    out.i64(encode_legacy_position(Position { x, y, z }));
    emit(V112_S2C_SPAWN_POSITION, out)
}

/// UpdateHealth: the food level becomes variable-length.
pub open spec fn spec_s2c_update_health(b: Seq<u8>) -> Outcome {
    if b.len() < 10 {
        Outcome::Passthrough
    } else {
        converted(
            V112_S2C_UPDATE_HEALTH,
            be32(u32_at(b, 0)) + varint(i16_at(b, 4) as i32) + be32(u32_at(b, 6)),
        )
    }
}

pub fn s2c_update_health(body: Bytes) -> (res: ConversionResult)
    ensures
        res@ == spec_s2c_update_health(content(body)),
{
    broadcast use empty_then;

    let mut r = Reader::new(body);
    if !r.has(10) {
        return ConversionResult::Passthrough;
    }
    let health: u32 = r.get_u32();
    let food: i16 = r.get_i16();
    let saturation: u32 = r.get_u32();
    let mut out = Writer::new();
    out.u32(health);
    out.varint(food as i32);
    out.u32(saturation);
    emit(V112_S2C_UPDATE_HEALTH, out)
}

/// CollectItem: the ids become variable-length, and the count is one.
pub open spec fn spec_s2c_collect_item(b: Seq<u8>) -> Outcome {
    if b.len() < 8 {
        Outcome::Passthrough
    } else {
        converted(
            V112_S2C_COLLECT_ITEM,
            varint(i32_at(b, 0)) + varint(i32_at(b, 4)) + varint(1),
        )
    }
}

pub fn s2c_collect_item(body: Bytes) -> (res: ConversionResult)
    ensures
        res@ == spec_s2c_collect_item(content(body)),
{
    broadcast use empty_then;

    let mut r = Reader::new(body);
    if !r.has(8) {
        return ConversionResult::Passthrough;
    }
    let collected: i32 = r.get_i32();
    let collector: i32 = r.get_i32();
    let mut out = Writer::new();
    out.varint(collected);
    out.varint(collector);
    out.varint(1);
    emit(V112_S2C_COLLECT_ITEM, out)
}

/// EntityHeadLook: the id becomes variable-length.
pub open spec fn spec_s2c_entity_head_look(b: Seq<u8>) -> Outcome {
    if b.len() < 5 {
        Outcome::Passthrough
    } else {
        converted(V112_S2C_ENTITY_HEAD_LOOK, varint(i32_at(b, 0)) + be_i8(i8_at(b, 4)))
    }
}

pub fn s2c_entity_head_look(body: Bytes) -> (res: ConversionResult)
    ensures
        res@ == spec_s2c_entity_head_look(content(body)),
{
    broadcast use empty_then;

    let mut r = Reader::new(body);
    if !r.has(5) {
        return ConversionResult::Passthrough;
    }
    let eid: i32 = r.get_i32();
    let yaw: i8 = r.get_i8();
    let mut out = Writer::new();
    out.varint(eid);
    out.i8(yaw);
    emit(V112_S2C_ENTITY_HEAD_LOOK, out)
}

/// PluginMessage: the channel changes its encoding and the data loses its length.
pub open spec fn spec_s2c_plugin_message(b: Seq<u8>) -> Outcome {
    match ucs2_at(b, 0) {
        None => Outcome::Passthrough,
        Some((channel, p)) => {
            if b.len() < p + 2 {
                Outcome::Passthrough
            } else if b.len() < p + 2 + u16_at(b, p) as int {
                Outcome::Passthrough
            } else {
                converted(
                    V112_S2C_PLUGIN_MESSAGE,
                    wire_string(utf16_lossy(channel))
                        + b.subrange(p + 2, p + 2 + u16_at(b, p) as int),
                )
            }
        },
    }
}

pub fn s2c_plugin_message(body: Bytes) -> (res: ConversionResult)
    ensures
        res@ == spec_s2c_plugin_message(content(body)),
{
    broadcast use empty_then;

    let mut r = Reader::new(body);
    let channel_units: Vec<u16> = match r.ucs2_units() {
        Some(u) => u,
        None => {
            return ConversionResult::Passthrough;
        },
    };
    let channel: String = string_from_utf16_lossy(channel_units.as_slice());
    if !r.has(2) {
        return ConversionResult::Passthrough;
    }
    let length: u16 = r.get_u16();
    if !r.has(length as usize) {
        return ConversionResult::Passthrough;
    }
    let data = r.get_bytes(length as usize);
    let mut out = Writer::new();
    out.string(channel.as_str());
    out.raw(bytes_to_vec(&data).as_slice());
    emit(V112_S2C_PLUGIN_MESSAGE, out)
}

/// LoginRequest becomes JoinGame: the world height is dropped, the level type moves behind
/// the player limit, and reduced debug information is off.
pub open spec fn spec_s2c_login_request(b: Seq<u8>) -> Outcome {
    if b.len() < 4 {
        Outcome::Passthrough
    } else {
        match ucs2_at(b, 4) {
            None => Outcome::Passthrough,
            Some((level_type, p)) => {
                if b.len() < p + 5 {
                    Outcome::Passthrough
                } else {
                    converted(
                        V112_S2C_LOGIN,
                        be_i32(i32_at(b, 0)) + seq![i8_at(b, p) as u8]
                            + be_i32(i8_at(b, p + 1) as i32) + seq![i8_at(b, p + 2) as u8]
                            + seq![b[p + 4]] + wire_string(utf16_lossy(level_type)) + seq![0u8],
                    )
                }
            },
        }
    }
}

pub fn s2c_login_request(body: Bytes) -> (res: ConversionResult)
    ensures
        res@ == spec_s2c_login_request(content(body)),
{
    broadcast use empty_then;

    let mut r = Reader::new(body);
    if !r.has(4) {
        return ConversionResult::Passthrough;
    }
    let entity_id: i32 = r.get_i32();
    let level_type_units: Vec<u16> = match r.ucs2_units() {
        Some(u) => u,
        None => {
            return ConversionResult::Passthrough;
        },
    };
    let level_type: String = string_from_utf16_lossy(level_type_units.as_slice());
    if !r.has(5) {
        return ConversionResult::Passthrough;
    }
    let gamemode: i8 = r.get_i8();
    let dimension: i8 = r.get_i8();
    let difficulty: i8 = r.get_i8();
    let _world_height: u8 = r.get_u8();
    let max_players: u8 = r.get_u8();
    let mut out = Writer::new();
    out.i32(entity_id);
    out.u8(gamemode as u8);
    out.i32(dimension as i32);
    out.u8(difficulty as u8);
    out.u8(max_players);
    out.string(level_type.as_str());
    out.u8(0);
    emit(V112_S2C_LOGIN, out)
}

/// Respawn: the world height is dropped.
pub open spec fn spec_s2c_respawn(b: Seq<u8>) -> Outcome {
    if b.len() < 8 {
        Outcome::Passthrough
    } else {
        match ucs2_at(b, 8) {
            None => Outcome::Passthrough,
            Some((level_type, p)) => {
                converted(
                    V112_S2C_RESPAWN,
                    be_i32(i32_at(b, 0)) + seq![i8_at(b, 4) as u8] + seq![i8_at(b, 5) as u8]
                        + wire_string(utf16_lossy(level_type)),
                )
            },
        }
    }
}

pub fn s2c_respawn(body: Bytes) -> (res: ConversionResult)
    ensures
        res@ == spec_s2c_respawn(content(body)),
{
    broadcast use empty_then;

    let mut r = Reader::new(body);
    if !r.has(8) {
        return ConversionResult::Passthrough;
    }
    let dimension: i32 = r.get_i32();
    let difficulty: i8 = r.get_i8();
    let gamemode: i8 = r.get_i8();
    let _world_height: i16 = r.get_i16();
    let level_type_units: Vec<u16> = match r.ucs2_units() {
        Some(u) => u,
        None => {
            return ConversionResult::Passthrough;
        },
    };
    let level_type: String = string_from_utf16_lossy(level_type_units.as_slice());
    let mut out = Writer::new();
    out.i32(dimension);
    out.u8(difficulty as u8);
    out.u8(gamemode as u8);
    out.string(level_type.as_str());
    emit(V112_S2C_RESPAWN, out)
}

/// EntityEquipment: the item is taken away.
pub open spec fn spec_s2c_entity_equipment_real(b: Seq<u8>) -> Outcome {
    if b.len() < 6 {
        Outcome::Passthrough
    } else {
        converted(
            V112_S2C_ENTITY_EQUIPMENT,
            varint(i32_at(b, 0)) + varint(i16_at(b, 4) as i32) + seq![0u8],
        )
    }
}

pub fn s2c_entity_equipment_real(body: Bytes) -> (res: ConversionResult)
    ensures
        res@ == spec_s2c_entity_equipment_real(content(body)),
{
    broadcast use empty_then;

    let mut r = Reader::new(body);
    if !r.has(6) {
        return ConversionResult::Passthrough;
    }
    let entity_id: i32 = r.get_i32();
    let slot: i16 = r.get_i16();
    let mut out = Writer::new();
    out.varint(entity_id);
    out.varint(slot as i32);
    out.u8(0);
    emit(V112_S2C_ENTITY_EQUIPMENT, out)
}

/// Animation: the id becomes variable-length.
pub open spec fn spec_s2c_animation(b: Seq<u8>) -> Outcome {
    if b.len() < 5 {
        Outcome::Passthrough
    } else {
        converted(V112_S2C_ANIMATION, varint(i32_at(b, 0)) + seq![b[4]])
    }
}

pub fn s2c_animation(body: Bytes) -> (res: ConversionResult)
    ensures
        res@ == spec_s2c_animation(content(body)),
{
    broadcast use empty_then;

    let mut r = Reader::new(body);
    if !r.has(5) {
        return ConversionResult::Passthrough;
    }
    let entity_id: i32 = r.get_i32();
    let animation: u8 = r.get_u8();
    let mut out = Writer::new();
    out.varint(entity_id);
    out.u8(animation);
    emit(V112_S2C_ANIMATION, out)
}

/// SpawnObject: the id becomes variable-length, and fixed-point coordinates become doubles.
/// The speed follows where there is a thrower and the speed is there.
pub open spec fn spec_s2c_spawn_object(b: Seq<u8>) -> Outcome {
    if b.len() < 23 {
        Outcome::Passthrough
    } else {
        let base = varint(i32_at(b, 0)) + seq![i8_at(b, 4) as u8] + be64(double_of_fixed(i32_at(b, 5) as int, 5)) + be64(double_of_fixed(i32_at(b, 9) as int, 5)) + be64(double_of_fixed(i32_at(b, 13) as int, 5)) + be_i8(i8_at(b, 17)) + be_i8(i8_at(b, 18)) + be_i32(i32_at(b, 19));
        if i32_at(b, 19) > 0 && b.len() >= 29 {
            converted(V112_S2C_SPAWN_OBJECT, base + be_i16(i16_at(b, 23)) + be_i16(i16_at(b, 25)) + be_i16(i16_at(b, 27)))
        } else {
            converted(V112_S2C_SPAWN_OBJECT, base)
        }
    }
}

pub fn s2c_spawn_object(body: Bytes) -> (res: ConversionResult)
    ensures
        res@ == spec_s2c_spawn_object(content(body)),
{
    broadcast use empty_then;

    let mut r = Reader::new(body);
    if !r.has(23) {
        return ConversionResult::Passthrough;
    }
    let eid: i32 = r.get_i32();
    let kind: i8 = r.get_i8();
    let x: i32 = r.get_i32();
    let y: i32 = r.get_i32();
    let z: i32 = r.get_i32();
    let pitch: i8 = r.get_i8();
    let yaw: i8 = r.get_i8();
    let thrower: i32 = r.get_i32();
    let mut out = Writer::new();
    out.varint(eid);
    out.u8(kind as u8);
    out.u64(fixed_to_double(x, 5));
    out.u64(fixed_to_double(y, 5));
    out.u64(fixed_to_double(z, 5));
    out.i8(pitch);
    out.i8(yaw);
    out.i32(thrower);
    if thrower > 0 && r.has(6) {
        let vx: i16 = r.get_i16();
        let vy: i16 = r.get_i16();
        let vz: i16 = r.get_i16();
        out.i16(vx);
        out.i16(vy);
        out.i16(vz);
    }
    emit(V112_S2C_SPAWN_OBJECT, out)
}

/// SpawnMob: fixed-point coordinates become doubles, the metadata is empty.
pub open spec fn spec_s2c_spawn_mob(b: Seq<u8>) -> Outcome {
    if b.len() < 26 {
        Outcome::Passthrough
    } else {
        converted(
            V112_S2C_SPAWN_MOB,
            varint(i32_at(b, 0)) + seq![b[4]] + be64(double_of_fixed(i32_at(b, 5) as int, 5))
                + be64(double_of_fixed(i32_at(b, 9) as int, 5))
                + be64(double_of_fixed(i32_at(b, 13) as int, 5)) + be_i8(i8_at(b, 17))
                + be_i8(i8_at(b, 18)) + be_i8(i8_at(b, 19)) + be_i16(i16_at(b, 20))
                + be_i16(i16_at(b, 22)) + be_i16(i16_at(b, 24)) + seq![0x7Fu8],
        )
    }
}

pub fn s2c_spawn_mob(body: Bytes) -> (res: ConversionResult)
    ensures
        res@ == spec_s2c_spawn_mob(content(body)),
{
    broadcast use empty_then;

    let mut r = Reader::new(body);
    if !r.has(26) {
        return ConversionResult::Passthrough;
    }
    let eid: i32 = r.get_i32();
    let kind: u8 = r.get_u8();
    let x: i32 = r.get_i32();
    let y: i32 = r.get_i32();
    let z: i32 = r.get_i32();
    let yaw: i8 = r.get_i8();
    let pitch: i8 = r.get_i8();
    let head_pitch: i8 = r.get_i8();
    let vx: i16 = r.get_i16();
    let vy: i16 = r.get_i16();
    let vz: i16 = r.get_i16();
    let mut out = Writer::new();
    out.varint(eid);
    out.u8(kind);
    out.u64(fixed_to_double(x, 5));
    out.u64(fixed_to_double(y, 5));
    out.u64(fixed_to_double(z, 5));
    out.i8(yaw);
    out.i8(pitch);
    out.i8(head_pitch);
    out.i16(vx);
    out.i16(vy);
    out.i16(vz);
    out.u8(0x7F);
    emit(V112_S2C_SPAWN_MOB, out)
}

/// SpawnPainting: the painting gets the given unique id, its place is packed, and its title
/// moves to the end.
pub open spec fn spec_s2c_spawn_painting(b: Seq<u8>, uuid: (u64, u64)) -> Outcome {
    if b.len() < 4 {
        Outcome::Passthrough
    } else {
        match ucs2_at(b, 4) {
            None => Outcome::Passthrough,
            Some((title, p)) => {
                if b.len() < p + 16 {
                    Outcome::Passthrough
                } else {
                    converted(
                        V112_S2C_SPAWN_PAINTING,
                        varint(i32_at(b, 0)) + be_i64(uuid.0 as i64) + be_i64(uuid.1 as i64)
                            + be_i64(legacy_bits(i32_at(b, p) as int, i32_at(b, p + 4) as int, i32_at(b, p + 8) as int) as i64)
                            + be_i8(i32_at(b, p + 12) as i8) + wire_string(utf16_lossy(title)),
                    )
                }
            },
        }
    }
}

pub fn s2c_spawn_painting(body: Bytes, uuid: (u64, u64)) -> (res: ConversionResult)
    ensures
        res@ == spec_s2c_spawn_painting(content(body), uuid),
{
    broadcast use empty_then;

    let mut r = Reader::new(body);
    if !r.has(4) {
        return ConversionResult::Passthrough;
    }
    let eid: i32 = r.get_i32();
    let title_units: Vec<u16> = match r.ucs2_units() {
        Some(u) => u,
        None => {
            return ConversionResult::Passthrough;
        },
    };
    let title: String = string_from_utf16_lossy(title_units.as_slice());
    if !r.has(16) {
        return ConversionResult::Passthrough;
    }
    let x: i32 = r.get_i32();
    let y: i32 = r.get_i32();
    let z: i32 = r.get_i32();
    let direction: i32 = r.get_i32();
    let mut out = Writer::new();
    out.varint(eid);
    out.i64(uuid.0 as i64);
    out.i64(uuid.1 as i64);
    out.i64(encode_legacy_position(Position { x, y, z }));
    out.i8(direction as i8);
    out.string(title.as_str());
    emit(V112_S2C_SPAWN_PAINTING, out)
}

/// SpawnExperienceOrb: fixed-point coordinates become doubles.
pub open spec fn spec_s2c_spawn_exp_orb(b: Seq<u8>) -> Outcome {
    if b.len() < 18 {
        Outcome::Passthrough
    } else {
        converted(
            V112_S2C_SPAWN_EXP_ORB,
            varint(i32_at(b, 0)) + be64(double_of_fixed(i32_at(b, 4) as int, 5))
                + be64(double_of_fixed(i32_at(b, 8) as int, 5))
                + be64(double_of_fixed(i32_at(b, 12) as int, 5)) + be_i16(i16_at(b, 16)),
        )
    }
}

pub fn s2c_spawn_exp_orb(body: Bytes) -> (res: ConversionResult)
    ensures
        res@ == spec_s2c_spawn_exp_orb(content(body)),
{
    broadcast use empty_then;

    let mut r = Reader::new(body);
    if !r.has(18) {
        return ConversionResult::Passthrough;
    }
    let eid: i32 = r.get_i32();
    let x: i32 = r.get_i32();
    let y: i32 = r.get_i32();
    let z: i32 = r.get_i32();
    let count: i16 = r.get_i16();
    let mut out = Writer::new();
    out.varint(eid);
    out.u64(fixed_to_double(x, 5));
    out.u64(fixed_to_double(y, 5));
    out.u64(fixed_to_double(z, 5));
    out.i16(count);
    emit(V112_S2C_SPAWN_EXP_ORB, out)
}

/// EntityVelocity: the id becomes variable-length.
pub open spec fn spec_s2c_entity_velocity(b: Seq<u8>) -> Outcome {
    if b.len() < 10 {
        Outcome::Passthrough
    } else {
        converted(
            V112_S2C_ENTITY_VELOCITY,
            varint(i32_at(b, 0)) + be_i16(i16_at(b, 4)) + be_i16(i16_at(b, 6))
                + be_i16(i16_at(b, 8)),
        )
    }
}

pub fn s2c_entity_velocity(body: Bytes) -> (res: ConversionResult)
    ensures
        res@ == spec_s2c_entity_velocity(content(body)),
{
    broadcast use empty_then;

    let mut r = Reader::new(body);
    if !r.has(10) {
        return ConversionResult::Passthrough;
    }
    let eid: i32 = r.get_i32();
    let vx: i16 = r.get_i16();
    let vy: i16 = r.get_i16();
    let vz: i16 = r.get_i16();
    let mut out = Writer::new();
    out.varint(eid);
    out.i16(vx);
    out.i16(vy);
    out.i16(vz);
    emit(V112_S2C_ENTITY_VELOCITY, out)
}

/// EntityLook: the id becomes variable-length, and the entity is off the ground.
pub open spec fn spec_s2c_entity_look(b: Seq<u8>) -> Outcome {
    if b.len() < 6 {
        Outcome::Passthrough
    } else {
        converted(
            V112_S2C_ENTITY_LOOK,
            varint(i32_at(b, 0)) + be_i8(i8_at(b, 4)) + be_i8(i8_at(b, 5)) + seq![0u8],
        )
    }
}

pub fn s2c_entity_look(body: Bytes) -> (res: ConversionResult)
    ensures
        res@ == spec_s2c_entity_look(content(body)),
{
    broadcast use empty_then;

    let mut r = Reader::new(body);
    if !r.has(6) {
        return ConversionResult::Passthrough;
    }
    let eid: i32 = r.get_i32();
    let yaw: i8 = r.get_i8();
    let pitch: i8 = r.get_i8();
    let mut out = Writer::new();
    out.varint(eid);
    out.i8(yaw);
    out.i8(pitch);
    out.u8(0);
    emit(V112_S2C_ENTITY_LOOK, out)
}

/// EntityLookAndRelativeMove: steps of 1/32 become steps of 1/4096.
pub open spec fn spec_s2c_entity_look_rel_move(b: Seq<u8>) -> Outcome {
    if b.len() < 9 {
        Outcome::Passthrough
    } else {
        converted(
            V112_S2C_ENTITY_LOOK_REL_MOVE,
            varint(i32_at(b, 0)) + be_i16((i8_at(b, 4) * 128) as i16)
                + be_i16((i8_at(b, 5) * 128) as i16) + be_i16((i8_at(b, 6) * 128) as i16)
                + be_i8(i8_at(b, 7)) + be_i8(i8_at(b, 8)) + seq![0u8],
        )
    }
}

pub fn s2c_entity_look_rel_move(body: Bytes) -> (res: ConversionResult)
    ensures
        res@ == spec_s2c_entity_look_rel_move(content(body)),
{
    broadcast use empty_then;

    let mut r = Reader::new(body);
    if !r.has(9) {
        return ConversionResult::Passthrough;
    }
    let eid: i32 = r.get_i32();
    let dx: i8 = r.get_i8();
    let dy: i8 = r.get_i8();
    let dz: i8 = r.get_i8();
    let yaw: i8 = r.get_i8();
    let pitch: i8 = r.get_i8();
    let mut out = Writer::new();
    out.varint(eid);
    out.i16(dx as i16 * 128);
    out.i16(dy as i16 * 128);
    out.i16(dz as i16 * 128);
    out.i8(yaw);
    out.i8(pitch);
    out.u8(0);
    emit(V112_S2C_ENTITY_LOOK_REL_MOVE, out)
}

/// EntityStatus: the same fields.
pub open spec fn spec_s2c_entity_status(b: Seq<u8>) -> Outcome {
    if b.len() < 5 {
        Outcome::Passthrough
    } else {
        converted(V112_S2C_ENTITY_STATUS, be_i32(i32_at(b, 0)) + be_i8(i8_at(b, 4)))
    }
}

pub fn s2c_entity_status(body: Bytes) -> (res: ConversionResult)
    ensures
        res@ == spec_s2c_entity_status(content(body)),
{
    broadcast use empty_then;

    let mut r = Reader::new(body);
    if !r.has(5) {
        return ConversionResult::Passthrough;
    }
    let eid: i32 = r.get_i32();
    let status: i8 = r.get_i8();
    let mut out = Writer::new();
    out.i32(eid);
    out.i8(status);
    emit(V112_S2C_ENTITY_STATUS, out)
}

/// AttachEntity: the same fields.
pub open spec fn spec_s2c_attach_entity(b: Seq<u8>) -> Outcome {
    if b.len() < 9 {
        Outcome::Passthrough
    } else {
        converted(
            V112_S2C_ATTACH_ENTITY,
            be_i32(i32_at(b, 0)) + be_i32(i32_at(b, 4)) + seq![b[8]],
        )
    }
}

pub fn s2c_attach_entity(body: Bytes) -> (res: ConversionResult)
    ensures
        res@ == spec_s2c_attach_entity(content(body)),
{
    broadcast use empty_then;

    let mut r = Reader::new(body);
    if !r.has(9) {
        return ConversionResult::Passthrough;
    }
    let riding: i32 = r.get_i32();
    let vehicle: i32 = r.get_i32();
    let state: u8 = r.get_u8();
    let mut out = Writer::new();
    out.i32(riding);
    out.i32(vehicle);
    out.u8(state);
    emit(V112_S2C_ATTACH_ENTITY, out)
}

/// EntityMetadata: the metadata is empty.
pub open spec fn spec_s2c_entity_metadata(b: Seq<u8>) -> Outcome {
    if b.len() < 4 {
        Outcome::Passthrough
    } else {
        converted(V112_S2C_ENTITY_METADATA, varint(i32_at(b, 0)) + seq![0x7Fu8])
    }
}

pub fn s2c_entity_metadata(body: Bytes) -> (res: ConversionResult)
    ensures
        res@ == spec_s2c_entity_metadata(content(body)),
{
    broadcast use empty_then;

    let mut r = Reader::new(body);
    if !r.has(4) {
        return ConversionResult::Passthrough;
    }
    let eid: i32 = r.get_i32();
    let mut out = Writer::new();
    out.varint(eid);
    out.u8(0x7F);
    emit(V112_S2C_ENTITY_METADATA, out)
}

/// EntityEffect: the id becomes variable-length, and particles show.
pub open spec fn spec_s2c_entity_effect(b: Seq<u8>) -> Outcome {
    if b.len() < 8 {
        Outcome::Passthrough
    } else {
        converted(
            V112_S2C_ENTITY_EFFECT,
            varint(i32_at(b, 0)) + be_i8(i8_at(b, 4)) + be_i8(i8_at(b, 5))
                + be_i16(i16_at(b, 6)) + seq![0u8],
        )
    }
}

pub fn s2c_entity_effect(body: Bytes) -> (res: ConversionResult)
    ensures
        res@ == spec_s2c_entity_effect(content(body)),
{
    broadcast use empty_then;

    let mut r = Reader::new(body);
    if !r.has(8) {
        return ConversionResult::Passthrough;
    }
    let eid: i32 = r.get_i32();
    let effect: i8 = r.get_i8();
    let amplifier: i8 = r.get_i8();
    let duration: i16 = r.get_i16();
    let mut out = Writer::new();
    out.varint(eid);
    out.i8(effect);
    out.i8(amplifier);
    out.i16(duration);
    out.u8(0);
    emit(V112_S2C_ENTITY_EFFECT, out)
}

/// RemoveEntityEffect: the id becomes variable-length.
pub open spec fn spec_s2c_remove_entity_effect(b: Seq<u8>) -> Outcome {
    if b.len() < 5 {
        Outcome::Passthrough
    } else {
        converted(V112_S2C_REMOVE_ENTITY_EFFECT, varint(i32_at(b, 0)) + be_i8(i8_at(b, 4)))
    }
}

pub fn s2c_remove_entity_effect(body: Bytes) -> (res: ConversionResult)
    ensures
        res@ == spec_s2c_remove_entity_effect(content(body)),
{
    broadcast use empty_then;

    let mut r = Reader::new(body);
    if !r.has(5) {
        return ConversionResult::Passthrough;
    }
    let eid: i32 = r.get_i32();
    let effect: i8 = r.get_i8();
    let mut out = Writer::new();
    out.varint(eid);
    out.i8(effect);
    emit(V112_S2C_REMOVE_ENTITY_EFFECT, out)
}

/// EntityProperties: the id becomes variable-length, the rest stays.
pub open spec fn spec_s2c_entity_properties(b: Seq<u8>) -> Outcome {
    if b.len() < 4 {
        Outcome::Passthrough
    } else {
        converted(V112_S2C_ENTITY_PROPERTIES, varint(i32_at(b, 0)) + b.skip(4))
    }
}

pub fn s2c_entity_properties(body: Bytes) -> (res: ConversionResult)
    ensures
        res@ == spec_s2c_entity_properties(content(body)),
{
    broadcast use empty_then;

    let mut r = Reader::new(body);
    if !r.has(4) {
        return ConversionResult::Passthrough;
    }
    let eid: i32 = r.get_i32();
    let tail = r.rest();
    let mut out = Writer::new();
    out.varint(eid);
    out.raw(bytes_to_vec(&tail).as_slice());
    emit(V112_S2C_ENTITY_PROPERTIES, out)
}

/// BlockAction: the place is packed, the block id variable-length.
pub open spec fn spec_s2c_block_action(b: Seq<u8>) -> Outcome {
    if b.len() < 14 {
        Outcome::Passthrough
    } else {
        converted(
            V112_S2C_BLOCK_ACTION,
            be_i64(legacy_bits(i32_at(b, 0) as int, i16_at(b, 4) as int, i32_at(b, 6) as int) as i64)
                + be_i8(i8_at(b, 10)) + be_i8(i8_at(b, 11)) + varint(i16_at(b, 12) as i32),
        )
    }
}

pub fn s2c_block_action(body: Bytes) -> (res: ConversionResult)
    ensures
        res@ == spec_s2c_block_action(content(body)),
{
    broadcast use empty_then;

    let mut r = Reader::new(body);
    if !r.has(14) {
        return ConversionResult::Passthrough;
    }
    let x: i32 = r.get_i32();
    let y: i16 = r.get_i16();
    let z: i32 = r.get_i32();
    let first: i8 = r.get_i8();
    let second: i8 = r.get_i8();
    let block_id: i16 = r.get_i16();
    let mut out = Writer::new();
    out.i64(encode_legacy_position(Position { x, y: y as i32, z }));
    out.i8(first);
    out.i8(second);
    out.varint(block_id as i32);
    emit(V112_S2C_BLOCK_ACTION, out)
}

/// BlockBreakAnimation: the place is packed, the id variable-length.
pub open spec fn spec_s2c_block_break_animation(b: Seq<u8>) -> Outcome {
    if b.len() < 14 {
        Outcome::Passthrough
    } else {
        converted(
            V112_S2C_BLOCK_BREAK_ANIMATION,
            varint(i32_at(b, 0))
                + be_i64(legacy_bits(i32_at(b, 4) as int, i8_at(b, 8) as int, i32_at(b, 9) as int) as i64)
                + be_i8(i8_at(b, 13)),
        )
    }
}

pub fn s2c_block_break_animation(body: Bytes) -> (res: ConversionResult)
    ensures
        res@ == spec_s2c_block_break_animation(content(body)),
{
    broadcast use empty_then;

    let mut r = Reader::new(body);
    if !r.has(14) {
        return ConversionResult::Passthrough;
    }
    let breaker: i32 = r.get_i32();
    let x: i32 = r.get_i32();
    let y: i8 = r.get_i8();
    let z: i32 = r.get_i32();
    let stage: i8 = r.get_i8();
    let mut out = Writer::new();
    out.varint(breaker);
    out.i64(encode_legacy_position(Position { x, y: y as i32, z }));
    out.i8(stage);
    emit(V112_S2C_BLOCK_BREAK_ANIMATION, out)
}

/// Explosion: the place goes from doubles to singles. The records, three bytes for each counted
/// block, and the push behind them stay as they are.
pub open spec fn spec_s2c_explosion(b: Seq<u8>) -> Outcome {
    if b.len() < 32 {
        Outcome::Passthrough
    } else {
        let count = i32_at(b, 28);
        let end = 32 + 3 * count;
        if count < 0 || b.len() < end + 12 {
            Outcome::Passthrough
        } else {
            converted(
                V112_S2C_EXPLOSION,
                be32(narrowed(u64_at(b, 0))) + be32(narrowed(u64_at(b, 8))) + be32(narrowed(u64_at(b, 16)))
                    + be32(u32_at(b, 24)) + be_i32(count) + b.subrange(32, end) + be32(u32_at(b, end))
                    + be32(u32_at(b, end + 4)) + be32(u32_at(b, end + 8)),
            )
        }
    }
}

pub fn s2c_explosion(body: Bytes) -> (res: ConversionResult)
    ensures
        res@ == spec_s2c_explosion(content(body)),
{
    broadcast use empty_then;

    let mut r = Reader::new(body);
    if !r.has(32) {
        return ConversionResult::Passthrough;
    }
    let x: u64 = r.get_u64();
    let y: u64 = r.get_u64();
    let z: u64 = r.get_u64();
    let radius: u32 = r.get_u32();
    let count: i32 = r.get_i32();
    if count < 0 || (r.remaining() as u64) < count as u64 * 3 + 12 {
        return ConversionResult::Passthrough;
    }
    let records = r.get_bytes(count as usize * 3);
    let vx: u32 = r.get_u32();
    let vy: u32 = r.get_u32();
    let vz: u32 = r.get_u32();
    let mut out = Writer::new();
    out.u32(double_to_single(x));
    out.u32(double_to_single(y));
    out.u32(double_to_single(z));
    out.u32(radius);
    out.i32(count);
    out.raw(bytes_to_vec(&records).as_slice());
    out.u32(vx);
    out.u32(vy);
    out.u32(vz);
    emit(V112_S2C_EXPLOSION, out)
}

/// Effect: the place is packed, and the volume flag is 0 or 1.
pub open spec fn spec_s2c_effect(b: Seq<u8>) -> Outcome {
    if b.len() < 18 {
        Outcome::Passthrough
    } else {
        converted(
            V112_S2C_EFFECT,
            be_i32(i32_at(b, 0))
                + be_i64(legacy_bits(i32_at(b, 4) as int, b[8] as int, i32_at(b, 9) as int) as i64)
                + be_i32(i32_at(b, 13)) + seq![if b[17] != 0 { 1u8 } else { 0u8 }],
        )
    }
}

pub fn s2c_effect(body: Bytes) -> (res: ConversionResult)
    ensures
        res@ == spec_s2c_effect(content(body)),
{
    broadcast use empty_then;

    let mut r = Reader::new(body);
    if !r.has(18) {
        return ConversionResult::Passthrough;
    }
    let effect: i32 = r.get_i32();
    let x: i32 = r.get_i32();
    let y: u8 = r.get_u8();
    let z: i32 = r.get_i32();
    let data: i32 = r.get_i32();
    let fixed_volume: u8 = r.get_u8();
    let mut out = Writer::new();
    out.i32(effect);
    out.i64(encode_legacy_position(Position { x, y: y as i32, z }));
    out.i32(data);
    out.u8(if fixed_volume != 0 { 1 } else { 0 });
    emit(V112_S2C_EFFECT, out)
}

/// NamedSoundEffect: the category is the master volume, the pitch a single of 63 steps.
pub open spec fn spec_s2c_named_sound(b: Seq<u8>) -> Outcome {
    match ucs2_at(b, 0) {
        None => Outcome::Passthrough,
        Some((name, p)) => {
            if b.len() < p + 17 {
                Outcome::Passthrough
            } else {
                converted(
                    V112_S2C_NAMED_SOUND,
                    wire_string(utf16_lossy(name)) + varint(0) + be_i32(i32_at(b, p))
                        + be_i32(i32_at(b, p + 4)) + be_i32(i32_at(b, p + 8))
                        + be32(u32_at(b, p + 12))
                        + be32(single_of_sixty_thirds(i8_at(b, p + 16) as int)),
                )
            }
        },
    }
}

pub fn s2c_named_sound(body: Bytes) -> (res: ConversionResult)
    ensures
        res@ == spec_s2c_named_sound(content(body)),
{
    broadcast use empty_then;

    let mut r = Reader::new(body);
    let name_units: Vec<u16> = match r.ucs2_units() {
        Some(u) => u,
        None => {
            return ConversionResult::Passthrough;
        },
    };
    let name: String = string_from_utf16_lossy(name_units.as_slice());
    if !r.has(17) {
        return ConversionResult::Passthrough;
    }
    let x: i32 = r.get_i32();
    let y: i32 = r.get_i32();
    let z: i32 = r.get_i32();
    let volume: u32 = r.get_u32();
    let pitch: i8 = r.get_i8();
    let mut out = Writer::new();
    out.string(name.as_str());
    out.varint(0);
    out.i32(x);
    out.i32(y);
    out.i32(z);
    out.u32(volume);
    out.u32(sixty_thirds_to_single(pitch));
    emit(V112_S2C_NAMED_SOUND, out)
}

/// ChangeGameState: the same fields.
pub open spec fn spec_s2c_game_state(b: Seq<u8>) -> Outcome {
    if b.len() < 5 {
        Outcome::Passthrough
    } else {
        converted(V112_S2C_GAME_STATE, seq![b[0]] + be32(u32_at(b, 1)))
    }
}

pub fn s2c_game_state(body: Bytes) -> (res: ConversionResult)
    ensures
        res@ == spec_s2c_game_state(content(body)),
{
    broadcast use empty_then;

    let mut r = Reader::new(body);
    if !r.has(5) {
        return ConversionResult::Passthrough;
    }
    let reason: u8 = r.get_u8();
    let value: u32 = r.get_u32();
    let mut out = Writer::new();
    out.u8(reason);
    out.u32(value);
    emit(V112_S2C_GAME_STATE, out)
}

/// SpawnGlobalEntity: fixed-point coordinates become doubles.
pub open spec fn spec_s2c_spawn_global_entity(b: Seq<u8>) -> Outcome {
    if b.len() < 17 {
        Outcome::Passthrough
    } else {
        converted(
            V112_S2C_SPAWN_GLOBAL_ENTITY,
            varint(i32_at(b, 0)) + seq![b[4]] + be64(double_of_fixed(i32_at(b, 5) as int, 5))
                + be64(double_of_fixed(i32_at(b, 9) as int, 5))
                + be64(double_of_fixed(i32_at(b, 13) as int, 5)),
        )
    }
}

pub fn s2c_spawn_global_entity(body: Bytes) -> (res: ConversionResult)
    ensures
        res@ == spec_s2c_spawn_global_entity(content(body)),
{
    broadcast use empty_then;

    let mut r = Reader::new(body);
    if !r.has(17) {
        return ConversionResult::Passthrough;
    }
    let eid: i32 = r.get_i32();
    let kind: u8 = r.get_u8();
    let x: i32 = r.get_i32();
    let y: i32 = r.get_i32();
    let z: i32 = r.get_i32();
    let mut out = Writer::new();
    out.varint(eid);
    out.u8(kind);
    out.u64(fixed_to_double(x, 5));
    out.u64(fixed_to_double(y, 5));
    out.u64(fixed_to_double(z, 5));
    emit(V112_S2C_SPAWN_GLOBAL_ENTITY, out)
}

/// OpenWindow: the kind becomes its name, the custom-title flag is dropped, and a horse's
/// window ends with the horse's id, 0 where it is missing.
pub open spec fn spec_s2c_open_window(b: Seq<u8>) -> Outcome {
    if b.len() < 2 {
        Outcome::Passthrough
    } else {
        match ucs2_at(b, 2) {
            None => Outcome::Passthrough,
            Some((title, p)) => {
                if b.len() < p + 2 {
                    Outcome::Passthrough
                } else {
                    let base = seq![b[0]] + wire_string(spec_window_kind(b[1])@) + wire_string(utf16_lossy(title)) + seq![b[p]];
                    if b[1] == 11 {
                        let horse = if b.len() >= p + 2 + 4 { i32_at(b, p + 2) } else { 0 };
                        converted(V112_S2C_OPEN_WINDOW, base + be_i32(horse))
                    } else {
                        converted(V112_S2C_OPEN_WINDOW, base)
                    }
                }
            },
        }
    }
}

pub fn s2c_open_window(body: Bytes) -> (res: ConversionResult)
    ensures
        res@ == spec_s2c_open_window(content(body)),
{
    broadcast use empty_then;

    let mut r = Reader::new(body);
    if !r.has(2) {
        return ConversionResult::Passthrough;
    }
    let window_id: u8 = r.get_u8();
    let kind: u8 = r.get_u8();
    let title_units: Vec<u16> = match r.ucs2_units() {
        Some(u) => u,
        None => {
            return ConversionResult::Passthrough;
        },
    };
    let title: String = string_from_utf16_lossy(title_units.as_slice());
    if !r.has(2) {
        return ConversionResult::Passthrough;
    }
    let slots: u8 = r.get_u8();
    let _custom_title: u8 = r.get_u8();
    let horse: i32 = if kind == 11 && r.has(4) { r.get_i32() } else { 0 };
    let mut out = Writer::new();
    out.u8(window_id);
    out.string(window_kind(kind));
    out.string(title.as_str());
    out.u8(slots);
    if kind == 11 {
        out.i32(horse);
    }
    emit(V112_S2C_OPEN_WINDOW, out)
}

/// CloseWindow: the same field.
pub open spec fn spec_s2c_close_window_s2c(b: Seq<u8>) -> Outcome {
    if b.len() < 1 {
        Outcome::Passthrough
    } else {
        converted(V112_S2C_CLOSE_WINDOW, seq![b[0]])
    }
}

pub fn s2c_close_window_s2c(body: Bytes) -> (res: ConversionResult)
    ensures
        res@ == spec_s2c_close_window_s2c(content(body)),
{
    broadcast use empty_then;

    let mut r = Reader::new(body);
    if !r.has(1) {
        return ConversionResult::Passthrough;
    }
    let window_id: u8 = r.get_u8();
    let mut out = Writer::new();
    out.u8(window_id);
    emit(V112_S2C_CLOSE_WINDOW, out)
}

/// UpdateWindowProperty: the same fields.
pub open spec fn spec_s2c_update_window_property(b: Seq<u8>) -> Outcome {
    if b.len() < 5 {
        Outcome::Passthrough
    } else {
        converted(
            V112_S2C_UPDATE_WINDOW_PROPERTY,
            seq![b[0]] + be_i16(i16_at(b, 1)) + be_i16(i16_at(b, 3)),
        )
    }
}

pub fn s2c_update_window_property(body: Bytes) -> (res: ConversionResult)
    ensures
        res@ == spec_s2c_update_window_property(content(body)),
{
    broadcast use empty_then;

    let mut r = Reader::new(body);
    if !r.has(5) {
        return ConversionResult::Passthrough;
    }
    let window_id: u8 = r.get_u8();
    let property: i16 = r.get_i16();
    let value: i16 = r.get_i16();
    let mut out = Writer::new();
    out.u8(window_id);
    out.i16(property);
    out.i16(value);
    emit(V112_S2C_UPDATE_WINDOW_PROPERTY, out)
}

/// ConfirmTransaction: the same fields.
pub open spec fn spec_s2c_confirm_transaction_s2c(b: Seq<u8>) -> Outcome {
    if b.len() < 4 {
        Outcome::Passthrough
    } else {
        converted(V112_S2C_CONFIRM_TRANSACTION, seq![b[0]] + be_i16(i16_at(b, 1)) + seq![b[3]])
    }
}

pub fn s2c_confirm_transaction_s2c(body: Bytes) -> (res: ConversionResult)
    ensures
        res@ == spec_s2c_confirm_transaction_s2c(content(body)),
{
    broadcast use empty_then;

    let mut r = Reader::new(body);
    if !r.has(4) {
        return ConversionResult::Passthrough;
    }
    let window_id: u8 = r.get_u8();
    let action: i16 = r.get_i16();
    let accepted: u8 = r.get_u8();
    let mut out = Writer::new();
    out.u8(window_id);
    out.i16(action);
    out.u8(accepted);
    emit(V112_S2C_CONFIRM_TRANSACTION, out)
}

/// UpdateTileEntity: the place is packed, the data stays.
pub open spec fn spec_s2c_update_tile_entity(b: Seq<u8>) -> Outcome {
    if b.len() < 11 {
        Outcome::Passthrough
    } else {
        converted(
            V112_S2C_TILE_ENTITY_DATA,
            be_i64(legacy_bits(i32_at(b, 0) as int, i16_at(b, 4) as int, i32_at(b, 6) as int) as i64)
                + seq![b[10]] + b.skip(11),
        )
    }
}

pub fn s2c_update_tile_entity(body: Bytes) -> (res: ConversionResult)
    ensures
        res@ == spec_s2c_update_tile_entity(content(body)),
{
    broadcast use empty_then;

    let mut r = Reader::new(body);
    if !r.has(11) {
        return ConversionResult::Passthrough;
    }
    let x: i32 = r.get_i32();
    let y: i16 = r.get_i16();
    let z: i32 = r.get_i32();
    let action: u8 = r.get_u8();
    let data = r.rest();
    let mut out = Writer::new();
    out.i64(encode_legacy_position(Position { x, y: y as i32, z }));
    out.u8(action);
    out.raw(bytes_to_vec(&data).as_slice());
    emit(V112_S2C_TILE_ENTITY_DATA, out)
}

/// Statistic: one statistic becomes a list of one.
pub open spec fn spec_s2c_statistic(b: Seq<u8>) -> Outcome {
    if b.len() < 5 {
        Outcome::Passthrough
    } else {
        converted(
            V112_S2C_STATISTIC,
            varint(1) + varint(i32_at(b, 0)) + varint(i8_at(b, 4) as i32),
        )
    }
}

pub fn s2c_statistic(body: Bytes) -> (res: ConversionResult)
    ensures
        res@ == spec_s2c_statistic(content(body)),
{
    broadcast use empty_then;

    let mut r = Reader::new(body);
    if !r.has(5) {
        return ConversionResult::Passthrough;
    }
    let statistic: i32 = r.get_i32();
    let amount: i8 = r.get_i8();
    let mut out = Writer::new();
    out.varint(1);
    out.varint(statistic);
    out.varint(amount as i32);
    emit(V112_S2C_STATISTIC, out)
}

/// PlayerListItem: one name becomes an added player, whose unique id goes by the name.
pub open spec fn spec_s2c_player_list_item(b: Seq<u8>) -> Outcome {
    match ucs2_at(b, 0) {
        None => Outcome::Passthrough,
        Some((name, p)) => {
            if b.len() < p + 3 {
                Outcome::Passthrough
            } else {
                converted(V112_S2C_PLAYER_LIST_ITEM, added_entry(utf16_lossy(name), offline_id(utf16_lossy(name))))
            }
        },
    }
}

pub fn s2c_player_list_item(body: Bytes) -> (res: ConversionResult)
    ensures
        res@ == spec_s2c_player_list_item(content(body)),
{
    broadcast use empty_then;

    let mut r = Reader::new(body);
    let name_units: Vec<u16> = match r.ucs2_units() {
        Some(u) => u,
        None => {
            return ConversionResult::Passthrough;
        },
    };
    let name: String = string_from_utf16_lossy(name_units.as_slice());
    if !r.has(3) {
        return ConversionResult::Passthrough;
    }
    let _online: u8 = r.get_u8();
    let _ping: i16 = r.get_i16();
    added_player(name.as_str(), offline_uuid(name.as_str()))
}

/// ScoreboardObjective: the texts change their encoding, and a removal has no value. Every mode
/// but creation and removal is an update.
pub open spec fn spec_s2c_scoreboard_objective(b: Seq<u8>) -> Outcome {
    match ucs2_at(b, 0) {
        None => Outcome::Passthrough,
        Some((name, p)) => {
            match ucs2_at(b, p) {
                None => Outcome::Passthrough,
                Some((value, p2)) => {
                    if b.len() < p2 + 1 {
                        Outcome::Passthrough
                    } else {
                        if b[p2] == 1 {
                            converted(V112_S2C_SCOREBOARD_OBJECTIVE, wire_string(utf16_lossy(name)) + varint(1))
                        } else {
                            converted(
                                V112_S2C_SCOREBOARD_OBJECTIVE,
                                wire_string(utf16_lossy(name)) + wire_string(utf16_lossy(value)) + varint(if b[p2] == 0 { 0 } else { 2 }),
                            )
                        }
                    }
                },
            }
        },
    }
}

pub fn s2c_scoreboard_objective(body: Bytes) -> (res: ConversionResult)
    ensures
        res@ == spec_s2c_scoreboard_objective(content(body)),
{
    broadcast use empty_then;

    let mut r = Reader::new(body);
    let name_units: Vec<u16> = match r.ucs2_units() {
        Some(u) => u,
        None => {
            return ConversionResult::Passthrough;
        },
    };
    let name: String = string_from_utf16_lossy(name_units.as_slice());
    let value_units: Vec<u16> = match r.ucs2_units() {
        Some(u) => u,
        None => {
            return ConversionResult::Passthrough;
        },
    };
    let value: String = string_from_utf16_lossy(value_units.as_slice());
    if !r.has(1) {
        return ConversionResult::Passthrough;
    }
    let mode: u8 = r.get_u8();
    let mut out = Writer::new();
    out.string(name.as_str());
    if mode == 1 {
        out.varint(1);
    } else {
        out.string(value.as_str());
        out.varint(if mode == 0 { 0 } else { 2 });
    }
    emit(V112_S2C_SCOREBOARD_OBJECTIVE, out)
}

/// UpdateScore: a removal ends behind its mode, and any other mode is an update. An update
/// carries its value where the value is there.
pub open spec fn spec_s2c_update_score(b: Seq<u8>) -> Outcome {
    match ucs2_at(b, 0) {
        None => Outcome::Passthrough,
        Some((item, p)) => {
            if b.len() < p + 1 {
                Outcome::Passthrough
            } else {
                if b[p] == 1 {
                    converted(V112_S2C_UPDATE_SCORE, wire_string(utf16_lossy(item)) + varint(1))
                } else {
                    match ucs2_at(b, p + 1) {
                        None => Outcome::Passthrough,
                        Some((objective, q)) => {
                            let head = wire_string(utf16_lossy(item)) + varint(0) + wire_string(utf16_lossy(objective));
                            if b.len() >= q + 4 {
                                converted(V112_S2C_UPDATE_SCORE, head + varint(i32_at(b, q)))
                            } else {
                                converted(V112_S2C_UPDATE_SCORE, head)
                            }
                        },
                    }
                }
            }
        },
    }
}

pub fn s2c_update_score(body: Bytes) -> (res: ConversionResult)
    ensures
        res@ == spec_s2c_update_score(content(body)),
{
    broadcast use empty_then;

    let mut r = Reader::new(body);
    let item_units: Vec<u16> = match r.ucs2_units() {
        Some(u) => u,
        None => {
            return ConversionResult::Passthrough;
        },
    };
    let item: String = string_from_utf16_lossy(item_units.as_slice());
    if !r.has(1) {
        return ConversionResult::Passthrough;
    }
    let mode: u8 = r.get_u8();
    let mut out = Writer::new();
    out.string(item.as_str());
    if mode == 1 {
        out.varint(1);
        return emit(V112_S2C_UPDATE_SCORE, out);
    }
    let objective_units: Vec<u16> = match r.ucs2_units() {
        Some(u) => u,
        None => {
            return ConversionResult::Passthrough;
        },
    };
    let objective: String = string_from_utf16_lossy(objective_units.as_slice());
    out.varint(0);
    out.string(objective.as_str());
    if r.has(4) {
        let value: i32 = r.get_i32();
        out.varint(value);
    }
    emit(V112_S2C_UPDATE_SCORE, out)
}

/// DisplayScoreboard: the name changes its encoding.
pub open spec fn spec_s2c_display_scoreboard(b: Seq<u8>) -> Outcome {
    if b.len() < 1 {
        Outcome::Passthrough
    } else {
        match ucs2_at(b, 1) {
            None => Outcome::Passthrough,
            Some((name, p)) => {
                converted(
                    V112_S2C_DISPLAY_SCOREBOARD,
                    seq![b[0]] + wire_string(utf16_lossy(name)),
                )
            },
        }
    }
}

pub fn s2c_display_scoreboard(body: Bytes) -> (res: ConversionResult)
    ensures
        res@ == spec_s2c_display_scoreboard(content(body)),
{
    broadcast use empty_then;

    let mut r = Reader::new(body);
    if !r.has(1) {
        return ConversionResult::Passthrough;
    }
    let position: u8 = r.get_u8();
    let name_units: Vec<u16> = match r.ucs2_units() {
        Some(u) => u,
        None => {
            return ConversionResult::Passthrough;
        },
    };
    let name: String = string_from_utf16_lossy(name_units.as_slice());
    let mut out = Writer::new();
    out.u8(position);
    out.string(name.as_str());
    emit(V112_S2C_DISPLAY_SCOREBOARD, out)
}

/// The 1.12.2 form of a 1.6.4 packet toward the client. Packets without a counterpart
/// are dropped, unknown ones are left alone.
pub open spec fn spec_s2c(id: u8, b: Seq<u8>, uuid: (u64, u64)) -> Outcome {
    if id == V164_S2C_KEEP_ALIVE {
        spec_s2c_keep_alive(b)
    } else if id == V164_S2C_LOGIN_REQUEST {
        spec_s2c_login_request(b)
    } else if id == V164_S2C_CHAT {
        spec_s2c_chat(b)
    } else if id == V164_S2C_RESPAWN {
        spec_s2c_respawn(b)
    } else if id == V164_S2C_ENTITY_EQUIPMENT_REAL {
        spec_s2c_entity_equipment_real(b)
    } else if id == V164_S2C_PLAYER_POS_LOOK {
        spec_s2c_player_pos_look(b)
    } else if id == V164_S2C_SPAWN_PLAYER {
        spec_s2c_spawn_player(b, uuid)
    } else if id == V164_S2C_USE_BED {
        Outcome::Drop
    } else if id == V164_S2C_ANIMATION {
        spec_s2c_animation(b)
    } else if id == V164_S2C_SPAWN_OBJECT {
        spec_s2c_spawn_object(b)
    } else if id == V164_S2C_SPAWN_MOB {
        spec_s2c_spawn_mob(b)
    } else if id == V164_S2C_SPAWN_PAINTING {
        spec_s2c_spawn_painting(b, uuid)
    } else if id == V164_S2C_SPAWN_EXP_ORB {
        spec_s2c_spawn_exp_orb(b)
    } else if id == V164_S2C_ENTITY_TELEPORT {
        spec_s2c_entity_teleport(b)
    } else if id == V164_S2C_ENTITY_REL_MOVE {
        spec_s2c_entity_rel_move(b)
    } else if id == V164_S2C_ENTITY {
        spec_s2c_entity(b)
    } else if id == V164_S2C_ENTITY_VELOCITY {
        spec_s2c_entity_velocity(b)
    } else if id == V164_S2C_ENTITY_LOOK {
        spec_s2c_entity_look(b)
    } else if id == V164_S2C_ENTITY_LOOK_REL_MOVE {
        spec_s2c_entity_look_rel_move(b)
    } else if id == V164_S2C_ENTITY_STATUS {
        spec_s2c_entity_status(b)
    } else if id == V164_S2C_ATTACH_ENTITY {
        spec_s2c_attach_entity(b)
    } else if id == V164_S2C_ENTITY_METADATA {
        spec_s2c_entity_metadata(b)
    } else if id == V164_S2C_ENTITY_EFFECT {
        spec_s2c_entity_effect(b)
    } else if id == V164_S2C_REMOVE_ENTITY_EFFECT {
        spec_s2c_remove_entity_effect(b)
    } else if id == V164_S2C_ENTITY_PROPERTIES {
        spec_s2c_entity_properties(b)
    } else if id == V164_S2C_BLOCK_CHANGE {
        spec_s2c_block_change(b)
    } else if id == V164_S2C_MULTI_BLOCK_CHANGE {
        Outcome::Drop
    } else if id == V164_S2C_BLOCK_ACTION {
        spec_s2c_block_action(b)
    } else if id == V164_S2C_BLOCK_BREAK_ANIMATION {
        spec_s2c_block_break_animation(b)
    } else if id == V164_S2C_EXPLOSION {
        spec_s2c_explosion(b)
    } else if id == V164_S2C_EFFECT {
        spec_s2c_effect(b)
    } else if id == V164_S2C_NAMED_SOUND {
        spec_s2c_named_sound(b)
    } else if id == V164_S2C_PARTICLE {
        Outcome::Drop
    } else if id == V164_S2C_GAME_STATE {
        spec_s2c_game_state(b)
    } else if id == V164_S2C_SPAWN_GLOBAL_ENTITY {
        spec_s2c_spawn_global_entity(b)
    } else if id == V164_S2C_SET_SLOT {
        spec_s2c_set_slot(b)
    } else if id == V164_S2C_WINDOW_ITEMS {
        spec_s2c_window_items(b)
    } else if id == V164_S2C_OPEN_WINDOW {
        spec_s2c_open_window(b)
    } else if id == V164_S2C_CLOSE_WINDOW {
        spec_s2c_close_window_s2c(b)
    } else if id == V164_S2C_UPDATE_WINDOW_PROPERTY {
        spec_s2c_update_window_property(b)
    } else if id == V164_S2C_CONFIRM_TRANSACTION {
        spec_s2c_confirm_transaction_s2c(b)
    } else if id == V164_S2C_EXPERIENCE {
        spec_s2c_experience(b)
    } else if id == V164_S2C_HELD_ITEM_CHANGE {
        spec_s2c_held_item_change(b)
    } else if id == V164_S2C_PLAYER_ABILITIES {
        spec_s2c_player_abilities(b)
    } else if id == V164_S2C_DISCONNECT {
        spec_s2c_disconnect(b)
    } else if id == V164_S2C_TIME_UPDATE {
        spec_s2c_time_update(b)
    } else if id == V164_S2C_SPAWN_POSITION {
        spec_s2c_spawn_position(b)
    } else if id == V164_S2C_UPDATE_HEALTH {
        spec_s2c_update_health(b)
    } else if id == V164_S2C_COLLECT_ITEM {
        spec_s2c_collect_item(b)
    } else if id == V164_S2C_DESTROY_ENTITIES {
        spec_s2c_destroy_entities(b)
    } else if id == V164_S2C_ENTITY_HEAD_LOOK {
        spec_s2c_entity_head_look(b)
    } else if id == V164_S2C_PLUGIN_MESSAGE {
        spec_s2c_plugin_message(b)
    } else if id == V164_S2C_UPDATE_TILE_ENTITY {
        spec_s2c_update_tile_entity(b)
    } else if id == V164_S2C_ITEM_DATA {
        Outcome::Drop
    } else if id == V164_S2C_STATISTIC {
        spec_s2c_statistic(b)
    } else if id == V164_S2C_PLAYER_LIST_ITEM {
        spec_s2c_player_list_item(b)
    } else if id == V164_S2C_SCOREBOARD_OBJECTIVE {
        spec_s2c_scoreboard_objective(b)
    } else if id == V164_S2C_UPDATE_SCORE {
        spec_s2c_update_score(b)
    } else if id == V164_S2C_DISPLAY_SCOREBOARD {
        spec_s2c_display_scoreboard(b)
    } else if id == V164_S2C_TEAMS {
        Outcome::Drop
    } else {
        Outcome::Passthrough
    }
}

fn s2c(id: u8, body: Bytes, uuid: (u64, u64)) -> (res: ConversionResult)
    requires
        spec_s2c_readable(id, content(body)),
    ensures
        res@ == spec_s2c(id, content(body), uuid),
{
    if id == V164_S2C_KEEP_ALIVE {
        s2c_keep_alive(body)
    } else if id == V164_S2C_LOGIN_REQUEST {
        s2c_login_request(body)
    } else if id == V164_S2C_CHAT {
        s2c_chat(body)
    } else if id == V164_S2C_RESPAWN {
        s2c_respawn(body)
    } else if id == V164_S2C_ENTITY_EQUIPMENT_REAL {
        s2c_entity_equipment_real(body)
    } else if id == V164_S2C_PLAYER_POS_LOOK {
        s2c_player_pos_look(body)
    } else if id == V164_S2C_SPAWN_PLAYER {
        s2c_spawn_player(body, uuid)
    } else if id == V164_S2C_USE_BED {
        ConversionResult::Drop
    } else if id == V164_S2C_ANIMATION {
        s2c_animation(body)
    } else if id == V164_S2C_SPAWN_OBJECT {
        s2c_spawn_object(body)
    } else if id == V164_S2C_SPAWN_MOB {
        s2c_spawn_mob(body)
    } else if id == V164_S2C_SPAWN_PAINTING {
        s2c_spawn_painting(body, uuid)
    } else if id == V164_S2C_SPAWN_EXP_ORB {
        s2c_spawn_exp_orb(body)
    } else if id == V164_S2C_ENTITY_TELEPORT {
        s2c_entity_teleport(body)
    } else if id == V164_S2C_ENTITY_REL_MOVE {
        s2c_entity_rel_move(body)
    } else if id == V164_S2C_ENTITY {
        s2c_entity(body)
    } else if id == V164_S2C_ENTITY_VELOCITY {
        s2c_entity_velocity(body)
    } else if id == V164_S2C_ENTITY_LOOK {
        s2c_entity_look(body)
    } else if id == V164_S2C_ENTITY_LOOK_REL_MOVE {
        s2c_entity_look_rel_move(body)
    } else if id == V164_S2C_ENTITY_STATUS {
        s2c_entity_status(body)
    } else if id == V164_S2C_ATTACH_ENTITY {
        s2c_attach_entity(body)
    } else if id == V164_S2C_ENTITY_METADATA {
        s2c_entity_metadata(body)
    } else if id == V164_S2C_ENTITY_EFFECT {
        s2c_entity_effect(body)
    } else if id == V164_S2C_REMOVE_ENTITY_EFFECT {
        s2c_remove_entity_effect(body)
    } else if id == V164_S2C_ENTITY_PROPERTIES {
        s2c_entity_properties(body)
    } else if id == V164_S2C_BLOCK_CHANGE {
        s2c_block_change(body)
    } else if id == V164_S2C_MULTI_BLOCK_CHANGE {
        ConversionResult::Drop
    } else if id == V164_S2C_BLOCK_ACTION {
        s2c_block_action(body)
    } else if id == V164_S2C_BLOCK_BREAK_ANIMATION {
        s2c_block_break_animation(body)
    } else if id == V164_S2C_EXPLOSION {
        s2c_explosion(body)
    } else if id == V164_S2C_EFFECT {
        s2c_effect(body)
    } else if id == V164_S2C_NAMED_SOUND {
        s2c_named_sound(body)
    } else if id == V164_S2C_PARTICLE {
        ConversionResult::Drop
    } else if id == V164_S2C_GAME_STATE {
        s2c_game_state(body)
    } else if id == V164_S2C_SPAWN_GLOBAL_ENTITY {
        s2c_spawn_global_entity(body)
    } else if id == V164_S2C_SET_SLOT {
        s2c_set_slot(body)
    } else if id == V164_S2C_WINDOW_ITEMS {
        s2c_window_items(body)
    } else if id == V164_S2C_OPEN_WINDOW {
        s2c_open_window(body)
    } else if id == V164_S2C_CLOSE_WINDOW {
        s2c_close_window_s2c(body)
    } else if id == V164_S2C_UPDATE_WINDOW_PROPERTY {
        s2c_update_window_property(body)
    } else if id == V164_S2C_CONFIRM_TRANSACTION {
        s2c_confirm_transaction_s2c(body)
    } else if id == V164_S2C_EXPERIENCE {
        s2c_experience(body)
    } else if id == V164_S2C_HELD_ITEM_CHANGE {
        s2c_held_item_change(body)
    } else if id == V164_S2C_PLAYER_ABILITIES {
        s2c_player_abilities(body)
    } else if id == V164_S2C_DISCONNECT {
        s2c_disconnect(body)
    } else if id == V164_S2C_TIME_UPDATE {
        s2c_time_update(body)
    } else if id == V164_S2C_SPAWN_POSITION {
        s2c_spawn_position(body)
    } else if id == V164_S2C_UPDATE_HEALTH {
        s2c_update_health(body)
    } else if id == V164_S2C_COLLECT_ITEM {
        s2c_collect_item(body)
    } else if id == V164_S2C_DESTROY_ENTITIES {
        s2c_destroy_entities(body)
    } else if id == V164_S2C_ENTITY_HEAD_LOOK {
        s2c_entity_head_look(body)
    } else if id == V164_S2C_PLUGIN_MESSAGE {
        s2c_plugin_message(body)
    } else if id == V164_S2C_UPDATE_TILE_ENTITY {
        s2c_update_tile_entity(body)
    } else if id == V164_S2C_ITEM_DATA {
        ConversionResult::Drop
    } else if id == V164_S2C_STATISTIC {
        s2c_statistic(body)
    } else if id == V164_S2C_PLAYER_LIST_ITEM {
        s2c_player_list_item(body)
    } else if id == V164_S2C_SCOREBOARD_OBJECTIVE {
        s2c_scoreboard_objective(body)
    } else if id == V164_S2C_UPDATE_SCORE {
        s2c_update_score(body)
    } else if id == V164_S2C_DISPLAY_SCOREBOARD {
        s2c_display_scoreboard(body)
    } else if id == V164_S2C_TEAMS {
        ConversionResult::Drop
    } else {
        ConversionResult::Passthrough
    }
}

/// Whether a packet is long enough for what is read of it. Experience is tested for fewer bytes
/// than it holds.
pub open spec fn spec_s2c_readable(id: u8, b: Seq<u8>) -> bool {
    id == V164_S2C_EXPERIENCE ==> !(4 <= b.len() < 8)
}

/// Whether a packet with its id is long enough for what is read of it.
pub open spec fn s2c_readable(p: Seq<u8>) -> bool {
    match split(p) {
        Some((id, b)) => spec_s2c_readable(id, b),
        None => true,
    }
}

/// What becomes of a packet toward the client where a spawned player or painting gets the
/// given unique id.
pub open spec fn spec_convert_s2c(p: Seq<u8>, uuid: (u64, u64)) -> Outcome {
    match split(p) {
        Some((id, b)) => spec_s2c(id, b, uuid),
        None => Outcome::Passthrough,
    }
}

/// Converts a packet toward the client. A player or a painting that is spawned gets a random
/// unique id.
pub fn convert_s2c(payload: Bytes) -> (res: ConversionResult)
    requires
        s2c_readable(content(payload)),
    ensures
        exists|uuid: (u64, u64)|
            is_random_uuid(uuid) && res@ == #[trigger] spec_convert_s2c(content(payload), uuid),
{
    let ghost p = content(payload);
    match split_id(payload) {
        Some((id, body)) => {
            let uuid: (u64, u64) = if id == V164_S2C_SPAWN_PLAYER || id == V164_S2C_SPAWN_PAINTING {
                fresh_uuid()
            } else {
                unused_uuid()
            };
            let res = s2c(id, body, uuid);
            assert(res@ == spec_convert_s2c(p, uuid));
            res
        },
        None => {
            let uuid = unused_uuid();
            assert(Outcome::Passthrough == spec_convert_s2c(p, uuid));
            ConversionResult::Passthrough
        },
    }
}

/// Converts a packet toward the client, or gives `None` where it is too short for what is
/// read of it.
pub fn try_convert_s2c(payload: Bytes, uuid: (u64, u64)) -> (res: Option<ConversionResult>)
    ensures
        res is Some <==> s2c_readable(content(payload)),
        res matches Some(c) ==> c@ == spec_convert_s2c(content(payload), uuid),
{
    match split_id(payload) {
        Some((id, body)) => {
            let n: usize = bytes_len(&body);
            if id == V164_S2C_EXPERIENCE && 4 <= n && n < 8 {
                None
            } else {
                Some(s2c(id, body, uuid))
            }
        },
        None => Some(ConversionResult::Passthrough),
    }
}

// Packets of 1.6.4 toward the server.

pub const V164_C2S_KEEP_ALIVE: u8 = 0x00;
pub const V164_C2S_CHAT: u8 = 0x03;
pub const V164_C2S_PLAYER_POS_LOOK: u8 = 0x0D;
pub const V164_C2S_PLAYER_DIGGING: u8 = 0x0E;
pub const V164_C2S_PLAYER_BLOCK_PLACEMENT: u8 = 0x0F;
pub const V164_C2S_HELD_ITEM_CHANGE: u8 = 0x10;
pub const V164_C2S_ENTITY_ACTION: u8 = 0x13;
pub const V164_C2S_USE_ENTITY: u8 = 0x07;
pub const V164_C2S_PLAYER: u8 = 0x0A;
pub const V164_C2S_PLAYER_POSITION: u8 = 0x0B;
pub const V164_C2S_PLAYER_LOOK: u8 = 0x0C;
pub const V164_C2S_ANIMATION: u8 = 0x12;
pub const V164_C2S_CLIENT_COMMAND: u8 = 0x16;
pub const V164_C2S_CLOSE_WINDOW: u8 = 0x65;
pub const V164_C2S_CLICK_WINDOW: u8 = 0x66;
pub const V164_C2S_CONFIRM_TX: u8 = 0x6A;
pub const V164_C2S_UPDATE_SIGN: u8 = 0x82;
pub const V164_C2S_PLAYER_ABILITIES: u8 = 0xCA;
pub const V164_C2S_TAB_COMPLETE: u8 = 0xCB;
pub const V164_C2S_CLIENT_SETTINGS: u8 = 0xCC;
pub const V164_C2S_CLIENT_STATUS: u8 = 0xCD;
pub const V164_C2S_PLUGIN_MESSAGE: u8 = 0xFA;
pub const V164_C2S_STEER_VEHICLE: u8 = 0x1B;
pub const V164_C2S_CREATIVE_INVENTORY_ACTION: u8 = 0x6B;
pub const V164_C2S_ENCHANT_ITEM: u8 = 0x6C;

pub const V112_C2S_KEEP_ALIVE: u8 = 0x0B;
pub const V112_C2S_CHAT: u8 = 0x02;
pub const V112_C2S_PLAYER_POS_LOOK: u8 = 0x0E;
pub const V112_C2S_PLAYER_DIGGING: u8 = 0x14;
pub const V112_C2S_PLAYER_BLOCK_PLACEMENT: u8 = 0x1F;
pub const V112_C2S_HELD_ITEM_CHANGE: u8 = 0x1A;
pub const V112_C2S_ENTITY_ACTION: u8 = 0x15;
pub const V112_C2S_TAB_COMPLETE_OUT: u8 = 0x01;
pub const V112_C2S_CLIENT_STATUS_OUT: u8 = 0x03;
pub const V112_C2S_CLIENT_SETTINGS_OUT: u8 = 0x04;
pub const V112_C2S_CONFIRM_TX_OUT: u8 = 0x05;
pub const V112_C2S_CLICK_WINDOW_OUT: u8 = 0x07;
pub const V112_C2S_CLOSE_WINDOW_OUT: u8 = 0x08;
pub const V112_C2S_PLUGIN_MESSAGE_OUT: u8 = 0x09;
pub const V112_C2S_USE_ENTITY_OUT: u8 = 0x0A;
pub const V112_C2S_PLAYER_POSITION_OUT: u8 = 0x0C;
pub const V112_C2S_PLAYER_LOOK_OUT: u8 = 0x0F;
pub const V112_C2S_PLAYER_OUT: u8 = 0x0D;
pub const V112_C2S_PLAYER_ABILITIES_OUT: u8 = 0x13;
pub const V112_C2S_UPDATE_SIGN_OUT: u8 = 0x1C;
pub const V112_C2S_ANIMATION_OUT: u8 = 0x1D;
pub const V112_C2S_STEER_VEHICLE_OUT: u8 = 0x16;
pub const V112_C2S_CREATIVE_INVENTORY_ACTION_OUT: u8 = 0x1B;
pub const V112_C2S_ENCHANT_ITEM_OUT: u8 = 0x06;

/// UseEntity: the user is dropped, and a left click is an attack.
pub open spec fn spec_c2s_use_entity(b: Seq<u8>) -> Outcome {
    if b.len() < 9 {
        Outcome::Passthrough
    } else {
        converted(
            V112_C2S_USE_ENTITY_OUT,
            varint(i32_at(b, 4)) + varint(if i8_at(b, 8) != 0 { 1i32 } else { 0i32 }),
        )
    }
}

pub fn c2s_use_entity(body: Bytes) -> (res: ConversionResult)
    ensures
        res@ == spec_c2s_use_entity(content(body)),
{
    broadcast use empty_then;

    let mut r = Reader::new(body);
    if !r.has(9) {
        return ConversionResult::Passthrough;
    }
    let _user: i32 = r.get_i32();
    let target: i32 = r.get_i32();
    let left_click: i8 = r.get_i8();
    let mut out = Writer::new();
    out.varint(target);
    out.varint(if left_click != 0 { 1 } else { 0 });
    emit(V112_C2S_USE_ENTITY_OUT, out)
}

/// Player: the same field.
pub open spec fn spec_c2s_player(b: Seq<u8>) -> Outcome {
    if b.len() < 1 {
        Outcome::Passthrough
    } else {
        converted(V112_C2S_PLAYER_OUT, seq![b[0]])
    }
}

pub fn c2s_player(body: Bytes) -> (res: ConversionResult)
    ensures
        res@ == spec_c2s_player(content(body)),
{
    broadcast use empty_then;

    let mut r = Reader::new(body);
    if !r.has(1) {
        return ConversionResult::Passthrough;
    }
    let on_ground: u8 = r.get_u8();
    let mut out = Writer::new();
    out.u8(on_ground);
    emit(V112_C2S_PLAYER_OUT, out)
}

/// PlayerPosition: the stance is dropped.
pub open spec fn spec_c2s_player_position(b: Seq<u8>) -> Outcome {
    if b.len() < 33 {
        Outcome::Passthrough
    } else {
        converted(
            V112_C2S_PLAYER_POSITION_OUT,
            be64(u64_at(b, 0)) + be64(u64_at(b, 8)) + be64(u64_at(b, 24)) + seq![b[32]],
        )
    }
}

pub fn c2s_player_position(body: Bytes) -> (res: ConversionResult)
    ensures
        res@ == spec_c2s_player_position(content(body)),
{
    broadcast use empty_then;

    let mut r = Reader::new(body);
    if !r.has(33) {
        return ConversionResult::Passthrough;
    }
    let x: u64 = r.get_u64();
    let y: u64 = r.get_u64();
    let _stance: u64 = r.get_u64();
    let z: u64 = r.get_u64();
    let on_ground: u8 = r.get_u8();
    let mut out = Writer::new();
    out.u64(x);
    out.u64(y);
    out.u64(z);
    out.u8(on_ground);
    emit(V112_C2S_PLAYER_POSITION_OUT, out)
}

/// PlayerLook: the same fields.
pub open spec fn spec_c2s_player_look(b: Seq<u8>) -> Outcome {
    if b.len() < 9 {
        Outcome::Passthrough
    } else {
        converted(
            V112_C2S_PLAYER_LOOK_OUT,
            be32(u32_at(b, 0)) + be32(u32_at(b, 4)) + seq![b[8]],
        )
    }
}

pub fn c2s_player_look(body: Bytes) -> (res: ConversionResult)
    ensures
        res@ == spec_c2s_player_look(content(body)),
{
    broadcast use empty_then;

    let mut r = Reader::new(body);
    if !r.has(9) {
        return ConversionResult::Passthrough;
    }
    let yaw: u32 = r.get_u32();
    let pitch: u32 = r.get_u32();
    let on_ground: u8 = r.get_u8();
    let mut out = Writer::new();
    out.u32(yaw);
    out.u32(pitch);
    out.u8(on_ground);
    emit(V112_C2S_PLAYER_LOOK_OUT, out)
}

/// Animation: every animation is a swing of the main hand.
pub open spec fn spec_c2s_animation(b: Seq<u8>) -> Outcome {
    if b.len() < 5 {
        Outcome::Passthrough
    } else {
        converted(V112_C2S_ANIMATION_OUT, varint(0))
    }
}

pub fn c2s_animation(body: Bytes) -> (res: ConversionResult)
    ensures
        res@ == spec_c2s_animation(content(body)),
{
    broadcast use empty_then;

    let mut r = Reader::new(body);
    if !r.has(5) {
        return ConversionResult::Passthrough;
    }
    let mut out = Writer::new();
    out.varint(0);
    emit(V112_C2S_ANIMATION_OUT, out)
}

/// ClientCommand: every command is a respawn.
pub open spec fn spec_c2s_client_command(b: Seq<u8>) -> Outcome {
    if b.len() < 1 {
        Outcome::Passthrough
    } else {
        converted(V112_C2S_CLIENT_STATUS_OUT, varint(0))
    }
}

pub fn c2s_client_command(body: Bytes) -> (res: ConversionResult)
    ensures
        res@ == spec_c2s_client_command(content(body)),
{
    broadcast use empty_then;

    let mut r = Reader::new(body);
    if !r.has(1) {
        return ConversionResult::Passthrough;
    }
    let mut out = Writer::new();
    out.varint(0);
    emit(V112_C2S_CLIENT_STATUS_OUT, out)
}

/// CloseWindow: the same field.
pub open spec fn spec_c2s_close_window(b: Seq<u8>) -> Outcome {
    if b.len() < 1 {
        Outcome::Passthrough
    } else {
        converted(V112_C2S_CLOSE_WINDOW_OUT, seq![b[0]])
    }
}

pub fn c2s_close_window(body: Bytes) -> (res: ConversionResult)
    ensures
        res@ == spec_c2s_close_window(content(body)),
{
    broadcast use empty_then;

    let mut r = Reader::new(body);
    if !r.has(1) {
        return ConversionResult::Passthrough;
    }
    let window_id: u8 = r.get_u8();
    let mut out = Writer::new();
    out.u8(window_id);
    emit(V112_C2S_CLOSE_WINDOW_OUT, out)
}

/// ClickWindow: the mode becomes variable-length, and the item is taken away.
pub open spec fn spec_c2s_click_window(b: Seq<u8>) -> Outcome {
    if b.len() < 7 {
        Outcome::Passthrough
    } else {
        converted(
            V112_C2S_CLICK_WINDOW_OUT,
            seq![b[0]] + be_i16(i16_at(b, 1)) + be_i8(i8_at(b, 3)) + be_i16(i16_at(b, 4))
                + varint(i8_at(b, 6) as i32) + be_i16(-1i16),
        )
    }
}

pub fn c2s_click_window(body: Bytes) -> (res: ConversionResult)
    ensures
        res@ == spec_c2s_click_window(content(body)),
{
    broadcast use empty_then;

    let mut r = Reader::new(body);
    if !r.has(7) {
        return ConversionResult::Passthrough;
    }
    let window_id: u8 = r.get_u8();
    let slot: i16 = r.get_i16();
    let button: i8 = r.get_i8();
    let action: i16 = r.get_i16();
    let mode: i8 = r.get_i8();
    let mut out = Writer::new();
    out.u8(window_id);
    out.i16(slot);
    out.i8(button);
    out.i16(action);
    out.varint(mode as i32);
    out.i16(-1);
    emit(V112_C2S_CLICK_WINDOW_OUT, out)
}

/// ConfirmTransaction: the same fields.
pub open spec fn spec_c2s_confirm_tx(b: Seq<u8>) -> Outcome {
    if b.len() < 4 {
        Outcome::Passthrough
    } else {
        converted(V112_C2S_CONFIRM_TX_OUT, seq![b[0]] + be_i16(i16_at(b, 1)) + seq![b[3]])
    }
}

pub fn c2s_confirm_tx(body: Bytes) -> (res: ConversionResult)
    ensures
        res@ == spec_c2s_confirm_tx(content(body)),
{
    broadcast use empty_then;

    let mut r = Reader::new(body);
    if !r.has(4) {
        return ConversionResult::Passthrough;
    }
    let window_id: u8 = r.get_u8();
    let action: i16 = r.get_i16();
    let accepted: u8 = r.get_u8();
    let mut out = Writer::new();
    out.u8(window_id);
    out.i16(action);
    out.u8(accepted);
    emit(V112_C2S_CONFIRM_TX_OUT, out)
}

/// PlayerAbilities: the same fields.
pub open spec fn spec_c2s_player_abilities(b: Seq<u8>) -> Outcome {
    if b.len() < 9 {
        Outcome::Passthrough
    } else {
        converted(
            V112_C2S_PLAYER_ABILITIES_OUT,
            be_i8(i8_at(b, 0)) + be32(u32_at(b, 1)) + be32(u32_at(b, 5)),
        )
    }
}

pub fn c2s_player_abilities(body: Bytes) -> (res: ConversionResult)
    ensures
        res@ == spec_c2s_player_abilities(content(body)),
{
    broadcast use empty_then;

    let mut r = Reader::new(body);
    if !r.has(9) {
        return ConversionResult::Passthrough;
    }
    let flags: i8 = r.get_i8();
    let flying: u32 = r.get_u32();
    let walking: u32 = r.get_u32();
    let mut out = Writer::new();
    out.i8(flags);
    out.u32(flying);
    out.u32(walking);
    emit(V112_C2S_PLAYER_ABILITIES_OUT, out)
}

/// TabComplete: the text is no assumed command and has no looked-at block.
pub open spec fn spec_c2s_tab_complete(b: Seq<u8>) -> Outcome {
    match ucs2_at(b, 0) {
        None => Outcome::Passthrough,
        Some((text, p)) => {
            converted(
                V112_C2S_TAB_COMPLETE_OUT,
                wire_string(utf16_or_empty(text)) + seq![0u8] + seq![0u8],
            )
        },
    }
}

pub fn c2s_tab_complete(body: Bytes) -> (res: ConversionResult)
    ensures
        res@ == spec_c2s_tab_complete(content(body)),
{
    broadcast use empty_then;

    let mut r = Reader::new(body);
    let text_units: Vec<u16> = match r.ucs2_units() {
        Some(u) => u,
        None => {
            return ConversionResult::Passthrough;
        },
    };
    let text: String = utf16_text_or_empty(&text_units);
    let mut out = Writer::new();
    out.string(text.as_str());
    out.u8(0);
    out.u8(0);
    emit(V112_C2S_TAB_COMPLETE_OUT, out)
}

/// ClientSettings: the chat flags are taken apart into mode and colours, the difficulty and
/// the cape are dropped, every skin part shows, and the main hand is the right one.
pub open spec fn spec_c2s_client_settings(b: Seq<u8>) -> Outcome {
    match ucs2_at(b, 0) {
        None => Outcome::Passthrough,
        Some((locale, p)) => {
            if b.len() < p + 4 {
                Outcome::Passthrough
            } else {
                converted(
                    V112_C2S_CLIENT_SETTINGS_OUT,
                    wire_string(utf16_or_empty(locale)) + be_i8(i8_at(b, p))
                        + varint((i8_at(b, p + 1) & 0x7) as i32)
                        + seq![if i8_at(b, p + 1) & 0x8 != 0 { 1u8 } else { 0u8 }]
                        + seq![0x7Fu8] + varint(1),
                )
            }
        },
    }
}

pub fn c2s_client_settings(body: Bytes) -> (res: ConversionResult)
    ensures
        res@ == spec_c2s_client_settings(content(body)),
{
    broadcast use empty_then;

    let mut r = Reader::new(body);
    let locale_units: Vec<u16> = match r.ucs2_units() {
        Some(u) => u,
        None => {
            return ConversionResult::Passthrough;
        },
    };
    let locale: String = utf16_text_or_empty(&locale_units);
    if !r.has(4) {
        return ConversionResult::Passthrough;
    }
    let view_distance: i8 = r.get_i8();
    let chat_flags: i8 = r.get_i8();
    let _difficulty: i8 = r.get_i8();
    let _show_cape: u8 = r.get_u8();
    let mut out = Writer::new();
    out.string(locale.as_str());
    out.i8(view_distance);
    out.varint((chat_flags & 0x7) as i32);
    out.u8(if chat_flags & 0x8 != 0 { 1 } else { 0 });
    out.u8(0x7F);
    out.varint(1);
    emit(V112_C2S_CLIENT_SETTINGS_OUT, out)
}

/// ClientStatus: the status becomes variable-length.
pub open spec fn spec_c2s_client_status(b: Seq<u8>) -> Outcome {
    if b.len() < 1 {
        Outcome::Passthrough
    } else {
        converted(V112_C2S_CLIENT_STATUS_OUT, varint(i8_at(b, 0) as i32))
    }
}

pub fn c2s_client_status(body: Bytes) -> (res: ConversionResult)
    ensures
        res@ == spec_c2s_client_status(content(body)),
{
    broadcast use empty_then;

    let mut r = Reader::new(body);
    if !r.has(1) {
        return ConversionResult::Passthrough;
    }
    let status: i8 = r.get_i8();
    let mut out = Writer::new();
    out.varint(status as i32);
    emit(V112_C2S_CLIENT_STATUS_OUT, out)
}

/// PluginMessage: the channel changes its encoding and the data loses its length. A
/// negative length stands for no data.
pub open spec fn spec_c2s_plugin_message(b: Seq<u8>) -> Outcome {
    match ucs2_at(b, 0) {
        None => Outcome::Passthrough,
        Some((channel, p)) => {
            if b.len() < p + 2 {
                Outcome::Passthrough
            } else if b.len() < p + 2 + (if i16_at(b, p) > 0 { i16_at(b, p) as int } else { 0 }) {
                Outcome::Passthrough
            } else {
                converted(
                    V112_C2S_PLUGIN_MESSAGE_OUT,
                    wire_string(utf16_or_empty(channel))
                        + b.subrange(p + 2, p + 2 + (if i16_at(b, p) > 0 { i16_at(b, p) as int } else { 0 })),
                )
            }
        },
    }
}

pub fn c2s_plugin_message(body: Bytes) -> (res: ConversionResult)
    ensures
        res@ == spec_c2s_plugin_message(content(body)),
{
    broadcast use empty_then;

    let mut r = Reader::new(body);
    let channel_units: Vec<u16> = match r.ucs2_units() {
        Some(u) => u,
        None => {
            return ConversionResult::Passthrough;
        },
    };
    let channel: String = utf16_text_or_empty(&channel_units);
    if !r.has(2) {
        return ConversionResult::Passthrough;
    }
    let length: i16 = r.get_i16();
    if !r.has(if length > 0 { length as usize } else { 0 }) {
        return ConversionResult::Passthrough;
    }
    let data = r.get_bytes(if length > 0 { length as usize } else { 0 });
    let mut out = Writer::new();
    out.string(channel.as_str());
    out.raw(bytes_to_vec(&data).as_slice());
    emit(V112_C2S_PLUGIN_MESSAGE_OUT, out)
}

/// KeepAlive: the `i32` id becomes an `i64`.
pub open spec fn spec_c2s_keep_alive(b: Seq<u8>) -> Outcome {
    if b.len() < 4 {
        Outcome::Passthrough
    } else {
        converted(V112_C2S_KEEP_ALIVE, be_i64(i32_at(b, 0) as i64))
    }
}

pub fn c2s_keep_alive(body: Bytes) -> (res: ConversionResult)
    ensures
        res@ == spec_c2s_keep_alive(content(body)),
{
    broadcast use empty_then;

    let mut r = Reader::new(body);
    if !r.has(4) {
        return ConversionResult::Passthrough;
    }
    let id: i32 = r.get_i32();
    let mut out = Writer::new();
    out.i64(id as i64);
    emit(V112_C2S_KEEP_ALIVE, out)
}

/// Chat: the text changes its encoding.
pub open spec fn spec_c2s_chat(b: Seq<u8>) -> Outcome {
    match ucs2_at(b, 0) {
        None => Outcome::Passthrough,
        Some((message, p)) => {
            converted(V112_C2S_CHAT, wire_string(utf16_lossy(message)))
        },
    }
}

pub fn c2s_chat(body: Bytes) -> (res: ConversionResult)
    ensures
        res@ == spec_c2s_chat(content(body)),
{
    broadcast use empty_then;

    let mut r = Reader::new(body);
    let message_units: Vec<u16> = match r.ucs2_units() {
        Some(u) => u,
        None => {
            return ConversionResult::Passthrough;
        },
    };
    let message: String = string_from_utf16_lossy(message_units.as_slice());
    let mut out = Writer::new();
    out.string(message.as_str());
    emit(V112_C2S_CHAT, out)
}

/// PlayerPositionAndLook: the stance is dropped, and the ground flag is 0 or 1.
pub open spec fn spec_c2s_player_pos_look(b: Seq<u8>) -> Outcome {
    if b.len() < 41 {
        Outcome::Passthrough
    } else {
        converted(
            V112_C2S_PLAYER_POS_LOOK,
            be64(u64_at(b, 0)) + be64(u64_at(b, 16)) + be64(u64_at(b, 24)) + be32(u32_at(b, 32))
                + be32(u32_at(b, 36)) + seq![if b[40] != 0 { 1u8 } else { 0u8 }],
        )
    }
}

pub fn c2s_player_pos_look(body: Bytes) -> (res: ConversionResult)
    ensures
        res@ == spec_c2s_player_pos_look(content(body)),
{
    broadcast use empty_then;

    let mut r = Reader::new(body);
    if !r.has(41) {
        return ConversionResult::Passthrough;
    }
    let x: u64 = r.get_u64();
    let _stance: u64 = r.get_u64();
    let y: u64 = r.get_u64();
    let z: u64 = r.get_u64();
    let yaw: u32 = r.get_u32();
    let pitch: u32 = r.get_u32();
    let on_ground: u8 = r.get_u8();
    let mut out = Writer::new();
    out.u64(x);
    out.u64(y);
    out.u64(z);
    out.u32(yaw);
    out.u32(pitch);
    out.u8(if on_ground != 0 { 1 } else { 0 });
    emit(V112_C2S_PLAYER_POS_LOOK, out)
}

/// PlayerDigging: the place is packed, and status and face become variable-length.
pub open spec fn spec_c2s_player_digging(b: Seq<u8>) -> Outcome {
    if b.len() < 11 {
        Outcome::Passthrough
    } else {
        converted(
            V112_C2S_PLAYER_DIGGING,
            varint(i8_at(b, 0) as i32)
                + be_i64(legacy_bits(i32_at(b, 1) as int, i8_at(b, 5) as int, i32_at(b, 6) as int) as i64)
                + varint(i8_at(b, 10) as i32),
        )
    }
}

pub fn c2s_player_digging(body: Bytes) -> (res: ConversionResult)
    ensures
        res@ == spec_c2s_player_digging(content(body)),
{
    broadcast use empty_then;

    let mut r = Reader::new(body);
    if !r.has(11) {
        return ConversionResult::Passthrough;
    }
    let status: i8 = r.get_i8();
    let x: i32 = r.get_i32();
    let y: i8 = r.get_i8();
    let z: i32 = r.get_i32();
    let face: i8 = r.get_i8();
    let mut out = Writer::new();
    out.varint(status as i32);
    out.i64(encode_legacy_position(Position { x, y: y as i32, z }));
    out.varint(face as i32);
    emit(V112_C2S_PLAYER_DIGGING, out)
}

/// PlayerBlockPlacement: the place is packed, the face becomes variable-length, the held item
/// gives way to the main hand, and the cursor goes from 16ths of a block to singles.
pub open spec fn spec_c2s_player_block_placement(b: Seq<u8>) -> Outcome {
    if b.len() < 15 {
        Outcome::Passthrough
    } else {
        converted(
            V112_C2S_PLAYER_BLOCK_PLACEMENT,
            be_i64(legacy_bits(i32_at(b, 0) as int, b[4] as int, i32_at(b, 5) as int) as i64)
                + varint(i8_at(b, 9) as i32) + varint(0)
                + be32(single_of_sixteenths(i8_at(b, 12) as int))
                + be32(single_of_sixteenths(i8_at(b, 13) as int))
                + be32(single_of_sixteenths(i8_at(b, 14) as int)),
        )
    }
}

pub fn c2s_player_block_placement(body: Bytes) -> (res: ConversionResult)
    ensures
        res@ == spec_c2s_player_block_placement(content(body)),
{
    broadcast use empty_then;

    let mut r = Reader::new(body);
    if !r.has(15) {
        return ConversionResult::Passthrough;
    }
    let x: i32 = r.get_i32();
    let y: u8 = r.get_u8();
    let z: i32 = r.get_i32();
    let direction: i8 = r.get_i8();
    let _held_item: i16 = r.get_i16();
    let cursor_x: i8 = r.get_i8();
    let cursor_y: i8 = r.get_i8();
    let cursor_z: i8 = r.get_i8();
    let mut out = Writer::new();
    out.i64(encode_legacy_position(Position { x, y: y as i32, z }));
    out.varint(direction as i32);
    out.varint(0);
    out.u32(sixteenths_to_single(cursor_x as i16));
    out.u32(sixteenths_to_single(cursor_y as i16));
    out.u32(sixteenths_to_single(cursor_z as i16));
    emit(V112_C2S_PLAYER_BLOCK_PLACEMENT, out)
}

/// HeldItemChange: the same field.
pub open spec fn spec_c2s_held_item_change(b: Seq<u8>) -> Outcome {
    if b.len() < 2 {
        Outcome::Passthrough
    } else {
        converted(V112_C2S_HELD_ITEM_CHANGE, be_i16(i16_at(b, 0)))
    }
}

pub fn c2s_held_item_change(body: Bytes) -> (res: ConversionResult)
    ensures
        res@ == spec_c2s_held_item_change(content(body)),
{
    broadcast use empty_then;

    let mut r = Reader::new(body);
    if !r.has(2) {
        return ConversionResult::Passthrough;
    }
    let slot: i16 = r.get_i16();
    let mut out = Writer::new();
    out.i16(slot);
    emit(V112_C2S_HELD_ITEM_CHANGE, out)
}

/// EntityAction: id and action become variable-length, the jump boost is 0.
pub open spec fn spec_c2s_entity_action(b: Seq<u8>) -> Outcome {
    if b.len() < 5 {
        Outcome::Passthrough
    } else {
        converted(
            V112_C2S_ENTITY_ACTION,
            varint(i32_at(b, 0)) + varint(i8_at(b, 4) as i32) + varint(0),
        )
    }
}

pub fn c2s_entity_action(body: Bytes) -> (res: ConversionResult)
    ensures
        res@ == spec_c2s_entity_action(content(body)),
{
    broadcast use empty_then;

    let mut r = Reader::new(body);
    if !r.has(5) {
        return ConversionResult::Passthrough;
    }
    let entity_id: i32 = r.get_i32();
    let action: i8 = r.get_i8();
    let mut out = Writer::new();
    out.varint(entity_id);
    out.varint(action as i32);
    out.varint(0);
    emit(V112_C2S_ENTITY_ACTION, out)
}

/// SteerVehicle: the two flags become one byte, jumping in bit 0 and leaving in bit 1.
pub open spec fn spec_c2s_steer_vehicle(b: Seq<u8>) -> Outcome {
    if b.len() < 10 {
        Outcome::Passthrough
    } else {
        converted(
            V112_C2S_STEER_VEHICLE_OUT,
            be32(u32_at(b, 0)) + be32(u32_at(b, 4))
                + seq![((if b[8] != 0 { 1int } else { 0 }) + (if b[9] != 0 { 2int } else { 0 })) as u8],
        )
    }
}

pub fn c2s_steer_vehicle(body: Bytes) -> (res: ConversionResult)
    ensures
        res@ == spec_c2s_steer_vehicle(content(body)),
{
    broadcast use empty_then;

    let mut r = Reader::new(body);
    if !r.has(10) {
        return ConversionResult::Passthrough;
    }
    let sideways: u32 = r.get_u32();
    let forward: u32 = r.get_u32();
    let jump: u8 = r.get_u8();
    let unmount: u8 = r.get_u8();
    let mut out = Writer::new();
    out.u32(sideways);
    out.u32(forward);
    out.u8((if jump != 0 { 1 } else { 0 }) + (if unmount != 0 { 2 } else { 0 }));
    emit(V112_C2S_STEER_VEHICLE_OUT, out)
}

/// CreativeInventoryAction: the item is taken away.
pub open spec fn spec_c2s_creative_inventory_action(b: Seq<u8>) -> Outcome {
    if b.len() < 2 {
        Outcome::Passthrough
    } else {
        converted(V112_C2S_CREATIVE_INVENTORY_ACTION_OUT, be_i16(i16_at(b, 0)) + seq![0u8])
    }
}

pub fn c2s_creative_inventory_action(body: Bytes) -> (res: ConversionResult)
    ensures
        res@ == spec_c2s_creative_inventory_action(content(body)),
{
    broadcast use empty_then;

    let mut r = Reader::new(body);
    if !r.has(2) {
        return ConversionResult::Passthrough;
    }
    let slot: i16 = r.get_i16();
    let mut out = Writer::new();
    out.i16(slot);
    out.u8(0);
    emit(V112_C2S_CREATIVE_INVENTORY_ACTION_OUT, out)
}

/// EnchantItem: the same fields.
pub open spec fn spec_c2s_enchant_item(b: Seq<u8>) -> Outcome {
    if b.len() < 2 {
        Outcome::Passthrough
    } else {
        converted(V112_C2S_ENCHANT_ITEM_OUT, seq![b[0]] + seq![b[1]])
    }
}

pub fn c2s_enchant_item(body: Bytes) -> (res: ConversionResult)
    ensures
        res@ == spec_c2s_enchant_item(content(body)),
{
    broadcast use empty_then;

    let mut r = Reader::new(body);
    if !r.has(2) {
        return ConversionResult::Passthrough;
    }
    let window_id: u8 = r.get_u8();
    let enchantment: u8 = r.get_u8();
    let mut out = Writer::new();
    out.u8(window_id);
    out.u8(enchantment);
    emit(V112_C2S_ENCHANT_ITEM_OUT, out)
}

/// UpdateSign: the place is packed, and the four lines change their encoding.
pub open spec fn spec_c2s_update_sign(b: Seq<u8>) -> Outcome {
    if b.len() < 10 {
        Outcome::Passthrough
    } else {
        match ucs2_at(b, 10) {
            None => Outcome::Passthrough,
            Some((first, p)) => {
                match ucs2_at(b, p) {
                    None => Outcome::Passthrough,
                    Some((second, p2)) => {
                        match ucs2_at(b, p2) {
                            None => Outcome::Passthrough,
                            Some((third, p3)) => {
                                match ucs2_at(b, p3) {
                                    None => Outcome::Passthrough,
                                    Some((fourth, p4)) => {
                                        converted(
                                            V112_C2S_UPDATE_SIGN_OUT,
                                            be_i64(legacy_bits(i32_at(b, 0) as int, i16_at(b, 4) as int, i32_at(b, 6) as int) as i64)
                                                + wire_string(utf16_or_empty(first))
                                                + wire_string(utf16_or_empty(second))
                                                + wire_string(utf16_or_empty(third))
                                                + wire_string(utf16_or_empty(fourth)),
                                        )
                                    },
                                }
                            },
                        }
                    },
                }
            },
        }
    }
}

pub fn c2s_update_sign(body: Bytes) -> (res: ConversionResult)
    ensures
        res@ == spec_c2s_update_sign(content(body)),
{
    broadcast use empty_then;

    let mut r = Reader::new(body);
    if !r.has(10) {
        return ConversionResult::Passthrough;
    }
    let x: i32 = r.get_i32();
    let y: i16 = r.get_i16();
    let z: i32 = r.get_i32();
    let first_units: Vec<u16> = match r.ucs2_units() {
        Some(u) => u,
        None => {
            return ConversionResult::Passthrough;
        },
    };
    let first: String = utf16_text_or_empty(&first_units);
    let second_units: Vec<u16> = match r.ucs2_units() {
        Some(u) => u,
        None => {
            return ConversionResult::Passthrough;
        },
    };
    let second: String = utf16_text_or_empty(&second_units);
    let third_units: Vec<u16> = match r.ucs2_units() {
        Some(u) => u,
        None => {
            return ConversionResult::Passthrough;
        },
    };
    let third: String = utf16_text_or_empty(&third_units);
    let fourth_units: Vec<u16> = match r.ucs2_units() {
        Some(u) => u,
        None => {
            return ConversionResult::Passthrough;
        },
    };
    let fourth: String = utf16_text_or_empty(&fourth_units);
    let mut out = Writer::new();
    out.i64(encode_legacy_position(Position { x, y: y as i32, z }));
    out.string(first.as_str());
    out.string(second.as_str());
    out.string(third.as_str());
    out.string(fourth.as_str());
    emit(V112_C2S_UPDATE_SIGN_OUT, out)
}

/// The 1.12.2 form of a 1.6.4 packet toward the server. Unknown packets are left alone.
pub open spec fn spec_c2s(id: u8, b: Seq<u8>) -> Outcome {
    if id == V164_C2S_KEEP_ALIVE {
        spec_c2s_keep_alive(b)
    } else if id == V164_C2S_CHAT {
        spec_c2s_chat(b)
    } else if id == V164_C2S_USE_ENTITY {
        spec_c2s_use_entity(b)
    } else if id == V164_C2S_PLAYER {
        spec_c2s_player(b)
    } else if id == V164_C2S_PLAYER_POSITION {
        spec_c2s_player_position(b)
    } else if id == V164_C2S_PLAYER_LOOK {
        spec_c2s_player_look(b)
    } else if id == V164_C2S_PLAYER_POS_LOOK {
        spec_c2s_player_pos_look(b)
    } else if id == V164_C2S_PLAYER_DIGGING {
        spec_c2s_player_digging(b)
    } else if id == V164_C2S_PLAYER_BLOCK_PLACEMENT {
        spec_c2s_player_block_placement(b)
    } else if id == V164_C2S_HELD_ITEM_CHANGE {
        spec_c2s_held_item_change(b)
    } else if id == V164_C2S_ANIMATION {
        spec_c2s_animation(b)
    } else if id == V164_C2S_ENTITY_ACTION {
        spec_c2s_entity_action(b)
    } else if id == V164_C2S_CLIENT_COMMAND {
        spec_c2s_client_command(b)
    } else if id == V164_C2S_CLOSE_WINDOW {
        spec_c2s_close_window(b)
    } else if id == V164_C2S_CLICK_WINDOW {
        spec_c2s_click_window(b)
    } else if id == V164_C2S_CONFIRM_TX {
        spec_c2s_confirm_tx(b)
    } else if id == V164_C2S_UPDATE_SIGN {
        spec_c2s_update_sign(b)
    } else if id == V164_C2S_PLAYER_ABILITIES {
        spec_c2s_player_abilities(b)
    } else if id == V164_C2S_TAB_COMPLETE {
        spec_c2s_tab_complete(b)
    } else if id == V164_C2S_CLIENT_SETTINGS {
        spec_c2s_client_settings(b)
    } else if id == V164_C2S_CLIENT_STATUS {
        spec_c2s_client_status(b)
    } else if id == V164_C2S_PLUGIN_MESSAGE {
        spec_c2s_plugin_message(b)
    } else if id == V164_C2S_STEER_VEHICLE {
        spec_c2s_steer_vehicle(b)
    } else if id == V164_C2S_CREATIVE_INVENTORY_ACTION {
        spec_c2s_creative_inventory_action(b)
    } else if id == V164_C2S_ENCHANT_ITEM {
        spec_c2s_enchant_item(b)
    } else {
        Outcome::Passthrough
    }
}

fn c2s(id: u8, body: Bytes) -> (res: ConversionResult)
    ensures
        res@ == spec_c2s(id, content(body)),
{
    if id == V164_C2S_KEEP_ALIVE {
        c2s_keep_alive(body)
    } else if id == V164_C2S_CHAT {
        c2s_chat(body)
    } else if id == V164_C2S_USE_ENTITY {
        c2s_use_entity(body)
    } else if id == V164_C2S_PLAYER {
        c2s_player(body)
    } else if id == V164_C2S_PLAYER_POSITION {
        c2s_player_position(body)
    } else if id == V164_C2S_PLAYER_LOOK {
        c2s_player_look(body)
    } else if id == V164_C2S_PLAYER_POS_LOOK {
        c2s_player_pos_look(body)
    } else if id == V164_C2S_PLAYER_DIGGING {
        c2s_player_digging(body)
    } else if id == V164_C2S_PLAYER_BLOCK_PLACEMENT {
        c2s_player_block_placement(body)
    } else if id == V164_C2S_HELD_ITEM_CHANGE {
        c2s_held_item_change(body)
    } else if id == V164_C2S_ANIMATION {
        c2s_animation(body)
    } else if id == V164_C2S_ENTITY_ACTION {
        c2s_entity_action(body)
    } else if id == V164_C2S_CLIENT_COMMAND {
        c2s_client_command(body)
    } else if id == V164_C2S_CLOSE_WINDOW {
        c2s_close_window(body)
    } else if id == V164_C2S_CLICK_WINDOW {
        c2s_click_window(body)
    } else if id == V164_C2S_CONFIRM_TX {
        c2s_confirm_tx(body)
    } else if id == V164_C2S_UPDATE_SIGN {
        c2s_update_sign(body)
    } else if id == V164_C2S_PLAYER_ABILITIES {
        c2s_player_abilities(body)
    } else if id == V164_C2S_TAB_COMPLETE {
        c2s_tab_complete(body)
    } else if id == V164_C2S_CLIENT_SETTINGS {
        c2s_client_settings(body)
    } else if id == V164_C2S_CLIENT_STATUS {
        c2s_client_status(body)
    } else if id == V164_C2S_PLUGIN_MESSAGE {
        c2s_plugin_message(body)
    } else if id == V164_C2S_STEER_VEHICLE {
        c2s_steer_vehicle(body)
    } else if id == V164_C2S_CREATIVE_INVENTORY_ACTION {
        c2s_creative_inventory_action(body)
    } else if id == V164_C2S_ENCHANT_ITEM {
        c2s_enchant_item(body)
    } else {
        ConversionResult::Passthrough
    }
}

/// What becomes of a packet toward the server.
pub open spec fn spec_convert_c2s(p: Seq<u8>) -> Outcome {
    match split(p) {
        Some((id, b)) => spec_c2s(id, b),
        None => Outcome::Passthrough,
    }
}

/// Converts a packet toward the server.
pub fn convert_c2s(payload: Bytes) -> (res: ConversionResult)
    ensures
        res@ == spec_convert_c2s(content(payload)),
{
    match split_id(payload) {
        Some((id, body)) => c2s(id, body),
        None => ConversionResult::Passthrough,
    }
}

} // verus!
