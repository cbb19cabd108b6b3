//! Packets of later releases for 1.8 clients.
//!
//! Full conversion is from the releases from 1.9 to 1.12; 1.16.5 is covered in part, and
//! later releases hardly.

use bytes::Bytes;
use crate::converter::items::{
    flagged_item_bytes, modern_slot_to_legacy, older_form, older_items, put_flagged_item,
    put_older_items, up_to,
};
use crate::converter::outcome::{
    ConversionResult, Outcome, converted, emit, rebuild_with_id, split, split_id,
};
use crate::converter::safe::{Reader, i16_or, i32_or, string_or, u8_or};
use crate::flattening::ItemFlatteningTable;
use crate::number::{
    double_to_fixed_rounded, fixed_rounded, over_128, single_to_volume, trunc_128, volume_steps,
};
use crate::position::{
    Position, decode_legacy_position, encode_legacy_position, legacy_bits, legacy_position_of,
};
use crate::slot::slot_at;
use crate::text::{string_at, wire_string};
use crate::varint::{varint, varint_at};
use crate::version::{Epoch, nearest, nearest_version};
use crate::wire::{
    be32, be64, be_i16, be_i32, be_i64, be_i8, content, i16_at, i32_at, i64_at, u32_at, u64_at,
};
use crate::writer::{Writer, empty_then};
use vstd::prelude::*;

verus! {

pub const V112_S2C_SPAWN_OBJECT: u8 = 0x00;
pub const V112_S2C_SPAWN_EXP_ORB: u8 = 0x01;
pub const V112_S2C_SPAWN_GLOBAL: u8 = 0x02;
pub const V112_S2C_SPAWN_MOB: u8 = 0x03;
pub const V112_S2C_SPAWN_PAINTING: u8 = 0x04;
pub const V112_S2C_SPAWN_PLAYER: u8 = 0x05;
pub const V112_S2C_ANIMATION: u8 = 0x06;
pub const V112_S2C_STATISTICS: u8 = 0x07;
pub const V112_S2C_BLOCK_BREAK_ANIM: u8 = 0x08;
pub const V112_S2C_BLOCK_ENTITY_DATA: u8 = 0x09;
pub const V112_S2C_BLOCK_ACTION: u8 = 0x0A;
pub const V112_S2C_BLOCK_CHANGE: u8 = 0x0B;
pub const V112_S2C_BOSS_BAR: u8 = 0x0C;
pub const V112_S2C_SERVER_DIFFICULTY: u8 = 0x0D;
pub const V112_S2C_TAB_COMPLETE: u8 = 0x0E;
pub const V112_S2C_CHAT: u8 = 0x0F;
pub const V112_S2C_MULTI_BLOCK_CHANGE: u8 = 0x10;
pub const V112_S2C_CONFIRM_TRANSACTION: u8 = 0x11;
pub const V112_S2C_CLOSE_WINDOW: u8 = 0x12;
pub const V112_S2C_OPEN_WINDOW: u8 = 0x13;
pub const V112_S2C_WINDOW_ITEMS: u8 = 0x14;
pub const V112_S2C_WINDOW_PROPERTY: u8 = 0x15;
pub const V112_S2C_SET_SLOT: u8 = 0x16;
pub const V112_S2C_SET_COOLDOWN: u8 = 0x17;
pub const V112_S2C_PLUGIN_MESSAGE: u8 = 0x18;
pub const V112_S2C_NAMED_SOUND: u8 = 0x19;
pub const V112_S2C_DISCONNECT: u8 = 0x1A;
pub const V112_S2C_ENTITY_STATUS: u8 = 0x1B;
pub const V112_S2C_EXPLOSION: u8 = 0x1C;
pub const V112_S2C_UNLOAD_CHUNK: u8 = 0x1D;
pub const V112_S2C_CHANGE_GAME_STATE: u8 = 0x1E;
pub const V112_S2C_KEEP_ALIVE: u8 = 0x1F;
pub const V112_S2C_CHUNK_DATA: u8 = 0x20;
pub const V112_S2C_EFFECT: u8 = 0x21;
pub const V112_S2C_PARTICLE: u8 = 0x22;
pub const V112_S2C_JOIN_GAME: u8 = 0x23;
pub const V112_S2C_MAP: u8 = 0x24;
pub const V112_S2C_ENTITY_REL_MOVE: u8 = 0x25;
pub const V112_S2C_ENTITY_LOOK_REL_MOVE: u8 = 0x26;
pub const V112_S2C_ENTITY_LOOK: u8 = 0x27;
pub const V112_S2C_ENTITY: u8 = 0x28;
pub const V112_S2C_VEHICLE_MOVE: u8 = 0x29;
pub const V112_S2C_OPEN_SIGN_EDITOR: u8 = 0x2A;
pub const V112_S2C_CRAFT_RECIPE_RESP: u8 = 0x2B;
pub const V112_S2C_PLAYER_ABILITIES: u8 = 0x2C;
pub const V112_S2C_COMBAT_EVENT: u8 = 0x2D;
pub const V112_S2C_PLAYER_LIST_ITEM: u8 = 0x2E;
pub const V112_S2C_PLAYER_POS_LOOK: u8 = 0x2F;
pub const V112_S2C_USE_BED: u8 = 0x30;
pub const V112_S2C_UNLOCK_RECIPES: u8 = 0x31;
pub const V112_S2C_DESTROY_ENTITIES: u8 = 0x32;
pub const V112_S2C_REMOVE_ENTITY_EFFECT: u8 = 0x33;
pub const V112_S2C_RESOURCE_PACK: u8 = 0x34;
pub const V112_S2C_RESPAWN: u8 = 0x35;
pub const V112_S2C_ENTITY_HEAD_LOOK: u8 = 0x36;
pub const V112_S2C_SELECT_ADVANCEMENT_TAB: u8 = 0x37;
pub const V112_S2C_WORLD_BORDER: u8 = 0x38;
pub const V112_S2C_CAMERA: u8 = 0x39;
pub const V112_S2C_HELD_ITEM_CHANGE: u8 = 0x3A;
pub const V112_S2C_DISPLAY_SCOREBOARD: u8 = 0x3B;
pub const V112_S2C_ENTITY_METADATA: u8 = 0x3C;
pub const V112_S2C_ATTACH_ENTITY: u8 = 0x3D;
pub const V112_S2C_ENTITY_VELOCITY: u8 = 0x3E;
pub const V112_S2C_ENTITY_EQUIPMENT: u8 = 0x3F;
pub const V112_S2C_SET_EXPERIENCE: u8 = 0x40;
pub const V112_S2C_UPDATE_HEALTH: u8 = 0x41;
pub const V112_S2C_SCOREBOARD_OBJ: u8 = 0x42;
pub const V112_S2C_SET_PASSENGERS: u8 = 0x43;
pub const V112_S2C_TEAMS: u8 = 0x44;
pub const V112_S2C_UPDATE_SCORE: u8 = 0x45;
pub const V112_S2C_SPAWN_POSITION: u8 = 0x46;
pub const V112_S2C_TIME_UPDATE: u8 = 0x47;
pub const V112_S2C_TITLE: u8 = 0x48;
pub const V112_S2C_SOUND_EFFECT: u8 = 0x49;
pub const V112_S2C_PLAYER_LIST_HEADER_FOOTER: u8 = 0x4A;
pub const V112_S2C_COLLECT_ITEM: u8 = 0x4B;
pub const V112_S2C_ENTITY_TELEPORT: u8 = 0x4C;
pub const V112_S2C_ADVANCEMENTS: u8 = 0x4D;
pub const V112_S2C_ENTITY_PROPERTIES: u8 = 0x4E;
pub const V112_S2C_ENTITY_EFFECT: u8 = 0x4F;

pub const V18_S2C_KEEP_ALIVE: u8 = 0x00;
pub const V18_S2C_JOIN_GAME: u8 = 0x01;
pub const V18_S2C_CHAT: u8 = 0x02;
pub const V18_S2C_TIME_UPDATE: u8 = 0x03;
pub const V18_S2C_ENTITY_EQUIPMENT: u8 = 0x04;
pub const V18_S2C_SPAWN_POSITION: u8 = 0x05;
pub const V18_S2C_UPDATE_HEALTH: u8 = 0x06;
pub const V18_S2C_RESPAWN: u8 = 0x07;
pub const V18_S2C_PLAYER_POS_LOOK: u8 = 0x08;
pub const V18_S2C_HELD_ITEM_CHANGE: u8 = 0x09;
pub const V18_S2C_USE_BED: u8 = 0x0A;
pub const V18_S2C_ANIMATION: u8 = 0x0B;
pub const V18_S2C_SPAWN_PLAYER: u8 = 0x0C;
pub const V18_S2C_COLLECT_ITEM: u8 = 0x0D;
pub const V18_S2C_SPAWN_OBJECT: u8 = 0x0E;
pub const V18_S2C_SPAWN_MOB: u8 = 0x0F;
pub const V18_S2C_SPAWN_PAINTING: u8 = 0x10;
pub const V18_S2C_SPAWN_EXP_ORB: u8 = 0x11;
pub const V18_S2C_ENTITY_VELOCITY: u8 = 0x12;
pub const V18_S2C_DESTROY_ENTITIES: u8 = 0x13;
pub const V18_S2C_ENTITY: u8 = 0x14;
pub const V18_S2C_ENTITY_REL_MOVE: u8 = 0x15;
pub const V18_S2C_ENTITY_LOOK: u8 = 0x16;
pub const V18_S2C_ENTITY_LOOK_REL_MOVE: u8 = 0x17;
pub const V18_S2C_ENTITY_TELEPORT: u8 = 0x18;
pub const V18_S2C_ENTITY_HEAD_LOOK: u8 = 0x19;
pub const V18_S2C_ENTITY_STATUS: u8 = 0x1A;
pub const V18_S2C_ATTACH_ENTITY: u8 = 0x1B;
pub const V18_S2C_ENTITY_METADATA: u8 = 0x1C;
pub const V18_S2C_ENTITY_EFFECT: u8 = 0x1D;
pub const V18_S2C_REMOVE_ENTITY_EFFECT: u8 = 0x1E;
pub const V18_S2C_SET_EXPERIENCE: u8 = 0x1F;
pub const V18_S2C_ENTITY_PROPERTIES: u8 = 0x20;
pub const V18_S2C_CHUNK_DATA: u8 = 0x21;
pub const V18_S2C_MULTI_BLOCK_CHANGE: u8 = 0x22;
pub const V18_S2C_BLOCK_CHANGE: u8 = 0x23;
pub const V18_S2C_BLOCK_ACTION: u8 = 0x24;
pub const V18_S2C_BLOCK_BREAK_ANIM: u8 = 0x25;
pub const V18_S2C_EXPLOSION: u8 = 0x27;
pub const V18_S2C_EFFECT: u8 = 0x28;
pub const V18_S2C_SOUND_EFFECT: u8 = 0x29;
pub const V18_S2C_PARTICLE: u8 = 0x2A;
pub const V18_S2C_CHANGE_GAME_STATE: u8 = 0x2B;
pub const V18_S2C_SPAWN_GLOBAL: u8 = 0x2C;
pub const V18_S2C_OPEN_WINDOW: u8 = 0x2D;
pub const V18_S2C_CLOSE_WINDOW: u8 = 0x2E;
pub const V18_S2C_SET_SLOT: u8 = 0x2F;
pub const V18_S2C_WINDOW_ITEMS: u8 = 0x30;
pub const V18_S2C_WINDOW_PROPERTY: u8 = 0x31;
pub const V18_S2C_CONFIRM_TRANSACTION: u8 = 0x32;
pub const V18_S2C_UPDATE_BLOCK_ENTITY: u8 = 0x35;
pub const V18_S2C_OPEN_SIGN_EDITOR: u8 = 0x36;
pub const V18_S2C_STATISTICS: u8 = 0x37;
pub const V18_S2C_PLAYER_LIST_ITEM: u8 = 0x38;
pub const V18_S2C_PLAYER_ABILITIES: u8 = 0x39;
pub const V18_S2C_TAB_COMPLETE: u8 = 0x3A;
pub const V18_S2C_SCOREBOARD_OBJ: u8 = 0x3B;
pub const V18_S2C_UPDATE_SCORE: u8 = 0x3C;
pub const V18_S2C_DISPLAY_SCOREBOARD: u8 = 0x3D;
pub const V18_S2C_TEAMS: u8 = 0x3E;
pub const V18_S2C_PLUGIN_MESSAGE: u8 = 0x3F;
pub const V18_S2C_DISCONNECT: u8 = 0x40;
pub const V18_S2C_SERVER_DIFFICULTY: u8 = 0x41;
pub const V18_S2C_COMBAT_EVENT: u8 = 0x42;
pub const V18_S2C_CAMERA: u8 = 0x43;
pub const V18_S2C_WORLD_BORDER: u8 = 0x44;
pub const V18_S2C_TITLE: u8 = 0x45;
pub const V18_S2C_PLAYER_LIST_HEADER_FOOTER: u8 = 0x47;
pub const V18_S2C_RESOURCE_PACK: u8 = 0x48;

/// The id of Map in 1.8.
pub const V18_S2C_MAP_UNMAPPED: u8 = 0x34;

/// The coordinates that 64 bits in the order x, y, z hold.
pub fn unpack_position(packed: i64) -> (c: (i32, i32, i32))
    ensures
        ({
            let p = legacy_position_of(packed as u64);
            c == (p.x, p.y, p.z)
        }),
{
    let p = decode_legacy_position(packed as u64);
    (p.x, p.y, p.z)
}

/// The coordinates packed in the order x, y, z.
pub fn pack_position_legacy(x: i32, y: i32, z: i32) -> (packed: i64)
    ensures
        packed == legacy_bits(x as int, y as int, z as int) as i64,
{
    encode_legacy_position(Position { x, y, z })
}

/// A step in 4096ths of a block as 32nds, cut toward zero and held in eight bits.
pub open spec fn step_of(d: i16) -> i8 {
    let q = over_128(d as int);
    if q < -128 {
        -128i8
    } else if q > 127 {
        127i8
    } else {
        q as i8
    }
}

fn byte_step(d: i16) -> (s: i8)
    ensures
        s == step_of(d),
{
    let q: i16 = trunc_128(d);
    if q < -128 {
        -128
    } else if q > 127 {
        127
    } else {
        q as i8
    }
}

/// JoinGame: the dimension keeps its low eight bits. What is missing behind the game mode
/// has a default.
pub open spec fn spec_s2c_join_game(b: Seq<u8>) -> Outcome {
    if b.len() < 4 {
        Outcome::Passthrough
    } else if b.len() < 5 {
        Outcome::Passthrough
    } else {
        let (dimension, p) = i32_or(b, 5, 0);
        let (difficulty, p2) = u8_or(b, p, 2);
        let (max_players, p3) = u8_or(b, p2, 100);
        let (level_type, p4) = string_or(b, p3, "default"@);
        let (reduced_debug, p5) = u8_or(b, p4, 0);
        converted(
            V18_S2C_JOIN_GAME,
            be_i32(i32_at(b, 0)) + seq![b[4]] + be_i8(dimension as i8) + seq![difficulty]
                + seq![max_players] + wire_string(level_type) + seq![reduced_debug],
        )
    }
}

pub fn s2c_join_game(body: Bytes) -> (res: ConversionResult)
    ensures
        res@ == spec_s2c_join_game(content(body)),
{
    broadcast use empty_then;

    let mut r = Reader::new(body);
    let entity_id: i32 = match r.i32() {
        Some(v) => v,
        None => {
            return ConversionResult::Passthrough;
        },
    };
    let game_mode: u8 = match r.u8() {
        Some(v) => v,
        None => {
            return ConversionResult::Passthrough;
        },
    };
    let dimension: i32 = r.i32_or(0);
    let difficulty: u8 = r.u8_or(2);
    let max_players: u8 = r.u8_or(100);
    let level_type: String = r.string_or("default");
    let reduced_debug: u8 = r.u8_or(0);
    let mut out = Writer::new();
    out.i32(entity_id);
    out.u8(game_mode);
    out.i8(dimension as i8);
    out.u8(difficulty);
    out.u8(max_players);
    out.string(level_type.as_str());
    out.u8(reduced_debug);
    emit(V18_S2C_JOIN_GAME, out)
}

/// PlayerPositionAndLook: the teleport id is dropped.
pub open spec fn spec_s2c_player_pos_look(b: Seq<u8>) -> Outcome {
    if b.len() < 8 {
        Outcome::Passthrough
    } else if b.len() < 16 {
        Outcome::Passthrough
    } else if b.len() < 24 {
        Outcome::Passthrough
    } else if b.len() < 28 {
        Outcome::Passthrough
    } else if b.len() < 32 {
        Outcome::Passthrough
    } else {
        let (flags, p) = u8_or(b, 32, 0);
        converted(
            V18_S2C_PLAYER_POS_LOOK,
            be64(u64_at(b, 0)) + be64(u64_at(b, 8)) + be64(u64_at(b, 16)) + be32(u32_at(b, 24))
                + be32(u32_at(b, 28)) + seq![flags],
        )
    }
}

pub fn s2c_player_pos_look(body: Bytes) -> (res: ConversionResult)
    ensures
        res@ == spec_s2c_player_pos_look(content(body)),
{
    broadcast use empty_then;

    let mut r = Reader::new(body);
    let x: u64 = match r.double_bits() {
        Some(v) => v,
        None => {
            return ConversionResult::Passthrough;
        },
    };
    let y: u64 = match r.double_bits() {
        Some(v) => v,
        None => {
            return ConversionResult::Passthrough;
        },
    };
    let z: u64 = match r.double_bits() {
        Some(v) => v,
        None => {
            return ConversionResult::Passthrough;
        },
    };
    let yaw: u32 = match r.single_bits() {
        Some(v) => v,
        None => {
            return ConversionResult::Passthrough;
        },
    };
    let pitch: u32 = match r.single_bits() {
        Some(v) => v,
        None => {
            return ConversionResult::Passthrough;
        },
    };
    let flags: u8 = r.u8_or(0);
    let mut out = Writer::new();
    out.u64(x);
    out.u64(y);
    out.u64(z);
    out.u32(yaw);
    out.u32(pitch);
    out.u8(flags);
    emit(V18_S2C_PLAYER_POS_LOOK, out)
}

/// Respawn: the dimension keeps its low eight bits. What is missing has a default.
pub open spec fn spec_s2c_respawn(b: Seq<u8>) -> Outcome {
    let (dimension, p) = i32_or(b, 0, 0);
    let (difficulty, p2) = u8_or(b, p, 2);
    let (game_mode, p3) = u8_or(b, p2, 0);
    let (level_type, p4) = string_or(b, p3, "default"@);
    converted(
        V18_S2C_RESPAWN,
        be_i8(dimension as i8) + seq![difficulty] + seq![game_mode] + wire_string(level_type),
    )
}

pub fn s2c_respawn(body: Bytes) -> (res: ConversionResult)
    ensures
        res@ == spec_s2c_respawn(content(body)),
{
    broadcast use empty_then;

    let mut r = Reader::new(body);
    let dimension: i32 = r.i32_or(0);
    let difficulty: u8 = r.u8_or(2);
    let game_mode: u8 = r.u8_or(0);
    let level_type: String = r.string_or("default");
    let mut out = Writer::new();
    out.i8(dimension as i8);
    out.u8(difficulty);
    out.u8(game_mode);
    out.string(level_type.as_str());
    emit(V18_S2C_RESPAWN, out)
}

/// KeepAlive: the low 32 bits of the id become variable-length.
pub open spec fn spec_s2c_keep_alive_long_to_varint(b: Seq<u8>) -> Outcome {
    if b.len() < 8 {
        Outcome::Passthrough
    } else {
        converted(V18_S2C_KEEP_ALIVE, varint(i64_at(b, 0) as i32))
    }
}

pub fn s2c_keep_alive_long_to_varint(body: Bytes) -> (res: ConversionResult)
    ensures
        res@ == spec_s2c_keep_alive_long_to_varint(content(body)),
{
    broadcast use empty_then;

    let mut r = Reader::new(body);
    let id: i64 = match r.i64() {
        Some(v) => v,
        None => {
            return ConversionResult::Passthrough;
        },
    };
    let mut out = Writer::new();
    out.varint(id as i32);
    emit(V18_S2C_KEEP_ALIVE, out)
}

/// BlockChange: the place is unpacked, y keeping its low eight bits, and the state is parted
/// into id and metadata.
pub open spec fn spec_s2c_block_change(b: Seq<u8>) -> Outcome {
    if b.len() < 8 {
        Outcome::Passthrough
    } else {
        match varint_at(b, 8) {
            None => Outcome::Passthrough,
            Some((state, p)) => {
                let p = legacy_position_of(i64_at(b, 0) as u64);
                converted(
                    V18_S2C_BLOCK_CHANGE,
                    be_i32(p.x) + seq![p.y as u8] + be_i32(p.z) + varint(state >> 4) + seq![(state & 0xF) as u8],
                )
            },
        }
    }
}

pub fn s2c_block_change(body: Bytes) -> (res: ConversionResult)
    ensures
        res@ == spec_s2c_block_change(content(body)),
{
    broadcast use empty_then;

    let mut r = Reader::new(body);
    let packed: i64 = match r.i64() {
        Some(v) => v,
        None => {
            return ConversionResult::Passthrough;
        },
    };
    let state: i32 = match r.varint() {
        Some(v) => v,
        None => {
            return ConversionResult::Passthrough;
        },
    };
    let (x, y, z): (i32, i32, i32) = unpack_position(packed);
    let mut out = Writer::new();
    out.i32(x);
    out.u8(y as u8);
    out.i32(z);
    out.varint(state >> 4);
    out.u8((state & 0xF) as u8);
    emit(V18_S2C_BLOCK_CHANGE, out)
}

/// EntityRelativeMove, with or without a look: the steps, in 4096ths of a block, become
/// 32nds, cut toward zero and held in eight bits.
pub open spec fn spec_s2c_entity_rel_move(b: Seq<u8>, has_look: bool) -> Outcome {
    match varint_at(b, 0) {
        None => Outcome::Passthrough,
        Some((entity_id, p)) => {
            if b.len() < p + 2 {
                Outcome::Passthrough
            } else if b.len() < p + 4 {
                Outcome::Passthrough
            } else if b.len() < p + 6 {
                Outcome::Passthrough
            } else {
                let head = varint(entity_id) + be_i8(step_of(i16_at(b, p))) + be_i8(step_of(i16_at(b, p + 2))) + be_i8(step_of(i16_at(b, p + 4)));
                if has_look {
                    let (yaw, q1) = u8_or(b, p + 6, 0);
                    let (pitch, q2) = u8_or(b, q1, 0);
                    let (on_ground, _) = u8_or(b, q2, 1);
                    converted(V18_S2C_ENTITY_LOOK_REL_MOVE, head + seq![yaw] + seq![pitch] + seq![on_ground])
                } else {
                    let (on_ground, _) = u8_or(b, p + 6, 1);
                    converted(V18_S2C_ENTITY_REL_MOVE, head + seq![on_ground])
                }
            }
        },
    }
}

pub fn s2c_entity_rel_move(body: Bytes, has_look: bool) -> (res: ConversionResult)
    ensures
        res@ == spec_s2c_entity_rel_move(content(body), has_look),
{
    broadcast use empty_then;

    let mut r = Reader::new(body);
    let entity_id: i32 = match r.varint() {
        Some(v) => v,
        None => {
            return ConversionResult::Passthrough;
        },
    };
    let dx: i16 = match r.i16() {
        Some(v) => v,
        None => {
            return ConversionResult::Passthrough;
        },
    };
    let dy: i16 = match r.i16() {
        Some(v) => v,
        None => {
            return ConversionResult::Passthrough;
        },
    };
    let dz: i16 = match r.i16() {
        Some(v) => v,
        None => {
            return ConversionResult::Passthrough;
        },
    };
    let yaw: u8 = if has_look { r.u8_or(0) } else { 0 };
    let pitch: u8 = if has_look { r.u8_or(0) } else { 0 };
    let on_ground: u8 = r.u8_or(1);
    let mut out = Writer::new();
    out.varint(entity_id);
    out.i8(byte_step(dx));
    out.i8(byte_step(dy));
    out.i8(byte_step(dz));
    if has_look {
        out.u8(yaw);
        out.u8(pitch);
        out.u8(on_ground);
        emit(V18_S2C_ENTITY_LOOK_REL_MOVE, out)
    } else {
        out.u8(on_ground);
        emit(V18_S2C_ENTITY_REL_MOVE, out)
    }
}

/// EntityTeleport: the coordinates become 32nds of a block, rounded.
pub open spec fn spec_s2c_entity_teleport(b: Seq<u8>) -> Outcome {
    match varint_at(b, 0) {
        None => Outcome::Passthrough,
        Some((entity_id, p)) => {
            if b.len() < p + 8 {
                Outcome::Passthrough
            } else if b.len() < p + 16 {
                Outcome::Passthrough
            } else if b.len() < p + 24 {
                Outcome::Passthrough
            } else {
                let (yaw, p2) = u8_or(b, p + 24, 0);
                let (pitch, p3) = u8_or(b, p2, 0);
                let (on_ground, p4) = u8_or(b, p3, 1);
                converted(
                    V18_S2C_ENTITY_TELEPORT,
                    varint(entity_id) + be_i32(fixed_rounded(u64_at(b, p)))
                        + be_i32(fixed_rounded(u64_at(b, p + 8)))
                        + be_i32(fixed_rounded(u64_at(b, p + 16))) + seq![yaw] + seq![pitch]
                        + seq![on_ground],
                )
            }
        },
    }
}

pub fn s2c_entity_teleport(body: Bytes) -> (res: ConversionResult)
    ensures
        res@ == spec_s2c_entity_teleport(content(body)),
{
    broadcast use empty_then;

    let mut r = Reader::new(body);
    let entity_id: i32 = match r.varint() {
        Some(v) => v,
        None => {
            return ConversionResult::Passthrough;
        },
    };
    let x: u64 = match r.double_bits() {
        Some(v) => v,
        None => {
            return ConversionResult::Passthrough;
        },
    };
    let y: u64 = match r.double_bits() {
        Some(v) => v,
        None => {
            return ConversionResult::Passthrough;
        },
    };
    let z: u64 = match r.double_bits() {
        Some(v) => v,
        None => {
            return ConversionResult::Passthrough;
        },
    };
    let yaw: u8 = r.u8_or(0);
    let pitch: u8 = r.u8_or(0);
    let on_ground: u8 = r.u8_or(1);
    let mut out = Writer::new();
    out.varint(entity_id);
    out.i32(double_to_fixed_rounded(x));
    out.i32(double_to_fixed_rounded(y));
    out.i32(double_to_fixed_rounded(z));
    out.u8(yaw);
    out.u8(pitch);
    out.u8(on_ground);
    emit(V18_S2C_ENTITY_TELEPORT, out)
}

/// CollectItem: the count is dropped.
pub open spec fn spec_s2c_collect_item(b: Seq<u8>) -> Outcome {
    match varint_at(b, 0) {
        None => Outcome::Passthrough,
        Some((collected, p)) => {
            match varint_at(b, p) {
                None => Outcome::Passthrough,
                Some((collector, p2)) => {
                    converted(V18_S2C_COLLECT_ITEM, varint(collected) + varint(collector))
                },
            }
        },
    }
}

pub fn s2c_collect_item(body: Bytes) -> (res: ConversionResult)
    ensures
        res@ == spec_s2c_collect_item(content(body)),
{
    broadcast use empty_then;

    let mut r = Reader::new(body);
    let collected: i32 = match r.varint() {
        Some(v) => v,
        None => {
            return ConversionResult::Passthrough;
        },
    };
    let collector: i32 = match r.varint() {
        Some(v) => v,
        None => {
            return ConversionResult::Passthrough;
        },
    };
    let mut out = Writer::new();
    out.varint(collected);
    out.varint(collector);
    emit(V18_S2C_COLLECT_ITEM, out)
}

/// SpawnObject: the type keeps its low eight bits.
pub open spec fn spec_s2c_spawn_object(b: Seq<u8>) -> Outcome {
    match varint_at(b, 0) {
        None => Outcome::Passthrough,
        Some((entity_id, p)) => {
            if b.len() < p + 8 {
                Outcome::Passthrough
            } else if b.len() < p + 16 {
                Outcome::Passthrough
            } else {
                match varint_at(b, p + 16) {
                    None => Outcome::Passthrough,
                    Some((kind, p2)) => {
                        if b.len() < p2 + 8 {
                            Outcome::Passthrough
                        } else if b.len() < p2 + 16 {
                            Outcome::Passthrough
                        } else if b.len() < p2 + 24 {
                            Outcome::Passthrough
                        } else {
                            let (yaw, p3) = u8_or(b, p2 + 24, 0);
                            let (pitch, p4) = u8_or(b, p3, 0);
                            if b.len() < p4 + 4 {
                                Outcome::Passthrough
                            } else {
                                let (vx, p5) = i16_or(b, p4 + 4, 0);
                                let (vy, p6) = i16_or(b, p5, 0);
                                let (vz, p7) = i16_or(b, p6, 0);
                                converted(
                                    V18_S2C_SPAWN_OBJECT,
                                    varint(entity_id) + be_i64(i64_at(b, p))
                                        + be_i64(i64_at(b, p + 8)) + be_i8(kind as i8)
                                        + be64(u64_at(b, p2)) + be64(u64_at(b, p2 + 8))
                                        + be64(u64_at(b, p2 + 16)) + seq![yaw] + seq![pitch]
                                        + be_i32(i32_at(b, p4)) + be_i16(vx) + be_i16(vy)
                                        + be_i16(vz),
                                )
                            }
                        }
                    },
                }
            }
        },
    }
}

pub fn s2c_spawn_object(body: Bytes) -> (res: ConversionResult)
    ensures
        res@ == spec_s2c_spawn_object(content(body)),
{
    broadcast use empty_then;

    let mut r = Reader::new(body);
    let entity_id: i32 = match r.varint() {
        Some(v) => v,
        None => {
            return ConversionResult::Passthrough;
        },
    };
    let uuid_hi: i64 = match r.i64() {
        Some(v) => v,
        None => {
            return ConversionResult::Passthrough;
        },
    };
    let uuid_lo: i64 = match r.i64() {
        Some(v) => v,
        None => {
            return ConversionResult::Passthrough;
        },
    };
    let kind: i32 = match r.varint() {
        Some(v) => v,
        None => {
            return ConversionResult::Passthrough;
        },
    };
    let x: u64 = match r.double_bits() {
        Some(v) => v,
        None => {
            return ConversionResult::Passthrough;
        },
    };
    let y: u64 = match r.double_bits() {
        Some(v) => v,
        None => {
            return ConversionResult::Passthrough;
        },
    };
    let z: u64 = match r.double_bits() {
        Some(v) => v,
        None => {
            return ConversionResult::Passthrough;
        },
    };
    let yaw: u8 = r.u8_or(0);
    let pitch: u8 = r.u8_or(0);
    let data: i32 = match r.i32() {
        Some(v) => v,
        None => {
            return ConversionResult::Passthrough;
        },
    };
    let vx: i16 = r.i16_or(0);
    let vy: i16 = r.i16_or(0);
    let vz: i16 = r.i16_or(0);
    let mut out = Writer::new();
    out.varint(entity_id);
    out.i64(uuid_hi);
    out.i64(uuid_lo);
    out.i8(kind as i8);
    out.u64(x);
    out.u64(y);
    out.u64(z);
    out.u8(yaw);
    out.u8(pitch);
    out.i32(data);
    out.i16(vx);
    out.i16(vy);
    out.i16(vz);
    emit(V18_S2C_SPAWN_OBJECT, out)
}

/// SpawnExperienceOrb: the coordinates become 32nds of a block, rounded.
pub open spec fn spec_s2c_spawn_exp_orb(b: Seq<u8>) -> Outcome {
    match varint_at(b, 0) {
        None => Outcome::Passthrough,
        Some((entity_id, p)) => {
            if b.len() < p + 8 {
                Outcome::Passthrough
            } else if b.len() < p + 16 {
                Outcome::Passthrough
            } else if b.len() < p + 24 {
                Outcome::Passthrough
            } else {
                let (count, p2) = i16_or(b, p + 24, 1);
                converted(
                    V18_S2C_SPAWN_EXP_ORB,
                    varint(entity_id) + be_i32(fixed_rounded(u64_at(b, p)))
                        + be_i32(fixed_rounded(u64_at(b, p + 8)))
                        + be_i32(fixed_rounded(u64_at(b, p + 16))) + be_i16(count),
                )
            }
        },
    }
}

pub fn s2c_spawn_exp_orb(body: Bytes) -> (res: ConversionResult)
    ensures
        res@ == spec_s2c_spawn_exp_orb(content(body)),
{
    broadcast use empty_then;

    let mut r = Reader::new(body);
    let entity_id: i32 = match r.varint() {
        Some(v) => v,
        None => {
            return ConversionResult::Passthrough;
        },
    };
    let x: u64 = match r.double_bits() {
        Some(v) => v,
        None => {
            return ConversionResult::Passthrough;
        },
    };
    let y: u64 = match r.double_bits() {
        Some(v) => v,
        None => {
            return ConversionResult::Passthrough;
        },
    };
    let z: u64 = match r.double_bits() {
        Some(v) => v,
        None => {
            return ConversionResult::Passthrough;
        },
    };
    let count: i16 = r.i16_or(1);
    let mut out = Writer::new();
    out.varint(entity_id);
    out.i32(double_to_fixed_rounded(x));
    out.i32(double_to_fixed_rounded(y));
    out.i32(double_to_fixed_rounded(z));
    out.i16(count);
    emit(V18_S2C_SPAWN_EXP_ORB, out)
}

/// SpawnGlobalEntity: the coordinates become 32nds of a block, rounded.
pub open spec fn spec_s2c_spawn_global(b: Seq<u8>) -> Outcome {
    match varint_at(b, 0) {
        None => Outcome::Passthrough,
        Some((entity_id, p)) => {
            let (kind, p2) = u8_or(b, p, 1);
            if b.len() < p2 + 8 {
                Outcome::Passthrough
            } else if b.len() < p2 + 16 {
                Outcome::Passthrough
            } else if b.len() < p2 + 24 {
                Outcome::Passthrough
            } else {
                converted(
                    V18_S2C_SPAWN_GLOBAL,
                    varint(entity_id) + seq![kind] + be_i32(fixed_rounded(u64_at(b, p2)))
                        + be_i32(fixed_rounded(u64_at(b, p2 + 8)))
                        + be_i32(fixed_rounded(u64_at(b, p2 + 16))),
                )
            }
        },
    }
}

pub fn s2c_spawn_global(body: Bytes) -> (res: ConversionResult)
    ensures
        res@ == spec_s2c_spawn_global(content(body)),
{
    broadcast use empty_then;

    let mut r = Reader::new(body);
    let entity_id: i32 = match r.varint() {
        Some(v) => v,
        None => {
            return ConversionResult::Passthrough;
        },
    };
    let kind: u8 = r.u8_or(1);
    let x: u64 = match r.double_bits() {
        Some(v) => v,
        None => {
            return ConversionResult::Passthrough;
        },
    };
    let y: u64 = match r.double_bits() {
        Some(v) => v,
        None => {
            return ConversionResult::Passthrough;
        },
    };
    let z: u64 = match r.double_bits() {
        Some(v) => v,
        None => {
            return ConversionResult::Passthrough;
        },
    };
    let mut out = Writer::new();
    out.varint(entity_id);
    out.u8(kind);
    out.i32(double_to_fixed_rounded(x));
    out.i32(double_to_fixed_rounded(y));
    out.i32(double_to_fixed_rounded(z));
    emit(V18_S2C_SPAWN_GLOBAL, out)
}

/// SpawnMob: the type keeps its low eight bits, the coordinates become 32nds of a block,
/// rounded, and the metadata is empty.
pub open spec fn spec_s2c_spawn_mob(b: Seq<u8>) -> Outcome {
    match varint_at(b, 0) {
        None => Outcome::Passthrough,
        Some((entity_id, p)) => {
            if b.len() < p + 8 {
                Outcome::Passthrough
            } else if b.len() < p + 16 {
                Outcome::Passthrough
            } else {
                match varint_at(b, p + 16) {
                    None => Outcome::Passthrough,
                    Some((kind, p2)) => {
                        if b.len() < p2 + 8 {
                            Outcome::Passthrough
                        } else if b.len() < p2 + 16 {
                            Outcome::Passthrough
                        } else if b.len() < p2 + 24 {
                            Outcome::Passthrough
                        } else {
                            let (yaw, p3) = u8_or(b, p2 + 24, 0);
                            let (pitch, p4) = u8_or(b, p3, 0);
                            let (head_pitch, p5) = u8_or(b, p4, 0);
                            let (vx, p6) = i16_or(b, p5, 0);
                            let (vy, p7) = i16_or(b, p6, 0);
                            let (vz, p8) = i16_or(b, p7, 0);
                            converted(
                                V18_S2C_SPAWN_MOB,
                                varint(entity_id) + be_i64(i64_at(b, p))
                                    + be_i64(i64_at(b, p + 8)) + seq![kind as u8]
                                    + be_i32(fixed_rounded(u64_at(b, p2)))
                                    + be_i32(fixed_rounded(u64_at(b, p2 + 8)))
                                    + be_i32(fixed_rounded(u64_at(b, p2 + 16))) + seq![yaw]
                                    + seq![pitch] + seq![head_pitch] + be_i16(vx) + be_i16(vy)
                                    + be_i16(vz) + seq![0x7Fu8],
                            )
                        }
                    },
                }
            }
        },
    }
}

pub fn s2c_spawn_mob(body: Bytes) -> (res: ConversionResult)
    ensures
        res@ == spec_s2c_spawn_mob(content(body)),
{
    broadcast use empty_then;

    let mut r = Reader::new(body);
    let entity_id: i32 = match r.varint() {
        Some(v) => v,
        None => {
            return ConversionResult::Passthrough;
        },
    };
    let uuid_hi: i64 = match r.i64() {
        Some(v) => v,
        None => {
            return ConversionResult::Passthrough;
        },
    };
    let uuid_lo: i64 = match r.i64() {
        Some(v) => v,
        None => {
            return ConversionResult::Passthrough;
        },
    };
    let kind: i32 = match r.varint() {
        Some(v) => v,
        None => {
            return ConversionResult::Passthrough;
        },
    };
    let x: u64 = match r.double_bits() {
        Some(v) => v,
        None => {
            return ConversionResult::Passthrough;
        },
    };
    let y: u64 = match r.double_bits() {
        Some(v) => v,
        None => {
            return ConversionResult::Passthrough;
        },
    };
    let z: u64 = match r.double_bits() {
        Some(v) => v,
        None => {
            return ConversionResult::Passthrough;
        },
    };
    let yaw: u8 = r.u8_or(0);
    let pitch: u8 = r.u8_or(0);
    let head_pitch: u8 = r.u8_or(0);
    let vx: i16 = r.i16_or(0);
    let vy: i16 = r.i16_or(0);
    let vz: i16 = r.i16_or(0);
    let mut out = Writer::new();
    out.varint(entity_id);
    out.i64(uuid_hi);
    out.i64(uuid_lo);
    out.u8(kind as u8);
    out.i32(double_to_fixed_rounded(x));
    out.i32(double_to_fixed_rounded(y));
    out.i32(double_to_fixed_rounded(z));
    out.u8(yaw);
    out.u8(pitch);
    out.u8(head_pitch);
    out.i16(vx);
    out.i16(vy);
    out.i16(vz);
    out.u8(0x7F);
    emit(V18_S2C_SPAWN_MOB, out)
}

/// SpawnPlayer: the coordinates become 32nds of a block, rounded, no item is held, and the
/// metadata is empty.
pub open spec fn spec_s2c_spawn_player(b: Seq<u8>) -> Outcome {
    match varint_at(b, 0) {
        None => Outcome::Passthrough,
        Some((entity_id, p)) => {
            if b.len() < p + 8 {
                Outcome::Passthrough
            } else if b.len() < p + 16 {
                Outcome::Passthrough
            } else if b.len() < p + 24 {
                Outcome::Passthrough
            } else if b.len() < p + 32 {
                Outcome::Passthrough
            } else if b.len() < p + 40 {
                Outcome::Passthrough
            } else {
                let (yaw, p2) = u8_or(b, p + 40, 0);
                let (pitch, p3) = u8_or(b, p2, 0);
                converted(
                    V18_S2C_SPAWN_PLAYER,
                    varint(entity_id) + be_i64(i64_at(b, p)) + be_i64(i64_at(b, p + 8))
                        + be_i32(fixed_rounded(u64_at(b, p + 16)))
                        + be_i32(fixed_rounded(u64_at(b, p + 24)))
                        + be_i32(fixed_rounded(u64_at(b, p + 32))) + seq![yaw] + seq![pitch]
                        + be_i16(0) + seq![0x7Fu8],
                )
            }
        },
    }
}

pub fn s2c_spawn_player(body: Bytes) -> (res: ConversionResult)
    ensures
        res@ == spec_s2c_spawn_player(content(body)),
{
    broadcast use empty_then;

    let mut r = Reader::new(body);
    let entity_id: i32 = match r.varint() {
        Some(v) => v,
        None => {
            return ConversionResult::Passthrough;
        },
    };
    let uuid_hi: i64 = match r.i64() {
        Some(v) => v,
        None => {
            return ConversionResult::Passthrough;
        },
    };
    let uuid_lo: i64 = match r.i64() {
        Some(v) => v,
        None => {
            return ConversionResult::Passthrough;
        },
    };
    let x: u64 = match r.double_bits() {
        Some(v) => v,
        None => {
            return ConversionResult::Passthrough;
        },
    };
    let y: u64 = match r.double_bits() {
        Some(v) => v,
        None => {
            return ConversionResult::Passthrough;
        },
    };
    let z: u64 = match r.double_bits() {
        Some(v) => v,
        None => {
            return ConversionResult::Passthrough;
        },
    };
    let yaw: u8 = r.u8_or(0);
    let pitch: u8 = r.u8_or(0);
    let mut out = Writer::new();
    out.varint(entity_id);
    out.i64(uuid_hi);
    out.i64(uuid_lo);
    out.i32(double_to_fixed_rounded(x));
    out.i32(double_to_fixed_rounded(y));
    out.i32(double_to_fixed_rounded(z));
    out.u8(yaw);
    out.u8(pitch);
    out.i16(0);
    out.u8(0x7F);
    emit(V18_S2C_SPAWN_PLAYER, out)
}

/// EntityEquipment: the place keeps its low 16 bits, and the item takes its older form.
pub open spec fn spec_s2c_entity_equipment(b: Seq<u8>, t: ItemFlatteningTable) -> Outcome {
    match varint_at(b, 0) {
        None => Outcome::Passthrough,
        Some((entity_id, p)) => {
            match varint_at(b, p) {
                None => Outcome::Passthrough,
                Some((place, p2)) => {
                    match slot_at(b, p2) {
                        None => Outcome::Passthrough,
                        Some((item, _)) => converted(
                            V18_S2C_ENTITY_EQUIPMENT,
                            varint(entity_id) + be_i16(place as i16) + flagged_item_bytes(
                                older_form(item, t.pairs@),
                            ),
                        ),
                    }
                },
            }
        },
    }
}

pub fn s2c_entity_equipment(body: Bytes, t: &ItemFlatteningTable) -> (res: ConversionResult)
    ensures
        res@ == spec_s2c_entity_equipment(content(body), *t),
{
    broadcast use empty_then;

    let mut r = Reader::new(body);
    let entity_id: i32 = match r.varint() {
        Some(v) => v,
        None => {
            return ConversionResult::Passthrough;
        },
    };
    let place: i32 = match r.varint() {
        Some(v) => v,
        None => {
            return ConversionResult::Passthrough;
        },
    };
    let item = match r.slot() {
        Some(s) => s,
        None => {
            return ConversionResult::Passthrough;
        },
    };
    let mut out = Writer::new();
    out.varint(entity_id);
    out.i16(place as i16);
    put_flagged_item(&mut out, &modern_slot_to_legacy(&item, t));
    emit(V18_S2C_ENTITY_EQUIPMENT, out)
}

/// WindowItems: the count keeps its low 16 bits, and each item takes its older form.
pub open spec fn spec_s2c_window_items(b: Seq<u8>, t: ItemFlatteningTable) -> Outcome {
    if b.len() < 1 {
        Outcome::Passthrough
    } else {
        match varint_at(b, 1) {
            None => Outcome::Passthrough,
            Some((count, p)) => {
                match older_items(b, p, up_to(count as int), t.pairs@) {
                    None => Outcome::Passthrough,
                    Some(items) => converted(
                        V18_S2C_WINDOW_ITEMS,
                        seq![b[0]] + be_i16(count as i16) + items,
                    ),
                }
            },
        }
    }
}

pub fn s2c_window_items(body: Bytes, t: &ItemFlatteningTable) -> (res: ConversionResult)
    ensures
        res@ == spec_s2c_window_items(content(body), *t),
{
    broadcast use empty_then;

    let mut r = Reader::new(body);
    let window_id: u8 = match r.u8() {
        Some(v) => v,
        None => {
            return ConversionResult::Passthrough;
        },
    };
    let count: i32 = match r.varint() {
        Some(v) => v,
        None => {
            return ConversionResult::Passthrough;
        },
    };
    let mut out = Writer::new();
    out.u8(window_id);
    out.i16(count as i16);
    if put_older_items(&mut r, &mut out, count, t) {
        emit(V18_S2C_WINDOW_ITEMS, out)
    } else {
        ConversionResult::Passthrough
    }
}

/// SetSlot: the place keeps its low 16 bits, and the item takes its older form.
pub open spec fn spec_s2c_set_slot(b: Seq<u8>, t: ItemFlatteningTable) -> Outcome {
    if b.len() < 1 {
        Outcome::Passthrough
    } else {
        match varint_at(b, 1) {
            None => Outcome::Passthrough,
            Some((place, p)) => {
                match slot_at(b, p) {
                    None => Outcome::Passthrough,
                    Some((item, _)) => converted(
                        V18_S2C_SET_SLOT,
                        seq![b[0]] + be_i16(place as i16) + flagged_item_bytes(older_form(item, t.pairs@)),
                    ),
                }
            },
        }
    }
}

pub fn s2c_set_slot(body: Bytes, t: &ItemFlatteningTable) -> (res: ConversionResult)
    ensures
        res@ == spec_s2c_set_slot(content(body), *t),
{
    broadcast use empty_then;

    let mut r = Reader::new(body);
    let window_id: u8 = match r.u8() {
        Some(v) => v,
        None => {
            return ConversionResult::Passthrough;
        },
    };
    let place: i32 = match r.varint() {
        Some(v) => v,
        None => {
            return ConversionResult::Passthrough;
        },
    };
    let item = match r.slot() {
        Some(s) => s,
        None => {
            return ConversionResult::Passthrough;
        },
    };
    let mut out = Writer::new();
    out.u8(window_id);
    out.i16(place as i16);
    put_flagged_item(&mut out, &modern_slot_to_legacy(&item, t));
    emit(V18_S2C_SET_SLOT, out)
}

/// NamedSoundEffect: the category keeps its low eight bits, and the volume becomes 63rds,
/// rounded and held in eight bits.
pub open spec fn spec_s2c_named_sound(b: Seq<u8>) -> Outcome {
    match string_at(b, 0) {
        None => Outcome::Passthrough,
        Some((name, p)) => {
            match varint_at(b, p) {
                None => Outcome::Passthrough,
                Some((category, p2)) => {
                    if b.len() < p2 + 4 {
                        Outcome::Passthrough
                    } else if b.len() < p2 + 8 {
                        Outcome::Passthrough
                    } else if b.len() < p2 + 12 {
                        Outcome::Passthrough
                    } else if b.len() < p2 + 16 {
                        Outcome::Passthrough
                    } else {
                        let (pitch, p3) = u8_or(b, p2 + 16, 63);
                        converted(
                            V18_S2C_SOUND_EFFECT,
                            wire_string(name) + seq![category as u8] + be_i32(i32_at(b, p2))
                                + be_i32(i32_at(b, p2 + 4)) + be_i32(i32_at(b, p2 + 8))
                                + seq![volume_steps(u32_at(b, p2 + 12))] + seq![pitch],
                        )
                    }
                },
            }
        },
    }
}

pub fn s2c_named_sound(body: Bytes) -> (res: ConversionResult)
    ensures
        res@ == spec_s2c_named_sound(content(body)),
{
    broadcast use empty_then;

    let mut r = Reader::new(body);
    let name: String = match r.string() {
        Some(s) => s,
        None => {
            return ConversionResult::Passthrough;
        },
    };
    let category: i32 = match r.varint() {
        Some(v) => v,
        None => {
            return ConversionResult::Passthrough;
        },
    };
    let x: i32 = match r.i32() {
        Some(v) => v,
        None => {
            return ConversionResult::Passthrough;
        },
    };
    let y: i32 = match r.i32() {
        Some(v) => v,
        None => {
            return ConversionResult::Passthrough;
        },
    };
    let z: i32 = match r.i32() {
        Some(v) => v,
        None => {
            return ConversionResult::Passthrough;
        },
    };
    let volume: u32 = match r.single_bits() {
        Some(v) => v,
        None => {
            return ConversionResult::Passthrough;
        },
    };
    let pitch: u8 = r.u8_or(63);
    let mut out = Writer::new();
    out.string(name.as_str());
    out.u8(category as u8);
    out.i32(x);
    out.i32(y);
    out.i32(z);
    out.u8(single_to_volume(volume));
    out.u8(pitch);
    emit(V18_S2C_SOUND_EFFECT, out)
}

/// Chat of 1.16.5: the sender is dropped.
pub open spec fn spec_s2c_1_16_chat(b: Seq<u8>) -> Outcome {
    match string_at(b, 0) {
        None => Outcome::Passthrough,
        Some((json, p)) => {
            let (position, p2) = u8_or(b, p, 0);
            converted(V18_S2C_CHAT, wire_string(json) + seq![position])
        },
    }
}

pub fn s2c_1_16_chat(body: Bytes) -> (res: ConversionResult)
    ensures
        res@ == spec_s2c_1_16_chat(content(body)),
{
    broadcast use empty_then;

    let mut r = Reader::new(body);
    let json: String = match r.string() {
        Some(s) => s,
        None => {
            return ConversionResult::Passthrough;
        },
    };
    let position: u8 = r.u8_or(0);
    let mut out = Writer::new();
    out.string(json.as_str());
    out.u8(position);
    emit(V18_S2C_CHAT, out)
}

/// The 1.8 form of a 1.12.2 packet toward the client. Packets without a counterpart are
/// dropped, unknown ones are left alone.
pub open spec fn spec_dispatch_1_12(id: u8, b: Seq<u8>, t: ItemFlatteningTable) -> Outcome {
    if id == V112_S2C_SPAWN_OBJECT {
        spec_s2c_spawn_object(b)
    } else if id == V112_S2C_SPAWN_EXP_ORB {
        spec_s2c_spawn_exp_orb(b)
    } else if id == V112_S2C_SPAWN_GLOBAL {
        spec_s2c_spawn_global(b)
    } else if id == V112_S2C_SPAWN_MOB {
        spec_s2c_spawn_mob(b)
    } else if id == V112_S2C_SPAWN_PAINTING {
        converted(V18_S2C_SPAWN_PAINTING, b)
    } else if id == V112_S2C_SPAWN_PLAYER {
        spec_s2c_spawn_player(b)
    } else if id == V112_S2C_ANIMATION {
        converted(V18_S2C_ANIMATION, b)
    } else if id == V112_S2C_STATISTICS {
        converted(V18_S2C_STATISTICS, b)
    } else if id == V112_S2C_BLOCK_BREAK_ANIM {
        converted(V18_S2C_BLOCK_BREAK_ANIM, b)
    } else if id == V112_S2C_BLOCK_ENTITY_DATA {
        converted(V18_S2C_UPDATE_BLOCK_ENTITY, b)
    } else if id == V112_S2C_BLOCK_ACTION {
        converted(V18_S2C_BLOCK_ACTION, b)
    } else if id == V112_S2C_BLOCK_CHANGE {
        spec_s2c_block_change(b)
    } else if id == V112_S2C_BOSS_BAR {
        Outcome::Drop
    } else if id == V112_S2C_SERVER_DIFFICULTY {
        converted(V18_S2C_SERVER_DIFFICULTY, b)
    } else if id == V112_S2C_TAB_COMPLETE {
        converted(V18_S2C_TAB_COMPLETE, b)
    } else if id == V112_S2C_CHAT {
        converted(V18_S2C_CHAT, b)
    } else if id == V112_S2C_MULTI_BLOCK_CHANGE {
        converted(V18_S2C_MULTI_BLOCK_CHANGE, b)
    } else if id == V112_S2C_CONFIRM_TRANSACTION {
        converted(V18_S2C_CONFIRM_TRANSACTION, b)
    } else if id == V112_S2C_CLOSE_WINDOW {
        converted(V18_S2C_CLOSE_WINDOW, b)
    } else if id == V112_S2C_OPEN_WINDOW {
        converted(V18_S2C_OPEN_WINDOW, b)
    } else if id == V112_S2C_WINDOW_ITEMS {
        spec_s2c_window_items(b, t)
    } else if id == V112_S2C_WINDOW_PROPERTY {
        converted(V18_S2C_WINDOW_PROPERTY, b)
    } else if id == V112_S2C_SET_SLOT {
        spec_s2c_set_slot(b, t)
    } else if id == V112_S2C_SET_COOLDOWN {
        Outcome::Drop
    } else if id == V112_S2C_PLUGIN_MESSAGE {
        converted(V18_S2C_PLUGIN_MESSAGE, b)
    } else if id == V112_S2C_NAMED_SOUND {
        spec_s2c_named_sound(b)
    } else if id == V112_S2C_DISCONNECT {
        converted(V18_S2C_DISCONNECT, b)
    } else if id == V112_S2C_ENTITY_STATUS {
        converted(V18_S2C_ENTITY_STATUS, b)
    } else if id == V112_S2C_EXPLOSION {
        converted(V18_S2C_EXPLOSION, b)
    } else if id == V112_S2C_UNLOAD_CHUNK {
        Outcome::Drop
    } else if id == V112_S2C_CHANGE_GAME_STATE {
        converted(V18_S2C_CHANGE_GAME_STATE, b)
    } else if id == V112_S2C_KEEP_ALIVE {
        spec_s2c_keep_alive_long_to_varint(b)
    } else if id == V112_S2C_CHUNK_DATA {
        converted(V18_S2C_CHUNK_DATA, b)
    } else if id == V112_S2C_EFFECT {
        converted(V18_S2C_EFFECT, b)
    } else if id == V112_S2C_PARTICLE {
        converted(V18_S2C_PARTICLE, b)
    } else if id == V112_S2C_JOIN_GAME {
        spec_s2c_join_game(b)
    } else if id == V112_S2C_MAP {
        converted(V18_S2C_MAP_UNMAPPED, b)
    } else if id == V112_S2C_ENTITY_REL_MOVE {
        spec_s2c_entity_rel_move(b, false)
    } else if id == V112_S2C_ENTITY_LOOK_REL_MOVE {
        spec_s2c_entity_rel_move(b, true)
    } else if id == V112_S2C_ENTITY_LOOK {
        converted(V18_S2C_ENTITY_LOOK, b)
    } else if id == V112_S2C_ENTITY {
        converted(V18_S2C_ENTITY, b)
    } else if id == V112_S2C_VEHICLE_MOVE {
        Outcome::Drop
    } else if id == V112_S2C_OPEN_SIGN_EDITOR {
        converted(V18_S2C_OPEN_SIGN_EDITOR, b)
    } else if id == V112_S2C_CRAFT_RECIPE_RESP {
        Outcome::Drop
    } else if id == V112_S2C_PLAYER_ABILITIES {
        converted(V18_S2C_PLAYER_ABILITIES, b)
    } else if id == V112_S2C_COMBAT_EVENT {
        converted(V18_S2C_COMBAT_EVENT, b)
    } else if id == V112_S2C_PLAYER_LIST_ITEM {
        converted(V18_S2C_PLAYER_LIST_ITEM, b)
    } else if id == V112_S2C_PLAYER_POS_LOOK {
        spec_s2c_player_pos_look(b)
    } else if id == V112_S2C_USE_BED {
        converted(V18_S2C_USE_BED, b)
    } else if id == V112_S2C_UNLOCK_RECIPES {
        Outcome::Drop
    } else if id == V112_S2C_DESTROY_ENTITIES {
        converted(V18_S2C_DESTROY_ENTITIES, b)
    } else if id == V112_S2C_REMOVE_ENTITY_EFFECT {
        converted(V18_S2C_REMOVE_ENTITY_EFFECT, b)
    } else if id == V112_S2C_RESOURCE_PACK {
        converted(V18_S2C_RESOURCE_PACK, b)
    } else if id == V112_S2C_RESPAWN {
        spec_s2c_respawn(b)
    } else if id == V112_S2C_ENTITY_HEAD_LOOK {
        converted(V18_S2C_ENTITY_HEAD_LOOK, b)
    } else if id == V112_S2C_SELECT_ADVANCEMENT_TAB {
        Outcome::Drop
    } else if id == V112_S2C_WORLD_BORDER {
        converted(V18_S2C_WORLD_BORDER, b)
    } else if id == V112_S2C_CAMERA {
        converted(V18_S2C_CAMERA, b)
    } else if id == V112_S2C_HELD_ITEM_CHANGE {
        converted(V18_S2C_HELD_ITEM_CHANGE, b)
    } else if id == V112_S2C_DISPLAY_SCOREBOARD {
        converted(V18_S2C_DISPLAY_SCOREBOARD, b)
    } else if id == V112_S2C_ENTITY_METADATA {
        converted(V18_S2C_ENTITY_METADATA, b)
    } else if id == V112_S2C_ATTACH_ENTITY {
        converted(V18_S2C_ATTACH_ENTITY, b)
    } else if id == V112_S2C_ENTITY_VELOCITY {
        converted(V18_S2C_ENTITY_VELOCITY, b)
    } else if id == V112_S2C_ENTITY_EQUIPMENT {
        spec_s2c_entity_equipment(b, t)
    } else if id == V112_S2C_SET_EXPERIENCE {
        converted(V18_S2C_SET_EXPERIENCE, b)
    } else if id == V112_S2C_UPDATE_HEALTH {
        converted(V18_S2C_UPDATE_HEALTH, b)
    } else if id == V112_S2C_SCOREBOARD_OBJ {
        converted(V18_S2C_SCOREBOARD_OBJ, b)
    } else if id == V112_S2C_SET_PASSENGERS {
        Outcome::Drop
    } else if id == V112_S2C_TEAMS {
        converted(V18_S2C_TEAMS, b)
    } else if id == V112_S2C_UPDATE_SCORE {
        converted(V18_S2C_UPDATE_SCORE, b)
    } else if id == V112_S2C_SPAWN_POSITION {
        converted(V18_S2C_SPAWN_POSITION, b)
    } else if id == V112_S2C_TIME_UPDATE {
        converted(V18_S2C_TIME_UPDATE, b)
    } else if id == V112_S2C_TITLE {
        converted(V18_S2C_TITLE, b)
    } else if id == V112_S2C_SOUND_EFFECT {
        converted(V18_S2C_SOUND_EFFECT, b)
    } else if id == V112_S2C_PLAYER_LIST_HEADER_FOOTER {
        converted(V18_S2C_PLAYER_LIST_HEADER_FOOTER, b)
    } else if id == V112_S2C_COLLECT_ITEM {
        spec_s2c_collect_item(b)
    } else if id == V112_S2C_ENTITY_TELEPORT {
        spec_s2c_entity_teleport(b)
    } else if id == V112_S2C_ADVANCEMENTS {
        Outcome::Drop
    } else if id == V112_S2C_ENTITY_PROPERTIES {
        converted(V18_S2C_ENTITY_PROPERTIES, b)
    } else if id == V112_S2C_ENTITY_EFFECT {
        converted(V18_S2C_ENTITY_EFFECT, b)
    } else {
        Outcome::Passthrough
    }
}

fn dispatch_1_12(id: u8, body: Bytes, t: &ItemFlatteningTable) -> (res: ConversionResult)
    ensures
        res@ == spec_dispatch_1_12(id, content(body), *t),
{
    if id == V112_S2C_SPAWN_OBJECT {
        s2c_spawn_object(body)
    } else if id == V112_S2C_SPAWN_EXP_ORB {
        s2c_spawn_exp_orb(body)
    } else if id == V112_S2C_SPAWN_GLOBAL {
        s2c_spawn_global(body)
    } else if id == V112_S2C_SPAWN_MOB {
        s2c_spawn_mob(body)
    } else if id == V112_S2C_SPAWN_PAINTING {
        rebuild_with_id(V18_S2C_SPAWN_PAINTING, &body)
    } else if id == V112_S2C_SPAWN_PLAYER {
        s2c_spawn_player(body)
    } else if id == V112_S2C_ANIMATION {
        rebuild_with_id(V18_S2C_ANIMATION, &body)
    } else if id == V112_S2C_STATISTICS {
        rebuild_with_id(V18_S2C_STATISTICS, &body)
    } else if id == V112_S2C_BLOCK_BREAK_ANIM {
        rebuild_with_id(V18_S2C_BLOCK_BREAK_ANIM, &body)
    } else if id == V112_S2C_BLOCK_ENTITY_DATA {
        rebuild_with_id(V18_S2C_UPDATE_BLOCK_ENTITY, &body)
    } else if id == V112_S2C_BLOCK_ACTION {
        rebuild_with_id(V18_S2C_BLOCK_ACTION, &body)
    } else if id == V112_S2C_BLOCK_CHANGE {
        s2c_block_change(body)
    } else if id == V112_S2C_BOSS_BAR {
        ConversionResult::Drop
    } else if id == V112_S2C_SERVER_DIFFICULTY {
        rebuild_with_id(V18_S2C_SERVER_DIFFICULTY, &body)
    } else if id == V112_S2C_TAB_COMPLETE {
        rebuild_with_id(V18_S2C_TAB_COMPLETE, &body)
    } else if id == V112_S2C_CHAT {
        rebuild_with_id(V18_S2C_CHAT, &body)
    } else if id == V112_S2C_MULTI_BLOCK_CHANGE {
        rebuild_with_id(V18_S2C_MULTI_BLOCK_CHANGE, &body)
    } else if id == V112_S2C_CONFIRM_TRANSACTION {
        rebuild_with_id(V18_S2C_CONFIRM_TRANSACTION, &body)
    } else if id == V112_S2C_CLOSE_WINDOW {
        rebuild_with_id(V18_S2C_CLOSE_WINDOW, &body)
    } else if id == V112_S2C_OPEN_WINDOW {
        rebuild_with_id(V18_S2C_OPEN_WINDOW, &body)
    } else if id == V112_S2C_WINDOW_ITEMS {
        s2c_window_items(body, t)
    } else if id == V112_S2C_WINDOW_PROPERTY {
        rebuild_with_id(V18_S2C_WINDOW_PROPERTY, &body)
    } else if id == V112_S2C_SET_SLOT {
        s2c_set_slot(body, t)
    } else if id == V112_S2C_SET_COOLDOWN {
        ConversionResult::Drop
    } else if id == V112_S2C_PLUGIN_MESSAGE {
        rebuild_with_id(V18_S2C_PLUGIN_MESSAGE, &body)
    } else if id == V112_S2C_NAMED_SOUND {
        s2c_named_sound(body)
    } else if id == V112_S2C_DISCONNECT {
        rebuild_with_id(V18_S2C_DISCONNECT, &body)
    } else if id == V112_S2C_ENTITY_STATUS {
        rebuild_with_id(V18_S2C_ENTITY_STATUS, &body)
    } else if id == V112_S2C_EXPLOSION {
        rebuild_with_id(V18_S2C_EXPLOSION, &body)
    } else if id == V112_S2C_UNLOAD_CHUNK {
        ConversionResult::Drop
    } else if id == V112_S2C_CHANGE_GAME_STATE {
        rebuild_with_id(V18_S2C_CHANGE_GAME_STATE, &body)
    } else if id == V112_S2C_KEEP_ALIVE {
        s2c_keep_alive_long_to_varint(body)
    } else if id == V112_S2C_CHUNK_DATA {
        rebuild_with_id(V18_S2C_CHUNK_DATA, &body)
    } else if id == V112_S2C_EFFECT {
        rebuild_with_id(V18_S2C_EFFECT, &body)
    } else if id == V112_S2C_PARTICLE {
        rebuild_with_id(V18_S2C_PARTICLE, &body)
    } else if id == V112_S2C_JOIN_GAME {
        s2c_join_game(body)
    } else if id == V112_S2C_MAP {
        rebuild_with_id(V18_S2C_MAP_UNMAPPED, &body)
    } else if id == V112_S2C_ENTITY_REL_MOVE {
        s2c_entity_rel_move(body, false)
    } else if id == V112_S2C_ENTITY_LOOK_REL_MOVE {
        s2c_entity_rel_move(body, true)
    } else if id == V112_S2C_ENTITY_LOOK {
        rebuild_with_id(V18_S2C_ENTITY_LOOK, &body)
    } else if id == V112_S2C_ENTITY {
        rebuild_with_id(V18_S2C_ENTITY, &body)
    } else if id == V112_S2C_VEHICLE_MOVE {
        ConversionResult::Drop
    } else if id == V112_S2C_OPEN_SIGN_EDITOR {
        rebuild_with_id(V18_S2C_OPEN_SIGN_EDITOR, &body)
    } else if id == V112_S2C_CRAFT_RECIPE_RESP {
        ConversionResult::Drop
    } else if id == V112_S2C_PLAYER_ABILITIES {
        rebuild_with_id(V18_S2C_PLAYER_ABILITIES, &body)
    } else if id == V112_S2C_COMBAT_EVENT {
        rebuild_with_id(V18_S2C_COMBAT_EVENT, &body)
    } else if id == V112_S2C_PLAYER_LIST_ITEM {
        rebuild_with_id(V18_S2C_PLAYER_LIST_ITEM, &body)
    } else if id == V112_S2C_PLAYER_POS_LOOK {
        s2c_player_pos_look(body)
    } else if id == V112_S2C_USE_BED {
        rebuild_with_id(V18_S2C_USE_BED, &body)
    } else if id == V112_S2C_UNLOCK_RECIPES {
        ConversionResult::Drop
    } else if id == V112_S2C_DESTROY_ENTITIES {
        rebuild_with_id(V18_S2C_DESTROY_ENTITIES, &body)
    } else if id == V112_S2C_REMOVE_ENTITY_EFFECT {
        rebuild_with_id(V18_S2C_REMOVE_ENTITY_EFFECT, &body)
    } else if id == V112_S2C_RESOURCE_PACK {
        rebuild_with_id(V18_S2C_RESOURCE_PACK, &body)
    } else if id == V112_S2C_RESPAWN {
        s2c_respawn(body)
    } else if id == V112_S2C_ENTITY_HEAD_LOOK {
        rebuild_with_id(V18_S2C_ENTITY_HEAD_LOOK, &body)
    } else if id == V112_S2C_SELECT_ADVANCEMENT_TAB {
        ConversionResult::Drop
    } else if id == V112_S2C_WORLD_BORDER {
        rebuild_with_id(V18_S2C_WORLD_BORDER, &body)
    } else if id == V112_S2C_CAMERA {
        rebuild_with_id(V18_S2C_CAMERA, &body)
    } else if id == V112_S2C_HELD_ITEM_CHANGE {
        rebuild_with_id(V18_S2C_HELD_ITEM_CHANGE, &body)
    } else if id == V112_S2C_DISPLAY_SCOREBOARD {
        rebuild_with_id(V18_S2C_DISPLAY_SCOREBOARD, &body)
    } else if id == V112_S2C_ENTITY_METADATA {
        rebuild_with_id(V18_S2C_ENTITY_METADATA, &body)
    } else if id == V112_S2C_ATTACH_ENTITY {
        rebuild_with_id(V18_S2C_ATTACH_ENTITY, &body)
    } else if id == V112_S2C_ENTITY_VELOCITY {
        rebuild_with_id(V18_S2C_ENTITY_VELOCITY, &body)
    } else if id == V112_S2C_ENTITY_EQUIPMENT {
        s2c_entity_equipment(body, t)
    } else if id == V112_S2C_SET_EXPERIENCE {
        rebuild_with_id(V18_S2C_SET_EXPERIENCE, &body)
    } else if id == V112_S2C_UPDATE_HEALTH {
        rebuild_with_id(V18_S2C_UPDATE_HEALTH, &body)
    } else if id == V112_S2C_SCOREBOARD_OBJ {
        rebuild_with_id(V18_S2C_SCOREBOARD_OBJ, &body)
    } else if id == V112_S2C_SET_PASSENGERS {
        ConversionResult::Drop
    } else if id == V112_S2C_TEAMS {
        rebuild_with_id(V18_S2C_TEAMS, &body)
    } else if id == V112_S2C_UPDATE_SCORE {
        rebuild_with_id(V18_S2C_UPDATE_SCORE, &body)
    } else if id == V112_S2C_SPAWN_POSITION {
        rebuild_with_id(V18_S2C_SPAWN_POSITION, &body)
    } else if id == V112_S2C_TIME_UPDATE {
        rebuild_with_id(V18_S2C_TIME_UPDATE, &body)
    } else if id == V112_S2C_TITLE {
        rebuild_with_id(V18_S2C_TITLE, &body)
    } else if id == V112_S2C_SOUND_EFFECT {
        rebuild_with_id(V18_S2C_SOUND_EFFECT, &body)
    } else if id == V112_S2C_PLAYER_LIST_HEADER_FOOTER {
        rebuild_with_id(V18_S2C_PLAYER_LIST_HEADER_FOOTER, &body)
    } else if id == V112_S2C_COLLECT_ITEM {
        s2c_collect_item(body)
    } else if id == V112_S2C_ENTITY_TELEPORT {
        s2c_entity_teleport(body)
    } else if id == V112_S2C_ADVANCEMENTS {
        ConversionResult::Drop
    } else if id == V112_S2C_ENTITY_PROPERTIES {
        rebuild_with_id(V18_S2C_ENTITY_PROPERTIES, &body)
    } else if id == V112_S2C_ENTITY_EFFECT {
        rebuild_with_id(V18_S2C_ENTITY_EFFECT, &body)
    } else {
        ConversionResult::Passthrough
    }
}

/// The 1.8 form of a 1.16.5 packet toward the client. Packets without a counterpart are
/// dropped, unknown ones are left alone.
pub open spec fn spec_dispatch_1_16(id: u8, b: Seq<u8>, t: ItemFlatteningTable) -> Outcome {
    if id == 0x1F {
        spec_s2c_keep_alive_long_to_varint(b)
    } else if id == 0x24 {
        spec_s2c_join_game(b)
    } else if id == 0x0E {
        spec_s2c_1_16_chat(b)
    } else if id == 0x39 {
        spec_s2c_respawn(b)
    } else if id == 0x34 {
        spec_s2c_player_pos_look(b)
    } else if id == 0x28 {
        spec_s2c_entity_rel_move(b, false)
    } else if id == 0x29 {
        spec_s2c_entity_rel_move(b, true)
    } else if id == 0x2A {
        converted(V18_S2C_ENTITY_LOOK, b)
    } else if id == 0x56 {
        spec_s2c_entity_teleport(b)
    } else if id == 0x37 {
        converted(V18_S2C_DESTROY_ENTITIES, b)
    } else if id == 0x3B {
        converted(V18_S2C_ENTITY_HEAD_LOOK, b)
    } else if id == 0x0B {
        spec_s2c_block_change(b)
    } else if id == 0x15 {
        spec_s2c_set_slot(b, t)
    } else if id == 0x13 {
        spec_s2c_window_items(b, t)
    } else if id == 0x47 {
        spec_s2c_entity_equipment(b, t)
    } else if id == 0x49 {
        converted(V18_S2C_UPDATE_HEALTH, b)
    } else if id == 0x4E {
        converted(V18_S2C_TIME_UPDATE, b)
    } else if id == 0x53 {
        converted(V18_S2C_PLAYER_LIST_HEADER_FOOTER, b)
    } else if id == 0x46 {
        converted(V18_S2C_ENTITY_VELOCITY, b)
    } else if id == 0x48 {
        converted(V18_S2C_SET_EXPERIENCE, b)
    } else if id == 0x4B {
        converted(V18_S2C_SCOREBOARD_OBJ, b)
    } else if id == 0x4D {
        converted(V18_S2C_UPDATE_SCORE, b)
    } else if id == 0x3F {
        converted(V18_S2C_HELD_ITEM_CHANGE, b)
    } else if id == 0x30 {
        converted(V18_S2C_PLAYER_ABILITIES, b)
    } else if id == 0x42 {
        converted(V18_S2C_SPAWN_POSITION, b)
    } else if id == 0x0D {
        converted(V18_S2C_TAB_COMPLETE, b)
    } else if id == 0x19 {
        converted(V18_S2C_DISCONNECT, b)
    } else if id == 0x17 {
        converted(V18_S2C_PLUGIN_MESSAGE, b)
    } else if id == 0x12 {
        converted(V18_S2C_CLOSE_WINDOW, b)
    } else if id == 0x10 {
        converted(V18_S2C_CONFIRM_TRANSACTION, b)
    } else if id == 0x14 {
        converted(V18_S2C_WINDOW_PROPERTY, b)
    } else if id == 0x2E {
        converted(V18_S2C_PLAYER_LIST_ITEM, b)
    } else if id == 0x1D {
        converted(V18_S2C_CHANGE_GAME_STATE, b)
    } else if id == 0x05 {
        converted(V18_S2C_ANIMATION, b)
    } else if id == 0x1A {
        converted(V18_S2C_ENTITY_STATUS, b)
    } else if id == 0x2B {
        converted(V18_S2C_USE_BED, b)
    } else if id == 0x44 {
        converted(V18_S2C_ENTITY_METADATA, b)
    } else if id == 0x3D {
        converted(V18_S2C_ATTACH_ENTITY, b)
    } else if id == 0x3E {
        converted(V18_S2C_ENTITY_VELOCITY, b)
    } else if id == 0x25 {
        converted(V18_S2C_MAP_UNMAPPED, b)
    } else if id == 0x2C {
        converted(V18_S2C_PLAYER_ABILITIES, b)
    } else if id == 0x41 {
        converted(V18_S2C_SERVER_DIFFICULTY, b)
    } else if id == 0x38 {
        converted(V18_S2C_WORLD_BORDER, b)
    } else if id == 0x45 {
        converted(V18_S2C_TITLE, b)
    } else if id == 0x0A {
        converted(V18_S2C_BLOCK_ACTION, b)
    } else if id == 0x09 {
        converted(V18_S2C_UPDATE_BLOCK_ENTITY, b)
    } else if id == 0x08 {
        converted(V18_S2C_BLOCK_BREAK_ANIM, b)
    } else if id == 0x07 {
        converted(V18_S2C_STATISTICS, b)
    } else if id == 0x2D {
        converted(V18_S2C_COMBAT_EVENT, b)
    } else if id == 0x21 {
        converted(V18_S2C_EFFECT, b)
    } else if id == 0x22 {
        converted(V18_S2C_PARTICLE, b)
    } else if id == 0x2F {
        converted(V18_S2C_OPEN_SIGN_EDITOR, b)
    } else if id == 0x3C {
        converted(V18_S2C_SCOREBOARD_OBJ, b)
    } else if id == 0x26 {
        converted(V18_S2C_RESOURCE_PACK, b)
    } else if id == 0x4F {
        converted(V18_S2C_ENTITY_EFFECT, b)
    } else if id == 0x33 {
        converted(V18_S2C_REMOVE_ENTITY_EFFECT, b)
    } else if id == 0x4C {
        converted(V18_S2C_COLLECT_ITEM, b)
    } else if id == 0x02 {
        converted(V18_S2C_SPAWN_GLOBAL, b)
    } else if id == 0x04 {
        converted(V18_S2C_SPAWN_PAINTING, b)
    } else if id == 0x11 {
        converted(V18_S2C_CLOSE_WINDOW, b)
    } else if id == 0x18 {
        spec_s2c_named_sound(b)
    } else if id == 0x0C {
        Outcome::Drop
    } else if id == 0x1C {
        Outcome::Drop
    } else if id == 0x16 {
        Outcome::Drop
    } else if id == 0x31 {
        Outcome::Drop
    } else if id == 0x23 {
        Outcome::Drop
    } else if id == 0x43 {
        Outcome::Drop
    } else {
        Outcome::Passthrough
    }
}

fn dispatch_1_16(id: u8, body: Bytes, t: &ItemFlatteningTable) -> (res: ConversionResult)
    ensures
        res@ == spec_dispatch_1_16(id, content(body), *t),
{
    if id == 0x1F {
        s2c_keep_alive_long_to_varint(body)
    } else if id == 0x24 {
        s2c_join_game(body)
    } else if id == 0x0E {
        s2c_1_16_chat(body)
    } else if id == 0x39 {
        s2c_respawn(body)
    } else if id == 0x34 {
        s2c_player_pos_look(body)
    } else if id == 0x28 {
        s2c_entity_rel_move(body, false)
    } else if id == 0x29 {
        s2c_entity_rel_move(body, true)
    } else if id == 0x2A {
        rebuild_with_id(V18_S2C_ENTITY_LOOK, &body)
    } else if id == 0x56 {
        s2c_entity_teleport(body)
    } else if id == 0x37 {
        rebuild_with_id(V18_S2C_DESTROY_ENTITIES, &body)
    } else if id == 0x3B {
        rebuild_with_id(V18_S2C_ENTITY_HEAD_LOOK, &body)
    } else if id == 0x0B {
        s2c_block_change(body)
    } else if id == 0x15 {
        s2c_set_slot(body, t)
    } else if id == 0x13 {
        s2c_window_items(body, t)
    } else if id == 0x47 {
        s2c_entity_equipment(body, t)
    } else if id == 0x49 {
        rebuild_with_id(V18_S2C_UPDATE_HEALTH, &body)
    } else if id == 0x4E {
        rebuild_with_id(V18_S2C_TIME_UPDATE, &body)
    } else if id == 0x53 {
        rebuild_with_id(V18_S2C_PLAYER_LIST_HEADER_FOOTER, &body)
    } else if id == 0x46 {
        rebuild_with_id(V18_S2C_ENTITY_VELOCITY, &body)
    } else if id == 0x48 {
        rebuild_with_id(V18_S2C_SET_EXPERIENCE, &body)
    } else if id == 0x4B {
        rebuild_with_id(V18_S2C_SCOREBOARD_OBJ, &body)
    } else if id == 0x4D {
        rebuild_with_id(V18_S2C_UPDATE_SCORE, &body)
    } else if id == 0x3F {
        rebuild_with_id(V18_S2C_HELD_ITEM_CHANGE, &body)
    } else if id == 0x30 {
        rebuild_with_id(V18_S2C_PLAYER_ABILITIES, &body)
    } else if id == 0x42 {
        rebuild_with_id(V18_S2C_SPAWN_POSITION, &body)
    } else if id == 0x0D {
        rebuild_with_id(V18_S2C_TAB_COMPLETE, &body)
    } else if id == 0x19 {
        rebuild_with_id(V18_S2C_DISCONNECT, &body)
    } else if id == 0x17 {
        rebuild_with_id(V18_S2C_PLUGIN_MESSAGE, &body)
    } else if id == 0x12 {
        rebuild_with_id(V18_S2C_CLOSE_WINDOW, &body)
    } else if id == 0x10 {
        rebuild_with_id(V18_S2C_CONFIRM_TRANSACTION, &body)
    } else if id == 0x14 {
        rebuild_with_id(V18_S2C_WINDOW_PROPERTY, &body)
    } else if id == 0x2E {
        rebuild_with_id(V18_S2C_PLAYER_LIST_ITEM, &body)
    } else if id == 0x1D {
        rebuild_with_id(V18_S2C_CHANGE_GAME_STATE, &body)
    } else if id == 0x05 {
        rebuild_with_id(V18_S2C_ANIMATION, &body)
    } else if id == 0x1A {
        rebuild_with_id(V18_S2C_ENTITY_STATUS, &body)
    } else if id == 0x2B {
        rebuild_with_id(V18_S2C_USE_BED, &body)
    } else if id == 0x44 {
        rebuild_with_id(V18_S2C_ENTITY_METADATA, &body)
    } else if id == 0x3D {
        rebuild_with_id(V18_S2C_ATTACH_ENTITY, &body)
    } else if id == 0x3E {
        rebuild_with_id(V18_S2C_ENTITY_VELOCITY, &body)
    } else if id == 0x25 {
        rebuild_with_id(V18_S2C_MAP_UNMAPPED, &body)
    } else if id == 0x2C {
        rebuild_with_id(V18_S2C_PLAYER_ABILITIES, &body)
    } else if id == 0x41 {
        rebuild_with_id(V18_S2C_SERVER_DIFFICULTY, &body)
    } else if id == 0x38 {
        rebuild_with_id(V18_S2C_WORLD_BORDER, &body)
    } else if id == 0x45 {
        rebuild_with_id(V18_S2C_TITLE, &body)
    } else if id == 0x0A {
        rebuild_with_id(V18_S2C_BLOCK_ACTION, &body)
    } else if id == 0x09 {
        rebuild_with_id(V18_S2C_UPDATE_BLOCK_ENTITY, &body)
    } else if id == 0x08 {
        rebuild_with_id(V18_S2C_BLOCK_BREAK_ANIM, &body)
    } else if id == 0x07 {
        rebuild_with_id(V18_S2C_STATISTICS, &body)
    } else if id == 0x2D {
        rebuild_with_id(V18_S2C_COMBAT_EVENT, &body)
    } else if id == 0x21 {
        rebuild_with_id(V18_S2C_EFFECT, &body)
    } else if id == 0x22 {
        rebuild_with_id(V18_S2C_PARTICLE, &body)
    } else if id == 0x2F {
        rebuild_with_id(V18_S2C_OPEN_SIGN_EDITOR, &body)
    } else if id == 0x3C {
        rebuild_with_id(V18_S2C_SCOREBOARD_OBJ, &body)
    } else if id == 0x26 {
        rebuild_with_id(V18_S2C_RESOURCE_PACK, &body)
    } else if id == 0x4F {
        rebuild_with_id(V18_S2C_ENTITY_EFFECT, &body)
    } else if id == 0x33 {
        rebuild_with_id(V18_S2C_REMOVE_ENTITY_EFFECT, &body)
    } else if id == 0x4C {
        rebuild_with_id(V18_S2C_COLLECT_ITEM, &body)
    } else if id == 0x02 {
        rebuild_with_id(V18_S2C_SPAWN_GLOBAL, &body)
    } else if id == 0x04 {
        rebuild_with_id(V18_S2C_SPAWN_PAINTING, &body)
    } else if id == 0x11 {
        rebuild_with_id(V18_S2C_CLOSE_WINDOW, &body)
    } else if id == 0x18 {
        s2c_named_sound(body)
    } else if id == 0x0C {
        ConversionResult::Drop
    } else if id == 0x1C {
        ConversionResult::Drop
    } else if id == 0x16 {
        ConversionResult::Drop
    } else if id == 0x31 {
        ConversionResult::Drop
    } else if id == 0x23 {
        ConversionResult::Drop
    } else if id == 0x43 {
        ConversionResult::Drop
    } else {
        ConversionResult::Passthrough
    }
}

/// The 1.8 form of a packet of 1.19 or later toward the client: JoinGame,
/// PlayerPositionAndLook and KeepAlive are converted, all else is left alone.
pub open spec fn spec_dispatch_modern(id: u8, b: Seq<u8>) -> Outcome {
    if id == 0x28 {
        spec_s2c_join_game(b)
    } else if id == 0x3E {
        spec_s2c_player_pos_look(b)
    } else if id == 0x23 {
        spec_s2c_keep_alive_long_to_varint(b)
    } else {
        Outcome::Passthrough
    }
}

fn dispatch_modern(id: u8, body: Bytes) -> (res: ConversionResult)
    ensures
        res@ == spec_dispatch_modern(id, content(body)),
{
    if id == 0x28 {
        s2c_join_game(body)
    } else if id == 0x3E {
        s2c_player_pos_look(body)
    } else if id == 0x23 {
        s2c_keep_alive_long_to_varint(body)
    } else {
        ConversionResult::Passthrough
    }
}

/// What becomes of a packet of a server of the given protocol.
pub open spec fn spec_convert_s2c(p: Seq<u8>, server_proto: u32, t: ItemFlatteningTable) -> Outcome {
    match split(p) {
        Some((id, b)) => match nearest_version(server_proto).spec_epoch() {
            Epoch::V1_16 => spec_dispatch_1_16(id, b, t),
            Epoch::V1_19 | Epoch::V1_20 | Epoch::V1_21Plus => spec_dispatch_modern(id, b),
            _ => spec_dispatch_1_12(id, b, t),
        },
        None => Outcome::Passthrough,
    }
}

/// Converts a packet of a server of the given protocol.
pub fn convert_s2c(payload: Bytes, server_proto: u32, t: &ItemFlatteningTable) -> (res:
    ConversionResult)
    ensures
        res@ == spec_convert_s2c(content(payload), server_proto, *t),
{
    match split_id(payload) {
        Some((id, body)) => match nearest(server_proto).epoch() {
            Epoch::V1_16 => dispatch_1_16(id, body, t),
            Epoch::V1_19 | Epoch::V1_20 | Epoch::V1_21Plus => dispatch_modern(id, body),
            _ => dispatch_1_12(id, body, t),
        },
        None => ConversionResult::Passthrough,
    }
}

} // verus!
