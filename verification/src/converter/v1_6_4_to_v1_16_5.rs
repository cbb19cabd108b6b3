//! 1.6.4 packets for 1.16.5.
//!
//! Items and blocks change from the ids before the 1.13 flattening to those behind it, and
//! packed places from the order x, y, z to the order x, z, y.

use bytes::Bytes;
use crate::converter::items::{
    convert_set_slot_legacy_to_modern, counted_item_at, flagged_item_at, holds_flagged_item,
    legacy_slot_to_modern, map_legacy_equipment_slot, newer_equipment_index, newer_form,
    tag_length_reads,
};
use crate::converter::outcome::{
    ConversionResult, Outcome, converted, emit, in_front, outcome_of, rebuild_with_id, split,
    split_id,
};
use crate::converter::safe::Reader;
use crate::flattening::{Flattening, newer_block};
use crate::ident::{fresh_uuid, is_random_uuid, unused_uuid};
use crate::number::{double_of_fixed, fixed_to_double, single_of_sixteenths, sixteenths_to_single};
use crate::position::{Position, encode_modern_position, modern_bits};
use crate::slot::slot_bytes;
use crate::text::{
    escape_quotes, json_component, json_text, quotes_escaped, string_from_utf16_lossy, ucs2_at,
    utf16_lossy, wire_string,
};
use crate::varint::varint;
use crate::wire::{
    be32, be64, be_i16, be_i64, be_i8, bytes_clone, bytes_mut_extend, bytes_mut_freeze,
    bytes_mut_new, bytes_to_vec, content, i16_at, i32_at, i8_at, u16_at, u32_at, u64_at,
};
use crate::writer::{Writer, empty_then};
use vstd::prelude::*;

verus! {

// Packets of 1.6.4 toward the client.

pub const V164_S2C_KEEP_ALIVE: u8 = 0x00;
pub const V164_S2C_CHAT: u8 = 0x03;
pub const V164_S2C_PLAYER_POS_LOOK: u8 = 0x0D;
pub const V164_S2C_SPAWN_PLAYER: u8 = 0x14;
pub const V164_S2C_ENTITY_TELEPORT: u8 = 0x22;
pub const V164_S2C_ENTITY_REL_MOVE: u8 = 0x15;
pub const V164_S2C_ENTITY: u8 = 0x1E;
pub const V164_S2C_BLOCK_CHANGE: u8 = 0x35;
pub const V164_S2C_SET_SLOT: u8 = 0x67;
pub const V164_S2C_WINDOW_ITEMS: u8 = 0x68;
pub const V164_S2C_ENTITY_EQUIPMENT: u8 = 0x1C;
pub const V164_S2C_EXPERIENCE: u8 = 0x2B;
pub const V164_S2C_HELD_ITEM_CHANGE: u8 = 0x10;
pub const V164_S2C_PLAYER_ABILITIES: u8 = 0x43;
pub const V164_S2C_DISCONNECT: u8 = 0xFF;

pub const V165_S2C_KEEP_ALIVE: u8 = 0x1F;
pub const V165_S2C_CHAT: u8 = 0x0E;
pub const V165_S2C_PLAYER_POS_LOOK: u8 = 0x34;
pub const V165_S2C_SPAWN_PLAYER: u8 = 0x04;
pub const V165_S2C_ENTITY_TELEPORT: u8 = 0x56;
pub const V165_S2C_ENTITY_REL_MOVE: u8 = 0x27;
pub const V165_S2C_ENTITY: u8 = 0x00;
pub const V165_S2C_BLOCK_CHANGE: u8 = 0x0B;
pub const V165_S2C_SET_SLOT: u8 = 0x15;
pub const V165_S2C_WINDOW_ITEMS: u8 = 0x13;
pub const V165_S2C_ENTITY_EQUIPMENT: u8 = 0x47;
pub const V165_S2C_EXPERIENCE: u8 = 0x48;
pub const V165_S2C_HELD_ITEM_CHANGE: u8 = 0x3F;
pub const V165_S2C_PLAYER_ABILITIES: u8 = 0x2F;
pub const V165_S2C_DISCONNECT: u8 = 0x19;

/// KeepAlive: the `i32` id becomes an `i64`.
pub open spec fn spec_s2c_keep_alive(b: Seq<u8>) -> Outcome {
    if b.len() < 4 {
        Outcome::Passthrough
    } else {
        converted(V165_S2C_KEEP_ALIVE, be_i64(i32_at(b, 0) as i64))
    }
}

pub fn s2c_keep_alive(body: Bytes) -> (res: ConversionResult)
    ensures
        res@ == spec_s2c_keep_alive(content(body)),
{
    broadcast use empty_then;

    let mut r = Reader::new(body);
    if !r.has(4) {
        return ConversionResult::Passthrough;
    }
    let id: i32 = r.get_i32();
    let mut out = Writer::new();
    out.i64(id as i64);
    emit(V165_S2C_KEEP_ALIVE, out)
}

/// Chat: the text changes its encoding, and gets position 0 and a sender of all zeros.
pub open spec fn spec_s2c_chat(b: Seq<u8>) -> Outcome {
    match ucs2_at(b, 0) {
        None => Outcome::Passthrough,
        Some((message, p)) => {
            converted(
                V165_S2C_CHAT,
                wire_string(utf16_lossy(message)) + seq![0u8] + be_i64(0) + be_i64(0),
            )
        },
    }
}

pub fn s2c_chat(body: Bytes) -> (res: ConversionResult)
    ensures
        res@ == spec_s2c_chat(content(body)),
{
    broadcast use empty_then;

    let mut r = Reader::new(body);
    let message_units: Vec<u16> = match r.ucs2_units() {
        Some(u) => u,
        None => {
            return ConversionResult::Passthrough;
        },
    };
    let message: String = string_from_utf16_lossy(message_units.as_slice());
    let mut out = Writer::new();
    out.string(message.as_str());
    out.u8(0);
    out.i64(0);
    out.i64(0);
    emit(V165_S2C_CHAT, out)
}

/// PlayerPositionAndLook: x, stance, y, z, yaw, pitch and the ground flag become x, y, z,
/// yaw, pitch, no relative flags and teleport id 0.
pub open spec fn spec_s2c_player_pos_look(b: Seq<u8>) -> Outcome {
    if b.len() < 41 {
        Outcome::Passthrough
    } else {
        converted(
            V165_S2C_PLAYER_POS_LOOK,
            be64(u64_at(b, 0)) + be64(u64_at(b, 16)) + be64(u64_at(b, 24)) + be32(u32_at(b, 32))
                + be32(u32_at(b, 36)) + seq![0u8] + varint(0),
        )
    }
}

pub fn s2c_player_pos_look(body: Bytes) -> (res: ConversionResult)
    ensures
        res@ == spec_s2c_player_pos_look(content(body)),
{
    broadcast use empty_then;

    let mut r = Reader::new(body);
    if !r.has(41) {
        return ConversionResult::Passthrough;
    }
    let x: u64 = r.get_u64();
    let _stance: u64 = r.get_u64();
    let y: u64 = r.get_u64();
    let z: u64 = r.get_u64();
    let yaw: u32 = r.get_u32();
    let pitch: u32 = r.get_u32();
    let _on_ground: u8 = r.get_u8();
    let mut out = Writer::new();
    out.u64(x);
    out.u64(y);
    out.u64(z);
    out.u32(yaw);
    out.u32(pitch);
    out.u8(0);
    out.varint(0);
    emit(V165_S2C_PLAYER_POS_LOOK, out)
}

/// SpawnPlayer: the name and the held item are dropped, the player gets the given unique
/// id, and the coordinates, in 32nds of a block, become doubles.
pub open spec fn spec_s2c_spawn_player(b: Seq<u8>, uuid: (u64, u64)) -> Outcome {
    if b.len() < 4 {
        Outcome::Passthrough
    } else {
        match ucs2_at(b, 4) {
            None => Outcome::Passthrough,
            Some((name, p)) => {
                if b.len() < p + 16 {
                    Outcome::Passthrough
                } else {
                    converted(
                        V165_S2C_SPAWN_PLAYER,
                        varint(i32_at(b, 0)) + be_i64(uuid.0 as i64) + be_i64(uuid.1 as i64)
                            + be64(double_of_fixed(i32_at(b, p) as int, 5))
                            + be64(double_of_fixed(i32_at(b, p + 4) as int, 5))
                            + be64(double_of_fixed(i32_at(b, p + 8) as int, 5))
                            + seq![i8_at(b, p + 12) as u8] + seq![i8_at(b, p + 13) as u8]
                            + seq![0xFFu8],
                    )
                }
            },
        }
    }
}

pub fn s2c_spawn_player(body: Bytes, uuid: (u64, u64)) -> (res: ConversionResult)
    ensures
        res@ == spec_s2c_spawn_player(content(body), uuid),
{
    broadcast use empty_then;

    let mut r = Reader::new(body);
    if !r.has(4) {
        return ConversionResult::Passthrough;
    }
    let entity_id: i32 = r.get_i32();
    let _name: Vec<u16> = match r.ucs2_units() {
        Some(u) => u,
        None => {
            return ConversionResult::Passthrough;
        },
    };
    if !r.has(16) {
        return ConversionResult::Passthrough;
    }
    let x: i32 = r.get_i32();
    let y: i32 = r.get_i32();
    let z: i32 = r.get_i32();
    let yaw: i8 = r.get_i8();
    let pitch: i8 = r.get_i8();
    let _current_item: i16 = r.get_i16();
    let mut out = Writer::new();
    out.varint(entity_id);
    out.i64(uuid.0 as i64);
    out.i64(uuid.1 as i64);
    out.u64(fixed_to_double(x, 5));
    out.u64(fixed_to_double(y, 5));
    out.u64(fixed_to_double(z, 5));
    out.u8(yaw as u8);
    out.u8(pitch as u8);
    out.u8(0xFF);
    emit(V165_S2C_SPAWN_PLAYER, out)
}

/// EntityTeleport: the coordinates, in 32nds of a block, become doubles.
pub open spec fn spec_s2c_entity_teleport(b: Seq<u8>) -> Outcome {
    if b.len() < 18 {
        Outcome::Passthrough
    } else {
        converted(
            V165_S2C_ENTITY_TELEPORT,
            varint(i32_at(b, 0)) + be64(double_of_fixed(i32_at(b, 4) as int, 5))
                + be64(double_of_fixed(i32_at(b, 8) as int, 5))
                + be64(double_of_fixed(i32_at(b, 12) as int, 5)) + seq![i8_at(b, 16) as u8]
                + seq![i8_at(b, 17) as u8] + seq![0u8],
        )
    }
}

pub fn s2c_entity_teleport(body: Bytes) -> (res: ConversionResult)
    ensures
        res@ == spec_s2c_entity_teleport(content(body)),
{
    broadcast use empty_then;

    let mut r = Reader::new(body);
    if !r.has(18) {
        return ConversionResult::Passthrough;
    }
    let entity_id: i32 = r.get_i32();
    let x: i32 = r.get_i32();
    let y: i32 = r.get_i32();
    let z: i32 = r.get_i32();
    let yaw: i8 = r.get_i8();
    let pitch: i8 = r.get_i8();
    let mut out = Writer::new();
    out.varint(entity_id);
    out.u64(fixed_to_double(x, 5));
    out.u64(fixed_to_double(y, 5));
    out.u64(fixed_to_double(z, 5));
    out.u8(yaw as u8);
    out.u8(pitch as u8);
    out.u8(0);
    emit(V165_S2C_ENTITY_TELEPORT, out)
}

/// EntityRelativeMove: the steps, in 32nds of a block, become 4096ths.
pub open spec fn spec_s2c_entity_rel_move(b: Seq<u8>) -> Outcome {
    if b.len() < 7 {
        Outcome::Passthrough
    } else {
        converted(
            V165_S2C_ENTITY_REL_MOVE,
            varint(i32_at(b, 0)) + be_i16((i8_at(b, 4) * 128) as i16)
                + be_i16((i8_at(b, 5) * 128) as i16) + be_i16((i8_at(b, 6) * 128) as i16)
                + seq![0u8],
        )
    }
}

pub fn s2c_entity_rel_move(body: Bytes) -> (res: ConversionResult)
    ensures
        res@ == spec_s2c_entity_rel_move(content(body)),
{
    broadcast use empty_then;

    let mut r = Reader::new(body);
    if !r.has(7) {
        return ConversionResult::Passthrough;
    }
    let entity_id: i32 = r.get_i32();
    let dx: i8 = r.get_i8();
    let dy: i8 = r.get_i8();
    let dz: i8 = r.get_i8();
    let mut out = Writer::new();
    out.varint(entity_id);
    out.i16(dx as i16 * 128);
    out.i16(dy as i16 * 128);
    out.i16(dz as i16 * 128);
    out.u8(0);
    emit(V165_S2C_ENTITY_REL_MOVE, out)
}

/// Entity: it gets the given unique id, the type becomes variable-length with the number it
/// has, and the coordinates, in 32nds of a block, become doubles.
pub open spec fn spec_s2c_entity(b: Seq<u8>, uuid: (u64, u64)) -> Outcome {
    if b.len() < 26 {
        Outcome::Passthrough
    } else {
        converted(
            V165_S2C_ENTITY,
            varint(i32_at(b, 0)) + be_i64(uuid.0 as i64) + be_i64(uuid.1 as i64)
                + varint(i8_at(b, 4) as i32) + be64(double_of_fixed(i32_at(b, 5) as int, 5))
                + be64(double_of_fixed(i32_at(b, 9) as int, 5))
                + be64(double_of_fixed(i32_at(b, 13) as int, 5)) + seq![i8_at(b, 17) as u8]
                + seq![i8_at(b, 18) as u8] + seq![i8_at(b, 19) as u8] + be_i16(i16_at(b, 20))
                + be_i16(i16_at(b, 22)) + be_i16(i16_at(b, 24)),
        )
    }
}

pub fn s2c_entity(body: Bytes, uuid: (u64, u64)) -> (res: ConversionResult)
    ensures
        res@ == spec_s2c_entity(content(body), uuid),
{
    broadcast use empty_then;

    let mut r = Reader::new(body);
    if !r.has(26) {
        return ConversionResult::Passthrough;
    }
    let entity_id: i32 = r.get_i32();
    let entity_type: i8 = r.get_i8();
    let x: i32 = r.get_i32();
    let y: i32 = r.get_i32();
    let z: i32 = r.get_i32();
    let yaw: i8 = r.get_i8();
    let pitch: i8 = r.get_i8();
    let head_pitch: i8 = r.get_i8();
    let vx: i16 = r.get_i16();
    let vy: i16 = r.get_i16();
    let vz: i16 = r.get_i16();
    let mut out = Writer::new();
    out.varint(entity_id);
    out.i64(uuid.0 as i64);
    out.i64(uuid.1 as i64);
    out.varint(entity_type as i32);
    out.u64(fixed_to_double(x, 5));
    out.u64(fixed_to_double(y, 5));
    out.u64(fixed_to_double(z, 5));
    out.u8(yaw as u8);
    out.u8(pitch as u8);
    out.u8(head_pitch as u8);
    out.i16(vx);
    out.i16(vy);
    out.i16(vz);
    emit(V165_S2C_ENTITY, out)
}

/// HeldItemChange: the slot becomes variable-length.
pub open spec fn spec_s2c_held_item_change(b: Seq<u8>) -> Outcome {
    if b.len() < 2 {
        Outcome::Passthrough
    } else {
        converted(V165_S2C_HELD_ITEM_CHANGE, varint(i16_at(b, 0) as i32))
    }
}

pub fn s2c_held_item_change(body: Bytes) -> (res: ConversionResult)
    ensures
        res@ == spec_s2c_held_item_change(content(body)),
{
    broadcast use empty_then;

    let mut r = Reader::new(body);
    if !r.has(2) {
        return ConversionResult::Passthrough;
    }
    let slot: i16 = r.get_i16();
    let mut out = Writer::new();
    out.varint(slot as i32);
    emit(V165_S2C_HELD_ITEM_CHANGE, out)
}

/// PlayerAbilities: flags and the two speeds.
pub open spec fn spec_s2c_player_abilities(b: Seq<u8>) -> Outcome {
    if b.len() < 9 {
        Outcome::Passthrough
    } else {
        converted(
            V165_S2C_PLAYER_ABILITIES,
            seq![b[0]] + be32(u32_at(b, 1)) + be32(u32_at(b, 5)),
        )
    }
}

pub fn s2c_player_abilities(body: Bytes) -> (res: ConversionResult)
    ensures
        res@ == spec_s2c_player_abilities(content(body)),
{
    broadcast use empty_then;

    let mut r = Reader::new(body);
    if !r.has(9) {
        return ConversionResult::Passthrough;
    }
    let flags: u8 = r.get_u8();
    let flying_speed: u32 = r.get_u32();
    let walking_speed: u32 = r.get_u32();
    let mut out = Writer::new();
    out.u8(flags);
    out.u32(flying_speed);
    out.u32(walking_speed);
    emit(V165_S2C_PLAYER_ABILITIES, out)
}

/// Disconnect: the reason becomes a chat component. Only quotes are escaped.
pub open spec fn spec_s2c_disconnect(b: Seq<u8>) -> Outcome {
    match ucs2_at(b, 0) {
        None => Outcome::Passthrough,
        Some((message, p)) => {
            converted(V165_S2C_DISCONNECT, wire_string(json_component(quotes_escaped(utf16_lossy(message)))))
            
        },
    }
}

pub fn s2c_disconnect(body: Bytes) -> (res: ConversionResult)
    ensures
        res@ == spec_s2c_disconnect(content(body)),
{
    broadcast use empty_then;

    let mut r = Reader::new(body);
    let message_units: Vec<u16> = match r.ucs2_units() {
        Some(u) => u,
        None => {
            return ConversionResult::Passthrough;
        },
    };
    let message: String = string_from_utf16_lossy(message_units.as_slice());
    let json = json_text(escape_quotes(message.as_str()).as_str());
    let mut out = Writer::new();
    out.string(json.as_str());
    emit(V165_S2C_DISCONNECT, out)
}

/// The older state of a block: the id and the low four bits of its metadata.
pub open spec fn older_state(block_id: i32, metadata: i8) -> u32 {
    ((block_id as u32) << 4) | ((metadata as u32) & 0xF)
}

/// BlockChange: the place is packed, and the block gets its newer state. A block without one
/// is dropped. A body of 11 to 13 bytes is too short for what is read of it.
pub open spec fn spec_s2c_block_change(b: Seq<u8>, t: Flattening) -> Option<Outcome> {
    if b.len() < 11 {
        Some(Outcome::Passthrough)
    } else if b.len() < 14 {
        None
    } else {
        match newer_block(t.blocks.pairs@, older_state(i32_at(b, 9), i8_at(b, 13))) {
            None => Some(Outcome::Drop),
            Some(state) => Some(
                converted(
                    V165_S2C_BLOCK_CHANGE,
                    be_i64(
                        modern_bits(i32_at(b, 0) as int, i8_at(b, 4) as int, i32_at(b, 5) as int) as i64,
                    ) + varint(state as i32),
                ),
            ),
        }
    }
}

fn s2c_block_change(body: Bytes, t: &Flattening) -> (res: Option<ConversionResult>)
    ensures
        outcome_of(res) == spec_s2c_block_change(content(body), *t),
{
    broadcast use empty_then;

    let mut r = Reader::new(body);
    if !r.has(11) {
        return Some(ConversionResult::Passthrough);
    }
    if !r.has(14) {
        return None;
    }
    let x: i32 = r.get_i32();
    let y: i32 = r.get_i8() as i32;
    let z: i32 = r.get_i32();
    let block_id: i32 = r.get_i32();
    let metadata: i8 = r.get_i8();
    let state: u32 = match t.blocks.legacy_to_modern(
        ((block_id as u32) << 4) | ((metadata as u32) & 0xF),
    ) {
        Some(s) => s,
        None => {
            return Some(ConversionResult::Drop);
        },
    };
    let mut out = Writer::new();
    out.i64(encode_modern_position(Position { x, y, z }));
    out.varint(state as i32);
    Some(emit(V165_S2C_BLOCK_CHANGE, out))
}

/// SetSlot: the item takes its newer form. Where the length of its tags does not read it is
/// dropped. `None` where the body ends before the item does.
pub open spec fn spec_s2c_set_slot(b: Seq<u8>, t: Flattening) -> Option<Outcome> {
    if b.len() < 3 || !holds_flagged_item(b, 3) {
        None
    } else if tag_length_reads(b, 3) {
        Some(
            converted(
                V165_S2C_SET_SLOT,
                seq![b[0]] + be_i16(i16_at(b, 1)) + slot_bytes(
                    newer_form(flagged_item_at(b, 3), t.items.pairs@),
                ),
            ),
        )
    } else {
        Some(Outcome::Drop)
    }
}

/// Whether a body holds what is read of a SetSlot packet.
fn holds_set_slot(body: &Bytes) -> (r: bool)
    ensures
        r == (content(*body).len() >= 3 && holds_flagged_item(content(*body), 3)),
{
    let mut r = Reader::new(bytes_clone(body));
    if !r.has(4) {
        return false;
    }
    let _ = r.get_bytes(3);
    let present: u8 = r.get_u8();
    if present == 0 {
        return true;
    }
    if !r.has(5) {
        return false;
    }
    let _ = r.get_bytes(5);
    let left: usize = r.remaining();
    match r.varint() {
        Some(n) => n <= 0 || n as usize <= left,
        None => true,
    }
}

fn s2c_set_slot(body: Bytes, t: &Flattening) -> (res: Option<ConversionResult>)
    ensures
        outcome_of(res) == spec_s2c_set_slot(content(body), *t),
{
    broadcast use empty_then;

    if !holds_set_slot(&body) {
        return None;
    }
    let mut whole = bytes_mut_new();
    bytes_mut_extend(&mut whole, bytes_to_vec(&body).as_slice());
    match convert_set_slot_legacy_to_modern(&mut whole, &t.items) {
        Ok(_) => Some(rebuild_with_id(V165_S2C_SET_SLOT, &bytes_mut_freeze(whole))),
        Err(_) => Some(ConversionResult::Drop),
    }
}

/// `n` items from `p` on in their newer form, `None` where the bytes end before the last.
pub open spec fn newer_items(b: Seq<u8>, p: int, n: nat, pairs: Seq<(i16, u32)>) -> Option<Seq<u8>>
    decreases n,
{
    if n == 0 {
        Some(seq![])
    } else {
        match counted_item_at(b, p) {
            None => None,
            Some((s, q)) => match newer_items(b, q, (n - 1) as nat, pairs) {
                None => None,
                Some(rest) => Some(slot_bytes(newer_form(s, pairs)) + rest),
            },
        }
    }
}

/// WindowItems: the window, and each item in its newer form. A negative count stands for no
/// items. `None` where the body ends before the last item does.
pub open spec fn spec_s2c_window_items(b: Seq<u8>, t: Flattening) -> Option<Outcome> {
    if b.len() < 3 {
        Some(Outcome::Passthrough)
    } else {
        let n = if i16_at(b, 1) > 0 { i16_at(b, 1) as nat } else { 0 };
        match newer_items(b, 3, n, t.items.pairs@) {
            None => None,
            Some(items) => Some(converted(V165_S2C_WINDOW_ITEMS, seq![b[0]] + items)),
        }
    }
}

fn s2c_window_items(body: Bytes, t: &Flattening) -> (res: Option<ConversionResult>)
    ensures
        outcome_of(res) == spec_s2c_window_items(content(body), *t),
{
    broadcast use empty_then;

    let ghost b = content(body);
    let ghost pairs = t.items.pairs@;
    let mut r = Reader::new(body);
    if !r.has(3) {
        return Some(ConversionResult::Passthrough);
    }
    let window_id: u8 = r.get_u8();
    let count: i16 = r.get_i16();
    let mut left: i16 = if count > 0 { count } else { 0 };
    let mut out = Writer::new();
    out.u8(window_id);
    let ghost n = left as nat;
    let ghost mut done = Seq::<u8>::empty();
    proof {
        let all = newer_items(b, 3, n, pairs);
        if all is Some {
            assert(done + all->0 =~= all->0);
        }
    }
    while left > 0
        invariant
            left >= 0,
            r.valid(),
            r.all() == b,
            pairs == t.items.pairs@,
            b == content(body),
            b.len() >= 3,
            n == (if i16_at(b, 1) > 0 { i16_at(b, 1) as nat } else { 0 }),
            newer_items(b, 3, n, pairs) == in_front(done, newer_items(b, r.at(), left as nat, pairs)),
            out@ == seq![b[0]] + done,
        decreases left,
    {
        match r.counted_item() {
            Some(item) => {
                let newer = legacy_slot_to_modern(&item, &t.items);
                out.slot(&newer);
                proof {
                    let add = slot_bytes(newer@);
                    let rest = newer_items(b, r.at(), (left - 1) as nat, pairs);
                    if rest is Some {
                        assert(done + (add + rest->0) =~= (done + add) + rest->0);
                    }
                    assert(out@ =~= seq![b[0]] + (done + add));
                    done = done + add;
                }
                left = left - 1;
            },
            None => {
                return None;
            },
        }
    }
    assert(done + Seq::<u8>::empty() =~= done);
    Some(emit(V165_S2C_WINDOW_ITEMS, out))
}

/// EntityEquipment: the item takes its newer form, and its place the newer index. A place
/// without one is dropped. `None` where the body ends before the item does.
pub open spec fn spec_s2c_entity_equipment(b: Seq<u8>, t: Flattening) -> Option<Outcome> {
    if b.len() < 6 {
        Some(Outcome::Passthrough)
    } else {
        match counted_item_at(b, 6) {
            None => None,
            Some((s, _)) => match newer_equipment_index(i16_at(b, 4)) {
                None => Some(Outcome::Drop),
                Some(index) => Some(
                    converted(
                        V165_S2C_ENTITY_EQUIPMENT,
                        varint(i32_at(b, 0)) + varint(index as i32) + slot_bytes(
                            newer_form(s, t.items.pairs@),
                        ),
                    ),
                ),
            },
        }
    }
}

fn s2c_entity_equipment(body: Bytes, t: &Flattening) -> (res: Option<ConversionResult>)
    ensures
        outcome_of(res) == spec_s2c_entity_equipment(content(body), *t),
{
    broadcast use empty_then;

    let mut r = Reader::new(body);
    if !r.has(6) {
        return Some(ConversionResult::Passthrough);
    }
    let entity_id: i32 = r.get_i32();
    let slot: i16 = r.get_i16();
    let item = match r.counted_item() {
        Some(item) => item,
        None => {
            return None;
        },
    };
    let index: u8 = match map_legacy_equipment_slot(slot) {
        Some(index) => index,
        None => {
            return Some(ConversionResult::Drop);
        },
    };
    let mut out = Writer::new();
    out.varint(entity_id);
    out.varint(index as i32);
    out.slot(&legacy_slot_to_modern(&item, &t.items));
    Some(emit(V165_S2C_ENTITY_EQUIPMENT, out))
}

/// Experience: level and total become variable-length. A body of 4 to 7 bytes is too short
/// for what is read of it.
pub open spec fn spec_s2c_experience(b: Seq<u8>) -> Option<Outcome> {
    if b.len() < 4 {
        Some(Outcome::Passthrough)
    } else if b.len() < 8 {
        None
    } else {
        Some(
            converted(
                V165_S2C_EXPERIENCE,
                be32(u32_at(b, 0)) + varint(i16_at(b, 4) as i32) + varint(i16_at(b, 6) as i32),
            ),
        )
    }
}

fn s2c_experience(body: Bytes) -> (res: Option<ConversionResult>)
    ensures
        outcome_of(res) == spec_s2c_experience(content(body)),
{
    broadcast use empty_then;

    let mut r = Reader::new(body);
    if !r.has(4) {
        return Some(ConversionResult::Passthrough);
    }
    if !r.has(8) {
        return None;
    }
    let bar: u32 = r.get_u32();
    let level: i16 = r.get_i16();
    let total: i16 = r.get_i16();
    let mut out = Writer::new();
    out.u32(bar);
    out.varint(level as i32);
    out.varint(total as i32);
    Some(emit(V165_S2C_EXPERIENCE, out))
}

/// The 1.16.5 form of a 1.6.4 packet toward the client, `None` where the packet ends before
/// what is read of it. Unknown packets are left alone.
pub open spec fn spec_s2c(id: u8, b: Seq<u8>, uuid: (u64, u64), t: Flattening) -> Option<Outcome> {
    if id == V164_S2C_KEEP_ALIVE {
        Some(spec_s2c_keep_alive(b))
    } else if id == V164_S2C_CHAT {
        Some(spec_s2c_chat(b))
    } else if id == V164_S2C_PLAYER_POS_LOOK {
        Some(spec_s2c_player_pos_look(b))
    } else if id == V164_S2C_SPAWN_PLAYER {
        Some(spec_s2c_spawn_player(b, uuid))
    } else if id == V164_S2C_ENTITY_TELEPORT {
        Some(spec_s2c_entity_teleport(b))
    } else if id == V164_S2C_ENTITY_REL_MOVE {
        Some(spec_s2c_entity_rel_move(b))
    } else if id == V164_S2C_ENTITY {
        Some(spec_s2c_entity(b, uuid))
    } else if id == V164_S2C_BLOCK_CHANGE {
        spec_s2c_block_change(b, t)
    } else if id == V164_S2C_SET_SLOT {
        spec_s2c_set_slot(b, t)
    } else if id == V164_S2C_WINDOW_ITEMS {
        spec_s2c_window_items(b, t)
    } else if id == V164_S2C_ENTITY_EQUIPMENT {
        spec_s2c_entity_equipment(b, t)
    } else if id == V164_S2C_EXPERIENCE {
        spec_s2c_experience(b)
    } else if id == V164_S2C_HELD_ITEM_CHANGE {
        Some(spec_s2c_held_item_change(b))
    } else if id == V164_S2C_PLAYER_ABILITIES {
        Some(spec_s2c_player_abilities(b))
    } else if id == V164_S2C_DISCONNECT {
        Some(spec_s2c_disconnect(b))
    } else {
        Some(Outcome::Passthrough)
    }
}

fn s2c(id: u8, body: Bytes, uuid: (u64, u64), t: &Flattening) -> (res: Option<ConversionResult>)
    ensures
        outcome_of(res) == spec_s2c(id, content(body), uuid, *t),
{
    if id == V164_S2C_KEEP_ALIVE {
        Some(s2c_keep_alive(body))
    } else if id == V164_S2C_CHAT {
        Some(s2c_chat(body))
    } else if id == V164_S2C_PLAYER_POS_LOOK {
        Some(s2c_player_pos_look(body))
    } else if id == V164_S2C_SPAWN_PLAYER {
        Some(s2c_spawn_player(body, uuid))
    } else if id == V164_S2C_ENTITY_TELEPORT {
        Some(s2c_entity_teleport(body))
    } else if id == V164_S2C_ENTITY_REL_MOVE {
        Some(s2c_entity_rel_move(body))
    } else if id == V164_S2C_ENTITY {
        Some(s2c_entity(body, uuid))
    } else if id == V164_S2C_BLOCK_CHANGE {
        s2c_block_change(body, t)
    } else if id == V164_S2C_SET_SLOT {
        s2c_set_slot(body, t)
    } else if id == V164_S2C_WINDOW_ITEMS {
        s2c_window_items(body, t)
    } else if id == V164_S2C_ENTITY_EQUIPMENT {
        s2c_entity_equipment(body, t)
    } else if id == V164_S2C_EXPERIENCE {
        s2c_experience(body)
    } else if id == V164_S2C_HELD_ITEM_CHANGE {
        Some(s2c_held_item_change(body))
    } else if id == V164_S2C_PLAYER_ABILITIES {
        Some(s2c_player_abilities(body))
    } else if id == V164_S2C_DISCONNECT {
        Some(s2c_disconnect(body))
    } else {
        Some(ConversionResult::Passthrough)
    }
}

/// What becomes of a packet toward the client where a spawned player or entity gets the
/// given unique id, `None` where the packet ends before what is read of it.
pub open spec fn spec_convert_s2c(p: Seq<u8>, uuid: (u64, u64), t: Flattening) -> Option<Outcome> {
    match split(p) {
        Some((id, b)) => spec_s2c(id, b, uuid, t),
        None => Some(Outcome::Passthrough),
    }
}

/// Whether a packet holds all that is read of it. No unique id bears on that.
pub open spec fn s2c_readable(p: Seq<u8>, t: Flattening) -> bool {
    spec_convert_s2c(p, (0, 0), t) is Some
}

/// Whether a packet holds all that is read of it does not depend on the unique id that it
/// gets.
pub proof fn readable_for_all(p: Seq<u8>, uuid: (u64, u64), t: Flattening)
    ensures
        s2c_readable(p, t) <==> spec_convert_s2c(p, uuid, t) is Some,
{
}

/// Converts a packet toward the client, with the unique id that it may need, or gives `None`
/// where the packet ends before what is read of it.
pub fn try_convert_s2c(payload: Bytes, uuid: (u64, u64), t: &Flattening) -> (res: Option<
    ConversionResult,
>)
    ensures
        outcome_of(res) == spec_convert_s2c(content(payload), uuid, *t),
{
    match split_id(payload) {
        Some((id, body)) => s2c(id, body, uuid, t),
        None => Some(ConversionResult::Passthrough),
    }
}

/// Converts a packet toward the client. What needs a unique id gets a random one.
pub fn convert_s2c(payload: Bytes, t: &Flattening) -> (res: ConversionResult)
    requires
        s2c_readable(content(payload), *t),
    ensures
        exists|uuid: (u64, u64)|
            is_random_uuid(uuid) && Some(res@) == #[trigger] spec_convert_s2c(
                content(payload),
                uuid,
                *t,
            ),
{
    let ghost p = content(payload);
    match split_id(payload) {
        Some((id, body)) => {
            let uuid: (u64, u64) = if id == V164_S2C_SPAWN_PLAYER || id == V164_S2C_ENTITY {
                fresh_uuid()
            } else {
                unused_uuid()
            };
            let res = s2c(id, body, uuid, t);
            proof {
                readable_for_all(p, uuid, *t);
                assert(outcome_of(res) == spec_convert_s2c(p, uuid, *t));
            }
            match res {
                Some(r) => r,
                None => ConversionResult::Drop,
            }
        },
        None => {
            let uuid = unused_uuid();
            assert(Some(Outcome::Passthrough) == spec_convert_s2c(p, uuid, *t));
            ConversionResult::Passthrough
        },
    }
}

// Packets of 1.6.4 toward the server.

pub const V164_C2S_KEEP_ALIVE: u8 = 0x00;
pub const V164_C2S_CHAT: u8 = 0x03;
pub const V164_C2S_USE_ENTITY: u8 = 0x07;
pub const V164_C2S_PLAYER_ON_GROUND: u8 = 0x0A;
pub const V164_C2S_MOVE_PLAYER_POS: u8 = 0x0B;
pub const V164_C2S_MOVE_PLAYER_ROT: u8 = 0x0C;
pub const V164_C2S_PLAYER_POS_LOOK: u8 = 0x0D;
pub const V164_C2S_PLAYER_DIGGING: u8 = 0x0E;
pub const V164_C2S_PLAYER_BLOCK_PLACEMENT: u8 = 0x0F;
pub const V164_C2S_HELD_ITEM_CHANGE: u8 = 0x10;
pub const V164_C2S_ANIMATION: u8 = 0x12;
pub const V164_C2S_ENTITY_ACTION: u8 = 0x13;
pub const V164_C2S_CLIENT_COMMAND: u8 = 0x16;
pub const V164_C2S_CLOSE_WINDOW: u8 = 0x65;
pub const V164_C2S_UPDATE_SIGN: u8 = 0x82;
pub const V164_C2S_PLAYER_ABILITIES: u8 = 0xCA;
pub const V164_C2S_CLIENT_SETTINGS: u8 = 0xCC;
pub const V164_C2S_PLUGIN_MESSAGE: u8 = 0xFA;

pub const V165_C2S_KEEP_ALIVE: u8 = 0x10;
pub const V165_C2S_CHAT: u8 = 0x03;
pub const V165_C2S_PLAYER_POS_LOOK: u8 = 0x14;
pub const V165_C2S_MOVE_PLAYER_POS: u8 = 0x12;
pub const V165_C2S_MOVE_PLAYER_ROT: u8 = 0x13;
pub const V165_C2S_PLAYER_DIGGING: u8 = 0x1B;
pub const V165_C2S_PLAYER_BLOCK_PLACEMENT: u8 = 0x2E;
pub const V165_C2S_HELD_ITEM_CHANGE: u8 = 0x25;
pub const V165_C2S_ENTITY_ACTION: u8 = 0x1C;
pub const V165_C2S_CLIENT_SETTINGS: u8 = 0x05;
pub const V165_C2S_CLIENT_STATUS: u8 = 0x04;
pub const V165_C2S_PLUGIN_MESSAGE: u8 = 0x0B;
pub const V165_C2S_ANIMATION: u8 = 0x2C;
pub const V165_C2S_PLAYER_ABILITIES: u8 = 0x19;
pub const V165_C2S_USE_ENTITY: u8 = 0x0E;
pub const V165_C2S_CLOSE_WINDOW: u8 = 0x0A;
pub const V165_C2S_UPDATE_SIGN: u8 = 0x2B;

/// KeepAlive: the `i32` id becomes an `i64`.
pub open spec fn spec_c2s_keep_alive(b: Seq<u8>) -> Outcome {
    if b.len() < 4 {
        Outcome::Passthrough
    } else {
        converted(V165_C2S_KEEP_ALIVE, be_i64(i32_at(b, 0) as i64))
    }
}

pub fn c2s_keep_alive(body: Bytes) -> (res: ConversionResult)
    ensures
        res@ == spec_c2s_keep_alive(content(body)),
{
    broadcast use empty_then;

    let mut r = Reader::new(body);
    if !r.has(4) {
        return ConversionResult::Passthrough;
    }
    let id: i32 = r.get_i32();
    let mut out = Writer::new();
    out.i64(id as i64);
    emit(V165_C2S_KEEP_ALIVE, out)
}

/// Chat: the text changes its encoding.
pub open spec fn spec_c2s_chat(b: Seq<u8>) -> Outcome {
    match ucs2_at(b, 0) {
        None => Outcome::Passthrough,
        Some((message, p)) => {
            converted(V165_C2S_CHAT, wire_string(utf16_lossy(message)))
        },
    }
}

pub fn c2s_chat(body: Bytes) -> (res: ConversionResult)
    ensures
        res@ == spec_c2s_chat(content(body)),
{
    broadcast use empty_then;

    let mut r = Reader::new(body);
    let message_units: Vec<u16> = match r.ucs2_units() {
        Some(u) => u,
        None => {
            return ConversionResult::Passthrough;
        },
    };
    let message: String = string_from_utf16_lossy(message_units.as_slice());
    let mut out = Writer::new();
    out.string(message.as_str());
    emit(V165_C2S_CHAT, out)
}

/// PlayerPositionAndLook: the stance, which stands behind x, is dropped.
pub open spec fn spec_c2s_player_pos_look(b: Seq<u8>) -> Outcome {
    if b.len() < 41 {
        Outcome::Passthrough
    } else {
        converted(
            V165_C2S_PLAYER_POS_LOOK,
            be64(u64_at(b, 0)) + be64(u64_at(b, 16)) + be64(u64_at(b, 24)) + be32(u32_at(b, 32))
                + be32(u32_at(b, 36)) + seq![if b[40] != 0 { 1u8 } else { 0u8 }],
        )
    }
}

pub fn c2s_player_pos_look(body: Bytes) -> (res: ConversionResult)
    ensures
        res@ == spec_c2s_player_pos_look(content(body)),
{
    broadcast use empty_then;

    let mut r = Reader::new(body);
    if !r.has(41) {
        return ConversionResult::Passthrough;
    }
    let x: u64 = r.get_u64();
    let _stance: u64 = r.get_u64();
    let y: u64 = r.get_u64();
    let z: u64 = r.get_u64();
    let yaw: u32 = r.get_u32();
    let pitch: u32 = r.get_u32();
    let on_ground: u8 = r.get_u8();
    let mut out = Writer::new();
    out.u64(x);
    out.u64(y);
    out.u64(z);
    out.u32(yaw);
    out.u32(pitch);
    out.u8(if on_ground != 0 { 1 } else { 0 });
    emit(V165_C2S_PLAYER_POS_LOOK, out)
}

/// PlayerDigging: status and face become variable-length, and the place is packed.
pub open spec fn spec_c2s_player_digging(b: Seq<u8>) -> Outcome {
    if b.len() < 11 {
        Outcome::Passthrough
    } else {
        converted(
            V165_C2S_PLAYER_DIGGING,
            varint(i8_at(b, 0) as i32)
                + be_i64(modern_bits(i32_at(b, 1) as int, i8_at(b, 5) as int, i32_at(b, 6) as int) as i64)
                + varint(i8_at(b, 10) as i32),
        )
    }
}

pub fn c2s_player_digging(body: Bytes) -> (res: ConversionResult)
    ensures
        res@ == spec_c2s_player_digging(content(body)),
{
    broadcast use empty_then;

    let mut r = Reader::new(body);
    if !r.has(11) {
        return ConversionResult::Passthrough;
    }
    let status: i8 = r.get_i8();
    let x: i32 = r.get_i32();
    let y: i8 = r.get_i8();
    let z: i32 = r.get_i32();
    let face: i8 = r.get_i8();
    let mut out = Writer::new();
    out.varint(status as i32);
    out.i64(encode_modern_position(Position { x, y: y as i32, z }));
    out.varint(face as i32);
    emit(V165_C2S_PLAYER_DIGGING, out)
}

/// HeldItemChange: the slot becomes variable-length.
pub open spec fn spec_c2s_held_item_change(b: Seq<u8>) -> Outcome {
    if b.len() < 2 {
        Outcome::Passthrough
    } else {
        converted(V165_C2S_HELD_ITEM_CHANGE, varint(i16_at(b, 0) as i32))
    }
}

pub fn c2s_held_item_change(body: Bytes) -> (res: ConversionResult)
    ensures
        res@ == spec_c2s_held_item_change(content(body)),
{
    broadcast use empty_then;

    let mut r = Reader::new(body);
    if !r.has(2) {
        return ConversionResult::Passthrough;
    }
    let slot: i16 = r.get_i16();
    let mut out = Writer::new();
    out.varint(slot as i32);
    emit(V165_C2S_HELD_ITEM_CHANGE, out)
}

/// EntityAction: id and action become variable-length, with no jump boost.
pub open spec fn spec_c2s_entity_action(b: Seq<u8>) -> Outcome {
    if b.len() < 5 {
        Outcome::Passthrough
    } else {
        converted(
            V165_C2S_ENTITY_ACTION,
            varint(i32_at(b, 0)) + varint(i8_at(b, 4) as i32) + varint(0),
        )
    }
}

pub fn c2s_entity_action(body: Bytes) -> (res: ConversionResult)
    ensures
        res@ == spec_c2s_entity_action(content(body)),
{
    broadcast use empty_then;

    let mut r = Reader::new(body);
    if !r.has(5) {
        return ConversionResult::Passthrough;
    }
    let entity_id: i32 = r.get_i32();
    let action_id: i8 = r.get_i8();
    let mut out = Writer::new();
    out.varint(entity_id);
    out.varint(action_id as i32);
    out.varint(0);
    emit(V165_C2S_ENTITY_ACTION, out)
}

/// PlayerPosition: the stance, which stands behind y, is dropped.
pub open spec fn spec_c2s_move_player_pos(b: Seq<u8>) -> Outcome {
    if b.len() < 33 {
        Outcome::Passthrough
    } else {
        converted(
            V165_C2S_MOVE_PLAYER_POS,
            be64(u64_at(b, 0)) + be64(u64_at(b, 8)) + be64(u64_at(b, 24))
                + seq![if b[32] != 0 { 1u8 } else { 0u8 }],
        )
    }
}

pub fn c2s_move_player_pos(body: Bytes) -> (res: ConversionResult)
    ensures
        res@ == spec_c2s_move_player_pos(content(body)),
{
    broadcast use empty_then;

    let mut r = Reader::new(body);
    if !r.has(33) {
        return ConversionResult::Passthrough;
    }
    let x: u64 = r.get_u64();
    let y: u64 = r.get_u64();
    let _stance: u64 = r.get_u64();
    let z: u64 = r.get_u64();
    let on_ground: u8 = r.get_u8();
    let mut out = Writer::new();
    out.u64(x);
    out.u64(y);
    out.u64(z);
    out.u8(if on_ground != 0 { 1 } else { 0 });
    emit(V165_C2S_MOVE_PLAYER_POS, out)
}

/// PlayerLook: the ground flag is written as 0 or 1.
pub open spec fn spec_c2s_move_player_rot(b: Seq<u8>) -> Outcome {
    if b.len() < 9 {
        Outcome::Passthrough
    } else {
        converted(
            V165_C2S_MOVE_PLAYER_ROT,
            be32(u32_at(b, 0)) + be32(u32_at(b, 4)) + seq![if b[8] != 0 { 1u8 } else { 0u8 }],
        )
    }
}

pub fn c2s_move_player_rot(body: Bytes) -> (res: ConversionResult)
    ensures
        res@ == spec_c2s_move_player_rot(content(body)),
{
    broadcast use empty_then;

    let mut r = Reader::new(body);
    if !r.has(9) {
        return ConversionResult::Passthrough;
    }
    let yaw: u32 = r.get_u32();
    let pitch: u32 = r.get_u32();
    let on_ground: u8 = r.get_u8();
    let mut out = Writer::new();
    out.u32(yaw);
    out.u32(pitch);
    out.u8(if on_ground != 0 { 1 } else { 0 });
    emit(V165_C2S_MOVE_PLAYER_ROT, out)
}

/// UseEntity: the target, 1 for an attack and 0 for an interaction, and no sneaking.
pub open spec fn spec_c2s_use_entity(b: Seq<u8>) -> Outcome {
    if b.len() < 9 {
        Outcome::Passthrough
    } else {
        converted(
            V165_C2S_USE_ENTITY,
            varint(i32_at(b, 4)) + varint(if b[8] != 0 { 1i32 } else { 0i32 }) + seq![0u8],
        )
    }
}

pub fn c2s_use_entity(body: Bytes) -> (res: ConversionResult)
    ensures
        res@ == spec_c2s_use_entity(content(body)),
{
    broadcast use empty_then;

    let mut r = Reader::new(body);
    if !r.has(9) {
        return ConversionResult::Passthrough;
    }
    let _user: i32 = r.get_i32();
    let target: i32 = r.get_i32();
    let left_click: u8 = r.get_u8();
    let mut out = Writer::new();
    out.varint(target);
    out.varint(if left_click != 0 { 1 } else { 0 });
    out.u8(0);
    emit(V165_C2S_USE_ENTITY, out)
}

/// Animation: the main hand.
pub open spec fn spec_c2s_animation(b: Seq<u8>) -> Outcome {
    converted(V165_C2S_ANIMATION, varint(0))
}

pub fn c2s_animation(body: Bytes) -> (res: ConversionResult)
    ensures
        res@ == spec_c2s_animation(content(body)),
{
    broadcast use empty_then;

    let mut out = Writer::new();
    out.varint(0);
    emit(V165_C2S_ANIMATION, out)
}

/// ClientCommand: the action becomes variable-length.
pub open spec fn spec_c2s_client_command(b: Seq<u8>) -> Outcome {
    if b.len() < 1 {
        Outcome::Passthrough
    } else {
        converted(V165_C2S_CLIENT_STATUS, varint(i8_at(b, 0) as i32))
    }
}

pub fn c2s_client_command(body: Bytes) -> (res: ConversionResult)
    ensures
        res@ == spec_c2s_client_command(content(body)),
{
    broadcast use empty_then;

    let mut r = Reader::new(body);
    if !r.has(1) {
        return ConversionResult::Passthrough;
    }
    let action: i8 = r.get_i8();
    let mut out = Writer::new();
    out.varint(action as i32);
    emit(V165_C2S_CLIENT_STATUS, out)
}

/// CloseWindow: the window's number alone.
pub open spec fn spec_c2s_close_window(b: Seq<u8>) -> Outcome {
    if b.len() < 1 {
        Outcome::Passthrough
    } else {
        converted(V165_C2S_CLOSE_WINDOW, seq![b[0]])
    }
}

pub fn c2s_close_window(body: Bytes) -> (res: ConversionResult)
    ensures
        res@ == spec_c2s_close_window(content(body)),
{
    broadcast use empty_then;

    let mut r = Reader::new(body);
    if !r.has(1) {
        return ConversionResult::Passthrough;
    }
    let window_id: u8 = r.get_u8();
    let mut out = Writer::new();
    out.u8(window_id);
    emit(V165_C2S_CLOSE_WINDOW, out)
}

/// PlayerAbilities: the flags alone.
pub open spec fn spec_c2s_player_abilities(b: Seq<u8>) -> Outcome {
    if b.len() < 9 {
        Outcome::Passthrough
    } else {
        converted(V165_C2S_PLAYER_ABILITIES, be_i8(i8_at(b, 0)))
    }
}

pub fn c2s_player_abilities(body: Bytes) -> (res: ConversionResult)
    ensures
        res@ == spec_c2s_player_abilities(content(body)),
{
    broadcast use empty_then;

    let mut r = Reader::new(body);
    if !r.has(9) {
        return ConversionResult::Passthrough;
    }
    let flags: i8 = r.get_i8();
    let _flying_speed: u32 = r.get_u32();
    let _walking_speed: u32 = r.get_u32();
    let mut out = Writer::new();
    out.i8(flags);
    emit(V165_C2S_PLAYER_ABILITIES, out)
}

/// ClientSettings: the low two bits of the chat flags become the chat mode; colours are on,
/// all skin parts are shown, and the main hand is the right one.
pub open spec fn spec_c2s_client_settings(b: Seq<u8>) -> Outcome {
    match ucs2_at(b, 0) {
        None => Outcome::Passthrough,
        Some((locale, p)) => {
            if b.len() < p + 4 {
                Outcome::Passthrough
            } else {
                converted(
                    V165_C2S_CLIENT_SETTINGS,
                    wire_string(utf16_lossy(locale)) + be_i8(i8_at(b, p))
                        + varint((i8_at(b, p + 1) & 0x03) as i32) + seq![1u8] + seq![0x7Fu8]
                        + varint(1),
                )
            }
        },
    }
}

pub fn c2s_client_settings(body: Bytes) -> (res: ConversionResult)
    ensures
        res@ == spec_c2s_client_settings(content(body)),
{
    broadcast use empty_then;

    let mut r = Reader::new(body);
    let locale_units: Vec<u16> = match r.ucs2_units() {
        Some(u) => u,
        None => {
            return ConversionResult::Passthrough;
        },
    };
    let locale: String = string_from_utf16_lossy(locale_units.as_slice());
    if !r.has(4) {
        return ConversionResult::Passthrough;
    }
    let view_distance: i8 = r.get_i8();
    let chat_flags: i8 = r.get_i8();
    let _difficulty: i8 = r.get_i8();
    let _show_cape: u8 = r.get_u8();
    let mut out = Writer::new();
    out.string(locale.as_str());
    out.i8(view_distance);
    out.varint((chat_flags & 0x03) as i32);
    out.u8(1);
    out.u8(0x7F);
    out.varint(1);
    emit(V165_C2S_CLIENT_SETTINGS, out)
}

/// PluginMessage: the channel changes its encoding and the data loses its length.
pub open spec fn spec_c2s_plugin_message(b: Seq<u8>) -> Outcome {
    match ucs2_at(b, 0) {
        None => Outcome::Passthrough,
        Some((channel, p)) => {
            if b.len() < p + 2 {
                Outcome::Passthrough
            } else if b.len() < p + 2 + u16_at(b, p) as int {
                Outcome::Passthrough
            } else {
                converted(
                    V165_C2S_PLUGIN_MESSAGE,
                    wire_string(utf16_lossy(channel))
                        + b.subrange(p + 2, p + 2 + u16_at(b, p) as int),
                )
            }
        },
    }
}

pub fn c2s_plugin_message(body: Bytes) -> (res: ConversionResult)
    ensures
        res@ == spec_c2s_plugin_message(content(body)),
{
    broadcast use empty_then;

    let mut r = Reader::new(body);
    let channel_units: Vec<u16> = match r.ucs2_units() {
        Some(u) => u,
        None => {
            return ConversionResult::Passthrough;
        },
    };
    let channel: String = string_from_utf16_lossy(channel_units.as_slice());
    if !r.has(2) {
        return ConversionResult::Passthrough;
    }
    let length: u16 = r.get_u16();
    if !r.has(length as usize) {
        return ConversionResult::Passthrough;
    }
    let data = r.get_bytes(length as usize);
    let mut out = Writer::new();
    out.string(channel.as_str());
    out.raw(bytes_to_vec(&data).as_slice());
    emit(V165_C2S_PLUGIN_MESSAGE, out)
}

/// PlayerBlockPlacement: the main hand, the packed place, the face, the cursor in 16ths of a
/// block as singles, and not inside a block. A body of 10 to 14 bytes is too short for what
/// is read of it.
pub open spec fn spec_c2s_player_block_placement(b: Seq<u8>) -> Option<Outcome> {
    if b.len() < 10 {
        Some(Outcome::Passthrough)
    } else if b.len() < 15 {
        None
    } else {
        Some(
            converted(
                V165_C2S_PLAYER_BLOCK_PLACEMENT,
                varint(0) + be_i64(
                    modern_bits(i32_at(b, 0) as int, i8_at(b, 4) as int, i32_at(b, 5) as int) as i64,
                ) + varint(i8_at(b, 9) as i32) + be32(single_of_sixteenths(i8_at(b, 12) as int)) + be32(
                    single_of_sixteenths(i8_at(b, 13) as int),
                ) + be32(single_of_sixteenths(i8_at(b, 14) as int)) + seq![0u8],
            ),
        )
    }
}

fn c2s_player_block_placement(body: Bytes) -> (res: Option<ConversionResult>)
    ensures
        outcome_of(res) == spec_c2s_player_block_placement(content(body)),
{
    broadcast use empty_then;

    let mut r = Reader::new(body);
    if !r.has(10) {
        return Some(ConversionResult::Passthrough);
    }
    if !r.has(15) {
        return None;
    }
    let x: i32 = r.get_i32();
    let y: i32 = r.get_i8() as i32;
    let z: i32 = r.get_i32();
    let direction: i8 = r.get_i8();
    let _held_item: i16 = r.get_i16();
    let cx: i8 = r.get_i8();
    let cy: i8 = r.get_i8();
    let cz: i8 = r.get_i8();
    let mut out = Writer::new();
    out.varint(0);
    out.i64(encode_modern_position(Position { x, y, z }));
    out.varint(direction as i32);
    out.u32(sixteenths_to_single(cx as i16));
    out.u32(sixteenths_to_single(cy as i16));
    out.u32(sixteenths_to_single(cz as i16));
    out.u8(0);
    Some(emit(V165_C2S_PLAYER_BLOCK_PLACEMENT, out))
}

/// The lines of a sign from `p` on, at most `n`, each behind its length in UTF-8. From the
/// first that does not read on all are empty.
pub open spec fn sign_lines(b: Seq<u8>, p: int, n: nat) -> Seq<u8>
    decreases n,
{
    if n == 0 {
        seq![]
    } else {
        match ucs2_at(b, p) {
            Some((units, q)) => wire_string(utf16_lossy(units)) + sign_lines(b, q, (n - 1) as nat),
            None => wire_string(seq![]) + sign_lines(b, b.len() as int, (n - 1) as nat),
        }
    }
}

/// UpdateSign: the place is packed, and the four lines change their encoding.
pub open spec fn spec_c2s_update_sign(b: Seq<u8>) -> Outcome {
    if b.len() < 10 {
        Outcome::Passthrough
    } else {
        converted(
            V165_C2S_UPDATE_SIGN,
            be_i64(
                modern_bits(i32_at(b, 0) as int, i16_at(b, 4) as int, i32_at(b, 6) as int) as i64,
            ) + sign_lines(b, 10, 4),
        )
    }
}

fn c2s_update_sign(body: Bytes) -> (res: ConversionResult)
    ensures
        res@ == spec_c2s_update_sign(content(body)),
{
    broadcast use empty_then;

    let ghost b = content(body);
    let mut r = Reader::new(body);
    if !r.has(10) {
        return ConversionResult::Passthrough;
    }
    let x: i32 = r.get_i32();
    let y: i32 = r.get_i16() as i32;
    let z: i32 = r.get_i32();
    let mut out = Writer::new();
    out.i64(encode_modern_position(Position { x, y, z }));
    let ghost head = out@;
    let ghost mut done = Seq::<u8>::empty();
    assert(head + done =~= head);
    assert(done + sign_lines(b, 10, 4) =~= sign_lines(b, 10, 4));
    let mut left: u8 = 4;
    while left > 0
        invariant
            left <= 4,
            r.valid(),
            r.all() == b,
            sign_lines(b, 10, 4) == done + sign_lines(b, r.at(), left as nat),
            out@ == head + done,
        decreases left,
    {
        let ghost before = r.at();
        let line: String = match r.ucs2_units() {
            Some(units) => string_from_utf16_lossy(units.as_slice()),
            None => {
                let _ = r.rest();
                String::new()
            },
        };
        out.string(line.as_str());
        left = left - 1;
        proof {
            let add = wire_string(line@);
            let rest = sign_lines(b, r.at(), left as nat);
            assert(sign_lines(b, before, (left + 1) as nat) == add + rest);
            assert(done + (add + rest) =~= (done + add) + rest);
            assert(out@ =~= head + (done + add));
            done = done + add;
        }
    }
    assert(done + Seq::<u8>::empty() =~= done);
    emit(V165_C2S_UPDATE_SIGN, out)
}

/// The 1.16.5 form of a 1.6.4 packet toward the server, `None` where the packet ends before
/// what is read of it. Unknown packets are left alone.
pub open spec fn spec_c2s(id: u8, b: Seq<u8>) -> Option<Outcome> {
    if id == V164_C2S_KEEP_ALIVE {
        Some(spec_c2s_keep_alive(b))
    } else if id == V164_C2S_CHAT {
        Some(spec_c2s_chat(b))
    } else if id == V164_C2S_USE_ENTITY {
        Some(spec_c2s_use_entity(b))
    } else if id == V164_C2S_PLAYER_ON_GROUND {
        Some(Outcome::Drop)
    } else if id == V164_C2S_MOVE_PLAYER_POS {
        Some(spec_c2s_move_player_pos(b))
    } else if id == V164_C2S_MOVE_PLAYER_ROT {
        Some(spec_c2s_move_player_rot(b))
    } else if id == V164_C2S_PLAYER_POS_LOOK {
        Some(spec_c2s_player_pos_look(b))
    } else if id == V164_C2S_PLAYER_DIGGING {
        Some(spec_c2s_player_digging(b))
    } else if id == V164_C2S_PLAYER_BLOCK_PLACEMENT {
        spec_c2s_player_block_placement(b)
    } else if id == V164_C2S_HELD_ITEM_CHANGE {
        Some(spec_c2s_held_item_change(b))
    } else if id == V164_C2S_ANIMATION {
        Some(spec_c2s_animation(b))
    } else if id == V164_C2S_ENTITY_ACTION {
        Some(spec_c2s_entity_action(b))
    } else if id == V164_C2S_CLIENT_COMMAND {
        Some(spec_c2s_client_command(b))
    } else if id == V164_C2S_CLOSE_WINDOW {
        Some(spec_c2s_close_window(b))
    } else if id == V164_C2S_UPDATE_SIGN {
        Some(spec_c2s_update_sign(b))
    } else if id == V164_C2S_PLAYER_ABILITIES {
        Some(spec_c2s_player_abilities(b))
    } else if id == V164_C2S_CLIENT_SETTINGS {
        Some(spec_c2s_client_settings(b))
    } else if id == V164_C2S_PLUGIN_MESSAGE {
        Some(spec_c2s_plugin_message(b))
    } else {
        Some(Outcome::Passthrough)
    }
}

fn c2s(id: u8, body: Bytes) -> (res: Option<ConversionResult>)
    ensures
        outcome_of(res) == spec_c2s(id, content(body)),
{
    if id == V164_C2S_KEEP_ALIVE {
        Some(c2s_keep_alive(body))
    } else if id == V164_C2S_CHAT {
        Some(c2s_chat(body))
    } else if id == V164_C2S_USE_ENTITY {
        Some(c2s_use_entity(body))
    } else if id == V164_C2S_PLAYER_ON_GROUND {
        Some(ConversionResult::Drop)
    } else if id == V164_C2S_MOVE_PLAYER_POS {
        Some(c2s_move_player_pos(body))
    } else if id == V164_C2S_MOVE_PLAYER_ROT {
        Some(c2s_move_player_rot(body))
    } else if id == V164_C2S_PLAYER_POS_LOOK {
        Some(c2s_player_pos_look(body))
    } else if id == V164_C2S_PLAYER_DIGGING {
        Some(c2s_player_digging(body))
    } else if id == V164_C2S_PLAYER_BLOCK_PLACEMENT {
        c2s_player_block_placement(body)
    } else if id == V164_C2S_HELD_ITEM_CHANGE {
        Some(c2s_held_item_change(body))
    } else if id == V164_C2S_ANIMATION {
        Some(c2s_animation(body))
    } else if id == V164_C2S_ENTITY_ACTION {
        Some(c2s_entity_action(body))
    } else if id == V164_C2S_CLIENT_COMMAND {
        Some(c2s_client_command(body))
    } else if id == V164_C2S_CLOSE_WINDOW {
        Some(c2s_close_window(body))
    } else if id == V164_C2S_UPDATE_SIGN {
        Some(c2s_update_sign(body))
    } else if id == V164_C2S_PLAYER_ABILITIES {
        Some(c2s_player_abilities(body))
    } else if id == V164_C2S_CLIENT_SETTINGS {
        Some(c2s_client_settings(body))
    } else if id == V164_C2S_PLUGIN_MESSAGE {
        Some(c2s_plugin_message(body))
    } else {
        Some(ConversionResult::Passthrough)
    }
}

/// What becomes of a packet toward the server, `None` where the packet ends before what is
/// read of it.
pub open spec fn spec_convert_c2s(p: Seq<u8>) -> Option<Outcome> {
    match split(p) {
        Some((id, b)) => spec_c2s(id, b),
        None => Some(Outcome::Passthrough),
    }
}

/// Converts a packet toward the server, or gives `None` where the packet ends before what is
/// read of it.
pub fn try_convert_c2s(payload: Bytes) -> (res: Option<ConversionResult>)
    ensures
        outcome_of(res) == spec_convert_c2s(content(payload)),
{
    match split_id(payload) {
        Some((id, body)) => c2s(id, body),
        None => Some(ConversionResult::Passthrough),
    }
}

/// Converts a packet toward the server that holds all that is read of it.
pub fn convert_c2s(payload: Bytes) -> (res: ConversionResult)
    requires
        spec_convert_c2s(content(payload)) is Some,
    ensures
        Some(res@) == spec_convert_c2s(content(payload)),
{
    match try_convert_c2s(payload) {
        Some(res) => res,
        None => ConversionResult::Drop,
    }
}

} // verus!
