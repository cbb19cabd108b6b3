//! 1.8 packets for later releases.
//!
//! Full conversion is for the releases from 1.9 to 1.12.

use bytes::Bytes;
use crate::converter::modern_to_v1_8;
use crate::converter::outcome::{
    ConversionResult, Outcome, converted, emit, rebuild_with_id, split, split_id,
};
use crate::converter::safe::{Reader, i8_or, string_or, u8_or};
use crate::number::{double_of_fixed, fixed_to_double, single_of_sixteenths, sixteenths_to_single};
use crate::position::{Position, encode_legacy_position, legacy_bits, legacy_round_trip};
use crate::slot::legacy_slot_at;
use crate::text::{string_at, wire_string};
use crate::varint::{varint, varint_at, varint_round_trip};
use crate::version::{Epoch, nearest, nearest_version};
use crate::wire::{
    be32, be64, be_i16, be_i32, be_i64, bytes_to_vec, content, i16_at, i32_at, i64_at, i8_at,
    u32_at, u32_there, u64_at, u64_round_trip,
};
use crate::writer::{Writer, empty_then};
use vstd::prelude::*;

verus! {

// Packets of 1.8 toward the server.

pub const V18_C2S_KEEP_ALIVE: u8 = 0x00;
pub const V18_C2S_CHAT: u8 = 0x01;
pub const V18_C2S_USE_ENTITY: u8 = 0x02;
pub const V18_C2S_PLAYER_ON_GROUND: u8 = 0x03;
pub const V18_C2S_PLAYER_POS: u8 = 0x04;
pub const V18_C2S_PLAYER_LOOK: u8 = 0x05;
pub const V18_C2S_PLAYER_POS_LOOK: u8 = 0x06;
pub const V18_C2S_DIGGING: u8 = 0x07;
pub const V18_C2S_BLOCK_PLACE: u8 = 0x08;
pub const V18_C2S_HELD_ITEM: u8 = 0x09;
pub const V18_C2S_ANIMATION: u8 = 0x0A;
pub const V18_C2S_ENTITY_ACTION: u8 = 0x0B;
pub const V18_C2S_STEER_VEHICLE: u8 = 0x0C;
pub const V18_C2S_CLOSE_WINDOW: u8 = 0x0D;
pub const V18_C2S_WINDOW_CLICK: u8 = 0x0E;
pub const V18_C2S_CONFIRM_TRANSACTION: u8 = 0x0F;
pub const V18_C2S_CREATIVE_INV: u8 = 0x10;
pub const V18_C2S_ENCHANT_ITEM: u8 = 0x11;
pub const V18_C2S_UPDATE_SIGN: u8 = 0x12;
pub const V18_C2S_PLAYER_ABILITIES: u8 = 0x13;
pub const V18_C2S_TAB_COMPLETE: u8 = 0x14;
pub const V18_C2S_SETTINGS: u8 = 0x15;
pub const V18_C2S_CLIENT_STATUS: u8 = 0x16;
pub const V18_C2S_PLUGIN_MESSAGE: u8 = 0x17;
pub const V18_C2S_SPECTATE: u8 = 0x18;
pub const V18_C2S_RESOURCE_PACK_STATUS: u8 = 0x19;

pub const V112_C2S_TAB_COMPLETE: u8 = 0x01;
pub const V112_C2S_CHAT: u8 = 0x02;
pub const V112_C2S_CLIENT_STATUS: u8 = 0x03;
pub const V112_C2S_SETTINGS: u8 = 0x04;
pub const V112_C2S_CONFIRM_TRANSACTION: u8 = 0x05;
pub const V112_C2S_ENCHANT_ITEM: u8 = 0x06;
pub const V112_C2S_WINDOW_CLICK: u8 = 0x07;
pub const V112_C2S_CLOSE_WINDOW: u8 = 0x08;
pub const V112_C2S_PLUGIN_MESSAGE: u8 = 0x09;
pub const V112_C2S_USE_ENTITY: u8 = 0x0A;
pub const V112_C2S_KEEP_ALIVE: u8 = 0x0B;
pub const V112_C2S_PLAYER_POS: u8 = 0x0C;
pub const V112_C2S_PLAYER_POS_LOOK: u8 = 0x0D;
pub const V112_C2S_PLAYER_LOOK: u8 = 0x0E;
pub const V112_C2S_PLAYER_ON_GROUND: u8 = 0x0F;
pub const V112_C2S_PLAYER_ABILITIES: u8 = 0x12;
pub const V112_C2S_DIGGING: u8 = 0x13;
pub const V112_C2S_ENTITY_ACTION: u8 = 0x15;
pub const V112_C2S_STEER_VEHICLE: u8 = 0x16;
pub const V112_C2S_RESOURCE_PACK_STATUS: u8 = 0x18;
pub const V112_C2S_HELD_ITEM: u8 = 0x1A;
pub const V112_C2S_CREATIVE_INV: u8 = 0x1B;
pub const V112_C2S_UPDATE_SIGN: u8 = 0x1C;
pub const V112_C2S_ANIMATION: u8 = 0x1D;
pub const V112_C2S_SPECTATE: u8 = 0x1E;
pub const V112_C2S_BLOCK_PLACE: u8 = 0x1F;

/// The id of a chat message that carries a signature.
pub const CHAT_SIGNED: u8 = 0x05;

/// The id of UseItem in 1.12.2.
pub const V112_C2S_USE_ITEM: u8 = 0x20;

/// The coordinates packed in the order x, y, z, as all releases before 1.14 have it.
pub fn pack_position(x: i32, y: i32, z: i32) -> (packed: i64)
    ensures
        packed == legacy_bits(x as int, y as int, z as int) as i64,
{
    encode_legacy_position(Position { x, y, z })
}

fn starts_with_slash(s: &str) -> (r: bool)
    ensures
        r == (s@.len() > 0 && s@[0] == '/'),
{
    if s.unicode_len() == 0 {
        false
    } else {
        s.get_char(0) == '/'
    }
}

/// PlayerBlockPlacement: the held item is dropped, the main hand is used, and the cursor, in
/// 16ths of a block, becomes singles. The place (-1, -1, -1) with face -1 stands for the use
/// of an item.
pub open spec fn spec_c2s_block_place_to_1_12(b: Seq<u8>) -> Outcome {
    if b.len() < 10 {
        Outcome::Passthrough
    } else if i8_at(b, 9) == -1 && i32_at(b, 0) == -1 && i32_at(b, 5) == -1 && b[4] == 0xFF {
        converted(V112_C2S_USE_ITEM, varint(0))
    } else {
        match legacy_slot_at(b, 10) {
            None => Outcome::Passthrough,
            Some((_, p)) => if b.len() < p + 3 {
                Outcome::Passthrough
            } else {
                converted(
                    V112_C2S_BLOCK_PLACE,
                    be_i64(legacy_bits(i32_at(b, 0) as int, b[4] as int, i32_at(b, 5) as int) as i64)
                        + varint(i8_at(b, 9) as i32) + varint(0) + be32(
                        single_of_sixteenths(b[p] as int),
                    ) + be32(single_of_sixteenths(b[p + 1] as int)) + be32(
                        single_of_sixteenths(b[p + 2] as int),
                    ),
                )
            },
        }
    }
}

pub fn c2s_block_place_to_1_12(body: Bytes) -> (res: ConversionResult)
    ensures
        res@ == spec_c2s_block_place_to_1_12(content(body)),
{
    broadcast use empty_then;

    let mut r = Reader::new(body);
    if !r.has(10) {
        return ConversionResult::Passthrough;
    }
    let x: i32 = r.get_i32();
    let y: u8 = r.get_u8();
    let z: i32 = r.get_i32();
    let face: i8 = r.get_i8();
    if face == -1 && x == -1 && z == -1 && y == 0xFF {
        let mut out = Writer::new();
        out.varint(0);
        return emit(V112_C2S_USE_ITEM, out);
    }
    if r.legacy_slot().is_none() {
        return ConversionResult::Passthrough;
    }
    if !r.has(3) {
        return ConversionResult::Passthrough;
    }
    let cx: u8 = r.get_u8();
    let cy: u8 = r.get_u8();
    let cz: u8 = r.get_u8();
    let mut out = Writer::new();
    out.i64(pack_position(x, y as i32, z));
    out.varint(face as i32);
    out.varint(0);
    out.u32(sixteenths_to_single(cx as i16));
    out.u32(sixteenths_to_single(cy as i16));
    out.u32(sixteenths_to_single(cz as i16));
    emit(V112_C2S_BLOCK_PLACE, out)
}

/// Animation: the main hand.
pub fn c2s_animation_to_1_12() -> (res: ConversionResult)
    ensures
        res@ == converted(V112_C2S_ANIMATION, varint(0)),
{
    broadcast use empty_then;

    let mut out = Writer::new();
    out.varint(0);
    emit(V112_C2S_ANIMATION, out)
}

/// ClientSettings: the main hand is the right one.
pub open spec fn spec_c2s_settings_to_1_12(b: Seq<u8>) -> Outcome {
    converted(V112_C2S_SETTINGS, b + varint(1))
}

pub fn c2s_settings_to_1_12(body: Bytes) -> (res: ConversionResult)
    ensures
        res@ == spec_c2s_settings_to_1_12(content(body)),
{
    broadcast use empty_then;

    let mut out = Writer::new();
    out.raw(bytes_to_vec(&body).as_slice());
    out.varint(1);
    emit(V112_C2S_SETTINGS, out)
}

/// KeepAlive: the variable-length id becomes an `i64`.
pub open spec fn spec_c2s_keep_alive(b: Seq<u8>) -> Outcome {
    match varint_at(b, 0) {
        None => Outcome::Passthrough,
        Some((id, p)) => {
            converted(V112_C2S_KEEP_ALIVE, be_i64(id as i64))
        },
    }
}

pub fn c2s_keep_alive(body: Bytes) -> (res: ConversionResult)
    ensures
        res@ == spec_c2s_keep_alive(content(body)),
{
    broadcast use empty_then;

    let mut r = Reader::new(body);
    let id: i32 = match r.varint() {
        Some(v) => v,
        None => {
            return ConversionResult::Passthrough;
        },
    };
    let mut out = Writer::new();
    out.i64(id as i64);
    emit(V112_C2S_KEEP_ALIVE, out)
}

/// Chat: the text alone.
pub open spec fn spec_c2s_chat_to_1_12(b: Seq<u8>) -> Outcome {
    match string_at(b, 0) {
        None => Outcome::Passthrough,
        Some((message, p)) => {
            converted(V112_C2S_CHAT, wire_string(message))
        },
    }
}

pub fn c2s_chat_to_1_12(body: Bytes) -> (res: ConversionResult)
    ensures
        res@ == spec_c2s_chat_to_1_12(content(body)),
{
    broadcast use empty_then;

    let mut r = Reader::new(body);
    let message: String = match r.string() {
        Some(s) => s,
        None => {
            return ConversionResult::Passthrough;
        },
    };
    let mut out = Writer::new();
    out.string(message.as_str());
    emit(V112_C2S_CHAT, out)
}

/// Chat for 1.13 and later: the text, the given time, no salt, no signature and no preview.
pub open spec fn spec_c2s_chat_to_modern(b: Seq<u8>, millis: i64) -> Outcome {
    match string_at(b, 0) {
        None => Outcome::Passthrough,
        Some((message, p)) => {
            converted(
                CHAT_SIGNED,
                wire_string(message) + be_i64(millis) + be_i64(0) + varint(0) + seq![0u8],
            )
        },
    }
}

pub fn c2s_chat_to_modern(body: Bytes, millis: i64) -> (res: ConversionResult)
    ensures
        res@ == spec_c2s_chat_to_modern(content(body), millis),
{
    broadcast use empty_then;

    let mut r = Reader::new(body);
    let message: String = match r.string() {
        Some(s) => s,
        None => {
            return ConversionResult::Passthrough;
        },
    };
    let mut out = Writer::new();
    out.string(message.as_str());
    out.i64(millis);
    out.i64(0);
    out.varint(0);
    out.u8(0);
    emit(CHAT_SIGNED, out)
}

/// UseEntity: an interaction gets the main hand, at the end. Unknown actions are left alone.
pub open spec fn spec_c2s_use_entity_to_1_12(b: Seq<u8>) -> Outcome {
    match varint_at(b, 0) {
        None => Outcome::Passthrough,
        Some((target, p)) => {
            match varint_at(b, p) {
                None => Outcome::Passthrough,
                Some((action, p2)) => {
                    let head = varint(target) + varint(action);
                    if action == 0 {
                        converted(V112_C2S_USE_ENTITY, head + varint(0))
                    } else if action == 1 {
                        converted(V112_C2S_USE_ENTITY, head)
                    } else if action == 2 && b.len() >= p2 + 12 {
                        converted(
                            V112_C2S_USE_ENTITY,
                            head + be32(u32_at(b, p2)) + be32(u32_at(b, p2 + 4)) + be32(u32_at(b, p2 + 8))
                                + varint(0),
                        )
                    } else {
                        Outcome::Passthrough
                    }
                },
            }
        },
    }
}

pub fn c2s_use_entity_to_1_12(body: Bytes) -> (res: ConversionResult)
    ensures
        res@ == spec_c2s_use_entity_to_1_12(content(body)),
{
    broadcast use empty_then;

    let mut r = Reader::new(body);
    let target: i32 = match r.varint() {
        Some(v) => v,
        None => {
            return ConversionResult::Passthrough;
        },
    };
    let action: i32 = match r.varint() {
        Some(v) => v,
        None => {
            return ConversionResult::Passthrough;
        },
    };
    let mut out = Writer::new();
    out.varint(target);
    out.varint(action);
    if action == 0 {
        out.varint(0);
    } else if action == 2 {
        if !r.has(12) {
            return ConversionResult::Passthrough;
        }
        let x: u32 = r.get_u32();
        let y: u32 = r.get_u32();
        let z: u32 = r.get_u32();
        out.u32(x);
        out.u32(y);
        out.u32(z);
        out.varint(0);
    } else if action != 1 {
        return ConversionResult::Passthrough;
    }
    emit(V112_C2S_USE_ENTITY, out)
}

/// PlayerDigging: status and face become variable-length, and the place is packed.
pub open spec fn spec_c2s_digging_to_1_12(b: Seq<u8>) -> Outcome {
    if b.len() < 11 {
        Outcome::Passthrough
    } else {
        converted(
            V112_C2S_DIGGING,
            varint(b[0] as i32)
                + be_i64(legacy_bits(i32_at(b, 1) as int, b[5] as int, i32_at(b, 6) as int) as i64)
                + varint(i8_at(b, 10) as i32),
        )
    }
}

pub fn c2s_digging_to_1_12(body: Bytes) -> (res: ConversionResult)
    ensures
        res@ == spec_c2s_digging_to_1_12(content(body)),
{
    broadcast use empty_then;

    let mut r = Reader::new(body);
    if !r.has(11) {
        return ConversionResult::Passthrough;
    }
    let status: u8 = r.get_u8();
    let x: i32 = r.get_i32();
    let y: u8 = r.get_u8();
    let z: i32 = r.get_i32();
    let face: i8 = r.get_i8();
    let mut out = Writer::new();
    out.varint(status as i32);
    out.i64(pack_position(x, y as i32, z));
    out.varint(face as i32);
    emit(V112_C2S_DIGGING, out)
}

/// EntityAction: all three numbers become variable-length.
pub open spec fn spec_c2s_entity_action_to_1_12(b: Seq<u8>) -> Outcome {
    if b.len() < 9 {
        Outcome::Passthrough
    } else {
        converted(
            V112_C2S_ENTITY_ACTION,
            varint(i32_at(b, 0)) + varint(b[4] as i32) + varint(i32_at(b, 5)),
        )
    }
}

pub fn c2s_entity_action_to_1_12(body: Bytes) -> (res: ConversionResult)
    ensures
        res@ == spec_c2s_entity_action_to_1_12(content(body)),
{
    broadcast use empty_then;

    let mut r = Reader::new(body);
    if !r.has(9) {
        return ConversionResult::Passthrough;
    }
    let entity_id: i32 = r.get_i32();
    let action: u8 = r.get_u8();
    let jump_boost: i32 = r.get_i32();
    let mut out = Writer::new();
    out.varint(entity_id);
    out.varint(action as i32);
    out.varint(jump_boost);
    emit(V112_C2S_ENTITY_ACTION, out)
}

/// UpdateSign: the place is packed.
pub open spec fn spec_c2s_update_sign_to_1_12(b: Seq<u8>) -> Outcome {
    if b.len() < 10 {
        Outcome::Passthrough
    } else {
        match string_at(b, 10) {
            None => Outcome::Passthrough,
            Some((first, p)) => {
                match string_at(b, p) {
                    None => Outcome::Passthrough,
                    Some((second, p2)) => {
                        match string_at(b, p2) {
                            None => Outcome::Passthrough,
                            Some((third, p3)) => {
                                match string_at(b, p3) {
                                    None => Outcome::Passthrough,
                                    Some((fourth, p4)) => {
                                        converted(
                                            V112_C2S_UPDATE_SIGN,
                                            be_i64(legacy_bits(i32_at(b, 0) as int, i16_at(b, 4) as int, i32_at(b, 6) as int) as i64)
                                                + wire_string(first) + wire_string(second)
                                                + wire_string(third) + wire_string(fourth),
                                        )
                                    },
                                }
                            },
                        }
                    },
                }
            },
        }
    }
}

pub fn c2s_update_sign_to_1_12(body: Bytes) -> (res: ConversionResult)
    ensures
        res@ == spec_c2s_update_sign_to_1_12(content(body)),
{
    broadcast use empty_then;

    let mut r = Reader::new(body);
    if !r.has(10) {
        return ConversionResult::Passthrough;
    }
    let x: i32 = r.get_i32();
    let y: i16 = r.get_i16();
    let z: i32 = r.get_i32();
    let first: String = match r.string() {
        Some(s) => s,
        None => {
            return ConversionResult::Passthrough;
        },
    };
    let second: String = match r.string() {
        Some(s) => s,
        None => {
            return ConversionResult::Passthrough;
        },
    };
    let third: String = match r.string() {
        Some(s) => s,
        None => {
            return ConversionResult::Passthrough;
        },
    };
    let fourth: String = match r.string() {
        Some(s) => s,
        None => {
            return ConversionResult::Passthrough;
        },
    };
    let mut out = Writer::new();
    out.i64(pack_position(x, y as i32, z));
    out.string(first.as_str());
    out.string(second.as_str());
    out.string(third.as_str());
    out.string(fourth.as_str());
    emit(V112_C2S_UPDATE_SIGN, out)
}

/// TabComplete: a text that starts with a slash is a command. The place, where there is one,
/// stands at the end.
pub open spec fn spec_c2s_tab_complete_to_1_12(b: Seq<u8>) -> Outcome {
    match string_at(b, 0) {
        None => Outcome::Passthrough,
        Some((text, p)) => {
            let (has_position, p2) = u8_or(b, p, 0);
            let command = if text.len() > 0 && text[0] == '/' { 1u8 } else { 0u8 };
            let placed = if has_position != 0 { 1u8 } else { 0u8 };
            let head = wire_string(text) + seq![command] + seq![placed];
            if has_position != 0 && b.len() >= p2 + 8 {
                converted(V112_C2S_TAB_COMPLETE, head + be_i64(i64_at(b, p2)))
            } else {
                converted(V112_C2S_TAB_COMPLETE, head)
            }
            
        },
    }
}

pub fn c2s_tab_complete_to_1_12(body: Bytes) -> (res: ConversionResult)
    ensures
        res@ == spec_c2s_tab_complete_to_1_12(content(body)),
{
    broadcast use empty_then;

    let mut r = Reader::new(body);
    let text: String = match r.string() {
        Some(s) => s,
        None => {
            return ConversionResult::Passthrough;
        },
    };
    let has_position: u8 = r.u8_or(0);
    let placed: bool = has_position != 0;
    let command: bool = starts_with_slash(text.as_str());
    let mut out = Writer::new();
    out.string(text.as_str());
    out.u8(if command { 1 } else { 0 });
    out.u8(if placed { 1 } else { 0 });
    if placed && r.has(8) {
        let position: i64 = r.get_i64();
        out.i64(position);
    }
    emit(V112_C2S_TAB_COMPLETE, out)
}

/// The 1.12.2 form of a 1.8 packet toward the server. Unknown packets are left alone.
pub open spec fn spec_convert_c2s_to_1_12(id: u8, b: Seq<u8>) -> Outcome {
    if id == V18_C2S_KEEP_ALIVE {
        spec_c2s_keep_alive(b)
    } else if id == V18_C2S_CHAT {
        spec_c2s_chat_to_1_12(b)
    } else if id == V18_C2S_USE_ENTITY {
        spec_c2s_use_entity_to_1_12(b)
    } else if id == V18_C2S_PLAYER_ON_GROUND {
        converted(V112_C2S_PLAYER_ON_GROUND, b)
    } else if id == V18_C2S_PLAYER_POS {
        converted(V112_C2S_PLAYER_POS, b)
    } else if id == V18_C2S_PLAYER_LOOK {
        converted(V112_C2S_PLAYER_LOOK, b)
    } else if id == V18_C2S_PLAYER_POS_LOOK {
        converted(V112_C2S_PLAYER_POS_LOOK, b)
    } else if id == V18_C2S_DIGGING {
        spec_c2s_digging_to_1_12(b)
    } else if id == V18_C2S_BLOCK_PLACE {
        spec_c2s_block_place_to_1_12(b)
    } else if id == V18_C2S_HELD_ITEM {
        converted(V112_C2S_HELD_ITEM, b)
    } else if id == V18_C2S_ANIMATION {
        converted(V112_C2S_ANIMATION, varint(0))
    } else if id == V18_C2S_ENTITY_ACTION {
        spec_c2s_entity_action_to_1_12(b)
    } else if id == V18_C2S_STEER_VEHICLE {
        converted(V112_C2S_STEER_VEHICLE, b)
    } else if id == V18_C2S_CLOSE_WINDOW {
        converted(V112_C2S_CLOSE_WINDOW, b)
    } else if id == V18_C2S_WINDOW_CLICK {
        converted(V112_C2S_WINDOW_CLICK, b)
    } else if id == V18_C2S_CONFIRM_TRANSACTION {
        converted(V112_C2S_CONFIRM_TRANSACTION, b)
    } else if id == V18_C2S_CREATIVE_INV {
        converted(V112_C2S_CREATIVE_INV, b)
    } else if id == V18_C2S_ENCHANT_ITEM {
        converted(V112_C2S_ENCHANT_ITEM, b)
    } else if id == V18_C2S_UPDATE_SIGN {
        spec_c2s_update_sign_to_1_12(b)
    } else if id == V18_C2S_PLAYER_ABILITIES {
        converted(V112_C2S_PLAYER_ABILITIES, b)
    } else if id == V18_C2S_TAB_COMPLETE {
        spec_c2s_tab_complete_to_1_12(b)
    } else if id == V18_C2S_SETTINGS {
        spec_c2s_settings_to_1_12(b)
    } else if id == V18_C2S_CLIENT_STATUS {
        converted(V112_C2S_CLIENT_STATUS, b)
    } else if id == V18_C2S_PLUGIN_MESSAGE {
        converted(V112_C2S_PLUGIN_MESSAGE, b)
    } else if id == V18_C2S_SPECTATE {
        converted(V112_C2S_SPECTATE, b)
    } else if id == V18_C2S_RESOURCE_PACK_STATUS {
        converted(V112_C2S_RESOURCE_PACK_STATUS, b)
    } else {
        Outcome::Passthrough
    }
}

fn convert_c2s_to_1_12(id: u8, body: Bytes) -> (res: ConversionResult)
    ensures
        res@ == spec_convert_c2s_to_1_12(id, content(body)),
{
    if id == V18_C2S_KEEP_ALIVE {
        c2s_keep_alive(body)
    } else if id == V18_C2S_CHAT {
        c2s_chat_to_1_12(body)
    } else if id == V18_C2S_USE_ENTITY {
        c2s_use_entity_to_1_12(body)
    } else if id == V18_C2S_PLAYER_ON_GROUND {
        rebuild_with_id(V112_C2S_PLAYER_ON_GROUND, &body)
    } else if id == V18_C2S_PLAYER_POS {
        rebuild_with_id(V112_C2S_PLAYER_POS, &body)
    } else if id == V18_C2S_PLAYER_LOOK {
        rebuild_with_id(V112_C2S_PLAYER_LOOK, &body)
    } else if id == V18_C2S_PLAYER_POS_LOOK {
        rebuild_with_id(V112_C2S_PLAYER_POS_LOOK, &body)
    } else if id == V18_C2S_DIGGING {
        c2s_digging_to_1_12(body)
    } else if id == V18_C2S_BLOCK_PLACE {
        c2s_block_place_to_1_12(body)
    } else if id == V18_C2S_HELD_ITEM {
        rebuild_with_id(V112_C2S_HELD_ITEM, &body)
    } else if id == V18_C2S_ANIMATION {
        c2s_animation_to_1_12()
    } else if id == V18_C2S_ENTITY_ACTION {
        c2s_entity_action_to_1_12(body)
    } else if id == V18_C2S_STEER_VEHICLE {
        rebuild_with_id(V112_C2S_STEER_VEHICLE, &body)
    } else if id == V18_C2S_CLOSE_WINDOW {
        rebuild_with_id(V112_C2S_CLOSE_WINDOW, &body)
    } else if id == V18_C2S_WINDOW_CLICK {
        rebuild_with_id(V112_C2S_WINDOW_CLICK, &body)
    } else if id == V18_C2S_CONFIRM_TRANSACTION {
        rebuild_with_id(V112_C2S_CONFIRM_TRANSACTION, &body)
    } else if id == V18_C2S_CREATIVE_INV {
        rebuild_with_id(V112_C2S_CREATIVE_INV, &body)
    } else if id == V18_C2S_ENCHANT_ITEM {
        rebuild_with_id(V112_C2S_ENCHANT_ITEM, &body)
    } else if id == V18_C2S_UPDATE_SIGN {
        c2s_update_sign_to_1_12(body)
    } else if id == V18_C2S_PLAYER_ABILITIES {
        rebuild_with_id(V112_C2S_PLAYER_ABILITIES, &body)
    } else if id == V18_C2S_TAB_COMPLETE {
        c2s_tab_complete_to_1_12(body)
    } else if id == V18_C2S_SETTINGS {
        c2s_settings_to_1_12(body)
    } else if id == V18_C2S_CLIENT_STATUS {
        rebuild_with_id(V112_C2S_CLIENT_STATUS, &body)
    } else if id == V18_C2S_PLUGIN_MESSAGE {
        rebuild_with_id(V112_C2S_PLUGIN_MESSAGE, &body)
    } else if id == V18_C2S_SPECTATE {
        rebuild_with_id(V112_C2S_SPECTATE, &body)
    } else if id == V18_C2S_RESOURCE_PACK_STATUS {
        rebuild_with_id(V112_C2S_RESOURCE_PACK_STATUS, &body)
    } else {
        ConversionResult::Passthrough
    }
}

/// The form of a 1.8 packet toward a server of 1.13 or later: a chat message is converted,
/// all else is left alone.
pub open spec fn spec_convert_c2s_other_modern(id: u8, b: Seq<u8>, millis: i64) -> Outcome {
    if id == V18_C2S_CHAT {
        spec_c2s_chat_to_modern(b, millis)
    } else {
        Outcome::Passthrough
    }
}

fn convert_c2s_other_modern(id: u8, body: Bytes, millis: i64) -> (res: ConversionResult)
    ensures
        res@ == spec_convert_c2s_other_modern(id, content(body), millis),
{
    if id == V18_C2S_CHAT {
        c2s_chat_to_modern(body, millis)
    } else {
        ConversionResult::Passthrough
    }
}

/// What becomes of a packet toward a server of the given protocol, at the given time in
/// milliseconds since 1970.
pub open spec fn spec_convert_c2s(p: Seq<u8>, server_proto: u32, millis: i64) -> Outcome {
    match split(p) {
        Some((id, b)) => if nearest_version(server_proto).spec_epoch() == Epoch::V1_9_To_1_12 {
            spec_convert_c2s_to_1_12(id, b)
        } else {
            spec_convert_c2s_other_modern(id, b, millis)
        },
        None => Outcome::Passthrough,
    }
}

/// Converts a packet toward a server of the given protocol. The time, in milliseconds since
/// 1970, goes into a chat message toward a server of 1.13 or later.
pub fn convert_c2s(payload: Bytes, server_proto: u32, millis: i64) -> (res: ConversionResult)
    ensures
        res@ == spec_convert_c2s(content(payload), server_proto, millis),
{
    match split_id(payload) {
        Some((id, body)) => {
            if nearest(server_proto).epoch() == Epoch::V1_9_To_1_12 {
                convert_c2s_to_1_12(id, body)
            } else {
                convert_c2s_other_modern(id, body, millis)
            }
        },
        None => ConversionResult::Passthrough,
    }
}

// Packets of 1.8 toward the client.

pub const V18_S2C_KEEP_ALIVE: u8 = 0x00;
pub const V18_S2C_JOIN_GAME: u8 = 0x01;
pub const V18_S2C_CHAT: u8 = 0x02;
pub const V18_S2C_TIME_UPDATE: u8 = 0x03;
pub const V18_S2C_ENTITY_EQUIPMENT: u8 = 0x04;
pub const V18_S2C_SPAWN_POSITION: u8 = 0x05;
pub const V18_S2C_UPDATE_HEALTH: u8 = 0x06;
pub const V18_S2C_RESPAWN: u8 = 0x07;
pub const V18_S2C_PLAYER_POS_LOOK: u8 = 0x08;
pub const V18_S2C_HELD_ITEM_CHANGE: u8 = 0x09;
pub const V18_S2C_USE_BED: u8 = 0x0A;
pub const V18_S2C_ANIMATION: u8 = 0x0B;
pub const V18_S2C_SPAWN_PLAYER: u8 = 0x0C;
pub const V18_S2C_COLLECT_ITEM: u8 = 0x0D;
pub const V18_S2C_SPAWN_OBJECT: u8 = 0x0E;
pub const V18_S2C_SPAWN_MOB: u8 = 0x0F;
pub const V18_S2C_SPAWN_PAINTING: u8 = 0x10;
pub const V18_S2C_SPAWN_EXP_ORB: u8 = 0x11;
pub const V18_S2C_ENTITY_VELOCITY: u8 = 0x12;
pub const V18_S2C_DESTROY_ENTITIES: u8 = 0x13;
pub const V18_S2C_ENTITY: u8 = 0x14;
pub const V18_S2C_ENTITY_REL_MOVE: u8 = 0x15;
pub const V18_S2C_ENTITY_LOOK: u8 = 0x16;
pub const V18_S2C_ENTITY_LOOK_REL_MOVE: u8 = 0x17;
pub const V18_S2C_ENTITY_TELEPORT: u8 = 0x18;
pub const V18_S2C_ENTITY_HEAD_LOOK: u8 = 0x19;
pub const V18_S2C_ENTITY_STATUS: u8 = 0x1A;
pub const V18_S2C_ATTACH_ENTITY: u8 = 0x1B;
pub const V18_S2C_ENTITY_METADATA: u8 = 0x1C;
pub const V18_S2C_ENTITY_EFFECT: u8 = 0x1D;
pub const V18_S2C_REMOVE_ENTITY_EFFECT: u8 = 0x1E;
pub const V18_S2C_SET_EXPERIENCE: u8 = 0x1F;
pub const V18_S2C_ENTITY_PROPERTIES: u8 = 0x20;
pub const V18_S2C_CHUNK_DATA: u8 = 0x21;
pub const V18_S2C_MULTI_BLOCK_CHANGE: u8 = 0x22;
pub const V18_S2C_BLOCK_CHANGE: u8 = 0x23;
pub const V18_S2C_BLOCK_ACTION: u8 = 0x24;
pub const V18_S2C_BLOCK_BREAK_ANIM: u8 = 0x25;
pub const V18_S2C_EXPLOSION: u8 = 0x27;
pub const V18_S2C_EFFECT: u8 = 0x28;
pub const V18_S2C_SOUND_EFFECT: u8 = 0x29;
pub const V18_S2C_PARTICLE: u8 = 0x2A;
pub const V18_S2C_CHANGE_GAME_STATE: u8 = 0x2B;
pub const V18_S2C_SPAWN_GLOBAL: u8 = 0x2C;
pub const V18_S2C_OPEN_WINDOW: u8 = 0x2D;
pub const V18_S2C_CLOSE_WINDOW: u8 = 0x2E;
pub const V18_S2C_SET_SLOT: u8 = 0x2F;
pub const V18_S2C_WINDOW_ITEMS: u8 = 0x30;
pub const V18_S2C_WINDOW_PROPERTY: u8 = 0x31;
pub const V18_S2C_CONFIRM_TRANSACTION: u8 = 0x32;
pub const V18_S2C_UPDATE_SIGN: u8 = 0x33;
pub const V18_S2C_MAP: u8 = 0x34;
pub const V18_S2C_UPDATE_TILE_ENTITY: u8 = 0x35;
pub const V18_S2C_OPEN_SIGN_EDITOR: u8 = 0x36;
pub const V18_S2C_STATISTICS: u8 = 0x37;
pub const V18_S2C_PLAYER_LIST_ITEM: u8 = 0x38;
pub const V18_S2C_PLAYER_ABILITIES: u8 = 0x39;
pub const V18_S2C_TAB_COMPLETE: u8 = 0x3A;
pub const V18_S2C_SCOREBOARD_OBJ: u8 = 0x3B;
pub const V18_S2C_UPDATE_SCORE: u8 = 0x3C;
pub const V18_S2C_DISPLAY_SCOREBOARD: u8 = 0x3D;
pub const V18_S2C_TEAMS: u8 = 0x3E;
pub const V18_S2C_PLUGIN_MESSAGE: u8 = 0x3F;
pub const V18_S2C_DISCONNECT: u8 = 0x40;
pub const V18_S2C_SERVER_DIFFICULTY: u8 = 0x41;
pub const V18_S2C_COMBAT_EVENT: u8 = 0x42;
pub const V18_S2C_CAMERA: u8 = 0x43;
pub const V18_S2C_WORLD_BORDER: u8 = 0x44;
pub const V18_S2C_TITLE: u8 = 0x45;
pub const V18_S2C_PLAYER_LIST_HEADER_FOOTER: u8 = 0x47;
pub const V18_S2C_RESOURCE_PACK: u8 = 0x48;

pub const V112_S2C_KEEP_ALIVE: u8 = 0x1F;
pub const V112_S2C_JOIN_GAME: u8 = 0x23;
pub const V112_S2C_PLAYER_POS_LOOK: u8 = 0x2F;
pub const V112_S2C_COLLECT_ITEM: u8 = 0x4B;
pub const V112_S2C_ENTITY_REL_MOVE: u8 = 0x25;
pub const V112_S2C_ENTITY_LOOK: u8 = 0x27;
pub const V112_S2C_ENTITY_LOOK_REL_MOVE: u8 = 0x26;
pub const V112_S2C_ENTITY_TELEPORT: u8 = 0x4C;
pub const V112_S2C_BLOCK_CHANGE: u8 = 0x0B;

/// KeepAlive: the variable-length id becomes an `i64`.
pub open spec fn spec_s2c_keep_alive(b: Seq<u8>) -> Outcome {
    match varint_at(b, 0) {
        None => Outcome::Passthrough,
        Some((id, p)) => {
            converted(V112_S2C_KEEP_ALIVE, be_i64(id as i64))
        },
    }
}

pub fn s2c_keep_alive(body: Bytes) -> (res: ConversionResult)
    ensures
        res@ == spec_s2c_keep_alive(content(body)),
{
    broadcast use empty_then;

    let mut r = Reader::new(body);
    let id: i32 = match r.varint() {
        Some(v) => v,
        None => {
            return ConversionResult::Passthrough;
        },
    };
    let mut out = Writer::new();
    out.i64(id as i64);
    emit(V112_S2C_KEEP_ALIVE, out)
}

/// JoinGame: the dimension becomes 32 bits. What is missing behind the game mode has a
/// default.
pub open spec fn spec_s2c_join_game(b: Seq<u8>) -> Outcome {
    if b.len() < 4 {
        Outcome::Passthrough
    } else if b.len() < 5 {
        Outcome::Passthrough
    } else {
        let (dimension, p) = i8_or(b, 5, 0);
        let (difficulty, p2) = u8_or(b, p, 2);
        let (max_players, p3) = u8_or(b, p2, 100);
        let (level_type, p4) = string_or(b, p3, "default"@);
        let (reduced_debug, p5) = u8_or(b, p4, 0);
        converted(
            V112_S2C_JOIN_GAME,
            be_i32(i32_at(b, 0)) + seq![b[4]] + be_i32(dimension as i32) + seq![difficulty]
                + seq![max_players] + wire_string(level_type) + seq![reduced_debug],
        )
    }
}

pub fn s2c_join_game(body: Bytes) -> (res: ConversionResult)
    ensures
        res@ == spec_s2c_join_game(content(body)),
{
    broadcast use empty_then;

    let mut r = Reader::new(body);
    let entity_id: i32 = match r.i32() {
        Some(v) => v,
        None => {
            return ConversionResult::Passthrough;
        },
    };
    let game_mode: u8 = match r.u8() {
        Some(v) => v,
        None => {
            return ConversionResult::Passthrough;
        },
    };
    let dimension: i8 = r.i8_or(0);
    let difficulty: u8 = r.u8_or(2);
    let max_players: u8 = r.u8_or(100);
    let level_type: String = r.string_or("default");
    let reduced_debug: u8 = r.u8_or(0);
    let mut out = Writer::new();
    out.i32(entity_id);
    out.u8(game_mode);
    out.i32(dimension as i32);
    out.u8(difficulty);
    out.u8(max_players);
    out.string(level_type.as_str());
    out.u8(reduced_debug);
    emit(V112_S2C_JOIN_GAME, out)
}

/// PlayerPositionAndLook: teleport id 0 at the end.
pub open spec fn spec_s2c_player_pos_look(b: Seq<u8>) -> Outcome {
    if b.len() < 8 {
        Outcome::Passthrough
    } else if b.len() < 16 {
        Outcome::Passthrough
    } else if b.len() < 24 {
        Outcome::Passthrough
    } else if b.len() < 28 {
        Outcome::Passthrough
    } else if b.len() < 32 {
        Outcome::Passthrough
    } else {
        let (flags, p) = u8_or(b, 32, 0);
        converted(
            V112_S2C_PLAYER_POS_LOOK,
            be64(u64_at(b, 0)) + be64(u64_at(b, 8)) + be64(u64_at(b, 16)) + be32(u32_at(b, 24))
                + be32(u32_at(b, 28)) + seq![flags] + varint(0),
        )
    }
}

pub fn s2c_player_pos_look(body: Bytes) -> (res: ConversionResult)
    ensures
        res@ == spec_s2c_player_pos_look(content(body)),
{
    broadcast use empty_then;

    let mut r = Reader::new(body);
    let x: u64 = match r.double_bits() {
        Some(v) => v,
        None => {
            return ConversionResult::Passthrough;
        },
    };
    let y: u64 = match r.double_bits() {
        Some(v) => v,
        None => {
            return ConversionResult::Passthrough;
        },
    };
    let z: u64 = match r.double_bits() {
        Some(v) => v,
        None => {
            return ConversionResult::Passthrough;
        },
    };
    let yaw: u32 = match r.single_bits() {
        Some(v) => v,
        None => {
            return ConversionResult::Passthrough;
        },
    };
    let pitch: u32 = match r.single_bits() {
        Some(v) => v,
        None => {
            return ConversionResult::Passthrough;
        },
    };
    let flags: u8 = r.u8_or(0);
    let mut out = Writer::new();
    out.u64(x);
    out.u64(y);
    out.u64(z);
    out.u32(yaw);
    out.u32(pitch);
    out.u8(flags);
    out.varint(0);
    emit(V112_S2C_PLAYER_POS_LOOK, out)
}

/// CollectItem: one item is collected.
pub open spec fn spec_s2c_collect_item(b: Seq<u8>) -> Outcome {
    match varint_at(b, 0) {
        None => Outcome::Passthrough,
        Some((collected, p)) => {
            match varint_at(b, p) {
                None => Outcome::Passthrough,
                Some((collector, p2)) => {
                    converted(
                        V112_S2C_COLLECT_ITEM,
                        varint(collected) + varint(collector) + varint(1),
                    )
                },
            }
        },
    }
}

pub fn s2c_collect_item(body: Bytes) -> (res: ConversionResult)
    ensures
        res@ == spec_s2c_collect_item(content(body)),
{
    broadcast use empty_then;

    let mut r = Reader::new(body);
    let collected: i32 = match r.varint() {
        Some(v) => v,
        None => {
            return ConversionResult::Passthrough;
        },
    };
    let collector: i32 = match r.varint() {
        Some(v) => v,
        None => {
            return ConversionResult::Passthrough;
        },
    };
    let mut out = Writer::new();
    out.varint(collected);
    out.varint(collector);
    out.varint(1);
    emit(V112_S2C_COLLECT_ITEM, out)
}

/// EntityRelativeMove, with or without a look: the steps, in 32nds of a block, become 4096ths.
pub open spec fn spec_s2c_entity_rel_move(b: Seq<u8>, has_look: bool) -> Outcome {
    match varint_at(b, 0) {
        None => Outcome::Passthrough,
        Some((entity_id, p)) => {
            if b.len() < p + 1 {
                Outcome::Passthrough
            } else if b.len() < p + 2 {
                Outcome::Passthrough
            } else if b.len() < p + 3 {
                Outcome::Passthrough
            } else {
                let head = varint(entity_id) + be_i16((i8_at(b, p) * 128) as i16) + be_i16((i8_at(b, p + 1) * 128) as i16) + be_i16(
                    (i8_at(b, p + 2) * 128) as i16,
                );
                if has_look {
                    let (yaw, q1) = u8_or(b, p + 3, 0);
                    let (pitch, q2) = u8_or(b, q1, 0);
                    let (on_ground, _) = u8_or(b, q2, 1);
                    converted(
                        V112_S2C_ENTITY_LOOK_REL_MOVE,
                        head + seq![yaw] + seq![pitch] + seq![on_ground],
                    )
                } else {
                    let (on_ground, _) = u8_or(b, p + 3, 1);
                    converted(V112_S2C_ENTITY_REL_MOVE, head + seq![on_ground])
                }
            }
        },
    }
}

pub fn s2c_entity_rel_move(body: Bytes, has_look: bool) -> (res: ConversionResult)
    ensures
        res@ == spec_s2c_entity_rel_move(content(body), has_look),
{
    broadcast use empty_then;

    let mut r = Reader::new(body);
    let entity_id: i32 = match r.varint() {
        Some(v) => v,
        None => {
            return ConversionResult::Passthrough;
        },
    };
    let dx: i8 = match r.i8() {
        Some(v) => v,
        None => {
            return ConversionResult::Passthrough;
        },
    };
    let dy: i8 = match r.i8() {
        Some(v) => v,
        None => {
            return ConversionResult::Passthrough;
        },
    };
    let dz: i8 = match r.i8() {
        Some(v) => v,
        None => {
            return ConversionResult::Passthrough;
        },
    };
    let yaw: u8 = if has_look { r.u8_or(0) } else { 0 };
    let pitch: u8 = if has_look { r.u8_or(0) } else { 0 };
    let on_ground: u8 = r.u8_or(1);
    let mut out = Writer::new();
    out.varint(entity_id);
    out.i16(dx as i16 * 128);
    out.i16(dy as i16 * 128);
    out.i16(dz as i16 * 128);
    if has_look {
        out.u8(yaw);
        out.u8(pitch);
        out.u8(on_ground);
        emit(V112_S2C_ENTITY_LOOK_REL_MOVE, out)
    } else {
        out.u8(on_ground);
        emit(V112_S2C_ENTITY_REL_MOVE, out)
    }
}

/// EntityTeleport: the coordinates, in 32nds of a block, become doubles.
pub open spec fn spec_s2c_entity_teleport(b: Seq<u8>) -> Outcome {
    match varint_at(b, 0) {
        None => Outcome::Passthrough,
        Some((entity_id, p)) => {
            if b.len() < p + 4 {
                Outcome::Passthrough
            } else if b.len() < p + 8 {
                Outcome::Passthrough
            } else if b.len() < p + 12 {
                Outcome::Passthrough
            } else {
                let (yaw, p2) = u8_or(b, p + 12, 0);
                let (pitch, p3) = u8_or(b, p2, 0);
                let (on_ground, p4) = u8_or(b, p3, 1);
                converted(
                    V112_S2C_ENTITY_TELEPORT,
                    varint(entity_id) + be64(double_of_fixed(i32_at(b, p) as int, 5))
                        + be64(double_of_fixed(i32_at(b, p + 4) as int, 5))
                        + be64(double_of_fixed(i32_at(b, p + 8) as int, 5)) + seq![yaw]
                        + seq![pitch] + seq![on_ground],
                )
            }
        },
    }
}

pub fn s2c_entity_teleport(body: Bytes) -> (res: ConversionResult)
    ensures
        res@ == spec_s2c_entity_teleport(content(body)),
{
    broadcast use empty_then;

    let mut r = Reader::new(body);
    let entity_id: i32 = match r.varint() {
        Some(v) => v,
        None => {
            return ConversionResult::Passthrough;
        },
    };
    let x: i32 = match r.i32() {
        Some(v) => v,
        None => {
            return ConversionResult::Passthrough;
        },
    };
    let y: i32 = match r.i32() {
        Some(v) => v,
        None => {
            return ConversionResult::Passthrough;
        },
    };
    let z: i32 = match r.i32() {
        Some(v) => v,
        None => {
            return ConversionResult::Passthrough;
        },
    };
    let yaw: u8 = r.u8_or(0);
    let pitch: u8 = r.u8_or(0);
    let on_ground: u8 = r.u8_or(1);
    let mut out = Writer::new();
    out.varint(entity_id);
    out.u64(fixed_to_double(x, 5));
    out.u64(fixed_to_double(y, 5));
    out.u64(fixed_to_double(z, 5));
    out.u8(yaw);
    out.u8(pitch);
    out.u8(on_ground);
    emit(V112_S2C_ENTITY_TELEPORT, out)
}

/// BlockChange: the place is packed, and the id and the low four bits of the metadata become
/// one state.
pub open spec fn spec_s2c_block_change(b: Seq<u8>) -> Outcome {
    if b.len() < 4 {
        Outcome::Passthrough
    } else if b.len() < 5 {
        Outcome::Passthrough
    } else if b.len() < 9 {
        Outcome::Passthrough
    } else {
        match varint_at(b, 9) {
            None => Outcome::Passthrough,
            Some((block_id, p)) => {
                let (metadata, p2) = u8_or(b, p, 0);
                converted(
                    V112_S2C_BLOCK_CHANGE,
                    be_i64(legacy_bits(i32_at(b, 0) as int, b[4] as int, i32_at(b, 5) as int) as i64)
                        + varint((block_id << 4) | (metadata as i32 & 0xF)),
                )
            },
        }
    }
}

pub fn s2c_block_change(body: Bytes) -> (res: ConversionResult)
    ensures
        res@ == spec_s2c_block_change(content(body)),
{
    broadcast use empty_then;

    let mut r = Reader::new(body);
    let x: i32 = match r.i32() {
        Some(v) => v,
        None => {
            return ConversionResult::Passthrough;
        },
    };
    let y: u8 = match r.u8() {
        Some(v) => v,
        None => {
            return ConversionResult::Passthrough;
        },
    };
    let z: i32 = match r.i32() {
        Some(v) => v,
        None => {
            return ConversionResult::Passthrough;
        },
    };
    let block_id: i32 = match r.varint() {
        Some(v) => v,
        None => {
            return ConversionResult::Passthrough;
        },
    };
    let metadata: u8 = r.u8_or(0);
    let mut out = Writer::new();
    out.i64(pack_position(x, y as i32, z));
    out.varint((block_id << 4) | (metadata as i32 & 0xF));
    emit(V112_S2C_BLOCK_CHANGE, out)
}

/// The body of a 1.8 BlockChange.
pub open spec fn block_change(x: i32, y: u8, z: i32, block_id: i32, metadata: u8) -> Seq<u8> {
    be_i32(x) + seq![y] + be_i32(z) + varint(block_id) + seq![metadata]
}

/// Putting an id and its metadata together and taking them apart again gives both back.
proof fn state_parts(block_id: i32, metadata: u8)
    requires
        0 <= block_id < 0x800_0000,
        metadata < 16,
    ensures
        ((block_id << 4) | (metadata as i32 & 0xF)) >> 4 == block_id,
        (((block_id << 4) | (metadata as i32 & 0xF)) & 0xF) as u8 == metadata,
{
    assert(((block_id << 4) | (metadata as i32 & 0xF)) >> 4 == block_id && (((block_id << 4) | (metadata as i32
        & 0xF)) & 0xF) as u8 == metadata) by (bit_vector)
        requires
            0 <= block_id < 0x800_0000,
            metadata < 16,
    ;
}

/// The fields of a 1.8 BlockChange read as they were written.
proof fn block_change_fields(x: i32, y: u8, z: i32, block_id: i32, metadata: u8)
    ensures
        ({
            let b = block_change(x, y, z, block_id, metadata);
            &&& b.len() >= 9
            &&& i32_at(b, 0) == x
            &&& b[4] == y
            &&& i32_at(b, 5) == z
            &&& varint_at(b, 9) == Some((block_id, b.len() - 1))
            &&& b[b.len() - 1] == metadata
        }),
{
    let b = block_change(x, y, z, block_id, metadata);
    let head = be_i32(x) + seq![y] + be_i32(z);
    varint_round_trip(block_id, head, seq![metadata]);
    assert(head.len() == 9);
    assert(b =~= head + varint(block_id) + seq![metadata]);
    assert(b.subrange(0, 4) =~= be_i32(x));
    assert(b.subrange(5, 9) =~= be_i32(z));
    u32_there(b, 0, x as u32);
    u32_there(b, 5, z as u32);
    assert((x as u32) as i32 == x) by (bit_vector);
    assert((z as u32) as i32 == z) by (bit_vector);
}

/// A BlockChange comes back from 1.12.2 as it was, where its place can be packed, its id leaves
/// room for the metadata and that is of four bits.
pub proof fn block_change_comes_back(x: i32, y: u8, z: i32, block_id: i32, metadata: u8)
    requires
        -0x200_0000 <= x < 0x200_0000,
        -0x200_0000 <= z < 0x200_0000,
        0 <= block_id < 0x800_0000,
        metadata < 16,
    ensures
        ({
            let b = block_change(x, y, z, block_id, metadata);
            let m = be_i64(legacy_bits(x as int, y as int, z as int) as i64) + varint(
                (block_id << 4) | (metadata as i32 & 0xF),
            );
            &&& spec_s2c_block_change(b) == converted(V112_S2C_BLOCK_CHANGE, m)
            &&& modern_to_v1_8::spec_s2c_block_change(m) == converted(modern_to_v1_8::V18_S2C_BLOCK_CHANGE, b)
        }),
{
    let b = block_change(x, y, z, block_id, metadata);
    let state = (block_id << 4) | (metadata as i32 & 0xF);
    let bits = legacy_bits(x as int, y as int, z as int);
    let m = be_i64(bits as i64) + varint(state);
    block_change_fields(x, y, z, block_id, metadata);
    state_parts(block_id, metadata);
    assert((bits as i64) as u64 == bits) by (bit_vector);
    u64_round_trip(bits, varint(state));
    assert(be_i64(bits as i64).len() == 8);
    varint_round_trip(state, be_i64(bits as i64), Seq::empty());
    assert(be_i64(bits as i64) + varint(state) + Seq::<u8>::empty() =~= m);
    legacy_round_trip(Position { x, y: y as i32, z });
    assert((y as i32) as u8 == y) by (bit_vector);
}

/// The 1.12.2 form of a 1.8 packet toward the client. UpdateSign is dropped, unknown packets
/// are left alone.
pub open spec fn spec_convert_s2c_to_1_12(id: u8, b: Seq<u8>) -> Outcome {
    if id == V18_S2C_KEEP_ALIVE {
        spec_s2c_keep_alive(b)
    } else if id == V18_S2C_JOIN_GAME {
        spec_s2c_join_game(b)
    } else if id == V18_S2C_PLAYER_POS_LOOK {
        spec_s2c_player_pos_look(b)
    } else if id == V18_S2C_COLLECT_ITEM {
        spec_s2c_collect_item(b)
    } else if id == V18_S2C_ENTITY_REL_MOVE {
        spec_s2c_entity_rel_move(b, false)
    } else if id == V18_S2C_ENTITY_LOOK {
        converted(V112_S2C_ENTITY_LOOK, b)
    } else if id == V18_S2C_ENTITY_LOOK_REL_MOVE {
        spec_s2c_entity_rel_move(b, true)
    } else if id == V18_S2C_ENTITY_TELEPORT {
        spec_s2c_entity_teleport(b)
    } else if id == V18_S2C_BLOCK_CHANGE {
        spec_s2c_block_change(b)
    } else if id == V18_S2C_CHAT {
        converted(0x0F, b)
    } else if id == V18_S2C_RESPAWN {
        converted(0x35, b)
    } else if id == V18_S2C_TIME_UPDATE {
        converted(0x47, b)
    } else if id == V18_S2C_ENTITY_EQUIPMENT {
        converted(0x3F, b)
    } else if id == V18_S2C_SPAWN_POSITION {
        converted(0x46, b)
    } else if id == V18_S2C_UPDATE_HEALTH {
        converted(0x41, b)
    } else if id == V18_S2C_HELD_ITEM_CHANGE {
        converted(0x3A, b)
    } else if id == V18_S2C_USE_BED {
        converted(0x30, b)
    } else if id == V18_S2C_ANIMATION {
        converted(0x06, b)
    } else if id == V18_S2C_SPAWN_PLAYER {
        converted(0x05, b)
    } else if id == V18_S2C_SPAWN_OBJECT {
        converted(0x00, b)
    } else if id == V18_S2C_SPAWN_MOB {
        converted(0x03, b)
    } else if id == V18_S2C_SPAWN_PAINTING {
        converted(0x04, b)
    } else if id == V18_S2C_SPAWN_EXP_ORB {
        converted(0x01, b)
    } else if id == V18_S2C_ENTITY_VELOCITY {
        converted(0x3E, b)
    } else if id == V18_S2C_DESTROY_ENTITIES {
        converted(0x32, b)
    } else if id == V18_S2C_ENTITY {
        converted(0x28, b)
    } else if id == V18_S2C_ENTITY_HEAD_LOOK {
        converted(0x36, b)
    } else if id == V18_S2C_ENTITY_STATUS {
        converted(0x1B, b)
    } else if id == V18_S2C_ATTACH_ENTITY {
        converted(0x3D, b)
    } else if id == V18_S2C_ENTITY_METADATA {
        converted(0x3C, b)
    } else if id == V18_S2C_ENTITY_EFFECT {
        converted(0x4F, b)
    } else if id == V18_S2C_REMOVE_ENTITY_EFFECT {
        converted(0x33, b)
    } else if id == V18_S2C_SET_EXPERIENCE {
        converted(0x40, b)
    } else if id == V18_S2C_ENTITY_PROPERTIES {
        converted(0x4E, b)
    } else if id == V18_S2C_CHUNK_DATA {
        converted(0x20, b)
    } else if id == V18_S2C_MULTI_BLOCK_CHANGE {
        converted(0x10, b)
    } else if id == V18_S2C_BLOCK_ACTION {
        converted(0x0A, b)
    } else if id == V18_S2C_BLOCK_BREAK_ANIM {
        converted(0x08, b)
    } else if id == V18_S2C_UPDATE_TILE_ENTITY {
        converted(0x09, b)
    } else if id == V18_S2C_EXPLOSION {
        converted(0x1C, b)
    } else if id == V18_S2C_EFFECT {
        converted(0x21, b)
    } else if id == V18_S2C_SOUND_EFFECT {
        converted(0x49, b)
    } else if id == V18_S2C_PARTICLE {
        converted(0x22, b)
    } else if id == V18_S2C_CHANGE_GAME_STATE {
        converted(0x1E, b)
    } else if id == V18_S2C_SPAWN_GLOBAL {
        converted(0x02, b)
    } else if id == V18_S2C_OPEN_WINDOW {
        converted(0x13, b)
    } else if id == V18_S2C_CLOSE_WINDOW {
        converted(0x12, b)
    } else if id == V18_S2C_SET_SLOT {
        converted(0x16, b)
    } else if id == V18_S2C_WINDOW_ITEMS {
        converted(0x14, b)
    } else if id == V18_S2C_WINDOW_PROPERTY {
        converted(0x15, b)
    } else if id == V18_S2C_CONFIRM_TRANSACTION {
        converted(0x11, b)
    } else if id == V18_S2C_OPEN_SIGN_EDITOR {
        converted(0x2A, b)
    } else if id == V18_S2C_STATISTICS {
        converted(0x07, b)
    } else if id == V18_S2C_PLAYER_LIST_ITEM {
        converted(0x2E, b)
    } else if id == V18_S2C_PLAYER_ABILITIES {
        converted(0x2C, b)
    } else if id == V18_S2C_TAB_COMPLETE {
        converted(0x0E, b)
    } else if id == V18_S2C_SCOREBOARD_OBJ {
        converted(0x42, b)
    } else if id == V18_S2C_UPDATE_SCORE {
        converted(0x45, b)
    } else if id == V18_S2C_DISPLAY_SCOREBOARD {
        converted(0x3B, b)
    } else if id == V18_S2C_TEAMS {
        converted(0x44, b)
    } else if id == V18_S2C_PLUGIN_MESSAGE {
        converted(0x18, b)
    } else if id == V18_S2C_DISCONNECT {
        converted(0x1A, b)
    } else if id == V18_S2C_SERVER_DIFFICULTY {
        converted(0x0D, b)
    } else if id == V18_S2C_COMBAT_EVENT {
        converted(0x2D, b)
    } else if id == V18_S2C_CAMERA {
        converted(0x39, b)
    } else if id == V18_S2C_WORLD_BORDER {
        converted(0x38, b)
    } else if id == V18_S2C_TITLE {
        converted(0x48, b)
    } else if id == V18_S2C_PLAYER_LIST_HEADER_FOOTER {
        converted(0x4A, b)
    } else if id == V18_S2C_RESOURCE_PACK {
        converted(0x34, b)
    } else if id == V18_S2C_UPDATE_SIGN {
        Outcome::Drop
    } else if id == V18_S2C_MAP {
        converted(0x24, b)
    } else {
        Outcome::Passthrough
    }
}

fn convert_s2c_to_1_12(id: u8, body: Bytes) -> (res: ConversionResult)
    ensures
        res@ == spec_convert_s2c_to_1_12(id, content(body)),
{
    if id == V18_S2C_KEEP_ALIVE {
        s2c_keep_alive(body)
    } else if id == V18_S2C_JOIN_GAME {
        s2c_join_game(body)
    } else if id == V18_S2C_PLAYER_POS_LOOK {
        s2c_player_pos_look(body)
    } else if id == V18_S2C_COLLECT_ITEM {
        s2c_collect_item(body)
    } else if id == V18_S2C_ENTITY_REL_MOVE {
        s2c_entity_rel_move(body, false)
    } else if id == V18_S2C_ENTITY_LOOK {
        rebuild_with_id(V112_S2C_ENTITY_LOOK, &body)
    } else if id == V18_S2C_ENTITY_LOOK_REL_MOVE {
        s2c_entity_rel_move(body, true)
    } else if id == V18_S2C_ENTITY_TELEPORT {
        s2c_entity_teleport(body)
    } else if id == V18_S2C_BLOCK_CHANGE {
        s2c_block_change(body)
    } else if id == V18_S2C_CHAT {
        rebuild_with_id(0x0F, &body)
    } else if id == V18_S2C_RESPAWN {
        rebuild_with_id(0x35, &body)
    } else if id == V18_S2C_TIME_UPDATE {
        rebuild_with_id(0x47, &body)
    } else if id == V18_S2C_ENTITY_EQUIPMENT {
        rebuild_with_id(0x3F, &body)
    } else if id == V18_S2C_SPAWN_POSITION {
        rebuild_with_id(0x46, &body)
    } else if id == V18_S2C_UPDATE_HEALTH {
        rebuild_with_id(0x41, &body)
    } else if id == V18_S2C_HELD_ITEM_CHANGE {
        rebuild_with_id(0x3A, &body)
    } else if id == V18_S2C_USE_BED {
        rebuild_with_id(0x30, &body)
    } else if id == V18_S2C_ANIMATION {
        rebuild_with_id(0x06, &body)
    } else if id == V18_S2C_SPAWN_PLAYER {
        rebuild_with_id(0x05, &body)
    } else if id == V18_S2C_SPAWN_OBJECT {
        rebuild_with_id(0x00, &body)
    } else if id == V18_S2C_SPAWN_MOB {
        rebuild_with_id(0x03, &body)
    } else if id == V18_S2C_SPAWN_PAINTING {
        rebuild_with_id(0x04, &body)
    } else if id == V18_S2C_SPAWN_EXP_ORB {
        rebuild_with_id(0x01, &body)
    } else if id == V18_S2C_ENTITY_VELOCITY {
        rebuild_with_id(0x3E, &body)
    } else if id == V18_S2C_DESTROY_ENTITIES {
        rebuild_with_id(0x32, &body)
    } else if id == V18_S2C_ENTITY {
        rebuild_with_id(0x28, &body)
    } else if id == V18_S2C_ENTITY_HEAD_LOOK {
        rebuild_with_id(0x36, &body)
    } else if id == V18_S2C_ENTITY_STATUS {
        rebuild_with_id(0x1B, &body)
    } else if id == V18_S2C_ATTACH_ENTITY {
        rebuild_with_id(0x3D, &body)
    } else if id == V18_S2C_ENTITY_METADATA {
        rebuild_with_id(0x3C, &body)
    } else if id == V18_S2C_ENTITY_EFFECT {
        rebuild_with_id(0x4F, &body)
    } else if id == V18_S2C_REMOVE_ENTITY_EFFECT {
        rebuild_with_id(0x33, &body)
    } else if id == V18_S2C_SET_EXPERIENCE {
        rebuild_with_id(0x40, &body)
    } else if id == V18_S2C_ENTITY_PROPERTIES {
        rebuild_with_id(0x4E, &body)
    } else if id == V18_S2C_CHUNK_DATA {
        rebuild_with_id(0x20, &body)
    } else if id == V18_S2C_MULTI_BLOCK_CHANGE {
        rebuild_with_id(0x10, &body)
    } else if id == V18_S2C_BLOCK_ACTION {
        rebuild_with_id(0x0A, &body)
    } else if id == V18_S2C_BLOCK_BREAK_ANIM {
        rebuild_with_id(0x08, &body)
    } else if id == V18_S2C_UPDATE_TILE_ENTITY {
        rebuild_with_id(0x09, &body)
    } else if id == V18_S2C_EXPLOSION {
        rebuild_with_id(0x1C, &body)
    } else if id == V18_S2C_EFFECT {
        rebuild_with_id(0x21, &body)
    } else if id == V18_S2C_SOUND_EFFECT {
        rebuild_with_id(0x49, &body)
    } else if id == V18_S2C_PARTICLE {
        rebuild_with_id(0x22, &body)
    } else if id == V18_S2C_CHANGE_GAME_STATE {
        rebuild_with_id(0x1E, &body)
    } else if id == V18_S2C_SPAWN_GLOBAL {
        rebuild_with_id(0x02, &body)
    } else if id == V18_S2C_OPEN_WINDOW {
        rebuild_with_id(0x13, &body)
    } else if id == V18_S2C_CLOSE_WINDOW {
        rebuild_with_id(0x12, &body)
    } else if id == V18_S2C_SET_SLOT {
        rebuild_with_id(0x16, &body)
    } else if id == V18_S2C_WINDOW_ITEMS {
        rebuild_with_id(0x14, &body)
    } else if id == V18_S2C_WINDOW_PROPERTY {
        rebuild_with_id(0x15, &body)
    } else if id == V18_S2C_CONFIRM_TRANSACTION {
        rebuild_with_id(0x11, &body)
    } else if id == V18_S2C_OPEN_SIGN_EDITOR {
        rebuild_with_id(0x2A, &body)
    } else if id == V18_S2C_STATISTICS {
        rebuild_with_id(0x07, &body)
    } else if id == V18_S2C_PLAYER_LIST_ITEM {
        rebuild_with_id(0x2E, &body)
    } else if id == V18_S2C_PLAYER_ABILITIES {
        rebuild_with_id(0x2C, &body)
    } else if id == V18_S2C_TAB_COMPLETE {
        rebuild_with_id(0x0E, &body)
    } else if id == V18_S2C_SCOREBOARD_OBJ {
        rebuild_with_id(0x42, &body)
    } else if id == V18_S2C_UPDATE_SCORE {
        rebuild_with_id(0x45, &body)
    } else if id == V18_S2C_DISPLAY_SCOREBOARD {
        rebuild_with_id(0x3B, &body)
    } else if id == V18_S2C_TEAMS {
        rebuild_with_id(0x44, &body)
    } else if id == V18_S2C_PLUGIN_MESSAGE {
        rebuild_with_id(0x18, &body)
    } else if id == V18_S2C_DISCONNECT {
        rebuild_with_id(0x1A, &body)
    } else if id == V18_S2C_SERVER_DIFFICULTY {
        rebuild_with_id(0x0D, &body)
    } else if id == V18_S2C_COMBAT_EVENT {
        rebuild_with_id(0x2D, &body)
    } else if id == V18_S2C_CAMERA {
        rebuild_with_id(0x39, &body)
    } else if id == V18_S2C_WORLD_BORDER {
        rebuild_with_id(0x38, &body)
    } else if id == V18_S2C_TITLE {
        rebuild_with_id(0x48, &body)
    } else if id == V18_S2C_PLAYER_LIST_HEADER_FOOTER {
        rebuild_with_id(0x4A, &body)
    } else if id == V18_S2C_RESOURCE_PACK {
        rebuild_with_id(0x34, &body)
    } else if id == V18_S2C_UPDATE_SIGN {
        ConversionResult::Drop
    } else if id == V18_S2C_MAP {
        rebuild_with_id(0x24, &body)
    } else {
        ConversionResult::Passthrough
    }
}

/// What becomes of a packet toward a client of the given protocol.
pub open spec fn spec_convert_s2c(p: Seq<u8>, server_proto: u32) -> Outcome {
    match split(p) {
        Some((id, b)) => if nearest_version(server_proto).spec_epoch() == Epoch::V1_9_To_1_12 {
            spec_convert_s2c_to_1_12(id, b)
        } else {
            Outcome::Passthrough
        },
        None => Outcome::Passthrough,
    }
}

/// Converts a packet toward a client of the given protocol. Only releases from 1.9 to 1.12
/// are converted for.
pub fn convert_s2c(payload: Bytes, server_proto: u32) -> (res: ConversionResult)
    ensures
        res@ == spec_convert_s2c(content(payload), server_proto),
{
    match split_id(payload) {
        Some((id, body)) => {
            if nearest(server_proto).epoch() == Epoch::V1_9_To_1_12 {
                convert_s2c_to_1_12(id, body)
            } else {
                ConversionResult::Passthrough
            }
        },
        None => ConversionResult::Passthrough,
    }
}

} // verus!
