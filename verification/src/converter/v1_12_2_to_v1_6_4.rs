//! 1.12.2 packets for 1.6.4.
//!
//! Where 1.6.4 has no room for a field it is dropped, and where it wants one that 1.12.2
//! does not carry a neutral value stands in. Items are not translated: their slots are
//! written as empty, and equipment, which would be nothing else, is dropped.

use bytes::Bytes;
use crate::converter::outcome::{
    ConversionResult, Outcome, converted, emit, rebuild_with_id, split, split_id,
};
use crate::converter::safe::{
    Reader, i16_or, i32_or, i8_or, string_or_empty, u32_or, u64_or, u8_or, varint_or,
};
use crate::converter::v1_6_4_to_v1_12_2;
use crate::number::{
    add_eye_height, double_to_fixed_cut, double_to_fixed_rounded, fixed_cut, fixed_rounded,
    over_128, plus_eye_height, single_to_sixteenths, sixteenths, trunc_128,
};
use crate::position::{
    Position, decode_legacy_position, legacy_bits, legacy_position_of, legacy_round_trip, packable,
};
use crate::text::{
    first_chars, hex, is_text, lower_hex, shortened, string_at, ucs2_string, wire_string,
};
use crate::varint::{varint, varint_at, varint_round_trip};
use crate::wire::{
    be16, be32, be64, be_i16, be_i32, be_i64, be_i8, bytes_clone, bytes_len, bytes_to_vec,
    content, i16_at, i32_at, i64_at, i8_at, u16_there, u32_at, u32_there, u64_at,
    u64_round_trip,
};
use crate::writer::{Writer, empty_then};
use vstd::prelude::*;

verus! {

pub const V112_C2S_TELEPORT_CONFIRM: u8 = 0x00;
pub const V112_C2S_TAB_COMPLETE: u8 = 0x01;
pub const V112_C2S_CHAT: u8 = 0x02;
pub const V112_C2S_CLIENT_STATUS: u8 = 0x03;
pub const V112_C2S_CLIENT_SETTINGS: u8 = 0x04;
pub const V112_C2S_CONFIRM_TRANSACTION: u8 = 0x05;
pub const V112_C2S_ENCHANT_ITEM: u8 = 0x06;
pub const V112_C2S_WINDOW_CLICK: u8 = 0x07;
pub const V112_C2S_CLOSE_WINDOW: u8 = 0x08;
pub const V112_C2S_PLUGIN_MESSAGE: u8 = 0x09;
pub const V112_C2S_USE_ENTITY: u8 = 0x0A;
pub const V112_C2S_KEEP_ALIVE: u8 = 0x0B;
pub const V112_C2S_MOVE_PLAYER_POS: u8 = 0x0C;
pub const V112_C2S_PLAYER_POS_LOOK: u8 = 0x0E;
pub const V112_C2S_MOVE_PLAYER_ROT: u8 = 0x0F;
pub const V112_C2S_STEER_VEHICLE: u8 = 0x16;
pub const V112_C2S_PLAYER_ABILITIES: u8 = 0x13;
pub const V112_C2S_PLAYER_DIGGING: u8 = 0x14;
pub const V112_C2S_ENTITY_ACTION: u8 = 0x15;
pub const V112_C2S_HELD_ITEM_CHANGE: u8 = 0x1A;
pub const V112_C2S_CREATIVE_INV: u8 = 0x1B;
pub const V112_C2S_UPDATE_SIGN: u8 = 0x1C;
pub const V112_C2S_ANIMATION: u8 = 0x1D;
pub const V112_C2S_PLAYER_BLOCK_PLACEMENT: u8 = 0x1F;
pub const V112_C2S_USE_ITEM: u8 = 0x20;

pub const V164_C2S_KEEP_ALIVE: u8 = 0x00;
pub const V164_C2S_CHAT: u8 = 0x03;
pub const V164_C2S_USE_ENTITY: u8 = 0x07;
pub const V164_C2S_MOVE_PLAYER_POS: u8 = 0x0B;
pub const V164_C2S_MOVE_PLAYER_ROT: u8 = 0x0C;
pub const V164_C2S_PLAYER_POS_LOOK: u8 = 0x0D;
pub const V164_C2S_PLAYER_DIGGING: u8 = 0x0E;
pub const V164_C2S_PLAYER_BLOCK_PLACEMENT: u8 = 0x0F;
pub const V164_C2S_HELD_ITEM_CHANGE: u8 = 0x10;
pub const V164_C2S_ANIMATION: u8 = 0x12;
pub const V164_C2S_ENTITY_ACTION: u8 = 0x13;
pub const V164_C2S_STEER_VEHICLE: u8 = 0x1B;
pub const V164_C2S_CLOSE_WINDOW: u8 = 0x65;
pub const V164_C2S_WINDOW_CLICK: u8 = 0x66;
pub const V164_C2S_CONFIRM_TRANSACTION: u8 = 0x6A;
pub const V164_C2S_CREATIVE_INV: u8 = 0x6B;
pub const V164_C2S_ENCHANT_ITEM: u8 = 0x6C;
pub const V164_C2S_UPDATE_SIGN: u8 = 0x82;
pub const V164_C2S_PLAYER_ABILITIES: u8 = 0xCA;
pub const V164_C2S_TAB_COMPLETE: u8 = 0xCB;
pub const V164_C2S_CLIENT_SETTINGS: u8 = 0xCC;
pub const V164_C2S_CLIENT_COMMAND: u8 = 0xCD;
pub const V164_C2S_PLUGIN_MESSAGE: u8 = 0xFA;

pub const V112_S2C_SPAWN_OBJECT: u8 = 0x00;
pub const V112_S2C_SPAWN_EXP_ORB: u8 = 0x01;
pub const V112_S2C_SPAWN_GLOBAL: u8 = 0x02;
pub const V112_S2C_SPAWN_MOB: u8 = 0x03;
pub const V112_S2C_SPAWN_PAINTING: u8 = 0x04;
pub const V112_S2C_SPAWN_PLAYER: u8 = 0x05;
pub const V112_S2C_ANIMATION: u8 = 0x06;
pub const V112_S2C_STATISTICS: u8 = 0x07;
pub const V112_S2C_BLOCK_BREAK_ANIM: u8 = 0x08;
pub const V112_S2C_TILE_ENTITY_DATA: u8 = 0x09;
pub const V112_S2C_BLOCK_ACTION: u8 = 0x0A;
pub const V112_S2C_BLOCK_CHANGE: u8 = 0x0B;
pub const V112_S2C_TAB_COMPLETE: u8 = 0x0E;
pub const V112_S2C_CHAT: u8 = 0x0F;
pub const V112_S2C_CONFIRM_TRANSACTION: u8 = 0x11;
pub const V112_S2C_CLOSE_WINDOW: u8 = 0x12;
pub const V112_S2C_OPEN_WINDOW: u8 = 0x13;
pub const V112_S2C_WINDOW_ITEMS: u8 = 0x14;
pub const V112_S2C_WINDOW_PROPERTY: u8 = 0x15;
pub const V112_S2C_SET_SLOT: u8 = 0x16;
pub const V112_S2C_PLUGIN_MESSAGE: u8 = 0x18;
pub const V112_S2C_NAMED_SOUND: u8 = 0x19;
pub const V112_S2C_DISCONNECT: u8 = 0x1A;
pub const V112_S2C_ENTITY_STATUS: u8 = 0x1B;
pub const V112_S2C_EXPLOSION: u8 = 0x1C;
pub const V112_S2C_GAME_STATE: u8 = 0x1E;
pub const V112_S2C_KEEP_ALIVE: u8 = 0x1F;
pub const V112_S2C_EFFECT: u8 = 0x21;
pub const V112_S2C_PARTICLE: u8 = 0x22;
pub const V112_S2C_JOIN_GAME: u8 = 0x23;
pub const V112_S2C_ENTITY: u8 = 0x25;
pub const V112_S2C_ENTITY_REL_MOVE: u8 = 0x26;
pub const V112_S2C_ENTITY_LOOK_REL_MOVE: u8 = 0x27;
pub const V112_S2C_ENTITY_LOOK: u8 = 0x28;
pub const V112_S2C_OPEN_SIGN_EDITOR: u8 = 0x2A;
pub const V112_S2C_PLAYER_ABILITIES: u8 = 0x2C;
pub const V112_S2C_PLAYER_POS_LOOK: u8 = 0x2F;
pub const V112_S2C_DESTROY_ENTITIES: u8 = 0x32;
pub const V112_S2C_REMOVE_ENTITY_EFFECT: u8 = 0x33;
pub const V112_S2C_RESPAWN: u8 = 0x35;
pub const V112_S2C_ENTITY_HEAD_LOOK: u8 = 0x36;
pub const V112_S2C_HELD_ITEM_CHANGE: u8 = 0x3A;
pub const V112_S2C_DISPLAY_SCOREBOARD: u8 = 0x3B;
pub const V112_S2C_ENTITY_METADATA: u8 = 0x3C;
pub const V112_S2C_ATTACH_ENTITY: u8 = 0x3D;
pub const V112_S2C_ENTITY_VELOCITY: u8 = 0x3E;
pub const V112_S2C_ENTITY_EQUIPMENT: u8 = 0x3F;
pub const V112_S2C_SET_EXPERIENCE: u8 = 0x40;
pub const V112_S2C_UPDATE_HEALTH: u8 = 0x41;
pub const V112_S2C_SCOREBOARD_OBJ: u8 = 0x42;
pub const V112_S2C_TEAMS: u8 = 0x44;
pub const V112_S2C_UPDATE_SCORE: u8 = 0x45;
pub const V112_S2C_SPAWN_POSITION: u8 = 0x46;
pub const V112_S2C_TIME_UPDATE: u8 = 0x47;
pub const V112_S2C_COLLECT_ITEM: u8 = 0x4B;
pub const V112_S2C_ENTITY_TELEPORT: u8 = 0x4C;
pub const V112_S2C_ENTITY_PROPERTIES: u8 = 0x4E;
pub const V112_S2C_ENTITY_EFFECT: u8 = 0x4F;

pub const V164_S2C_KEEP_ALIVE: u8 = 0x00;
pub const V164_S2C_LOGIN_REQUEST: u8 = 0x01;
pub const V164_S2C_CHAT: u8 = 0x03;
pub const V164_S2C_TIME_UPDATE: u8 = 0x04;
pub const V164_S2C_SPAWN_POSITION: u8 = 0x06;
pub const V164_S2C_UPDATE_HEALTH: u8 = 0x08;
pub const V164_S2C_RESPAWN: u8 = 0x09;
pub const V164_S2C_PLAYER_POS_LOOK: u8 = 0x0D;
pub const V164_S2C_HELD_ITEM_CHANGE: u8 = 0x10;
pub const V164_S2C_ANIMATION: u8 = 0x12;
pub const V164_S2C_SPAWN_PLAYER: u8 = 0x14;
pub const V164_S2C_COLLECT_ITEM: u8 = 0x16;
pub const V164_S2C_SPAWN_OBJECT: u8 = 0x17;
pub const V164_S2C_SPAWN_MOB: u8 = 0x18;
pub const V164_S2C_SPAWN_PAINTING: u8 = 0x19;
pub const V164_S2C_SPAWN_EXP_ORB: u8 = 0x1A;
pub const V164_S2C_ENTITY_VELOCITY: u8 = 0x1C;
pub const V164_S2C_DESTROY_ENTITIES: u8 = 0x1D;
pub const V164_S2C_ENTITY: u8 = 0x1E;
pub const V164_S2C_ENTITY_REL_MOVE: u8 = 0x1F;
pub const V164_S2C_ENTITY_LOOK: u8 = 0x20;
pub const V164_S2C_ENTITY_LOOK_REL_MOVE: u8 = 0x21;
pub const V164_S2C_ENTITY_TELEPORT: u8 = 0x22;
pub const V164_S2C_ENTITY_HEAD_LOOK: u8 = 0x23;
pub const V164_S2C_ENTITY_STATUS: u8 = 0x26;
pub const V164_S2C_ATTACH_ENTITY: u8 = 0x27;
pub const V164_S2C_ENTITY_METADATA: u8 = 0x28;
pub const V164_S2C_ENTITY_EFFECT: u8 = 0x29;
pub const V164_S2C_REMOVE_ENTITY_EFFECT: u8 = 0x2A;
pub const V164_S2C_SET_EXPERIENCE: u8 = 0x2B;
pub const V164_S2C_ENTITY_PROPERTIES: u8 = 0x2C;
pub const V164_S2C_BLOCK_CHANGE: u8 = 0x35;
pub const V164_S2C_BLOCK_ACTION: u8 = 0x36;
pub const V164_S2C_BLOCK_BREAK_ANIM: u8 = 0x37;
pub const V164_S2C_EXPLOSION: u8 = 0x3C;
pub const V164_S2C_EFFECT: u8 = 0x3D;
pub const V164_S2C_GAME_STATE: u8 = 0x46;
pub const V164_S2C_SPAWN_GLOBAL: u8 = 0x47;
pub const V164_S2C_OPEN_WINDOW: u8 = 0x64;
pub const V164_S2C_CLOSE_WINDOW: u8 = 0x65;
pub const V164_S2C_SET_SLOT: u8 = 0x67;
pub const V164_S2C_WINDOW_ITEMS: u8 = 0x68;
pub const V164_S2C_WINDOW_PROPERTY: u8 = 0x69;
pub const V164_S2C_CONFIRM_TRANSACTION: u8 = 0x6A;
pub const V164_S2C_TILE_ENTITY_DATA: u8 = 0x84;
pub const V164_S2C_OPEN_SIGN_EDITOR: u8 = 0x85;
pub const V164_S2C_STATISTIC: u8 = 0xC8;
pub const V164_S2C_PLAYER_ABILITIES: u8 = 0xCA;
pub const V164_S2C_TAB_COMPLETE: u8 = 0xCB;
pub const V164_S2C_SCOREBOARD_OBJ: u8 = 0xCE;
pub const V164_S2C_UPDATE_SCORE: u8 = 0xCF;
pub const V164_S2C_DISPLAY_SCOREBOARD: u8 = 0xD0;
pub const V164_S2C_TEAMS: u8 = 0xD1;
pub const V164_S2C_PLUGIN_MESSAGE: u8 = 0xFA;
pub const V164_S2C_DISCONNECT: u8 = 0xFF;

/// A number held between 0 and 32767.
pub open spec fn spec_clamped(x: i32) -> i16 {
    if x < 0 {
        0
    } else if x > 0x7FFF {
        0x7FFF
    } else {
        x as i16
    }
}

fn clamped(x: i32) -> (r: i16)
    ensures
        r == spec_clamped(x),
{
    if x < 0 {
        0
    } else if x > 0x7FFF {
        0x7FFF
    } else {
        x as i16
    }
}

/// The block id in a block state: all but its low four bits, held between 0 and 32767.
pub open spec fn spec_legacy_block_id(state: i32) -> i16 {
    if state < 0 {
        0
    } else if state / 16 > 0x7FFF {
        0x7FFF
    } else {
        (state / 16) as i16
    }
}

fn legacy_block_id(state: i32) -> (r: i16)
    ensures
        r == spec_legacy_block_id(state),
{
    if state < 0 {
        0
    } else if state / 16 > 0x7FFF {
        0x7FFF
    } else {
        (state / 16) as i16
    }
}

/// The number of a window kind, 0 where the name is unknown.
pub open spec fn spec_window_number(name: Seq<char>) -> u8 {
    if name == "minecraft:crafting_table"@ {
        1
    } else if name == "minecraft:furnace"@ {
        2
    } else if name == "minecraft:dispenser"@ {
        3
    } else if name == "minecraft:enchanting_table"@ {
        4
    } else if name == "minecraft:brewing_stand"@ {
        5
    } else if name == "minecraft:villager"@ {
        6
    } else if name == "minecraft:beacon"@ {
        7
    } else if name == "minecraft:anvil"@ {
        8
    } else if name == "minecraft:hopper"@ {
        9
    } else if name == "minecraft:dropper"@ {
        10
    } else if name == "EntityHorse"@ {
        11
    } else {
        0
    }
}

fn window_number(name: &String) -> (n: u8)
    ensures
        n == spec_window_number(name@),
{
    if is_text(name, "minecraft:crafting_table") {
        1
    } else if is_text(name, "minecraft:furnace") {
        2
    } else if is_text(name, "minecraft:dispenser") {
        3
    } else if is_text(name, "minecraft:enchanting_table") {
        4
    } else if is_text(name, "minecraft:brewing_stand") {
        5
    } else if is_text(name, "minecraft:villager") {
        6
    } else if is_text(name, "minecraft:beacon") {
        7
    } else if is_text(name, "minecraft:anvil") {
        8
    } else if is_text(name, "minecraft:hopper") {
        9
    } else if is_text(name, "minecraft:dropper") {
        10
    } else if is_text(name, "EntityHorse") {
        11
    } else {
        0
    }
}

/// Animation: every animation is a swing of the arm of entity 0.
pub open spec fn spec_c2s_animation(b: Seq<u8>) -> Outcome {
    converted(V164_C2S_ANIMATION, be_i32(0) + be_i8(1))
}

fn c2s_animation(_body: Bytes) -> (res: ConversionResult)
    ensures
        res@ == spec_c2s_animation(content(_body)),
{
    broadcast use empty_then;

    let mut out = Writer::new();
    out.i32(0);
    out.i8(1);
    emit(V164_C2S_ANIMATION, out)
}

/// How often a loop up to `n` runs.
pub open spec fn times(n: int) -> nat {
    if n > 0 {
        n as nat
    } else {
        0
    }
}

/// The `n` variable-length integers from `p` on, as 32 bits each, and the position behind
/// them. `None` where one does not read.
pub open spec fn varints_as_i32(b: Seq<u8>, p: int, n: nat) -> Option<(Seq<u8>, int)>
    decreases n,
{
    if n == 0 {
        Some((seq![], p))
    } else {
        match varints_as_i32(b, p, (n - 1) as nat) {
            Some((out, q)) => match varint_at(b, q) {
                Some((x, end)) => Some((out + be_i32(x), end)),
                None => None,
            },
            None => None,
        }
    }
}

/// DestroyEntities: count and ids change their encoding. More than 127 entities, or a
/// negative count, cannot be written and are dropped.
pub open spec fn spec_s2c_destroy_entities(b: Seq<u8>) -> Outcome {
    match varint_at(b, 0) {
        None => Outcome::Passthrough,
        Some((count, p)) => if count < 0 || count > 127 {
            Outcome::Drop
        } else {
            match varints_as_i32(b, p, count as nat) {
                None => Outcome::Passthrough,
                Some((ids, _)) => converted(V164_S2C_DESTROY_ENTITIES, be_i8(count as i8) + ids),
            }
        },
    }
}

/// Where `n` integers do not read, neither do more.
proof fn varints_fail(b: Seq<u8>, p: int, n: nat, m: nat)
    requires
        varints_as_i32(b, p, n) is None,
        n <= m,
    ensures
        varints_as_i32(b, p, m) is None,
    decreases m,
{
    if n < m {
        varints_fail(b, p, n, (m - 1) as nat);
    }
}

fn s2c_destroy_entities(body: Bytes) -> (res: ConversionResult)
    ensures
        res@ == spec_s2c_destroy_entities(content(body)),
{
    broadcast use empty_then;

    let ghost b = content(body);
    let mut r = Reader::new(body);
    let count: i32 = match r.varint() {
        Some(v) => v,
        None => {
            return ConversionResult::Passthrough;
        },
    };
    if count < 0 || count > 127 {
        return ConversionResult::Drop;
    }
    let ghost p = r.at();
    let mut out = Writer::new();
    out.i8(count as i8);
    let ghost head = out@;
    assert(head + Seq::<u8>::empty() =~= head);
    let mut i: i32 = 0;
    while i < count
        invariant
            0 <= i <= count,
            r.valid(),
            r.all() == b,
            b == content(body),
            varint_at(b, 0) == Some((count, p)),
            0 <= count <= 127,
            varints_as_i32(b, p, i as nat) matches Some((ids, q)) && out@ == head + ids && r.at() == q,
        decreases count - i,
    {
        let ghost (had, _) = varints_as_i32(b, p, i as nat)->0;
        match r.varint() {
            Some(eid) => {
                out.i32(eid);
                assert(out@ =~= head + (had + be_i32(eid)));
            },
            None => {
                proof {
                    varints_fail(b, p, (i + 1) as nat, count as nat);
                }
                return ConversionResult::Passthrough;
            },
        }
        i = i + 1;
    }
    emit(V164_S2C_DESTROY_ENTITIES, out)
}

/// `n` statistics from `p` on, each a text and a variable-length integer, in the older
/// encoding, and the position behind them. `None` where one does not read.
pub open spec fn statistics_at(b: Seq<u8>, p: int, n: nat) -> Option<(Seq<u8>, int)>
    decreases n,
{
    if n == 0 {
        Some((seq![], p))
    } else {
        match statistics_at(b, p, (n - 1) as nat) {
            Some((out, q)) => match string_at(b, q) {
                Some((name, q1)) => match varint_at(b, q1) {
                    Some((value, end)) => Some((out + (ucs2_string(name) + be_i32(value)), end)),
                    None => None,
                },
                None => None,
            },
            None => None,
        }
    }
}

/// Statistics: names and values change their encoding.
pub open spec fn spec_s2c_statistics(b: Seq<u8>) -> Outcome {
    match varint_at(b, 0) {
        None => Outcome::Passthrough,
        Some((count, p)) => match statistics_at(b, p, times(count as int)) {
            None => Outcome::Passthrough,
            Some((entries, _)) => converted(V164_S2C_STATISTIC, be_i32(count) + entries),
        },
    }
}

/// Where `n` statistics do not read, neither do more.
proof fn statistics_fail(b: Seq<u8>, p: int, n: nat, m: nat)
    requires
        statistics_at(b, p, n) is None,
        n <= m,
    ensures
        statistics_at(b, p, m) is None,
    decreases m,
{
    if n < m {
        statistics_fail(b, p, n, (m - 1) as nat);
    }
}

fn s2c_statistics(body: Bytes) -> (res: ConversionResult)
    ensures
        res@ == spec_s2c_statistics(content(body)),
{
    broadcast use empty_then;

    let ghost b = content(body);
    let mut r = Reader::new(body);
    let count: i32 = match r.varint() {
        Some(v) => v,
        None => {
            return ConversionResult::Passthrough;
        },
    };
    let ghost p = r.at();
    let mut out = Writer::new();
    out.i32(count);
    let ghost head = out@;
    assert(head + Seq::<u8>::empty() =~= head);
    let mut i: i32 = 0;
    while i < count
        invariant
            0 <= i,
            i <= count || (i == 0 && count < 0),
            r.valid(),
            r.all() == b,
            b == content(body),
            varint_at(b, 0) == Some((count, p)),
            statistics_at(b, p, i as nat) matches Some((done, q)) && out@ == head + done && r.at() == q,
        decreases count - i,
    {
        let ghost (had, _) = statistics_at(b, p, i as nat)->0;
        let name: String = match r.string() {
            Some(s) => s,
            None => {
                proof {
                    statistics_fail(b, p, (i + 1) as nat, times(count as int));
                }
                return ConversionResult::Passthrough;
            },
        };
        let value: i32 = match r.varint() {
            Some(v) => v,
            None => {
                proof {
                    statistics_fail(b, p, (i + 1) as nat, times(count as int));
                }
                return ConversionResult::Passthrough;
            },
        };
        out.ucs2(name.as_str());
        out.i32(value);
        assert(out@ =~= head + (had + (ucs2_string(name@) + be_i32(value))));
        i = i + 1;
    }
    emit(V164_S2C_STATISTIC, out)
}

/// `n` empty slots.
pub open spec fn empty_slots(n: nat) -> Seq<u8>
    decreases n,
{
    if n == 0 {
        seq![]
    } else {
        empty_slots((n - 1) as nat) + be_i16(-1i16)
    }
}

/// WindowItems: every slot is empty.
pub open spec fn spec_s2c_window_items(b: Seq<u8>) -> Outcome {
    if b.len() < 3 {
        Outcome::Passthrough
    } else {
        converted(
            V164_S2C_WINDOW_ITEMS,
            seq![b[0]] + be_i16(i16_at(b, 1)) + empty_slots(times(i16_at(b, 1) as int)),
        )
    }
}

fn s2c_window_items(body: Bytes) -> (res: ConversionResult)
    ensures
        res@ == spec_s2c_window_items(content(body)),
{
    broadcast use empty_then;

    let mut r = Reader::new(body);
    if !r.has(3) {
        return ConversionResult::Passthrough;
    }
    let window_id: u8 = r.get_u8();
    let count: i16 = r.get_i16();
    let mut out = Writer::new();
    out.u8(window_id);
    out.i16(count);
    let ghost head = out@;
    assert(head + empty_slots(0) =~= head);
    let mut i: i16 = 0;
    while i < count
        invariant
            0 <= i,
            i <= count || (i == 0 && count < 0),
            out@ == head + empty_slots(i as nat),
        decreases count - i,
    {
        out.i16(-1);
        i = i + 1;
        assert(out@ =~= head + empty_slots(i as nat));
    }
    emit(V164_S2C_WINDOW_ITEMS, out)
}

/// The `n` texts from `p` on, with a zero character between each two of them, and the
/// position behind them. `None` where one does not read.
pub open spec fn joined_texts(b: Seq<u8>, p: int, n: nat) -> Option<(Seq<char>, int)>
    decreases n,
{
    if n == 0 {
        Some((seq![], p))
    } else {
        match joined_texts(b, p, (n - 1) as nat) {
            Some((out, q)) => match string_at(b, q) {
                Some((s, end)) => Some((if n == 1 { s } else { out + "\0"@ + s }, end)),
                None => None,
            },
            None => None,
        }
    }
}

/// TabComplete: the suggestions become one text, with zero characters between them.
pub open spec fn spec_s2c_tab_complete(b: Seq<u8>) -> Outcome {
    match varint_at(b, 0) {
        None => Outcome::Passthrough,
        Some((count, p)) => match joined_texts(b, p, times(count as int)) {
            None => Outcome::Passthrough,
            Some((all, _)) => converted(V164_S2C_TAB_COMPLETE, ucs2_string(all)),
        },
    }
}

/// Where `n` texts do not read, neither do more.
proof fn texts_fail(b: Seq<u8>, p: int, n: nat, m: nat)
    requires
        joined_texts(b, p, n) is None,
        n <= m,
    ensures
        joined_texts(b, p, m) is None,
    decreases m,
{
    if n < m {
        texts_fail(b, p, n, (m - 1) as nat);
    }
}

fn s2c_tab_complete(body: Bytes) -> (res: ConversionResult)
    ensures
        res@ == spec_s2c_tab_complete(content(body)),
{
    broadcast use empty_then;

    let ghost b = content(body);
    let mut r = Reader::new(body);
    let count: i32 = match r.varint() {
        Some(v) => v,
        None => {
            return ConversionResult::Passthrough;
        },
    };
    let ghost p = r.at();
    let mut all = String::new();
    let mut i: i32 = 0;
    while i < count
        invariant
            0 <= i,
            i <= count || (i == 0 && count < 0),
            r.valid(),
            r.all() == b,
            b == content(body),
            varint_at(b, 0) == Some((count, p)),
            joined_texts(b, p, i as nat) matches Some((done, q)) && all@ == done && r.at() == q,
        decreases count - i,
    {
        match r.string() {
            Some(s) => {
                if i == 0 {
                    all = s;
                } else {
                    all.append("\0");
                    all.append(s.as_str());
                }
            },
            None => {
                proof {
                    texts_fail(b, p, (i + 1) as nat, times(count as int));
                }
                return ConversionResult::Passthrough;
            },
        }
        i = i + 1;
    }
    let mut out = Writer::new();
    out.ucs2(all.as_str());
    emit(V164_S2C_TAB_COMPLETE, out)
}

/// `n` member names from `p` on, in the older encoding, and the position behind them. A name
/// that does not read is empty.
pub open spec fn members_at(b: Seq<u8>, p: int, n: nat) -> (Seq<u8>, int)
    decreases n,
{
    if n == 0 {
        (seq![], p)
    } else {
        let (out, q) = members_at(b, p, (n - 1) as nat);
        let (name, end) = string_or_empty(b, q);
        (out + ucs2_string(name), end)
    }
}

/// What a team packet carries of the team itself, behind `p`: display name, prefix and
/// suffix, the flags, the colour and the flags again. The name tag and collision rules are
/// passed over.
pub open spec fn team_details(b: Seq<u8>, p: int) -> (Seq<u8>, int) {
    let (display, p1) = string_or_empty(b, p);
    let (prefix, p2) = string_or_empty(b, p1);
    let (suffix, p3) = string_or_empty(b, p2);
    let (flags, p4) = u8_or(b, p3, 0);
    let (_, p5) = string_or_empty(b, p4);
    let (_, p6) = string_or_empty(b, p5);
    let (color, p7) = u8_or(b, p6, 0);
    (
        ucs2_string(display) + ucs2_string(prefix) + ucs2_string(suffix) + seq![flags] + seq![color]
            + seq![flags],
        p7,
    )
}

/// Teams: creation and update carry the details, creation and membership changes the
/// members.
pub open spec fn spec_s2c_teams(b: Seq<u8>) -> Outcome {
    match string_at(b, 0) {
        None => Outcome::Passthrough,
        Some((name, p)) => {
            let (mode, p1) = u8_or(b, p, 0);
            let (details, p2) = if mode == 0 || mode == 2 {
                team_details(b, p1)
            } else {
                (seq![], p1)
            };
            let members = if mode == 0 || mode == 3 || mode == 4 {
                let (count, p3) = varint_or(b, p2, 0);
                varint(count) + members_at(b, p3, times(count as int)).0
            } else {
                seq![]
            };
            converted(V164_S2C_TEAMS, ucs2_string(name) + seq![mode] + details + members)
        },
    }
}

fn put_team_details(r: &mut Reader, out: &mut Writer)
    requires
        old(r).valid(),
    ensures
        final(r).valid(),
        final(r).all() == old(r).all(),
        final(out)@ == old(out)@ + team_details(old(r).all(), old(r).at()).0,
        final(r).at() == team_details(old(r).all(), old(r).at()).1,
{
    let ghost before = out@;
    let ghost (b, p) = (r.all(), r.at());
    let display: String = r.string_or_empty();
    let prefix: String = r.string_or_empty();
    let suffix: String = r.string_or_empty();
    let flags: u8 = r.u8_or(0);
    let _name_tags: String = r.string_or_empty();
    let _collisions: String = r.string_or_empty();
    let color: u8 = r.u8_or(0);
    out.ucs2(display.as_str());
    out.ucs2(prefix.as_str());
    out.ucs2(suffix.as_str());
    out.u8(flags);
    out.u8(color);
    out.u8(flags);
    assert(out@ =~= before + team_details(b, p).0);
}

fn put_members(r: &mut Reader, out: &mut Writer)
    requires
        old(r).valid(),
    ensures
        final(r).valid(),
        final(out)@ == old(out)@ + {
            let (count, p) = varint_or(old(r).all(), old(r).at(), 0);
            varint(count) + members_at(old(r).all(), p, times(count as int)).0
        },
{
    let ghost before = out@;
    let ghost b = r.all();
    let count: i32 = r.varint_or(0);
    let ghost p = r.at();
    out.varint(count);
    let ghost head = out@;
    assert(head + Seq::<u8>::empty() =~= head);
    let mut i: i32 = 0;
    while i < count
        invariant
            0 <= i,
            i <= count || (i == 0 && count < 0),
            r.valid(),
            r.all() == b,
            out@ == head + members_at(b, p, i as nat).0,
            r.at() == members_at(b, p, i as nat).1,
        decreases count - i,
    {
        let ghost had = members_at(b, p, i as nat).0;
        let name: String = r.string_or_empty();
        out.ucs2(name.as_str());
        i = i + 1;
        assert(out@ =~= head + (had + ucs2_string(name@)));
    }
    assert(out@ =~= before + (varint(count) + members_at(b, p, times(count as int)).0));
}

fn s2c_teams(body: Bytes) -> (res: ConversionResult)
    ensures
        res@ == spec_s2c_teams(content(body)),
{
    broadcast use empty_then;

    let ghost b = content(body);
    let mut r = Reader::new(body);
    let name: String = match r.string() {
        Some(s) => s,
        None => {
            return ConversionResult::Passthrough;
        },
    };
    let mode: u8 = r.u8_or(0);
    let mut out = Writer::new();
    out.ucs2(name.as_str());
    out.u8(mode);
    let ghost head = out@;
    if mode == 0 || mode == 2 {
        put_team_details(&mut r, &mut out);
    } else {
        assert(head + Seq::<u8>::empty() =~= head);
    }
    let ghost with_details = out@;
    if mode == 0 || mode == 3 || mode == 4 {
        put_members(&mut r, &mut out);
    } else {
        assert(with_details + Seq::<u8>::empty() =~= with_details);
    }
    emit(V164_S2C_TEAMS, out)
}

/// A modifier of an attribute at `q`, and the position behind it. What is missing is 0.
pub open spec fn modifier_at(b: Seq<u8>, q: int) -> (Seq<u8>, int) {
    let (hi, q1) = u64_or(b, q, 0);
    let (lo, q2) = u64_or(b, q1, 0);
    let (amount, q3) = u64_or(b, q2, 0);
    let (operation, end) = i8_or(b, q3, 0);
    (be64(hi) + be64(lo) + be64(amount) + be_i8(operation), end)
}

/// `n` modifiers of an attribute from `p` on, and the position behind them. What is missing
/// is 0.
pub open spec fn modifiers_at(b: Seq<u8>, p: int, n: nat) -> (Seq<u8>, int)
    decreases n,
{
    if n == 0 {
        (seq![], p)
    } else {
        let (out, q) = modifiers_at(b, p, (n - 1) as nat);
        let (modifier, end) = modifier_at(b, q);
        (out + modifier, end)
    }
}

/// An attribute at `q`, and the position behind it. `None` where its key or its value does
/// not read.
pub open spec fn attribute_at(b: Seq<u8>, q: int) -> Option<(Seq<u8>, int)> {
    match string_at(b, q) {
        Some((key, q1)) => if b.len() < q1 + 8 {
            None
        } else {
            let (count, q2) = varint_or(b, q1 + 8, 0);
            let (modifiers, end) = modifiers_at(b, q2, times(count as int));
            Some(
                (
                    wire_string(key) + be64(u64_at(b, q1)) + be_i16(spec_clamped(count)) + modifiers,
                    end,
                ),
            )
        },
        None => None,
    }
}

/// `n` attributes from `p` on, and the position behind them. `None` where one does not read.
pub open spec fn attributes_at(b: Seq<u8>, p: int, n: nat) -> Option<(Seq<u8>, int)>
    decreases n,
{
    if n == 0 {
        Some((seq![], p))
    } else {
        match attributes_at(b, p, (n - 1) as nat) {
            Some((out, q)) => match attribute_at(b, q) {
                Some((one, end)) => Some((out + one, end)),
                None => None,
            },
            None => None,
        }
    }
}

/// EntityProperties: the id becomes 32 bits, and each modifier count 16 bits, held between 0
/// and 32767.
pub open spec fn spec_s2c_entity_properties(b: Seq<u8>) -> Outcome {
    match varint_at(b, 0) {
        None => Outcome::Passthrough,
        Some((eid, p)) => if b.len() < p + 4 {
            Outcome::Passthrough
        } else {
            match attributes_at(b, p + 4, times(i32_at(b, p) as int)) {
                None => Outcome::Passthrough,
                Some((attributes, _)) => converted(
                    V164_S2C_ENTITY_PROPERTIES,
                    be_i32(eid) + be_i32(i32_at(b, p)) + attributes,
                ),
            }
        },
    }
}

/// Where `n` attributes do not read, neither do more.
proof fn attributes_fail(b: Seq<u8>, p: int, n: nat, m: nat)
    requires
        attributes_at(b, p, n) is None,
        n <= m,
    ensures
        attributes_at(b, p, m) is None,
    decreases m,
{
    if n < m {
        attributes_fail(b, p, n, (m - 1) as nat);
    }
}

fn put_modifier(r: &mut Reader, out: &mut Writer)
    requires
        old(r).valid(),
    ensures
        final(r).valid(),
        final(r).all() == old(r).all(),
        final(out)@ == old(out)@ + modifier_at(old(r).all(), old(r).at()).0,
        final(r).at() == modifier_at(old(r).all(), old(r).at()).1,
{
    let ghost head = out@;
    let hi: u64 = r.u64_or(0);
    let lo: u64 = r.u64_or(0);
    let amount: u64 = r.u64_or(0);
    let operation: i8 = r.i8_or(0);
    out.u64(hi);
    out.u64(lo);
    out.u64(amount);
    out.i8(operation);
    proof {
        let (a, c, d, e) = (be64(hi), be64(lo), be64(amount), be_i8(operation));
        assert(head + a + c + d + e =~= head + (a + c + d + e));
    }
}

fn put_modifiers(r: &mut Reader, out: &mut Writer, count: i32)
    requires
        old(r).valid(),
    ensures
        final(r).valid(),
        final(r).all() == old(r).all(),
        final(out)@ == old(out)@ + modifiers_at(old(r).all(), old(r).at(), times(count as int)).0,
        final(r).at() == modifiers_at(old(r).all(), old(r).at(), times(count as int)).1,
{
    let ghost head = out@;
    let ghost (b, p) = (r.all(), r.at());
    assert(head + Seq::<u8>::empty() =~= head);
    let mut i: i32 = 0;
    while i < count
        invariant
            0 <= i,
            i <= count || (i == 0 && count < 0),
            r.valid(),
            r.all() == b,
            out@ == head + modifiers_at(b, p, i as nat).0,
            r.at() == modifiers_at(b, p, i as nat).1,
        decreases count - i,
    {
        let ghost had = modifiers_at(b, p, i as nat).0;
        let ghost (one, _) = modifier_at(b, r.at());
        put_modifier(r, out);
        i = i + 1;
        assert(out@ =~= head + (had + one));
    }
}

fn put_attribute(r: &mut Reader, out: &mut Writer) -> (ok: bool)
    requires
        old(r).valid(),
    ensures
        final(r).valid(),
        final(r).all() == old(r).all(),
        match attribute_at(old(r).all(), old(r).at()) {
            Some((one, end)) => ok && final(r).at() == end && final(out)@ == old(out)@ + one,
            None => !ok,
        },
{
    let ghost (head, b) = (out@, r.all());
    let key: String = match r.string() {
        Some(s) => s,
        None => {
            return false;
        },
    };
    if !r.has(8) {
        return false;
    }
    let value: u64 = r.get_u64();
    let modifiers: i32 = r.varint_or(0);
    let ghost (list, _) = modifiers_at(b, r.at(), times(modifiers as int));
    out.string(key.as_str());
    out.u64(value);
    out.i16(clamped(modifiers));
    put_modifiers(r, out, modifiers);
    proof {
        let (a, c, d) = (wire_string(key@), be64(value), be_i16(spec_clamped(modifiers)));
        assert(head + a + c + d + list =~= head + (a + c + d + list));
    }
    true
}

fn s2c_entity_properties(body: Bytes) -> (res: ConversionResult)
    ensures
        res@ == spec_s2c_entity_properties(content(body)),
{
    broadcast use empty_then;

    let ghost b = content(body);
    let mut r = Reader::new(body);
    let eid: i32 = match r.varint() {
        Some(v) => v,
        None => {
            return ConversionResult::Passthrough;
        },
    };
    let ghost p = r.at();
    if !r.has(4) {
        return ConversionResult::Passthrough;
    }
    let count: i32 = r.get_i32();
    let mut out = Writer::new();
    out.i32(eid);
    out.i32(count);
    let ghost head = out@;
    assert(head + Seq::<u8>::empty() =~= head);
    let mut i: i32 = 0;
    while i < count
        invariant
            0 <= i,
            i <= count || (i == 0 && count < 0),
            r.valid(),
            r.all() == b,
            b == content(body),
            varint_at(b, 0) == Some((eid, p)),
            p + 4 <= b.len(),
            count == i32_at(b, p),
            attributes_at(b, p + 4, i as nat) matches Some((done, q)) && out@ == head + done && r.at()
                == q,
        decreases count - i,
    {
        let ghost (had, q) = attributes_at(b, p + 4, i as nat)->0;
        if !put_attribute(&mut r, &mut out) {
            proof {
                attributes_fail(b, p + 4, (i + 1) as nat, times(count as int));
            }
            return ConversionResult::Passthrough;
        }
        i = i + 1;
        proof {
            let (one, _) = attribute_at(b, q)->0;
            assert(out@ =~= head + (had + one));
        }
    }
    emit(V164_S2C_ENTITY_PROPERTIES, out)
}

/// `n` block offsets of an explosion from `p` on, three bytes each, and the position behind
/// them. What is missing is 0.
pub open spec fn offsets_at(b: Seq<u8>, p: int, n: nat) -> (Seq<u8>, int)
    decreases n,
{
    if n == 0 {
        (seq![], p)
    } else {
        let (out, q) = offsets_at(b, p, (n - 1) as nat);
        let (dx, q1) = i8_or(b, q, 0);
        let (dy, q2) = i8_or(b, q1, 0);
        let (dz, end) = i8_or(b, q2, 0);
        (out + (be_i8(dx) + be_i8(dy) + be_i8(dz)), end)
    }
}

/// Explosion: the count becomes 32 bits. What is missing behind it is 0.
pub open spec fn spec_s2c_explosion(b: Seq<u8>) -> Outcome {
    if b.len() < 16 {
        Outcome::Passthrough
    } else {
        match varint_at(b, 16) {
            None => Outcome::Passthrough,
            Some((count, p)) => {
                let (offsets, q) = offsets_at(b, p, times(count as int));
                let (mx, q1) = u32_or(b, q, 0);
                let (my, q2) = u32_or(b, q1, 0);
                let (mz, _) = u32_or(b, q2, 0);
                converted(
                    V164_S2C_EXPLOSION,
                    be32(u32_at(b, 0)) + be32(u32_at(b, 4)) + be32(u32_at(b, 8)) + be32(u32_at(b, 12))
                        + be_i32(count) + offsets + be32(mx) + be32(my) + be32(mz),
                )
            },
        }
    }
}

fn put_offsets(r: &mut Reader, out: &mut Writer, count: i32)
    requires
        old(r).valid(),
    ensures
        final(r).valid(),
        final(r).all() == old(r).all(),
        final(out)@ == old(out)@ + offsets_at(old(r).all(), old(r).at(), times(count as int)).0,
        final(r).at() == offsets_at(old(r).all(), old(r).at(), times(count as int)).1,
{
    let ghost head = out@;
    let ghost (b, p) = (r.all(), r.at());
    assert(head + Seq::<u8>::empty() =~= head);
    let mut i: i32 = 0;
    while i < count
        invariant
            0 <= i,
            i <= count || (i == 0 && count < 0),
            r.valid(),
            r.all() == b,
            out@ == head + offsets_at(b, p, i as nat).0,
            r.at() == offsets_at(b, p, i as nat).1,
        decreases count - i,
    {
        let ghost had = offsets_at(b, p, i as nat).0;
        let dx: i8 = r.i8_or(0);
        let dy: i8 = r.i8_or(0);
        let dz: i8 = r.i8_or(0);
        out.i8(dx);
        out.i8(dy);
        out.i8(dz);
        i = i + 1;
        assert(out@ =~= head + (had + (be_i8(dx) + be_i8(dy) + be_i8(dz))));
    }
}

fn s2c_explosion(body: Bytes) -> (res: ConversionResult)
    ensures
        res@ == spec_s2c_explosion(content(body)),
{
    broadcast use empty_then;

    let mut r = Reader::new(body);
    if !r.has(16) {
        return ConversionResult::Passthrough;
    }
    let x: u32 = r.get_u32();
    let y: u32 = r.get_u32();
    let z: u32 = r.get_u32();
    let radius: u32 = r.get_u32();
    let count: i32 = match r.varint() {
        Some(v) => v,
        None => {
            return ConversionResult::Passthrough;
        },
    };
    let mut out = Writer::new();
    out.u32(x);
    out.u32(y);
    out.u32(z);
    out.u32(radius);
    out.i32(count);
    put_offsets(&mut r, &mut out, count);
    let mx: u32 = r.u32_or(0);
    let my: u32 = r.u32_or(0);
    let mz: u32 = r.u32_or(0);
    out.u32(mx);
    out.u32(my);
    out.u32(mz);
    emit(V164_S2C_EXPLOSION, out)
}

/// Whether a packet toward the server has no counterpart in 1.6.4.
pub open spec fn spec_unknown_to_old_server(id: u8) -> bool {
    id == 0x10 || id == 0x11 || id == 0x12 || id == 0x17 || id == 0x18 || id == 0x19 || id == 0x1E
}

fn unknown_to_old_server(id: u8) -> (r: bool)
    ensures
        r == spec_unknown_to_old_server(id),
{
    id == 0x10 || id == 0x11 || id == 0x12 || id == 0x17 || id == 0x18 || id == 0x19 || id == 0x1E
}

/// Whether a packet toward the client came after 1.6.4 and has no counterpart there.
pub open spec fn spec_unknown_to_old_client(id: u8) -> bool {
    id == 0x0C || id == 0x0D || id == 0x17 || id == 0x1D || id == 0x29 || id == 0x2B || id == 0x2D
        || id == 0x30 || id == 0x31 || id == 0x34 || id == 0x37 || id == 0x38 || id == 0x39 || id == 0x43
        || id == 0x48 || id == 0x49 || id == 0x4A || id == 0x4D
}

fn unknown_to_old_client(id: u8) -> (r: bool)
    ensures
        r == spec_unknown_to_old_client(id),
{
    id == 0x0C || id == 0x0D || id == 0x17 || id == 0x1D || id == 0x29 || id == 0x2B || id == 0x2D
        || id == 0x30 || id == 0x31 || id == 0x34 || id == 0x37 || id == 0x38 || id == 0x39 || id == 0x43
        || id == 0x48 || id == 0x49 || id == 0x4A || id == 0x4D
}

/// KeepAlive: the id keeps its low 32 bits.
pub open spec fn spec_c2s_keep_alive(b: Seq<u8>) -> Outcome {
    if b.len() < 8 {
        Outcome::Passthrough
    } else {
        converted(V164_C2S_KEEP_ALIVE, be_i32(i64_at(b, 0) as i32))
    }
}

pub fn c2s_keep_alive(body: Bytes) -> (res: ConversionResult)
    ensures
        res@ == spec_c2s_keep_alive(content(body)),
{
    broadcast use empty_then;

    let mut r = Reader::new(body);
    if !r.has(8) {
        return ConversionResult::Passthrough;
    }
    let id: i64 = r.get_i64();
    let mut out = Writer::new();
    out.i32(id as i32);
    emit(V164_C2S_KEEP_ALIVE, out)
}

/// Chat: the text is cut to the 100 characters that the older server takes.
pub open spec fn spec_c2s_chat(b: Seq<u8>) -> Outcome {
    match string_at(b, 0) {
        None => Outcome::Passthrough,
        Some((message, p)) => {
            converted(V164_C2S_CHAT, ucs2_string(first_chars(message, 100)))
        },
    }
}

pub fn c2s_chat(body: Bytes) -> (res: ConversionResult)
    ensures
        res@ == spec_c2s_chat(content(body)),
{
    broadcast use empty_then;

    let mut r = Reader::new(body);
    let message: String = match r.string() {
        Some(s) => s,
        None => {
            return ConversionResult::Passthrough;
        },
    };
    let mut out = Writer::new();
    out.ucs2(shortened(message.as_str(), 100));
    emit(V164_C2S_CHAT, out)
}

/// PlayerPositionAndLook: the stance is the height of the eyes, and the ground flag is 0
/// or 1.
pub open spec fn spec_c2s_player_pos_look(b: Seq<u8>) -> Outcome {
    if b.len() < 33 {
        Outcome::Passthrough
    } else {
        converted(
            V164_C2S_PLAYER_POS_LOOK,
            be64(u64_at(b, 0)) + be64(plus_eye_height(u64_at(b, 8))) + be64(u64_at(b, 8))
                + be64(u64_at(b, 16)) + be32(u32_at(b, 24)) + be32(u32_at(b, 28))
                + seq![if b[32] != 0 { 1u8 } else { 0u8 }],
        )
    }
}

pub fn c2s_player_pos_look(body: Bytes) -> (res: ConversionResult)
    ensures
        res@ == spec_c2s_player_pos_look(content(body)),
{
    broadcast use empty_then;

    let mut r = Reader::new(body);
    if !r.has(33) {
        return ConversionResult::Passthrough;
    }
    let x: u64 = r.get_u64();
    let y: u64 = r.get_u64();
    let z: u64 = r.get_u64();
    let yaw: u32 = r.get_u32();
    let pitch: u32 = r.get_u32();
    let on_ground: u8 = r.get_u8();
    let mut out = Writer::new();
    out.u64(x);
    out.u64(add_eye_height(y));
    out.u64(y);
    out.u64(z);
    out.u32(yaw);
    out.u32(pitch);
    out.u8(if on_ground != 0 { 1 } else { 0 });
    emit(V164_C2S_PLAYER_POS_LOOK, out)
}

/// PlayerDigging: the place is taken apart.
pub open spec fn spec_c2s_player_digging(b: Seq<u8>) -> Outcome {
    match varint_at(b, 0) {
        None => Outcome::Passthrough,
        Some((status, p)) => {
            if b.len() < p + 9 {
                Outcome::Passthrough
            } else {
                converted(
                    V164_C2S_PLAYER_DIGGING,
                    be_i8(status as i8) + be_i32(legacy_position_of(u64_at(b, p)).x)
                        + be_i8(legacy_position_of(u64_at(b, p)).y as i8)
                        + be_i32(legacy_position_of(u64_at(b, p)).z) + be_i8(i8_at(b, p + 8)),
                )
            }
        },
    }
}

pub fn c2s_player_digging(body: Bytes) -> (res: ConversionResult)
    ensures
        res@ == spec_c2s_player_digging(content(body)),
{
    broadcast use empty_then;

    let mut r = Reader::new(body);
    let status: i32 = match r.varint() {
        Some(v) => v,
        None => {
            return ConversionResult::Passthrough;
        },
    };
    if !r.has(9) {
        return ConversionResult::Passthrough;
    }
    let pos = decode_legacy_position(r.get_u64());
    let face: i8 = r.get_i8();
    let mut out = Writer::new();
    out.i8(status as i8);
    out.i32(pos.x);
    out.i8(pos.y as i8);
    out.i32(pos.z);
    out.i8(face);
    emit(V164_C2S_PLAYER_DIGGING, out)
}

/// HeldItemChange: the same field.
pub open spec fn spec_c2s_held_item_change(b: Seq<u8>) -> Outcome {
    if b.len() < 2 {
        Outcome::Passthrough
    } else {
        converted(V164_C2S_HELD_ITEM_CHANGE, be_i16(i16_at(b, 0)))
    }
}

pub fn c2s_held_item_change(body: Bytes) -> (res: ConversionResult)
    ensures
        res@ == spec_c2s_held_item_change(content(body)),
{
    broadcast use empty_then;

    let mut r = Reader::new(body);
    if !r.has(2) {
        return ConversionResult::Passthrough;
    }
    let slot: i16 = r.get_i16();
    let mut out = Writer::new();
    out.i16(slot);
    emit(V164_C2S_HELD_ITEM_CHANGE, out)
}

/// ClientSettings: the locale is cut to 16 characters, the chat mode stands for the chat
/// flags, the difficulty is 0 and the cape shows.
pub open spec fn spec_c2s_client_settings(b: Seq<u8>) -> Outcome {
    match string_at(b, 0) {
        None => Outcome::Passthrough,
        Some((locale, p)) => {
            if b.len() < p + 1 {
                Outcome::Passthrough
            } else {
                match varint_at(b, p + 1) {
                    None => Outcome::Passthrough,
                    Some((chat_mode, p2)) => {
                        if b.len() < p2 + 1 {
                            Outcome::Passthrough
                        } else {
                            converted(
                                V164_C2S_CLIENT_SETTINGS,
                                ucs2_string(first_chars(locale, 16)) + be_i8(i8_at(b, p)) + be_i8(chat_mode as i8) + be_i8(0)
                                    + seq![1u8],
                            )
                        }
                    },
                }
            }
        },
    }
}

pub fn c2s_client_settings(body: Bytes) -> (res: ConversionResult)
    ensures
        res@ == spec_c2s_client_settings(content(body)),
{
    broadcast use empty_then;

    let mut r = Reader::new(body);
    let locale: String = match r.string() {
        Some(s) => s,
        None => {
            return ConversionResult::Passthrough;
        },
    };
    if !r.has(1) {
        return ConversionResult::Passthrough;
    }
    let view_distance: i8 = r.get_i8();
    let chat_mode: i32 = match r.varint() {
        Some(v) => v,
        None => {
            return ConversionResult::Passthrough;
        },
    };
    if !r.has(1) {
        return ConversionResult::Passthrough;
    }
    let mut out = Writer::new();
    out.ucs2(shortened(locale.as_str(), 16));
    out.i8(view_distance);
    out.i8(chat_mode as i8);
    out.i8(0);
    out.u8(1);
    emit(V164_C2S_CLIENT_SETTINGS, out)
}

/// EntityAction: the jump boost is dropped.
pub open spec fn spec_c2s_entity_action(b: Seq<u8>) -> Outcome {
    match varint_at(b, 0) {
        None => Outcome::Passthrough,
        Some((entity_id, p)) => {
            match varint_at(b, p) {
                None => Outcome::Passthrough,
                Some((action, p2)) => {
                    converted(V164_C2S_ENTITY_ACTION, be_i32(entity_id) + be_i8(action as i8))
                },
            }
        },
    }
}

pub fn c2s_entity_action(body: Bytes) -> (res: ConversionResult)
    ensures
        res@ == spec_c2s_entity_action(content(body)),
{
    broadcast use empty_then;

    let mut r = Reader::new(body);
    let entity_id: i32 = match r.varint() {
        Some(v) => v,
        None => {
            return ConversionResult::Passthrough;
        },
    };
    let action: i32 = match r.varint() {
        Some(v) => v,
        None => {
            return ConversionResult::Passthrough;
        },
    };
    let mut out = Writer::new();
    out.i32(entity_id);
    out.i8(action as i8);
    emit(V164_C2S_ENTITY_ACTION, out)
}

/// ClientStatus: the action becomes a byte.
pub open spec fn spec_c2s_client_status(b: Seq<u8>) -> Outcome {
    match varint_at(b, 0) {
        None => Outcome::Passthrough,
        Some((action, p)) => {
            converted(V164_C2S_CLIENT_COMMAND, be_i8(action as i8))
        },
    }
}

pub fn c2s_client_status(body: Bytes) -> (res: ConversionResult)
    ensures
        res@ == spec_c2s_client_status(content(body)),
{
    broadcast use empty_then;

    let mut r = Reader::new(body);
    let action: i32 = match r.varint() {
        Some(v) => v,
        None => {
            return ConversionResult::Passthrough;
        },
    };
    let mut out = Writer::new();
    out.i8(action as i8);
    emit(V164_C2S_CLIENT_COMMAND, out)
}

/// CloseWindow: the same field.
pub open spec fn spec_c2s_close_window(b: Seq<u8>) -> Outcome {
    if b.len() < 1 {
        Outcome::Passthrough
    } else {
        converted(V164_C2S_CLOSE_WINDOW, seq![b[0]])
    }
}

pub fn c2s_close_window(body: Bytes) -> (res: ConversionResult)
    ensures
        res@ == spec_c2s_close_window(content(body)),
{
    broadcast use empty_then;

    let mut r = Reader::new(body);
    if !r.has(1) {
        return ConversionResult::Passthrough;
    }
    let window_id: u8 = r.get_u8();
    let mut out = Writer::new();
    out.u8(window_id);
    emit(V164_C2S_CLOSE_WINDOW, out)
}

/// PluginMessage: the channel changes its encoding and the data gets its length. Data that
/// is too long for the length is left alone.
pub open spec fn spec_c2s_plugin_message(b: Seq<u8>) -> Outcome {
    match string_at(b, 0) {
        None => Outcome::Passthrough,
        Some((channel, p)) => {
            let data = b.skip(p);
            if data.len() > 0xFFFF {
                Outcome::Passthrough
            } else {
                converted(V164_C2S_PLUGIN_MESSAGE, ucs2_string(channel) + be16(data.len() as u16) + data)
            }
        },
    }
}

pub fn c2s_plugin_message(body: Bytes) -> (res: ConversionResult)
    ensures
        res@ == spec_c2s_plugin_message(content(body)),
{
    broadcast use empty_then;

    let mut r = Reader::new(body);
    let channel: String = match r.string() {
        Some(s) => s,
        None => {
            return ConversionResult::Passthrough;
        },
    };
    let data = r.rest();
    let n: usize = bytes_len(&data);
    if n > 0xFFFF {
        return ConversionResult::Passthrough;
    }
    let mut out = Writer::new();
    out.ucs2(channel.as_str());
    out.u16(n as u16);
    out.raw(bytes_to_vec(&data).as_slice());
    emit(V164_C2S_PLUGIN_MESSAGE, out)
}

/// UseEntity: the user is -1, and only an attack is a left click.
pub open spec fn spec_c2s_use_entity(b: Seq<u8>) -> Outcome {
    match varint_at(b, 0) {
        None => Outcome::Passthrough,
        Some((target, p)) => {
            match varint_at(b, p) {
                None => Outcome::Passthrough,
                Some((kind, p2)) => {
                    converted(
                        V164_C2S_USE_ENTITY,
                        be_i32(-1i32) + be_i32(target) + seq![if kind == 1 { 1u8 } else { 0u8 }],
                    )
                },
            }
        },
    }
}

pub fn c2s_use_entity(body: Bytes) -> (res: ConversionResult)
    ensures
        res@ == spec_c2s_use_entity(content(body)),
{
    broadcast use empty_then;

    let mut r = Reader::new(body);
    let target: i32 = match r.varint() {
        Some(v) => v,
        None => {
            return ConversionResult::Passthrough;
        },
    };
    let kind: i32 = match r.varint() {
        Some(v) => v,
        None => {
            return ConversionResult::Passthrough;
        },
    };
    let mut out = Writer::new();
    out.i32(-1);
    out.i32(target);
    out.u8(if kind == 1 { 1 } else { 0 });
    emit(V164_C2S_USE_ENTITY, out)
}

/// PlayerPosition: the stance is the height of the eyes, and the ground flag is 0 or 1.
pub open spec fn spec_c2s_move_player_pos(b: Seq<u8>) -> Outcome {
    if b.len() < 25 {
        Outcome::Passthrough
    } else {
        converted(
            V164_C2S_MOVE_PLAYER_POS,
            be64(u64_at(b, 0)) + be64(u64_at(b, 8)) + be64(plus_eye_height(u64_at(b, 8)))
                + be64(u64_at(b, 16)) + seq![if b[24] != 0 { 1u8 } else { 0u8 }],
        )
    }
}

pub fn c2s_move_player_pos(body: Bytes) -> (res: ConversionResult)
    ensures
        res@ == spec_c2s_move_player_pos(content(body)),
{
    broadcast use empty_then;

    let mut r = Reader::new(body);
    if !r.has(25) {
        return ConversionResult::Passthrough;
    }
    let x: u64 = r.get_u64();
    let y: u64 = r.get_u64();
    let z: u64 = r.get_u64();
    let on_ground: u8 = r.get_u8();
    let mut out = Writer::new();
    out.u64(x);
    out.u64(y);
    out.u64(add_eye_height(y));
    out.u64(z);
    out.u8(if on_ground != 0 { 1 } else { 0 });
    emit(V164_C2S_MOVE_PLAYER_POS, out)
}

/// PlayerLook: the ground flag is 0 or 1.
pub open spec fn spec_c2s_move_player_rot(b: Seq<u8>) -> Outcome {
    if b.len() < 9 {
        Outcome::Passthrough
    } else {
        converted(
            V164_C2S_MOVE_PLAYER_ROT,
            be32(u32_at(b, 0)) + be32(u32_at(b, 4)) + seq![if b[8] != 0 { 1u8 } else { 0u8 }],
        )
    }
}

pub fn c2s_move_player_rot(body: Bytes) -> (res: ConversionResult)
    ensures
        res@ == spec_c2s_move_player_rot(content(body)),
{
    broadcast use empty_then;

    let mut r = Reader::new(body);
    if !r.has(9) {
        return ConversionResult::Passthrough;
    }
    let yaw: u32 = r.get_u32();
    let pitch: u32 = r.get_u32();
    let on_ground: u8 = r.get_u8();
    let mut out = Writer::new();
    out.u32(yaw);
    out.u32(pitch);
    out.u8(if on_ground != 0 { 1 } else { 0 });
    emit(V164_C2S_MOVE_PLAYER_ROT, out)
}

/// PlayerAbilities: the same fields.
pub open spec fn spec_c2s_player_abilities(b: Seq<u8>) -> Outcome {
    if b.len() < 9 {
        Outcome::Passthrough
    } else {
        converted(
            V164_C2S_PLAYER_ABILITIES,
            be_i8(i8_at(b, 0)) + be32(u32_at(b, 1)) + be32(u32_at(b, 5)),
        )
    }
}

pub fn c2s_player_abilities(body: Bytes) -> (res: ConversionResult)
    ensures
        res@ == spec_c2s_player_abilities(content(body)),
{
    broadcast use empty_then;

    let mut r = Reader::new(body);
    if !r.has(9) {
        return ConversionResult::Passthrough;
    }
    let flags: i8 = r.get_i8();
    let flying: u32 = r.get_u32();
    let walking: u32 = r.get_u32();
    let mut out = Writer::new();
    out.i8(flags);
    out.u32(flying);
    out.u32(walking);
    emit(V164_C2S_PLAYER_ABILITIES, out)
}

/// UpdateSign: the place is taken apart, and each line is cut to 15 characters. A line that
/// does not read is empty.
pub open spec fn spec_c2s_update_sign(b: Seq<u8>) -> Outcome {
    if b.len() < 8 {
        Outcome::Passthrough
    } else {
        let (first, p) = string_or_empty(b, 8);
        let (second, p2) = string_or_empty(b, p);
        let (third, p3) = string_or_empty(b, p2);
        let (fourth, p4) = string_or_empty(b, p3);
        let pos = legacy_position_of(u64_at(b, 0));
        converted(
            V164_C2S_UPDATE_SIGN,
            be_i32(pos.x) + be_i16(pos.y as i16) + be_i32(pos.z) + ucs2_string(first_chars(first, 15))
                + ucs2_string(first_chars(second, 15)) + ucs2_string(first_chars(third, 15))
                + ucs2_string(first_chars(fourth, 15)),
        )
    }
}

pub fn c2s_update_sign(body: Bytes) -> (res: ConversionResult)
    ensures
        res@ == spec_c2s_update_sign(content(body)),
{
    broadcast use empty_then;

    let mut r = Reader::new(body);
    if !r.has(8) {
        return ConversionResult::Passthrough;
    }
    let pos = decode_legacy_position(r.get_u64());
    let first: String = r.string_or_empty();
    let second: String = r.string_or_empty();
    let third: String = r.string_or_empty();
    let fourth: String = r.string_or_empty();
    let mut out = Writer::new();
    out.i32(pos.x);
    out.i16(pos.y as i16);
    out.i32(pos.z);
    out.ucs2(shortened(first.as_str(), 15));
    out.ucs2(shortened(second.as_str(), 15));
    out.ucs2(shortened(third.as_str(), 15));
    out.ucs2(shortened(fourth.as_str(), 15));
    emit(V164_C2S_UPDATE_SIGN, out)
}

/// PlayerBlockPlacement: the place is taken apart, the hand is dropped, the held item is
/// none, and the cursor falls on a sixteenth of the block.
pub open spec fn spec_c2s_player_block_placement(b: Seq<u8>) -> Outcome {
    if b.len() < 8 {
        Outcome::Passthrough
    } else {
        match varint_at(b, 8) {
            None => Outcome::Passthrough,
            Some((face, p)) => {
                match varint_at(b, p) {
                    None => Outcome::Passthrough,
                    Some((_hand, p2)) => {
                        if b.len() < p2 + 12 {
                            Outcome::Passthrough
                        } else {
                            converted(
                                V164_C2S_PLAYER_BLOCK_PLACEMENT,
                                be_i32(legacy_position_of(u64_at(b, 0)).x)
                                    + seq![legacy_position_of(u64_at(b, 0)).y as u8]
                                    + be_i32(legacy_position_of(u64_at(b, 0)).z)
                                    + be_i8(face as i8) + be_i16(-1i16)
                                    + be_i8(sixteenths(u32_at(b, p2)))
                                    + be_i8(sixteenths(u32_at(b, p2 + 4)))
                                    + be_i8(sixteenths(u32_at(b, p2 + 8))),
                            )
                        }
                    },
                }
            },
        }
    }
}

pub fn c2s_player_block_placement(body: Bytes) -> (res: ConversionResult)
    ensures
        res@ == spec_c2s_player_block_placement(content(body)),
{
    broadcast use empty_then;

    let mut r = Reader::new(body);
    if !r.has(8) {
        return ConversionResult::Passthrough;
    }
    let pos = decode_legacy_position(r.get_u64());
    let face: i32 = match r.varint() {
        Some(v) => v,
        None => {
            return ConversionResult::Passthrough;
        },
    };
    let _hand: i32 = match r.varint() {
        Some(v) => v,
        None => {
            return ConversionResult::Passthrough;
        },
    };
    if !r.has(12) {
        return ConversionResult::Passthrough;
    }
    let cx: u32 = r.get_u32();
    let cy: u32 = r.get_u32();
    let cz: u32 = r.get_u32();
    let mut out = Writer::new();
    out.i32(pos.x);
    out.u8(pos.y as u8);
    out.i32(pos.z);
    out.i8(face as i8);
    out.i16(-1);
    out.i8(single_to_sixteenths(cx));
    out.i8(single_to_sixteenths(cy));
    out.i8(single_to_sixteenths(cz));
    emit(V164_C2S_PLAYER_BLOCK_PLACEMENT, out)
}

/// TabComplete: the text changes its encoding, the rest is dropped.
pub open spec fn spec_c2s_tab_complete(b: Seq<u8>) -> Outcome {
    match string_at(b, 0) {
        None => Outcome::Passthrough,
        Some((text, p)) => {
            converted(V164_C2S_TAB_COMPLETE, ucs2_string(text))
        },
    }
}

pub fn c2s_tab_complete(body: Bytes) -> (res: ConversionResult)
    ensures
        res@ == spec_c2s_tab_complete(content(body)),
{
    broadcast use empty_then;

    let mut r = Reader::new(body);
    let text: String = match r.string() {
        Some(s) => s,
        None => {
            return ConversionResult::Passthrough;
        },
    };
    let mut out = Writer::new();
    out.ucs2(text.as_str());
    emit(V164_C2S_TAB_COMPLETE, out)
}

/// ConfirmTransaction: the same fields.
pub open spec fn spec_c2s_confirm_transaction(b: Seq<u8>) -> Outcome {
    if b.len() < 4 {
        Outcome::Passthrough
    } else {
        converted(V164_C2S_CONFIRM_TRANSACTION, b)
    }
}

pub fn c2s_confirm_transaction(body: Bytes) -> (res: ConversionResult)
    ensures
        res@ == spec_c2s_confirm_transaction(content(body)),
{
    if bytes_len(&body) < 4 {
        ConversionResult::Passthrough
    } else {
        rebuild_with_id(V164_C2S_CONFIRM_TRANSACTION, &body)
    }
}

/// EnchantItem: the same fields.
pub open spec fn spec_c2s_enchant_item(b: Seq<u8>) -> Outcome {
    if b.len() < 2 {
        Outcome::Passthrough
    } else {
        converted(V164_C2S_ENCHANT_ITEM, b)
    }
}

pub fn c2s_enchant_item(body: Bytes) -> (res: ConversionResult)
    ensures
        res@ == spec_c2s_enchant_item(content(body)),
{
    if bytes_len(&body) < 2 {
        ConversionResult::Passthrough
    } else {
        rebuild_with_id(V164_C2S_ENCHANT_ITEM, &body)
    }
}

/// WindowClick: the mode becomes a byte, and the item is taken away.
pub open spec fn spec_c2s_window_click(b: Seq<u8>) -> Outcome {
    if b.len() < 1 {
        Outcome::Passthrough
    } else if b.len() < 3 {
        Outcome::Passthrough
    } else {
        let (button, p) = u8_or(b, 3, 0);
        let (action, p2) = i16_or(b, p, 0);
        let (mode, p3) = varint_or(b, p2, 0);
        converted(
            V164_C2S_WINDOW_CLICK,
            be_i8(b[0] as i8) + be_i16(i16_at(b, 1)) + be_i8(button as i8) + be_i16(action)
                + be_i8(mode as i8) + be_i16(-1i16),
        )
    }
}

pub fn c2s_window_click(body: Bytes) -> (res: ConversionResult)
    ensures
        res@ == spec_c2s_window_click(content(body)),
{
    broadcast use empty_then;

    let mut r = Reader::new(body);
    let window_id: u8 = match r.u8() {
        Some(v) => v,
        None => {
            return ConversionResult::Passthrough;
        },
    };
    let slot: i16 = match r.i16() {
        Some(v) => v,
        None => {
            return ConversionResult::Passthrough;
        },
    };
    let button: u8 = r.u8_or(0);
    let action: i16 = r.i16_or(0);
    let mode: i32 = r.varint_or(0);
    let mut out = Writer::new();
    out.i8(window_id as i8);
    out.i16(slot);
    out.i8(button as i8);
    out.i16(action);
    out.i8(mode as i8);
    out.i16(-1);
    emit(V164_C2S_WINDOW_CLICK, out)
}

/// CreativeInventoryAction: the item is taken away.
pub open spec fn spec_c2s_creative_inv(b: Seq<u8>) -> Outcome {
    if b.len() < 2 {
        Outcome::Passthrough
    } else {
        converted(V164_C2S_CREATIVE_INV, be_i16(i16_at(b, 0)) + be_i16(-1i16))
    }
}

pub fn c2s_creative_inv(body: Bytes) -> (res: ConversionResult)
    ensures
        res@ == spec_c2s_creative_inv(content(body)),
{
    broadcast use empty_then;

    let mut r = Reader::new(body);
    let slot: i16 = match r.i16() {
        Some(v) => v,
        None => {
            return ConversionResult::Passthrough;
        },
    };
    let mut out = Writer::new();
    out.i16(slot);
    out.i16(-1);
    emit(V164_C2S_CREATIVE_INV, out)
}

/// SteerVehicle: bit 0 of the flags is jumping, bit 1 leaving.
pub open spec fn spec_c2s_steer_vehicle(b: Seq<u8>) -> Outcome {
    if b.len() < 9 {
        Outcome::Passthrough
    } else {
        converted(
            V164_C2S_STEER_VEHICLE,
            be32(u32_at(b, 0)) + be32(u32_at(b, 4))
                + seq![if b[8] & 0x01 != 0 { 1u8 } else { 0u8 }]
                + seq![if b[8] & 0x02 != 0 { 1u8 } else { 0u8 }],
        )
    }
}

pub fn c2s_steer_vehicle(body: Bytes) -> (res: ConversionResult)
    ensures
        res@ == spec_c2s_steer_vehicle(content(body)),
{
    broadcast use empty_then;

    let mut r = Reader::new(body);
    if !r.has(9) {
        return ConversionResult::Passthrough;
    }
    let sideways: u32 = r.get_u32();
    let forward: u32 = r.get_u32();
    let flags: u8 = r.get_u8();
    let mut out = Writer::new();
    out.u32(sideways);
    out.u32(forward);
    out.u8(if flags & 0x01 != 0 { 1 } else { 0 });
    out.u8(if flags & 0x02 != 0 { 1 } else { 0 });
    emit(V164_C2S_STEER_VEHICLE, out)
}

/// KeepAlive: the id keeps its low 32 bits.
pub open spec fn spec_s2c_keep_alive(b: Seq<u8>) -> Outcome {
    if b.len() < 8 {
        Outcome::Passthrough
    } else {
        converted(V164_S2C_KEEP_ALIVE, be_i32(i64_at(b, 0) as i32))
    }
}

pub fn s2c_keep_alive(body: Bytes) -> (res: ConversionResult)
    ensures
        res@ == spec_s2c_keep_alive(content(body)),
{
    broadcast use empty_then;

    let mut r = Reader::new(body);
    if !r.has(8) {
        return ConversionResult::Passthrough;
    }
    let id: i64 = r.get_i64();
    let mut out = Writer::new();
    out.i32(id as i32);
    emit(V164_S2C_KEEP_ALIVE, out)
}

/// JoinGame becomes LoginRequest: the level type moves to the front, the dimension becomes
/// a byte, and the unused world height is 0.
pub open spec fn spec_s2c_join_game(b: Seq<u8>) -> Outcome {
    if b.len() < 11 {
        Outcome::Passthrough
    } else {
        match string_at(b, 11) {
            None => Outcome::Passthrough,
            Some((level_type, p)) => {
                converted(
                    V164_S2C_LOGIN_REQUEST,
                    be_i32(i32_at(b, 0)) + ucs2_string(level_type) + be_i8(b[4] as i8)
                        + be_i8(i32_at(b, 5) as i8) + be_i8(b[9] as i8) + seq![0u8]
                        + seq![b[10]],
                )
            },
        }
    }
}

pub fn s2c_join_game(body: Bytes) -> (res: ConversionResult)
    ensures
        res@ == spec_s2c_join_game(content(body)),
{
    broadcast use empty_then;

    let mut r = Reader::new(body);
    if !r.has(11) {
        return ConversionResult::Passthrough;
    }
    let entity_id: i32 = r.get_i32();
    let gamemode: u8 = r.get_u8();
    let dimension: i32 = r.get_i32();
    let difficulty: u8 = r.get_u8();
    let max_players: u8 = r.get_u8();
    let level_type: String = match r.string() {
        Some(s) => s,
        None => {
            return ConversionResult::Passthrough;
        },
    };
    let mut out = Writer::new();
    out.i32(entity_id);
    out.ucs2(level_type.as_str());
    out.i8(gamemode as i8);
    out.i8(dimension as i8);
    out.i8(difficulty as i8);
    out.u8(0);
    out.u8(max_players);
    emit(V164_S2C_LOGIN_REQUEST, out)
}

/// Chat: the component changes its encoding, and its position is dropped.
pub open spec fn spec_s2c_chat(b: Seq<u8>) -> Outcome {
    match string_at(b, 0) {
        None => Outcome::Passthrough,
        Some((json, p)) => {
            converted(V164_S2C_CHAT, ucs2_string(json))
        },
    }
}

pub fn s2c_chat(body: Bytes) -> (res: ConversionResult)
    ensures
        res@ == spec_s2c_chat(content(body)),
{
    broadcast use empty_then;

    let mut r = Reader::new(body);
    let json: String = match r.string() {
        Some(s) => s,
        None => {
            return ConversionResult::Passthrough;
        },
    };
    let mut out = Writer::new();
    out.ucs2(json.as_str());
    emit(V164_S2C_CHAT, out)
}

/// TimeUpdate: the same fields.
pub open spec fn spec_s2c_time_update(b: Seq<u8>) -> Outcome {
    if b.len() < 16 {
        Outcome::Passthrough
    } else {
        converted(V164_S2C_TIME_UPDATE, be_i64(i64_at(b, 0)) + be_i64(i64_at(b, 8)))
    }
}

pub fn s2c_time_update(body: Bytes) -> (res: ConversionResult)
    ensures
        res@ == spec_s2c_time_update(content(body)),
{
    broadcast use empty_then;

    let mut r = Reader::new(body);
    if !r.has(16) {
        return ConversionResult::Passthrough;
    }
    let age: i64 = r.get_i64();
    let time_of_day: i64 = r.get_i64();
    let mut out = Writer::new();
    out.i64(age);
    out.i64(time_of_day);
    emit(V164_S2C_TIME_UPDATE, out)
}

/// SpawnPosition: the place is taken apart.
pub open spec fn spec_s2c_spawn_position(b: Seq<u8>) -> Outcome {
    if b.len() < 8 {
        Outcome::Passthrough
    } else {
        converted(
            V164_S2C_SPAWN_POSITION,
            be_i32(legacy_position_of(u64_at(b, 0)).x)
                + be_i32(legacy_position_of(u64_at(b, 0)).y)
                + be_i32(legacy_position_of(u64_at(b, 0)).z),
        )
    }
}

pub fn s2c_spawn_position(body: Bytes) -> (res: ConversionResult)
    ensures
        res@ == spec_s2c_spawn_position(content(body)),
{
    broadcast use empty_then;

    let mut r = Reader::new(body);
    if !r.has(8) {
        return ConversionResult::Passthrough;
    }
    let pos = decode_legacy_position(r.get_u64());
    let mut out = Writer::new();
    out.i32(pos.x);
    out.i32(pos.y);
    out.i32(pos.z);
    emit(V164_S2C_SPAWN_POSITION, out)
}

/// UpdateHealth: the food level keeps its low 16 bits.
pub open spec fn spec_s2c_update_health(b: Seq<u8>) -> Outcome {
    if b.len() < 4 {
        Outcome::Passthrough
    } else {
        match varint_at(b, 4) {
            None => Outcome::Passthrough,
            Some((food, p)) => {
                if b.len() < p + 4 {
                    Outcome::Passthrough
                } else {
                    converted(
                        V164_S2C_UPDATE_HEALTH,
                        be32(u32_at(b, 0)) + be_i16(food as i16) + be32(u32_at(b, p)),
                    )
                }
            },
        }
    }
}

pub fn s2c_update_health(body: Bytes) -> (res: ConversionResult)
    ensures
        res@ == spec_s2c_update_health(content(body)),
{
    broadcast use empty_then;

    let mut r = Reader::new(body);
    if !r.has(4) {
        return ConversionResult::Passthrough;
    }
    let health: u32 = r.get_u32();
    let food: i32 = match r.varint() {
        Some(v) => v,
        None => {
            return ConversionResult::Passthrough;
        },
    };
    if !r.has(4) {
        return ConversionResult::Passthrough;
    }
    let saturation: u32 = r.get_u32();
    let mut out = Writer::new();
    out.u32(health);
    out.i16(food as i16);
    out.u32(saturation);
    emit(V164_S2C_UPDATE_HEALTH, out)
}

/// Respawn: the world is 256 blocks high.
pub open spec fn spec_s2c_respawn(b: Seq<u8>) -> Outcome {
    if b.len() < 6 {
        Outcome::Passthrough
    } else {
        match string_at(b, 6) {
            None => Outcome::Passthrough,
            Some((level_type, p)) => {
                converted(
                    V164_S2C_RESPAWN,
                    be_i32(i32_at(b, 0)) + be_i8(b[4] as i8) + be_i8(b[5] as i8)
                        + be_i16(256i16) + ucs2_string(level_type),
                )
            },
        }
    }
}

pub fn s2c_respawn(body: Bytes) -> (res: ConversionResult)
    ensures
        res@ == spec_s2c_respawn(content(body)),
{
    broadcast use empty_then;

    let mut r = Reader::new(body);
    if !r.has(6) {
        return ConversionResult::Passthrough;
    }
    let dimension: i32 = r.get_i32();
    let difficulty: u8 = r.get_u8();
    let gamemode: u8 = r.get_u8();
    let level_type: String = match r.string() {
        Some(s) => s,
        None => {
            return ConversionResult::Passthrough;
        },
    };
    let mut out = Writer::new();
    out.i32(dimension);
    out.i8(difficulty as i8);
    out.i8(gamemode as i8);
    out.i16(256);
    out.ucs2(level_type.as_str());
    emit(V164_S2C_RESPAWN, out)
}

/// PlayerPositionAndLook: the stance is the height of the eyes, the relative flags and the
/// teleport id are dropped, and the player stands on the ground.
pub open spec fn spec_s2c_player_pos_look(b: Seq<u8>) -> Outcome {
    if b.len() < 33 {
        Outcome::Passthrough
    } else {
        converted(
            V164_S2C_PLAYER_POS_LOOK,
            be64(u64_at(b, 0)) + be64(plus_eye_height(u64_at(b, 8))) + be64(u64_at(b, 8))
                + be64(u64_at(b, 16)) + be32(u32_at(b, 24)) + be32(u32_at(b, 28)) + seq![1u8],
        )
    }
}

pub fn s2c_player_pos_look(body: Bytes) -> (res: ConversionResult)
    ensures
        res@ == spec_s2c_player_pos_look(content(body)),
{
    broadcast use empty_then;

    let mut r = Reader::new(body);
    if !r.has(33) {
        return ConversionResult::Passthrough;
    }
    let x: u64 = r.get_u64();
    let y: u64 = r.get_u64();
    let z: u64 = r.get_u64();
    let yaw: u32 = r.get_u32();
    let pitch: u32 = r.get_u32();
    let _flags: i8 = r.get_i8();
    let mut out = Writer::new();
    out.u64(x);
    out.u64(add_eye_height(y));
    out.u64(y);
    out.u64(z);
    out.u32(yaw);
    out.u32(pitch);
    out.u8(1);
    emit(V164_S2C_PLAYER_POS_LOOK, out)
}

/// HeldItemChange: the slot becomes 16 bits.
pub open spec fn spec_s2c_held_item_change(b: Seq<u8>) -> Outcome {
    if b.len() < 1 {
        Outcome::Passthrough
    } else {
        converted(V164_S2C_HELD_ITEM_CHANGE, be_i16(i8_at(b, 0) as i16))
    }
}

pub fn s2c_held_item_change(body: Bytes) -> (res: ConversionResult)
    ensures
        res@ == spec_s2c_held_item_change(content(body)),
{
    broadcast use empty_then;

    let mut r = Reader::new(body);
    if !r.has(1) {
        return ConversionResult::Passthrough;
    }
    let slot: i8 = r.get_i8();
    let mut out = Writer::new();
    out.i16(slot as i16);
    emit(V164_S2C_HELD_ITEM_CHANGE, out)
}

/// PlayerAbilities: the same fields.
pub open spec fn spec_s2c_player_abilities(b: Seq<u8>) -> Outcome {
    if b.len() < 9 {
        Outcome::Passthrough
    } else {
        converted(
            V164_S2C_PLAYER_ABILITIES,
            be_i8(i8_at(b, 0)) + be32(u32_at(b, 1)) + be32(u32_at(b, 5)),
        )
    }
}

pub fn s2c_player_abilities(body: Bytes) -> (res: ConversionResult)
    ensures
        res@ == spec_s2c_player_abilities(content(body)),
{
    broadcast use empty_then;

    let mut r = Reader::new(body);
    if !r.has(9) {
        return ConversionResult::Passthrough;
    }
    let flags: i8 = r.get_i8();
    let flying: u32 = r.get_u32();
    let walking: u32 = r.get_u32();
    let mut out = Writer::new();
    out.i8(flags);
    out.u32(flying);
    out.u32(walking);
    emit(V164_S2C_PLAYER_ABILITIES, out)
}

/// Disconnect: the reason changes its encoding.
pub open spec fn spec_s2c_disconnect(b: Seq<u8>) -> Outcome {
    match string_at(b, 0) {
        None => Outcome::Passthrough,
        Some((reason, p)) => {
            converted(V164_S2C_DISCONNECT, ucs2_string(reason))
        },
    }
}

pub fn s2c_disconnect(body: Bytes) -> (res: ConversionResult)
    ensures
        res@ == spec_s2c_disconnect(content(body)),
{
    broadcast use empty_then;

    let mut r = Reader::new(body);
    let reason: String = match r.string() {
        Some(s) => s,
        None => {
            return ConversionResult::Passthrough;
        },
    };
    let mut out = Writer::new();
    out.ucs2(reason.as_str());
    emit(V164_S2C_DISCONNECT, out)
}

/// PluginMessage: the brand channel gets its older name, and the data gets its length. Data
/// that is too long for the length is dropped.
pub open spec fn spec_s2c_plugin_message(b: Seq<u8>) -> Outcome {
    match string_at(b, 0) {
        None => Outcome::Passthrough,
        Some((channel, p)) => {
            let data = b.skip(p);
            if data.len() > 0x7FFF {
                Outcome::Drop
            } else {
                let legacy = if channel == "minecraft:brand"@ { "MC|Brand"@ } else { channel };
                converted(V164_S2C_PLUGIN_MESSAGE, ucs2_string(legacy) + be_i16(data.len() as i16) + data)
            }
        },
    }
}

pub fn s2c_plugin_message(body: Bytes) -> (res: ConversionResult)
    ensures
        res@ == spec_s2c_plugin_message(content(body)),
{
    broadcast use empty_then;

    let mut r = Reader::new(body);
    let channel: String = match r.string() {
        Some(s) => s,
        None => {
            return ConversionResult::Passthrough;
        },
    };
    let data = r.rest();
    let n: usize = bytes_len(&data);
    if n > 0x7FFF {
        return ConversionResult::Drop;
    }
    let mut out = Writer::new();
    if is_text(&channel, "minecraft:brand") {
        out.ucs2("MC|Brand");
    } else {
        out.ucs2(channel.as_str());
    }
    out.i16(n as i16);
    out.raw(bytes_to_vec(&data).as_slice());
    emit(V164_S2C_PLUGIN_MESSAGE, out)
}

/// BlockChange: the place is taken apart, the state into the block id above and the metadata
/// in its low four bits. A block id below 0 becomes 0, one above 32767 that.
pub open spec fn spec_s2c_block_change(b: Seq<u8>) -> Outcome {
    if b.len() < 8 {
        Outcome::Passthrough
    } else {
        match varint_at(b, 8) {
            None => Outcome::Passthrough,
            Some((state, p)) => {
                converted(
                    V164_S2C_BLOCK_CHANGE,
                    be_i32(legacy_position_of(u64_at(b, 0)).x)
                        + seq![legacy_position_of(u64_at(b, 0)).y as u8]
                        + be_i32(legacy_position_of(u64_at(b, 0)).z)
                        + be_i16(spec_legacy_block_id(state)) + seq![(state as u32 % 16) as u8],
                )
            },
        }
    }
}

pub fn s2c_block_change(body: Bytes) -> (res: ConversionResult)
    ensures
        res@ == spec_s2c_block_change(content(body)),
{
    broadcast use empty_then;

    let mut r = Reader::new(body);
    if !r.has(8) {
        return ConversionResult::Passthrough;
    }
    let pos = decode_legacy_position(r.get_u64());
    let state: i32 = match r.varint() {
        Some(v) => v,
        None => {
            return ConversionResult::Passthrough;
        },
    };
    let mut out = Writer::new();
    out.i32(pos.x);
    out.u8(pos.y as u8);
    out.i32(pos.z);
    out.i16(legacy_block_id(state));
    out.u8((state as u32 % 16) as u8);
    emit(V164_S2C_BLOCK_CHANGE, out)
}

/// SpawnPlayer: the name is made of the low halves of the unique id, the coordinates are cut
/// to fixed-point, the hand is empty and so is the metadata.
pub open spec fn spec_s2c_spawn_player(b: Seq<u8>) -> Outcome {
    match varint_at(b, 0) {
        None => Outcome::Passthrough,
        Some((entity_id, p)) => {
            if b.len() < p + 42 {
                Outcome::Passthrough
            } else {
                let name = "p_"@ + hex(i64_at(b, p) as u32 as nat) + hex(i64_at(b, p + 8) as u32 as nat);
                converted(
                    V164_S2C_SPAWN_PLAYER,
                    be_i32(entity_id) + ucs2_string(name) + be_i32(fixed_cut(u64_at(b, p + 16))) + be_i32(fixed_cut(u64_at(b, p + 24)))
                        + be_i32(fixed_cut(u64_at(b, p + 32))) + be_i8(b[p + 40] as i8) + be_i8(b[p + 41] as i8) + be_i16(0) + seq![0x7Fu8],
                )
            }
        },
    }
}

pub fn s2c_spawn_player(body: Bytes) -> (res: ConversionResult)
    ensures
        res@ == spec_s2c_spawn_player(content(body)),
{
    broadcast use empty_then;

    let mut r = Reader::new(body);
    let entity_id: i32 = match r.varint() {
        Some(v) => v,
        None => {
            return ConversionResult::Passthrough;
        },
    };
    if !r.has(42) {
        return ConversionResult::Passthrough;
    }
    let hi: i64 = r.get_i64();
    let lo: i64 = r.get_i64();
    let x: u64 = r.get_u64();
    let y: u64 = r.get_u64();
    let z: u64 = r.get_u64();
    let yaw: u8 = r.get_u8();
    let pitch: u8 = r.get_u8();
    let mut name = String::from_str("p_");
    lower_hex(&mut name, hi as u32);
    lower_hex(&mut name, lo as u32);
    let mut out = Writer::new();
    out.i32(entity_id);
    out.ucs2(name.as_str());
    out.i32(double_to_fixed_cut(x));
    out.i32(double_to_fixed_cut(y));
    out.i32(double_to_fixed_cut(z));
    out.i8(yaw as i8);
    out.i8(pitch as i8);
    out.i16(0);
    out.u8(0x7F);
    emit(V164_S2C_SPAWN_PLAYER, out)
}

/// Entity: the id becomes 32 bits.
pub open spec fn spec_s2c_entity(b: Seq<u8>) -> Outcome {
    match varint_at(b, 0) {
        None => Outcome::Passthrough,
        Some((entity_id, p)) => {
            converted(V164_S2C_ENTITY, be_i32(entity_id))
        },
    }
}

pub fn s2c_entity(body: Bytes) -> (res: ConversionResult)
    ensures
        res@ == spec_s2c_entity(content(body)),
{
    broadcast use empty_then;

    let mut r = Reader::new(body);
    let entity_id: i32 = match r.varint() {
        Some(v) => v,
        None => {
            return ConversionResult::Passthrough;
        },
    };
    let mut out = Writer::new();
    out.i32(entity_id);
    emit(V164_S2C_ENTITY, out)
}

/// EntityRelativeMove: steps of 1/4096 become steps of 1/32, cut off, in their low eight
/// bits.
pub open spec fn spec_s2c_entity_rel_move(b: Seq<u8>) -> Outcome {
    match varint_at(b, 0) {
        None => Outcome::Passthrough,
        Some((entity_id, p)) => {
            if b.len() < p + 7 {
                Outcome::Passthrough
            } else {
                converted(
                    V164_S2C_ENTITY_REL_MOVE,
                    be_i32(entity_id) + be_i8(over_128(i16_at(b, p) as int) as i8)
                        + be_i8(over_128(i16_at(b, p + 2) as int) as i8)
                        + be_i8(over_128(i16_at(b, p + 4) as int) as i8),
                )
            }
        },
    }
}

pub fn s2c_entity_rel_move(body: Bytes) -> (res: ConversionResult)
    ensures
        res@ == spec_s2c_entity_rel_move(content(body)),
{
    broadcast use empty_then;

    let mut r = Reader::new(body);
    let entity_id: i32 = match r.varint() {
        Some(v) => v,
        None => {
            return ConversionResult::Passthrough;
        },
    };
    if !r.has(7) {
        return ConversionResult::Passthrough;
    }
    let dx: i16 = r.get_i16();
    let dy: i16 = r.get_i16();
    let dz: i16 = r.get_i16();
    let mut out = Writer::new();
    out.i32(entity_id);
    out.i8(trunc_128(dx) as i8);
    out.i8(trunc_128(dy) as i8);
    out.i8(trunc_128(dz) as i8);
    emit(V164_S2C_ENTITY_REL_MOVE, out)
}

/// EntityLook: the ground flag is dropped.
pub open spec fn spec_s2c_entity_look(b: Seq<u8>) -> Outcome {
    match varint_at(b, 0) {
        None => Outcome::Passthrough,
        Some((entity_id, p)) => {
            if b.len() < p + 3 {
                Outcome::Passthrough
            } else {
                converted(
                    V164_S2C_ENTITY_LOOK,
                    be_i32(entity_id) + be_i8(b[p] as i8) + be_i8(b[p + 1] as i8),
                )
            }
        },
    }
}

pub fn s2c_entity_look(body: Bytes) -> (res: ConversionResult)
    ensures
        res@ == spec_s2c_entity_look(content(body)),
{
    broadcast use empty_then;

    let mut r = Reader::new(body);
    let entity_id: i32 = match r.varint() {
        Some(v) => v,
        None => {
            return ConversionResult::Passthrough;
        },
    };
    if !r.has(3) {
        return ConversionResult::Passthrough;
    }
    let yaw: u8 = r.get_u8();
    let pitch: u8 = r.get_u8();
    let mut out = Writer::new();
    out.i32(entity_id);
    out.i8(yaw as i8);
    out.i8(pitch as i8);
    emit(V164_S2C_ENTITY_LOOK, out)
}

/// EntityLookAndRelativeMove: steps of 1/4096 become steps of 1/32, as in EntityRelativeMove.
pub open spec fn spec_s2c_entity_look_rel_move(b: Seq<u8>) -> Outcome {
    match varint_at(b, 0) {
        None => Outcome::Passthrough,
        Some((entity_id, p)) => {
            if b.len() < p + 9 {
                Outcome::Passthrough
            } else {
                converted(
                    V164_S2C_ENTITY_LOOK_REL_MOVE,
                    be_i32(entity_id) + be_i8(over_128(i16_at(b, p) as int) as i8)
                        + be_i8(over_128(i16_at(b, p + 2) as int) as i8)
                        + be_i8(over_128(i16_at(b, p + 4) as int) as i8) + be_i8(b[p + 6] as i8)
                        + be_i8(b[p + 7] as i8),
                )
            }
        },
    }
}

pub fn s2c_entity_look_rel_move(body: Bytes) -> (res: ConversionResult)
    ensures
        res@ == spec_s2c_entity_look_rel_move(content(body)),
{
    broadcast use empty_then;

    let mut r = Reader::new(body);
    let entity_id: i32 = match r.varint() {
        Some(v) => v,
        None => {
            return ConversionResult::Passthrough;
        },
    };
    if !r.has(9) {
        return ConversionResult::Passthrough;
    }
    let dx: i16 = r.get_i16();
    let dy: i16 = r.get_i16();
    let dz: i16 = r.get_i16();
    let yaw: u8 = r.get_u8();
    let pitch: u8 = r.get_u8();
    let mut out = Writer::new();
    out.i32(entity_id);
    out.i8(trunc_128(dx) as i8);
    out.i8(trunc_128(dy) as i8);
    out.i8(trunc_128(dz) as i8);
    out.i8(yaw as i8);
    out.i8(pitch as i8);
    emit(V164_S2C_ENTITY_LOOK_REL_MOVE, out)
}

/// EntityTeleport: the coordinates are cut to fixed-point.
pub open spec fn spec_s2c_entity_teleport(b: Seq<u8>) -> Outcome {
    match varint_at(b, 0) {
        None => Outcome::Passthrough,
        Some((entity_id, p)) => {
            if b.len() < p + 27 {
                Outcome::Passthrough
            } else {
                converted(
                    V164_S2C_ENTITY_TELEPORT,
                    be_i32(entity_id) + be_i32(fixed_cut(u64_at(b, p)))
                        + be_i32(fixed_cut(u64_at(b, p + 8)))
                        + be_i32(fixed_cut(u64_at(b, p + 16))) + be_i8(b[p + 24] as i8)
                        + be_i8(b[p + 25] as i8),
                )
            }
        },
    }
}

pub fn s2c_entity_teleport(body: Bytes) -> (res: ConversionResult)
    ensures
        res@ == spec_s2c_entity_teleport(content(body)),
{
    broadcast use empty_then;

    let mut r = Reader::new(body);
    let entity_id: i32 = match r.varint() {
        Some(v) => v,
        None => {
            return ConversionResult::Passthrough;
        },
    };
    if !r.has(27) {
        return ConversionResult::Passthrough;
    }
    let x: u64 = r.get_u64();
    let y: u64 = r.get_u64();
    let z: u64 = r.get_u64();
    let yaw: u8 = r.get_u8();
    let pitch: u8 = r.get_u8();
    let mut out = Writer::new();
    out.i32(entity_id);
    out.i32(double_to_fixed_cut(x));
    out.i32(double_to_fixed_cut(y));
    out.i32(double_to_fixed_cut(z));
    out.i8(yaw as i8);
    out.i8(pitch as i8);
    emit(V164_S2C_ENTITY_TELEPORT, out)
}

/// EntityHeadLook: the id becomes 32 bits.
pub open spec fn spec_s2c_entity_head_look(b: Seq<u8>) -> Outcome {
    match varint_at(b, 0) {
        None => Outcome::Passthrough,
        Some((entity_id, p)) => {
            if b.len() < p + 1 {
                Outcome::Passthrough
            } else {
                converted(V164_S2C_ENTITY_HEAD_LOOK, be_i32(entity_id) + be_i8(b[p] as i8))
            }
        },
    }
}

pub fn s2c_entity_head_look(body: Bytes) -> (res: ConversionResult)
    ensures
        res@ == spec_s2c_entity_head_look(content(body)),
{
    broadcast use empty_then;

    let mut r = Reader::new(body);
    let entity_id: i32 = match r.varint() {
        Some(v) => v,
        None => {
            return ConversionResult::Passthrough;
        },
    };
    if !r.has(1) {
        return ConversionResult::Passthrough;
    }
    let head_yaw: u8 = r.get_u8();
    let mut out = Writer::new();
    out.i32(entity_id);
    out.i8(head_yaw as i8);
    emit(V164_S2C_ENTITY_HEAD_LOOK, out)
}

/// CollectItem: the count is dropped.
pub open spec fn spec_s2c_collect_item(b: Seq<u8>) -> Outcome {
    match varint_at(b, 0) {
        None => Outcome::Passthrough,
        Some((collected, p)) => {
            match varint_at(b, p) {
                None => Outcome::Passthrough,
                Some((collector, p2)) => {
                    converted(V164_S2C_COLLECT_ITEM, be_i32(collected) + be_i32(collector))
                },
            }
        },
    }
}

pub fn s2c_collect_item(body: Bytes) -> (res: ConversionResult)
    ensures
        res@ == spec_s2c_collect_item(content(body)),
{
    broadcast use empty_then;

    let mut r = Reader::new(body);
    let collected: i32 = match r.varint() {
        Some(v) => v,
        None => {
            return ConversionResult::Passthrough;
        },
    };
    let collector: i32 = match r.varint() {
        Some(v) => v,
        None => {
            return ConversionResult::Passthrough;
        },
    };
    let mut out = Writer::new();
    out.i32(collected);
    out.i32(collector);
    emit(V164_S2C_COLLECT_ITEM, out)
}

/// EntityEquipment: the older client would refuse an item in this shape, so the packet is
/// dropped.
pub open spec fn spec_s2c_entity_equipment(b: Seq<u8>) -> Outcome {
    match varint_at(b, 0) {
        None => Outcome::Passthrough,
        Some((_, p)) => {
            match varint_at(b, p) {
                None => Outcome::Passthrough,
                Some(_) => Outcome::Drop,
            }
        },
    }
}

pub fn s2c_entity_equipment(body: Bytes) -> (res: ConversionResult)
    ensures
        res@ == spec_s2c_entity_equipment(content(body)),
{
    let mut r = Reader::new(body);
    if r.varint().is_none() || r.varint().is_none() {
        return ConversionResult::Passthrough;
    }
    ConversionResult::Drop
}

/// SetExperience: level and total are held between 0 and 32767.
pub open spec fn spec_s2c_set_experience(b: Seq<u8>) -> Outcome {
    if b.len() < 4 {
        Outcome::Passthrough
    } else {
        match varint_at(b, 4) {
            None => Outcome::Passthrough,
            Some((level, p)) => {
                match varint_at(b, p) {
                    None => Outcome::Passthrough,
                    Some((total, p2)) => {
                        converted(
                            V164_S2C_SET_EXPERIENCE,
                            be32(u32_at(b, 0)) + be_i16(spec_clamped(level))
                                + be_i16(spec_clamped(total)),
                        )
                    },
                }
            },
        }
    }
}

pub fn s2c_set_experience(body: Bytes) -> (res: ConversionResult)
    ensures
        res@ == spec_s2c_set_experience(content(body)),
{
    broadcast use empty_then;

    let mut r = Reader::new(body);
    if !r.has(4) {
        return ConversionResult::Passthrough;
    }
    let bar: u32 = r.get_u32();
    let level: i32 = match r.varint() {
        Some(v) => v,
        None => {
            return ConversionResult::Passthrough;
        },
    };
    let total: i32 = match r.varint() {
        Some(v) => v,
        None => {
            return ConversionResult::Passthrough;
        },
    };
    let mut out = Writer::new();
    out.u32(bar);
    out.i16(clamped(level));
    out.i16(clamped(total));
    emit(V164_S2C_SET_EXPERIENCE, out)
}

/// SpawnObject: the coordinates are rounded to fixed-point. The speed follows where the data
/// is positive and the speed is there.
pub open spec fn spec_s2c_spawn_object(b: Seq<u8>) -> Outcome {
    match varint_at(b, 0) {
        None => Outcome::Passthrough,
        Some((eid, p)) => {
            if b.len() < p + 1 {
                Outcome::Passthrough
            } else if b.len() < p + 9 {
                Outcome::Passthrough
            } else if b.len() < p + 17 {
                Outcome::Passthrough
            } else if b.len() < p + 25 {
                Outcome::Passthrough
            } else {
                let (yaw, p2) = u8_or(b, p + 25, 0);
                let (pitch, p3) = u8_or(b, p2, 0);
                if b.len() < p3 + 4 {
                    Outcome::Passthrough
                } else {
                    let base = be_i32(eid) + seq![b[p]] + be_i32(fixed_rounded(u64_at(b, p + 1))) + be_i32(fixed_rounded(u64_at(b, p + 9))) + be_i32(fixed_rounded(u64_at(b, p + 17))) + seq![yaw] + seq![pitch] + be_i32(i32_at(b, p3));
                    let q = p3 + 4;
                    if i32_at(b, p3) > 0 && b.len() >= q + 6 {
                        converted(
                            V164_S2C_SPAWN_OBJECT,
                            base + be_i16(i16_at(b, q)) + be_i16(i16_at(b, q + 2)) + be_i16(i16_at(b, q + 4)),
                        )
                    } else {
                        converted(V164_S2C_SPAWN_OBJECT, base)
                    }
                }
            }
        },
    }
}

pub fn s2c_spawn_object(body: Bytes) -> (res: ConversionResult)
    ensures
        res@ == spec_s2c_spawn_object(content(body)),
{
    broadcast use empty_then;

    let mut r = Reader::new(body);
    let eid: i32 = match r.varint() {
        Some(v) => v,
        None => {
            return ConversionResult::Passthrough;
        },
    };
    let kind: u8 = match r.u8() {
        Some(v) => v,
        None => {
            return ConversionResult::Passthrough;
        },
    };
    let x: u64 = match r.double_bits() {
        Some(v) => v,
        None => {
            return ConversionResult::Passthrough;
        },
    };
    let y: u64 = match r.double_bits() {
        Some(v) => v,
        None => {
            return ConversionResult::Passthrough;
        },
    };
    let z: u64 = match r.double_bits() {
        Some(v) => v,
        None => {
            return ConversionResult::Passthrough;
        },
    };
    let yaw: u8 = r.u8_or(0);
    let pitch: u8 = r.u8_or(0);
    let data: i32 = match r.i32() {
        Some(v) => v,
        None => {
            return ConversionResult::Passthrough;
        },
    };
    let mut out = Writer::new();
    out.i32(eid);
    out.u8(kind);
    out.i32(double_to_fixed_rounded(x));
    out.i32(double_to_fixed_rounded(y));
    out.i32(double_to_fixed_rounded(z));
    out.u8(yaw);
    out.u8(pitch);
    out.i32(data);
    if data > 0 && r.has(6) {
        let vx: i16 = r.get_i16();
        let vy: i16 = r.get_i16();
        let vz: i16 = r.get_i16();
        out.i16(vx);
        out.i16(vy);
        out.i16(vz);
    }
    emit(V164_S2C_SPAWN_OBJECT, out)
}

/// SpawnExperienceOrb: the coordinates are rounded to fixed-point.
pub open spec fn spec_s2c_spawn_exp_orb(b: Seq<u8>) -> Outcome {
    match varint_at(b, 0) {
        None => Outcome::Passthrough,
        Some((eid, p)) => {
            if b.len() < p + 8 {
                Outcome::Passthrough
            } else if b.len() < p + 16 {
                Outcome::Passthrough
            } else if b.len() < p + 24 {
                Outcome::Passthrough
            } else {
                let (count, p2) = i16_or(b, p + 24, 0);
                converted(
                    V164_S2C_SPAWN_EXP_ORB,
                    be_i32(eid) + be_i32(fixed_rounded(u64_at(b, p)))
                        + be_i32(fixed_rounded(u64_at(b, p + 8)))
                        + be_i32(fixed_rounded(u64_at(b, p + 16))) + be_i16(count),
                )
            }
        },
    }
}

pub fn s2c_spawn_exp_orb(body: Bytes) -> (res: ConversionResult)
    ensures
        res@ == spec_s2c_spawn_exp_orb(content(body)),
{
    broadcast use empty_then;

    let mut r = Reader::new(body);
    let eid: i32 = match r.varint() {
        Some(v) => v,
        None => {
            return ConversionResult::Passthrough;
        },
    };
    let x: u64 = match r.double_bits() {
        Some(v) => v,
        None => {
            return ConversionResult::Passthrough;
        },
    };
    let y: u64 = match r.double_bits() {
        Some(v) => v,
        None => {
            return ConversionResult::Passthrough;
        },
    };
    let z: u64 = match r.double_bits() {
        Some(v) => v,
        None => {
            return ConversionResult::Passthrough;
        },
    };
    let count: i16 = r.i16_or(0);
    let mut out = Writer::new();
    out.i32(eid);
    out.i32(double_to_fixed_rounded(x));
    out.i32(double_to_fixed_rounded(y));
    out.i32(double_to_fixed_rounded(z));
    out.i16(count);
    emit(V164_S2C_SPAWN_EXP_ORB, out)
}

/// SpawnGlobalEntity: the id becomes 32 bits.
pub open spec fn spec_s2c_spawn_global(b: Seq<u8>) -> Outcome {
    match varint_at(b, 0) {
        None => Outcome::Passthrough,
        Some((eid, p)) => {
            if b.len() < p + 1 {
                Outcome::Passthrough
            } else if b.len() < p + 5 {
                Outcome::Passthrough
            } else if b.len() < p + 9 {
                Outcome::Passthrough
            } else if b.len() < p + 13 {
                Outcome::Passthrough
            } else {
                converted(
                    V164_S2C_SPAWN_GLOBAL,
                    be_i32(eid) + be_i8(i8_at(b, p)) + be_i32(i32_at(b, p + 1))
                        + be_i32(i32_at(b, p + 5)) + be_i32(i32_at(b, p + 9)),
                )
            }
        },
    }
}

pub fn s2c_spawn_global(body: Bytes) -> (res: ConversionResult)
    ensures
        res@ == spec_s2c_spawn_global(content(body)),
{
    broadcast use empty_then;

    let mut r = Reader::new(body);
    let eid: i32 = match r.varint() {
        Some(v) => v,
        None => {
            return ConversionResult::Passthrough;
        },
    };
    let kind: i8 = match r.i8() {
        Some(v) => v,
        None => {
            return ConversionResult::Passthrough;
        },
    };
    let x: i32 = match r.i32() {
        Some(v) => v,
        None => {
            return ConversionResult::Passthrough;
        },
    };
    let y: i32 = match r.i32() {
        Some(v) => v,
        None => {
            return ConversionResult::Passthrough;
        },
    };
    let z: i32 = match r.i32() {
        Some(v) => v,
        None => {
            return ConversionResult::Passthrough;
        },
    };
    let mut out = Writer::new();
    out.i32(eid);
    out.i8(kind);
    out.i32(x);
    out.i32(y);
    out.i32(z);
    emit(V164_S2C_SPAWN_GLOBAL, out)
}

/// SpawnMob: the coordinates are rounded to fixed-point, and the metadata is empty.
pub open spec fn spec_s2c_spawn_mob(b: Seq<u8>) -> Outcome {
    match varint_at(b, 0) {
        None => Outcome::Passthrough,
        Some((eid, p)) => {
            if b.len() < p + 1 {
                Outcome::Passthrough
            } else if b.len() < p + 9 {
                Outcome::Passthrough
            } else if b.len() < p + 17 {
                Outcome::Passthrough
            } else if b.len() < p + 25 {
                Outcome::Passthrough
            } else {
                let (yaw, p2) = u8_or(b, p + 25, 0);
                let (pitch, p3) = u8_or(b, p2, 0);
                let (head_pitch, p4) = u8_or(b, p3, 0);
                let (vx, p5) = i16_or(b, p4, 0);
                let (vy, p6) = i16_or(b, p5, 0);
                let (vz, p7) = i16_or(b, p6, 0);
                converted(
                    V164_S2C_SPAWN_MOB,
                    be_i32(eid) + seq![b[p]] + be_i32(fixed_rounded(u64_at(b, p + 1)))
                        + be_i32(fixed_rounded(u64_at(b, p + 9)))
                        + be_i32(fixed_rounded(u64_at(b, p + 17))) + seq![yaw] + seq![pitch]
                        + seq![head_pitch] + be_i16(vx) + be_i16(vy) + be_i16(vz) + seq![0x7Fu8],
                )
            }
        },
    }
}

pub fn s2c_spawn_mob(body: Bytes) -> (res: ConversionResult)
    ensures
        res@ == spec_s2c_spawn_mob(content(body)),
{
    broadcast use empty_then;

    let mut r = Reader::new(body);
    let eid: i32 = match r.varint() {
        Some(v) => v,
        None => {
            return ConversionResult::Passthrough;
        },
    };
    let kind: u8 = match r.u8() {
        Some(v) => v,
        None => {
            return ConversionResult::Passthrough;
        },
    };
    let x: u64 = match r.double_bits() {
        Some(v) => v,
        None => {
            return ConversionResult::Passthrough;
        },
    };
    let y: u64 = match r.double_bits() {
        Some(v) => v,
        None => {
            return ConversionResult::Passthrough;
        },
    };
    let z: u64 = match r.double_bits() {
        Some(v) => v,
        None => {
            return ConversionResult::Passthrough;
        },
    };
    let yaw: u8 = r.u8_or(0);
    let pitch: u8 = r.u8_or(0);
    let head_pitch: u8 = r.u8_or(0);
    let vx: i16 = r.i16_or(0);
    let vy: i16 = r.i16_or(0);
    let vz: i16 = r.i16_or(0);
    let mut out = Writer::new();
    out.i32(eid);
    out.u8(kind);
    out.i32(double_to_fixed_rounded(x));
    out.i32(double_to_fixed_rounded(y));
    out.i32(double_to_fixed_rounded(z));
    out.u8(yaw);
    out.u8(pitch);
    out.u8(head_pitch);
    out.i16(vx);
    out.i16(vy);
    out.i16(vz);
    out.u8(0x7F);
    emit(V164_S2C_SPAWN_MOB, out)
}

/// SpawnPainting: the place is taken apart, and the direction becomes 32 bits.
pub open spec fn spec_s2c_spawn_painting(b: Seq<u8>) -> Outcome {
    match varint_at(b, 0) {
        None => Outcome::Passthrough,
        Some((eid, p)) => {
            match string_at(b, p) {
                None => Outcome::Passthrough,
                Some((title, p2)) => {
                    if b.len() < p2 + 8 {
                        Outcome::Passthrough
                    } else {
                        let (direction, p3) = u8_or(b, p2 + 8, 0);
                        converted(
                            V164_S2C_SPAWN_PAINTING,
                            be_i32(eid) + ucs2_string(title)
                                + be_i32(legacy_position_of(u64_at(b, p2)).x)
                                + be_i32(legacy_position_of(u64_at(b, p2)).y)
                                + be_i32(legacy_position_of(u64_at(b, p2)).z)
                                + be_i32(direction as i32),
                        )
                    }
                },
            }
        },
    }
}

pub fn s2c_spawn_painting(body: Bytes) -> (res: ConversionResult)
    ensures
        res@ == spec_s2c_spawn_painting(content(body)),
{
    broadcast use empty_then;

    let mut r = Reader::new(body);
    let eid: i32 = match r.varint() {
        Some(v) => v,
        None => {
            return ConversionResult::Passthrough;
        },
    };
    let title: String = match r.string() {
        Some(s) => s,
        None => {
            return ConversionResult::Passthrough;
        },
    };
    if !r.has(8) {
        return ConversionResult::Passthrough;
    }
    let pos = decode_legacy_position(r.get_u64());
    let direction: u8 = r.u8_or(0);
    let mut out = Writer::new();
    out.i32(eid);
    out.ucs2(title.as_str());
    out.i32(pos.x);
    out.i32(pos.y);
    out.i32(pos.z);
    out.i32(direction as i32);
    emit(V164_S2C_SPAWN_PAINTING, out)
}

/// Animation: the id becomes 32 bits.
pub open spec fn spec_s2c_animation(b: Seq<u8>) -> Outcome {
    match varint_at(b, 0) {
        None => Outcome::Passthrough,
        Some((eid, p)) => {
            if b.len() < p + 1 {
                Outcome::Passthrough
            } else {
                converted(V164_S2C_ANIMATION, be_i32(eid) + seq![b[p]])
            }
        },
    }
}

pub fn s2c_animation(body: Bytes) -> (res: ConversionResult)
    ensures
        res@ == spec_s2c_animation(content(body)),
{
    broadcast use empty_then;

    let mut r = Reader::new(body);
    let eid: i32 = match r.varint() {
        Some(v) => v,
        None => {
            return ConversionResult::Passthrough;
        },
    };
    let animation: u8 = match r.u8() {
        Some(v) => v,
        None => {
            return ConversionResult::Passthrough;
        },
    };
    let mut out = Writer::new();
    out.i32(eid);
    out.u8(animation);
    emit(V164_S2C_ANIMATION, out)
}

/// BlockBreakAnimation: the place is taken apart.
pub open spec fn spec_s2c_block_break_anim(b: Seq<u8>) -> Outcome {
    match varint_at(b, 0) {
        None => Outcome::Passthrough,
        Some((eid, p)) => {
            if b.len() < p + 8 {
                Outcome::Passthrough
            } else {
                let (stage, p2) = i8_or(b, p + 8, 0);
                converted(
                    V164_S2C_BLOCK_BREAK_ANIM,
                    be_i32(eid) + be_i32(legacy_position_of(u64_at(b, p)).x)
                        + be_i32(legacy_position_of(u64_at(b, p)).y)
                        + be_i32(legacy_position_of(u64_at(b, p)).z) + be_i8(stage),
                )
            }
        },
    }
}

pub fn s2c_block_break_anim(body: Bytes) -> (res: ConversionResult)
    ensures
        res@ == spec_s2c_block_break_anim(content(body)),
{
    broadcast use empty_then;

    let mut r = Reader::new(body);
    let eid: i32 = match r.varint() {
        Some(v) => v,
        None => {
            return ConversionResult::Passthrough;
        },
    };
    if !r.has(8) {
        return ConversionResult::Passthrough;
    }
    let pos = decode_legacy_position(r.get_u64());
    let stage: i8 = r.i8_or(0);
    let mut out = Writer::new();
    out.i32(eid);
    out.i32(pos.x);
    out.i32(pos.y);
    out.i32(pos.z);
    out.i8(stage);
    emit(V164_S2C_BLOCK_BREAK_ANIM, out)
}

/// TileEntityData: the place is taken apart, the data stays.
pub open spec fn spec_s2c_tile_entity_data(b: Seq<u8>) -> Outcome {
    if b.len() < 8 {
        Outcome::Passthrough
    } else if b.len() < 9 {
        Outcome::Passthrough
    } else {
        converted(
            V164_S2C_TILE_ENTITY_DATA,
            be_i32(legacy_position_of(u64_at(b, 0)).x)
                + be_i16(legacy_position_of(u64_at(b, 0)).y as i16)
                + be_i32(legacy_position_of(u64_at(b, 0)).z) + seq![b[8]] + b.skip(9),
        )
    }
}

pub fn s2c_tile_entity_data(body: Bytes) -> (res: ConversionResult)
    ensures
        res@ == spec_s2c_tile_entity_data(content(body)),
{
    broadcast use empty_then;

    let mut r = Reader::new(body);
    if !r.has(8) {
        return ConversionResult::Passthrough;
    }
    let pos = decode_legacy_position(r.get_u64());
    let action: u8 = match r.u8() {
        Some(v) => v,
        None => {
            return ConversionResult::Passthrough;
        },
    };
    let data = r.rest();
    let mut out = Writer::new();
    out.i32(pos.x);
    out.i16(pos.y as i16);
    out.i32(pos.z);
    out.u8(action);
    out.raw(bytes_to_vec(&data).as_slice());
    emit(V164_S2C_TILE_ENTITY_DATA, out)
}

/// BlockAction: the place is taken apart, and the block id keeps its low 16 bits.
pub open spec fn spec_s2c_block_action(b: Seq<u8>) -> Outcome {
    if b.len() < 8 {
        Outcome::Passthrough
    } else {
        let (first, p) = u8_or(b, 8, 0);
        let (second, p2) = u8_or(b, p, 0);
        let (block_id, p3) = varint_or(b, p2, 0);
        converted(
            V164_S2C_BLOCK_ACTION,
            be_i32(legacy_position_of(u64_at(b, 0)).x)
                + be_i16(legacy_position_of(u64_at(b, 0)).y as i16)
                + be_i32(legacy_position_of(u64_at(b, 0)).z) + seq![first] + seq![second]
                + be_i16(block_id as i16),
        )
    }
}

pub fn s2c_block_action(body: Bytes) -> (res: ConversionResult)
    ensures
        res@ == spec_s2c_block_action(content(body)),
{
    broadcast use empty_then;

    let mut r = Reader::new(body);
    if !r.has(8) {
        return ConversionResult::Passthrough;
    }
    let pos = decode_legacy_position(r.get_u64());
    let first: u8 = r.u8_or(0);
    let second: u8 = r.u8_or(0);
    let block_id: i32 = r.varint_or(0);
    let mut out = Writer::new();
    out.i32(pos.x);
    out.i16(pos.y as i16);
    out.i32(pos.z);
    out.u8(first);
    out.u8(second);
    out.i16(block_id as i16);
    emit(V164_S2C_BLOCK_ACTION, out)
}

/// OpenWindow: the kind becomes a number, 0 where the name is unknown. A horse's window has
/// its own title and ends with the horse's id, 0 where it is missing.
pub open spec fn spec_s2c_open_window(b: Seq<u8>) -> Outcome {
    if b.len() < 1 {
        Outcome::Passthrough
    } else {
        match string_at(b, 1) {
            None => Outcome::Passthrough,
            Some((kind_name, p)) => {
                match string_at(b, p) {
                    None => Outcome::Passthrough,
                    Some((title, p2)) => {
                        let (slots, p3) = u8_or(b, p2, 0);
                        let kind = spec_window_number(kind_name);
                        let base = seq![b[0]] + seq![kind] + ucs2_string(title) + seq![slots];
                        if kind == 11 {
                            converted(V164_S2C_OPEN_WINDOW, base + seq![1u8] + be_i32(i32_or(b, p3, 0).0))
                        } else {
                            converted(V164_S2C_OPEN_WINDOW, base)
                        }
                    },
                }
            },
        }
    }
}

pub fn s2c_open_window(body: Bytes) -> (res: ConversionResult)
    ensures
        res@ == spec_s2c_open_window(content(body)),
{
    broadcast use empty_then;

    let mut r = Reader::new(body);
    let window_id: u8 = match r.u8() {
        Some(v) => v,
        None => {
            return ConversionResult::Passthrough;
        },
    };
    let kind_name: String = match r.string() {
        Some(s) => s,
        None => {
            return ConversionResult::Passthrough;
        },
    };
    let title: String = match r.string() {
        Some(s) => s,
        None => {
            return ConversionResult::Passthrough;
        },
    };
    let slots: u8 = r.u8_or(0);
    let kind: u8 = window_number(&kind_name);
    let mut out = Writer::new();
    out.u8(window_id);
    out.u8(kind);
    out.ucs2(title.as_str());
    out.u8(slots);
    if kind == 11 {
        out.u8(1);
        let eid: i32 = r.i32_or(0);
        out.i32(eid);
    }
    emit(V164_S2C_OPEN_WINDOW, out)
}

/// CloseWindow: the same field.
pub open spec fn spec_s2c_close_window(b: Seq<u8>) -> Outcome {
    if b.len() < 1 {
        Outcome::Passthrough
    } else {
        converted(V164_S2C_CLOSE_WINDOW, b)
    }
}

pub fn s2c_close_window(body: Bytes) -> (res: ConversionResult)
    ensures
        res@ == spec_s2c_close_window(content(body)),
{
    if bytes_len(&body) < 1 {
        ConversionResult::Passthrough
    } else {
        rebuild_with_id(V164_S2C_CLOSE_WINDOW, &body)
    }
}

/// SetSlot: the item is taken away.
pub open spec fn spec_s2c_set_slot(b: Seq<u8>) -> Outcome {
    if b.len() < 1 {
        Outcome::Passthrough
    } else if b.len() < 3 {
        Outcome::Passthrough
    } else {
        converted(V164_S2C_SET_SLOT, be_i8(i8_at(b, 0)) + be_i16(i16_at(b, 1)) + be_i16(-1i16))
    }
}

pub fn s2c_set_slot(body: Bytes) -> (res: ConversionResult)
    ensures
        res@ == spec_s2c_set_slot(content(body)),
{
    broadcast use empty_then;

    let mut r = Reader::new(body);
    let window_id: i8 = match r.i8() {
        Some(v) => v,
        None => {
            return ConversionResult::Passthrough;
        },
    };
    let slot: i16 = match r.i16() {
        Some(v) => v,
        None => {
            return ConversionResult::Passthrough;
        },
    };
    let mut out = Writer::new();
    out.i8(window_id);
    out.i16(slot);
    out.i16(-1);
    emit(V164_S2C_SET_SLOT, out)
}

/// WindowProperty: the same fields.
pub open spec fn spec_s2c_window_property(b: Seq<u8>) -> Outcome {
    if b.len() < 5 {
        Outcome::Passthrough
    } else {
        converted(V164_S2C_WINDOW_PROPERTY, b)
    }
}

pub fn s2c_window_property(body: Bytes) -> (res: ConversionResult)
    ensures
        res@ == spec_s2c_window_property(content(body)),
{
    if bytes_len(&body) < 5 {
        ConversionResult::Passthrough
    } else {
        rebuild_with_id(V164_S2C_WINDOW_PROPERTY, &body)
    }
}

/// ConfirmTransaction: the same fields.
pub open spec fn spec_s2c_confirm_transaction(b: Seq<u8>) -> Outcome {
    if b.len() < 4 {
        Outcome::Passthrough
    } else {
        converted(V164_S2C_CONFIRM_TRANSACTION, b)
    }
}

pub fn s2c_confirm_transaction(body: Bytes) -> (res: ConversionResult)
    ensures
        res@ == spec_s2c_confirm_transaction(content(body)),
{
    if bytes_len(&body) < 4 {
        ConversionResult::Passthrough
    } else {
        rebuild_with_id(V164_S2C_CONFIRM_TRANSACTION, &body)
    }
}

/// OpenSignEditor: the place is taken apart.
pub open spec fn spec_s2c_open_sign_editor(b: Seq<u8>) -> Outcome {
    if b.len() < 8 {
        Outcome::Passthrough
    } else {
        converted(
            V164_S2C_OPEN_SIGN_EDITOR,
            be_i32(legacy_position_of(u64_at(b, 0)).x)
                + be_i32(legacy_position_of(u64_at(b, 0)).y)
                + be_i32(legacy_position_of(u64_at(b, 0)).z),
        )
    }
}

pub fn s2c_open_sign_editor(body: Bytes) -> (res: ConversionResult)
    ensures
        res@ == spec_s2c_open_sign_editor(content(body)),
{
    broadcast use empty_then;

    let mut r = Reader::new(body);
    if !r.has(8) {
        return ConversionResult::Passthrough;
    }
    let pos = decode_legacy_position(r.get_u64());
    let mut out = Writer::new();
    out.i32(pos.x);
    out.i32(pos.y);
    out.i32(pos.z);
    emit(V164_S2C_OPEN_SIGN_EDITOR, out)
}

/// ScoreboardObjective: the texts change their encoding. A type that does not read is
/// "integer".
pub open spec fn spec_s2c_scoreboard_obj(b: Seq<u8>) -> Outcome {
    match string_at(b, 0) {
        None => Outcome::Passthrough,
        Some((name, p)) => {
            let (mode, p2) = u8_or(b, p, 0);
            let base = ucs2_string(name) + seq![mode];
            if mode == 0 || mode == 2 {
                match string_at(b, p2) {
                    None => Outcome::Passthrough,
                    Some((display, q)) => {
                        let kind = match string_at(b, q) {
                            Some((kind, _)) => kind,
                            None => "integer"@,
                        };
                        converted(V164_S2C_SCOREBOARD_OBJ, base + ucs2_string(display) + ucs2_string(kind))
                    },
                }
            } else {
                converted(V164_S2C_SCOREBOARD_OBJ, base)
            }
        },
    }
}

pub fn s2c_scoreboard_obj(body: Bytes) -> (res: ConversionResult)
    ensures
        res@ == spec_s2c_scoreboard_obj(content(body)),
{
    broadcast use empty_then;

    let mut r = Reader::new(body);
    let name: String = match r.string() {
        Some(s) => s,
        None => {
            return ConversionResult::Passthrough;
        },
    };
    let mode: u8 = r.u8_or(0);
    let mut out = Writer::new();
    out.ucs2(name.as_str());
    out.u8(mode);
    if mode == 0 || mode == 2 {
        let display: String = match r.string() {
            Some(s) => s,
            None => {
                return ConversionResult::Passthrough;
            },
        };
        out.ucs2(display.as_str());
        match r.string() {
            Some(kind) => {
                out.ucs2(kind.as_str());
            },
            None => {
                out.ucs2("integer");
            },
        }
    }
    emit(V164_S2C_SCOREBOARD_OBJ, out)
}

/// UpdateScore: the texts change their encoding.
pub open spec fn spec_s2c_update_score(b: Seq<u8>) -> Outcome {
    match string_at(b, 0) {
        None => Outcome::Passthrough,
        Some((name, p)) => {
            let (action, p2) = u8_or(b, p, 0);
            match string_at(b, p2) {
                None => Outcome::Passthrough,
                Some((objective, p3)) => {
                    let (value, p4) = varint_or(b, p3, 0);
                    converted(
                        V164_S2C_UPDATE_SCORE,
                        ucs2_string(name) + seq![action] + ucs2_string(objective)
                            + be_i32(value),
                    )
                },
            }
        },
    }
}

pub fn s2c_update_score(body: Bytes) -> (res: ConversionResult)
    ensures
        res@ == spec_s2c_update_score(content(body)),
{
    broadcast use empty_then;

    let mut r = Reader::new(body);
    let name: String = match r.string() {
        Some(s) => s,
        None => {
            return ConversionResult::Passthrough;
        },
    };
    let action: u8 = r.u8_or(0);
    let objective: String = match r.string() {
        Some(s) => s,
        None => {
            return ConversionResult::Passthrough;
        },
    };
    let value: i32 = r.varint_or(0);
    let mut out = Writer::new();
    out.ucs2(name.as_str());
    out.u8(action);
    out.ucs2(objective.as_str());
    out.i32(value);
    emit(V164_S2C_UPDATE_SCORE, out)
}

/// DisplayScoreboard: the name changes its encoding.
pub open spec fn spec_s2c_display_scoreboard(b: Seq<u8>) -> Outcome {
    let (slot, p) = i8_or(b, 0, 0);
    match string_at(b, p) {
        None => Outcome::Passthrough,
        Some((name, p2)) => {
            converted(V164_S2C_DISPLAY_SCOREBOARD, be_i8(slot) + ucs2_string(name))
        },
    }
}

pub fn s2c_display_scoreboard(body: Bytes) -> (res: ConversionResult)
    ensures
        res@ == spec_s2c_display_scoreboard(content(body)),
{
    broadcast use empty_then;

    let mut r = Reader::new(body);
    let slot: i8 = r.i8_or(0);
    let name: String = match r.string() {
        Some(s) => s,
        None => {
            return ConversionResult::Passthrough;
        },
    };
    let mut out = Writer::new();
    out.i8(slot);
    out.ucs2(name.as_str());
    emit(V164_S2C_DISPLAY_SCOREBOARD, out)
}

/// EntityStatus: the same fields.
pub open spec fn spec_s2c_entity_status(b: Seq<u8>) -> Outcome {
    if b.len() < 5 {
        Outcome::Passthrough
    } else {
        converted(V164_S2C_ENTITY_STATUS, b)
    }
}

pub fn s2c_entity_status(body: Bytes) -> (res: ConversionResult)
    ensures
        res@ == spec_s2c_entity_status(content(body)),
{
    if bytes_len(&body) < 5 {
        ConversionResult::Passthrough
    } else {
        rebuild_with_id(V164_S2C_ENTITY_STATUS, &body)
    }
}

/// AttachEntity: the same fields.
pub open spec fn spec_s2c_attach_entity(b: Seq<u8>) -> Outcome {
    if b.len() < 9 {
        Outcome::Passthrough
    } else {
        converted(V164_S2C_ATTACH_ENTITY, b)
    }
}

pub fn s2c_attach_entity(body: Bytes) -> (res: ConversionResult)
    ensures
        res@ == spec_s2c_attach_entity(content(body)),
{
    if bytes_len(&body) < 9 {
        ConversionResult::Passthrough
    } else {
        rebuild_with_id(V164_S2C_ATTACH_ENTITY, &body)
    }
}

/// EntityMetadata: the metadata is empty.
pub open spec fn spec_s2c_entity_metadata(b: Seq<u8>) -> Outcome {
    match varint_at(b, 0) {
        None => Outcome::Passthrough,
        Some((eid, p)) => {
            converted(V164_S2C_ENTITY_METADATA, be_i32(eid) + seq![0x7Fu8])
        },
    }
}

pub fn s2c_entity_metadata(body: Bytes) -> (res: ConversionResult)
    ensures
        res@ == spec_s2c_entity_metadata(content(body)),
{
    broadcast use empty_then;

    let mut r = Reader::new(body);
    let eid: i32 = match r.varint() {
        Some(v) => v,
        None => {
            return ConversionResult::Passthrough;
        },
    };
    let mut out = Writer::new();
    out.i32(eid);
    out.u8(0x7F);
    emit(V164_S2C_ENTITY_METADATA, out)
}

/// EntityEffect: the duration is held between 0 and 32767.
pub open spec fn spec_s2c_entity_effect(b: Seq<u8>) -> Outcome {
    match varint_at(b, 0) {
        None => Outcome::Passthrough,
        Some((eid, p)) => {
            let (effect, p2) = i8_or(b, p, 0);
            let (amplifier, p3) = i8_or(b, p2, 0);
            let (duration, p4) = varint_or(b, p3, 0);
            converted(
                V164_S2C_ENTITY_EFFECT,
                be_i32(eid) + be_i8(effect) + be_i8(amplifier) + be_i16(spec_clamped(duration)),
            )
        },
    }
}

pub fn s2c_entity_effect(body: Bytes) -> (res: ConversionResult)
    ensures
        res@ == spec_s2c_entity_effect(content(body)),
{
    broadcast use empty_then;

    let mut r = Reader::new(body);
    let eid: i32 = match r.varint() {
        Some(v) => v,
        None => {
            return ConversionResult::Passthrough;
        },
    };
    let effect: i8 = r.i8_or(0);
    let amplifier: i8 = r.i8_or(0);
    let duration: i32 = r.varint_or(0);
    let mut out = Writer::new();
    out.i32(eid);
    out.i8(effect);
    out.i8(amplifier);
    out.i16(clamped(duration));
    emit(V164_S2C_ENTITY_EFFECT, out)
}

/// RemoveEntityEffect: the id becomes 32 bits.
pub open spec fn spec_s2c_remove_entity_effect(b: Seq<u8>) -> Outcome {
    match varint_at(b, 0) {
        None => Outcome::Passthrough,
        Some((eid, p)) => {
            let (effect, p2) = i8_or(b, p, 0);
            converted(V164_S2C_REMOVE_ENTITY_EFFECT, be_i32(eid) + be_i8(effect))
        },
    }
}

pub fn s2c_remove_entity_effect(body: Bytes) -> (res: ConversionResult)
    ensures
        res@ == spec_s2c_remove_entity_effect(content(body)),
{
    broadcast use empty_then;

    let mut r = Reader::new(body);
    let eid: i32 = match r.varint() {
        Some(v) => v,
        None => {
            return ConversionResult::Passthrough;
        },
    };
    let effect: i8 = r.i8_or(0);
    let mut out = Writer::new();
    out.i32(eid);
    out.i8(effect);
    emit(V164_S2C_REMOVE_ENTITY_EFFECT, out)
}

/// EntityVelocity: the id becomes 32 bits.
pub open spec fn spec_s2c_entity_velocity(b: Seq<u8>) -> Outcome {
    match varint_at(b, 0) {
        None => Outcome::Passthrough,
        Some((eid, p)) => {
            let (vx, p2) = i16_or(b, p, 0);
            let (vy, p3) = i16_or(b, p2, 0);
            let (vz, p4) = i16_or(b, p3, 0);
            converted(
                V164_S2C_ENTITY_VELOCITY,
                be_i32(eid) + be_i16(vx) + be_i16(vy) + be_i16(vz),
            )
        },
    }
}

pub fn s2c_entity_velocity(body: Bytes) -> (res: ConversionResult)
    ensures
        res@ == spec_s2c_entity_velocity(content(body)),
{
    broadcast use empty_then;

    let mut r = Reader::new(body);
    let eid: i32 = match r.varint() {
        Some(v) => v,
        None => {
            return ConversionResult::Passthrough;
        },
    };
    let vx: i16 = r.i16_or(0);
    let vy: i16 = r.i16_or(0);
    let vz: i16 = r.i16_or(0);
    let mut out = Writer::new();
    out.i32(eid);
    out.i16(vx);
    out.i16(vy);
    out.i16(vz);
    emit(V164_S2C_ENTITY_VELOCITY, out)
}

/// Effect: the place is taken apart.
pub open spec fn spec_s2c_effect(b: Seq<u8>) -> Outcome {
    if b.len() < 4 {
        Outcome::Passthrough
    } else if b.len() < 12 {
        Outcome::Passthrough
    } else {
        let (data, p) = i32_or(b, 12, 0);
        let (global, p2) = u8_or(b, p, 0);
        converted(
            V164_S2C_EFFECT,
            be_i32(i32_at(b, 0)) + be_i32(legacy_position_of(u64_at(b, 4)).x)
                + be_i32(legacy_position_of(u64_at(b, 4)).y)
                + be_i32(legacy_position_of(u64_at(b, 4)).z) + be_i32(data) + seq![global],
        )
    }
}

pub fn s2c_effect(body: Bytes) -> (res: ConversionResult)
    ensures
        res@ == spec_s2c_effect(content(body)),
{
    broadcast use empty_then;

    let mut r = Reader::new(body);
    let effect: i32 = match r.i32() {
        Some(v) => v,
        None => {
            return ConversionResult::Passthrough;
        },
    };
    if !r.has(8) {
        return ConversionResult::Passthrough;
    }
    let pos = decode_legacy_position(r.get_u64());
    let data: i32 = r.i32_or(0);
    let global: u8 = r.u8_or(0);
    let mut out = Writer::new();
    out.i32(effect);
    out.i32(pos.x);
    out.i32(pos.y);
    out.i32(pos.z);
    out.i32(data);
    out.u8(global);
    emit(V164_S2C_EFFECT, out)
}

/// ChangeGameState: the same fields.
pub open spec fn spec_s2c_game_state(b: Seq<u8>) -> Outcome {
    if b.len() < 5 {
        Outcome::Passthrough
    } else {
        converted(V164_S2C_GAME_STATE, b)
    }
}

pub fn s2c_game_state(body: Bytes) -> (res: ConversionResult)
    ensures
        res@ == spec_s2c_game_state(content(body)),
{
    if bytes_len(&body) < 5 {
        ConversionResult::Passthrough
    } else {
        rebuild_with_id(V164_S2C_GAME_STATE, &body)
    }
}

/// The 1.6.4 form of a 1.12.2 packet toward the server. Packets without a counterpart are
/// dropped, unknown ones are left alone.
pub open spec fn spec_c2s(id: u8, b: Seq<u8>) -> Outcome {
    if id == V112_C2S_TELEPORT_CONFIRM {
        Outcome::Drop
    } else if id == V112_C2S_TAB_COMPLETE {
        spec_c2s_tab_complete(b)
    } else if id == V112_C2S_KEEP_ALIVE {
        spec_c2s_keep_alive(b)
    } else if id == V112_C2S_CHAT {
        spec_c2s_chat(b)
    } else if id == V112_C2S_CLIENT_STATUS {
        spec_c2s_client_status(b)
    } else if id == V112_C2S_CLIENT_SETTINGS {
        spec_c2s_client_settings(b)
    } else if id == V112_C2S_CONFIRM_TRANSACTION {
        spec_c2s_confirm_transaction(b)
    } else if id == V112_C2S_ENCHANT_ITEM {
        spec_c2s_enchant_item(b)
    } else if id == V112_C2S_WINDOW_CLICK {
        spec_c2s_window_click(b)
    } else if id == V112_C2S_CLOSE_WINDOW {
        spec_c2s_close_window(b)
    } else if id == V112_C2S_PLUGIN_MESSAGE {
        spec_c2s_plugin_message(b)
    } else if id == V112_C2S_USE_ENTITY {
        spec_c2s_use_entity(b)
    } else if id == V112_C2S_MOVE_PLAYER_POS {
        spec_c2s_move_player_pos(b)
    } else if id == V112_C2S_PLAYER_POS_LOOK {
        spec_c2s_player_pos_look(b)
    } else if id == V112_C2S_MOVE_PLAYER_ROT {
        spec_c2s_move_player_rot(b)
    } else if id == V112_C2S_STEER_VEHICLE {
        spec_c2s_steer_vehicle(b)
    } else if id == V112_C2S_PLAYER_ABILITIES {
        spec_c2s_player_abilities(b)
    } else if id == V112_C2S_PLAYER_DIGGING {
        spec_c2s_player_digging(b)
    } else if id == V112_C2S_ENTITY_ACTION {
        spec_c2s_entity_action(b)
    } else if id == V112_C2S_HELD_ITEM_CHANGE {
        spec_c2s_held_item_change(b)
    } else if id == V112_C2S_CREATIVE_INV {
        spec_c2s_creative_inv(b)
    } else if id == V112_C2S_UPDATE_SIGN {
        spec_c2s_update_sign(b)
    } else if id == V112_C2S_ANIMATION {
        spec_c2s_animation(b)
    } else if id == V112_C2S_PLAYER_BLOCK_PLACEMENT {
        spec_c2s_player_block_placement(b)
    } else if id == V112_C2S_USE_ITEM {
        Outcome::Drop
    } else {
        if spec_unknown_to_old_server(id) {
            Outcome::Drop
        } else {
            Outcome::Passthrough
        }
    }
}

fn c2s(id: u8, body: Bytes) -> (res: ConversionResult)
    ensures
        res@ == spec_c2s(id, content(body)),
{
    if id == V112_C2S_TELEPORT_CONFIRM {
        ConversionResult::Drop
    } else if id == V112_C2S_TAB_COMPLETE {
        c2s_tab_complete(body)
    } else if id == V112_C2S_KEEP_ALIVE {
        c2s_keep_alive(body)
    } else if id == V112_C2S_CHAT {
        c2s_chat(body)
    } else if id == V112_C2S_CLIENT_STATUS {
        c2s_client_status(body)
    } else if id == V112_C2S_CLIENT_SETTINGS {
        c2s_client_settings(body)
    } else if id == V112_C2S_CONFIRM_TRANSACTION {
        c2s_confirm_transaction(body)
    } else if id == V112_C2S_ENCHANT_ITEM {
        c2s_enchant_item(body)
    } else if id == V112_C2S_WINDOW_CLICK {
        c2s_window_click(body)
    } else if id == V112_C2S_CLOSE_WINDOW {
        c2s_close_window(body)
    } else if id == V112_C2S_PLUGIN_MESSAGE {
        c2s_plugin_message(body)
    } else if id == V112_C2S_USE_ENTITY {
        c2s_use_entity(body)
    } else if id == V112_C2S_MOVE_PLAYER_POS {
        c2s_move_player_pos(body)
    } else if id == V112_C2S_PLAYER_POS_LOOK {
        c2s_player_pos_look(body)
    } else if id == V112_C2S_MOVE_PLAYER_ROT {
        c2s_move_player_rot(body)
    } else if id == V112_C2S_STEER_VEHICLE {
        c2s_steer_vehicle(body)
    } else if id == V112_C2S_PLAYER_ABILITIES {
        c2s_player_abilities(body)
    } else if id == V112_C2S_PLAYER_DIGGING {
        c2s_player_digging(body)
    } else if id == V112_C2S_ENTITY_ACTION {
        c2s_entity_action(body)
    } else if id == V112_C2S_HELD_ITEM_CHANGE {
        c2s_held_item_change(body)
    } else if id == V112_C2S_CREATIVE_INV {
        c2s_creative_inv(body)
    } else if id == V112_C2S_UPDATE_SIGN {
        c2s_update_sign(body)
    } else if id == V112_C2S_ANIMATION {
        c2s_animation(body)
    } else if id == V112_C2S_PLAYER_BLOCK_PLACEMENT {
        c2s_player_block_placement(body)
    } else if id == V112_C2S_USE_ITEM {
        ConversionResult::Drop
    } else {
        if unknown_to_old_server(id) {
            ConversionResult::Drop
        } else {
            ConversionResult::Passthrough
        }
    }
}

/// The 1.6.4 form of a 1.12.2 packet toward the client. Packets without a counterpart are
/// dropped, unknown ones are left alone.
pub open spec fn spec_s2c(id: u8, b: Seq<u8>) -> Outcome {
    if id == V112_S2C_KEEP_ALIVE {
        spec_s2c_keep_alive(b)
    } else if id == V112_S2C_JOIN_GAME {
        spec_s2c_join_game(b)
    } else if id == V112_S2C_CHAT {
        spec_s2c_chat(b)
    } else if id == V112_S2C_TIME_UPDATE {
        spec_s2c_time_update(b)
    } else if id == V112_S2C_SPAWN_POSITION {
        spec_s2c_spawn_position(b)
    } else if id == V112_S2C_UPDATE_HEALTH {
        spec_s2c_update_health(b)
    } else if id == V112_S2C_RESPAWN {
        spec_s2c_respawn(b)
    } else if id == V112_S2C_PLAYER_POS_LOOK {
        spec_s2c_player_pos_look(b)
    } else if id == V112_S2C_HELD_ITEM_CHANGE {
        spec_s2c_held_item_change(b)
    } else if id == V112_S2C_PLAYER_ABILITIES {
        spec_s2c_player_abilities(b)
    } else if id == V112_S2C_DISCONNECT {
        spec_s2c_disconnect(b)
    } else if id == V112_S2C_PLUGIN_MESSAGE {
        spec_s2c_plugin_message(b)
    } else if id == V112_S2C_BLOCK_CHANGE {
        spec_s2c_block_change(b)
    } else if id == V112_S2C_SPAWN_PLAYER {
        spec_s2c_spawn_player(b)
    } else if id == V112_S2C_SPAWN_OBJECT {
        spec_s2c_spawn_object(b)
    } else if id == V112_S2C_SPAWN_MOB {
        spec_s2c_spawn_mob(b)
    } else if id == V112_S2C_SPAWN_PAINTING {
        spec_s2c_spawn_painting(b)
    } else if id == V112_S2C_SPAWN_EXP_ORB {
        spec_s2c_spawn_exp_orb(b)
    } else if id == V112_S2C_SPAWN_GLOBAL {
        spec_s2c_spawn_global(b)
    } else if id == V112_S2C_ENTITY {
        spec_s2c_entity(b)
    } else if id == V112_S2C_ENTITY_REL_MOVE {
        spec_s2c_entity_rel_move(b)
    } else if id == V112_S2C_ENTITY_LOOK {
        spec_s2c_entity_look(b)
    } else if id == V112_S2C_ENTITY_LOOK_REL_MOVE {
        spec_s2c_entity_look_rel_move(b)
    } else if id == V112_S2C_ENTITY_TELEPORT {
        spec_s2c_entity_teleport(b)
    } else if id == V112_S2C_ENTITY_HEAD_LOOK {
        spec_s2c_entity_head_look(b)
    } else if id == V112_S2C_ENTITY_STATUS {
        spec_s2c_entity_status(b)
    } else if id == V112_S2C_ATTACH_ENTITY {
        spec_s2c_attach_entity(b)
    } else if id == V112_S2C_ENTITY_METADATA {
        spec_s2c_entity_metadata(b)
    } else if id == V112_S2C_ENTITY_EFFECT {
        spec_s2c_entity_effect(b)
    } else if id == V112_S2C_REMOVE_ENTITY_EFFECT {
        spec_s2c_remove_entity_effect(b)
    } else if id == V112_S2C_SET_EXPERIENCE {
        spec_s2c_set_experience(b)
    } else if id == V112_S2C_ENTITY_PROPERTIES {
        spec_s2c_entity_properties(b)
    } else if id == V112_S2C_DESTROY_ENTITIES {
        spec_s2c_destroy_entities(b)
    } else if id == V112_S2C_COLLECT_ITEM {
        spec_s2c_collect_item(b)
    } else if id == V112_S2C_ENTITY_EQUIPMENT {
        spec_s2c_entity_equipment(b)
    } else if id == V112_S2C_ENTITY_VELOCITY {
        spec_s2c_entity_velocity(b)
    } else if id == V112_S2C_ANIMATION {
        spec_s2c_animation(b)
    } else if id == V112_S2C_BLOCK_BREAK_ANIM {
        spec_s2c_block_break_anim(b)
    } else if id == V112_S2C_BLOCK_ACTION {
        spec_s2c_block_action(b)
    } else if id == V112_S2C_TILE_ENTITY_DATA {
        spec_s2c_tile_entity_data(b)
    } else if id == V112_S2C_OPEN_WINDOW {
        spec_s2c_open_window(b)
    } else if id == V112_S2C_CLOSE_WINDOW {
        spec_s2c_close_window(b)
    } else if id == V112_S2C_SET_SLOT {
        spec_s2c_set_slot(b)
    } else if id == V112_S2C_WINDOW_ITEMS {
        spec_s2c_window_items(b)
    } else if id == V112_S2C_WINDOW_PROPERTY {
        spec_s2c_window_property(b)
    } else if id == V112_S2C_CONFIRM_TRANSACTION {
        spec_s2c_confirm_transaction(b)
    } else if id == V112_S2C_OPEN_SIGN_EDITOR {
        spec_s2c_open_sign_editor(b)
    } else if id == V112_S2C_STATISTICS {
        spec_s2c_statistics(b)
    } else if id == V112_S2C_TAB_COMPLETE {
        spec_s2c_tab_complete(b)
    } else if id == V112_S2C_SCOREBOARD_OBJ {
        spec_s2c_scoreboard_obj(b)
    } else if id == V112_S2C_UPDATE_SCORE {
        spec_s2c_update_score(b)
    } else if id == V112_S2C_DISPLAY_SCOREBOARD {
        spec_s2c_display_scoreboard(b)
    } else if id == V112_S2C_TEAMS {
        spec_s2c_teams(b)
    } else if id == V112_S2C_EFFECT {
        spec_s2c_effect(b)
    } else if id == V112_S2C_NAMED_SOUND {
        Outcome::Drop
    } else if id == V112_S2C_EXPLOSION {
        spec_s2c_explosion(b)
    } else if id == V112_S2C_GAME_STATE {
        spec_s2c_game_state(b)
    } else if id == V112_S2C_PARTICLE {
        Outcome::Drop
    } else {
        if spec_unknown_to_old_client(id) {
            Outcome::Drop
        } else {
            Outcome::Passthrough
        }
    }
}

fn s2c(id: u8, body: Bytes) -> (res: ConversionResult)
    ensures
        res@ == spec_s2c(id, content(body)),
{
    if id == V112_S2C_KEEP_ALIVE {
        s2c_keep_alive(body)
    } else if id == V112_S2C_JOIN_GAME {
        s2c_join_game(body)
    } else if id == V112_S2C_CHAT {
        s2c_chat(body)
    } else if id == V112_S2C_TIME_UPDATE {
        s2c_time_update(body)
    } else if id == V112_S2C_SPAWN_POSITION {
        s2c_spawn_position(body)
    } else if id == V112_S2C_UPDATE_HEALTH {
        s2c_update_health(body)
    } else if id == V112_S2C_RESPAWN {
        s2c_respawn(body)
    } else if id == V112_S2C_PLAYER_POS_LOOK {
        s2c_player_pos_look(body)
    } else if id == V112_S2C_HELD_ITEM_CHANGE {
        s2c_held_item_change(body)
    } else if id == V112_S2C_PLAYER_ABILITIES {
        s2c_player_abilities(body)
    } else if id == V112_S2C_DISCONNECT {
        s2c_disconnect(body)
    } else if id == V112_S2C_PLUGIN_MESSAGE {
        s2c_plugin_message(body)
    } else if id == V112_S2C_BLOCK_CHANGE {
        s2c_block_change(body)
    } else if id == V112_S2C_SPAWN_PLAYER {
        s2c_spawn_player(body)
    } else if id == V112_S2C_SPAWN_OBJECT {
        s2c_spawn_object(body)
    } else if id == V112_S2C_SPAWN_MOB {
        s2c_spawn_mob(body)
    } else if id == V112_S2C_SPAWN_PAINTING {
        s2c_spawn_painting(body)
    } else if id == V112_S2C_SPAWN_EXP_ORB {
        s2c_spawn_exp_orb(body)
    } else if id == V112_S2C_SPAWN_GLOBAL {
        s2c_spawn_global(body)
    } else if id == V112_S2C_ENTITY {
        s2c_entity(body)
    } else if id == V112_S2C_ENTITY_REL_MOVE {
        s2c_entity_rel_move(body)
    } else if id == V112_S2C_ENTITY_LOOK {
        s2c_entity_look(body)
    } else if id == V112_S2C_ENTITY_LOOK_REL_MOVE {
        s2c_entity_look_rel_move(body)
    } else if id == V112_S2C_ENTITY_TELEPORT {
        s2c_entity_teleport(body)
    } else if id == V112_S2C_ENTITY_HEAD_LOOK {
        s2c_entity_head_look(body)
    } else if id == V112_S2C_ENTITY_STATUS {
        s2c_entity_status(body)
    } else if id == V112_S2C_ATTACH_ENTITY {
        s2c_attach_entity(body)
    } else if id == V112_S2C_ENTITY_METADATA {
        s2c_entity_metadata(body)
    } else if id == V112_S2C_ENTITY_EFFECT {
        s2c_entity_effect(body)
    } else if id == V112_S2C_REMOVE_ENTITY_EFFECT {
        s2c_remove_entity_effect(body)
    } else if id == V112_S2C_SET_EXPERIENCE {
        s2c_set_experience(body)
    } else if id == V112_S2C_ENTITY_PROPERTIES {
        s2c_entity_properties(body)
    } else if id == V112_S2C_DESTROY_ENTITIES {
        s2c_destroy_entities(body)
    } else if id == V112_S2C_COLLECT_ITEM {
        s2c_collect_item(body)
    } else if id == V112_S2C_ENTITY_EQUIPMENT {
        s2c_entity_equipment(body)
    } else if id == V112_S2C_ENTITY_VELOCITY {
        s2c_entity_velocity(body)
    } else if id == V112_S2C_ANIMATION {
        s2c_animation(body)
    } else if id == V112_S2C_BLOCK_BREAK_ANIM {
        s2c_block_break_anim(body)
    } else if id == V112_S2C_BLOCK_ACTION {
        s2c_block_action(body)
    } else if id == V112_S2C_TILE_ENTITY_DATA {
        s2c_tile_entity_data(body)
    } else if id == V112_S2C_OPEN_WINDOW {
        s2c_open_window(body)
    } else if id == V112_S2C_CLOSE_WINDOW {
        s2c_close_window(body)
    } else if id == V112_S2C_SET_SLOT {
        s2c_set_slot(body)
    } else if id == V112_S2C_WINDOW_ITEMS {
        s2c_window_items(body)
    } else if id == V112_S2C_WINDOW_PROPERTY {
        s2c_window_property(body)
    } else if id == V112_S2C_CONFIRM_TRANSACTION {
        s2c_confirm_transaction(body)
    } else if id == V112_S2C_OPEN_SIGN_EDITOR {
        s2c_open_sign_editor(body)
    } else if id == V112_S2C_STATISTICS {
        s2c_statistics(body)
    } else if id == V112_S2C_TAB_COMPLETE {
        s2c_tab_complete(body)
    } else if id == V112_S2C_SCOREBOARD_OBJ {
        s2c_scoreboard_obj(body)
    } else if id == V112_S2C_UPDATE_SCORE {
        s2c_update_score(body)
    } else if id == V112_S2C_DISPLAY_SCOREBOARD {
        s2c_display_scoreboard(body)
    } else if id == V112_S2C_TEAMS {
        s2c_teams(body)
    } else if id == V112_S2C_EFFECT {
        s2c_effect(body)
    } else if id == V112_S2C_NAMED_SOUND {
        ConversionResult::Drop
    } else if id == V112_S2C_EXPLOSION {
        s2c_explosion(body)
    } else if id == V112_S2C_GAME_STATE {
        s2c_game_state(body)
    } else if id == V112_S2C_PARTICLE {
        ConversionResult::Drop
    } else {
        if unknown_to_old_client(id) {
            ConversionResult::Drop
        } else {
            ConversionResult::Passthrough
        }
    }
}

/// What becomes of a packet toward the server.
pub open spec fn spec_convert_c2s(p: Seq<u8>) -> Outcome {
    match split(p) {
        Some((id, b)) => spec_c2s(id, b),
        None => Outcome::Passthrough,
    }
}

/// Converts a packet toward the server.
pub fn convert_c2s(payload: Bytes) -> (res: ConversionResult)
    ensures
        res@ == spec_convert_c2s(content(payload)),
{
    match split_id(payload) {
        Some((id, body)) => c2s(id, body),
        None => ConversionResult::Passthrough,
    }
}

/// Whether a packet toward the client can be converted: a list of suggestions has no
/// negative length.
pub open spec fn s2c_readable(p: Seq<u8>) -> bool {
    match split(p) {
        Some((id, b)) => id == V112_S2C_TAB_COMPLETE ==> match varint_at(b, 0) {
            Some((count, _)) => count >= 0,
            None => true,
        },
        None => true,
    }
}

/// What becomes of a packet toward the client.
pub open spec fn spec_convert_s2c(p: Seq<u8>) -> Outcome {
    match split(p) {
        Some((id, b)) => spec_s2c(id, b),
        None => Outcome::Passthrough,
    }
}

/// Converts a packet toward the client.
pub fn convert_s2c(payload: Bytes) -> (res: ConversionResult)
    requires
        s2c_readable(content(payload)),
    ensures
        res@ == spec_convert_s2c(content(payload)),
{
    match split_id(payload) {
        Some((id, body)) => s2c(id, body),
        None => ConversionResult::Passthrough,
    }
}

/// Converts a packet toward the client, or gives `None` where a completion announces a
/// negative number of parts.
pub fn try_convert_s2c(payload: Bytes) -> (res: Option<ConversionResult>)
    ensures
        res is Some <==> s2c_readable(content(payload)),
        res matches Some(c) ==> c@ == spec_convert_s2c(content(payload)),
{
    match split_id(payload) {
        Some((id, body)) => {
            if id == V112_S2C_TAB_COMPLETE {
                let mut r = Reader::new(bytes_clone(&body));
                match r.varint() {
                    Some(count) => {
                        if count < 0 {
                            return None;
                        }
                    },
                    None => {},
                }
            }
            Some(s2c(id, body))
        },
        None => Some(ConversionResult::Passthrough),
    }
}

// Laws.

/// The body of a 1.6.4 SteerVehicle.
pub open spec fn steering(sideways: u32, forward: u32, jump: bool, leave: bool) -> Seq<u8> {
    be32(sideways) + be32(forward) + seq![if jump { 1u8 } else { 0u8 }] + seq![if leave { 1u8 } else { 0u8 }]
}

/// What a SteerVehicle of 1.6.4 holds comes back from 1.12.2 as it was.
pub proof fn steering_comes_back(sideways: u32, forward: u32, jump: bool, leave: bool)
    ensures
        ({
            let b = steering(sideways, forward, jump, leave);
            let flags = ((if jump { 1int } else { 0 }) + (if leave { 2int } else { 0 })) as u8;
            let m = be32(sideways) + be32(forward) + seq![flags];
            &&& v1_6_4_to_v1_12_2::spec_c2s_steer_vehicle(b) == converted(
                v1_6_4_to_v1_12_2::V112_C2S_STEER_VEHICLE_OUT,
                m,
            )
            &&& spec_c2s_steer_vehicle(m) == converted(V164_C2S_STEER_VEHICLE, b)
        }),
{
    let b = steering(sideways, forward, jump, leave);
    let flags = ((if jump { 1int } else { 0 }) + (if leave { 2int } else { 0 })) as u8;
    let m = be32(sideways) + be32(forward) + seq![flags];
    assert(0u8 & 1 == 0 && 1u8 & 1 == 1 && 2u8 & 1 == 0 && 3u8 & 1 == 1 && 0u8 & 2 == 0 && 1u8 & 2 == 0 && 2u8 & 2
        == 2 && 3u8 & 2 == 2) by (bit_vector);
    assert(b.subrange(0, 4) =~= be32(sideways) && b.subrange(4, 8) =~= be32(forward));
    assert(m.subrange(0, 4) =~= be32(sideways) && m.subrange(4, 8) =~= be32(forward));
    u32_there(b, 0, sideways);
    u32_there(b, 4, forward);
    u32_there(m, 0, sideways);
    u32_there(m, 4, forward);
    assert(m[8] == flags);
    assert(b[8] == (if jump { 1u8 } else { 0u8 }) && b[9] == (if leave { 1u8 } else { 0u8 }));
}

/// The body of a 1.6.4 EntityRelativeMove.
pub open spec fn step(entity_id: i32, dx: i8, dy: i8, dz: i8) -> Seq<u8> {
    be_i32(entity_id) + be_i8(dx) + be_i8(dy) + be_i8(dz)
}

/// A step of a whole number of 32nds reads back from the 4096ths that it was written in.
proof fn step_reads_back(b: Seq<u8>, p: int, d: i8)
    requires
        0 <= p,
        p + 2 <= b.len(),
        b.subrange(p, p + 2) == be_i16((d * 128) as i16),
    ensures
        over_128(i16_at(b, p) as int) as i8 == d,
{
    let wide = (d * 128) as i16;
    u16_there(b, p, wide as u16);
    assert((wide as u16) as i16 == wide) by (bit_vector);
}

/// What an EntityRelativeMove of 1.6.4 holds comes back from 1.12.2 as it was.
pub proof fn step_comes_back(entity_id: i32, dx: i8, dy: i8, dz: i8)
    ensures
        ({
            let b = step(entity_id, dx, dy, dz);
            let m = varint(entity_id) + be_i16((dx * 128) as i16) + be_i16((dy * 128) as i16) + be_i16(
                (dz * 128) as i16,
            ) + seq![0u8];
            &&& v1_6_4_to_v1_12_2::spec_s2c_entity_rel_move(b) == converted(
                v1_6_4_to_v1_12_2::V112_S2C_ENTITY_REL_MOVE,
                m,
            )
            &&& spec_s2c_entity_rel_move(m) == converted(V164_S2C_ENTITY_REL_MOVE, b)
        }),
{
    let b = step(entity_id, dx, dy, dz);
    let steps = be_i16((dx * 128) as i16) + be_i16((dy * 128) as i16) + be_i16((dz * 128) as i16) + seq![0u8];
    let m = varint(entity_id) + be_i16((dx * 128) as i16) + be_i16((dy * 128) as i16) + be_i16((dz * 128) as i16)
        + seq![0u8];
    let p = varint(entity_id).len() as int;
    assert(b.subrange(0, 4) =~= be_i32(entity_id));
    u32_there(b, 0, entity_id as u32);
    assert((entity_id as u32) as i32 == entity_id) by (bit_vector);
    assert((dx as u8) as i8 == dx && (dy as u8) as i8 == dy && (dz as u8) as i8 == dz) by (bit_vector);
    varint_round_trip(entity_id, Seq::empty(), steps);
    assert(Seq::<u8>::empty() + varint(entity_id) + steps =~= m);
    assert(m.subrange(p, p + 2) =~= be_i16((dx * 128) as i16));
    assert(m.subrange(p + 2, p + 4) =~= be_i16((dy * 128) as i16));
    assert(m.subrange(p + 4, p + 6) =~= be_i16((dz * 128) as i16));
    step_reads_back(m, p, dx);
    step_reads_back(m, p + 2, dy);
    step_reads_back(m, p + 4, dz);
}

/// The body of a 1.6.4 BlockChange.
pub open spec fn block_change(x: i32, y: u8, z: i32, block_id: i16, metadata: u8) -> Seq<u8> {
    be_i32(x) + seq![y] + be_i32(z) + be_i16(block_id) + seq![metadata]
}

/// The fields of a 1.6.4 BlockChange read as they were written.
proof fn block_change_fields(x: i32, y: u8, z: i32, block_id: i16, metadata: u8)
    ensures
        ({
            let b = block_change(x, y, z, block_id, metadata);
            &&& b.len() == 12
            &&& i32_at(b, 0) == x
            &&& b[4] == y
            &&& i32_at(b, 5) == z
            &&& i16_at(b, 9) == block_id
            &&& b[11] == metadata
        }),
{
    let b = block_change(x, y, z, block_id, metadata);
    assert(b.subrange(0, 4) =~= be_i32(x));
    assert(b.subrange(5, 9) =~= be_i32(z));
    assert(b.subrange(9, 11) =~= be_i16(block_id));
    u32_there(b, 0, x as u32);
    u32_there(b, 5, z as u32);
    u16_there(b, 9, block_id as u16);
    assert((x as u32) as i32 == x && (z as u32) as i32 == z) by (bit_vector);
    assert((block_id as u16) as i16 == block_id) by (bit_vector);
}

/// A packed place with a number of variable length behind it reads as it was written.
proof fn place_reads_back(bits: u64, state: i32)
    ensures
        ({
            let m = be_i64(bits as i64) + varint(state);
            &&& m.len() >= 8
            &&& u64_at(m, 0) == bits
            &&& varint_at(m, 8) == Some((state, m.len() as int))
        }),
{
    let place = be_i64(bits as i64);
    let m = place + varint(state);
    assert((bits as i64) as u64 == bits) by (bit_vector);
    u64_round_trip(bits, varint(state));
    assert(place.len() == 8);
    varint_round_trip(state, place, Seq::empty());
    assert(place + varint(state) + Seq::<u8>::empty() =~= m);
}

/// What a BlockChange of 1.6.4 holds comes back from 1.12.2 as it was, where its place can be
/// packed, its id is not negative and its metadata is of four bits.
pub proof fn block_change_comes_back(x: i32, y: u8, z: i32, block_id: i16, metadata: u8)
    requires
        packable(x as int, y as int, z as int),
        0 <= block_id,
        metadata < 16,
    ensures
        ({
            let b = block_change(x, y, z, block_id, metadata);
            let m = be_i64(legacy_bits(x as int, y as int, z as int) as i64) + varint(
                (block_id * 16 + metadata) as i32,
            );
            &&& v1_6_4_to_v1_12_2::spec_s2c_block_change(b) == converted(
                v1_6_4_to_v1_12_2::V112_S2C_BLOCK_CHANGE,
                m,
            )
            &&& spec_s2c_block_change(m) == converted(V164_S2C_BLOCK_CHANGE, b)
        }),
{
    let state = (block_id * 16 + metadata) as i32;
    let bits = legacy_bits(x as int, y as int, z as int);
    block_change_fields(x, y, z, block_id, metadata);
    place_reads_back(bits, state);
    legacy_round_trip(Position { x, y: y as i32, z });
    assert(spec_legacy_block_id(state) == block_id && (state as u32 % 16) as u8 == metadata);
    assert((y as i32) as u8 == y) by (bit_vector);
}

} // verus!
