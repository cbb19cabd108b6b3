//! 1.7.10 packets for 1.8.
//!
//! 1.8 packs places into 64 bits in the order x, y, z, makes ids variable-length, adds a
//! position to chat messages and drops the stance from player positions.

use bytes::Bytes;
use crate::converter::outcome::{
    ConversionResult, Outcome, converted, emit, in_front, rebuild_with_id, split, split_id,
};
use crate::converter::safe::{Reader, i32_or};
use crate::converter::v1_6_4_to_v1_12_2::id_list;
use crate::position::{Position, encode_legacy_position, legacy_bits, pack_legacy};
use crate::text::{
    json_line, json_line_of, split_by, split_text, string_at, texts, wire_string, wire_strings,
};
use crate::varint::{varint, varint_at};
use crate::wire::{
    be32, be64, be_i32, be_i64, be_i8, bytes_len, bytes_to_vec, content, i16_at, i32_at, i8_at,
    u32_at, u64_at,
};
use crate::writer::{Writer, empty_then};
use vstd::prelude::*;

verus! {

// Packets of 1.7.10 toward the client.

pub const V17_S2C_JOIN_GAME: u8 = 0x01;
pub const V17_S2C_CHAT: u8 = 0x02;
pub const V17_S2C_EQUIPMENT: u8 = 0x04;
pub const V17_S2C_SPAWN_POSITION: u8 = 0x05;
pub const V17_S2C_UPDATE_HEALTH: u8 = 0x06;
pub const V17_S2C_PLAYER_POS_LOOK: u8 = 0x08;
pub const V17_S2C_USE_BED: u8 = 0x0A;
pub const V17_S2C_SPAWN_PLAYER: u8 = 0x0C;
pub const V17_S2C_SPAWN_PAINTING: u8 = 0x10;
pub const V17_S2C_ENTITY_VELOCITY: u8 = 0x12;
pub const V17_S2C_ENTITY_DESTROY: u8 = 0x13;
pub const V17_S2C_ENTITY: u8 = 0x14;
pub const V17_S2C_ENTITY_REL_MOVE: u8 = 0x15;
pub const V17_S2C_ENTITY_LOOK: u8 = 0x16;
pub const V17_S2C_ENTITY_LOOK_REL_MOVE: u8 = 0x17;
pub const V17_S2C_ENTITY_TELEPORT: u8 = 0x18;
pub const V17_S2C_ENTITY_HEAD_LOOK: u8 = 0x19;
pub const V17_S2C_ENTITY_EFFECT: u8 = 0x1D;
pub const V17_S2C_REMOVE_ENTITY_EFFECT: u8 = 0x1E;
pub const V17_S2C_EXPERIENCE: u8 = 0x1F;
pub const V17_S2C_ENTITY_PROPERTIES: u8 = 0x20;
pub const V17_S2C_CHUNK_DATA: u8 = 0x21;
pub const V17_S2C_MULTI_BLOCK_CHANGE: u8 = 0x22;
pub const V17_S2C_BLOCK_CHANGE: u8 = 0x23;
pub const V17_S2C_BLOCK_ACTION: u8 = 0x24;
pub const V17_S2C_BLOCK_BREAK_ANIM: u8 = 0x25;
pub const V17_S2C_CHUNK_BULK: u8 = 0x26;
pub const V17_S2C_EFFECT: u8 = 0x28;
pub const V17_S2C_PARTICLE: u8 = 0x2A;
pub const V17_S2C_OPEN_WINDOW: u8 = 0x2D;
pub const V17_S2C_UPDATE_SIGN: u8 = 0x33;
pub const V17_S2C_MAP: u8 = 0x34;
pub const V17_S2C_UPDATE_TILE_ENTITY: u8 = 0x35;
pub const V17_S2C_OPEN_SIGN_EDITOR: u8 = 0x36;
pub const V17_S2C_PLAYER_LIST_ITEM: u8 = 0x38;
pub const V17_S2C_TAB_COMPLETE: u8 = 0x3A;
pub const V17_S2C_SCOREBOARD_TEAM: u8 = 0x3E;

pub const V18_S2C_JOIN_GAME: u8 = 0x01;
pub const V18_S2C_CHAT: u8 = 0x02;
pub const V18_S2C_EQUIPMENT: u8 = 0x04;
pub const V18_S2C_SPAWN_POSITION: u8 = 0x05;
pub const V18_S2C_UPDATE_HEALTH: u8 = 0x06;
pub const V18_S2C_PLAYER_POS_LOOK: u8 = 0x08;
pub const V18_S2C_USE_BED: u8 = 0x0A;
pub const V18_S2C_SPAWN_PAINTING: u8 = 0x10;
pub const V18_S2C_ENTITY_VELOCITY: u8 = 0x12;
pub const V18_S2C_ENTITY_DESTROY: u8 = 0x13;
pub const V18_S2C_ENTITY: u8 = 0x14;
pub const V18_S2C_ENTITY_REL_MOVE: u8 = 0x15;
pub const V18_S2C_ENTITY_LOOK: u8 = 0x16;
pub const V18_S2C_ENTITY_LOOK_REL_MOVE: u8 = 0x17;
pub const V18_S2C_ENTITY_TELEPORT: u8 = 0x18;
pub const V18_S2C_ENTITY_HEAD_LOOK: u8 = 0x19;
pub const V18_S2C_ENTITY_EFFECT: u8 = 0x1D;
pub const V18_S2C_REMOVE_ENTITY_EFFECT: u8 = 0x1E;
pub const V18_S2C_EXPERIENCE: u8 = 0x1F;
pub const V18_S2C_ENTITY_PROPERTIES: u8 = 0x20;
pub const V18_S2C_BLOCK_CHANGE: u8 = 0x23;
pub const V18_S2C_BLOCK_ACTION: u8 = 0x24;
pub const V18_S2C_BLOCK_BREAK_ANIM: u8 = 0x25;
pub const V18_S2C_EFFECT: u8 = 0x28;
pub const V18_S2C_OPEN_WINDOW: u8 = 0x2D;
pub const V18_S2C_UPDATE_SIGN: u8 = 0x33;
pub const V18_S2C_UPDATE_TILE_ENTITY: u8 = 0x35;
pub const V18_S2C_OPEN_SIGN_EDITOR: u8 = 0x36;
pub const V18_S2C_TAB_COMPLETE: u8 = 0x3A;
pub const V18_S2C_SCOREBOARD_TEAM: u8 = 0x3E;

/// The coordinates packed in the order x, y, z.
pub fn pack_position_1_8(x: i64, y: i64, z: i64) -> (packed: i64)
    ensures
        packed == legacy_bits(x as int, y as int, z as int) as i64,
{
    pack_legacy(x, y, z) as i64
}

/// JoinGame: the debug information is not reduced.
pub open spec fn spec_s2c_join_game(b: Seq<u8>) -> Outcome {
    if b.len() == 0 {
        Outcome::Passthrough
    } else {
        converted(V18_S2C_JOIN_GAME, b + seq![0u8])
    }
}

pub fn s2c_join_game(body: Bytes) -> (res: ConversionResult)
    ensures
        res@ == spec_s2c_join_game(content(body)),
{
    broadcast use empty_then;

    if bytes_len(&body) == 0 {
        return ConversionResult::Passthrough;
    }
    let mut out = Writer::new();
    out.raw(bytes_to_vec(&body).as_slice());
    out.u8(0);
    emit(V18_S2C_JOIN_GAME, out)
}

/// Chat: the text stands in the chat box.
pub open spec fn spec_s2c_chat(b: Seq<u8>) -> Outcome {
    converted(V18_S2C_CHAT, b + seq![0u8])
}

pub fn s2c_chat(body: Bytes) -> (res: ConversionResult)
    ensures
        res@ == spec_s2c_chat(content(body)),
{
    broadcast use empty_then;

    let mut out = Writer::new();
    out.raw(bytes_to_vec(&body).as_slice());
    out.u8(0);
    emit(V18_S2C_CHAT, out)
}

/// The parts of a completion: none where the text is empty.
pub open spec fn tab_parts_of(joined: Seq<char>) -> Seq<Seq<char>> {
    if joined.len() == 0 {
        seq![]
    } else {
        split_by(joined, '\0')
    }
}

fn tab_parts(joined: &str) -> (parts: Vec<String>)
    ensures
        texts(parts@) == tab_parts_of(joined@),
{
    if joined.unicode_len() == 0 {
        let parts: Vec<String> = Vec::new();
        assert(texts(parts@) =~= tab_parts_of(joined@));
        parts
    } else {
        split_text(joined, '\0')
    }
}

/// The name of a kind of window.
pub open spec fn spec_window_name(kind: u8) -> Seq<char> {
    match kind {
        1 => "minecraft:crafting_table"@,
        2 => "minecraft:furnace"@,
        3 => "minecraft:dispenser"@,
        4 => "minecraft:enchanting_table"@,
        5 => "minecraft:brewing_stand"@,
        6 => "minecraft:villager"@,
        7 => "minecraft:beacon"@,
        8 => "minecraft:anvil"@,
        9 => "minecraft:hopper"@,
        10 => "minecraft:dropper"@,
        11 => "EntityHorse"@,
        _ => "minecraft:chest"@,
    }
}

/// The name of a kind of window. Unknown kinds are chests.
pub fn window_name(kind: u8) -> (name: &'static str)
    ensures
        name@ == spec_window_name(kind),
{
    match kind {
        1 => "minecraft:crafting_table",
        2 => "minecraft:furnace",
        3 => "minecraft:dispenser",
        4 => "minecraft:enchanting_table",
        5 => "minecraft:brewing_stand",
        6 => "minecraft:villager",
        7 => "minecraft:beacon",
        8 => "minecraft:anvil",
        9 => "minecraft:hopper",
        10 => "minecraft:dropper",
        11 => "EntityHorse",
        _ => "minecraft:chest",
    }
}

/// DestroyEntities: the count and each id become variable-length.
pub open spec fn spec_s2c_entity_destroy(b: Seq<u8>) -> Outcome {
    if b.len() < 1 {
        Outcome::Passthrough
    } else if i8_at(b, 0) < 0 || b.len() < 1 + 4 * i8_at(b, 0) {
        Outcome::Passthrough
    } else {
        converted(
            V18_S2C_ENTITY_DESTROY,
            varint(i8_at(b, 0) as i32) + id_list(b, 1, i8_at(b, 0) as nat),
        )
    }
}

pub fn s2c_entity_destroy(body: Bytes) -> (res: ConversionResult)
    ensures
        res@ == spec_s2c_entity_destroy(content(body)),
{
    broadcast use empty_then;

    let ghost b = content(body);
    let mut r = Reader::new(body);
    if !r.has(1) {
        return ConversionResult::Passthrough;
    }
    let count: i32 = r.get_i8() as i32;
    if count < 0 || !r.has(count as usize * 4) {
        return ConversionResult::Passthrough;
    }
    let mut out = Writer::new();
    out.varint(count);
    let ghost head = out@;
    assert(head + id_list(b, 1, 0) =~= head);
    let mut i: i32 = 0;
    while i < count
        invariant
            0 <= i <= count,
            count == i8_at(b, 0),
            b.len() >= 1 + 4 * count,
            r.valid(),
            r.all() == b,
            r.at() == 1 + 4 * i,
            out@ == head + id_list(b, 1, i as nat),
        decreases count - i,
    {
        let id: i32 = r.get_i32();
        out.varint(id);
        i = i + 1;
        assert(out@ =~= head + id_list(b, 1, i as nat));
    }
    emit(V18_S2C_ENTITY_DESTROY, out)
}

/// How many modifiers an attribute has: none where the number is negative.
pub open spec fn modifier_count(n: i16) -> int {
    if n > 0 {
        n as int
    } else {
        0
    }
}

/// `n` attributes from `p` on: the key, the value, the number of modifiers, which becomes
/// variable-length, and the modifiers, 25 bytes each. `None` where one does not read.
pub open spec fn attributes_from(b: Seq<u8>, p: int, n: nat) -> Option<Seq<u8>>
    decreases n,
{
    if n == 0 {
        Some(seq![])
    } else {
        match string_at(b, p) {
            None => None,
            Some((key, q)) => {
                let m = i16_at(b, q + 8);
                let end = q + 10 + 25 * modifier_count(m);
                if q + 10 > b.len() || end > b.len() {
                    None
                } else {
                    match attributes_from(b, end, (n - 1) as nat) {
                        None => None,
                        Some(rest) => Some(
                            wire_string(key) + be64(u64_at(b, q)) + varint(m as i32) + b.subrange(
                                q + 10,
                                end,
                            ) + rest,
                        ),
                    }
                }
            },
        }
    }
}

/// EntityProperties: the id and the numbers of modifiers become variable-length.
pub open spec fn spec_s2c_entity_properties(b: Seq<u8>) -> Outcome {
    if b.len() < 8 {
        Outcome::Passthrough
    } else {
        let n = if i32_at(b, 4) > 0 { i32_at(b, 4) as nat } else { 0 };
        match attributes_from(b, 8, n) {
            None => Outcome::Passthrough,
            Some(attributes) => converted(
                V18_S2C_ENTITY_PROPERTIES,
                varint(i32_at(b, 0)) + be_i32(i32_at(b, 4)) + attributes,
            ),
        }
    }
}

/// Appends one attribute and says so, where it reads.
fn put_attribute(r: &mut Reader, out: &mut Writer) -> (ok: bool)
    requires
        old(r).valid(),
    ensures
        final(r).valid(),
        final(r).all() == old(r).all(),
        match string_at(old(r).all(), old(r).at()) {
            None => !ok,
            Some((key, q)) => {
                let b = old(r).all();
                let m = i16_at(b, q + 8);
                let end = q + 10 + 25 * modifier_count(m);
                &&& ok == (q + 10 <= b.len() && end <= b.len())
                &&& ok ==> final(r).at() == end && final(out)@ == old(out)@ + (wire_string(key) + be64(
                    u64_at(b, q),
                ) + varint(m as i32) + b.subrange(q + 10, end))
            },
        },
{
    let ghost head = out@;
    let ghost b = r.all();
    let key: String = match r.string() {
        Some(s) => s,
        None => {
            return false;
        },
    };
    let ghost q = r.at();
    if !r.has(10) {
        return false;
    }
    let value: u64 = r.get_u64();
    let count: i16 = r.get_i16();
    let n: usize = if count > 0 { count as usize } else { 0 };
    let modifiers = match r.take(n * 25) {
        Some(m) => m,
        None => {
            return false;
        },
    };
    out.string(key.as_str());
    out.u64(value);
    out.varint(count as i32);
    out.raw(bytes_to_vec(&modifiers).as_slice());
    proof {
        let (a, c, d, e) = (wire_string(key@), be64(value), varint(count as i32), content(modifiers));
        assert(e =~= b.subrange(q + 10, q + 10 + 25 * modifier_count(count)));
        assert(head + a + c + d + e =~= head + (a + c + d + e));
    }
    true
}

pub fn s2c_entity_properties(body: Bytes) -> (res: ConversionResult)
    ensures
        res@ == spec_s2c_entity_properties(content(body)),
{
    broadcast use empty_then;

    let ghost b = content(body);
    let mut r = Reader::new(body);
    if !r.has(8) {
        return ConversionResult::Passthrough;
    }
    let entity_id: i32 = r.get_i32();
    let count: i32 = r.get_i32();
    let mut out = Writer::new();
    out.varint(entity_id);
    out.i32(count);
    let ghost head = out@;
    let mut left: i32 = if count > 0 { count } else { 0 };
    let ghost n = left as nat;
    let ghost mut done = Seq::<u8>::empty();
    proof {
        let all = attributes_from(b, 8, n);
        if all is Some {
            assert(done + all->0 =~= all->0);
        }
        assert(head + done =~= head);
    }
    while left > 0
        invariant
            left >= 0,
            r.valid(),
            r.all() == b,
            b == content(body),
            b.len() >= 8,
            n == (if i32_at(b, 4) > 0 { i32_at(b, 4) as nat } else { 0 }),
            attributes_from(b, 8, n) == in_front(done, attributes_from(b, r.at(), left as nat)),
            out@ == head + done,
        decreases left,
    {
        let ghost before = out@;
        let ghost at = r.at();
        if !put_attribute(&mut r, &mut out) {
            return ConversionResult::Passthrough;
        }
        proof {
            let (key, q) = string_at(b, at)->0;
            let m = i16_at(b, q + 8);
            let add = wire_string(key) + be64(u64_at(b, q)) + varint(m as i32) + b.subrange(
                q + 10,
                q + 10 + 25 * modifier_count(m),
            );
            let rest = attributes_from(b, r.at(), (left - 1) as nat);
            if rest is Some {
                assert(done + (add + rest->0) =~= (done + add) + rest->0);
            }
            assert(out@ =~= head + (done + add));
            done = done + add;
        }
        left = left - 1;
    }
    assert(done + Seq::<u8>::empty() =~= done);
    emit(V18_S2C_ENTITY_PROPERTIES, out)
}

/// SpawnPosition: the place is packed.
pub open spec fn spec_s2c_spawn_position(b: Seq<u8>) -> Outcome {
    if b.len() < 12 {
        Outcome::Passthrough
    } else {
        converted(
            V18_S2C_SPAWN_POSITION,
            be_i64(legacy_bits(i32_at(b, 0) as int, i32_at(b, 4) as int, i32_at(b, 8) as int) as i64),
        )
    }
}

pub fn s2c_spawn_position(body: Bytes) -> (res: ConversionResult)
    ensures
        res@ == spec_s2c_spawn_position(content(body)),
{
    broadcast use empty_then;

    let mut r = Reader::new(body);
    if !r.has(12) {
        return ConversionResult::Passthrough;
    }
    let x: i32 = r.get_i32();
    let y: i32 = r.get_i32();
    let z: i32 = r.get_i32();
    let mut out = Writer::new();
    out.i64(encode_legacy_position(Position { x, y, z }));
    emit(V18_S2C_SPAWN_POSITION, out)
}

/// PlayerPositionAndLook: the stance, which stands behind x, is dropped, and no relative
/// flags take the place of the ground flag.
pub open spec fn spec_s2c_player_pos_look(b: Seq<u8>) -> Outcome {
    if b.len() < 41 {
        Outcome::Passthrough
    } else {
        converted(
            V18_S2C_PLAYER_POS_LOOK,
            be64(u64_at(b, 0)) + be64(u64_at(b, 16)) + be64(u64_at(b, 24)) + be32(u32_at(b, 32))
                + be32(u32_at(b, 36)) + seq![0u8],
        )
    }
}

pub fn s2c_player_pos_look(body: Bytes) -> (res: ConversionResult)
    ensures
        res@ == spec_s2c_player_pos_look(content(body)),
{
    broadcast use empty_then;

    let mut r = Reader::new(body);
    if !r.has(41) {
        return ConversionResult::Passthrough;
    }
    let x: u64 = r.get_u64();
    let _stance: u64 = r.get_u64();
    let y: u64 = r.get_u64();
    let z: u64 = r.get_u64();
    let yaw: u32 = r.get_u32();
    let pitch: u32 = r.get_u32();
    let _on_ground: u8 = r.get_u8();
    let mut out = Writer::new();
    out.u64(x);
    out.u64(y);
    out.u64(z);
    out.u32(yaw);
    out.u32(pitch);
    out.u8(0);
    emit(V18_S2C_PLAYER_POS_LOOK, out)
}

/// Entity: the id becomes variable-length.
pub open spec fn spec_s2c_entity(b: Seq<u8>) -> Outcome {
    if b.len() < 4 {
        Outcome::Passthrough
    } else {
        converted(V18_S2C_ENTITY, varint(i32_at(b, 0)))
    }
}

pub fn s2c_entity(body: Bytes) -> (res: ConversionResult)
    ensures
        res@ == spec_s2c_entity(content(body)),
{
    broadcast use empty_then;

    let mut r = Reader::new(body);
    if !r.has(4) {
        return ConversionResult::Passthrough;
    }
    let entity_id: i32 = r.get_i32();
    let mut out = Writer::new();
    out.varint(entity_id);
    emit(V18_S2C_ENTITY, out)
}

/// EntityVelocity: the id becomes variable-length.
pub open spec fn spec_s2c_entity_velocity(b: Seq<u8>) -> Outcome {
    if b.len() < 10 {
        Outcome::Passthrough
    } else {
        converted(V18_S2C_ENTITY_VELOCITY, varint(i32_at(b, 0)) + b.skip(4))
    }
}

pub fn s2c_entity_velocity(body: Bytes) -> (res: ConversionResult)
    ensures
        res@ == spec_s2c_entity_velocity(content(body)),
{
    broadcast use empty_then;

    let mut r = Reader::new(body);
    if !r.has(10) {
        return ConversionResult::Passthrough;
    }
    let entity_id: i32 = r.get_i32();
    let tail = r.rest();
    let mut out = Writer::new();
    out.varint(entity_id);
    out.raw(bytes_to_vec(&tail).as_slice());
    emit(V18_S2C_ENTITY_VELOCITY, out)
}

/// EntityRelativeMove: the id becomes variable-length, and the entity is on the ground.
pub open spec fn spec_s2c_entity_rel_move(b: Seq<u8>) -> Outcome {
    if b.len() < 6 {
        Outcome::Passthrough
    } else {
        converted(V18_S2C_ENTITY_REL_MOVE, varint(i32_at(b, 0)) + b.skip(4) + seq![1u8])
    }
}

pub fn s2c_entity_rel_move(body: Bytes) -> (res: ConversionResult)
    ensures
        res@ == spec_s2c_entity_rel_move(content(body)),
{
    broadcast use empty_then;

    let mut r = Reader::new(body);
    if !r.has(6) {
        return ConversionResult::Passthrough;
    }
    let entity_id: i32 = r.get_i32();
    let tail = r.rest();
    let mut out = Writer::new();
    out.varint(entity_id);
    out.raw(bytes_to_vec(&tail).as_slice());
    out.u8(1);
    emit(V18_S2C_ENTITY_REL_MOVE, out)
}

/// EntityLook: the id becomes variable-length, and the entity is on the ground.
pub open spec fn spec_s2c_entity_look(b: Seq<u8>) -> Outcome {
    if b.len() < 6 {
        Outcome::Passthrough
    } else {
        converted(V18_S2C_ENTITY_LOOK, varint(i32_at(b, 0)) + b.skip(4) + seq![1u8])
    }
}

pub fn s2c_entity_look(body: Bytes) -> (res: ConversionResult)
    ensures
        res@ == spec_s2c_entity_look(content(body)),
{
    broadcast use empty_then;

    let mut r = Reader::new(body);
    if !r.has(6) {
        return ConversionResult::Passthrough;
    }
    let entity_id: i32 = r.get_i32();
    let tail = r.rest();
    let mut out = Writer::new();
    out.varint(entity_id);
    out.raw(bytes_to_vec(&tail).as_slice());
    out.u8(1);
    emit(V18_S2C_ENTITY_LOOK, out)
}

/// EntityLookAndRelativeMove: the id becomes variable-length, and the entity is on the
/// ground.
pub open spec fn spec_s2c_entity_look_rel_move(b: Seq<u8>) -> Outcome {
    if b.len() < 8 {
        Outcome::Passthrough
    } else {
        converted(V18_S2C_ENTITY_LOOK_REL_MOVE, varint(i32_at(b, 0)) + b.skip(4) + seq![1u8])
    }
}

pub fn s2c_entity_look_rel_move(body: Bytes) -> (res: ConversionResult)
    ensures
        res@ == spec_s2c_entity_look_rel_move(content(body)),
{
    broadcast use empty_then;

    let mut r = Reader::new(body);
    if !r.has(8) {
        return ConversionResult::Passthrough;
    }
    let entity_id: i32 = r.get_i32();
    let tail = r.rest();
    let mut out = Writer::new();
    out.varint(entity_id);
    out.raw(bytes_to_vec(&tail).as_slice());
    out.u8(1);
    emit(V18_S2C_ENTITY_LOOK_REL_MOVE, out)
}

/// EntityTeleport: the id becomes variable-length, and the entity is on the ground.
pub open spec fn spec_s2c_entity_teleport(b: Seq<u8>) -> Outcome {
    if b.len() < 18 {
        Outcome::Passthrough
    } else {
        converted(V18_S2C_ENTITY_TELEPORT, varint(i32_at(b, 0)) + b.skip(4) + seq![1u8])
    }
}

pub fn s2c_entity_teleport(body: Bytes) -> (res: ConversionResult)
    ensures
        res@ == spec_s2c_entity_teleport(content(body)),
{
    broadcast use empty_then;

    let mut r = Reader::new(body);
    if !r.has(18) {
        return ConversionResult::Passthrough;
    }
    let entity_id: i32 = r.get_i32();
    let tail = r.rest();
    let mut out = Writer::new();
    out.varint(entity_id);
    out.raw(bytes_to_vec(&tail).as_slice());
    out.u8(1);
    emit(V18_S2C_ENTITY_TELEPORT, out)
}

/// EntityHeadLook: the id becomes variable-length.
pub open spec fn spec_s2c_entity_head_look(b: Seq<u8>) -> Outcome {
    if b.len() < 5 {
        Outcome::Passthrough
    } else {
        converted(V18_S2C_ENTITY_HEAD_LOOK, varint(i32_at(b, 0)) + b.skip(4))
    }
}

pub fn s2c_entity_head_look(body: Bytes) -> (res: ConversionResult)
    ensures
        res@ == spec_s2c_entity_head_look(content(body)),
{
    broadcast use empty_then;

    let mut r = Reader::new(body);
    if !r.has(5) {
        return ConversionResult::Passthrough;
    }
    let entity_id: i32 = r.get_i32();
    let tail = r.rest();
    let mut out = Writer::new();
    out.varint(entity_id);
    out.raw(bytes_to_vec(&tail).as_slice());
    emit(V18_S2C_ENTITY_HEAD_LOOK, out)
}

/// EntityEquipment: the id becomes variable-length.
pub open spec fn spec_s2c_equipment(b: Seq<u8>) -> Outcome {
    if b.len() < 6 {
        Outcome::Passthrough
    } else {
        converted(V18_S2C_EQUIPMENT, varint(i32_at(b, 0)) + b.skip(4))
    }
}

pub fn s2c_equipment(body: Bytes) -> (res: ConversionResult)
    ensures
        res@ == spec_s2c_equipment(content(body)),
{
    broadcast use empty_then;

    let mut r = Reader::new(body);
    if !r.has(6) {
        return ConversionResult::Passthrough;
    }
    let entity_id: i32 = r.get_i32();
    let tail = r.rest();
    let mut out = Writer::new();
    out.varint(entity_id);
    out.raw(bytes_to_vec(&tail).as_slice());
    emit(V18_S2C_EQUIPMENT, out)
}

/// RemoveEntityEffect: the id becomes variable-length.
pub open spec fn spec_s2c_remove_entity_effect(b: Seq<u8>) -> Outcome {
    if b.len() < 5 {
        Outcome::Passthrough
    } else {
        converted(V18_S2C_REMOVE_ENTITY_EFFECT, varint(i32_at(b, 0)) + b.skip(4))
    }
}

pub fn s2c_remove_entity_effect(body: Bytes) -> (res: ConversionResult)
    ensures
        res@ == spec_s2c_remove_entity_effect(content(body)),
{
    broadcast use empty_then;

    let mut r = Reader::new(body);
    if !r.has(5) {
        return ConversionResult::Passthrough;
    }
    let entity_id: i32 = r.get_i32();
    let tail = r.rest();
    let mut out = Writer::new();
    out.varint(entity_id);
    out.raw(bytes_to_vec(&tail).as_slice());
    emit(V18_S2C_REMOVE_ENTITY_EFFECT, out)
}

/// Experience: level and total become variable-length.
pub open spec fn spec_s2c_experience(b: Seq<u8>) -> Outcome {
    if b.len() < 8 {
        Outcome::Passthrough
    } else {
        converted(
            V18_S2C_EXPERIENCE,
            be32(u32_at(b, 0)) + varint(i16_at(b, 4) as i32) + varint(i16_at(b, 6) as i32),
        )
    }
}

pub fn s2c_experience(body: Bytes) -> (res: ConversionResult)
    ensures
        res@ == spec_s2c_experience(content(body)),
{
    broadcast use empty_then;

    let mut r = Reader::new(body);
    if !r.has(8) {
        return ConversionResult::Passthrough;
    }
    let bar: u32 = r.get_u32();
    let level: i16 = r.get_i16();
    let total: i16 = r.get_i16();
    let mut out = Writer::new();
    out.u32(bar);
    out.varint(level as i32);
    out.varint(total as i32);
    emit(V18_S2C_EXPERIENCE, out)
}

/// UpdateSign: the place is packed, and the four lines become chat components.
pub open spec fn spec_s2c_update_sign(b: Seq<u8>) -> Outcome {
    if b.len() < 10 {
        Outcome::Passthrough
    } else {
        match string_at(b, 10) {
            None => Outcome::Passthrough,
            Some((first, p)) => {
                match string_at(b, p) {
                    None => Outcome::Passthrough,
                    Some((second, p2)) => {
                        match string_at(b, p2) {
                            None => Outcome::Passthrough,
                            Some((third, p3)) => {
                                match string_at(b, p3) {
                                    None => Outcome::Passthrough,
                                    Some((fourth, p4)) => {
                                        converted(
                                            V18_S2C_UPDATE_SIGN,
                                            be_i64(legacy_bits(i32_at(b, 0) as int, i16_at(b, 4) as int, i32_at(b, 6) as int) as i64)
                                                + wire_string(json_line_of(first))
                                                + wire_string(json_line_of(second))
                                                + wire_string(json_line_of(third))
                                                + wire_string(json_line_of(fourth)),
                                        )
                                    },
                                }
                            },
                        }
                    },
                }
            },
        }
    }
}

pub fn s2c_update_sign(body: Bytes) -> (res: ConversionResult)
    ensures
        res@ == spec_s2c_update_sign(content(body)),
{
    broadcast use empty_then;

    let mut r = Reader::new(body);
    if !r.has(10) {
        return ConversionResult::Passthrough;
    }
    let x: i32 = r.get_i32();
    let y: i16 = r.get_i16();
    let z: i32 = r.get_i32();
    let first: String = match r.string() {
        Some(s) => s,
        None => {
            return ConversionResult::Passthrough;
        },
    };
    let second: String = match r.string() {
        Some(s) => s,
        None => {
            return ConversionResult::Passthrough;
        },
    };
    let third: String = match r.string() {
        Some(s) => s,
        None => {
            return ConversionResult::Passthrough;
        },
    };
    let fourth: String = match r.string() {
        Some(s) => s,
        None => {
            return ConversionResult::Passthrough;
        },
    };
    let mut out = Writer::new();
    out.i64(pack_position_1_8(x as i64, y as i64, z as i64));
    out.string(json_line(first.as_str()).as_str());
    out.string(json_line(second.as_str()).as_str());
    out.string(json_line(third.as_str()).as_str());
    out.string(json_line(fourth.as_str()).as_str());
    emit(V18_S2C_UPDATE_SIGN, out)
}

/// TabComplete: one text with zero characters between its parts becomes a counted list of
/// them.
pub open spec fn spec_s2c_tab_complete(b: Seq<u8>) -> Outcome {
    match string_at(b, 0) {
        None => Outcome::Passthrough,
        Some((joined, p)) => {
            let parts = tab_parts_of(joined);
            converted(V18_S2C_TAB_COMPLETE, varint(parts.len() as i32) + wire_strings(parts))
        },
    }
}

pub fn s2c_tab_complete(body: Bytes) -> (res: ConversionResult)
    ensures
        res@ == spec_s2c_tab_complete(content(body)),
{
    broadcast use empty_then;

    let mut r = Reader::new(body);
    let joined: String = match r.string() {
        Some(s) => s,
        None => {
            return ConversionResult::Passthrough;
        },
    };
    let parts = tab_parts(joined.as_str());
    let mut out = Writer::new();
    out.varint(parts.len() as i32);
    out.strings(&parts);
    emit(V18_S2C_TAB_COMPLETE, out)
}

/// Teams: where a team is made or changed, its name tags are always shown.
pub open spec fn spec_s2c_scoreboard_team(b: Seq<u8>) -> Outcome {
    match string_at(b, 0) {
        None => Outcome::Passthrough,
        Some((name, p)) => {
            if b.len() < p + 1 {
                Outcome::Passthrough
            } else {
                let head = wire_string(name) + b.skip(p);
                if b[p] == 0 || b[p] == 2 {
                    converted(V18_S2C_SCOREBOARD_TEAM, head + wire_string("always"@))
                } else {
                    converted(V18_S2C_SCOREBOARD_TEAM, head)
                }
            }
        },
    }
}

pub fn s2c_scoreboard_team(body: Bytes) -> (res: ConversionResult)
    ensures
        res@ == spec_s2c_scoreboard_team(content(body)),
{
    broadcast use empty_then;

    let mut r = Reader::new(body);
    let name: String = match r.string() {
        Some(s) => s,
        None => {
            return ConversionResult::Passthrough;
        },
    };
    if !r.has(1) {
        return ConversionResult::Passthrough;
    }
    let mut ahead = r.fork();
    let action: u8 = ahead.get_u8();
    let tail = r.rest();
    let mut out = Writer::new();
    out.string(name.as_str());
    out.raw(bytes_to_vec(&tail).as_slice());
    if action == 0 || action == 2 {
        out.string("always");
    }
    emit(V18_S2C_SCOREBOARD_TEAM, out)
}

/// UpdateHealth: the food becomes variable-length.
pub open spec fn spec_s2c_update_health(b: Seq<u8>) -> Outcome {
    if b.len() < 8 {
        Outcome::Passthrough
    } else {
        converted(
            V18_S2C_UPDATE_HEALTH,
            be32(u32_at(b, 0)) + varint(i16_at(b, 4) as i32) + b.skip(6),
        )
    }
}

pub fn s2c_update_health(body: Bytes) -> (res: ConversionResult)
    ensures
        res@ == spec_s2c_update_health(content(body)),
{
    broadcast use empty_then;

    let mut r = Reader::new(body);
    if !r.has(8) {
        return ConversionResult::Passthrough;
    }
    let health: u32 = r.get_u32();
    let food: i16 = r.get_i16();
    let tail = r.rest();
    let mut out = Writer::new();
    out.u32(health);
    out.varint(food as i32);
    out.raw(bytes_to_vec(&tail).as_slice());
    emit(V18_S2C_UPDATE_HEALTH, out)
}

/// UseBed: the id becomes variable-length, and the place is packed.
pub open spec fn spec_s2c_use_bed(b: Seq<u8>) -> Outcome {
    if b.len() < 13 {
        Outcome::Passthrough
    } else {
        converted(
            V18_S2C_USE_BED,
            varint(i32_at(b, 0))
                + be_i64(legacy_bits(i32_at(b, 4) as int, b[8] as int, i32_at(b, 9) as int) as i64),
        )
    }
}

pub fn s2c_use_bed(body: Bytes) -> (res: ConversionResult)
    ensures
        res@ == spec_s2c_use_bed(content(body)),
{
    broadcast use empty_then;

    let mut r = Reader::new(body);
    if !r.has(13) {
        return ConversionResult::Passthrough;
    }
    let entity_id: i32 = r.get_i32();
    let x: i32 = r.get_i32();
    let y: u8 = r.get_u8();
    let z: i32 = r.get_i32();
    let mut out = Writer::new();
    out.varint(entity_id);
    out.i64(pack_position_1_8(x as i64, y as i64, z as i64));
    emit(V18_S2C_USE_BED, out)
}

/// SpawnPainting: the place is packed, and the direction keeps its low eight bits. A missing
/// direction is 0.
pub open spec fn spec_s2c_spawn_painting(b: Seq<u8>) -> Outcome {
    match varint_at(b, 0) {
        None => Outcome::Passthrough,
        Some((entity_id, p)) => {
            match string_at(b, p) {
                None => Outcome::Passthrough,
                Some((title, p2)) => {
                    if b.len() < p2 + 4 {
                        Outcome::Passthrough
                    } else if b.len() < p2 + 8 {
                        Outcome::Passthrough
                    } else if b.len() < p2 + 12 {
                        Outcome::Passthrough
                    } else {
                        let (direction, p3) = i32_or(b, p2 + 12, 0);
                        converted(
                            V18_S2C_SPAWN_PAINTING,
                            varint(entity_id) + wire_string(title)
                                + be_i64(legacy_bits(i32_at(b, p2) as int, i32_at(b, p2 + 4) as int, i32_at(b, p2 + 8) as int) as i64)
                                + seq![direction as u8],
                        )
                    }
                },
            }
        },
    }
}

pub fn s2c_spawn_painting(body: Bytes) -> (res: ConversionResult)
    ensures
        res@ == spec_s2c_spawn_painting(content(body)),
{
    broadcast use empty_then;

    let mut r = Reader::new(body);
    let entity_id: i32 = match r.varint() {
        Some(v) => v,
        None => {
            return ConversionResult::Passthrough;
        },
    };
    let title: String = match r.string() {
        Some(s) => s,
        None => {
            return ConversionResult::Passthrough;
        },
    };
    let x: i32 = match r.i32() {
        Some(v) => v,
        None => {
            return ConversionResult::Passthrough;
        },
    };
    let y: i32 = match r.i32() {
        Some(v) => v,
        None => {
            return ConversionResult::Passthrough;
        },
    };
    let z: i32 = match r.i32() {
        Some(v) => v,
        None => {
            return ConversionResult::Passthrough;
        },
    };
    let direction: i32 = r.i32_or(0);
    let mut out = Writer::new();
    out.varint(entity_id);
    out.string(title.as_str());
    out.i64(pack_position_1_8(x as i64, y as i64, z as i64));
    out.u8(direction as u8);
    emit(V18_S2C_SPAWN_PAINTING, out)
}

/// EntityEffect: id and duration become variable-length, and the particles are shown.
pub open spec fn spec_s2c_entity_effect(b: Seq<u8>) -> Outcome {
    if b.len() < 8 {
        Outcome::Passthrough
    } else {
        converted(
            V18_S2C_ENTITY_EFFECT,
            varint(i32_at(b, 0)) + be_i8(i8_at(b, 4)) + be_i8(i8_at(b, 5))
                + varint(i16_at(b, 6) as i32) + seq![0u8],
        )
    }
}

pub fn s2c_entity_effect(body: Bytes) -> (res: ConversionResult)
    ensures
        res@ == spec_s2c_entity_effect(content(body)),
{
    broadcast use empty_then;

    let mut r = Reader::new(body);
    if !r.has(8) {
        return ConversionResult::Passthrough;
    }
    let entity_id: i32 = r.get_i32();
    let effect_id: i8 = r.get_i8();
    let amplifier: i8 = r.get_i8();
    let duration: i16 = r.get_i16();
    let mut out = Writer::new();
    out.varint(entity_id);
    out.i8(effect_id);
    out.i8(amplifier);
    out.varint(duration as i32);
    out.u8(0);
    emit(V18_S2C_ENTITY_EFFECT, out)
}

/// BlockAction: the place is packed.
pub open spec fn spec_s2c_block_action(b: Seq<u8>) -> Outcome {
    if b.len() < 11 {
        Outcome::Passthrough
    } else {
        converted(
            V18_S2C_BLOCK_ACTION,
            be_i64(legacy_bits(i32_at(b, 0) as int, i16_at(b, 4) as int, i32_at(b, 6) as int) as i64)
                + b.skip(10),
        )
    }
}

pub fn s2c_block_action(body: Bytes) -> (res: ConversionResult)
    ensures
        res@ == spec_s2c_block_action(content(body)),
{
    broadcast use empty_then;

    let mut r = Reader::new(body);
    if !r.has(11) {
        return ConversionResult::Passthrough;
    }
    let x: i32 = r.get_i32();
    let y: i16 = r.get_i16();
    let z: i32 = r.get_i32();
    let tail = r.rest();
    let mut out = Writer::new();
    out.i64(pack_position_1_8(x as i64, y as i64, z as i64));
    out.raw(bytes_to_vec(&tail).as_slice());
    emit(V18_S2C_BLOCK_ACTION, out)
}

/// BlockBreakAnimation: the place is packed.
pub open spec fn spec_s2c_block_break_anim(b: Seq<u8>) -> Outcome {
    match varint_at(b, 0) {
        None => Outcome::Passthrough,
        Some((entity_id, p)) => {
            if b.len() < p + 4 {
                Outcome::Passthrough
            } else if b.len() < p + 8 {
                Outcome::Passthrough
            } else if b.len() < p + 12 {
                Outcome::Passthrough
            } else if b.len() < p + 13 {
                Outcome::Passthrough
            } else {
                converted(
                    V18_S2C_BLOCK_BREAK_ANIM,
                    varint(entity_id)
                        + be_i64(legacy_bits(i32_at(b, p) as int, i32_at(b, p + 4) as int, i32_at(b, p + 8) as int) as i64)
                        + be_i8(i8_at(b, p + 12)),
                )
            }
        },
    }
}

pub fn s2c_block_break_anim(body: Bytes) -> (res: ConversionResult)
    ensures
        res@ == spec_s2c_block_break_anim(content(body)),
{
    broadcast use empty_then;

    let mut r = Reader::new(body);
    let entity_id: i32 = match r.varint() {
        Some(v) => v,
        None => {
            return ConversionResult::Passthrough;
        },
    };
    let x: i32 = match r.i32() {
        Some(v) => v,
        None => {
            return ConversionResult::Passthrough;
        },
    };
    let y: i32 = match r.i32() {
        Some(v) => v,
        None => {
            return ConversionResult::Passthrough;
        },
    };
    let z: i32 = match r.i32() {
        Some(v) => v,
        None => {
            return ConversionResult::Passthrough;
        },
    };
    let stage: i8 = match r.i8() {
        Some(v) => v,
        None => {
            return ConversionResult::Passthrough;
        },
    };
    let mut out = Writer::new();
    out.varint(entity_id);
    out.i64(pack_position_1_8(x as i64, y as i64, z as i64));
    out.i8(stage);
    emit(V18_S2C_BLOCK_BREAK_ANIM, out)
}

/// Effect: the place is packed.
pub open spec fn spec_s2c_effect(b: Seq<u8>) -> Outcome {
    if b.len() < 15 {
        Outcome::Passthrough
    } else {
        converted(
            V18_S2C_EFFECT,
            be_i32(i32_at(b, 0))
                + be_i64(legacy_bits(i32_at(b, 4) as int, b[8] as int, i32_at(b, 9) as int) as i64)
                + b.skip(13),
        )
    }
}

pub fn s2c_effect(body: Bytes) -> (res: ConversionResult)
    ensures
        res@ == spec_s2c_effect(content(body)),
{
    broadcast use empty_then;

    let mut r = Reader::new(body);
    if !r.has(15) {
        return ConversionResult::Passthrough;
    }
    let effect_id: i32 = r.get_i32();
    let x: i32 = r.get_i32();
    let y: u8 = r.get_u8();
    let z: i32 = r.get_i32();
    let tail = r.rest();
    let mut out = Writer::new();
    out.i32(effect_id);
    out.i64(pack_position_1_8(x as i64, y as i64, z as i64));
    out.raw(bytes_to_vec(&tail).as_slice());
    emit(V18_S2C_EFFECT, out)
}

/// OpenWindow: the kind of window becomes a name.
pub open spec fn spec_s2c_open_window(b: Seq<u8>) -> Outcome {
    if b.len() < 3 {
        Outcome::Passthrough
    } else {
        converted(
            V18_S2C_OPEN_WINDOW,
            seq![b[0]] + wire_string(spec_window_name(b[1])) + b.skip(2),
        )
    }
}

pub fn s2c_open_window(body: Bytes) -> (res: ConversionResult)
    ensures
        res@ == spec_s2c_open_window(content(body)),
{
    broadcast use empty_then;

    let mut r = Reader::new(body);
    if !r.has(3) {
        return ConversionResult::Passthrough;
    }
    let window_id: u8 = r.get_u8();
    let kind: u8 = r.get_u8();
    let tail = r.rest();
    let mut out = Writer::new();
    out.u8(window_id);
    out.string(window_name(kind));
    out.raw(bytes_to_vec(&tail).as_slice());
    emit(V18_S2C_OPEN_WINDOW, out)
}

/// UpdateTileEntity: the place is packed.
pub open spec fn spec_s2c_update_tile_entity(b: Seq<u8>) -> Outcome {
    if b.len() < 10 {
        Outcome::Passthrough
    } else {
        converted(
            V18_S2C_UPDATE_TILE_ENTITY,
            be_i64(legacy_bits(i32_at(b, 0) as int, i16_at(b, 4) as int, i32_at(b, 6) as int) as i64)
                + b.skip(10),
        )
    }
}

pub fn s2c_update_tile_entity(body: Bytes) -> (res: ConversionResult)
    ensures
        res@ == spec_s2c_update_tile_entity(content(body)),
{
    broadcast use empty_then;

    let mut r = Reader::new(body);
    if !r.has(10) {
        return ConversionResult::Passthrough;
    }
    let x: i32 = r.get_i32();
    let y: i16 = r.get_i16();
    let z: i32 = r.get_i32();
    let tail = r.rest();
    let mut out = Writer::new();
    out.i64(pack_position_1_8(x as i64, y as i64, z as i64));
    out.raw(bytes_to_vec(&tail).as_slice());
    emit(V18_S2C_UPDATE_TILE_ENTITY, out)
}

/// OpenSignEditor: the place is packed.
pub open spec fn spec_s2c_open_sign_editor(b: Seq<u8>) -> Outcome {
    if b.len() < 12 {
        Outcome::Passthrough
    } else {
        converted(
            V18_S2C_OPEN_SIGN_EDITOR,
            be_i64(legacy_bits(i32_at(b, 0) as int, i32_at(b, 4) as int, i32_at(b, 8) as int) as i64),
        )
    }
}

pub fn s2c_open_sign_editor(body: Bytes) -> (res: ConversionResult)
    ensures
        res@ == spec_s2c_open_sign_editor(content(body)),
{
    broadcast use empty_then;

    let mut r = Reader::new(body);
    if !r.has(12) {
        return ConversionResult::Passthrough;
    }
    let x: i32 = r.get_i32();
    let y: i32 = r.get_i32();
    let z: i32 = r.get_i32();
    let mut out = Writer::new();
    out.i64(pack_position_1_8(x as i64, y as i64, z as i64));
    emit(V18_S2C_OPEN_SIGN_EDITOR, out)
}

/// The 1.8 form of a 1.7.10 packet toward the client. Packets without a counterpart are
/// dropped, all others that are the same in both are left alone.
pub open spec fn spec_s2c(id: u8, b: Seq<u8>) -> Outcome {
    if id == V17_S2C_JOIN_GAME {
        spec_s2c_join_game(b)
    } else if id == V17_S2C_CHAT {
        spec_s2c_chat(b)
    } else if id == V17_S2C_EQUIPMENT {
        spec_s2c_equipment(b)
    } else if id == V17_S2C_SPAWN_POSITION {
        spec_s2c_spawn_position(b)
    } else if id == V17_S2C_UPDATE_HEALTH {
        spec_s2c_update_health(b)
    } else if id == V17_S2C_PLAYER_POS_LOOK {
        spec_s2c_player_pos_look(b)
    } else if id == V17_S2C_USE_BED {
        spec_s2c_use_bed(b)
    } else if id == V17_S2C_SPAWN_PLAYER {
        Outcome::Drop
    } else if id == V17_S2C_SPAWN_PAINTING {
        spec_s2c_spawn_painting(b)
    } else if id == V17_S2C_ENTITY_VELOCITY {
        spec_s2c_entity_velocity(b)
    } else if id == V17_S2C_ENTITY_DESTROY {
        spec_s2c_entity_destroy(b)
    } else if id == V17_S2C_ENTITY {
        spec_s2c_entity(b)
    } else if id == V17_S2C_ENTITY_REL_MOVE {
        spec_s2c_entity_rel_move(b)
    } else if id == V17_S2C_ENTITY_LOOK {
        spec_s2c_entity_look(b)
    } else if id == V17_S2C_ENTITY_LOOK_REL_MOVE {
        spec_s2c_entity_look_rel_move(b)
    } else if id == V17_S2C_ENTITY_TELEPORT {
        spec_s2c_entity_teleport(b)
    } else if id == V17_S2C_ENTITY_HEAD_LOOK {
        spec_s2c_entity_head_look(b)
    } else if id == V17_S2C_ENTITY_EFFECT {
        spec_s2c_entity_effect(b)
    } else if id == V17_S2C_REMOVE_ENTITY_EFFECT {
        spec_s2c_remove_entity_effect(b)
    } else if id == V17_S2C_EXPERIENCE {
        spec_s2c_experience(b)
    } else if id == V17_S2C_ENTITY_PROPERTIES {
        spec_s2c_entity_properties(b)
    } else if id == V17_S2C_CHUNK_DATA {
        Outcome::Drop
    } else if id == V17_S2C_MULTI_BLOCK_CHANGE {
        Outcome::Drop
    } else if id == V17_S2C_BLOCK_CHANGE {
        converted(V18_S2C_BLOCK_CHANGE, b)
    } else if id == V17_S2C_BLOCK_ACTION {
        spec_s2c_block_action(b)
    } else if id == V17_S2C_BLOCK_BREAK_ANIM {
        spec_s2c_block_break_anim(b)
    } else if id == V17_S2C_CHUNK_BULK {
        Outcome::Drop
    } else if id == V17_S2C_EFFECT {
        spec_s2c_effect(b)
    } else if id == V17_S2C_PARTICLE {
        Outcome::Drop
    } else if id == V17_S2C_OPEN_WINDOW {
        spec_s2c_open_window(b)
    } else if id == V17_S2C_UPDATE_SIGN {
        spec_s2c_update_sign(b)
    } else if id == V17_S2C_MAP {
        Outcome::Drop
    } else if id == V17_S2C_UPDATE_TILE_ENTITY {
        spec_s2c_update_tile_entity(b)
    } else if id == V17_S2C_OPEN_SIGN_EDITOR {
        spec_s2c_open_sign_editor(b)
    } else if id == V17_S2C_PLAYER_LIST_ITEM {
        Outcome::Drop
    } else if id == V17_S2C_TAB_COMPLETE {
        spec_s2c_tab_complete(b)
    } else if id == V17_S2C_SCOREBOARD_TEAM {
        spec_s2c_scoreboard_team(b)
    } else {
        Outcome::Passthrough
    }
}

fn s2c(id: u8, body: Bytes) -> (res: ConversionResult)
    ensures
        res@ == spec_s2c(id, content(body)),
{
    if id == V17_S2C_JOIN_GAME {
        s2c_join_game(body)
    } else if id == V17_S2C_CHAT {
        s2c_chat(body)
    } else if id == V17_S2C_EQUIPMENT {
        s2c_equipment(body)
    } else if id == V17_S2C_SPAWN_POSITION {
        s2c_spawn_position(body)
    } else if id == V17_S2C_UPDATE_HEALTH {
        s2c_update_health(body)
    } else if id == V17_S2C_PLAYER_POS_LOOK {
        s2c_player_pos_look(body)
    } else if id == V17_S2C_USE_BED {
        s2c_use_bed(body)
    } else if id == V17_S2C_SPAWN_PLAYER {
        ConversionResult::Drop
    } else if id == V17_S2C_SPAWN_PAINTING {
        s2c_spawn_painting(body)
    } else if id == V17_S2C_ENTITY_VELOCITY {
        s2c_entity_velocity(body)
    } else if id == V17_S2C_ENTITY_DESTROY {
        s2c_entity_destroy(body)
    } else if id == V17_S2C_ENTITY {
        s2c_entity(body)
    } else if id == V17_S2C_ENTITY_REL_MOVE {
        s2c_entity_rel_move(body)
    } else if id == V17_S2C_ENTITY_LOOK {
        s2c_entity_look(body)
    } else if id == V17_S2C_ENTITY_LOOK_REL_MOVE {
        s2c_entity_look_rel_move(body)
    } else if id == V17_S2C_ENTITY_TELEPORT {
        s2c_entity_teleport(body)
    } else if id == V17_S2C_ENTITY_HEAD_LOOK {
        s2c_entity_head_look(body)
    } else if id == V17_S2C_ENTITY_EFFECT {
        s2c_entity_effect(body)
    } else if id == V17_S2C_REMOVE_ENTITY_EFFECT {
        s2c_remove_entity_effect(body)
    } else if id == V17_S2C_EXPERIENCE {
        s2c_experience(body)
    } else if id == V17_S2C_ENTITY_PROPERTIES {
        s2c_entity_properties(body)
    } else if id == V17_S2C_CHUNK_DATA {
        ConversionResult::Drop
    } else if id == V17_S2C_MULTI_BLOCK_CHANGE {
        ConversionResult::Drop
    } else if id == V17_S2C_BLOCK_CHANGE {
        rebuild_with_id(V18_S2C_BLOCK_CHANGE, &body)
    } else if id == V17_S2C_BLOCK_ACTION {
        s2c_block_action(body)
    } else if id == V17_S2C_BLOCK_BREAK_ANIM {
        s2c_block_break_anim(body)
    } else if id == V17_S2C_CHUNK_BULK {
        ConversionResult::Drop
    } else if id == V17_S2C_EFFECT {
        s2c_effect(body)
    } else if id == V17_S2C_PARTICLE {
        ConversionResult::Drop
    } else if id == V17_S2C_OPEN_WINDOW {
        s2c_open_window(body)
    } else if id == V17_S2C_UPDATE_SIGN {
        s2c_update_sign(body)
    } else if id == V17_S2C_MAP {
        ConversionResult::Drop
    } else if id == V17_S2C_UPDATE_TILE_ENTITY {
        s2c_update_tile_entity(body)
    } else if id == V17_S2C_OPEN_SIGN_EDITOR {
        s2c_open_sign_editor(body)
    } else if id == V17_S2C_PLAYER_LIST_ITEM {
        ConversionResult::Drop
    } else if id == V17_S2C_TAB_COMPLETE {
        s2c_tab_complete(body)
    } else if id == V17_S2C_SCOREBOARD_TEAM {
        s2c_scoreboard_team(body)
    } else {
        ConversionResult::Passthrough
    }
}

/// What becomes of a packet toward the client.
pub open spec fn spec_convert_s2c(p: Seq<u8>) -> Outcome {
    match split(p) {
        Some((id, b)) => spec_s2c(id, b),
        None => Outcome::Passthrough,
    }
}

/// Converts a packet toward the client.
pub fn convert_s2c(payload: Bytes) -> (res: ConversionResult)
    ensures
        res@ == spec_convert_s2c(content(payload)),
{
    match split_id(payload) {
        Some((id, body)) => s2c(id, body),
        None => ConversionResult::Passthrough,
    }
}

// Packets of 1.7.10 toward the server.

pub const V17_C2S_USE_ENTITY: u8 = 0x02;
pub const V17_C2S_PLAYER_POS_LOOK: u8 = 0x06;
pub const V17_C2S_PLAYER_DIGGING: u8 = 0x07;
pub const V17_C2S_PLAYER_BLOCK_PLACE: u8 = 0x08;
pub const V17_C2S_UPDATE_SIGN: u8 = 0x12;

pub const V18_C2S_USE_ENTITY: u8 = 0x02;
pub const V18_C2S_PLAYER_POS_LOOK: u8 = 0x06;
pub const V18_C2S_PLAYER_DIGGING: u8 = 0x07;
pub const V18_C2S_PLAYER_BLOCK_PLACE: u8 = 0x08;
pub const V18_C2S_UPDATE_SIGN: u8 = 0x12;

/// UseEntity: the target becomes variable-length; mouse button 1 is an attack, all others
/// are an interaction.
pub open spec fn spec_c2s_use_entity(b: Seq<u8>) -> Outcome {
    if b.len() < 5 {
        Outcome::Passthrough
    } else {
        converted(
            V18_C2S_USE_ENTITY,
            varint(i32_at(b, 0)) + varint(if i8_at(b, 4) == 1 { 1i32 } else { 0i32 }),
        )
    }
}

pub fn c2s_use_entity(body: Bytes) -> (res: ConversionResult)
    ensures
        res@ == spec_c2s_use_entity(content(body)),
{
    broadcast use empty_then;

    let mut r = Reader::new(body);
    if !r.has(5) {
        return ConversionResult::Passthrough;
    }
    let target: i32 = r.get_i32();
    let mouse: i8 = r.get_i8();
    let mut out = Writer::new();
    out.varint(target);
    out.varint(if mouse == 1 { 1 } else { 0 });
    emit(V18_C2S_USE_ENTITY, out)
}

/// PlayerPositionAndLook: the stance, which stands behind y, is dropped.
pub open spec fn spec_c2s_player_pos_look(b: Seq<u8>) -> Outcome {
    if b.len() < 41 {
        Outcome::Passthrough
    } else {
        converted(
            V18_C2S_PLAYER_POS_LOOK,
            be64(u64_at(b, 0)) + be64(u64_at(b, 8)) + be64(u64_at(b, 24)) + be32(u32_at(b, 32))
                + be32(u32_at(b, 36)) + seq![b[40]],
        )
    }
}

pub fn c2s_player_pos_look(body: Bytes) -> (res: ConversionResult)
    ensures
        res@ == spec_c2s_player_pos_look(content(body)),
{
    broadcast use empty_then;

    let mut r = Reader::new(body);
    if !r.has(41) {
        return ConversionResult::Passthrough;
    }
    let x: u64 = r.get_u64();
    let y: u64 = r.get_u64();
    let _stance: u64 = r.get_u64();
    let z: u64 = r.get_u64();
    let yaw: u32 = r.get_u32();
    let pitch: u32 = r.get_u32();
    let on_ground: u8 = r.get_u8();
    let mut out = Writer::new();
    out.u64(x);
    out.u64(y);
    out.u64(z);
    out.u32(yaw);
    out.u32(pitch);
    out.u8(on_ground);
    emit(V18_C2S_PLAYER_POS_LOOK, out)
}

/// PlayerDigging: the place is packed.
pub open spec fn spec_c2s_player_digging(b: Seq<u8>) -> Outcome {
    if b.len() < 11 {
        Outcome::Passthrough
    } else {
        converted(
            V18_C2S_PLAYER_DIGGING,
            be_i8(i8_at(b, 0))
                + be_i64(legacy_bits(i32_at(b, 1) as int, b[5] as int, i32_at(b, 6) as int) as i64)
                + be_i8(i8_at(b, 10)),
        )
    }
}

pub fn c2s_player_digging(body: Bytes) -> (res: ConversionResult)
    ensures
        res@ == spec_c2s_player_digging(content(body)),
{
    broadcast use empty_then;

    let mut r = Reader::new(body);
    if !r.has(11) {
        return ConversionResult::Passthrough;
    }
    let status: i8 = r.get_i8();
    let x: i32 = r.get_i32();
    let y: u8 = r.get_u8();
    let z: i32 = r.get_i32();
    let face: i8 = r.get_i8();
    let mut out = Writer::new();
    out.i8(status);
    out.i64(pack_position_1_8(x as i64, y as i64, z as i64));
    out.i8(face);
    emit(V18_C2S_PLAYER_DIGGING, out)
}

/// PlayerBlockPlacement: the place is packed.
pub open spec fn spec_c2s_player_block_place(b: Seq<u8>) -> Outcome {
    if b.len() < 10 {
        Outcome::Passthrough
    } else {
        converted(
            V18_C2S_PLAYER_BLOCK_PLACE,
            be_i64(legacy_bits(i32_at(b, 0) as int, b[4] as int, i32_at(b, 5) as int) as i64)
                + be_i8(i8_at(b, 9)) + b.skip(10),
        )
    }
}

pub fn c2s_player_block_place(body: Bytes) -> (res: ConversionResult)
    ensures
        res@ == spec_c2s_player_block_place(content(body)),
{
    broadcast use empty_then;

    let mut r = Reader::new(body);
    if !r.has(10) {
        return ConversionResult::Passthrough;
    }
    let x: i32 = r.get_i32();
    let y: u8 = r.get_u8();
    let z: i32 = r.get_i32();
    let direction: i8 = r.get_i8();
    let tail = r.rest();
    let mut out = Writer::new();
    out.i64(pack_position_1_8(x as i64, y as i64, z as i64));
    out.i8(direction);
    out.raw(bytes_to_vec(&tail).as_slice());
    emit(V18_C2S_PLAYER_BLOCK_PLACE, out)
}

/// UpdateSign: the place is packed, and the four lines become chat components.
pub open spec fn spec_c2s_update_sign(b: Seq<u8>) -> Outcome {
    if b.len() < 10 {
        Outcome::Passthrough
    } else {
        match string_at(b, 10) {
            None => Outcome::Passthrough,
            Some((first, p)) => {
                match string_at(b, p) {
                    None => Outcome::Passthrough,
                    Some((second, p2)) => {
                        match string_at(b, p2) {
                            None => Outcome::Passthrough,
                            Some((third, p3)) => {
                                match string_at(b, p3) {
                                    None => Outcome::Passthrough,
                                    Some((fourth, p4)) => {
                                        converted(
                                            V18_C2S_UPDATE_SIGN,
                                            be_i64(legacy_bits(i32_at(b, 0) as int, i16_at(b, 4) as int, i32_at(b, 6) as int) as i64)
                                                + wire_string(json_line_of(first))
                                                + wire_string(json_line_of(second))
                                                + wire_string(json_line_of(third))
                                                + wire_string(json_line_of(fourth)),
                                        )
                                    },
                                }
                            },
                        }
                    },
                }
            },
        }
    }
}

pub fn c2s_update_sign(body: Bytes) -> (res: ConversionResult)
    ensures
        res@ == spec_c2s_update_sign(content(body)),
{
    broadcast use empty_then;

    let mut r = Reader::new(body);
    if !r.has(10) {
        return ConversionResult::Passthrough;
    }
    let x: i32 = r.get_i32();
    let y: i16 = r.get_i16();
    let z: i32 = r.get_i32();
    let first: String = match r.string() {
        Some(s) => s,
        None => {
            return ConversionResult::Passthrough;
        },
    };
    let second: String = match r.string() {
        Some(s) => s,
        None => {
            return ConversionResult::Passthrough;
        },
    };
    let third: String = match r.string() {
        Some(s) => s,
        None => {
            return ConversionResult::Passthrough;
        },
    };
    let fourth: String = match r.string() {
        Some(s) => s,
        None => {
            return ConversionResult::Passthrough;
        },
    };
    let mut out = Writer::new();
    out.i64(pack_position_1_8(x as i64, y as i64, z as i64));
    out.string(json_line(first.as_str()).as_str());
    out.string(json_line(second.as_str()).as_str());
    out.string(json_line(third.as_str()).as_str());
    out.string(json_line(fourth.as_str()).as_str());
    emit(V18_C2S_UPDATE_SIGN, out)
}

/// The 1.8 form of a 1.7.10 packet toward the server. Packets that are the same in both are
/// left alone.
pub open spec fn spec_c2s(id: u8, b: Seq<u8>) -> Outcome {
    if id == V17_C2S_USE_ENTITY {
        spec_c2s_use_entity(b)
    } else if id == V17_C2S_PLAYER_POS_LOOK {
        spec_c2s_player_pos_look(b)
    } else if id == V17_C2S_PLAYER_DIGGING {
        spec_c2s_player_digging(b)
    } else if id == V17_C2S_PLAYER_BLOCK_PLACE {
        spec_c2s_player_block_place(b)
    } else if id == V17_C2S_UPDATE_SIGN {
        spec_c2s_update_sign(b)
    } else {
        Outcome::Passthrough
    }
}

fn c2s(id: u8, body: Bytes) -> (res: ConversionResult)
    ensures
        res@ == spec_c2s(id, content(body)),
{
    if id == V17_C2S_USE_ENTITY {
        c2s_use_entity(body)
    } else if id == V17_C2S_PLAYER_POS_LOOK {
        c2s_player_pos_look(body)
    } else if id == V17_C2S_PLAYER_DIGGING {
        c2s_player_digging(body)
    } else if id == V17_C2S_PLAYER_BLOCK_PLACE {
        c2s_player_block_place(body)
    } else if id == V17_C2S_UPDATE_SIGN {
        c2s_update_sign(body)
    } else {
        ConversionResult::Passthrough
    }
}

/// What becomes of a packet toward the server.
pub open spec fn spec_convert_c2s(p: Seq<u8>) -> Outcome {
    match split(p) {
        Some((id, b)) => spec_c2s(id, b),
        None => Outcome::Passthrough,
    }
}

/// Converts a packet toward the server.
pub fn convert_c2s(payload: Bytes) -> (res: ConversionResult)
    ensures
        res@ == spec_convert_c2s(content(payload)),
{
    match split_id(payload) {
        Some((id, body)) => c2s(id, body),
        None => ConversionResult::Passthrough,
    }
}

} // verus!
