//! 1.16.5 packets for 1.12.2.
//!
//! Items and blocks change from the ids behind the 1.13 flattening to those before it, packed
//! places from the order x, z, y to the order x, y, z, and chunk data is repacked.

use bytes::Bytes;
use crate::converter::chunk_repack::{ChunkRepacker, repacked};
use crate::converter::chunk_section::BlockTable;
use crate::converter::items::{
    flagged_item_bytes, map_equipment_slot, modern_slot_to_legacy, older_equipment_index,
    older_form, older_items, put_flagged_item, put_older_items,
};
use crate::converter::outcome::{
    ConversionResult, Outcome, converted, emit, in_front, outcome_of, rebuild_with_id, split,
    split_id,
};
use crate::converter::safe::Reader;
use crate::flattening::{Flattening, older_block};
use crate::nbt::document_end;
use crate::position::{legacy_of_modern, to_legacy_layout};
use crate::slot::slot_at;
use crate::text::{is_text, string_at, wire_string};
use crate::varint::{varint, varint_at};
use crate::version::ProtocolVersion;
use crate::wire::{
    be32, be64, be_i16, be_i32, be_i8, bytes_from_vec, bytes_to_vec, content, i16_at, i32_at,
    i8_at, u32_at, u64_at,
};
use crate::writer::{Writer, empty_then};
use vstd::prelude::*;

verus! {

// Packets of 1.16.5 toward the client.

pub const V16_S2C_KEEP_ALIVE: u8 = 0x1F;
pub const V16_S2C_JOIN_GAME: u8 = 0x24;
pub const V16_S2C_CHAT: u8 = 0x0E;
pub const V16_S2C_PLAYER_POS_LOOK: u8 = 0x34;
pub const V16_S2C_SPAWN_POSITION: u8 = 0x42;
pub const V16_S2C_RESPAWN: u8 = 0x39;
pub const V16_S2C_DISCONNECT: u8 = 0x19;
pub const V16_S2C_HELD_ITEM_CHANGE: u8 = 0x3F;
pub const V16_S2C_PLAYER_ABILITIES: u8 = 0x30;
pub const V16_S2C_SET_EXPERIENCE: u8 = 0x48;
pub const V16_S2C_BLOCK_CHANGE: u8 = 0x0B;
pub const V16_S2C_MULTI_BLOCK_CHANGE: u8 = 0x0F;
pub const V16_S2C_SET_SLOT: u8 = 0x15;
pub const V16_S2C_WINDOW_ITEMS: u8 = 0x13;
pub const V16_S2C_ENTITY_EQUIPMENT: u8 = 0x47;
pub const V16_S2C_CHUNK_DATA: u8 = 0x20;
pub const V16_S2C_ENTITY_TELEPORT: u8 = 0x56;
pub const V16_S2C_MOVE_ENTITY_POS: u8 = 0x28;
pub const V16_S2C_MOVE_ENTITY_POS_ROT: u8 = 0x29;
pub const V16_S2C_MOVE_ENTITY_ROT: u8 = 0x2A;
pub const V16_S2C_DESTROY_ENTITIES: u8 = 0x37;
pub const V16_S2C_ENTITY_HEAD_LOOK: u8 = 0x3B;
pub const V16_S2C_ENTITY_VELOCITY: u8 = 0x46;

pub const V12_S2C_KEEP_ALIVE: u8 = 0x1F;
pub const V12_S2C_JOIN_GAME: u8 = 0x23;
pub const V12_S2C_CHAT: u8 = 0x0F;
pub const V12_S2C_PLAYER_POS_LOOK: u8 = 0x2F;
pub const V12_S2C_SPAWN_POSITION: u8 = 0x46;
pub const V12_S2C_RESPAWN: u8 = 0x35;
pub const V12_S2C_DISCONNECT: u8 = 0x1A;
pub const V12_S2C_HELD_ITEM_CHANGE: u8 = 0x3A;
pub const V12_S2C_PLAYER_ABILITIES: u8 = 0x2C;
pub const V12_S2C_SET_EXPERIENCE: u8 = 0x40;
pub const V12_S2C_ENTITY_TELEPORT: u8 = 0x4C;
pub const V12_S2C_MOVE_ENTITY_POS: u8 = 0x26;
pub const V12_S2C_MOVE_ENTITY_POS_ROT: u8 = 0x27;
pub const V12_S2C_MOVE_ENTITY_ROT: u8 = 0x28;
pub const V12_S2C_DESTROY_ENTITIES: u8 = 0x32;
pub const V12_S2C_ENTITY_HEAD_LOOK: u8 = 0x36;
pub const V12_S2C_ENTITY_VELOCITY: u8 = 0x3E;
pub const V12_S2C_BLOCK_CHANGE: u8 = 0x0B;
pub const V12_S2C_MULTI_BLOCK_CHANGE: u8 = 0x10;
pub const V12_S2C_SET_SLOT: u8 = 0x16;
pub const V12_S2C_WINDOW_ITEMS: u8 = 0x14;
pub const V12_S2C_ENTITY_EQUIPMENT: u8 = 0x3F;
pub const V12_S2C_CHUNK_DATA: u8 = 0x20;

/// The number of a dimension by its name: the nether is -1, the end is 1, and all others
/// are 0.
pub open spec fn dimension_of(key: Seq<char>) -> i32 {
    if key == "minecraft:the_nether"@ {
        -1i32
    } else if key == "minecraft:the_end"@ {
        1
    } else {
        0
    }
}

/// The number of a dimension by its name.
pub fn dimension_key_to_i32(key: &str) -> (d: i32)
    ensures
        d == dimension_of(key@),
{
    let name = String::from_str(key);
    if is_text(&name, "minecraft:the_nether") {
        -1
    } else if is_text(&name, "minecraft:the_end") {
        1
    } else {
        0
    }
}

/// The name of a level that is flat or not.
pub open spec fn level_of(flat: u8) -> Seq<char> {
    if flat != 0 {
        "flat"@
    } else {
        "default"@
    }
}

/// The position behind `n` texts from `p` on, `None` where one does not read.
pub open spec fn names_end(b: Seq<u8>, p: int, n: nat) -> Option<int>
    decreases n,
{
    if n == 0 {
        Some(p)
    } else {
        match string_at(b, p) {
            Some((_, q)) => names_end(b, q, (n - 1) as nat),
            None => None,
        }
    }
}

/// Skips texts and says whether all of them read. A negative number of them never does.
fn skip_names(r: &mut Reader, n: i32) -> (ok: bool)
    requires
        old(r).valid(),
    ensures
        final(r).valid(),
        final(r).all() == old(r).all(),
        n < 0 ==> !ok,
        n >= 0 ==> match names_end(old(r).all(), old(r).at(), n as nat) {
            Some(end) => ok && final(r).at() == end,
            None => !ok,
        },
{
    if n < 0 {
        return false;
    }
    let ghost whole = names_end(r.all(), r.at(), n as nat);
    let mut left: i32 = n;
    while left > 0
        invariant
            0 <= left <= n,
            r.valid(),
            r.all() == old(r).all(),
            whole == names_end(old(r).all(), old(r).at(), n as nat),
            whole == names_end(r.all(), r.at(), left as nat),
        decreases left,
    {
        if r.string().is_none() {
            return false;
        }
        left = left - 1;
    }
    true
}

/// The name of the world that stands behind the names of all worlds and two documents, and
/// the position behind it.
pub open spec fn world_at(b: Seq<u8>, p: int, worlds: i32) -> Option<(Seq<char>, int)> {
    if worlds < 0 {
        None
    } else {
        match names_end(b, p, worlds as nat) {
            None => None,
            Some(q) => match document_end(b, q) {
                None => None,
                Some(q) => match document_end(b, q) {
                    None => None,
                    Some(q) => string_at(b, q),
                },
            },
        }
    }
}

/// The position behind two variable-length integers.
pub open spec fn two_numbers_end(b: Seq<u8>, p: int) -> Option<int> {
    match varint_at(b, p) {
        None => None,
        Some((_, q)) => match varint_at(b, q) {
            None => None,
            Some((_, e)) => Some(e),
        },
    }
}

/// Chat: the sender is dropped. `None` where the byte count is negative but above -18, which
/// is no length.
pub open spec fn spec_s2c_chat(b: Seq<u8>) -> Option<Outcome> {
    match varint_at(b, 0) {
        None => Some(Outcome::Passthrough),
        Some((n, p)) => if -17 <= n < 0 {
            None
        } else if n < 0 || b.len() < p + n + 17 {
            Some(Outcome::Passthrough)
        } else {
            Some(
                converted(
                    V12_S2C_CHAT,
                    varint(n) + b.subrange(p, p + n) + seq![b[p + n]],
                ),
            )
        },
    }
}

pub fn s2c_chat(body: Bytes) -> (res: Option<ConversionResult>)
    ensures
        outcome_of(res) == spec_s2c_chat(content(body)),
{
    broadcast use empty_then;

    let mut r = Reader::new(body);
    let n: i32 = match r.varint() {
        Some(n) => n,
        None => {
            return Some(ConversionResult::Passthrough);
        },
    };
    if -17 <= n && n < 0 {
        return None;
    }
    if n < 0 || r.remaining() < 17 || r.remaining() - 17 < n as usize {
        return Some(ConversionResult::Passthrough);
    }
    let json = r.get_bytes(n as usize);
    let position: u8 = r.get_u8();
    let mut out = Writer::new();
    out.varint(n);
    out.raw(bytes_to_vec(&json).as_slice());
    out.u8(position);
    Some(emit(V12_S2C_CHAT, out))
}

/// A record of a block change from `p` on, in the older form, and the position behind it. A
/// block without an older state is left out.
pub open spec fn record_at(b: Seq<u8>, p: int, pairs: Seq<(u32, u32)>) -> Option<(Seq<u8>, int)> {
    match varint_at(b, p) {
        None => None,
        Some((offset, q)) => match varint_at(b, q) {
            None => None,
            Some((state, end)) => {
                let o = offset as u32;
                match older_block(pairs, state as u32) {
                    None => Some((seq![], end)),
                    Some(older) => Some(
                        (
                            be_i16((o % 16) as i16) + be_i16((o / 256 % 16) as i16) + be_i16(
                                (o / 16 % 16) as i16,
                            ) + varint((older / 16) as i32) + varint((older % 16) as i32),
                            end,
                        ),
                    ),
                }
            },
        },
    }
}

/// `n` records from `p` on, `None` where one does not read.
pub open spec fn records_from(b: Seq<u8>, p: int, n: nat, pairs: Seq<(u32, u32)>) -> Option<Seq<u8>>
    decreases n,
{
    if n == 0 {
        Some(seq![])
    } else {
        match record_at(b, p, pairs) {
            None => None,
            Some((record, q)) => match records_from(b, q, (n - 1) as nat, pairs) {
                None => None,
                Some(rest) => Some(record + rest),
            },
        }
    }
}

/// MultiBlockChange: each record takes the older form; the count stays, though records
/// without an older state are left out. `None` where the count is negative or a number does
/// not read.
pub open spec fn spec_s2c_multi_block_change(b: Seq<u8>, t: Flattening) -> Option<Outcome> {
    if b.len() < 8 {
        Some(Outcome::Passthrough)
    } else {
        match varint_at(b, 8) {
            None => None,
            Some((n, p)) => if n < 0 {
                None
            } else {
                match records_from(b, p, n as nat, t.blocks.pairs@) {
                    None => None,
                    Some(records) => Some(
                        converted(
                            V12_S2C_MULTI_BLOCK_CHANGE,
                            be_i32(i32_at(b, 0)) + be_i32(i32_at(b, 4)) + varint(n) + records,
                        ),
                    ),
                }
            },
        }
    }
}

/// Appends the next record in its older form, and says whether it read.
fn put_record(r: &mut Reader, out: &mut Writer, t: &Flattening) -> (ok: bool)
    requires
        old(r).valid(),
    ensures
        final(r).valid(),
        final(r).all() == old(r).all(),
        match record_at(old(r).all(), old(r).at(), t.blocks.pairs@) {
            Some((record, end)) => ok && final(r).at() == end && final(out)@ == old(out)@ + record,
            None => !ok,
        },
{
    let ghost head = out@;
    let offset: u32 = match r.varint() {
        Some(v) => v as u32,
        None => {
            return false;
        },
    };
    let state: u32 = match r.varint() {
        Some(v) => v as u32,
        None => {
            return false;
        },
    };
    match t.blocks.modern_to_legacy(state) {
        Some(older) => {
            let (x, y, z): (i16, i16, i16) = (
                (offset % 16) as i16,
                (offset / 256 % 16) as i16,
                (offset / 16 % 16) as i16,
            );
            out.i16(x);
            out.i16(y);
            out.i16(z);
            out.varint((older / 16) as i32);
            out.varint((older % 16) as i32);
            proof {
                let (a, c, d) = (be_i16(x), be_i16(y), be_i16(z));
                let (e, f) = (varint((older / 16) as i32), varint((older % 16) as i32));
                assert(head + a + c + d + e + f =~= head + (a + c + d + e + f));
            }
        },
        None => {
            assert(head + Seq::<u8>::empty() =~= head);
        },
    }
    true
}

pub fn s2c_multi_block_change(body: Bytes, t: &Flattening) -> (res: Option<ConversionResult>)
    ensures
        outcome_of(res) == spec_s2c_multi_block_change(content(body), *t),
{
    broadcast use empty_then;

    let ghost b = content(body);
    let ghost pairs = t.blocks.pairs@;
    let mut r = Reader::new(body);
    if !r.has(8) {
        return Some(ConversionResult::Passthrough);
    }
    let chunk_x: i32 = r.get_i32();
    let chunk_z: i32 = r.get_i32();
    let count: i32 = match r.varint() {
        Some(n) => n,
        None => {
            return None;
        },
    };
    if count < 0 {
        return None;
    }
    let ghost p = r.at();
    let mut out = Writer::new();
    out.i32(chunk_x);
    out.i32(chunk_z);
    out.varint(count);
    let ghost head = out@;
    let mut left: i32 = count;
    let ghost mut done = Seq::<u8>::empty();
    proof {
        let all = records_from(b, p, count as nat, pairs);
        if all is Some {
            assert(done + all->0 =~= all->0);
        }
        assert(head + done =~= head);
    }
    while left > 0
        invariant
            0 <= left <= count,
            r.valid(),
            r.all() == b,
            b == content(body),
            b.len() >= 8,
            varint_at(b, 8) == Some((count, p)),
            pairs == t.blocks.pairs@,
            records_from(b, p, count as nat, pairs) == in_front(
                done,
                records_from(b, r.at(), left as nat, pairs),
            ),
            out@ == head + done,
        decreases left,
    {
        let ghost at = r.at();
        if !put_record(&mut r, &mut out, t) {
            return None;
        }
        proof {
            let (add, _) = record_at(b, at, pairs)->0;
            let rest = records_from(b, r.at(), (left - 1) as nat, pairs);
            if rest is Some {
                assert(done + (add + rest->0) =~= (done + add) + rest->0);
            }
            assert(out@ =~= head + (done + add));
            done = done + add;
        }
        left = left - 1;
    }
    assert(done + Seq::<u8>::empty() =~= done);
    Some(emit(V12_S2C_MULTI_BLOCK_CHANGE, out))
}

/// WindowItems: the window, and each item in its older form, without a count. `None` where
/// the count is negative or an item does not read.
pub open spec fn spec_s2c_window_items(b: Seq<u8>, t: Flattening) -> Option<Outcome> {
    if b.len() < 1 {
        None
    } else {
        match varint_at(b, 1) {
            None => None,
            Some((n, p)) => if n < 0 {
                None
            } else {
                match older_items(b, p, n as nat, t.items.pairs@) {
                    None => None,
                    Some(items) => Some(converted(V12_S2C_WINDOW_ITEMS, seq![b[0]] + items)),
                }
            },
        }
    }
}

pub fn s2c_window_items(body: Bytes, t: &Flattening) -> (res: Option<ConversionResult>)
    ensures
        outcome_of(res) == spec_s2c_window_items(content(body), *t),
{
    broadcast use empty_then;

    let mut r = Reader::new(body);
    if !r.has(1) {
        return None;
    }
    let window_id: u8 = r.get_u8();
    let count: i32 = match r.varint() {
        Some(n) => n,
        None => {
            return None;
        },
    };
    if count < 0 {
        return None;
    }
    let mut out = Writer::new();
    out.u8(window_id);
    if put_older_items(&mut r, &mut out, count, &t.items) {
        Some(emit(V12_S2C_WINDOW_ITEMS, out))
    } else {
        None
    }
}

/// EntityEquipment: the item takes its older form, and its place the older index, of variable
/// length. The off hand and unknown places are dropped. `None` where the item does not
/// read.
pub open spec fn spec_s2c_entity_equipment(b: Seq<u8>, t: Flattening) -> Option<Outcome> {
    match varint_at(b, 0) {
        None => Some(Outcome::Passthrough),
        Some((entity_id, p)) => if b.len() < p + 1 {
            Some(Outcome::Passthrough)
        } else {
            match slot_at(b, p + 1) {
                None => None,
                Some((item, _)) => match older_equipment_index(b[p]) {
                    None => Some(Outcome::Drop),
                    Some(index) => Some(
                        converted(
                            V12_S2C_ENTITY_EQUIPMENT,
                            varint(entity_id) + varint(index as i32) + flagged_item_bytes(
                                older_form(item, t.items.pairs@),
                            ),
                        ),
                    ),
                },
            }
        },
    }
}

pub fn s2c_entity_equipment(body: Bytes, t: &Flattening) -> (res: Option<ConversionResult>)
    ensures
        outcome_of(res) == spec_s2c_entity_equipment(content(body), *t),
{
    broadcast use empty_then;

    let mut r = Reader::new(body);
    let entity_id: i32 = match r.varint() {
        Some(n) => n,
        None => {
            return Some(ConversionResult::Passthrough);
        },
    };
    if !r.has(1) {
        return Some(ConversionResult::Passthrough);
    }
    let place: u8 = r.get_u8();
    let item = match r.slot() {
        Some(item) => item,
        None => {
            return None;
        },
    };
    let index: i16 = match map_equipment_slot(place) {
        Some(index) => index,
        None => {
            return Some(ConversionResult::Drop);
        },
    };
    let mut out = Writer::new();
    out.varint(entity_id);
    out.varint(index as i32);
    put_flagged_item(&mut out, &modern_slot_to_legacy(&item, &t.items));
    Some(emit(V12_S2C_ENTITY_EQUIPMENT, out))
}

/// The block table of a repacker, where there is one.
pub open spec fn block_table(repacker: Option<&ChunkRepacker>) -> Option<BlockTable> {
    match repacker {
        Some(r) => Some(r.blocks()@),
        None => None,
    }
}

/// ChunkData: the data is repacked. Without a repacker, or where it cannot be repacked, it is
/// dropped. `None` where the data is too short for what it announces.
pub open spec fn spec_s2c_chunk_data(b: Seq<u8>, blocks: Option<BlockTable>) -> Option<Outcome> {
    match blocks {
        None => Some(Outcome::Drop),
        Some(t) => match repacked(b, ProtocolVersion::V1_16_5, ProtocolVersion::V1_12_2, t) {
            None => None,
            Some(Err(_)) => Some(Outcome::Drop),
            Some(Ok(data)) => Some(converted(V12_S2C_CHUNK_DATA, data)),
        },
    }
}

pub fn s2c_chunk_data(body: Bytes, repacker: Option<&ChunkRepacker>) -> (res: Option<ConversionResult>)
    ensures
        outcome_of(res) == spec_s2c_chunk_data(content(body), block_table(repacker)),
{
    match repacker {
        None => Some(ConversionResult::Drop),
        Some(r) => match r.try_repack(
            bytes_to_vec(&body).as_slice(),
            ProtocolVersion::V1_16_5,
            ProtocolVersion::V1_12_2,
        ) {
            None => None,
            Some(Err(_)) => Some(ConversionResult::Drop),
            Some(Ok(data)) => Some(rebuild_with_id(V12_S2C_CHUNK_DATA, &bytes_from_vec(data))),
        },
    }
}

/// SpawnPosition: the place is packed in the older order.
pub open spec fn spec_s2c_spawn_position(b: Seq<u8>) -> Outcome {
    if b.len() < 8 {
        Outcome::Passthrough
    } else {
        converted(V12_S2C_SPAWN_POSITION, be64(legacy_of_modern(u64_at(b, 0))))
    }
}

pub fn s2c_spawn_position(body: Bytes) -> (res: ConversionResult)
    ensures
        res@ == spec_s2c_spawn_position(content(body)),
{
    broadcast use empty_then;

    let mut r = Reader::new(body);
    if !r.has(8) {
        return ConversionResult::Passthrough;
    }
    let place: u64 = r.get_u64();
    let mut out = Writer::new();
    out.u64(to_legacy_layout(place));
    emit(V12_S2C_SPAWN_POSITION, out)
}

/// BlockChange: the place is packed in the older order, and the block gets its older state. A
/// block without one is dropped.
pub open spec fn spec_s2c_block_change(b: Seq<u8>, t: Flattening) -> Outcome {
    if b.len() < 8 {
        Outcome::Passthrough
    } else {
        match varint_at(b, 8) {
            None => Outcome::Passthrough,
            Some((state, p)) => {
                match older_block(t.blocks.pairs@, state as u32) {
                    None => Outcome::Drop,
                    Some(older) => converted(
                        V12_S2C_BLOCK_CHANGE,
                        be64(legacy_of_modern(u64_at(b, 0))) + varint(older as i32),
                    ),
                }
            },
        }
    }
}

pub fn s2c_block_change(body: Bytes, t: &Flattening) -> (res: ConversionResult)
    ensures
        res@ == spec_s2c_block_change(content(body), *t),
{
    broadcast use empty_then;

    let mut r = Reader::new(body);
    if !r.has(8) {
        return ConversionResult::Passthrough;
    }
    let place: u64 = r.get_u64();
    let state: i32 = match r.varint() {
        Some(v) => v,
        None => {
            return ConversionResult::Passthrough;
        },
    };
    match t.blocks.modern_to_legacy(state as u32) {
        None => ConversionResult::Drop,
        Some(older) => {
            let mut out = Writer::new();
            out.u64(to_legacy_layout(place));
            out.varint(older as i32);
            emit(V12_S2C_BLOCK_CHANGE, out)
        },
    }
}

/// SetSlot: the item takes its older form.
pub open spec fn spec_s2c_set_slot(b: Seq<u8>, t: Flattening) -> Outcome {
    if b.len() < 3 {
        Outcome::Passthrough
    } else {
        match slot_at(b, 3) {
            None => Outcome::Passthrough,
            Some((item, _)) => converted(
                V12_S2C_SET_SLOT,
                seq![b[0]] + be_i16(i16_at(b, 1)) + flagged_item_bytes(older_form(item, t.items.pairs@)),
            ),
        }
    }
}

pub fn s2c_set_slot(body: Bytes, t: &Flattening) -> (res: ConversionResult)
    ensures
        res@ == spec_s2c_set_slot(content(body), *t),
{
    broadcast use empty_then;

    let mut r = Reader::new(body);
    if !r.has(3) {
        return ConversionResult::Passthrough;
    }
    let window_id: u8 = r.get_u8();
    let place: i16 = r.get_i16();
    match r.slot() {
        None => ConversionResult::Passthrough,
        Some(item) => {
            let mut out = Writer::new();
            out.u8(window_id);
            out.i16(place);
            put_flagged_item(&mut out, &modern_slot_to_legacy(&item, &t.items));
            emit(V12_S2C_SET_SLOT, out)
        },
    }
}

/// Respawn: the dimension is told by the world's name, the difficulty is peaceful, the game
/// mode keeps its low three bits, and the level is flat or the default one.
pub open spec fn spec_s2c_respawn(b: Seq<u8>) -> Outcome {
    match document_end(b, 0) {
        None => Outcome::Passthrough,
        Some(p) => match string_at(b, p) {
            None => Outcome::Passthrough,
            Some((world, q)) => if b.len() < q + 13 {
                Outcome::Passthrough
            } else {
                converted(
                    V12_S2C_RESPAWN,
                    be_i32(dimension_of(world)) + seq![0u8] + seq![b[q + 8] & 0x07] + wire_string(
                        level_of(b[q + 11]),
                    ),
                )
            },
        },
    }
}

pub fn s2c_respawn(body: Bytes) -> (res: ConversionResult)
    ensures
        res@ == spec_s2c_respawn(content(body)),
{
    broadcast use empty_then;

    let mut r = Reader::new(body);
    if !r.skip_nbt() {
        return ConversionResult::Passthrough;
    }
    let world: String = match r.string() {
        Some(s) => s,
        None => {
            return ConversionResult::Passthrough;
        },
    };
    if !r.has(13) {
        return ConversionResult::Passthrough;
    }
    let _seed: i64 = r.get_i64();
    let game_mode: u8 = r.get_u8();
    let _previous: i8 = r.get_i8();
    let _debug: u8 = r.get_u8();
    let flat: u8 = r.get_u8();
    let mut out = Writer::new();
    out.i32(dimension_key_to_i32(world.as_str()));
    out.u8(0);
    out.u8(game_mode & 0x07);
    out.string(if flat != 0 { "flat" } else { "default" });
    emit(V12_S2C_RESPAWN, out)
}

/// JoinGame: the dimension is told by the world's name, the difficulty is peaceful, the game
/// mode keeps its low three bits, there are 20 players at most, and the level is flat or the
/// default one.
pub open spec fn spec_s2c_join_game(b: Seq<u8>) -> Outcome {
    if b.len() < 7 {
        Outcome::Passthrough
    } else {
        match varint_at(b, 7) {
            None => Outcome::Passthrough,
            Some((worlds, p)) => {
                match world_at(b, p, worlds) {
                    None => Outcome::Passthrough,
                    Some((world, q)) => if b.len() < q + 8 {
                        Outcome::Passthrough
                    } else {
                        match two_numbers_end(b, q + 8) {
                            None => Outcome::Passthrough,
                            Some(e) => if b.len() < e + 4 {
                                Outcome::Passthrough
                            } else {
                                converted(
                                    V12_S2C_JOIN_GAME,
                                    be_i32(i32_at(b, 0)) + seq![b[5] & 0x07] + be_i32(dimension_of(world))
                                        + seq![0u8] + seq![20u8] + wire_string(level_of(b[e + 3])) + seq![
                                        if b[e] != 0 { 1u8 } else { 0u8 },
                                    ],
                                )
                            },
                        }
                    },
                }
                
            },
        }
    }
}

pub fn s2c_join_game(body: Bytes) -> (res: ConversionResult)
    ensures
        res@ == spec_s2c_join_game(content(body)),
{
    broadcast use empty_then;

    let mut r = Reader::new(body);
    if !r.has(7) {
        return ConversionResult::Passthrough;
    }
    let entity_id: i32 = r.get_i32();
    let _hardcore: u8 = r.get_u8();
    let game_mode: u8 = r.get_u8();
    let _previous: i8 = r.get_i8();
    let worlds: i32 = match r.varint() {
        Some(v) => v,
        None => {
            return ConversionResult::Passthrough;
        },
    };
    if !skip_names(&mut r, worlds) {
        return ConversionResult::Passthrough;
    }
    if !r.skip_nbt() {
        return ConversionResult::Passthrough;
    }
    if !r.skip_nbt() {
        return ConversionResult::Passthrough;
    }
    let world: String = match r.string() {
        Some(s) => s,
        None => {
            return ConversionResult::Passthrough;
        },
    };
    if !r.has(8) {
        return ConversionResult::Passthrough;
    }
    let _seed: i64 = r.get_i64();
    if r.varint().is_none() {
        return ConversionResult::Passthrough;
    }
    if r.varint().is_none() {
        return ConversionResult::Passthrough;
    }
    if !r.has(4) {
        return ConversionResult::Passthrough;
    }
    let reduced: u8 = r.get_u8();
    let _respawn: u8 = r.get_u8();
    let _debug: u8 = r.get_u8();
    let flat: u8 = r.get_u8();
    let mut out = Writer::new();
    out.i32(entity_id);
    out.u8(game_mode & 0x07);
    out.i32(dimension_key_to_i32(world.as_str()));
    out.u8(0);
    out.u8(20);
    out.string(if flat != 0 { "flat" } else { "default" });
    out.u8(if reduced != 0 { 1 } else { 0 });
    emit(V12_S2C_JOIN_GAME, out)
}

/// The 1.12.2 form of a 1.16.5 packet toward the client, `None` where the packet ends before
/// what is read of it. Unknown packets are left alone.
pub open spec fn spec_s2c(id: u8, b: Seq<u8>, t: Flattening, blocks: Option<BlockTable>) -> Option<Outcome> {
    if id == V16_S2C_KEEP_ALIVE {
        Some(converted(V12_S2C_KEEP_ALIVE, b))
    } else if id == V16_S2C_JOIN_GAME {
        Some(spec_s2c_join_game(b))
    } else if id == V16_S2C_CHAT {
        spec_s2c_chat(b)
    } else if id == V16_S2C_PLAYER_POS_LOOK {
        Some(converted(V12_S2C_PLAYER_POS_LOOK, b))
    } else if id == V16_S2C_SPAWN_POSITION {
        Some(spec_s2c_spawn_position(b))
    } else if id == V16_S2C_RESPAWN {
        Some(spec_s2c_respawn(b))
    } else if id == V16_S2C_DISCONNECT {
        Some(converted(V12_S2C_DISCONNECT, b))
    } else if id == V16_S2C_HELD_ITEM_CHANGE {
        Some(converted(V12_S2C_HELD_ITEM_CHANGE, b))
    } else if id == V16_S2C_PLAYER_ABILITIES {
        Some(converted(V12_S2C_PLAYER_ABILITIES, b))
    } else if id == V16_S2C_SET_EXPERIENCE {
        Some(converted(V12_S2C_SET_EXPERIENCE, b))
    } else if id == V16_S2C_ENTITY_TELEPORT {
        Some(converted(V12_S2C_ENTITY_TELEPORT, b))
    } else if id == V16_S2C_MOVE_ENTITY_POS {
        Some(converted(V12_S2C_MOVE_ENTITY_POS, b))
    } else if id == V16_S2C_MOVE_ENTITY_POS_ROT {
        Some(converted(V12_S2C_MOVE_ENTITY_POS_ROT, b))
    } else if id == V16_S2C_MOVE_ENTITY_ROT {
        Some(converted(V12_S2C_MOVE_ENTITY_ROT, b))
    } else if id == V16_S2C_DESTROY_ENTITIES {
        Some(converted(V12_S2C_DESTROY_ENTITIES, b))
    } else if id == V16_S2C_ENTITY_HEAD_LOOK {
        Some(converted(V12_S2C_ENTITY_HEAD_LOOK, b))
    } else if id == V16_S2C_ENTITY_VELOCITY {
        Some(converted(V12_S2C_ENTITY_VELOCITY, b))
    } else if id == V16_S2C_BLOCK_CHANGE {
        Some(spec_s2c_block_change(b, t))
    } else if id == V16_S2C_MULTI_BLOCK_CHANGE {
        spec_s2c_multi_block_change(b, t)
    } else if id == V16_S2C_CHUNK_DATA {
        spec_s2c_chunk_data(b, blocks)
    } else if id == V16_S2C_SET_SLOT {
        Some(spec_s2c_set_slot(b, t))
    } else if id == V16_S2C_WINDOW_ITEMS {
        spec_s2c_window_items(b, t)
    } else if id == V16_S2C_ENTITY_EQUIPMENT {
        spec_s2c_entity_equipment(b, t)
    } else {
        Some(Outcome::Passthrough)
    }
}

fn s2c(id: u8, body: Bytes, t: &Flattening, repacker: Option<&ChunkRepacker>) -> (res: Option<ConversionResult>)
    ensures
        outcome_of(res) == spec_s2c(id, content(body), *t, block_table(repacker)),
{
    if id == V16_S2C_KEEP_ALIVE {
        Some(rebuild_with_id(V12_S2C_KEEP_ALIVE, &body))
    } else if id == V16_S2C_JOIN_GAME {
        Some(s2c_join_game(body))
    } else if id == V16_S2C_CHAT {
        s2c_chat(body)
    } else if id == V16_S2C_PLAYER_POS_LOOK {
        Some(rebuild_with_id(V12_S2C_PLAYER_POS_LOOK, &body))
    } else if id == V16_S2C_SPAWN_POSITION {
        Some(s2c_spawn_position(body))
    } else if id == V16_S2C_RESPAWN {
        Some(s2c_respawn(body))
    } else if id == V16_S2C_DISCONNECT {
        Some(rebuild_with_id(V12_S2C_DISCONNECT, &body))
    } else if id == V16_S2C_HELD_ITEM_CHANGE {
        Some(rebuild_with_id(V12_S2C_HELD_ITEM_CHANGE, &body))
    } else if id == V16_S2C_PLAYER_ABILITIES {
        Some(rebuild_with_id(V12_S2C_PLAYER_ABILITIES, &body))
    } else if id == V16_S2C_SET_EXPERIENCE {
        Some(rebuild_with_id(V12_S2C_SET_EXPERIENCE, &body))
    } else if id == V16_S2C_ENTITY_TELEPORT {
        Some(rebuild_with_id(V12_S2C_ENTITY_TELEPORT, &body))
    } else if id == V16_S2C_MOVE_ENTITY_POS {
        Some(rebuild_with_id(V12_S2C_MOVE_ENTITY_POS, &body))
    } else if id == V16_S2C_MOVE_ENTITY_POS_ROT {
        Some(rebuild_with_id(V12_S2C_MOVE_ENTITY_POS_ROT, &body))
    } else if id == V16_S2C_MOVE_ENTITY_ROT {
        Some(rebuild_with_id(V12_S2C_MOVE_ENTITY_ROT, &body))
    } else if id == V16_S2C_DESTROY_ENTITIES {
        Some(rebuild_with_id(V12_S2C_DESTROY_ENTITIES, &body))
    } else if id == V16_S2C_ENTITY_HEAD_LOOK {
        Some(rebuild_with_id(V12_S2C_ENTITY_HEAD_LOOK, &body))
    } else if id == V16_S2C_ENTITY_VELOCITY {
        Some(rebuild_with_id(V12_S2C_ENTITY_VELOCITY, &body))
    } else if id == V16_S2C_BLOCK_CHANGE {
        Some(s2c_block_change(body, t))
    } else if id == V16_S2C_MULTI_BLOCK_CHANGE {
        s2c_multi_block_change(body, t)
    } else if id == V16_S2C_CHUNK_DATA {
        s2c_chunk_data(body, repacker)
    } else if id == V16_S2C_SET_SLOT {
        Some(s2c_set_slot(body, t))
    } else if id == V16_S2C_WINDOW_ITEMS {
        s2c_window_items(body, t)
    } else if id == V16_S2C_ENTITY_EQUIPMENT {
        s2c_entity_equipment(body, t)
    } else {
        Some(ConversionResult::Passthrough)
    }
}

/// What becomes of a packet toward the client, `None` where the packet ends before what is
/// read of it.
pub open spec fn spec_convert_s2c(p: Seq<u8>, t: Flattening, blocks: Option<BlockTable>) -> Option<
    Outcome,
> {
    match split(p) {
        Some((id, b)) => spec_s2c(id, b, t, blocks),
        None => Some(Outcome::Passthrough),
    }
}

/// Converts a packet toward the client, or gives `None` where the packet ends before what is
/// read of it.
pub fn try_convert_s2c(payload: Bytes, t: &Flattening, repacker: Option<&ChunkRepacker>) -> (res: Option<
    ConversionResult,
>)
    ensures
        outcome_of(res) == spec_convert_s2c(content(payload), *t, block_table(repacker)),
{
    match split_id(payload) {
        Some((id, body)) => s2c(id, body, t, repacker),
        None => Some(ConversionResult::Passthrough),
    }
}

/// Converts a packet toward the client that holds all that is read of it.
pub fn convert_s2c(payload: Bytes, t: &Flattening, repacker: Option<&ChunkRepacker>) -> (res:
    ConversionResult)
    requires
        spec_convert_s2c(content(payload), *t, block_table(repacker)) is Some,
    ensures
        Some(res@) == spec_convert_s2c(content(payload), *t, block_table(repacker)),
{
    match try_convert_s2c(payload, t, repacker) {
        Some(res) => res,
        None => ConversionResult::Drop,
    }
}

// Packets of 1.16.5 toward the server.

pub const V16_C2S_TELEPORT_CONFIRM: u8 = 0x00;
pub const V16_C2S_CHAT: u8 = 0x03;
pub const V16_C2S_CLIENT_STATUS: u8 = 0x04;
pub const V16_C2S_CLIENT_SETTINGS: u8 = 0x05;
pub const V16_C2S_PLUGIN_MESSAGE: u8 = 0x0B;
pub const V16_C2S_INTERACT: u8 = 0x0E;
pub const V16_C2S_KEEP_ALIVE: u8 = 0x10;
pub const V16_C2S_MOVE_PLAYER_POS: u8 = 0x12;
pub const V16_C2S_MOVE_PLAYER_ROT: u8 = 0x13;
pub const V16_C2S_MOVE_PLAYER_POS_ROT: u8 = 0x14;
pub const V16_C2S_PLAYER_ABILITIES: u8 = 0x19;
pub const V16_C2S_PLAYER_DIGGING: u8 = 0x1B;
pub const V16_C2S_ENTITY_ACTION: u8 = 0x1C;
pub const V16_C2S_HELD_ITEM_CHANGE: u8 = 0x25;
pub const V16_C2S_ANIMATION: u8 = 0x2C;
pub const V16_C2S_PLAYER_BLOCK_PLACEMENT: u8 = 0x2E;
pub const V16_C2S_USE_ITEM: u8 = 0x2F;

pub const V12_C2S_TELEPORT_CONFIRM: u8 = 0x00;
pub const V12_C2S_CHAT: u8 = 0x02;
pub const V12_C2S_CLIENT_STATUS: u8 = 0x03;
pub const V12_C2S_CLIENT_SETTINGS: u8 = 0x04;
pub const V12_C2S_PLUGIN_MESSAGE: u8 = 0x09;
pub const V12_C2S_INTERACT: u8 = 0x0A;
pub const V12_C2S_KEEP_ALIVE: u8 = 0x0B;
pub const V12_C2S_MOVE_PLAYER_POS: u8 = 0x0C;
pub const V12_C2S_MOVE_PLAYER_POS_ROT: u8 = 0x0D;
pub const V12_C2S_MOVE_PLAYER_ROT: u8 = 0x0E;
pub const V12_C2S_PLAYER_ABILITIES: u8 = 0x12;
pub const V12_C2S_PLAYER_DIGGING: u8 = 0x14;
pub const V12_C2S_ENTITY_ACTION: u8 = 0x15;
pub const V12_C2S_HELD_ITEM_CHANGE: u8 = 0x1A;
pub const V12_C2S_ANIMATION: u8 = 0x1D;
pub const V12_C2S_PLAYER_BLOCK_PLACEMENT: u8 = 0x1F;
pub const V12_C2S_USE_ITEM: u8 = 0x20;

/// PlayerDigging: the place is packed in the older order, and the face is one byte.
pub open spec fn spec_c2s_player_digging(b: Seq<u8>) -> Outcome {
    match varint_at(b, 0) {
        None => Outcome::Passthrough,
        Some((status, p)) => {
            if b.len() < p + 8 {
                Outcome::Passthrough
            } else if b.len() < p + 9 {
                Outcome::Passthrough
            } else {
                converted(
                    V12_C2S_PLAYER_DIGGING,
                    varint(status) + be64(legacy_of_modern(u64_at(b, p)))
                        + be_i8(i8_at(b, p + 8)),
                )
            }
        },
    }
}

pub fn c2s_player_digging(body: Bytes) -> (res: ConversionResult)
    ensures
        res@ == spec_c2s_player_digging(content(body)),
{
    broadcast use empty_then;

    let mut r = Reader::new(body);
    let status: i32 = match r.varint() {
        Some(v) => v,
        None => {
            return ConversionResult::Passthrough;
        },
    };
    if !r.has(8) {
        return ConversionResult::Passthrough;
    }
    let place: u64 = r.get_u64();
    if !r.has(1) {
        return ConversionResult::Passthrough;
    }
    let face: i8 = r.get_i8();
    let mut out = Writer::new();
    out.varint(status);
    out.u64(to_legacy_layout(place));
    out.i8(face);
    emit(V12_C2S_PLAYER_DIGGING, out)
}

/// PlayerBlockPlacement: the place is packed in the older order and stands first, the hand
/// stands behind the face, and whether the head is inside a block is dropped.
pub open spec fn spec_c2s_player_block_placement(b: Seq<u8>) -> Outcome {
    match varint_at(b, 0) {
        None => Outcome::Passthrough,
        Some((hand, p)) => {
            if b.len() < p + 8 {
                Outcome::Passthrough
            } else {
                match varint_at(b, p + 8) {
                    None => Outcome::Passthrough,
                    Some((face, p2)) => {
                        if b.len() < p2 + 13 {
                            Outcome::Passthrough
                        } else {
                            converted(
                                V12_C2S_PLAYER_BLOCK_PLACEMENT,
                                be64(legacy_of_modern(u64_at(b, p))) + varint(face)
                                    + varint(hand) + be32(u32_at(b, p2))
                                    + be32(u32_at(b, p2 + 4)) + be32(u32_at(b, p2 + 8)),
                            )
                        }
                    },
                }
            }
        },
    }
}

pub fn c2s_player_block_placement(body: Bytes) -> (res: ConversionResult)
    ensures
        res@ == spec_c2s_player_block_placement(content(body)),
{
    broadcast use empty_then;

    let mut r = Reader::new(body);
    let hand: i32 = match r.varint() {
        Some(v) => v,
        None => {
            return ConversionResult::Passthrough;
        },
    };
    if !r.has(8) {
        return ConversionResult::Passthrough;
    }
    let place: u64 = r.get_u64();
    let face: i32 = match r.varint() {
        Some(v) => v,
        None => {
            return ConversionResult::Passthrough;
        },
    };
    if !r.has(13) {
        return ConversionResult::Passthrough;
    }
    let cx: u32 = r.get_u32();
    let cy: u32 = r.get_u32();
    let cz: u32 = r.get_u32();
    let _inside: u8 = r.get_u8();
    let mut out = Writer::new();
    out.u64(to_legacy_layout(place));
    out.varint(face);
    out.varint(hand);
    out.u32(cx);
    out.u32(cy);
    out.u32(cz);
    emit(V12_C2S_PLAYER_BLOCK_PLACEMENT, out)
}

/// The 1.12.2 form of a 1.16.5 packet toward the server. Unknown packets are left alone.
pub open spec fn spec_c2s(id: u8, b: Seq<u8>) -> Outcome {
    if id == V16_C2S_TELEPORT_CONFIRM {
        converted(V12_C2S_TELEPORT_CONFIRM, b)
    } else if id == V16_C2S_CHAT {
        converted(V12_C2S_CHAT, b)
    } else if id == V16_C2S_CLIENT_STATUS {
        converted(V12_C2S_CLIENT_STATUS, b)
    } else if id == V16_C2S_CLIENT_SETTINGS {
        converted(V12_C2S_CLIENT_SETTINGS, b)
    } else if id == V16_C2S_PLUGIN_MESSAGE {
        converted(V12_C2S_PLUGIN_MESSAGE, b)
    } else if id == V16_C2S_INTERACT {
        converted(V12_C2S_INTERACT, b)
    } else if id == V16_C2S_KEEP_ALIVE {
        converted(V12_C2S_KEEP_ALIVE, b)
    } else if id == V16_C2S_MOVE_PLAYER_POS {
        converted(V12_C2S_MOVE_PLAYER_POS, b)
    } else if id == V16_C2S_MOVE_PLAYER_POS_ROT {
        converted(V12_C2S_MOVE_PLAYER_POS_ROT, b)
    } else if id == V16_C2S_MOVE_PLAYER_ROT {
        converted(V12_C2S_MOVE_PLAYER_ROT, b)
    } else if id == V16_C2S_PLAYER_ABILITIES {
        converted(V12_C2S_PLAYER_ABILITIES, b)
    } else if id == V16_C2S_PLAYER_DIGGING {
        spec_c2s_player_digging(b)
    } else if id == V16_C2S_ENTITY_ACTION {
        converted(V12_C2S_ENTITY_ACTION, b)
    } else if id == V16_C2S_HELD_ITEM_CHANGE {
        converted(V12_C2S_HELD_ITEM_CHANGE, b)
    } else if id == V16_C2S_ANIMATION {
        converted(V12_C2S_ANIMATION, b)
    } else if id == V16_C2S_PLAYER_BLOCK_PLACEMENT {
        spec_c2s_player_block_placement(b)
    } else if id == V16_C2S_USE_ITEM {
        converted(V12_C2S_USE_ITEM, b)
    } else {
        Outcome::Passthrough
    }
}

fn c2s(id: u8, body: Bytes) -> (res: ConversionResult)
    ensures
        res@ == spec_c2s(id, content(body)),
{
    if id == V16_C2S_TELEPORT_CONFIRM {
        rebuild_with_id(V12_C2S_TELEPORT_CONFIRM, &body)
    } else if id == V16_C2S_CHAT {
        rebuild_with_id(V12_C2S_CHAT, &body)
    } else if id == V16_C2S_CLIENT_STATUS {
        rebuild_with_id(V12_C2S_CLIENT_STATUS, &body)
    } else if id == V16_C2S_CLIENT_SETTINGS {
        rebuild_with_id(V12_C2S_CLIENT_SETTINGS, &body)
    } else if id == V16_C2S_PLUGIN_MESSAGE {
        rebuild_with_id(V12_C2S_PLUGIN_MESSAGE, &body)
    } else if id == V16_C2S_INTERACT {
        rebuild_with_id(V12_C2S_INTERACT, &body)
    } else if id == V16_C2S_KEEP_ALIVE {
        rebuild_with_id(V12_C2S_KEEP_ALIVE, &body)
    } else if id == V16_C2S_MOVE_PLAYER_POS {
        rebuild_with_id(V12_C2S_MOVE_PLAYER_POS, &body)
    } else if id == V16_C2S_MOVE_PLAYER_POS_ROT {
        rebuild_with_id(V12_C2S_MOVE_PLAYER_POS_ROT, &body)
    } else if id == V16_C2S_MOVE_PLAYER_ROT {
        rebuild_with_id(V12_C2S_MOVE_PLAYER_ROT, &body)
    } else if id == V16_C2S_PLAYER_ABILITIES {
        rebuild_with_id(V12_C2S_PLAYER_ABILITIES, &body)
    } else if id == V16_C2S_PLAYER_DIGGING {
        c2s_player_digging(body)
    } else if id == V16_C2S_ENTITY_ACTION {
        rebuild_with_id(V12_C2S_ENTITY_ACTION, &body)
    } else if id == V16_C2S_HELD_ITEM_CHANGE {
        rebuild_with_id(V12_C2S_HELD_ITEM_CHANGE, &body)
    } else if id == V16_C2S_ANIMATION {
        rebuild_with_id(V12_C2S_ANIMATION, &body)
    } else if id == V16_C2S_PLAYER_BLOCK_PLACEMENT {
        c2s_player_block_placement(body)
    } else if id == V16_C2S_USE_ITEM {
        rebuild_with_id(V12_C2S_USE_ITEM, &body)
    } else {
        ConversionResult::Passthrough
    }
}

/// What becomes of a packet toward the server.
pub open spec fn spec_convert_c2s(p: Seq<u8>) -> Outcome {
    match split(p) {
        Some((id, b)) => spec_c2s(id, b),
        None => Outcome::Passthrough,
    }
}

/// Converts a packet toward the server.
pub fn convert_c2s(payload: Bytes) -> (res: ConversionResult)
    ensures
        res@ == spec_convert_c2s(content(payload)),
{
    match split_id(payload) {
        Some((id, body)) => c2s(id, body),
        None => ConversionResult::Passthrough,
    }
}

} // verus!
