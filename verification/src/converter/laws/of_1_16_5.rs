//! What becomes of the packets of 1.16.5 for 1.12.2, field by field.

use crate::converter::chunk_repack::repacked;
use crate::converter::chunk_section::BlockTable;
use crate::converter::items::older_items;
use crate::converter::laws::fields::{
    fields_read, i16_field, i32_field, i8_field, u32_field, u64_field, varint_field,
};
use crate::converter::outcome::{Outcome, converted, packet};
use crate::converter::v1_16_5_to_v1_12_2::{
    records_from, spec_convert_c2s, spec_convert_s2c, two_numbers_end, world_at,
};
use crate::flattening::{Flattening, older_block, older_item};
use crate::nbt::document_end;
use crate::position::{legacy_bits, modern_bits, packable};
use crate::text::{string_at, wire_string};
use crate::varint::{varint, varint_at};
use crate::version::ProtocolVersion;
use crate::wire::{be32, be64, be_i16, be_i32, be_i8, i16_at, i32_at, i8_at};
use vstd::prelude::*;

verus! {

/// SpawnPosition: the place is packed in the older order. A shorter one is left alone.
pub proof fn s2c_spawn_position(
    x: i32,
    y: i32,
    z: i32,
    rest: Seq<u8>,
    t: Flattening,
    blocks: Option<BlockTable>,
    short: Seq<u8>,
)
    requires
        packable(x as int, y as int, z as int),
    ensures
        spec_convert_s2c(packet(
            0x42,
            u64_field(modern_bits(x as int, y as int, z as int)) + rest,
        ), t, blocks) == Some(converted(
            0x46,
            be64(legacy_bits(x as int, y as int, z as int)),
        )),
        short.len() < 8 ==> spec_convert_s2c(packet(0x42, short), t, blocks) == Some(Outcome::Passthrough),
{
    broadcast use fields_read;
}

/// These packets toward the client keep their bodies and change their ids.
pub proof fn s2c_bodies_kept(b: Seq<u8>, t: Flattening, blocks: Option<BlockTable>)
    ensures
        spec_convert_s2c(packet(0x1F, b), t, blocks) == Some(converted(0x1F, b)),
        spec_convert_s2c(packet(0x34, b), t, blocks) == Some(converted(0x2F, b)),
        spec_convert_s2c(packet(0x19, b), t, blocks) == Some(converted(0x1A, b)),
        spec_convert_s2c(packet(0x3F, b), t, blocks) == Some(converted(0x3A, b)),
        spec_convert_s2c(packet(0x30, b), t, blocks) == Some(converted(0x2C, b)),
        spec_convert_s2c(packet(0x48, b), t, blocks) == Some(converted(0x40, b)),
        spec_convert_s2c(packet(0x56, b), t, blocks) == Some(converted(0x4C, b)),
        spec_convert_s2c(packet(0x28, b), t, blocks) == Some(converted(0x26, b)),
        spec_convert_s2c(packet(0x29, b), t, blocks) == Some(converted(0x27, b)),
        spec_convert_s2c(packet(0x2A, b), t, blocks) == Some(converted(0x28, b)),
        spec_convert_s2c(packet(0x37, b), t, blocks) == Some(converted(0x32, b)),
        spec_convert_s2c(packet(0x3B, b), t, blocks) == Some(converted(0x36, b)),
        spec_convert_s2c(packet(0x46, b), t, blocks) == Some(converted(0x3E, b)),
{
    broadcast use fields_read;
}

/// All other packets toward the client are left alone.
pub proof fn s2c_others_left_alone(id: u8, b: Seq<u8>, t: Flattening, blocks: Option<BlockTable>)
    requires
        id != 0x0B && id != 0x0E && id != 0x0F && id != 0x13 && id != 0x15 && id != 0x19 &&
        id != 0x1F && id != 0x20 && id != 0x24 && id != 0x28 && id != 0x29 && id != 0x2A &&
        id != 0x30 && id != 0x34 && id != 0x37 && id != 0x39 && id != 0x3B && id != 0x3F &&
        id != 0x42 && id != 0x46 && id != 0x47 && id != 0x48 && id != 0x56,
    ensures
        spec_convert_s2c(packet(id, b), t, blocks) == Some(Outcome::Passthrough),
{
    broadcast use fields_read;
}

/// PlayerDigging: the place is packed in the older order, and the face is one byte.
pub proof fn c2s_player_digging(status: i32, x: i32, y: i32, z: i32, face: i8, rest: Seq<u8>)
    requires
        packable(x as int, y as int, z as int),
    ensures
        spec_convert_c2s(packet(
            0x1B,
            varint_field(status) + u64_field(modern_bits(x as int, y as int, z as int)) + i8_field(face)
                + rest,
        )) == converted(
            0x14,
            varint(status) + be64(legacy_bits(x as int, y as int, z as int)) + be_i8(face),
        ),
{
    broadcast use fields_read;
}

/// PlayerDigging: one that ends before its last field is left alone.
pub proof fn c2s_player_digging_cut_off(status: i32, x: i32, y: i32, z: i32)
    requires
        packable(x as int, y as int, z as int),
    ensures
        spec_convert_c2s(packet(
            0x1B,
            varint_field(status) + u64_field(modern_bits(x as int, y as int, z as int)),
        )) == Outcome::Passthrough,
{
    broadcast use fields_read;
}

/// PlayerBlockPlacement: the place is packed in the older order and stands first, the hand
/// stands behind the face, and whether the head is inside a block is dropped.
#[verifier::rlimit(80)]
pub proof fn c2s_player_block_placement(
    hand: i32,
    x: i32,
    y: i32,
    z: i32,
    face: i32,
    cx: u32,
    cy: u32,
    cz: u32,
    inside: u8,
    rest: Seq<u8>,
)
    requires
        packable(x as int, y as int, z as int),
    ensures
        spec_convert_c2s(packet(
            0x2E,
            varint_field(hand) + u64_field(modern_bits(x as int, y as int, z as int))
                + varint_field(face) + u32_field(cx) + u32_field(cy) + u32_field(cz) + seq![inside]
                + rest,
        )) == converted(
            0x1F,
            be64(legacy_bits(x as int, y as int, z as int)) + varint(face) + varint(hand) + be32(cx)
                + be32(cy) + be32(cz),
        ),
{
    broadcast use fields_read;
}

/// PlayerBlockPlacement: one that ends before its last field is left alone.
#[verifier::rlimit(60)]
pub proof fn c2s_player_block_placement_cut_off(
    hand: i32,
    x: i32,
    y: i32,
    z: i32,
    face: i32,
    cx: u32,
    cy: u32,
    cz: u32,
)
    requires
        packable(x as int, y as int, z as int),
    ensures
        spec_convert_c2s(packet(
            0x2E,
            varint_field(hand) + u64_field(modern_bits(x as int, y as int, z as int))
                + varint_field(face) + u32_field(cx) + u32_field(cy) + u32_field(cz),
        )) == Outcome::Passthrough,
{
    broadcast use fields_read;
}

/// These packets toward the server keep their bodies and change their ids.
pub proof fn c2s_bodies_kept(b: Seq<u8>)
    ensures
        spec_convert_c2s(packet(0x00, b)) == converted(0x00, b),
        spec_convert_c2s(packet(0x03, b)) == converted(0x02, b),
        spec_convert_c2s(packet(0x04, b)) == converted(0x03, b),
        spec_convert_c2s(packet(0x05, b)) == converted(0x04, b),
        spec_convert_c2s(packet(0x0B, b)) == converted(0x09, b),
        spec_convert_c2s(packet(0x0E, b)) == converted(0x0A, b),
        spec_convert_c2s(packet(0x10, b)) == converted(0x0B, b),
        spec_convert_c2s(packet(0x12, b)) == converted(0x0C, b),
        spec_convert_c2s(packet(0x14, b)) == converted(0x0D, b),
        spec_convert_c2s(packet(0x13, b)) == converted(0x0E, b),
        spec_convert_c2s(packet(0x19, b)) == converted(0x12, b),
        spec_convert_c2s(packet(0x1C, b)) == converted(0x15, b),
        spec_convert_c2s(packet(0x25, b)) == converted(0x1A, b),
        spec_convert_c2s(packet(0x2C, b)) == converted(0x1D, b),
        spec_convert_c2s(packet(0x2F, b)) == converted(0x20, b),
{
    broadcast use fields_read;
}

/// All other packets toward the server are left alone.
pub proof fn c2s_others_left_alone(id: u8, b: Seq<u8>)
    requires
        id != 0x00 && id != 0x03 && id != 0x04 && id != 0x05 && id != 0x0B && id != 0x0E &&
        id != 0x10 && id != 0x12 && id != 0x13 && id != 0x14 && id != 0x19 && id != 0x1B &&
        id != 0x1C && id != 0x25 && id != 0x2C && id != 0x2E && id != 0x2F,
    ensures
        spec_convert_c2s(packet(id, b)) == Outcome::Passthrough,
{
    broadcast use fields_read;
}

/// JoinGame: the hardcore flag, the earlier game mode, the other worlds, the registries, the
/// seed, the view distance and the respawn flag are dropped. The world becomes the number of
/// its dimension, the difficulty is 0, the most players are 20, and the level type is flat or
/// default.
#[verifier::rlimit(60)]
pub proof fn s2c_join_game(
    b: Seq<u8>,
    worlds: i32,
    p: int,
    world: Seq<char>,
    q: int,
    e: int,
    dimension: i32,
    t: Flattening,
    blocks: Option<BlockTable>,
)
    requires
        b.len() >= 7,
        varint_at(b, 7) == Some((worlds, p)),
        world_at(b, p, worlds) == Some((world, q)),
        two_numbers_end(b, q + 8) == Some(e),
        q + 8 <= b.len(),
        e + 4 <= b.len(),
        world == "minecraft:the_nether"@ ==> dimension == -1,
        world == "minecraft:the_end"@ ==> dimension == 1,
        world != "minecraft:the_nether"@ && world != "minecraft:the_end"@ ==> dimension == 0,
    ensures
        spec_convert_s2c(packet(0x24, b), t, blocks) == Some(
            converted(
                0x23,
                be_i32(i32_at(b, 0)) + seq![b[5] & 0x07] + be_i32(dimension) + seq![0u8] + seq![20u8]
                    + wire_string(
                    if b[e + 3] != 0 {
                        "flat"@
                    } else {
                        "default"@
                    },
                ) + seq![
                    if b[e] != 0 {
                        1u8
                    } else {
                        0u8
                    },
                ],
            ),
        ),
{
    broadcast use fields_read;

    reveal_strlit("minecraft:the_nether");
    reveal_strlit("minecraft:the_end");
    assert("minecraft:the_nether"@.len() != "minecraft:the_end"@.len());
}

/// Chat: the sender's unique id at the end is dropped.
#[verifier::rlimit(60)]
pub proof fn s2c_chat(
    message: Seq<u8>,
    place: u8,
    sender: Seq<u8>,
    rest: Seq<u8>,
    t: Flattening,
    blocks: Option<BlockTable>,
)
    requires
        message.len() <= i32::MAX,
        sender.len() == 16,
    ensures
        spec_convert_s2c(
            packet(0x0E, varint_field(message.len() as i32) + message + seq![place] + sender + rest),
            t,
            blocks,
        ) == Some(converted(0x0F, varint(message.len() as i32) + message + seq![place])),
{
    broadcast use fields_read;

    let front = varint_field(message.len() as i32);
    let p: int = front.len() as int;
    let n: int = message.len() as int;
    let b = front + message + seq![place] + sender + rest;
    assert(varint_at(b, 0) == Some((message.len() as i32, p)));
    assert(b.subrange(p, p + n) =~= message);
    assert(b[p + n] == place);
}

/// Respawn: the world becomes the number of its dimension, the difficulty is 0, and the level
/// type is flat or default.
#[verifier::rlimit(60)]
pub proof fn s2c_respawn(
    b: Seq<u8>,
    p: int,
    world: Seq<char>,
    q: int,
    dimension: i32,
    t: Flattening,
    blocks: Option<BlockTable>,
)
    requires
        document_end(b, 0) == Some(p),
        string_at(b, p) == Some((world, q)),
        q + 13 <= b.len(),
        world == "minecraft:the_nether"@ ==> dimension == -1,
        world == "minecraft:the_end"@ ==> dimension == 1,
        world != "minecraft:the_nether"@ && world != "minecraft:the_end"@ ==> dimension == 0,
    ensures
        spec_convert_s2c(packet(0x39, b), t, blocks) == Some(
            converted(
                0x35,
                be_i32(dimension) + seq![0u8] + seq![b[q + 8] & 0x07] + wire_string(
                    if b[q + 11] != 0 {
                        "flat"@
                    } else {
                        "default"@
                    },
                ),
            ),
        ),
{
    broadcast use fields_read;

    reveal_strlit("minecraft:the_nether");
    reveal_strlit("minecraft:the_end");
    assert("minecraft:the_nether"@.len() != "minecraft:the_end"@.len());
}

/// BlockChange: the place is packed in the older order, and the state is the table's; one that
/// the table does not know goes no further.
pub proof fn s2c_block_change(
    x: i32,
    y: i32,
    z: i32,
    state: i32,
    rest: Seq<u8>,
    t: Flattening,
    blocks: Option<BlockTable>,
)
    requires
        packable(x as int, y as int, z as int),
    ensures
        older_block(t.blocks.pairs@, state as u32) matches Some(older) ==> spec_convert_s2c(
            packet(
                0x0B,
                u64_field(modern_bits(x as int, y as int, z as int)) + varint_field(state) + rest,
            ),
            t,
            blocks,
        ) == Some(
            converted(0x0B, be64(legacy_bits(x as int, y as int, z as int)) + varint(older as i32)),
        ),
        older_block(t.blocks.pairs@, state as u32) is None ==> spec_convert_s2c(
            packet(
                0x0B,
                u64_field(modern_bits(x as int, y as int, z as int)) + varint_field(state) + rest,
            ),
            t,
            blocks,
        ) == Some(Outcome::Drop),
{
    broadcast use fields_read;
}

/// MultiBlockChange: a record's place is x in the lowest four bits, then z, then y; the state
/// is the table's, id and metadata apart. One that the table does not know is left out.
#[verifier::rlimit(80)]
pub proof fn s2c_multi_block_change(
    chunk_x: i32,
    chunk_z: i32,
    x: u32,
    y: u32,
    z: u32,
    state: i32,
    rest: Seq<u8>,
    t: Flattening,
    blocks: Option<BlockTable>,
)
    requires
        x < 16,
        y < 16,
        z < 16,
    ensures
        ({
            let o = spec_convert_s2c(
                packet(
                    0x0F,
                    i32_field(chunk_x) + i32_field(chunk_z) + varint_field(1) + varint_field(
                        (256 * y + 16 * z + x) as i32,
                    ) + varint_field(state) + rest,
                ),
                t,
                blocks,
            );
            &&& older_block(t.blocks.pairs@, state as u32) matches Some(older) ==> o == Some(
                converted(
                    0x10,
                    be_i32(chunk_x) + be_i32(chunk_z) + varint(1) + (be_i16(x as i16) + be_i16(y as i16) + be_i16(
                        z as i16,
                    ) + varint((older / 16) as i32) + varint((older % 16) as i32)),
                ),
            )
            &&& older_block(t.blocks.pairs@, state as u32) is None ==> o == Some(
                converted(0x10, be_i32(chunk_x) + be_i32(chunk_z) + varint(1)),
            )
        }),
{
    broadcast use fields_read;

    let offset = (256 * y + 16 * z + x) as i32;
    place_in_section(x, y, z, offset);
    reveal_with_fuel(records_from, 2);
    let b = i32_field(chunk_x) + i32_field(chunk_z) + varint_field(1) + varint_field(offset) + varint_field(state)
        + rest;
    let p: int = 8 + varint_field(1).len() as int;
    let q: int = p + varint_field(offset).len();
    let r: int = q + varint_field(state).len();
    assert(i32_at(b, 0) == chunk_x);
    assert(i32_at(b, 4) == chunk_z);
    assert(varint_at(b, 8) == Some((1i32, p)));
    assert(varint_at(b, p) == Some((offset, q)));
    assert(varint_at(b, q) == Some((state, r)));
    let head = be_i32(chunk_x) + be_i32(chunk_z) + varint(1);
    assert(head + (Seq::<u8>::empty() + Seq::<u8>::empty()) =~= head);
    match older_block(t.blocks.pairs@, state as u32) {
        Some(older) => {
            let record = be_i16(x as i16) + be_i16(y as i16) + be_i16(z as i16) + varint((older / 16) as i32)
                + varint((older % 16) as i32);
            assert(record + Seq::<u8>::empty() =~= record);
        },
        None => {},
    }
}

/// The parts of a place in a section.
proof fn place_in_section(x: u32, y: u32, z: u32, offset: i32)
    requires
        x < 16,
        y < 16,
        z < 16,
        offset == 256 * y + 16 * z + x,
    ensures
        (offset as u32) % 16 == x,
        (offset as u32) / 256 % 16 == y,
        (offset as u32) / 16 % 16 == z,
{
}

/// SetSlot: the item takes its older id, with damage 0 and the same count; an id that the table
/// does not know keeps its lower 16 bits. An empty slot stays empty.
#[verifier::rlimit(60)]
pub proof fn s2c_set_slot(
    window: u8,
    place: i16,
    id: i32,
    count: i8,
    rest: Seq<u8>,
    t: Flattening,
    blocks: Option<BlockTable>,
    older: i16,
)
    requires
        older_item(t.items.pairs@, id as u32) == Some(older) || older_item(t.items.pairs@, id as u32) is None
            && older == id as i16,
    ensures
        spec_convert_s2c(
            packet(
                0x15,
                seq![window] + i16_field(place) + seq![1u8] + varint_field(id) + i8_field(count) + seq![0u8] + rest,
            ),
            t,
            blocks,
        ) == Some(
            converted(
                0x16,
                seq![window] + be_i16(place) + (seq![1u8] + (be_i16(older) + be_i8(count) + be_i16(0) + seq![0u8])),
            ),
        ),
        spec_convert_s2c(packet(0x15, seq![window] + i16_field(place) + seq![0u8] + rest), t, blocks) == Some(
            converted(0x16, seq![window] + be_i16(place) + seq![0u8]),
        ),
{
    broadcast use fields_read;

    let b = seq![window] + i16_field(place) + seq![1u8] + varint_field(id) + i8_field(count) + seq![0u8] + rest;
    let q: int = 4 + varint_field(id).len() as int;
    assert(i16_at(b, 1) == place);
    assert(b[3] == 1);
    assert(varint_at(b, 4) == Some((id, q)));
    assert(i8_at(b, q) == count);
    assert(b[q + 1] == 0);
    let c = seq![window] + i16_field(place) + seq![0u8] + rest;
    assert(c[3] == 0);
}

/// WindowItems: each slot takes its older form, in order.
#[verifier::rlimit(60)]
pub proof fn s2c_window_items(
    window: u8,
    id: i32,
    count: i8,
    rest: Seq<u8>,
    t: Flattening,
    blocks: Option<BlockTable>,
    older: i16,
)
    requires
        older_item(t.items.pairs@, id as u32) == Some(older) || older_item(t.items.pairs@, id as u32) is None
            && older == id as i16,
    ensures
        spec_convert_s2c(
            packet(
                0x13,
                seq![window] + varint_field(2) + seq![1u8] + varint_field(id) + i8_field(count) + seq![0u8] + seq![0u8]
                    + rest,
            ),
            t,
            blocks,
        ) == Some(
            converted(
                0x14,
                seq![window] + (seq![1u8] + (be_i16(older) + be_i8(count) + be_i16(0) + seq![0u8]) + seq![0u8]),
            ),
        ),
{
    broadcast use fields_read;

    reveal_with_fuel(older_items, 3);
    let b = seq![window] + varint_field(2) + seq![1u8] + varint_field(id) + i8_field(count) + seq![0u8] + seq![0u8]
        + rest;
    let p: int = 1 + varint_field(2).len() as int;
    let q: int = p + 1 + varint_field(id).len();
    assert(varint_at(b, 1) == Some((2i32, p)));
    assert(b[p] == 1);
    assert(varint_at(b, p + 1) == Some((id, q)));
    assert(i8_at(b, q) == count);
    assert(b[q + 1] == 0);
    assert(b[q + 2] == 0);
    assert(seq![0u8] + Seq::<u8>::empty() =~= seq![0u8]);
}

/// EntityEquipment: the place loses the off hand, which has no older one and goes no further,
/// and the item takes its older form.
#[verifier::rlimit(60)]
pub proof fn s2c_entity_equipment(
    entity_id: i32,
    place: u8,
    id: i32,
    count: i8,
    rest: Seq<u8>,
    t: Flattening,
    blocks: Option<BlockTable>,
    older: i16,
)
    requires
        older_item(t.items.pairs@, id as u32) == Some(older) || older_item(t.items.pairs@, id as u32) is None
            && older == id as i16,
    ensures
        ({
            let o = spec_convert_s2c(
                packet(
                    0x47,
                    varint_field(entity_id) + seq![place] + seq![1u8] + varint_field(id) + i8_field(count) + seq![0u8]
                        + rest,
                ),
                t,
                blocks,
            );
            let item = seq![1u8] + (be_i16(older) + be_i8(count) + be_i16(0) + seq![0u8]);
            &&& place == 0 ==> o == Some(converted(0x3F, varint(entity_id) + varint(0) + item))
            &&& place == 1 ==> o == Some(Outcome::Drop)
            &&& 2 <= place <= 5 ==> o == Some(
                converted(0x3F, varint(entity_id) + varint((place - 1) as i32) + item),
            )
            &&& place > 5 ==> o == Some(Outcome::Drop)
        }),
{
    broadcast use fields_read;

    let b = varint_field(entity_id) + seq![place] + seq![1u8] + varint_field(id) + i8_field(count) + seq![0u8] + rest;
    let p: int = varint_field(entity_id).len() as int;
    let q: int = p + 2 + varint_field(id).len();
    assert(varint_at(b, 0) == Some((entity_id, p)));
    assert(b[p] == place);
    assert(b[p + 1] == 1);
    assert(varint_at(b, p + 2) == Some((id, q)));
    assert(i8_at(b, q) == count);
    assert(b[q + 1] == 0);
}

/// ChunkData: repacked for 1.12.2 by the table of blocks; without one, or where that fails, it
/// goes no further.
pub proof fn s2c_chunk_data(b: Seq<u8>, t: Flattening, table: BlockTable)
    ensures
        spec_convert_s2c(packet(0x20, b), t, None) == Some(Outcome::Drop),
        repacked(b, ProtocolVersion::V1_16_5, ProtocolVersion::V1_12_2, table) matches Some(Ok(data))
            ==> spec_convert_s2c(packet(0x20, b), t, Some(table)) == Some(converted(0x20, data)),
        repacked(b, ProtocolVersion::V1_16_5, ProtocolVersion::V1_12_2, table) matches Some(Err(_))
            ==> spec_convert_s2c(packet(0x20, b), t, Some(table)) == Some(Outcome::Drop),
{
    broadcast use fields_read;
}

} // verus!
