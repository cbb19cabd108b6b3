//! Slot and item conversion that the converters share.
//!
//! The 1.13 flattening replaced the pair of item id and damage by a single id. The 1.19.4
//! slot rework put a state id before the slots of a window.

use crate::converter::outcome::in_front;
use crate::converter::safe::{varint_or, Reader};
use crate::flattening::{newer_item, older_item, ItemFlatteningTable};
use crate::nbt::{document_or_empty, nbt_or_empty, Nbt};
use crate::slot::{
    nbt_bytes, nbt_view, slot_at, slot_bytes, Item, LegacyItem, LegacySlot, LegacySlotData, Slot,
    SlotData,
};
use crate::varint::{varint_at, varint_at_bounds};
use crate::version::ProtocolVersion;
use crate::wire::{
    be_i16, be_i8, bytes_clone, bytes_mut_extend, bytes_mut_freeze, bytes_mut_split, bytes_to_vec,
    content, i16_at, written,
};
use crate::writer::{empty_then, Writer};
use bytes::BytesMut;
use vstd::prelude::*;
use vstd::slice::slice_to_vec;

verus! {

/// Whether slots carry item id and damage apart.
pub open spec fn spec_is_legacy_slot(ver: ProtocolVersion) -> bool {
    ver is V1_6_4 || ver is V1_7_10 || ver is V1_8 || ver is V1_12_2
}

/// Whether slots carry item id and damage apart.
pub fn is_legacy_slot(ver: ProtocolVersion) -> (r: bool)
    ensures
        r == spec_is_legacy_slot(ver),
{
    matches!(
        ver,
        ProtocolVersion::V1_6_4
            | ProtocolVersion::V1_7_10
            | ProtocolVersion::V1_8
            | ProtocolVersion::V1_12_2
    )
}

/// Whether slots can be read in the shape of 1.16.5.
pub open spec fn spec_modern_slot_parsable(ver: ProtocolVersion) -> bool {
    ver is V1_16_5 || ver is V1_19_4
}

/// Whether slots can be read in the shape of 1.16.5.
pub fn modern_slot_parsable(ver: ProtocolVersion) -> (r: bool)
    ensures
        r == spec_modern_slot_parsable(ver),
{
    matches!(ver, ProtocolVersion::V1_16_5 | ProtocolVersion::V1_19_4)
}

/// Whether a state id stands before the slots of a window.
pub open spec fn spec_has_state_id(ver: ProtocolVersion) -> bool {
    ver is V1_19_4 || ver is V1_20_4 || ver is V1_21
}

/// Whether a state id stands before the slots of a window.
pub fn has_state_id(ver: ProtocolVersion) -> (r: bool)
    ensures
        r == spec_has_state_id(ver),
{
    matches!(ver, ProtocolVersion::V1_19_4 | ProtocolVersion::V1_20_4 | ProtocolVersion::V1_21)
}

/// The wire shape of slots.
#[derive(Clone, Copy, PartialEq, Eq, Structural, Debug)]
pub enum SlotLayout {
    /// Before 1.13: item id, count, damage and tags.
    Legacy,
    /// From 1.13 up to 1.19.3: one id, count and tags.
    Modern,
    /// From 1.19.4 on: a state id before it.
    ModernWithStateId,
    /// That of no release known here.
    Unknown,
}

/// The wire shape of a version's slots.
pub open spec fn spec_slot_layout(ver: ProtocolVersion) -> SlotLayout {
    if spec_is_legacy_slot(ver) {
        SlotLayout::Legacy
    } else if spec_has_state_id(ver) {
        SlotLayout::ModernWithStateId
    } else {
        SlotLayout::Modern
    }
}

/// The wire shape of a version's slots.
pub fn slot_layout(ver: ProtocolVersion) -> (r: SlotLayout)
    ensures
        r == spec_slot_layout(ver),
{
    if is_legacy_slot(ver) {
        SlotLayout::Legacy
    } else if has_state_id(ver) {
        SlotLayout::ModernWithStateId
    } else {
        SlotLayout::Modern
    }
}

/// The older form of an item: its id by the table, or the low 16 bits of its id where the
/// table has none; damage 0; count and tags as they are.
pub open spec fn older_form(s: Option<Item>, table: Seq<(i16, u32)>) -> Option<LegacyItem> {
    match s {
        Some(i) => Some(
            LegacyItem {
                item_id: match older_item(table, i.item_id as u32) {
                    Some(id) => id,
                    None => i.item_id as i16,
                },
                count: i.count,
                damage: 0,
                nbt: i.nbt,
            },
        ),
        None => None,
    }
}

/// The newer form of an item: its id by the table, or its own id where the table has none;
/// count and tags as they are. The damage is lost.
pub open spec fn newer_form(s: Option<LegacyItem>, table: Seq<(i16, u32)>) -> Option<Item> {
    match s {
        Some(i) => Some(
            Item {
                item_id: match newer_item(table, i.item_id) {
                    Some(id) => id as i32,
                    None => i.item_id as i32,
                },
                count: i.count,
                nbt: i.nbt,
            },
        ),
        None => None,
    }
}

/// An item that the table knows both ways comes back from its newer form with damage 0.
pub proof fn forms_round_trip(i: LegacyItem, table: Seq<(i16, u32)>)
    requires
        newer_item(table, i.item_id) matches Some(id) && older_item(table, id) == Some(i.item_id),
    ensures
        older_form(newer_form(Some(i), table), table) == Some(
            LegacyItem { item_id: i.item_id, count: i.count, damage: 0, nbt: i.nbt },
        ),
{
    let id = newer_item(table, i.item_id)->0;
    assert((id as i32) as u32 == id) by (bit_vector);
}

/// An item that the table knows neither way comes back from its newer form with damage 0.
pub proof fn unknown_items_come_back(i: LegacyItem, table: Seq<(i16, u32)>)
    requires
        newer_item(table, i.item_id) is None,
        older_item(table, i.item_id as u32) is None,
    ensures
        older_form(newer_form(Some(i), table), table) == Some(
            LegacyItem { item_id: i.item_id, count: i.count, damage: 0, nbt: i.nbt },
        ),
{
    let id = i.item_id;
    assert((id as i32) as u32 == id as u32) by (bit_vector);
}

fn copy_nbt(n: &Option<Nbt>) -> (r: Option<Nbt>)
    ensures
        nbt_view(r) == nbt_view(*n),
{
    match n {
        Some(n) => Some(Nbt { bytes: slice_to_vec(n.bytes.as_slice()) }),
        None => None,
    }
}

/// The older form of a slot.
pub fn modern_slot_to_legacy(slot: &Slot, table: &ItemFlatteningTable) -> (r: LegacySlot)
    ensures
        r@ == older_form(slot@, table.pairs@),
{
    match &slot.0 {
        None => LegacySlot(None),
        Some(d) => {
            let item_id: i16 = match table.modern_to_legacy(d.item_id as u32) {
                Some(id) => id,
                None => d.item_id as i16,
            };
            LegacySlot(
                Some(LegacySlotData { item_id, count: d.count, damage: 0, nbt: copy_nbt(&d.nbt) }),
            )
        },
    }
}

/// The newer form of a slot.
pub fn legacy_slot_to_modern(slot: &LegacySlot, table: &ItemFlatteningTable) -> (r: Slot)
    ensures
        r@ == newer_form(slot@, table.pairs@),
{
    match &slot.0 {
        None => Slot(None),
        Some(d) => {
            let item_id: i32 = match table.legacy_to_modern(d.item_id) {
                Some(id) => id as i32,
                None => d.item_id as i32,
            };
            Slot(Some(SlotData { item_id, count: d.count, nbt: copy_nbt(&d.nbt) }))
        },
    }
}

/// The older index of an equipment slot. The off hand, index 1 since 1.9, has none.
pub open spec fn older_equipment_index(modern_idx: u8) -> Option<i16> {
    if modern_idx == 0 {
        Some(0)
    } else if 2 <= modern_idx <= 5 {
        Some((modern_idx - 1) as i16)
    } else {
        None
    }
}

/// The newer index of an equipment slot.
pub open spec fn newer_equipment_index(legacy_idx: i16) -> Option<u8> {
    if legacy_idx == 0 {
        Some(0)
    } else if 1 <= legacy_idx <= 4 {
        Some((legacy_idx + 1) as u8)
    } else {
        None
    }
}

/// The two index maps undo each other, and no older index leads to the off hand.
pub proof fn equipment_indices_inverse(modern_idx: u8, legacy_idx: i16)
    ensures
        older_equipment_index(modern_idx) == Some(legacy_idx) <==> newer_equipment_index(legacy_idx)
            == Some(modern_idx),
        newer_equipment_index(legacy_idx) != Some(1u8),
{
}

/// The older index of an equipment slot, `None` for the off hand and for what is no slot.
pub fn map_equipment_slot(modern_idx: u8) -> (r: Option<i16>)
    ensures
        r == older_equipment_index(modern_idx),
{
    match modern_idx {
        0 => Some(0),
        1 => None,
        2 => Some(1),
        3 => Some(2),
        4 => Some(3),
        5 => Some(4),
        _ => None,
    }
}

/// The newer index of an equipment slot, `None` for what is no slot.
pub fn map_legacy_equipment_slot(legacy_idx: i16) -> (r: Option<u8>)
    ensures
        r == newer_equipment_index(legacy_idx),
{
    match legacy_idx {
        0 => Some(0),
        1 => Some(2),
        2 => Some(3),
        3 => Some(4),
        4 => Some(5),
        _ => None,
    }
}

/// Why a slot body does not convert.
#[derive(Clone, Copy, PartialEq, Eq, Structural, Debug)]
pub enum SlotError {
    /// The length of an item's tags does not read.
    TagLength,
    /// The slot does not read.
    Slot,
}

/// What a SetSlot body from before 1.13 holds behind the window and the slot number: a flag,
/// and then for an item its id, count and damage, and its tags as they stand behind the
/// damage, their length included.
pub open spec fn flagged_item_at(b: Seq<u8>, p: int) -> Option<LegacyItem> {
    if b[p] == 0 {
        None
    } else {
        let (n, _) = varint_at(b, p + 6)->0;
        Some(
            LegacyItem {
                item_id: i16_at(b, p + 1),
                count: b[p + 3] as i8,
                damage: i16_at(b, p + 4),
                nbt: if n > 0 {
                    Some(document_or_empty(b.subrange(p + 6, p + 6 + n)))
                } else {
                    None
                },
            },
        )
    }
}

/// Whether the tag length of an item at `p` reads.
pub open spec fn tag_length_reads(b: Seq<u8>, p: int) -> bool {
    b[p] == 0 || varint_at(b, p + 6) is Some
}

/// Whether a body is long enough for the item that it announces at `p`.
pub open spec fn holds_flagged_item(b: Seq<u8>, p: int) -> bool {
    &&& p + 1 <= b.len()
    &&& b[p] != 0 ==> {
        &&& p + 6 <= b.len()
        &&& match varint_at(b, p + 6) {
            Some((n, _)) => n > 0 ==> p + 6 + n <= b.len(),
            None => true,
        }
    }
}

/// Rewrites the body of a SetSlot packet from before 1.13 into the newer shape. Where the
/// length of the tags does not read, what stands behind the damage is left.
pub fn convert_set_slot_legacy_to_modern(body: &mut BytesMut, table: &ItemFlatteningTable) -> (r:
    Result<(), SlotError>)
    requires
        written(*old(body)).len() >= 3,
        holds_flagged_item(written(*old(body)), 3),
    ensures
        ({
            let b = written(*old(body));
            if tag_length_reads(b, 3) {
                &&& r is Ok
                &&& written(*final(body)) == seq![b[0]] + be_i16(i16_at(b, 1)) + slot_bytes(
                    newer_form(flagged_item_at(b, 3), table.pairs@),
                )
            } else {
                &&& r == Err::<(), SlotError>(SlotError::TagLength)
                &&& written(*final(body)) == b.skip(9)
            }
        }),
{
    broadcast use empty_then;

    let ghost b = written(*body);
    let whole = bytes_mut_split(body);
    let mut r = Reader::new(bytes_mut_freeze(whole));
    let window_id: u8 = r.get_u8();
    let slot: i16 = r.get_i16();
    let has_item: bool = r.get_u8() != 0;
    let legacy = if has_item {
        let item_id: i16 = r.get_i16();
        let count: u8 = r.get_u8();
        let damage: i16 = r.get_i16();
        let tail = r.rest();
        let mut ahead = Reader::new(bytes_clone(&tail));
        proof {
            assert(content(tail) =~= b.skip(9));
            varint_shift(b, 9);
        }
        let n: i32 = match ahead.varint() {
            Some(n) => n,
            None => {
                bytes_mut_extend(body, bytes_to_vec(&tail).as_slice());
                return Err(SlotError::TagLength);
            },
        };
        let nbt: Option<Nbt> = if n > 0 {
            let mut tags = Reader::new(tail);
            let bytes = tags.get_bytes(n as usize);
            assert(content(bytes) =~= b.subrange(9, 9 + n));
            Some(nbt_or_empty(bytes))
        } else {
            None
        };
        LegacySlot(Some(LegacySlotData { item_id, count: count as i8, damage, nbt }))
    } else {
        LegacySlot(None)
    };
    assert(legacy@ =~= flagged_item_at(b, 3));
    let modern = legacy_slot_to_modern(&legacy, table);
    let mut out = Writer::new();
    out.u8(window_id);
    out.i16(slot);
    out.slot(&modern);
    let bytes = out.freeze();
    bytes_mut_extend(body, bytes_to_vec(&bytes).as_slice());
    Ok(())
}

/// An item from before 1.13 behind its flag, its tags behind their length, and the position
/// behind it. A length that does not read counts as 0. `None` where the bytes end before.
pub open spec fn counted_item_at(b: Seq<u8>, p: int) -> Option<(Option<LegacyItem>, int)> {
    if p >= b.len() {
        None
    } else if b[p] == 0 {
        Some((None, p + 1))
    } else if p + 6 > b.len() {
        None
    } else {
        let (n, q) = varint_or(b, p + 6, 0);
        let (item_id, count, damage) = (i16_at(b, p + 1), b[p + 3] as i8, i16_at(b, p + 4));
        if n <= 0 {
            Some((Some(LegacyItem { item_id, count, damage, nbt: None }), q))
        } else if q + n > b.len() {
            None
        } else {
            let nbt = Some(document_or_empty(b.subrange(q, q + n)));
            Some((Some(LegacyItem { item_id, count, damage, nbt }), q + n))
        }
    }
}

impl Reader {
    /// The next item from before 1.13 behind its flag, its tags behind their length, or
    /// `None` where the bytes end before it does. The reader may have moved then.
    pub fn counted_item(&mut self) -> (r: Option<LegacySlot>)
        requires
            old(self).valid(),
        ensures
            final(self).valid(),
            final(self).all() == old(self).all(),
            match counted_item_at(old(self).all(), old(self).at()) {
                Some((s, end)) => r is Some && r->0@ == s && final(self).at() == end,
                None => r is None,
            },
    {
        if !self.has(1) {
            return None;
        }
        let present: u8 = self.get_u8();
        if present == 0 {
            return Some(LegacySlot(None));
        }
        if !self.has(5) {
            return None;
        }
        let item_id: i16 = self.get_i16();
        let count: i8 = self.get_u8() as i8;
        let damage: i16 = self.get_i16();
        proof {
            varint_at_bounds(self.all(), self.at());
        }
        let n: i32 = self.varint_or(0);
        if n <= 0 {
            return Some(LegacySlot(Some(LegacySlotData { item_id, count, damage, nbt: None })));
        }
        if !self.has(n as usize) {
            return None;
        }
        let nbt: Option<Nbt> = Some(nbt_or_empty(self.get_bytes(n as usize)));
        Some(LegacySlot(Some(LegacySlotData { item_id, count, damage, nbt })))
    }
}

/// An integer reads the same where what stands before it is cut off.
proof fn varint_shift(b: Seq<u8>, k: int)
    requires
        0 <= k <= b.len(),
    ensures
        match varint_at(b, k) {
            Some((x, end)) => varint_at(b.skip(k), 0) == Some((x, end - k)),
            None => varint_at(b.skip(k), 0) is None,
        },
{
    groups_shift(b, k, 0, 5);
}

proof fn groups_shift(b: Seq<u8>, k: int, p: int, left: nat)
    requires
        0 <= k <= b.len(),
        p >= 0,
    ensures
        match crate::varint::varint_groups(b, k + p, left) {
            Some((v, end)) => crate::varint::varint_groups(b.skip(k), p, left) == Some((v, end - k)),
            None => crate::varint::varint_groups(b.skip(k), p, left) is None,
        },
    decreases left,
{
    if left > 0 && k + p < b.len() {
        assert(b.skip(k)[p] == b[k + p]);
        groups_shift(b, k, p + 1, (left - 1) as nat);
    }
}

/// An item as it is written behind the slot number before 1.13.
pub open spec fn legacy_item_bytes(s: Option<LegacyItem>) -> Seq<u8> {
    match s {
        Some(i) => be_i16(i.item_id) + be_i8(i.count) + be_i16(i.damage) + nbt_bytes(i.nbt),
        None => be_i16(-1i16),
    }
}

/// Appends an item as it is written behind the slot number before 1.13.
pub fn put_legacy_item(out: &mut Writer, s: &LegacySlot)
    ensures
        final(out)@ == old(out)@ + legacy_item_bytes(s@),
{
    let ghost before = out@;
    match &s.0 {
        None => out.i16(-1),
        Some(d) => {
            out.i16(d.item_id);
            out.i8(d.count);
            out.i16(d.damage);
            out.nbt(&d.nbt);
            assert(out@ =~= before + legacy_item_bytes(s@));
        },
    }
}

/// An item as it is written behind a flag before 1.13.
pub open spec fn flagged_item_bytes(s: Option<LegacyItem>) -> Seq<u8> {
    match s {
        Some(_) => seq![1u8] + legacy_item_bytes(s),
        None => seq![0u8],
    }
}

/// Appends an item as it is written behind a flag before 1.13.
pub fn put_flagged_item(out: &mut Writer, s: &LegacySlot)
    ensures
        final(out)@ == old(out)@ + flagged_item_bytes(s@),
{
    let ghost before = out@;
    match &s.0 {
        None => out.u8(0),
        Some(_) => {
            out.u8(1);
            put_legacy_item(out, s);
            assert(out@ =~= before + flagged_item_bytes(s@));
        },
    }
}

/// `n` slots of 1.13 or later from `p` on in their older form, `None` where one does not
/// read.
pub open spec fn older_items(b: Seq<u8>, p: int, n: nat, pairs: Seq<(i16, u32)>) -> Option<Seq<u8>>
    decreases n,
{
    if n == 0 {
        Some(seq![])
    } else {
        match slot_at(b, p) {
            None => None,
            Some((s, q)) => match older_items(b, q, (n - 1) as nat, pairs) {
                None => None,
                Some(rest) => Some(flagged_item_bytes(older_form(s, pairs)) + rest),
            },
        }
    }
}

/// How often a loop up to a number runs: not at all for a negative one.
pub open spec fn up_to(n: int) -> nat {
    if n > 0 {
        n as nat
    } else {
        0
    }
}

/// Appends the next `count` slots in their older form, and says whether all of them read.
pub fn put_older_items(r: &mut Reader, out: &mut Writer, count: i32, table: &ItemFlatteningTable)
    -> (ok: bool)
    requires
        old(r).valid(),
    ensures
        match older_items(old(r).all(), old(r).at(), up_to(count as int), table.pairs@) {
            Some(items) => ok && final(out)@ == old(out)@ + items,
            None => !ok,
        },
{
    let ghost (b, p, pairs, head) = (r.all(), r.at(), table.pairs@, out@);
    let mut left: i32 = if count > 0 { count } else { 0 };
    let ghost n = left as nat;
    let ghost mut done = Seq::<u8>::empty();
    proof {
        let all = older_items(b, p, n, pairs);
        if all is Some {
            assert(done + all->0 =~= all->0);
        }
        assert(head + done =~= head);
    }
    while left > 0
        invariant
            left >= 0,
            n == up_to(count as int),
            r.valid(),
            r.all() == b,
            b == old(r).all(),
            p == old(r).at(),
            head == old(out)@,
            pairs == table.pairs@,
            older_items(b, p, n, pairs) == in_front(done, older_items(b, r.at(), left as nat, pairs)),
            out@ == head + done,
        decreases left,
    {
        match r.slot() {
            Some(s) => {
                let older = modern_slot_to_legacy(&s, table);
                put_flagged_item(out, &older);
                proof {
                    let add = flagged_item_bytes(older@);
                    let rest = older_items(b, r.at(), (left - 1) as nat, pairs);
                    if rest is Some {
                        assert(done + (add + rest->0) =~= (done + add) + rest->0);
                    }
                    assert(out@ =~= head + (done + add));
                    done = done + add;
                }
                left = left - 1;
            },
            None => {
                return false;
            },
        }
    }
    assert(done + Seq::<u8>::empty() =~= done);
    true
}

/// Rewrites the body of a SetSlot packet of 1.13 or later into the older shape. Where the
/// slot does not read, what stands behind the slot number is left.
pub fn convert_set_slot_modern_to_legacy(body: &mut BytesMut, table: &ItemFlatteningTable) -> (r:
    Result<(), SlotError>)
    requires
        written(*old(body)).len() >= 3,
    ensures
        ({
            let b = written(*old(body));
            match slot_at(b.skip(3), 0) {
                Some((s, _)) => {
                    &&& r is Ok
                    &&& written(*final(body)) == seq![b[0]] + be_i16(i16_at(b, 1)) + legacy_item_bytes(
                        older_form(s, table.pairs@),
                    )
                },
                None => {
                    &&& r == Err::<(), SlotError>(SlotError::Slot)
                    &&& written(*final(body)) == b.skip(3)
                },
            }
        }),
{
    broadcast use empty_then;

    let ghost b = written(*body);
    let whole = bytes_mut_split(body);
    let mut r = Reader::new(bytes_mut_freeze(whole));
    let window_id: u8 = r.get_u8();
    let slot: i16 = r.get_i16();
    let tail = r.rest();
    let mut ahead = Reader::new(bytes_clone(&tail));
    let modern: Slot = match ahead.slot() {
        Some(s) => s,
        None => {
            bytes_mut_extend(body, bytes_to_vec(&tail).as_slice());
            return Err(SlotError::Slot);
        },
    };
    let legacy = modern_slot_to_legacy(&modern, table);
    let mut out = Writer::new();
    out.u8(window_id);
    out.i16(slot);
    put_legacy_item(&mut out, &legacy);
    let bytes = out.freeze();
    bytes_mut_extend(body, bytes_to_vec(&bytes).as_slice());
    Ok(())
}

} // verus!
