//! Inventory slots, in the shapes before and after the 1.13 flattening of item ids.

use crate::converter::safe::Reader;
use crate::nbt::{document_end, Nbt};
use crate::varint::{varint, varint_at, varint_at_bounds};
use crate::wire::{be_i16, be_i8, i16_at, i8_at};
use crate::writer::Writer;
use vstd::prelude::*;

verus! {

/// An item of 1.13 or later.
pub struct SlotData {
    pub item_id: i32,
    pub count: i8,
    pub nbt: Option<Nbt>,
}

/// A slot of 1.13 or later, which may be empty.
pub struct Slot(pub Option<SlotData>);

/// An item from before 1.13.
pub struct LegacySlotData {
    pub item_id: i16,
    pub count: i8,
    pub damage: i16,
    pub nbt: Option<Nbt>,
}

/// A slot from before 1.13, which may be empty.
pub struct LegacySlot(pub Option<LegacySlotData>);

/// An item of 1.13 or later, with its tags as bytes.
#[verifier::ext_equal]
pub struct Item {
    pub item_id: i32,
    pub count: i8,
    pub nbt: Option<Seq<u8>>,
}

/// An item from before 1.13, with its tags as bytes.
#[verifier::ext_equal]
pub struct LegacyItem {
    pub item_id: i16,
    pub count: i8,
    pub damage: i16,
    pub nbt: Option<Seq<u8>>,
}

/// The bytes of tags that may be missing.
pub open spec fn nbt_view(n: Option<Nbt>) -> Option<Seq<u8>> {
    match n {
        Some(n) => Some(n.bytes@),
        None => None,
    }
}

impl View for Slot {
    type V = Option<Item>;

    open spec fn view(&self) -> Option<Item> {
        match self.0 {
            Some(d) => Some(Item { item_id: d.item_id, count: d.count, nbt: nbt_view(d.nbt) }),
            None => None,
        }
    }
}

impl View for LegacySlot {
    type V = Option<LegacyItem>;

    open spec fn view(&self) -> Option<LegacyItem> {
        match self.0 {
            Some(d) => Some(
                LegacyItem {
                    item_id: d.item_id,
                    count: d.count,
                    damage: d.damage,
                    nbt: nbt_view(d.nbt),
                },
            ),
            None => None,
        }
    }
}

/// Tags on the wire: a zero byte where there are none.
pub open spec fn nbt_bytes(n: Option<Seq<u8>>) -> Seq<u8> {
    match n {
        Some(bytes) => bytes,
        None => seq![0u8],
    }
}

/// A slot of 1.13 or later on the wire.
pub open spec fn slot_bytes(s: Option<Item>) -> Seq<u8> {
    match s {
        Some(i) => seq![1u8] + varint(i.item_id) + be_i8(i.count) + nbt_bytes(i.nbt),
        None => seq![0u8],
    }
}

/// Tags that may be missing, at `p`, and the position behind them.
pub open spec fn nbt_at(b: Seq<u8>, p: int) -> Option<(Option<Seq<u8>>, int)> {
    if p >= b.len() {
        None
    } else if b[p] == 0 {
        Some((None, p + 1))
    } else {
        match document_end(b, p) {
            Some(end) => Some((Some(b.subrange(p, end)), end)),
            None => None,
        }
    }
}

/// A slot of 1.13 or later at `p`, and the position behind it.
pub open spec fn slot_at(b: Seq<u8>, p: int) -> Option<(Option<Item>, int)> {
    if p >= b.len() {
        None
    } else if b[p] == 0 {
        Some((None, p + 1))
    } else {
        match varint_at(b, p + 1) {
            Some((item_id, q)) => if q >= b.len() {
                None
            } else {
                match nbt_at(b, q + 1) {
                    Some((nbt, end)) => Some((Some(Item { item_id, count: i8_at(b, q), nbt }), end)),
                    None => None,
                }
            },
            None => None,
        }
    }
}

/// A slot from before 1.13 at `p`, and the position behind it. Item -1 is an empty slot.
pub open spec fn legacy_slot_at(b: Seq<u8>, p: int) -> Option<(Option<LegacyItem>, int)> {
    if p + 2 > b.len() {
        None
    } else if i16_at(b, p) == -1 {
        Some((None, p + 2))
    } else if p + 5 > b.len() {
        None
    } else {
        match nbt_at(b, p + 5) {
            Some((nbt, end)) => Some(
                (
                    Some(
                        LegacyItem {
                            item_id: i16_at(b, p),
                            count: i8_at(b, p + 2),
                            damage: i16_at(b, p + 3),
                            nbt,
                        },
                    ),
                    end,
                ),
            ),
            None => None,
        }
    }
}

/// Reading a slot gives back what was written of it. Its tags have to be one document.
pub proof fn slot_round_trip(s: Option<Item>, rest: Seq<u8>)
    requires
        s matches Some(i) && i.nbt matches Some(n) ==> n.len() > 0 && n[0] != 0 && document_end(
            slot_bytes(s) + rest,
            (slot_bytes(s).len() - n.len()) as int,
        ) == Some(slot_bytes(s).len() as int),
    ensures
        slot_at(slot_bytes(s) + rest, 0) == Some((s, slot_bytes(s).len() as int)),
{
    let b = slot_bytes(s) + rest;
    match s {
        Some(i) => {
            let tail = be_i8(i.count) + nbt_bytes(i.nbt) + rest;
            assert(b =~= seq![1u8] + varint(i.item_id) + tail);
            crate::varint::varint_round_trip(i.item_id, seq![1u8], tail);
            let q = 1 + varint(i.item_id).len() as int;
            assert(b[q] == i.count as u8);
            assert((i.count as u8) as i8 == i.count) by {
                let c = i.count;
                assert((c as u8) as i8 == c) by (bit_vector);
            }
            match i.nbt {
                Some(n) => {
                    assert(b[q + 1] == n[0]);
                    assert(b.subrange(q + 1, q + 1 + n.len()) =~= n);
                },
                None => {
                    assert(b[q + 1] == 0);
                },
            }
        },
        None => {},
    }
}

impl Reader {
    /// The next tags, which may be missing, or `None` where neither stands here. The reader
    /// may have moved then.
    fn optional_nbt(&mut self) -> (r: Option<Option<Nbt>>)
        requires
            old(self).valid(),
        ensures
            final(self).valid(),
            final(self).all() == old(self).all(),
            match nbt_at(old(self).all(), old(self).at()) {
                Some((nbt, end)) => r is Some && nbt_view(r->0) == nbt && final(self).at() == end,
                None => r is None,
            },
    {
        if !self.has(1) {
            return None;
        }
        let mut ahead = self.fork();
        let first: u8 = ahead.get_u8();
        if first == 0 {
            *self = ahead;
            return Some(None);
        }
        match self.nbt() {
            Some(n) => Some(Some(n)),
            None => None,
        }
    }

    /// The next slot of 1.13 or later, or `None` where none stands here.
    pub fn slot(&mut self) -> (r: Option<Slot>)
        requires
            old(self).valid(),
        ensures
            match slot_at(old(self).all(), old(self).at()) {
                Some((s, end)) => r is Some && r->0@ == s && final(self).advanced(
                    *old(self),
                    end - old(self).at(),
                ),
                None => r is None && *final(self) == *old(self),
            },
    {
        let mut ahead = self.fork();
        if !ahead.has(1) {
            return None;
        }
        let present: u8 = ahead.get_u8();
        if present == 0 {
            *self = ahead;
            return Some(Slot(None));
        }
        proof {
            varint_at_bounds(self.all(), self.at() + 1);
        }
        let item_id: i32 = match ahead.varint() {
            Some(v) => v,
            None => {
                return None;
            },
        };
        if !ahead.has(1) {
            return None;
        }
        let count: i8 = ahead.get_i8();
        match ahead.optional_nbt() {
            Some(nbt) => {
                *self = ahead;
                Some(Slot(Some(SlotData { item_id, count, nbt })))
            },
            None => None,
        }
    }

    /// The next slot from before 1.13, or `None` where none stands here.
    pub fn legacy_slot(&mut self) -> (r: Option<LegacySlot>)
        requires
            old(self).valid(),
        ensures
            match legacy_slot_at(old(self).all(), old(self).at()) {
                Some((s, end)) => r is Some && r->0@ == s && final(self).advanced(
                    *old(self),
                    end - old(self).at(),
                ),
                None => r is None && *final(self) == *old(self),
            },
    {
        let mut ahead = self.fork();
        if !ahead.has(2) {
            return None;
        }
        let item_id: i16 = ahead.get_i16();
        if item_id == -1 {
            *self = ahead;
            return Some(LegacySlot(None));
        }
        if !ahead.has(3) {
            return None;
        }
        let count: i8 = ahead.get_i8();
        let damage: i16 = ahead.get_i16();
        match ahead.optional_nbt() {
            Some(nbt) => {
                *self = ahead;
                Some(LegacySlot(Some(LegacySlotData { item_id, count, damage, nbt })))
            },
            None => None,
        }
    }
}

impl Writer {
    /// Appends tags, a zero byte where there are none.
    pub fn nbt(&mut self, n: &Option<Nbt>)
        ensures
            final(self)@ == old(self)@ + nbt_bytes(nbt_view(*n)),
    {
        match n {
            Some(n) => self.raw(n.bytes.as_slice()),
            None => self.u8(0),
        }
    }

    /// Appends a slot of 1.13 or later.
    pub fn slot(&mut self, s: &Slot)
        ensures
            final(self)@ == old(self)@ + slot_bytes(s@),
    {
        let ghost before = self@;
        match &s.0 {
            Some(d) => {
                self.u8(1);
                self.varint(d.item_id);
                self.i8(d.count);
                self.nbt(&d.nbt);
                assert(self@ =~= before + slot_bytes(s@));
            },
            None => self.u8(0),
        }
    }
}

// Laws.

/// A slot from before 1.13: the id, the count, the damage and the tags, of which a zero byte
/// says that there are none; -1 is an empty one.
pub proof fn legacy_slot_reads(id: i16, count: i8, damage: i16, rest: Seq<u8>)
    requires
        id != -1,
    ensures
        legacy_slot_at(be_i16(id) + be_i8(count) + be_i16(damage) + seq![0u8] + rest, 0) == Some(
            (Some(LegacyItem { item_id: id, count, damage, nbt: None }), 6int),
        ),
        legacy_slot_at(be_i16(-1i16) + rest, 0) == Some((None::<LegacyItem>, 2int)),
{
    let b = be_i16(id) + be_i8(count) + be_i16(damage) + seq![0u8] + rest;
    let c = be_i16(-1i16) + rest;
    assert((id as u16) as i16 == id) by (bit_vector);
    assert((damage as u16) as i16 == damage) by (bit_vector);
    assert((count as u8) as i8 == count) by (bit_vector);
    assert(((-1i16) as u16) as i16 == -1) by (bit_vector);
    assert(b.subrange(0, 2) =~= crate::wire::be16(id as u16));
    assert(b.subrange(3, 5) =~= crate::wire::be16(damage as u16));
    assert(c.subrange(0, 2) =~= crate::wire::be16((-1i16) as u16));
    crate::wire::u16_there(b, 0, id as u16);
    crate::wire::u16_there(b, 3, damage as u16);
    crate::wire::u16_there(c, 0, (-1i16) as u16);
    assert(b[2] == count as u8);
    assert(b[5] == 0);
}

} // verus!
