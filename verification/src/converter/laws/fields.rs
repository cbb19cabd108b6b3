//! The fields of packets that come in, and how they read among others.
//!
//! A body is a sum of fields. What is read of it at the place of a field is the value that the
//! field was written with, whatever stands before and behind it.

use crate::converter::outcome::{packet, split, split_of_packet};
use crate::converter::v1_6_4_to_v1_12_2::id_list;
use crate::position::{
    legacy_bits, legacy_of_modern, legacy_position_of, legacy_round_trip, modern_bits, modern_round_trip,
    packable, Position,
};
use crate::text::{
    string_at, string_round_trip, ucs2_at, ucs2_round_trip, ucs2_string, units_at, utf16, utf16_lossy,
    utf16_or_empty, utf16_round_trip, wire_string,
};
use crate::varint::{varint, varint_at, varint_at_bounds, varint_groups, varint_len, varint_round_trip};
use crate::wire::{
    be16, be32, be64, be_i16, be_i32, be_i64, be_i8, i16_at, i32_at, i64_at, i8_at, u16_at, u16_there,
    u32_at, u32_there, u64_at,
};
use vstd::prelude::*;
use vstd::utf8::encode_utf8;

verus! {

/// A 16-bit integer as a field.
#[verifier::opaque]
pub open spec fn u16_field(x: u16) -> Seq<u8> {
    be16(x)
}

/// How long the field is.
pub broadcast proof fn u16_size(x: u16)
    ensures
        (#[trigger] u16_field(x)).len() == 2,
{
    reveal(u16_field);
}

/// What is read before the last field does not see it.
pub broadcast proof fn u16_before(s: Seq<u8>, t: Seq<u8>, p: int)
    requires
        0 <= p,
        p + 2 <= s.len(),
    ensures
        #[trigger] u16_at(s + t, p) == u16_at(s, p),
{
}

/// The last field reads as it was written.
pub broadcast proof fn u16_last(s: Seq<u8>, x: u16, p: int)
    requires
        p == s.len(),
    ensures
        #[trigger] u16_at(s + u16_field(x), p) == x,
{
    reveal(u16_field);
    let b = s + be16(x);
    assert(b.subrange(p, p + 2) =~= be16(x));
    u16_there(b, p, x);
}

/// A field that stands alone reads as it was written.
pub broadcast proof fn u16_alone(x: u16)
    ensures
        #[trigger] u16_at(u16_field(x), 0) == x,
{
    u16_last(seq![], x, 0);
    assert(Seq::<u8>::empty() + u16_field(x) =~= u16_field(x));
}

/// A 32-bit integer or the bits of a single as a field.
#[verifier::opaque]
pub open spec fn u32_field(x: u32) -> Seq<u8> {
    be32(x)
}

/// How long the field is.
pub broadcast proof fn u32_size(x: u32)
    ensures
        (#[trigger] u32_field(x)).len() == 4,
{
    reveal(u32_field);
}

/// What is read before the last field does not see it.
pub broadcast proof fn u32_before(s: Seq<u8>, t: Seq<u8>, p: int)
    requires
        0 <= p,
        p + 4 <= s.len(),
    ensures
        #[trigger] u32_at(s + t, p) == u32_at(s, p),
{
}

/// The last field reads as it was written.
pub broadcast proof fn u32_last(s: Seq<u8>, x: u32, p: int)
    requires
        p == s.len(),
    ensures
        #[trigger] u32_at(s + u32_field(x), p) == x,
{
    reveal(u32_field);
    let b = s + be32(x);
    assert(b.subrange(p, p + 4) =~= be32(x));
    u32_there(b, p, x);
}

/// A field that stands alone reads as it was written.
pub broadcast proof fn u32_alone(x: u32)
    ensures
        #[trigger] u32_at(u32_field(x), 0) == x,
{
    u32_last(seq![], x, 0);
    assert(Seq::<u8>::empty() + u32_field(x) =~= u32_field(x));
}

/// A 64-bit integer or the bits of a double as a field.
#[verifier::opaque]
pub open spec fn u64_field(x: u64) -> Seq<u8> {
    be64(x)
}

/// How long the field is.
pub broadcast proof fn u64_size(x: u64)
    ensures
        (#[trigger] u64_field(x)).len() == 8,
{
    reveal(u64_field);
}

/// What is read before the last field does not see it.
pub broadcast proof fn u64_before(s: Seq<u8>, t: Seq<u8>, p: int)
    requires
        0 <= p,
        p + 8 <= s.len(),
    ensures
        #[trigger] u64_at(s + t, p) == u64_at(s, p),
{
    u32_before(s, t, p);
    u32_before(s, t, p + 4);
}

/// The last field reads as it was written.
pub broadcast proof fn u64_last(s: Seq<u8>, x: u64, p: int)
    requires
        p == s.len(),
    ensures
        #[trigger] u64_at(s + u64_field(x), p) == x,
{
    reveal(u64_field);
    let hi = (x / 0x1_0000_0000) as u32;
    let lo = (x % 0x1_0000_0000) as u32;
    let b = s + be64(x);
    assert(b.subrange(p, p + 4) =~= be32(hi));
    assert(b.subrange(p + 4, p + 8) =~= be32(lo));
    u32_there(b, p, hi);
    u32_there(b, p + 4, lo);
}

/// A field that stands alone reads as it was written.
pub broadcast proof fn u64_alone(x: u64)
    ensures
        #[trigger] u64_at(u64_field(x), 0) == x,
{
    u64_last(seq![], x, 0);
    assert(Seq::<u8>::empty() + u64_field(x) =~= u64_field(x));
}

/// A signed byte as a field.
#[verifier::opaque]
pub open spec fn i8_field(x: i8) -> Seq<u8> {
    be_i8(x)
}

/// How long the field is.
pub broadcast proof fn i8_size(x: i8)
    ensures
        (#[trigger] i8_field(x)).len() == 1,
{
    reveal(i8_field);
}

/// What is read before the last field does not see it.
pub broadcast proof fn i8_before(s: Seq<u8>, t: Seq<u8>, p: int)
    requires
        0 <= p,
        p + 1 <= s.len(),
    ensures
        #[trigger] i8_at(s + t, p) == i8_at(s, p),
{
}

/// The last field reads as it was written.
pub broadcast proof fn i8_last(s: Seq<u8>, x: i8, p: int)
    requires
        p == s.len(),
    ensures
        #[trigger] i8_at(s + i8_field(x), p) == x,
{
    reveal(i8_field);
    assert((x as u8) as i8 == x) by (bit_vector);
}

/// A field that stands alone reads as it was written.
pub broadcast proof fn i8_alone(x: i8)
    ensures
        #[trigger] i8_at(i8_field(x), 0) == x,
{
    i8_last(seq![], x, 0);
    assert(Seq::<u8>::empty() + i8_field(x) =~= i8_field(x));
}

/// A signed 16-bit integer as a field.
#[verifier::opaque]
pub open spec fn i16_field(x: i16) -> Seq<u8> {
    be_i16(x)
}

/// How long the field is.
pub broadcast proof fn i16_size(x: i16)
    ensures
        (#[trigger] i16_field(x)).len() == 2,
{
    reveal(i16_field);
}

/// What is read before the last field does not see it.
pub broadcast proof fn i16_before(s: Seq<u8>, t: Seq<u8>, p: int)
    requires
        0 <= p,
        p + 2 <= s.len(),
    ensures
        #[trigger] i16_at(s + t, p) == i16_at(s, p),
{
    u16_before(s, t, p);
}

/// The last field reads as it was written.
pub broadcast proof fn i16_last(s: Seq<u8>, x: i16, p: int)
    requires
        p == s.len(),
    ensures
        #[trigger] i16_at(s + i16_field(x), p) == x,
{
    reveal(i16_field);
    reveal(u16_field);
    u16_last(s, x as u16, p);
    assert((x as u16) as i16 == x) by (bit_vector);
}

/// A field that stands alone reads as it was written.
pub broadcast proof fn i16_alone(x: i16)
    ensures
        #[trigger] i16_at(i16_field(x), 0) == x,
{
    i16_last(seq![], x, 0);
    assert(Seq::<u8>::empty() + i16_field(x) =~= i16_field(x));
}

/// A signed 32-bit integer as a field.
#[verifier::opaque]
pub open spec fn i32_field(x: i32) -> Seq<u8> {
    be_i32(x)
}

/// How long the field is.
pub broadcast proof fn i32_size(x: i32)
    ensures
        (#[trigger] i32_field(x)).len() == 4,
{
    reveal(i32_field);
}

/// What is read before the last field does not see it.
pub broadcast proof fn i32_before(s: Seq<u8>, t: Seq<u8>, p: int)
    requires
        0 <= p,
        p + 4 <= s.len(),
    ensures
        #[trigger] i32_at(s + t, p) == i32_at(s, p),
{
    u32_before(s, t, p);
}

/// The last field reads as it was written.
pub broadcast proof fn i32_last(s: Seq<u8>, x: i32, p: int)
    requires
        p == s.len(),
    ensures
        #[trigger] i32_at(s + i32_field(x), p) == x,
{
    reveal(i32_field);
    reveal(u32_field);
    u32_last(s, x as u32, p);
    assert((x as u32) as i32 == x) by (bit_vector);
}

/// A field that stands alone reads as it was written.
pub broadcast proof fn i32_alone(x: i32)
    ensures
        #[trigger] i32_at(i32_field(x), 0) == x,
{
    i32_last(seq![], x, 0);
    assert(Seq::<u8>::empty() + i32_field(x) =~= i32_field(x));
}

/// A signed 64-bit integer as a field.
#[verifier::opaque]
pub open spec fn i64_field(x: i64) -> Seq<u8> {
    be_i64(x)
}

/// How long the field is.
pub broadcast proof fn i64_size(x: i64)
    ensures
        (#[trigger] i64_field(x)).len() == 8,
{
    reveal(i64_field);
}

/// What is read before the last field does not see it.
pub broadcast proof fn i64_before(s: Seq<u8>, t: Seq<u8>, p: int)
    requires
        0 <= p,
        p + 8 <= s.len(),
    ensures
        #[trigger] i64_at(s + t, p) == i64_at(s, p),
{
    u64_before(s, t, p);
}

/// The last field reads as it was written.
pub broadcast proof fn i64_last(s: Seq<u8>, x: i64, p: int)
    requires
        p == s.len(),
    ensures
        #[trigger] i64_at(s + i64_field(x), p) == x,
{
    reveal(i64_field);
    reveal(u64_field);
    u64_last(s, x as u64, p);
    assert((x as u64) as i64 == x) by (bit_vector);
}

/// A field that stands alone reads as it was written.
pub broadcast proof fn i64_alone(x: i64)
    ensures
        #[trigger] i64_at(i64_field(x), 0) == x,
{
    i64_last(seq![], x, 0);
    assert(Seq::<u8>::empty() + i64_field(x) =~= i64_field(x));
}

/// An integer of variable length as a field.
#[verifier::opaque]
pub open spec fn varint_field(x: i32) -> Seq<u8> {
    varint(x)
}

/// What stands behind an integer that reads does not change how it reads.
proof fn groups_before(s: Seq<u8>, t: Seq<u8>, p: int, left: nat)
    requires
        varint_groups(s, p, left) is Some,
    ensures
        varint_groups(s + t, p, left) == varint_groups(s, p, left),
    decreases left,
{
    if left > 0 && 0 <= p < s.len() && s[p] >= 0x80 {
        groups_before(s, t, p + 1, (left - 1) as nat);
    }
}

/// What is read before the last field does not see it.
pub broadcast proof fn varint_before(s: Seq<u8>, t: Seq<u8>, p: int)
    requires
        varint_at(s, p) is Some,
    ensures
        #[trigger] varint_at(s + t, p) == varint_at(s, p),
{
    groups_before(s, t, p, 5);
}

/// The last field reads as it was written.
pub broadcast proof fn varint_last(s: Seq<u8>, x: i32, p: int)
    requires
        p == s.len(),
    ensures
        #[trigger] varint_at(s + varint_field(x), p) == Some((x, (s.len() + varint_field(x).len()) as int)),
{
    reveal(varint_field);
    varint_round_trip(x, s, seq![]);
    assert(s + varint(x) + Seq::<u8>::empty() =~= s + varint(x));
}

/// A number that stands alone reads as it was written.
pub broadcast proof fn varint_alone(x: i32)
    ensures
        #[trigger] varint_at(varint_field(x), 0) == Some((x, varint_field(x).len() as int)),
{
    varint_last(seq![], x, 0);
    assert(Seq::<u8>::empty() + varint_field(x) =~= varint_field(x));
}

/// How long the field is.
pub broadcast proof fn varint_size(x: i32)
    ensures
        1 <= (#[trigger] varint_field(x)).len() <= 5,
{
    reveal(varint_field);
    varint_len(x);
}

/// A text in UTF-8 as a field.
#[verifier::opaque]
pub open spec fn text_field(x: Seq<char>) -> Seq<u8> {
    wire_string(x)
}

/// Whether the count in front of a text in UTF-8 can hold its length.
pub open spec fn sendable(x: Seq<char>) -> bool {
    encode_utf8(x).len() <= i32::MAX
}

/// What is read before the last field does not see it.
pub broadcast proof fn text_before(s: Seq<u8>, t: Seq<u8>, p: int)
    requires
        string_at(s, p) is Some,
    ensures
        #[trigger] string_at(s + t, p) == string_at(s, p),
{
    let (n, start) = varint_at(s, p)->0;
    varint_at_bounds(s, p);
    varint_before(s, t, p);
    assert((s + t).subrange(start, start + n) =~= s.subrange(start, start + n));
}

/// The last field reads as it was written.
pub broadcast proof fn text_last(s: Seq<u8>, x: Seq<char>, p: int)
    requires
        p == s.len(),
        sendable(x),
    ensures
        #[trigger] string_at(s + text_field(x), p) == Some((x, (s.len() + text_field(x).len()) as int)),
{
    reveal(text_field);
    string_round_trip(x, s, seq![]);
    assert(s + wire_string(x) + Seq::<u8>::empty() =~= s + wire_string(x));
}

/// A text that stands alone reads as it was written.
pub broadcast proof fn text_alone(x: Seq<char>)
    requires
        sendable(x),
    ensures
        #[trigger] string_at(text_field(x), 0) == Some((x, text_field(x).len() as int)),
{
    text_last(seq![], x, 0);
    assert(Seq::<u8>::empty() + text_field(x) =~= text_field(x));
}

/// A text in UTF-16 as a field.
#[verifier::opaque]
pub open spec fn ucs2_field(x: Seq<char>) -> Seq<u8> {
    ucs2_string(x)
}

/// Whether the count in front of a text in UTF-16 can hold its length.
pub open spec fn sendable_before_1_7(x: Seq<char>) -> bool {
    utf16(x).len() <= 0xFFFF
}

/// What is read before the last field does not see it.
pub broadcast proof fn ucs2_before(s: Seq<u8>, t: Seq<u8>, p: int)
    requires
        0 <= p,
        ucs2_at(s, p) is Some,
    ensures
        #[trigger] ucs2_at(s + t, p) == ucs2_at(s, p),
{
    u16_before(s, t, p);
    let n = u16_at(s, p) as nat;
    assert(units_at(s + t, p + 2, n) =~= units_at(s, p + 2, n));
}

/// The last field reads as it was written.
pub broadcast proof fn ucs2_last(s: Seq<u8>, x: Seq<char>, p: int)
    requires
        p == s.len(),
        sendable_before_1_7(x),
    ensures
        #[trigger] ucs2_at(s + ucs2_field(x), p) == Some((utf16(x), (s.len() + ucs2_field(x).len()) as int)),
        utf16_lossy(utf16(x)) == x,
{
    reveal(ucs2_field);
    ucs2_round_trip(x, s, seq![]);
    assert(s + ucs2_string(x) + Seq::<u8>::empty() =~= s + ucs2_string(x));
}

/// A text that stands alone reads as it was written.
pub broadcast proof fn ucs2_alone(x: Seq<char>)
    requires
        sendable_before_1_7(x),
    ensures
        #[trigger] ucs2_at(ucs2_field(x), 0) == Some((utf16(x), ucs2_field(x).len() as int)),
        utf16_lossy(utf16(x)) == x,
{
    ucs2_last(seq![], x, 0);
    assert(Seq::<u8>::empty() + ucs2_field(x) =~= ucs2_field(x));
}

/// What is left behind all fields but the last one is the last one.
pub broadcast proof fn rest_last(s: Seq<u8>, t: Seq<u8>, n: int)
    requires
        n == s.len(),
    ensures
        #[trigger] (s + t).skip(n) == t,
{
    assert((s + t).skip(n) =~= t);
}

/// A place that fits its fields reads as it was packed.
pub broadcast proof fn place_unpacks(x: int, y: int, z: int)
    requires
        packable(x, y, z),
    ensures
        #[trigger] legacy_position_of(legacy_bits(x, y, z)) == (Position { x: x as i32, y: y as i32, z: z as i32 }),
{
    legacy_round_trip(Position { x: x as i32, y: y as i32, z: z as i32 });
}

/// A place that fits its fields goes from the newer order to the older one.
pub broadcast proof fn place_goes_back(x: int, y: int, z: int)
    requires
        packable(x, y, z),
    ensures
        #[trigger] legacy_of_modern(modern_bits(x, y, z)) == legacy_bits(x, y, z),
{
    modern_round_trip(Position { x: x as i32, y: y as i32, z: z as i32 });
}

/// The units of a text spell the text.
pub broadcast proof fn units_spell(x: Seq<char>)
    ensures
        #[trigger] utf16_or_empty(utf16(x)) == x,
        utf16_lossy(utf16(x)) == x,
{
    utf16_round_trip(x);
}

/// A packet splits into its id and its body.
pub broadcast proof fn packet_splits(id: u8, body: Seq<u8>)
    ensures
        #[trigger] split(packet(id, body)) == Some((id, body)),
{
    split_of_packet(id, body);
}

/// How fields read among others.
pub broadcast group fields_read {
    u16_size,
    u16_before,
    u16_last,
    u16_alone,
    u32_size,
    u32_before,
    u32_last,
    u32_alone,
    u64_size,
    u64_before,
    u64_last,
    u64_alone,
    i8_size,
    i8_before,
    i8_last,
    i8_alone,
    i16_size,
    i16_before,
    i16_last,
    i16_alone,
    i32_size,
    i32_before,
    i32_last,
    i32_alone,
    i64_size,
    i64_before,
    i64_last,
    i64_alone,
    varint_size,
    varint_before,
    varint_last,
    varint_alone,
    text_before,
    text_last,
    text_alone,
    ucs2_before,
    ucs2_last,
    ucs2_alone,
    rest_last,
    place_unpacks,
    place_goes_back,
    units_spell,
    packet_splits,
}

/// Parts of a packet, one behind the other.
pub open spec fn joined(parts: Seq<Seq<u8>>) -> Seq<u8>
    decreases parts.len(),
{
    if parts.len() == 0 {
        seq![]
    } else {
        joined(parts.drop_last()) + parts.last()
    }
}

/// What stands between a front and an end is found there.
pub proof fn middle(front: Seq<u8>, data: Seq<u8>, rest: Seq<u8>)
    ensures
        (front + data + rest).subrange(front.len() as int, (front.len() + data.len()) as int) == data,
{
    assert((front + data + rest).subrange(front.len() as int, (front.len() + data.len()) as int) =~= data);
}

/// Ids of 32 bits become variable-length ids.
pub proof fn ids_joined(b: Seq<u8>, p: int, n: nat, parts: Seq<Seq<u8>>)
    requires
        parts.len() == n,
        forall|i: int| 0 <= i < n ==> #[trigger] parts[i] == varint(i32_at(b, p + 4 * i)),
    ensures
        id_list(b, p, n) == joined(parts),
    decreases n,
{
    if n > 0 {
        ids_joined(b, p, (n - 1) as nat, parts.drop_last());
        assert(parts.last() == varint(i32_at(b, p + 4 * (n - 1))));
    }
}

/// Ids behind their count become variable-length ids.
pub proof fn ids_behind_count(count: i8, ids: Seq<u8>, parts: Seq<Seq<u8>>)
    requires
        0 <= count,
        4 * count <= ids.len(),
        parts.len() == count,
        forall|i: int| 0 <= i < count ==> #[trigger] parts[i] == varint(i32_at(ids, 4 * i)),
    ensures
        id_list(i8_field(count) + ids, 1, count as nat) == joined(parts),
{
    i8_size(count);
    let b = i8_field(count) + ids;
    assert forall|i: int| 0 <= i < count implies #[trigger] parts[i] == varint(i32_at(b, 1 + 4 * i)) by {
        assert(b[1 + 4 * i] == ids[4 * i]);
        assert(b[2 + 4 * i] == ids[4 * i + 1]);
        assert(b[3 + 4 * i] == ids[4 * i + 2]);
        assert(b[4 + 4 * i] == ids[4 * i + 3]);
    }
    ids_joined(b, 1, count as nat, parts);
}

} // verus!
