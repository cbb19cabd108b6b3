//! Buffers of the `bytes` crate as sequences of bytes, and the fixed-width
//! integers of the wire format.
//!
//! A floating-point field is never computed with here. It travels as the integer
//! that holds its bits, which is how the wire carries it.

use bytes::{Buf, BufMut, Bytes, BytesMut};
use vstd::prelude::*;

verus! {

/// `bytes::Bytes`, known to the verifier as an opaque type.
#[verifier::external_type_specification]
#[verifier::external_body]
pub struct ExBytes(bytes::Bytes);

/// `bytes::BytesMut`, known to the verifier as an opaque type.
#[verifier::external_type_specification]
#[verifier::external_body]
pub struct ExBytesMut(bytes::BytesMut);

/// The bytes that a `Bytes` holds, from its read position on.
pub uninterp spec fn content(b: Bytes) -> Seq<u8>;

/// The bytes that a `BytesMut` holds.
pub uninterp spec fn written(b: BytesMut) -> Seq<u8>;

/// The big-endian 16-bit integer at `i`.
pub open spec fn u16_at(s: Seq<u8>, i: int) -> u16 {
    (s[i] * 0x100 + s[i + 1]) as u16
}

/// The big-endian 32-bit integer at `i`.
pub open spec fn u32_at(s: Seq<u8>, i: int) -> u32 {
    (s[i] * 0x1000000 + s[i + 1] * 0x10000 + s[i + 2] * 0x100 + s[i + 3]) as u32
}

/// The big-endian 64-bit integer at `i`.
pub open spec fn u64_at(s: Seq<u8>, i: int) -> u64 {
    (u32_at(s, i) * 0x1_0000_0000 + u32_at(s, i + 4)) as u64
}

/// The signed reading of the byte at `i`.
pub open spec fn i8_at(s: Seq<u8>, i: int) -> i8 {
    s[i] as i8
}

/// The signed reading of the 16-bit integer at `i`.
pub open spec fn i16_at(s: Seq<u8>, i: int) -> i16 {
    u16_at(s, i) as i16
}

/// The signed reading of the 32-bit integer at `i`.
pub open spec fn i32_at(s: Seq<u8>, i: int) -> i32 {
    u32_at(s, i) as i32
}

/// The signed reading of the 64-bit integer at `i`.
pub open spec fn i64_at(s: Seq<u8>, i: int) -> i64 {
    u64_at(s, i) as i64
}

/// The two bytes of `x`, most significant first.
pub open spec fn be16(x: u16) -> Seq<u8> {
    seq![(x / 0x100) as u8, (x % 0x100) as u8]
}

/// The four bytes of `x`, most significant first.
pub open spec fn be32(x: u32) -> Seq<u8> {
    seq![
        (x / 0x1000000) as u8,
        (x / 0x10000 % 0x100) as u8,
        (x / 0x100 % 0x100) as u8,
        (x % 0x100) as u8,
    ]
}

/// The eight bytes of `x`, most significant first.
pub open spec fn be64(x: u64) -> Seq<u8> {
    be32((x / 0x1_0000_0000) as u32) + be32((x % 0x1_0000_0000) as u32)
}

/// The four bytes of the signed integer `x`.
pub open spec fn be_i32(x: i32) -> Seq<u8> {
    be32(x as u32)
}

/// The two bytes of the signed integer `x`.
pub open spec fn be_i16(x: i16) -> Seq<u8> {
    be16(x as u16)
}

/// The eight bytes of the signed integer `x`.
pub open spec fn be_i64(x: i64) -> Seq<u8> {
    be64(x as u64)
}

/// The one byte of the signed integer `x`.
pub open spec fn be_i8(x: i8) -> Seq<u8> {
    seq![x as u8]
}

/// Writing a 16-bit integer and reading it back gives the integer.
pub proof fn u16_round_trip(x: u16, rest: Seq<u8>)
    ensures
        u16_at(be16(x) + rest, 0) == x,
{
}

/// A 16-bit integer that stands somewhere reads as itself.
pub proof fn u16_there(b: Seq<u8>, p: int, x: u16)
    requires
        0 <= p,
        p + 2 <= b.len(),
        b.subrange(p, p + 2) == be16(x),
    ensures
        u16_at(b, p) == x,
{
    assert(b.subrange(p, p + 2)[0] == b[p]);
    assert(b.subrange(p, p + 2)[1] == b[p + 1]);
}

/// A 32-bit integer that stands somewhere reads as itself.
pub proof fn u32_there(b: Seq<u8>, p: int, x: u32)
    requires
        0 <= p,
        p + 4 <= b.len(),
        b.subrange(p, p + 4) == be32(x),
    ensures
        u32_at(b, p) == x,
{
    assert(b.subrange(p, p + 4)[0] == b[p]);
    assert(b.subrange(p, p + 4)[1] == b[p + 1]);
    assert(b.subrange(p, p + 4)[2] == b[p + 2]);
    assert(b.subrange(p, p + 4)[3] == b[p + 3]);
}

/// Writing a 32-bit integer and reading it back gives the integer.
pub proof fn u32_round_trip(x: u32, rest: Seq<u8>)
    ensures
        u32_at(be32(x) + rest, 0) == x,
{
}

/// Writing a 64-bit integer and reading it back gives the integer.
pub proof fn u64_round_trip(x: u64, rest: Seq<u8>)
    ensures
        u64_at(be64(x) + rest, 0) == x,
{
    let hi = (x / 0x1_0000_0000) as u32;
    let lo = (x % 0x1_0000_0000) as u32;
    let s = be64(x) + rest;
    assert(s.subrange(0, 4) =~= be32(hi));
    assert(s.subrange(4, 8) =~= be32(lo));
    u32_there(s, 0, hi);
    u32_there(s, 4, lo);
}

/// Four bytes come back out of the number that they form.
proof fn bytes_of_sum(a: int, b: int, c: int, d: int)
    requires
        0 <= a < 0x100,
        0 <= b < 0x100,
        0 <= c < 0x100,
        0 <= d < 0x100,
    ensures
        ({
            let x = a * 0x1000000 + b * 0x10000 + c * 0x100 + d;
            &&& 0 <= x <= u32::MAX
            &&& x / 0x1000000 == a
            &&& x / 0x10000 % 0x100 == b
            &&& x / 0x100 % 0x100 == c
            &&& x % 0x100 == d
        }),
{
    let x = a * 0x1000000 + b * 0x10000 + c * 0x100 + d;
    assert(x / 0x100 == a * 0x10000 + b * 0x100 + c);
    assert(x / 0x10000 == a * 0x100 + b);
}

/// Reading four bytes as an integer and writing the integer gives the bytes.
pub proof fn be32_of_read(s: Seq<u8>, i: int)
    requires
        0 <= i,
        i + 4 <= s.len(),
    ensures
        be32(u32_at(s, i)) == s.subrange(i, i + 4),
{
    bytes_of_sum(s[i] as int, s[i + 1] as int, s[i + 2] as int, s[i + 3] as int);
    assert(be32(u32_at(s, i)) =~= s.subrange(i, i + 4));
}

/// Reading eight bytes as an integer and writing the integer gives the bytes.
pub proof fn be64_of_read(s: Seq<u8>, i: int)
    requires
        0 <= i,
        i + 8 <= s.len(),
    ensures
        be64(u64_at(s, i)) == s.subrange(i, i + 8),
{
    be32_of_read(s, i);
    be32_of_read(s, i + 4);
    assert(s.subrange(i, i + 8) =~= s.subrange(i, i + 4) + s.subrange(i + 4, i + 8));
    let x = u64_at(s, i);
    assert(x / 0x1_0000_0000 == u32_at(s, i));
    assert(x % 0x1_0000_0000 == u32_at(s, i + 4));
}

/// The little-endian 16-bit integer at `i`.
pub open spec fn le16_at(s: Seq<u8>, i: int) -> u16 {
    (s[i] + s[i + 1] * 0x100) as u16
}

/// The little-endian 32-bit integer at `i`.
pub open spec fn le32_at(s: Seq<u8>, i: int) -> u32 {
    (s[i] + s[i + 1] * 0x100 + s[i + 2] * 0x10000 + s[i + 3] * 0x1000000) as u32
}

/// The little-endian 64-bit integer at `i`.
pub open spec fn le64_at(s: Seq<u8>, i: int) -> u64 {
    (le32_at(s, i) + le32_at(s, i + 4) * 0x1_0000_0000) as u64
}

/// The bytes of `x`, least significant first.
pub open spec fn le16(x: u16) -> Seq<u8> {
    seq![(x % 0x100) as u8, (x / 0x100) as u8]
}

/// The bytes of `x`, least significant first.
pub open spec fn le32(x: u32) -> Seq<u8> {
    seq![
        (x % 0x100) as u8,
        (x / 0x100 % 0x100) as u8,
        (x / 0x10000 % 0x100) as u8,
        (x / 0x1000000) as u8,
    ]
}

/// The bytes of `x`, least significant first.
pub open spec fn le64(x: u64) -> Seq<u8> {
    le32((x % 0x1_0000_0000) as u32) + le32((x / 0x1_0000_0000) as u32)
}

/// A little-endian 16-bit integer reads back as it was written.
pub proof fn le16_round_trip(x: u16, pre: Seq<u8>, rest: Seq<u8>)
    ensures
        le16_at(pre + le16(x) + rest, pre.len() as int) == x,
{
}

/// A little-endian 32-bit integer reads back as it was written.
pub proof fn le32_round_trip(x: u32, pre: Seq<u8>, rest: Seq<u8>)
    ensures
        le32_at(pre + le32(x) + rest, pre.len() as int) == x,
{
}

/// A little-endian 64-bit integer reads back as it was written.
pub proof fn le64_round_trip(x: u64, pre: Seq<u8>, rest: Seq<u8>)
    ensures
        le64_at(pre + le64(x) + rest, pre.len() as int) == x,
{
    let (lo, hi) = ((x % 0x1_0000_0000) as u32, (x / 0x1_0000_0000) as u32);
    let b = pre + le64(x) + rest;
    assert(b =~= pre + le32(lo) + (le32(hi) + rest));
    le32_round_trip(lo, pre, le32(hi) + rest);
    assert(b =~= (pre + le32(lo)) + le32(hi) + rest);
    le32_round_trip(hi, pre + le32(lo), rest);
}

/// `Bytes::len`: the number of bytes held.
#[verifier::external_body]
pub(crate) fn bytes_len(b: &Bytes) -> (n: usize)
    ensures
        n == content(*b).len(),
{
    b.len()
}

/// `Clone for Bytes`: the clone holds the same bytes.
#[verifier::external_body]
pub(crate) fn bytes_clone(b: &Bytes) -> (r: Bytes)
    ensures
        content(r) == content(*b),
{
    b.clone()
}

/// `From<Vec<u8>> for Bytes`: the buffer holds the vector's bytes.
#[verifier::external_body]
pub(crate) fn bytes_from_vec(v: Vec<u8>) -> (r: Bytes)
    ensures
        content(r) == v@,
{
    Bytes::from(v)
}

/// `Bytes::to_vec`, through its slice: a vector of the bytes held.
#[verifier::external_body]
pub(crate) fn bytes_to_vec(b: &Bytes) -> (v: Vec<u8>)
    ensures
        v@ == content(*b),
{
    b.to_vec()
}

/// `Buf::get_u8` on `Bytes`: takes the first byte. It panics on an empty buffer.
#[verifier::external_body]
pub(crate) fn bytes_get_u8(b: &mut Bytes) -> (x: u8)
    requires
        content(*old(b)).len() >= 1,
    ensures
        x == content(*old(b))[0],
        content(*final(b)) == content(*old(b)).skip(1),
{
    b.get_u8()
}

/// `Buf::get_u16` on `Bytes`: takes two bytes, big-endian. It panics on fewer.
#[verifier::external_body]
pub(crate) fn bytes_get_u16(b: &mut Bytes) -> (x: u16)
    requires
        content(*old(b)).len() >= 2,
    ensures
        x == u16_at(content(*old(b)), 0),
        content(*final(b)) == content(*old(b)).skip(2),
{
    b.get_u16()
}

/// `Buf::get_u32` on `Bytes`: takes four bytes, big-endian. It panics on fewer.
#[verifier::external_body]
pub(crate) fn bytes_get_u32(b: &mut Bytes) -> (x: u32)
    requires
        content(*old(b)).len() >= 4,
    ensures
        x == u32_at(content(*old(b)), 0),
        content(*final(b)) == content(*old(b)).skip(4),
{
    b.get_u32()
}

/// `Buf::get_u64` on `Bytes`: takes eight bytes, big-endian. It panics on fewer.
#[verifier::external_body]
pub(crate) fn bytes_get_u64(b: &mut Bytes) -> (x: u64)
    requires
        content(*old(b)).len() >= 8,
    ensures
        x == u64_at(content(*old(b)), 0),
        content(*final(b)) == content(*old(b)).skip(8),
{
    b.get_u64()
}

/// `Buf::get_u16_le` on `Bytes`: takes two bytes, little-endian. It panics on fewer.
#[verifier::external_body]
pub(crate) fn bytes_get_u16_le(b: &mut Bytes) -> (x: u16)
    requires
        content(*old(b)).len() >= 2,
    ensures
        x == le16_at(content(*old(b)), 0),
        content(*final(b)) == content(*old(b)).skip(2),
{
    b.get_u16_le()
}

/// `Buf::get_u32_le` on `Bytes`: takes four bytes, little-endian. It panics on fewer.
#[verifier::external_body]
pub(crate) fn bytes_get_u32_le(b: &mut Bytes) -> (x: u32)
    requires
        content(*old(b)).len() >= 4,
    ensures
        x == le32_at(content(*old(b)), 0),
        content(*final(b)) == content(*old(b)).skip(4),
{
    b.get_u32_le()
}

/// `Buf::get_u64_le` on `Bytes`: takes eight bytes, little-endian. It panics on fewer.
#[verifier::external_body]
pub(crate) fn bytes_get_u64_le(b: &mut Bytes) -> (x: u64)
    requires
        content(*old(b)).len() >= 8,
    ensures
        x == le64_at(content(*old(b)), 0),
        content(*final(b)) == content(*old(b)).skip(8),
{
    b.get_u64_le()
}

/// `Bytes::split_to`: cuts off the first `n` bytes. It panics where `n` is past the
/// end.
#[verifier::external_body]
pub(crate) fn bytes_split_to(b: &mut Bytes, n: usize) -> (head: Bytes)
    requires
        n <= content(*old(b)).len(),
    ensures
        content(head) == content(*old(b)).take(n as int),
        content(*final(b)) == content(*old(b)).skip(n as int),
{
    b.split_to(n)
}

/// `BytesMut::new`: an empty buffer.
#[verifier::external_body]
pub(crate) fn bytes_mut_new() -> (b: BytesMut)
    ensures
        written(b) == Seq::<u8>::empty(),
{
    BytesMut::new()
}

/// `BufMut::put_u8` on `BytesMut`: appends one byte.
#[verifier::external_body]
pub(crate) fn bytes_mut_put_u8(b: &mut BytesMut, x: u8)
    ensures
        written(*final(b)) == written(*old(b)) + seq![x],
{
    b.put_u8(x)
}

/// `BufMut::put_u16` on `BytesMut`: appends two bytes, big-endian.
#[verifier::external_body]
pub(crate) fn bytes_mut_put_u16(b: &mut BytesMut, x: u16)
    ensures
        written(*final(b)) == written(*old(b)) + be16(x),
{
    b.put_u16(x)
}

/// `BufMut::put_u32` on `BytesMut`: appends four bytes, big-endian.
#[verifier::external_body]
pub(crate) fn bytes_mut_put_u32(b: &mut BytesMut, x: u32)
    ensures
        written(*final(b)) == written(*old(b)) + be32(x),
{
    b.put_u32(x)
}

/// `BufMut::put_u64` on `BytesMut`: appends eight bytes, big-endian.
#[verifier::external_body]
pub(crate) fn bytes_mut_put_u64(b: &mut BytesMut, x: u64)
    ensures
        written(*final(b)) == written(*old(b)) + be64(x),
{
    b.put_u64(x)
}

/// `BufMut::put_u16_le` on `BytesMut`: appends two bytes, little-endian.
#[verifier::external_body]
pub(crate) fn bytes_mut_put_u16_le(b: &mut BytesMut, x: u16)
    ensures
        written(*final(b)) == written(*old(b)) + le16(x),
{
    b.put_u16_le(x)
}

/// `BufMut::put_u32_le` on `BytesMut`: appends four bytes, little-endian.
#[verifier::external_body]
pub(crate) fn bytes_mut_put_u32_le(b: &mut BytesMut, x: u32)
    ensures
        written(*final(b)) == written(*old(b)) + le32(x),
{
    b.put_u32_le(x)
}

/// `BufMut::put_u64_le` on `BytesMut`: appends eight bytes, little-endian.
#[verifier::external_body]
pub(crate) fn bytes_mut_put_u64_le(b: &mut BytesMut, x: u64)
    ensures
        written(*final(b)) == written(*old(b)) + le64(x),
{
    b.put_u64_le(x)
}

/// `BytesMut::extend_from_slice`: appends the slice.
#[verifier::external_body]
pub(crate) fn bytes_mut_extend(b: &mut BytesMut, s: &[u8])
    ensures
        written(*final(b)) == written(*old(b)) + s@,
{
    b.extend_from_slice(s)
}

/// `BytesMut::len`: how many bytes were written.
#[verifier::external_body]
pub(crate) fn bytes_mut_len(b: &BytesMut) -> (n: usize)
    ensures
        n == written(*b).len(),
{
    b.len()
}

/// `BytesMut::to_vec`, through its slice: a vector of the bytes written.
#[verifier::external_body]
pub(crate) fn bytes_mut_to_vec(b: &BytesMut) -> (v: Vec<u8>)
    ensures
        v@ == written(*b),
{
    b.to_vec()
}

/// `BytesMut::split_to`: cuts off the first `n` bytes. It panics where `n` is past the end.
#[verifier::external_body]
pub(crate) fn bytes_mut_split_to(b: &mut BytesMut, n: usize) -> (head: BytesMut)
    requires
        n <= written(*old(b)).len(),
    ensures
        written(head) == written(*old(b)).take(n as int),
        written(*final(b)) == written(*old(b)).skip(n as int),
{
    b.split_to(n)
}

/// `BytesMut::split`: takes all the bytes out, leaving the buffer empty.
#[verifier::external_body]
pub(crate) fn bytes_mut_split(b: &mut BytesMut) -> (all: BytesMut)
    ensures
        written(all) == written(*old(b)),
        written(*final(b)) == Seq::<u8>::empty(),
{
    b.split()
}

/// `BytesMut::freeze`: the same bytes, read-only.
#[verifier::external_body]
pub(crate) fn bytes_mut_freeze(b: BytesMut) -> (r: Bytes)
    ensures
        content(r) == written(b),
{
    b.freeze()
}

// Laws.

/// The most significant byte stands first.
pub proof fn most_significant_first(a: u8, b: u8, c: u8, d: u8)
    ensures
        be16((256 * a + b) as u16) == seq![a, b],
        be32((256 * (256 * (256 * a + b) + c) + d) as u32) == seq![a, b, c, d],
        u16_at(seq![a, b], 0) == 256 * a + b,
        u32_at(seq![a, b, c, d], 0) == 256 * (256 * (256 * a + b) + c) + d,
        le16_at(seq![a, b], 0) == 256 * b + a,
        le32_at(seq![a, b, c, d], 0) == 256 * (256 * (256 * d + c) + b) + a,
{
    assert(be16((256 * a + b) as u16) =~= seq![a, b]);
    assert(be32((256 * (256 * (256 * a + b) + c) + d) as u32) =~= seq![a, b, c, d]);
}

/// The upper half of 64 bits stands first.
pub proof fn upper_half_first(hi: u32, lo: u32)
    ensures
        be64((0x1_0000_0000 * hi + lo) as u64) == be32(hi) + be32(lo),
        u64_at(be32(hi) + be32(lo), 0) == 0x1_0000_0000 * hi + lo,
        le64_at(le32(lo) + le32(hi), 0) == 0x1_0000_0000 * hi + lo,
{
    assert(be64((0x1_0000_0000 * hi + lo) as u64) =~= be32(hi) + be32(lo));
    u64_round_trip((0x1_0000_0000 * hi + lo) as u64, Seq::empty());
    assert(be32(hi) + be32(lo) + Seq::<u8>::empty() =~= be32(hi) + be32(lo));
    let x = (0x1_0000_0000 * hi + lo) as u64;
    le64_round_trip(x, Seq::empty(), Seq::empty());
    assert(Seq::<u8>::empty() + le64(x) + Seq::<u8>::empty() =~= le32(lo) + le32(hi));
}

/// Negative numbers are written in two's complement.
pub proof fn negative_in_complement(x: i32, y: i16, z: i8)
    ensures
        x < 0 ==> be_i32(x) == be32((0x1_0000_0000 + x) as u32),
        x >= 0 ==> be_i32(x) == be32(x as u32),
        y < 0 ==> be_i16(y) == be16((0x1_0000 + y) as u16),
        z < 0 ==> be_i8(z) == seq![(0x100 + z) as u8],
        z >= 0 ==> be_i8(z) == seq![z as u8],
{
    assert(x < 0 ==> x as u32 == 0x1_0000_0000 + x) by (bit_vector);
    assert(y < 0 ==> y as u16 == 0x1_0000 + y) by (bit_vector);
    assert(z < 0 ==> z as u8 == 0x100 + z) by (bit_vector);
}

} // verus!
