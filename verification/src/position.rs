//! Block positions packed into 64 bits.
//!
//! Up to 1.13 the order of the fields is x, y, z; from 1.14 on it is x, z, y. In both x
//! and z have 26 bits and y has 12, all signed.

use crate::converter::safe::Reader;
use crate::wire::u64_at;
use vstd::prelude::*;

verus! {

/// A block position.
#[derive(Clone, Copy, PartialEq, Eq, Structural, Debug)]
pub struct Position {
    pub x: i32,
    pub y: i32,
    pub z: i32,
}

/// The number that the low bits of a field of `2^n` values stand for, `half` being half
/// their number.
pub open spec fn signed_field(bits: int, half: int) -> int {
    if bits >= half {
        bits - 2 * half
    } else {
        bits
    }
}

/// The 64 bits of a position in the order x, y, z. Each coordinate keeps its low bits.
pub open spec fn legacy_bits(x: int, y: int, z: int) -> u64 {
    ((x % 0x400_0000) * 0x40_0000_0000 + (y % 0x1000) * 0x400_0000 + z % 0x400_0000) as u64
}

/// The position that 64 bits in the order x, y, z hold.
pub open spec fn legacy_position_of(bits: u64) -> Position {
    Position {
        x: signed_field((bits / 0x40_0000_0000) as int, 0x200_0000) as i32,
        y: signed_field((bits / 0x400_0000 % 0x1000) as int, 0x800) as i32,
        z: signed_field((bits % 0x400_0000) as int, 0x200_0000) as i32,
    }
}

/// The 64 bits of a position in the order x, z, y.
pub open spec fn modern_bits(x: int, y: int, z: int) -> u64 {
    ((x % 0x400_0000) * 0x40_0000_0000 + (z % 0x400_0000) * 0x1000 + y % 0x1000) as u64
}

/// The position that 64 bits in the order x, z, y hold.
pub open spec fn modern_position_of(bits: u64) -> Position {
    Position {
        x: signed_field((bits / 0x40_0000_0000) as int, 0x200_0000) as i32,
        y: signed_field((bits % 0x1000) as int, 0x800) as i32,
        z: signed_field((bits / 0x1000 % 0x400_0000) as int, 0x200_0000) as i32,
    }
}

/// Whether the coordinates fit their fields.
pub open spec fn packable(x: int, y: int, z: int) -> bool {
    &&& -0x200_0000 <= x < 0x200_0000
    &&& -0x800 <= y < 0x800
    &&& -0x200_0000 <= z < 0x200_0000
}

/// The fields of a number packed in the order x, y, z can be taken out again.
proof fn legacy_fields(a: int, b: int, c: int)
    requires
        0 <= a < 0x400_0000,
        0 <= b < 0x1000,
        0 <= c < 0x400_0000,
    ensures
        ({
            let v = a * 0x40_0000_0000 + b * 0x400_0000 + c;
            &&& 0 <= v <= u64::MAX
            &&& v / 0x40_0000_0000 == a
            &&& v / 0x400_0000 % 0x1000 == b
            &&& v % 0x400_0000 == c
        }),
{
    let v = a * 0x40_0000_0000 + b * 0x400_0000 + c;
    assert(v / 0x400_0000 == a * 0x1000 + b);
}

/// The fields of a number packed in the order x, z, y can be taken out again.
proof fn modern_fields(a: int, b: int, c: int)
    requires
        0 <= a < 0x400_0000,
        0 <= b < 0x400_0000,
        0 <= c < 0x1000,
    ensures
        ({
            let v = a * 0x40_0000_0000 + b * 0x1000 + c;
            &&& 0 <= v <= u64::MAX
            &&& v / 0x40_0000_0000 == a
            &&& v / 0x1000 % 0x400_0000 == b
            &&& v % 0x1000 == c
        }),
{
    let v = a * 0x40_0000_0000 + b * 0x1000 + c;
    assert(v / 0x1000 == a * 0x400_0000 + b);
}

/// A coordinate reads back from the low bits of its field exactly if it fits the field.
proof fn field_round_trip(x: int, half: int)
    requires
        half == 0x200_0000 || half == 0x800,
    ensures
        signed_field(x % (2 * half), half) == x <==> -half <= x < half,
{
    if half == 0x800 {
        assert(0 <= x % 0x1000 < 0x1000);
    } else {
        assert(0 <= x % 0x400_0000 < 0x400_0000);
    }
}

/// Packing a position in the order x, y, z and unpacking it gives the position back. It
/// does so for the coordinates that fit their fields, and for no others.
pub proof fn legacy_round_trip(p: Position)
    ensures
        legacy_position_of(legacy_bits(p.x as int, p.y as int, p.z as int)) == p <==> packable(
            p.x as int,
            p.y as int,
            p.z as int,
        ),
{
    legacy_fields(p.x as int % 0x400_0000, p.y as int % 0x1000, p.z as int % 0x400_0000);
    field_round_trip(p.x as int, 0x200_0000);
    field_round_trip(p.y as int, 0x800);
    field_round_trip(p.z as int, 0x200_0000);
}

/// Packing a position in the order x, z, y and unpacking it gives the position back. It
/// does so for the coordinates that fit their fields, and for no others.
pub proof fn modern_round_trip(p: Position)
    ensures
        modern_position_of(modern_bits(p.x as int, p.y as int, p.z as int)) == p <==> packable(
            p.x as int,
            p.y as int,
            p.z as int,
        ),
{
    modern_fields(p.x as int % 0x400_0000, p.z as int % 0x400_0000, p.y as int % 0x1000);
    field_round_trip(p.x as int, 0x200_0000);
    field_round_trip(p.y as int, 0x800);
    field_round_trip(p.z as int, 0x200_0000);
}

/// The low bits of a field's number are the field.
proof fn field_of_signed(bits: int, half: int)
    requires
        half == 0x200_0000 || half == 0x800,
        0 <= bits < 2 * half,
    ensures
        signed_field(bits, half) % (2 * half) == bits,
        -half <= signed_field(bits, half) < half,
{
    if half == 0x800 {
        assert((bits - 0x1000) % 0x1000 == bits);
    } else {
        assert((bits - 0x400_0000) % 0x400_0000 == bits);
    }
}

/// Unpacking 64 bits in the order x, y, z and packing the position gives the bits back.
pub proof fn legacy_repacking(bits: u64)
    ensures
        ({
            let p = legacy_position_of(bits);
            legacy_bits(p.x as int, p.y as int, p.z as int) == bits
        }),
{
    field_of_signed((bits / 0x40_0000_0000) as int, 0x200_0000);
    field_of_signed((bits / 0x400_0000 % 0x1000) as int, 0x800);
    field_of_signed((bits % 0x400_0000) as int, 0x200_0000);
    assert(bits / 0x400_0000 / 0x1000 == bits / 0x40_0000_0000);
}

/// Unpacking 64 bits in the order x, z, y and packing the position gives the bits back.
pub proof fn modern_repacking(bits: u64)
    ensures
        ({
            let p = modern_position_of(bits);
            modern_bits(p.x as int, p.y as int, p.z as int) == bits
        }),
{
    field_of_signed((bits / 0x40_0000_0000) as int, 0x200_0000);
    field_of_signed((bits % 0x1000) as int, 0x800);
    field_of_signed((bits / 0x1000 % 0x400_0000) as int, 0x200_0000);
    assert(bits / 0x1000 / 0x400_0000 == bits / 0x40_0000_0000);
}

/// The low bits of a signed integer are those of its 64-bit pattern.
proof fn low_bits(x: i64)
    ensures
        (x as u64) % 0x400_0000 == x as int % 0x400_0000,
        (x as u64) % 0x1000 == x as int % 0x1000,
{
    assert(x < 0 ==> (x as u64) == x + 0x1_0000_0000_0000_0000) by (bit_vector);
    assert(x >= 0 ==> (x as u64) == x) by (bit_vector);
    let u = (x as u64) as int;
    assert(u == x || u == x + 0x1_0000_0000_0000_0000);
}

/// The bits of the coordinates in the order x, y, z.
pub fn pack_legacy(x: i64, y: i64, z: i64) -> (bits: u64)
    ensures
        bits == legacy_bits(x as int, y as int, z as int),
{
    let (a, b, c): (u64, u64, u64) = (x as u64 % 0x400_0000, y as u64 % 0x1000, z as u64 % 0x400_0000);
    proof {
        low_bits(x);
        low_bits(y);
        low_bits(z);
    }
    a * 0x40_0000_0000 + b * 0x400_0000 + c
}

/// The position packed in the order x, y, z, as it is written up to 1.13.
pub fn encode_legacy_position(p: Position) -> (packed: i64)
    ensures
        packed == legacy_bits(p.x as int, p.y as int, p.z as int) as i64,
{
    pack_legacy(p.x as i64, p.y as i64, p.z as i64) as i64
}

/// The bits of the coordinates in the order x, z, y.
pub fn pack_modern(x: i64, y: i64, z: i64) -> (bits: u64)
    ensures
        bits == modern_bits(x as int, y as int, z as int),
{
    let (a, b, c): (u64, u64, u64) = (x as u64 % 0x400_0000, z as u64 % 0x400_0000, y as u64 % 0x1000);
    proof {
        low_bits(x);
        low_bits(y);
        low_bits(z);
    }
    a * 0x40_0000_0000 + b * 0x1000 + c
}

/// The position packed in the order x, z, y, as it is written from 1.14 on.
pub fn encode_modern_position(p: Position) -> (packed: i64)
    ensures
        packed == modern_bits(p.x as int, p.y as int, p.z as int) as i64,
{
    pack_modern(p.x as i64, p.y as i64, p.z as i64) as i64
}

/// A field's bits as a signed number.
fn sign_extend(bits: u64, half: u64) -> (v: i32)
    requires
        bits < 2 * half,
        half <= 0x200_0000,
    ensures
        v == signed_field(bits as int, half as int),
{
    if bits >= half {
        bits as i32 - (2 * half) as i32
    } else {
        bits as i32
    }
}

/// The position that 64 bits in the order x, y, z hold.
pub fn decode_legacy_position(bits: u64) -> (p: Position)
    ensures
        p == legacy_position_of(bits),
{
    Position {
        x: sign_extend(bits / 0x40_0000_0000, 0x200_0000),
        y: sign_extend(bits / 0x400_0000 % 0x1000, 0x800),
        z: sign_extend(bits % 0x400_0000, 0x200_0000),
    }
}

/// The position that 64 bits in the order x, z, y hold.
pub fn decode_modern_position(bits: u64) -> (p: Position)
    ensures
        p == modern_position_of(bits),
{
    Position {
        x: sign_extend(bits / 0x40_0000_0000, 0x200_0000),
        y: sign_extend(bits % 0x1000, 0x800),
        z: sign_extend(bits / 0x1000 % 0x400_0000, 0x200_0000),
    }
}

/// The bits, in the order x, y, z, of the position that 64 bits in the order x, z, y hold.
pub open spec fn legacy_of_modern(bits: u64) -> u64 {
    let p = modern_position_of(bits);
    legacy_bits(p.x as int, p.y as int, p.z as int)
}

/// Changing the order of the fields keeps the position.
pub proof fn layout_keeps_position(bits: u64)
    ensures
        legacy_position_of(legacy_of_modern(bits)) == modern_position_of(bits),
{
    let p = modern_position_of(bits);
    field_of_signed((bits / 0x40_0000_0000) as int, 0x200_0000);
    field_of_signed((bits % 0x1000) as int, 0x800);
    field_of_signed((bits / 0x1000 % 0x400_0000) as int, 0x200_0000);
    legacy_round_trip(p);
}

/// The bits, in the order x, y, z, of the position that 64 bits in the order x, z, y hold.
pub fn to_legacy_layout(bits: u64) -> (r: u64)
    ensures
        r == legacy_of_modern(bits),
{
    let p = decode_modern_position(bits);
    pack_legacy(p.x as i64, p.y as i64, p.z as i64)
}

impl Position {
    /// A position of the given coordinates.
    pub fn new(x: i32, y: i32, z: i32) -> (p: Self)
        ensures
            p == (Position { x, y, z }),
    {
        Position { x, y, z }
    }
}

impl Reader {
    /// The next position, packed in the order x, z, y, or `None` where eight bytes are not
    /// left.
    pub fn position(&mut self) -> (r: Option<Position>)
        requires
            old(self).valid(),
        ensures
            r is Some <==> old(self).holds(8),
            r matches Some(p) ==> final(self).advanced(*old(self), 8) && p == modern_position_of(
                u64_at(old(self).all(), old(self).at()),
            ),
            r is None ==> *final(self) == *old(self),
    {
        match self.double_bits() {
            Some(bits) => Some(decode_modern_position(bits)),
            None => None,
        }
    }
}

/// In the older order x has the upper 26 bits, y the next 12 and z the lower 26; in the newer
/// order z has the next 26 and y the lower 12.
pub proof fn fields_in_order(x: u64, y: u64, z: u64)
    requires
        x < 0x400_0000,
        y < 0x1000,
        z < 0x400_0000,
    ensures
        legacy_bits(x as int, y as int, z as int) == (x << 38) | (y << 26) | z,
        modern_bits(x as int, y as int, z as int) == (x << 38) | (z << 12) | y,
{
    assert((x << 38) | (y << 26) | z == x * 0x40_0000_0000 + y * 0x400_0000 + z) by (bit_vector)
        requires
            x < 0x400_0000,
            y < 0x1000,
            z < 0x400_0000,
    ;
    assert((x << 38) | (z << 12) | y == x * 0x40_0000_0000 + z * 0x1000 + y) by (bit_vector)
        requires
            x < 0x400_0000,
            y < 0x1000,
            z < 0x400_0000,
    ;
}

} // verus!
