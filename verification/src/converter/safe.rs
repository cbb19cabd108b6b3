//! Reads that never run past the end of a packet.

use crate::converter::outcome::{outcome_of, ConversionResult, Outcome};
use crate::text::{string_at, string_from_utf8, ucs2_at, units_at};
use crate::varint::{
    group_limit, group_limit_of_five, varint_at, varint_at_bounds, varint_groups,
    varint_groups_bounds, MAX_VARINT_BYTES,
};
use crate::wire::{
    bytes_clone, bytes_get_u16, bytes_get_u16_le, bytes_get_u32, bytes_get_u32_le, bytes_get_u64,
    bytes_get_u64_le, bytes_get_u8, bytes_len, bytes_split_to, bytes_to_vec, content, i16_at, i32_at,
    i64_at, i8_at, le16_at, le32_at, le64_at, u16_at, u32_at, u64_at,
};
use bytes::Bytes;
use vstd::prelude::*;

verus! {

/// The byte at `p` and the position behind it, or `d` and `p` where it is not there.
pub open spec fn u8_or(b: Seq<u8>, p: int, d: u8) -> (u8, int) {
    if p + 1 <= b.len() {
        (b[p], p + 1)
    } else {
        (d, p)
    }
}

/// The signed byte at `p` and the position behind it, or `d` and `p` where it is not there.
pub open spec fn i8_or(b: Seq<u8>, p: int, d: i8) -> (i8, int) {
    if p + 1 <= b.len() {
        (i8_at(b, p), p + 1)
    } else {
        (d, p)
    }
}

/// The signed 16-bit integer at `p` and the position behind it, or `d` and `p` where it is not there.
pub open spec fn i16_or(b: Seq<u8>, p: int, d: i16) -> (i16, int) {
    if p + 2 <= b.len() {
        (i16_at(b, p), p + 2)
    } else {
        (d, p)
    }
}

/// The signed 32-bit integer at `p` and the position behind it, or `d` and `p` where it is not there.
pub open spec fn i32_or(b: Seq<u8>, p: int, d: i32) -> (i32, int) {
    if p + 4 <= b.len() {
        (i32_at(b, p), p + 4)
    } else {
        (d, p)
    }
}

/// The 32-bit integer at `p` and the position behind it, or `d` and `p` where it is not there.
pub open spec fn u32_or(b: Seq<u8>, p: int, d: u32) -> (u32, int) {
    if p + 4 <= b.len() {
        (u32_at(b, p), p + 4)
    } else {
        (d, p)
    }
}

/// The 64-bit integer at `p` and the position behind it, or `d` and `p` where it is not there.
pub open spec fn u64_or(b: Seq<u8>, p: int, d: u64) -> (u64, int) {
    if p + 8 <= b.len() {
        (u64_at(b, p), p + 8)
    } else {
        (d, p)
    }
}

/// The variable-length integer at `p` and the position behind it, or `d` and `p` where none
/// stands there.
pub open spec fn varint_or(b: Seq<u8>, p: int, d: i32) -> (i32, int) {
    match varint_at(b, p) {
        Some(found) => found,
        None => (d, p),
    }
}

/// The text at `p` and the position behind it, or no text and `p` where none stands there.
pub open spec fn string_or_empty(b: Seq<u8>, p: int) -> (Seq<char>, int) {
    match string_at(b, p) {
        Some(found) => found,
        None => (seq![], p),
    }
}

/// The text at `p` and the position behind it, or `d` and `p` where none stands there.
pub open spec fn string_or(b: Seq<u8>, p: int, d: Seq<char>) -> (Seq<char>, int) {
    match string_at(b, p) {
        Some(found) => found,
        None => (d, p),
    }
}

/// A read position in a packet.
pub struct Reader {
    buf: Bytes,
    all: Ghost<Seq<u8>>,
    at: Ghost<int>,
}

impl Reader {
    /// The whole packet.
    pub closed spec fn all(&self) -> Seq<u8> {
        self.all@
    }

    /// How many of its bytes have been read.
    pub closed spec fn at(&self) -> int {
        self.at@
    }

    /// What every reader keeps: the buffer holds what has not been read yet.
    pub closed spec fn valid(&self) -> bool {
        &&& 0 <= self.at@ <= self.all@.len() <= usize::MAX
        &&& content(self.buf) == self.all@.skip(self.at@)
    }

    /// This reader is `before`, `n` bytes further on.
    pub open spec fn advanced(&self, before: Self, n: int) -> bool {
        &&& self.valid()
        &&& self.all() == before.all()
        &&& self.at() == before.at() + n
    }

    /// Whether `n` more bytes are there.
    pub open spec fn holds(&self, n: int) -> bool {
        self.at() + n <= self.all().len()
    }

    /// A reader stands within its bytes.
    pub proof fn bounds(&self)
        requires
            self.valid(),
        ensures
            0 <= self.at() <= self.all().len(),
    {
    }

    /// A reader at the start of `buf`.
    pub fn new(buf: Bytes) -> (r: Self)
        ensures
            r.valid(),
            r.all() == content(buf),
            r.at() == 0,
    {
        let n: usize = bytes_len(&buf);
        let ghost s = content(buf);
        assert(s.skip(0) =~= s);
        Reader { buf, all: Ghost(s), at: Ghost(0) }
    }

    /// How many bytes are left.
    pub fn remaining(&self) -> (n: usize)
        requires
            self.valid(),
        ensures
            n == self.all().len() - self.at(),
            self.at() >= 0,
    {
        bytes_len(&self.buf)
    }

    /// Whether `n` bytes are left.
    pub fn has(&self, n: usize) -> (r: bool)
        requires
            self.valid(),
        ensures
            r == self.holds(n as int),
            self.at() >= 0,
    {
        bytes_len(&self.buf) >= n
    }

    /// Takes a byte.
    pub fn get_u8(&mut self) -> (x: u8)
        requires
            old(self).valid(),
            old(self).holds(1),
        ensures
            final(self).advanced(*old(self), 1),
            x == old(self).all()[old(self).at()],
    {
        let ghost (s, p) = (self.all@, self.at@);
        let x: u8 = bytes_get_u8(&mut self.buf);
        self.at = Ghost(p + 1);
        assert(s.skip(p).skip(1) =~= s.skip(p + 1));
        x
    }

    /// Takes a 16-bit integer.
    pub fn get_u16(&mut self) -> (x: u16)
        requires
            old(self).valid(),
            old(self).holds(2),
        ensures
            final(self).advanced(*old(self), 2),
            x == u16_at(old(self).all(), old(self).at()),
    {
        let ghost (s, p) = (self.all@, self.at@);
        let x: u16 = bytes_get_u16(&mut self.buf);
        self.at = Ghost(p + 2);
        assert(s.skip(p).skip(2) =~= s.skip(p + 2));
        x
    }

    /// Takes a 32-bit integer.
    pub fn get_u32(&mut self) -> (x: u32)
        requires
            old(self).valid(),
            old(self).holds(4),
        ensures
            final(self).advanced(*old(self), 4),
            x == u32_at(old(self).all(), old(self).at()),
    {
        let ghost (s, p) = (self.all@, self.at@);
        let x: u32 = bytes_get_u32(&mut self.buf);
        self.at = Ghost(p + 4);
        assert(s.skip(p).skip(4) =~= s.skip(p + 4));
        x
    }

    /// Takes a 64-bit integer.
    pub fn get_u64(&mut self) -> (x: u64)
        requires
            old(self).valid(),
            old(self).holds(8),
        ensures
            final(self).advanced(*old(self), 8),
            x == u64_at(old(self).all(), old(self).at()),
    {
        let ghost (s, p) = (self.all@, self.at@);
        let x: u64 = bytes_get_u64(&mut self.buf);
        self.at = Ghost(p + 8);
        assert(s.skip(p).skip(8) =~= s.skip(p + 8));
        x
    }

    /// Takes a 64-bit integer, least significant byte first.
    pub fn get_u64_le(&mut self) -> (x: u64)
        requires
            old(self).valid(),
            old(self).holds(8),
        ensures
            final(self).advanced(*old(self), 8),
            x == le64_at(old(self).all(), old(self).at()),
    {
        let ghost (s, p) = (self.all@, self.at@);
        let x: u64 = bytes_get_u64_le(&mut self.buf);
        self.at = Ghost(p + 8);
        assert(s.skip(p).skip(8) =~= s.skip(p + 8));
        x
    }

    /// Takes a 32-bit integer, least significant byte first.
    pub fn get_u32_le(&mut self) -> (x: u32)
        requires
            old(self).valid(),
            old(self).holds(4),
        ensures
            final(self).advanced(*old(self), 4),
            x == le32_at(old(self).all(), old(self).at()),
    {
        let ghost (s, p) = (self.all@, self.at@);
        let x: u32 = bytes_get_u32_le(&mut self.buf);
        self.at = Ghost(p + 4);
        assert(s.skip(p).skip(4) =~= s.skip(p + 4));
        x
    }

    /// Takes a 16-bit integer, least significant byte first.
    pub fn get_u16_le(&mut self) -> (x: u16)
        requires
            old(self).valid(),
            old(self).holds(2),
        ensures
            final(self).advanced(*old(self), 2),
            x == le16_at(old(self).all(), old(self).at()),
    {
        let ghost (s, p) = (self.all@, self.at@);
        let x: u16 = bytes_get_u16_le(&mut self.buf);
        self.at = Ghost(p + 2);
        assert(s.skip(p).skip(2) =~= s.skip(p + 2));
        x
    }

    /// Takes a signed byte.
    pub fn get_i8(&mut self) -> (x: i8)
        requires
            old(self).valid(),
            old(self).holds(1),
        ensures
            final(self).advanced(*old(self), 1),
            x == i8_at(old(self).all(), old(self).at()),
    {
        self.get_u8() as i8
    }

    /// Takes a signed 16-bit integer.
    pub fn get_i16(&mut self) -> (x: i16)
        requires
            old(self).valid(),
            old(self).holds(2),
        ensures
            final(self).advanced(*old(self), 2),
            x == i16_at(old(self).all(), old(self).at()),
    {
        self.get_u16() as i16
    }

    /// Takes a signed 32-bit integer.
    pub fn get_i32(&mut self) -> (x: i32)
        requires
            old(self).valid(),
            old(self).holds(4),
        ensures
            final(self).advanced(*old(self), 4),
            x == i32_at(old(self).all(), old(self).at()),
    {
        self.get_u32() as i32
    }

    /// Takes a signed 64-bit integer.
    pub fn get_i64(&mut self) -> (x: i64)
        requires
            old(self).valid(),
            old(self).holds(8),
        ensures
            final(self).advanced(*old(self), 8),
            x == i64_at(old(self).all(), old(self).at()),
    {
        self.get_u64() as i64
    }

    /// Takes `n` bytes as they are.
    pub fn get_bytes(&mut self, n: usize) -> (b: Bytes)
        requires
            old(self).valid(),
            old(self).holds(n as int),
        ensures
            final(self).advanced(*old(self), n as int),
            content(b) == old(self).all().subrange(old(self).at(), old(self).at() + n),
    {
        let ghost (s, p) = (self.all@, self.at@);
        let b = bytes_split_to(&mut self.buf, n);
        self.at = Ghost(p + n);
        assert(s.skip(p).skip(n as int) =~= s.skip(p + n));
        assert(s.skip(p).take(n as int) =~= s.subrange(p, p + n));
        b
    }

    /// A second reader at the same position.
    pub(crate) fn fork(&self) -> (r: Self)
        requires
            self.valid(),
        ensures
            r.advanced(*self, 0),
    {
        Reader { buf: bytes_clone(&self.buf), all: self.all, at: self.at }
    }

    /// The next byte, or `None` at the end.
    pub fn u8(&mut self) -> (r: Option<u8>)
        requires
            old(self).valid(),
        ensures
            r is Some <==> old(self).holds(1),
            r matches Some(x) ==> final(self).advanced(*old(self), 1) && x
                == old(self).all()[old(self).at()],
            r is None ==> *final(self) == *old(self),
    {
        if self.has(1) {
            Some(self.get_u8())
        } else {
            None
        }
    }

    /// The next signed byte, or `None` at the end.
    pub fn i8(&mut self) -> (r: Option<i8>)
        requires
            old(self).valid(),
        ensures
            r is Some <==> old(self).holds(1),
            r matches Some(x) ==> final(self).advanced(*old(self), 1) && x == i8_at(
                old(self).all(),
                old(self).at(),
            ),
            r is None ==> *final(self) == *old(self),
    {
        if self.has(1) {
            Some(self.get_i8())
        } else {
            None
        }
    }

    /// The next 16-bit integer, or `None` where two bytes are not left.
    pub fn u16(&mut self) -> (r: Option<u16>)
        requires
            old(self).valid(),
        ensures
            r is Some <==> old(self).holds(2),
            r matches Some(x) ==> final(self).advanced(*old(self), 2) && x == u16_at(
                old(self).all(),
                old(self).at(),
            ),
            r is None ==> *final(self) == *old(self),
    {
        if self.has(2) {
            Some(self.get_u16())
        } else {
            None
        }
    }

    /// The next signed 16-bit integer, or `None` where two bytes are not left.
    pub fn i16(&mut self) -> (r: Option<i16>)
        requires
            old(self).valid(),
        ensures
            r is Some <==> old(self).holds(2),
            r matches Some(x) ==> final(self).advanced(*old(self), 2) && x == i16_at(
                old(self).all(),
                old(self).at(),
            ),
            r is None ==> *final(self) == *old(self),
    {
        if self.has(2) {
            Some(self.get_i16())
        } else {
            None
        }
    }

    /// The next signed 32-bit integer, or `None` where four bytes are not left.
    pub fn i32(&mut self) -> (r: Option<i32>)
        requires
            old(self).valid(),
        ensures
            r is Some <==> old(self).holds(4),
            r matches Some(x) ==> final(self).advanced(*old(self), 4) && x == i32_at(
                old(self).all(),
                old(self).at(),
            ),
            r is None ==> *final(self) == *old(self),
    {
        if self.has(4) {
            Some(self.get_i32())
        } else {
            None
        }
    }

    /// The next signed 64-bit integer, or `None` where eight bytes are not left.
    pub fn i64(&mut self) -> (r: Option<i64>)
        requires
            old(self).valid(),
        ensures
            r is Some <==> old(self).holds(8),
            r matches Some(x) ==> final(self).advanced(*old(self), 8) && x == i64_at(
                old(self).all(),
                old(self).at(),
            ),
            r is None ==> *final(self) == *old(self),
    {
        if self.has(8) {
            Some(self.get_i64())
        } else {
            None
        }
    }

    /// The bits of the next single-precision number, or `None` where four bytes are not
    /// left.
    pub fn single_bits(&mut self) -> (r: Option<u32>)
        requires
            old(self).valid(),
        ensures
            r is Some <==> old(self).holds(4),
            r matches Some(x) ==> final(self).advanced(*old(self), 4) && x == u32_at(
                old(self).all(),
                old(self).at(),
            ),
            r is None ==> *final(self) == *old(self),
    {
        if self.has(4) {
            Some(self.get_u32())
        } else {
            None
        }
    }

    /// The bits of the next double-precision number, or `None` where eight bytes are not
    /// left.
    pub fn double_bits(&mut self) -> (r: Option<u64>)
        requires
            old(self).valid(),
        ensures
            r is Some <==> old(self).holds(8),
            r matches Some(x) ==> final(self).advanced(*old(self), 8) && x == u64_at(
                old(self).all(),
                old(self).at(),
            ),
            r is None ==> *final(self) == *old(self),
    {
        if self.has(8) {
            Some(self.get_u64())
        } else {
            None
        }
    }

    /// Reads groups of seven bits, `left` at most.
    fn groups(&mut self, left: u8) -> (r: Option<u64>)
        requires
            old(self).valid(),
            left <= 5,
        ensures
            final(self).valid(),
            final(self).all() == old(self).all(),
            match varint_groups(old(self).all(), old(self).at(), left as nat) {
                Some((v, end)) => r == Some(v as u64) && v <= u64::MAX && final(self).at() == end,
                None => r is None,
            },
        decreases left,
    {
        if left == 0 {
            return None;
        }
        if !self.has(1) {
            return None;
        }
        let ghost (s, p) = (self.all(), self.at());
        let byte: u8 = self.get_u8();
        if byte < 0x80 {
            return Some(byte as u64);
        }
        let high: Option<u64> = self.groups(left - 1);
        proof {
            varint_groups_bounds(s, p + 1, (left - 1) as nat);
            reveal_with_fuel(group_limit, 5);
        }
        match high {
            Some(v) => Some((byte - 0x80) as u64 + 0x80 * v),
            None => None,
        }
    }

    /// The next variable-length integer, or `None` where none stands here.
    pub fn varint(&mut self) -> (r: Option<i32>)
        requires
            old(self).valid(),
        ensures
            match varint_at(old(self).all(), old(self).at()) {
                Some((x, end)) => r == Some(x) && final(self).advanced(
                    *old(self),
                    end - old(self).at(),
                ),
                None => r is None && *final(self) == *old(self),
            },
    {
        let mut ahead = self.fork();
        proof {
            varint_groups_bounds(self.all(), self.at(), MAX_VARINT_BYTES as nat);
            group_limit_of_five();
        }
        match ahead.groups(5) {
            Some(v) => {
                *self = ahead;
                Some((v % 0x1_0000_0000) as u32 as i32)
            },
            None => None,
        }
    }

    /// The next text, or `None` where none stands here.
    pub fn string(&mut self) -> (r: Option<String>)
        requires
            old(self).valid(),
        ensures
            match string_at(old(self).all(), old(self).at()) {
                Some((s, end)) => r is Some && r->0@ == s && final(self).advanced(
                    *old(self),
                    end - old(self).at(),
                ),
                None => r is None && *final(self) == *old(self),
            },
    {
        let mut ahead = self.fork();
        proof {
            varint_at_bounds(self.all(), self.at());
        }
        match ahead.varint() {
            Some(n) => {
                if n < 0 || !ahead.has(n as usize) {
                    return None;
                }
                let bytes = ahead.get_bytes(n as usize);
                match string_from_utf8(bytes_to_vec(&bytes)) {
                    Some(s) => {
                        *self = ahead;
                        Some(s)
                    },
                    None => None,
                }
            },
            None => None,
        }
    }

    /// The UTF-16 units of the next older text, or `None` where none stands here.
    pub fn ucs2_units(&mut self) -> (r: Option<Vec<u16>>)
        requires
            old(self).valid(),
        ensures
            match ucs2_at(old(self).all(), old(self).at()) {
                Some((u, end)) => r is Some && r->0@ == u && final(self).advanced(
                    *old(self),
                    end - old(self).at(),
                ),
                None => r is None && *final(self) == *old(self),
            },
    {
        if !self.has(2) {
            return None;
        }
        let ghost (s, p) = (self.all(), self.at());
        let mut ahead = self.fork();
        let n: usize = ahead.get_u16() as usize;
        if !ahead.has(n * 2) {
            return None;
        }
        let mut units: Vec<u16> = Vec::new();
        let mut i: usize = 0;
        while i < n
            invariant
                i <= n,
                n <= u16::MAX,
                ahead.valid(),
                ahead.all() == s,
                ahead.at() == p + 2 + 2 * i,
                p + 2 + 2 * n <= s.len(),
                units@ == units_at(s, p + 2, i as nat),
            decreases n - i,
        {
            let u: u16 = ahead.get_u16();
            units.push(u);
            i = i + 1;
            assert(units@ =~= units_at(s, p + 2, i as nat));
        }
        *self = ahead;
        Some(units)
    }

    /// The next `n` bytes, or `None` where fewer are left.
    pub fn take(&mut self, n: usize) -> (r: Option<Bytes>)
        requires
            old(self).valid(),
        ensures
            r is Some <==> old(self).holds(n as int),
            r matches Some(b) ==> final(self).advanced(*old(self), n as int) && content(b)
                == old(self).all().subrange(old(self).at(), old(self).at() + n),
            r is None ==> *final(self) == *old(self),
    {
        if self.has(n) {
            Some(self.get_bytes(n))
        } else {
            None
        }
    }

    /// All that is left.
    pub fn rest(&mut self) -> (b: Bytes)
        requires
            old(self).valid(),
        ensures
            content(b) == old(self).all().skip(old(self).at()),
            final(self).valid(),
            final(self).all() == old(self).all(),
            final(self).at() == old(self).all().len(),
    {
        let n: usize = self.remaining();
        let b = self.get_bytes(n);
        assert(content(b) =~= old(self).all().skip(old(self).at()));
        b
    }

    /// The next byte, or `d` where it is not there.
    pub fn u8_or(&mut self, d: u8) -> (x: u8)
        requires
            old(self).valid(),
        ensures
            final(self).valid(),
            final(self).all() == old(self).all(),
            (x, final(self).at()) == u8_or(old(self).all(), old(self).at(), d),
    {
        if self.has(1) {
            self.get_u8()
        } else {
            d
        }
    }

    /// The next signed byte, or `d` where it is not there.
    pub fn i8_or(&mut self, d: i8) -> (x: i8)
        requires
            old(self).valid(),
        ensures
            final(self).valid(),
            final(self).all() == old(self).all(),
            (x, final(self).at()) == i8_or(old(self).all(), old(self).at(), d),
    {
        if self.has(1) {
            self.get_i8()
        } else {
            d
        }
    }

    /// The next signed 16-bit integer, or `d` where it is not there.
    pub fn i16_or(&mut self, d: i16) -> (x: i16)
        requires
            old(self).valid(),
        ensures
            final(self).valid(),
            final(self).all() == old(self).all(),
            (x, final(self).at()) == i16_or(old(self).all(), old(self).at(), d),
    {
        if self.has(2) {
            self.get_i16()
        } else {
            d
        }
    }

    /// The next signed 32-bit integer, or `d` where it is not there.
    pub fn i32_or(&mut self, d: i32) -> (x: i32)
        requires
            old(self).valid(),
        ensures
            final(self).valid(),
            final(self).all() == old(self).all(),
            (x, final(self).at()) == i32_or(old(self).all(), old(self).at(), d),
    {
        if self.has(4) {
            self.get_i32()
        } else {
            d
        }
    }

    /// The next 32-bit integer, or `d` where it is not there.
    pub fn u32_or(&mut self, d: u32) -> (x: u32)
        requires
            old(self).valid(),
        ensures
            final(self).valid(),
            final(self).all() == old(self).all(),
            (x, final(self).at()) == u32_or(old(self).all(), old(self).at(), d),
    {
        if self.has(4) {
            self.get_u32()
        } else {
            d
        }
    }

    /// The next 64-bit integer, or `d` where it is not there.
    pub fn u64_or(&mut self, d: u64) -> (x: u64)
        requires
            old(self).valid(),
        ensures
            final(self).valid(),
            final(self).all() == old(self).all(),
            (x, final(self).at()) == u64_or(old(self).all(), old(self).at(), d),
    {
        if self.has(8) {
            self.get_u64()
        } else {
            d
        }
    }

    /// The next variable-length integer, or `d` where none stands here.
    pub fn varint_or(&mut self, d: i32) -> (x: i32)
        requires
            old(self).valid(),
        ensures
            final(self).valid(),
            final(self).all() == old(self).all(),
            (x, final(self).at()) == varint_or(old(self).all(), old(self).at(), d),
    {
        match self.varint() {
            Some(x) => x,
            None => d,
        }
    }

    /// The next text, or no text where none stands here.
    pub fn string_or_empty(&mut self) -> (s: String)
        requires
            old(self).valid(),
        ensures
            final(self).valid(),
            final(self).all() == old(self).all(),
            (s@, final(self).at()) == string_or_empty(old(self).all(), old(self).at()),
    {
        match self.string() {
            Some(s) => s,
            None => String::new(),
        }
    }

    /// The next text, or `d` where none stands here.
    pub fn string_or(&mut self, d: &str) -> (s: String)
        requires
            old(self).valid(),
        ensures
            final(self).valid(),
            final(self).all() == old(self).all(),
            (s@, final(self).at()) == string_or(old(self).all(), old(self).at(), d@),
    {
        match self.string() {
            Some(s) => s,
            None => String::from_str(d),
        }
    }
}

/// What an attempt at a conversion comes to: a packet that ended before what is read of it is
/// dropped.
pub open spec fn guarded(attempt: Option<Outcome>) -> Outcome {
    match attempt {
        Some(o) => o,
        None => Outcome::Drop,
    }
}

/// The result of an attempt at the named conversion. Where the packet ended before what is
/// read of it, it is dropped.
pub fn guard(_what: &str, attempt: Option<ConversionResult>) -> (r: ConversionResult)
    ensures
        r@ == guarded(outcome_of(attempt)),
{
    match attempt {
        Some(r) => r,
        None => ConversionResult::Drop,
    }
}

} // verus!
