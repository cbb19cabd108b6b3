//! The body of a packet while it is written.

use crate::varint::{varint, varint_bytes};
use crate::wire::{
    be16, be32, be64, be_i16, be_i32, be_i64, be_i8, bytes_mut_extend, bytes_mut_freeze,
    bytes_mut_new, bytes_mut_put_u16, bytes_mut_put_u16_le, bytes_mut_put_u32, bytes_mut_put_u32_le,
    bytes_mut_put_u64, bytes_mut_put_u64_le, bytes_mut_put_u8, content, le16, le32, le64, written,
};
use bytes::{Bytes, BytesMut};
use vstd::prelude::*;

verus! {

/// Nothing followed by `s` is `s`.
pub broadcast proof fn empty_then(s: Seq<u8>)
    ensures
        #[trigger] (Seq::<u8>::empty() + s) == s,
{
    assert(Seq::<u8>::empty() + s =~= s);
}

/// A buffer to which fields are appended. Its view is what has been written.
pub struct Writer {
    buf: BytesMut,
}

impl View for Writer {
    type V = Seq<u8>;

    closed spec fn view(&self) -> Seq<u8> {
        written(self.buf)
    }
}

impl Writer {
    /// A writer that holds nothing.
    pub fn new() -> (w: Self)
        ensures
            w@ == Seq::<u8>::empty(),
    {
        Writer { buf: bytes_mut_new() }
    }

    /// Appends a byte.
    pub fn u8(&mut self, x: u8)
        ensures
            final(self)@ == old(self)@ + seq![x],
    {
        bytes_mut_put_u8(&mut self.buf, x);
    }

    /// Appends a signed byte.
    pub fn i8(&mut self, x: i8)
        ensures
            final(self)@ == old(self)@ + be_i8(x),
    {
        bytes_mut_put_u8(&mut self.buf, x as u8);
    }

    /// Appends a 16-bit integer.
    pub fn u16(&mut self, x: u16)
        ensures
            final(self)@ == old(self)@ + be16(x),
    {
        bytes_mut_put_u16(&mut self.buf, x);
    }

    /// Appends a signed 16-bit integer.
    pub fn i16(&mut self, x: i16)
        ensures
            final(self)@ == old(self)@ + be_i16(x),
    {
        bytes_mut_put_u16(&mut self.buf, x as u16);
    }

    /// Appends a 32-bit integer.
    pub fn u32(&mut self, x: u32)
        ensures
            final(self)@ == old(self)@ + be32(x),
    {
        bytes_mut_put_u32(&mut self.buf, x);
    }

    /// Appends a signed 32-bit integer.
    pub fn i32(&mut self, x: i32)
        ensures
            final(self)@ == old(self)@ + be_i32(x),
    {
        bytes_mut_put_u32(&mut self.buf, x as u32);
    }

    /// Appends a 64-bit integer.
    pub fn u64(&mut self, x: u64)
        ensures
            final(self)@ == old(self)@ + be64(x),
    {
        bytes_mut_put_u64(&mut self.buf, x);
    }

    /// Appends a signed 64-bit integer.
    pub fn i64(&mut self, x: i64)
        ensures
            final(self)@ == old(self)@ + be_i64(x),
    {
        bytes_mut_put_u64(&mut self.buf, x as u64);
    }

    /// Appends a 16-bit integer, least significant byte first.
    pub fn u16_le(&mut self, x: u16)
        ensures
            final(self)@ == old(self)@ + le16(x),
    {
        bytes_mut_put_u16_le(&mut self.buf, x);
    }

    /// Appends a 32-bit integer, least significant byte first.
    pub fn u32_le(&mut self, x: u32)
        ensures
            final(self)@ == old(self)@ + le32(x),
    {
        bytes_mut_put_u32_le(&mut self.buf, x);
    }

    /// Appends a 64-bit integer, least significant byte first.
    pub fn u64_le(&mut self, x: u64)
        ensures
            final(self)@ == old(self)@ + le64(x),
    {
        bytes_mut_put_u64_le(&mut self.buf, x);
    }

    /// Appends bytes as they are.
    pub fn raw(&mut self, s: &[u8])
        ensures
            final(self)@ == old(self)@ + s@,
    {
        bytes_mut_extend(&mut self.buf, s);
    }

    /// Appends a variable-length integer.
    pub fn varint(&mut self, x: i32)
        ensures
            final(self)@ == old(self)@ + varint(x),
    {
        let mut rest: u32 = x as u32;
        while rest >= 0x80
            invariant
                self@ + varint_bytes(rest as nat) == old(self)@ + varint(x),
            decreases rest,
        {
            let ghost before = self@;
            let ghost whole = rest as nat;
            bytes_mut_put_u8(&mut self.buf, (rest % 0x80 + 0x80) as u8);
            rest = rest / 0x80;
            assert(before + varint_bytes(whole) =~= self@ + varint_bytes(rest as nat));
        }
        bytes_mut_put_u8(&mut self.buf, rest as u8);
    }

    /// The bytes written, as a buffer that is only read.
    pub fn freeze(self) -> (b: Bytes)
        ensures
            content(b) == self@,
    {
        bytes_mut_freeze(self.buf)
    }
}

} // verus!
