//! Named binary tags, as far as a proxy needs them: where a tag ends.
//!
//! A document is a compound with a name. It is kept as the bytes that it came in.

use crate::converter::safe::Reader;
use crate::wire::{bytes_to_vec, content, i32_at, u16_at};
use bytes::Bytes;
use vstd::prelude::*;

verus! {

/// How deep compounds and lists may be nested.
pub const MAX_DEPTH: u16 = 512;

/// The tag id of a compound.
pub const TAG_COMPOUND: u8 = 10;

/// The bytes of a tag without content that a fixed-size tag id stands for, 0 where the size
/// varies.
pub open spec fn fixed_size(tag: u8) -> int {
    match tag {
        1 => 1,
        2 => 2,
        3 => 4,
        4 => 8,
        5 => 4,
        6 => 8,
        _ => 0,
    }
}

/// The bytes of one element of an array tag, 0 where the tag is no array.
pub open spec fn array_element_size(tag: u8) -> int {
    match tag {
        7 => 1,
        11 => 4,
        12 => 8,
        _ => 0,
    }
}

/// The position behind the payload of a tag that starts at `p`, `None` where it does not
/// read or is nested too deep.
pub open spec fn payload_end(b: Seq<u8>, p: int, tag: u8, depth: nat) -> Option<int>
    decreases depth, 0int, 0int,
{
    if fixed_size(tag) > 0 {
        if p + fixed_size(tag) <= b.len() {
            Some(p + fixed_size(tag))
        } else {
            None
        }
    } else if array_element_size(tag) > 0 {
        if p + 4 > b.len() || i32_at(b, p) < 0 || p + 4 + array_element_size(tag) * i32_at(b, p)
            > b.len() {
            None
        } else {
            Some(p + 4 + array_element_size(tag) * i32_at(b, p))
        }
    } else if tag == 8 {
        if p + 2 > b.len() || p + 2 + u16_at(b, p) > b.len() {
            None
        } else {
            Some(p + 2 + u16_at(b, p))
        }
    } else if depth == 0 {
        None
    } else if tag == 9 {
        if p + 5 > b.len() {
            None
        } else {
            elements_end(b, p + 5, b[p], i32_at(b, p + 1) as int, (depth - 1) as nat)
        }
    } else if tag == TAG_COMPOUND {
        compound_end(b, p, (depth - 1) as nat)
    } else {
        None
    }
}

/// The position behind `n` payloads of one tag from `p` on.
pub open spec fn elements_end(b: Seq<u8>, p: int, tag: u8, n: int, depth: nat) -> Option<int>
    decreases depth, n, 1int,
{
    if n <= 0 {
        Some(p)
    } else {
        match payload_end(b, p, tag, depth) {
            Some(q) => elements_end(b, q, tag, n - 1, depth),
            None => None,
        }
    }
}

/// The position behind the entries of a compound from `p` on, its end tag included.
pub open spec fn compound_end(b: Seq<u8>, p: int, depth: nat) -> Option<int>
    decreases depth, b.len() - p, 1int,
{
    if p < 0 || p >= b.len() {
        None
    } else if b[p] == 0 {
        Some(p + 1)
    } else if p + 3 > b.len() || p + 3 + u16_at(b, p + 1) > b.len() {
        None
    } else {
        match payload_end(b, p + 3 + u16_at(b, p + 1), b[p], depth) {
            Some(q) => if p < q <= b.len() {
                compound_end(b, q, depth)
            } else {
                None
            },
            None => None,
        }
    }
}

/// The position behind a document at `p`: a compound tag, its name and its entries.
pub open spec fn document_end(b: Seq<u8>, p: int) -> Option<int> {
    if p + 3 > b.len() || b[p] != TAG_COMPOUND || p + 3 + u16_at(b, p + 1) > b.len() {
        None
    } else {
        payload_end(b, p + 3 + u16_at(b, p + 1), TAG_COMPOUND, MAX_DEPTH as nat)
    }
}

/// A payload ends inside the sequence, not before its start.
pub proof fn payload_end_bounds(b: Seq<u8>, p: int, tag: u8, depth: nat)
    requires
        0 <= p <= b.len(),
    ensures
        payload_end(b, p, tag, depth) matches Some(q) ==> p <= q <= b.len(),
    decreases depth, 0int, 0int,
{
    if array_element_size(tag) > 0 && p + 4 <= b.len() && i32_at(b, p) >= 0 {
        let (k, n) = (array_element_size(tag), i32_at(b, p) as int);
        assert(k * n >= 0) by (nonlinear_arith)
            requires
                k > 0,
                n >= 0,
        ;
    }
    if depth > 0 && tag == 9 && p + 5 <= b.len() {
        elements_end_bounds(b, p + 5, b[p], i32_at(b, p + 1) as int, (depth - 1) as nat);
    }
    if depth > 0 && tag == TAG_COMPOUND {
        compound_end_bounds(b, p, (depth - 1) as nat);
    }
}

proof fn elements_end_bounds(b: Seq<u8>, p: int, tag: u8, n: int, depth: nat)
    requires
        0 <= p <= b.len(),
    ensures
        elements_end(b, p, tag, n, depth) matches Some(q) ==> p <= q <= b.len(),
    decreases depth, n, 1int,
{
    if n > 0 {
        payload_end_bounds(b, p, tag, depth);
        match payload_end(b, p, tag, depth) {
            Some(q) => elements_end_bounds(b, q, tag, n - 1, depth),
            None => {},
        }
    }
}

proof fn compound_end_bounds(b: Seq<u8>, p: int, depth: nat)
    requires
        0 <= p <= b.len(),
    ensures
        compound_end(b, p, depth) matches Some(q) ==> p < q <= b.len(),
    decreases depth, b.len() - p, 1int,
{
    if p < b.len() && b[p] != 0 && p + 3 <= b.len() && p + 3 + u16_at(b, p + 1) <= b.len() {
        let start = p + 3 + u16_at(b, p + 1);
        payload_end_bounds(b, start, b[p], depth);
        match payload_end(b, start, b[p], depth) {
            Some(q) => if p < q <= b.len() {
                compound_end_bounds(b, q, depth);
            },
            None => {},
        }
    }
}

/// A document ends inside the sequence, behind its start.
pub proof fn document_end_bounds(b: Seq<u8>, p: int)
    requires
        0 <= p <= b.len(),
    ensures
        document_end(b, p) matches Some(q) ==> p + 3 < q <= b.len(),
{
    if p + 3 <= b.len() && b[p] == TAG_COMPOUND && p + 3 + u16_at(b, p + 1) <= b.len() {
        compound_end_bounds(b, p + 3 + u16_at(b, p + 1), (MAX_DEPTH - 1) as nat);
    }
}

/// A document, in the bytes that it came in.
pub struct Nbt {
    pub bytes: Vec<u8>,
}

/// The document of an empty compound without a name.
pub open spec fn empty_document() -> Seq<u8> {
    seq![10u8, 0u8, 0u8, 0u8]
}

/// The document at the start of the bytes, or an empty one where none reads.
pub open spec fn document_or_empty(b: Seq<u8>) -> Seq<u8> {
    match document_end(b, 0) {
        Some(end) => b.take(end),
        None => empty_document(),
    }
}

impl Reader {
    fn nbt_payload(&mut self, tag: u8, depth: u16) -> (done: bool)
        requires
            old(self).valid(),
        ensures
            final(self).valid(),
            final(self).all() == old(self).all(),
            match payload_end(old(self).all(), old(self).at(), tag, depth as nat) {
                Some(q) => done && final(self).at() == q,
                None => !done,
            },
        decreases depth, 0int, 0int,
    {
        let fixed: usize = match tag {
            1 => 1,
            2 => 2,
            3 => 4,
            4 => 8,
            5 => 4,
            6 => 8,
            _ => 0,
        };
        if fixed > 0 {
            if !self.has(fixed) {
                return false;
            }
            let _ = self.get_bytes(fixed);
            return true;
        }
        let element: u64 = match tag {
            7 => 1,
            11 => 4,
            12 => 8,
            _ => 0,
        };
        if element > 0 {
            if !self.has(4) {
                return false;
            }
            let n: i32 = self.get_i32();
            if n < 0 || (self.remaining() as u64) < element * n as u64 {
                return false;
            }
            let _ = self.get_bytes((element * n as u64) as usize);
            return true;
        }
        if tag == 8 {
            if !self.has(2) {
                return false;
            }
            let n: usize = self.get_u16() as usize;
            if !self.has(n) {
                return false;
            }
            let _ = self.get_bytes(n);
            return true;
        }
        if depth == 0 {
            return false;
        }
        if tag == 9 {
            if !self.has(5) {
                return false;
            }
            let inner: u8 = self.get_u8();
            let n: i32 = self.get_i32();
            return self.nbt_elements(inner, n, depth - 1);
        }
        if tag == TAG_COMPOUND {
            return self.nbt_compound(depth - 1);
        }
        false
    }

    fn nbt_elements(&mut self, tag: u8, n: i32, depth: u16) -> (done: bool)
        requires
            old(self).valid(),
        ensures
            final(self).valid(),
            final(self).all() == old(self).all(),
            match elements_end(old(self).all(), old(self).at(), tag, n as int, depth as nat) {
                Some(q) => done && final(self).at() == q,
                None => !done,
            },
        decreases depth, 1int, 0int,
    {
        let ghost (b, p) = (self.all(), self.at());
        let mut left: i32 = n;
        while left > 0
            invariant
                self.valid(),
                self.all() == b,
                b == old(self).all(),
                p == old(self).at(),
                left <= n,
                elements_end(b, p, tag, n as int, depth as nat) == elements_end(
                    b,
                    self.at(),
                    tag,
                    left as int,
                    depth as nat,
                ),
            decreases left,
        {
            if !self.nbt_payload(tag, depth) {
                return false;
            }
            left = left - 1;
        }
        true
    }

    fn nbt_compound(&mut self, depth: u16) -> (done: bool)
        requires
            old(self).valid(),
        ensures
            final(self).valid(),
            final(self).all() == old(self).all(),
            match compound_end(old(self).all(), old(self).at(), depth as nat) {
                Some(q) => done && final(self).at() == q,
                None => !done,
            },
        decreases depth, 1int, 0int,
    {
        let ghost (b, p) = (self.all(), self.at());
        loop
            invariant
                self.valid(),
                self.all() == b,
                b == old(self).all(),
                p == old(self).at(),
                compound_end(b, p, depth as nat) == compound_end(b, self.at(), depth as nat),
            decreases b.len() - self.at(),
        {
            let ghost at = self.at();
            if !self.has(1) {
                return false;
            }
            let tag: u8 = self.get_u8();
            if tag == 0 {
                return true;
            }
            if !self.has(2) {
                return false;
            }
            let n: usize = self.get_u16() as usize;
            if !self.has(n) {
                return false;
            }
            let _ = self.get_bytes(n);
            if !self.nbt_payload(tag, depth) {
                return false;
            }
            proof {
                payload_end_bounds(b, at + 3 + n, tag, depth as nat);
            }
        }
    }

    /// Passes over a document. Where none stands here the reader stays.
    pub fn skip_nbt(&mut self) -> (done: bool)
        requires
            old(self).valid(),
        ensures
            match document_end(old(self).all(), old(self).at()) {
                Some(q) => done && final(self).advanced(*old(self), q - old(self).at()),
                None => !done && *final(self) == *old(self),
            },
    {
        let mut ahead = self.fork();
        if !ahead.has(3) {
            return false;
        }
        let tag: u8 = ahead.get_u8();
        if tag != TAG_COMPOUND {
            return false;
        }
        let n: usize = ahead.get_u16() as usize;
        if !ahead.has(n) {
            return false;
        }
        let _ = ahead.get_bytes(n);
        if ahead.nbt_payload(TAG_COMPOUND, MAX_DEPTH) {
            *self = ahead;
            true
        } else {
            false
        }
    }

    /// The next document, or `None` where none stands here.
    pub fn nbt(&mut self) -> (r: Option<Nbt>)
        requires
            old(self).valid(),
        ensures
            match document_end(old(self).all(), old(self).at()) {
                Some(q) => r is Some && r->0.bytes@ == old(self).all().subrange(old(self).at(), q)
                    && final(self).advanced(*old(self), q - old(self).at()),
                None => r is None && *final(self) == *old(self),
            },
    {
        let mut ahead = self.fork();
        let before: usize = self.remaining();
        proof {
            document_end_bounds(self.all(), self.at());
        }
        if !ahead.skip_nbt() {
            return None;
        }
        let after: usize = ahead.remaining();
        let bytes = self.get_bytes(before - after);
        Some(Nbt { bytes: bytes_to_vec(&bytes) })
    }
}

/// The document at the start of the bytes, or an empty one where none reads.
pub fn nbt_or_empty(data: Bytes) -> (n: Nbt)
    ensures
        n.bytes@ == document_or_empty(content(data)),
{
    let ghost b = content(data);
    let mut r = Reader::new(data);
    proof {
        document_end_bounds(b, 0);
    }
    match r.nbt() {
        Some(n) => {
            assert(n.bytes@ =~= document_or_empty(b));
            n
        },
        None => {
            let bytes: Vec<u8> = vec![10, 0, 0, 0];
            assert(bytes@ =~= empty_document());
            Nbt { bytes }
        },
    }
}

// Laws.

/// How far each kind of tag reaches.
pub proof fn tags_reach(b: Seq<u8>, p: int, depth: nat)
    requires
        0 <= p,
    ensures
        payload_end(b, p, 1, depth) == if p + 1 <= b.len() { Some(p + 1) } else { None },
        payload_end(b, p, 2, depth) == if p + 2 <= b.len() { Some(p + 2) } else { None },
        payload_end(b, p, 3, depth) == if p + 4 <= b.len() { Some(p + 4) } else { None },
        payload_end(b, p, 4, depth) == if p + 8 <= b.len() { Some(p + 8) } else { None },
        payload_end(b, p, 5, depth) == if p + 4 <= b.len() { Some(p + 4) } else { None },
        payload_end(b, p, 6, depth) == if p + 8 <= b.len() { Some(p + 8) } else { None },
        p + 4 <= b.len() && 0 <= i32_at(b, p) ==> {
            &&& payload_end(b, p, 7, depth) == if p + 4 + i32_at(b, p) <= b.len() {
                Some(p + 4 + i32_at(b, p))
            } else {
                None
            }
            &&& payload_end(b, p, 11, depth) == if p + 4 + 4 * i32_at(b, p) <= b.len() {
                Some(p + 4 + 4 * i32_at(b, p))
            } else {
                None
            }
            &&& payload_end(b, p, 12, depth) == if p + 4 + 8 * i32_at(b, p) <= b.len() {
                Some(p + 4 + 8 * i32_at(b, p))
            } else {
                None
            }
        },
        p + 2 <= b.len() && p + 2 + u16_at(b, p) <= b.len() ==> payload_end(b, p, 8, depth) == Some(
            p + 2 + u16_at(b, p),
        ),
        payload_end(b, p, 0, depth) is None,
        payload_end(b, p, 13, depth) is None,
        depth > 0 && p < b.len() && b[p] == 0 ==> payload_end(b, p, 10, depth) == Some(p + 1),
{
}

/// A document starts with the tag of a compound and its name, and an empty one ends behind the
/// end tag.
pub proof fn empty_documents_read(name: Seq<u8>, rest: Seq<u8>)
    requires
        name.len() <= 0xFFFF,
    ensures
        document_end(seq![10u8, (name.len() / 256) as u8, (name.len() % 256) as u8] + name + seq![0u8] + rest, 0)
            == Some(4 + name.len() as int),
{
    let b = seq![10u8, (name.len() / 256) as u8, (name.len() % 256) as u8] + name + seq![0u8] + rest;
    assert(b[0] == 10);
    assert(u16_at(b, 1) == name.len());
    assert(b[3 + name.len() as int] == 0);
    reveal_with_fuel(payload_end, 2);
    reveal_with_fuel(compound_end, 2);
}

} // verus!
