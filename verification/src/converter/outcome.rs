//! What becomes of a packet that is handed to a converter.

use crate::converter::safe::Reader;
use crate::varint::{varint, varint_at};
use crate::wire::{bytes_to_vec, content};
use crate::writer::{empty_then, Writer};
use bytes::Bytes;
use vstd::prelude::*;

verus! {

/// What becomes of a packet.
pub enum ConversionResult {
    /// It is forwarded as it came.
    Passthrough,
    /// These packets go on in its place.
    Converted(Vec<Bytes>),
    /// Nothing goes on.
    Drop,
    /// Nothing goes on, and these packets go back toward the client. This is for
    /// transitions that the other side does not know, such as the end of a
    /// configuration phase that the backend does not have.
    InjectS2C(Vec<Bytes>),
}

/// A conversion's result with the packets as byte sequences.
#[verifier::ext_equal]
pub enum Outcome {
    Passthrough,
    Converted(Seq<Seq<u8>>),
    Drop,
    InjectS2C(Seq<Seq<u8>>),
}

/// The contents of buffers.
pub open spec fn contents(v: Seq<Bytes>) -> Seq<Seq<u8>> {
    Seq::new(v.len(), |i: int| content(v[i]))
}

impl View for ConversionResult {
    type V = Outcome;

    open spec fn view(&self) -> Outcome {
        match self {
            ConversionResult::Passthrough => Outcome::Passthrough,
            ConversionResult::Converted(v) => Outcome::Converted(contents(v@)),
            ConversionResult::Drop => Outcome::Drop,
            ConversionResult::InjectS2C(v) => Outcome::InjectS2C(contents(v@)),
        }
    }
}

/// The view of a result that may be missing.
pub open spec fn outcome_of(r: Option<ConversionResult>) -> Option<Outcome> {
    match r {
        Some(r) => Some(r@),
        None => None,
    }
}

/// A packet: its id as a variable-length integer, then its body.
pub open spec fn packet(id: u8, body: Seq<u8>) -> Seq<u8> {
    varint(id as i32) + body
}

/// One packet that goes on in place of the one that came.
pub open spec fn converted(id: u8, body: Seq<u8>) -> Outcome {
    Outcome::Converted(seq![packet(id, body)])
}

/// The id and the body of a packet. The id keeps its low eight bits.
pub open spec fn split(p: Seq<u8>) -> Option<(u8, Seq<u8>)> {
    match varint_at(p, 0) {
        Some((id, end)) => Some((id as u8, p.skip(end))),
        None => None,
    }
}

/// Splitting a packet that was put together gives its id and its body back.
pub proof fn split_of_packet(id: u8, body: Seq<u8>)
    ensures
        split(packet(id, body)) == Some((id, body)),
{
    crate::varint::varint_round_trip(id as i32, Seq::empty(), body);
    assert(Seq::<u8>::empty() + varint(id as i32) + body =~= packet(id, body));
    assert(packet(id, body).skip(varint(id as i32).len() as int) =~= body);
    assert((id as i32) as u8 == id) by (bit_vector);
}

/// A packet of the given id and body.
pub fn build_payload(id: u8, body: &[u8]) -> (b: Bytes)
    ensures
        content(b) == packet(id, body@),
{
    broadcast use empty_then;

    let mut w = Writer::new();
    w.varint(id as i32);
    w.raw(body);
    w.freeze()
}

/// The id and the body of a packet, or `None` where it does not start with an id.
pub fn split_id(payload: Bytes) -> (r: Option<(u8, Bytes)>)
    ensures
        match split(content(payload)) {
            Some((id, body)) => r matches Some(t) && t.0 == id && content(t.1) == body,
            None => r is None,
        },
{
    let mut r = Reader::new(payload);
    match r.varint() {
        Some(id) => Some((id as u8, r.rest())),
        None => None,
    }
}

/// One packet in place of the one that came.
pub fn emit(id: u8, body: Writer) -> (r: ConversionResult)
    ensures
        r@ == converted(id, body@),
{
    let bytes = body.freeze();
    let whole = build_payload(id, bytes_to_vec(&bytes).as_slice());
    let mut v: Vec<Bytes> = Vec::new();
    v.push(whole);
    let r = ConversionResult::Converted(v);
    assert(contents(v@) =~= seq![packet(id, body@)]);
    r
}

/// The body of the packet that came under another id.
pub fn rebuild_with_id(id: u8, body: &Bytes) -> (r: ConversionResult)
    ensures
        r@ == converted(id, content(*body)),
{
    let whole = build_payload(id, bytes_to_vec(body).as_slice());
    let mut v: Vec<Bytes> = Vec::new();
    v.push(whole);
    let r = ConversionResult::Converted(v);
    assert(contents(v@) =~= seq![packet(id, content(*body))]);
    r
}

/// Bytes in front of others that may be missing.
pub open spec fn in_front(done: Seq<u8>, rest: Option<Seq<u8>>) -> Option<Seq<u8>> {
    match rest {
        Some(rest) => Some(done + rest),
        None => None,
    }
}

} // verus!
