//! The packets of a login that are put together or taken apart here.

use crate::connection::error::{ConnectionError, Failure};
use crate::converter::safe::Reader;
use crate::text::{string_at, string_round_trip, ucs2_string, wire_string};
use crate::varint::{varint, varint_at, varint_at_bounds, varint_round_trip};
use crate::version::{nearest, nearest_version, CanonicalVersion, Epoch};
use crate::wire::{be16, be_i32, bytes_to_vec, content, u16_at, u16_there};
use crate::writer::{empty_then, Writer};
use bytes::Bytes;
use vstd::prelude::*;
use vstd::utf8::encode_utf8;

verus! {

/// How a client before 1.7 is disconnected.
pub open spec fn legacy_kick_of(reason: Seq<char>) -> Seq<u8> {
    seq![0xFFu8] + ucs2_string(reason)
}

/// How a client before 1.7 is disconnected.
pub fn legacy_kick(reason: &str) -> (b: Bytes)
    ensures
        content(b) == legacy_kick_of(reason@),
{
    broadcast use empty_then;

    let mut w = Writer::new();
    w.u8(0xFF);
    w.ucs2(reason);
    w.freeze()
}

/// The login of a 1.6 client, by which it is both let in and put into a world: a flat one, as
/// a spectator, with room for twenty.
pub open spec fn legacy_login_of() -> Seq<u8> {
    seq![0x01u8] + be_i32(0) + ucs2_string("flat"@) + seq![3u8, 0, 0, 0, 20]
}

/// The login of a 1.6 client.
pub fn legacy_login() -> (b: Bytes)
    ensures
        content(b) == legacy_login_of(),
{
    broadcast use empty_then;

    let mut w = Writer::new();
    w.u8(0x01);
    w.i32(0);
    w.ucs2("flat");
    w.u8(3);
    w.u8(0);
    w.u8(0);
    w.u8(0);
    w.u8(20);
    assert(w@ =~= legacy_login_of());
    w.freeze()
}

/// Whether a protocol is spoken without length, number and compression of packets.
pub fn is_pre_netty_proto(protocol: u32) -> (r: bool)
    ensures
        r == (nearest_version(protocol).spec_canonical() == CanonicalVersion::V1_6_4),
{
    match nearest(protocol).canonical_typed_packet_version() {
        CanonicalVersion::V1_6_4 => true,
        _ => false,
    }
}

/// Whether a protocol knows compression, which came with 1.8.
pub open spec fn knows_compression(protocol: u32) -> bool {
    let epoch = nearest_version(protocol).spec_epoch();
    epoch != Epoch::PreNetty && epoch != Epoch::V1_7
}

/// Whether a protocol knows compression, which came with 1.8.
pub fn takes_compression(protocol: u32) -> (r: bool)
    ensures
        r == knows_compression(protocol),
{
    match nearest(protocol).epoch() {
        Epoch::PreNetty | Epoch::V1_7 => false,
        _ => true,
    }
}

/// The number that marks a packet that a protocol lacks.
pub const NO_PACKET: u32 = 0xFF;

/// A packet of a number and a body.
pub fn raw_packet(id: u32, body: &[u8]) -> (b: Bytes)
    ensures
        content(b) == varint(id as i32) + body@,
{
    broadcast use empty_then;

    let mut w = Writer::new();
    w.varint(id as i32);
    w.raw(body);
    w.freeze()
}

/// A packet of a number and a body, or nothing where the protocol lacks it.
pub fn typed_packet(id: u32, body: &[u8]) -> (r: Option<Bytes>)
    ensures
        match r {
            Some(b) => id != NO_PACKET && content(b) == varint(id as i32) + body@,
            None => id == NO_PACKET,
        },
{
    if id == NO_PACKET {
        None
    } else {
        Some(raw_packet(id, body))
    }
}

/// The bytes at `p` behind their length as 16 bits, and the position behind them. The outer
/// `None` stands for a length that runs past the end.
pub open spec fn short_bytes_at(b: Seq<u8>, p: int) -> Option<(Seq<u8>, int)> {
    let n = u16_at(b, p) as int;
    if n < 0x8000 && p + 2 + n <= b.len() {
        Some((b.subrange(p + 2, p + 2 + n), p + 2 + n))
    } else {
        None
    }
}

/// The answer to an encryption request: two byte strings behind the packet's number. An
/// outer `None` stands for a length that runs past the end.
pub open spec fn encryption_response_of(b: Seq<u8>, short: bool) -> Option<Result<(Seq<u8>, Seq<u8>), Failure>> {
    match varint_at(b, 0) {
        None => Some(Err(Failure::Protocol)),
        Some((_, p)) => if short {
            if p + 2 > b.len() {
                Some(Err(Failure::Protocol))
            } else {
                match short_bytes_at(b, p) {
                    None => None,
                    Some((secret, q)) => if q + 2 > b.len() {
                        Some(Err(Failure::Protocol))
                    } else {
                        match short_bytes_at(b, q) {
                            None => None,
                            Some((token, _)) => Some(Ok((secret, token))),
                        }
                    },
                }
            }
        } else {
            match varint_at(b, p) {
                None => Some(Err(Failure::Protocol)),
                Some((n, q)) => if n < 0 || q + n > b.len() {
                    None
                } else {
                    match varint_at(b, q + n) {
                        None => Some(Err(Failure::Protocol)),
                        Some((m, r)) => if m < 0 || r + m > b.len() {
                            None
                        } else {
                            Some(Ok((b.subrange(q, q + n), b.subrange(r, r + m))))
                        },
                    }
                },
            }
        },
    }
}

/// Whether a protocol writes the lengths of an encryption exchange as 16 bits: 1.7 does.
pub open spec fn short_lengths(protocol: u32) -> bool {
    nearest_version(protocol).spec_epoch() == Epoch::V1_7
}

/// The views of two byte strings.
pub open spec fn pair_view(p: (Vec<u8>, Vec<u8>)) -> (Seq<u8>, Seq<u8>) {
    (p.0@, p.1@)
}

/// Whether an attempt to read two byte strings is the one that is due.
pub open spec fn reads_as(
    r: Option<Result<(Vec<u8>, Vec<u8>), ConnectionError>>,
    due: Option<Result<(Seq<u8>, Seq<u8>), Failure>>,
) -> bool {
    match due {
        None => r is None,
        Some(Ok(pair)) => r matches Some(Ok(got)) && pair_view(got) == pair,
        Some(Err(e)) => r matches Some(Err(got)) && got@ == e,
    }
}

/// Takes apart the answer to an encryption request. `None` stands for a length that runs
/// past the end.
pub fn read_encryption_response(payload: Bytes, protocol: u32) -> (r: Option<
    Result<(Vec<u8>, Vec<u8>), ConnectionError>,
>)
    ensures
        reads_as(r, encryption_response_of(content(payload), short_lengths(protocol))),
{
    let ghost b = content(payload);
    let short: bool = match nearest(protocol).epoch() {
        Epoch::V1_7 => true,
        _ => false,
    };
    let mut reader = Reader::new(payload);
    proof {
        varint_at_bounds(b, 0);
    }
    if reader.varint().is_none() {
        return Some(Err(ConnectionError::Protocol));
    }
    if short {
        if !reader.has(2) {
            return Some(Err(ConnectionError::Protocol));
        }
        let secret: Vec<u8> = match read_short_bytes(&mut reader) {
            Some(secret) => secret,
            None => {
                return None;
            },
        };
        if !reader.has(2) {
            return Some(Err(ConnectionError::Protocol));
        }
        match read_short_bytes(&mut reader) {
            Some(token) => Some(Ok((secret, token))),
            None => None,
        }
    } else {
        proof {
            varint_at_bounds(b, reader.at());
        }
        let n: i32 = match reader.varint() {
            Some(n) => n,
            None => {
                return Some(Err(ConnectionError::Protocol));
            },
        };
        if n < 0 || !reader.has(n as usize) {
            return None;
        }
        let secret = reader.get_bytes(n as usize);
        proof {
            varint_at_bounds(b, reader.at());
        }
        let m: i32 = match reader.varint() {
            Some(m) => m,
            None => {
                return Some(Err(ConnectionError::Protocol));
            },
        };
        if m < 0 || !reader.has(m as usize) {
            return None;
        }
        let token = reader.get_bytes(m as usize);
        Some(Ok((bytes_to_vec(&secret), bytes_to_vec(&token))))
    }
}

/// Reads bytes behind their length as 16 bits.
fn read_short_bytes(reader: &mut Reader) -> (r: Option<Vec<u8>>)
    requires
        old(reader).valid(),
        old(reader).holds(2),
    ensures
        match short_bytes_at(old(reader).all(), old(reader).at()) {
            Some((bytes, end)) => r matches Some(v) && v@ == bytes && final(reader).advanced(
                *old(reader),
                end - old(reader).at(),
            ),
            None => r is None,
        },
{
    proof {
        reader.bounds();
    }
    let n: u16 = reader.get_u16();
    if n >= 0x8000 || !reader.has(n as usize) {
        return None;
    }
    let b = reader.get_bytes(n as usize);
    Some(bytes_to_vec(&b))
}

/// A request to encrypt.
#[derive(Debug, PartialEq, Eq)]
pub struct EncryptionRequest {
    pub server_id: String,
    pub public_key: Vec<u8>,
    pub verify_token: Vec<u8>,
}

/// The view of an `EncryptionRequest`.
#[verifier::ext_equal]
pub struct RequestView {
    pub server_id: Seq<char>,
    pub public_key: Seq<u8>,
    pub verify_token: Seq<u8>,
}

impl View for EncryptionRequest {
    type V = RequestView;

    open spec fn view(&self) -> RequestView {
        RequestView {
            server_id: self.server_id@,
            public_key: self.public_key@,
            verify_token: self.verify_token@,
        }
    }
}

/// The two byte strings of a request with lengths of 16 bits, from `p` on. A first length of
/// one or two below zero has no meaning, for which an outer `None` stands.
pub open spec fn short_request_at(b: Seq<u8>, p: int) -> Option<Result<(Seq<u8>, Seq<u8>), Failure>> {
    let n = u16_at(b, p) as int;
    if p + 2 > b.len() {
        Some(Err(Failure::Protocol))
    } else if n >= 0xFFFE {
        None
    } else if n >= 0x8000 || p + 2 + n + 2 > b.len() {
        Some(Err(Failure::Protocol))
    } else {
        match short_bytes_at(b, p + 2 + n) {
            Some((token, _)) => Some(Ok((b.subrange(p + 2, p + 2 + n), token))),
            None => Some(Err(Failure::Protocol)),
        }
    }
}

/// The bytes at `p` behind their length, and the position behind them.
pub open spec fn long_bytes_at(b: Seq<u8>, p: int) -> Option<(Seq<u8>, int)> {
    match varint_at(b, p) {
        Some((n, q)) if 0 <= n && q + n <= b.len() => Some((b.subrange(q, q + n), q + n)),
        _ => None,
    }
}

/// The two byte strings of a request with lengths of variable size, from `p` on.
pub open spec fn long_request_at(b: Seq<u8>, p: int) -> Result<(Seq<u8>, Seq<u8>), Failure> {
    match long_bytes_at(b, p) {
        None => Err(Failure::Protocol),
        Some((key, q)) => match long_bytes_at(b, q) {
            None => Err(Failure::Protocol),
            Some((token, _)) => Ok((key, token)),
        },
    }
}

/// The request that a packet's body holds: an id, then two byte strings, whose lengths 1.7
/// writes as 16 bits.
pub open spec fn request_of(epoch: Epoch, b: Seq<u8>) -> Option<Result<RequestView, Failure>> {
    match string_at(b, 0) {
        None => Some(Err(Failure::Protocol)),
        Some((server_id, p)) => {
            let pair = if epoch == Epoch::V1_7 {
                short_request_at(b, p)
            } else {
                Some(long_request_at(b, p))
            };
            match pair {
                None => None,
                Some(Err(e)) => Some(Err(e)),
                Some(Ok((public_key, verify_token))) => Some(
                    Ok(RequestView { server_id, public_key, verify_token }),
                ),
            }
        },
    }
}

/// The body of a packet that holds a request.
pub open spec fn request_bytes(epoch: Epoch, r: RequestView) -> Seq<u8> {
    if epoch == Epoch::V1_7 {
        wire_string(r.server_id) + be16(r.public_key.len() as u16) + r.public_key + be16(
            r.verify_token.len() as u16,
        ) + r.verify_token
    } else {
        wire_string(r.server_id) + varint(r.public_key.len() as i32) + r.public_key + varint(
            r.verify_token.len() as i32,
        ) + r.verify_token
    }
}

/// Reads bytes behind their length.
fn read_long_bytes(reader: &mut Reader) -> (r: Option<Vec<u8>>)
    requires
        old(reader).valid(),
    ensures
        match long_bytes_at(old(reader).all(), old(reader).at()) {
            Some((bytes, end)) => r matches Some(v) && v@ == bytes && final(reader).advanced(
                *old(reader),
                end - old(reader).at(),
            ),
            None => r is None,
        },
{
    proof {
        reader.bounds();
        varint_at_bounds(reader.all(), reader.at());
    }
    match reader.varint() {
        Some(n) => {
            if n < 0 || !reader.has(n as usize) {
                return None;
            }
            let b = reader.get_bytes(n as usize);
            Some(bytes_to_vec(&b))
        },
        None => None,
    }
}

/// Takes a request apart that stands in a packet's body, as an epoch writes it. `None` stands
/// for a length that has no meaning.
pub fn decode_encryption_request(epoch: Epoch, body: Bytes) -> (r: Option<
    Result<EncryptionRequest, ConnectionError>,
>)
    ensures
        match request_of(epoch, content(body)) {
            None => r is None,
            Some(Ok(request)) => r matches Some(Ok(got)) && got@ == request,
            Some(Err(e)) => r matches Some(Err(got)) && got@ == e,
        },
{
    let mut reader = Reader::new(body);
    let server_id: String = match reader.string() {
        Some(server_id) => server_id,
        None => {
            return Some(Err(ConnectionError::Protocol));
        },
    };
    proof {
        reader.bounds();
    }
    let short: bool = match epoch {
        Epoch::V1_7 => true,
        _ => false,
    };
    if short {
        if !reader.has(2) {
            return Some(Err(ConnectionError::Protocol));
        }
        let n: u16 = reader.get_u16();
        if n >= 0xFFFE {
            return None;
        }
        if n >= 0x8000 || !reader.has(n as usize + 2) {
            return Some(Err(ConnectionError::Protocol));
        }
        let public_key = reader.get_bytes(n as usize);
        match read_short_bytes(&mut reader) {
            Some(verify_token) => Some(
                Ok(EncryptionRequest { server_id, public_key: bytes_to_vec(&public_key), verify_token }),
            ),
            None => Some(Err(ConnectionError::Protocol)),
        }
    } else {
        match read_long_bytes(&mut reader) {
            None => Some(Err(ConnectionError::Protocol)),
            Some(public_key) => match read_long_bytes(&mut reader) {
                None => Some(Err(ConnectionError::Protocol)),
                Some(verify_token) => Some(Ok(EncryptionRequest { server_id, public_key, verify_token })),
            },
        }
    }
}

/// Appends a request as an epoch writes it.
pub fn encode_encryption_request(epoch: Epoch, request: &EncryptionRequest, out: &mut Writer)
    ensures
        final(out)@ == old(out)@ + request_bytes(epoch, request@),
{
    let ghost before = out@;
    out.string(request.server_id.as_str());
    match epoch {
        Epoch::V1_7 => {
            out.u16(request.public_key.len() as u16);
            out.raw(request.public_key.as_slice());
            out.u16(request.verify_token.len() as u16);
            out.raw(request.verify_token.as_slice());
        },
        _ => {
            out.varint(request.public_key.len() as i32);
            out.raw(request.public_key.as_slice());
            out.varint(request.verify_token.len() as i32);
            out.raw(request.verify_token.as_slice());
        },
    }
    assert(out@ =~= before + request_bytes(epoch, request@));
}

/// A request that was written by an epoch's rules reads back by them. Byte strings that are
/// too long for their lengths are left out, and so is an id.
pub proof fn request_round_trip(epoch: Epoch, r: RequestView)
    requires
        encode_utf8(r.server_id).len() <= i32::MAX,
        epoch == Epoch::V1_7 ==> r.public_key.len() < 0x8000 && r.verify_token.len() < 0x8000,
        r.public_key.len() <= i32::MAX,
        r.verify_token.len() <= i32::MAX,
    ensures
        request_of(epoch, request_bytes(epoch, r)) == Some(Ok::<RequestView, Failure>(r)),
{
    let id = wire_string(r.server_id);
    if epoch == Epoch::V1_7 {
        let (n, m) = (be16(r.public_key.len() as u16), be16(r.verify_token.len() as u16));
        string_round_trip(r.server_id, Seq::empty(), n + r.public_key + m + r.verify_token);
        in_any_grouping(id, n, r.public_key, m, r.verify_token);
        short_request_round_trip(id, n, r.public_key, m, r.verify_token);
    } else {
        let (n, m) = (varint(r.public_key.len() as i32), varint(r.verify_token.len() as i32));
        string_round_trip(r.server_id, Seq::empty(), n + r.public_key + m + r.verify_token);
        in_any_grouping(id, n, r.public_key, m, r.verify_token);
        long_request_round_trip(id, r.public_key, r.verify_token);
    }
}

/// Five sequences in a row are the same row however they are grouped.
proof fn in_any_grouping(a: Seq<u8>, b: Seq<u8>, c: Seq<u8>, d: Seq<u8>, e: Seq<u8>)
    ensures
        Seq::<u8>::empty() + a + (b + c + d + e) == a + b + c + d + e,
        a + b + c + (d + e) == a + b + c + d + e,
        a + b + c + d + e + Seq::<u8>::empty() == a + b + c + d + e,
{
    assert(Seq::<u8>::empty() + a + (b + c + d + e) =~= a + b + c + d + e);
    assert(a + b + c + (d + e) =~= a + b + c + d + e);
    assert(a + b + c + d + e + Seq::<u8>::empty() =~= a + b + c + d + e);
}

/// Two byte strings with lengths of 16 bits read back.
#[verifier::spinoff_prover]
proof fn short_request_round_trip(id: Seq<u8>, n: Seq<u8>, key: Seq<u8>, m: Seq<u8>, token: Seq<u8>)
    requires
        key.len() < 0x8000,
        token.len() < 0x8000,
        n == be16(key.len() as u16),
        m == be16(token.len() as u16),
    ensures
        short_request_at(id + n + key + m + token, id.len() as int) == Some(
            Ok::<(Seq<u8>, Seq<u8>), Failure>((key, token)),
        ),
{
    assert(n.len() == 2 && m.len() == 2);
    parts_of_row(id, n, key, m, token);
    let b = id + n + key + m + token;
    short_request_from_parts(b, id.len() as int, key, token);
}

/// The parts of a row of sequences stand behind one another.
proof fn parts_of_row(a: Seq<u8>, b: Seq<u8>, c: Seq<u8>, d: Seq<u8>, e: Seq<u8>)
    ensures
        ({
            let row = a + b + c + d + e;
            let (p, q) = ((a.len() + b.len()) as int, (a.len() + b.len() + c.len()) as int);
            let (r, s) = (q + d.len(), q + d.len() + e.len());
            &&& row.len() == s
            &&& row.subrange(a.len() as int, p) == b
            &&& row.subrange(p, q) == c
            &&& row.subrange(q, r) == d
            &&& row.subrange(r, s) == e
        }),
{
    let row = a + b + c + d + e;
    let (p, q) = ((a.len() + b.len()) as int, (a.len() + b.len() + c.len()) as int);
    let (r, s) = (q + d.len(), q + d.len() + e.len());
    assert(row.subrange(a.len() as int, p) =~= b);
    assert(row.subrange(p, q) =~= c);
    assert(row.subrange(q, r) =~= d);
    assert(row.subrange(r, s) =~= e);
}

/// Two byte strings behind their lengths of 16 bits make up a request.
proof fn short_request_from_parts(b: Seq<u8>, p: int, key: Seq<u8>, token: Seq<u8>)
    requires
        0 <= p,
        key.len() < 0x8000,
        token.len() < 0x8000,
        b.len() == p + 4 + key.len() + token.len(),
        b.subrange(p, p + 2) == be16(key.len() as u16),
        b.subrange(p + 2, p + 2 + key.len()) == key,
        b.subrange(p + 2 + key.len(), p + 4 + key.len()) == be16(token.len() as u16),
        b.subrange(p + 4 + key.len(), p + 4 + key.len() + token.len()) == token,
    ensures
        short_request_at(b, p) == Some(Ok::<(Seq<u8>, Seq<u8>), Failure>((key, token))),
{
    u16_there(b, p, key.len() as u16);
    u16_there(b, p + 2 + key.len(), token.len() as u16);
}

/// Two byte strings with lengths of variable size read back.
proof fn long_request_round_trip(id: Seq<u8>, key: Seq<u8>, token: Seq<u8>)
    requires
        key.len() <= i32::MAX,
        token.len() <= i32::MAX,
    ensures
        long_request_at(
            id + varint(key.len() as i32) + key + varint(token.len() as i32) + token,
            id.len() as int,
        ) == Ok::<(Seq<u8>, Seq<u8>), Failure>((key, token)),
{
    let (n, m) = (varint(key.len() as i32), varint(token.len() as i32));
    in_any_grouping(id, n, key, m, token);
    long_bytes_round_trip(id, key, m + token);
    long_bytes_round_trip(id + n + key, token, Seq::empty());
}

/// Bytes behind their length read back.
proof fn long_bytes_round_trip(pre: Seq<u8>, bytes: Seq<u8>, rest: Seq<u8>)
    requires
        bytes.len() <= i32::MAX,
    ensures
        long_bytes_at(pre + varint(bytes.len() as i32) + bytes + rest, pre.len() as int) == Some(
            (bytes, (pre.len() + varint(bytes.len() as i32).len() + bytes.len()) as int),
        ),
{
    let n = varint(bytes.len() as i32);
    let b = pre + n + bytes + rest;
    varint_round_trip(bytes.len() as i32, pre, bytes + rest);
    assert(pre + n + (bytes + rest) =~= b);
    let q = (pre.len() + n.len()) as int;
    assert(b.subrange(q, q + bytes.len()) =~= bytes);
}

} // verus!
