//! The packets by which a client introduces itself.

use crate::connection::error::{ConnectionError, ConnectionState, Failure};
use crate::converter::safe::Reader;
use crate::text::{string_at, string_from_utf16, ucs2_at, utf16_lossy, valid_utf16};
use crate::varint::varint_at;
use crate::wire::{content, i32_at, u16_at, u64_at};
use bytes::Bytes;
use vstd::prelude::*;

verus! {

/// A handshake: the protocol that the client speaks, the address that it asked for, and what
/// it wants next.
#[derive(Debug, PartialEq, Eq)]
pub struct Handshake {
    pub protocol: u32,
    pub address: String,
    pub port: u16,
    pub next_state: i32,
}

/// The view of a `Handshake`.
#[verifier::ext_equal]
pub struct HandshakeView {
    pub protocol: u32,
    pub address: Seq<char>,
    pub port: u16,
    pub next_state: i32,
}

impl View for Handshake {
    type V = HandshakeView;

    open spec fn view(&self) -> HandshakeView {
        HandshakeView {
            protocol: self.protocol,
            address: self.address@,
            port: self.port,
            next_state: self.next_state,
        }
    }
}

/// The handshake in a packet: behind the packet's number stand the protocol, the address,
/// the port and the next state.
pub open spec fn handshake_of(b: Seq<u8>) -> Option<HandshakeView> {
    match varint_at(b, 0) {
        None => None,
        Some((_, p)) => match varint_at(b, p) {
            None => None,
            Some((protocol, q)) => match string_at(b, q) {
                None => None,
                Some((address, r)) => if r + 2 > b.len() {
                    None
                } else {
                    match varint_at(b, r + 2) {
                        None => None,
                        Some((next_state, _)) => Some(
                            HandshakeView {
                                protocol: protocol as u32,
                                address,
                                port: u16_at(b, r),
                                next_state,
                            },
                        ),
                    }
                },
            },
        },
    }
}

/// Reads a handshake.
pub fn read_handshake(packet: Bytes) -> (r: Result<Handshake, ConnectionError>)
    ensures
        match handshake_of(content(packet)) {
            Some(h) => r matches Ok(got) && got@ == h,
            None => r matches Err(e) && e@ == Failure::Protocol,
        },
{
    let mut reader = Reader::new(packet);
    if reader.varint().is_none() {
        return Err(ConnectionError::Protocol);
    }
    let protocol: i32 = match reader.varint() {
        Some(protocol) => protocol,
        None => {
            return Err(ConnectionError::Protocol);
        },
    };
    let address: String = match reader.string() {
        Some(address) => address,
        None => {
            return Err(ConnectionError::Protocol);
        },
    };
    let port: u16 = match reader.u16() {
        Some(port) => port,
        None => {
            return Err(ConnectionError::Protocol);
        },
    };
    let next_state: i32 = match reader.varint() {
        Some(next_state) => next_state,
        None => {
            return Err(ConnectionError::Protocol);
        },
    };
    Ok(Handshake { protocol: protocol as u32, address, port, next_state })
}

/// The phase that a handshake leads to, and that the connection closes on any other wish.
pub fn next_phase(next_state: i32) -> (r: Result<ConnectionState, ConnectionError>)
    ensures
        match r {
            Ok(state) => (next_state == 1 && state == ConnectionState::Status) || (next_state == 2 && state
                == ConnectionState::Login),
            Err(e) => next_state != 1 && next_state != 2 && e@ == Failure::Closed,
        },
{
    if next_state == 1 {
        Ok(ConnectionState::Status)
    } else if next_state == 2 {
        Ok(ConnectionState::Login)
    } else {
        Err(ConnectionError::Closed)
    }
}

/// The login of a 1.6 client.
#[derive(Debug, PartialEq, Eq)]
pub struct LegacyHandshake {
    pub protocol: u8,
    pub username: String,
    pub host: String,
    pub port: i32,
}

/// The login of a 1.6 client, behind the byte that it starts with: the protocol, name and
/// host as older texts, and the port.
pub open spec fn legacy_handshake_of(b: Seq<u8>) -> Option<(u8, Seq<char>, Seq<char>, i32)> {
    if b.len() < 1 {
        None
    } else {
        match ucs2_at(b, 1) {
            None => None,
            Some((name, p)) => match ucs2_at(b, p) {
                None => None,
                Some((host, q)) => if q + 4 <= b.len() && valid_utf16(name) && valid_utf16(host) {
                    Some((b[0], utf16_lossy(name), utf16_lossy(host), i32_at(b, q)))
                } else {
                    None
                },
            },
        }
    }
}

/// Reads the login of a 1.6 client.
pub fn read_legacy_handshake(body: Bytes) -> (r: Option<LegacyHandshake>)
    ensures
        match legacy_handshake_of(content(body)) {
            Some((protocol, username, host, port)) => r matches Some(h) && {
                &&& h.protocol == protocol
                &&& h.username@ == username
                &&& h.host@ == host
                &&& h.port == port
            },
            None => r is None,
        },
{
    let mut reader = Reader::new(body);
    let protocol: u8 = match reader.u8() {
        Some(protocol) => protocol,
        None => {
            return None;
        },
    };
    let name: Vec<u16> = match reader.ucs2_units() {
        Some(name) => name,
        None => {
            return None;
        },
    };
    let host: Vec<u16> = match reader.ucs2_units() {
        Some(host) => host,
        None => {
            return None;
        },
    };
    let port: i32 = match reader.i32() {
        Some(port) => port,
        None => {
            return None;
        },
    };
    match (string_from_utf16(name.as_slice()), string_from_utf16(host.as_slice())) {
        (Some(username), Some(host)) => Some(LegacyHandshake { protocol, username, host, port }),
        _ => None,
    }
}

/// The first protocol whose login names the player's id, behind a flag.
pub const LOGIN_ID_FROM: u32 = 761;

/// The first protocol whose login always names the player's id.
pub const LOGIN_ID_ALWAYS_FROM: u32 = 764;

/// The start of a login.
#[derive(Debug, PartialEq, Eq)]
pub struct LoginStart {
    pub username: String,
    pub uuid: Option<(u64, u64)>,
}

/// The id that stands at `p`.
pub open spec fn login_id_at(b: Seq<u8>, p: int) -> Result<Option<(u64, u64)>, Failure> {
    if p + 16 <= b.len() {
        Ok(Some((u64_at(b, p), u64_at(b, p + 8))))
    } else {
        Err(Failure::Auth("failed to decode client UUID"@))
    }
}

/// The id that a login of a protocol names behind its player's name, which ends at `p`.
pub open spec fn login_id_of(b: Seq<u8>, p: int, protocol: u32) -> Result<Option<(u64, u64)>, Failure> {
    if protocol < LOGIN_ID_FROM {
        Ok(None)
    } else if protocol >= LOGIN_ID_ALWAYS_FROM {
        login_id_at(b, p)
    } else if p < b.len() && b[p] != 0 {
        login_id_at(b, p + 1)
    } else {
        Ok(None)
    }
}

/// The name and the id in the start of a login.
pub open spec fn login_start_of(b: Seq<u8>, protocol: u32) -> Result<(Seq<char>, Option<(u64, u64)>), Failure> {
    match varint_at(b, 0) {
        None => Err(Failure::Protocol),
        Some((_, p)) => match string_at(b, p) {
            None => Err(Failure::Protocol),
            Some((name, q)) => match login_id_of(b, q, protocol) {
                Err(e) => Err(e),
                Ok(id) => Ok((name, id)),
            },
        },
    }
}

/// Reads the id that stands next.
fn read_login_id(reader: &mut Reader) -> (r: Result<Option<(u64, u64)>, ConnectionError>)
    requires
        old(reader).valid(),
    ensures
        match login_id_at(old(reader).all(), old(reader).at()) {
            Ok(id) => r matches Ok(got) && got == id,
            Err(e) => r matches Err(got) && got@ == e,
        },
{
    proof {
        reader.bounds();
    }
    if reader.has(16) {
        let high: u64 = reader.get_u64();
        let low: u64 = reader.get_u64();
        Ok(Some((high, low)))
    } else {
        Err(ConnectionError::Auth(String::from_str("failed to decode client UUID")))
    }
}

/// Reads the start of a login.
pub fn read_login_start(packet: Bytes, protocol: u32) -> (r: Result<LoginStart, ConnectionError>)
    ensures
        match login_start_of(content(packet), protocol) {
            Ok((name, id)) => r matches Ok(start) && start.username@ == name && start.uuid == id,
            Err(e) => r matches Err(got) && got@ == e,
        },
{
    let mut reader = Reader::new(packet);
    if reader.varint().is_none() {
        return Err(ConnectionError::Protocol);
    }
    let username: String = match reader.string() {
        Some(username) => username,
        None => {
            return Err(ConnectionError::Protocol);
        },
    };
    if protocol < LOGIN_ID_FROM {
        return Ok(LoginStart { username, uuid: None });
    }
    if protocol < LOGIN_ID_ALWAYS_FROM {
        let named: bool = match reader.u8() {
            Some(flag) => flag != 0,
            None => false,
        };
        if !named {
            return Ok(LoginStart { username, uuid: None });
        }
    }
    match read_login_id(&mut reader) {
        Ok(uuid) => Ok(LoginStart { username, uuid }),
        Err(e) => Err(e),
    }
}

} // verus!
