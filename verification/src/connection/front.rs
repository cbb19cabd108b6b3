//! The front door: from the first byte of a connection to the phase that its client asks for.

use crate::connection::error::{ConnectionError, ConnectionState, Failure};
use crate::connection::hello::{handshake_of, next_phase, read_handshake};
use crate::connection::opening::{
    bedrock_farewell, bedrock_reply, looks_like_bedrock, opening, opening_of, raknet_magic, Opening,
};
use crate::wire::content;
use bytes::Bytes;
use vstd::prelude::*;

verus! {

/// What came of the last action. Nothing stands for a socket that failed or took too long.
pub enum FrontEvent {
    /// The first byte.
    FirstByte(Option<u8>),
    /// The sixteen bytes behind it.
    Probe(Option<Vec<u8>>),
    /// The first packet.
    Packet(Option<Bytes>),
}

/// What is to be done.
pub enum FrontAction {
    /// The ping of a client before 1.7 is answered.
    AnswerLegacyPing,
    /// Sixteen more bytes are read.
    Probe,
    /// The login of a 1.6 client goes on.
    LegacyLogin,
    /// The first byte goes back to the stream, and the first packet is read.
    ReadHandshake(u8),
    /// A Bedrock client gets its answer, and the connection closes.
    RefuseBedrock(Bytes),
    /// The server list is shown.
    Status,
    /// The login goes on, for a client that asked for this address.
    Login(String),
    /// The connection ends.
    Fail(ConnectionError),
}

/// The view of a `FrontEvent`.
#[verifier::ext_equal]
pub enum Came {
    FirstByte(Option<u8>),
    Probe(Option<Seq<u8>>),
    Packet(Option<Seq<u8>>),
}

/// The view of a `FrontAction`.
#[verifier::ext_equal]
pub enum Due {
    AnswerLegacyPing,
    Probe,
    LegacyLogin,
    ReadHandshake(u8),
    RefuseBedrock(Seq<u8>),
    Status,
    Login(Seq<char>),
    Fail(Failure),
}

impl View for FrontEvent {
    type V = Came;

    open spec fn view(&self) -> Came {
        match *self {
            FrontEvent::FirstByte(byte) => Came::FirstByte(byte),
            FrontEvent::Probe(Some(probe)) => Came::Probe(Some(probe@)),
            FrontEvent::Probe(None) => Came::Probe(None),
            FrontEvent::Packet(Some(packet)) => Came::Packet(Some(content(packet))),
            FrontEvent::Packet(None) => Came::Packet(None),
        }
    }
}

impl View for FrontAction {
    type V = Due;

    open spec fn view(&self) -> Due {
        match *self {
            FrontAction::AnswerLegacyPing => Due::AnswerLegacyPing,
            FrontAction::Probe => Due::Probe,
            FrontAction::LegacyLogin => Due::LegacyLogin,
            FrontAction::ReadHandshake(byte) => Due::ReadHandshake(byte),
            FrontAction::RefuseBedrock(reply) => Due::RefuseBedrock(content(reply)),
            FrontAction::Status => Due::Status,
            FrontAction::Login(address) => Due::Login(address@),
            FrontAction::Fail(e) => Due::Fail(e@),
        }
    }
}

/// What is known of a connection at the front door: the protocol, zero before the handshake,
/// and the phase.
#[derive(Clone, Copy, Debug, PartialEq, Eq)]
pub struct Front {
    pub protocol: u32,
    pub state: ConnectionState,
}

/// The connection after an event, and what is to be done.
pub open spec fn entered(f: Front, came: Came) -> (Front, Due) {
    match came {
        Came::FirstByte(None) | Came::Packet(None) => (f, Due::Fail(Failure::Io)),
        Came::FirstByte(Some(byte)) => (
            f,
            match opening_of(byte) {
                Opening::LegacyPing => Due::AnswerLegacyPing,
                Opening::MaybeBedrock => Due::Probe,
                Opening::LegacyLogin => Due::LegacyLogin,
                Opening::Handshake => Due::ReadHandshake(byte),
            },
        ),
        Came::Probe(probe) => (
            f,
            if probe == Some(raknet_magic()) {
                Due::RefuseBedrock(bedrock_farewell())
            } else {
                Due::ReadHandshake(0x05)
            },
        ),
        Came::Packet(Some(packet)) => match handshake_of(packet) {
            None => (f, Due::Fail(Failure::Protocol)),
            Some(h) => if h.next_state == 1 {
                (Front { protocol: h.protocol, state: ConnectionState::Status }, Due::Status)
            } else if h.next_state == 2 {
                (Front { protocol: h.protocol, state: ConnectionState::Login }, Due::Login(h.address))
            } else {
                (Front { protocol: h.protocol, ..f }, Due::Fail(Failure::Closed))
            },
        },
    }
}

impl Front {
    /// A connection that has just been accepted.
    pub fn new() -> (f: Self)
        ensures
            f == (Front { protocol: 0, state: ConnectionState::Handshaking }),
    {
        Front { protocol: 0, state: ConnectionState::Handshaking }
    }

    fn greet(&mut self, packet: Bytes) -> (action: FrontAction)
        ensures
            (*final(self), action@) == entered(*old(self), Came::Packet(Some(content(packet)))),
    {
        match read_handshake(packet) {
            Err(e) => FrontAction::Fail(e),
            Ok(h) => {
                self.protocol = h.protocol;
                match next_phase(h.next_state) {
                    Ok(ConnectionState::Status) => {
                        self.state = ConnectionState::Status;
                        FrontAction::Status
                    },
                    Ok(_) => {
                        self.state = ConnectionState::Login;
                        FrontAction::Login(h.address)
                    },
                    Err(e) => FrontAction::Fail(e),
                }
            },
        }
    }

    /// Takes up an event.
    pub fn step(&mut self, event: FrontEvent) -> (action: FrontAction)
        ensures
            (*final(self), action@) == entered(*old(self), event@),
    {
        match event {
            FrontEvent::FirstByte(None) => FrontAction::Fail(ConnectionError::Io),
            FrontEvent::FirstByte(Some(byte)) => match opening(byte) {
                Opening::LegacyPing => FrontAction::AnswerLegacyPing,
                Opening::MaybeBedrock => FrontAction::Probe,
                Opening::LegacyLogin => FrontAction::LegacyLogin,
                Opening::Handshake => FrontAction::ReadHandshake(byte),
            },
            FrontEvent::Probe(probe) => if looks_like_bedrock(probe.as_ref()) {
                FrontAction::RefuseBedrock(bedrock_reply())
            } else {
                FrontAction::ReadHandshake(0x05)
            },
            FrontEvent::Packet(None) => FrontAction::Fail(ConnectionError::Io),
            FrontEvent::Packet(Some(packet)) => self.greet(packet),
        }
    }
}

/// The byte that was read too early always goes back before a handshake is read.
pub proof fn first_byte_goes_back(f: Front, byte: u8, probe: Option<Seq<u8>>)
    ensures
        entered(f, Came::FirstByte(Some(byte))).1 matches Due::ReadHandshake(back) ==> back == byte,
        entered(f, Came::FirstByte(Some(byte))).1 is Probe ==> (entered(f, Came::Probe(probe)).1 matches Due::ReadHandshake(
            back,
        ) ==> back == byte),
{
}

/// A connection leaves the first phase only by a handshake.
pub proof fn only_a_handshake_opens(f: Front, came: Came)
    ensures
        entered(f, came).0.state != f.state ==> came is Packet,
        entered(f, came).0.protocol != f.protocol ==> came is Packet,
{
}

} // verus!
