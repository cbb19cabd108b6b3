//! The login at a backend server: each packet that the server sends, and what comes of it.

use crate::connection::error::{ConnectionError, Failure};
use crate::connection::frames::{
    decode_encryption_request, encode_encryption_request, request_bytes, request_of,
};
use crate::converter::outcome::split;
use crate::converter::safe::Reader;
use crate::text::{string_at, wire_string};
use crate::varint::{varint, varint_at, varint_at_bounds};
use crate::version::{nearest, nearest_version, Epoch};
use crate::wire::{bytes_clone, bytes_to_vec, content};
use crate::writer::{empty_then, Writer};
use bytes::Bytes;
use vstd::prelude::*;

verus! {

/// The numbers of the login packets: those that the server sends, the answer to its questions,
/// and the request to encrypt as the client knows it.
#[derive(Clone, Copy, Debug, PartialEq, Eq)]
pub struct LoginIds {
    pub encryption_request: u8,
    pub set_compression: u8,
    pub login_success: u8,
    pub login_plugin: u8,
    pub login_disconnect: u8,
    pub plugin_response: u8,
    pub client_encryption_request: u8,
}

/// The login so far.
#[derive(Clone, Copy, Debug, PartialEq, Eq)]
pub struct BackendLogin {
    pub ids: LoginIds,
    pub backend_protocol: u32,
    pub client_protocol: u32,
    /// Whether the server is to ask who the player is.
    pub velocity: bool,
    /// Whether there is a secret to sign the answer with.
    pub has_secret: bool,
    /// The size from which packets to the server are compressed.
    pub threshold: i32,
}

/// What comes of a packet of the server.
pub enum BackendStep {
    /// The next packet is awaited.
    Continue,
    /// A packet goes to the client.
    ToClient(Bytes),
    /// The login is complete.
    Complete,
    /// A question is answered: with who the player is, signed, or with nothing.
    Answer { message_id: i32, signed: bool },
    /// A question goes to the client, whose next packet is the answer.
    AskClient { message_id: i32, request: Bytes },
    /// The login has failed.
    Failed(ConnectionError),
}

/// The view of a `BackendStep`.
#[verifier::ext_equal]
pub enum Step {
    Continue,
    ToClient(Seq<u8>),
    Complete,
    Answer { message_id: i32, signed: bool },
    AskClient { message_id: i32, request: Seq<u8> },
    Failed(Failure),
}

impl View for BackendStep {
    type V = Step;

    open spec fn view(&self) -> Step {
        match self {
            BackendStep::Continue => Step::Continue,
            BackendStep::ToClient(b) => Step::ToClient(content(*b)),
            BackendStep::Complete => Step::Complete,
            BackendStep::Answer { message_id, signed } => Step::Answer { message_id: *message_id, signed: *signed },
            BackendStep::AskClient { message_id, request } => Step::AskClient {
                message_id: *message_id,
                request: content(*request),
            },
            BackendStep::Failed(e) => Step::Failed(e@),
        }
    }
}

/// The epoch of a protocol.
pub open spec fn epoch_of(protocol: u32) -> Epoch {
    nearest_version(protocol).spec_epoch()
}

/// Whether a request to encrypt has to be written anew for the client: the two sides are of
/// different epochs, or know it by different numbers.
pub open spec fn rewrites_request(l: BackendLogin) -> bool {
    epoch_of(l.backend_protocol) != epoch_of(l.client_protocol) || (l.backend_protocol != l.client_protocol
        && l.ids.encryption_request != l.ids.client_encryption_request)
}

/// The question of a server: its number, its channel, and what it holds.
pub open spec fn question_of(body: Seq<u8>) -> Option<(i32, Seq<char>, Seq<u8>)> {
    match varint_at(body, 0) {
        None => None,
        Some((message_id, p)) => match string_at(body, p) {
            None => None,
            Some((channel, q)) => Some((message_id, channel, body.skip(q))),
        },
    }
}

/// The packet that hands a question on to the client.
pub open spec fn question_bytes(id: u8, message_id: i32, channel: Seq<char>, rest: Seq<u8>) -> Seq<u8> {
    varint(id as i32) + varint(message_id) + wire_string(channel) + rest
}

/// What comes of a question. `fml3` says whether its channel is one by which Forge sets itself
/// up with the client.
pub open spec fn asked(l: BackendLogin, body: Seq<u8>, fml3: bool) -> Step {
    match question_of(body) {
        None => Step::Failed(Failure::Protocol),
        Some((message_id, channel, rest)) => if channel == "velocity:player_info"@ && l.velocity {
            Step::Answer { message_id, signed: l.has_secret }
        } else if fml3 {
            Step::AskClient { message_id, request: question_bytes(l.ids.login_plugin, message_id, channel, rest) }
        } else {
            Step::Answer { message_id, signed: false }
        },
    }
}

/// The login after a packet of the server, and what comes of it. A packet of no known number
/// is passed over. `None` stands for a request to encrypt whose length has no meaning.
pub open spec fn logged_in(l: BackendLogin, packet: Seq<u8>, fml3: bool) -> Option<(BackendLogin, Step)> {
    match split(packet) {
        None => Some((l, Step::Failed(Failure::Protocol))),
        Some((id, body)) => if id == l.ids.encryption_request && rewrites_request(l) {
            match request_of(epoch_of(l.backend_protocol), body) {
                None => None,
                Some(Err(e)) => Some((l, Step::Failed(e))),
                Some(Ok(request)) => Some(
                    (
                        l,
                        Step::ToClient(
                            varint(l.ids.client_encryption_request as i32) + request_bytes(
                                epoch_of(l.client_protocol),
                                request,
                            ),
                        ),
                    ),
                ),
            }
        } else if id == l.ids.set_compression {
            match varint_at(body, 0) {
                None => Some((l, Step::Failed(Failure::Protocol))),
                Some((threshold, _)) => Some((BackendLogin { threshold, ..l }, Step::Continue)),
            }
        } else if id == l.ids.login_success {
            Some((l, Step::Complete))
        } else if id == l.ids.login_plugin {
            Some((l, asked(l, body, fml3)))
        } else if id == l.ids.login_disconnect {
            Some((l, Step::Failed(Failure::Closed)))
        } else {
            Some((l, Step::Continue))
        },
    }
}

/// The channel of a question, for which the mod loaders' rules are asked.
pub fn question_channel(packet: &Bytes, ids: &LoginIds) -> (r: Option<String>)
    ensures
        match split(content(*packet)) {
            Some((id, body)) if id == ids.login_plugin => match question_of(body) {
                Some((_, channel, _)) => r matches Some(got) && got@ == channel,
                None => r is None,
            },
            _ => r is None,
        },
{
    match crate::converter::outcome::split_id(bytes_clone(packet)) {
        Some((id, body)) => {
            if id != ids.login_plugin {
                return None;
            }
            let mut reader = Reader::new(body);
            if reader.varint().is_none() {
                return None;
            }
            reader.string()
        },
        None => None,
    }
}

impl BackendLogin {
    fn hand_on_request(&self, body: Bytes) -> (r: Option<BackendStep>)
        ensures
            match request_of(epoch_of(self.backend_protocol), content(body)) {
                None => r is None,
                Some(Err(e)) => r matches Some(step) && step@ == Step::Failed(e),
                Some(Ok(request)) => r matches Some(step) && step@ == Step::ToClient(
                    varint(self.ids.client_encryption_request as i32) + request_bytes(
                        epoch_of(self.client_protocol),
                        request,
                    ),
                ),
            },
    {
        broadcast use empty_then;

        match decode_encryption_request(nearest(self.backend_protocol).epoch(), body) {
            None => None,
            Some(Err(e)) => Some(BackendStep::Failed(e)),
            Some(Ok(request)) => {
                let mut w = Writer::new();
                w.varint(self.ids.client_encryption_request as i32);
                encode_encryption_request(nearest(self.client_protocol).epoch(), &request, &mut w);
                Some(BackendStep::ToClient(w.freeze()))
            },
        }
    }

    fn answer(&self, body: Bytes, fml3: bool) -> (step: BackendStep)
        ensures
            step@ == asked(*self, content(body), fml3),
    {
        broadcast use empty_then;

        let mut reader = Reader::new(body);
        proof {
            varint_at_bounds(reader.all(), 0);
        }
        let message_id: i32 = match reader.varint() {
            Some(message_id) => message_id,
            None => {
                return BackendStep::Failed(ConnectionError::Protocol);
            },
        };
        let channel: String = match reader.string() {
            Some(channel) => channel,
            None => {
                return BackendStep::Failed(ConnectionError::Protocol);
            },
        };
        let rest = reader.rest();
        if self.velocity && crate::text::is_text(&channel, "velocity:player_info") {
            BackendStep::Answer { message_id, signed: self.has_secret }
        } else if fml3 {
            let mut w = Writer::new();
            w.varint(self.ids.login_plugin as i32);
            w.varint(message_id);
            w.string(channel.as_str());
            w.raw(bytes_to_vec(&rest).as_slice());
            BackendStep::AskClient { message_id, request: w.freeze() }
        } else {
            BackendStep::Answer { message_id, signed: false }
        }
    }

    /// Takes up a packet of the server. `None` stands for a request to encrypt whose length has
    /// no meaning.
    pub fn on_packet(&mut self, packet: Bytes, fml3: bool) -> (r: Option<BackendStep>)
        ensures
            match logged_in(*old(self), content(packet), fml3) {
                None => r is None && *final(self) == *old(self),
                Some((after, step)) => r matches Some(got) && got@ == step && *final(self) == after,
            },
    {
        let (id, body) = match crate::converter::outcome::split_id(packet) {
            Some(parts) => parts,
            None => {
                return Some(BackendStep::Failed(ConnectionError::Protocol));
            },
        };
        if id == self.ids.encryption_request {
            let differ: bool = nearest(self.backend_protocol).epoch() != nearest(self.client_protocol).epoch();
            if differ || (self.backend_protocol != self.client_protocol && self.ids.encryption_request
                != self.ids.client_encryption_request) {
                return self.hand_on_request(body);
            }
        }
        if id == self.ids.set_compression {
            let mut reader = Reader::new(body);
            match reader.varint() {
                Some(threshold) => {
                    self.threshold = threshold;
                    Some(BackendStep::Continue)
                },
                None => Some(BackendStep::Failed(ConnectionError::Protocol)),
            }
        } else if id == self.ids.login_success {
            Some(BackendStep::Complete)
        } else if id == self.ids.login_plugin {
            Some(self.answer(body, fml3))
        } else if id == self.ids.login_disconnect {
            Some(BackendStep::Failed(ConnectionError::Closed))
        } else {
            Some(BackendStep::Continue)
        }
    }

    /// Whether the packet that a client sent after a question goes to the server as its answer.
    /// Where it is something else, the server is answered with nothing.
    pub fn is_answer(&self, packet: &Bytes) -> (r: Result<bool, ConnectionError>)
        ensures
            match split(content(*packet)) {
                Some((id, _)) => r matches Ok(yes) && yes == (id == self.ids.plugin_response),
                None => r matches Err(e) && e@ == Failure::Protocol,
            },
    {
        match crate::converter::outcome::split_id(bytes_clone(packet)) {
            Some((id, _)) => Ok(id == self.ids.plugin_response),
            None => Err(ConnectionError::Protocol),
        }
    }
}

/// The first protocol with a configuration phase.
pub const CONFIGURATION_FROM: u32 = 764;

/// Whether a configuration phase follows the login: both sides have to know it.
pub fn enters_configuration(client_protocol: u32, backend_protocol: u32) -> (r: bool)
    ensures
        r == (client_protocol >= CONFIGURATION_FROM && backend_protocol >= CONFIGURATION_FROM),
{
    client_protocol >= CONFIGURATION_FROM && backend_protocol >= CONFIGURATION_FROM
}

/// A server is told who a player is only where it is to ask for it, on the channel for that,
/// and there is a secret to sign with.
pub proof fn identity_is_signed_or_withheld(l: BackendLogin, packet: Seq<u8>, fml3: bool)
    requires
        logged_in(l, packet, fml3) matches Some((_, Step::Answer { message_id, signed })) && signed,
    ensures
        l.velocity,
        l.has_secret,
        split(packet) matches Some((_, body)) && (question_of(body) matches Some((_, channel, _)) && channel
            == "velocity:player_info"@),
{
}

/// The threshold changes only when the server has set it.
pub proof fn server_sets_the_threshold(l: BackendLogin, packet: Seq<u8>, fml3: bool)
    ensures
        logged_in(l, packet, fml3) matches Some((after, _)) ==> after.ids == l.ids && (after.threshold == l.threshold
            || (split(packet) matches Some((id, body)) && id == l.ids.set_compression && (varint_at(body, 0) matches Some((
            threshold,
            _,
        )) && after.threshold == threshold))),
{
}

} // verus!
