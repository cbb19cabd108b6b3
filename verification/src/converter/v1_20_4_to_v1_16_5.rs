//! 1.20.4 packets for a 1.16.5 server.
//!
//! The configuration phase, which 1.16.5 does not have, ends at the proxy, and signatures are
//! dropped.

use bytes::Bytes;
use crate::converter::outcome::{
    ConversionResult, Outcome, build_payload, contents, converted, emit, packet, split, split_id,
};
use crate::converter::safe::Reader;
use crate::text::{first_chars, shortened, string_at, wire_string};
use crate::varint::{varint, varint_at};
use crate::wire::{be_i64, bytes_clone, bytes_len, bytes_to_vec, content, i64_at};
use crate::writer::{Writer, empty_then};
use vstd::prelude::*;

verus! {

pub const V1204_LOGIN_C2S_LOGIN_START: u8 = 0x00;
pub const V1204_LOGIN_C2S_ENCRYPTION_RESPONSE: u8 = 0x01;
pub const V1204_CONFIG_C2S_FINISH_CONFIGURATION_ACK: u8 = 0x02;
pub const V1204_LOGIN_C2S_LOGIN_ACK: u8 = 0x03;
pub const V1204_PLAY_C2S_CHAT_MESSAGE: u8 = 0x05;
pub const V1204_PLAY_C2S_CHAT_COMMAND: u8 = 0x06;
/// The id of KeepAlive moved from 0x14 to 0x15 with 1.20.3.
pub const V1204_PLAY_C2S_KEEP_ALIVE: u8 = 0x15;

pub const V165_LOGIN_C2S_LOGIN_START: u8 = 0x00;
pub const V165_LOGIN_C2S_ENCRYPTION_RESPONSE: u8 = 0x01;
pub const V165_PLAY_C2S_CHAT_MESSAGE: u8 = 0x03;
pub const V165_PLAY_C2S_KEEP_ALIVE: u8 = 0x10;

/// The first protocol with a configuration phase.
pub const FIRST_CONFIGURATION_PROTOCOL: u32 = 764;

/// The first protocol whose clients forget their registries when the phase begins.
pub const FIRST_REGISTRY_PROTOCOL: u32 = 766;

/// The id of FinishConfiguration up to 1.20.4.
pub const FINISH_CONFIGURATION: u8 = 0x02;

/// The id of FinishConfiguration from 1.20.5 on.
pub const FINISH_CONFIGURATION_1_20_5: u8 = 0x03;

/// The packets that take a client through its configuration phase: for 1.20.2 to 1.20.4 its
/// end alone, and for later releases the registries, which are given, before it. Earlier
/// releases have no such phase.
pub open spec fn cfg_packets(client_proto: u32, registries: Seq<Seq<u8>>) -> Option<Seq<Seq<u8>>> {
    if client_proto < FIRST_CONFIGURATION_PROTOCOL {
        None
    } else if client_proto < FIRST_REGISTRY_PROTOCOL {
        Some(seq![packet(FINISH_CONFIGURATION, seq![])])
    } else {
        Some(registries.push(packet(FINISH_CONFIGURATION_1_20_5, seq![])))
    }
}

/// The packets that take a client through its configuration phase.
pub fn build_cfg_packets(client_proto: u32, registries: &Vec<Bytes>) -> (r: Option<Vec<Bytes>>)
    ensures
        match cfg_packets(client_proto, contents(registries@)) {
            Some(packets) => r is Some && contents(r->0@) == packets,
            None => r is None,
        },
{
    if client_proto < FIRST_CONFIGURATION_PROTOCOL {
        return None;
    }
    let mut v: Vec<Bytes> = Vec::new();
    if client_proto < FIRST_REGISTRY_PROTOCOL {
        v.push(build_payload(FINISH_CONFIGURATION, &[]));
        assert(contents(v@) =~= seq![packet(FINISH_CONFIGURATION, seq![])]);
        return Some(v);
    }
    let ghost all = contents(registries@);
    let mut i: usize = 0;
    while i < registries.len()
        invariant
            i <= registries.len(),
            v@.len() == i,
            all == contents(registries@),
            forall|k: int| 0 <= k < i ==> content(#[trigger] v@[k]) == all[k],
        decreases registries.len() - i,
    {
        v.push(bytes_clone(&registries[i]));
        i = i + 1;
    }
    v.push(build_payload(FINISH_CONFIGURATION_1_20_5, &[]));
    assert(contents(v@) =~= all.push(packet(FINISH_CONFIGURATION_1_20_5, seq![])));
    Some(v)
}

/// LoginAcknowledged goes no further. The packets that take the client through its
/// configuration phase go back to it. Without a phase it is dropped.
pub open spec fn spec_c2s_login_ack_swallow(client_proto: u32, registries: Seq<Seq<u8>>) -> Outcome {
    match cfg_packets(client_proto, registries) {
        Some(packets) => Outcome::InjectS2C(packets),
        None => Outcome::Drop,
    }
}

pub fn c2s_login_ack_swallow(client_proto: u32, registries: &Vec<Bytes>) -> (res: ConversionResult)
    ensures
        res@ == spec_c2s_login_ack_swallow(client_proto, contents(registries@)),
{
    match build_cfg_packets(client_proto, registries) {
        Some(packets) => ConversionResult::InjectS2C(packets),
        None => ConversionResult::Drop,
    }
}

/// LoginStart: the name alone.
pub open spec fn spec_c2s_login_start(b: Seq<u8>) -> Outcome {
    match string_at(b, 0) {
        None => Outcome::Passthrough,
        Some((name, p)) => {
            converted(V165_LOGIN_C2S_LOGIN_START, wire_string(name))
        },
    }
}

pub fn c2s_login_start(body: Bytes) -> (res: ConversionResult)
    ensures
        res@ == spec_c2s_login_start(content(body)),
{
    broadcast use empty_then;

    let mut r = Reader::new(body);
    let name: String = match r.string() {
        Some(s) => s,
        None => {
            return ConversionResult::Passthrough;
        },
    };
    let mut out = Writer::new();
    out.string(name.as_str());
    emit(V165_LOGIN_C2S_LOGIN_START, out)
}

/// EncryptionResponse: the secret and the token. A response that is signed in place of the
/// token is dropped.
pub open spec fn spec_c2s_login_encryption_response(b: Seq<u8>) -> Outcome {
    match varint_at(b, 0) {
        None => Outcome::Passthrough,
        Some((secret_len, p)) => {
            if !(secret_len >= 0) {
                Outcome::Passthrough
            } else if b.len() < p + secret_len as int {
                Outcome::Passthrough
            } else if b.len() < p + secret_len as int + 1 {
                Outcome::Passthrough
            } else {
                if b[p + secret_len as int] == 0 {
                    Outcome::Drop
                } else {
                    match varint_at(b, p + secret_len as int + 1) {
                        None => Outcome::Passthrough,
                        Some((token_len, q)) => if token_len < 0 || b.len() < q + token_len {
                            Outcome::Passthrough
                        } else {
                            converted(
                                V165_LOGIN_C2S_ENCRYPTION_RESPONSE,
                                varint(secret_len) + b.subrange(p, p + secret_len as int) + varint(token_len) + b.subrange(q, q + token_len),
                            )
                        },
                    }
                }
            }
        },
    }
}

pub fn c2s_login_encryption_response(body: Bytes) -> (res: ConversionResult)
    ensures
        res@ == spec_c2s_login_encryption_response(content(body)),
{
    broadcast use empty_then;

    let mut r = Reader::new(body);
    let secret_len: i32 = match r.varint() {
        Some(v) => v,
        None => {
            return ConversionResult::Passthrough;
        },
    };
    if !(secret_len >= 0) {
        return ConversionResult::Passthrough;
    }
    if !r.has(secret_len as usize) {
        return ConversionResult::Passthrough;
    }
    let secret = r.get_bytes(secret_len as usize);
    if !r.has(1) {
        return ConversionResult::Passthrough;
    }
    let has_token: u8 = r.get_u8();
    if has_token == 0 {
        return ConversionResult::Drop;
    }
    let token_len: i32 = match r.varint() {
        Some(n) => n,
        None => {
            return ConversionResult::Passthrough;
        },
    };
    if token_len < 0 || !r.has(token_len as usize) {
        return ConversionResult::Passthrough;
    }
    let token = r.get_bytes(token_len as usize);
    let mut out = Writer::new();
    out.varint(secret_len);
    out.raw(bytes_to_vec(&secret).as_slice());
    out.varint(token_len);
    out.raw(bytes_to_vec(&token).as_slice());
    emit(V165_LOGIN_C2S_ENCRYPTION_RESPONSE, out)
}

/// ChatCommand becomes a chat message with a slash before the command, of 256 characters at
/// most. One that does not read is dropped.
pub open spec fn spec_c2s_play_chat_command(b: Seq<u8>) -> Outcome {
    match string_at(b, 0) {
        None => Outcome::Drop,
        Some((command, p)) => {
            converted(V165_PLAY_C2S_CHAT_MESSAGE, wire_string(first_chars("/"@ + command, 256)))
        },
    }
}

pub fn c2s_play_chat_command(body: Bytes) -> (res: ConversionResult)
    ensures
        res@ == spec_c2s_play_chat_command(content(body)),
{
    broadcast use empty_then;

    let mut r = Reader::new(body);
    let command: String = match r.string() {
        Some(s) => s,
        None => {
            return ConversionResult::Drop;
        },
    };
    let mut text = String::from_str("/");
    text.append(command.as_str());
    let mut out = Writer::new();
    out.string(shortened(text.as_str(), 256));
    emit(V165_PLAY_C2S_CHAT_MESSAGE, out)
}

/// ChatMessage: the text alone, of 256 characters at most.
pub open spec fn spec_c2s_play_chat_strip_signature(b: Seq<u8>) -> Outcome {
    match string_at(b, 0) {
        None => Outcome::Passthrough,
        Some((message, p)) => {
            converted(V165_PLAY_C2S_CHAT_MESSAGE, wire_string(first_chars(message, 256)))
        },
    }
}

pub fn c2s_play_chat_strip_signature(body: Bytes) -> (res: ConversionResult)
    ensures
        res@ == spec_c2s_play_chat_strip_signature(content(body)),
{
    broadcast use empty_then;

    let mut r = Reader::new(body);
    let message: String = match r.string() {
        Some(s) => s,
        None => {
            return ConversionResult::Passthrough;
        },
    };
    let mut out = Writer::new();
    out.string(shortened(message.as_str(), 256));
    emit(V165_PLAY_C2S_CHAT_MESSAGE, out)
}

/// KeepAlive: the id alone.
pub open spec fn spec_c2s_play_keep_alive(b: Seq<u8>) -> Outcome {
    if b.len() < 8 {
        Outcome::Passthrough
    } else {
        converted(V165_PLAY_C2S_KEEP_ALIVE, be_i64(i64_at(b, 0)))
    }
}

pub fn c2s_play_keep_alive(body: Bytes) -> (res: ConversionResult)
    ensures
        res@ == spec_c2s_play_keep_alive(content(body)),
{
    broadcast use empty_then;

    let mut r = Reader::new(body);
    if !r.has(8) {
        return ConversionResult::Passthrough;
    }
    let id: i64 = r.get_i64();
    let mut out = Writer::new();
    out.i64(id);
    emit(V165_PLAY_C2S_KEEP_ALIVE, out)
}

/// The 1.16.5 form of a 1.20.4 packet toward the server. The end of the configuration phase,
/// which has no body, is dropped, and unknown packets are left alone.
pub open spec fn spec_c2s(id: u8, b: Seq<u8>, client_proto: u32, registries: Seq<Seq<u8>>) -> Outcome {
    if id == V1204_LOGIN_C2S_LOGIN_START {
        spec_c2s_login_start(b)
    } else if id == V1204_LOGIN_C2S_ENCRYPTION_RESPONSE {
        spec_c2s_login_encryption_response(b)
    } else if id == V1204_LOGIN_C2S_LOGIN_ACK {
        spec_c2s_login_ack_swallow(client_proto, registries)
    } else if id == V1204_CONFIG_C2S_FINISH_CONFIGURATION_ACK && b.len() == 0 {
        Outcome::Drop
    } else if id == V1204_PLAY_C2S_CHAT_COMMAND {
        spec_c2s_play_chat_command(b)
    } else if id == V1204_PLAY_C2S_CHAT_MESSAGE {
        spec_c2s_play_chat_strip_signature(b)
    } else if id == V1204_PLAY_C2S_KEEP_ALIVE {
        spec_c2s_play_keep_alive(b)
    } else {
        Outcome::Passthrough
    }
}

/// What becomes of a packet toward the server. The registries are what a client of 1.20.5 or
/// later is given in its configuration phase.
pub open spec fn spec_convert_c2s(p: Seq<u8>, client_proto: u32, registries: Seq<Seq<u8>>) -> Outcome {
    match split(p) {
        Some((id, b)) => spec_c2s(id, b, client_proto, registries),
        None => Outcome::Passthrough,
    }
}

/// Converts a packet toward the server.
pub fn convert_c2s(payload: Bytes, client_proto: u32, registries: &Vec<Bytes>) -> (res:
    ConversionResult)
    ensures
        res@ == spec_convert_c2s(content(payload), client_proto, contents(registries@)),
{
    match split_id(payload) {
        Some((id, body)) => {
            if id == V1204_LOGIN_C2S_LOGIN_START {
                c2s_login_start(body)
            } else if id == V1204_LOGIN_C2S_ENCRYPTION_RESPONSE {
                c2s_login_encryption_response(body)
            } else if id == V1204_LOGIN_C2S_LOGIN_ACK {
                c2s_login_ack_swallow(client_proto, registries)
            } else if id == V1204_CONFIG_C2S_FINISH_CONFIGURATION_ACK && bytes_len(&body) == 0 {
                ConversionResult::Drop
            } else if id == V1204_PLAY_C2S_CHAT_COMMAND {
                c2s_play_chat_command(body)
            } else if id == V1204_PLAY_C2S_CHAT_MESSAGE {
                c2s_play_chat_strip_signature(body)
            } else if id == V1204_PLAY_C2S_KEEP_ALIVE {
                c2s_play_keep_alive(body)
            } else {
                ConversionResult::Passthrough
            }
        },
        None => ConversionResult::Passthrough,
    }
}

/// Packets toward the client are left alone.
pub fn convert_s2c(_payload: Bytes) -> (res: ConversionResult)
    ensures
        res@ == Outcome::Passthrough,
{
    ConversionResult::Passthrough
}

} // verus!
