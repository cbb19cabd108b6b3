//! What becomes of the packets of 1.20.4 for 1.16.5, field by field.

use crate::converter::laws::fields::{fields_read, i64_field, sendable, text_field, varint_field};
use crate::converter::outcome::{Outcome, converted, packet};
use crate::converter::v1_20_4_to_v1_16_5::spec_convert_c2s;
use crate::text::wire_string;
use crate::varint::{varint, varint_at};
use crate::wire::be_i64;
use vstd::prelude::*;

verus! {

/// LoginStart: the name alone.
pub proof fn c2s_login_start(
    name: Seq<char>,
    rest: Seq<u8>,
    client_proto: u32,
    registries: Seq<Seq<u8>>,
)
    requires
        sendable(name),
    ensures
        spec_convert_c2s(packet(
            0x00,
            text_field(name) + rest,
        ), client_proto, registries) == converted(
            0x00,
            wire_string(name),
        ),
{
    broadcast use fields_read;
}

/// LoginStart: one that ends before its last field is left alone.
pub proof fn c2s_login_start_cut_off(client_proto: u32, registries: Seq<Seq<u8>>)
    ensures
        spec_convert_c2s(packet(
            0x00,
            Seq::<u8>::empty(),
        ), client_proto, registries) == Outcome::Passthrough,
{
    broadcast use fields_read;
}

/// KeepAlive: the id alone. A shorter one is left alone.
pub proof fn c2s_play_keep_alive(
    id: i64,
    rest: Seq<u8>,
    client_proto: u32,
    registries: Seq<Seq<u8>>,
    short: Seq<u8>,
)
    ensures
        spec_convert_c2s(packet(
            0x15,
            i64_field(id) + rest,
        ), client_proto, registries) == converted(
            0x10,
            be_i64(id),
        ),
        short.len() < 8 ==> spec_convert_c2s(packet(0x15, short), client_proto, registries) == Outcome::Passthrough,
{
    broadcast use fields_read;
}

/// All other packets toward the server are left alone.
pub proof fn c2s_others_left_alone(id: u8, b: Seq<u8>, client_proto: u32, registries: Seq<Seq<u8>>)
    requires
        id != 0x00 && id != 0x01 && id != 0x02 && id != 0x03 && id != 0x05 && id != 0x06 &&
        id != 0x15,
    ensures
        spec_convert_c2s(packet(id, b), client_proto, registries) == Outcome::Passthrough,
{
    broadcast use fields_read;
}

/// EncryptionResponse: the secret and the token, each behind its length; the flag between them
/// that says that a token follows is dropped. One without a token goes no further.
#[verifier::rlimit(60)]
pub proof fn c2s_login_encryption_response(
    secret: Seq<u8>,
    flag: u8,
    token: Seq<u8>,
    rest: Seq<u8>,
    client_proto: u32,
    registries: Seq<Seq<u8>>,
)
    requires
        secret.len() <= i32::MAX,
        token.len() <= i32::MAX,
    ensures
        flag != 0 ==> spec_convert_c2s(
            packet(
                0x01,
                varint_field(secret.len() as i32) + secret + seq![flag] + varint_field(token.len() as i32) + token
                    + rest,
            ),
            client_proto,
            registries,
        ) == converted(
            0x01,
            varint(secret.len() as i32) + secret + varint(token.len() as i32) + token,
        ),
        flag == 0 ==> spec_convert_c2s(
            packet(0x01, varint_field(secret.len() as i32) + secret + seq![flag] + rest),
            client_proto,
            registries,
        ) == Outcome::Drop,
{
    broadcast use fields_read;

    let front = varint_field(secret.len() as i32);
    let p: int = front.len() as int;
    let n: int = secret.len() as int;
    let half = front + secret + seq![flag] + varint_field(token.len() as i32);
    let b = half + token + rest;
    let q: int = half.len() as int;
    assert(varint_at(b, 0) == Some((secret.len() as i32, p)));
    assert(b[p + n] == flag);
    assert(varint_at(b, p + n + 1) == Some((token.len() as i32, q)));
    assert(b.subrange(p, p + n) =~= secret);
    assert(b.subrange(q, q + token.len()) =~= token);
    let c = front + secret + seq![flag] + rest;
    assert(varint_at(c, 0) == Some((secret.len() as i32, p)));
    assert(c[p + n] == flag);
}

/// LoginAcknowledged is answered: before protocol 764 by nothing, before 766 by the end of the
/// configuration, and from then on by the registries and the end of the configuration.
pub proof fn c2s_login_ack(b: Seq<u8>, client_proto: u32, registries: Seq<Seq<u8>>)
    ensures
        client_proto < 764 ==> spec_convert_c2s(packet(0x03, b), client_proto, registries) == Outcome::Drop,
        764 <= client_proto < 766 ==> spec_convert_c2s(packet(0x03, b), client_proto, registries)
            == Outcome::InjectS2C(seq![packet(0x02, seq![])]),
        client_proto >= 766 ==> spec_convert_c2s(packet(0x03, b), client_proto, registries)
            == Outcome::InjectS2C(registries.push(packet(0x03, seq![]))),
{
    broadcast use fields_read;
}

/// ChatCommand becomes a chat message with a slash before it, cut off behind 256 characters.
#[verifier::rlimit(60)]
pub proof fn c2s_play_chat_command(
    command: Seq<char>,
    rest: Seq<u8>,
    client_proto: u32,
    registries: Seq<Seq<u8>>,
)
    requires
        sendable(command),
    ensures
        command.len() <= 255 ==> spec_convert_c2s(
            packet(0x06, text_field(command) + rest),
            client_proto,
            registries,
        ) == converted(0x03, wire_string(seq!['/'] + command)),
        command.len() > 255 ==> spec_convert_c2s(
            packet(0x06, text_field(command) + rest),
            client_proto,
            registries,
        ) == converted(0x03, wire_string(seq!['/'] + command.take(255))),
{
    broadcast use fields_read;

    reveal_strlit("/");
    assert("/"@ =~= seq!['/']);
    if command.len() > 255 {
        assert((seq!['/'] + command).take(256) =~= seq!['/'] + command.take(255));
    }
}

/// Chat: the message alone, cut off behind 256 characters.
pub proof fn c2s_play_chat(
    message: Seq<char>,
    rest: Seq<u8>,
    client_proto: u32,
    registries: Seq<Seq<u8>>,
)
    requires
        sendable(message),
    ensures
        message.len() <= 256 ==> spec_convert_c2s(
            packet(0x05, text_field(message) + rest),
            client_proto,
            registries,
        ) == converted(0x03, wire_string(message)),
        message.len() > 256 ==> spec_convert_c2s(
            packet(0x05, text_field(message) + rest),
            client_proto,
            registries,
        ) == converted(0x03, wire_string(message.take(256))),
{
    broadcast use fields_read;
}

/// The end of the configuration, which has no body, goes no further; what has a body under its
/// number is left alone.
pub proof fn c2s_finish_configuration(b: Seq<u8>, client_proto: u32, registries: Seq<Seq<u8>>)
    ensures
        b.len() == 0 ==> spec_convert_c2s(packet(0x02, b), client_proto, registries) == Outcome::Drop,
        b.len() > 0 ==> spec_convert_c2s(packet(0x02, b), client_proto, registries) == Outcome::Passthrough,
{
    broadcast use fields_read;
}

} // verus!
