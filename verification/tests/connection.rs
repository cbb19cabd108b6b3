//! The life of a connection.

use bytes::{BufMut, Bytes, BytesMut};
use proxy_core::connection::attempt::Attempt;
use proxy_core::connection::backend::{
    backend_protocol_for, clean_host, effective_forwarding_mode, fml_marker, handshake_address, relay_plan,
    ForwardingMode, Lobby, ModloaderKind, RelayPlan, ServerConfig,
};
use proxy_core::connection::backend_login::{
    enters_configuration, question_channel, BackendLogin, BackendStep, LoginIds,
};
use proxy_core::connection::cipher::{Cfb8State, EncryptedStream, WriteZero};
use proxy_core::connection::config_phase::{detected, plugin_channel, ConfigIds, ConfigPhase, ConfigStep};
use proxy_core::connection::error::{client_gone, graceful_kick, ConnectionError, ConnectionState, Kick};
use proxy_core::connection::frames::{
    decode_encryption_request, encode_encryption_request, is_pre_netty_proto, legacy_kick, legacy_login,
    raw_packet, read_encryption_response, takes_compression, typed_packet, EncryptionRequest,
};
use proxy_core::connection::front::{Front, FrontAction, FrontEvent};
use proxy_core::connection::hello::{next_phase, read_handshake, read_legacy_handshake, read_login_start};
use proxy_core::connection::identity::{legacy_identity, login_identity, login_identity_with, Lookup};
use proxy_core::connection::legacy::{LegacyAction, LegacyEvent, LegacyLogin};
use proxy_core::connection::login::{AuthAction, AuthOutbound, LoginDialogue};
use proxy_core::connection::opening::{
    bedrock_reply, drain, looks_like_bedrock, opening, proxy_header, Drained, Opening, ProxyHeader,
};
use proxy_core::connection::session::{Join, JoinAction, JoinEvent, Phase};
use proxy_core::connection::status::{legacy_status_json, status_json, status_response, PingResponse, SamplePlayer};
use proxy_core::connection::stream::{McStream, Source};
use proxy_core::converter::outcome::build_payload;
use proxy_core::ident::offline_uuid;
use proxy_core::version::Epoch;
use proxy_core::writer::Writer;

const MAGIC: [u8; 16] = [
    0x00, 0xff, 0xff, 0x00, 0xfe, 0xfe, 0xfe, 0xfe, 0xfd, 0xfd, 0xfd, 0xfd, 0x12, 0x34, 0x56, 0x78,
];

fn hex(s: &str) -> Vec<u8> {
    (0..s.len() / 2).map(|i| u8::from_str_radix(&s[2 * i..2 * i + 2], 16).unwrap()).collect()
}

fn varint(x: i32) -> Bytes {
    let mut w = Writer::new();
    w.varint(x);
    w.freeze()
}

fn text(s: &str) -> Bytes {
    let mut w = Writer::new();
    w.string(s);
    w.freeze()
}

fn ucs2(s: &str) -> Vec<u8> {
    let units: Vec<u16> = s.encode_utf16().collect();
    let mut v = (units.len() as u16).to_be_bytes().to_vec();
    for u in units {
        v.extend_from_slice(&u.to_be_bytes());
    }
    v
}

fn join(parts: &[&[u8]]) -> Bytes {
    let mut b = BytesMut::new();
    for p in parts {
        b.put_slice(p);
    }
    b.freeze()
}

// The cipher.

#[test]
fn cfb8_gives_the_published_vectors() {
    let key = hex("2b7e151628aed2a6abf7158809cf4f3c");
    let iv = hex("000102030405060708090a0b0c0d0e0f");
    let plain = hex("6bc1bee22e409f96e93d7e117393172aae2d");
    let sealed = hex("3b79424c9c0dd436bace9e0ed4586a4f32b9");
    let mut data = plain.clone();
    Cfb8State::new(&key, &iv).encrypt(&mut data);
    assert_eq!(data, sealed);
    Cfb8State::new(&key, &iv).decrypt(&mut data);
    assert_eq!(data, plain);
}

#[test]
fn pieces_decrypt_like_the_whole() {
    let key = [7u8; 16];
    let mut sender = EncryptedStream::new(&key);
    let mut receiver = EncryptedStream::new(&key);
    sender.send(b"Hello, ");
    sender.send(b"world!");
    let sealed = sender.to_write();
    assert_ne!(&sealed[..], b"Hello, world!");
    let mut plain = receiver.received(sealed[..3].to_vec());
    plain.extend(receiver.received(sealed[3..].to_vec()));
    assert_eq!(&plain[..], b"Hello, world!");
}

#[test]
fn waiting_bytes_leave_as_the_socket_takes_them() {
    let mut s = EncryptedStream::new(&[1u8; 16]);
    assert!(!s.is_waiting());
    s.send(&[1, 2, 3, 4]);
    let all = s.to_write();
    assert_eq!(all.len(), 4);
    assert_eq!(s.wrote(3), Ok(()));
    assert_eq!(s.to_write(), all[3..].to_vec());
    assert_eq!(s.wrote(0), Err(WriteZero));
    assert_eq!(s.wrote(1), Ok(()));
    assert!(!s.is_waiting());
}

#[test]
fn what_was_given_back_is_read_first() {
    let mut s = McStream::plain();
    assert_eq!(s.source(), Source::Plain);
    s.push_prefix(&[1, 2]);
    s.push_prefix(&[3]);
    s.enable_encryption(&[9u8; 16]);
    assert_eq!(s.source(), Source::Prefix);
    // What was given back last comes first.
    assert_eq!(s.take_prefix(2), vec![3, 1]);
    assert_eq!(s.take_prefix(5), vec![2]);
    assert_eq!(s.source(), Source::Encrypted);
    // Once encrypted, a stream stays under its key.
    assert!(s.send(b"abc"));
    s.enable_encryption(&[8u8; 16]);
    let mut other = EncryptedStream::new(&[9u8; 16]);
    assert_eq!(other.received(s.to_write()), b"abc".to_vec());
    assert_eq!(s.wrote(3), Ok(()));
    assert_eq!(McStream::empty().source(), Source::Nothing);
}

#[test]
fn a_plain_stream_changes_nothing() {
    let mut s = McStream::plain();
    assert!(!s.send(b"abc"));
    assert!(s.to_write().is_empty());
    assert_eq!(s.received(vec![1, 2, 3]), vec![1, 2, 3]);
    s.enable_encryption(&[9u8; 16]);
    let mut other = EncryptedStream::new(&[9u8; 16]);
    other.send(b"xyz");
    assert_eq!(s.received(other.to_write()), b"xyz".to_vec());
}

// The first bytes.

#[test]
fn first_bytes_tell_clients_apart() {
    assert_eq!(opening(0xFE), Opening::LegacyPing);
    assert_eq!(opening(0x02), Opening::LegacyLogin);
    assert_eq!(opening(0x05), Opening::MaybeBedrock);
    assert_eq!(opening(0x10), Opening::Handshake);
}

#[test]
fn bedrock_is_known_by_its_magic() {
    assert!(looks_like_bedrock(Some(&MAGIC.to_vec())));
    let mut other = MAGIC.to_vec();
    other[15] = 0;
    assert!(!looks_like_bedrock(Some(&other)));
    assert!(!looks_like_bedrock(Some(&MAGIC[..15].to_vec())));
    assert!(!looks_like_bedrock(None));
    let reply = bedrock_reply();
    assert_eq!(&reply[..2], &[0x19, 0x00]);
    assert_eq!(&reply[2..18], &MAGIC);
    assert_eq!(&reply[18..], &[0u8; 8]);
}

#[test]
fn proxy_headers_by_settings() {
    assert_eq!(proxy_header(false, true), ProxyHeader::Absent);
    assert_eq!(proxy_header(true, true), ProxyHeader::Optional);
    assert_eq!(proxy_header(true, false), ProxyHeader::Required);
}

#[test]
fn pings_are_drained_up_to_a_bound() {
    assert_eq!(drain(0, Drained::Bytes(36)), (36, true));
    assert_eq!(drain(36, Drained::Bytes(0)), (36, false));
    assert_eq!(drain(1000, Drained::Bytes(23)), (1023, true));
    assert_eq!(drain(1000, Drained::Bytes(24)), (1024, false));
    assert_eq!(drain(36, Drained::Late), (36, false));
    assert_eq!(drain(36, Drained::Failed), (36, false));
}

fn handshake(protocol: i32, address: &str, next: i32) -> Bytes {
    join(&[&varint(0), &varint(protocol), &text(address), &25565u16.to_be_bytes(), &varint(next)])
}

#[test]
fn handshakes_read() {
    let h = read_handshake(handshake(765, "play.example.org\0FML3\0", 2)).unwrap();
    assert_eq!(h.protocol, 765);
    assert_eq!(h.address, "play.example.org\0FML3\0");
    assert_eq!(h.port, 25565);
    assert_eq!(h.next_state, 2);
    let whole = handshake(765, "a", 2);
    for n in 0..whole.len() {
        assert_eq!(read_handshake(whole.slice(..n)), Err(ConnectionError::Protocol));
    }
}

#[test]
fn next_states_lead_to_phases() {
    assert_eq!(next_phase(1), Ok(ConnectionState::Status));
    assert_eq!(next_phase(2), Ok(ConnectionState::Login));
    assert_eq!(next_phase(3), Err(ConnectionError::Closed));
    assert_eq!(next_phase(-1), Err(ConnectionError::Closed));
}

#[test]
fn legacy_handshakes_read() {
    let body = join(&[&[78], &ucs2("Notch"), &ucs2("localhost"), &25565i32.to_be_bytes()]);
    let h = read_legacy_handshake(body.clone()).unwrap();
    assert_eq!((h.protocol, h.username.as_str(), h.host.as_str(), h.port), (78, "Notch", "localhost", 25565));
    assert!(read_legacy_handshake(body.slice(..body.len() - 1)).is_none());
    // Half a surrogate pair is no name.
    assert!(read_legacy_handshake(join(&[&[78, 0, 1, 0xD8, 0x00], &ucs2("h"), &[0; 4]])).is_none());
}

#[test]
fn login_starts_read_by_protocol() {
    let plain = join(&[&varint(0), &text("alex")]);
    let id = [1u8, 2, 3, 4, 5, 6, 7, 8, 9, 10, 11, 12, 13, 14, 15, 16];
    let halves = (0x0102_0304_0506_0708u64, 0x090A_0B0C_0D0E_0F10u64);
    let old = read_login_start(plain.clone(), 47).unwrap();
    assert_eq!((old.username.as_str(), old.uuid), ("alex", None));
    assert_eq!(read_login_start(plain.clone(), 762).unwrap().uuid, None);
    assert_eq!(read_login_start(join(&[&plain, &[0]]), 763).unwrap().uuid, None);
    assert_eq!(read_login_start(join(&[&plain, &[1], &id]), 761).unwrap().uuid, Some(halves));
    assert_eq!(read_login_start(join(&[&plain, &id]), 764).unwrap().uuid, Some(halves));
    let missing = Err(ConnectionError::Auth("failed to decode client UUID".to_string()));
    assert_eq!(read_login_start(join(&[&plain, &[1], &id[..15]]), 763), missing);
    assert_eq!(read_login_start(plain, 764), missing);
    assert_eq!(read_login_start(Bytes::new(), 47), Err(ConnectionError::Protocol));
    assert_eq!(read_login_start(varint(0), 47), Err(ConnectionError::Protocol));
}

#[test]
fn the_front_door_leads_on() {
    let mut f = Front::new();
    assert!(matches!(f.step(FrontEvent::FirstByte(None)), FrontAction::Fail(ConnectionError::Io)));
    assert!(matches!(f.step(FrontEvent::FirstByte(Some(0xFE))), FrontAction::AnswerLegacyPing));
    assert!(matches!(f.step(FrontEvent::FirstByte(Some(0x02))), FrontAction::LegacyLogin));
    assert!(matches!(f.step(FrontEvent::FirstByte(Some(0x05))), FrontAction::Probe));
    assert!(matches!(f.step(FrontEvent::Probe(None)), FrontAction::ReadHandshake(0x05)));
    match f.step(FrontEvent::Probe(Some(MAGIC.to_vec()))) {
        FrontAction::RefuseBedrock(reply) => assert_eq!(reply, bedrock_reply()),
        _ => panic!("a Bedrock client"),
    }
    assert!(matches!(f.step(FrontEvent::FirstByte(Some(0x11))), FrontAction::ReadHandshake(0x11)));
    assert!(matches!(f.step(FrontEvent::Packet(None)), FrontAction::Fail(ConnectionError::Io)));
    assert!(matches!(f.step(FrontEvent::Packet(Some(Bytes::new()))), FrontAction::Fail(ConnectionError::Protocol)));
    assert_eq!(f, Front::new());
    match f.step(FrontEvent::Packet(Some(handshake(340, "host", 2)))) {
        FrontAction::Login(address) => assert_eq!(address, "host"),
        _ => panic!("a login"),
    }
    assert_eq!(f, Front { protocol: 340, state: ConnectionState::Login });
    let mut g = Front::new();
    assert!(matches!(g.step(FrontEvent::Packet(Some(handshake(47, "host", 1)))), FrontAction::Status));
    assert_eq!(g, Front { protocol: 47, state: ConnectionState::Status });
    assert!(matches!(
        g.step(FrontEvent::Packet(Some(handshake(47, "host", 9)))),
        FrontAction::Fail(ConnectionError::Closed)
    ));
}

// Who a player is.

#[test]
fn offline_ids_are_those_of_names() {
    let want = uuid::Uuid::new_v3(&uuid::Uuid::NAMESPACE_OID, b"OfflinePlayer:alex").as_u64_pair();
    assert_eq!(offline_uuid("alex"), want);
    assert_ne!(offline_uuid("Alex"), want);
}

#[test]
fn legacy_players_are_looked_up() {
    let id = (1, 2);
    assert_eq!(legacy_identity(Lookup::Found(id), true, "alex"), Some(id));
    assert_eq!(legacy_identity(Lookup::NotFound, true, "alex"), None);
    assert_eq!(legacy_identity(Lookup::NotFound, false, "alex"), Some(offline_uuid("alex")));
    assert_eq!(legacy_identity(Lookup::Failed, true, "alex"), Some(offline_uuid("alex")));
    assert_eq!(legacy_identity(Lookup::Failed, false, "alex"), Some(offline_uuid("alex")));
}

#[test]
fn logins_have_ids() {
    let (a, b, c) = ((1, 1), (2, 2), (3, 3));
    assert_eq!(login_identity_with(true, Some(a), Some(b), c), Some(b));
    assert_eq!(login_identity_with(true, Some(a), None, c), None);
    assert_eq!(login_identity_with(false, Some(a), Some(b), c), Some(a));
    assert_eq!(login_identity_with(false, None, Some(b), c), Some(b));
    assert_eq!(login_identity_with(false, None, None, c), Some(c));
    assert_eq!(login_identity(false, Some(a), None), Some(a));
    let (high, low) = login_identity(false, None, None).unwrap();
    assert_eq!((high >> 12) & 0xF, 4);
    assert_eq!(low >> 62, 2);
    assert_ne!(login_identity(false, None, None), login_identity(false, None, None));
}

#[test]
fn legacy_logins_go_their_way() {
    let mut l = LegacyLogin::new(true);
    match l.step(LegacyEvent::Body(Bytes::from_static(&[78]))) {
        LegacyAction::Kick(frame) => {
            assert_eq!(frame, legacy_kick("1.6.4 login is not yet supported by this proxy. Use 1.7+ to connect."))
        }
        _ => panic!("a login that does not read is kicked"),
    }
    assert_eq!((l.protocol, l.username.as_str()), (0, ""));
    let body = join(&[&[78], &ucs2("Notch"), &ucs2("localhost"), &25565i32.to_be_bytes()]);
    assert!(matches!(l.step(LegacyEvent::Body(body)), LegacyAction::AskAccount));
    assert_eq!((l.protocol, l.username.as_str(), l.host.as_str()), (78, "Notch", "localhost"));
    match l.step(LegacyEvent::Account(Lookup::NotFound)) {
        LegacyAction::Refuse(frame) => assert_eq!(
            frame,
            legacy_kick(
                "This server requires a Minecraft.net account. The username you joined with isn't registered."
            )
        ),
        _ => panic!("no account"),
    }
    match l.step(LegacyEvent::Account(Lookup::Failed)) {
        LegacyAction::Finalise(id) => assert_eq!(id, offline_uuid("Notch")),
        _ => panic!("a failing network locks nobody out"),
    }
    assert!(matches!(l.step(LegacyEvent::Finalised(true)), LegacyAction::End));
    match l.step(LegacyEvent::Finalised(false)) {
        LegacyAction::Kick(frame) => {
            assert_eq!(frame, legacy_kick("1.6.4 login is not yet supported by this proxy. Use 1.7+ to connect."))
        }
        _ => panic!("a kick"),
    }
}

// The server list.

#[test]
fn status_texts() {
    assert_eq!(status_json(765, "},\"x\":1}"), "{\"version\":{\"name\":\"Koja\",\"protocol\":765},\"x\":1}");
    assert_eq!(legacy_status_json(",\"x\":1}"), "{\"version\":{\"name\":\"Koja\",\"protocol\":78},\"x\":1}");
}

#[test]
fn plugins_choose_the_sample() {
    let player = |n: &str| SamplePlayer { name: n.to_string(), uuid: format!("id-{}", n) };
    let none = vec![PingResponse::Other];
    assert_eq!(status_response(47, 100, 2, &none, "S"), status_json(47, "S"));
    let some = vec![
        PingResponse::Other,
        PingResponse::UpdatePlayerSample(vec![player("a"), player("b")]),
        PingResponse::UpdatePlayerSample(vec![]),
    ];
    assert_eq!(
        status_response(47, 100, 2, &some, ",S"),
        "{\"version\":{\"name\":\"Koja\",\"protocol\":\"47\"},\"players\":{\"max\":100,\"online\":2,\"sample\":[\
         {\"name\":\"a\",\"uuid\":\"id-a\"},{\"name\":\"b\",\"uuid\":\"id-b\"}]},S}"
    );
    let empty = vec![PingResponse::UpdatePlayerSample(vec![])];
    assert_eq!(
        status_response(5, 1, 0, &empty, ""),
        "{\"version\":{\"name\":\"Koja\",\"protocol\":\"5\"},\"players\":{\"max\":1,\"online\":0,\"sample\":[]}}"
    );
}

// Farewells.

#[test]
fn farewells_fit_the_phase() {
    let auth = ConnectionError::Auth("no \"entry\"\u{8}".to_string());
    let json = "{\"color\":\"red\",\"text\":\"Disconnected: no \\\"entry\\\"\\b\"}".to_string();
    assert_eq!(graceful_kick(&auth, "shown", ConnectionState::Login), Some(Kick::Login(json.clone())));
    assert_eq!(graceful_kick(&auth, "shown", ConnectionState::Configuration), Some(Kick::Login(json.clone())));
    assert_eq!(graceful_kick(&auth, "shown", ConnectionState::Play), Some(Kick::Play(json)));
    assert_eq!(graceful_kick(&auth, "shown", ConnectionState::Status), None);
    assert_eq!(graceful_kick(&auth, "shown", ConnectionState::Handshaking), None);
    assert_eq!(
        graceful_kick(&ConnectionError::Protocol, "bad\u{c}packet\u{1}", ConnectionState::Play),
        Some(Kick::Play("{\"color\":\"red\",\"text\":\"Disconnected: bad\\fpacket\\u0001\"}".to_string()))
    );
    assert_eq!(graceful_kick(&ConnectionError::Closed, "x", ConnectionState::Play), None);
    assert_eq!(graceful_kick(&ConnectionError::Io, "x", ConnectionState::Login), None);
    assert!(client_gone(&ConnectionError::Io));
    assert!(!client_gone(&ConnectionError::Protocol));
}

// Frames.

#[test]
fn legacy_frames() {
    assert_eq!(&legacy_kick("Hi")[..], &[0xFF, 0, 2, 0, b'H', 0, b'i']);
    assert_eq!(
        &legacy_login()[..],
        &[1, 0, 0, 0, 0, 0, 4, 0, b'f', 0, b'l', 0, b'a', 0, b't', 3, 0, 0, 0, 20]
    );
    assert!(is_pre_netty_proto(78));
    assert!(!is_pre_netty_proto(5));
}

#[test]
fn compression_from_1_8_on() {
    assert!(!takes_compression(78));
    assert!(!takes_compression(5));
    assert!(takes_compression(47));
    assert!(takes_compression(765));
}

#[test]
fn missing_packets_are_not_written() {
    assert!(typed_packet(0xFF, b"abc").is_none());
    assert_eq!(&raw_packet(0xFF, b"abc")[..], &[0xFF, 0x01, b'a', b'b', b'c']);
    assert_eq!(&typed_packet(0x80, b"abc").unwrap()[..], &[0x80, 0x01, b'a', b'b', b'c']);
}

#[test]
fn encryption_responses_read_by_epoch() {
    let short = join(&[&varint(1), &[0, 2, 7, 8, 0, 1, 9]]);
    assert_eq!(read_encryption_response(short.clone(), 5), Some(Ok((vec![7, 8], vec![9]))));
    let long = join(&[&varint(1), &varint(2), &[7, 8], &varint(1), &[9]]);
    assert_eq!(read_encryption_response(long.clone(), 47), Some(Ok((vec![7, 8], vec![9]))));
    assert_eq!(read_encryption_response(varint(1), 5), Some(Err(ConnectionError::Protocol)));
    assert_eq!(read_encryption_response(varint(1), 47), Some(Err(ConnectionError::Protocol)));
    assert_eq!(read_encryption_response(Bytes::new(), 47), Some(Err(ConnectionError::Protocol)));
    assert_eq!(read_encryption_response(long.slice(..3), 47), None);
    assert_eq!(read_encryption_response(short.slice(..5), 5), Some(Err(ConnectionError::Protocol)));
    assert_eq!(read_encryption_response(join(&[&varint(1), &[0x80, 0]]), 5), None);
}

fn request() -> EncryptionRequest {
    EncryptionRequest { server_id: "".to_string(), public_key: vec![1, 2, 3], verify_token: vec![4, 5] }
}

#[test]
fn encryption_requests_come_back() {
    for epoch in [Epoch::V1_7, Epoch::V1_8, Epoch::V1_20] {
        let mut w = Writer::new();
        encode_encryption_request(epoch, &request(), &mut w);
        let bytes = w.freeze();
        if epoch == Epoch::V1_7 {
            assert_eq!(&bytes[..], &[0, 0, 3, 1, 2, 3, 0, 2, 4, 5]);
        } else {
            assert_eq!(&bytes[..], &[0, 3, 1, 2, 3, 2, 4, 5]);
        }
        assert_eq!(decode_encryption_request(epoch, bytes.clone()), Some(Ok(request())));
        for n in 0..bytes.len() {
            assert_eq!(
                decode_encryption_request(epoch, bytes.slice(..n)),
                Some(Err(ConnectionError::Protocol))
            );
        }
    }
    assert_eq!(decode_encryption_request(Epoch::V1_7, Bytes::from_static(&[0, 0xFF, 0xFF])), None);
    assert_eq!(
        decode_encryption_request(Epoch::V1_7, Bytes::from_static(&[0, 0x80, 0x00])),
        Some(Err(ConnectionError::Protocol))
    );
}

// The login.

#[test]
fn logins_with_encryption() {
    let mut d = LoginDialogue::new(765, -1);
    assert_eq!(d.on_event(&AuthOutbound::EncryptionRequest), AuthAction::SendEncryptionRequest);
    assert_eq!(d.end_round(), Ok(()));
    assert_eq!(d.on_event(&AuthOutbound::EncryptionRequest), AuthAction::Ignore);
    assert_eq!(d.on_event(&AuthOutbound::EnableEncryption), AuthAction::EnableEncryption);
    assert_eq!(d.on_event(&AuthOutbound::SetCompression(256)), AuthAction::SendSetCompression(256));
    assert_eq!(d.threshold, 256);
    assert_eq!(d.on_event(&AuthOutbound::LoginSuccess), AuthAction::Finalise);
    assert_eq!(d.end_round(), Err(ConnectionError::Auth("Authentication failed".to_string())));
}

#[test]
fn older_clients_keep_their_threshold() {
    let mut d = LoginDialogue::new(5, -1);
    assert_eq!(d.on_event(&AuthOutbound::SetCompression(256)), AuthAction::Ignore);
    assert_eq!(d.threshold, -1);
    assert_eq!(
        d.on_event(&AuthOutbound::LoginDisconnect("no".to_string())),
        AuthAction::Refuse("no".to_string())
    );
    assert_eq!(d.end_round(), Err(ConnectionError::Auth("Authentication failed".to_string())));
}

// The backend.

#[test]
fn forwarding_modes() {
    let (bungeecord, off, velocity) = (ForwardingMode::Bungeecord, ForwardingMode::Off, ForwardingMode::Velocity);
    assert_eq!(effective_forwarding_mode(Some(velocity), off, true), velocity);
    assert_eq!(effective_forwarding_mode(Some(off), velocity, true), off);
    assert_eq!(effective_forwarding_mode(None, off, true), bungeecord);
    assert_eq!(effective_forwarding_mode(None, off, false), off);
    assert_eq!(effective_forwarding_mode(None, velocity, true), velocity);
}

#[test]
fn protocols_of_servers() {
    let lobby = Lobby { name: "lobby".to_string(), protocol: 754 };
    let servers = vec![
        ServerConfig { name: "a".to_string(), backend_protocol: 340 },
        ServerConfig { name: "b".to_string(), backend_protocol: 0 },
        ServerConfig { name: "lobby".to_string(), backend_protocol: 47 },
        ServerConfig { name: "b".to_string(), backend_protocol: 47 },
    ];
    let (a, b, l, x) = ("a".to_string(), "b".to_string(), "lobby".to_string(), "x".to_string());
    assert_eq!(backend_protocol_for(Some(&l), &lobby, &servers, 765), 754);
    assert_eq!(backend_protocol_for(Some(&a), &lobby, &servers, 765), 340);
    assert_eq!(backend_protocol_for(Some(&b), &lobby, &servers, 765), 765);
    assert_eq!(backend_protocol_for(Some(&b), &lobby, &servers, 47), 340);
    assert_eq!(backend_protocol_for(Some(&x), &lobby, &servers, 5), 340);
    assert_eq!(backend_protocol_for(None, &lobby, &servers, 78), 78);
    assert_eq!(
        relay_plan(Some(&l), &lobby, &servers, 754),
        RelayPlan { backend_protocol: 754, sides_differ: false, conversion_enabled: true }
    );
    assert_eq!(
        relay_plan(Some(&l), &lobby, &servers, 765),
        RelayPlan { backend_protocol: 754, sides_differ: true, conversion_enabled: true }
    );
    assert_eq!(
        relay_plan(Some(&a), &lobby, &servers, 47),
        RelayPlan { backend_protocol: 340, sides_differ: true, conversion_enabled: false }
    );
    assert_eq!(
        relay_plan(None, &lobby, &servers, 765),
        RelayPlan { backend_protocol: 765, sides_differ: false, conversion_enabled: false }
    );
}

#[test]
fn addresses_for_servers() {
    assert_eq!(clean_host("host\0FML\0"), "host");
    assert_eq!(clean_host("host"), "host");
    assert_eq!(clean_host("\0x"), "");
    assert_eq!(fml_marker(ModloaderKind::Fml1), "\0FML\0");
    assert_eq!(fml_marker(ModloaderKind::Fml2), "\0FML2\0");
    assert_eq!(fml_marker(ModloaderKind::Fabric), "");
    let good = Ok("+suffix".to_string());
    let kind = ModloaderKind::Fml3;
    let at = |mode, forge| handshake_address("h", mode, forge, kind, &good, "marked").unwrap();
    assert_eq!(at(ForwardingMode::Bungeecord, true), "h+suffix\0FML3\0");
    assert_eq!(at(ForwardingMode::Bungeecord, false), "h+suffix");
    assert_eq!(at(ForwardingMode::Velocity, true), "marked");
    assert_eq!(at(ForwardingMode::Off, true), "marked");
    assert_eq!(at(ForwardingMode::Off, false), "h");
    assert_eq!(
        handshake_address("h", ForwardingMode::Bungeecord, true, kind, &Err("bad ip".to_string()), ""),
        Err(ConnectionError::Auth("Failed to create Bungeecord suffix: bad ip".to_string()))
    );
}

fn ids() -> LoginIds {
    LoginIds {
        encryption_request: 1,
        set_compression: 3,
        login_success: 2,
        login_plugin: 4,
        login_disconnect: 0,
        plugin_response: 2,
        client_encryption_request: 1,
    }
}

fn backend(client: u32, server: u32, velocity: bool, has_secret: bool) -> BackendLogin {
    BackendLogin { ids: ids(), backend_protocol: server, client_protocol: client, velocity, has_secret, threshold: -1 }
}

#[test]
fn backend_logins_go_their_way() {
    let mut l = backend(765, 765, true, true);
    assert!(matches!(l.on_packet(join(&[&varint(3), &varint(256)]), false), Some(BackendStep::Continue)));
    assert_eq!(l.threshold, 256);
    let question = join(&[&varint(4), &varint(77), &text("velocity:player_info"), &[1]]);
    assert!(matches!(
        l.on_packet(question.clone(), false),
        Some(BackendStep::Answer { message_id: 77, signed: true })
    ));
    assert_eq!(question_channel(&question, &ids()), Some("velocity:player_info".to_string()));
    assert_eq!(question_channel(&varint(2), &ids()), None);
    assert!(matches!(
        backend(765, 765, true, false).on_packet(question.clone(), false),
        Some(BackendStep::Answer { message_id: 77, signed: false })
    ));
    match backend(765, 765, false, true).on_packet(question.clone(), true) {
        Some(BackendStep::AskClient { message_id, request }) => {
            assert_eq!(message_id, 77);
            assert_eq!(request, question);
        }
        _ => panic!("the client is asked"),
    }
    assert!(matches!(
        backend(765, 765, false, true).on_packet(question, false),
        Some(BackendStep::Answer { message_id: 77, signed: false })
    ));
    assert_eq!(l.is_answer(&varint(2)), Ok(true));
    assert_eq!(l.is_answer(&varint(9)), Ok(false));
    assert_eq!(l.is_answer(&Bytes::new()), Err(ConnectionError::Protocol));
    assert!(matches!(l.on_packet(varint(2), false), Some(BackendStep::Complete)));
    assert!(matches!(l.on_packet(varint(0), false), Some(BackendStep::Failed(ConnectionError::Closed))));
    assert!(matches!(l.on_packet(varint(99), false), Some(BackendStep::Continue)));
    assert!(matches!(l.on_packet(Bytes::new(), false), Some(BackendStep::Failed(ConnectionError::Protocol))));
    assert!(matches!(l.on_packet(varint(3), false), Some(BackendStep::Failed(ConnectionError::Protocol))));
    assert!(matches!(l.on_packet(varint(4), false), Some(BackendStep::Failed(ConnectionError::Protocol))));
}

#[test]
fn requests_to_encrypt_are_rewritten_between_epochs() {
    let mut w = Writer::new();
    w.varint(1);
    encode_encryption_request(Epoch::V1_7, &request(), &mut w);
    let from_1_7 = w.freeze();
    match backend(340, 5, false, false).on_packet(from_1_7.clone(), false) {
        Some(BackendStep::ToClient(b)) => {
            let mut want = Writer::new();
            want.varint(1);
            encode_encryption_request(Epoch::V1_9_To_1_12, &request(), &mut want);
            assert_eq!(b, want.freeze());
        }
        _ => panic!("a request for the client"),
    }
    // Within an epoch it is passed over.
    assert!(matches!(backend(5, 5, false, false).on_packet(from_1_7, false), Some(BackendStep::Continue)));
    assert!(matches!(
        backend(340, 5, false, false).on_packet(varint(1), false),
        Some(BackendStep::Failed(ConnectionError::Protocol))
    ));
    assert!(backend(340, 5, false, false).on_packet(Bytes::from_static(&[1, 0, 0xFF, 0xFE]), false).is_none());
}

#[test]
fn configuration_needs_both_sides() {
    assert!(enters_configuration(765, 764));
    assert!(!enters_configuration(763, 765));
    assert!(!enters_configuration(765, 763));
}

fn config() -> ConfigPhase {
    ConfigPhase::new(ConfigIds { finish: 2, custom: 0, ping: 4, finish_ack: 2 }, ModloaderKind::Unknown)
}

#[test]
fn configuration_packets_come_in_order() {
    let mut p = config();
    let one = Bytes::from_static(&[5, 1]);
    let two = join(&[&varint(0), &text("minecraft:brand"), &[1]]);
    assert!(matches!(p.on_backend(one.clone(), false), ConfigStep::Held));
    assert!(matches!(p.on_backend(two.clone(), false), ConfigStep::Held));
    match p.on_backend(Bytes::from_static(&[4, 9]), false) {
        ConfigStep::AskClient { question, plugin } => {
            assert_eq!(&question[..], &[4, 9]);
            assert!(!plugin);
            assert_eq!(p.check_answer(&Bytes::new(), plugin), Ok(()));
        }
        _ => panic!("a ping goes to the client"),
    }
    let neo = join(&[&varint(0), &text("neoforge:register")]);
    assert_eq!(plugin_channel(&neo, &p.ids), Some("neoforge:register".to_string()));
    match p.on_backend(neo.clone(), true) {
        ConfigStep::AskClient { question, plugin } => {
            assert_eq!(question, neo);
            assert!(plugin);
            assert_eq!(p.check_answer(&Bytes::new(), plugin), Err(ConnectionError::Protocol));
            assert_eq!(p.check_answer(&varint(1), plugin), Ok(()));
        }
        _ => panic!("a mod loader's packet goes to the client"),
    }
    assert_eq!(p.kind, ModloaderKind::NeoForge);
    assert!(matches!(p.on_backend(Bytes::new(), false), ConfigStep::Failed(ConnectionError::Protocol)));
    match p.on_backend(varint(2), false) {
        ConfigStep::Finish(all) => assert_eq!(all, vec![one, two, build_payload(2, &[])]),
        _ => panic!("the end"),
    }
    assert_eq!(p.agrees(&varint(1)), Ok(false));
    assert_eq!(p.agrees(&Bytes::new()), Err(ConnectionError::Protocol));
    assert!(!p.handshake_complete);
    assert_eq!(p.agrees(&varint(2)), Ok(true));
    assert!(p.handshake_complete);
}

#[test]
fn channels_show_mod_loaders() {
    assert_eq!(detected(ModloaderKind::Unknown, "neoforge:x"), ModloaderKind::NeoForge);
    assert_eq!(detected(ModloaderKind::Unknown, "fabric-api"), ModloaderKind::Fabric);
    assert_eq!(detected(ModloaderKind::Unknown, "c:register"), ModloaderKind::Fabric);
    assert_eq!(detected(ModloaderKind::Unknown, "forge:x"), ModloaderKind::Unknown);
    assert_eq!(detected(ModloaderKind::Fml3, "neoforge:x"), ModloaderKind::Fml3);
}

#[test]
fn the_way_to_a_server() {
    let mut a = Attempt::join();
    for well in [true, true, true, true] {
        a = a.next(well);
    }
    assert_eq!(a, Attempt::Connected);
    for failing in 0..4 {
        let mut a = Attempt::join();
        for _ in 0..failing {
            a = a.next(true);
        }
        assert_eq!(a.next(false), Attempt::Limbo);
    }
    assert_eq!(Attempt::switch().next(true).next(true).next(true), Attempt::Connected);
    assert_eq!(Attempt::switch().next(true).next(false), Attempt::Failed);
    assert_eq!(Attempt::switch().next(false), Attempt::Failed);
}

// The session.

fn auth(s: &str) -> ConnectionError {
    ConnectionError::Auth(s.to_string())
}

#[test]
fn a_join_without_a_database() {
    let mut j = Join::new(false, false, false, false, false);
    assert_eq!(j.begin(), vec![JoinAction::SendSuccess]);
    assert_eq!(j.step(JoinEvent::Sent), vec![JoinAction::OpenSession("PLAYER".to_string()), JoinAction::AnnounceJoin]);
    assert!(j.open);
    assert_eq!(j.step(JoinEvent::Vetoed(false)), vec![JoinAction::RecordJoin, JoinAction::ConnectBackend]);
    assert_eq!(j.step(JoinEvent::Connected), vec![JoinAction::EnterPlay, JoinAction::Relay]);
    assert_eq!(j.step(JoinEvent::Switch("b".to_string())), vec![JoinAction::SwitchTo("b".to_string())]);
    assert_eq!(j.step(JoinEvent::Connected), vec![JoinAction::Relay]);
    assert_eq!(
        j.step(JoinEvent::Kicked("full".to_string(), "c".to_string())),
        vec![
            JoinAction::TellPlayer("You were kicked from the server: full".to_string()),
            JoinAction::SwitchTo("c".to_string()),
        ]
    );
    assert_eq!(j.step(JoinEvent::Connected), vec![JoinAction::Relay]);
    assert_eq!(
        j.step(JoinEvent::Disconnected),
        vec![
            JoinAction::CloseSession,
            JoinAction::StopMetrics,
            JoinAction::AnnounceLeave,
            JoinAction::RecordLeave,
            JoinAction::Finish(Ok(())),
        ]
    );
    assert!(!j.open);
    assert_eq!(j.phase, Phase::Over);
}

#[test]
fn a_join_with_everything() {
    let mut j = Join::new(true, true, false, true, true);
    assert_eq!(j.begin(), vec![JoinAction::FindBan]);
    assert_eq!(j.step(JoinEvent::Ban(None)), vec![JoinAction::VerifyProperties]);
    assert_eq!(j.step(JoinEvent::Verified), vec![JoinAction::CacheProfile, JoinAction::SendSuccess]);
    assert_eq!(j.step(JoinEvent::Sent), vec![JoinAction::StorePlayer]);
    assert_eq!(
        j.step(JoinEvent::Rank(Some("ADMIN".to_string()))),
        vec![JoinAction::OpenSession("ADMIN".to_string()), JoinAction::SendPack, JoinAction::AnnounceJoin]
    );
    assert_eq!(
        j.step(JoinEvent::Vetoed(true)),
        vec![
            JoinAction::CloseSession,
            JoinAction::KickPlay("{\"text\":\"You were not allowed to join.\",\"color\":\"red\"}".to_string()),
            JoinAction::Finish(Err(auth("join rejected by plugin"))),
        ]
    );
}

#[test]
fn bans_and_forgeries_stay_out() {
    let mut j = Join::new(true, true, false, true, false);
    j.begin();
    assert_eq!(
        j.step(JoinEvent::Ban(Some("spam".to_string()))),
        vec![
            JoinAction::KickLogin("{\"color\":\"red\",\"text\":\"You are banned: spam\"}".to_string()),
            JoinAction::Finish(Err(auth("banned: spam"))),
        ]
    );
    let mut j = Join::new(false, true, false, true, false);
    assert_eq!(j.begin(), vec![JoinAction::VerifyProperties]);
    assert_eq!(
        j.step(JoinEvent::BadSignature("rsa".to_string())),
        vec![
            JoinAction::KickLogin("{\"color\":\"red\",\"text\":\"Profile signature check failed: rsa\"}".to_string()),
            JoinAction::Finish(Err(auth("bad signature: rsa"))),
        ]
    );
    let mut j = Join::new(false, true, false, true, false);
    j.begin();
    assert_eq!(j.step(JoinEvent::BadKey), vec![JoinAction::SendSuccess]);
}

#[test]
fn legacy_players_get_their_skins_back() {
    let mut j = Join::new(true, true, true, false, false);
    j.begin();
    assert_eq!(j.step(JoinEvent::Ban(None)), vec![JoinAction::RestoreProfile]);
    assert_eq!(j.step(JoinEvent::Restored(true)), vec![JoinAction::SendSuccess]);
    assert!(j.has_properties);
    assert_eq!(j.step(JoinEvent::Sent), vec![JoinAction::StorePlayer]);
    assert_eq!(
        j.step(JoinEvent::Rank(None)),
        vec![JoinAction::OpenSession("PLAYER".to_string()), JoinAction::AnnounceJoin]
    );
}

#[test]
fn failures_end_joins() {
    let mut j = Join::new(false, false, false, false, false);
    j.begin();
    assert_eq!(
        j.step(JoinEvent::Failed(ConnectionError::Io, "io".to_string())),
        vec![JoinAction::Finish(Err(ConnectionError::Io))]
    );

    let connecting = || {
        let mut j = Join::new(false, false, false, false, false);
        j.begin();
        j.step(JoinEvent::Sent);
        j.step(JoinEvent::Vetoed(false));
        j
    };
    assert_eq!(
        connecting().step(JoinEvent::Failed(auth("x"), "auth: x".to_string())),
        vec![
            JoinAction::CloseSession,
            JoinAction::KickPlay("{\"text\":\"Could not connect to any backend server.\",\"color\":\"red\"}".to_string()),
            JoinAction::Finish(Err(auth("x"))),
        ]
    );
    assert_eq!(
        connecting().step(JoinEvent::Failed(ConnectionError::Closed, "closed".to_string())),
        vec![JoinAction::CloseSession, JoinAction::Finish(Err(ConnectionError::Closed))]
    );

    let end = |shown: &str, e: ConnectionError| {
        vec![
            JoinAction::CloseSession,
            JoinAction::StopMetrics,
            JoinAction::AnnounceLeave,
            JoinAction::RecordLeave,
            JoinAction::KickPlay(format!("{{\"text\":\"{}\",\"color\":\"red\"}}", shown)),
            JoinAction::Finish(Err(e)),
        ]
    };
    let relaying = || {
        let mut j = connecting();
        j.step(JoinEvent::Connected);
        j
    };
    assert_eq!(
        relaying().step(JoinEvent::Failed(auth("x"), "auth: x".to_string())),
        end("auth: x", auth("x"))
    );
    let mut j = relaying();
    j.step(JoinEvent::Kicked("r".to_string(), "f".to_string()));
    assert_eq!(j.step(JoinEvent::Failed(auth("y"), "auth: y".to_string())), end("auth: y", auth("y")));
    let mut j = relaying();
    j.step(JoinEvent::Switch("s".to_string()));
    let mut want = vec![JoinAction::KickPlay(
        "{\"text\":\"Failed to connect to that server.\",\"color\":\"red\"}".to_string(),
    )];
    want.extend(end("auth: z", auth("z")));
    assert_eq!(j.step(JoinEvent::Failed(auth("z"), "auth: z".to_string())), want);
}
