//! Laws of a connection's life: what is read from bytes that were written so, and what is done
//! at each turn.

use crate::connection::attempt::{after_attempts, Attempt};
use crate::connection::backend::{
    clean_host_of, configured_protocol, forwarding_mode, handshake_address_of, relay_plan_of, server_protocol,
    ForwardingMode, Lobby, ModloaderKind, ServerConfig,
};
use crate::connection::backend_login::{logged_in, BackendLogin, Step};
use crate::connection::cipher::{aes128, decrypted, encrypted};
use crate::connection::config_phase::{configured, shown_by, ConfigAction, PhaseView};
use crate::connection::error::{farewell, ConnectionState, Failure, KickView};
use crate::connection::frames::{encryption_response_of, knows_compression, request_of, short_lengths, RequestView};
use crate::connection::front::{entered, Came, Due, Front};
use crate::connection::hello::{handshake_of, legacy_handshake_of, login_start_of, HandshakeView};
use crate::connection::identity::{legacy_id, login_id, Lookup};
use crate::connection::legacy::{legacy_stepped, LegacyCame, LegacyDue, LegacyView};
use crate::connection::login::{asked_for, round_ended, Asked, Done, LoginDialogue};
use crate::connection::session::{begun, stepped, Action, Event, Join, Phase};
use crate::connection::status::{first_sample, sample_list, sampled_status_of, PingResponse, SamplePlayer};
use crate::converter::laws::fields::{
    fields_read, i32_field, sendable, sendable_before_1_7, text_field, u16_field, u64_field, ucs2_field,
    varint_field,
};
use crate::converter::outcome::packet;
use crate::ident::offline_id;
use crate::text::{
    begins_with, decimal, divided, red_line, string_at, ucs2_at, ucs2_string, undivided, utf16, utf16_round_trip, wire_string,
};
use crate::varint::{varint, varint_at};
use crate::version::Epoch;
use crate::wire::{i32_at, u16_at};
use vstd::prelude::*;

verus! {

// What clients say.

/// A handshake reads as it was written: behind its number stand the protocol, the address, the
/// port and what the client wants next.
pub proof fn handshake_reads(id: i32, protocol: i32, address: Seq<char>, port: u16, next: i32, rest: Seq<u8>)
    requires
        sendable(address),
    ensures
        handshake_of(
            varint_field(id) + varint_field(protocol) + text_field(address) + u16_field(port) + varint_field(next)
                + rest,
        ) == Some(HandshakeView { protocol: protocol as u32, address, port, next_state: next }),
{
    broadcast use fields_read;

    let b = varint_field(id) + varint_field(protocol) + text_field(address) + u16_field(port) + varint_field(next)
        + rest;
    let p: int = varint_field(id).len() as int;
    let q: int = p + varint_field(protocol).len();
    let r: int = q + text_field(address).len();
    let s: int = r + 2 + varint_field(next).len();
    assert(varint_at(b, 0) == Some((id, p)));
    assert(varint_at(b, p) == Some((protocol, q)));
    assert(string_at(b, q) == Some((address, r)));
    assert(u16_at(b, r) == port);
    assert(varint_at(b, r + 2) == Some((next, s)));
}

/// The login of a 1.6 client reads as it was written: the protocol, the name, the host and the
/// port.
pub proof fn legacy_handshake_reads(protocol: u8, name: Seq<char>, host: Seq<char>, port: i32, rest: Seq<u8>)
    requires
        sendable_before_1_7(name),
        sendable_before_1_7(host),
    ensures
        legacy_handshake_of(seq![protocol] + ucs2_field(name) + ucs2_field(host) + i32_field(port) + rest)
            == Some((protocol, name, host, port)),
{
    broadcast use fields_read;

    utf16_round_trip(name);
    utf16_round_trip(host);
    let b = seq![protocol] + ucs2_field(name) + ucs2_field(host) + i32_field(port) + rest;
    let p: int = 1 + ucs2_field(name).len() as int;
    let q: int = p + ucs2_field(host).len();
    assert(b[0] == protocol);
    assert(ucs2_at(b, 1) == Some((utf16(name), p)));
    assert(ucs2_at(b, p) == Some((utf16(host), q)));
    assert(i32_at(b, q) == port);
}

/// The start of a login: before protocol 761 it names no id, from 764 on it always does, and
/// between them it does behind a flag. An id that is cut off fails.
pub proof fn login_start_reads(
    id: i32,
    name: Seq<char>,
    hi: u64,
    lo: u64,
    flag: u8,
    rest: Seq<u8>,
    protocol: u32,
)
    requires
        sendable(name),
        flag != 0,
    ensures
        protocol < 761 ==> login_start_of(varint_field(id) + text_field(name) + rest, protocol) == Ok::<
            (Seq<char>, Option<(u64, u64)>),
            Failure,
        >((name, None)),
        protocol >= 764 ==> login_start_of(
            varint_field(id) + text_field(name) + u64_field(hi) + u64_field(lo) + rest,
            protocol,
        ) == Ok::<(Seq<char>, Option<(u64, u64)>), Failure>((name, Some((hi, lo)))),
        protocol >= 764 && rest.len() < 16 ==> login_start_of(
            varint_field(id) + text_field(name) + rest,
            protocol,
        ) == Err::<(Seq<char>, Option<(u64, u64)>), Failure>(
            Failure::Auth("failed to decode client UUID"@),
        ),
        761 <= protocol < 764 ==> login_start_of(
            varint_field(id) + text_field(name) + seq![flag] + u64_field(hi) + u64_field(lo) + rest,
            protocol,
        ) == Ok::<(Seq<char>, Option<(u64, u64)>), Failure>((name, Some((hi, lo)))),
        761 <= protocol < 764 ==> login_start_of(
            varint_field(id) + text_field(name) + seq![0u8] + rest,
            protocol,
        ) == Ok::<(Seq<char>, Option<(u64, u64)>), Failure>((name, None)),
        761 <= protocol < 764 ==> login_start_of(varint_field(id) + text_field(name), protocol) == Ok::<
            (Seq<char>, Option<(u64, u64)>),
            Failure,
        >((name, None)),
{
    broadcast use fields_read;
}

/// The answer to a request to encrypt holds the secret first and then the token, each behind
/// its length.
pub proof fn encryption_response_reads(id: i32, secret: Seq<u8>, token: Seq<u8>, rest: Seq<u8>)
    requires
        secret.len() < 0x8000,
        token.len() < 0x8000,
    ensures
        encryption_response_of(
            varint_field(id) + varint_field(secret.len() as i32) + secret + varint_field(token.len() as i32) + token
                + rest,
            false,
        ) == Some(Ok::<(Seq<u8>, Seq<u8>), Failure>((secret, token))),
        encryption_response_of(
            varint_field(id) + u16_field(secret.len() as u16) + secret + u16_field(token.len() as u16) + token + rest,
            true,
        ) == Some(Ok::<(Seq<u8>, Seq<u8>), Failure>((secret, token))),
{
    broadcast use fields_read;

    let (n, m) = (secret.len() as i32, token.len() as i32);
    let front = varint_field(id) + varint_field(n);
    let half = front + secret + varint_field(m);
    let b = half + token + rest;
    let p: int = varint_field(id).len() as int;
    let q: int = front.len() as int;
    let r: int = half.len() as int;
    assert(varint_at(b, 0) == Some((id, p)));
    assert(varint_at(b, p) == Some((n, q)));
    assert(varint_at(b, q + n) == Some((m, r)));
    assert(b.subrange(q, q + n) =~= secret);
    assert(b.subrange(r, r + m) =~= token);
    let front2 = varint_field(id) + u16_field(secret.len() as u16);
    let half2 = front2 + secret + u16_field(token.len() as u16);
    let c = half2 + token + rest;
    let s: int = p + 2 + n;
    assert(varint_at(c, 0) == Some((id, p)));
    assert(u16_at(c, p) == secret.len());
    assert(u16_at(c, s) == token.len());
    assert(c.subrange(p + 2, s) =~= secret);
    assert(c.subrange(s + 2, s + 2 + m) =~= token);
}

/// Only 1.7 writes the lengths of an encryption exchange as 16 bits, and packets are compressed
/// from 1.8 on.
pub proof fn protocols_differ(protocol: u32)
    ensures
        short_lengths(protocol) <==> protocol < 47,
        knows_compression(protocol) <==> protocol >= 47 && !(73 <= protocol && protocol <= 78),
{
}

// The front door.

/// What the first bytes of a connection lead to.
pub proof fn front_door(f: Front, byte: u8, probe: Seq<u8>)
    ensures
        entered(f, Came::FirstByte(Some(0xFE))) == (f, Due::AnswerLegacyPing),
        entered(f, Came::FirstByte(Some(0x05))) == (f, Due::Probe),
        entered(f, Came::FirstByte(Some(0x02))) == (f, Due::LegacyLogin),
        byte != 0xFE && byte != 0x05 && byte != 0x02 ==> entered(f, Came::FirstByte(Some(byte))) == (
            f,
            Due::ReadHandshake(byte),
        ),
        entered(f, Came::FirstByte(None)) == (f, Due::Fail(Failure::Io)),
        entered(f, Came::Packet(None)) == (f, Due::Fail(Failure::Io)),
        probe == seq![
            0x00u8, 0xff, 0xff, 0x00, 0xfe, 0xfe, 0xfe, 0xfe, 0xfd, 0xfd, 0xfd, 0xfd, 0x12, 0x34, 0x56, 0x78,
        ] ==> entered(f, Came::Probe(Some(probe))) == (
            f,
            Due::RefuseBedrock(seq![0x19u8, 0x00] + probe + seq![0u8, 0, 0, 0, 0, 0, 0, 0]),
        ),
        probe != seq![
            0x00u8, 0xff, 0xff, 0x00, 0xfe, 0xfe, 0xfe, 0xfe, 0xfd, 0xfd, 0xfd, 0xfd, 0x12, 0x34, 0x56, 0x78,
        ] ==> entered(f, Came::Probe(Some(probe))) == (f, Due::ReadHandshake(0x05)),
        entered(f, Came::Probe(None)) == (f, Due::ReadHandshake(0x05)),
{
}

/// A handshake that asks for the status shows the server list, one that asks for a login goes
/// on to it with the address, and any other ends the connection.
pub proof fn handshakes_lead_on(f: Front, b: Seq<u8>, h: HandshakeView)
    requires
        handshake_of(b) == Some(h),
    ensures
        entered(f, Came::Packet(Some(b))).0.protocol == h.protocol,
        h.next_state == 1 ==> entered(f, Came::Packet(Some(b))).1 == Due::Status,
        h.next_state == 2 ==> entered(f, Came::Packet(Some(b))).1 == Due::Login(h.address),
        h.next_state != 1 && h.next_state != 2 ==> entered(f, Came::Packet(Some(b))).1 == Due::Fail(
            Failure::Closed,
        ),
{
}

// Who a player is.

/// The owner of an account goes by its id. A name without one goes by the id that its name
/// gives, but where accounts are asked for it stays out.
pub proof fn legacy_players_go_by(id: (u64, u64), name: Seq<char>, online_mode: bool)
    ensures
        legacy_id(Lookup::Found(id), online_mode, name) == Some(id),
        legacy_id(Lookup::NotFound, true, name) is None,
        legacy_id(Lookup::NotFound, false, name) == Some(offline_id(name)),
        legacy_id(Lookup::Failed, online_mode, name) == Some(offline_id(name)),
{
}

/// Where accounts are checked, the client's word counts. Elsewhere the stored id comes first,
/// then the client's word, then a new id.
pub proof fn ids_in_order(
    stored: (u64, u64),
    claimed: (u64, u64),
    new: (u64, u64),
    any_stored: Option<(u64, u64)>,
    any_claimed: Option<(u64, u64)>,
)
    ensures
        login_id(true, any_stored, any_claimed, new) == any_claimed,
        login_id(false, Some(stored), any_claimed, new) == Some(stored),
        login_id(false, None, Some(claimed), new) == Some(claimed),
        login_id(false, None, None, new) == Some(new),
{
}

/// The login of a 1.6 client: what it sends leads to the question for its account, the account
/// to the end of the login, and the end of the login to the end of the connection.
pub proof fn legacy_login_in_turn(
    l: LegacyView,
    protocol: u8,
    name: Seq<char>,
    host: Seq<char>,
    port: i32,
    rest: Seq<u8>,
    id: (u64, u64),
)
    requires
        sendable_before_1_7(name),
        sendable_before_1_7(host),
    ensures
        ({
            let b = seq![protocol] + ucs2_field(name) + ucs2_field(host) + i32_field(port) + rest;
            let (after, due) = legacy_stepped(l, LegacyCame::Body(b));
            &&& due == LegacyDue::AskAccount
            &&& after.protocol == protocol
            &&& after.username == name
            &&& after.host == host
            &&& after.online_mode == l.online_mode
        }),
        legacy_stepped(l, LegacyCame::Body(seq![])).1 == LegacyDue::Kick(
            seq![0xFFu8] + ucs2_string("1.6.4 login is not yet supported by this proxy. Use 1.7+ to connect."@),
        ),
        legacy_stepped(l, LegacyCame::Account(Lookup::Found(id))) == (l, LegacyDue::Finalise(id)),
        l.online_mode ==> legacy_stepped(l, LegacyCame::Account(Lookup::NotFound)) == (
            l,
            LegacyDue::Refuse(
                seq![0xFFu8] + ucs2_string(
                    "This server requires a Minecraft.net account. The username you joined with isn't registered."@,
                ),
            ),
        ),
        !l.online_mode ==> legacy_stepped(l, LegacyCame::Account(Lookup::NotFound)) == (
            l,
            LegacyDue::Finalise(offline_id(l.username)),
        ),
        legacy_stepped(l, LegacyCame::Account(Lookup::Failed)) == (
            l,
            LegacyDue::Finalise(offline_id(l.username)),
        ),
        legacy_stepped(l, LegacyCame::Finalised(true)) == (l, LegacyDue::End),
        legacy_stepped(l, LegacyCame::Finalised(false)).1 == LegacyDue::Kick(
            seq![0xFFu8] + ucs2_string("1.6.4 login is not yet supported by this proxy. Use 1.7+ to connect."@),
        ),
{
    legacy_handshake_reads(protocol, name, host, port, rest);
}

/// What the authentication asks for is done: encryption is requested until it was answered,
/// compression is set for clients that know it, and an answer is awaited once, behind the
/// request.
pub proof fn authentication_in_turn(d: LoginDialogue, threshold: i32, reason: Seq<char>)
    ensures
        !d.answered ==> asked_for(d, Asked::EncryptionRequest) == (
            LoginDialogue { requested: true, ..d },
            Done::SendEncryptionRequest,
        ),
        d.answered ==> asked_for(d, Asked::EncryptionRequest) == (d, Done::Ignore),
        d.protocol >= 107 ==> asked_for(d, Asked::SetCompression(threshold)) == (
            LoginDialogue { threshold, ..d },
            Done::SendSetCompression(threshold),
        ),
        d.protocol < 47 ==> asked_for(d, Asked::SetCompression(threshold)) == (d, Done::Ignore),
        asked_for(d, Asked::LoginSuccess) == (d, Done::Finalise),
        asked_for(d, Asked::LoginDisconnect(reason)) == (d, Done::Refuse(reason)),
        asked_for(d, Asked::EnableEncryption) == (d, Done::EnableEncryption),
        d.requested && !d.answered ==> round_ended(d) == Ok::<LoginDialogue, Failure>(
            LoginDialogue { answered: true, ..d },
        ),
        !d.requested || d.answered ==> round_ended(d) == Err::<LoginDialogue, Failure>(
            Failure::Auth("Authentication failed"@),
        ),
{
}

// The way of a player.

/// The first step: the ban is asked for where there is a database; then properties are checked
/// where accounts are, and restored for clients before 1.7; then the login succeeds.
pub proof fn joins_begin(j: Join, reason: Seq<char>, why: Seq<char>, found: bool)
    ensures
        j.has_db ==> begun(j) == (Join { phase: Phase::Banning, ..j }, seq![Action::FindBan]),
        !j.has_db ==> begun(j) == stepped(j, Event::Ban(None)),
        stepped(j, Event::Ban(Some(reason))) == (
            Join { phase: Phase::Over, ..j },
            seq![
                Action::KickLogin(red_line("You are banned: "@ + reason)),
                Action::Finish(Err(Failure::Auth("banned: "@ + reason))),
            ],
        ),
        j.online_mode && !j.pre_netty && j.has_properties ==> stepped(j, Event::Ban(None)) == (
            Join { phase: Phase::Verifying, ..j },
            seq![Action::VerifyProperties],
        ),
        j.pre_netty && !j.has_properties && j.has_db ==> stepped(j, Event::Ban(None)) == (
            Join { phase: Phase::Restoring, ..j },
            seq![Action::RestoreProfile],
        ),
        !(j.online_mode && !j.pre_netty && j.has_properties) && !(j.pre_netty && !j.has_properties && j.has_db)
            ==> stepped(j, Event::Ban(None)) == (
            Join { phase: Phase::Succeeding, ..j },
            seq![Action::SendSuccess],
        ),
        !j.pre_netty && j.has_db ==> stepped(j, Event::Verified) == (
            Join { phase: Phase::Succeeding, ..j },
            seq![Action::CacheProfile, Action::SendSuccess],
        ),
        !j.pre_netty && !j.has_db ==> stepped(j, Event::Verified) == (
            Join { phase: Phase::Succeeding, ..j },
            seq![Action::SendSuccess],
        ),
        stepped(j, Event::BadSignature(why)) == (
            Join { phase: Phase::Over, ..j },
            seq![
                Action::KickLogin(red_line("Profile signature check failed: "@ + why)),
                Action::Finish(Err(Failure::Auth("bad signature: "@ + why))),
            ],
        ),
        !j.pre_netty ==> stepped(j, Event::BadKey) == (
            Join { phase: Phase::Succeeding, ..j },
            seq![Action::SendSuccess],
        ),
        stepped(j, Event::Restored(found)) == (
            Join { phase: Phase::Succeeding, has_properties: found, ..j },
            seq![Action::SendSuccess],
        ),
{
    assert(seq![Action::CacheProfile] + seq![Action::SendSuccess] =~= seq![
        Action::CacheProfile,
        Action::SendSuccess,
    ]);
}

/// From the success on: the player is stored where there is a database, the session opens with
/// the player's rank, the resource pack is sent where there is one, and the join is announced;
/// unless a plugin objects, the join is recorded and a server is looked for.
pub proof fn joins_go_on(j: Join, rank: Seq<char>)
    ensures
        j.has_db ==> stepped(j, Event::Sent) == (
            Join { phase: Phase::Storing, ..j },
            seq![Action::StorePlayer],
        ),
        !j.has_db ==> stepped(j, Event::Sent) == stepped(j, Event::Rank(Some("PLAYER"@))),
        stepped(j, Event::Rank(None)) == stepped(j, Event::Rank(Some("PLAYER"@))),
        j.has_pack ==> stepped(j, Event::Rank(Some(rank))) == (
            Join { phase: Phase::Announcing, open: true, ..j },
            seq![Action::OpenSession(rank), Action::SendPack, Action::AnnounceJoin],
        ),
        !j.has_pack ==> stepped(j, Event::Rank(Some(rank))) == (
            Join { phase: Phase::Announcing, open: true, ..j },
            seq![Action::OpenSession(rank), Action::AnnounceJoin],
        ),
        stepped(j, Event::Vetoed(false)) == (
            Join { phase: Phase::Connecting, ..j },
            seq![Action::RecordJoin, Action::ConnectBackend],
        ),
        stepped(j, Event::Vetoed(true)) == (
            Join { phase: Phase::Over, open: false, ..j },
            seq![
                Action::CloseSession,
                Action::KickPlay("{\"text\":\"You were not allowed to join.\",\"color\":\"red\"}"@),
                Action::Finish(Err(Failure::Auth("join rejected by plugin"@))),
            ],
        ),
{
    let none = Seq::<Action>::empty();
    assert(seq![Action::OpenSession(rank)] + seq![Action::SendPack] + seq![Action::AnnounceJoin] =~= seq![
        Action::OpenSession(rank),
        Action::SendPack,
        Action::AnnounceJoin,
    ]);
    assert(seq![Action::OpenSession(rank)] + none + seq![Action::AnnounceJoin] =~= seq![
        Action::OpenSession(rank),
        Action::AnnounceJoin,
    ]);
}

/// At a server: the play is entered once, packets are relayed, servers are changed on demand
/// and after a kick, and at the end the session closes, the metrics stop, and the leave is
/// announced and recorded.
pub proof fn play_goes_on(j: Join, target: Seq<char>, reason: Seq<char>, e: Failure, shown: Seq<char>)
    ensures
        j.phase == Phase::Connecting ==> stepped(j, Event::Connected) == (
            Join { phase: Phase::Relaying, ..j },
            seq![Action::EnterPlay, Action::Relay],
        ),
        j.phase is Switching ==> stepped(j, Event::Connected) == (
            Join { phase: Phase::Relaying, ..j },
            seq![Action::Relay],
        ),
        stepped(j, Event::Switch(target)) == (
            Join { phase: Phase::Switching { kicked: false }, ..j },
            seq![Action::SwitchTo(target)],
        ),
        stepped(j, Event::Kicked(reason, target)) == (
            Join { phase: Phase::Switching { kicked: true }, ..j },
            seq![
                Action::TellPlayer("You were kicked from the server: "@ + reason),
                Action::SwitchTo(target),
            ],
        ),
        stepped(j, Event::Disconnected) == (
            Join { phase: Phase::Over, open: false, ..j },
            seq![
                Action::CloseSession,
                Action::StopMetrics,
                Action::AnnounceLeave,
                Action::RecordLeave,
                Action::Finish(Ok(())),
            ],
        ),
        j.phase == Phase::Succeeding ==> stepped(j, Event::Failed(e, shown)) == (
            Join { phase: Phase::Over, ..j },
            seq![Action::Finish(Err(e))],
        ),
        j.phase == Phase::Connecting && !(e is Closed || e is Io) ==> stepped(j, Event::Failed(e, shown)) == (
            Join { phase: Phase::Over, open: false, ..j },
            seq![
                Action::CloseSession,
                Action::KickPlay("{\"text\":\"Could not connect to any backend server.\",\"color\":\"red\"}"@),
                Action::Finish(Err(e)),
            ],
        ),
        j.phase == Phase::Connecting && (e is Closed || e is Io) ==> stepped(j, Event::Failed(e, shown)) == (
            Join { phase: Phase::Over, open: false, ..j },
            seq![Action::CloseSession, Action::Finish(Err(e))],
        ),
        j.phase == Phase::Relaying && (e is Closed || e is Io) ==> stepped(j, Event::Failed(e, shown)) == (
            Join { phase: Phase::Over, open: false, ..j },
            seq![
                Action::CloseSession,
                Action::StopMetrics,
                Action::AnnounceLeave,
                Action::RecordLeave,
                Action::Finish(Err(e)),
            ],
        ),
        (j.phase == Phase::Relaying || j.phase == (Phase::Switching { kicked: true })) && !(e is Closed || e is Io)
            ==> stepped(j, Event::Failed(e, shown)) == (
            Join { phase: Phase::Over, open: false, ..j },
            seq![
                Action::CloseSession,
                Action::StopMetrics,
                Action::AnnounceLeave,
                Action::RecordLeave,
                Action::KickPlay("{\"text\":\""@ + shown + "\",\"color\":\"red\"}"@),
                Action::Finish(Err(e)),
            ],
        ),
        j.phase == (Phase::Switching { kicked: false }) && !(e is Closed || e is Io) ==> stepped(
            j,
            Event::Failed(e, shown),
        ) == (
            Join { phase: Phase::Over, open: false, ..j },
            seq![
                Action::KickPlay("{\"text\":\"Failed to connect to that server.\",\"color\":\"red\"}"@),
                Action::CloseSession,
                Action::StopMetrics,
                Action::AnnounceLeave,
                Action::RecordLeave,
                Action::KickPlay("{\"text\":\""@ + shown + "\",\"color\":\"red\"}"@),
                Action::Finish(Err(e)),
            ],
        ),
{
    let over = stepped(j, Event::Disconnected).1;
    assert(over =~= seq![
        Action::CloseSession,
        Action::StopMetrics,
        Action::AnnounceLeave,
        Action::RecordLeave,
        Action::Finish(Ok(())),
    ]);
    let failed = stepped(j, Event::Failed(e, shown)).1;
    let told = Action::KickPlay("{\"text\":\""@ + shown + "\",\"color\":\"red\"}"@);
    if j.phase == Phase::Connecting {
        if e is Closed || e is Io {
            assert(failed =~= seq![Action::CloseSession, Action::Finish(Err(e))]);
        } else {
            assert(failed =~= seq![
                Action::CloseSession,
                Action::KickPlay("{\"text\":\"Could not connect to any backend server.\",\"color\":\"red\"}"@),
                Action::Finish(Err(e)),
            ]);
        }
    } else if j.phase == Phase::Relaying || j.phase is Switching {
        if e is Closed || e is Io {
            assert(j.phase == Phase::Relaying ==> failed =~= seq![
                Action::CloseSession,
                Action::StopMetrics,
                Action::AnnounceLeave,
                Action::RecordLeave,
                Action::Finish(Err(e)),
            ]);
        } else if j.phase == (Phase::Switching { kicked: false }) {
            assert(failed =~= seq![
                Action::KickPlay("{\"text\":\"Failed to connect to that server.\",\"color\":\"red\"}"@),
                Action::CloseSession,
                Action::StopMetrics,
                Action::AnnounceLeave,
                Action::RecordLeave,
                told,
                Action::Finish(Err(e)),
            ]);
        } else {
            assert(failed =~= seq![
                Action::CloseSession,
                Action::StopMetrics,
                Action::AnnounceLeave,
                Action::RecordLeave,
                told,
                Action::Finish(Err(e)),
            ]);
        }
    }
}

// Servers.

/// The direct way to a server has four stages, and a failure on it leads into limbo, from where
/// two stages are left.
pub proof fn ways_to_a_server(well: Seq<bool>, k: nat)
    requires
        well == Seq::new(k, |i: int| true),
    ensures
        k == 4 ==> after_attempts(Attempt::Routing, well) == Attempt::Connected,
        k < 4 ==> after_attempts(Attempt::Routing, well.push(false)) == Attempt::Limbo,
        k == 3 ==> after_attempts(Attempt::Limbo, well) == Attempt::Connected,
        k < 3 ==> after_attempts(Attempt::Limbo, well.push(false)) == Attempt::Failed,
{
    reveal_with_fuel(after_attempts, 6);
    assert(well.push(false).drop_last() =~= well);
    if k > 0 {
        let w1 = well.drop_last();
        assert(w1 =~= Seq::new((k - 1) as nat, |i: int| true));
        if k > 1 {
            let w2 = w1.drop_last();
            assert(w2 =~= Seq::new((k - 2) as nat, |i: int| true));
        }
    }
}

/// A server's own mode comes first, then the one for all; where that is off but addresses are
/// to be forwarded, it is Bungeecord's.
pub proof fn modes_in_order(own: ForwardingMode, common: ForwardingMode, ip_forward: bool)
    ensures
        forwarding_mode(Some(own), common, ip_forward) == own,
        common != ForwardingMode::Off ==> forwarding_mode(None, common, ip_forward) == common,
        forwarding_mode(None, ForwardingMode::Off, true) == ForwardingMode::Bungeecord,
        forwarding_mode(None, ForwardingMode::Off, false) == ForwardingMode::Off,
{
}

/// The configured protocol of a server is that of the first one with its name.
pub proof fn first_server_counts(servers: Seq<ServerConfig>, name: Seq<char>, i: int)
    requires
        0 <= i <= servers.len(),
        forall|j: int| 0 <= j < i ==> (#[trigger] servers[j]).name@ != name,
    ensures
        i < servers.len() && servers[i].name@ == name ==> configured_protocol(servers, name)
            == servers[i].backend_protocol,
        i == servers.len() ==> configured_protocol(servers, name) == 0,
    decreases i,
{
    if i > 0 {
        let rest = servers.drop_first();
        assert(servers[0].name@ != name);
        assert forall|j: int| 0 <= j < i - 1 implies (#[trigger] rest[j]).name@ != name by {
            assert(rest[j] == servers[j + 1]);
        }
        first_server_counts(rest, name, i - 1);
    }
}

/// The lobby's protocol counts for the lobby, the configured one for other servers; without
/// one, clients of 1.7 and 1.8 are taken for 1.12.2, whose protocol is 340, and all others are
/// spoken for as they are.
pub proof fn protocols_for_servers(
    name: Seq<char>,
    lobby: Lobby,
    servers: Seq<ServerConfig>,
    client: u32,
)
    ensures
        server_protocol(Some(lobby.name@), lobby, servers, client) == lobby.protocol,
        name != lobby.name@ && configured_protocol(servers, name) > 0 ==> server_protocol(
            Some(name),
            lobby,
            servers,
            client,
        ) == configured_protocol(servers, name),
        name != lobby.name@ && configured_protocol(servers, name) == 0 && client < 107 && !(73 <= client && client
            <= 78) ==> server_protocol(Some(name), lobby, servers, client) == 340,
        name != lobby.name@ && configured_protocol(servers, name) == 0 && (client >= 107 || (73 <= client && client
            <= 78)) ==> server_protocol(Some(name), lobby, servers, client) == client,
        client >= 107 ==> server_protocol(None, lobby, servers, client) == client,
        relay_plan_of(Some(lobby.name@), lobby, servers, client).backend_protocol == lobby.protocol,
        relay_plan_of(Some(lobby.name@), lobby, servers, client).conversion_enabled,
        name != lobby.name@ ==> !relay_plan_of(Some(name), lobby, servers, client).conversion_enabled,
        client < 107 ==> relay_plan_of(Some(name), lobby, servers, client).sides_differ,
        client >= 107 && name != lobby.name@ ==> !relay_plan_of(Some(name), lobby, servers, client).sides_differ,
        client >= 107 ==> (relay_plan_of(Some(lobby.name@), lobby, servers, client).sides_differ <==> lobby.protocol
            != client),
{
}

/// The address for a server: the host, with Bungeecord's suffix in its mode, and behind that
/// the mark of a mod loader for a server with mods.
pub proof fn addresses_for_servers(
    host: Seq<char>,
    suffix: Seq<char>,
    why: Seq<char>,
    marked: Seq<char>,
    any: Result<Seq<char>, Seq<char>>,
    kind: ModloaderKind,
    mode: ForwardingMode,
)
    ensures
        handshake_address_of(host, ForwardingMode::Bungeecord, false, kind, Ok(suffix), marked) == Ok::<
            Seq<char>,
            Failure,
        >(host + suffix),
        handshake_address_of(host, ForwardingMode::Bungeecord, true, ModloaderKind::Fml1, Ok(suffix), marked) == Ok::<
            Seq<char>,
            Failure,
        >(host + suffix + "\0FML\0"@),
        handshake_address_of(host, ForwardingMode::Bungeecord, true, ModloaderKind::Fml2, Ok(suffix), marked) == Ok::<
            Seq<char>,
            Failure,
        >(host + suffix + "\0FML2\0"@),
        handshake_address_of(host, ForwardingMode::Bungeecord, true, ModloaderKind::Fml3, Ok(suffix), marked) == Ok::<
            Seq<char>,
            Failure,
        >(host + suffix + "\0FML3\0"@),
        handshake_address_of(host, ForwardingMode::Bungeecord, true, kind, Err(why), marked) == Err::<
            Seq<char>,
            Failure,
        >(Failure::Auth("Failed to create Bungeecord suffix: "@ + why)),
        mode != ForwardingMode::Bungeecord ==> handshake_address_of(host, mode, true, kind, any, marked) == Ok::<
            Seq<char>,
            Failure,
        >(marked),
        mode != ForwardingMode::Bungeecord ==> handshake_address_of(host, mode, false, kind, any, marked) == Ok::<
            Seq<char>,
            Failure,
        >(host),
{
}

/// A host without a mark is the whole address, and behind a mark nothing counts.
pub proof fn hosts_are_clean(host: Seq<char>)
    requires
        !host.contains('\0'),
    ensures
        clean_host_of(host) == host,
        clean_host_of(host.push('\0')) == host,
{
    undivided(host, '\0');
    divided(host, Seq::<char>::empty(), '\0');
    assert(host.push('\0') + Seq::<char>::empty() =~= host.push('\0'));
}

/// What comes of a server's packets during the login: its success completes it, its farewell
/// fails it, its threshold is kept, and a packet of no known number is passed over.
pub proof fn server_logins_in_turn(l: BackendLogin, id: u8, body: Seq<u8>, threshold: i32, fml3: bool)
    requires
        l.ids.encryption_request != l.ids.set_compression,
        l.ids.encryption_request != l.ids.login_success,
        l.ids.encryption_request != l.ids.login_plugin,
        l.ids.encryption_request != l.ids.login_disconnect,
        l.ids.set_compression != l.ids.login_success,
        l.ids.set_compression != l.ids.login_plugin,
        l.ids.set_compression != l.ids.login_disconnect,
        l.ids.login_success != l.ids.login_plugin,
        l.ids.login_success != l.ids.login_disconnect,
        l.ids.login_plugin != l.ids.login_disconnect,
    ensures
        logged_in(l, packet(l.ids.login_success, body), fml3) == Some((l, Step::Complete)),
        logged_in(l, packet(l.ids.login_disconnect, body), fml3) == Some((l, Step::Failed(Failure::Closed))),
        logged_in(l, packet(l.ids.set_compression, varint_field(threshold) + body), fml3) == Some(
            (BackendLogin { threshold, ..l }, Step::Continue),
        ),
        id != l.ids.encryption_request && id != l.ids.set_compression && id != l.ids.login_success && id
            != l.ids.login_plugin && id != l.ids.login_disconnect ==> logged_in(l, packet(id, body), fml3) == Some(
            (l, Step::Continue),
        ),
{
    broadcast use fields_read;
}

/// A server's question: who the player is gets its answer where it is to be asked so; one of
/// Forge's goes to the client as it is; every other one is answered with nothing.
pub proof fn server_questions(l: BackendLogin, number: i32, channel: Seq<char>, rest: Seq<u8>)
    requires
        sendable(channel),
        sendable("velocity:player_info"@),
        l.ids.encryption_request != l.ids.login_plugin,
        l.ids.set_compression != l.ids.login_plugin,
        l.ids.login_success != l.ids.login_plugin,
    ensures
        l.velocity ==> logged_in(
            l,
            packet(l.ids.login_plugin, varint_field(number) + text_field("velocity:player_info"@) + rest),
            false,
        ) == Some((l, Step::Answer { message_id: number, signed: l.has_secret })),
        channel != "velocity:player_info"@ || !l.velocity ==> logged_in(
            l,
            packet(l.ids.login_plugin, varint_field(number) + text_field(channel) + rest),
            true,
        ) == Some(
            (
                l,
                Step::AskClient {
                    message_id: number,
                    request: varint(l.ids.login_plugin as i32) + varint(number) + wire_string(channel) + rest,
                },
            ),
        ),
        channel != "velocity:player_info"@ || !l.velocity ==> logged_in(
            l,
            packet(l.ids.login_plugin, varint_field(number) + text_field(channel) + rest),
            false,
        ) == Some((l, Step::Answer { message_id: number, signed: false })),
{
    broadcast use fields_read;
}

/// What comes of a server's packets in the configuration phase.
pub proof fn configuration_in_turn(p: PhaseView, id: u8, body: Seq<u8>, neo: bool)
    ensures
        configured(p, packet(p.ids.finish, body), neo) == (
            PhaseView { held: Seq::empty(), ..p },
            ConfigAction::Finish(p.held.push(packet(p.ids.finish, Seq::empty()))),
        ),
        p.ids.custom != p.ids.finish ==> configured(p, packet(p.ids.custom, body), true).1
            == (ConfigAction::AskClient { question: packet(p.ids.custom, body), plugin: true }),
        p.ids.ping != p.ids.finish && p.ids.ping != p.ids.custom ==> configured(
            p,
            packet(p.ids.ping, body),
            neo,
        ) == (p, ConfigAction::AskClient { question: packet(p.ids.ping, body), plugin: false }),
        id != p.ids.finish && id != p.ids.custom && id != p.ids.ping ==> configured(p, packet(id, body), neo) == (
            PhaseView { held: p.held.push(packet(id, body)), ..p },
            ConfigAction::Held,
        ),
        p.ids.custom != p.ids.finish ==> configured(p, packet(p.ids.custom, body), false) == (
            PhaseView { held: p.held.push(packet(p.ids.custom, body)), ..p },
            ConfigAction::Held,
        ),
{
    broadcast use fields_read;
}

/// The first plugin that names players has its way.
pub proof fn first_sample_counts(responses: Seq<PingResponse>, i: int)
    requires
        0 <= i <= responses.len(),
        forall|j: int| 0 <= j < i ==> (#[trigger] responses[j]) is Other,
    ensures
        i < responses.len() ==> (responses[i] matches PingResponse::UpdatePlayerSample(sample) ==> first_sample(
            responses,
        ) == Some(sample@)),
        i == responses.len() ==> first_sample(responses) is None,
    decreases i,
{
    if i > 0 {
        let rest = responses.drop_first();
        assert(responses[0] is Other);
        assert forall|j: int| 0 <= j < i - 1 implies (#[trigger] rest[j]) is Other by {
            assert(rest[j] == responses[j + 1]);
        }
        first_sample_counts(rest, i - 1);
    }
}

// The cipher.

/// Each byte is combined with the first byte of the encrypted register, and the encrypted byte
/// enters the register at its end.
pub proof fn bytes_are_chained(key: Seq<u8>, register: Seq<u8>, plain: Seq<u8>, sealed: Seq<u8>)
    ensures
        plain.len() > 0 ==> ({
            let first = plain[0] ^ aes128(key, register)[0];
            &&& encrypted(key, register, plain)[0] == first
            &&& encrypted(key, register, plain).skip(1) == encrypted(
                key,
                register.skip(1).push(first),
                plain.skip(1),
            )
        }),
        sealed.len() > 0 ==> {
            &&& decrypted(key, register, sealed)[0] == sealed[0] ^ aes128(key, register)[0]
            &&& decrypted(key, register, sealed).skip(1) == decrypted(
                key,
                register.skip(1).push(sealed[0]),
                sealed.skip(1),
            )
        },
{
    assert(register.drop_first() =~= register.skip(1));
    if plain.len() > 0 {
        let first = plain[0] ^ aes128(key, register)[0];
        assert(plain.drop_first() =~= plain.skip(1));
        assert(encrypted(key, register, plain).skip(1) =~= encrypted(
            key,
            register.skip(1).push(first),
            plain.skip(1),
        ));
    }
    if sealed.len() > 0 {
        assert(sealed.drop_first() =~= sealed.skip(1));
        assert(decrypted(key, register, sealed).skip(1) =~= decrypted(
            key,
            register.skip(1).push(sealed[0]),
            sealed.skip(1),
        ));
    }
}

/// A client is told why it is let go, in the login and in the play, and nobody is told who has
/// gone or who has not started to log in.
pub proof fn farewells(reason: Seq<char>, shown: Seq<char>, e: Failure, state: ConnectionState)
    ensures
        farewell(Failure::Auth(reason), shown, ConnectionState::Login) == Some(
            KickView::Login(red_line("Disconnected: "@ + reason)),
        ),
        farewell(Failure::Auth(reason), shown, ConnectionState::Configuration) == Some(
            KickView::Login(red_line("Disconnected: "@ + reason)),
        ),
        farewell(Failure::Auth(reason), shown, ConnectionState::Play) == Some(
            KickView::Play(red_line("Disconnected: "@ + reason)),
        ),
        farewell(Failure::Protocol, shown, ConnectionState::Play) == Some(
            KickView::Play(red_line("Disconnected: "@ + shown)),
        ),
        farewell(Failure::Protocol, shown, ConnectionState::Login) == Some(
            KickView::Login(red_line("Disconnected: "@ + shown)),
        ),
        farewell(e, shown, ConnectionState::Status) is None,
        farewell(e, shown, ConnectionState::Handshaking) is None,
        farewell(Failure::Closed, shown, state) is None,
        farewell(Failure::Io, shown, state) is None,
{
}

/// A request to encrypt holds the id of the server, the key and the token, in this order. 1.7
/// writes the lengths as 16 bits.
#[verifier::rlimit(60)]
pub proof fn encryption_request_reads(id: Seq<char>, key: Seq<u8>, token: Seq<u8>, rest: Seq<u8>)
    requires
        sendable(id),
        key.len() < 0x8000,
        token.len() < 0x8000,
    ensures
        request_of(
            Epoch::V1_8,
            text_field(id) + varint_field(key.len() as i32) + key + varint_field(token.len() as i32) + token + rest,
        ) == Some(
            Ok::<RequestView, Failure>(RequestView { server_id: id, public_key: key, verify_token: token }),
        ),
        request_of(
            Epoch::V1_7,
            text_field(id) + u16_field(key.len() as u16) + key + u16_field(token.len() as u16) + token,
        ) == Some(
            Ok::<RequestView, Failure>(RequestView { server_id: id, public_key: key, verify_token: token }),
        ),
{
    broadcast use fields_read;

    let (n, m) = (key.len() as i32, token.len() as i32);
    let front = text_field(id) + varint_field(n);
    let half = front + key + varint_field(m);
    let b = half + token + rest;
    let p: int = text_field(id).len() as int;
    let q: int = front.len() as int;
    let r: int = half.len() as int;
    assert(string_at(b, 0) == Some((id, p)));
    assert(varint_at(b, p) == Some((n, q)));
    assert(varint_at(b, q + n) == Some((m, r)));
    assert(b.subrange(q, q + n) =~= key);
    assert(b.subrange(r, r + m) =~= token);
    let front2 = text_field(id) + u16_field(key.len() as u16);
    let half2 = front2 + key + u16_field(token.len() as u16);
    let c = half2 + token;
    let s: int = p + 2 + n;
    assert(string_at(c, 0) == Some((id, p)));
    assert(u16_at(c, p) == key.len());
    assert(u16_at(c, s) == token.len());
    assert(c.subrange(p + 2, s) =~= key);
    assert(c.subrange(s + 2, s + 2 + m) =~= token);
}

/// Which mod loader a channel shows to one who knew of none.
pub proof fn channels_show(channel: Seq<char>, kind: ModloaderKind)
    ensures
        kind != ModloaderKind::Unknown ==> shown_by(kind, channel) == kind,
        begins_with(channel, "neoforge:"@) ==> shown_by(ModloaderKind::Unknown, channel) == ModloaderKind::NeoForge,
        !begins_with(channel, "neoforge:"@) && (begins_with(channel, "fabric"@) || begins_with(channel, "c:"@))
            ==> shown_by(ModloaderKind::Unknown, channel) == ModloaderKind::Fabric,
        !begins_with(channel, "neoforge:"@) && !begins_with(channel, "fabric"@) && !begins_with(channel, "c:"@)
            ==> shown_by(ModloaderKind::Unknown, channel) == ModloaderKind::Unknown,
{
}

/// The status with players that a plugin chose: the protocol as a text, the two counts, and each
/// player's name and id, with commas between them.
pub proof fn samples_are_listed(
    protocol: u32,
    most: u64,
    online: u64,
    a: SamplePlayer,
    b: SamplePlayer,
    suffix: Seq<char>,
)
    ensures
        ({
            let front = "{\"version\":{\"name\":\"Koja\",\"protocol\":\""@ + decimal(protocol as nat)
                + "\"},\"players\":{\"max\":"@ + decimal(most as nat) + ",\"online\":"@ + decimal(online as nat)
                + ",\"sample\":["@;
            let first = "{\"name\":\""@ + a.name@ + "\",\"uuid\":\""@ + a.uuid@ + "\"}"@;
            let second = "{\"name\":\""@ + b.name@ + "\",\"uuid\":\""@ + b.uuid@ + "\"}"@;
            &&& sampled_status_of(protocol, most, online, seq![a], suffix) == front + first + "]}"@ + suffix + "}"@
            &&& sampled_status_of(protocol, most, online, seq![a, b], suffix) == front + (first + ","@ + second)
                + "]}"@ + suffix + "}"@
        }),
{
    reveal_with_fuel(sample_list, 3);
    assert(seq![a, b].drop_last() =~= seq![a]);
}

} // verus!
