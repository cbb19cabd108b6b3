//! The login of a 1.6 client, whose account can be asked for but not checked.

use crate::connection::frames::{legacy_kick, legacy_kick_of};
use crate::connection::hello::{legacy_handshake_of, read_legacy_handshake, LegacyHandshake};
use crate::connection::identity::{legacy_id, legacy_identity, legacy_login_reason, no_account_reason, Lookup};
use crate::wire::content;
use bytes::Bytes;
use vstd::prelude::*;

verus! {

/// What came of the last action.
pub enum LegacyEvent {
    /// What the client sent behind its first byte.
    Body(Bytes),
    /// What asking for the account came to.
    Account(Lookup),
    /// Whether the login could be finished.
    Finalised(bool),
}

/// What is to be done.
pub enum LegacyAction {
    /// Asks for the account of a name.
    AskAccount,
    /// Goes on with the login of a player.
    Finalise((u64, u64)),
    /// Sends these bytes if the client still takes them, and the connection ends.
    Refuse(Bytes),
    /// Sends these bytes, and the connection ends.
    Kick(Bytes),
    /// The connection ends.
    End,
}

/// The view of a `LegacyEvent`.
#[verifier::ext_equal]
pub enum LegacyCame {
    Body(Seq<u8>),
    Account(Lookup),
    Finalised(bool),
}

/// The view of a `LegacyAction`.
#[verifier::ext_equal]
pub enum LegacyDue {
    AskAccount,
    Finalise((u64, u64)),
    Refuse(Seq<u8>),
    Kick(Seq<u8>),
    End,
}

impl View for LegacyEvent {
    type V = LegacyCame;

    open spec fn view(&self) -> LegacyCame {
        match *self {
            LegacyEvent::Body(body) => LegacyCame::Body(content(body)),
            LegacyEvent::Account(lookup) => LegacyCame::Account(lookup),
            LegacyEvent::Finalised(well) => LegacyCame::Finalised(well),
        }
    }
}

impl View for LegacyAction {
    type V = LegacyDue;

    open spec fn view(&self) -> LegacyDue {
        match *self {
            LegacyAction::AskAccount => LegacyDue::AskAccount,
            LegacyAction::Finalise(id) => LegacyDue::Finalise(id),
            LegacyAction::Refuse(frame) => LegacyDue::Refuse(content(frame)),
            LegacyAction::Kick(frame) => LegacyDue::Kick(content(frame)),
            LegacyAction::End => LegacyDue::End,
        }
    }
}

/// The login so far: whether accounts are asked for, and the client's own words.
pub struct LegacyLogin {
    pub online_mode: bool,
    pub protocol: u32,
    pub username: String,
    pub host: String,
}

/// The view of a `LegacyLogin`.
#[verifier::ext_equal]
pub struct LegacyView {
    pub online_mode: bool,
    pub protocol: u32,
    pub username: Seq<char>,
    pub host: Seq<char>,
}

impl View for LegacyLogin {
    type V = LegacyView;

    open spec fn view(&self) -> LegacyView {
        LegacyView {
            online_mode: self.online_mode,
            protocol: self.protocol,
            username: self.username@,
            host: self.host@,
        }
    }
}

/// What a player without an account is sent.
pub open spec fn no_account_kick() -> Seq<u8> {
    legacy_kick_of(
        "This server requires a Minecraft.net account. The username you joined with isn't registered."@,
    )
}

/// What a player is sent whose login could not be read or finished.
pub open spec fn unfinished_kick() -> Seq<u8> {
    legacy_kick_of("1.6.4 login is not yet supported by this proxy. Use 1.7+ to connect."@)
}

/// The login after an event, and what is to be done. A login that does not read is kicked like
/// one that could not be finished.
pub open spec fn legacy_stepped(l: LegacyView, came: LegacyCame) -> (LegacyView, LegacyDue) {
    match came {
        LegacyCame::Body(body) => match legacy_handshake_of(body) {
            None => (l, LegacyDue::Kick(unfinished_kick())),
            Some((protocol, username, host, _)) => (
                LegacyView { protocol: protocol as u32, username, host, ..l },
                LegacyDue::AskAccount,
            ),
        },
        LegacyCame::Account(lookup) => (
            l,
            match legacy_id(lookup, l.online_mode, l.username) {
                Some(id) => LegacyDue::Finalise(id),
                None => LegacyDue::Refuse(no_account_kick()),
            },
        ),
        LegacyCame::Finalised(well) => (
            l,
            if well {
                LegacyDue::End
            } else {
                LegacyDue::Kick(unfinished_kick())
            },
        ),
    }
}

impl LegacyLogin {
    /// A login of which nothing has been read.
    pub fn new(online_mode: bool) -> (l: Self)
        ensures
            l@ == (LegacyView { online_mode, protocol: 0, username: Seq::empty(), host: Seq::empty() }),
    {
        let l = LegacyLogin { online_mode, protocol: 0, username: String::new(), host: String::new() };
        assert(l.username@ =~= Seq::<char>::empty());
        assert(l.host@ =~= Seq::<char>::empty());
        l
    }

    /// Takes up an event.
    pub fn step(&mut self, event: LegacyEvent) -> (action: LegacyAction)
        ensures
            (final(self)@, action@) == legacy_stepped(old(self)@, event@),
    {
        match event {
            LegacyEvent::Body(body) => match read_legacy_handshake(body) {
                None => LegacyAction::Kick(legacy_kick(legacy_login_reason())),
                Some(LegacyHandshake { protocol, username, host, port: _ }) => {
                    self.protocol = protocol as u32;
                    self.username = username;
                    self.host = host;
                    LegacyAction::AskAccount
                },
            },
            LegacyEvent::Account(lookup) => match legacy_identity(lookup, self.online_mode, self.username.as_str()) {
                Some(id) => LegacyAction::Finalise(id),
                None => LegacyAction::Refuse(legacy_kick(no_account_reason())),
            },
            LegacyEvent::Finalised(well) => if well {
                LegacyAction::End
            } else {
                LegacyAction::Kick(legacy_kick(legacy_login_reason()))
            },
        }
    }
}

/// Where accounts are asked for, a name without one never gets in.
pub proof fn unregistered_names_stay_out(l: LegacyView)
    requires
        l.online_mode,
    ensures
        legacy_stepped(l, LegacyCame::Account(Lookup::NotFound)).1 == LegacyDue::Refuse(no_account_kick()),
{
}

/// No login fails in silence: without a packet that says why, a connection ends only when the
/// login was finished.
pub proof fn failed_logins_are_told(l: LegacyView, came: LegacyCame)
    ensures
        legacy_stepped(l, came).1 is End ==> came == LegacyCame::Finalised(true),
{
}

} // verus!
