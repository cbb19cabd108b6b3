//! Why a connection ends, and how its client is told.

use crate::text::{red_line, red_text};
use vstd::prelude::*;

verus! {

/// Why a connection ended.
#[derive(Debug, PartialEq, Eq)]
pub enum ConnectionError {
    /// One side has gone.
    Closed,
    /// The socket failed, or took too long.
    Io,
    /// The login was turned down.
    Auth(String),
    /// A packet could not be read.
    Protocol,
}

/// The view of a `ConnectionError`.
#[verifier::ext_equal]
pub enum Failure {
    Closed,
    Io,
    Auth(Seq<char>),
    Protocol,
}

impl View for ConnectionError {
    type V = Failure;

    open spec fn view(&self) -> Failure {
        match self {
            ConnectionError::Closed => Failure::Closed,
            ConnectionError::Io => Failure::Io,
            ConnectionError::Auth(reason) => Failure::Auth(reason@),
            ConnectionError::Protocol => Failure::Protocol,
        }
    }
}

/// The phase that a connection is in.
#[derive(Clone, Copy, Debug, PartialEq, Eq, Structural)]
pub enum ConnectionState {
    Handshaking,
    Status,
    Login,
    Configuration,
    Play,
}

/// The packet that tells a client why it is disconnected.
#[derive(Debug, PartialEq, Eq)]
pub enum Kick {
    Login(String),
    Play(String),
}

/// The view of a `Kick`.
#[verifier::ext_equal]
pub enum KickView {
    Login(Seq<char>),
    Play(Seq<char>),
}

impl View for Kick {
    type V = KickView;

    open spec fn view(&self) -> KickView {
        match self {
            Kick::Login(json) => KickView::Login(json@),
            Kick::Play(json) => KickView::Play(json@),
        }
    }
}

/// Whether there is nobody left to talk to.
pub open spec fn gone(e: Failure) -> bool {
    e is Closed || e is Io
}

/// Whether there is nobody left to talk to.
pub fn client_gone(e: &ConnectionError) -> (r: bool)
    ensures
        r == gone(e@),
{
    match e {
        ConnectionError::Closed | ConnectionError::Io => true,
        _ => false,
    }
}

/// The farewell for an error, of which `shown` is how it is printed. Nothing is sent to a
/// client that has gone, nor before the login: those phases have no packet for it.
pub open spec fn farewell(e: Failure, shown: Seq<char>, state: ConnectionState) -> Option<KickView> {
    let reason = match e {
        Failure::Auth(reason) => reason,
        _ => shown,
    };
    let json = red_line("Disconnected: "@ + reason);
    if gone(e) {
        None
    } else {
        match state {
            ConnectionState::Login | ConnectionState::Configuration => Some(KickView::Login(json)),
            ConnectionState::Play => Some(KickView::Play(json)),
            ConnectionState::Status | ConnectionState::Handshaking => None,
        }
    }
}

/// The farewell for an error, of which `shown` is how it is printed.
pub fn graceful_kick(e: &ConnectionError, shown: &str, state: ConnectionState) -> (r: Option<Kick>)
    ensures
        match r {
            Some(kick) => farewell(e@, shown@, state) == Some(kick@),
            None => farewell(e@, shown@, state) is None,
        },
{
    if client_gone(e) {
        return None;
    }
    let mut text = String::from_str("Disconnected: ");
    match e {
        ConnectionError::Auth(reason) => text.append(reason.as_str()),
        _ => text.append(shown),
    }
    let json = red_text(text.as_str());
    match state {
        ConnectionState::Login | ConnectionState::Configuration => Some(Kick::Login(json)),
        ConnectionState::Play => Some(Kick::Play(json)),
        ConnectionState::Status | ConnectionState::Handshaking => None,
    }
}

} // verus!
