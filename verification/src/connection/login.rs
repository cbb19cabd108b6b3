//! The conversation of a login: what the authentication asks for, and how it ends.

use crate::connection::error::{ConnectionError, Failure};
use crate::connection::frames::{knows_compression, takes_compression};
use vstd::prelude::*;

verus! {

/// What the authentication wants done.
#[derive(Debug, PartialEq, Eq)]
pub enum AuthOutbound {
    EncryptionRequest,
    SetCompression(i32),
    LoginSuccess,
    LoginDisconnect(String),
    EnableEncryption,
}

/// What is done for the authentication.
#[derive(Debug, PartialEq, Eq)]
pub enum AuthAction {
    /// Nothing.
    Ignore,
    /// Sends the request to encrypt.
    SendEncryptionRequest,
    /// Asks the client to compress from a threshold on, and compresses from it on.
    SendSetCompression(i32),
    /// Encrypts the stream from here on.
    EnableEncryption,
    /// Goes on with the login that has succeeded.
    Finalise,
    /// Tells the client a reason, and fails with it.
    Refuse(String),
}

/// The view of an `AuthOutbound`.
#[verifier::ext_equal]
pub enum Asked {
    EncryptionRequest,
    SetCompression(i32),
    LoginSuccess,
    LoginDisconnect(Seq<char>),
    EnableEncryption,
}

/// The view of an `AuthAction`.
#[verifier::ext_equal]
pub enum Done {
    Ignore,
    SendEncryptionRequest,
    SendSetCompression(i32),
    EnableEncryption,
    Finalise,
    Refuse(Seq<char>),
}

impl View for AuthOutbound {
    type V = Asked;

    open spec fn view(&self) -> Asked {
        match self {
            AuthOutbound::EncryptionRequest => Asked::EncryptionRequest,
            AuthOutbound::SetCompression(t) => Asked::SetCompression(*t),
            AuthOutbound::LoginSuccess => Asked::LoginSuccess,
            AuthOutbound::LoginDisconnect(reason) => Asked::LoginDisconnect(reason@),
            AuthOutbound::EnableEncryption => Asked::EnableEncryption,
        }
    }
}

impl View for AuthAction {
    type V = Done;

    open spec fn view(&self) -> Done {
        match self {
            AuthAction::Ignore => Done::Ignore,
            AuthAction::SendEncryptionRequest => Done::SendEncryptionRequest,
            AuthAction::SendSetCompression(t) => Done::SendSetCompression(*t),
            AuthAction::EnableEncryption => Done::EnableEncryption,
            AuthAction::Finalise => Done::Finalise,
            AuthAction::Refuse(reason) => Done::Refuse(reason@),
        }
    }
}

/// The conversation so far: the client's protocol, the threshold from which packets are
/// compressed, whether encryption was requested, and whether the answer to that has come.
#[derive(Clone, Copy, Debug, PartialEq, Eq)]
pub struct LoginDialogue {
    pub protocol: u32,
    pub threshold: i32,
    pub requested: bool,
    pub answered: bool,
}

/// The conversation after the authentication has asked for something, and what is done. A
/// second request to encrypt is passed over. A client that does not know compression is not
/// asked to compress, and nothing is compressed for it.
pub open spec fn asked_for(d: LoginDialogue, asked: Asked) -> (LoginDialogue, Done) {
    match asked {
        Asked::EncryptionRequest => if d.answered {
            (d, Done::Ignore)
        } else {
            (LoginDialogue { requested: true, ..d }, Done::SendEncryptionRequest)
        },
        Asked::SetCompression(threshold) => if knows_compression(d.protocol) {
            (LoginDialogue { threshold, ..d }, Done::SendSetCompression(threshold))
        } else {
            (d, Done::Ignore)
        },
        Asked::LoginSuccess => (d, Done::Finalise),
        Asked::LoginDisconnect(reason) => (d, Done::Refuse(reason)),
        Asked::EnableEncryption => (d, Done::EnableEncryption),
    }
}

/// The conversation when the authentication has no more to ask for: the answer to the request
/// to encrypt is waited for, once, and without one the login has failed.
pub open spec fn round_ended(d: LoginDialogue) -> Result<LoginDialogue, Failure> {
    if d.requested && !d.answered {
        Ok(LoginDialogue { answered: true, ..d })
    } else {
        Err(Failure::Auth("Authentication failed"@))
    }
}

impl LoginDialogue {
    /// A conversation that has not begun.
    pub fn new(protocol: u32, threshold: i32) -> (d: Self)
        ensures
            d == (LoginDialogue { protocol, threshold, requested: false, answered: false }),
    {
        LoginDialogue { protocol, threshold, requested: false, answered: false }
    }

    /// Takes up what the authentication asks for.
    pub fn on_event(&mut self, event: &AuthOutbound) -> (action: AuthAction)
        ensures
            (*final(self), action@) == asked_for(*old(self), event@),
    {
        match event {
            AuthOutbound::EncryptionRequest => if self.answered {
                AuthAction::Ignore
            } else {
                self.requested = true;
                AuthAction::SendEncryptionRequest
            },
            AuthOutbound::SetCompression(threshold) => if takes_compression(self.protocol) {
                self.threshold = *threshold;
                AuthAction::SendSetCompression(*threshold)
            } else {
                AuthAction::Ignore
            },
            AuthOutbound::LoginSuccess => AuthAction::Finalise,
            AuthOutbound::LoginDisconnect(reason) => AuthAction::Refuse(String::from_str(reason.as_str())),
            AuthOutbound::EnableEncryption => AuthAction::EnableEncryption,
        }
    }

    /// Ends a round: the authentication has no more to ask for.
    pub fn end_round(&mut self) -> (r: Result<(), ConnectionError>)
        ensures
            match round_ended(*old(self)) {
                Ok(after) => r is Ok && *final(self) == after,
                Err(e) => r matches Err(got) && got@ == e && *final(self) == *old(self),
            },
    {
        if self.requested && !self.answered {
            self.answered = true;
            Ok(())
        } else {
            Err(ConnectionError::Auth(String::from_str("Authentication failed")))
        }
    }
}

/// The conversation after a row of requests.
pub open spec fn asked_for_all(d: LoginDialogue, asked: Seq<Asked>) -> LoginDialogue
    decreases asked.len(),
{
    if asked.len() == 0 {
        d
    } else {
        asked_for(asked_for_all(d, asked.drop_last()), asked.last()).0
    }
}

/// Whatever the authentication asks for, a client that does not know compression keeps the
/// threshold that it started with.
pub proof fn older_clients_are_not_compressed(d: LoginDialogue, asked: Seq<Asked>)
    requires
        !knows_compression(d.protocol),
    ensures
        asked_for_all(d, asked).threshold == d.threshold,
        asked_for_all(d, asked).protocol == d.protocol,
    decreases asked.len(),
{
    if asked.len() > 0 {
        older_clients_are_not_compressed(d, asked.drop_last());
    }
}

/// The threshold always is the one that the client was told last, if it was told one.
pub proof fn client_knows_the_threshold(d: LoginDialogue, asked: Asked)
    ensures
        asked_for(d, asked).0.threshold == match asked_for(d, asked).1 {
            Done::SendSetCompression(threshold) => threshold,
            _ => d.threshold,
        },
{
}

/// The answer to a request to encrypt is waited for at most once.
pub proof fn one_answer_is_awaited(d: LoginDialogue, asked: Seq<Asked>)
    requires
        d.answered,
    ensures
        asked_for_all(d, asked).answered,
        round_ended(asked_for_all(d, asked)) is Err,
    decreases asked.len(),
{
    if asked.len() > 0 {
        one_answer_is_awaited(d, asked.drop_last());
    }
}

} // verus!
