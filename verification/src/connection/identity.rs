//! Who a player is.

use crate::ident::{fresh_uuid, is_random_uuid, offline_id, offline_uuid, unused_uuid};
use vstd::prelude::*;

verus! {

/// What asking for the account of a name came to.
#[derive(Clone, Copy, Debug, PartialEq, Eq)]
pub enum Lookup {
    /// The account's id.
    Found((u64, u64)),
    /// There is no such account.
    NotFound,
    /// The question could not be asked.
    Failed,
}

/// Who a 1.6 player is, whose login nobody can check any more: the owner of the account,
/// or a player without one, or nobody. Without an account a player is turned away where
/// accounts are asked for; a network that fails turns nobody away.
pub open spec fn legacy_id(lookup: Lookup, online_mode: bool, username: Seq<char>) -> Option<(u64, u64)> {
    match lookup {
        Lookup::Found(id) => Some(id),
        Lookup::NotFound => if online_mode {
            None
        } else {
            Some(offline_id(username))
        },
        Lookup::Failed => Some(offline_id(username)),
    }
}

/// Who a 1.6 player is, or `None` for one that is turned away.
pub fn legacy_identity(lookup: Lookup, online_mode: bool, username: &str) -> (id: Option<(u64, u64)>)
    ensures
        id == legacy_id(lookup, online_mode, username@),
{
    match lookup {
        Lookup::Found(id) => Some(id),
        Lookup::NotFound => if online_mode {
            None
        } else {
            Some(offline_uuid(username))
        },
        Lookup::Failed => Some(offline_uuid(username)),
    }
}

/// What a 1.6 player without an account is told.
pub fn no_account_reason() -> (s: &'static str)
    ensures
        s@ == "This server requires a Minecraft.net account. The username you joined with isn't registered."@,
{
    "This server requires a Minecraft.net account. The username you joined with isn't registered."
}

/// What a 1.6 player is told whose login could not be read or finished.
pub fn legacy_login_reason() -> (s: &'static str)
    ensures
        s@ == "1.6.4 login is not yet supported by this proxy. Use 1.7+ to connect."@,
{
    "1.6.4 login is not yet supported by this proxy. Use 1.7+ to connect."
}

/// The id with which a login goes on. Where accounts are checked it is the client's own word,
/// for now. Otherwise it is the id that is stored for the name, or where none can be had the
/// client's word, or a new one.
pub open spec fn login_id(
    online_mode: bool,
    stored: Option<(u64, u64)>,
    claimed: Option<(u64, u64)>,
    new: (u64, u64),
) -> Option<(u64, u64)> {
    if online_mode {
        claimed
    } else {
        match stored {
            Some(id) => Some(id),
            None => match claimed {
                Some(id) => Some(id),
                None => Some(new),
            },
        }
    }
}

/// The id with which a login goes on, where `new` is a new one.
pub fn login_identity_with(
    online_mode: bool,
    stored: Option<(u64, u64)>,
    claimed: Option<(u64, u64)>,
    new: (u64, u64),
) -> (id: Option<(u64, u64)>)
    ensures
        id == login_id(online_mode, stored, claimed, new),
{
    if online_mode {
        claimed
    } else if stored.is_some() {
        stored
    } else if claimed.is_some() {
        claimed
    } else {
        Some(new)
    }
}

/// The id with which a login goes on.
pub fn login_identity(online_mode: bool, stored: Option<(u64, u64)>, claimed: Option<(u64, u64)>) -> (id: Option<
    (u64, u64),
>)
    ensures
        exists|new: (u64, u64)| is_random_uuid(new) && id == #[trigger] login_id(online_mode, stored, claimed, new),
{
    let new: (u64, u64) = if online_mode || stored.is_some() || claimed.is_some() {
        unused_uuid()
    } else {
        fresh_uuid()
    };
    login_identity_with(online_mode, stored, claimed, new)
}

/// A player keeps its stored id wherever accounts are not checked.
pub proof fn stored_id_is_kept(id: (u64, u64), claimed: Option<(u64, u64)>, new: (u64, u64))
    ensures
        login_id(false, Some(id), claimed, new) == Some(id),
{
}

/// A network that fails locks nobody out, whether accounts are asked for or not.
pub proof fn failure_locks_nobody_out(online_mode: bool, username: Seq<char>)
    ensures
        legacy_id(Lookup::Failed, online_mode, username) is Some,
{
}

} // verus!
