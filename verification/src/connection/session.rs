//! The way of a player from a login that was let in to the end of the play.
//!
//! The program around this performs the actions of each step in order. The last action of a
//! step is a question, whose outcome is the next event, or the end.

use crate::connection::error::{client_gone, gone, ConnectionError, Failure};
use crate::text::{red_line, red_text};
use vstd::prelude::*;

verus! {

/// Where a player is on the way.
#[derive(Clone, Copy, Debug, PartialEq, Eq, Structural)]
pub enum Phase {
    Banning,
    Verifying,
    Restoring,
    Succeeding,
    Storing,
    Announcing,
    Connecting,
    Relaying,
    /// Changing servers, of the player's own will or after the server has kicked the player.
    Switching { kicked: bool },
    Over,
}

/// What is known of a join: whether there is a database, whether accounts are checked, whether
/// the client is one before 1.7, whether the login brought properties, whether there is a
/// resource pack to send; where the player is; and whether a session is open.
#[derive(Clone, Copy, Debug, PartialEq, Eq)]
pub struct Join {
    pub has_db: bool,
    pub online_mode: bool,
    pub pre_netty: bool,
    pub has_properties: bool,
    pub has_pack: bool,
    pub phase: Phase,
    pub open: bool,
}

/// What came of the last question.
#[derive(Debug, PartialEq, Eq)]
pub enum JoinEvent {
    /// The reason of a ban, none where there is no ban or it could not be asked for.
    Ban(Option<String>),
    /// The properties are signed.
    Verified,
    /// A signature is wrong, and how.
    BadSignature(String),
    /// The key to check signatures with does not read.
    BadKey,
    /// Whether properties were found.
    Restored(bool),
    /// The success was sent.
    Sent,
    /// The player's rank, none where it could not be stored.
    Rank(Option<String>),
    /// Whether a plugin objects.
    Vetoed(bool),
    /// The player is at a server.
    Connected,
    /// The client has left.
    Disconnected,
    /// The player wants to change to a server.
    Switch(String),
    /// The server has kicked the player, for a reason; the server to fall back to.
    Kicked(String, String),
    /// Something failed, and how the failure is printed.
    Failed(ConnectionError, String),
}

/// What is to be done.
#[derive(Debug, PartialEq, Eq)]
pub enum JoinAction {
    FindBan,
    VerifyProperties,
    CacheProfile,
    RestoreProfile,
    SendSuccess,
    StorePlayer,
    OpenSession(String),
    SendPack,
    AnnounceJoin,
    RecordJoin,
    ConnectBackend,
    EnterPlay,
    Relay,
    TellPlayer(String),
    SwitchTo(String),
    KickLogin(String),
    KickPlay(String),
    CloseSession,
    StopMetrics,
    AnnounceLeave,
    RecordLeave,
    Finish(Result<(), ConnectionError>),
}

/// The view of a `JoinEvent`.
#[verifier::ext_equal]
pub enum Event {
    Ban(Option<Seq<char>>),
    Verified,
    BadSignature(Seq<char>),
    BadKey,
    Restored(bool),
    Sent,
    Rank(Option<Seq<char>>),
    Vetoed(bool),
    Connected,
    Disconnected,
    Switch(Seq<char>),
    Kicked(Seq<char>, Seq<char>),
    Failed(Failure, Seq<char>),
}

/// The view of a `JoinAction`.
#[verifier::ext_equal]
pub enum Action {
    FindBan,
    VerifyProperties,
    CacheProfile,
    RestoreProfile,
    SendSuccess,
    StorePlayer,
    OpenSession(Seq<char>),
    SendPack,
    AnnounceJoin,
    RecordJoin,
    ConnectBackend,
    EnterPlay,
    Relay,
    TellPlayer(Seq<char>),
    SwitchTo(Seq<char>),
    KickLogin(Seq<char>),
    KickPlay(Seq<char>),
    CloseSession,
    StopMetrics,
    AnnounceLeave,
    RecordLeave,
    Finish(Result<(), Failure>),
}

/// The view of a text that may be missing.
pub open spec fn text_view(s: Option<String>) -> Option<Seq<char>> {
    match s {
        Some(s) => Some(s@),
        None => None,
    }
}

/// The view of an outcome.
pub open spec fn outcome_view(r: Result<(), ConnectionError>) -> Result<(), Failure> {
    match r {
        Ok(_) => Ok(()),
        Err(e) => Err(e@),
    }
}

impl View for JoinEvent {
    type V = Event;

    open spec fn view(&self) -> Event {
        match *self {
            JoinEvent::Ban(reason) => Event::Ban(text_view(reason)),
            JoinEvent::Verified => Event::Verified,
            JoinEvent::BadSignature(why) => Event::BadSignature(why@),
            JoinEvent::BadKey => Event::BadKey,
            JoinEvent::Restored(found) => Event::Restored(found),
            JoinEvent::Sent => Event::Sent,
            JoinEvent::Rank(rank) => Event::Rank(text_view(rank)),
            JoinEvent::Vetoed(vetoed) => Event::Vetoed(vetoed),
            JoinEvent::Connected => Event::Connected,
            JoinEvent::Disconnected => Event::Disconnected,
            JoinEvent::Switch(target) => Event::Switch(target@),
            JoinEvent::Kicked(reason, fallback) => Event::Kicked(reason@, fallback@),
            JoinEvent::Failed(e, shown) => Event::Failed(e@, shown@),
        }
    }
}

impl View for JoinAction {
    type V = Action;

    open spec fn view(&self) -> Action {
        match *self {
            JoinAction::FindBan => Action::FindBan,
            JoinAction::VerifyProperties => Action::VerifyProperties,
            JoinAction::CacheProfile => Action::CacheProfile,
            JoinAction::RestoreProfile => Action::RestoreProfile,
            JoinAction::SendSuccess => Action::SendSuccess,
            JoinAction::StorePlayer => Action::StorePlayer,
            JoinAction::OpenSession(rank) => Action::OpenSession(rank@),
            JoinAction::SendPack => Action::SendPack,
            JoinAction::AnnounceJoin => Action::AnnounceJoin,
            JoinAction::RecordJoin => Action::RecordJoin,
            JoinAction::ConnectBackend => Action::ConnectBackend,
            JoinAction::EnterPlay => Action::EnterPlay,
            JoinAction::Relay => Action::Relay,
            JoinAction::TellPlayer(text) => Action::TellPlayer(text@),
            JoinAction::SwitchTo(target) => Action::SwitchTo(target@),
            JoinAction::KickLogin(json) => Action::KickLogin(json@),
            JoinAction::KickPlay(json) => Action::KickPlay(json@),
            JoinAction::CloseSession => Action::CloseSession,
            JoinAction::StopMetrics => Action::StopMetrics,
            JoinAction::AnnounceLeave => Action::AnnounceLeave,
            JoinAction::RecordLeave => Action::RecordLeave,
            JoinAction::Finish(r) => Action::Finish(outcome_view(r)),
        }
    }
}

/// The views of actions.
pub open spec fn actions_view(v: Seq<JoinAction>) -> Seq<Action> {
    v.map_values(|a: JoinAction| a@)
}

/// What a plugin's objection is told as.
pub open spec fn vetoed_json() -> Seq<char> {
    "{\"text\":\"You were not allowed to join.\",\"color\":\"red\"}"@
}

/// What a player is told whom no server would have.
pub open spec fn no_backend_json() -> Seq<char> {
    "{\"text\":\"Could not connect to any backend server.\",\"color\":\"red\"}"@
}

/// What a player is told who could not change servers.
pub open spec fn no_switch_json() -> Seq<char> {
    "{\"text\":\"Failed to connect to that server.\",\"color\":\"red\"}"@
}

/// What a player is told at the end, of a failure that is printed so.
pub open spec fn end_json(shown: Seq<char>) -> Seq<char> {
    "{\"text\":\""@ + shown + "\",\"color\":\"red\"}"@
}

/// The way ends before a session is open.
pub open spec fn turned_away(j: Join, told: Seq<char>, reason: Seq<char>) -> (Join, Seq<Action>) {
    (
        Join { phase: Phase::Over, ..j },
        seq![Action::KickLogin(red_line(told)), Action::Finish(Err(Failure::Auth(reason)))],
    )
}

/// The way from the ban check on: properties are checked where accounts are, and where the
/// client can have sent any.
pub open spec fn not_banned(j: Join) -> (Join, Seq<Action>) {
    if j.online_mode && !j.pre_netty && j.has_properties {
        (Join { phase: Phase::Verifying, ..j }, seq![Action::VerifyProperties])
    } else {
        checked_properties(j)
    }
}

/// The way from the checked properties on: a client before 1.7 gets those back that its name
/// had before.
pub open spec fn checked_properties(j: Join) -> (Join, Seq<Action>) {
    if j.pre_netty && !j.has_properties && j.has_db {
        (Join { phase: Phase::Restoring, ..j }, seq![Action::RestoreProfile])
    } else {
        (Join { phase: Phase::Succeeding, ..j }, seq![Action::SendSuccess])
    }
}

/// The way from the player's rank on.
pub open spec fn ranked(j: Join, rank: Seq<char>) -> (Join, Seq<Action>) {
    (
        Join { phase: Phase::Announcing, open: true, ..j },
        seq![Action::OpenSession(rank)] + (if j.has_pack {
            seq![Action::SendPack]
        } else {
            seq![]
        }) + seq![Action::AnnounceJoin],
    )
}

/// A farewell, where there is somebody to say it to.
pub open spec fn farewell_to(e: Failure, json: Seq<char>) -> Seq<Action> {
    if gone(e) {
        seq![]
    } else {
        seq![Action::KickPlay(json)]
    }
}

/// The end of the play.
pub open spec fn ended(j: Join, r: Result<(), Failure>, shown: Seq<char>) -> (Join, Seq<Action>) {
    (
        Join { phase: Phase::Over, open: false, ..j },
        seq![Action::CloseSession, Action::StopMetrics, Action::AnnounceLeave, Action::RecordLeave] + (match r {
            Ok(_) => seq![],
            Err(e) => farewell_to(e, end_json(shown)),
        }) + seq![Action::Finish(r)],
    )
}

/// The first step.
pub open spec fn begun(j: Join) -> (Join, Seq<Action>) {
    if j.has_db {
        (Join { phase: Phase::Banning, ..j }, seq![Action::FindBan])
    } else {
        not_banned(j)
    }
}

/// Whether an event can come in a phase.
pub open spec fn fits(phase: Phase, e: Event) -> bool {
    match phase {
        Phase::Banning => e is Ban,
        Phase::Verifying => e is Verified || e is BadSignature || e is BadKey,
        Phase::Restoring => e is Restored,
        Phase::Succeeding => e is Sent || e is Failed,
        Phase::Storing => e is Rank,
        Phase::Announcing => e is Vetoed,
        Phase::Connecting => e is Connected || e is Failed,
        Phase::Relaying => e is Disconnected || e is Switch || e is Kicked || e is Failed,
        Phase::Switching { .. } => e is Connected || e is Failed,
        Phase::Over => false,
    }
}

/// The next step.
pub open spec fn stepped(j: Join, e: Event) -> (Join, Seq<Action>) {
    match e {
        Event::Ban(Some(reason)) => turned_away(j, "You are banned: "@ + reason, "banned: "@ + reason),
        Event::Ban(None) => not_banned(j),
        Event::Verified => {
            let (next, actions) = checked_properties(j);
            if j.has_db {
                (next, seq![Action::CacheProfile] + actions)
            } else {
                (next, actions)
            }
        },
        Event::BadSignature(why) => turned_away(
            j,
            "Profile signature check failed: "@ + why,
            "bad signature: "@ + why,
        ),
        Event::BadKey => checked_properties(j),
        Event::Restored(found) => (
            Join { phase: Phase::Succeeding, has_properties: found, ..j },
            seq![Action::SendSuccess],
        ),
        Event::Sent => if j.has_db {
            (Join { phase: Phase::Storing, ..j }, seq![Action::StorePlayer])
        } else {
            ranked(j, "PLAYER"@)
        },
        Event::Rank(Some(rank)) => ranked(j, rank),
        Event::Rank(None) => ranked(j, "PLAYER"@),
        Event::Vetoed(true) => (
            Join { phase: Phase::Over, open: false, ..j },
            seq![
                Action::CloseSession,
                Action::KickPlay(vetoed_json()),
                Action::Finish(Err(Failure::Auth("join rejected by plugin"@))),
            ],
        ),
        Event::Vetoed(false) => (
            Join { phase: Phase::Connecting, ..j },
            seq![Action::RecordJoin, Action::ConnectBackend],
        ),
        Event::Connected => (
            Join { phase: Phase::Relaying, ..j },
            if j.phase == Phase::Connecting {
                seq![Action::EnterPlay, Action::Relay]
            } else {
                seq![Action::Relay]
            },
        ),
        Event::Disconnected => ended(j, Ok(()), seq![]),
        Event::Switch(target) => (
            Join { phase: Phase::Switching { kicked: false }, ..j },
            seq![Action::SwitchTo(target)],
        ),
        Event::Kicked(reason, fallback) => (
            Join { phase: Phase::Switching { kicked: true }, ..j },
            seq![Action::TellPlayer("You were kicked from the server: "@ + reason), Action::SwitchTo(fallback)],
        ),
        Event::Failed(e, shown) => match j.phase {
            Phase::Succeeding => (Join { phase: Phase::Over, ..j }, seq![Action::Finish(Err(e))]),
            Phase::Connecting => (
                Join { phase: Phase::Over, open: false, ..j },
                seq![Action::CloseSession] + farewell_to(e, no_backend_json()) + seq![Action::Finish(Err(e))],
            ),
            Phase::Switching { kicked: false } => {
                let (over, actions) = ended(j, Err(e), shown);
                (over, farewell_to(e, no_switch_json()) + actions)
            },
            _ => ended(j, Err(e), shown),
        },
    }
}

impl Join {
    /// A session is open exactly from the player's rank to the end.
    pub open spec fn wf(self) -> bool {
        self.open <==> match self.phase {
            Phase::Announcing | Phase::Connecting | Phase::Relaying | Phase::Switching { .. } => true,
            _ => false,
        }
    }
}

/// The outcome of one action.
fn just(action: JoinAction) -> (v: Vec<JoinAction>)
    ensures
        actions_view(v@) == seq![action@],
{
    let mut v: Vec<JoinAction> = Vec::new();
    v.push(action);
    assert(actions_view(v@) =~= seq![action@]);
    v
}

/// Appends an action.
fn also(v: &mut Vec<JoinAction>, action: JoinAction)
    ensures
        actions_view(final(v)@) == actions_view(old(v)@).push(action@),
{
    v.push(action);
    assert(actions_view(v@) =~= actions_view(old(v)@).push(action@));
}

/// Appends a farewell, where there is somebody to say it to.
fn also_farewell(v: &mut Vec<JoinAction>, e: &ConnectionError, json: &str)
    ensures
        actions_view(final(v)@) == actions_view(old(v)@) + farewell_to(e@, json@),
{
    if !client_gone(e) {
        also(v, JoinAction::KickPlay(String::from_str(json)));
    }
    assert(actions_view(v@) =~= actions_view(old(v)@) + farewell_to(e@, json@));
}

/// A text behind another.
fn joined(a: &str, b: &str) -> (s: String)
    ensures
        s@ == a@ + b@,
{
    let mut s = String::from_str(a);
    s.append(b);
    s
}

impl Join {
    /// A player whose login was let in.
    pub fn new(has_db: bool, online_mode: bool, pre_netty: bool, has_properties: bool, has_pack: bool) -> (j: Self)
        ensures
            j == (Join {
                has_db,
                online_mode,
                pre_netty,
                has_properties,
                has_pack,
                phase: Phase::Banning,
                open: false,
            }),
            j.wf(),
    {
        Join { has_db, online_mode, pre_netty, has_properties, has_pack, phase: Phase::Banning, open: false }
    }

    fn turn_away(&mut self, told: String, reason: String) -> (v: Vec<JoinAction>)
        ensures
            (*final(self), actions_view(v@)) == turned_away(*old(self), told@, reason@),
    {
        self.phase = Phase::Over;
        let mut v = just(JoinAction::KickLogin(red_text(told.as_str())));
        also(&mut v, JoinAction::Finish(Err(ConnectionError::Auth(reason))));
        assert(actions_view(v@) =~= turned_away(*old(self), told@, reason@).1);
        v
    }

    fn after_ban(&mut self) -> (v: Vec<JoinAction>)
        ensures
            (*final(self), actions_view(v@)) == not_banned(*old(self)),
    {
        if self.online_mode && !self.pre_netty && self.has_properties {
            self.phase = Phase::Verifying;
            just(JoinAction::VerifyProperties)
        } else {
            self.after_properties()
        }
    }

    fn after_properties(&mut self) -> (v: Vec<JoinAction>)
        ensures
            (*final(self), actions_view(v@)) == checked_properties(*old(self)),
    {
        if self.pre_netty && !self.has_properties && self.has_db {
            self.phase = Phase::Restoring;
            just(JoinAction::RestoreProfile)
        } else {
            self.phase = Phase::Succeeding;
            just(JoinAction::SendSuccess)
        }
    }

    fn after_rank(&mut self, rank: String) -> (v: Vec<JoinAction>)
        ensures
            (*final(self), actions_view(v@)) == ranked(*old(self), rank@),
    {
        self.phase = Phase::Announcing;
        self.open = true;
        let mut v = just(JoinAction::OpenSession(rank));
        if self.has_pack {
            also(&mut v, JoinAction::SendPack);
        }
        also(&mut v, JoinAction::AnnounceJoin);
        assert(actions_view(v@) =~= ranked(*old(self), rank@).1);
        v
    }

    fn end(&mut self, v: &mut Vec<JoinAction>, r: Result<(), ConnectionError>, shown: &str)
        ensures
            *final(self) == ended(*old(self), outcome_view(r), shown@).0,
            actions_view(final(v)@) == actions_view(old(v)@) + ended(*old(self), outcome_view(r), shown@).1,
    {
        self.phase = Phase::Over;
        self.open = false;
        also(v, JoinAction::CloseSession);
        also(v, JoinAction::StopMetrics);
        also(v, JoinAction::AnnounceLeave);
        also(v, JoinAction::RecordLeave);
        if let Err(e) = &r {
            let mut json = joined("{\"text\":\"", shown);
            json.append("\",\"color\":\"red\"}");
            also_farewell(v, e, json.as_str());
        }
        also(v, JoinAction::Finish(r));
        assert(actions_view(v@) =~= actions_view(old(v)@) + ended(*old(self), outcome_view(r), shown@).1);
    }

    /// The first step.
    pub fn begin(&mut self) -> (v: Vec<JoinAction>)
        requires
            !old(self).open,
        ensures
            (*final(self), actions_view(v@)) == begun(*old(self)),
            final(self).wf(),
    {
        if self.has_db {
            self.phase = Phase::Banning;
            just(JoinAction::FindBan)
        } else {
            self.after_ban()
        }
    }

    fn fail(&mut self, e: ConnectionError, shown: String) -> (v: Vec<JoinAction>)
        requires
            old(self).wf(),
            fits(old(self).phase, Event::Failed(e@, shown@)),
        ensures
            (*final(self), actions_view(v@)) == stepped(*old(self), Event::Failed(e@, shown@)),
    {
        let ghost due = stepped(*self, Event::Failed(e@, shown@));
        let mut v: Vec<JoinAction> = Vec::new();
        assert(actions_view(v@) =~= Seq::<Action>::empty());
        match self.phase {
            Phase::Succeeding => {
                self.phase = Phase::Over;
                also(&mut v, JoinAction::Finish(Err(e)));
                assert(actions_view(v@) =~= due.1);
            },
            Phase::Connecting => {
                self.phase = Phase::Over;
                self.open = false;
                also(&mut v, JoinAction::CloseSession);
                also_farewell(
                    &mut v,
                    &e,
                    "{\"text\":\"Could not connect to any backend server.\",\"color\":\"red\"}",
                );
                also(&mut v, JoinAction::Finish(Err(e)));
                assert(actions_view(v@) =~= due.1);
            },
            Phase::Switching { kicked } => {
                if !kicked {
                    also_farewell(&mut v, &e, "{\"text\":\"Failed to connect to that server.\",\"color\":\"red\"}");
                }
                self.end(&mut v, Err(e), shown.as_str());
                assert(actions_view(v@) =~= due.1);
            },
            _ => {
                self.end(&mut v, Err(e), shown.as_str());
                assert(actions_view(v@) =~= due.1);
            },
        }
        v
    }

    /// The next step.
    pub fn step(&mut self, event: JoinEvent) -> (v: Vec<JoinAction>)
        requires
            old(self).wf(),
            fits(old(self).phase, event@),
        ensures
            (*final(self), actions_view(v@)) == stepped(*old(self), event@),
            final(self).wf(),
    {
        proof {
            sessions_are_closed(*self, event@);
        }
        let ghost due = stepped(*self, event@);
        match event {
            JoinEvent::Ban(Some(reason)) => {
                let told = joined("You are banned: ", reason.as_str());
                self.turn_away(told, joined("banned: ", reason.as_str()))
            },
            JoinEvent::Ban(None) => self.after_ban(),
            JoinEvent::Verified => if self.has_db {
                let mut v = just(JoinAction::CacheProfile);
                let mut more = self.after_properties();
                v.append(&mut more);
                assert(actions_view(v@) =~= due.1);
                v
            } else {
                self.after_properties()
            },
            JoinEvent::BadSignature(why) => {
                let told = joined("Profile signature check failed: ", why.as_str());
                self.turn_away(told, joined("bad signature: ", why.as_str()))
            },
            JoinEvent::BadKey => self.after_properties(),
            JoinEvent::Restored(found) => {
                self.phase = Phase::Succeeding;
                self.has_properties = found;
                just(JoinAction::SendSuccess)
            },
            JoinEvent::Sent => if self.has_db {
                self.phase = Phase::Storing;
                just(JoinAction::StorePlayer)
            } else {
                self.after_rank(String::from_str("PLAYER"))
            },
            JoinEvent::Rank(Some(rank)) => self.after_rank(rank),
            JoinEvent::Rank(None) => self.after_rank(String::from_str("PLAYER")),
            JoinEvent::Vetoed(vetoed) => if vetoed {
                self.phase = Phase::Over;
                self.open = false;
                let mut v = just(JoinAction::CloseSession);
                also(
                    &mut v,
                    JoinAction::KickPlay(
                        String::from_str("{\"text\":\"You were not allowed to join.\",\"color\":\"red\"}"),
                    ),
                );
                also(
                    &mut v,
                    JoinAction::Finish(Err(ConnectionError::Auth(String::from_str("join rejected by plugin")))),
                );
                assert(actions_view(v@) =~= due.1);
                v
            } else {
                self.phase = Phase::Connecting;
                let mut v = just(JoinAction::RecordJoin);
                also(&mut v, JoinAction::ConnectBackend);
                assert(actions_view(v@) =~= due.1);
                v
            },
            JoinEvent::Connected => {
                let mut v: Vec<JoinAction> = Vec::new();
                assert(actions_view(v@) =~= Seq::<Action>::empty());
                if self.phase == Phase::Connecting {
                    also(&mut v, JoinAction::EnterPlay);
                }
                also(&mut v, JoinAction::Relay);
                self.phase = Phase::Relaying;
                assert(actions_view(v@) =~= due.1);
                v
            },
            JoinEvent::Disconnected => {
                let mut v: Vec<JoinAction> = Vec::new();
                assert(actions_view(v@) =~= Seq::<Action>::empty());
                self.end(&mut v, Ok(()), "");
                assert(actions_view(v@) =~= due.1);
                v
            },
            JoinEvent::Switch(target) => {
                self.phase = Phase::Switching { kicked: false };
                just(JoinAction::SwitchTo(target))
            },
            JoinEvent::Kicked(reason, fallback) => {
                self.phase = Phase::Switching { kicked: true };
                let mut v = just(
                    JoinAction::TellPlayer(joined("You were kicked from the server: ", reason.as_str())),
                );
                also(&mut v, JoinAction::SwitchTo(fallback));
                assert(actions_view(v@) =~= due.1);
                v
            },
            JoinEvent::Failed(e, shown) => self.fail(e, shown),
        }
    }
}

/// Whether a session is open after actions.
pub open spec fn open_after(open: bool, actions: Seq<Action>) -> bool
    decreases actions.len(),
{
    if actions.len() == 0 {
        open
    } else {
        match actions.last() {
            Action::OpenSession(_) => true,
            Action::CloseSession => false,
            _ => open_after(open, actions.drop_last()),
        }
    }
}

/// A step keeps the books: a session is open afterwards exactly if the actions have left one
/// open, and a way that is over has left none.
pub proof fn sessions_are_closed(j: Join, e: Event)
    requires
        j.wf(),
        fits(j.phase, e),
    ensures
        stepped(j, e).0.wf(),
        open_after(j.open, stepped(j, e).1) == stepped(j, e).0.open,
        stepped(j, e).0.phase is Over ==> !open_after(j.open, stepped(j, e).1),
{
    reveal_with_fuel(open_after, 8);
    let (next, actions) = stepped(j, e);
    match e {
        Event::Sent | Event::Rank(_) => {
            if next.phase == Phase::Announcing {
                assert(actions.drop_last().len() == if j.has_pack { 2int } else { 1int });
            }
        },
        _ => {},
    }
}

/// Each step ends with a question or with the end, and a way is over exactly when its last
/// action is the end.
pub proof fn over_means_finished(j: Join, e: Event)
    requires
        j.wf(),
        fits(j.phase, e),
    ensures
        stepped(j, e).1.len() > 0,
        stepped(j, e).0.phase is Over <==> stepped(j, e).1.last() is Finish,
{
}

/// A banned player is turned away: nothing is sent but the reason.
pub proof fn banned_players_stay_out(j: Join, reason: Seq<char>)
    requires
        j.phase == Phase::Banning,
    ensures
        stepped(j, Event::Ban(Some(reason))).0.phase is Over,
        !stepped(j, Event::Ban(Some(reason))).1.contains(Action::SendSuccess),
        stepped(j, Event::Ban(Some(reason))).1.last() == Action::Finish(
            Err(Failure::Auth("banned: "@ + reason)),
        ),
{
}

/// A wrong signature turns a player away.
pub proof fn forged_profiles_stay_out(j: Join, why: Seq<char>)
    requires
        j.phase == Phase::Verifying,
    ensures
        stepped(j, Event::BadSignature(why)).0.phase is Over,
        !stepped(j, Event::BadSignature(why)).1.contains(Action::SendSuccess),
        !stepped(j, Event::BadSignature(why)).1.contains(Action::CacheProfile),
{
}

/// A database that fails keeps nobody out: the way goes on as for a player that is not banned,
/// and as without a database.
pub proof fn database_failures_block_nobody(j: Join)
    ensures
        stepped(j, Event::Ban(None)) == not_banned(j),
        !(stepped(j, Event::Ban(None)).0.phase is Over),
        stepped(j, Event::Rank(None)) == ranked(j, "PLAYER"@),
{
}

/// Only checked properties are remembered.
pub proof fn only_checked_profiles_are_cached(j: Join, e: Event)
    requires
        fits(j.phase, e),
        stepped(j, e).1.contains(Action::CacheProfile),
    ensures
        e is Verified,
        j.phase == Phase::Verifying,
{
}

} // verus!
