//! The configuration phase: the server's packets are held back for the client, except those
//! that wait for an answer.

use crate::connection::backend::ModloaderKind;
use crate::connection::error::{ConnectionError, Failure};
use crate::converter::outcome::{build_payload, contents, packet, split, split_id};
use crate::converter::safe::Reader;
use crate::text::{begins_with, has_prefix, string_at};
use crate::wire::{bytes_clone, content};
use bytes::Bytes;
use vstd::prelude::*;

verus! {

/// The numbers of the packets of the phase: the server's, and the two of the client's that
/// matter.
#[derive(Clone, Copy, Debug, PartialEq, Eq)]
pub struct ConfigIds {
    pub finish: u8,
    pub custom: u8,
    pub ping: u8,
    pub finish_ack: u8,
}

/// The phase so far: the packets held back, in the order in which they came, the mod loader
/// that the client has shown, and whether the two have come to terms, which they have when the
/// client has agreed to the end of the phase.
pub struct ConfigPhase {
    pub ids: ConfigIds,
    pub kind: ModloaderKind,
    pub held: Vec<Bytes>,
    pub handshake_complete: bool,
}

/// The view of a `ConfigPhase`.
#[verifier::ext_equal]
pub struct PhaseView {
    pub ids: ConfigIds,
    pub kind: ModloaderKind,
    pub held: Seq<Seq<u8>>,
    pub handshake_complete: bool,
}

impl View for ConfigPhase {
    type V = PhaseView;

    open spec fn view(&self) -> PhaseView {
        PhaseView {
            ids: self.ids,
            kind: self.kind,
            held: contents(self.held@),
            handshake_complete: self.handshake_complete,
        }
    }
}

/// What comes of a packet of the server.
pub enum ConfigStep {
    /// It is held back.
    Held,
    /// It goes to the client, whose next packet goes to the server. To a plugin's question
    /// that packet must be one that reads.
    AskClient { question: Bytes, plugin: bool },
    /// These go to the client, and the phase ends when the client agrees.
    Finish(Vec<Bytes>),
    /// It does not read.
    Failed(ConnectionError),
}

/// The view of a `ConfigStep`.
#[verifier::ext_equal]
pub enum ConfigAction {
    Held,
    AskClient { question: Seq<u8>, plugin: bool },
    Finish(Seq<Seq<u8>>),
    Failed(Failure),
}

impl View for ConfigStep {
    type V = ConfigAction;

    open spec fn view(&self) -> ConfigAction {
        match self {
            ConfigStep::Held => ConfigAction::Held,
            ConfigStep::AskClient { question, plugin } => ConfigAction::AskClient {
                question: content(*question),
                plugin: *plugin,
            },
            ConfigStep::Finish(v) => ConfigAction::Finish(contents(v@)),
            ConfigStep::Failed(e) => ConfigAction::Failed(e@),
        }
    }
}

/// The channel of a plugin's packet, no text where it does not read.
pub open spec fn channel_of(body: Seq<u8>) -> Seq<char> {
    match string_at(body, 0) {
        Some((channel, _)) => channel,
        None => seq![],
    }
}

/// The mod loader that a channel shows, to one who knew of none.
pub open spec fn shown_by(kind: ModloaderKind, channel: Seq<char>) -> ModloaderKind {
    if kind != ModloaderKind::Unknown {
        kind
    } else if begins_with(channel, "neoforge:"@) {
        ModloaderKind::NeoForge
    } else if begins_with(channel, "fabric"@) || begins_with(channel, "c:"@) {
        ModloaderKind::Fabric
    } else {
        kind
    }
}

/// The mod loader that a channel shows, to one who knew of none.
pub fn detected(kind: ModloaderKind, channel: &str) -> (r: ModloaderKind)
    ensures
        r == shown_by(kind, channel@),
{
    if kind != ModloaderKind::Unknown {
        kind
    } else if has_prefix(channel, "neoforge:") {
        ModloaderKind::NeoForge
    } else if has_prefix(channel, "fabric") || has_prefix(channel, "c:") {
        ModloaderKind::Fabric
    } else {
        kind
    }
}

/// The phase after a packet of the server, and what comes of it. `neo` says whether a plugin's
/// channel is one by which a mod loader sets itself up with the client.
pub open spec fn configured(p: PhaseView, b: Seq<u8>, neo: bool) -> (PhaseView, ConfigAction) {
    match split(b) {
        None => (p, ConfigAction::Failed(Failure::Protocol)),
        Some((id, body)) => if id == p.ids.finish {
            (
                PhaseView { held: Seq::empty(), ..p },
                ConfigAction::Finish(p.held.push(packet(p.ids.finish, Seq::empty()))),
            )
        } else if id == p.ids.custom && neo {
            (
                PhaseView { kind: shown_by(p.kind, channel_of(body)), ..p },
                ConfigAction::AskClient { question: b, plugin: true },
            )
        } else if id == p.ids.ping && id != p.ids.custom {
            (p, ConfigAction::AskClient { question: b, plugin: false })
        } else {
            (PhaseView { held: p.held.push(b), ..p }, ConfigAction::Held)
        },
    }
}

/// The phase after a packet of the client that comes when the end was sent, and whether the
/// client agrees to it.
pub open spec fn agreed(p: PhaseView, b: Seq<u8>) -> (PhaseView, Result<bool, Failure>) {
    match split(b) {
        None => (p, Err(Failure::Protocol)),
        Some((id, _)) => if id == p.ids.finish_ack {
            (PhaseView { handshake_complete: true, ..p }, Ok(true))
        } else {
            (p, Ok(false))
        },
    }
}

/// The view of an answer.
pub open spec fn answer_view(r: Result<bool, ConnectionError>) -> Result<bool, Failure> {
    match r {
        Ok(yes) => Ok(yes),
        Err(e) => Err(e@),
    }
}

/// The channel of a plugin's packet, for which the mod loaders' rules are asked.
pub fn plugin_channel(raw: &Bytes, ids: &ConfigIds) -> (r: Option<String>)
    ensures
        match split(content(*raw)) {
            Some((id, body)) if id == ids.custom => r matches Some(got) && got@ == channel_of(body),
            _ => r is None,
        },
{
    match split_id(bytes_clone(raw)) {
        Some((id, body)) => {
            if id != ids.custom {
                return None;
            }
            let mut reader = Reader::new(body);
            Some(reader.string_or_empty())
        },
        None => None,
    }
}

impl ConfigPhase {
    /// A phase in which nothing has come yet.
    pub fn new(ids: ConfigIds, kind: ModloaderKind) -> (p: Self)
        ensures
            p@ == (PhaseView { ids, kind, held: Seq::empty(), handshake_complete: false }),
    {
        let p = ConfigPhase { ids, kind, held: Vec::new(), handshake_complete: false };
        assert(contents(p.held@) =~= Seq::<Seq<u8>>::empty());
        p
    }

    fn finish(&mut self) -> (all: Vec<Bytes>)
        ensures
            contents(all@) == old(self)@.held.push(packet(old(self)@.ids.finish, Seq::empty())),
            final(self)@ == (PhaseView { held: Seq::empty(), ..old(self)@ }),
    {
        let mut all: Vec<Bytes> = Vec::new();
        std::mem::swap(&mut all, &mut self.held);
        let none: Vec<u8> = Vec::new();
        all.push(build_payload(self.ids.finish, none.as_slice()));
        proof {
            assert(none@ =~= Seq::<u8>::empty());
            assert(contents(all@) =~= old(self)@.held.push(packet(old(self)@.ids.finish, Seq::empty())));
            assert(contents(self.held@) =~= Seq::<Seq<u8>>::empty());
        }
        all
    }

    /// Takes up a packet of the server.
    pub fn on_backend(&mut self, raw: Bytes, neo: bool) -> (step: ConfigStep)
        ensures
            (final(self)@, step@) == configured(old(self)@, content(raw), neo),
    {
        let (id, body) = match split_id(bytes_clone(&raw)) {
            Some(parts) => parts,
            None => {
                return ConfigStep::Failed(ConnectionError::Protocol);
            },
        };
        if id == self.ids.finish {
            return ConfigStep::Finish(self.finish());
        }
        if id == self.ids.custom {
            if neo {
                let mut reader = Reader::new(body);
                let channel: String = reader.string_or_empty();
                self.kind = detected(self.kind, channel.as_str());
                return ConfigStep::AskClient { question: raw, plugin: true };
            }
        } else if id == self.ids.ping {
            return ConfigStep::AskClient { question: raw, plugin: false };
        }
        self.held.push(raw);
        assert(contents(self.held@) =~= old(self)@.held.push(content(raw)));
        ConfigStep::Held
    }

    /// Whether the client's answer to a question can go to the server.
    pub fn check_answer(&self, answer: &Bytes, plugin: bool) -> (r: Result<(), ConnectionError>)
        ensures
            r is Ok <==> !plugin || split(content(*answer)) is Some,
            r matches Err(e) ==> e@ == Failure::Protocol,
    {
        if plugin && split_id(bytes_clone(answer)).is_none() {
            return Err(ConnectionError::Protocol);
        }
        Ok(())
    }

    /// Takes up a packet of the client after the end was sent: whether it agrees to it. Others
    /// are passed over.
    pub fn agrees(&mut self, packet: &Bytes) -> (r: Result<bool, ConnectionError>)
        ensures
            (final(self)@, answer_view(r)) == agreed(old(self)@, content(*packet)),
            r == Ok::<bool, ConnectionError>(true) ==> final(self)@.handshake_complete,
    {
        match split_id(bytes_clone(packet)) {
            Some((id, _)) => {
                let yes: bool = id == self.ids.finish_ack;
                if yes {
                    self.handshake_complete = true;
                }
                Ok(yes)
            },
            None => Err(ConnectionError::Protocol),
        }
    }
}

/// The phase after a row of packets, each with whether its channel is a mod loader's.
pub open spec fn configured_all(p: PhaseView, packets: Seq<(Seq<u8>, bool)>) -> PhaseView
    decreases packets.len(),
{
    if packets.len() == 0 {
        p
    } else {
        let (b, neo) = packets.last();
        configured(configured_all(p, packets.drop_last()), b, neo).0
    }
}

/// Those of a row of packets that are held back.
pub open spec fn held_back(p: PhaseView, packets: Seq<(Seq<u8>, bool)>) -> Seq<Seq<u8>>
    decreases packets.len(),
{
    if packets.len() == 0 {
        seq![]
    } else {
        let before = held_back(p, packets.drop_last());
        let (b, neo) = packets.last();
        if configured(p, b, neo).1 is Held {
            before.push(b)
        } else {
            before
        }
    }
}

/// Whether a row of packets holds none that ends the phase.
pub open spec fn goes_on(p: PhaseView, packets: Seq<(Seq<u8>, bool)>) -> bool {
    forall|i: int| 0 <= i < packets.len() ==> !(configured(p, #[trigger] packets[i].0, packets[i].1).1 is Finish)
}

/// What is held back or handed on is decided by a packet alone, not by those before it.
proof fn decided_alone(p: PhaseView, q: PhaseView, b: Seq<u8>, neo: bool)
    requires
        p.ids == q.ids,
    ensures
        configured(p, b, neo).1 is Held <==> configured(q, b, neo).1 is Held,
        configured(p, b, neo).1 is Finish <==> configured(q, b, neo).1 is Finish,
{
}

/// Only the client's agreement completes the phase: no packet of the server does, and a packet
/// of the client does exactly if it agrees.
pub proof fn agreement_completes(p: PhaseView, b: Seq<u8>, neo: bool)
    ensures
        configured(p, b, neo).0.handshake_complete == p.handshake_complete,
        agreed(p, b).0.handshake_complete <==> p.handshake_complete || agreed(p, b).1 == Ok::<bool, Failure>(true),
        agreed(p, b).0.held == p.held,
{
}

/// When the server ends the phase, the client gets every packet that was held back, in the
/// order in which they came, and then the end.
pub proof fn client_gets_all_in_order(p: PhaseView, packets: Seq<(Seq<u8>, bool)>, last: Seq<u8>, neo: bool)
    requires
        p.held == Seq::<Seq<u8>>::empty(),
        goes_on(p, packets),
        split(last) matches Some((id, _)) && id == p.ids.finish,
    ensures
        configured(configured_all(p, packets), last, neo).1 == ConfigAction::Finish(
            held_back(p, packets).push(packet(p.ids.finish, Seq::empty())),
        ),
{
    held_in_order(p, packets);
}

proof fn held_in_order(p: PhaseView, packets: Seq<(Seq<u8>, bool)>)
    requires
        p.held == Seq::<Seq<u8>>::empty(),
        goes_on(p, packets),
    ensures
        configured_all(p, packets).held == held_back(p, packets),
        configured_all(p, packets).ids == p.ids,
    decreases packets.len(),
{
    if packets.len() > 0 {
        let (b, neo) = packets.last();
        assert forall|i: int| 0 <= i < packets.drop_last().len() implies !(configured(
            p,
            #[trigger] packets.drop_last()[i].0,
            packets.drop_last()[i].1,
        ).1 is Finish) by {
            assert(packets.drop_last()[i] == packets[i]);
        }
        held_in_order(p, packets.drop_last());
        assert(packets[packets.len() - 1].0 == b);
        decided_alone(p, configured_all(p, packets.drop_last()), b, neo);
    }
}

} // verus!
