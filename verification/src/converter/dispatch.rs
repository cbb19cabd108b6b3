//! Which converters a packet goes through between two protocols.
//!
//! A pair of releases without a converter of its own is bridged by two or three converters in
//! a row. Some converters live outside this crate. Where one of them is due, the plan names
//! it, and what it answers is put together here.

use crate::converter::chunk_repack::ChunkRepacker;
use crate::converter::chunk_section::BlockTable;
use crate::converter::outcome::{contents, outcome_of, ConversionResult, Outcome};
use crate::converter::safe::guard;
use crate::converter::v1_16_5_to_v1_12_2::block_table;
use crate::converter::{
    modern_to_v1_8, v1_12_2_to_v1_6_4, v1_16_5_to_v1_12_2, v1_20_4_to_v1_16_5, v1_6_4_to_v1_12_2,
    v1_6_4_to_v1_16_5, v1_7_to_v1_8, v1_8_to_modern,
};
use crate::flattening::Flattening;
use crate::ident::{fresh_uuid, is_random_uuid};
use crate::version::{nearest, nearest_version, CanonicalVersion, ProtocolVersion};
use crate::wire::{bytes_clone, content};
use bytes::Bytes;
use std::sync::Arc;
use vstd::prelude::*;

verus! {

/// Which way a packet goes, and between which protocols.
#[derive(Clone, Copy, Debug)]
pub enum ConversionDirection {
    ServerToClient { server_proto: u32, client_proto: u32 },
    ClientToServer { client_proto: u32, server_proto: u32 },
}

/// What converters know beside the packet: the tables of items and blocks, the registries for
/// a client's configuration phase, and the time in milliseconds since 1970.
pub struct Surroundings {
    pub tables: Flattening,
    pub registries: Vec<Bytes>,
    pub millis: i64,
}

impl Surroundings {
    /// Surroundings with tables without pairs and without registries, at the given time. What
    /// the releases need comes in through the fields.
    pub fn new(millis: i64) -> (s: Self)
        ensures
            s.tables.items.pairs@.len() == 0,
            s.tables.blocks.pairs@.len() == 0,
            s.registries@.len() == 0,
            s.millis == millis,
    {
        Surroundings { tables: Flattening::new(), registries: Vec::new(), millis }
    }
}

/// A converter outside this crate.
#[derive(Clone, Copy, PartialEq, Eq, Structural, Debug)]
#[allow(non_camel_case_types)]
pub enum OutsideLeg {
    V1_8_To_V1_7_S2c,
    V1_8_To_V1_7_C2s,
    V1_12_2_To_V1_16_5_S2c,
    V1_12_2_To_V1_16_5_C2s,
    V1_16_5_To_V1_20_4_S2c,
    V1_16_5_To_V1_20_4_C2s,
}

/// How the answers of a converter outside this crate are put together.
#[derive(Clone, Copy, PartialEq, Eq, Structural, Debug)]
pub enum OutsideRule {
    /// The answer to the one packet is the result.
    Sole,
    /// Only converted packets go on.
    Converted,
    /// Converted packets go on, and so do those that the converter leaves alone.
    ConvertedOrKept,
}

/// What is to be done with a packet.
pub enum Step {
    /// The result is there.
    Done(ConversionResult),
    /// A converter outside this crate is due.
    Outside { leg: OutsideLeg, packets: Vec<Bytes>, rule: OutsideRule },
}

/// What is to be done with a packet, with packets as byte sequences.
#[verifier::ext_equal]
pub enum Plan {
    Done(Outcome),
    Outside { leg: OutsideLeg, packets: Seq<Seq<u8>>, rule: OutsideRule },
}

impl View for Step {
    type V = Plan;

    open spec fn view(&self) -> Plan {
        match self {
            Step::Done(r) => Plan::Done(r@),
            Step::Outside { leg, packets, rule } => Plan::Outside {
                leg: *leg,
                packets: contents(packets@),
                rule: *rule,
            },
        }
    }
}

/// The canonical release for a protocol among those that the routes below are for: 1.21
/// counts as 1.20.4, and 1.19.4, which has no configuration phase, as 1.16.5.
pub open spec fn canonical_fold(raw: u32) -> CanonicalVersion {
    match nearest_version(raw).spec_canonical() {
        CanonicalVersion::V1_21 => CanonicalVersion::V1_20_4,
        CanonicalVersion::V1_19_4 => CanonicalVersion::V1_16_5,
        other => other,
    }
}

/// The canonical release for a protocol among those that the routes are for.
pub fn canonical_for_dispatch(raw: u32) -> (c: CanonicalVersion)
    ensures
        c == canonical_fold(raw),
{
    match nearest(raw).canonical_typed_packet_version() {
        CanonicalVersion::V1_21 => CanonicalVersion::V1_20_4,
        CanonicalVersion::V1_19_4 => CanonicalVersion::V1_16_5,
        other => other,
    }
}

/// No protocol folds to 1.19.4 or 1.21.
pub proof fn fold_leaves_no_other(raw: u32)
    ensures
        canonical_fold(raw) != CanonicalVersion::V1_19_4,
        canonical_fold(raw) != CanonicalVersion::V1_21,
{
}

// Converters in a row.

/// A converter that stands behind another one.
#[derive(Clone, Copy, PartialEq, Eq, Structural)]
#[allow(non_camel_case_types)]
pub enum NextLeg {
    V1_12_2_To_V1_8,
    V1_8_To_Modern { server_proto: u32 },
    V1_12_2_To_V1_6_4,
    V1_16_5_To_V1_12_2,
}

/// What a converter behind another one makes of a packet.
pub open spec fn leg_outcome(leg: NextLeg, p: Seq<u8>, cx: Surroundings) -> Outcome {
    match leg {
        NextLeg::V1_12_2_To_V1_8 => modern_to_v1_8::spec_convert_s2c(p, 340, cx.tables.items),
        NextLeg::V1_8_To_Modern { server_proto } => v1_8_to_modern::spec_convert_c2s(
            p,
            server_proto,
            cx.millis,
        ),
        NextLeg::V1_12_2_To_V1_6_4 => v1_12_2_to_v1_6_4::spec_convert_c2s(p),
        NextLeg::V1_16_5_To_V1_12_2 => v1_16_5_to_v1_12_2::spec_convert_c2s(p),
    }
}

fn run_leg(leg: NextLeg, p: Bytes, cx: &Surroundings) -> (r: ConversionResult)
    ensures
        r@ == leg_outcome(leg, content(p), *cx),
{
    match leg {
        NextLeg::V1_12_2_To_V1_8 => modern_to_v1_8::convert_s2c(p, 340, &cx.tables.items),
        NextLeg::V1_8_To_Modern { server_proto } => v1_8_to_modern::convert_c2s(
            p,
            server_proto,
            cx.millis,
        ),
        NextLeg::V1_12_2_To_V1_6_4 => v1_12_2_to_v1_6_4::convert_c2s(p),
        NextLeg::V1_16_5_To_V1_12_2 => v1_16_5_to_v1_12_2::convert_c2s(p),
    }
}

/// The packets that an outcome sends on.
pub open spec fn sent_on(o: Outcome) -> Seq<Seq<u8>> {
    match o {
        Outcome::Converted(v) => v,
        _ => seq![],
    }
}

/// The packets that an outcome sends back.
pub open spec fn sent_back(o: Outcome) -> Seq<Seq<u8>> {
    match o {
        Outcome::InjectS2C(v) => v,
        _ => seq![],
    }
}

/// What the next converter makes of packets, one after another.
pub open spec fn through(packets: Seq<Seq<u8>>, leg: NextLeg, cx: Surroundings) -> Seq<Seq<u8>>
    decreases packets.len(),
{
    if packets.len() == 0 {
        seq![]
    } else {
        through(packets.drop_last(), leg, cx) + sent_on(leg_outcome(leg, packets.last(), cx))
    }
}

/// What the next converter sends back for packets, one after another.
pub open spec fn returned(packets: Seq<Seq<u8>>, leg: NextLeg, cx: Surroundings) -> Seq<Seq<u8>>
    decreases packets.len(),
{
    if packets.len() == 0 {
        seq![]
    } else {
        returned(packets.drop_last(), leg, cx) + sent_back(leg_outcome(leg, packets.last(), cx))
    }
}

/// Packets that go on, or nothing where there are none.
pub open spec fn some_packets(v: Seq<Seq<u8>>) -> Outcome {
    if v.len() == 0 {
        Outcome::Drop
    } else {
        Outcome::Converted(v)
    }
}

fn append_all(out: &mut Vec<Bytes>, more: Vec<Bytes>)
    ensures
        contents(final(out)@) == contents(old(out)@) + contents(more@),
{
    let ghost had = contents(out@);
    let ghost add = contents(more@);
    let mut i: usize = 0;
    assert(had + add.take(0) =~= had);
    while i < more.len()
        invariant
            i <= more.len(),
            add == contents(more@),
            contents(out@) == had + add.take(i as int),
        decreases more.len() - i,
    {
        let ghost before = out@;
        out.push(bytes_clone(&more[i]));
        assert(contents(out@) =~= contents(before).push(add[i as int]));
        i = i + 1;
        assert(contents(out@) =~= had + add.take(i as int));
    }
    assert(add.take(i as int) =~= add);
}

/// What the next converter makes of packets, and what it sends back for them.
fn run_through(packets: &Vec<Bytes>, leg: NextLeg, cx: &Surroundings) -> (r: (Vec<Bytes>, Vec<Bytes>))
    ensures
        contents(r.0@) == through(contents(packets@), leg, *cx),
        contents(r.1@) == returned(contents(packets@), leg, *cx),
{
    let ghost all = contents(packets@);
    let mut on: Vec<Bytes> = Vec::new();
    let mut back: Vec<Bytes> = Vec::new();
    let mut i: usize = 0;
    assert(all.take(0) =~= Seq::<Seq<u8>>::empty());
    assert(contents(on@) =~= seq![]);
    assert(contents(back@) =~= seq![]);
    while i < packets.len()
        invariant
            i <= packets.len(),
            all == contents(packets@),
            contents(on@) == through(all.take(i as int), leg, *cx),
            contents(back@) == returned(all.take(i as int), leg, *cx),
        decreases packets.len() - i,
    {
        assert(all.take(i + 1).drop_last() =~= all.take(i as int));
        assert(all.take(i + 1).last() == content(packets@[i as int]));
        let ghost (had_on, had_back) = (contents(on@), contents(back@));
        match run_leg(leg, bytes_clone(&packets[i]), cx) {
            ConversionResult::Converted(v) => {
                append_all(&mut on, v);
                assert(had_back + Seq::<Seq<u8>>::empty() =~= had_back);
            },
            ConversionResult::InjectS2C(v) => {
                append_all(&mut back, v);
                assert(had_on + Seq::<Seq<u8>>::empty() =~= had_on);
            },
            _ => {
                assert(had_on + Seq::<Seq<u8>>::empty() =~= had_on);
                assert(had_back + Seq::<Seq<u8>>::empty() =~= had_back);
            },
        }
        i = i + 1;
    }
    assert(all.take(i as int) =~= all);
    (on, back)
}

fn some_or_drop(v: Vec<Bytes>) -> (r: ConversionResult)
    ensures
        r@ == some_packets(contents(v@)),
{
    if v.len() == 0 {
        ConversionResult::Drop
    } else {
        ConversionResult::Converted(v)
    }
}

/// What two converters in a row make of a packet toward the client: what the first sends back
/// is dropped, and what the second leaves alone goes no further.
pub open spec fn then_s2c(first: Outcome, leg: NextLeg, cx: Surroundings) -> Outcome {
    match first {
        Outcome::Passthrough => Outcome::Passthrough,
        Outcome::Converted(v) => some_packets(through(v, leg, cx)),
        _ => Outcome::Drop,
    }
}

fn next_s2c(first: ConversionResult, leg: NextLeg, cx: &Surroundings) -> (r: ConversionResult)
    ensures
        r@ == then_s2c(first@, leg, *cx),
{
    match first {
        ConversionResult::Passthrough => ConversionResult::Passthrough,
        ConversionResult::Converted(v) => {
            let (on, _) = run_through(&v, leg, cx);
            some_or_drop(on)
        },
        _ => ConversionResult::Drop,
    }
}

/// What two converters in a row make of a packet toward the server: what the first sends back
/// is sent back, and what the second leaves alone goes no further.
pub open spec fn then_c2s(first: Outcome, leg: NextLeg, cx: Surroundings) -> Outcome {
    match first {
        Outcome::Converted(v) => some_packets(through(v, leg, cx)),
        other => other,
    }
}

fn next_c2s(first: ConversionResult, leg: NextLeg, cx: &Surroundings) -> (r: ConversionResult)
    ensures
        r@ == then_c2s(first@, leg, *cx),
{
    match first {
        ConversionResult::Converted(v) => {
            let (on, _) = run_through(&v, leg, cx);
            some_or_drop(on)
        },
        other => other,
    }
}

/// As `then_c2s`, but what the second converter sends back is sent back where nothing goes
/// on.
pub open spec fn then_c2s_or_back(first: Outcome, leg: NextLeg, cx: Surroundings) -> Outcome {
    match first {
        Outcome::Converted(v) => if through(v, leg, cx).len() == 0 && returned(v, leg, cx).len() > 0 {
            Outcome::InjectS2C(returned(v, leg, cx))
        } else {
            some_packets(through(v, leg, cx))
        },
        other => other,
    }
}

fn next_c2s_or_back(first: ConversionResult, leg: NextLeg, cx: &Surroundings) -> (r: ConversionResult)
    ensures
        r@ == then_c2s_or_back(first@, leg, *cx),
{
    match first {
        ConversionResult::Converted(v) => {
            let (on, back) = run_through(&v, leg, cx);
            if on.len() == 0 && back.len() > 0 {
                ConversionResult::InjectS2C(back)
            } else {
                some_or_drop(on)
            }
        },
        other => other,
    }
}

// Routes.

/// A finished plan, `None` where the packet ends before what is read of it.
pub open spec fn done(o: Option<Outcome>) -> Option<Plan> {
    match o {
        Some(o) => Some(Plan::Done(o)),
        None => None,
    }
}

/// A plan for one packet and a converter outside this crate.
pub open spec fn outside(leg: OutsideLeg, p: Seq<u8>) -> Option<Plan> {
    Some(Plan::Outside { leg, packets: seq![p], rule: OutsideRule::Sole })
}

/// A plan for what a first converter made of a packet and a second one outside this crate.
/// What the first sends back is dropped.
pub open spec fn outside_next(first: Option<Outcome>, leg: OutsideLeg, rule: OutsideRule) -> Option<Plan> {
    match first {
        None => None,
        Some(Outcome::Passthrough) => Some(Plan::Done(Outcome::Passthrough)),
        Some(Outcome::Converted(packets)) => Some(Plan::Outside { leg, packets, rule }),
        Some(_) => Some(Plan::Done(Outcome::Drop)),
    }
}

/// A 1.6.4 packet toward a 1.12.2 client.
pub open spec fn legacy_s2c(p: Seq<u8>, uuid: (u64, u64)) -> Option<Outcome> {
    if v1_6_4_to_v1_12_2::s2c_readable(p) {
        Some(v1_6_4_to_v1_12_2::spec_convert_s2c(p, uuid))
    } else {
        None
    }
}

/// The plan for a packet toward the client by the canonical releases.
pub open spec fn canonical_s2c(
    p: Seq<u8>,
    server_proto: u32,
    client_proto: u32,
    cx: Surroundings,
    blocks: Option<BlockTable>,
) -> Option<Plan> {
    match (canonical_fold(server_proto), canonical_fold(client_proto)) {
        (CanonicalVersion::V1_16_5, CanonicalVersion::V1_20_4) => outside(
            OutsideLeg::V1_16_5_To_V1_20_4_S2c,
            p,
        ),
        (CanonicalVersion::V1_12_2, CanonicalVersion::V1_16_5) => outside(
            OutsideLeg::V1_12_2_To_V1_16_5_S2c,
            p,
        ),
        (CanonicalVersion::V1_16_5, CanonicalVersion::V1_12_2) => done(
            v1_16_5_to_v1_12_2::spec_convert_s2c(p, cx.tables, blocks),
        ),
        _ => Some(Plan::Done(Outcome::Passthrough)),
    }
}

/// The plan for a packet toward the client.
/// Before 1.7 protocols were numbered apart, and the number of 1.6.4 is above that of 1.8: for
/// a 1.7.10 client its server goes the way of the later ones.
pub open spec fn plan_s2c(
    p: Seq<u8>,
    server_proto: u32,
    client_proto: u32,
    uuid: (u64, u64),
    cx: Surroundings,
    blocks: Option<BlockTable>,
) -> Option<Plan> {
    let (server, client) = (nearest_version(server_proto), nearest_version(client_proto));
    let modern_server = server.spec_release() > ProtocolVersion::V1_8.spec_release();
    let recent_client = client.spec_release() > ProtocolVersion::V1_16_5.spec_release();
    match (server, client) {
        (ProtocolVersion::V1_8, ProtocolVersion::V1_7_10) => outside(OutsideLeg::V1_8_To_V1_7_S2c, p),
        (ProtocolVersion::V1_7_10, ProtocolVersion::V1_8) => done(
            Some(v1_7_to_v1_8::spec_convert_s2c(p)),
        ),
        (ProtocolVersion::V1_6_4, ProtocolVersion::V1_12_2) => done(legacy_s2c(p, uuid)),
        (ProtocolVersion::V1_6_4, ProtocolVersion::V1_16_5) => done(
            v1_6_4_to_v1_16_5::spec_convert_s2c(p, uuid, cx.tables),
        ),
        (ProtocolVersion::V1_6_4, ProtocolVersion::V1_8) => match legacy_s2c(p, uuid) {
            Some(first) => done(Some(then_s2c(first, NextLeg::V1_12_2_To_V1_8, cx))),
            None => None,
        },
        _ => if modern_server && client is V1_8 {
            done(Some(modern_to_v1_8::spec_convert_s2c(p, server_proto, cx.tables.items)))
        } else if (modern_server || server is V1_6_4) && client is V1_7_10 {
            outside_next(
                Some(modern_to_v1_8::spec_convert_s2c(p, server_proto, cx.tables.items)),
                OutsideLeg::V1_8_To_V1_7_S2c,
                OutsideRule::Converted,
            )
        } else if server is V1_6_4 && recent_client {
            outside_next(
                v1_6_4_to_v1_16_5::spec_convert_s2c(p, uuid, cx.tables),
                OutsideLeg::V1_16_5_To_V1_20_4_S2c,
                OutsideRule::ConvertedOrKept,
            )
        } else {
            canonical_s2c(p, server_proto, client_proto, cx, blocks)
        },
    }
}

/// The plan for a packet toward the server by the canonical releases.
pub open spec fn canonical_c2s(p: Seq<u8>, client_proto: u32, server_proto: u32, cx: Surroundings) -> Option<
    Plan,
> {
    match (canonical_fold(client_proto), canonical_fold(server_proto)) {
        (CanonicalVersion::V1_20_4, CanonicalVersion::V1_16_5) => done(
            Some(
                v1_20_4_to_v1_16_5::spec_convert_c2s(p, client_proto, contents(cx.registries@)),
            ),
        ),
        (CanonicalVersion::V1_16_5, CanonicalVersion::V1_20_4) => outside(
            OutsideLeg::V1_16_5_To_V1_20_4_C2s,
            p,
        ),
        (CanonicalVersion::V1_12_2, CanonicalVersion::V1_16_5) => outside(
            OutsideLeg::V1_12_2_To_V1_16_5_C2s,
            p,
        ),
        (CanonicalVersion::V1_16_5, CanonicalVersion::V1_12_2) => done(
            Some(v1_16_5_to_v1_12_2::spec_convert_c2s(p)),
        ),
        _ => Some(Plan::Done(Outcome::Passthrough)),
    }
}

/// A packet of a 1.20.4 client through three converters to a 1.6.4 server. What the first
/// sends back is sent back.
pub open spec fn long_haul(first: Outcome, cx: Surroundings) -> Outcome {
    match first {
        Outcome::Converted(v) => some_packets(
            through(
                through(v, NextLeg::V1_16_5_To_V1_12_2, cx),
                NextLeg::V1_12_2_To_V1_6_4,
                cx,
            ),
        ),
        other => other,
    }
}

fn run_long_haul(first: ConversionResult, cx: &Surroundings) -> (r: ConversionResult)
    ensures
        r@ == long_haul(first@, *cx),
{
    match first {
        ConversionResult::Converted(v) => {
            let (middle, _) = run_through(&v, NextLeg::V1_16_5_To_V1_12_2, cx);
            let (on, _) = run_through(&middle, NextLeg::V1_12_2_To_V1_6_4, cx);
            some_or_drop(on)
        },
        other => other,
    }
}

/// The plan for a packet toward the server.
/// A 1.6.4 server of a 1.7.10 client goes the way of the later ones, as toward the client.
pub open spec fn plan_c2s(p: Seq<u8>, client_proto: u32, server_proto: u32, cx: Surroundings) -> Option<
    Plan,
> {
    let (client, server) = (nearest_version(client_proto), nearest_version(server_proto));
    let modern_server = server.spec_release() > ProtocolVersion::V1_8.spec_release();
    match (client, server) {
        (ProtocolVersion::V1_7_10, ProtocolVersion::V1_8) => done(
            Some(v1_7_to_v1_8::spec_convert_c2s(p)),
        ),
        (ProtocolVersion::V1_8, ProtocolVersion::V1_7_10) => outside(OutsideLeg::V1_8_To_V1_7_C2s, p),
        (ProtocolVersion::V1_6_4, ProtocolVersion::V1_12_2) => done(
            Some(v1_6_4_to_v1_12_2::spec_convert_c2s(p)),
        ),
        (ProtocolVersion::V1_6_4, ProtocolVersion::V1_16_5) => done(
            v1_6_4_to_v1_16_5::spec_convert_c2s(p),
        ),
        (ProtocolVersion::V1_12_2, ProtocolVersion::V1_6_4) => done(
            Some(v1_12_2_to_v1_6_4::spec_convert_c2s(p)),
        ),
        (ProtocolVersion::V1_8, ProtocolVersion::V1_6_4) => done(
            Some(
                then_c2s(
                    v1_8_to_modern::spec_convert_c2s(p, 340, cx.millis),
                    NextLeg::V1_12_2_To_V1_6_4,
                    cx,
                ),
            ),
        ),
        (ProtocolVersion::V1_16_5, ProtocolVersion::V1_6_4) | (
            ProtocolVersion::V1_19_4,
            ProtocolVersion::V1_6_4,
        ) => done(
            Some(
                then_c2s(
                    v1_16_5_to_v1_12_2::spec_convert_c2s(p),
                    NextLeg::V1_12_2_To_V1_6_4,
                    cx,
                ),
            ),
        ),
        (ProtocolVersion::V1_20_4, ProtocolVersion::V1_6_4) | (
            ProtocolVersion::V1_21,
            ProtocolVersion::V1_6_4,
        ) => done(
            Some(
                long_haul(
                    v1_20_4_to_v1_16_5::spec_convert_c2s(
                        p,
                        client_proto,
                        contents(cx.registries@),
                    ),
                    cx,
                ),
            ),
        ),
        _ => if client is V1_8 && modern_server {
            done(Some(v1_8_to_modern::spec_convert_c2s(p, server_proto, cx.millis)))
        } else if client is V1_7_10 && (modern_server || server is V1_6_4) {
            done(
                Some(
                    then_c2s_or_back(
                        v1_7_to_v1_8::spec_convert_c2s(p),
                        NextLeg::V1_8_To_Modern { server_proto },
                        cx,
                    ),
                ),
            )
        } else {
            canonical_c2s(p, client_proto, server_proto, cx)
        },
    }
}

/// The plan for a packet, `None` where the packet ends before what is read of it. A spawned
/// player or entity gets the given unique id.
pub open spec fn plan_for(
    p: Seq<u8>,
    direction: ConversionDirection,
    uuid: (u64, u64),
    cx: Surroundings,
    blocks: Option<BlockTable>,
) -> Option<Plan> {
    match direction {
        ConversionDirection::ServerToClient { server_proto, client_proto } => plan_s2c(
            p,
            server_proto,
            client_proto,
            uuid,
            cx,
            blocks,
        ),
        ConversionDirection::ClientToServer { client_proto, server_proto } => plan_c2s(
            p,
            client_proto,
            server_proto,
            cx,
        ),
    }
}

fn one(p: Bytes) -> (v: Vec<Bytes>)
    ensures
        contents(v@) == seq![content(p)],
{
    let mut v: Vec<Bytes> = Vec::new();
    v.push(p);
    assert(contents(v@) =~= seq![content(p)]);
    v
}

fn sole(leg: OutsideLeg, p: Bytes) -> (s: Option<Step>)
    ensures
        s is Some,
        Some(s->0@) == outside(leg, content(p)),
{
    Some(Step::Outside { leg, packets: one(p), rule: OutsideRule::Sole })
}

/// The view of a step that may be missing.
pub open spec fn plan_of(s: Option<Step>) -> Option<Plan> {
    match s {
        Some(s) => Some(s@),
        None => None,
    }
}

fn finished(r: Option<ConversionResult>) -> (s: Option<Step>)
    ensures
        plan_of(s) == done(outcome_of(r)),
{
    match r {
        Some(r) => Some(Step::Done(r)),
        None => None,
    }
}

fn then_outside(first: Option<ConversionResult>, leg: OutsideLeg, rule: OutsideRule) -> (s: Option<Step>)
    ensures
        plan_of(s) == outside_next(outcome_of(first), leg, rule),
{
    match first {
        None => None,
        Some(ConversionResult::Passthrough) => Some(Step::Done(ConversionResult::Passthrough)),
        Some(ConversionResult::Converted(packets)) => Some(Step::Outside { leg, packets, rule }),
        Some(_) => Some(Step::Done(ConversionResult::Drop)),
    }
}

fn dispatch_canonical_s2c(
    payload: Bytes,
    server_proto: u32,
    client_proto: u32,
    cx: &Surroundings,
    repacker: Option<&ChunkRepacker>,
) -> (s: Option<Step>)
    ensures
        plan_of(s) == canonical_s2c(
            content(payload),
            server_proto,
            client_proto,
            *cx,
            block_table(repacker),
        ),
{
    match (canonical_for_dispatch(server_proto), canonical_for_dispatch(client_proto)) {
        (CanonicalVersion::V1_16_5, CanonicalVersion::V1_20_4) => sole(
            OutsideLeg::V1_16_5_To_V1_20_4_S2c,
            payload,
        ),
        (CanonicalVersion::V1_20_4, CanonicalVersion::V1_16_5) => Some(
            Step::Done(v1_20_4_to_v1_16_5::convert_s2c(payload)),
        ),
        (CanonicalVersion::V1_12_2, CanonicalVersion::V1_16_5) => sole(
            OutsideLeg::V1_12_2_To_V1_16_5_S2c,
            payload,
        ),
        (CanonicalVersion::V1_16_5, CanonicalVersion::V1_12_2) => finished(
            v1_16_5_to_v1_12_2::try_convert_s2c(payload, &cx.tables, repacker),
        ),
        _ => Some(Step::Done(ConversionResult::Passthrough)),
    }
}

fn dispatch_canonical_c2s(payload: Bytes, client_proto: u32, server_proto: u32, cx: &Surroundings) -> (s:
    Option<Step>)
    ensures
        plan_of(s) == canonical_c2s(content(payload), client_proto, server_proto, *cx),
{
    match (canonical_for_dispatch(client_proto), canonical_for_dispatch(server_proto)) {
        (CanonicalVersion::V1_20_4, CanonicalVersion::V1_16_5) => Some(
            Step::Done(v1_20_4_to_v1_16_5::convert_c2s(payload, client_proto, &cx.registries)),
        ),
        (CanonicalVersion::V1_16_5, CanonicalVersion::V1_20_4) => sole(
            OutsideLeg::V1_16_5_To_V1_20_4_C2s,
            payload,
        ),
        (CanonicalVersion::V1_12_2, CanonicalVersion::V1_16_5) => sole(
            OutsideLeg::V1_12_2_To_V1_16_5_C2s,
            payload,
        ),
        (CanonicalVersion::V1_16_5, CanonicalVersion::V1_12_2) => Some(
            Step::Done(v1_16_5_to_v1_12_2::convert_c2s(payload)),
        ),
        _ => Some(Step::Done(ConversionResult::Passthrough)),
    }
}

fn step_s2c(
    payload: Bytes,
    server_proto: u32,
    client_proto: u32,
    uuid: (u64, u64),
    cx: &Surroundings,
    repacker: Option<&ChunkRepacker>,
) -> (s: Option<Step>)
    ensures
        plan_of(s) == plan_s2c(
            content(payload),
            server_proto,
            client_proto,
            uuid,
            *cx,
            block_table(repacker),
        ),
{
    let server = nearest(server_proto);
    let client = nearest(client_proto);
    match (server, client) {
        (ProtocolVersion::V1_8, ProtocolVersion::V1_7_10) => sole(OutsideLeg::V1_8_To_V1_7_S2c, payload),
        (ProtocolVersion::V1_7_10, ProtocolVersion::V1_8) => Some(
            Step::Done(v1_7_to_v1_8::convert_s2c(payload)),
        ),
        (ProtocolVersion::V1_6_4, ProtocolVersion::V1_12_2) => finished(
            v1_6_4_to_v1_12_2::try_convert_s2c(payload, uuid),
        ),
        (ProtocolVersion::V1_6_4, ProtocolVersion::V1_16_5) => finished(
            v1_6_4_to_v1_16_5::try_convert_s2c(payload, uuid, &cx.tables),
        ),
        (ProtocolVersion::V1_6_4, ProtocolVersion::V1_8) => match v1_6_4_to_v1_12_2::try_convert_s2c(
            payload,
            uuid,
        ) {
            Some(first) => Some(Step::Done(next_s2c(first, NextLeg::V1_12_2_To_V1_8, cx))),
            None => None,
        },
        _ => {
            if server.newer_than_1_8() && client == ProtocolVersion::V1_8 {
                Some(Step::Done(modern_to_v1_8::convert_s2c(payload, server_proto, &cx.tables.items)))
            } else if (server.newer_than_1_8() || server == ProtocolVersion::V1_6_4) && client
                == ProtocolVersion::V1_7_10 {
                then_outside(
                    Some(modern_to_v1_8::convert_s2c(payload, server_proto, &cx.tables.items)),
                    OutsideLeg::V1_8_To_V1_7_S2c,
                    OutsideRule::Converted,
                )
            } else if server == ProtocolVersion::V1_6_4 && client.newer_than_1_16_5() {
                then_outside(
                    v1_6_4_to_v1_16_5::try_convert_s2c(payload, uuid, &cx.tables),
                    OutsideLeg::V1_16_5_To_V1_20_4_S2c,
                    OutsideRule::ConvertedOrKept,
                )
            } else {
                dispatch_canonical_s2c(payload, server_proto, client_proto, cx, repacker)
            }
        },
    }
}

fn step_c2s(payload: Bytes, client_proto: u32, server_proto: u32, cx: &Surroundings) -> (s: Option<Step>)
    ensures
        plan_of(s) == plan_c2s(content(payload), client_proto, server_proto, *cx),
{
    let client = nearest(client_proto);
    let server = nearest(server_proto);
    match (client, server) {
        (ProtocolVersion::V1_7_10, ProtocolVersion::V1_8) => Some(
            Step::Done(v1_7_to_v1_8::convert_c2s(payload)),
        ),
        (ProtocolVersion::V1_8, ProtocolVersion::V1_7_10) => sole(OutsideLeg::V1_8_To_V1_7_C2s, payload),
        (ProtocolVersion::V1_6_4, ProtocolVersion::V1_12_2) => Some(
            Step::Done(v1_6_4_to_v1_12_2::convert_c2s(payload)),
        ),
        (ProtocolVersion::V1_6_4, ProtocolVersion::V1_16_5) => finished(
            v1_6_4_to_v1_16_5::try_convert_c2s(payload),
        ),
        (ProtocolVersion::V1_12_2, ProtocolVersion::V1_6_4) => Some(
            Step::Done(v1_12_2_to_v1_6_4::convert_c2s(payload)),
        ),
        (ProtocolVersion::V1_8, ProtocolVersion::V1_6_4) => Some(
            Step::Done(
                next_c2s(
                    v1_8_to_modern::convert_c2s(payload, 340, cx.millis),
                    NextLeg::V1_12_2_To_V1_6_4,
                    cx,
                ),
            ),
        ),
        (ProtocolVersion::V1_16_5, ProtocolVersion::V1_6_4) | (
            ProtocolVersion::V1_19_4,
            ProtocolVersion::V1_6_4,
        ) => Some(
            Step::Done(
                next_c2s(
                    v1_16_5_to_v1_12_2::convert_c2s(payload),
                    NextLeg::V1_12_2_To_V1_6_4,
                    cx,
                ),
            ),
        ),
        (ProtocolVersion::V1_20_4, ProtocolVersion::V1_6_4) | (
            ProtocolVersion::V1_21,
            ProtocolVersion::V1_6_4,
        ) => Some(
            Step::Done(
                run_long_haul(
                    v1_20_4_to_v1_16_5::convert_c2s(payload, client_proto, &cx.registries),
                    cx,
                ),
            ),
        ),
        _ => {
            if client == ProtocolVersion::V1_8 && server.newer_than_1_8() {
                Some(Step::Done(v1_8_to_modern::convert_c2s(payload, server_proto, cx.millis)))
            } else if client == ProtocolVersion::V1_7_10 && (server.newer_than_1_8() || server
                == ProtocolVersion::V1_6_4) {
                Some(
                    Step::Done(
                        next_c2s_or_back(
                            v1_7_to_v1_8::convert_c2s(payload),
                            NextLeg::V1_8_To_Modern { server_proto },
                            cx,
                        ),
                    ),
                )
            } else {
                dispatch_canonical_c2s(payload, client_proto, server_proto, cx)
            }
        },
    }
}

/// Plans a packet, or gives `None` where the packet ends before what is read of it. A spawned
/// player or entity gets the given unique id.
pub fn plan(
    payload: Bytes,
    direction: ConversionDirection,
    uuid: (u64, u64),
    cx: &Surroundings,
    repacker: Option<&ChunkRepacker>,
) -> (s: Option<Step>)
    ensures
        plan_of(s) == plan_for(content(payload), direction, uuid, *cx, block_table(repacker)),
{
    match direction {
        ConversionDirection::ServerToClient { server_proto, client_proto } => step_s2c(
            payload,
            server_proto,
            client_proto,
            uuid,
            cx,
            repacker,
        ),
        ConversionDirection::ClientToServer { client_proto, server_proto } => step_c2s(
            payload,
            client_proto,
            server_proto,
            cx,
        ),
    }
}

// What converters outside this crate answer.

/// The outcomes that results stand for.
pub open spec fn outcomes(v: Seq<ConversionResult>) -> Seq<Outcome> {
    Seq::new(v.len(), |i: int| v[i]@)
}

/// The packets that go on for the answers to packets.
pub open spec fn answered(packets: Seq<Seq<u8>>, answers: Seq<Outcome>, keep: bool) -> Seq<Seq<u8>>
    decreases packets.len(),
{
    if packets.len() == 0 {
        seq![]
    } else {
        answered(packets.drop_last(), answers.drop_last(), keep) + (match answers.last() {
            Outcome::Converted(v) => v,
            Outcome::Passthrough => if keep {
                seq![packets.last()]
            } else {
                seq![]
            },
            _ => seq![],
        })
    }
}

/// The result of a plan for the answers to its packets.
pub open spec fn assembled(packets: Seq<Seq<u8>>, answers: Seq<Outcome>, rule: OutsideRule) -> Outcome {
    match rule {
        OutsideRule::Sole => answers[0],
        OutsideRule::Converted => some_packets(answered(packets, answers, false)),
        OutsideRule::ConvertedOrKept => some_packets(answered(packets, answers, true)),
    }
}

/// Puts the answers to the packets of a plan together.
pub fn assemble(packets: &Vec<Bytes>, answers: Vec<ConversionResult>, rule: OutsideRule) -> (r:
    ConversionResult)
    requires
        packets@.len() == answers@.len(),
        rule is Sole ==> packets@.len() == 1,
    ensures
        r@ == assembled(contents(packets@), outcomes(answers@), rule),
{
    let ghost all = contents(packets@);
    let ghost views = outcomes(answers@);
    let mut answers = answers;
    if rule == OutsideRule::Sole {
        assert(views[0] == answers@[0]@);
        return match answers.pop() {
            Some(r) => r,
            None => ConversionResult::Drop,
        };
    }
    let keep: bool = rule == OutsideRule::ConvertedOrKept;
    let mut out: Vec<Bytes> = Vec::new();
    let mut i: usize = 0;
    assert(all.take(0) =~= Seq::<Seq<u8>>::empty());
    assert(contents(out@) =~= seq![]);
    while i < packets.len()
        invariant
            i <= packets.len(),
            packets@.len() == answers@.len(),
            all == contents(packets@),
            views == outcomes(answers@),
            contents(out@) == answered(all.take(i as int), views.take(i as int), keep),
        decreases packets.len() - i,
    {
        assert(all.take(i + 1).drop_last() =~= all.take(i as int));
        assert(views.take(i + 1).drop_last() =~= views.take(i as int));
        assert(views.take(i + 1).last() == answers@[i as int]@);
        let ghost had = contents(out@);
        match &answers[i] {
            ConversionResult::Converted(v) => {
                append_copies(&mut out, v);
            },
            ConversionResult::Passthrough => {
                if keep {
                    let ghost before = out@;
                    out.push(bytes_clone(&packets[i]));
                    assert(contents(out@) =~= had + seq![content(packets@[i as int])]);
                } else {
                    assert(had + Seq::<Seq<u8>>::empty() =~= had);
                }
            },
            _ => {
                assert(had + Seq::<Seq<u8>>::empty() =~= had);
            },
        }
        i = i + 1;
    }
    assert(all.take(i as int) =~= all);
    assert(views.take(i as int) =~= views);
    some_or_drop(out)
}

fn append_copies(out: &mut Vec<Bytes>, more: &Vec<Bytes>)
    ensures
        contents(final(out)@) == contents(old(out)@) + contents(more@),
{
    let ghost had = contents(out@);
    let ghost add = contents(more@);
    let mut i: usize = 0;
    assert(had + add.take(0) =~= had);
    while i < more.len()
        invariant
            i <= more.len(),
            add == contents(more@),
            contents(out@) == had + add.take(i as int),
        decreases more.len() - i,
    {
        let ghost before = out@;
        out.push(bytes_clone(&more[i]));
        assert(contents(out@) =~= contents(before).push(add[i as int]));
        i = i + 1;
        assert(contents(out@) =~= had + add.take(i as int));
    }
    assert(add.take(i as int) =~= add);
}

// The converter.

/// Whether no converter outside this crate is due between the protocols of a direction.
pub open spec fn is_local(d: ConversionDirection) -> bool {
    match d {
        ConversionDirection::ServerToClient { server_proto, client_proto } => {
            let (s, c) = (nearest_version(server_proto), nearest_version(client_proto));
            let (fs, fc) = (canonical_fold(server_proto), canonical_fold(client_proto));
            &&& !(c is V1_7_10 && !(s is V1_7_10))
            &&& !(s is V1_6_4 && c.spec_release() > ProtocolVersion::V1_16_5.spec_release())
            &&& !(fs is V1_16_5 && fc is V1_20_4)
            &&& !(fs is V1_12_2 && fc is V1_16_5)
        },
        ConversionDirection::ClientToServer { client_proto, server_proto } => {
            let (c, s) = (nearest_version(client_proto), nearest_version(server_proto));
            let (fc, fs) = (canonical_fold(client_proto), canonical_fold(server_proto));
            &&& !(c is V1_8 && s is V1_7_10)
            &&& !(fc is V1_16_5 && fs is V1_20_4)
            &&& !(fc is V1_12_2 && fs is V1_16_5)
        },
    }
}

/// Whether no converter outside this crate is due between the protocols of a direction.
pub fn local_route(d: ConversionDirection) -> (r: bool)
    ensures
        r == is_local(d),
{
    match d {
        ConversionDirection::ServerToClient { server_proto, client_proto } => {
            let (s, c) = (nearest(server_proto), nearest(client_proto));
            let (fs, fc) = (canonical_for_dispatch(server_proto), canonical_for_dispatch(client_proto));
            !(c == ProtocolVersion::V1_7_10 && s != ProtocolVersion::V1_7_10) && !(s
                == ProtocolVersion::V1_6_4 && c.newer_than_1_16_5()) && !(fs
                == CanonicalVersion::V1_16_5 && fc == CanonicalVersion::V1_20_4) && !(fs
                == CanonicalVersion::V1_12_2 && fc == CanonicalVersion::V1_16_5)
        },
        ConversionDirection::ClientToServer { client_proto, server_proto } => {
            let (c, s) = (nearest(client_proto), nearest(server_proto));
            let (fc, fs) = (canonical_for_dispatch(client_proto), canonical_for_dispatch(server_proto));
            !(c == ProtocolVersion::V1_8 && s == ProtocolVersion::V1_7_10) && !(fc
                == CanonicalVersion::V1_16_5 && fs == CanonicalVersion::V1_20_4) && !(fc
                == CanonicalVersion::V1_12_2 && fs == CanonicalVersion::V1_16_5)
        },
    }
}

/// The result of a finished plan. A packet that ends before what is read of it is dropped.
pub open spec fn result_of(p: Option<Plan>) -> Outcome {
    match p {
        Some(Plan::Done(o)) => o,
        _ => Outcome::Drop,
    }
}

/// Between the protocols of a local route every plan is finished.
pub proof fn local_plans_are_finished(
    p: Seq<u8>,
    d: ConversionDirection,
    uuid: (u64, u64),
    cx: Surroundings,
    blocks: Option<BlockTable>,
)
    requires
        is_local(d),
    ensures
        plan_for(p, d, uuid, cx, blocks) matches Some(plan) ==> plan is Done,
{
}

/// Converts packets, with or without a chunk repacker.
pub struct PacketConverter {
    chunk_repacker: Option<Arc<ChunkRepacker>>,
}

impl PacketConverter {
    /// The repacker of this converter.
    pub closed spec fn repacker(&self) -> Option<Arc<ChunkRepacker>> {
        self.chunk_repacker
    }

    /// A converter without a repacker.
    pub fn new() -> (c: Self)
        ensures
            c.repacker() is None,
    {
        PacketConverter { chunk_repacker: None }
    }

    /// The converter with the given repacker.
    pub fn with_chunk_repacker(self, repacker: Arc<ChunkRepacker>) -> (c: Self)
        ensures
            c.repacker() == Some(repacker),
    {
        PacketConverter { chunk_repacker: Some(repacker) }
    }

    /// Converts a packet without a repacker, where no converter outside this crate is due. A
    /// packet that ends before what is read of it is dropped.
    pub fn convert(payload: Bytes, direction: ConversionDirection, cx: &Surroundings) -> (res:
        ConversionResult)
        requires
            is_local(direction),
        ensures
            exists|uuid: (u64, u64)|
                is_random_uuid(uuid) && res@ == result_of(
                    #[trigger] plan_for(content(payload), direction, uuid, *cx, None),
                ),
    {
        Self::convert_with_repacker(payload, direction, None, cx)
    }

    /// Converts a packet with the given repacker, where no converter outside this crate is
    /// due. A packet that ends before what is read of it is dropped.
    pub fn convert_with_repacker(
        payload: Bytes,
        direction: ConversionDirection,
        repacker: Option<Arc<ChunkRepacker>>,
        cx: &Surroundings,
    ) -> (res: ConversionResult)
        requires
            is_local(direction),
        ensures
            exists|uuid: (u64, u64)|
                is_random_uuid(uuid) && res@ == result_of(
                    #[trigger] plan_for(
                        content(payload),
                        direction,
                        uuid,
                        *cx,
                        shared_table(repacker),
                    ),
                ),
    {
        let ghost p = content(payload);
        let uuid = fresh_uuid();
        let borrowed: Option<&ChunkRepacker> = match &repacker {
            Some(r) => Some(&**r),
            None => None,
        };
        proof {
            local_plans_are_finished(p, direction, uuid, *cx, block_table(borrowed));
        }
        let attempt: Option<ConversionResult> = match plan(payload, direction, uuid, cx, borrowed) {
            Some(Step::Done(r)) => Some(r),
            _ => None,
        };
        let res = guard("convert", attempt);
        assert(block_table(borrowed) == shared_table(repacker));
        assert(res@ == result_of(plan_for(p, direction, uuid, *cx, shared_table(repacker))));
        res
    }
}

/// The block table of a shared repacker, where there is one.
pub open spec fn shared_table(repacker: Option<Arc<ChunkRepacker>>) -> Option<BlockTable> {
    match repacker {
        Some(r) => Some((*r).blocks()@),
        None => None,
    }
}

impl Default for PacketConverter {
    fn default() -> (c: Self)
        ensures
            c.repacker() is None,
    {
        PacketConverter::new()
    }
}

// Laws.

/// Between two protocols of one canonical release, both newer than 1.8, packets toward the
/// server are left alone.
pub proof fn same_release_is_kept(p: Seq<u8>, client_proto: u32, server_proto: u32, cx: Surroundings)
    requires
        canonical_fold(client_proto) == canonical_fold(server_proto),
        nearest_version(client_proto).spec_release() > ProtocolVersion::V1_8.spec_release(),
    ensures
        plan_c2s(p, client_proto, server_proto, cx) == Some(Plan::Done(Outcome::Passthrough)),
{
}

/// Converters in a row never send on an empty list of packets.
pub proof fn rows_send_something(first: Outcome, leg: NextLeg, cx: Surroundings)
    ensures
        then_s2c(first, leg, cx) matches Outcome::Converted(v) ==> v.len() > 0,
        first is Converted ==> (then_c2s(first, leg, cx) matches Outcome::Converted(v) ==> v.len() > 0),
        first is Converted ==> (then_c2s_or_back(first, leg, cx) matches Outcome::Converted(v)
            ==> v.len() > 0),
        first is Converted ==> (long_haul(first, cx) matches Outcome::Converted(v) ==> v.len() > 0),
{
}

} // verus!
