//! Which converters a packet goes through, by the numbers of the two protocols.
//!
//! 1.6.4 has the numbers from 73 to 78. The others are in order: 1.7.10 below 47, 1.8 below
//! 107, 1.12.2 below 393, 1.13.2 below 735, 1.16.5 below 759, 1.19.4 below 763, and from there
//! on 1.20.4 and 1.21.

use crate::converter::chunk_section::BlockTable;
use crate::converter::dispatch::{
    answered, assembled, is_local, leg_outcome, plan_c2s, plan_for, plan_s2c, returned, sent_on, through,
    ConversionDirection, NextLeg, OutsideLeg, OutsideRule, Plan, Surroundings,
};
use crate::converter::laws::fields::i64_field;
use crate::converter::laws::{of_1_12_2, of_1_16_5, of_1_20_4};
use crate::converter::outcome::{contents, packet, Outcome};
use crate::converter::{
    modern_to_v1_8, v1_12_2_to_v1_6_4, v1_16_5_to_v1_12_2, v1_20_4_to_v1_16_5, v1_6_4_to_v1_12_2,
    v1_6_4_to_v1_16_5, v1_7_to_v1_8, v1_8_to_modern,
};
use crate::wire::{be_i32, be_i64};
use vstd::prelude::*;

verus! {

/// Whether a protocol number is one of 1.6.4.
pub open spec fn of_1_6_4(proto: u32) -> bool {
    73 <= proto && proto <= 78
}

/// Whether a protocol number is one of 1.8.
pub open spec fn of_1_8(proto: u32) -> bool {
    47 <= proto && proto < 107 && !(73 <= proto && proto <= 78)
}

// Packets in a row.

/// What a converter makes of packets in a row is what it makes of each, in order; what it leaves
/// alone or drops goes no further.
pub proof fn each_in_turn(v: Seq<Seq<u8>>, p: Seq<u8>, leg: NextLeg, cx: Surroundings)
    ensures
        through(seq![], leg, cx) == Seq::<Seq<u8>>::empty(),
        leg_outcome(leg, p, cx) matches Outcome::Converted(w) ==> through(v.push(p), leg, cx)
            == through(v, leg, cx) + w,
        !(leg_outcome(leg, p, cx) is Converted) ==> through(v.push(p), leg, cx) == through(v, leg, cx),
        returned(seq![], leg, cx) == Seq::<Seq<u8>>::empty(),
        leg_outcome(leg, p, cx) matches Outcome::InjectS2C(w) ==> returned(v.push(p), leg, cx)
            == returned(v, leg, cx) + w,
        !(leg_outcome(leg, p, cx) is InjectS2C) ==> returned(v.push(p), leg, cx) == returned(v, leg, cx),
{
    assert(v.push(p).drop_last() =~= v);
    assert(through(v, leg, cx) + Seq::<Seq<u8>>::empty() =~= through(v, leg, cx));
    assert(returned(v, leg, cx) + Seq::<Seq<u8>>::empty() =~= returned(v, leg, cx));
}

/// What comes out of a row of packets is, each of it, what the converter gives for one of them.
proof fn from_one_of_them(v: Seq<Seq<u8>>, leg: NextLeg, cx: Surroundings, k: int)
    requires
        0 <= k < through(v, leg, cx).len(),
    ensures
        exists|i: int|
            0 <= i < v.len() && sent_on(leg_outcome(leg, #[trigger] v[i], cx)).contains(through(v, leg, cx)[k]),
    decreases v.len(),
{
    if v.len() > 0 {
        let had = through(v.drop_last(), leg, cx);
        let last = sent_on(leg_outcome(leg, v.last(), cx));
        if k < had.len() {
            from_one_of_them(v.drop_last(), leg, cx, k);
            let i = choose|i: int|
                0 <= i < v.drop_last().len() && sent_on(
                    leg_outcome(leg, #[trigger] v.drop_last()[i], cx),
                ).contains(had[k]);
            assert(v.drop_last()[i] == v[i]);
        } else {
            assert(last[k - had.len()] == through(v, leg, cx)[k]);
            assert(v[v.len() - 1] == v.last());
        }
    }
}

/// A converter that gives one packet for one packet gives it for a row of one.
pub proof fn one_for_one(p: Seq<u8>, q: Seq<u8>, leg: NextLeg, cx: Surroundings)
    requires
        leg_outcome(leg, p, cx) == Outcome::Converted(seq![q]),
    ensures
        through(seq![p], leg, cx) == seq![q],
{
    each_in_turn(seq![], p, leg, cx);
    assert(Seq::<Seq<u8>>::empty().push(p) =~= seq![p]);
    assert(Seq::<Seq<u8>>::empty() + seq![q] =~= seq![q]);
}

// Toward the server.

/// Every packet that is sent on from a 1.20.4 or 1.21 client to a 1.6.4 server is one that the
/// converter from 1.12.2 to 1.6.4 gives.
pub proof fn long_way_ends_in_1_6_4(
    p: Seq<u8>,
    client_proto: u32,
    server_proto: u32,
    cx: Surroundings,
    v: Seq<Seq<u8>>,
    k: int,
)
    requires
        client_proto >= 763,
        73 <= server_proto <= 78,
        plan_c2s(p, client_proto, server_proto, cx) == Some(Plan::Done(Outcome::Converted(v))),
        0 <= k < v.len(),
    ensures
        v.len() > 0,
        exists|q: Seq<u8>| {
            &&& #[trigger] v1_12_2_to_v1_6_4::spec_convert_c2s(q) matches Outcome::Converted(w)
            &&& w.contains(v[k])
        },
{
    let first = v1_20_4_to_v1_16_5::spec_convert_c2s(p, client_proto, contents(cx.registries@));
    let middle = through(first->Converted_0, NextLeg::V1_16_5_To_V1_12_2, cx);
    let leg = NextLeg::V1_12_2_To_V1_6_4;
    assert(v == through(middle, leg, cx));
    from_one_of_them(middle, leg, cx, k);
    let i = choose|i: int|
        0 <= i < middle.len() && sent_on(leg_outcome(leg, #[trigger] middle[i], cx)).contains(v[k]);
    assert(sent_on(v1_12_2_to_v1_6_4::spec_convert_c2s(middle[i])).contains(v[k]));
}

/// From a 1.20.4 or 1.21 client to a 1.6.4 server a packet goes through 1.16.5 and 1.12.2, and
/// what becomes of it on each leg is what arrives. What the first leg does not convert stays
/// as it leaves it, and what a later leg does not convert goes no further.
pub proof fn three_legs(
    p: Seq<u8>,
    q: Seq<u8>,
    r: Seq<u8>,
    s: Seq<u8>,
    client_proto: u32,
    server_proto: u32,
    cx: Surroundings,
)
    requires
        client_proto >= 763,
        73 <= server_proto <= 78,
    ensures
        ({
            let a = v1_20_4_to_v1_16_5::spec_convert_c2s(p, client_proto, contents(cx.registries@));
            let b = v1_16_5_to_v1_12_2::spec_convert_c2s(q);
            let c = v1_12_2_to_v1_6_4::spec_convert_c2s(r);
            let whole = plan_c2s(p, client_proto, server_proto, cx);
            &&& a == Outcome::Converted(seq![q]) && b == Outcome::Converted(seq![r]) && c
                == Outcome::Converted(seq![s]) ==> whole == Some(
                Plan::Done(Outcome::Converted(seq![s])),
            )
            &&& a == Outcome::Converted(seq![q]) && b == Outcome::Converted(seq![r])
                && !(c is Converted) ==> whole == Some(Plan::Done(Outcome::Drop))
            &&& a == Outcome::Converted(seq![q]) && !(b is Converted) ==> whole == Some(
                Plan::Done(Outcome::Drop),
            )
            &&& !(a is Converted) ==> whole == Some(Plan::Done(a))
        }),
{
    let b = v1_16_5_to_v1_12_2::spec_convert_c2s(q);
    let c = v1_12_2_to_v1_6_4::spec_convert_c2s(r);
    each_in_turn(seq![], q, NextLeg::V1_16_5_To_V1_12_2, cx);
    each_in_turn(seq![], r, NextLeg::V1_12_2_To_V1_6_4, cx);
    assert(Seq::<Seq<u8>>::empty().push(q) =~= seq![q]);
    assert(Seq::<Seq<u8>>::empty().push(r) =~= seq![r]);
    assert(Seq::<Seq<u8>>::empty() + seq![r] =~= seq![r]);
    assert(Seq::<Seq<u8>>::empty() + seq![s] =~= seq![s]);
}

/// The keep-alive of a 1.20.4 or 1.21 client reaches a 1.6.4 server as the lower half of its id.
pub proof fn keep_alive_goes_the_long_way(
    id: i64,
    client_proto: u32,
    server_proto: u32,
    cx: Surroundings,
)
    requires
        client_proto >= 763,
        73 <= server_proto <= 78,
    ensures
        plan_c2s(seq![0x15u8] + be_i64(id), client_proto, server_proto, cx) == Some(
            Plan::Done(Outcome::Converted(seq![seq![0x00u8] + be_i32(id as i32)])),
        ),
{
    reveal(i64_field);
    let none = Seq::<u8>::empty();
    let p = seq![0x15u8] + be_i64(id);
    assert(i64_field(id) + none =~= be_i64(id));
    assert(p == packet(0x15, i64_field(id) + none));
    of_1_20_4::c2s_play_keep_alive(id, none, client_proto, contents(cx.registries@), none);
    of_1_16_5::c2s_bodies_kept(be_i64(id));
    of_1_12_2::c2s_keep_alive(id, none, none);
    three_legs(
        p,
        packet(0x10, be_i64(id)),
        packet(0x0B, be_i64(id)),
        packet(0x00, be_i32(id as i32)),
        client_proto,
        server_proto,
        cx,
    );
    assert(packet(0x00, be_i32(id as i32)) == seq![0x00u8] + be_i32(id as i32));
}

/// From a 1.16.5 or 1.19.4 client to a 1.6.4 server a packet goes through 1.12.2.
pub proof fn two_legs_from_1_16_5(
    p: Seq<u8>,
    q: Seq<u8>,
    r: Seq<u8>,
    client_proto: u32,
    server_proto: u32,
    cx: Surroundings,
)
    requires
        735 <= client_proto < 763,
        73 <= server_proto <= 78,
    ensures
        ({
            let a = v1_16_5_to_v1_12_2::spec_convert_c2s(p);
            let b = v1_12_2_to_v1_6_4::spec_convert_c2s(q);
            let whole = plan_c2s(p, client_proto, server_proto, cx);
            &&& a == Outcome::Converted(seq![q]) && b == Outcome::Converted(seq![r]) ==> whole == Some(
                Plan::Done(Outcome::Converted(seq![r])),
            )
            &&& a == Outcome::Converted(seq![q]) && !(b is Converted) ==> whole == Some(
                Plan::Done(Outcome::Drop),
            )
            &&& !(a is Converted) ==> whole == Some(Plan::Done(a))
        }),
{
    each_in_turn(seq![], q, NextLeg::V1_12_2_To_V1_6_4, cx);
    assert(Seq::<Seq<u8>>::empty().push(q) =~= seq![q]);
    assert(Seq::<Seq<u8>>::empty() + seq![r] =~= seq![r]);
}

/// From a 1.8 client to a 1.6.4 server a packet goes through 1.12.2, whose protocol is 340.
pub proof fn two_legs_from_1_8(
    p: Seq<u8>,
    q: Seq<u8>,
    r: Seq<u8>,
    client_proto: u32,
    server_proto: u32,
    cx: Surroundings,
)
    requires
        of_1_8(client_proto),
        73 <= server_proto <= 78,
    ensures
        ({
            let a = v1_8_to_modern::spec_convert_c2s(p, 340, cx.millis);
            let b = v1_12_2_to_v1_6_4::spec_convert_c2s(q);
            let whole = plan_c2s(p, client_proto, server_proto, cx);
            &&& a == Outcome::Converted(seq![q]) && b == Outcome::Converted(seq![r]) ==> whole == Some(
                Plan::Done(Outcome::Converted(seq![r])),
            )
            &&& a == Outcome::Converted(seq![q]) && !(b is Converted) ==> whole == Some(
                Plan::Done(Outcome::Drop),
            )
            &&& !(a is Converted) ==> whole == Some(Plan::Done(a))
        }),
{
    each_in_turn(seq![], q, NextLeg::V1_12_2_To_V1_6_4, cx);
    assert(Seq::<Seq<u8>>::empty().push(q) =~= seq![q]);
    assert(Seq::<Seq<u8>>::empty() + seq![r] =~= seq![r]);
}

/// From a 1.7.10 client to a server newer than 1.8, or one of 1.6.4, a packet goes through 1.8,
/// and what the second leg sends back for it is sent back.
pub proof fn two_legs_from_1_7_10(
    p: Seq<u8>,
    q: Seq<u8>,
    r: Seq<u8>,
    client_proto: u32,
    server_proto: u32,
    cx: Surroundings,
)
    requires
        client_proto < 47,
        server_proto >= 107 || of_1_6_4(server_proto),
    ensures
        ({
            let a = v1_7_to_v1_8::spec_convert_c2s(p);
            let b = v1_8_to_modern::spec_convert_c2s(q, server_proto, cx.millis);
            let whole = plan_c2s(p, client_proto, server_proto, cx);
            &&& a == Outcome::Converted(seq![q]) && b == Outcome::Converted(seq![r]) ==> whole == Some(
                Plan::Done(Outcome::Converted(seq![r])),
            )
            &&& a == Outcome::Converted(seq![q]) && b == Outcome::InjectS2C(seq![r]) ==> whole == Some(
                Plan::Done(Outcome::InjectS2C(seq![r])),
            )
            &&& a == Outcome::Converted(seq![q]) && (b is Drop || b is Passthrough) ==> whole == Some(
                Plan::Done(Outcome::Drop),
            )
            &&& !(a is Converted) ==> whole == Some(Plan::Done(a))
        }),
{
    each_in_turn(seq![], q, NextLeg::V1_8_To_Modern { server_proto }, cx);
    assert(Seq::<Seq<u8>>::empty().push(q) =~= seq![q]);
    assert(Seq::<Seq<u8>>::empty() + seq![r] =~= seq![r]);
}

/// The pairs of releases with a converter of their own toward the server.
pub proof fn one_leg_c2s(p: Seq<u8>, client_proto: u32, server_proto: u32, cx: Surroundings)
    ensures
        ({
            let whole = plan_c2s(p, client_proto, server_proto, cx);
            &&& client_proto < 47 && of_1_8(server_proto) ==> whole == Some(
                Plan::Done(v1_7_to_v1_8::spec_convert_c2s(p)),
            )
            &&& of_1_8(client_proto) && server_proto >= 107 ==> whole == Some(
                Plan::Done(v1_8_to_modern::spec_convert_c2s(p, server_proto, cx.millis)),
            )
            &&& of_1_6_4(client_proto) && 107 <= server_proto < 393 ==> whole == Some(
                Plan::Done(v1_6_4_to_v1_12_2::spec_convert_c2s(p)),
            )
            &&& of_1_6_4(client_proto) && 735 <= server_proto < 759 ==> match v1_6_4_to_v1_16_5::spec_convert_c2s(
                p,
            ) {
                Some(o) => whole == Some(Plan::Done(o)),
                None => whole is None,
            }
            &&& 107 <= client_proto < 393 && of_1_6_4(server_proto) ==> whole == Some(
                Plan::Done(v1_12_2_to_v1_6_4::spec_convert_c2s(p)),
            )
            &&& client_proto >= 763 && 735 <= server_proto < 763 ==> whole == Some(
                Plan::Done(
                    v1_20_4_to_v1_16_5::spec_convert_c2s(p, client_proto, contents(cx.registries@)),
                ),
            )
            &&& 735 <= client_proto < 763 && 107 <= server_proto < 735 ==> whole == Some(
                Plan::Done(v1_16_5_to_v1_12_2::spec_convert_c2s(p)),
            )
        }),
{
}

/// The pairs of releases toward the server whose converter is outside.
pub proof fn outside_c2s(p: Seq<u8>, client_proto: u32, server_proto: u32, cx: Surroundings)
    ensures
        ({
            let whole = plan_c2s(p, client_proto, server_proto, cx);
            &&& of_1_8(client_proto) && server_proto < 47 ==> whole == Some(
                Plan::Outside {
                    leg: OutsideLeg::V1_8_To_V1_7_C2s,
                    packets: seq![p],
                    rule: OutsideRule::Sole,
                },
            )
            &&& 735 <= client_proto < 763 && server_proto >= 763 ==> whole == Some(
                Plan::Outside {
                    leg: OutsideLeg::V1_16_5_To_V1_20_4_C2s,
                    packets: seq![p],
                    rule: OutsideRule::Sole,
                },
            )
            &&& 107 <= client_proto < 735 && 735 <= server_proto < 763 ==> whole == Some(
                Plan::Outside {
                    leg: OutsideLeg::V1_12_2_To_V1_16_5_C2s,
                    packets: seq![p],
                    rule: OutsideRule::Sole,
                },
            )
        }),
{
}

/// The pairs of releases between which packets toward the server are left alone.
pub proof fn left_alone_c2s(p: Seq<u8>, client_proto: u32, server_proto: u32, cx: Surroundings)
    requires
        ({
            ||| client_proto < 47 && server_proto < 47
            ||| of_1_8(client_proto) && of_1_8(server_proto)
            ||| of_1_6_4(client_proto) && of_1_6_4(server_proto)
            ||| 107 <= client_proto < 735 && 107 <= server_proto < 735
            ||| 735 <= client_proto < 763 && 735 <= server_proto < 763
            ||| client_proto >= 763 && server_proto >= 763
            ||| client_proto >= 763 && 107 <= server_proto < 735
            ||| 107 <= client_proto < 735 && server_proto >= 763
            ||| 393 <= client_proto < 735 && of_1_6_4(server_proto)
            ||| client_proto >= 107 && server_proto < 107 && !of_1_6_4(server_proto)
            ||| of_1_6_4(client_proto) && server_proto < 107
            ||| of_1_6_4(client_proto) && 393 <= server_proto < 735
            ||| of_1_6_4(client_proto) && server_proto >= 759
        }),
    ensures
        plan_c2s(p, client_proto, server_proto, cx) == Some(Plan::Done(Outcome::Passthrough)),
{
}

// Toward the client.

/// The pairs of releases with a converter of their own toward the client.
pub proof fn one_leg_s2c(
    p: Seq<u8>,
    server_proto: u32,
    client_proto: u32,
    uuid: (u64, u64),
    cx: Surroundings,
    blocks: Option<BlockTable>,
)
    ensures
        ({
            let whole = plan_s2c(p, server_proto, client_proto, uuid, cx, blocks);
            &&& server_proto < 47 && of_1_8(client_proto) ==> whole == Some(
                Plan::Done(v1_7_to_v1_8::spec_convert_s2c(p)),
            )
            &&& server_proto >= 107 && of_1_8(client_proto) ==> whole == Some(
                Plan::Done(modern_to_v1_8::spec_convert_s2c(p, server_proto, cx.tables.items)),
            )
            &&& of_1_6_4(server_proto) && 107 <= client_proto < 393 ==> if v1_6_4_to_v1_12_2::s2c_readable(
                p,
            ) {
                whole == Some(Plan::Done(v1_6_4_to_v1_12_2::spec_convert_s2c(p, uuid)))
            } else {
                whole is None
            }
            &&& of_1_6_4(server_proto) && 735 <= client_proto < 759 ==> match v1_6_4_to_v1_16_5::spec_convert_s2c(
                p,
                uuid,
                cx.tables,
            ) {
                Some(o) => whole == Some(Plan::Done(o)),
                None => whole is None,
            }
            &&& 735 <= server_proto < 763 && 107 <= client_proto < 735 ==> match v1_16_5_to_v1_12_2::spec_convert_s2c(
                p,
                cx.tables,
                blocks,
            ) {
                Some(o) => whole == Some(Plan::Done(o)),
                None => whole is None,
            }
        }),
{
}

/// From a 1.6.4 server to a 1.8 client a packet goes through 1.12.2, whose protocol is 340.
/// What the first leg sends back is dropped.
pub proof fn two_legs_to_1_8(
    p: Seq<u8>,
    q: Seq<u8>,
    r: Seq<u8>,
    server_proto: u32,
    client_proto: u32,
    uuid: (u64, u64),
    cx: Surroundings,
    blocks: Option<BlockTable>,
)
    requires
        of_1_6_4(server_proto),
        of_1_8(client_proto),
        v1_6_4_to_v1_12_2::s2c_readable(p),
    ensures
        ({
            let a = v1_6_4_to_v1_12_2::spec_convert_s2c(p, uuid);
            let b = modern_to_v1_8::spec_convert_s2c(q, 340, cx.tables.items);
            let whole = plan_s2c(p, server_proto, client_proto, uuid, cx, blocks);
            &&& a == Outcome::Converted(seq![q]) && b == Outcome::Converted(seq![r]) ==> whole == Some(
                Plan::Done(Outcome::Converted(seq![r])),
            )
            &&& a == Outcome::Converted(seq![q]) && !(b is Converted) ==> whole == Some(
                Plan::Done(Outcome::Drop),
            )
            &&& a is Passthrough ==> whole == Some(Plan::Done(Outcome::Passthrough))
            &&& a is Drop || a is InjectS2C ==> whole == Some(Plan::Done(Outcome::Drop))
        }),
{
    each_in_turn(seq![], q, NextLeg::V1_12_2_To_V1_8, cx);
    assert(Seq::<Seq<u8>>::empty().push(q) =~= seq![q]);
    assert(Seq::<Seq<u8>>::empty() + seq![r] =~= seq![r]);
}

/// The pairs of releases toward the client whose last converter is outside.
pub proof fn outside_s2c(
    p: Seq<u8>,
    v: Seq<Seq<u8>>,
    server_proto: u32,
    client_proto: u32,
    uuid: (u64, u64),
    cx: Surroundings,
    blocks: Option<BlockTable>,
)
    ensures
        ({
            let whole = plan_s2c(p, server_proto, client_proto, uuid, cx, blocks);
            let older = modern_to_v1_8::spec_convert_s2c(p, server_proto, cx.tables.items);
            let newer = v1_6_4_to_v1_16_5::spec_convert_s2c(p, uuid, cx.tables);
            &&& of_1_8(server_proto) && client_proto < 47 ==> whole == Some(
                Plan::Outside {
                    leg: OutsideLeg::V1_8_To_V1_7_S2c,
                    packets: seq![p],
                    rule: OutsideRule::Sole,
                },
            )
            &&& (server_proto >= 107 || of_1_6_4(server_proto)) && client_proto < 47 ==> {
                &&& older == Outcome::Converted(v) ==> whole == Some(
                    Plan::Outside {
                        leg: OutsideLeg::V1_8_To_V1_7_S2c,
                        packets: v,
                        rule: OutsideRule::Converted,
                    },
                )
                &&& older is Passthrough ==> whole == Some(Plan::Done(Outcome::Passthrough))
                &&& older is Drop || older is InjectS2C ==> whole == Some(Plan::Done(Outcome::Drop))
            }
            &&& of_1_6_4(server_proto) && client_proto >= 759 ==> {
                &&& newer == Some(Outcome::Converted(v)) ==> whole == Some(
                    Plan::Outside {
                        leg: OutsideLeg::V1_16_5_To_V1_20_4_S2c,
                        packets: v,
                        rule: OutsideRule::ConvertedOrKept,
                    },
                )
                &&& newer == Some(Outcome::Passthrough) ==> whole == Some(
                    Plan::Done(Outcome::Passthrough),
                )
                &&& newer == Some(Outcome::Drop) ==> whole == Some(Plan::Done(Outcome::Drop))
                &&& newer is None ==> whole is None
            }
            &&& 735 <= server_proto < 763 && client_proto >= 763 ==> whole == Some(
                Plan::Outside {
                    leg: OutsideLeg::V1_16_5_To_V1_20_4_S2c,
                    packets: seq![p],
                    rule: OutsideRule::Sole,
                },
            )
            &&& 107 <= server_proto < 735 && 735 <= client_proto < 763 ==> whole == Some(
                Plan::Outside {
                    leg: OutsideLeg::V1_12_2_To_V1_16_5_S2c,
                    packets: seq![p],
                    rule: OutsideRule::Sole,
                },
            )
        }),
{
}

/// The pairs of releases between which packets toward the client are left alone.
pub proof fn left_alone_s2c(
    p: Seq<u8>,
    server_proto: u32,
    client_proto: u32,
    uuid: (u64, u64),
    cx: Surroundings,
    blocks: Option<BlockTable>,
)
    requires
        ({
            ||| server_proto < 47 && client_proto < 47
            ||| server_proto < 107 && client_proto >= 107 && !of_1_6_4(server_proto)
            ||| server_proto < 107 && !of_1_6_4(server_proto) && of_1_6_4(client_proto)
            ||| of_1_8(server_proto) && of_1_8(client_proto)
            ||| of_1_6_4(server_proto) && of_1_6_4(client_proto)
            ||| of_1_6_4(server_proto) && 393 <= client_proto < 735
            ||| server_proto >= 107 && of_1_6_4(client_proto)
            ||| 107 <= server_proto < 735 && 107 <= client_proto < 735
            ||| 107 <= server_proto < 735 && client_proto >= 763
            ||| 735 <= server_proto < 763 && 735 <= client_proto < 763
            ||| server_proto >= 763 && client_proto >= 107
        }),
    ensures
        plan_s2c(p, server_proto, client_proto, uuid, cx, blocks) == Some(
            Plan::Done(Outcome::Passthrough),
        ),
{
}

// Answers of converters outside.

/// The answers to packets in a row are put together in order. A packet whose answer is dropped
/// or sent back goes no further; one that is left alone goes on only where that is the rule.
pub proof fn answers_in_turn(v: Seq<Seq<u8>>, a: Seq<Outcome>, p: Seq<u8>, o: Outcome, keep: bool)
    requires
        v.len() == a.len(),
    ensures
        ({
            let had = answered(v, a, keep);
            let now = answered(v.push(p), a.push(o), keep);
            &&& o matches Outcome::Converted(w) ==> now == had + w
            &&& o is Passthrough && keep ==> now == had.push(p)
            &&& o is Passthrough && !keep ==> now == had
            &&& o is Drop || o is InjectS2C ==> now == had
        }),
{
    assert(v.push(p).drop_last() =~= v);
    assert(a.push(o).drop_last() =~= a);
    let had = answered(v, a, keep);
    assert(had + Seq::<Seq<u8>>::empty() =~= had);
    assert(had + seq![p] =~= had.push(p));
}

/// The answer to a sole packet is the result. For packets in a row what goes on is the result,
/// and nothing is dropped as a whole unless nothing goes on.
pub proof fn answers_make_the_result(p: Seq<u8>, o: Outcome, v: Seq<Seq<u8>>, a: Seq<Outcome>)
    ensures
        assembled(seq![p], seq![o], OutsideRule::Sole) == o,
        assembled(v, a, OutsideRule::Converted) == if answered(v, a, false).len() == 0 {
            Outcome::Drop
        } else {
            Outcome::Converted(answered(v, a, false))
        },
        assembled(v, a, OutsideRule::ConvertedOrKept) == if answered(v, a, true).len() == 0 {
            Outcome::Drop
        } else {
            Outcome::Converted(answered(v, a, true))
        },
{
}

/// The directions for which a converter outside is due, by the numbers of the protocols.
pub proof fn local_routes(server_proto: u32, client_proto: u32)
    ensures
        is_local(ConversionDirection::ServerToClient { server_proto, client_proto }) <==> !(client_proto < 47
            && server_proto >= 47) && !(of_1_6_4(server_proto) && client_proto >= 759) && !(735 <= server_proto
            && server_proto < 763 && client_proto >= 763) && !(107 <= server_proto && server_proto < 735 && 735
            <= client_proto && client_proto < 763),
        is_local(ConversionDirection::ClientToServer { client_proto, server_proto }) <==> !(of_1_8(client_proto)
            && server_proto < 47) && !(735 <= client_proto && client_proto < 763 && server_proto >= 763) && !(107
            <= client_proto && client_proto < 735 && 735 <= server_proto && server_proto < 763),
{
}

/// A direction leads to the plan that goes with it.
pub proof fn directions_lead(
    p: Seq<u8>,
    server_proto: u32,
    client_proto: u32,
    uuid: (u64, u64),
    cx: Surroundings,
    blocks: Option<BlockTable>,
)
    ensures
        plan_for(
            p,
            ConversionDirection::ServerToClient { server_proto, client_proto },
            uuid,
            cx,
            blocks,
        ) == plan_s2c(p, server_proto, client_proto, uuid, cx, blocks),
        plan_for(
            p,
            ConversionDirection::ClientToServer { client_proto, server_proto },
            uuid,
            cx,
            blocks,
        ) == plan_c2s(p, client_proto, server_proto, cx),
{
}

} // verus!
