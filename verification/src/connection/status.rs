//! What the server list shows.

use crate::text::{decimal, push_decimal};
use vstd::prelude::*;

verus! {

/// A player that the server list names.
#[derive(Debug, PartialEq, Eq)]
pub struct SamplePlayer {
    pub name: String,
    pub uuid: String,
}

/// What a plugin answers to a ping.
#[derive(Debug, PartialEq, Eq)]
pub enum PingResponse {
    /// Names these players.
    UpdatePlayerSample(Vec<SamplePlayer>),
    /// Says something else.
    Other,
}

/// The status for a protocol, in front of what is the same for all.
pub open spec fn status_of(protocol: u32, suffix: Seq<char>) -> Seq<char> {
    "{\"version\":{\"name\":\"Koja\",\"protocol\":"@ + decimal(protocol as nat) + suffix
}

/// The status for a protocol, in front of what is the same for all.
pub fn status_json(protocol: u32, suffix: &str) -> (r: String)
    ensures
        r@ == status_of(protocol, suffix@),
{
    let mut out = String::from_str("{\"version\":{\"name\":\"Koja\",\"protocol\":");
    push_decimal(&mut out, protocol as u64);
    out.append(suffix);
    out
}

/// The status for a client before 1.7.
pub open spec fn legacy_status_of(suffix: Seq<char>) -> Seq<char> {
    "{\"version\":{\"name\":\"Koja\",\"protocol\":78}"@ + suffix
}

/// The status for a client before 1.7.
pub fn legacy_status_json(suffix: &str) -> (r: String)
    ensures
        r@ == legacy_status_of(suffix@),
{
    let mut out = String::from_str("{\"version\":{\"name\":\"Koja\",\"protocol\":78}");
    out.append(suffix);
    out
}

/// A player in a sample.
pub open spec fn sample_entry(p: SamplePlayer) -> Seq<char> {
    "{\"name\":\""@ + p.name@ + "\",\"uuid\":\""@ + p.uuid@ + "\"}"@
}

/// The players of a sample, with commas between them.
pub open spec fn sample_list(sample: Seq<SamplePlayer>) -> Seq<char>
    decreases sample.len(),
{
    if sample.len() == 0 {
        seq![]
    } else if sample.len() == 1 {
        sample_entry(sample[0])
    } else {
        sample_list(sample.drop_last()) + ","@ + sample_entry(sample.last())
    }
}

/// The status for a protocol with a sample that a plugin chose.
pub open spec fn sampled_status_of(
    protocol: u32,
    max_players: u64,
    online_players: u64,
    sample: Seq<SamplePlayer>,
    suffix: Seq<char>,
) -> Seq<char> {
    "{\"version\":{\"name\":\"Koja\",\"protocol\":\""@ + decimal(protocol as nat) + "\"},\"players\":{\"max\":"@
        + decimal(max_players as nat) + ",\"online\":"@ + decimal(online_players as nat) + ",\"sample\":["@
        + sample_list(sample) + "]}"@ + suffix + "}"@
}

/// Appends the players of a sample, with commas between them.
fn push_sample(out: &mut String, sample: &Vec<SamplePlayer>)
    ensures
        final(out)@ == old(out)@ + sample_list(sample@),
{
    let ghost before = out@;
    let mut i: usize = 0;
    assert(sample@.take(0) =~= Seq::<SamplePlayer>::empty());
    assert(before + sample_list(sample@.take(0)) =~= before);
    while i < sample.len()
        invariant
            i <= sample.len(),
            out@ == before + sample_list(sample@.take(i as int)),
        decreases sample.len() - i,
    {
        let ghost had = out@;
        if i > 0 {
            out.append(",");
        }
        out.append("{\"name\":\"");
        out.append(sample[i].name.as_str());
        out.append("\",\"uuid\":\"");
        out.append(sample[i].uuid.as_str());
        out.append("\"}");
        proof {
            let one = sample_entry(sample@[i as int]);
            assert(sample@.take(i + 1).drop_last() =~= sample@.take(i as int));
            if i == 0 {
                assert(out@ =~= had + one);
                assert(out@ =~= before + sample_list(sample@.take(1)));
            } else {
                assert(out@ =~= had + ","@ + one);
                assert(out@ =~= before + sample_list(sample@.take(i + 1)));
            }
        }
        i = i + 1;
    }
    assert(sample@.take(i as int) =~= sample@);
}

/// The status for a protocol with a sample that a plugin chose.
pub fn sampled_status_json(
    protocol: u32,
    max_players: u64,
    online_players: u64,
    sample: &Vec<SamplePlayer>,
    suffix: &str,
) -> (r: String)
    ensures
        r@ == sampled_status_of(protocol, max_players, online_players, sample@, suffix@),
{
    let mut out = String::from_str("{\"version\":{\"name\":\"Koja\",\"protocol\":\"");
    push_decimal(&mut out, protocol as u64);
    out.append("\"},\"players\":{\"max\":");
    push_decimal(&mut out, max_players);
    out.append(",\"online\":");
    push_decimal(&mut out, online_players);
    out.append(",\"sample\":[");
    push_sample(&mut out, sample);
    out.append("]}");
    out.append(suffix);
    out.append("}");
    out
}

/// The sample that the first plugin to name one has named.
pub open spec fn first_sample(responses: Seq<PingResponse>) -> Option<Seq<SamplePlayer>>
    decreases responses.len(),
{
    if responses.len() == 0 {
        None
    } else {
        match responses[0] {
            PingResponse::UpdatePlayerSample(sample) => Some(sample@),
            PingResponse::Other => first_sample(responses.drop_first()),
        }
    }
}

/// The sample that the first plugin to name one has named.
fn chosen_sample(responses: &Vec<PingResponse>) -> (r: Option<&Vec<SamplePlayer>>)
    ensures
        match r {
            Some(sample) => first_sample(responses@) == Some(sample@),
            None => first_sample(responses@) is None,
        },
{
    let mut i: usize = 0;
    assert(responses@.skip(0) =~= responses@);
    while i < responses.len()
        invariant
            i <= responses.len(),
            first_sample(responses@) == first_sample(responses@.skip(i as int)),
        decreases responses.len() - i,
    {
        match &responses[i] {
            PingResponse::UpdatePlayerSample(sample) => {
                return Some(sample);
            },
            PingResponse::Other => {},
        }
        assert(responses@.skip(i as int).drop_first() =~= responses@.skip(i + 1));
        i = i + 1;
    }
    None
}

/// The answer to a status request, after the plugins have spoken.
pub fn status_response(
    protocol: u32,
    max_players: u64,
    online_players: u64,
    responses: &Vec<PingResponse>,
    suffix: &str,
) -> (r: String)
    ensures
        r@ == match first_sample(responses@) {
            Some(sample) => sampled_status_of(protocol, max_players, online_players, sample, suffix@),
            None => status_of(protocol, suffix@),
        },
{
    match chosen_sample(responses) {
        Some(sample) => sampled_status_json(protocol, max_players, online_players, sample, suffix),
        None => status_json(protocol, suffix),
    }
}

} // verus!
