//! A throttle of new connections by token buckets, with temporary bans.
//!
//! There are two layers: a bucket for each address, and one for each autonomous system
//! behind which whole networks share addresses. A bucket refills at a fixed rate. A source
//! that finds its bucket empty is banned for a while. A limit of zero switches a layer off.
//!
//! Times are in nanoseconds from a common start; tokens are the bits of a single.

use crate::number::{
    add_singles, adding_nothing, count_to_single, counting_down, double_single, doubled_single, nothing_and, single_less_one,
    single_of_count, single_sum, take_one, SINGLE_LIMIT, SINGLE_ONE,
};
use std::collections::HashMap;
use vstd::prelude::*;
use vstd::std_specs::iter::IteratorSpec;

verus! {

broadcast use vstd::std_specs::hash::group_hash_axioms;

/// New connections that an address may make before it is banned, by default.
pub const DEFAULT_MAX_CONNECTIONS_PER_IP: u32 = 8;

/// New connections that a system may make before it is banned, by default.
pub const DEFAULT_MAX_CONNECTIONS_PER_ASN: u32 = 64;

/// How many addresses are remembered at most.
pub const MAX_IP_RECORDS: usize = 1_000_000;

/// How many systems are remembered at most.
pub const MAX_ASN_RECORDS: usize = 100_000;

/// How long an address is banned: two minutes.
pub const TEMP_BAN: u64 = 120_000_000_000;

/// How long a system is banned: five minutes.
pub const ASN_TEMP_BAN: u64 = 300_000_000_000;

/// How long a full bucket of an address is kept: ten seconds.
pub const IP_IDLE: u64 = 10_000_000_000;

/// How long a full bucket of a system is kept: half a minute.
pub const ASN_IDLE: u64 = 30_000_000_000;

/// The address of a source.
#[derive(Clone, Copy, PartialEq, Eq, Debug)]
pub enum Address {
    V4(u32),
    V6(u128),
}

/// What is remembered of a source.
#[derive(Clone, Copy, PartialEq, Eq, Debug)]
pub struct Record {
    pub tokens: u32,
    pub last_update: u64,
    pub banned_until: Option<u64>,
}

/// The rules of a layer: the tokens of a full bucket, whether it refills at four tokens a
/// second or at two, the length of a ban, and how long an idle full bucket is kept.
#[derive(Clone, Copy)]
pub struct Bucket {
    pub capacity: u32,
    pub fast: bool,
    pub ban: u64,
    pub idle: u64,
}

/// Why a connection is refused.
#[derive(Clone, Copy, PartialEq, Eq, Debug)]
pub enum Refusal {
    TooMany,
    Banned,
}

/// The bits of the single that stands for so many nanoseconds, in seconds.
pub uninterp spec fn single_seconds(nanos: u64) -> u32;

/// `std::time::Duration::as_secs_f32`: the seconds in a duration, its fraction with them.
/// The result is a finite number that is not negative; how it is rounded is left to its name.
#[verifier::external_body]
fn seconds_of(nanos: u64) -> (bits: u32)
    ensures
        bits == single_seconds(nanos),
        bits < 0x7F80_0000,
{
    std::time::Duration::from_nanos(nanos).as_secs_f32().to_bits()
}

/// The time since an earlier one, none if it is not earlier.
pub open spec fn since(earlier: u64, now: u64) -> u64 {
    if earlier < now {
        (now - earlier) as u64
    } else {
        0
    }
}

/// Whether a source is banned.
pub open spec fn banned(r: Record, now: u64) -> bool {
    match r.banned_until {
        Some(until) => now < until,
        None => false,
    }
}

/// The tokens that so much time brings.
pub open spec fn gain(nanos: u64, fast: bool) -> u32 {
    if nanos == 0 {
        0
    } else {
        let twice = doubled_single(single_seconds(nanos));
        if fast {
            doubled_single(twice)
        } else {
            twice
        }
    }
}

/// The tokens of a bucket after a gain, which overflows when the bucket is full.
pub open spec fn refilled(tokens: u32, more: u32, capacity: u32) -> u32 {
    if tokens >= capacity || more >= capacity {
        capacity
    } else {
        let sum = single_sum(tokens, more);
        if sum < capacity {
            sum
        } else {
            capacity
        }
    }
}

/// A source that has not been seen before.
pub open spec fn fresh(bucket: Bucket, now: u64) -> Record {
    Record { tokens: bucket.capacity, last_update: now, banned_until: None }
}

/// What a connection makes of a source's record, and whether it is refused.
pub open spec fn taken(r: Record, bucket: Bucket, now: u64) -> (Record, Result<(), Refusal>) {
    if banned(r, now) {
        (r, Err(Refusal::Banned))
    } else {
        let left = if r.banned_until is Some {
            bucket.capacity
        } else {
            r.tokens
        };
        let tokens = refilled(left, gain(since(r.last_update, now), bucket.fast), bucket.capacity);
        if tokens < SINGLE_ONE {
            (
                Record { tokens, last_update: now, banned_until: Some((now + bucket.ban) as u64) },
                Err(Refusal::TooMany),
            )
        } else {
            (Record { tokens: single_less_one(tokens), last_update: now, banned_until: None }, Ok(()))
        }
    }
}

/// Whether a record must be kept: the source is banned, its bucket is not full, or it was
/// seen a moment ago.
pub open spec fn worth_keeping(r: Record, bucket: Bucket, now: u64) -> bool {
    banned(r, now) || r.tokens < bucket.capacity || since(r.last_update, now) < bucket.idle
}

/// The records that must be kept.
pub open spec fn kept(m: Map<u128, Record>, bucket: Bucket, now: u64) -> Map<u128, Record> {
    m.restrict(Set::new(|k: u128| m.contains_key(k) && worth_keeping(m[k], bucket, now)))
}

/// A layer's tables after a connection, and whether it is refused. A source that is not
/// remembered finds no place where the tables stay full after idle records have gone.
pub open spec fn admitted(
    own: Map<u128, Record>,
    other: Map<u128, Record>,
    key: u128,
    bucket: Bucket,
    most: nat,
    now: u64,
) -> (Map<u128, Record>, Map<u128, Record>, Result<(), Refusal>) {
    let full = !own.contains_key(key) && own.len() + other.len() >= most;
    let a = if full { kept(own, bucket, now) } else { own };
    let b = if full { kept(other, bucket, now) } else { other };
    if full && a.len() + b.len() >= most {
        (a, b, Err(Refusal::TooMany))
    } else {
        let r = if a.contains_key(key) { a[key] } else { fresh(bucket, now) };
        let (after, outcome) = taken(r, bucket, now);
        (a.insert(key, after), b, outcome)
    }
}

/// No bucket holds more than it can.
pub open spec fn bounded(m: Map<u128, Record>, bucket: Bucket) -> bool {
    forall|k: u128| #[trigger] m.contains_key(k) ==> m[k].tokens <= bucket.capacity
}

/// The time since an earlier one.
fn elapsed(earlier: u64, now: u64) -> (d: u64)
    ensures
        d == since(earlier, now),
{
    if earlier < now {
        now - earlier
    } else {
        0
    }
}

impl Record {
    /// Whether the source is banned.
    pub fn is_banned(&self, now: u64) -> (r: bool)
        ensures
            r == banned(*self, now),
    {
        match self.banned_until {
            Some(until) => now < until,
            None => false,
        }
    }
}

impl Bucket {
    /// The bucket holds at least one token.
    pub open spec fn wf(self) -> bool {
        SINGLE_ONE <= self.capacity <= SINGLE_LIMIT
    }

    /// The tokens of a bucket some time later.
    fn refill(&self, tokens: u32, nanos: u64) -> (r: u32)
        requires
            self.wf(),
            tokens <= self.capacity,
        ensures
            r == refilled(tokens, gain(nanos, self.fast), self.capacity),
            r <= self.capacity,
    {
        let more: u32 = if nanos == 0 {
            0
        } else {
            let twice: u32 = double_single(seconds_of(nanos));
            if self.fast {
                double_single(twice)
            } else {
                twice
            }
        };
        if tokens >= self.capacity || more >= self.capacity {
            self.capacity
        } else {
            let sum: u32 = add_singles(tokens, more);
            if sum < self.capacity {
                sum
            } else {
                self.capacity
            }
        }
    }

    /// Takes a token for a connection.
    pub fn take(&self, r: Record, now: u64) -> (res: (Record, Result<(), Refusal>))
        requires
            self.wf(),
            r.tokens <= self.capacity,
            now + self.ban <= u64::MAX,
        ensures
            res == taken(r, *self, now),
            res.0.tokens <= self.capacity,
    {
        if r.is_banned(now) {
            return (r, Err(Refusal::Banned));
        }
        let left: u32 = if r.banned_until.is_some() {
            self.capacity
        } else {
            r.tokens
        };
        let tokens: u32 = self.refill(left, elapsed(r.last_update, now));
        if tokens < SINGLE_ONE {
            (Record { tokens, last_update: now, banned_until: Some(now + self.ban) }, Err(Refusal::TooMany))
        } else {
            (Record { tokens: take_one(tokens), last_update: now, banned_until: None }, Ok(()))
        }
    }
}

/// The keys of the records that need not be kept.
fn idle_keys(m: &HashMap<u128, Record>, bucket: &Bucket, now: u64) -> (keys: Vec<u128>)
    ensures
        forall|j: int|
            0 <= j < keys.len() ==> m@.contains_key(#[trigger] keys[j]) && !worth_keeping(m@[keys[j]], *bucket, now),
        forall|k: u128| #[trigger]
            m@.contains_key(k) && !worth_keeping(m@[k], *bucket, now) ==> keys@.contains(k),
{
    let mut keys: Vec<u128> = Vec::new();
    for pair in walk: m.iter()
        invariant
            walk.seq() == m.iter().remaining(),
            forall|i: int|
                0 <= i < walk.index() && !worth_keeping(*#[trigger] walk.seq()[i].1, *bucket, now) ==> keys@.contains(
                    *walk.seq()[i].0,
                ),
            forall|j: int|
                0 <= j < keys.len() ==> m@.contains_key(#[trigger] keys[j]) && !worth_keeping(
                    m@[keys[j]],
                    *bucket,
                    now,
                ),
    {
        assert(m@.contains_key(*walk.seq()[walk.index()].0));
        let (key, record) = pair;
        let keep: bool = record.is_banned(now) || record.tokens < bucket.capacity || elapsed(
            record.last_update,
            now,
        ) < bucket.idle;
        if !keep {
            let ghost before = keys@;
            keys.push(*key);
            proof {
                assert(keys@[keys.len() - 1] == *key);
                assert forall|k: u128| before.contains(k) implies keys@.contains(k) by {
                    let i = choose|i: int| 0 <= i < before.len() && before[i] == k;
                    assert(keys@[i] == k);
                }
            }
        }
    }
    proof {
        let all = m.iter().remaining();
        assert forall|k: u128| #[trigger]
            m@.contains_key(k) && !worth_keeping(m@[k], *bucket, now) implies keys@.contains(k) by {
            assert(all.contains((&k, &m@[k])));
            let i = choose|i: int| 0 <= i < all.len() && all[i] == (&k, &m@[k]);
            assert(*all[i].1 == m@[k]);
        }
    }
    keys
}

/// Drops the records that need not be kept.
fn keep(m: &mut HashMap<u128, Record>, bucket: &Bucket, now: u64)
    ensures
        final(m)@ == kept(old(m)@, *bucket, now),
{
    let ghost before = m@;
    let idle: Vec<u128> = idle_keys(m, bucket, now);
    let mut i: usize = 0;
    while i < idle.len()
        invariant
            i <= idle.len(),
            forall|k: u128|
                #[trigger] m@.contains_key(k) <==> before.contains_key(k) && !idle@.take(i as int).contains(k),
            forall|k: u128| m@.contains_key(k) ==> #[trigger] m@[k] == before[k],
        decreases idle.len() - i,
    {
        let ghost prior = m@;
        m.remove(&idle[i]);
        proof {
            let (done, more) = (idle@.take(i as int), idle@.take(i + 1));
            assert(more =~= done.push(idle[i as int]));
            assert forall|k: u128| #[trigger] more.contains(k) <==> done.contains(k) || k == idle[i as int] by {
                if done.contains(k) {
                    let j = choose|j: int| 0 <= j < done.len() && done[j] == k;
                    assert(more[j] == k);
                }
                assert(more[i as int] == idle[i as int]);
            }
            assert forall|k: u128| #[trigger] m@.contains_key(k) <==> before.contains_key(k) && !more.contains(k) by {
                assert(m@ == prior.remove(idle[i as int]));
                assert(prior.contains_key(k) <==> before.contains_key(k) && !done.contains(k));
            }
        }
        i = i + 1;
    }
    proof {
        assert(idle@.take(i as int) =~= idle@);
        assert(m@ =~= kept(before, *bucket, now));
    }
}

/// Keeping some records does not make them more.
proof fn kept_is_smaller(m: Map<u128, Record>, bucket: Bucket, now: u64)
    requires
        m.dom().finite(),
    ensures
        kept(m, bucket, now).dom().finite(),
        kept(m, bucket, now).len() <= m.len(),
{
    let k = kept(m, bucket, now);
    assert(k.dom().subset_of(m.dom()));
    vstd::set_lib::lemma_set_subset_finite(m.dom(), k.dom());
    vstd::set_lib::lemma_len_subset(k.dom(), m.dom());
}

/// Lets a connection in or refuses it, by the tables of a layer.
fn let_in(
    own: &mut HashMap<u128, Record>,
    other: &mut HashMap<u128, Record>,
    key: u128,
    bucket: &Bucket,
    most: usize,
    now: u64,
) -> (r: Result<(), Refusal>)
    requires
        bucket.wf(),
        bounded(old(own)@, *bucket),
        bounded(old(other)@, *bucket),
        old(own)@.len() + old(other)@.len() <= most,
        now + bucket.ban <= u64::MAX,
    ensures
        (final(own)@, final(other)@, r) == admitted(old(own)@, old(other)@, key, *bucket, most as nat, now),
        bounded(final(own)@, *bucket),
        bounded(final(other)@, *bucket),
        final(own)@.len() + final(other)@.len() <= most,
{
    if !own.contains_key(&key) && own.len() + other.len() >= most {
        proof {
            kept_is_smaller(own@, *bucket, now);
            kept_is_smaller(other@, *bucket, now);
        }
        keep(own, bucket, now);
        keep(other, bucket, now);
        if own.len() + other.len() >= most {
            return Err(Refusal::TooMany);
        }
    }
    let known: Option<Record> = match own.get(&key) {
        Some(record) => Some(*record),
        None => None,
    };
    let record: Record = match known {
        Some(record) => record,
        None => Record { tokens: bucket.capacity, last_update: now, banned_until: None },
    };
    let (after, outcome) = bucket.take(record, now);
    own.insert(key, after);
    outcome
}

/// The state of a throttle.
#[verifier::ext_equal]
pub struct Throttle {
    pub v4: Map<u128, Record>,
    pub v6: Map<u128, Record>,
    pub asn: Map<u128, Record>,
    pub max_per_ip: u32,
    pub max_per_asn: u32,
}

/// The rules for addresses: two tokens a second.
pub open spec fn ip_rules(limit: u32) -> Bucket {
    Bucket { capacity: single_of_count(limit as nat), fast: false, ban: TEMP_BAN, idle: IP_IDLE }
}

/// The rules for systems: four tokens a second.
pub open spec fn asn_rules(limit: u32) -> Bucket {
    Bucket { capacity: single_of_count(limit as nat), fast: true, ban: ASN_TEMP_BAN, idle: ASN_IDLE }
}

/// What an address is told.
pub open spec fn ip_reason(refusal: Refusal) -> Seq<char> {
    match refusal {
        Refusal::TooMany => "too many connections from IP"@,
        Refusal::Banned => "temporarily banned by IP"@,
    }
}

/// What a system is told.
pub open spec fn asn_reason(refusal: Refusal) -> Seq<char> {
    match refusal {
        Refusal::TooMany => "too many connections from ASN"@,
        Refusal::Banned => "temporarily banned by ASN"@,
    }
}

/// The answer to an address.
pub open spec fn ip_answer(outcome: Result<(), Refusal>) -> Result<(), Seq<char>> {
    match outcome {
        Ok(_) => Ok(()),
        Err(refusal) => Err(ip_reason(refusal)),
    }
}

/// The answer to a system.
pub open spec fn asn_answer(outcome: Result<(), Refusal>) -> Result<(), Seq<char>> {
    match outcome {
        Ok(_) => Ok(()),
        Err(refusal) => Err(asn_reason(refusal)),
    }
}

/// A throttle after a connection from an address, and whether the address is refused.
pub open spec fn ip_checked(t: Throttle, ip: Address, now: u64) -> (Throttle, Result<(), Refusal>) {
    match ip {
        Address::V4(a) => {
            let (own, other, outcome) = admitted(
                t.v4,
                t.v6,
                a as u128,
                ip_rules(t.max_per_ip),
                MAX_IP_RECORDS as nat,
                now,
            );
            (Throttle { v4: own, v6: other, ..t }, outcome)
        },
        Address::V6(a) => {
            let (own, other, outcome) = admitted(
                t.v6,
                t.v4,
                a,
                ip_rules(t.max_per_ip),
                MAX_IP_RECORDS as nat,
                now,
            );
            (Throttle { v6: own, v4: other, ..t }, outcome)
        },
    }
}

/// A throttle after a connection from a system, and whether the system is refused.
pub open spec fn asn_checked(t: Throttle, asn: u32, now: u64) -> (Throttle, Result<(), Refusal>) {
    let (own, _, outcome) = admitted(
        t.asn,
        Map::empty(),
        asn as u128,
        asn_rules(t.max_per_asn),
        MAX_ASN_RECORDS as nat,
        now,
    );
    (Throttle { asn: own, ..t }, outcome)
}

/// A throttle after a connection, and what the source is told when it is refused. A layer
/// whose limit is zero is passed over, and so is an unknown system.
pub open spec fn checked(t: Throttle, ip: Address, asn: Option<u32>, now: u64) -> (
    Throttle,
    Result<(), Seq<char>>,
) {
    let (first, by_ip) = if t.max_per_ip > 0 {
        ip_checked(t, ip, now)
    } else {
        (t, Ok(()))
    };
    match by_ip {
        Err(refusal) => (first, Err(ip_reason(refusal))),
        Ok(_) => match asn {
            Some(asn) if t.max_per_asn > 0 => {
                let (second, by_asn) = asn_checked(first, asn, now);
                (second, asn_answer(by_asn))
            },
            _ => (first, Ok(())),
        },
    }
}

/// The view of an answer.
pub open spec fn told(r: Result<(), &'static str>) -> Result<(), Seq<char>> {
    match r {
        Ok(_) => Ok(()),
        Err(reason) => Err(reason@),
    }
}

/// A throttle without its idle records.
pub open spec fn evicted(t: Throttle, now: u64) -> Throttle {
    Throttle {
        v4: kept(t.v4, ip_rules(t.max_per_ip), now),
        v6: kept(t.v6, ip_rules(t.max_per_ip), now),
        asn: kept(t.asn, asn_rules(t.max_per_asn), now),
        ..t
    }
}

/// Buckets by address and by system.
pub struct ConnectionThrottle {
    v4: HashMap<u128, Record>,
    v6: HashMap<u128, Record>,
    asn: HashMap<u128, Record>,
    max_per_ip: u32,
    max_per_asn: u32,
}

impl View for ConnectionThrottle {
    type V = Throttle;

    closed spec fn view(&self) -> Throttle {
        Throttle {
            v4: self.v4@,
            v6: self.v6@,
            asn: self.asn@,
            max_per_ip: self.max_per_ip,
            max_per_asn: self.max_per_asn,
        }
    }
}

impl Throttle {
    /// The tables hold no more than they may, and no bucket more than it can.
    pub open spec fn wf(self) -> bool {
        &&& bounded(self.v4, ip_rules(self.max_per_ip))
        &&& bounded(self.v6, ip_rules(self.max_per_ip))
        &&& bounded(self.asn, asn_rules(self.max_per_asn))
        &&& self.v4.len() + self.v6.len() <= MAX_IP_RECORDS
        &&& self.asn.len() <= MAX_ASN_RECORDS
    }
}

impl Default for ConnectionThrottle {
    fn default() -> (t: Self)
        ensures
            t@ == (Throttle {
                v4: Map::empty(),
                v6: Map::empty(),
                asn: Map::empty(),
                max_per_ip: DEFAULT_MAX_CONNECTIONS_PER_IP,
                max_per_asn: DEFAULT_MAX_CONNECTIONS_PER_ASN,
            }),
            t@.wf(),
    {
        ConnectionThrottle::new()
    }
}

impl ConnectionThrottle {
    /// A throttle with the default limits.
    pub fn new() -> (t: Self)
        ensures
            t@ == (Throttle {
                v4: Map::empty(),
                v6: Map::empty(),
                asn: Map::empty(),
                max_per_ip: DEFAULT_MAX_CONNECTIONS_PER_IP,
                max_per_asn: DEFAULT_MAX_CONNECTIONS_PER_ASN,
            }),
            t@.wf(),
    {
        ConnectionThrottle::with_limits(DEFAULT_MAX_CONNECTIONS_PER_IP, DEFAULT_MAX_CONNECTIONS_PER_ASN)
    }

    /// A throttle with limits of its own, of which zero switches a layer off.
    pub fn with_limits(max_per_ip: u32, max_per_asn: u32) -> (t: Self)
        ensures
            t@ == (Throttle { v4: Map::empty(), v6: Map::empty(), asn: Map::empty(), max_per_ip, max_per_asn }),
            t@.wf(),
    {
        ConnectionThrottle { v4: HashMap::new(), v6: HashMap::new(), asn: HashMap::new(), max_per_ip, max_per_asn }
    }

    /// Whether a connection may go on by the bucket of its address, for a limit that is not
    /// zero.
    pub fn check_ip(&mut self, ip: Address, now: u64) -> (r: Result<(), &'static str>)
        requires
            old(self)@.wf(),
            old(self)@.max_per_ip > 0,
            now + TEMP_BAN <= u64::MAX,
        ensures
            final(self)@ == ip_checked(old(self)@, ip, now).0,
            told(r) == ip_answer(ip_checked(old(self)@, ip, now).1),
            final(self)@.wf(),
    {
        let rules: Bucket = Bucket {
            capacity: count_to_single(self.max_per_ip),
            fast: false,
            ban: TEMP_BAN,
            idle: IP_IDLE,
        };
        let outcome: Result<(), Refusal> = match ip {
            Address::V4(a) => let_in(&mut self.v4, &mut self.v6, a as u128, &rules, MAX_IP_RECORDS, now),
            Address::V6(a) => let_in(&mut self.v6, &mut self.v4, a, &rules, MAX_IP_RECORDS, now),
        };
        match outcome {
            Ok(_) => Ok(()),
            Err(Refusal::TooMany) => Err("too many connections from IP"),
            Err(Refusal::Banned) => Err("temporarily banned by IP"),
        }
    }

    /// Whether a connection may go on by the bucket of its system, for a limit that is not
    /// zero.
    pub fn check_asn(&mut self, asn: u32, now: u64) -> (r: Result<(), &'static str>)
        requires
            old(self)@.wf(),
            old(self)@.max_per_asn > 0,
            now + ASN_TEMP_BAN <= u64::MAX,
        ensures
            final(self)@ == asn_checked(old(self)@, asn, now).0,
            told(r) == asn_answer(asn_checked(old(self)@, asn, now).1),
            final(self)@.wf(),
    {
        let rules: Bucket = Bucket {
            capacity: count_to_single(self.max_per_asn),
            fast: true,
            ban: ASN_TEMP_BAN,
            idle: ASN_IDLE,
        };
        let mut none: HashMap<u128, Record> = HashMap::new();
        let outcome = let_in(&mut self.asn, &mut none, asn as u128, &rules, MAX_ASN_RECORDS, now);
        match outcome {
            Ok(_) => Ok(()),
            Err(Refusal::TooMany) => Err("too many connections from ASN"),
            Err(Refusal::Banned) => Err("temporarily banned by ASN"),
        }
    }

    /// Whether a connection from an address, and from the system that it is known to belong
    /// to, may go on.
    pub fn check_resolved(&mut self, ip: Address, asn: Option<u32>, now: u64) -> (r: Result<(), &'static str>)
        requires
            old(self)@.wf(),
            old(self)@.max_per_ip > 0 ==> now + TEMP_BAN <= u64::MAX,
            asn is Some && old(self)@.max_per_asn > 0 ==> now + ASN_TEMP_BAN <= u64::MAX,
        ensures
            (final(self)@, told(r)) == checked(old(self)@, ip, asn, now),
            final(self)@.wf(),
    {
        if self.max_per_ip > 0 {
            self.check_ip(ip, now)?;
        }
        if self.max_per_asn > 0 {
            if let Some(asn) = asn {
                self.check_asn(asn, now)?;
            }
        }
        Ok(())
    }

    /// The system of an address. None is known here: the layer of systems is for programs
    /// that can look them up.
    pub fn resolve_asn(&self, _ip: Address) -> (asn: Option<u32>)
        ensures
            asn is None,
    {
        None
    }

    /// Whether a connection from an address may go on.
    pub fn check(&mut self, ip: Address, now: u64) -> (r: Result<(), &'static str>)
        requires
            old(self)@.wf(),
            old(self)@.max_per_ip > 0 ==> now + TEMP_BAN <= u64::MAX,
        ensures
            (final(self)@, told(r)) == checked(old(self)@, ip, None, now),
            final(self)@.wf(),
    {
        let asn = self.resolve_asn(ip);
        self.check_resolved(ip, asn, now)
    }

    /// Forgets the sources that need not be remembered.
    pub fn evict_stale(&mut self, now: u64)
        requires
            old(self)@.wf(),
        ensures
            final(self)@ == evicted(old(self)@, now),
            final(self)@.wf(),
    {
        let by_ip: Bucket = Bucket {
            capacity: count_to_single(self.max_per_ip),
            fast: false,
            ban: TEMP_BAN,
            idle: IP_IDLE,
        };
        let by_asn: Bucket = Bucket {
            capacity: count_to_single(self.max_per_asn),
            fast: true,
            ban: ASN_TEMP_BAN,
            idle: ASN_IDLE,
        };
        proof {
            kept_is_smaller(self.v4@, by_ip, now);
            kept_is_smaller(self.v6@, by_ip, now);
            kept_is_smaller(self.asn@, by_asn, now);
        }
        keep(&mut self.v4, &by_ip, now);
        keep(&mut self.v6, &by_ip, now);
        keep(&mut self.asn, &by_asn, now);
    }
}

/// What is remembered of an address.
pub open spec fn remembered(t: Throttle, ip: Address) -> Option<Record> {
    match ip {
        Address::V4(a) => if t.v4.contains_key(a as u128) {
            Some(t.v4[a as u128])
        } else {
            None
        },
        Address::V6(a) => if t.v6.contains_key(a) {
            Some(t.v6[a])
        } else {
            None
        },
    }
}

/// A banned address is refused as long as the ban runs, and asking changes nothing.
pub proof fn ban_holds(t: Throttle, ip: Address, asn: Option<u32>, now: u64)
    requires
        t.max_per_ip > 0,
        remembered(t, ip) matches Some(r) && banned(r, now),
    ensures
        checked(t, ip, asn, now) == (t, Err::<(), Seq<char>>("temporarily banned by IP"@)),
{
    match ip {
        Address::V4(a) => {
            assert(t.v4.insert(a as u128, t.v4[a as u128]) =~= t.v4);
        },
        Address::V6(a) => {
            assert(t.v6.insert(a, t.v6[a]) =~= t.v6);
        },
    }
}

/// When a ban has run out, the source finds a full bucket again.
pub proof fn ban_ends(r: Record, bucket: Bucket, now: u64)
    requires
        bucket.wf(),
        r.banned_until matches Some(until) && until <= now,
    ensures
        taken(r, bucket, now) == taken(fresh(bucket, now), bucket, now),
        taken(r, bucket, now).1 == Ok::<(), Refusal>(()),
{
}

/// Forgetting an idle record is never noticed: from then on its source is treated as one
/// that was not seen before.
pub proof fn eviction_goes_unseen(r: Record, bucket: Bucket, now: u64, later: u64)
    requires
        bucket.wf(),
        r.tokens <= bucket.capacity,
        !worth_keeping(r, bucket, now),
        now <= later,
    ensures
        taken(r, bucket, later) == taken(fresh(bucket, later), bucket, later),
{
}

/// A banned source is never forgotten.
pub proof fn bans_are_kept(m: Map<u128, Record>, bucket: Bucket, key: u128, now: u64)
    requires
        m.contains_key(key),
        banned(m[key], now),
    ensures
        kept(m, bucket, now).contains_key(key),
        kept(m, bucket, now)[key] == m[key],
{
}

/// A limit of zero for addresses refuses nothing and remembers nothing, where the system is not
/// known or its limit is zero too.
pub proof fn limits_of_zero_never_refuse(t: Throttle, ip: Address, asn: Option<u32>, now: u64)
    requires
        t.max_per_ip == 0,
        asn is None || t.max_per_asn == 0,
    ensures
        checked(t, ip, asn, now) == (t, Ok::<(), Seq<char>>(())),
{
}

/// A throttle after a row of connections, each from an address at a time, and the answers to
/// them.
pub open spec fn checked_all(t: Throttle, calls: Seq<(Address, u64)>) -> (Throttle, Seq<Result<(), Seq<char>>>)
    decreases calls.len(),
{
    if calls.len() == 0 {
        (t, seq![])
    } else {
        let (before, answers) = checked_all(t, calls.drop_last());
        let (after, answer) = checked(before, calls.last().0, None, calls.last().1);
        (after, answers.push(answer))
    }
}

/// With a limit of zero for addresses, every connection of every row is let in and nothing is
/// ever remembered, whatever the limit for systems.
pub proof fn a_limit_of_zero_lets_all_in(t: Throttle, calls: Seq<(Address, u64)>)
    requires
        t.max_per_ip == 0,
    ensures
        checked_all(t, calls).0 == t,
        checked_all(t, calls).1 == Seq::new(calls.len(), |i: int| Ok::<(), Seq<char>>(())),
    decreases calls.len(),
{
    if calls.len() > 0 {
        a_limit_of_zero_lets_all_in(t, calls.drop_last());
    }
    assert(checked_all(t, calls).1 =~= Seq::new(calls.len(), |i: int| Ok::<(), Seq<char>>(())));
}

/// A record after `n` connections at one moment.
pub open spec fn after_burst(r: Record, bucket: Bucket, now: u64, n: nat) -> Record
    decreases n,
{
    if n == 0 {
        r
    } else {
        taken(after_burst(r, bucket, now, (n - 1) as nat), bucket, now).0
    }
}

/// Fewer connections leave no less.
proof fn counts_in_order(k: nat, limit: nat)
    requires
        k <= limit <= 0x100_0000,
    ensures
        single_of_count(k) <= single_of_count(limit),
    decreases limit - k,
{
    if k < limit {
        counting_down(k + 1);
        counts_in_order(k + 1, limit);
    }
}

/// A connection that comes at once takes a whole token, where there is one.
proof fn taken_at_once(k: nat, limit: nat, bucket: Bucket, now: u64)
    requires
        k <= limit,
        1 <= limit <= 0x100_0000,
        bucket.capacity == single_of_count(limit),
    ensures
        ({
            let r = Record { tokens: single_of_count(k), last_update: now, banned_until: None };
            taken(r, bucket, now) == if k == 0 {
                (
                    Record { tokens: 0, last_update: now, banned_until: Some((now + bucket.ban) as u64) },
                    Err::<(), Refusal>(Refusal::TooMany),
                )
            } else {
                (
                    Record { tokens: single_of_count((k - 1) as nat), last_update: now, banned_until: None },
                    Ok::<(), Refusal>(()),
                )
            }
        }),
{
    counts_in_order(k, limit);
    adding_nothing(k);
    assert(refilled(single_of_count(k), 0, bucket.capacity) == single_of_count(k));
    if k > 0 {
        counting_down(k);
    } else {
        counting_down(1);
    }
}

/// A limit is the number of connections that a new source can make at one moment: the
/// first `limit` are let in, and the next one is refused and starts a ban.
pub proof fn limit_bounds_a_burst(limit: u32, bucket: Bucket, now: u64, n: nat)
    requires
        1 <= limit <= 0x100_0000,
        bucket.capacity == single_of_count(limit as nat),
        n <= limit,
    ensures
        ({
            let r = after_burst(fresh(bucket, now), bucket, now, n);
            &&& r == (Record { tokens: single_of_count((limit - n) as nat), last_update: now, banned_until: None })
            &&& n < limit ==> taken(r, bucket, now).1 == Ok::<(), Refusal>(())
            &&& n == limit ==> taken(r, bucket, now) == (
                Record { tokens: 0, last_update: now, banned_until: Some((now + bucket.ban) as u64) },
                Err::<(), Refusal>(Refusal::TooMany),
            )
        }),
    decreases n,
{
    let left = (limit - n) as nat;
    if n > 0 {
        limit_bounds_a_burst(limit, bucket, now, (n - 1) as nat);
        taken_at_once(left + 1, limit as nat, bucket, now);
    }
    taken_at_once(left, limit as nat, bucket, now);
}

/// A throttle in which an address has this record.
pub open spec fn with_record(t: Throttle, ip: Address, r: Record) -> Throttle {
    match ip {
        Address::V4(a) => Throttle { v4: t.v4.insert(a as u128, r), ..t },
        Address::V6(a) => Throttle { v6: t.v6.insert(a, r), ..t },
    }
}

/// Whether an address is remembered or there is room to remember it.
pub open spec fn has_room(t: Throttle, ip: Address) -> bool {
    remembered(t, ip) is Some || t.v4.len() + t.v6.len() < MAX_IP_RECORDS
}

/// Where the system is not known, the bucket of the address alone decides.
pub proof fn the_address_decides(t: Throttle, ip: Address, now: u64)
    requires
        t.max_per_ip > 0,
    ensures
        checked(t, ip, None, now) == (ip_checked(t, ip, now).0, ip_answer(ip_checked(t, ip, now).1)),
{
}

/// A connection changes the record of its address, and no other.
pub proof fn one_record_changes(t: Throttle, ip: Address, now: u64)
    requires
        t.max_per_ip > 0,
        has_room(t, ip),
    ensures
        ({
            let r = match remembered(t, ip) {
                Some(r) => r,
                None => fresh(ip_rules(t.max_per_ip), now),
            };
            let (after, outcome) = taken(r, ip_rules(t.max_per_ip), now);
            checked(t, ip, None, now) == (with_record(t, ip, after), ip_answer(outcome))
        }),
        forall|other: Address| other != ip ==> #[trigger] remembered(checked(t, ip, None, now).0, other) == remembered(t, other),
{
}

/// The record of an address can be replaced any number of times: the last one stays.
proof fn last_record_stays(t: Throttle, ip: Address, r: Record, s: Record)
    ensures
        with_record(with_record(t, ip, r), ip, s) == with_record(t, ip, s),
        remembered(with_record(t, ip, r), ip) == Some(r),
        with_record(t, ip, r).max_per_ip == t.max_per_ip,
{
    match ip {
        Address::V4(a) => {
            assert(t.v4.insert(a as u128, r).insert(a as u128, s) =~= t.v4.insert(a as u128, s));
        },
        Address::V6(a) => {
            assert(t.v6.insert(a, r).insert(a, s) =~= t.v6.insert(a, s));
        },
    }
}

/// So many connections from one address at one moment.
pub open spec fn burst(ip: Address, now: u64, n: nat) -> Seq<(Address, u64)> {
    Seq::new(n, |i: int| (ip, now))
}

/// The first connections of a new address, up to the limit.
proof fn within_the_limit(t: Throttle, ip: Address, now: u64, n: nat)
    requires
        1 <= t.max_per_ip <= 0x100_0000,
        remembered(t, ip) is None,
        has_room(t, ip),
        n <= t.max_per_ip,
    ensures
        checked_all(t, burst(ip, now, n)).0 == if n == 0 {
            t
        } else {
            with_record(
                t,
                ip,
                Record { tokens: single_of_count((t.max_per_ip - n) as nat), last_update: now, banned_until: None },
            )
        },
        checked_all(t, burst(ip, now, n)).1 == Seq::new(n, |i: int| Ok::<(), Seq<char>>(())),
    decreases n,
{
    let rules = ip_rules(t.max_per_ip);
    if n > 0 {
        let m = (n - 1) as nat;
        let left = (t.max_per_ip - m) as nat;
        let before = checked_all(t, burst(ip, now, m)).0;
        let r = Record { tokens: single_of_count(left), last_update: now, banned_until: None };
        let s = Record { tokens: single_of_count((left - 1) as nat), last_update: now, banned_until: None };
        within_the_limit(t, ip, now, m);
        assert(burst(ip, now, n).drop_last() =~= burst(ip, now, m));
        taken_at_once(left, t.max_per_ip as nat, rules, now);
        last_record_stays(t, ip, r, s);
        one_record_changes(before, ip, now);
        assert(fresh(rules, now) == r || m > 0);
        assert(checked(before, ip, None, now) == (with_record(t, ip, s), Ok::<(), Seq<char>>(())));
    }
    assert(checked_all(t, burst(ip, now, n)).1 =~= Seq::new(n, |i: int| Ok::<(), Seq<char>>(())));
}

/// The limit for addresses is the number of connections that a new address can make at one
/// moment. The next one is refused and bans the address; until the ban ends every further one
/// is refused and leaves the ban as it is; the first one after it is let in. No other record
/// changes.
pub proof fn limit_ends_in_a_ban(t: Throttle, ip: Address, now: u64, later: u64)
    requires
        1 <= t.max_per_ip <= 0x100_0000,
        remembered(t, ip) is None,
        has_room(t, ip),
        now + TEMP_BAN <= u64::MAX,
    ensures
        ({
            let limit = t.max_per_ip as nat;
            let (after, answers) = checked_all(t, burst(ip, now, limit + 1));
            let ban = Record { tokens: 0, last_update: now, banned_until: Some((now + TEMP_BAN) as u64) };
            &&& after == with_record(t, ip, ban)
            &&& answers == Seq::new(limit, |i: int| Ok::<(), Seq<char>>(())).push(
                Err("too many connections from IP"@),
            )
            &&& later < now + TEMP_BAN ==> checked(after, ip, None, later) == (
                after,
                Err::<(), Seq<char>>("temporarily banned by IP"@),
            )
            &&& later >= now + TEMP_BAN ==> checked(after, ip, None, later) == (
                with_record(t, ip, taken(fresh(ip_rules(t.max_per_ip), later), ip_rules(t.max_per_ip), later).0),
                Ok::<(), Seq<char>>(()),
            )
        }),
{
    let limit = t.max_per_ip as nat;
    let rules = ip_rules(t.max_per_ip);
    let ban = Record { tokens: 0, last_update: now, banned_until: Some((now + TEMP_BAN) as u64) };
    let empty = Record { tokens: single_of_count(0), last_update: now, banned_until: None };
    within_the_limit(t, ip, now, limit);
    assert(burst(ip, now, limit + 1).drop_last() =~= burst(ip, now, limit));
    taken_at_once(0, limit, rules, now);
    last_record_stays(t, ip, empty, ban);
    one_record_changes(with_record(t, ip, empty), ip, now);
    let after = with_record(t, ip, ban);
    last_record_stays(t, ip, ban, ban);
    if later < now + TEMP_BAN {
        ban_holds(after, ip, None, later);
    } else {
        counting_down(limit);
        ban_ends(ban, rules, later);
        last_record_stays(t, ip, ban, taken(ban, rules, later).0);
        one_record_changes(after, ip, later);
    }
}

/// A new address that has used up its limit at one moment and asks again some time later is
/// let in exactly if two tokens a second make a whole one by then, that is, if the seconds
/// since are at least the single 0.5. Otherwise it is refused and banned for two minutes.
pub proof fn used_up_address_waits(t: Throttle, ip: Address, now: u64, d: u64)
    requires
        1 <= t.max_per_ip <= 0x100_0000,
        remembered(t, ip) is None,
        has_room(t, ip),
        d > 0,
        now + d + 120_000_000_000 <= u64::MAX,
    ensures
        ({
            let after = checked_all(t, burst(ip, now, t.max_per_ip as nat)).0;
            let (last, answer) = checked(after, ip, None, (now + d) as u64);
            &&& single_seconds(d) >= 0x3F00_0000 ==> answer == Ok::<(), Seq<char>>(())
            &&& single_seconds(d) < 0x3F00_0000 ==> {
                &&& answer == Err::<(), Seq<char>>("too many connections from IP"@)
                &&& remembered(last, ip) matches Some(r) && r.banned_until == Some(
                    (now + d + 120_000_000_000) as u64,
                )
            }
        }),
{
    let limit = t.max_per_ip as nat;
    let rules = ip_rules(t.max_per_ip);
    let empty = Record { tokens: single_of_count(0), last_update: now, banned_until: None };
    let later = (now + d) as u64;
    within_the_limit(t, ip, now, limit);
    let after = with_record(t, ip, empty);
    last_record_stays(t, ip, empty, empty);
    one_record_changes(after, ip, later);
    counting_down(limit);
    counting_down(1);
    let more = gain(d, false);
    if more < rules.capacity {
        nothing_and(more);
    }
    let made = taken(empty, rules, later);
    last_record_stays(t, ip, empty, made.0);
}

/// A throttle after so many connections from one system at one moment.
pub open spec fn asn_burst(t: Throttle, asn: u32, now: u64, n: nat) -> Throttle
    decreases n,
{
    if n == 0 {
        t
    } else {
        asn_checked(asn_burst(t, asn, now, (n - 1) as nat), asn, now).0
    }
}

/// The first connections of a new system, up to the limit.
proof fn within_the_system_limit(t: Throttle, asn: u32, now: u64, n: nat)
    requires
        1 <= t.max_per_asn <= 0x100_0000,
        !t.asn.contains_key(asn as u128),
        t.asn.len() < MAX_ASN_RECORDS,
        n <= t.max_per_asn,
    ensures
        asn_burst(t, asn, now, n) == if n == 0 {
            t
        } else {
            Throttle {
                asn: t.asn.insert(
                    asn as u128,
                    Record {
                        tokens: single_of_count((t.max_per_asn - n) as nat),
                        last_update: now,
                        banned_until: None,
                    },
                ),
                ..t
            }
        },
        n < t.max_per_asn ==> asn_checked(asn_burst(t, asn, now, n), asn, now).1 == Ok::<(), Refusal>(()),
    decreases n,
{
    let key = asn as u128;
    let rules = asn_rules(t.max_per_asn);
    let left = (t.max_per_asn - n) as nat;
    let r = Record { tokens: single_of_count(left), last_update: now, banned_until: None };
    if n > 0 {
        within_the_system_limit(t, asn, now, (n - 1) as nat);
        let q = Record { tokens: single_of_count(left + 1), last_update: now, banned_until: None };
        taken_at_once(left + 1, t.max_per_asn as nat, rules, now);
        assert(t.asn.insert(key, q).insert(key, r) =~= t.asn.insert(key, r));
    }
    taken_at_once(left, t.max_per_asn as nat, rules, now);
}

/// A new system that has used up its limit at one moment and asks again some time later is
/// let in exactly if four tokens a second make a whole one by then, that is, if the seconds
/// since are at least the single 0.25. Otherwise it is refused and banned for five minutes.
pub proof fn used_up_system_waits(t: Throttle, asn: u32, now: u64, d: u64, n: nat)
    requires
        1 <= t.max_per_asn <= 0x100_0000,
        !t.asn.contains_key(asn as u128),
        t.asn.len() < 100_000,
        d > 0,
        now + d + 300_000_000_000 <= u64::MAX,
        n < t.max_per_asn,
    ensures
        asn_checked(asn_burst(t, asn, now, n), asn, now).1 == Ok::<(), Refusal>(()),
        ({
            let after = asn_burst(t, asn, now, t.max_per_asn as nat);
            let (last, outcome) = asn_checked(after, asn, (now + d) as u64);
            &&& single_seconds(d) >= 0x3E80_0000 ==> outcome == Ok::<(), Refusal>(())
            &&& single_seconds(d) < 0x3E80_0000 ==> {
                &&& outcome == Err::<(), Refusal>(Refusal::TooMany)
                &&& last.asn.contains_key(asn as u128)
                &&& last.asn[asn as u128].banned_until == Some((now + d + 300_000_000_000) as u64)
            }
        }),
{
    let limit = t.max_per_asn as nat;
    within_the_system_limit(t, asn, now, n);
    within_the_system_limit(t, asn, now, limit);
    counting_down(limit);
    counting_down(1);
    let more = gain(d, true);
    if more < single_of_count(limit) {
        nothing_and(more);
    }
}

/// The system is asked after the address: where the address is refused, the system's bucket
/// stays as it is, and where it is let in, the system's bucket decides.
pub proof fn address_before_system(t: Throttle, ip: Address, asn: u32, now: u64)
    requires
        t.max_per_ip > 0,
        t.max_per_asn > 0,
    ensures
        ip_checked(t, ip, now).1 == Err::<(), Refusal>(Refusal::TooMany) ==> {
            &&& checked(t, ip, Some(asn), now).1 == Err::<(), Seq<char>>("too many connections from IP"@)
            &&& checked(t, ip, Some(asn), now).0.asn == t.asn
        },
        ip_checked(t, ip, now).1 == Err::<(), Refusal>(Refusal::Banned) ==> {
            &&& checked(t, ip, Some(asn), now).1 == Err::<(), Seq<char>>("temporarily banned by IP"@)
            &&& checked(t, ip, Some(asn), now).0.asn == t.asn
        },
        ip_checked(t, ip, now).1 is Ok ==> ({
            let (last, outcome) = asn_checked(ip_checked(t, ip, now).0, asn, now);
            &&& checked(t, ip, Some(asn), now).0 == last
            &&& outcome is Ok ==> checked(t, ip, Some(asn), now).1 == Ok::<(), Seq<char>>(())
            &&& outcome == Err::<(), Refusal>(Refusal::TooMany) ==> checked(t, ip, Some(asn), now).1
                == Err::<(), Seq<char>>("too many connections from ASN"@)
            &&& outcome == Err::<(), Refusal>(Refusal::Banned) ==> checked(t, ip, Some(asn), now).1
                == Err::<(), Seq<char>>("temporarily banned by ASN"@)
        }),
{
}

/// A full bucket of an address that was last asked ten seconds ago is forgotten, one of a
/// system half a minute ago; one that is not full, or was asked since, is not.
pub proof fn idle_records_go(t: Throttle, key: u128, now: u64)
    requires
        t.wf(),
    ensures
        t.v4.contains_key(key) && t.v4[key].banned_until is None ==> (evicted(t, now).v4.contains_key(key)
            <==> t.v4[key].tokens < single_of_count(t.max_per_ip as nat) || now < t.v4[key].last_update
            + 10_000_000_000),
        t.v6.contains_key(key) && t.v6[key].banned_until is None ==> (evicted(t, now).v6.contains_key(key)
            <==> t.v6[key].tokens < single_of_count(t.max_per_ip as nat) || now < t.v6[key].last_update
            + 10_000_000_000),
        t.asn.contains_key(key) && t.asn[key].banned_until is None ==> (evicted(t, now).asn.contains_key(key)
            <==> t.asn[key].tokens < single_of_count(t.max_per_asn as nat) || now < t.asn[key].last_update
            + 30_000_000_000),
        evicted(t, now).v4.contains_key(key) ==> t.v4.contains_key(key) && evicted(t, now).v4[key]
            == t.v4[key],
        evicted(t, now).v6.contains_key(key) ==> t.v6.contains_key(key) && evicted(t, now).v6[key]
            == t.v6[key],
        evicted(t, now).asn.contains_key(key) ==> t.asn.contains_key(key) && evicted(t, now).asn[key]
            == t.asn[key],
{
}

/// Where a million addresses are remembered and all of them must be, a new address is refused
/// and nothing changes.
pub proof fn full_table_refuses(t: Throttle, ip: Address, now: u64)
    requires
        t.max_per_ip > 0,
        remembered(t, ip) is None,
        t.v4.len() + t.v6.len() >= 1_000_000,
        evicted(t, now).v4 == t.v4,
        evicted(t, now).v6 == t.v6,
    ensures
        checked(t, ip, None, now) == (t, Err::<(), Seq<char>>("too many connections from IP"@)),
{
}

} // verus!
