//! The throttle of new connections.

use proxy_core::connection_throttle::{
    Address, Bucket, ConnectionThrottle, Record, Refusal, ASN_TEMP_BAN, IP_IDLE, TEMP_BAN,
};

const SECOND: u64 = 1_000_000_000;

fn ip(n: u32) -> Address {
    Address::V4(n)
}

/// A bucket as the machine's own arithmetic would keep it.
struct Model {
    tokens: f32,
    capacity: f32,
    rate: f32,
    last: u64,
    banned_until: Option<u64>,
}

impl Model {
    fn check(&mut self, now: u64, ban: u64) -> Result<(), Refusal> {
        if let Some(until) = self.banned_until {
            if now < until {
                return Err(Refusal::Banned);
            }
            self.banned_until = None;
            self.tokens = self.capacity;
        }
        let elapsed = std::time::Duration::from_nanos(now.saturating_sub(self.last)).as_secs_f32();
        self.tokens = (self.tokens + elapsed * self.rate).min(self.capacity);
        self.last = now;
        if self.tokens < 1.0 {
            self.banned_until = Some(now + ban);
            return Err(Refusal::TooMany);
        }
        self.tokens -= 1.0;
        Ok(())
    }
}

#[test]
fn a_burst_of_the_limit_is_let_in() {
    let mut t = ConnectionThrottle::new();
    for _ in 0..8 {
        assert_eq!(t.check(ip(1), 5 * SECOND), Ok(()));
    }
    assert_eq!(t.check(ip(1), 5 * SECOND), Err("too many connections from IP"));
    assert_eq!(t.check(ip(1), 5 * SECOND), Err("temporarily banned by IP"));
    // Others are not concerned.
    assert_eq!(t.check(ip(2), 5 * SECOND), Ok(()));
    assert_eq!(t.check(Address::V6(1), 5 * SECOND), Ok(()));
}

#[test]
fn a_limit_of_ones_own_is_the_size_of_a_burst() {
    let mut t = ConnectionThrottle::with_limits(3, 0);
    for _ in 0..3 {
        assert_eq!(t.check(ip(9), 0), Ok(()));
    }
    assert_eq!(t.check(ip(9), 0), Err("too many connections from IP"));
}

#[test]
fn a_ban_runs_out() {
    let mut t = ConnectionThrottle::with_limits(1, 0);
    assert_eq!(t.check(ip(7), SECOND), Ok(()));
    assert_eq!(t.check(ip(7), SECOND), Err("too many connections from IP"));
    assert_eq!(t.check(ip(7), SECOND + TEMP_BAN - 1), Err("temporarily banned by IP"));
    assert_eq!(t.check(ip(7), SECOND + TEMP_BAN), Ok(()));
}

#[test]
fn eviction_keeps_bans() {
    let mut t = ConnectionThrottle::with_limits(1, 1);
    assert_eq!(t.check_resolved(ip(7), Some(65000), 0), Ok(()));
    assert_eq!(t.check_resolved(ip(7), Some(65000), 0), Err("too many connections from IP"));
    t.evict_stale(TEMP_BAN - 1);
    assert_eq!(t.check_resolved(ip(7), Some(65000), TEMP_BAN - 1), Err("temporarily banned by IP"));
    t.evict_stale(TEMP_BAN + IP_IDLE);
    assert_eq!(t.check_resolved(ip(7), None, TEMP_BAN + IP_IDLE), Ok(()));
}

#[test]
fn systems_have_buckets_too() {
    let mut t = ConnectionThrottle::with_limits(0, 2);
    assert_eq!(t.check_resolved(ip(1), Some(64512), 0), Ok(()));
    assert_eq!(t.check_resolved(ip(2), Some(64512), 0), Ok(()));
    assert_eq!(t.check_resolved(ip(3), Some(64512), 0), Err("too many connections from ASN"));
    assert_eq!(t.check_resolved(ip(4), Some(64512), ASN_TEMP_BAN - 1), Err("temporarily banned by ASN"));
    assert_eq!(t.check_resolved(ip(4), Some(64512), ASN_TEMP_BAN), Ok(()));
    assert_eq!(t.check_resolved(ip(5), Some(64513), 0), Ok(()));
    // No system is known to a check that only has an address.
    assert_eq!(t.resolve_asn(ip(3)), None);
    assert_eq!(t.check(ip(3), 0), Ok(()));
}

#[test]
fn limits_of_zero_switch_the_throttle_off() {
    let mut t = ConnectionThrottle::with_limits(0, 0);
    for _ in 0..1000 {
        assert_eq!(t.check_resolved(ip(1), Some(1), 0), Ok(()));
    }
}

#[test]
fn defaults_are_those_of_new() {
    let mut t = ConnectionThrottle::default();
    for _ in 0..8 {
        assert_eq!(t.check(ip(3), 0), Ok(()));
    }
    assert_eq!(t.check(ip(3), 0), Err("too many connections from IP"));
}

#[test]
fn buckets_fill_as_the_machine_counts() {
    for (limit, fast, rate, ban) in [(8u32, false, 2.0f32, TEMP_BAN), (64, true, 4.0, ASN_TEMP_BAN), (3, false, 2.0, TEMP_BAN)] {
        let capacity = limit as f32;
        let bucket = Bucket { capacity: capacity.to_bits(), fast, ban, idle: IP_IDLE };
        let mut model = Model { tokens: capacity, capacity, rate, last: 0, banned_until: None };
        let mut record = Record { tokens: capacity.to_bits(), last_update: 0, banned_until: None };
        let mut now: u64 = 0;
        let mut x: u64 = 0x2545_F491_4F6C_DD1D;
        for _ in 0..5_000 {
            x ^= x << 13;
            x ^= x >> 7;
            x ^= x << 17;
            now += match x % 5 {
                0 => 0,
                1 => x % 1000,
                2 => x % 50_000_000,
                3 => x % 700_000_000,
                _ => x % (2 * SECOND),
            };
            let want = model.check(now, ban);
            let (after, got) = bucket.take(record, now);
            assert_eq!(got, want);
            assert_eq!(after.tokens, model.tokens.to_bits());
            assert_eq!(after.banned_until, model.banned_until);
            record = after;
            if model.banned_until.is_some() && x % 3 == 0 {
                now += ban;
            }
        }
    }
}

#[test]
fn records_know_their_bans() {
    let r = Record { tokens: 0, last_update: 0, banned_until: Some(10) };
    assert!(r.is_banned(9));
    assert!(!r.is_banned(10));
    assert!(!Record { tokens: 0, last_update: 0, banned_until: None }.is_banned(0));
}

#[test]
fn a_limit_of_zero_for_addresses_lets_all_in() {
    let mut t = ConnectionThrottle::with_limits(0, 5);
    for n in 0..100 {
        assert_eq!(t.check(ip(n % 2), n as u64), Ok(()));
    }
}

#[test]
fn a_burst_ends_in_a_ban_that_ends() {
    let mut t = ConnectionThrottle::with_limits(3, 0);
    for _ in 0..3 {
        assert_eq!(t.check(ip(1), SECOND), Ok(()));
    }
    assert_eq!(t.check(ip(1), SECOND), Err("too many connections from IP"));
    for now in [SECOND, 2 * SECOND, SECOND + TEMP_BAN - 1] {
        assert_eq!(t.check(ip(1), now), Err("temporarily banned by IP"));
    }
    assert_eq!(t.check(ip(1), SECOND + TEMP_BAN), Ok(()));
}

#[test]
fn the_layers_can_be_asked_one_by_one() {
    let mut t = ConnectionThrottle::with_limits(2, 1);
    assert_eq!(t.check_ip(ip(3), SECOND), Ok(()));
    assert_eq!(t.check_ip(ip(3), SECOND), Ok(()));
    assert_eq!(t.check_ip(ip(3), SECOND), Err("too many connections from IP"));
    assert_eq!(t.check_ip(ip(3), SECOND + TEMP_BAN - 1), Err("temporarily banned by IP"));
    assert_eq!(t.check_ip(ip(3), SECOND + TEMP_BAN), Ok(()));
    assert_eq!(t.check_asn(64512, SECOND), Ok(()));
    assert_eq!(t.check_asn(64512, SECOND), Err("too many connections from ASN"));
    assert_eq!(t.check_asn(64512, SECOND + ASN_TEMP_BAN - 1), Err("temporarily banned by ASN"));
    assert_eq!(t.check_asn(64512, SECOND + ASN_TEMP_BAN), Ok(()));
}

#[test]
fn a_limit_of_zero_takes_any_clock() {
    let mut t = ConnectionThrottle::with_limits(0, 5);
    for now in [0, u64::MAX, 1, u64::MAX] {
        assert_eq!(t.check(ip(1), now), Ok(()));
    }
}
