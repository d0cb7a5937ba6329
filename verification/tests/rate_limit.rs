use wardent::admission::{
    record_violation, redirect_for, Admission, ClientAddr, ClientRecord, BAN_NANOS, MAX_VIOLATIONS,
};
use wardent::config::{ErrorRedirects, RateLimitConfig};
use wardent::http::{Header, Response};
use wardent::ratelimit::{RateLimit, MAX_BUCKETS};

const SECOND: u128 = 1_000_000_000;

fn limiter(requests_per_minute: u32, burst_size: u32) -> RateLimit {
    RateLimit::new(&RateLimitConfig { requests_per_minute, burst_size })
}

fn v4(a: u8, b: u8, c: u8, d: u8) -> ClientAddr {
    ClientAddr { v6: false, bits: u32::from_be_bytes([a, b, c, d]) as u128 }
}

fn redirects() -> ErrorRedirects {
    ErrorRedirects {
        rate_limited: "/errors/429".to_string(),
        banned: "/errors/banned".to_string(),
        body_too_large: "/errors/413".to_string(),
        timeout: "/errors/504".to_string(),
        bad_gateway: "/errors/502".to_string(),
    }
}

fn found(location: &str) -> Response {
    Response {
        status: 302,
        headers: vec![
            Header { name: b"Location".to_vec(), value: location.as_bytes().to_vec() },
            Header { name: b"Content-Length".to_vec(), value: b"0".to_vec() },
        ],
        body: vec![],
    }
}

#[test]
fn the_constants_are_those_of_the_policy() {
    assert_eq!(BAN_NANOS, 3600 * SECOND);
    assert_eq!(MAX_VIOLATIONS, 3);
    assert_eq!(MAX_BUCKETS, 10_000);
}

#[test]
fn a_burst_is_allowed() {
    let mut limiter = limiter(1, 5);
    let client = v4(10, 0, 0, 1);
    for _ in 0..5 {
        assert_eq!(limiter.admit_at(client, 0), Admission::Allowed);
    }
    assert_eq!(limiter.record(client), None);
    assert_eq!(limiter.bucket_count(), 1);
}

#[test]
fn eight_immediate_requests_end_in_a_ban() {
    let mut limiter = limiter(60, 5);
    let client = v4(10, 0, 0, 2);
    let redirects = redirects();
    for _ in 0..5 {
        assert_eq!(limiter.check_rate_limit(client, &redirects), None);
    }
    assert_eq!(limiter.check_rate_limit(client, &redirects), Some(found("/errors/429")));
    assert_eq!(limiter.check_rate_limit(client, &redirects), Some(found("/errors/429")));
    assert_eq!(limiter.check_rate_limit(client, &redirects), Some(found("/errors/banned")));
    assert_eq!(limiter.check_rate_limit(client, &redirects), Some(found("/errors/banned")));
    let record = limiter.record(client).expect("the client has a record");
    assert_eq!(record.violations, 3);
    assert!(record.banned_at.is_some());
}

#[test]
fn clients_do_not_share_buckets_or_violations() {
    let mut limiter = limiter(1, 1);
    let first = v4(10, 0, 0, 3);
    let second = v4(10, 0, 0, 4);
    let same_bits_v6 = ClientAddr { v6: true, bits: first.bits };
    assert_eq!(limiter.admit_now(first), Admission::Allowed);
    assert_eq!(limiter.admit_now(first), Admission::RateLimited);
    assert_eq!(limiter.admit_now(second), Admission::Allowed);
    assert_eq!(limiter.admit_now(same_bits_v6), Admission::Allowed);
    assert_eq!(limiter.admit_now(first), Admission::RateLimited);
    assert_eq!(limiter.admit_now(first), Admission::Banned);
    assert_eq!(limiter.admit_now(second), Admission::RateLimited);
    assert_eq!(limiter.record(second).map(|r| r.violations), Some(1));
    assert_eq!(limiter.record(same_bits_v6), None);
    assert_eq!(limiter.bucket_count(), 3);
}

#[test]
fn three_refusals_ban_for_an_hour() {
    let mut limiter = limiter(60, 5);
    let client = v4(10, 0, 0, 5);
    assert_eq!(limiter.decide(client, 10, false), Admission::RateLimited);
    assert_eq!(
        limiter.record(client),
        Some(ClientRecord { violations: 1, first_violation: 10, banned_at: None })
    );
    assert_eq!(limiter.decide(client, 20, true), Admission::Allowed);
    assert_eq!(limiter.decide(client, 30, false), Admission::RateLimited);
    assert_eq!(
        limiter.record(client),
        Some(ClientRecord { violations: 2, first_violation: 10, banned_at: None })
    );
    assert!(!limiter.is_banned(client, 30));
    assert_eq!(limiter.decide(client, 40, false), Admission::Banned);
    assert_eq!(
        limiter.record(client),
        Some(ClientRecord { violations: 3, first_violation: 10, banned_at: Some(40) })
    );
    assert!(limiter.is_banned(client, 40));
    assert!(limiter.is_banned(client, 40 + BAN_NANOS - 1));
    assert!(!limiter.is_banned(client, 40 + BAN_NANOS));
}

#[test]
fn a_banned_client_stays_banned_until_the_ban_ends() {
    let mut limiter = limiter(60, 5);
    let client = v4(10, 0, 0, 6);
    let start = 5 * SECOND;
    for _ in 0..3 {
        limiter.decide(client, start, false);
    }
    let banned = limiter.record(client);
    for (now, granted) in [
        (start, true),
        (start + 1, false),
        (start + 60 * SECOND, true),
        (start + BAN_NANOS - 1, true),
        (start + BAN_NANOS - 1, false),
        (0, true),
    ] {
        assert_eq!(limiter.decide(client, now, granted), Admission::Banned);
        assert_eq!(limiter.admit_at(client, now), Admission::Banned);
        assert_eq!(limiter.record(client), banned);
    }
    assert_eq!(limiter.bucket_count(), 0);
}

#[test]
fn after_the_ban_the_client_starts_afresh() {
    let mut limiter = limiter(60, 5);
    let client = v4(10, 0, 0, 7);
    for _ in 0..3 {
        limiter.decide(client, 100, false);
    }
    assert_eq!(limiter.decide(client, 100 + BAN_NANOS, true), Admission::Allowed);
    assert_eq!(limiter.record(client), None);

    for _ in 0..3 {
        limiter.decide(client, 200, false);
    }
    assert_eq!(limiter.decide(client, 200 + BAN_NANOS + 7, false), Admission::RateLimited);
    assert_eq!(
        limiter.record(client),
        Some(ClientRecord { violations: 1, first_violation: 200 + BAN_NANOS + 7, banned_at: None })
    );

    let mut real = self::limiter(1, 2);
    for _ in 0..3 {
        real.decide(client, 0, false);
    }
    assert_eq!(real.admit_at(client, BAN_NANOS - 1), Admission::Banned);
    assert_eq!(real.admit_at(client, BAN_NANOS), Admission::Allowed);
    assert_eq!(real.admit_at(client, BAN_NANOS), Admission::Allowed);
    assert_eq!(real.admit_at(client, BAN_NANOS), Admission::RateLimited);
}

#[test]
fn a_ban_is_not_extended() {
    let mut limiter = limiter(60, 5);
    let client = v4(10, 0, 0, 8);
    for _ in 0..3 {
        limiter.decide(client, 1000, false);
    }
    assert_eq!(limiter.decide(client, 2000, false), Admission::Banned);
    assert_eq!(limiter.decide(client, 1000 + BAN_NANOS - 1, false), Admission::Banned);
    assert_eq!(limiter.record(client).and_then(|r| r.banned_at), Some(1000));
    assert!(!limiter.is_banned(client, 1000 + BAN_NANOS));
}

#[test]
fn a_ban_near_the_end_of_time_does_not_overflow() {
    let mut limiter = limiter(60, 5);
    let client = v4(10, 0, 0, 9);
    for _ in 0..3 {
        limiter.decide(client, u128::MAX - 5, false);
    }
    assert!(limiter.is_banned(client, u128::MAX));
    assert!(limiter.is_banned(client, 0));
    assert_eq!(limiter.decide(client, u128::MAX, true), Admission::Banned);
}

#[test]
fn cleanup_forgets_violations_and_ended_bans() {
    let mut limiter = limiter(60, 5);
    let violating = v4(10, 0, 1, 1);
    let banned = v4(10, 0, 1, 2);
    let released = v4(10, 0, 1, 3);
    let clean = v4(10, 0, 1, 4);
    let now = 2 * BAN_NANOS;
    limiter.decide(violating, now - 1, false);
    limiter.decide(violating, now - 1, false);
    for _ in 0..3 {
        limiter.decide(banned, now - 1, false);
        limiter.decide(released, now - BAN_NANOS, false);
    }
    limiter.decide(clean, now - 1, true);
    let kept = limiter.record(banned);

    limiter.cleanup_at(now);

    assert_eq!(limiter.record(violating), None);
    assert_eq!(limiter.record(released), None);
    assert_eq!(limiter.record(clean), None);
    assert_eq!(limiter.record(banned), kept);
    assert!(limiter.is_banned(banned, now));
    assert_eq!(limiter.decide(violating, now, false), Admission::RateLimited);
    assert_eq!(limiter.record(violating).map(|r| r.violations), Some(1));
}

#[test]
fn cleanup_forgets_violations_however_recent() {
    let mut limiter = limiter(60, 5);
    let client = v4(10, 0, 1, 5);
    limiter.decide(client, 500, false);
    limiter.decide(client, 500, false);
    limiter.cleanup_at(500);
    assert_eq!(limiter.record(client), None);
    assert_eq!(limiter.decide(client, 500, false), Admission::RateLimited);
    assert_eq!(limiter.decide(client, 500, false), Admission::RateLimited);
    assert_eq!(limiter.decide(client, 500, false), Admission::Banned);
}

#[test]
fn cleanup_keeps_a_ban_to_its_last_moment() {
    let mut limiter = limiter(60, 5);
    let client = v4(10, 0, 1, 6);
    for _ in 0..3 {
        limiter.decide(client, 0, false);
    }
    limiter.cleanup_at(BAN_NANOS - 1);
    assert!(limiter.record(client).is_some());
    limiter.cleanup_at(BAN_NANOS);
    assert_eq!(limiter.record(client), None);
}

#[test]
fn cleanup_keeps_ten_thousand_buckets() {
    let mut limiter = limiter(1, 1);
    let first = ClientAddr { v6: true, bits: 0 };
    assert_eq!(limiter.admit_at(first, 0), Admission::Allowed);
    assert_eq!(limiter.admit_at(first, 0), Admission::RateLimited);
    for bits in 1..10_000u128 {
        limiter.admit_at(ClientAddr { v6: true, bits }, 0);
    }
    assert_eq!(limiter.bucket_count(), 10_000);
    limiter.cleanup_at(0);
    assert_eq!(limiter.bucket_count(), 10_000);
    assert_eq!(limiter.record(first), None);
    assert_eq!(limiter.admit_at(first, 0), Admission::RateLimited);
}

#[test]
fn cleanup_discards_all_buckets_above_ten_thousand() {
    let mut limiter = limiter(1, 1);
    let first = ClientAddr { v6: true, bits: 0 };
    assert_eq!(limiter.admit_at(first, 0), Admission::Allowed);
    assert_eq!(limiter.admit_at(first, 0), Admission::RateLimited);
    for bits in 1..=10_000u128 {
        limiter.admit_at(ClientAddr { v6: true, bits }, 0);
    }
    assert_eq!(limiter.bucket_count(), 10_001);
    limiter.cleanup_at(0);
    assert_eq!(limiter.bucket_count(), 0);
    assert_eq!(limiter.admit_at(first, 0), Admission::Allowed);
    assert_eq!(limiter.bucket_count(), 1);
}

#[test]
fn cleanup_reads_the_clock() {
    let mut limiter = limiter(60, 5);
    let violating = v4(10, 0, 1, 7);
    let banned = v4(10, 0, 1, 8);
    let now = limiter.now();
    limiter.decide(violating, now, false);
    for _ in 0..3 {
        limiter.decide(banned, now, false);
    }
    limiter.cleanup();
    assert_eq!(limiter.record(violating), None);
    assert!(limiter.record(banned).is_some());
}

#[test]
fn the_clock_does_not_run_backwards() {
    let limiter = limiter(60, 5);
    let earlier = limiter.now();
    let later = limiter.now();
    assert!(earlier <= later);
    assert!(later < 60 * SECOND);
}

#[test]
fn a_violation_counts_up_from_the_prior_record() {
    assert_eq!(
        record_violation(None, 9),
        ClientRecord { violations: 1, first_violation: 9, banned_at: None }
    );
    let once = ClientRecord { violations: 1, first_violation: 9, banned_at: None };
    assert_eq!(
        record_violation(Some(once), 12),
        ClientRecord { violations: 2, first_violation: 9, banned_at: None }
    );
    let twice = ClientRecord { violations: 2, first_violation: 9, banned_at: None };
    assert_eq!(
        record_violation(Some(twice), 15),
        ClientRecord { violations: 3, first_violation: 9, banned_at: Some(15) }
    );
}

#[test]
fn a_record_knows_when_its_ban_is_on() {
    let banned = ClientRecord { violations: 3, first_violation: 1, banned_at: Some(100) };
    assert!(banned.banned_at_time(100));
    assert!(banned.banned_at_time(99));
    assert!(banned.banned_at_time(100 + BAN_NANOS - 1));
    assert!(!banned.banned_at_time(100 + BAN_NANOS));
    assert!(!banned.banned_at_time(u128::MAX));
    let free = ClientRecord { violations: 2, first_violation: 1, banned_at: None };
    assert!(!free.banned_at_time(0));
    assert!(!free.banned_at_time(100));
}

#[test]
fn each_answer_has_its_redirect() {
    let redirects = redirects();
    assert_eq!(redirect_for(Admission::Allowed, &redirects), None);
    assert_eq!(redirect_for(Admission::RateLimited, &redirects), Some(found("/errors/429")));
    assert_eq!(redirect_for(Admission::Banned, &redirects), Some(found("/errors/banned")));
}

#[test]
fn an_address_is_its_own_key() {
    assert_eq!(v4(127, 0, 0, 1).to_key(), (false, 0x7f00_0001));
    assert_eq!(ClientAddr { v6: true, bits: 1 }.to_key(), (true, 1));
    assert_ne!(ClientAddr { v6: true, bits: 1 }.to_key(), ClientAddr { v6: false, bits: 1 }.to_key());
}

#[test]
fn the_largest_usable_burst_is_kept() {
    let mut limiter = limiter(1, 153_722_867);
    let client = v4(10, 0, 2, 1);
    for _ in 0..1000 {
        assert_eq!(limiter.admit_now(client), Admission::Allowed);
    }
    assert_eq!(limiter.bucket_count(), 1);
}
