//! Gateway configuration and the per-path timeout rules.

use vstd::prelude::*;
use crate::text::starts_with;

verus! {

/// Everything the gateway is configured with.
#[derive(Debug, Clone)]
pub struct Config {
    pub server: ServerConfig,
    pub proxy: ProxyConfig,
    pub limits: LimitsConfig,
    pub rate_limit: RateLimitConfig,
    pub filter: FilterConfig,
    pub error_redirects: ErrorRedirects,
    pub timeout_override: Vec<TimeoutOverride>,
}

/// The address that the gateway listens on.
#[derive(Debug, Clone)]
pub struct ServerConfig {
    pub listen_addr: String,
}

/// The base URL of the origin that requests are forwarded to.
#[derive(Debug, Clone)]
pub struct ProxyConfig {
    pub upstream: String,
}

/// The largest request body, in bytes, and the timeout of a request that no
/// override applies to.
#[derive(Debug, Clone)]
pub struct LimitsConfig {
    pub max_body_size: u64,
    pub default_timeout_secs: u64,
}

/// The quota of every client: how fast its bucket refills, and how many
/// tokens it holds at most.
#[derive(Debug, Clone)]
pub struct RateLimitConfig {
    pub requests_per_minute: u32,
    pub burst_size: u32,
}

/// The user agents that are turned away, as literal text, and where they
/// are sent.
#[derive(Debug, Clone)]
pub struct FilterConfig {
    pub blocked_user_agents: Vec<String>,
    pub redirect_url: String,
}

/// A timeout for every request whose path starts with `path`.
#[derive(Debug, Clone)]
pub struct TimeoutOverride {
    pub path: String,
    pub timeout_secs: u64,
}

/// Where a rejected request is sent, by the reason of the rejection.
#[derive(Debug, Clone)]
pub struct ErrorRedirects {
    pub rate_limited: String,
    pub banned: String,
    pub body_too_large: String,
    pub timeout: String,
    pub bad_gateway: String,
}

/// One minute, in nanoseconds.
pub const MINUTE_NANOS: u64 = 60_000_000_000;

/// The longest time, in nanoseconds, that filling an empty bucket may take.
/// A bucket counts nanoseconds in 64 bits and adds this time to the time
/// that the gateway has run: half the range is for the one, and half, 292
/// years, for the other.
pub const MAX_REFILL_NANOS: u64 = 0x7fff_ffff_ffff_ffff;

/// A quota that the token buckets can keep: neither number is zero, and
/// filling an empty bucket, one token every `MINUTE_NANOS /
/// requests_per_minute` nanoseconds, takes no longer than
/// `MAX_REFILL_NANOS`.
pub open spec fn quota_is_usable(requests_per_minute: u32, burst_size: u32) -> bool {
    &&& requests_per_minute > 0
    &&& burst_size > 0
    &&& (MINUTE_NANOS / (requests_per_minute as u64)) * burst_size <= MAX_REFILL_NANOS
}

impl RateLimitConfig {
    /// The quota is one that the token buckets can keep.
    pub open spec fn is_usable(&self) -> bool {
        quota_is_usable(self.requests_per_minute, self.burst_size)
    }

    /// Whether the quota is one that the token buckets can keep. A rate
    /// limiter is made only for such a quota.
    pub fn check_usable(&self) -> (ok: bool)
        ensures
            ok == self.is_usable(),
    {
        if self.requests_per_minute == 0 || self.burst_size == 0 {
            return false;
        }
        let interval: u64 = MINUTE_NANOS / (self.requests_per_minute as u64);
        assert(interval <= MINUTE_NANOS) by (nonlinear_arith)
            requires
                interval == MINUTE_NANOS / (self.requests_per_minute as u64),
                self.requests_per_minute > 0,
        ;
        assert(interval * self.burst_size <= MINUTE_NANOS * 0x1_0000_0000) by (nonlinear_arith)
            requires
                interval <= MINUTE_NANOS,
                self.burst_size < 0x1_0000_0000,
        ;
        (interval as u128) * (self.burst_size as u128) <= MAX_REFILL_NANOS as u128
    }
}

/// Rule `i` applies to `path`: its prefix is a prefix of the path.
pub open spec fn rule_applies(rules: Seq<TimeoutOverride>, i: int, path: Seq<char>) -> bool {
    0 <= i < rules.len() && rules[i].path@.is_prefix_of(path)
}

/// Rule `i` is the first rule, in configured order, that applies to `path`.
pub open spec fn is_first_applicable(rules: Seq<TimeoutOverride>, i: int, path: Seq<char>) -> bool {
    &&& rule_applies(rules, i, path)
    &&& forall|j: int| 0 <= j < i ==> !rule_applies(rules, j, path)
}

/// The timeout of the first applicable rule, or `default_secs` when no rule
/// applies.
pub open spec fn resolve_timeout(rules: Seq<TimeoutOverride>, default_secs: u64, path: Seq<char>) -> u64 {
    if exists|i: int| is_first_applicable(rules, i, path) {
        rules[choose|i: int| is_first_applicable(rules, i, path)].timeout_secs
    } else {
        default_secs
    }
}

impl Config {
    /// The timeout, in seconds, of a request for `path`.
    pub open spec fn spec_timeout_for_path(&self, path: Seq<char>) -> u64 {
        resolve_timeout(self.timeout_override@, self.limits.default_timeout_secs, path)
    }

    /// The timeout for a request path: that of the first override whose
    /// prefix matches, else the default.
    pub fn timeout_for_path(&self, path: &str) -> (secs: u64)
        ensures
            secs == self.spec_timeout_for_path(path@),
            forall|i: int|
                is_first_applicable(self.timeout_override@, i, path@)
                    ==> secs == self.timeout_override@[i].timeout_secs,
            (forall|i: int| !rule_applies(self.timeout_override@, i, path@))
                ==> secs == self.limits.default_timeout_secs,
    {
        let mut k: usize = 0;
        while k < self.timeout_override.len()
            invariant
                k <= self.timeout_override.len(),
                forall|j: int| 0 <= j < k ==> !rule_applies(self.timeout_override@, j, path@),
            decreases self.timeout_override.len() - k,
        {
            if starts_with(path, self.timeout_override[k].path.as_str()) {
                proof {
                    assert(rule_applies(self.timeout_override@, k as int, path@));
                    lemma_first_applicable_unique(
                        self.timeout_override@,
                        self.limits.default_timeout_secs,
                        k as int,
                        path@,
                    );
                }
                return self.timeout_override[k].timeout_secs;
            }
            k += 1;
        }
        proof {
            assert forall|i: int| !is_first_applicable(self.timeout_override@, i, path@) by {}
        }
        self.limits.default_timeout_secs
    }
}

/// At most one rule is the first applicable one.
pub proof fn lemma_first_applicable_unique(
    rules: Seq<TimeoutOverride>,
    default_secs: u64,
    i: int,
    path: Seq<char>,
)
    requires
        is_first_applicable(rules, i, path),
    ensures
        forall|j: int| is_first_applicable(rules, j, path) ==> j == i,
        resolve_timeout(rules, default_secs, path) == rules[i].timeout_secs,
{
    assert forall|j: int| is_first_applicable(rules, j, path) implies j == i by {
        if j < i {
            assert(rule_applies(rules, j, path));
        } else if i < j {
            assert(rule_applies(rules, i, path));
        }
    }
}

} // verus!
