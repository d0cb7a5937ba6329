//! The per-client rate limiter: a token bucket for each address, a count of
//! the requests it had to turn away, and a ban for clients that keep coming.
//!
//! Every operation that changes the limiter takes it exclusively, so the
//! steps of one admission, from the look at the ban to the count of the
//! violation, happen as one: no other request comes between them.

use vstd::prelude::*;
use std::time::Instant;
use crate::admission::{
    admission_of, all_wf, answers_admission, banned_only, is_banned, lift_ended_ban,
    record_of, record_violation, records_after, redirect_for, AddrKey, Admission, ClientAddr,
    ClientRecord, Records,
};
use crate::config::{quota_is_usable, ErrorRedirects, RateLimitConfig};
use crate::http::Response;
use crate::store::{
    bucket_keys, bucket_quota, records_get, records_in, records_insert, records_new,
    records_remove, records_retain_banned, RecordMap, TokenBuckets,
};

verus! {

/// The number of buckets above which `cleanup` discards them all.
pub const MAX_BUCKETS: usize = 10_000;

/// The state of the rate limiter for all clients.
pub struct RateLimit {
    buckets: TokenBuckets,
    records: RecordMap,
    started: Instant,
}

impl RateLimit {
    /// Every record is well formed, the buckets are finitely many, and the
    /// quota is one that they can keep.
    pub closed spec fn wf(&self) -> bool {
        &&& all_wf(records_in(self.records))
        &&& bucket_keys(self.buckets).finite()
        &&& quota_is_usable(bucket_quota(self.buckets).0, bucket_quota(self.buckets).1)
    }

    /// The records of the clients that were turned away.
    pub closed spec fn records(&self) -> Records {
        records_in(self.records)
    }

    /// The addresses that have a token bucket.
    pub closed spec fn buckets(&self) -> Set<AddrKey> {
        bucket_keys(self.buckets)
    }

    /// The quota of every bucket: requests per minute, and burst size.
    pub closed spec fn quota(&self) -> (u32, u32) {
        bucket_quota(self.buckets)
    }

    /// A rate limiter without clients, for the quota of `config`, with its
    /// clock at zero. The quota has to be usable: `check_usable` tells.
    pub fn new(config: &RateLimitConfig) -> (limiter: RateLimit)
        requires
            config.is_usable(),
        ensures
            limiter.wf(),
            limiter.records() == Records::empty(),
            limiter.buckets() == Set::<AddrKey>::empty(),
            limiter.quota() == (config.requests_per_minute, config.burst_size),
    {
        RateLimit {
            buckets: TokenBuckets::new(config.requests_per_minute, config.burst_size),
            records: records_new(),
            started: Instant::now(),
        }
    }

    /// The time on the limiter's clock: nanoseconds since it was made.
    pub fn now(&self) -> u128 {
        self.started.elapsed().as_nanos()
    }

    /// What is remembered of the client, if anything.
    pub fn record(&self, ip: ClientAddr) -> (r: Option<ClientRecord>)
        ensures
            r == record_of(self.records(), ip.key()),
    {
        records_get(&self.records, ip.to_key())
    }

    /// The number of clients that have a token bucket.
    pub fn bucket_count(&self) -> (n: usize)
        requires
            self.wf(),
        ensures
            n == self.buckets().len(),
    {
        self.buckets.len()
    }

    /// Whether the client is banned at `now`.
    pub fn is_banned(&self, ip: ClientAddr, now: u128) -> (b: bool)
        ensures
            b == is_banned(self.records(), ip.key(), now),
    {
        match records_get(&self.records, ip.to_key()) {
            Some(record) => record.banned_at_time(now),
            None => false,
        }
    }

    /// Answers a request of the client at `now`, given whether its bucket
    /// gave a token. A banned client stays banned and nothing changes. For
    /// any other client a ban that has ended is lifted; with a token the
    /// request is allowed, and without one a violation is counted, which
    /// bans the client at the third.
    pub fn decide(&mut self, ip: ClientAddr, now: u128, granted: bool) -> (admission: Admission)
        requires
            old(self).wf(),
        ensures
            final(self).wf(),
            admission == admission_of(old(self).records(), ip.key(), now, granted),
            final(self).records() == records_after(old(self).records(), ip.key(), now, granted),
            final(self).buckets() == old(self).buckets(),
            final(self).quota() == old(self).quota(),
    {
        let key = ip.to_key();
        let standing: Option<ClientRecord> = match records_get(&self.records, key) {
            Some(record) => {
                if record.banned_at_time(now) {
                    return Admission::Banned;
                }
                if record.banned_at.is_some() {
                    records_remove(&mut self.records, key);
                    None
                } else {
                    Some(record)
                }
            },
            None => None,
        };
        assert(records_in(self.records) == lift_ended_ban(old(self).records(), key, now));
        assert(standing == record_of(records_in(self.records), key));
        if granted {
            return Admission::Allowed;
        }
        let record = record_violation(standing, now);
        records_insert(&mut self.records, key, record);
        if record.banned_at.is_some() {
            Admission::Banned
        } else {
            Admission::RateLimited
        }
    }

    /// The request of the client at `now` ended as it does where the bucket
    /// says `granted`: with the answer and the records that `decide` gives,
    /// and with a bucket for the client unless it is banned, in which case
    /// its bucket is not touched.
    pub open spec fn admitted_with(
        &self,
        before: &RateLimit,
        ip: ClientAddr,
        now: u128,
        granted: bool,
        admission: Admission,
    ) -> bool {
        &&& admission == admission_of(before.records(), ip.key(), now, granted)
        &&& self.records() == records_after(before.records(), ip.key(), now, granted)
        &&& self.buckets() == if is_banned(before.records(), ip.key(), now) {
            before.buckets()
        } else {
            before.buckets().insert(ip.key())
        }
    }

    /// Answers a request of the client at `now`. A banned client is turned
    /// away at once: its bucket is not asked and nothing changes. Any other
    /// client gets a bucket, if it has none, and the bucket is asked for a
    /// token; the request then ends as `decide` says for the bucket's answer.
    pub fn admit_at(&mut self, ip: ClientAddr, now: u128) -> (admission: Admission)
        requires
            old(self).wf(),
        ensures
            final(self).wf(),
            final(self).quota() == old(self).quota(),
            final(self).admitted_with(old(self), ip, now, true, admission)
                || final(self).admitted_with(old(self), ip, now, false, admission),
            is_banned(old(self).records(), ip.key(), now) ==> {
                &&& admission == Admission::Banned
                &&& final(self).records() == old(self).records()
                &&& final(self).buckets() == old(self).buckets()
            },
    {
        if self.is_banned(ip, now) {
            return Admission::Banned;
        }
        let key = ip.to_key();
        if !self.buckets.contains(key) {
            self.buckets.open(key);
        }
        assert(bucket_keys(self.buckets) =~= old(self).buckets().insert(key));
        let granted = self.buckets.take(key);
        self.decide(ip, now, granted)
    }

    /// Answers a request of the client at the present time of the limiter's
    /// clock: see `admit_at`.
    pub fn admit_now(&mut self, ip: ClientAddr) -> (admission: Admission)
        requires
            old(self).wf(),
        ensures
            final(self).wf(),
            final(self).quota() == old(self).quota(),
            exists|now: u128, granted: bool| #[trigger]
                final(self).admitted_with(old(self), ip, now, granted, admission),
    {
        let now: u128 = self.now();
        self.admit_at(ip, now)
    }

    /// Checks a request of the client against its ban and its bucket at the
    /// present time. The answer is nothing for an admitted request, and for
    /// any other the redirect configured for the reason: rate limited, or
    /// banned.
    pub fn check_rate_limit(&mut self, ip: ClientAddr, redirects: &ErrorRedirects) -> (r: Option<
        Response,
    >)
        requires
            old(self).wf(),
        ensures
            final(self).wf(),
            final(self).quota() == old(self).quota(),
            exists|now: u128, granted: bool, admission: Admission|
                {
                    &&& #[trigger] final(self).admitted_with(old(self), ip, now, granted, admission)
                    &&& answers_admission(admission, redirects, r)
                },
    {
        let admission = self.admit_now(ip);
        redirect_for(admission, redirects)
    }

    /// Forgets what `cleanup` forgets at `now`: the record of every client
    /// that is not banned at `now`, whenever its violations were, and, where
    /// there are more than `MAX_BUCKETS` buckets, all of the buckets. The
    /// records of banned clients stay as they are.
    pub fn cleanup_at(&mut self, now: u128)
        requires
            old(self).wf(),
        ensures
            final(self).wf(),
            final(self).quota() == old(self).quota(),
            final(self).records() == banned_only(old(self).records(), now),
            final(self).buckets() == if old(self).buckets().len() > MAX_BUCKETS {
                Set::<AddrKey>::empty()
            } else {
                old(self).buckets()
            },
    {
        records_retain_banned(&mut self.records, now);
        if self.buckets.len() > MAX_BUCKETS {
            self.buckets.clear();
        }
    }

    /// Forgets what is stale at the present time of the limiter's clock: see
    /// `cleanup_at`.
    pub fn cleanup(&mut self)
        requires
            old(self).wf(),
        ensures
            final(self).wf(),
            final(self).quota() == old(self).quota(),
            exists|now: u128| #[trigger] final(self).cleaned_at(old(self), now),
    {
        let now: u128 = self.now();
        self.cleanup_at(now);
        assert(self.cleaned_at(old(self), now));
    }

    /// `cleanup` ran at `now`.
    pub open spec fn cleaned_at(&self, before: &RateLimit, now: u128) -> bool {
        &&& self.records() == banned_only(before.records(), now)
        &&& self.buckets() == if before.buckets().len() > MAX_BUCKETS {
            Set::<AddrKey>::empty()
        } else {
            before.buckets()
        }
    }
}

} // verus!
