//! The two concurrent maps behind the rate limiter, and what is assumed of
//! them: the records of the clients, and their token buckets.

use vstd::prelude::*;
use dashmap::DashMap;
use governor::clock::DefaultClock;
use governor::state::{InMemoryState, NotKeyed};
use governor::{Quota, RateLimiter};
use std::num::NonZeroU32;
use std::sync::Arc;
use crate::admission::{banned_only, record_of, AddrKey, ClientRecord, Records};
use crate::config::quota_is_usable;

verus! {

/// `dashmap::DashMap`: a concurrent hash map. Nothing inside it is visible.
#[verifier::external_type_specification]
#[verifier::external_body]
#[verifier::reject_recursive_types(K)]
#[verifier::reject_recursive_types(V)]
#[verifier::reject_recursive_types(S)]
pub struct ExDashMap<K, V, S>(DashMap<K, V, S>);

/// The concurrent map that holds the records of the clients.
pub type RecordMap = DashMap<AddrKey, ClientRecord>;

/// The entries of a map of client records.
pub uninterp spec fn records_in(map: RecordMap) -> Records;

/// `DashMap::new`: a map without entries.
#[verifier::external_body]
pub(crate) fn records_new() -> (records: RecordMap)
    ensures
        records_in(records) == Records::empty(),
{
    DashMap::new()
}

/// `DashMap::get`: a copy of the record under `key`, if there is one.
#[verifier::external_body]
pub(crate) fn records_get(map: &RecordMap, key: AddrKey) -> (r: Option<
    ClientRecord,
>)
    ensures
        r == record_of(records_in(*map), key),
{
    map.get(&key).map(|entry| *entry)
}

/// `DashMap::insert`: `record` stands under `key`, in place of what stood
/// there; the other entries stay.
#[verifier::external_body]
pub(crate) fn records_insert(
    map: &mut RecordMap,
    key: AddrKey,
    record: ClientRecord,
)
    ensures
        records_in(*final(map)) == records_in(*old(map)).insert(key, record),
{
    map.insert(key, record);
}

/// `DashMap::remove`: nothing stands under `key`; the other entries stay.
#[verifier::external_body]
pub(crate) fn records_remove(map: &mut RecordMap, key: AddrKey)
    ensures
        records_in(*final(map)) == records_in(*old(map)).remove(key),
{
    map.remove(&key);
}

/// `DashMap::retain`, keeping the records of the clients that are banned at
/// `now`: those entries stay as they are, all others go.
#[verifier::external_body]
pub(crate) fn records_retain_banned(map: &mut RecordMap, now: u128)
    ensures
        records_in(*final(map)) == banned_only(records_in(*old(map)), now),
{
    map.retain(|_, record| record.banned_at_time(now));
}

/// The token buckets of the clients: a `dashmap::DashMap` that holds one
/// `governor::RateLimiter` for each address that has asked, all made for the
/// same `governor::Quota`. Nothing inside it is visible.
#[verifier::external_body]
pub struct TokenBuckets {
    limiters: DashMap<AddrKey, Arc<RateLimiter<NotKeyed, InMemoryState, DefaultClock>>>,
    quota: Quota,
}

/// The addresses that have a bucket.
pub uninterp spec fn bucket_keys(buckets: TokenBuckets) -> Set<AddrKey>;

/// The quota that the buckets are made for: requests per minute, and burst
/// size.
pub uninterp spec fn bucket_quota(buckets: TokenBuckets) -> (u32, u32);

impl TokenBuckets {
    /// `DashMap::new`, with `Quota::per_minute` and `Quota::allow_burst`: no
    /// buckets yet, and the quota for those to come. The quota has to be
    /// usable: a rate limiter multiplies the refill interval by the burst
    /// size and adds the time on its clock, in 64 bits.
    #[verifier::external_body]
    pub(crate) fn new(requests_per_minute: u32, burst_size: u32) -> (buckets: TokenBuckets)
        requires
            quota_is_usable(requests_per_minute, burst_size),
        ensures
            bucket_keys(buckets) == Set::<AddrKey>::empty(),
            bucket_quota(buckets) == (requests_per_minute, burst_size),
    {
        let per_minute = NonZeroU32::new(requests_per_minute).unwrap();
        let burst = NonZeroU32::new(burst_size).unwrap();
        TokenBuckets {
            limiters: DashMap::new(),
            quota: Quota::per_minute(per_minute).allow_burst(burst),
        }
    }

    /// `DashMap::contains_key`: whether `key` has a bucket.
    #[verifier::external_body]
    pub(crate) fn contains(&self, key: AddrKey) -> (b: bool)
        ensures
            b == bucket_keys(*self).contains(key),
    {
        self.limiters.contains_key(&key)
    }

    /// `DashMap::insert` of `RateLimiter::direct`: `key` has a new bucket,
    /// made for the quota; the other buckets stay.
    #[verifier::external_body]
    pub(crate) fn open(&mut self, key: AddrKey)
        ensures
            bucket_keys(*final(self)) == bucket_keys(*old(self)).insert(key),
            bucket_quota(*final(self)) == bucket_quota(*old(self)),
    {
        self.limiters.insert(key, Arc::new(RateLimiter::direct(self.quota)));
    }

    /// `RateLimiter::check` on the bucket of `key`: whether it gave a token
    /// at this moment. Which buckets there are does not change.
    #[verifier::external_body]
    pub(crate) fn take(&mut self, key: AddrKey) -> (granted: bool)
        requires
            bucket_keys(*old(self)).contains(key),
        ensures
            bucket_keys(*final(self)) == bucket_keys(*old(self)),
            bucket_quota(*final(self)) == bucket_quota(*old(self)),
    {
        let limiter = self.limiters.get(&key).unwrap().clone();
        limiter.check().is_ok()
    }

    /// `DashMap::len`: the number of buckets.
    #[verifier::external_body]
    pub(crate) fn len(&self) -> (n: usize)
        ensures
            bucket_keys(*self).finite() ==> n == bucket_keys(*self).len(),
    {
        self.limiters.len()
    }

    /// `DashMap::clear`: no bucket is left.
    #[verifier::external_body]
    pub(crate) fn clear(&mut self)
        ensures
            bucket_keys(*final(self)) == Set::<AddrKey>::empty(),
            bucket_quota(*final(self)) == bucket_quota(*old(self)),
    {
        self.limiters.clear();
    }
}

} // verus!
