//! The admission rules for one client: rate-limit violations add up to a
//! ban, and a ban lasts for a fixed time.

use vstd::prelude::*;
use crate::config::ErrorRedirects;
use crate::http::{redirect, redirect_view, Response, FOUND};

verus! {

/// How long a ban lasts, in nanoseconds: one hour.
pub const BAN_NANOS: u128 = 3_600_000_000_000;

/// The number of violations at which a client is banned.
pub const MAX_VIOLATIONS: u32 = 3;

/// The address of a client: 32 bits of an IPv4 address or 128 bits of an IPv6
/// address.
#[derive(Clone, Copy, Debug, PartialEq, Eq)]
pub struct ClientAddr {
    pub v6: bool,
    pub bits: u128,
}

/// The key under which a client's state is kept.
pub type AddrKey = (bool, u128);

impl ClientAddr {
    /// The key of this address; different addresses have different keys.
    pub open spec fn key(self) -> AddrKey {
        (self.v6, self.bits)
    }

    /// Computes the key of this address.
    #[verifier::when_used_as_spec(key)]
    pub fn to_key(self) -> (k: AddrKey)
        ensures
            k == self.key(),
    {
        (self.v6, self.bits)
    }
}

/// What is remembered of a client that was turned away: how often, since
/// when, and when it was banned, if it was. Times are nanoseconds on the
/// gateway's clock.
#[derive(Clone, Copy, Debug, PartialEq, Eq)]
pub struct ClientRecord {
    pub violations: u32,
    pub first_violation: u128,
    pub banned_at: Option<u128>,
}

/// The answer to a request for admission.
#[derive(Clone, Copy, Debug, PartialEq, Eq)]
pub enum Admission {
    Allowed,
    RateLimited,
    Banned,
}

impl ClientRecord {
    /// A record counts at least one violation, and holds a ban exactly when
    /// it has reached the threshold.
    pub open spec fn wf(self) -> bool {
        &&& 1 <= self.violations <= MAX_VIOLATIONS
        &&& self.banned_at is Some <==> self.violations == MAX_VIOLATIONS
    }

    /// When the ban ends, if there is one: a fixed time after it began.
    pub open spec fn ban_expiry(self) -> Option<int> {
        match self.banned_at {
            Some(t) => Some(t + BAN_NANOS),
            None => None,
        }
    }

    /// The client is banned at `now`: it has a ban that has not ended.
    pub open spec fn is_banned_at(self, now: u128) -> bool {
        match self.ban_expiry() {
            Some(expiry) => now < expiry,
            None => false,
        }
    }

    /// Whether the client is banned at `now`.
    pub fn banned_at_time(&self, now: u128) -> (b: bool)
        ensures
            b == self.is_banned_at(now),
    {
        match self.banned_at {
            Some(t) => now < t || now - t < BAN_NANOS,
            None => false,
        }
    }
}

/// The record of a client after one more violation at `now`: the count goes
/// up by one from `prior`, or starts at one, and the ban begins where the
/// count reaches the threshold.
pub open spec fn after_violation(prior: Option<ClientRecord>, now: u128) -> ClientRecord {
    let count: int = match prior {
        Some(record) => record.violations + 1,
        None => 1,
    };
    ClientRecord {
        violations: count as u32,
        first_violation: match prior {
            Some(record) => record.first_violation,
            None => now,
        },
        banned_at: if count >= MAX_VIOLATIONS {
            Some(now)
        } else {
            None
        },
    }
}

/// Counts one more violation. The count of the prior record, if there is
/// one, has room for it; a well-formed record without a ban becomes a
/// well-formed record.
pub fn record_violation(prior: Option<ClientRecord>, now: u128) -> (record: ClientRecord)
    requires
        prior matches Some(p) ==> p.violations < u32::MAX,
    ensures
        record == after_violation(prior, now),
        (prior matches Some(p) ==> p.wf() && p.banned_at is None) ==> record.wf(),
{
    let (count, first): (u32, u128) = match prior {
        Some(p) => (p.violations + 1, p.first_violation),
        None => (1, now),
    };
    ClientRecord {
        violations: count,
        first_violation: first,
        banned_at: if count >= MAX_VIOLATIONS {
            Some(now)
        } else {
            None
        },
    }
}

/// The records of all clients, by key. A client without a record is clean.
pub type Records = Map<AddrKey, ClientRecord>;

/// The record of one client, if it has one.
pub open spec fn record_of(records: Records, key: AddrKey) -> Option<ClientRecord> {
    if records.dom().contains(key) {
        Some(records[key])
    } else {
        None
    }
}

/// The client is banned at `now`.
pub open spec fn is_banned(records: Records, key: AddrKey, now: u128) -> bool {
    records.dom().contains(key) && records[key].is_banned_at(now)
}

/// The records once a ban of the client that has ended is lifted: the ban
/// goes, and the violations with it.
pub open spec fn lift_ended_ban(records: Records, key: AddrKey, now: u128) -> Records {
    if records.dom().contains(key) && records[key].banned_at is Some && !records[key].is_banned_at(
        now,
    ) {
        records.remove(key)
    } else {
        records
    }
}

/// The records after a request of the client at `now`, where `granted` says
/// whether its bucket gave a token.
pub open spec fn records_after(records: Records, key: AddrKey, now: u128, granted: bool) -> Records {
    if is_banned(records, key, now) {
        records
    } else if granted {
        lift_ended_ban(records, key, now)
    } else {
        let lifted = lift_ended_ban(records, key, now);
        lifted.insert(key, after_violation(record_of(lifted, key), now))
    }
}

/// The answer to a request of the client at `now`, where `granted` says
/// whether its bucket gave a token.
pub open spec fn admission_of(records: Records, key: AddrKey, now: u128, granted: bool) -> Admission {
    if is_banned(records, key, now) {
        Admission::Banned
    } else if granted {
        Admission::Allowed
    } else if after_violation(record_of(lift_ended_ban(records, key, now), key), now).banned_at
        is Some {
        Admission::Banned
    } else {
        Admission::RateLimited
    }
}

/// Every record is well formed.
pub open spec fn all_wf(records: Records) -> bool {
    forall|key: AddrKey| records.dom().contains(key) ==> (#[trigger] records[key]).wf()
}

/// What `cleanup` leaves: the records of the clients that are banned at
/// `now`, unchanged.
pub open spec fn banned_only(records: Records, now: u128) -> Records {
    Map::new(
        |key: AddrKey| records.dom().contains(key) && records[key].is_banned_at(now),
        |key: AddrKey| records[key],
    )
}

/// The redirect that answers a request that was not admitted.
pub open spec fn answers_admission(
    admission: Admission,
    redirects: &ErrorRedirects,
    r: Option<Response>,
) -> bool {
    match admission {
        Admission::Allowed => r is None,
        Admission::RateLimited => r matches Some(response) && response@ == redirect_view(
            FOUND,
            redirects.rate_limited@,
        ),
        Admission::Banned => r matches Some(response) && response@ == redirect_view(
            FOUND,
            redirects.banned@,
        ),
    }
}

/// The response for an answer: none for an admitted request, the redirect
/// configured for its reason otherwise.
pub fn redirect_for(admission: Admission, redirects: &ErrorRedirects) -> (r: Option<Response>)
    ensures
        answers_admission(admission, redirects, r),
{
    match admission {
        Admission::Allowed => None,
        Admission::RateLimited => Some(redirect(redirects.rate_limited.as_str())),
        Admission::Banned => Some(redirect(redirects.banned.as_str())),
    }
}

/// The answers to a run of requests of one client, each given by its time
/// and by whether the bucket gave a token.
pub open spec fn admissions_of(records: Records, key: AddrKey, requests: Seq<(u128, bool)>) -> Seq<
    Admission,
>
    decreases requests.len(),
{
    if requests.len() == 0 {
        Seq::empty()
    } else {
        seq![admission_of(records, key, requests[0].0, requests[0].1)] + admissions_of(
            records_after(records, key, requests[0].0, requests[0].1),
            key,
            requests.drop_first(),
        )
    }
}

/// The records after a run of requests of one client.
pub open spec fn records_after_all(records: Records, key: AddrKey, requests: Seq<(u128, bool)>) -> Records
    decreases requests.len(),
{
    if requests.len() == 0 {
        records
    } else {
        records_after_all(
            records_after(records, key, requests[0].0, requests[0].1),
            key,
            requests.drop_first(),
        )
    }
}

/// The client holds a ban, ended or not.
pub open spec fn holds_ban(records: Records, key: AddrKey) -> bool {
    records.dom().contains(key) && records[key].banned_at is Some
}

/// Well-formed records stay well formed, and a request changes the record of
/// no other client.
pub proof fn law_request_keeps_order(records: Records, key: AddrKey, now: u128, granted: bool)
    requires
        all_wf(records),
    ensures
        all_wf(records_after(records, key, now, granted)),
        forall|other: AddrKey|
            other != key ==> record_of(records_after(records, key, now, granted), other)
                == record_of(records, other),
{
    let lifted = lift_ended_ban(records, key, now);
    if !is_banned(records, key, now) && !granted {
        if lifted.dom().contains(key) {
            assert(lifted[key] == records[key]);
            assert(records[key].wf());
        }
    }
    assert forall|k: AddrKey|
        records_after(records, key, now, granted).dom().contains(k) implies (
    #[trigger] records_after(records, key, now, granted)[k]).wf() by {
        if k != key {
            assert(records[k].wf());
        } else if is_banned(records, key, now) || granted {
            assert(records[k].wf());
        }
    }
}

/// While every request of a client gets a token from its bucket, every one
/// is allowed, unless the client is banned when the first arrives.
pub proof fn law_requests_with_tokens_are_allowed(
    records: Records,
    key: AddrKey,
    requests: Seq<(u128, bool)>,
)
    requires
        requests.len() > 0 ==> !is_banned(records, key, requests[0].0),
        forall|i: int| 0 <= i < requests.len() ==> (#[trigger] requests[i]).1,
    ensures
        admissions_of(records, key, requests).len() == requests.len(),
        forall|i: int|
            0 <= i < requests.len() ==> #[trigger] admissions_of(records, key, requests)[i]
                == Admission::Allowed,
    decreases requests.len(),
{
    if requests.len() > 0 {
        assert(requests[0].1);
        let next = records_after(records, key, requests[0].0, requests[0].1);
        let rest = requests.drop_first();
        assert(!holds_ban(next, key));
        assert forall|i: int| 0 <= i < rest.len() implies (#[trigger] rest[i]).1 by {
            assert(requests[i + 1].1);
        }
        law_requests_with_tokens_are_allowed(next, key, rest);
        assert forall|i: int| 0 <= i < requests.len() implies #[trigger] admissions_of(
            records,
            key,
            requests,
        )[i] == Admission::Allowed by {
            if i > 0 {
                assert(admissions_of(records, key, requests)[i] == admissions_of(next, key, rest)[i
                    - 1]);
            }
        }
    }
}

/// Once a client is banned, every request that arrives before the ban ends
/// is answered with `Banned`, whatever its bucket holds, and changes
/// nothing.
pub proof fn law_banned_until_expiry(records: Records, key: AddrKey, requests: Seq<(u128, bool)>)
    requires
        holds_ban(records, key),
        forall|i: int|
            0 <= i < requests.len() ==> (#[trigger] requests[i]).0 < records[key].ban_expiry()->0,
    ensures
        records_after_all(records, key, requests) == records,
        admissions_of(records, key, requests).len() == requests.len(),
        forall|i: int|
            0 <= i < requests.len() ==> #[trigger] admissions_of(records, key, requests)[i]
                == Admission::Banned,
    decreases requests.len(),
{
    if requests.len() > 0 {
        assert(requests[0].0 < records[key].ban_expiry()->0);
        assert(is_banned(records, key, requests[0].0));
        let rest = requests.drop_first();
        assert forall|i: int| 0 <= i < rest.len() implies (#[trigger] rest[i]).0
            < records[key].ban_expiry()->0 by {
            assert(requests[i + 1].0 < records[key].ban_expiry()->0);
        }
        law_banned_until_expiry(records, key, rest);
        assert forall|i: int| 0 <= i < requests.len() implies #[trigger] admissions_of(
            records,
            key,
            requests,
        )[i] == Admission::Banned by {
            if i > 0 {
                assert(admissions_of(records, key, requests)[i] == admissions_of(
                    records,
                    key,
                    rest,
                )[i - 1]);
            }
        }
    }
}

/// From the moment a ban ends, the next request of the client is judged as
/// that of a client without a record: allowed with a token, and a first
/// violation without one.
pub proof fn law_fresh_after_expiry(records: Records, key: AddrKey, now: u128, granted: bool)
    requires
        holds_ban(records, key),
        now >= records[key].ban_expiry()->0,
    ensures
        admission_of(records, key, now, granted) == admission_of(
            records.remove(key),
            key,
            now,
            granted,
        ),
        records_after(records, key, now, granted) == records_after(
            records.remove(key),
            key,
            now,
            granted,
        ),
        admission_of(records, key, now, granted) == if granted {
            Admission::Allowed
        } else {
            Admission::RateLimited
        },
        !holds_ban(records_after(records, key, now, granted), key),
{
    let fresh = records.remove(key);
    assert(lift_ended_ban(records, key, now) == fresh);
    assert(lift_ended_ban(fresh, key, now) == fresh);
}

/// The third violation in a row bans: a client without a record that is
/// refused a token three times is rate limited twice and then banned, for
/// `BAN_NANOS` from the third refusal.
pub proof fn law_third_violation_bans(records: Records, key: AddrKey, t1: u128, t2: u128, t3: u128)
    requires
        !records.dom().contains(key),
    ensures
        admissions_of(records, key, seq![(t1, false), (t2, false), (t3, false)]) == seq![
            Admission::RateLimited,
            Admission::RateLimited,
            Admission::Banned,
        ],
        record_of(records_after_all(records, key, seq![(t1, false), (t2, false), (t3, false)]), key)
            == Some(
            ClientRecord { violations: MAX_VIOLATIONS, first_violation: t1, banned_at: Some(t3) },
        ),
        records_after_all(records, key, seq![(t1, false), (t2, false), (t3, false)])[key].ban_expiry()
            == Some(t3 + BAN_NANOS),
{
    let r0 = seq![(t1, false), (t2, false), (t3, false)];
    let r1 = r0.drop_first();
    let r2 = r1.drop_first();
    let r3 = r2.drop_first();
    let s1 = records_after(records, key, t1, false);
    let s2 = records_after(s1, key, t2, false);
    let s3 = records_after(s2, key, t3, false);
    assert(r1 =~= seq![(t2, false), (t3, false)]);
    assert(r2 =~= seq![(t3, false)]);
    assert(r3 =~= Seq::<(u128, bool)>::empty());
    assert(record_of(s1, key) == Some(
        ClientRecord { violations: 1, first_violation: t1, banned_at: None },
    ));
    assert(record_of(s2, key) == Some(
        ClientRecord { violations: 2, first_violation: t1, banned_at: None },
    ));
    assert(record_of(s3, key) == Some(
        ClientRecord { violations: 3, first_violation: t1, banned_at: Some(t3) },
    ));
    assert(admissions_of(s3, key, r3) =~= Seq::<Admission>::empty());
    assert(admissions_of(s2, key, r2) =~= seq![Admission::Banned]);
    assert(admissions_of(s1, key, r1) =~= seq![Admission::RateLimited, Admission::Banned]);
    assert(admissions_of(records, key, r0) =~= seq![
        Admission::RateLimited,
        Admission::RateLimited,
        Admission::Banned,
    ]);
    assert(records_after_all(s3, key, r3) == s3);
    assert(records_after_all(s2, key, r2) == s3);
    assert(records_after_all(s1, key, r1) == s3);
}

/// After `cleanup` at `now` exactly the clients that are banned at `now` have
/// a record, the one they had; how long ago the violations of the others
/// were makes no difference.
pub proof fn law_cleanup_keeps_bans_only(records: Records, now: u128)
    ensures
        forall|key: AddrKey|
            #[trigger] banned_only(records, now).dom().contains(key) <==> is_banned(
                records,
                key,
                now,
            ),
        forall|key: AddrKey|
            is_banned(records, key, now) ==> #[trigger] banned_only(records, now)[key]
                == records[key],
        all_wf(records) ==> all_wf(banned_only(records, now)),
{
    if all_wf(records) {
        assert forall|key: AddrKey| banned_only(records, now).dom().contains(key) implies (
        #[trigger] banned_only(records, now)[key]).wf() by {
            assert(records[key].wf());
        }
    }
}

} // verus!
