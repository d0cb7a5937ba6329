//! The stages that every request passes, in their fixed order: the rate
//! limiter, the user-agent filter, and then the way to the origin. The first
//! stage that turns the request away answers it.

use vstd::prelude::*;
use vstd::string::*;
use crate::admission::{Admission, ClientAddr};
use crate::config::Config;
use crate::filter::Filter;
use crate::headers::{find_header, header_text, read_text};
use crate::http::{header_views, HeaderView};
use crate::proxy::{begin, reject, ForwardStep, RequestHead};
use crate::rejection::Rejection;
use crate::ratelimit::RateLimit;

verus! {

/// The user agent that a request declares: the text of its first
/// `user-agent` header.
pub open spec fn declared_user_agent(headers: Seq<HeaderView>) -> Option<Seq<char>> {
    header_text(headers, "user-agent".spec_bytes())
}

/// Reads the user agent that a request declares.
pub fn user_agent<'a>(head: &'a RequestHead) -> (r: Option<&'a str>)
    ensures
        match r {
            Some(text) => declared_user_agent(header_views(head.headers@)) == Some(text@),
            None => declared_user_agent(header_views(head.headers@)) is None,
        },
{
    match find_header(&head.headers, "user-agent".as_bytes()) {
        Some(value) => read_text(value.as_slice()),
        None => None,
    }
}

/// The filter's blocklist matches the user agent that the request declares.
pub open spec fn agent_is_blocked(filter: &Filter, head: &RequestHead) -> bool {
    match declared_user_agent(header_views(head.headers@)) {
        Some(user_agent) => filter.blocks(user_agent),
        None => false,
    }
}

/// The reason for which the rate limiter turned a request away, if it did.
pub open spec fn admission_rejection(admission: Admission) -> Option<Rejection> {
    match admission {
        Admission::Allowed => None,
        Admission::RateLimited => Some(Rejection::RateLimited),
        Admission::Banned => Some(Rejection::Banned),
    }
}

/// The first step for a request, for the answer that the rate limiter gave.
/// A request that the limiter turned away gets its redirect, and the filter
/// is not asked. Of the others, one with a blocked user agent gets the
/// filter's redirect. What is left is forwarded: see `begin`.
pub open spec fn is_first_step_of(
    step: ForwardStep,
    admission: Admission,
    filter: &Filter,
    config: &Config,
    head: &RequestHead,
) -> bool {
    if admission != Admission::Allowed {
        step.rejects(admission_rejection(admission)->0, config)
    } else if agent_is_blocked(filter, head) {
        &&& step matches ForwardStep::Reject { reason, response }
        &&& reason == Rejection::AgentBlocked
        &&& filter.answers(true, Some(response))
    } else if head.declares_too_much(config.limits.max_body_size) {
        step.rejects(Rejection::BodyTooLarge, config)
    } else {
        step == (ForwardStep::ReadBody {
            timeout_secs: config.spec_timeout_for_path(head.path@),
        })
    }
}

/// The first step for a request that the rate limiter has answered: a
/// request that an earlier stage turned away is never forwarded.
pub fn first_step(admission: Admission, filter: &Filter, config: &Config, head: &RequestHead) -> (step:
    ForwardStep)
    ensures
        is_first_step_of(step, admission, filter, config, head),
{
    match admission {
        Admission::RateLimited => reject(Rejection::RateLimited, config),
        Admission::Banned => reject(Rejection::Banned, config),
        Admission::Allowed => match filter.check_user_agent(user_agent(head)) {
            Some(response) => ForwardStep::Reject { reason: Rejection::AgentBlocked, response },
            None => begin(head, config),
        },
    }
}

/// Takes a request through the stages up to its first step: the rate limiter
/// at the present time, the filter, and the start of forwarding.
pub fn handle_request(
    limiter: &mut RateLimit,
    filter: &Filter,
    config: &Config,
    ip: ClientAddr,
    head: &RequestHead,
) -> (step: ForwardStep)
    requires
        old(limiter).wf(),
    ensures
        final(limiter).wf(),
        final(limiter).quota() == old(limiter).quota(),
        exists|now: u128, granted: bool, admission: Admission|
            {
                &&& #[trigger] final(limiter).admitted_with(
                    old(limiter),
                    ip,
                    now,
                    granted,
                    admission,
                )
                &&& is_first_step_of(step, admission, filter, config, head)
            },
{
    let admission = limiter.admit_now(ip);
    first_step(admission, filter, config, head)
}

} // verus!
