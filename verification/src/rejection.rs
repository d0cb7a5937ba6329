//! Why the gateway turns a request away, and the redirect that each reason
//! is answered with. The client never sees an error status.

use vstd::prelude::*;
use crate::config::Config;
use crate::http::{redirect_view, redirect_with_status, Response, ResponseView, FOUND, MOVED_PERMANENTLY};

verus! {

/// The reason for which a request is not answered by the origin.
#[derive(Clone, Copy, Debug, PartialEq, Eq)]
pub enum Rejection {
    /// The client's bucket is empty.
    RateLimited,
    /// The client is banned.
    Banned,
    /// The client's user agent is on the blocklist.
    AgentBlocked,
    /// The body is longer than the limit, as declared or as read.
    BodyTooLarge,
    /// Reading the body took longer than the timeout.
    ReadTimeout,
    /// Reading the body failed.
    ReadError,
    /// The target of the upstream request is no well-formed URI.
    MalformedUpstreamUri,
    /// The origin took longer than the timeout.
    UpstreamTimeout,
    /// The request could not be sent, or the response not be read.
    UpstreamSendError,
}

impl Rejection {
    /// The status of the redirect: permanent for a blocked user agent,
    /// temporary for everything else.
    pub open spec fn status(self) -> u16 {
        if self == Rejection::AgentBlocked {
            MOVED_PERMANENTLY
        } else {
            FOUND
        }
    }

    /// Where `config` sends a request that is rejected for this reason.
    pub open spec fn location(self, config: &Config) -> Seq<char> {
        match self {
            Rejection::RateLimited => config.error_redirects.rate_limited@,
            Rejection::Banned => config.error_redirects.banned@,
            Rejection::AgentBlocked => config.filter.redirect_url@,
            Rejection::BodyTooLarge => config.error_redirects.body_too_large@,
            Rejection::ReadTimeout => config.error_redirects.timeout@,
            Rejection::UpstreamTimeout => config.error_redirects.timeout@,
            Rejection::ReadError => config.error_redirects.bad_gateway@,
            Rejection::MalformedUpstreamUri => config.error_redirects.bad_gateway@,
            Rejection::UpstreamSendError => config.error_redirects.bad_gateway@,
        }
    }

    /// The redirect that answers a request rejected for this reason.
    pub open spec fn response_view(self, config: &Config) -> ResponseView {
        redirect_view(self.status(), self.location(config))
    }

    /// Builds the redirect that answers a request rejected for this reason.
    pub fn response(self, config: &Config) -> (r: Response)
        ensures
            r@ == self.response_view(config),
    {
        match self {
            Rejection::RateLimited => redirect_with_status(
                FOUND,
                config.error_redirects.rate_limited.as_str(),
            ),
            Rejection::Banned => redirect_with_status(FOUND, config.error_redirects.banned.as_str()),
            Rejection::AgentBlocked => redirect_with_status(
                MOVED_PERMANENTLY,
                config.filter.redirect_url.as_str(),
            ),
            Rejection::BodyTooLarge => redirect_with_status(
                FOUND,
                config.error_redirects.body_too_large.as_str(),
            ),
            Rejection::ReadTimeout | Rejection::UpstreamTimeout => redirect_with_status(
                FOUND,
                config.error_redirects.timeout.as_str(),
            ),
            Rejection::ReadError
            | Rejection::MalformedUpstreamUri
            | Rejection::UpstreamSendError => redirect_with_status(
                FOUND,
                config.error_redirects.bad_gateway.as_str(),
            ),
        }
    }
}

} // verus!
