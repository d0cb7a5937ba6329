//! Forwarding one request to the upstream origin, as a sequence of steps.
//!
//! The gateway reads the request body and talks to the origin; the functions
//! here decide what it does next from what happened so far. Every failure
//! ends in a redirect, never in an error status.

use vstd::prelude::*;
use vstd::string::*;
use crate::config::Config;
use crate::headers::{declared_length, lower_bytes, name_is, name_matches, read_declared_length};
use crate::http::{encode_text, header_views, Header, HeaderView, Response};
use crate::rejection::Rejection;
use crate::text::{trim_end_slashes, trim_trailing};

verus! {

/// What the gateway knows of a request before it reads the body.
#[derive(Debug, Clone, PartialEq, Eq)]
pub struct RequestHead {
    pub method: String,
    /// The path of the request target, without the query.
    pub path: String,
    /// Path and query of the request target, where it has a path.
    pub path_and_query: Option<String>,
    pub headers: Vec<Header>,
}

/// The request that goes to the origin.
#[derive(Debug, Clone, PartialEq, Eq)]
pub struct UpstreamRequest {
    pub method: String,
    pub target: String,
    pub headers: Vec<Header>,
    pub body: Vec<u8>,
}

/// What the gateway does next.
#[derive(Debug, Clone, PartialEq, Eq)]
pub enum ForwardStep {
    /// Read the whole request body, giving up after `timeout_secs`.
    ReadBody { timeout_secs: u64 },
    /// Send `request` to the origin and read the whole response, giving up
    /// after `timeout_secs`.
    SendUpstream { request: UpstreamRequest, timeout_secs: u64 },
    /// Answer the client with the response of the origin.
    Respond { response: Response },
    /// Answer the client with the redirect for the reason given.
    Reject { reason: Rejection, response: Response },
}

/// How reading the request body ended.
#[derive(Debug, Clone, PartialEq, Eq)]
pub enum BodyOutcome {
    Complete { body: Vec<u8> },
    ReadFailed,
    TimedOut,
}

/// How the exchange with the origin ended.
#[derive(Debug, Clone, PartialEq, Eq)]
pub enum UpstreamOutcome {
    Responded { response: Response },
    Failed,
    TimedOut,
}

/// A header that belongs to one connection and is not passed on.
pub open spec fn is_hop_by_hop(name: Seq<u8>) -> bool {
    ||| name_is(name, "connection".spec_bytes())
    ||| name_is(name, "keep-alive".spec_bytes())
    ||| name_is(name, "transfer-encoding".spec_bytes())
    ||| name_is(name, "te".spec_bytes())
    ||| name_is(name, "trailer".spec_bytes())
    ||| name_is(name, "upgrade".spec_bytes())
}

/// The header that names the client to the origin.
pub open spec fn forwarded_for(client_ip: Seq<char>) -> HeaderView {
    HeaderView { name: "X-Forwarded-For".spec_bytes(), value: encode_text(client_ip) }
}

/// The header that names the client's scheme to the origin: always `https`.
pub open spec fn forwarded_proto() -> HeaderView {
    HeaderView { name: "X-Forwarded-Proto".spec_bytes(), value: "https".spec_bytes() }
}

/// The headers of the upstream request: those of the client that are not
/// hop-by-hop, in their order and unchanged, then the two forwarding headers.
pub open spec fn forwarded_headers(headers: Seq<HeaderView>, client_ip: Seq<char>) -> Seq<
    HeaderView,
> {
    headers.filter(|h: HeaderView| !is_hop_by_hop(h.name)).push(forwarded_for(client_ip)).push(
        forwarded_proto(),
    )
}

/// The target of the upstream request: the upstream base without the slashes
/// at its end, then path and query of the request, or `/` where it has none.
pub open spec fn upstream_target(upstream: Seq<char>, path_and_query: Option<Seq<char>>) -> Seq<
    char,
> {
    trim_trailing(upstream, '/') + match path_and_query {
        Some(pq) => pq,
        None => "/"@,
    }
}

/// Whether the URI parser of the HTTP library accepts `text`.
pub uninterp spec fn uri_parses(text: Seq<char>) -> bool;

/// `hyper::Uri`'s `FromStr`: whether `text` parses as a URI.
#[verifier::external_body]
fn parses_as_uri(text: &str) -> (ok: bool)
    ensures
        ok == uri_parses(text@),
{
    text.parse::<hyper::Uri>().is_ok()
}

/// The two forwarding headers are not hop-by-hop headers.
proof fn lemma_forwarding_names_pass()
    ensures
        !is_hop_by_hop("X-Forwarded-For".spec_bytes()),
        !is_hop_by_hop("X-Forwarded-Proto".spec_bytes()),
{
    reveal_strlit("X-Forwarded-For");
    reveal_strlit("X-Forwarded-Proto");
    reveal_strlit("connection");
    reveal_strlit("keep-alive");
    reveal_strlit("transfer-encoding");
    reveal_strlit("te");
    reveal_strlit("trailer");
    reveal_strlit("upgrade");
    vstd::utf8::is_ascii_chars_encode_utf8("X-Forwarded-For"@);
    vstd::utf8::is_ascii_chars_encode_utf8("X-Forwarded-Proto"@);
    vstd::utf8::is_ascii_chars_encode_utf8("connection"@);
    vstd::utf8::is_ascii_chars_encode_utf8("keep-alive"@);
    vstd::utf8::is_ascii_chars_encode_utf8("transfer-encoding"@);
    vstd::utf8::is_ascii_chars_encode_utf8("te"@);
    vstd::utf8::is_ascii_chars_encode_utf8("trailer"@);
    vstd::utf8::is_ascii_chars_encode_utf8("upgrade"@);
    let xff = "X-Forwarded-For".spec_bytes();
    let xfp = "X-Forwarded-Proto".spec_bytes();
    assert(lower_bytes(xff).len() == 15);
    assert(lower_bytes(xfp).len() == 17);
    assert(lower_bytes(xfp)[0] == 120);
    assert("transfer-encoding".spec_bytes()[0] == 116);
}

/// What goes to the origin never holds a hop-by-hop header, ends with the two
/// forwarding headers, and holds every other header of the client.
pub proof fn law_forwarded_headers(headers: Seq<HeaderView>, client_ip: Seq<char>)
    ensures
        forall|i: int|
            0 <= i < forwarded_headers(headers, client_ip).len() ==> !is_hop_by_hop(
                #[trigger] forwarded_headers(headers, client_ip)[i].name,
            ),
        forwarded_headers(headers, client_ip).len() >= 2,
        forwarded_headers(headers, client_ip)[forwarded_headers(headers, client_ip).len() - 2]
            == forwarded_for(client_ip),
        forwarded_headers(headers, client_ip).last() == forwarded_proto(),
        forall|i: int|
            0 <= i < headers.len() && !is_hop_by_hop(#[trigger] headers[i].name)
                ==> forwarded_headers(headers, client_ip).contains(headers[i]),
{
    let keep = |h: HeaderView| !is_hop_by_hop(h.name);
    let kept = headers.filter(keep);
    let out = forwarded_headers(headers, client_ip);
    lemma_forwarding_names_pass();
    assert forall|i: int| 0 <= i < out.len() implies !is_hop_by_hop(#[trigger] out[i].name) by {
        if i < kept.len() {
            headers.lemma_filter_pred(keep, i);
        }
    }
    assert forall|i: int|
        0 <= i < headers.len() && !is_hop_by_hop(#[trigger] headers[i].name) implies out.contains(
        headers[i],
    ) by {
        headers.lemma_filter_contains(keep, i);
        let j = choose|j: int| 0 <= j < kept.len() && kept[j] == headers[i];
        assert(out[j] == headers[i]);
    }
}

impl RequestHead {
    /// The request declares a body longer than `max_body_size`.
    pub open spec fn declares_too_much(&self, max_body_size: u64) -> bool {
        match declared_length(header_views(self.headers@)) {
            Some(n) => n > max_body_size,
            None => false,
        }
    }

    /// The text of path and query, where the request has them.
    pub open spec fn path_and_query_text(&self) -> Option<Seq<char>> {
        match self.path_and_query {
            Some(pq) => Some(pq@),
            None => None,
        }
    }
}

impl UpstreamRequest {
    /// The request relays `head` and `body` to `target` on behalf of
    /// `client_ip`: same method, rewritten headers, same body.
    pub open spec fn relays(
        &self,
        head: &RequestHead,
        target: Seq<char>,
        client_ip: Seq<char>,
        body: Seq<u8>,
    ) -> bool {
        &&& self.method@ == head.method@
        &&& self.target@ == target
        &&& header_views(self.headers@) == forwarded_headers(
            header_views(head.headers@),
            client_ip,
        )
        &&& self.body@ == body
    }
}

impl ForwardStep {
    /// The step turns the request away for `reason`, with the redirect that
    /// `config` has for it.
    pub open spec fn rejects(&self, reason: Rejection, config: &Config) -> bool {
        &&& self matches ForwardStep::Reject { reason: given, response }
        &&& given == reason
        &&& response@ == reason.response_view(config)
    }

    /// The step after a body of acceptable size: the upstream request where
    /// the target is a well-formed URI, else the bad-gateway redirect.
    pub open spec fn is_dispatch_of(
        &self,
        head: &RequestHead,
        config: &Config,
        client_ip: Seq<char>,
        body: Seq<u8>,
        target: Seq<char>,
        target_ok: bool,
    ) -> bool {
        if target_ok {
            &&& self matches ForwardStep::SendUpstream { request, timeout_secs }
            &&& request.relays(head, target, client_ip, body)
            &&& timeout_secs == config.spec_timeout_for_path(head.path@)
        } else {
            self.rejects(Rejection::MalformedUpstreamUri, config)
        }
    }
}

/// Turns a request away.
pub fn reject(reason: Rejection, config: &Config) -> (step: ForwardStep)
    ensures
        step.rejects(reason, config),
{
    ForwardStep::Reject { reason, response: reason.response(config) }
}

fn is_hop_by_hop_name(name: &[u8]) -> (b: bool)
    ensures
        b == is_hop_by_hop(name@),
{
    name_matches(name, "connection".as_bytes()) || name_matches(name, "keep-alive".as_bytes())
        || name_matches(name, "transfer-encoding".as_bytes()) || name_matches(
        name,
        "te".as_bytes(),
    ) || name_matches(name, "trailer".as_bytes()) || name_matches(name, "upgrade".as_bytes())
}

/// Rewrites the client's headers for the origin.
pub fn rewrite_headers(headers: &Vec<Header>, client_ip: &str) -> (out: Vec<Header>)
    ensures
        header_views(out@) == forwarded_headers(header_views(headers@), client_ip@),
{
    let ghost keep = |h: HeaderView| !is_hop_by_hop(h.name);
    let ghost all = header_views(headers@);
    let mut out: Vec<Header> = Vec::new();
    let mut i: usize = 0;
    proof {
        assert(all.take(0) =~= Seq::<HeaderView>::empty());
        assert(all.take(0).filter(keep) =~= Seq::<HeaderView>::empty()) by {
            reveal(Seq::filter);
        }
        assert(header_views(out@) =~= Seq::<HeaderView>::empty());
    }
    while i < headers.len()
        invariant
            i <= headers.len(),
            all == header_views(headers@),
            keep == (|h: HeaderView| !is_hop_by_hop(h.name)),
            header_views(out@) == all.take(i as int).filter(keep),
        decreases headers.len() - i,
    {
        let h = &headers[i];
        proof {
            assert(all.take(i as int + 1) =~= all.take(i as int).push(h@));
            all.take(i as int).lemma_filter_push(h@, keep);
        }
        if !is_hop_by_hop_name(h.name.as_slice()) {
            let copy = Header { name: h.name.clone(), value: h.value.clone() };
            assert(copy@ == h@);
            let ghost before = out@;
            out.push(copy);
            assert(header_views(out@) =~= header_views(before).push(copy@));
        }
        i += 1;
    }
    assert(all.take(i as int) =~= all);
    let ghost kept = out@;
    let xff = Header { name: "X-Forwarded-For".as_bytes_vec(), value: client_ip.as_bytes_vec() };
    let xfp = Header { name: "X-Forwarded-Proto".as_bytes_vec(), value: "https".as_bytes_vec() };
    out.push(xff);
    out.push(xfp);
    assert(header_views(out@) =~= header_views(kept).push(forwarded_for(client_ip@)).push(
        forwarded_proto(),
    ));
    out
}

/// Builds the target of the upstream request.
pub fn build_target(upstream: &str, path_and_query: &Option<String>) -> (target: String)
    ensures
        target@ == upstream_target(
            upstream@,
            match path_and_query {
                Some(pq) => Some(pq@),
                None => None,
            },
        ),
{
    let mut target: String = trim_end_slashes(upstream).to_owned();
    match path_and_query {
        Some(pq) => target.append(pq.as_str()),
        None => target.append("/"),
    }
    target
}

/// The first step for a request: a request that declares a body over the
/// limit is turned away before any of the body is read; every other request
/// has its body read, within the timeout of its path.
pub fn begin(head: &RequestHead, config: &Config) -> (step: ForwardStep)
    ensures
        head.declares_too_much(config.limits.max_body_size) ==> step.rejects(
            Rejection::BodyTooLarge,
            config,
        ),
        !head.declares_too_much(config.limits.max_body_size) ==> step == (ForwardStep::ReadBody {
            timeout_secs: config.spec_timeout_for_path(head.path@),
        }),
{
    match read_declared_length(&head.headers) {
        Some(n) => {
            if n > config.limits.max_body_size {
                return reject(Rejection::BodyTooLarge, config);
            }
        },
        None => {},
    }
    ForwardStep::ReadBody { timeout_secs: config.timeout_for_path(head.path.as_str()) }
}

/// The step after the target was checked: the request for the origin, with
/// the same timeout as the body had, or the bad-gateway redirect.
pub fn dispatch(
    head: &RequestHead,
    config: &Config,
    client_ip: &str,
    body: Vec<u8>,
    target: String,
    target_ok: bool,
) -> (step: ForwardStep)
    ensures
        step.is_dispatch_of(head, config, client_ip@, body@, target@, target_ok),
{
    if !target_ok {
        return reject(Rejection::MalformedUpstreamUri, config);
    }
    let request = UpstreamRequest {
        method: head.method.clone(),
        target,
        headers: rewrite_headers(&head.headers, client_ip),
        body,
    };
    ForwardStep::SendUpstream {
        request,
        timeout_secs: config.timeout_for_path(head.path.as_str()),
    }
}

/// The step after the body was read, or was not. A body over the limit is
/// turned away whatever the request declared; a failed read ends in the
/// bad-gateway redirect and a timeout in the timeout redirect. The origin is
/// contacted in none of these cases. A body within the limit goes to the
/// origin, unless the target is no well-formed URI.
pub fn after_body(head: &RequestHead, config: &Config, client_ip: &str, outcome: BodyOutcome) -> (step:
    ForwardStep)
    ensures
        match outcome {
            BodyOutcome::TimedOut => step.rejects(Rejection::ReadTimeout, config),
            BodyOutcome::ReadFailed => step.rejects(Rejection::ReadError, config),
            BodyOutcome::Complete { body } => if body@.len() > config.limits.max_body_size {
                step.rejects(Rejection::BodyTooLarge, config)
            } else {
                step.is_dispatch_of(
                    head,
                    config,
                    client_ip@,
                    body@,
                    upstream_target(config.proxy.upstream@, head.path_and_query_text()),
                    uri_parses(upstream_target(config.proxy.upstream@, head.path_and_query_text())),
                )
            },
        },
{
    match outcome {
        BodyOutcome::TimedOut => reject(Rejection::ReadTimeout, config),
        BodyOutcome::ReadFailed => reject(Rejection::ReadError, config),
        BodyOutcome::Complete { body } => {
            if body.len() as u64 > config.limits.max_body_size {
                return reject(Rejection::BodyTooLarge, config);
            }
            let target = build_target(config.proxy.upstream.as_str(), &head.path_and_query);
            let target_ok = parses_as_uri(target.as_str());
            dispatch(head, config, client_ip, body, target, target_ok)
        },
    }
}

/// The last step, after the exchange with the origin: the origin's response
/// as it came, the bad-gateway redirect after a failure, the timeout redirect
/// after a timeout.
pub fn after_upstream(config: &Config, outcome: UpstreamOutcome) -> (step: ForwardStep)
    ensures
        match outcome {
            UpstreamOutcome::Responded { response } => step == (ForwardStep::Respond { response }),
            UpstreamOutcome::Failed => step.rejects(Rejection::UpstreamSendError, config),
            UpstreamOutcome::TimedOut => step.rejects(Rejection::UpstreamTimeout, config),
        },
{
    match outcome {
        UpstreamOutcome::Responded { response } => ForwardStep::Respond { response },
        UpstreamOutcome::Failed => reject(Rejection::UpstreamSendError, config),
        UpstreamOutcome::TimedOut => reject(Rejection::UpstreamTimeout, config),
    }
}

} // verus!
