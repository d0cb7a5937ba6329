use wardent::admission::{Admission, ClientAddr};
use wardent::config::{
    Config, ErrorRedirects, FilterConfig, LimitsConfig, ProxyConfig, RateLimitConfig, ServerConfig,
};
use wardent::filter::Filter;
use wardent::http::{Header, Response};
use wardent::pipeline::{first_step, handle_request, user_agent};
use wardent::rejection::Rejection;
use wardent::proxy::{ForwardStep, RequestHead};
use wardent::ratelimit::RateLimit;

fn config() -> Config {
    Config {
        server: ServerConfig { listen_addr: "127.0.0.1:8080".to_string() },
        proxy: ProxyConfig { upstream: "http://127.0.0.1:8000".to_string() },
        limits: LimitsConfig { max_body_size: 100, default_timeout_secs: 30 },
        rate_limit: RateLimitConfig { requests_per_minute: 1, burst_size: 2 },
        filter: FilterConfig {
            blocked_user_agents: vec!["BadBot".to_string()],
            redirect_url: "/bots".to_string(),
        },
        error_redirects: ErrorRedirects {
            rate_limited: "/errors/429".to_string(),
            banned: "/errors/banned".to_string(),
            body_too_large: "/errors/413".to_string(),
            timeout: "/errors/504".to_string(),
            bad_gateway: "/errors/502".to_string(),
        },
        timeout_override: vec![],
    }
}

fn header(name: &str, value: &str) -> Header {
    Header { name: name.as_bytes().to_vec(), value: value.as_bytes().to_vec() }
}

fn request(headers: Vec<Header>) -> RequestHead {
    RequestHead {
        method: "POST".to_string(),
        path: "/form".to_string(),
        path_and_query: Some("/form".to_string()),
        headers,
    }
}

fn rejected(reason: Rejection, status: u16, location: &str) -> ForwardStep {
    ForwardStep::Reject {
        reason,
        response: Response {
            status,
            headers: vec![header("Location", location), header("Content-Length", "0")],
            body: vec![],
        },
    }
}

fn read_body() -> ForwardStep {
    ForwardStep::ReadBody { timeout_secs: 30 }
}

#[test]
fn the_user_agent_is_the_first_header_of_that_name() {
    assert_eq!(user_agent(&request(vec![header("User-Agent", "curl/8")])), Some("curl/8"));
    assert_eq!(
        user_agent(&request(vec![header("host", "h"), header("user-agent", "a"), header("user-agent", "b")])),
        Some("a")
    );
    assert_eq!(user_agent(&request(vec![header("host", "h")])), None);
    assert_eq!(user_agent(&request(vec![])), None);
}

#[test]
fn a_user_agent_that_is_no_text_counts_as_absent() {
    let opaque = Header { name: b"user-agent".to_vec(), value: b"BadBot\xff".to_vec() };
    assert_eq!(user_agent(&request(vec![opaque.clone()])), None);
    let config = config();
    let filter = Filter::new(&config.filter);
    assert_eq!(first_step(Admission::Allowed, &filter, &config, &request(vec![opaque])), read_body());
    let hidden = request(vec![
        Header { name: b"user-agent".to_vec(), value: b"\x01".to_vec() },
        header("user-agent", "BadBot"),
    ]);
    assert_eq!(first_step(Admission::Allowed, &filter, &config, &hidden), read_body());
}

#[test]
fn the_rate_limiter_answers_before_the_filter() {
    let config = config();
    let filter = Filter::new(&config.filter);
    let bot = request(vec![header("user-agent", "BadBot/1.0")]);
    assert_eq!(
        first_step(Admission::RateLimited, &filter, &config, &bot),
        rejected(Rejection::RateLimited, 302, "/errors/429")
    );
    assert_eq!(
        first_step(Admission::Banned, &filter, &config, &bot),
        rejected(Rejection::Banned, 302, "/errors/banned")
    );
    assert_eq!(
        first_step(Admission::Allowed, &filter, &config, &bot),
        rejected(Rejection::AgentBlocked, 301, "/bots")
    );
    let browser = request(vec![header("user-agent", "Firefox")]);
    assert_eq!(first_step(Admission::Allowed, &filter, &config, &browser), read_body());
    assert_eq!(
        first_step(Admission::Banned, &filter, &config, &browser),
        rejected(Rejection::Banned, 302, "/errors/banned")
    );
}

#[test]
fn a_rejected_request_is_not_forwarded() {
    let config = config();
    let filter = Filter::new(&config.filter);
    let bot = request(vec![header("user-agent", "badbot"), header("content-length", "5")]);
    assert_eq!(
        first_step(Admission::Allowed, &filter, &config, &bot),
        rejected(Rejection::AgentBlocked, 301, "/bots")
    );
    assert_eq!(
        first_step(Admission::RateLimited, &filter, &config, &bot),
        rejected(Rejection::RateLimited, 302, "/errors/429")
    );
    let large = request(vec![header("user-agent", "badbot"), header("content-length", "500")]);
    assert_eq!(
        first_step(Admission::Banned, &filter, &config, &large),
        rejected(Rejection::Banned, 302, "/errors/banned")
    );
    assert_eq!(
        first_step(Admission::Allowed, &filter, &config, &large),
        rejected(Rejection::AgentBlocked, 301, "/bots")
    );
}

#[test]
fn the_filter_answers_with_its_own_address() {
    let config = config();
    let filter = Filter::new(&FilterConfig {
        blocked_user_agents: vec!["curl".to_string()],
        redirect_url: "/elsewhere".to_string(),
    });
    let curl = request(vec![header("user-agent", "curl/8")]);
    assert_eq!(
        first_step(Admission::Allowed, &filter, &config, &curl),
        rejected(Rejection::AgentBlocked, 301, "/elsewhere")
    );
    let bot = request(vec![header("user-agent", "BadBot")]);
    assert_eq!(first_step(Admission::Allowed, &filter, &config, &bot), read_body());
}

#[test]
fn an_admitted_request_starts_forwarding() {
    let config = config();
    let filter = Filter::new(&config.filter);
    let browser = request(vec![header("user-agent", "Firefox"), header("content-length", "5")]);
    assert_eq!(first_step(Admission::Allowed, &filter, &config, &browser), read_body());
    let anonymous = request(vec![]);
    assert_eq!(first_step(Admission::Allowed, &filter, &config, &anonymous), read_body());
    let large = request(vec![header("content-length", "101")]);
    assert_eq!(
        first_step(Admission::Allowed, &filter, &config, &large),
        rejected(Rejection::BodyTooLarge, 302, "/errors/413")
    );
}

#[test]
fn requests_pass_the_stages_in_order() {
    let config = config();
    let filter = Filter::new(&config.filter);
    let mut limiter = RateLimit::new(&config.rate_limit);
    let client = ClientAddr { v6: false, bits: 0x0a00_0001 };
    let bot = request(vec![header("user-agent", "BadBot")]);
    let browser = request(vec![header("user-agent", "Firefox")]);
    assert_eq!(handle_request(&mut limiter, &filter, &config, client, &browser), read_body());
    assert_eq!(
        handle_request(&mut limiter, &filter, &config, client, &bot),
        rejected(Rejection::AgentBlocked, 301, "/bots")
    );
    assert_eq!(
        handle_request(&mut limiter, &filter, &config, client, &bot),
        rejected(Rejection::RateLimited, 302, "/errors/429")
    );
    assert_eq!(
        handle_request(&mut limiter, &filter, &config, client, &browser),
        rejected(Rejection::RateLimited, 302, "/errors/429")
    );
    assert_eq!(
        handle_request(&mut limiter, &filter, &config, client, &browser),
        rejected(Rejection::Banned, 302, "/errors/banned")
    );
    let other = ClientAddr { v6: false, bits: 0x0a00_0002 };
    assert_eq!(handle_request(&mut limiter, &filter, &config, other, &browser), read_body());
}
