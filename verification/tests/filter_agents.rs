use wardent::config::FilterConfig;
use wardent::filter::{build_patterns, Filter};
use wardent::http::{Header, Response};

fn filter_for(agents: Vec<&str>, redirect_url: &str) -> Filter {
    let config = FilterConfig {
        blocked_user_agents: agents.into_iter().map(|a| a.to_string()).collect(),
        redirect_url: redirect_url.to_string(),
    };
    Filter::try_new(&config).expect("the blocklist compiles")
}

fn moved_to(location: &str) -> Response {
    Response {
        status: 301,
        headers: vec![
            Header { name: b"Location".to_vec(), value: location.as_bytes().to_vec() },
            Header { name: b"Content-Length".to_vec(), value: b"0".to_vec() },
        ],
        body: vec![],
    }
}

#[test]
fn a_request_without_user_agent_passes() {
    let filter = filter_for(vec!["curl", "BadBot"], "https://example.org/bots");
    assert_eq!(filter.check_user_agent(None), None);
}

#[test]
fn a_blocked_user_agent_is_redirected_permanently() {
    let filter = filter_for(vec!["curl", "BadBot"], "https://example.org/bots");
    assert_eq!(
        filter.check_user_agent(Some("curl/8.4.0")),
        Some(moved_to("https://example.org/bots"))
    );
    assert_eq!(
        filter.check_user_agent(Some("Mozilla/5.0 (compatible; BadBot/2.1)")),
        Some(moved_to("https://example.org/bots"))
    );
}

#[test]
fn the_match_ignores_case() {
    let filter = filter_for(vec!["BadBot"], "/bots");
    assert_eq!(filter.check_user_agent(Some("badbot")), Some(moved_to("/bots")));
    assert_eq!(filter.check_user_agent(Some("BADBOT/1.0")), Some(moved_to("/bots")));
    assert_eq!(filter.check_user_agent(Some("xx bAdBoT xx")), Some(moved_to("/bots")));
}

#[test]
fn other_user_agents_pass() {
    let filter = filter_for(vec!["curl", "BadBot"], "/bots");
    assert_eq!(filter.check_user_agent(Some("Mozilla/5.0 (X11; Linux x86_64)")), None);
    assert_eq!(filter.check_user_agent(Some("")), None);
    assert_eq!(filter.check_user_agent(Some("cur l")), None);
    assert_eq!(filter.check_user_agent(Some("Bad Bot")), None);
}

#[test]
fn blocked_agents_are_literal_text() {
    let filter = filter_for(vec!["bot.x", "a+b", "(test)", "c[d]"], "/bots");
    assert_eq!(filter.check_user_agent(Some("botax")), None);
    assert_eq!(filter.check_user_agent(Some("aab")), None);
    assert_eq!(filter.check_user_agent(Some("test")), None);
    assert_eq!(filter.check_user_agent(Some("cd")), None);
    assert_eq!(filter.check_user_agent(Some("my bot.x")), Some(moved_to("/bots")));
    assert_eq!(filter.check_user_agent(Some("A+B")), Some(moved_to("/bots")));
    assert_eq!(filter.check_user_agent(Some("x(TEST)x")), Some(moved_to("/bots")));
    assert_eq!(filter.check_user_agent(Some("c[d]")), Some(moved_to("/bots")));
}

#[test]
fn an_empty_blocklist_blocks_nobody() {
    let filter = filter_for(vec![], "/bots");
    assert_eq!(filter.check_user_agent(Some("curl/8.4.0")), None);
    assert_eq!(filter.check_user_agent(Some("")), None);
    assert_eq!(filter.check_user_agent(None), None);
}

#[test]
fn an_empty_blocked_agent_blocks_every_declared_agent() {
    let filter = filter_for(vec![""], "/bots");
    assert_eq!(filter.check_user_agent(Some("anything")), Some(moved_to("/bots")));
    assert_eq!(filter.check_user_agent(Some("")), Some(moved_to("/bots")));
    assert_eq!(filter.check_user_agent(None), None);
}

#[test]
fn patterns_are_escaped_and_case_insensitive() {
    let agents: Vec<String> = vec![
        "curl".to_string(),
        "bad.bot".to_string(),
        "a+b*c?".to_string(),
        "\\d{2}|[x]^$#&-~()".to_string(),
        "".to_string(),
        "caf\u{e9} %/!\"e".to_string(),
    ];
    assert_eq!(
        build_patterns(&agents),
        vec![
            "(?i)curl".to_string(),
            "(?i)bad\\.bot".to_string(),
            "(?i)a\\+b\\*c\\?".to_string(),
            "(?i)\\\\d\\{2\\}\\|\\[x\\]\\^\\$\\#\\&\\-\\~\\(\\)".to_string(),
            "(?i)".to_string(),
            "(?i)caf\u{e9} %/!\"e".to_string(),
        ]
    );
    assert_eq!(build_patterns(&vec![]), Vec::<String>::new());
}

#[test]
fn new_and_try_new_build_the_same_filter() {
    let config = FilterConfig {
        blocked_user_agents: vec!["Scrapy".to_string()],
        redirect_url: "/no-bots".to_string(),
    };
    let filter = Filter::new(&config);
    assert_eq!(filter.check_user_agent(Some("scrapy/2.11")), Some(moved_to("/no-bots")));
    assert_eq!(filter.check_user_agent(Some("Firefox")), None);
    let other = Filter::try_new(&config).expect("the blocklist compiles");
    assert_eq!(other.check_user_agent(Some("scrapy/2.11")), Some(moved_to("/no-bots")));
    assert_eq!(other.check_user_agent(Some("Firefox")), None);
}

#[test]
fn a_blocklist_too_large_to_compile_is_refused() {
    let config = FilterConfig {
        blocked_user_agents: vec!["k".repeat(400_000)],
        redirect_url: "/bots".to_string(),
    };
    assert!(Filter::try_new(&config).is_none());
}

#[test]
fn the_verdict_follows_the_match() {
    let filter = filter_for(vec!["curl"], "/bots");
    assert_eq!(filter.verdict(true), Some(moved_to("/bots")));
    assert_eq!(filter.verdict(false), None);
}
