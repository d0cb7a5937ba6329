//! The user-agent blocklist: a set of case-insensitive literal patterns,
//! compiled once, that turns matching clients away with a permanent redirect.

use vstd::prelude::*;
use vstd::string::*;
use vstd::pervasive::unreached;
use regex::RegexSet;
use crate::config::FilterConfig;
use crate::http::{redirect_view, redirect_with_status, Response, MOVED_PERMANENTLY};

verus! {

/// `regex::RegexSet`: a set of compiled patterns. Nothing inside it is
/// visible.
#[verifier::external_type_specification]
#[verifier::external_body]
pub struct ExRegexSet(RegexSet);

/// The patterns that a regex set was compiled from, in order.
pub uninterp spec fn set_patterns(set: RegexSet) -> Seq<Seq<char>>;

/// Whether the regex engine compiles `patterns` into one set.
pub uninterp spec fn set_compiles(patterns: Seq<Seq<char>>) -> bool;

/// Whether one of `patterns`, as the regex engine reads them, matches
/// somewhere in `haystack`.
pub uninterp spec fn set_matches(patterns: Seq<Seq<char>>, haystack: Seq<char>) -> bool;

/// A character that has a meaning of its own in a pattern.
pub open spec fn is_meta(c: char) -> bool {
    c == '\\' || c == '.' || c == '+' || c == '*' || c == '?' || c == '(' || c == ')' || c == '|'
        || c == '[' || c == ']' || c == '{' || c == '}' || c == '^' || c == '$' || c == '#' || c
        == '&' || c == '-' || c == '~'
}

/// `text` with a backslash before each of its meta characters.
pub open spec fn escaped(text: Seq<char>) -> Seq<char>
    decreases text.len(),
{
    if text.len() == 0 {
        Seq::empty()
    } else if is_meta(text.last()) {
        escaped(text.drop_last()).push('\\').push(text.last())
    } else {
        escaped(text.drop_last()).push(text.last())
    }
}

/// The pattern that blocks `agent`: the literal text, letters in either
/// case.
pub open spec fn blocking_pattern(agent: Seq<char>) -> Seq<char> {
    "(?i)"@ + escaped(agent)
}

/// The patterns that block `agents`, one for each, in order.
pub open spec fn blocking_patterns(agents: Seq<String>) -> Seq<Seq<char>> {
    agents.map_values(|agent: String| blocking_pattern(agent@))
}

/// The texts of a list of strings.
pub open spec fn texts(strings: Seq<String>) -> Seq<Seq<char>> {
    strings.map_values(|s: String| s@)
}

/// `regex::escape`: the text with a backslash put before each meta
/// character.
#[verifier::external_body]
fn escape(text: &str) -> (r: String)
    ensures
        r@ == escaped(text@),
{
    regex::escape(text)
}

/// `RegexSet::new`: the set of the given patterns, or nothing where the
/// engine does not compile them.
#[verifier::external_body]
fn compile(patterns: &Vec<String>) -> (r: Option<RegexSet>)
    ensures
        r is Some <==> set_compiles(texts(patterns@)),
        r matches Some(set) ==> set_patterns(set) == texts(patterns@),
{
    RegexSet::new(patterns).ok()
}

/// `RegexSet::is_match`: whether one pattern of the set matches somewhere in
/// the haystack.
#[verifier::external_body]
fn matches_any(set: &RegexSet, haystack: &str) -> (b: bool)
    ensures
        b == set_matches(set_patterns(*set), haystack@),
{
    set.is_match(haystack)
}

/// The compiled blocklist and the address that blocked clients are sent to.
pub struct Filter {
    blocked_agents: RegexSet,
    redirect_url: String,
}

/// Writes the blocking pattern of each agent.
pub fn build_patterns(agents: &Vec<String>) -> (patterns: Vec<String>)
    ensures
        texts(patterns@) == blocking_patterns(agents@),
{
    let mut patterns: Vec<String> = Vec::new();
    let mut i: usize = 0;
    while i < agents.len()
        invariant
            i <= agents.len(),
            patterns@.len() == i,
            forall|j: int| 0 <= j < i ==> (#[trigger] patterns@[j])@ == blocking_pattern(agents@[j]@),
        decreases agents.len() - i,
    {
        let mut pattern: String = "(?i)".to_owned();
        let quoted: String = escape(agents[i].as_str());
        pattern.append(quoted.as_str());
        patterns.push(pattern);
        i += 1;
    }
    assert(texts(patterns@) =~= blocking_patterns(agents@));
    patterns
}

impl Filter {
    /// The patterns of the blocklist.
    pub closed spec fn patterns(&self) -> Seq<Seq<char>> {
        set_patterns(self.blocked_agents)
    }

    /// Where a blocked client is sent.
    pub closed spec fn redirect_url(&self) -> Seq<char> {
        self.redirect_url@
    }

    /// The filter is the one that `config` describes.
    pub open spec fn is_built_from(&self, config: &FilterConfig) -> bool {
        &&& self.patterns() == blocking_patterns(config.blocked_user_agents@)
        &&& self.redirect_url() == config.redirect_url@
    }

    /// The blocklist matches `user_agent`.
    pub open spec fn blocks(&self, user_agent: Seq<char>) -> bool {
        set_matches(self.patterns(), user_agent)
    }

    /// The answer to a request: the permanent redirect where its user agent
    /// matched, nothing otherwise.
    pub open spec fn answers(&self, matched: bool, r: Option<Response>) -> bool {
        if matched {
            &&& r matches Some(response)
            &&& response@ == redirect_view(MOVED_PERMANENTLY, self.redirect_url())
        } else {
            r is None
        }
    }

    /// Compiles the blocklist of `config`. The patterns have to compile:
    /// `try_new` is for a caller that does not know whether they do.
    pub fn new(config: &FilterConfig) -> (filter: Filter)
        requires
            set_compiles(blocking_patterns(config.blocked_user_agents@)),
        ensures
            filter.is_built_from(config),
    {
        let patterns = build_patterns(&config.blocked_user_agents);
        match compile(&patterns) {
            Some(set) => Filter { blocked_agents: set, redirect_url: config.redirect_url.clone() },
            None => unreached(),
        }
    }

    /// Compiles the blocklist of `config`, or returns nothing where the regex
    /// engine refuses its patterns.
    pub fn try_new(config: &FilterConfig) -> (r: Option<Filter>)
        ensures
            r is Some <==> set_compiles(blocking_patterns(config.blocked_user_agents@)),
            r matches Some(filter) ==> filter.is_built_from(config),
    {
        let patterns = build_patterns(&config.blocked_user_agents);
        match compile(&patterns) {
            Some(_) => Some(Filter::new(config)),
            None => None,
        }
    }

    /// The answer for a user agent that the blocklist matched, or did not.
    pub fn verdict(&self, matched: bool) -> (r: Option<Response>)
        ensures
            self.answers(matched, r),
    {
        if matched {
            Some(redirect_with_status(MOVED_PERMANENTLY, self.redirect_url.as_str()))
        } else {
            None
        }
    }

    /// Checks the user agent that a request declares. A request that declares
    /// none passes; one whose user agent matches the blocklist is answered
    /// with a permanent redirect; every other one passes.
    pub fn check_user_agent(&self, user_agent: Option<&str>) -> (r: Option<Response>)
        ensures
            self.answers(
                match user_agent {
                    Some(ua) => self.blocks(ua@),
                    None => false,
                },
                r,
            ),
    {
        match user_agent {
            Some(ua) => {
                let matched = matches_any(&self.blocked_agents, ua);
                self.verdict(matched)
            },
            None => None,
        }
    }
}

} // verus!
