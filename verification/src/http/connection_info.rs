//! What is known of the client behind a request.

use crate::text::{
    before_first, byte_head, byte_head_string, contains, find_str, first_occurrence, holds, lowercase, matches_at,
    next_separator, push_range, push_str, starts_with, string_of_range, strip_both,
    strip_bounds, to_chars, trim, trim_bounds_in,
};
use vstd::prelude::*;
use vstd::utf8::{encode_utf8, is_ascii_chars};

verus! {

/// The client of a request: its user agent and its address.
#[derive(Clone, Debug)]
pub struct ConnectionInfo {
    pub user_agent: String,
    pub client_ip: String,
}

/// The part of `ua` from index `start` up to the next space; `None` where
/// no space follows.
pub open spec fn token_from(ua: Seq<char>, start: int) -> Option<Seq<char>> {
    match first_occurrence(ua.skip(start), " "@) {
        Some(end) => Some(ua.subrange(start, start + end)),
        None => None,
    }
}

/// A user agent cut down for logging. One of more than fifty bytes is cut
/// after its forty-seventh byte, or before that where the cut would fall
/// inside a character, and three dots follow. A shorter one stays whole.
pub open spec fn truncated(ua: Seq<char>) -> Seq<char> {
    if encode_utf8(ua).len() > 50 {
        byte_head(ua, 47) + "..."@
    } else {
        ua
    }
}

/// The short form of a user agent. The browser's or tool's own token is
/// picked where it is recognised: `Chrome/<version>`; else
/// `Firefox/<version>`; else, for Safari, `Safari/` and the version that
/// follows `Version/`; else `curl/<version>`. Everything else is cut to
/// fifty bytes.
pub open spec fn short_form(ua: Seq<char>) -> Seq<char> {
    if contains(ua, "Chrome/"@) {
        match token_from(ua, first_occurrence(ua, "Chrome/"@)->0) {
            Some(token) => token,
            None => truncated(ua),
        }
    } else if contains(ua, "Firefox/"@) {
        let start = first_occurrence(ua, "Firefox/"@)->0;
        match token_from(ua, start) {
            Some(token) => token,
            None => ua.skip(start),
        }
    } else if contains(ua, "Safari/"@) && !contains(ua, "Chrome"@) {
        match first_occurrence(ua, "Version/"@) {
            Some(start) => match token_from(ua, start) {
                Some(token) => "Safari/"@ + token.skip(8),
                None => truncated(ua),
            },
            None => truncated(ua),
        }
    } else if contains(ua, "curl/"@) {
        let start = first_occurrence(ua, "curl/"@)->0;
        match token_from(ua, start) {
            Some(token) => token,
            None => ua.skip(start),
        }
    } else {
        truncated(ua)
    }
}

/// The words that mark a user agent as a bot, a crawler or a tool.
pub open spec fn bot_patterns() -> Seq<Seq<char>> {
    seq![
        "bot"@,
        "crawler"@,
        "spider"@,
        "scraper"@,
        "curl"@,
        "wget"@,
        "postman"@,
        "googlebot"@,
        "bingbot"@,
        "slurp"@,
        "duckduckbot"@,
        "baiduspider"@,
        "yandexbot"@,
        "facebookexternalhit"@,
        "twitterbot"@,
        "linkedinbot"@,
        "whatsapp"@,
        "telegram"@,
        "discord"@,
        "slack"@,
        "monitoring"@,
    ]
}

/// A user agent is a bot's when, in lower case, it holds one of the
/// [`bot_patterns`].
pub open spec fn looks_like_bot(ua: Seq<char>) -> bool {
    exists|i: int|
        0 <= i < bot_patterns().len() && contains(lowercase(ua), #[trigger] bot_patterns()[i])
}

fn end_of_token(ua: &Vec<char>, start: usize) -> (end: Option<usize>)
    requires
        start <= ua.len(),
    ensures
        match end {
            Some(e) => start <= e < ua.len() && ua@[e as int] == ' ' && token_from(
                ua@,
                start as int,
            ) == Some(ua@.subrange(start as int, e as int)),
            None => token_from(ua@, start as int) is None,
        },
{
    let mut rest: Vec<char> = Vec::new();
    push_range(&mut rest, ua, start, ua.len());
    assert(rest@ == ua@.skip(start as int));
    match find_str(&rest, " ") {
        Some(end) => {
            proof {
                reveal_strlit(" ");
                assert(rest@.subrange(end as int, end + 1)[0] == ' ');
            }
            Some(start + end)
        },
        None => None,
    }
}

fn cut_for_log(ua: &str) -> (out: String)
    ensures
        out@ == truncated(ua@),
{
    if ua.as_bytes().len() <= 50 {
        return String::from_str(ua);
    }
    let mut out = byte_head_string(ua, 47);
    out.append("...");
    out
}

fn token_or_rest(ua: &Vec<char>, start: usize) -> (out: String)
    requires
        start <= ua.len(),
    ensures
        out@ == match token_from(ua@, start as int) {
            Some(token) => token,
            None => ua@.skip(start as int),
        },
{
    match end_of_token(ua, start) {
        Some(end) => string_of_range(ua, start, end),
        None => {
            let out = string_of_range(ua, start, ua.len());
            assert(ua@.subrange(start as int, ua@.len() as int) == ua@.skip(start as int));
            out
        },
    }
}

impl ConnectionInfo {
    /// The user agent in its short form, for compact log lines.
    pub fn short_user_agent(&self) -> (out: String)
        ensures
            out@ == short_form(self.user_agent@),
    {
        let ua = to_chars(self.user_agent.as_str());
        if let Some(start) = find_str(&ua, "Chrome/") {
            return match end_of_token(&ua, start) {
                Some(end) => string_of_range(&ua, start, end),
                None => cut_for_log(self.user_agent.as_str()),
            };
        }
        if let Some(start) = find_str(&ua, "Firefox/") {
            return token_or_rest(&ua, start);
        }
        if holds(&ua, "Safari/") && !holds(&ua, "Chrome") {
            if let Some(start) = find_str(&ua, "Version/") {
                proof {
                    reveal_strlit("Version/");
                }
                if let Some(end) = end_of_token(&ua, start) {
                    proof {
                        let word = ua@.subrange(start as int, start + 8);
                        assert(word == "Version/"@);
                        assert(word[0] == 'V' && word[1] == 'e' && word[2] == 'r' && word[3] == 's'
                            && word[4] == 'i' && word[5] == 'o' && word[6] == 'n' && word[7]
                            == '/');
                        if end < start + 8 {
                            assert(word[end - start] == ua@[end as int]);
                        }
                        let token = ua@.subrange(start as int, end as int);
                        assert(token.skip(8) == ua@.subrange(start + 8, end as int));
                    }
                    let mut out: Vec<char> = Vec::new();
                    push_str(&mut out, "Safari/");
                    push_range(&mut out, &ua, start + 8, end);
                    return crate::text::from_chars(&out);
                }
            }
            return cut_for_log(self.user_agent.as_str());
        }
        if let Some(start) = find_str(&ua, "curl/") {
            return token_or_rest(&ua, start);
        }
        cut_for_log(self.user_agent.as_str())
    }

    /// Whether the request comes from a bot, a crawler or a tool.
    pub fn is_bot(&self) -> (bot: bool)
        ensures
            bot == looks_like_bot(self.user_agent@),
    {
        let lower = self.user_agent.as_str().to_lowercase();
        let ua = to_chars(lower.as_str());
        let patterns = bot_pattern_list();
        let mut i: usize = 0;
        while i < patterns.len()
            invariant
                i <= patterns.len(),
                ua@ == lowercase(self.user_agent@),
                crate::text::texts(patterns@) == bot_patterns(),
                forall|j: int| 0 <= j < i ==> !contains(ua@, #[trigger] bot_patterns()[j]),
            decreases patterns.len() - i,
        {
            assert(crate::text::texts(patterns@)[i as int] == patterns@[i as int]@);
            if holds(&ua, patterns[i].as_str()) {
                return true;
            }
            i += 1;
        }
        assert(crate::text::texts(patterns@).len() == patterns@.len());
        false
    }
}

/// The [`bot_patterns`] as strings.
pub fn bot_pattern_list() -> (patterns: Vec<String>)
    ensures
        crate::text::texts(patterns@) == bot_patterns(),
{
    let mut patterns: Vec<String> = Vec::new();
    patterns.push(String::from_str("bot"));
    patterns.push(String::from_str("crawler"));
    patterns.push(String::from_str("spider"));
    patterns.push(String::from_str("scraper"));
    patterns.push(String::from_str("curl"));
    patterns.push(String::from_str("wget"));
    patterns.push(String::from_str("postman"));
    patterns.push(String::from_str("googlebot"));
    patterns.push(String::from_str("bingbot"));
    patterns.push(String::from_str("slurp"));
    patterns.push(String::from_str("duckduckbot"));
    patterns.push(String::from_str("baiduspider"));
    patterns.push(String::from_str("yandexbot"));
    patterns.push(String::from_str("facebookexternalhit"));
    patterns.push(String::from_str("twitterbot"));
    patterns.push(String::from_str("linkedinbot"));
    patterns.push(String::from_str("whatsapp"));
    patterns.push(String::from_str("telegram"));
    patterns.push(String::from_str("discord"));
    patterns.push(String::from_str("slack"));
    patterns.push(String::from_str("monitoring"));
    assert(crate::text::texts(patterns@) == bot_patterns());
    patterns
}

/// The headers and the connection from which a client's address is read.
#[derive(Debug)]
pub struct AddressSources {
    /// The `x-forwarded-for` header.
    pub forwarded_for: Option<String>,
    /// The `x-real-ip` header.
    pub real_ip: Option<String>,
    /// The `cf-connecting-ip` header.
    pub cf_connecting_ip: Option<String>,
    /// The `x-forwarded` header.
    pub forwarded: Option<String>,
    /// The address of the peer of the connection.
    pub remote: Option<String>,
}

/// The first part of `header`, split at semicolons, that begins with `for=`
/// once it is trimmed; trimmed.
pub open spec fn for_part(header: Seq<char>) -> Option<Seq<char>>
    decreases header.len(),
{
    let part = before_first(header, ';');
    if starts_with(trim(part), "for="@) {
        Some(trim(part))
    } else if part.len() < header.len() {
        for_part(header.skip(part.len() as int + 1))
    } else {
        None
    }
}

/// The address of the client. In order: the first entry of
/// `x-forwarded-for`, trimmed; `x-real-ip`; `cf-connecting-ip`; the `for=`
/// part of `x-forwarded`, without quotes; the peer of the connection;
/// `unknown`.
pub open spec fn client_address(sources: AddressSources) -> Seq<char> {
    if sources.forwarded_for is Some {
        trim(before_first(sources.forwarded_for->0@, ','))
    } else if sources.real_ip is Some {
        sources.real_ip->0@
    } else if sources.cf_connecting_ip is Some {
        sources.cf_connecting_ip->0@
    } else if sources.forwarded is Some && for_part(sources.forwarded->0@) is Some {
        strip_both(for_part(sources.forwarded->0@)->0.skip(4), '"')
    } else {
        match sources.remote {
            Some(peer) => peer@,
            None => "unknown"@,
        }
    }
}

/// The user agent of a request; `unknown` for a request without one.
pub fn extract_user_agent(header: Option<&str>) -> (agent: String)
    ensures
        agent@ == match header {
            Some(text) => text@,
            None => "unknown"@,
        },
{
    match header {
        Some(text) => String::from_str(text),
        None => String::from_str("unknown"),
    }
}

fn find_for_part(header: &Vec<char>) -> (found: Option<(usize, usize)>)
    ensures
        match found {
            Some((a, b)) => a + 4 <= b <= header.len() && for_part(header@) == Some(
                header@.subrange(a as int, b as int),
            ),
            None => for_part(header@) is None,
        },
{
    let marker = to_chars("for=");
    proof {
        reveal_strlit("for=");
        assert("for="@.len() == 4);
    }
    let mut from: usize = 0;
    assert(header@.skip(0) == header@);
    loop
        invariant
            from <= header.len(),
            marker@ == "for="@,
            marker@.len() == 4,
            for_part(header@) == for_part(header@.skip(from as int)),
        decreases header.len() - from,
    {
        let k = next_separator(header, from, ';');
        let (a, b) = trim_bounds_in(header, from, k);
        let ghost rest = header@.skip(from as int);
        let ghost part = before_first(rest, ';');
        let mut part_chars: Vec<char> = Vec::new();
        push_range(&mut part_chars, header, a, b);
        assert(part_chars@ == trim(part));
        if matches_at(&part_chars, &marker, 0) {
            assert(part_chars@.len() >= 4);
            return Some((a, b));
        }
        if k < header.len() {
            assert(rest.skip(part.len() as int + 1) == header@.skip(k + 1));
            from = k + 1;
        } else {
            return None;
        }
    }
}

/// The address of the client of a request.
pub fn extract_client_ip(sources: &AddressSources) -> (address: String)
    ensures
        address@ == client_address(*sources),
{
    if let Some(list) = &sources.forwarded_for {
        let chars = to_chars(list.as_str());
        let k = next_separator(&chars, 0, ',');
        assert(chars@.skip(0) == chars@);
        let (a, b) = trim_bounds_in(&chars, 0, k);
        return string_of_range(&chars, a, b);
    }
    if let Some(ip) = &sources.real_ip {
        return ip.clone();
    }
    if let Some(ip) = &sources.cf_connecting_ip {
        return ip.clone();
    }
    if let Some(header) = &sources.forwarded {
        let chars = to_chars(header.as_str());
        if let Some((a, b)) = find_for_part(&chars) {
            let (c, d) = strip_bounds(&chars, a + 4, b, '"');
            assert(chars@.subrange(a as int, b as int).skip(4) == chars@.subrange(a + 4, b as int));
            return string_of_range(&chars, c, d);
        }
    }
    match &sources.remote {
        Some(peer) => peer.clone(),
        None => String::from_str("unknown"),
    }
}

impl ConnectionInfo {
    /// What is known of the client of a request with these headers.
    pub fn from_request_or_default(user_agent: Option<&str>, sources: &AddressSources) -> (out:
        Self)
        ensures
            out.user_agent@ == match user_agent {
                Some(text) => text@,
                None => "unknown"@,
            },
            out.client_ip@ == client_address(*sources),
    {
        ConnectionInfo {
            user_agent: extract_user_agent(user_agent),
            client_ip: extract_client_ip(sources),
        }
    }
}


/// A user agent of ASCII characters is cut by characters: one of more than
/// fifty keeps its first forty-seven before the dots.
pub proof fn lemma_truncated_ascii(ua: Seq<char>)
    requires
        is_ascii_chars(ua),
    ensures
        ua.len() > 50 ==> truncated(ua) == ua.take(47) + "..."@,
        ua.len() <= 50 ==> truncated(ua) == ua,
{
    vstd::utf8::is_ascii_chars_encode_utf8(ua);
    if ua.len() > 50 {
        crate::text::lemma_byte_head_ascii(ua, 47);
    }
}

} // verus!
