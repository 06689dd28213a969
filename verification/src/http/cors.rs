//! What the CORS layer is set up with.
//!
//! The configuration names origins, methods and headers as text. What of it
//! the HTTP types accept, and what stands in for what they refuse, is
//! decided here; the host builds the layer from the plan.

use crate::config::builder::Config;
use crate::config::cors::CorsConfig;
use crate::text::{str_eq, texts};
use vstd::prelude::*;

verus! {

/// Whether `http::HeaderValue` accepts `text` when it is parsed with
/// `str::parse`: every character is a tab, or neither a control character
/// nor the delete character. Characters outside ASCII are accepted.
pub open spec fn header_value_parses(text: Seq<char>) -> bool {
    forall|i: int|
        0 <= i < text.len() ==> (#[trigger] text[i] == '\t' || (text[i] >= ' ' && text[i]
            != '\u{7f}'))
}

/// Whether `http::Method` accepts `text` when it is parsed with
/// `str::parse`.
pub uninterp spec fn method_parses(text: Seq<char>) -> bool;

/// Whether `http::HeaderName` accepts `text` when it is parsed with
/// `str::parse`.
pub uninterp spec fn header_name_parses(text: Seq<char>) -> bool;

/// Parses `text` with `<http::HeaderValue as FromStr>::from_str` and reports
/// whether it was accepted. That function refuses a text exactly when one
/// of its bytes is below 32 and no tab, or is 127; the bytes of a character
/// outside ASCII are all above 127.
#[verifier::external_body]
fn accepts_header_value(text: &str) -> (ok: bool)
    ensures
        ok == header_value_parses(text@),
{
    text.parse::<axum::http::HeaderValue>().is_ok()
}

/// Parses `text` with `<http::Method as FromStr>::from_str` and reports
/// whether it was accepted. The answer depends on `text` alone; nothing
/// more is claimed of it.
#[verifier::external_body]
fn accepts_method(text: &str) -> (ok: bool)
    ensures
        ok == method_parses(text@),
{
    text.parse::<axum::http::Method>().is_ok()
}

/// Parses `text` with `<http::HeaderName as FromStr>::from_str` and reports
/// whether it was accepted. The answer depends on `text` alone; nothing
/// more is claimed of it.
#[verifier::external_body]
fn accepts_header_name(text: &str) -> (ok: bool)
    ensures
        ok == header_name_parses(text@),
{
    text.parse::<axum::http::HeaderName>().is_ok()
}

/// What a piece of the configuration has to be accepted as.
#[derive(Clone, Copy, Debug, PartialEq, Eq, Structural)]
pub enum Token {
    HeaderValue,
    Method,
    HeaderName,
}

/// Whether `text` is accepted as a `token`.
pub open spec fn parses_as(token: Token, text: Seq<char>) -> bool {
    match token {
        Token::HeaderValue => header_value_parses(text),
        Token::Method => method_parses(text),
        Token::HeaderName => header_name_parses(text),
    }
}

/// Whether every entry of `list` is accepted as a `token`.
pub open spec fn all_parse(token: Token, list: Seq<Seq<char>>) -> bool {
    forall|i: int| 0 <= i < list.len() ==> parses_as(token, #[trigger] list[i])
}

/// Which origins may call.
#[derive(Debug)]
pub enum OriginRule {
    /// Any origin.
    Any,
    /// These origins.
    List(Vec<String>),
}

/// Which request headers may be sent.
#[derive(Debug)]
pub enum HeaderRule {
    /// Nothing is set: the layer's own default applies.
    Unset,
    /// Any header.
    Any,
    /// These headers.
    List(Vec<String>),
}

/// What the CORS layer is set up with.
#[derive(Debug)]
pub struct CorsPlan {
    pub origins: OriginRule,
    pub methods: Vec<String>,
    pub allow_headers: HeaderRule,
    /// Response headers that scripts may read; `None` where none are set.
    pub expose_headers: Option<Vec<String>>,
    pub allow_credentials: bool,
    /// Seconds a preflight answer may be cached; `None` where not set.
    pub max_age: Option<u64>,
}

/// What the contracts say of an origin rule.
pub enum OriginView {
    Any,
    List(Seq<Seq<char>>),
}

/// What the contracts say of a header rule.
pub enum HeaderRuleView {
    Unset,
    Any,
    List(Seq<Seq<char>>),
}

/// What the contracts say of a plan.
pub struct PlanView {
    pub origins: OriginView,
    pub methods: Seq<Seq<char>>,
    pub allow_headers: HeaderRuleView,
    pub expose_headers: Option<Seq<Seq<char>>>,
    pub allow_credentials: bool,
    pub max_age: Option<u64>,
}

impl View for CorsPlan {
    type V = PlanView;

    open spec fn view(&self) -> PlanView {
        PlanView {
            origins: match self.origins {
                OriginRule::Any => OriginView::Any,
                OriginRule::List(list) => OriginView::List(texts(list@)),
            },
            methods: texts(self.methods@),
            allow_headers: match self.allow_headers {
                HeaderRule::Unset => HeaderRuleView::Unset,
                HeaderRule::Any => HeaderRuleView::Any,
                HeaderRule::List(list) => HeaderRuleView::List(texts(list@)),
            },
            expose_headers: match self.expose_headers {
                Some(list) => Some(texts(list@)),
                None => None,
            },
            allow_credentials: self.allow_credentials,
            max_age: self.max_age,
        }
    }
}

/// The methods that stand in where a configured method is refused.
pub open spec fn fallback_methods() -> Seq<Seq<char>> {
    seq!["GET"@, "POST"@, "PUT"@, "DELETE"@, "HEAD"@, "OPTIONS"@, "PATCH"@]
}

/// The origins that may call: any, where `*` alone is configured or an
/// entry is refused as a header value; the configured ones otherwise.
pub open spec fn planned_origins(origins: Seq<Seq<char>>) -> OriginView {
    if origins.len() == 1 && origins[0] == "*"@ {
        OriginView::Any
    } else if all_parse(Token::HeaderValue, origins) {
        OriginView::List(origins)
    } else {
        OriginView::Any
    }
}

/// The methods that may be used: the configured ones, or the fallback
/// where one of them is refused.
pub open spec fn planned_methods(methods: Seq<Seq<char>>) -> Seq<Seq<char>> {
    if all_parse(Token::Method, methods) {
        methods
    } else {
        fallback_methods()
    }
}

/// The request headers that may be sent: nothing is set for an empty list,
/// any header is allowed where an entry is refused.
pub open spec fn planned_allow_headers(headers: Seq<Seq<char>>) -> HeaderRuleView {
    if headers.len() == 0 {
        HeaderRuleView::Unset
    } else if all_parse(Token::HeaderName, headers) {
        HeaderRuleView::List(headers)
    } else {
        HeaderRuleView::Any
    }
}

/// The response headers that scripts may read: none are set for an empty
/// list and where an entry is refused.
pub open spec fn planned_expose_headers(headers: Seq<Seq<char>>) -> Option<Seq<Seq<char>>> {
    if headers.len() > 0 && all_parse(Token::HeaderName, headers) {
        Some(headers)
    } else {
        None
    }
}

/// The plan for a configuration; `None` where CORS is turned off.
pub open spec fn planned(cors: CorsConfig) -> Option<PlanView> {
    if !cors.enabled {
        None
    } else {
        Some(
            PlanView {
                origins: planned_origins(texts(cors.allow_origins@)),
                methods: planned_methods(texts(cors.allow_methods@)),
                allow_headers: planned_allow_headers(texts(cors.allow_headers@)),
                expose_headers: planned_expose_headers(texts(cors.expose_headers@)),
                allow_credentials: cors.allow_credentials,
                max_age: if cors.max_age > 0 {
                    Some(cors.max_age)
                } else {
                    None
                },
            },
        )
    }
}

/// What the contracts say of an optional plan.
pub open spec fn plan_view(plan: Option<CorsPlan>) -> Option<PlanView> {
    match plan {
        Some(p) => Some(p@),
        None => None,
    }
}

/// Whether `text` is accepted as a `token`.
pub fn accepts(token: Token, text: &str) -> (ok: bool)
    ensures
        ok == parses_as(token, text@),
{
    match token {
        Token::HeaderValue => accepts_header_value(text),
        Token::Method => accepts_method(text),
        Token::HeaderName => accepts_header_name(text),
    }
}

/// Whether every entry of `list` is accepted as a `token`.
pub fn all_accepted(token: Token, list: &Vec<String>) -> (ok: bool)
    ensures
        ok == all_parse(token, texts(list@)),
{
    let mut i: usize = 0;
    while i < list.len()
        invariant
            i <= list.len(),
            forall|j: int| 0 <= j < i ==> parses_as(token, #[trigger] texts(list@)[j]),
        decreases list.len() - i,
    {
        assert(texts(list@)[i as int] == list@[i as int]@);
        if !accepts(token, list[i].as_str()) {
            return false;
        }
        i += 1;
    }
    true
}

fn copy_list(list: &Vec<String>) -> (out: Vec<String>)
    ensures
        texts(out@) == texts(list@),
{
    let mut out: Vec<String> = Vec::new();
    let mut i: usize = 0;
    while i < list.len()
        invariant
            i <= list.len(),
            texts(out@) == texts(list@).take(i as int),
        decreases list.len() - i,
    {
        let item = list[i].clone();
        assert(texts(out@.push(item)) == texts(out@).push(item@));
        assert(texts(list@).take(i + 1) == texts(list@).take(i as int).push(list@[i as int]@));
        out.push(item);
        i += 1;
    }
    assert(texts(list@).take(list@.len() as int) == texts(list@));
    out
}

fn default_methods() -> (out: Vec<String>)
    ensures
        texts(out@) == fallback_methods(),
{
    let mut out: Vec<String> = Vec::new();
    out.push(String::from_str("GET"));
    out.push(String::from_str("POST"));
    out.push(String::from_str("PUT"));
    out.push(String::from_str("DELETE"));
    out.push(String::from_str("HEAD"));
    out.push(String::from_str("OPTIONS"));
    out.push(String::from_str("PATCH"));
    assert(texts(out@) == fallback_methods());
    out
}

/// Plans the CORS layer for `config`; `None` where CORS is turned off.
pub fn create_cors_layer(config: &Config) -> (plan: Option<CorsPlan>)
    ensures
        plan_view(plan) == planned(config.cors),
{
    let cors = &config.cors;
    if !cors.enabled {
        return None;
    }
    let ghost origin_texts = texts(cors.allow_origins@);
    let single_star = cors.allow_origins.len() == 1 && str_eq(cors.allow_origins[0].as_str(), "*");
    proof {
        if cors.allow_origins.len() == 1 {
            assert(origin_texts[0] == cors.allow_origins@[0]@);
        }
    }
    let origins = if single_star {
        OriginRule::Any
    } else if all_accepted(Token::HeaderValue, &cors.allow_origins) {
        OriginRule::List(copy_list(&cors.allow_origins))
    } else {
        OriginRule::Any
    };
    let methods = if all_accepted(Token::Method, &cors.allow_methods) {
        copy_list(&cors.allow_methods)
    } else {
        default_methods()
    };
    let allow_headers = if cors.allow_headers.len() == 0 {
        HeaderRule::Unset
    } else if all_accepted(Token::HeaderName, &cors.allow_headers) {
        HeaderRule::List(copy_list(&cors.allow_headers))
    } else {
        HeaderRule::Any
    };
    let expose_headers = if cors.expose_headers.len() > 0 && all_accepted(
        Token::HeaderName,
        &cors.expose_headers,
    ) {
        Some(copy_list(&cors.expose_headers))
    } else {
        None
    };
    let max_age = if cors.max_age > 0 {
        Some(cors.max_age)
    } else {
        None
    };
    Some(
        CorsPlan {
            origins,
            methods,
            allow_headers,
            expose_headers,
            allow_credentials: cors.allow_credentials,
            max_age,
        },
    )
}

/// With CORS turned off there is no plan, whatever else is configured; with
/// it turned on there is one.
pub proof fn lemma_plan_iff_enabled(cors: CorsConfig)
    ensures
        planned(cors) is Some <==> cors.enabled,
{
}

/// A plan never names a method or a header that the HTTP types refuse: its
/// methods are the configured ones, all accepted, or the fallback.
pub proof fn lemma_planned_methods_usable(methods: Seq<Seq<char>>)
    ensures
        planned_methods(methods) == fallback_methods() || all_parse(
            Token::Method,
            planned_methods(methods),
        ),
{
}


/// The origin `*` is a header value like any other: only as the single
/// entry of the list does it stand for any origin.
pub proof fn lemma_star_is_a_header_value()
    ensures
        header_value_parses("*"@),
        planned_origins(seq!["*"@]) == OriginView::Any,
        planned_origins(seq!["*"@, "*"@]) == OriginView::List(seq!["*"@, "*"@]),
        planned_origins(Seq::empty()) == OriginView::List(Seq::empty()),
{
    reveal_strlit("*");
    assert("*"@.len() == 1 && "*"@[0] == '*');
    assert(header_value_parses("*"@));
    assert(all_parse(Token::HeaderValue, seq!["*"@, "*"@]));
    assert(all_parse(Token::HeaderValue, Seq::<Seq<char>>::empty()));
}

} // verus!
