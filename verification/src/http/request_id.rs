//! Identifiers of requests.

use crate::text::{find_str, first_occurrence, occurs_at, push_range, push_str, to_chars};
use vstd::prelude::*;

verus! {

/// A prefix that a type id may carry: at most 63 of the letters `a` to `z`
/// and `_`, neither first nor last an underscore. The empty prefix is one.
pub open spec fn valid_type_prefix(prefix: Seq<char>) -> bool {
    &&& prefix.len() <= 63
    &&& forall|i: int| 0 <= i < prefix.len() ==> ('a' <= #[trigger] prefix[i] <= 'z' || prefix[i] == '_')
    &&& prefix.len() > 0 ==> prefix[0] != '_' && prefix.last() != '_'
}

/// `id` has the shape of a type id with the prefix `prefix`: the prefix and
/// an underscore, where the prefix is not empty, and then 26 characters.
pub open spec fn has_type_id_shape(prefix: Seq<char>, id: Seq<char>) -> bool {
    if prefix.len() == 0 {
        id.len() == 26
    } else {
        &&& id.len() == prefix.len() + 27
        &&& id.subrange(0, prefix.len() as int) == prefix
        &&& id[prefix.len() as int] == '_'
    }
}

/// Draws a new identifier with `type_safe_id::TypeSafeId::new_with_type`
/// and writes it out with its `Display`; the prefix goes through
/// `type_safe_id::DynamicType::new`. The identifier holds the time and
/// random bits, so two calls differ. What is claimed: a prefix is refused
/// exactly when it is not a valid one, and an identifier has the shape
/// `<prefix>_<26 characters>`, or 26 characters alone for the empty prefix.
#[verifier::external_body]
pub(crate) fn fresh_type_id(prefix: &str) -> (id: Option<String>)
    ensures
        id is Some <==> valid_type_prefix(prefix@),
        id is Some ==> has_type_id_shape(prefix@, id->0@),
{
    match type_safe_id::DynamicType::new(prefix) {
        Ok(tag) => Some(type_safe_id::TypeSafeId::new_with_type(tag).to_string()),
        Err(_) => None,
    }
}

/// Marks identifiers of HTTP requests, which carry no prefix.
#[derive(Clone, Copy, Debug, Default)]
pub struct HttpRequest;

/// Makes request identifiers without a prefix.
#[derive(Clone, Copy, Debug, Default)]
pub struct MakeTypeSafeRequestId;

impl MakeTypeSafeRequestId {
    /// A new identifier: 26 characters.
    pub fn make_request_id(&self) -> (id: String)
        ensures
            id@.len() == 26,
    {
        proof {
            assert(valid_type_prefix(Seq::<char>::empty()));
        }
        let empty = String::new();
        match fresh_type_id(empty.as_str()) {
            Some(id) => id,
            None => String::new(),
        }
    }
}

/// Makes request identifiers that begin with a prefix of the caller's
/// choice.
#[derive(Clone, Debug)]
pub struct MakeCustomRequestId {
    prefix: &'static str,
}

/// The part of `id` behind its first underscore; all of `id` where it holds
/// none.
pub open spec fn after_first_underscore(id: Seq<char>) -> Seq<char> {
    match first_occurrence(id, "_"@) {
        Some(i) => id.skip(i + 1),
        None => id,
    }
}

/// The identifier that carries `prefix` in place of the prefix of `raw`.
pub open spec fn reprefixed(prefix: Seq<char>, raw: Seq<char>) -> Seq<char> {
    prefix + "_"@ + after_first_underscore(raw)
}

/// Puts `prefix` in place of the prefix of the identifier `raw`.
pub fn custom_request_id(prefix: &str, raw: &str) -> (id: String)
    ensures
        id@ == reprefixed(prefix@, raw@),
{
    let chars = to_chars(raw);
    let mut out: Vec<char> = Vec::new();
    push_str(&mut out, prefix);
    push_str(&mut out, "_");
    match find_str(&chars, "_") {
        Some(k) => {
            proof {
                reveal_strlit("_");
                assert("_"@.len() == 1);
                assert(occurs_at(chars@, "_"@, k as int));
                assert(k + 1 <= chars.len());
            }
            push_range(&mut out, &chars, k + 1, chars.len());
            assert(chars@.subrange(k + 1, chars@.len() as int) == chars@.skip(k + 1));
        },
        None => {
            push_range(&mut out, &chars, 0, chars.len());
            assert(chars@.subrange(0, chars@.len() as int) == chars@);
        },
    }
    crate::text::from_chars(&out)
}

impl MakeCustomRequestId {
    /// A maker of identifiers that begin with `prefix`.
    pub fn new(prefix: &'static str) -> (out: Self)
        ensures
            out.prefix()@ == prefix@,
    {
        MakeCustomRequestId { prefix }
    }

    /// The prefix of the identifiers this maker hands out.
    pub closed spec fn prefix(&self) -> &'static str {
        self.prefix
    }

    /// A new identifier: the prefix, an underscore, and 26 characters that
    /// were drawn for it.
    pub fn make_request_id(&self) -> (id: String)
        ensures
            exists|raw: Seq<char>|
                has_type_id_shape("custom"@, raw) && id@ == reprefixed(self.prefix()@, raw),
    {
        proof {
            reveal_strlit("custom");
            assert(valid_type_prefix("custom"@));
        }
        match fresh_type_id("custom") {
            Some(raw) => custom_request_id(self.prefix, raw.as_str()),
            None => String::new(),
        }
    }
}

impl Default for MakeCustomRequestId {
    fn default() -> (out: Self)
        ensures
            out.prefix()@ == "req"@,
    {
        MakeCustomRequestId::new("req")
    }
}

} // verus!
