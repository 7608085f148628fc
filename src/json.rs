//! What serde_json reads from JSON text, as plain values: the members of an
//! object with the raw text of each value, and a text or a list of texts.
use vstd::prelude::*;

verus! {

/// The members of the JSON object that a text holds, one per key, each with
/// the raw JSON text of its value; `None` where the text is not a JSON object.
pub uninterp spec fn json_members(text: Seq<char>) -> Option<Seq<(Seq<char>, Seq<char>)>>;

/// A JSON text read as an optional string: `Some(None)` for `null`,
/// `Some(Some(s))` for a string, `None` for anything else.
pub uninterp spec fn json_opt_text(text: Seq<char>) -> Option<Option<Seq<char>>>;

/// A JSON text read as an optional list of strings: `Some(None)` for
/// `null`, `Some(Some(l))` for an array of strings, `None` for anything else.
pub uninterp spec fn json_opt_texts(text: Seq<char>) -> Option<Option<Seq<Seq<char>>>>;

pub open spec fn pairs_view(v: Seq<(String, String)>) -> Seq<(Seq<char>, Seq<char>)> {
    v.map_values(|p: (String, String)| (p.0@, p.1@))
}

pub open spec fn texts_view(v: Seq<String>) -> Seq<Seq<char>> {
    v.map_values(|s: String| s@)
}

pub open spec fn opt_view(o: Option<String>) -> Option<Seq<char>> {
    match o {
        Some(s) => Some(s@),
        None => None,
    }
}

pub open spec fn opt_texts_view(o: Option<Vec<String>>) -> Option<Seq<Seq<char>>> {
    match o {
        Some(v) => Some(texts_view(v@)),
        None => None,
    }
}

/// Relies on serde_json::from_str into a `BTreeMap` of `RawValue`s: the
/// members of a JSON object, with the text of each value as it stood.
#[verifier::external_body]
pub(crate) fn object_members(text: &str) -> (r: Option<Vec<(String, String)>>)
    ensures
        match json_members(text@) {
            None => r is None,
            Some(ms) => r matches Some(v) && pairs_view(v@) == ms,
        },
{
    let m = serde_json::from_str::<std::collections::BTreeMap<String, Box<serde_json::value::RawValue>>>(text);
    m.ok().map(|m| m.into_iter().map(|(k, v)| (k, v.get().to_string())).collect())
}

/// Relies on serde_json::from_str into an `Option<String>`.
#[verifier::external_body]
pub(crate) fn read_opt_text(text: &str) -> (r: Option<Option<String>>)
    ensures
        match json_opt_text(text@) {
            None => r is None,
            Some(t) => r matches Some(x) && opt_view(x) == t,
        },
{
    serde_json::from_str::<Option<String>>(text).ok()
}

/// Relies on serde_json::from_str into an `Option<Vec<String>>`.
#[verifier::external_body]
pub(crate) fn read_opt_texts(text: &str) -> (r: Option<Option<Vec<String>>>)
    ensures
        match json_opt_texts(text@) {
            None => r is None,
            Some(t) => r matches Some(x) && opt_texts_view(x) == t,
        },
{
    serde_json::from_str::<Option<Vec<String>>>(text).ok()
}

} // verus!
