//! Reading single string fields out of JSON response bodies. The
//! parsing itself is delegated to serde_json; the library only relies
//! on it through the two named results below.

use vstd::prelude::*;

verus! {

/// Whether a text parses as JSON.
pub uninterp spec fn json_ok(body: Seq<char>) -> bool;

/// Relies on serde_json::from_str::<Value>: whether the body parses
/// as JSON, a function of the text alone.
#[verifier::external_body]
pub(crate) fn json_is_valid(body: &str) -> (r: bool)
    ensures
        r == json_ok(body@),
{
    serde_json::from_str::<serde_json::Value>(body).is_ok()
}

/// The string value at a top-level key of a JSON text, when the text
/// parses, is an object, holds the key, and the value is a string.
pub uninterp spec fn json_str_field(body: Seq<char>, key: Seq<char>) -> Option<Seq<char>>;

/// Relies on serde_json::from_str::<Value> and Value::get / as_str:
/// the string at a top-level key, a function of the text alone, and
/// present only when the body is valid JSON.
#[verifier::external_body]
pub(crate) fn json_string_field(body: &str, key: &str) -> (r: Option<String>)
    ensures
        r is Some <==> json_str_field(body@, key@) is Some,
        r matches Some(s) ==> s@ == json_str_field(body@, key@).unwrap(),
        r is Some ==> json_ok(body@),
{
    serde_json::from_str::<serde_json::Value>(body).ok().and_then(
        |v| v.get(key).and_then(|f| f.as_str()).map(|s| s.to_string()),
    )
}

} // verus!
