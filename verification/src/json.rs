//! The trusted view of the JSON parser through which session responses are
//! read.
//!
//! Parsing a body is a function of its text alone, so the two spec names
//! below stand for what the parser finds; nothing else is assumed of them.

use vstd::prelude::*;

verus! {

/// Whether the response parser reads `body` as a JSON object.
pub uninterp spec fn json_is_object(body: Seq<char>) -> bool;

/// The string value the response parser finds under field `key` of the
/// JSON object `body`, or `None` where the field is absent or not a string
/// (or `body` is no JSON object at all).
pub uninterp spec fn json_string_field(body: Seq<char>, key: Seq<char>) -> Option<Seq<char>>;

/// Relies on serde_json::from_str, serde_json::Value and Map::get:
/// `from_str` parses the body text deterministically and returns an error —
/// never a crash — on malformed, oversized or over-nested input; matching
/// the `Value` tells a JSON object, and a field's string value, from every
/// other kind of value.
#[verifier::external_body]
pub(crate) fn json_lookup(body: &str, key: &str) -> (r: Option<Option<String>>)
    ensures
        (r is Some) == json_is_object(body@),
        match r {
            Some(Some(v)) => json_string_field(body@, key@) == Some(v@),
            Some(None) => json_string_field(body@, key@) is None,
            None => true,
        },
{
    match serde_json::from_str::<serde_json::Value>(body) {
        Ok(serde_json::Value::Object(obj)) => Some(match obj.get(key) {
            Some(serde_json::Value::String(s)) => Some(s.clone()),
            _ => None,
        }),
        Ok(_) => None,
        Err(_) => None,
    }
}

} // verus!
