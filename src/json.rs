//! Structured values, as serde_json represents them.
//!
//! A value is carried through the library unopened; the library only asks
//! whether a text is a JSON document and, if so, which value it denotes.

use vstd::prelude::*;

verus! {

#[verifier::external_type_specification]
#[verifier::external_body]
pub struct ExValue(serde_json::Value);

/// The value that a JSON text denotes, or `None` where the text is not a
/// single JSON document.
pub uninterp spec fn json_decode(s: Seq<char>) -> Option<serde_json::Value>;

/// The text of an empty JSON object.
pub open spec fn empty_object_text() -> Seq<char> {
    seq!['{', '}']
}

/// Relies on `serde_json::from_str::<serde_json::Value>`: it succeeds exactly
/// on well-formed JSON, and what it yields depends on the text alone. `{}`
/// and `null` are well-formed.
#[verifier::external_body]
pub(crate) fn decode_json(s: &str) -> (r: Option<serde_json::Value>)
    ensures
        r == json_decode(s@),
        s@ == empty_object_text() ==> r.is_some(),
        s@ == null_text() ==> r.is_some(),
{
    serde_json::from_str::<serde_json::Value>(s).ok()
}

/// Relies on the derived `Clone` of `serde_json::Value`, which copies the
/// value.
pub assume_specification[ <serde_json::Value as Clone>::clone ](v: &serde_json::Value) -> (r: serde_json::Value)
    ensures
        r == *v,
;

/// The text of the JSON null.
pub open spec fn null_text() -> Seq<char> {
    seq!['n', 'u', 'l', 'l']
}

/// The JSON null.
pub fn null_value() -> (r: serde_json::Value)
    ensures
        json_decode(null_text()) == Some(r),
{
    proof {
        reveal_strlit("null");
    }
    assert("null"@ =~= null_text());
    decode_json("null").unwrap()
}

/// The value a text denotes, or the JSON null where it is not JSON.
pub open spec fn decoded_or_null(s: Seq<char>) -> serde_json::Value {
    match json_decode(s) {
        Some(v) => v,
        None => json_decode(null_text()).unwrap(),
    }
}

/// Decodes a text, falling back to the JSON null.
pub fn decode_or_null(s: &str) -> (r: serde_json::Value)
    ensures
        r == decoded_or_null(s@),
{
    match decode_json(s) {
        Some(v) => v,
        None => null_value(),
    }
}

/// An empty JSON object.
pub fn empty_object() -> (r: serde_json::Value)
    ensures
        json_decode(empty_object_text()) == Some(r),
{
    proof {
        reveal_strlit("{}");
    }
    assert("{}"@ =~= empty_object_text());
    decode_json("{}").unwrap()
}

} // verus!
