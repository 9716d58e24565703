//! The JSON documents that the token service and the event stream send, as
//! far as this library reads them.
use vstd::prelude::*;

verus! {

#[verifier::external_type_specification]
#[verifier::external_body]
pub struct ExJsonValue(serde_json::Value);

/// The JSON document that `s` holds, if it holds one.
pub uninterp spec fn json_of(s: Seq<char>) -> Option<serde_json::Value>;

/// The value at a JSON pointer (RFC 6901) in a document.
pub uninterp spec fn json_at(v: serde_json::Value, pointer: Seq<char>) -> Option<serde_json::Value>;

/// The text of a JSON string value; `None` for any other value.
pub uninterp spec fn json_str(v: serde_json::Value) -> Option<Seq<char>>;

/// Relies on `serde_json::from_str` into a `Value`: whether it parses, and
/// to what, depends on the text alone.
#[verifier::external_body]
pub(crate) fn parse_json(s: &str) -> (r: Option<serde_json::Value>)
    ensures
        r == json_of(s@),
{
    serde_json::from_str(s).ok()
}

/// Relies on `Value::pointer` of serde_json, which looks up a JSON pointer.
pub assume_specification<'a>[ serde_json::Value::pointer ](
    v: &'a serde_json::Value,
    pointer: &str,
) -> (r: Option<&'a serde_json::Value>)
    ensures
        match r {
            Some(x) => json_at(*v, pointer@) == Some(*x),
            None => json_at(*v, pointer@) is None,
        },
;

/// Relies on `Value::as_str` of serde_json: the text of a string value.
pub assume_specification<'a>[ serde_json::Value::as_str ](v: &'a serde_json::Value) -> (r: Option<&'a str>)
    ensures
        match r {
            Some(s) => json_str(*v) == Some(s@),
            None => json_str(*v) is None,
        },
;

} // verus!
