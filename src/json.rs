//! What the library takes from serde_json and chrono.
use vstd::prelude::*;

verus! {

#[verifier::external_type_specification]
#[verifier::external_body]
pub struct ExValue(serde_json::Value);

/// What a member of a JSON object holds, as far as a command reads it.
#[derive(Clone, Copy, Debug, PartialEq, Eq)]
pub enum JsonField {
    Absent,
    Null,
    Bool(bool),
    Other,
}

/// The document that serde_json reads from a text, if the text is JSON.
pub uninterp spec fn json_parse(text: Seq<char>) -> Option<serde_json::Value>;

/// Whether a document is a JSON object.
pub uninterp spec fn json_is_object(v: serde_json::Value) -> bool;

/// What the member `key` of a document holds.
pub uninterp spec fn json_member(v: serde_json::Value, key: Seq<char>) -> JsonField;

/// The JSON string literal, quoted and escaped, that serde_json writes for a text.
pub uninterp spec fn json_quoted(s: Seq<char>) -> Seq<char>;

/// Relies on serde_json::from_str into a `Value`: the document depends on the
/// text alone, and is absent where the text is not JSON.
#[verifier::external_body]
pub(crate) fn parse_json(text: &str) -> (r: Option<serde_json::Value>)
    ensures
        r == json_parse(text@),
{
    serde_json::from_str::<serde_json::Value>(text).ok()
}

/// Relies on serde_json's `Value::is_object`.
pub assume_specification[ serde_json::Value::is_object ](v: &serde_json::Value) -> (r: bool)
    ensures
        r == json_is_object(*v),
;

/// Relies on serde_json's `Value::get` with a string key: `None` where the
/// member is missing or the document is no object; the variant of the member
/// otherwise.
#[verifier::external_body]
pub(crate) fn member(v: &serde_json::Value, key: &str) -> (r: JsonField)
    ensures
        r == json_member(*v, key@),
{
    match v.get(key) {
        None => JsonField::Absent,
        Some(serde_json::Value::Null) => JsonField::Null,
        Some(serde_json::Value::Bool(b)) => JsonField::Bool(*b),
        Some(_) => JsonField::Other,
    }
}

/// Relies on serde_json::to_string on a `str`: a string literal that depends on
/// the text alone. Serializing a `str` into memory has no failing path.
#[verifier::external_body]
pub(crate) fn quote_json(s: &str) -> (r: Option<String>)
    ensures
        r is Some,
        r->Some_0@ == json_quoted(s@),
{
    serde_json::to_string(s).ok()
}

/// Relies on chrono's `Local::now` and `to_rfc3339_opts`: the local time now,
/// written in RFC 3339 with as many fraction digits as needed. Nothing about it
/// is stated: it depends on the clock and on the machine's time zone.
#[verifier::external_body]
pub fn local_timestamp() -> (r: String) {
    chrono::Local::now().to_rfc3339_opts(chrono::SecondsFormat::AutoSi, true)
}

} // verus!
