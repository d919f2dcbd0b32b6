//! JSON encoding and lookup, through serde_json.

use vstd::prelude::*;

verus! {

/// The JSON string literal that serde_json writes for `s`: quotes and escapes.
pub uninterp spec fn json_quoted(s: Seq<char>) -> Seq<char>;

/// The string member `key` of the JSON object that `text` holds; `None` where
/// `text` is no JSON, no object, lacks `key`, or holds there no string.
pub uninterp spec fn json_str_member(text: Seq<char>, key: Seq<char>) -> Option<Seq<char>>;

/// Relies on serde_json's `Display` for `Value::String`: the compact JSON
/// text of the string.
#[verifier::external_body]
pub(crate) fn quote(s: &str) -> (r: String)
    ensures
        r@ == json_quoted(s@),
{
    serde_json::Value::String(s.to_string()).to_string()
}

/// Relies on `serde_json::from_str` into a `Value`, then `Value::get` and
/// `Value::as_str`: the string under `key` in the parsed object.
#[verifier::external_body]
pub(crate) fn str_member(text: &str, key: &str) -> (r: Option<String>)
    ensures
        r is Some <==> json_str_member(text@, key@) is Some,
        r is Some ==> json_str_member(text@, key@) == Some(r->Some_0@),
{
    serde_json::from_str::<serde_json::Value>(text).ok().and_then(
        |v| v.get(key).and_then(|m| m.as_str()).map(|m| m.to_string()),
    )
}

} // verus!
