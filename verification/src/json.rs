//! Reading members out of JSON text.

use vstd::prelude::*;
use vstd::string::*;

verus! {

/// The string that the JSON document `text` holds under `key`: what
/// `serde_json` finds when it parses `text` and looks `key` up in the value.
/// `None` where `text` is not JSON, is not an object, has no such member, or
/// holds something other than a string there.
pub uninterp spec fn json_string_member(text: Seq<char>, key: Seq<char>) -> Option<Seq<char>>;

/// Calls `serde_json::from_str` for a `serde_json::Value`, then
/// `Value::get` with `key` and `Value::as_str` on the member. The contract
/// claims that the outcome is a function of the two arguments, and names it
/// `json_string_member`.
#[verifier::external_body]
pub(crate) fn string_member(text: &str, key: &str) -> (r: Option<String>)
    ensures
        r.deep_view() == json_string_member(text@, key@),
{
    let parsed: Result<serde_json::Value, serde_json::Error> = serde_json::from_str(text);
    match parsed {
        Ok(value) => value.get(key).and_then(|member| member.as_str()).map(String::from),
        Err(_) => None,
    }
}

} // verus!
