//! The trusted boundary to the JSON parser. Request messages that are not
//! part of the fixed token vocabulary are JSON objects; reading their
//! members is delegated to `serde_json`. Each member a handler consumes is
//! named as a function of the message text alone, so the dispatcher's
//! contracts pin the outcome for every well-formed request.

use vstd::prelude::*;

verus! {

/// Whether a text is accepted by the JSON parser; acceptance is a function
/// of the text alone.
pub uninterp spec fn json_wellformed(s: Seq<char>) -> bool;

/// The `function` member of the text, where the text is a JSON document
/// whose `function` member is a string; nothing otherwise. A function of
/// the text alone.
pub uninterp spec fn json_function_of(s: Seq<char>) -> Option<Seq<char>>;

/// The string member `key` of the text's `parameters` member, where the
/// text is a JSON document carrying such a string; nothing otherwise. A
/// function of the text and the key alone.
pub uninterp spec fn json_string_param(s: Seq<char>, key: Seq<char>) -> Option<Seq<char>>;

/// Relies on `serde_json::from_str::<Value>`, `Value::get` and
/// `Value::as_str`: reads the request's function name. A malformed text
/// has no members, so it yields nothing.
#[verifier::external_body]
pub fn parse_function_name(s: &str) -> (r: Option<String>)
    ensures
        (r is Some) == (json_function_of(s@) is Some),
        r matches Some(name) ==> json_function_of(s@) == Some(name@),
        !json_wellformed(s@) ==> r is None,
{
    let v: serde_json::Value = match serde_json::from_str(s) {
        Ok(v) => v,
        Err(_) => {
            return None;
        },
    };
    v.get("function").and_then(|f| f.as_str()).map(String::from)
}

/// Relies on `serde_json::from_str::<Value>`, `Value::get` and
/// `Value::as_str`: reads one string member of the request's `parameters`
/// object.
#[verifier::external_body]
pub fn parse_string_parameter(s: &str, key: &str) -> (r: Option<String>)
    ensures
        (r is Some) == (json_string_param(s@, key@) is Some),
        r matches Some(value) ==> json_string_param(s@, key@) == Some(value@),
{
    let v: serde_json::Value = match serde_json::from_str(s) {
        Ok(v) => v,
        Err(_) => {
            return None;
        },
    };
    v.get("parameters").and_then(|p| p.get(key)).and_then(|x| x.as_str()).map(String::from)
}

} // verus!
