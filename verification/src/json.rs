//! The crate's JSON boundary: the few fixed look-ups the driver and the
//! API layer need from opaque JSON text, delegated to serde_json behind
//! trusted declarations.
//!
//! Each extraction is a pure function of the text alone, so its result is
//! given a name that the callers' contracts speak of exactly; the logic
//! that consumes an extracted value stands in verified functions that take
//! the value as an argument.

use vstd::prelude::*;

verus! {

/// The "result" member of the first element of the JSON array the text
/// denotes, when the text parses to such a shape; a function of the text
/// alone.
pub uninterp spec fn rpc_result_of(s: Seq<char>) -> Option<Seq<char>>;

/// Relies on serde_json::from_str, serde_json::Value::get and
/// serde_json::Value::as_str: the string at `[0]["result"]` of the parsed
/// text, which depends on the text alone.
#[verifier::external_body]
pub fn extract_first_result(s: &str) -> (r: Option<String>)
    ensures
        match r {
            Some(v) => rpc_result_of(s@) == Some(v@),
            None => rpc_result_of(s@) is None,
        },
{
    match serde_json::from_str::<serde_json::Value>(s) {
        Ok(v) => v
            .get(0)
            .and_then(|e| e.get("result"))
            .and_then(|x| x.as_str())
            .map(|t| t.to_string()),
        Err(_) => None,
    }
}

/// The first element of the "params" member of the JSON object the text
/// denotes, when the text parses to such a shape; a function of the text
/// alone.
pub uninterp spec fn sign_param_of(s: Seq<char>) -> Option<Seq<char>>;

/// Relies on serde_json::from_str, serde_json::Value::get and
/// serde_json::Value::as_str: the string at `["params"][0]` of the parsed
/// text, which depends on the text alone.
#[verifier::external_body]
pub fn extract_sign_param(s: &str) -> (r: Option<String>)
    ensures
        match r {
            Some(v) => sign_param_of(s@) == Some(v@),
            None => sign_param_of(s@) is None,
        },
{
    match serde_json::from_str::<serde_json::Value>(s) {
        Ok(v) => v
            .get("params")
            .and_then(|p| p.get(0))
            .and_then(|x| x.as_str())
            .map(|t| t.to_string()),
        Err(_) => None,
    }
}

/// The member names of the JSON object the text denotes, in serde_json's
/// map order (ascending), when the text parses to an object; a function
/// of the text alone.
pub uninterp spec fn config_keys_of(s: Seq<char>) -> Option<Seq<Seq<char>>>;

/// Relies on serde_json::from_str and serde_json::Map::keys: the sorted
/// member names of the parsed object, which depend on the text alone.
#[verifier::external_body]
pub fn top_level_keys(s: &str) -> (r: Option<Vec<String>>)
    ensures
        match r {
            Some(ks) => config_keys_of(s@) == Some(ks.deep_view()),
            None => config_keys_of(s@) is None,
        },
{
    match serde_json::from_str::<serde_json::Value>(s) {
        Ok(serde_json::Value::Object(m)) => Some(m.keys().cloned().collect()),
        _ => None,
    }
}

} // verus!
