//! Trusted access to the JSON documents the weather provider returns.
//!
//! serde_json's results depend on their arguments alone, so the two facts
//! the weather logic needs — whether a body parses, and which string sits
//! under a two-key path — are given names here, and the wrappers promise
//! exactly those names. The verified weather logic owes its outcome for
//! every value of them.

use vstd::prelude::*;

verus! {

/// Whether a text is a valid JSON document, as serde_json decides it.
pub uninterp spec fn spec_json_parses(body: Seq<char>) -> bool;

/// The string under `outer.inner` of the JSON document `body`: `None` when
/// the body is not valid JSON, when the path is absent, or when the value
/// there is not a string.
pub uninterp spec fn spec_nested_str(body: Seq<char>, outer: Seq<char>, inner: Seq<char>) -> Option<
    Seq<char>,
>;

/// Relies on `serde_json::from_str`: whether the text is valid JSON. The
/// answer depends on the text alone.
#[verifier::external_body]
pub(crate) fn json_parses(body: &str) -> (r: bool)
    ensures
        r == spec_json_parses(body@),
{
    serde_json::from_str::<serde_json::Value>(body).is_ok()
}

/// Relies on `serde_json::from_str`, `Value::get` and `Value::as_str`:
/// parses the body and reads the string under `outer.inner`, `None` at the
/// first step that fails. The result depends on the arguments alone.
#[verifier::external_body]
pub(crate) fn extract_nested_str(body: &str, outer: &str, inner: &str) -> (r: Option<String>)
    ensures
        match (r, spec_nested_str(body@, outer@, inner@)) {
            (Some(s), Some(v)) => s@ == v,
            (None, None) => true,
            _ => false,
        },
{
    let doc: serde_json::Value = match serde_json::from_str(body) {
        Ok(doc) => doc,
        Err(_) => return None,
    };
    match doc.get(outer) {
        Some(v) => match v.get(inner) {
            Some(w) => w.as_str().map(str::to_owned),
            None => None,
        },
        None => None,
    }
}

} // verus!
