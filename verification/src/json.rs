//! JSON validation of request bodies, done by `serde_json`.
//!
//! Nothing here is proved about JSON itself. Whether a text is a JSON
//! document is left to `serde_json`, and is given a name so that contracts
//! can speak of it.

use vstd::prelude::*;

verus! {

/// `serde_json::Error`: the error with which `serde_json` rejects a text.
/// It is carried through as it is; nothing is claimed of what it holds.
#[verifier::external_type_specification]
#[verifier::external_body]
pub struct ExJsonError(serde_json::Error);

/// `serde_json::Value`: a parsed JSON document. It is carried through as it
/// is; nothing is claimed of what it holds.
#[verifier::external_type_specification]
#[verifier::external_body]
pub struct ExJsonValue(serde_json::Value);

/// Whether `serde_json::from_str::<serde_json::Value>` accepts `text`.
pub uninterp spec fn parses_as_json(text: Seq<char>) -> bool;

/// Calls `serde_json::from_str::<serde_json::Value>` on `body`. The call
/// reads nothing but `body`, so whether it succeeds depends on the text
/// alone: that is all the contract claims, by naming the answer.
#[verifier::external_body]
pub(crate) fn parse_value(body: &str) -> (r: Result<serde_json::Value, serde_json::Error>)
    ensures
        r is Ok <==> parses_as_json(body@),
{
    serde_json::from_str::<serde_json::Value>(body)
}

/// What a parse has to report: nothing when it succeeded, and otherwise the
/// error it failed with.
pub fn parse_failure(outcome: Result<serde_json::Value, serde_json::Error>) -> (r: Option<
    serde_json::Error,
>)
    ensures
        outcome is Ok ==> r is None,
        outcome is Err ==> r == Some(outcome->Err_0),
{
    match outcome {
        Ok(_) => None,
        Err(e) => Some(e),
    }
}

} // verus!
