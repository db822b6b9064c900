//! The `steps` column: a plan's steps as one JSON array of strings.
//!
//! The text is written and read by `serde_json`. What it writes for a given
//! list, and what it makes of a given text, are named here and not spelled
//! out; the contracts of this module speak of those names.

use vstd::prelude::*;
use crate::error::StoreError;
use crate::record::Plan;

verus! {

/// `serde_json::Error`, why a text was not written or not read. Opaque to the
/// verifier.
#[verifier::external_type_specification]
#[verifier::external_body]
pub struct ExJsonError(serde_json::Error);

/// The JSON text that `serde_json::to_string` writes for a list of strings,
/// or `None` where it reports an error.
pub uninterp spec fn json_text(steps: Seq<Seq<char>>) -> Option<Seq<char>>;

/// The list of strings that `serde_json::from_str` reads from a text, or
/// `None` where it reports an error: the text is then no JSON array of
/// strings.
pub uninterp spec fn json_steps(text: Seq<char>) -> Option<Seq<Seq<char>>>;

/// Calls `serde_json::to_string` on a list of strings. The call reads nothing
/// but its argument, so its outcome is [`json_text`] of that list: the text on
/// success, `None` on an error.
#[verifier::external_body]
fn to_json(steps: &Vec<String>) -> (r: Result<String, serde_json::Error>)
    ensures
        match r {
            Ok(text) => json_text(steps.deep_view()) == Some(text@),
            Err(_) => json_text(steps.deep_view()) is None,
        },
{
    serde_json::to_string(steps)
}

/// Calls `serde_json::from_str` for a list of strings. The call reads nothing
/// but its argument, so its outcome is [`json_steps`] of that text: the list
/// on success, `None` on an error.
#[verifier::external_body]
fn from_json(text: &str) -> (r: Result<Vec<String>, serde_json::Error>)
    ensures
        match r {
            Ok(steps) => json_steps(text@) == Some(steps.deep_view()),
            Err(_) => json_steps(text@) is None,
        },
{
    serde_json::from_str(text)
}

/// Writes the steps of `plan` as the text of the `steps` column.
///
/// Succeeds exactly where the encoder does, with its text; otherwise the
/// error is [`StoreError::Encode`].
pub fn encode_plan(plan: &Plan) -> (r: Result<String, StoreError>)
    ensures
        match r {
            Ok(text) => json_text(plan@) == Some(text@),
            Err(e) => e is Encode && json_text(plan@) is None,
        },
{
    match to_json(&plan.steps) {
        Ok(text) => Ok(text),
        Err(e) => Err(StoreError::Encode(e)),
    }
}

/// Reads a plan from the text of a `steps` column.
///
/// Succeeds exactly where the text is a JSON array of strings, with those
/// strings in their order as the steps; otherwise the error is
/// [`StoreError::Decode`].
pub fn decode_plan(text: &str) -> (r: Result<Plan, StoreError>)
    ensures
        match r {
            Ok(plan) => json_steps(text@) == Some(plan@),
            Err(e) => e is Decode && json_steps(text@) is None,
        },
{
    match from_json(text) {
        Ok(steps) => Ok(Plan { steps }),
        Err(e) => Err(StoreError::Decode(e)),
    }
}

} // verus!
