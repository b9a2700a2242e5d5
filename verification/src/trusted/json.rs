//! JSON parsing as `serde_json` performs it.

use vstd::prelude::*;

verus! {

/// A parsed JSON document; nothing inside it is read here.
#[verifier::external_type_specification]
#[verifier::external_body]
pub struct ExJsonValue(serde_json::Value);

/// Why `serde_json` refused a text; nothing inside it is read here.
#[verifier::external_type_specification]
#[verifier::external_body]
pub struct ExJsonError(serde_json::Error);

/// The document that `serde_json::from_str` reads from `text` as a
/// `serde_json::Value`, or `None` where it refuses the text.
pub uninterp spec fn parsed_json(text: Seq<char>) -> Option<serde_json::Value>;

/// Calls `serde_json::from_str::<serde_json::Value>`. The parser reads
/// nothing but `text`, so its answer is a function of `text`: success or
/// refusal, and on success the value, are what [`parsed_json`] names.
#[verifier::external_body]
pub(crate) fn parse_json(text: &str) -> (parsed: Result<serde_json::Value, serde_json::Error>)
    ensures
        parsed matches Ok(value) ==> parsed_json(text@) == Some(value),
        parsed is Err ==> parsed_json(text@) is None,
{
    serde_json::from_str::<serde_json::Value>(text)
}

} // verus!
