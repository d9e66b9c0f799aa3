//! What this crate reads out of JSON texts, by way of `serde_json`.
//!
//! Nothing in this file is proved. Each item states what the named function
//! of `serde_json` does, and the rest of the crate is proved from that.

use vstd::prelude::*;
use crate::model::text_view;

verus! {

/// `serde_json::Value`, a parsed JSON document. Opaque to the proofs.
#[verifier::external_type_specification]
#[verifier::external_body]
pub struct ExJsonValue(serde_json::Value);

/// `serde_json::Error`, the reason a text is not JSON. Opaque to the proofs.
#[verifier::external_type_specification]
#[verifier::external_body]
pub struct ExJsonError(serde_json::Error);

/// The document that `serde_json::from_str` reads from a text, or `None`
/// where it reports an error.
pub uninterp spec fn json_document(text: Seq<char>) -> Option<serde_json::Value>;

/// The numbers a document holds two objects deep: `(section, key)` is
/// mapped to the bit pattern of the double that `as_f64` gives for
/// `document[section][key]`, wherever that member is a JSON number.
pub uninterp spec fn json_numbers(document: serde_json::Value) -> Map<(Seq<char>, Seq<char>), u64>;

/// The strings a document holds at its top level: `key` is mapped to the
/// text of `document[key]`, wherever that member is a JSON string.
pub uninterp spec fn json_strings(document: serde_json::Value) -> Map<Seq<char>, Seq<char>>;

/// Parses a text as JSON.
///
/// Calls `serde_json::from_str` for a `Value`. The contract only names the
/// outcome: the same text always gives the same document or is always
/// refused.
#[verifier::external_body]
pub(crate) fn parse_document(text: &str) -> (parsed: Result<serde_json::Value, serde_json::Error>)
    ensures
        match parsed {
            Ok(document) => json_document(text@) == Some(document),
            Err(_) => json_document(text@) is None,
        },
{
    serde_json::from_str::<serde_json::Value>(text)
}

/// The number at `document[section][key]`, as the bits of a double.
///
/// Indexes the `Value` twice and calls `Value::as_f64`. Indexing gives JSON
/// null where a key is absent or the value is no object, and `as_f64` gives
/// `None` for anything that is not a number, so absent and non-numeric
/// members both come back as `None`.
#[verifier::external_body]
pub(crate) fn number_at(document: &serde_json::Value, section: &str, key: &str) -> (bits: Option<
    u64,
>)
    ensures
        bits == json_numbers(*document).get((section@, key@)),
{
    document[section][key].as_f64().map(|number| number.to_bits())
}

/// The string at `document[key]`.
///
/// Indexes the `Value` and calls `Value::as_str`, which gives `None` for
/// anything that is not a string, an absent member included.
#[verifier::external_body]
pub(crate) fn string_at(document: &serde_json::Value, key: &str) -> (text: Option<String>)
    ensures
        text_view(text) == json_strings(*document).get(key@),
{
    document[key].as_str().map(|text| text.to_owned())
}

} // verus!
