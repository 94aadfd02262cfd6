//! Reading members of a JSON document with `serde_json`.
//!
//! What the parser makes of a text takes the JSON grammar to state, so the
//! results are named: each name is a function of the text and the key alone.

use vstd::prelude::*;

verus! {

/// Names the member `key` of the JSON document `text` read as an unsigned
/// integer: `None` when the text is not JSON, is not an object, lacks the member,
/// or the member is not an integer that fits in `u64`.
pub uninterp spec fn json_u64_member(text: Seq<char>, key: Seq<char>) -> Option<u64>;

/// Names the member `key` of the JSON document `text` read as a string: `None`
/// when the text is not JSON, is not an object, lacks the member, or the member
/// is not a string.
pub uninterp spec fn json_str_member(text: Seq<char>, key: Seq<char>) -> Option<Seq<char>>;

/// Names the message of the error `serde_json` reports for `text` when it is
/// not a JSON document, and `None` when it is one.
pub uninterp spec fn json_parse_error(text: Seq<char>) -> Option<Seq<char>>;

/// Parses `text` with `serde_json::from_str` into a `serde_json::Value` and reads
/// member `key` with `Value::get` and `Value::as_u64`. The contract claims only
/// that the answer is a function of the text and the key.
#[verifier::external_body]
pub(crate) fn json_member_u64(text: &str, key: &str) -> (r: Option<u64>)
    ensures
        r == json_u64_member(text@, key@),
{
    let value: serde_json::Value = serde_json::from_str(text).ok()?;
    value.get(key)?.as_u64()
}

/// Parses `text` with `serde_json::from_str` into a `serde_json::Value` and reads
/// member `key` with `Value::get` and `Value::as_str`. The contract claims only
/// that the answer is a function of the text and the key.
#[verifier::external_body]
pub(crate) fn json_member_str(text: &str, key: &str) -> (r: Option<String>)
    ensures
        r matches Some(s) ==> json_str_member(text@, key@) == Some(s@),
        r is None ==> json_str_member(text@, key@) is None,
{
    let value: serde_json::Value = serde_json::from_str(text).ok()?;
    value.get(key)?.as_str().map(str::to_owned)
}

/// Parses `text` with `serde_json::from_str` into a `serde_json::Value` and gives
/// the `Display` text of the error, if any. The contract claims only that the
/// answer is a function of the text.
#[verifier::external_body]
pub(crate) fn json_error_text(text: &str) -> (r: Option<String>)
    ensures
        r matches Some(s) ==> json_parse_error(text@) == Some(s@),
        r is None ==> json_parse_error(text@) is None,
{
    serde_json::from_str::<serde_json::Value>(text).err().map(|e| e.to_string())
}

} // verus!
