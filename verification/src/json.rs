//! Invocations as the shell hands them over: JSON values of `serde_json`,
//! carried through as they are. The bridge asks two things of one: the
//! string under a key, and its JSON text.
//!
//! Both answers depend on the value alone, so each has a name in
//! specifications; what they are in detail is `serde_json`'s business and is
//! taken on trust.

use std::fmt::Write;
use vstd::prelude::*;

verus! {

/// `serde_json::Value`, a JSON value; nothing of it is visible to the
/// verifier but what the two names below say.
#[verifier::external_type_specification]
#[verifier::external_body]
pub struct ExValue(serde_json::Value);

/// `serde_json::Error`, what the serializer says when it fails.
#[verifier::external_type_specification]
#[verifier::external_body]
pub struct ExError(serde_json::Error);

/// The members of a JSON object that are strings, by key. A value that is no
/// object has none.
pub uninterp spec fn string_members(value: serde_json::Value) -> Map<Seq<char>, Seq<char>>;

/// The JSON text of a value, where the serializer gives one.
pub uninterp spec fn json_text(value: serde_json::Value) -> Option<Seq<char>>;

/// `Value::get` with a string key, then `Value::as_str`: the member under
/// `key` if the value is an object that has one and the member is a string.
/// The contract says so over [`string_members`].
#[verifier::external_body]
pub(crate) fn string_member(value: &serde_json::Value, key: &str) -> (member: Option<String>)
    ensures
        match member {
            Some(text) => string_members(*value).contains_key(key@) && string_members(
                *value,
            )[key@] == text@,
            None => !string_members(*value).contains_key(key@),
        },
{
    value.get(key).and_then(serde_json::Value::as_str).map(str::to_owned)
}

/// `serde_json::to_string` on a value. The contract gives the text the name
/// [`json_text`], and says that the call fails exactly where that name has
/// no text.
#[verifier::external_body]
pub(crate) fn serialize(value: &serde_json::Value) -> (outcome: Result<String, serde_json::Error>)
    ensures
        match outcome {
            Ok(text) => json_text(*value) == Some(text@),
            Err(_) => json_text(*value) is None,
        },
{
    serde_json::to_string(value)
}

/// `serde_json::Error`'s `Display`. Nothing is claimed of the text.
#[verifier::external_body]
pub(crate) fn serialization_error_text(error: &serde_json::Error) -> (text: String) {
    let mut text = String::new();
    let _ = write!(text, "{}", error);
    text
}

} // verus!
