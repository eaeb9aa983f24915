//! JSON values, as `serde_json` holds and reads them.

use vstd::prelude::*;

verus! {

/// A JSON value of `serde_json`. Nothing is known of what it holds.
#[verifier::external_type_specification]
#[verifier::external_body]
pub struct ExJsonValue(serde_json::Value);

/// Why `serde_json` could not read a text. Nothing is known of it.
#[verifier::external_type_specification]
#[verifier::external_body]
pub struct ExJsonError(serde_json::Error);

/// What `serde_json::from_str` reads from `text`: the JSON value that the
/// text stands for, or nothing where the text is not one JSON value.
pub uninterp spec fn json_read(text: Seq<char>) -> Option<serde_json::Value>;

/// Whether `text` is read as one JSON value.
pub open spec fn json_well_formed(text: Seq<char>) -> bool {
    json_read(text) is Some
}

/// The JSON value that `text` is read as, where it is read as one.
pub open spec fn json_value(text: Seq<char>) -> serde_json::Value {
    json_read(text)->Some_0
}

/// Reads `text` as a JSON value with `serde_json::from_str`. The call
/// gives what `json_read` names: the same text is always read as the same
/// value, or always refused. Nothing is claimed of the error.
#[verifier::external_body]
pub(crate) fn parse_value(text: &str) -> (r: Result<serde_json::Value, serde_json::Error>)
    ensures
        match r {
            Ok(value) => json_read(text@) == Some(value),
            Err(_) => json_read(text@) is None,
        },
{
    serde_json::from_str::<serde_json::Value>(text)
}

/// Copies a JSON value with `serde_json::Value::clone`: the copy is the
/// same value.
#[verifier::external_body]
pub(crate) fn clone_value(value: &serde_json::Value) -> (r: serde_json::Value)
    ensures
        r == *value,
{
    value.clone()
}

/// The text that `serde_json::Error` displays for a failure.
pub uninterp spec fn json_error_text(error: serde_json::Error) -> Seq<char>;

/// The text that `serde_json::Error` displays: the text that
/// `json_error_text` names, which depends on the failure alone.
#[verifier::external_body]
pub(crate) fn error_text(error: &serde_json::Error) -> (text: String)
    ensures
        text@ == json_error_text(*error),
{
    error.to_string()
}

/// The JSON text that `serde_json::Value` displays for a value.
pub uninterp spec fn json_text(value: serde_json::Value) -> Seq<char>;

/// The JSON text of a value, as `serde_json::Value` displays it: the text
/// that `json_text` names, which depends on the value alone.
#[verifier::external_body]
pub(crate) fn value_text(value: &serde_json::Value) -> (text: String)
    ensures
        text@ == json_text(*value),
{
    value.to_string()
}

/// The members of a JSON value that are texts, by name: a value that is
/// an object has those of its members whose value is a JSON string, and any
/// other value has none.
pub uninterp spec fn text_members(value: serde_json::Value) -> Map<Seq<char>, Seq<char>>;

/// The members of a JSON value that are numbers from 0 to the largest
/// `u64`, by name: a value that is an object has those of its members whose
/// value is such a number, written without a fraction, and any other value
/// has none.
pub uninterp spec fn number_members(value: serde_json::Value) -> Map<Seq<char>, u64>;

/// What `members` hold under the name `key`, if anything.
pub open spec fn member<V>(members: Map<Seq<char>, V>, key: Seq<char>) -> Option<V> {
    if members.dom().contains(key) {
        Some(members[key])
    } else {
        None
    }
}

/// The text under the name `key` of a JSON value, by `Value::get` and
/// `Value::as_str` of `serde_json`: `get` finds a member of an object by
/// its name and nothing in any other value, and `as_str` gives the text of
/// a JSON string and nothing for any other value. So the result is the text
/// member of that name, which `text_members` names.
#[verifier::external_body]
pub(crate) fn str_field(value: &serde_json::Value, key: &str) -> (r: Option<String>)
    ensures
        r.deep_view() == member(text_members(*value), key@),
{
    match value.get(key) {
        Some(member) => match member.as_str() {
            Some(text) => Some(text.to_owned()),
            None => None,
        },
        None => None,
    }
}

/// The number under the name `key` of a JSON value, by `Value::get` and
/// `Value::as_u64` of `serde_json`: `get` finds a member of an object by
/// its name and nothing in any other value, and `as_u64` gives a number
/// that is a whole number from 0 on and nothing for any other value. So the
/// result is the number member of that name, which `number_members` names.
#[verifier::external_body]
pub(crate) fn u64_field(value: &serde_json::Value, key: &str) -> (r: Option<u64>)
    ensures
        r == member(number_members(*value), key@),
{
    match value.get(key) {
        Some(member) => member.as_u64(),
        None => None,
    }
}

/// A copy of an optional JSON value.
pub fn clone_opt_value(value: &Option<serde_json::Value>) -> (r: Option<serde_json::Value>)
    ensures
        r == *value,
{
    match value {
        Some(v) => Some(clone_value(v)),
        None => None,
    }
}

} // verus!
