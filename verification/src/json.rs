//! The JSON text layer. Reading and writing JSON is the work of `serde_json`;
//! this module states what the rest of the library relies on from it. Nothing
//! here is proved: each item says what it takes on trust.

use vstd::prelude::*;

verus! {

/// What a JSON value is, as far as the bridge tells values apart.
pub enum Json {
    /// An object, with its members by name.
    Object(Map<Seq<char>, Json>),
    /// A string, with its characters.
    Text(Seq<char>),
    /// A number that is an integer of 64 signed bits.
    Integer(i64),
    /// Anything else: `null`, a boolean, any other number, an array.
    Other,
}

/// `serde_json::Value`, a JSON value. Nothing of its inside is known here;
/// what it holds goes by the name `model`.
#[verifier::external_type_specification]
#[verifier::external_body]
pub struct ExValue(serde_json::Value);

/// `serde_json::Error`, carried from a failed call to the place that turns
/// it into an error of the library.
#[verifier::external_type_specification]
#[verifier::external_body]
pub struct ExError(serde_json::Error);

/// What a `serde_json::Value` holds.
pub uninterp spec fn model(value: serde_json::Value) -> Json;

/// The value that `serde_json::from_str` reads from a text, or `None` where
/// it rejects the text. What is JSON, and which value a text stands for, is
/// decided there.
pub uninterp spec fn parsed(text: Seq<char>) -> Option<Json>;

/// The JSON string literal that `serde_json::to_string` writes for a string:
/// quoted, with the escapes that JSON requires.
pub uninterp spec fn string_literal(text: Seq<char>) -> Seq<char>;

/// Calls `serde_json::from_str` for a `serde_json::Value`. Trusted: the
/// outcome depends on the text alone, so what the value holds is the named
/// `parsed(text)`; an error stands for `None`.
#[verifier::external_body]
pub(crate) fn parse(text: &str) -> (outcome: Result<serde_json::Value, serde_json::Error>)
    ensures
        match outcome {
            Ok(value) => parsed(text@) == Some(model(value)),
            Err(_) => parsed(text@) is None,
        },
{
    serde_json::from_str::<serde_json::Value>(text)
}

/// Calls `serde_json::Value::get` with a string key. Trusted: on an object
/// that has a member of that name the call returns the member, and on
/// anything else it returns `None`.
#[verifier::external_body]
pub(crate) fn lookup<'a>(value: &'a serde_json::Value, key: &str) -> (found: Option<
    &'a serde_json::Value,
>)
    ensures
        match found {
            Some(inner) => model(*value) matches Json::Object(members) && members.contains_key(
                key@,
            ) && members[key@] == model(*inner),
            None => !(model(*value) matches Json::Object(members) && members.contains_key(key@)),
        },
{
    value.get(key)
}

/// `serde_json::Value::as_str`. Trusted: on a string the call returns its
/// characters, and on anything else it returns `None`.
pub assume_specification<'a>[ serde_json::Value::as_str ](value: &'a serde_json::Value) -> (text:
    Option<&'a str>)
    ensures
        match text {
            Some(s) => model(*value) == Json::Text(s@),
            None => !(model(*value) is Text),
        },
;

/// `serde_json::Value::as_i64`. Trusted: on an integer that fits 64 signed
/// bits the call returns the integer, and on anything else it returns `None`.
pub assume_specification[ serde_json::Value::as_i64 ](value: &serde_json::Value) -> (number:
    Option<i64>)
    ensures
        match number {
            Some(n) => model(*value) == Json::Integer(n),
            None => !(model(*value) is Integer),
        },
;

/// Calls `serde_json::to_string` on a string. Trusted: the call succeeds (it
/// fails only where a value refuses to be written or a map has keys that are
/// not strings, and a string is neither), and what it writes depends on the
/// string alone, so it is the named `string_literal(text)`.
#[verifier::external_body]
pub(crate) fn quote(text: &str) -> (outcome: Result<String, serde_json::Error>)
    ensures
        outcome is Ok,
        outcome matches Ok(literal) ==> literal@ == string_literal(text@),
{
    serde_json::to_string(text)
}

} // verus!
