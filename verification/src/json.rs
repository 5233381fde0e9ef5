//! JSON documents as the decoder sees them: a mathematical model of a parsed
//! value, and the calls into `serde_json` that produce and inspect one.

use serde_json::Value;
use vstd::prelude::*;

verus! {

/// The shape of a JSON value, as far as the decoder reads it.
///
/// An object is a map from member names to values, so a name occurs at most
/// once. The magnitude of a number is left out: nothing here reads it.
pub enum Json {
    Null,
    Bool(bool),
    Number,
    Text(Seq<char>),
    Array(Seq<Json>),
    Object(Map<Seq<char>, Json>),
}

/// `serde_json::Value`, a parsed JSON value. Nothing is seen of it but
/// through the functions below.
#[verifier::external_type_specification]
#[verifier::external_body]
pub struct ExValue(serde_json::Value);

/// `serde_json::Error`, the report of a text that did not parse. Nothing is
/// read from it.
#[verifier::external_type_specification]
#[verifier::external_body]
pub struct ExParseError(serde_json::Error);

/// What a parsed `serde_json::Value` holds.
pub uninterp spec fn json_model(value: Value) -> Json;

/// What each of a list of parsed values holds, in the order of the list.
pub open spec fn json_models(list: Seq<Value>) -> Seq<Json> {
    list.map_values(|value: Value| json_model(value))
}

/// What `serde_json::from_str` makes of a text: the document it parses to,
/// or `None` where it reports an error.
pub uninterp spec fn json_parse(text: Seq<char>) -> Option<Json>;

/// `serde_json::from_str` at type `Value`.
///
/// Trusted: the outcome depends on the text alone, so it is given the name
/// `json_parse`; an `Ok` holds that document, an `Err` means there is none.
#[verifier::external_body]
pub(crate) fn parse_value(text: &str) -> (r: Result<Value, serde_json::Error>)
    ensures
        match r {
            Ok(value) => json_parse(text@) == Some(json_model(value)),
            Err(_) => json_parse(text@) is None,
        },
{
    serde_json::from_str::<Value>(text)
}

/// `Value::get` with a string index.
///
/// Trusted: on an object that has a member called `key` the result is that
/// member's value; on an object without it, and on anything that is not an
/// object, the result is `None`.
#[verifier::external_body]
pub(crate) fn member<'a>(value: &'a Value, key: &str) -> (r: Option<&'a Value>)
    ensures
        match json_model(*value) {
            Json::Object(members) => if members.contains_key(key@) {
                r matches Some(found) && json_model(*found) == members[key@]
            } else {
                r is None
            },
            _ => r is None,
        },
{
    value.get(key)
}

/// `Value::as_array`.
///
/// Trusted: on an array the result is its elements, in order; on anything
/// else it is `None`.
#[verifier::external_body]
pub(crate) fn elements<'a>(value: &'a Value) -> (r: Option<&'a Vec<Value>>)
    ensures
        match json_model(*value) {
            Json::Array(items) => r matches Some(list) && json_models(list@) == items,
            _ => r is None,
        },
{
    value.as_array()
}

/// `Value::as_str`.
///
/// Trusted: on a string the result is its text; on anything else it is
/// `None`.
#[verifier::external_body]
pub(crate) fn text_of<'a>(value: &'a Value) -> (r: Option<&'a str>)
    ensures
        match json_model(*value) {
            Json::Text(text) => r matches Some(s) && s@ == text,
            _ => r is None,
        },
{
    value.as_str()
}

} // verus!
