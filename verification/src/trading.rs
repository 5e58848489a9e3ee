//! Reading a credentials document as JSON.

use vstd::prelude::*;

verus! {

/// `json::JsonValue`: a JSON value as the `json` crate holds it.
#[verifier::external_type_specification]
#[verifier::external_body]
pub struct ExJsonValue(json::JsonValue);

/// A JSON value. A number is kept as the `json` crate keeps it: a sign, an
/// integer mantissa and a decimal exponent, its value being
/// `± mantissa * 10^exponent`. An object keeps its members in document order.
#[derive(Debug)]
pub enum Json {
    Null,
    Boolean(bool),
    Number { positive: bool, mantissa: u64, exponent: i16 },
    String(String),
    Array(Vec<Json>),
    Object(Vec<(String, Json)>),
}

/// Why a text is no JSON document, as the `json` crate reports it.
#[derive(Clone, Debug, PartialEq, Eq)]
pub enum JsonError {
    UnexpectedCharacter { ch: char, line: usize, column: usize },
    UnexpectedEndOfJson,
    ExceededDepthLimit,
    FailedUtf8Parsing,
    WrongType(String),
}

/// What `json::parse` makes of `source`: the document's value, or the error
/// it reports.
pub uninterp spec fn json_parse_result(source: Seq<char>) -> Result<Json, JsonError>;

/// Turns a `json::JsonValue` into a [`Json`], variant by variant: short and
/// long strings both become `String`, a number its `as_parts`, an object its
/// members in the order of `Object::iter`.
#[verifier::external_body]
fn json_from_value(value: json::JsonValue) -> Json {
    match value {
        json::JsonValue::Null => Json::Null,
        json::JsonValue::Short(text) => Json::String(text.as_str().to_owned()),
        json::JsonValue::String(text) => Json::String(text),
        json::JsonValue::Number(number) => {
            let (positive, mantissa, exponent) = number.as_parts();
            Json::Number { positive, mantissa, exponent }
        },
        json::JsonValue::Boolean(flag) => Json::Boolean(flag),
        json::JsonValue::Object(members) => Json::Object(
            members.iter().map(|(key, member)| (key.to_owned(), json_from_value(member.clone()))).collect(),
        ),
        json::JsonValue::Array(items) => Json::Array(items.into_iter().map(json_from_value).collect()),
    }
}

/// Parses with `json::parse`, the value and the error carried over variant
/// by variant. Claimed: the result is `json_parse_result(source)`.
#[verifier::external_body]
fn json_parse(source: &str) -> (res: Result<Json, JsonError>)
    ensures
        res == json_parse_result(source@),
{
    match json::parse(source) {
        Ok(value) => Ok(json_from_value(value)),
        Err(json::Error::UnexpectedCharacter { ch, line, column }) => Err(
            JsonError::UnexpectedCharacter { ch, line, column },
        ),
        Err(json::Error::UnexpectedEndOfJson) => Err(JsonError::UnexpectedEndOfJson),
        Err(json::Error::ExceededDepthLimit) => Err(JsonError::ExceededDepthLimit),
        Err(json::Error::FailedUtf8Parsing) => Err(JsonError::FailedUtf8Parsing),
        Err(json::Error::WrongType(expected)) => Err(JsonError::WrongType(expected)),
    }
}

/// Reads a credentials document: the JSON value of `json_string`, or why it
/// is no JSON document.
pub fn read_cred(json_string: &str) -> (res: Result<Json, JsonError>)
    ensures
        res == json_parse_result(json_string@),
{
    json_parse(json_string)
}

} // verus!
