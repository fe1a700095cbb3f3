//! The boundary to `serde_json`, which reads and writes the text of documents.
//!
//! Nothing in this file is proved. Each function makes one call into
//! `serde_json` and states what that call is taken to do, in terms of the
//! model of a `serde_json::Value`: the document that the value holds. The
//! statements assume the features `arbitrary_precision`, under which a number
//! keeps the text of its literal, and `preserve_order`, under which an object
//! keeps its members in the order of their insertion.

use crate::document::{Json, Member};
use crate::number::is_number_literal;
use vstd::prelude::*;

verus! {

/// `serde_json::Value`, opaque to the verifier.
#[verifier::external_type_specification]
#[verifier::external_body]
pub struct ExValue(serde_json::Value);

/// The document that a `serde_json::Value` holds: its variant, the text of a
/// number or string, the items of an array in their order, and the members
/// of an object in the order in which the value iterates over them.
pub uninterp spec fn value_model(value: serde_json::Value) -> Json;

/// What `serde_json::from_str` reads from a text as a `Value`: the document
/// that the value holds, or `None` where the call returns an error.
pub uninterp spec fn parsed_text(text: Seq<char>) -> Option<Json>;

/// What `serde_json::to_string` gives for a `Value` that holds the given
/// document: the text, or `None` where the call returns an error.
pub uninterp spec fn printed_text(document: Json) -> Option<Seq<char>>;

/// What `str::parse` reads from a literal as a `serde_json::Number`: the
/// document that the number holds, or `None` where the call returns an
/// error.
pub uninterp spec fn number_read(literal: Seq<char>) -> Option<Json>;

/// The documents that a run of values holds.
pub open spec fn values_model(values: Seq<serde_json::Value>) -> Seq<Json> {
    values.map_values(|value: serde_json::Value| value_model(value))
}

/// The members that a run of borrowed entries holds.
pub open spec fn entries_model(entries: Seq<(&String, &serde_json::Value)>) -> Seq<Member> {
    entries.map_values(
        |entry: (&String, &serde_json::Value)|
            Member { key: entry.0@, value: value_model(*entry.1) },
    )
}

/// The members that a run of owned entries holds.
pub open spec fn members_model(members: Seq<(String, serde_json::Value)>) -> Seq<Member> {
    members.map_values(
        |member: (String, serde_json::Value)|
            Member { key: member.0@, value: value_model(member.1) },
    )
}

/// No two of the entries have the same key.
pub open spec fn keys_differ(members: Seq<Member>) -> bool {
    forall|i: int, j: int|
        0 <= i < j < members.len() ==> (#[trigger] members[i]).key != (#[trigger] members[j]).key
}

/// Calls `serde_json::from_str` for a `Value`. The contract claims that the
/// outcome depends on the text alone: whether the call succeeds, and which
/// document the value holds if it does.
#[verifier::external_body]
pub(crate) fn parse_value(text: &str) -> (parsed: Option<serde_json::Value>)
    ensures
        parsed matches Some(value) ==> parsed_text(text@) == Some(value_model(value)),
        parsed is None ==> parsed_text(text@) is None,
{
    serde_json::from_str::<serde_json::Value>(text).ok()
}

/// Calls `serde_json::to_string` on a `Value`. The contract claims that the
/// outcome depends on the held document alone: whether the call succeeds, and
/// which text it gives if it does.
#[verifier::external_body]
pub(crate) fn print_value(value: &serde_json::Value) -> (printed: Option<String>)
    ensures
        match printed_text(value_model(*value)) {
            Some(text) => printed matches Some(written) && written@ == text,
            None => printed is None,
        },
{
    serde_json::to_string(value).ok()
}

/// Calls `Value::is_null`: true for the variant `Null`, and for no other.
#[verifier::external_body]
pub(crate) fn is_null(value: &serde_json::Value) -> (null: bool)
    ensures
        null == (value_model(*value) is Null),
{
    value.is_null()
}

/// Calls `Value::as_bool`: the boolean of the variant `Bool`, and `None` for
/// every other variant.
#[verifier::external_body]
pub(crate) fn bool_of(value: &serde_json::Value) -> (held: Option<bool>)
    ensures
        match value_model(*value) {
            Json::Bool(b) => held == Some(b),
            _ => held is None,
        },
{
    value.as_bool()
}

/// Calls `Number::as_str` on the number of the variant `Number`: the text
/// that the number keeps. Every other variant gives `None`.
#[verifier::external_body]
pub(crate) fn literal_of<'a>(value: &'a serde_json::Value) -> (held: Option<&'a str>)
    ensures
        match value_model(*value) {
            Json::Number(literal) => held matches Some(text) && text@ == literal,
            _ => held is None,
        },
{
    match value {
        serde_json::Value::Number(number) => Some(number.as_str()),
        _ => None,
    }
}

/// Calls `Value::as_str`: the string of the variant `String`, and `None` for
/// every other variant.
#[verifier::external_body]
pub(crate) fn text_of<'a>(value: &'a serde_json::Value) -> (held: Option<&'a str>)
    ensures
        match value_model(*value) {
            Json::Text(text) => held matches Some(found) && found@ == text,
            _ => held is None,
        },
{
    value.as_str()
}

/// Calls `Value::as_array`: the items of the variant `Array`, and `None` for
/// every other variant.
#[verifier::external_body]
pub(crate) fn items_of<'a>(value: &'a serde_json::Value) -> (held: Option<
    &'a Vec<serde_json::Value>,
>)
    ensures
        match value_model(*value) {
            Json::List(items) => held matches Some(found) && values_model(found@) == items,
            _ => held is None,
        },
{
    value.as_array()
}

/// Calls `Map::iter` on the map of the variant `Object`: its entries, in the
/// order of the iteration. Every other variant gives `None`.
#[verifier::external_body]
pub(crate) fn entries_of<'a>(value: &'a serde_json::Value) -> (held: Option<
    Vec<(&'a String, &'a serde_json::Value)>,
>)
    ensures
        match value_model(*value) {
            Json::Object(members) => held matches Some(found) && entries_model(found@) == members,
            _ => held is None,
        },
{
    match value {
        serde_json::Value::Object(map) => Some(map.iter().collect()),
        _ => None,
    }
}

/// Makes the variant `Null`.
#[verifier::external_body]
pub(crate) fn null_value() -> (value: serde_json::Value)
    ensures
        value_model(value) == Json::Null,
{
    serde_json::Value::Null
}

/// Makes the variant `Bool`.
#[verifier::external_body]
pub(crate) fn bool_value(b: bool) -> (value: serde_json::Value)
    ensures
        value_model(value) == Json::Bool(b),
{
    serde_json::Value::Bool(b)
}

/// Calls `str::parse` for a `serde_json::Number` and makes the variant
/// `Number` of the outcome. The contract claims that the outcome depends on
/// the literal alone, and that a number read from a literal in normal form
/// keeps that literal as its text. It does not claim that the call succeeds.
#[verifier::external_body]
pub(crate) fn number_value(literal: &str) -> (value: Option<serde_json::Value>)
    requires
        is_number_literal(literal@),
    ensures
        match number_read(literal@) {
            Some(model) => value matches Some(made) && value_model(made) == model,
            None => value is None,
        },
        value matches Some(made) ==> value_model(made) == Json::Number(literal@),
{
    match literal.parse::<serde_json::Number>() {
        Ok(number) => Some(serde_json::Value::Number(number)),
        Err(_) => None,
    }
}

/// Makes the variant `String`.
#[verifier::external_body]
pub(crate) fn text_value(text: String) -> (value: serde_json::Value)
    ensures
        value_model(value) == Json::Text(text@),
{
    serde_json::Value::String(text)
}

/// Makes the variant `Array` of the given items.
#[verifier::external_body]
pub(crate) fn list_value(items: Vec<serde_json::Value>) -> (value: serde_json::Value)
    ensures
        value_model(value) == Json::List(values_model(items@)),
{
    serde_json::Value::Array(items)
}

/// Collects entries into a `serde_json::Map` and makes the variant `Object`
/// of it. The contract claims that entries with distinct keys stand in the
/// map in the order in which they were given.
#[verifier::external_body]
pub(crate) fn object_value(members: Vec<(String, serde_json::Value)>) -> (value: serde_json::Value)
    requires
        keys_differ(members_model(members@)),
    ensures
        value_model(value) == Json::Object(members_model(members@)),
{
    serde_json::Value::Object(members.into_iter().collect())
}

} // verus!
