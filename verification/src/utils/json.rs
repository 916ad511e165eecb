//! JSON documents, held as `serde_json::Value` and spoken of through a
//! mathematical model.
//!
//! Values are made and rendered by `serde_json`; the functions here that
//! reach it are trusted. Which document the library builds is proved
//! elsewhere, against the model.

use serde_json::Value;
use vstd::prelude::*;

verus! {

/// A JSON document as a mathematical value. Only the forms that the library
/// builds have a variant.
pub enum Json {
    /// A string.
    Text(Seq<char>),
    /// A non-negative whole number.
    Number(nat),
    /// An array, in order.
    List(Seq<Json>),
    /// An object: its members in the order in which they are written.
    Record(Seq<(Seq<char>, Json)>),
}

/// `serde_json::Value`, a JSON document in memory. The library makes
/// values and hands them on; what one holds is spoken of by `json_of`.
#[verifier::external_type_specification]
#[verifier::external_body]
pub struct ExValue(serde_json::Value);

/// The document that a `serde_json::Value` holds.
pub uninterp spec fn json_of(value: Value) -> Json;

/// The text that `serde_json::to_string` writes for a document.
pub uninterp spec fn compact_text(document: Json) -> Seq<char>;

/// The text that `serde_json::to_string_pretty` writes for a document.
pub uninterp spec fn pretty_text(document: Json) -> Seq<char>;

/// The documents held by a sequence of values.
pub open spec fn jsons_of(values: Seq<Value>) -> Seq<Json> {
    Seq::new(values.len(), |i: int| json_of(values[i]))
}

/// The members held by a sequence of named values.
pub open spec fn members_of(fields: Seq<(String, Value)>) -> Seq<(Seq<char>, Json)> {
    Seq::new(fields.len(), |i: int| (fields[i].0@, json_of(fields[i].1)))
}

/// Whether no two of the fields have the same name.
pub open spec fn distinct_names(fields: Seq<(String, Value)>) -> bool {
    forall|i: int, j: int| 0 <= i < j < fields.len() ==> fields[i].0@ != fields[j].0@
}

/// Trusted: `serde_json::Value::String`. The value holds the given text.
#[verifier::external_body]
pub(crate) fn text_value(text: &str) -> (v: Value)
    ensures
        json_of(v) == Json::Text(text@),
{
    Value::String(text.to_owned())
}

/// Trusted: `serde_json::Value::from` for `u32`. The value holds the given
/// number.
#[verifier::external_body]
pub(crate) fn number_value(number: u32) -> (v: Value)
    ensures
        json_of(v) == Json::Number(number as nat),
{
    Value::from(number)
}

/// Trusted: `serde_json::Value::Array`. The value holds the items' documents
/// in their order.
#[verifier::external_body]
pub(crate) fn list_value(items: Vec<Value>) -> (v: Value)
    ensures
        json_of(v) == Json::List(jsons_of(items@)),
{
    Value::Array(items)
}

/// Trusted: `serde_json::Value::Object`, over a map collected from the
/// fields. With `serde_json` keeping insertion order and no name given
/// twice, the value holds the fields as members in their order.
#[verifier::external_body]
pub(crate) fn record_value(fields: Vec<(String, Value)>) -> (v: Value)
    requires
        distinct_names(fields@),
    ensures
        json_of(v) == Json::Record(members_of(fields@)),
{
    Value::Object(fields.into_iter().collect())
}

/// Trusted: `serde_json::to_string` on a value. It succeeds, and the text
/// is the compact rendering of the document that the value holds.
///
/// It has nothing to fail on: a value holds only null, booleans, numbers,
/// strings, arrays and objects whose keys are strings, and the text is
/// written into memory. The result keeps the shape of the outside
/// function's; an error would come back as its message.
#[verifier::external_body]
pub(crate) fn to_compact(value: &Value) -> (r: Result<String, String>)
    ensures
        r is Ok,
        r matches Ok(text) ==> text@ == compact_text(json_of(*value)),
{
    serde_json::to_string(value).map_err(|e| e.to_string())
}

/// Trusted: `serde_json::to_string_pretty` on a value. It succeeds, and
/// the text is the indented rendering of the document that the value
/// holds, for the reasons given at `to_compact`.
#[verifier::external_body]
pub(crate) fn to_pretty(value: &Value) -> (r: Result<String, String>)
    ensures
        r is Ok,
        r matches Ok(text) ==> text@ == pretty_text(json_of(*value)),
{
    serde_json::to_string_pretty(value).map_err(|e| e.to_string())
}

} // verus!
