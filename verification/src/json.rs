//! JSON documents, as `serde_json` values that `sonic_rs` reads.

use indexmap::IndexMap;
use serde_json::Value;
use vstd::prelude::*;

verus! {

/// A JSON document. A number is kept as `serde_json` writes it once it was read.
pub enum JsonView {
    Null,
    Bool(bool),
    Number(Seq<char>),
    Text(Seq<char>),
    Array(Seq<JsonView>),
    Object(Seq<(Seq<char>, JsonView)>),
}

/// `serde_json::Value`, whose content is [`json_view`].
#[verifier::external_type_specification]
#[verifier::external_body]
pub struct ExJsonValue(serde_json::Value);

/// `indexmap::IndexMap`, whose content is [`fields_of`].
#[verifier::external_type_specification]
#[verifier::external_body]
#[verifier::reject_recursive_types(K)]
#[verifier::reject_recursive_types(V)]
#[verifier::reject_recursive_types(S)]
pub struct ExIndexMap<K, V, S>(indexmap::IndexMap<K, V, S>);

/// The document that a `serde_json::Value` holds.
pub uninterp spec fn json_view(value: Value) -> JsonView;

/// The entries that an `IndexMap` holds, in its order.
pub uninterp spec fn fields_of(map: IndexMap<String, Value>) -> Seq<(Seq<char>, JsonView)>;

/// The documents that a sequence of values holds.
pub open spec fn json_views(values: Seq<Value>) -> Seq<JsonView> {
    values.map_values(|value: Value| json_view(value))
}

/// What `sonic_rs::from_slice` reads from bytes: a document, or the words of
/// the error.
pub uninterp spec fn json_document(data: Seq<u8>) -> Result<JsonView, Seq<char>>;

/// `sonic_rs::from_slice` for a `serde_json::Value`. Its result is named
/// [`json_document`].
#[verifier::external_body]
pub(crate) fn json_from_slice(data: &[u8]) -> (r: Result<Value, String>)
    ensures
        match r {
            Ok(value) => json_document(data@) == Ok::<JsonView, Seq<char>>(json_view(value)),
            Err(message) => json_document(data@) == Err::<JsonView, Seq<char>>(message@),
        },
{
    match sonic_rs::from_slice::<Value>(data) {
        Ok(value) => Ok(value),
        Err(e) => Err(e.to_string()),
    }
}

/// What `sonic_rs::from_str` reads from text: a document, or the words of the
/// error.
pub uninterp spec fn json_text_document(text: Seq<char>) -> Result<JsonView, Seq<char>>;

/// `sonic_rs::from_str` for a `serde_json::Value`. Its result is named
/// [`json_text_document`].
#[verifier::external_body]
pub(crate) fn json_from_str(text: &str) -> (r: Result<Value, String>)
    ensures
        match r {
            Ok(value) => json_text_document(text@) == Ok::<JsonView, Seq<char>>(json_view(value)),
            Err(message) => json_text_document(text@) == Err::<JsonView, Seq<char>>(message@),
        },
{
    match sonic_rs::from_str::<Value>(text) {
        Ok(value) => Ok(value),
        Err(e) => Err(e.to_string()),
    }
}

/// The text that `serde_json::to_string` writes for a document.
pub uninterp spec fn json_text(document: JsonView) -> Seq<char>;

/// `serde_json::to_string` on a value. It succeeds, since a value's keys are
/// strings and its own serialisation never fails; the text is named
/// [`json_text`].
#[verifier::external_body]
pub(crate) fn json_to_string(value: &Value) -> (r: Option<String>)
    ensures
        r is Some,
        r->Some_0@ == json_text(json_view(*value)),
{
    serde_json::to_string(value).ok()
}

/// `serde_json::Value::as_array`: the items of an array, and nothing for any
/// other document.
#[verifier::external_body]
pub(crate) fn json_array(value: &Value) -> (r: Option<&Vec<Value>>)
    ensures
        match r {
            Some(items) => json_view(*value) == JsonView::Array(json_views(items@)),
            None => !(json_view(*value) is Array),
        },
{
    value.as_array()
}

/// `serde_json::Value::is_object`.
#[verifier::external_body]
pub(crate) fn json_is_object(value: &Value) -> (r: bool)
    ensures
        r == (json_view(*value) is Object),
{
    value.is_object()
}

/// `serde_json::Value::as_str`: the text of a string, and nothing for any
/// other document.
#[verifier::external_body]
pub(crate) fn json_str(value: &Value) -> (r: Option<&str>)
    ensures
        match r {
            Some(text) => json_view(*value) == JsonView::Text(text@),
            None => !(json_view(*value) is Text),
        },
{
    value.as_str()
}

/// The variant `serde_json::Value::Null`.
#[verifier::external_body]
pub(crate) fn json_null() -> (r: Value)
    ensures
        json_view(r) == JsonView::Null,
{
    Value::Null
}

/// `serde_json::Value::from` on a string.
#[verifier::external_body]
pub(crate) fn json_from_text(text: String) -> (r: Value)
    ensures
        json_view(r) == JsonView::Text(text@),
{
    Value::from(text)
}

/// `serde_json::Value::from` on an integer: the number that is written in
/// decimal.
#[verifier::external_body]
pub(crate) fn json_from_i64(n: i64) -> (r: Value)
    ensures
        json_view(r) == JsonView::Number(crate::decimal::integer_text(n as int)),
{
    Value::from(n)
}

/// `IndexMap::from_iter` on the entries of an object, in their order; any other
/// document is handed back.
#[verifier::external_body]
pub(crate) fn json_fields(value: Value) -> (r: Result<IndexMap<String, Value>, Value>)
    ensures
        match r {
            Ok(fields) => json_view(value) == JsonView::Object(fields_of(fields)),
            Err(other) => other == value && !(json_view(value) is Object),
        },
{
    match value {
        Value::Object(map) => Ok(IndexMap::from_iter(map)),
        other => Err(other),
    }
}

/// `IndexMap::new`.
#[verifier::external_body]
pub(crate) fn no_fields() -> (r: IndexMap<String, Value>)
    ensures
        fields_of(r) == Seq::<(Seq<char>, JsonView)>::empty(),
{
    IndexMap::new()
}

/// The document of the entry that has a name, where there is one.
pub open spec fn field_value(fields: Seq<(Seq<char>, JsonView)>, name: Seq<char>) -> Option<JsonView>
    decreases fields.len(),
{
    if fields.len() == 0 {
        None
    } else if fields.last().0 == name {
        Some(fields.last().1)
    } else {
        field_value(fields.drop_last(), name)
    }
}

/// `IndexMap::get`: the value under a key, of which a map has at most one.
#[verifier::external_body]
pub(crate) fn field_named<'a>(fields: &'a IndexMap<String, Value>, name: &str) -> (r: Option<
    &'a Value,
>)
    ensures
        match r {
            Some(value) => field_value(fields_of(*fields), name@) == Some(json_view(*value)),
            None => field_value(fields_of(*fields), name@) is None,
        },
{
    fields.get(name)
}

/// `IndexMap::insert` with a key that the map does not hold: the entry comes
/// last.
#[verifier::external_body]
pub(crate) fn push_field(fields: &mut IndexMap<String, Value>, key: String, value: Value)
    requires
        forall|i: int| 0 <= i < fields_of(*old(fields)).len() ==> (#[trigger] fields_of(*old(fields))[i]).0 != key@,
    ensures
        fields_of(*final(fields)) == fields_of(*old(fields)).push((key@, json_view(value))),
{
    fields.insert(key, value);
}

} // verus!
