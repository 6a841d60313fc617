//! JSON documents: a mathematical model of `serde_json` values, and the
//! trusted boundary through which the verified code builds and renders them.
//!
//! Nothing in this module is proved. Each function below wraps one operation
//! of `serde_json` and states what that operation does in terms of the model.

use vstd::prelude::*;

verus! {

/// The mathematical content of a JSON document. The reports hold no number
/// and no array; the two variants are there so that every document has a
/// model.
#[verifier::ext_equal]
pub enum Json {
    Null,
    Bool(bool),
    /// A number, held as its JSON text.
    Number(Seq<char>),
    Str(Seq<char>),
    Array(Seq<Json>),
    /// An object: no key occurs twice, and the order of the keys carries no
    /// meaning.
    Object(Members),
}

/// The members of a JSON object, by key.
pub type Members = Map<Seq<char>, Json>;

#[verifier::external_type_specification]
#[verifier::external_body]
pub struct ExValue(serde_json::Value);

#[verifier::external_type_specification]
#[verifier::external_body]
#[verifier::reject_recursive_types(K)]
#[verifier::reject_recursive_types(V)]
pub struct ExObject<K, V>(serde_json::Map<K, V>);

/// The document that a `serde_json::Value` holds.
pub uninterp spec fn json_model(value: serde_json::Value) -> Json;

/// The members that a `serde_json::Map` holds, by key.
pub uninterp spec fn object_members(
    object: serde_json::Map<String, serde_json::Value>,
) -> Members;

/// The text that `serde_json` writes for a document when it pretty-prints it.
pub uninterp spec fn pretty_printed(doc: Json) -> Seq<char>;

/// `serde_json::Value::Null`: the value that holds JSON `null`.
#[verifier::external_body]
pub(crate) fn null_value() -> (value: serde_json::Value)
    ensures
        json_model(value) == Json::Null,
{
    serde_json::Value::Null
}

/// `serde_json::Value::Bool`: the value that holds the given boolean.
#[verifier::external_body]
pub(crate) fn bool_value(b: bool) -> (value: serde_json::Value)
    ensures
        json_model(value) == Json::Bool(b),
{
    serde_json::Value::Bool(b)
}

/// `serde_json::Value::String`: the value that holds the given text.
#[verifier::external_body]
pub(crate) fn string_value(text: String) -> (value: serde_json::Value)
    ensures
        json_model(value) == Json::Str(text@),
{
    serde_json::Value::String(text)
}

/// `serde_json::Value::Object`: the value that holds the members of the
/// given map.
#[verifier::external_body]
pub(crate) fn object_value(object: serde_json::Map<String, serde_json::Value>) -> (value:
    serde_json::Value)
    ensures
        json_model(value) == Json::Object(object_members(object)),
{
    serde_json::Value::Object(object)
}

/// `serde_json::Map::new`: a map without members.
#[verifier::external_body]
pub(crate) fn new_object() -> (object: serde_json::Map<String, serde_json::Value>)
    ensures
        object_members(object) == Members::empty(),
{
    serde_json::Map::new()
}

/// `serde_json::Map::contains_key` with a `str` key: whether the map has a
/// member under the given key.
#[verifier::external_body]
pub(crate) fn object_contains_key(
    object: &serde_json::Map<String, serde_json::Value>,
    key: &str,
) -> (found: bool)
    ensures
        found == object_members(*object).dom().contains(key@),
{
    object.contains_key(key)
}

/// `serde_json::Map::insert`: puts the value under the key, in place of any
/// member that was there, and hands back the member that was replaced.
#[verifier::external_body]
pub(crate) fn object_insert(
    object: &mut serde_json::Map<String, serde_json::Value>,
    key: String,
    value: serde_json::Value,
) -> (replaced: Option<serde_json::Value>)
    ensures
        object_members(*final(object)) == object_members(*old(object)).insert(
            key@,
            json_model(value),
        ),
        replaced is Some <==> object_members(*old(object)).dom().contains(key@),
        replaced matches Some(previous) ==> json_model(previous) == object_members(*old(object))[key@],
{
    object.insert(key, value)
}

/// The `Display` of `serde_json::Value` with the alternate flag, which
/// pretty-prints the document. `serde_json` keeps the members of an object
/// sorted by key (its `preserve_order` feature is off), so the text depends
/// on the document alone.
#[verifier::external_body]
pub(crate) fn to_pretty_string(value: &serde_json::Value) -> (text: String)
    ensures
        text@ == pretty_printed(json_model(*value)),
{
    format!("{:#}", value)
}

} // verus!
