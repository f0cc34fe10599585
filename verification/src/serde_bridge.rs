//! The bridge to `serde_json`: type declarations, model functions, and the
//! trusted wrappers through which the library constructs and serializes
//! `serde_json::Value` trees.
//!
//! Each wrapper's contract states what the wrapped `serde_json` call does in
//! terms of the models [`value_model`] and [`obj_model`]; everything else in
//! the crate is verified against these contracts.

use vstd::prelude::*;

use crate::json_model::JVal;
use crate::json_model::no_fields;

verus! {

/// The object type that `serde_json` builds JSON objects from.
pub type JsonObj = serde_json::Map<String, serde_json::Value>;

#[verifier::external_type_specification]
#[verifier::external_body]
pub struct ExValue(serde_json::Value);

#[verifier::external_type_specification]
#[verifier::external_body]
#[verifier::reject_recursive_types(K)]
#[verifier::reject_recursive_types(V)]
pub struct ExJsonMap<K, V>(serde_json::Map<K, V>);

/// The JSON tree that a `serde_json::Value` holds, as a [`JVal`].
pub uninterp spec fn value_model(v: serde_json::Value) -> JVal;

/// The key-value pairs that a `serde_json::Map` holds, as an unordered map.
pub uninterp spec fn obj_model(m: JsonObj) -> Map<Seq<char>, JVal>;

/// The compact serialization of a JSON tree. `serde_json`'s serializer is a
/// pure function of the tree's content: with the crate's default map
/// implementation object keys are written in sorted order, so two values
/// with the same model serialize to the same text.
pub uninterp spec fn json_text(j: JVal) -> Seq<char>;

/// Relies on `serde_json::Value::Bool`: wraps the boolean unchanged.
#[verifier::external_body]
pub(crate) fn value_bool(b: bool) -> (r: serde_json::Value)
    ensures
        value_model(r) == JVal::Bool(b),
{
    serde_json::Value::Bool(b)
}

/// Relies on `From<u64> for serde_json::Value`: the result is a JSON number
/// holding exactly `n`.
#[verifier::external_body]
pub(crate) fn value_u64(n: u64) -> (r: serde_json::Value)
    ensures
        value_model(r) == JVal::Int(n as int),
{
    serde_json::Value::from(n)
}

/// Relies on `serde_json::Value::String`: wraps the string unchanged.
#[verifier::external_body]
pub(crate) fn value_string(s: String) -> (r: serde_json::Value)
    ensures
        value_model(r) == JVal::Str(s@),
{
    serde_json::Value::String(s)
}

/// Relies on `serde_json::Value::Array`: wraps the items in order.
#[verifier::external_body]
pub(crate) fn value_array(items: Vec<serde_json::Value>) -> (r: serde_json::Value)
    ensures
        value_model(r) == JVal::Arr(items@.map_values(|v: serde_json::Value| value_model(v))),
{
    serde_json::Value::Array(items)
}

/// Relies on `serde_json::Map::new`: the new map is empty.
#[verifier::external_body]
pub(crate) fn map_new() -> (r: JsonObj)
    ensures
        obj_model(r) == no_fields(),
{
    serde_json::Map::new()
}

/// Relies on `serde_json::Map::insert`: binds `k` to `v`, replacing any
/// earlier binding of `k` and leaving every other binding unchanged.
#[verifier::external_body]
pub(crate) fn map_insert(m: &mut JsonObj, k: String, v: serde_json::Value)
    ensures
        obj_model(*final(m)) == obj_model(*old(m)).insert(k@, value_model(v)),
{
    m.insert(k, v);
}

/// Relies on `serde_json::Map::new` plus `serde_json::Value::Object`: wraps
/// the map's bindings unchanged.
#[verifier::external_body]
pub(crate) fn value_object(m: JsonObj) -> (r: serde_json::Value)
    ensures
        value_model(r) == JVal::Obj(obj_model(m)),
{
    serde_json::Value::Object(m)
}

/// Relies on `Display for serde_json::Value`: writes the compact JSON form,
/// which depends only on the tree's content (object keys come out in sorted
/// order with the default map implementation), and cannot fail for a
/// `Value`, whose maps are keyed by strings and whose numbers are finite.
#[verifier::external_body]
pub(crate) fn value_to_string(v: &serde_json::Value) -> (r: String)
    ensures
        r@ == json_text(value_model(*v)),
{
    v.to_string()
}

} // verus!
