//! Verified construction of the API description document.
//!
//! Every function here builds a `serde_json::Value` through the trusted
//! constructors of [`crate::serde_bridge`] and proves that the result's
//! model is the corresponding part of [`crate::doc_model`]. The public entry
//! points are [`openapi_spec`], which returns the structured document, and
//! [`openapi_json`], which returns its compact serialization.

use vstd::prelude::*;

use crate::json_model::JVal;
use crate::serde_bridge::JsonObj;
use crate::serde_bridge::map_insert;
use crate::serde_bridge::map_new;
use crate::serde_bridge::obj_model;
use crate::serde_bridge::value_array;
use crate::serde_bridge::value_bool;
use crate::serde_bridge::value_model;
use crate::serde_bridge::value_object;
use crate::serde_bridge::value_string;
use crate::serde_bridge::value_to_string;
use crate::serde_bridge::value_u64;
use crate::serde_bridge::json_text;
use crate::doc_model::address_responses_model;
use crate::doc_model::components_model;
use crate::doc_model::error_schema_model;
use crate::doc_model::info_model;
use crate::doc_model::int64_schema_model;
use crate::doc_model::license_model;
use crate::doc_model::name_responses_model;
use crate::doc_model::nullable_string_schema_model;
use crate::doc_model::openapi_doc_model;
use crate::doc_model::operation_model;
use crate::doc_model::path_parameter_model;
use crate::doc_model::paths_model;
use crate::doc_model::profile_required_model;
use crate::doc_model::profile_schema_model;
use crate::doc_model::ref_response_model;
use crate::doc_model::ref_schema_model;
use crate::doc_model::schemas_model;
use crate::doc_model::status_schema_model;
use crate::doc_model::string_map_schema_model;
use crate::doc_model::string_schema_model;
use crate::doc_model::universal_responses_model;
use crate::doc_model::error_required_model;

verus! {

/// The single failure kind of this module: the description document could
/// not be constructed or serialized. Construction from the fixed
/// definitions is proved to succeed, so the variant marks the failure
/// injection point for callers that must propagate a failed construction.
#[derive(Clone, Copy, Debug, PartialEq, Eq)]
pub enum DocError {
    Construction,
}

/// A JSON string holding `s`.
fn jstr(s: &str) -> (r: serde_json::Value)
    ensures
        value_model(r) == JVal::Str(s@),
{
    value_string(s.to_owned())
}

/// Binds `k` to `v` in the object under construction.
fn insert_field(m: &mut JsonObj, k: &str, v: serde_json::Value)
    ensures
        obj_model(*final(m)) == obj_model(*old(m)).insert(k@, value_model(v)),
{
    map_insert(m, k.to_owned(), v);
}

/// A JSON array holding `v` alone.
fn array1(v: serde_json::Value) -> (r: serde_json::Value)
    ensures
        value_model(r) == JVal::Arr(seq![value_model(v)]),
{
    let ghost vm = value_model(v);
    let mut items: Vec<serde_json::Value> = Vec::new();
    items.push(v);
    let r = value_array(items);
    proof {
        assert(value_model(r)->Arr_0 =~= seq![vm]);
    }
    r
}

fn string_schema() -> (r: serde_json::Value)
    ensures
        value_model(r) == string_schema_model(),
{
    let mut m = map_new();
    insert_field(&mut m, "type", jstr("string"));
    value_object(m)
}

fn nullable_string_schema() -> (r: serde_json::Value)
    ensures
        value_model(r) == nullable_string_schema_model(),
{
    let mut m = map_new();
    insert_field(&mut m, "type", jstr("string"));
    insert_field(&mut m, "nullable", value_bool(true));
    value_object(m)
}

fn string_map_schema() -> (r: serde_json::Value)
    ensures
        value_model(r) == string_map_schema_model(),
{
    let mut m = map_new();
    insert_field(&mut m, "type", jstr("object"));
    insert_field(&mut m, "additionalProperties", string_schema());
    value_object(m)
}

fn int64_schema() -> (r: serde_json::Value)
    ensures
        value_model(r) == int64_schema_model(),
{
    let mut m = map_new();
    insert_field(&mut m, "type", jstr("integer"));
    insert_field(&mut m, "format", jstr("int64"));
    value_object(m)
}

fn status_schema() -> (r: serde_json::Value)
    ensures
        value_model(r) == status_schema_model(),
{
    let mut m = map_new();
    insert_field(&mut m, "type", jstr("integer"));
    insert_field(&mut m, "format", jstr("int32"));
    insert_field(&mut m, "minimum", value_u64(0));
    value_object(m)
}

/// A schema that is a reference to the component schema at `target`.
fn ref_schema(target: &str) -> (r: serde_json::Value)
    ensures
        value_model(r) == ref_schema_model(target@),
{
    let mut m = map_new();
    insert_field(&mut m, "$ref", jstr(target));
    value_object(m)
}

/// A response whose `application/json` body references the component schema
/// at `target`.
fn ref_response(desc: &str, target: &str) -> (r: serde_json::Value)
    ensures
        value_model(r) == ref_response_model(desc@, target@),
{
    let mut schema = map_new();
    insert_field(&mut schema, "schema", ref_schema(target));
    let mut content = map_new();
    insert_field(&mut content, "application/json", value_object(schema));
    let mut m = map_new();
    insert_field(&mut m, "description", jstr(desc));
    insert_field(&mut m, "content", value_object(content));
    value_object(m)
}

/// A required, string-typed path parameter.
fn path_parameter(name: &str, desc: &str) -> (r: serde_json::Value)
    ensures
        value_model(r) == path_parameter_model(name@, desc@),
{
    let mut m = map_new();
    insert_field(&mut m, "name", jstr(name));
    insert_field(&mut m, "in", jstr("path"));
    insert_field(&mut m, "description", jstr(desc));
    insert_field(&mut m, "required", value_bool(true));
    insert_field(&mut m, "schema", string_schema());
    value_object(m)
}

/// A GET operation with one tag, one path parameter, and the given
/// responses.
fn get_operation(tag: &str, pname: &str, pdesc: &str, responses: JsonObj) -> (r:
    serde_json::Value)
    ensures
        value_model(r) == operation_model(tag@, pname@, pdesc@, obj_model(responses)),
{
    let mut m = map_new();
    insert_field(&mut m, "tags", array1(jstr(tag)));
    insert_field(&mut m, "operationId", jstr("get"));
    insert_field(&mut m, "parameters", array1(path_parameter(pname, pdesc)));
    insert_field(&mut m, "responses", value_object(responses));
    value_object(m)
}

fn address_responses() -> (r: JsonObj)
    ensures
        obj_model(r) == address_responses_model(),
{
    let mut m = map_new();
    insert_field(
        &mut m,
        "200",
        ref_response("Successfully found address", "#/components/schemas/ENSProfile"),
    );
    insert_field(&mut m, "400", ref_response("Invalid address.", "#/components/schemas/ErrorResponse"));
    insert_field(
        &mut m,
        "404",
        ref_response(
            "No name was associated with this address.",
            "#/components/schemas/ErrorResponse",
        ),
    );
    m
}

fn name_responses() -> (r: JsonObj)
    ensures
        obj_model(r) == name_responses_model(),
{
    let mut m = map_new();
    insert_field(
        &mut m,
        "200",
        ref_response("Successfully found name.", "#/components/schemas/ENSProfile"),
    );
    insert_field(
        &mut m,
        "404",
        ref_response("No name could be found.", "#/components/schemas/ErrorResponse"),
    );
    m
}

fn universal_responses() -> (r: JsonObj)
    ensures
        obj_model(r) == universal_responses_model(),
{
    let mut m = map_new();
    insert_field(
        &mut m,
        "200",
        ref_response("Successfully found name or address.", "#/components/schemas/ENSProfile"),
    );
    insert_field(
        &mut m,
        "404",
        ref_response("No name or address could be found.", "#/components/schemas/ErrorResponse"),
    );
    m
}

/// The three declared paths, each with its single GET operation.
fn paths_value() -> (r: serde_json::Value)
    ensures
        value_model(r) == paths_model(),
{
    let mut address_item = map_new();
    insert_field(
        &mut address_item,
        "get",
        get_operation(
            "routes::address",
            "address",
            "Address to lookup name data for",
            address_responses(),
        ),
    );
    let mut name_item = map_new();
    insert_field(
        &mut name_item,
        "get",
        get_operation(
            "routes::name",
            "name",
            "Name to lookup the name data for.",
            name_responses(),
        ),
    );
    let mut universal_item = map_new();
    insert_field(
        &mut universal_item,
        "get",
        get_operation(
            "routes::universal",
            "name_or_address",
            "Name or address to lookup the name data for.",
            universal_responses(),
        ),
    );
    let mut m = map_new();
    insert_field(&mut m, "/a/{address}", value_object(address_item));
    insert_field(&mut m, "/n/{name}", value_object(name_item));
    insert_field(&mut m, "/u/{name_or_address}", value_object(universal_item));
    value_object(m)
}

/// The list of the profile record schema's required fields.
fn profile_required() -> (r: serde_json::Value)
    ensures
        value_model(r) == profile_required_model(),
{
    let mut items: Vec<serde_json::Value> = Vec::new();
    items.push(jstr("name"));
    items.push(jstr("display"));
    items.push(jstr("records"));
    items.push(jstr("chains"));
    items.push(jstr("fresh"));
    items.push(jstr("resolver"));
    items.push(jstr("errors"));
    let r = value_array(items);
    proof {
        assert(value_model(r)->Arr_0 =~= profile_required_model()->Arr_0);
    }
    r
}

/// The list of the error record schema's required fields.
fn error_required() -> (r: serde_json::Value)
    ensures
        value_model(r) == error_required_model(),
{
    let mut items: Vec<serde_json::Value> = Vec::new();
    items.push(jstr("status"));
    items.push(jstr("error"));
    let r = value_array(items);
    proof {
        assert(value_model(r)->Arr_0 =~= error_required_model()->Arr_0);
    }
    r
}

/// The profile record component schema.
fn profile_schema() -> (r: serde_json::Value)
    ensures
        value_model(r) == profile_schema_model(),
{
    let mut props = map_new();
    insert_field(&mut props, "address", nullable_string_schema());
    insert_field(&mut props, "avatar", nullable_string_schema());
    insert_field(&mut props, "chains", string_map_schema());
    insert_field(&mut props, "display", string_schema());
    insert_field(&mut props, "errors", string_map_schema());
    insert_field(&mut props, "fresh", int64_schema());
    insert_field(&mut props, "name", string_schema());
    insert_field(&mut props, "records", string_map_schema());
    insert_field(&mut props, "resolver", string_schema());
    let mut m = map_new();
    insert_field(&mut m, "type", jstr("object"));
    insert_field(&mut m, "required", profile_required());
    insert_field(&mut m, "properties", value_object(props));
    value_object(m)
}

/// The error record component schema.
fn error_schema() -> (r: serde_json::Value)
    ensures
        value_model(r) == error_schema_model(),
{
    let mut props = map_new();
    insert_field(&mut props, "error", string_schema());
    insert_field(&mut props, "status", status_schema());
    let mut m = map_new();
    insert_field(&mut m, "type", jstr("object"));
    insert_field(&mut m, "required", error_required());
    insert_field(&mut m, "properties", value_object(props));
    value_object(m)
}

/// The components block holding the two reusable schemas.
fn components_value() -> (r: serde_json::Value)
    ensures
        value_model(r) == components_model(),
{
    let mut schemas = map_new();
    insert_field(&mut schemas, "ENSProfile", profile_schema());
    insert_field(&mut schemas, "ErrorResponse", error_schema());
    let mut m = map_new();
    insert_field(&mut m, "schemas", value_object(schemas));
    value_object(m)
}

/// The info block of the document.
fn info_value() -> (r: serde_json::Value)
    ensures
        value_model(r) == info_model(),
{
    let mut license = map_new();
    insert_field(&mut license, "name", jstr("GPL-3.0"));
    let mut m = map_new();
    insert_field(&mut m, "title", jstr("ENS EFP Worker"));
    insert_field(&mut m, "description", jstr("ENS metaservice used across the EFP ecosystem."));
    insert_field(&mut m, "license", value_object(license));
    insert_field(&mut m, "version", jstr("1.0.0-1"));
    value_object(m)
}

/// Builds the complete API description document.
///
/// Construction from the fixed definitions always succeeds, and the result
/// is exactly [`openapi_doc_model`]: the document is the same on every
/// invocation.
pub fn openapi_spec() -> (r: Result<serde_json::Value, DocError>)
    ensures
        r matches Ok(v) && value_model(v) == openapi_doc_model(),
{
    let mut m = map_new();
    insert_field(&mut m, "openapi", jstr("3.0.3"));
    insert_field(&mut m, "info", info_value());
    insert_field(&mut m, "paths", paths_value());
    insert_field(&mut m, "components", components_value());
    Ok(value_object(m))
}

/// Builds the API description document and serializes it to its compact
/// JSON text.
///
/// The text is exactly the serialization of [`openapi_doc_model`], so any
/// two invocations return byte-for-byte identical output.
pub fn openapi_json() -> (r: Result<String, DocError>)
    ensures
        r matches Ok(s) && s@ == json_text(openapi_doc_model()),
{
    match openapi_spec() {
        Ok(v) => Ok(value_to_string(&v)),
        Err(e) => Err(e),
    }
}

} // verus!
