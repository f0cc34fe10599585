//! Proved properties of the API description document.
//!
//! These lemmas state, over [`crate::doc_model::openapi_doc_model`], what
//! external tooling depends on: the document is one fixed value, every
//! schema reference used in a response resolves into the components block,
//! the three paths carry exactly one GET operation with one required string
//! path parameter and the declared response codes, and the two component
//! schemas list exactly their required fields.

use vstd::prelude::*;

use crate::json_model::JVal;
use crate::json_model::field;
use crate::json_model::fields;
use crate::json_model::has_key;
use crate::doc_model::address_responses_model;
use crate::doc_model::address_operation_model;
use crate::doc_model::components_model;
use crate::doc_model::error_ref;
use crate::doc_model::error_required_model;
use crate::doc_model::error_schema_model;
use crate::doc_model::info_model;
use crate::doc_model::name_operation_model;
use crate::doc_model::name_responses_model;
use crate::doc_model::nullable_string_schema_model;
use crate::doc_model::openapi_doc_model;
use crate::doc_model::operation_model;
use crate::doc_model::path_item_model;
use crate::doc_model::path_parameter_model;
use crate::doc_model::paths_model;
use crate::doc_model::profile_ref;
use crate::doc_model::profile_required_model;
use crate::doc_model::profile_schema_model;
use crate::doc_model::ref_response_model;
use crate::doc_model::ref_schema_model;
use crate::doc_model::schema_ref_prefix;
use crate::doc_model::schemas_model;
use crate::doc_model::status_schema_model;
use crate::doc_model::string_schema_model;
use crate::doc_model::universal_operation_model;
use crate::doc_model::universal_responses_model;
use crate::serde_bridge::json_text;

verus! {

/// The document is deterministic: any two serializations of the fixed
/// model are byte-for-byte identical.
pub proof fn lemma_document_deterministic(s1: Seq<char>, s2: Seq<char>)
    requires
        s1 == json_text(openapi_doc_model()),
        s2 == json_text(openapi_doc_model()),
    ensures
        s1 == s2,
{
}

/// The paths block of the document.
pub open spec fn doc_paths() -> Map<Seq<char>, JVal> {
    fields(field(openapi_doc_model(), "paths"@))
}

/// The named component schemas of the document.
pub open spec fn doc_schemas() -> Map<Seq<char>, JVal> {
    fields(field(field(openapi_doc_model(), "components"@), "schemas"@))
}

/// The GET operation declared for path `p`.
pub open spec fn operation_of(p: Seq<char>) -> JVal {
    field(doc_paths()[p], "get"@)
}

/// The status-to-response mapping of the operation at path `p`.
pub open spec fn responses_of(p: Seq<char>) -> Map<Seq<char>, JVal> {
    fields(field(operation_of(p), "responses"@))
}

/// The schema declared for a response's `application/json` body.
pub open spec fn response_schema_of(resp: JVal) -> JVal {
    field(field(field(resp, "content"@), "application/json"@), "schema"@)
}

/// If `schema` is a reference, it points at an entry of `schemas` through
/// the components prefix.
pub open spec fn resolves_in(schema: JVal, schemas: Map<Seq<char>, JVal>) -> bool {
    has_key(schema, "$ref"@) ==> exists|name: Seq<char>|
        (#[trigger] schemas.dom().contains(name)) && field(schema, "$ref"@) == JVal::Str(
            schema_ref_prefix() + name,
        )
}

/// A path item that holds exactly one operation: a GET whose single
/// parameter is a required, string-typed path parameter.
pub open spec fn single_get_operation(item: JVal) -> bool {
    let op = field(item, "get"@);
    let params = field(op, "parameters"@);
    &&& fields(item).dom() =~= set!["get"@]
    &&& field(op, "operationId"@) == JVal::Str("get"@)
    &&& params is Arr
    &&& params->Arr_0.len() == 1
    &&& required_string_path_parameter(params->Arr_0[0])
}

/// A required, string-typed parameter located in the path.
pub open spec fn required_string_path_parameter(param: JVal) -> bool {
    &&& param is Obj
    &&& field(param, "required"@) == JVal::Bool(true)
    &&& field(param, "in"@) == JVal::Str("path"@)
    &&& field(param, "schema"@) == string_schema_model()
}

/// Length and leading-character facts that tell the document's key
/// literals apart, so that object lookups resolve.
proof fn lemma_key_facts()
    ensures
        "openapi"@.len() == 7,
        "info"@.len() == 4,
        "paths"@.len() == 5,
        "components"@.len() == 10,
        "schemas"@.len() == 7,
        "tags"@.len() == 4,
        "operationId"@.len() == 11,
        "parameters"@.len() == 10,
        "responses"@.len() == 9,
        "name"@.len() == 4,
        "in"@.len() == 2,
        "description"@.len() == 11,
        "required"@.len() == 8,
        "schema"@.len() == 6,
        "/a/{address}"@.len() == 12,
        "/n/{name}"@.len() == 9,
        "/u/{name_or_address}"@.len() == 20,
        "get"@.len() == 3,
        "content"@.len() == 7,
        "$ref"@.len() == 4,
        "type"@.len() == 4,
        "properties"@.len() == 10,
        "format"@.len() == 6,
        "minimum"@.len() == 7,
        "ENSProfile"@.len() == 10,
        "ErrorResponse"@.len() == 13,
        "error"@.len() == 5,
        "status"@.len() == 6,
        "address"@.len() == 7,
        "avatar"@.len() == 6,
        "chains"@.len() == 6,
        "display"@.len() == 7,
        "errors"@.len() == 6,
        "fresh"@.len() == 5,
        "records"@.len() == 7,
        "resolver"@.len() == 8,
        "200"@[0] == '2',
        "400"@[0] == '4',
        "404"@[0] == '4',
        "200"@[2] == '0',
        "400"@[2] == '0',
        "404"@[2] == '4',
        "address"@[0] == 'a',
        "avatar"@[0] == 'a',
        "chains"@[0] == 'c',
        "display"@[0] == 'd',
        "errors"@[0] == 'e',
        "records"@[0] == 'r',
{
    reveal_strlit("openapi");
    reveal_strlit("info");
    reveal_strlit("paths");
    reveal_strlit("components");
    reveal_strlit("schemas");
    reveal_strlit("tags");
    reveal_strlit("operationId");
    reveal_strlit("parameters");
    reveal_strlit("responses");
    reveal_strlit("name");
    reveal_strlit("in");
    reveal_strlit("description");
    reveal_strlit("required");
    reveal_strlit("schema");
    reveal_strlit("/a/{address}");
    reveal_strlit("/n/{name}");
    reveal_strlit("/u/{name_or_address}");
    reveal_strlit("get");
    reveal_strlit("content");
    reveal_strlit("$ref");
    reveal_strlit("type");
    reveal_strlit("properties");
    reveal_strlit("format");
    reveal_strlit("minimum");
    reveal_strlit("ENSProfile");
    reveal_strlit("ErrorResponse");
    reveal_strlit("error");
    reveal_strlit("status");
    reveal_strlit("address");
    reveal_strlit("avatar");
    reveal_strlit("chains");
    reveal_strlit("display");
    reveal_strlit("errors");
    reveal_strlit("fresh");
    reveal_strlit("records");
    reveal_strlit("resolver");
    reveal_strlit("200");
    reveal_strlit("400");
    reveal_strlit("404");
}

/// The top-level blocks of the document.
proof fn lemma_doc_blocks()
    ensures
        field(openapi_doc_model(), "openapi"@) == JVal::Str("3.0.3"@),
        field(openapi_doc_model(), "info"@) == info_model(),
        field(openapi_doc_model(), "paths"@) == paths_model(),
        field(openapi_doc_model(), "components"@) == components_model(),
        doc_paths() == fields(paths_model()),
        doc_schemas() == schemas_model(),
{
    lemma_key_facts();
}

/// Field lookups in an operation built by `operation_model`.
proof fn lemma_operation_fields(
    tag: Seq<char>,
    pname: Seq<char>,
    pdesc: Seq<char>,
    responses: Map<Seq<char>, JVal>,
)
    ensures
        field(operation_model(tag, pname, pdesc, responses), "tags"@) == JVal::Arr(
            seq![JVal::Str(tag)],
        ),
        field(operation_model(tag, pname, pdesc, responses), "operationId"@) == JVal::Str("get"@),
        field(operation_model(tag, pname, pdesc, responses), "parameters"@) == JVal::Arr(
            seq![path_parameter_model(pname, pdesc)],
        ),
        field(operation_model(tag, pname, pdesc, responses), "responses"@) == JVal::Obj(responses),
{
    lemma_key_facts();
}

/// Field lookups in a parameter built by `path_parameter_model`.
proof fn lemma_path_parameter_fields(name: Seq<char>, desc: Seq<char>)
    ensures
        field(path_parameter_model(name, desc), "name"@) == JVal::Str(name),
        field(path_parameter_model(name, desc), "in"@) == JVal::Str("path"@),
        field(path_parameter_model(name, desc), "description"@) == JVal::Str(desc),
        field(path_parameter_model(name, desc), "required"@) == JVal::Bool(true),
        field(path_parameter_model(name, desc), "schema"@) == string_schema_model(),
        path_parameter_model(name, desc) is Obj,
{
    lemma_key_facts();
}

/// Field lookups in a response built by `ref_response_model`.
proof fn lemma_ref_response_fields(desc: Seq<char>, target: Seq<char>)
    ensures
        response_schema_of(ref_response_model(desc, target)) == ref_schema_model(target),
        field(ref_response_model(desc, target), "description"@) == JVal::Str(desc),
        has_key(ref_schema_model(target), "$ref"@),
        field(ref_schema_model(target), "$ref"@) == JVal::Str(target),
{
    lemma_key_facts();
}

/// The paths of the document and the operations attached to them.
proof fn lemma_path_entries()
    ensures
        doc_paths().dom() =~= set!["/a/{address}"@, "/n/{name}"@, "/u/{name_or_address}"@],
        doc_paths()["/a/{address}"@] == path_item_model(address_operation_model()),
        doc_paths()["/n/{name}"@] == path_item_model(name_operation_model()),
        doc_paths()["/u/{name_or_address}"@] == path_item_model(universal_operation_model()),
        responses_of("/a/{address}"@) == address_responses_model(),
        responses_of("/n/{name}"@) == name_responses_model(),
        responses_of("/u/{name_or_address}"@) == universal_responses_model(),
{
    lemma_key_facts();
    lemma_doc_blocks();
    lemma_operation_fields(
        "routes::address"@,
        "address"@,
        "Address to lookup name data for"@,
        address_responses_model(),
    );
    lemma_operation_fields(
        "routes::name"@,
        "name"@,
        "Name to lookup the name data for."@,
        name_responses_model(),
    );
    lemma_operation_fields(
        "routes::universal"@,
        "name_or_address"@,
        "Name or address to lookup the name data for."@,
        universal_responses_model(),
    );
}

/// Each declared path holds exactly one operation — a GET with exactly one
/// required, string-typed path parameter — and the paths are exactly the
/// address, name, and combined lookups, with the declared response codes:
/// 200, 400 and 404 for the address lookup, 200 and 404 for the other two.
pub proof fn lemma_paths_shape()
    ensures
        doc_paths().dom() =~= set!["/a/{address}"@, "/n/{name}"@, "/u/{name_or_address}"@],
        forall|p: Seq<char>| #[trigger]
            doc_paths().dom().contains(p) ==> single_get_operation(doc_paths()[p]),
        responses_of("/a/{address}"@).dom() =~= set!["200"@, "400"@, "404"@],
        responses_of("/n/{name}"@).dom() =~= set!["200"@, "404"@],
        responses_of("/u/{name_or_address}"@).dom() =~= set!["200"@, "404"@],
{
    lemma_key_facts();
    lemma_path_entries();
    lemma_operation_fields(
        "routes::address"@,
        "address"@,
        "Address to lookup name data for"@,
        address_responses_model(),
    );
    lemma_operation_fields(
        "routes::name"@,
        "name"@,
        "Name to lookup the name data for."@,
        name_responses_model(),
    );
    lemma_operation_fields(
        "routes::universal"@,
        "name_or_address"@,
        "Name or address to lookup the name data for."@,
        universal_responses_model(),
    );
    lemma_path_parameter_fields("address"@, "Address to lookup name data for"@);
    lemma_path_parameter_fields("name"@, "Name to lookup the name data for."@);
    lemma_path_parameter_fields("name_or_address"@, "Name or address to lookup the name data for."@);
    assert forall|p: Seq<char>| #[trigger]
        doc_paths().dom().contains(p) implies single_get_operation(doc_paths()[p]) by {
        assert(p == "/a/{address}"@ || p == "/n/{name}"@ || p == "/u/{name_or_address}"@);
    }
}

/// Every schema reference used in a response of any operation of the
/// document resolves to an entry of the components schemas block.
pub proof fn lemma_response_refs_resolve()
    ensures
        forall|p: Seq<char>, code: Seq<char>|
            #![trigger doc_paths().dom().contains(p), responses_of(p).dom().contains(code)]
            doc_paths().dom().contains(p) && responses_of(p).dom().contains(code)
                ==> resolves_in(response_schema_of(responses_of(p)[code]), doc_schemas()),
{
    lemma_key_facts();
    lemma_path_entries();
    lemma_doc_blocks();
    reveal_strlit("#/components/schemas/");
    reveal_strlit("ENSProfile");
    reveal_strlit("ErrorResponse");
    reveal_strlit("#/components/schemas/ENSProfile");
    reveal_strlit("#/components/schemas/ErrorResponse");
    assert(schema_ref_prefix() + "ENSProfile"@ =~= profile_ref());
    assert(schema_ref_prefix() + "ErrorResponse"@ =~= error_ref());
    assert(doc_schemas().dom().contains("ENSProfile"@));
    assert(doc_schemas().dom().contains("ErrorResponse"@));
    assert forall|p: Seq<char>, code: Seq<char>|
        doc_paths().dom().contains(p) && responses_of(p).dom().contains(code) implies resolves_in(
        response_schema_of(#[trigger] responses_of(p)[code]),
        doc_schemas(),
    ) by {
        assert(p == "/a/{address}"@ || p == "/n/{name}"@ || p == "/u/{name_or_address}"@);
        assert(code == "200"@ || code == "400"@ || code == "404"@);
        if code == "200"@ {
            lemma_ref_response_fields(
                "Successfully found address"@,
                profile_ref(),
            );
            lemma_ref_response_fields("Successfully found name."@, profile_ref());
            lemma_ref_response_fields("Successfully found name or address."@, profile_ref());
        } else {
            lemma_ref_response_fields("Invalid address."@, error_ref());
            lemma_ref_response_fields("No name was associated with this address."@, error_ref());
            lemma_ref_response_fields("No name could be found."@, error_ref());
            lemma_ref_response_fields("No name or address could be found."@, error_ref());
        }
    }
}

/// The profile record schema requires exactly the fields name, display,
/// records, chains, fresh, resolver and errors, and declares address and
/// avatar as nullable strings that are not required.
pub proof fn lemma_profile_schema_shape()
    ensures
        doc_schemas().dom() =~= set!["ENSProfile"@, "ErrorResponse"@],
        doc_schemas()["ENSProfile"@] == profile_schema_model(),
        field(profile_schema_model(), "required"@) == profile_required_model(),
        profile_required_model()->Arr_0 =~= seq![
            JVal::Str("name"@),
            JVal::Str("display"@),
            JVal::Str("records"@),
            JVal::Str("chains"@),
            JVal::Str("fresh"@),
            JVal::Str("resolver"@),
            JVal::Str("errors"@),
        ],
        field(field(profile_schema_model(), "properties"@), "address"@)
            == nullable_string_schema_model(),
        field(field(profile_schema_model(), "properties"@), "avatar"@)
            == nullable_string_schema_model(),
        forall|k: int|
            0 <= k < profile_required_model()->Arr_0.len() ==> (
            #[trigger] profile_required_model()->Arr_0[k]) != JVal::Str("address"@)
                && profile_required_model()->Arr_0[k] != JVal::Str("avatar"@),
{
    lemma_key_facts();
    lemma_doc_blocks();
}

/// The error record schema requires exactly the fields status and error,
/// and constrains status to a non-negative integer.
pub proof fn lemma_error_schema_shape()
    ensures
        doc_schemas()["ErrorResponse"@] == error_schema_model(),
        field(error_schema_model(), "required"@) == error_required_model(),
        error_required_model()->Arr_0 =~= seq![JVal::Str("status"@), JVal::Str("error"@)],
        field(field(error_schema_model(), "properties"@), "status"@) == status_schema_model(),
        field(field(error_schema_model(), "properties"@), "error"@) == string_schema_model(),
        field(status_schema_model(), "type"@) == JVal::Str("integer"@),
        field(status_schema_model(), "minimum"@) == JVal::Int(0),
{
    lemma_key_facts();
    lemma_doc_blocks();
}

} // verus!
