//! The fixed OpenAPI 3.0.3 description document, as a specification-level
//! value.
//!
//! [`openapi_doc_model`] is the single source of truth for what the builder
//! constructs: the builder's contract pins its output to this model, and the
//! document properties are proved of it.

use vstd::prelude::*;

use crate::json_model::JVal;

verus! {

/// The reference target of the profile record component schema.
pub open spec fn profile_ref() -> Seq<char> {
    "#/components/schemas/ENSProfile"@
}

/// The reference target of the error record component schema.
pub open spec fn error_ref() -> Seq<char> {
    "#/components/schemas/ErrorResponse"@
}

/// The prefix every component schema reference starts with.
pub open spec fn schema_ref_prefix() -> Seq<char> {
    "#/components/schemas/"@
}

/// An inline schema for a plain string.
pub open spec fn string_schema_model() -> JVal {
    JVal::Obj(Map::empty().insert("type"@, JVal::Str("string"@)))
}

/// An inline schema for a nullable string.
pub open spec fn nullable_string_schema_model() -> JVal {
    JVal::Obj(
        Map::empty().insert("type"@, JVal::Str("string"@)).insert("nullable"@, JVal::Bool(true)),
    )
}

/// An inline schema for an object whose values are all strings.
pub open spec fn string_map_schema_model() -> JVal {
    JVal::Obj(
        Map::empty().insert("type"@, JVal::Str("object"@)).insert(
            "additionalProperties"@,
            string_schema_model(),
        ),
    )
}

/// An inline schema for a 64-bit integer.
pub open spec fn int64_schema_model() -> JVal {
    JVal::Obj(
        Map::empty().insert("type"@, JVal::Str("integer"@)).insert("format"@, JVal::Str("int64"@)),
    )
}

/// An inline schema for a non-negative 32-bit integer.
pub open spec fn status_schema_model() -> JVal {
    JVal::Obj(
        Map::empty().insert("type"@, JVal::Str("integer"@)).insert(
            "format"@,
            JVal::Str("int32"@),
        ).insert("minimum"@, JVal::Int(0)),
    )
}

/// A schema that is a reference to the component schema at `target`.
pub open spec fn ref_schema_model(target: Seq<char>) -> JVal {
    JVal::Obj(Map::empty().insert("$ref"@, JVal::Str(target)))
}

/// A response with description `desc` whose `application/json` body is a
/// reference to the component schema at `target`.
pub open spec fn ref_response_model(desc: Seq<char>, target: Seq<char>) -> JVal {
    JVal::Obj(
        Map::empty().insert("description"@, JVal::Str(desc)).insert(
            "content"@,
            JVal::Obj(
                Map::empty().insert(
                    "application/json"@,
                    JVal::Obj(Map::empty().insert("schema"@, ref_schema_model(target))),
                ),
            ),
        ),
    )
}

/// A required, string-typed path parameter named `name`.
pub open spec fn path_parameter_model(name: Seq<char>, desc: Seq<char>) -> JVal {
    JVal::Obj(
        Map::empty().insert("name"@, JVal::Str(name)).insert("in"@, JVal::Str("path"@)).insert(
            "description"@,
            JVal::Str(desc),
        ).insert("required"@, JVal::Bool(true)).insert("schema"@, string_schema_model()),
    )
}

/// A GET operation with one tag, one path parameter, and the given
/// status-to-response mapping.
pub open spec fn operation_model(
    tag: Seq<char>,
    pname: Seq<char>,
    pdesc: Seq<char>,
    responses: Map<Seq<char>, JVal>,
) -> JVal {
    JVal::Obj(
        Map::empty().insert("tags"@, JVal::Arr(seq![JVal::Str(tag)])).insert(
            "operationId"@,
            JVal::Str("get"@),
        ).insert("parameters"@, JVal::Arr(seq![path_parameter_model(pname, pdesc)])).insert(
            "responses"@,
            JVal::Obj(responses),
        ),
    )
}

/// The responses of the address lookup: a profile on success, an error for a
/// malformed address, an error when no name is associated.
pub open spec fn address_responses_model() -> Map<Seq<char>, JVal> {
    Map::empty().insert("200"@, ref_response_model("Successfully found address"@, profile_ref()))
        .insert("400"@, ref_response_model("Invalid address."@, error_ref())).insert(
        "404"@,
        ref_response_model("No name was associated with this address."@, error_ref()),
    )
}

/// The responses of the name lookup: a profile on success, an error when the
/// name is not found.
pub open spec fn name_responses_model() -> Map<Seq<char>, JVal> {
    Map::empty().insert("200"@, ref_response_model("Successfully found name."@, profile_ref()))
        .insert("404"@, ref_response_model("No name could be found."@, error_ref()))
}

/// The responses of the combined lookup: a profile on success, an error when
/// neither a name nor an address resolves.
pub open spec fn universal_responses_model() -> Map<Seq<char>, JVal> {
    Map::empty().insert(
        "200"@,
        ref_response_model("Successfully found name or address."@, profile_ref()),
    ).insert("404"@, ref_response_model("No name or address could be found."@, error_ref()))
}

/// The operation of the address-keyed path.
pub open spec fn address_operation_model() -> JVal {
    operation_model(
        "routes::address"@,
        "address"@,
        "Address to lookup name data for"@,
        address_responses_model(),
    )
}

/// The operation of the name-keyed path.
pub open spec fn name_operation_model() -> JVal {
    operation_model(
        "routes::name"@,
        "name"@,
        "Name to lookup the name data for."@,
        name_responses_model(),
    )
}

/// The operation of the path keyed by a name or an address.
pub open spec fn universal_operation_model() -> JVal {
    operation_model(
        "routes::universal"@,
        "name_or_address"@,
        "Name or address to lookup the name data for."@,
        universal_responses_model(),
    )
}

/// A path item holding a single GET operation.
pub open spec fn path_item_model(op: JVal) -> JVal {
    JVal::Obj(Map::empty().insert("get"@, op))
}

/// The three declared paths of the service.
pub open spec fn paths_model() -> JVal {
    JVal::Obj(
        Map::empty().insert("/a/{address}"@, path_item_model(address_operation_model())).insert(
            "/n/{name}"@,
            path_item_model(name_operation_model()),
        ).insert("/u/{name_or_address}"@, path_item_model(universal_operation_model())),
    )
}

/// The required fields of the profile record schema.
pub open spec fn profile_required_model() -> JVal {
    JVal::Arr(
        seq![
            JVal::Str("name"@),
            JVal::Str("display"@),
            JVal::Str("records"@),
            JVal::Str("chains"@),
            JVal::Str("fresh"@),
            JVal::Str("resolver"@),
            JVal::Str("errors"@),
        ],
    )
}

/// The properties of the profile record schema.
pub open spec fn profile_properties_model() -> Map<Seq<char>, JVal> {
    Map::empty().insert("address"@, nullable_string_schema_model()).insert(
        "avatar"@,
        nullable_string_schema_model(),
    ).insert("chains"@, string_map_schema_model()).insert("display"@, string_schema_model())
        .insert("errors"@, string_map_schema_model()).insert("fresh"@, int64_schema_model())
        .insert("name"@, string_schema_model()).insert("records"@, string_map_schema_model())
        .insert("resolver"@, string_schema_model())
}

/// The profile record component schema.
pub open spec fn profile_schema_model() -> JVal {
    JVal::Obj(
        Map::empty().insert("type"@, JVal::Str("object"@)).insert(
            "required"@,
            profile_required_model(),
        ).insert("properties"@, JVal::Obj(profile_properties_model())),
    )
}

/// The required fields of the error record schema.
pub open spec fn error_required_model() -> JVal {
    JVal::Arr(seq![JVal::Str("status"@), JVal::Str("error"@)])
}

/// The error record component schema.
pub open spec fn error_schema_model() -> JVal {
    JVal::Obj(
        Map::empty().insert("type"@, JVal::Str("object"@)).insert(
            "required"@,
            error_required_model(),
        ).insert(
            "properties"@,
            JVal::Obj(
                Map::empty().insert("error"@, string_schema_model()).insert(
                    "status"@,
                    status_schema_model(),
                ),
            ),
        ),
    )
}

/// The named component schemas of the document.
pub open spec fn schemas_model() -> Map<Seq<char>, JVal> {
    Map::empty().insert("ENSProfile"@, profile_schema_model()).insert(
        "ErrorResponse"@,
        error_schema_model(),
    )
}

/// The components block of the document.
pub open spec fn components_model() -> JVal {
    JVal::Obj(Map::empty().insert("schemas"@, JVal::Obj(schemas_model())))
}

/// The license of the described service.
pub open spec fn license_model() -> JVal {
    JVal::Obj(Map::empty().insert("name"@, JVal::Str("GPL-3.0"@)))
}

/// The info block of the document.
pub open spec fn info_model() -> JVal {
    JVal::Obj(
        Map::empty().insert("title"@, JVal::Str("ENS EFP Worker"@)).insert(
            "description"@,
            JVal::Str("ENS metaservice used across the EFP ecosystem."@),
        ).insert("license"@, license_model()).insert("version"@, JVal::Str("1.0.0-1"@)),
    )
}

/// The complete API description document.
pub open spec fn openapi_doc_model() -> JVal {
    JVal::Obj(
        Map::empty().insert("openapi"@, JVal::Str("3.0.3"@)).insert("info"@, info_model()).insert(
            "paths"@,
            paths_model(),
        ).insert("components"@, components_model()),
    )
}

} // verus!
