use ens_docs::builder::openapi_json;
use ens_docs::builder::openapi_spec;

fn document() -> serde_json::Value {
    openapi_spec().expect("construction succeeds")
}

fn document_text() -> String {
    openapi_json().expect("serialization succeeds")
}

#[test]
fn document_is_deterministic() {
    assert_eq!(document_text(), document_text());
    assert_eq!(document(), document());
}

#[test]
fn document_parses_as_json() {
    let parsed: serde_json::Value =
        serde_json::from_str(&document_text()).expect("the document is valid JSON");
    assert_eq!(parsed, document());
}

#[test]
fn document_top_level_blocks() {
    let doc = document();
    assert_eq!(doc["openapi"].as_str(), Some("3.0.3"));
    assert_eq!(doc["info"]["title"].as_str(), Some("ENS EFP Worker"));
    assert_eq!(
        doc["info"]["description"].as_str(),
        Some("ENS metaservice used across the EFP ecosystem.")
    );
    assert_eq!(doc["info"]["license"]["name"].as_str(), Some("GPL-3.0"));
    assert_eq!(doc["info"]["version"].as_str(), Some("1.0.0-1"));
}

#[test]
fn paths_are_exactly_the_three_lookups() {
    let doc = document();
    let paths = doc["paths"].as_object().expect("paths is an object");
    let keys: Vec<&str> = paths.keys().map(|k| k.as_str()).collect();
    assert_eq!(keys, vec!["/a/{address}", "/n/{name}", "/u/{name_or_address}"]);
    for item in paths.values() {
        let ops: Vec<&str> = item
            .as_object()
            .expect("path item is an object")
            .keys()
            .map(|k| k.as_str())
            .collect();
        assert_eq!(ops, vec!["get"]);
    }
}

#[test]
fn operations_have_one_required_string_path_parameter() {
    let doc = document();
    let paths = doc["paths"].as_object().expect("paths is an object");
    for (path, item) in paths {
        let op = &item["get"];
        assert_eq!(op["operationId"].as_str(), Some("get"), "operationId of {path}");
        let params = op["parameters"].as_array().expect("parameters is an array");
        assert_eq!(params.len(), 1, "one parameter for {path}");
        let param = &params[0];
        assert_eq!(param["required"].as_bool(), Some(true));
        assert_eq!(param["in"].as_str(), Some("path"));
        assert_eq!(param["schema"]["type"].as_str(), Some("string"));
    }
    assert_eq!(
        doc["paths"]["/a/{address}"]["get"]["parameters"][0]["name"].as_str(),
        Some("address")
    );
    assert_eq!(doc["paths"]["/n/{name}"]["get"]["parameters"][0]["name"].as_str(), Some("name"));
    assert_eq!(
        doc["paths"]["/u/{name_or_address}"]["get"]["parameters"][0]["name"].as_str(),
        Some("name_or_address")
    );
}

#[test]
fn response_codes_match_the_declared_set() {
    let doc = document();
    let codes = |path: &str| -> Vec<String> {
        doc["paths"][path]["get"]["responses"]
            .as_object()
            .expect("responses is an object")
            .keys()
            .cloned()
            .collect()
    };
    assert_eq!(codes("/a/{address}"), vec!["200", "400", "404"]);
    assert_eq!(codes("/n/{name}"), vec!["200", "404"]);
    assert_eq!(codes("/u/{name_or_address}"), vec!["200", "404"]);
}

#[test]
fn response_refs_resolve_into_components() {
    let doc = document();
    let schemas = doc["components"]["schemas"].as_object().expect("schemas is an object");
    let paths = doc["paths"].as_object().expect("paths is an object");
    let mut seen = 0;
    for item in paths.values() {
        let responses = item["get"]["responses"].as_object().expect("responses is an object");
        for resp in responses.values() {
            let target = resp["content"]["application/json"]["schema"]["$ref"]
                .as_str()
                .expect("each response schema is a reference");
            let name = target
                .strip_prefix("#/components/schemas/")
                .expect("references point into the components block");
            assert!(schemas.contains_key(name), "unresolved reference {target}");
            seen += 1;
        }
    }
    assert_eq!(seen, 7);
}

#[test]
fn success_and_error_responses_use_the_right_schemas() {
    let doc = document();
    let schema_of = |path: &str, code: &str| -> String {
        doc["paths"][path]["get"]["responses"][code]["content"]["application/json"]["schema"]
            ["$ref"]
            .as_str()
            .expect("schema reference")
            .to_string()
    };
    let profile = "#/components/schemas/ENSProfile";
    let error = "#/components/schemas/ErrorResponse";
    assert_eq!(schema_of("/a/{address}", "200"), profile);
    assert_eq!(schema_of("/a/{address}", "400"), error);
    assert_eq!(schema_of("/a/{address}", "404"), error);
    assert_eq!(schema_of("/n/{name}", "200"), profile);
    assert_eq!(schema_of("/n/{name}", "404"), error);
    assert_eq!(schema_of("/u/{name_or_address}", "200"), profile);
    assert_eq!(schema_of("/u/{name_or_address}", "404"), error);
}

#[test]
fn profile_schema_lists_exactly_the_required_fields() {
    let doc = document();
    let profile = &doc["components"]["schemas"]["ENSProfile"];
    assert_eq!(profile["type"].as_str(), Some("object"));
    let required: Vec<&str> = profile["required"]
        .as_array()
        .expect("required is an array")
        .iter()
        .map(|v| v.as_str().expect("required names are strings"))
        .collect();
    assert_eq!(
        required,
        vec!["name", "display", "records", "chains", "fresh", "resolver", "errors"]
    );
    assert!(!required.contains(&"address"));
    assert!(!required.contains(&"avatar"));
    for optional in ["address", "avatar"] {
        let prop = &profile["properties"][optional];
        assert_eq!(prop["type"].as_str(), Some("string"));
        assert_eq!(prop["nullable"].as_bool(), Some(true));
    }
    assert_eq!(profile["properties"]["fresh"]["type"].as_str(), Some("integer"));
    assert_eq!(profile["properties"]["fresh"]["format"].as_str(), Some("int64"));
    assert_eq!(profile["properties"]["records"]["type"].as_str(), Some("object"));
    assert_eq!(
        profile["properties"]["records"]["additionalProperties"]["type"].as_str(),
        Some("string")
    );
}

#[test]
fn error_schema_lists_exactly_the_required_fields() {
    let doc = document();
    let error = &doc["components"]["schemas"]["ErrorResponse"];
    assert_eq!(error["type"].as_str(), Some("object"));
    let required: Vec<&str> = error["required"]
        .as_array()
        .expect("required is an array")
        .iter()
        .map(|v| v.as_str().expect("required names are strings"))
        .collect();
    assert_eq!(required, vec!["status", "error"]);
    let status = &error["properties"]["status"];
    assert_eq!(status["type"].as_str(), Some("integer"));
    assert_eq!(status["format"].as_str(), Some("int32"));
    assert_eq!(status["minimum"].as_u64(), Some(0));
    assert_eq!(error["properties"]["error"]["type"].as_str(), Some("string"));
}

#[test]
fn components_hold_exactly_the_two_schemas() {
    let doc = document();
    let schemas = doc["components"]["schemas"].as_object().expect("schemas is an object");
    let keys: Vec<&str> = schemas.keys().map(|k| k.as_str()).collect();
    assert_eq!(keys, vec!["ENSProfile", "ErrorResponse"]);
}
