use ens_docs::builder::openapi_json;
use ens_docs::builder::DocError;
use ens_docs::render::docs_template;
use ens_docs::render::placeholder_token;
use ens_docs::render::render_docs_page;
use ens_docs::render::substitute_once;
use ens_docs::render::swagger_html_str;

#[test]
fn template_holds_the_token_exactly_once() {
    let template = docs_template();
    assert_eq!(template.matches(placeholder_token()).count(), 1);
}

#[test]
fn page_embeds_the_serialized_document() {
    let page = swagger_html_str();
    let doc = openapi_json().expect("serialization succeeds");
    assert_eq!(page.matches(doc.as_str()).count(), 1);
    assert!(!page.contains(placeholder_token()));
}

#[test]
fn page_starts_with_doctype_and_holds_one_spec_script() {
    let page = swagger_html_str();
    assert!(page.starts_with("<!doctype html>"));
    let doc = openapi_json().expect("serialization succeeds");
    let script = format!("spec: {doc},");
    assert_eq!(page.matches(script.as_str()).count(), 1);
    assert!(page.contains("<script>"));
    assert!(page.contains("</script>"));
}

#[test]
fn failed_construction_renders_no_page() {
    let rendered = render_docs_page(Err(DocError::Construction));
    assert_eq!(rendered, Err(DocError::Construction));
}

#[test]
fn successful_construction_renders_the_page() {
    let doc = openapi_json().expect("serialization succeeds");
    let rendered = render_docs_page(Ok(doc.clone())).expect("rendering succeeds");
    assert_eq!(rendered, swagger_html_str());
    assert!(rendered.contains(doc.as_str()));
}

#[test]
fn substitute_replaces_the_first_occurrence_only() {
    let out = substitute_once("ab TOK cd TOK", "TOK", "X").expect("token occurs");
    assert_eq!(out, "ab X cd TOK");
}

#[test]
fn substitute_without_occurrence_returns_none() {
    assert_eq!(substitute_once("abcdef", "TOK", "X"), None);
}

#[test]
fn substitute_keeps_surrounding_text() {
    let out = substitute_once("head __X__ tail", "__X__", "{\"a\":1}").expect("token occurs");
    assert_eq!(out, "head {\"a\":1} tail");
}
