//! The documentation page renderer.
//!
//! The page is a fixed HTML template with a single placeholder token; the
//! renderer replaces that token with the serialized API description
//! document. The substitution is a verified exact-match, first-occurrence
//! replacement, and a failed document construction is propagated: no page
//! is produced from a partial or missing document.

use vstd::prelude::*;

use vstd::string::StrSliceExecFns;
use vstd::string::StringExecFns;

use crate::builder::DocError;
use crate::builder::openapi_json;
use crate::doc_model::openapi_doc_model;
use crate::serde_bridge::json_text;

verus! {

/// `pattern` occurs in `text` at position `i`.
pub open spec fn occurs_at(text: Seq<char>, pattern: Seq<char>, i: int) -> bool {
    &&& 0 <= i
    &&& i + pattern.len() <= text.len()
    &&& text.subrange(i, i + pattern.len()) == pattern
}

/// The placeholder token at the template's single embedding point.
pub open spec fn token_model() -> Seq<char> {
    "__OPENAPI_JSON__"@
}

/// The text of the template before the placeholder token.
pub open spec fn template_head_model() -> Seq<char> {
    "<!doctype html>\n<html lang='en'>\n  <head>\n    <meta charset='UTF-8' />\n    <title>ENS EFP Worker</title>\n    <link rel='stylesheet' type='text/css' href='https://unpkg.com/swagger-ui-dist/swagger-ui.css' />\n    <style>\n      *,:after,:before{box-sizing:inherit}::-webkit-scrollbar{height:.3rem;width:0}\n      ::-webkit-scrollbar-track{-ms-overflow-style:none;overflow:-moz-scrollbars-none}\n      ::-webkit-scrollbar-thumb{-ms-overflow-style:none;overflow:-moz-scrollbars-none}\n      @supports (scrollbar-gutter:stable){html{overflow-y:auto;scrollbar-gutter:stable}}\n      html{box-sizing:border-box;overflow:-moz-scrollbars-vertical;overflow-y:scroll;margin:0;background:rgb(255,244,254)}\n      .errors-wrapper{display:none!important}\n    </style>\n  </head>\n\n  <body>\n    <div id='swagger-ui'></div>\n    <script src='https://unpkg.com/swagger-ui-dist/swagger-ui-bundle.js' charset='UTF-8'></script>\n    <script src='https://unpkg.com/swagger-ui-dist/swagger-ui-standalone-preset.js' charset='UTF-8'></script>\n    <script>\n      window.onload = () => window.ui = SwaggerUIBundle({\n        spec: "@
}

/// The text of the template after the placeholder token.
pub open spec fn template_tail_model() -> Seq<char> {
    ",\n        deepLinking: true,\n        dom_id: '#swagger-ui',\n        layout: 'StandaloneLayout',\n        plugins: [SwaggerUIBundle.plugins.DownloadUrl],\n        presets: [SwaggerUIBundle.presets.apis, SwaggerUIStandalonePreset],\n      })\n    </script>\n  </body>\n</html>\n"@
}

/// The documentation page template: the head, the placeholder token, and
/// the tail. The token is written nowhere else in the template.
pub open spec fn template_model() -> Seq<char> {
    template_head_model() + token_model() + template_tail_model()
}

/// The placeholder token that marks where the serialized document goes.
pub fn placeholder_token() -> (r: &'static str)
    ensures
        r@ == token_model(),
{
    "__OPENAPI_JSON__"
}

fn template_head() -> (r: &'static str)
    ensures
        r@ == template_head_model(),
{
    "<!doctype html>\n<html lang='en'>\n  <head>\n    <meta charset='UTF-8' />\n    <title>ENS EFP Worker</title>\n    <link rel='stylesheet' type='text/css' href='https://unpkg.com/swagger-ui-dist/swagger-ui.css' />\n    <style>\n      *,:after,:before{box-sizing:inherit}::-webkit-scrollbar{height:.3rem;width:0}\n      ::-webkit-scrollbar-track{-ms-overflow-style:none;overflow:-moz-scrollbars-none}\n      ::-webkit-scrollbar-thumb{-ms-overflow-style:none;overflow:-moz-scrollbars-none}\n      @supports (scrollbar-gutter:stable){html{overflow-y:auto;scrollbar-gutter:stable}}\n      html{box-sizing:border-box;overflow:-moz-scrollbars-vertical;overflow-y:scroll;margin:0;background:rgb(255,244,254)}\n      .errors-wrapper{display:none!important}\n    </style>\n  </head>\n\n  <body>\n    <div id='swagger-ui'></div>\n    <script src='https://unpkg.com/swagger-ui-dist/swagger-ui-bundle.js' charset='UTF-8'></script>\n    <script src='https://unpkg.com/swagger-ui-dist/swagger-ui-standalone-preset.js' charset='UTF-8'></script>\n    <script>\n      window.onload = () => window.ui = SwaggerUIBundle({\n        spec: "
}

fn template_tail() -> (r: &'static str)
    ensures
        r@ == template_tail_model(),
{
    ",\n        deepLinking: true,\n        dom_id: '#swagger-ui',\n        layout: 'StandaloneLayout',\n        plugins: [SwaggerUIBundle.plugins.DownloadUrl],\n        presets: [SwaggerUIBundle.presets.apis, SwaggerUIStandalonePreset],\n      })\n    </script>\n  </body>\n</html>\n"
}

/// The fixed HTML template of the documentation page.
pub fn docs_template() -> (r: String)
    ensures
        r@ == template_model(),
{
    let mut t = template_head().to_owned();
    t.append(placeholder_token());
    t.append(template_tail());
    t
}

/// Whether `pattern` occurs in `text` at exactly position `i`.
fn matches_at(text: &str, pattern: &str, i: usize) -> (b: bool)
    requires
        i + pattern@.len() <= text@.len(),
        text@.len() <= usize::MAX as int,
    ensures
        b == occurs_at(text@, pattern@, i as int),
{
    let m = pattern.unicode_len();
    let mut j: usize = 0;
    while j < m
        invariant
            j <= m,
            m == pattern@.len(),
            i + m <= text@.len(),
            text@.len() <= usize::MAX as int,
            forall|k: int| 0 <= k < j ==> text@[i + k] == pattern@[k],
        decreases m - j,
    {
        if text.get_char(i + j) != pattern.get_char(j) {
            proof {
                if occurs_at(text@, pattern@, i as int) {
                    assert(text@.subrange(i as int, i + pattern@.len())[j as int]
                        == pattern@[j as int]);
                }
            }
            return false;
        }
        j = j + 1;
    }
    proof {
        assert(text@.subrange(i as int, i + pattern@.len()) =~= pattern@);
    }
    true
}

/// Replaces the first occurrence of `token` in `template` with `payload`.
///
/// Returns `None` exactly when the token does not occur in the template;
/// otherwise the result is the template text up to the first occurrence,
/// then the payload, then the template text after that occurrence.
pub fn substitute_once(template: &str, token: &str, payload: &str) -> (r: Option<String>)
    ensures
        r is Some <==> (exists|i: int| occurs_at(template@, token@, i)),
        r matches Some(s) ==> (exists|i: int| (
            occurs_at(template@, token@, i)
            && (forall|j: int| 0 <= j < i ==> !occurs_at(template@, token@, j))
            && s@ == template@.take(i) + payload@ + template@.skip(i + token@.len())
        )),
{
    let n = template.unicode_len();
    let m = token.unicode_len();
    if m > n {
        proof {
            assert(forall|i: int| !occurs_at(template@, token@, i));
        }
        return None;
    }
    if m == 0 {
        let mut s = payload.to_owned();
        s.append(template);
        proof {
            assert(template@.subrange(0, 0) =~= token@);
            assert(occurs_at(template@, token@, 0));
            assert(s@ =~= template@.take(0) + payload@ + template@.skip(0));
        }
        return Some(s);
    }
    let mut i: usize = 0;
    while i <= n - m
        invariant
            n == template@.len(),
            m == token@.len(),
            1 <= m <= n,
            i <= n - m + 1,
            forall|j: int| 0 <= j < i ==> !occurs_at(template@, token@, j),
        decreases n - m + 1 - i,
    {
        if matches_at(template, token, i) {
            let mut s = template.substring_char(0, i).to_owned();
            s.append(payload);
            s.append(template.substring_char(i + m, n));
            proof {
                assert(template@.subrange(0, i as int) =~= template@.take(i as int));
                assert(template@.subrange(i + m, n as int) =~= template@.skip(i + m));
            }
            return Some(s);
        }
        i = i + 1;
    }
    proof {
        assert forall|j: int| !occurs_at(template@, token@, j) by {
            if 0 <= j && j + m <= n {
                assert(j < i);
            }
        }
    }
    None
}

/// Renders the documentation page for a document construction result.
///
/// A failed construction is propagated unchanged: no page is produced from
/// it. A successful construction yields the template with its placeholder
/// token replaced by the serialized document text.
pub fn render_docs_page(doc: Result<String, DocError>) -> (r: Result<String, DocError>)
    ensures
        doc is Err ==> r is Err,
        doc matches Ok(payload) ==> (r matches Ok(page) && exists|i: int| (
            occurs_at(template_model(), token_model(), i)
            && (forall|j: int| 0 <= j < i ==> !occurs_at(template_model(), token_model(), j))
            && page@ == template_model().take(i) + payload@
                + template_model().skip(i + token_model().len())
        )),
{
    match doc {
        Err(e) => Err(e),
        Ok(payload) => {
            let t = docs_template();
            proof {
                let h = template_head_model().len() as int;
                assert(template_model().subrange(h, h + token_model().len()) =~= token_model());
                assert(occurs_at(template_model(), token_model(), h));
            }
            match substitute_once(t.as_str(), placeholder_token(), payload.as_str()) {
                Some(page) => Ok(page),
                None => unreached(),
            }
        },
    }
}

/// Builds the API description document, serializes it, and renders the
/// documentation page around it.
///
/// The result is the fixed template with its placeholder token replaced by
/// the serialization of [`openapi_doc_model`].
pub fn swagger_html_str() -> (r: String)
    ensures
        exists|i: int| (
            occurs_at(template_model(), token_model(), i)
            && (forall|j: int| 0 <= j < i ==> !occurs_at(template_model(), token_model(), j))
            && r@ == template_model().take(i) + json_text(openapi_doc_model())
                + template_model().skip(i + token_model().len())
        ),
{
    match render_docs_page(openapi_json()) {
        Ok(page) => page,
        Err(_) => unreached(),
    }
}

/// Substituting a payload for the token cannot reintroduce the token.
///
/// If the token occurs neither in the head joined with the payload nor in
/// the payload joined with the tail, and the payload is at least as long
/// as the token, then the token does not occur anywhere in the assembled
/// page: every occurrence would lie entirely within one of those two
/// overlapping windows.
pub proof fn lemma_token_absent(
    head: Seq<char>,
    payload: Seq<char>,
    tail: Seq<char>,
    token: Seq<char>,
)
    requires
        token.len() <= payload.len(),
        forall|i: int| !occurs_at(head + payload, token, i),
        forall|i: int| !occurs_at(payload + tail, token, i),
    ensures
        forall|i: int| !occurs_at(head + payload + tail, token, i),
{
    assert forall|i: int| !occurs_at(head + payload + tail, token, i) by {
        if occurs_at(head + payload + tail, token, i) {
            let full = head + payload + tail;
            if i + token.len() <= head.len() + payload.len() {
                assert((head + payload).subrange(i, i + token.len()) =~= full.subrange(
                    i,
                    i + token.len(),
                ));
                assert(occurs_at(head + payload, token, i));
            } else {
                let k = i - head.len();
                assert((payload + tail).subrange(k, k + token.len()) =~= full.subrange(
                    i,
                    i + token.len(),
                ));
                assert(occurs_at(payload + tail, token, k));
            }
        }
    }
}

} // verus!
