//! A small library that builds the OpenAPI 3.0.3 description document for an
//! ENS lookup service and renders the interactive documentation page that
//! embeds the serialized document.
//!
//! The document is modelled at the specification level by [`json_model::JVal`];
//! the builder proves that the constructed `serde_json::Value` matches the
//! fixed model [`doc_model::openapi_doc_model`], and the renderer proves that
//! the page is the HTML template with its placeholder token replaced by the
//! serialized document.

pub mod json_model;

pub mod serde_bridge;

pub mod doc_model;

pub mod builder;

pub mod doc_props;

pub mod render;
