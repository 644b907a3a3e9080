//! Compiles an OpenAPI description into a typed request-dispatch layer for
//! serverless HTTP handlers: references are resolved and merged into one
//! document, anonymous schemas get deterministic names, named schemas become a
//! model of structs, unions and closed enumerations, and every operation gets a
//! plan for reading its parameters and body and for writing its responses.
pub mod arn;
pub mod codec;
pub mod copy;
pub mod document;
pub mod error;
pub mod fresh;
pub mod gateway;
pub mod generator;
pub mod gateway_document;
pub mod gateway_spec;
pub mod inline;
pub mod inline_document;
pub mod inline_spec;
pub mod ir;
pub mod middleware;
pub mod model;
pub mod model_laws;
pub mod model_spec;
pub mod models;
pub mod module;
pub mod operation;
pub mod operation_spec;
pub mod naming;
pub mod naming_document;
pub mod naming_spec;
pub mod order;
pub mod outside;
pub mod plan;
pub mod reference;
pub mod runtime;
pub mod same;
pub mod schema;
pub mod status;
pub mod table;
pub mod text;
