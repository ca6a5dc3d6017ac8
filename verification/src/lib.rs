//! Loads a declarative pattern schema: a key/value document naming timestamp
//! patterns, named variable patterns and field delimiters, validated into a
//! strongly typed [`schema::ParsedSchema`].

pub mod document;
pub mod error_handling;
pub mod regex_parser;
pub mod schema;
