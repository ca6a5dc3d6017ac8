//! The error taxonomy of schema construction. Every failure of the build is
//! one of these variants; construction aborts at the first one met.

use vstd::prelude::*;

verus! {

/// `serde_yaml::Error`, the diagnostic of the document parser. Opaque to the
/// verifier; it only travels from the parser to the caller inside
/// [`SchemaError::YamlParsingError`].
#[verifier::external_type_specification]
#[verifier::external_body]
pub struct ExYamlError(serde_yaml::Error);

/// `regex_syntax::ast::Error`, the diagnostic of the grammar parser. Opaque
/// to the verifier; it only travels from the parser to the caller inside
/// [`SchemaError::RegexParsingError`].
#[verifier::external_type_specification]
#[verifier::external_body]
pub struct ExRegexError(regex_syntax::ast::Error);

/// What can go wrong while a schema is built.
#[derive(Debug)]
pub enum SchemaError {
    /// The schema source could not be read; carries the rendered I/O
    /// diagnostic.
    IOError(String),
    /// The source text is not a well-formed key/value document; carries the
    /// document parser's diagnostic.
    YamlParsingError(serde_yaml::Error),
    /// One of the three required sections is absent; carries its key.
    MissingSchemaKey(&'static str),
    /// A present section has the wrong shape: the timestamp section is not a
    /// sequence of strings, the variable section is not a mapping of strings
    /// to strings, or the delimiter section is not a string.
    InvalidSchema,
    /// A delimiter character falls outside the single-byte ASCII range.
    NoneASCIICharacters,
    /// A timestamp or variable pattern is not a well-formed regular
    /// expression; carries the grammar parser's diagnostic.
    RegexParsingError(regex_syntax::ast::Error),
}

} // verus!
