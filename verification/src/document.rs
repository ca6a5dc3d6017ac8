//! The library's model of the generic key/value document that schema source
//! text parses into, and the trusted bridge from the external document
//! parser to that model.

use vstd::prelude::*;

verus! {

/// One value of the parsed document, holding as plain values exactly the
/// shapes the schema reads: a string, a sequence of values, or a mapping
/// given as its pairs in document order. Scalars of any other kind become
/// [`DocValue::Other`], which every section builder rejects, just as it
/// rejects a sequence or a mapping standing where a string is required.
#[derive(Debug)]
pub enum DocValue {
    Text(String),
    List(Vec<DocValue>),
    Pairs(Vec<(DocValue, DocValue)>),
    Other,
}

/// `serde_yaml::Value`, the document parser's own dynamically typed value.
/// It appears only in the trusted conversion below and is never inspected by
/// verified code.
#[verifier::external_type_specification]
#[verifier::external_body]
pub struct ExValue(serde_yaml::Value);

/// Relies on `serde_yaml::Value`'s variants: tells them apart, one arm each,
/// moving the fields into the library's document model.
#[verifier::external_body]
fn convert_value(v: serde_yaml::Value) -> DocValue {
    match v {
        serde_yaml::Value::String(s) => DocValue::Text(s),
        serde_yaml::Value::Sequence(els) => DocValue::List(
            els.into_iter().map(convert_value).collect(),
        ),
        serde_yaml::Value::Mapping(m) => DocValue::Pairs(
            m.into_iter().map(|(k, w)| (convert_value(k), convert_value(w))).collect(),
        ),
        _ => DocValue::Other,
    }
}

/// Relies on `serde_yaml::from_str`: parses the text as a mapping from
/// string keys to values, or fails with the parser's diagnostic. Which pairs
/// come back, and in what order, is stated nowhere: callers treat the
/// returned document itself as their input.
#[verifier::external_body]
pub fn load_kv_pairs_from_yaml_content(yaml_content: &str) -> (r: Result<
    Vec<(String, DocValue)>,
    serde_yaml::Error,
>) {
    match serde_yaml::from_str::<std::collections::HashMap<String, serde_yaml::Value>>(
        yaml_content,
    ) {
        Ok(m) => Ok(m.into_iter().map(|(k, v)| (k, convert_value(v))).collect()),
        Err(e) => Err(e),
    }
}

} // verus!
