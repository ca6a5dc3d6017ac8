//! Tests of schema construction from documents built directly and from
//! YAML source text.

use schema_parser::document::DocValue;
use schema_parser::error_handling::SchemaError;
use schema_parser::schema::{ParsedSchema, Schema, TimestampSchema, VarSchema};

fn text(s: &str) -> DocValue {
    DocValue::Text(s.to_string())
}

/// A document with `n_ts` timestamp patterns, the given variable pairs and
/// the given delimiter string.
fn make_doc(ts: &[&str], vars: &[(&str, &str)], delims: &str) -> Vec<(String, DocValue)> {
    let ts_list: Vec<DocValue> = ts.iter().map(|p| text(p)).collect();
    let var_pairs: Vec<(DocValue, DocValue)> =
        vars.iter().map(|(n, p)| (text(n), text(p))).collect();
    vec![
        ("timestamp".to_string(), DocValue::List(ts_list)),
        ("variables".to_string(), DocValue::Pairs(var_pairs)),
        ("delimiters".to_string(), text(delims)),
    ]
}

#[test]
fn counts_entries_and_unique_delimiters() {
    let doc = make_doc(
        &["\\d{4}-\\d{2}-\\d{2}", "\\d{2}:\\d{2}:\\d{2}"],
        &[("ip", "\\d+\\.\\d+\\.\\d+\\.\\d+"), ("level", "[A-Z]+")],
        "::a:a,",
    );
    let schema = ParsedSchema::load_from_kv_pairs(doc).unwrap();
    assert_eq!(schema.get_schemas().len(), 4);
    // "::a:a," holds the three distinct characters ':', 'a' and ','.
    assert_eq!(schema.delimiters.len(), 3);
}

#[test]
fn entry_order_timestamps_before_variables() {
    let doc = make_doc(
        &["\\d{4}", "\\d{2}", "\\d+"],
        &[("a", "x+"), ("b", "y+")],
        ",",
    );
    let schema = ParsedSchema::load_from_kv_pairs(doc).unwrap();
    assert_eq!(schema.get_schemas().len(), 5);
    let expected_ts = ["\\d{4}", "\\d{2}", "\\d+"];
    let expected_vars = [("a", "x+"), ("b", "y+")];
    for (i, entry) in schema.get_schemas().iter().enumerate() {
        match entry {
            Schema::Timestamp(t) => {
                assert!(i < 3);
                assert_eq!(t.get_regex(), expected_ts[i]);
            }
            Schema::Var(v) => {
                assert!(i >= 3);
                assert_eq!(v.get_name(), expected_vars[i - 3].0);
                assert_eq!(v.get_regex(), expected_vars[i - 3].1);
            }
        }
    }
}

#[test]
fn has_delimiter_by_source_string() {
    let doc = make_doc(&[], &[], ": ,");
    let schema = ParsedSchema::load_from_kv_pairs(doc).unwrap();
    assert!(schema.has_delimiter(':'));
    assert!(schema.has_delimiter(' '));
    assert!(schema.has_delimiter(','));
    assert!(!schema.has_delimiter('|'));
    assert!(!schema.has_delimiter('a'));
    // A non-ASCII query is answered with false, never an error.
    assert!(!schema.has_delimiter('\u{e9}'));
    assert!(!schema.has_delimiter('\u{1F600}'));
}

#[test]
fn empty_delimiter_string_is_valid() {
    let doc = make_doc(&["\\d+"], &[("v", "\\w+")], "");
    let schema = ParsedSchema::load_from_kv_pairs(doc).unwrap();
    assert_eq!(schema.delimiters.len(), 0);
    assert!(!schema.has_delimiter(':'));
}

#[test]
fn entry_pattern_round_trips_to_ast() {
    let source = "\\d{4}-\\d{2}-\\d{2}";
    let entry = TimestampSchema::new(source.to_string()).unwrap();
    assert_eq!(entry.get_regex(), source);
    let expected = regex_syntax::ast::parse::Parser::new().parse(source).unwrap();
    assert_eq!(*entry.get_ast(), expected);

    let var = VarSchema::new("ip".to_string(), "\\d+".to_string()).unwrap();
    assert_eq!(var.get_name(), "ip");
    assert_eq!(var.get_regex(), "\\d+");
    let expected_var = regex_syntax::ast::parse::Parser::new().parse("\\d+").unwrap();
    assert_eq!(*var.get_ast(), expected_var);
}

#[test]
fn schema_entry_ast_dispatch() {
    let doc = make_doc(&["\\d+"], &[("v", "[a-z]+")], "");
    let schema = ParsedSchema::load_from_kv_pairs(doc).unwrap();
    let expected_ts = regex_syntax::ast::parse::Parser::new().parse("\\d+").unwrap();
    let expected_var = regex_syntax::ast::parse::Parser::new().parse("[a-z]+").unwrap();
    assert_eq!(*schema.get_schemas()[0].get_ast(), expected_ts);
    assert_eq!(*schema.get_schemas()[1].get_ast(), expected_var);
}

#[test]
fn missing_timestamp_key() {
    let doc = vec![
        ("variables".to_string(), DocValue::Pairs(vec![(text("a"), text("x"))])),
        ("delimiters".to_string(), text(",")),
    ];
    match ParsedSchema::load_from_kv_pairs(doc) {
        Err(SchemaError::MissingSchemaKey(k)) => assert_eq!(k, "timestamp"),
        _ => panic!("expected MissingSchemaKey(\"timestamp\")"),
    }
}

#[test]
fn missing_variables_key() {
    let doc = vec![
        ("timestamp".to_string(), DocValue::List(vec![text("\\d+")])),
        ("delimiters".to_string(), text(",")),
    ];
    match ParsedSchema::load_from_kv_pairs(doc) {
        Err(SchemaError::MissingSchemaKey(k)) => assert_eq!(k, "variables"),
        _ => panic!("expected MissingSchemaKey(\"variables\")"),
    }
}

#[test]
fn missing_delimiters_key() {
    let doc = vec![
        ("timestamp".to_string(), DocValue::List(vec![text("\\d+")])),
        ("variables".to_string(), DocValue::Pairs(vec![(text("a"), text("x"))])),
    ];
    match ParsedSchema::load_from_kv_pairs(doc) {
        Err(SchemaError::MissingSchemaKey(k)) => assert_eq!(k, "delimiters"),
        _ => panic!("expected MissingSchemaKey(\"delimiters\")"),
    }
}

#[test]
fn non_ascii_delimiter_rejected_anywhere() {
    for delims in ["\u{e9}", "a\u{e9}", "\u{e9}a", ",:\u{1F600}x"] {
        let doc = make_doc(&["\\d+"], &[("v", "x")], delims);
        match ParsedSchema::load_from_kv_pairs(doc) {
            Err(SchemaError::NoneASCIICharacters) => {}
            _ => panic!("expected NoneASCIICharacters for {:?}", delims),
        }
    }
}

#[test]
fn wrong_section_shapes_rejected() {
    // Timestamp section not a sequence.
    let doc = vec![
        ("timestamp".to_string(), text("\\d+")),
        ("variables".to_string(), DocValue::Pairs(vec![])),
        ("delimiters".to_string(), text(",")),
    ];
    assert!(matches!(
        ParsedSchema::load_from_kv_pairs(doc),
        Err(SchemaError::InvalidSchema)
    ));

    // A timestamp element that is not a string.
    let doc = vec![
        ("timestamp".to_string(), DocValue::List(vec![DocValue::Other])),
        ("variables".to_string(), DocValue::Pairs(vec![])),
        ("delimiters".to_string(), text(",")),
    ];
    assert!(matches!(
        ParsedSchema::load_from_kv_pairs(doc),
        Err(SchemaError::InvalidSchema)
    ));

    // Variable section not a mapping.
    let doc = vec![
        ("timestamp".to_string(), DocValue::List(vec![])),
        ("variables".to_string(), DocValue::List(vec![])),
        ("delimiters".to_string(), text(",")),
    ];
    assert!(matches!(
        ParsedSchema::load_from_kv_pairs(doc),
        Err(SchemaError::InvalidSchema)
    ));

    // A variable value that is not a string.
    let doc = vec![
        ("timestamp".to_string(), DocValue::List(vec![])),
        ("variables".to_string(), DocValue::Pairs(vec![(text("ip"), DocValue::Other)])),
        ("delimiters".to_string(), text(",")),
    ];
    assert!(matches!(
        ParsedSchema::load_from_kv_pairs(doc),
        Err(SchemaError::InvalidSchema)
    ));

    // Delimiter section not a string.
    let doc = vec![
        ("timestamp".to_string(), DocValue::List(vec![])),
        ("variables".to_string(), DocValue::Pairs(vec![])),
        ("delimiters".to_string(), DocValue::List(vec![])),
    ];
    assert!(matches!(
        ParsedSchema::load_from_kv_pairs(doc),
        Err(SchemaError::InvalidSchema)
    ));
}

#[test]
fn bad_pattern_reports_grammar_error() {
    let doc = make_doc(&["("], &[], ",");
    assert!(matches!(
        ParsedSchema::load_from_kv_pairs(doc),
        Err(SchemaError::RegexParsingError(_))
    ));

    let doc = make_doc(&["\\d+"], &[("v", "[unclosed")], ",");
    assert!(matches!(
        ParsedSchema::load_from_kv_pairs(doc),
        Err(SchemaError::RegexParsingError(_))
    ));
}

#[test]
fn bad_pattern_construction() {
    assert!(matches!(
        TimestampSchema::new("(".to_string()),
        Err(SchemaError::RegexParsingError(_))
    ));
    assert!(matches!(
        VarSchema::new("v".to_string(), "(".to_string()),
        Err(SchemaError::RegexParsingError(_))
    ));
}
