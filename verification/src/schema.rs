//! Schema construction and validation: the three required sections of the
//! document become typed entries, every pattern routed through the grammar
//! parser, and the result is an immutable, fully validated schema.

use vstd::prelude::*;

use crate::document::DocValue;
use crate::document::load_kv_pairs_from_yaml_content;
use crate::error_handling::SchemaError;
use crate::regex_parser::{parse_into_ast, pattern_ok, spec_ast_of};
use std::collections::HashSet;

verus! {

broadcast use vstd::std_specs::hash::group_hash_axioms;

/// One recognized timestamp format: a pattern string and the tree the
/// grammar parser built from it.
pub struct TimestampSchema {
    pub regex: String,
    pub ast: regex_syntax::ast::Ast,
}

impl TimestampSchema {
    /// The stored tree is exactly what the grammar parser returns for the
    /// stored pattern string.
    pub open spec fn wf(self) -> bool {
        pattern_ok(self.regex@) && self.ast == spec_ast_of(self.regex@)
    }

    pub fn new(regex: String) -> (r: Result<TimestampSchema, SchemaError>)
        ensures
            r is Ok <==> pattern_ok(regex@),
            r matches Ok(t) ==> t.regex@ == regex@ && t.wf(),
            r matches Err(e) ==> e is RegexParsingError,
    {
        match parse_into_ast(regex.as_str()) {
            Ok(ast) => Ok(TimestampSchema { regex, ast }),
            Err(e) => Err(SchemaError::RegexParsingError(e)),
        }
    }

    pub fn get_regex(&self) -> (r: &str)
        ensures
            r@ == self.regex@,
    {
        self.regex.as_str()
    }

    pub fn get_ast(&self) -> (r: &regex_syntax::ast::Ast)
        ensures
            *r == self.ast,
    {
        &self.ast
    }
}

/// One named capturable field: its name, its pattern string and the tree the
/// grammar parser built from that pattern.
pub struct VarSchema {
    pub name: String,
    pub regex: String,
    pub ast: regex_syntax::ast::Ast,
}

impl VarSchema {
    /// The stored tree is exactly what the grammar parser returns for the
    /// stored pattern string.
    pub open spec fn wf(self) -> bool {
        pattern_ok(self.regex@) && self.ast == spec_ast_of(self.regex@)
    }

    pub fn new(name: String, regex: String) -> (r: Result<VarSchema, SchemaError>)
        ensures
            r is Ok <==> pattern_ok(regex@),
            r matches Ok(v) ==> v.name@ == name@ && v.regex@ == regex@ && v.wf(),
            r matches Err(e) ==> e is RegexParsingError,
    {
        match parse_into_ast(regex.as_str()) {
            Ok(ast) => Ok(VarSchema { name, regex, ast }),
            Err(e) => Err(SchemaError::RegexParsingError(e)),
        }
    }

    pub fn get_name(&self) -> (r: &str)
        ensures
            r@ == self.name@,
    {
        self.name.as_str()
    }

    pub fn get_regex(&self) -> (r: &str)
        ensures
            r@ == self.regex@,
    {
        self.regex.as_str()
    }

    pub fn get_ast(&self) -> (r: &regex_syntax::ast::Ast)
        ensures
            *r == self.ast,
    {
        &self.ast
    }
}

/// One entry of the finished schema: a timestamp format or a named variable.
pub enum Schema {
    Timestamp(TimestampSchema),
    Var(VarSchema),
}

impl Schema {
    /// The entry's pattern was grammar-parsed into the entry's tree.
    pub open spec fn wf(self) -> bool {
        match self {
            Schema::Timestamp(t) => t.wf(),
            Schema::Var(v) => v.wf(),
        }
    }

    /// The tree stored in the entry.
    pub open spec fn spec_ast(self) -> regex_syntax::ast::Ast {
        match self {
            Schema::Timestamp(t) => t.ast,
            Schema::Var(v) => v.ast,
        }
    }

    pub fn get_ast(&self) -> (r: &regex_syntax::ast::Ast)
        ensures
            *r == self.spec_ast(),
    {
        match self {
            Schema::Timestamp(schema) => schema.get_ast(),
            Schema::Var(schema) => schema.get_ast(),
        }
    }
}

/// The string a document value holds.
pub open spec fn text_of(v: DocValue) -> Seq<char>
    recommends
        v is Text,
{
    v->Text_0@
}

/// The value the key is first bound to in the document, scanning in order.
pub open spec fn doc_lookup(doc: Seq<(String, DocValue)>, key: Seq<char>) -> Option<DocValue>
    decreases doc.len(),
{
    if doc.len() == 0 {
        None
    } else if doc[0].0@ == key {
        Some(doc[0].1)
    } else {
        doc_lookup(doc.drop_first(), key)
    }
}

/// The timestamp section of the document.
pub open spec fn ts_section(doc: Seq<(String, DocValue)>) -> Option<DocValue> {
    doc_lookup(doc, "timestamp"@)
}

/// The variable section of the document.
pub open spec fn var_section(doc: Seq<(String, DocValue)>) -> Option<DocValue> {
    doc_lookup(doc, "variables"@)
}

/// The delimiter section of the document.
pub open spec fn delim_section(doc: Seq<(String, DocValue)>) -> Option<DocValue> {
    doc_lookup(doc, "delimiters"@)
}

/// A timestamp entry source: a string whose pattern grammar-parses.
pub open spec fn ts_elem_ok(v: DocValue) -> bool {
    v matches DocValue::Text(s) && pattern_ok(s@)
}

/// All elements of the timestamp sequence are acceptable.
pub open spec fn ts_elems_ok(els: Seq<DocValue>) -> bool {
    forall|i: int| 0 <= i < els.len() ==> ts_elem_ok(#[trigger] els[i])
}

/// The first `n` elements of the timestamp sequence are acceptable.
pub open spec fn ts_prefix_ok(els: Seq<DocValue>, n: int) -> bool {
    forall|i: int| 0 <= i < n ==> ts_elem_ok(#[trigger] els[i])
}

/// A variable entry source: a string name, and a string whose pattern
/// grammar-parses.
pub open spec fn var_pair_ok(p: (DocValue, DocValue)) -> bool {
    &&& p.0 is Text
    &&& p.1 matches DocValue::Text(s) && pattern_ok(s@)
}

/// All pairs of the variable mapping are acceptable.
pub open spec fn var_pairs_ok(prs: Seq<(DocValue, DocValue)>) -> bool {
    forall|i: int| 0 <= i < prs.len() ==> var_pair_ok(#[trigger] prs[i])
}

/// The first `n` pairs of the variable mapping are acceptable.
pub open spec fn var_prefix_ok(prs: Seq<(DocValue, DocValue)>, n: int) -> bool {
    forall|i: int| 0 <= i < n ==> var_pair_ok(#[trigger] prs[i])
}

/// Every character has a code point below 128.
pub open spec fn all_ascii(s: Seq<char>) -> bool {
    forall|i: int| 0 <= i < s.len() ==> (s[i] as u32) < 128
}

/// The code point of one character of the string.
pub open spec fn char_at_code(s: Seq<char>, i: int) -> u32 {
    s[i] as u32
}

/// The set of single-byte codes of the characters of the delimiter string.
pub open spec fn delim_codes(s: Seq<char>) -> Set<u8> {
    Set::new(
        |b: u8| exists|i: int| 0 <= i < s.len() && #[trigger] char_at_code(s, i) == b as u32,
    )
}

/// The timestamp section is present, a sequence, and all its elements are
/// acceptable.
pub open spec fn ts_section_ok(doc: Seq<(String, DocValue)>) -> bool {
    &&& ts_section(doc) matches Some(t)
    &&& t matches DocValue::List(els)
    &&& ts_elems_ok(els@)
}

/// The variable section is present, a mapping, and all its pairs are
/// acceptable.
pub open spec fn var_section_ok(doc: Seq<(String, DocValue)>) -> bool {
    &&& var_section(doc) matches Some(v)
    &&& v matches DocValue::Pairs(prs)
    &&& var_pairs_ok(prs@)
}

/// The delimiter section is present, a string, and all its characters are
/// ASCII.
pub open spec fn delim_section_ok(doc: Seq<(String, DocValue)>) -> bool {
    &&& delim_section(doc) matches Some(d)
    &&& d matches DocValue::Text(s)
    &&& all_ascii(s@)
}

/// The document builds a schema.
pub open spec fn doc_ok(doc: Seq<(String, DocValue)>) -> bool {
    ts_section_ok(doc) && var_section_ok(doc) && delim_section_ok(doc)
}

/// The elements of the timestamp section.
pub open spec fn spec_ts_elems(doc: Seq<(String, DocValue)>) -> Seq<DocValue>
    recommends
        ts_section(doc) matches Some(t) && t is List,
{
    ts_section(doc)->0->List_0@
}

/// The pairs of the variable section.
pub open spec fn spec_var_pairs(doc: Seq<(String, DocValue)>) -> Seq<(DocValue, DocValue)>
    recommends
        var_section(doc) matches Some(v) && v is Pairs,
{
    var_section(doc)->0->Pairs_0@
}

/// The characters of the delimiter section.
pub open spec fn spec_delims(doc: Seq<(String, DocValue)>) -> Seq<char>
    recommends
        delim_section(doc) matches Some(d) && d is Text,
{
    delim_section(doc)->0->Text_0@
}

/// A schema entry built from one timestamp section element.
pub open spec fn ts_entry_matches(s: Schema, v: DocValue) -> bool {
    s matches Schema::Timestamp(t) && t.regex@ == text_of(v)
}

/// A schema entry built from one variable section pair.
pub open spec fn var_entry_matches(s: Schema, p: (DocValue, DocValue)) -> bool {
    s matches Schema::Var(vs) && vs.name@ == text_of(p.0) && vs.regex@ == text_of(p.1)
}

/// The error owed for the first unacceptable timestamp element: a non-string
/// is a shape mismatch, a string whose pattern does not grammar-parse carries
/// the grammar parser's error.
pub open spec fn ts_err_matches(els: Seq<DocValue>, e: SchemaError) -> bool {
    exists|i: int|
        0 <= i < els.len() && ts_prefix_ok(els, i) && !ts_elem_ok(#[trigger] els[i]) && (if els[i]
            is Text {
            e is RegexParsingError
        } else {
            e is InvalidSchema
        })
}

/// The error owed for the first unacceptable variable pair, in the same way.
pub open spec fn var_err_matches(prs: Seq<(DocValue, DocValue)>, e: SchemaError) -> bool {
    exists|i: int|
        0 <= i < prs.len() && var_prefix_ok(prs, i) && !var_pair_ok(#[trigger] prs[i]) && (if prs[i].0
            is Text && prs[i].1 is Text {
            e is RegexParsingError
        } else {
            e is InvalidSchema
        })
}

/// The error owed for a document that does not build: the sections are
/// examined in fixed order, timestamps, then variables, then delimiters, and
/// the first failure decides.
pub open spec fn build_err_matches(doc: Seq<(String, DocValue)>, e: SchemaError) -> bool {
    if ts_section(doc) is None {
        e matches SchemaError::MissingSchemaKey(k) && k@ == "timestamp"@
    } else if !(ts_section(doc)->0 is List) {
        e is InvalidSchema
    } else if !ts_elems_ok(spec_ts_elems(doc)) {
        ts_err_matches(spec_ts_elems(doc), e)
    } else if var_section(doc) is None {
        e matches SchemaError::MissingSchemaKey(k) && k@ == "variables"@
    } else if !(var_section(doc)->0 is Pairs) {
        e is InvalidSchema
    } else if !var_pairs_ok(spec_var_pairs(doc)) {
        var_err_matches(spec_var_pairs(doc), e)
    } else if delim_section(doc) is None {
        e matches SchemaError::MissingSchemaKey(k) && k@ == "delimiters"@
    } else if !(delim_section(doc)->0 is Text) {
        e is InvalidSchema
    } else {
        !all_ascii(spec_delims(doc)) && e is NoneASCIICharacters
    }
}

/// Relies on `str`'s `==`: string slices are equal exactly when their
/// character sequences are.
#[verifier::external_body]
fn str_eq(a: &str, b: &str) -> (r: bool)
    ensures
        r == (a@ == b@),
{
    a == b
}

/// The finished schema: the ordered entries, timestamps first, and the set of
/// delimiter codes.
pub struct ParsedSchema {
    pub schemas: Vec<Schema>,
    pub delimiters: HashSet<u8>,
}

impl ParsedSchema {
    /// Every entry's pattern was grammar-parsed into its tree, and every
    /// delimiter code is ASCII.
    pub open spec fn wf(self) -> bool {
        &&& forall|i: int| 0 <= i < self.schemas@.len() ==> (#[trigger] self.schemas@[i]).wf()
        &&& forall|b: u8| self.delimiters@.contains(b) ==> b < 128
    }

    pub fn get_schemas(&self) -> (r: &Vec<Schema>)
        ensures
            r == &self.schemas,
    {
        &self.schemas
    }

    pub fn has_delimiter(&self, delimiter: char) -> (r: bool)
        ensures
            r == ((delimiter as u32) < 128 && self.delimiters@.contains(delimiter as u8)),
    {
        let code: u32 = delimiter as u32;
        if code >= 128 {
            return false;
        }
        self.delimiters.contains(&(code as u8))
    }

    /// Looks one required section up by its key; absence is reported with
    /// that key.
    pub fn get_key_value<'a>(kv_pairs: &'a Vec<(String, DocValue)>, key: &'static str) -> (r:
        Result<&'a DocValue, SchemaError>)
        ensures
            r matches Ok(v) ==> doc_lookup(kv_pairs@, key@) == Some(*v),
            r is Err <==> doc_lookup(kv_pairs@, key@) is None,
            r matches Err(e) ==> (e matches SchemaError::MissingSchemaKey(k) && k@ == key@),
    {
        let n = kv_pairs.len();
        proof {
            assert(kv_pairs@.skip(0) =~= kv_pairs@);
        }
        for i in 0..n
            invariant
                n == kv_pairs@.len(),
                doc_lookup(kv_pairs@, key@) == doc_lookup(kv_pairs@.skip(i as int), key@),
        {
            proof {
                assert(kv_pairs@.skip(i as int)[0] == kv_pairs@[i as int]);
            }
            if str_eq(kv_pairs[i].0.as_str(), key) {
                return Ok(&kv_pairs[i].1);
            }
            proof {
                assert(kv_pairs@.skip(i as int).drop_first() =~= kv_pairs@.skip(i as int + 1));
            }
        }
        proof {
            assert(kv_pairs@.skip(n as int).len() == 0);
        }
        Err(SchemaError::MissingSchemaKey(key))
    }

    /// Builds the schema from an already parsed document: the three required
    /// sections are extracted and validated in fixed order, every pattern is
    /// grammar-parsed, and the first failure aborts the whole construction.
    pub fn load_from_kv_pairs(kv_pairs: Vec<(String, DocValue)>) -> (r: Result<
        ParsedSchema,
        SchemaError,
    >)
        ensures
            r is Ok <==> doc_ok(kv_pairs@),
            r matches Ok(ps) ==> ({
                let els = spec_ts_elems(kv_pairs@);
                let prs = spec_var_pairs(kv_pairs@);
                let ds = spec_delims(kv_pairs@);
                &&& ps.wf()
                &&& ps.schemas@.len() == els.len() + prs.len()
                &&& forall|i: int| 0 <= i < els.len() ==> ts_entry_matches(ps.schemas@[i], els[i])
                &&& forall|j: int|
                    0 <= j < prs.len() ==> var_entry_matches(ps.schemas@[els.len() + j], prs[j])
                &&& ps.delimiters@ == delim_codes(ds)
            }),
            r matches Err(e) ==> build_err_matches(kv_pairs@, e),
    {
        let mut delimiters: HashSet<u8> = HashSet::new();
        let mut schemas: Vec<Schema> = Vec::new();

        // Handle timestamps
        let timestamps = match Self::get_key_value(&kv_pairs, "timestamp") {
            Ok(v) => v,
            Err(e) => return Err(e),
        };
        let ghost els: Seq<DocValue> = spec_ts_elems(kv_pairs@);
        match timestamps {
            DocValue::List(sequence) => {
                let n_ts = sequence.len();
                for i in 0..n_ts
                    invariant
                        ts_section(kv_pairs@) == Some(DocValue::List(*sequence)),
                        els == sequence@,
                        n_ts == sequence@.len(),
                        schemas@.len() == i,
                        ts_prefix_ok(sequence@, i as int),
                        forall|k: int|
                            0 <= k < i ==> ts_entry_matches(schemas@[k], sequence@[k]) && (
                            #[trigger] schemas@[k]).wf(),
                {
                    match &sequence[i] {
                        DocValue::Text(s) => {
                            match TimestampSchema::new(s.clone()) {
                                Ok(t) => schemas.push(Schema::Timestamp(t)),
                                Err(e) => {
                                    return Err(e);
                                },
                            }
                        },
                        _ => {
                            return Err(SchemaError::InvalidSchema);
                        },
                    }
                }
            },
            _ => {
                return Err(SchemaError::InvalidSchema);
            },
        }

        // Handle variables
        let vars = match Self::get_key_value(&kv_pairs, "variables") {
            Ok(v) => v,
            Err(e) => return Err(e),
        };
        let ghost prs: Seq<(DocValue, DocValue)> = spec_var_pairs(kv_pairs@);
        match vars {
            DocValue::Pairs(map_pairs) => {
                let n_vars = map_pairs.len();
                for j in 0..n_vars
                    invariant
                        ts_section_ok(kv_pairs@),
                        els == spec_ts_elems(kv_pairs@),
                        var_section(kv_pairs@) == Some(DocValue::Pairs(*map_pairs)),
                        prs == map_pairs@,
                        n_vars == map_pairs@.len(),
                        schemas@.len() == els.len() + j,
                        var_prefix_ok(map_pairs@, j as int),
                        forall|k: int|
                            0 <= k < els.len() ==> ts_entry_matches(schemas@[k], els[k]) && (
                            #[trigger] schemas@[k]).wf(),
                        forall|k: int|
                            0 <= k < j ==> var_entry_matches(schemas@[els.len() + k], map_pairs@[k])
                                && (#[trigger] schemas@[els.len() + k]).wf(),
                {
                    match (&map_pairs[j].0, &map_pairs[j].1) {
                        (DocValue::Text(name), DocValue::Text(regex)) => {
                            match VarSchema::new(name.clone(), regex.clone()) {
                                Ok(v) => schemas.push(Schema::Var(v)),
                                Err(e) => {
                                    return Err(e);
                                },
                            }
                        },
                        _ => {
                            return Err(SchemaError::InvalidSchema);
                        },
                    }
                }
            },
            _ => {
                return Err(SchemaError::InvalidSchema);
            },
        }

        // Handle delimiters
        let delimiter = match Self::get_key_value(&kv_pairs, "delimiters") {
            Ok(v) => v,
            Err(e) => return Err(e),
        };
        match delimiter {
            DocValue::Text(delimiter_str) => {
                let ds: &str = delimiter_str.as_str();
                let n_delims = ds.unicode_len();
                proof {
                    assert(delim_codes(ds@.take(0)) =~= Set::<u8>::empty());
                }
                for i in 0..n_delims
                    invariant
                        ts_section_ok(kv_pairs@),
                        var_section_ok(kv_pairs@),
                        els == spec_ts_elems(kv_pairs@),
                        prs == spec_var_pairs(kv_pairs@),
                        delim_section(kv_pairs@) == Some(DocValue::Text(*delimiter_str)),
                        ds@ == delimiter_str@,
                        n_delims == ds@.len(),
                        schemas@.len() == els.len() + prs.len(),
                        forall|k: int|
                            0 <= k < els.len() ==> ts_entry_matches(schemas@[k], els[k]) && (
                            #[trigger] schemas@[k]).wf(),
                        forall|k: int|
                            0 <= k < prs.len() ==> var_entry_matches(schemas@[els.len() + k], prs[k])
                                && (#[trigger] schemas@[els.len() + k]).wf(),
                        forall|j: int| 0 <= j < i ==> (ds@[j] as u32) < 128,
                        delimiters@ == delim_codes(ds@.take(i as int)),
                {
                    let c = ds.get_char(i);
                    let code: u32 = c as u32;
                    if code >= 128 {
                        return Err(SchemaError::NoneASCIICharacters);
                    }
                    delimiters.insert(code as u8);
                    proof {
                        lemma_delim_codes_push(ds@, i as int);
                    }
                }
                proof {
                    assert(ds@.take(n_delims as int) =~= ds@);
                    assert(all_ascii(ds@));
                    assert(spec_delims(kv_pairs@) == ds@);
                    assert(delimiters@ == delim_codes(spec_delims(kv_pairs@)));
                }
            },
            _ => {
                return Err(SchemaError::InvalidSchema);
            },
        }

        proof {
            let dsp = spec_delims(kv_pairs@);
            assert forall|b: u8| delimiters@.contains(b) implies b < 128 by {
                let i = choose|i: int|
                    0 <= i < dsp.len() && #[trigger] char_at_code(dsp, i) == b as u32;
                assert(char_at_code(dsp, i) < 128);
            };
            assert forall|i: int| 0 <= i < schemas@.len() implies (#[trigger] schemas@[i]).wf() by {
                if i < els.len() {
                    assert(ts_entry_matches(schemas@[i], els[i]) && schemas@[i].wf());
                } else {
                    let k = i - els.len();
                    assert(var_entry_matches(schemas@[els.len() + k], prs[k]) && schemas@[els.len()
                        + k].wf());
                }
            };
        }
        Ok(ParsedSchema { delimiters, schemas })
    }

    /// Parses schema source text into a validated schema: the text is handed
    /// to the document parser, and the resulting document is built as
    /// [`ParsedSchema::load_from_kv_pairs`] states.
    pub fn parse_from_str(yaml_content: &str) -> (r: Result<ParsedSchema, SchemaError>)
        ensures
            r matches Ok(ps) ==> ps.wf(),
            r matches Err(e) ==> e is YamlParsingError || e is MissingSchemaKey || e
                is InvalidSchema || e is NoneASCIICharacters || e is RegexParsingError,
    {
        match load_kv_pairs_from_yaml_content(yaml_content) {
            Ok(kv_pairs) => Self::load_from_kv_pairs(kv_pairs),
            Err(e) => Err(SchemaError::YamlParsingError(e)),
        }
    }
}

/// Extending the delimiter string by one ASCII character extends its code
/// set by that character's code.
proof fn lemma_delim_codes_push(s: Seq<char>, k: int)
    requires
        0 <= k < s.len(),
        char_at_code(s, k) < 128,
    ensures
        delim_codes(s.take(k + 1)) == delim_codes(s.take(k)).insert(char_at_code(s, k) as u8),
{
    let x: u32 = char_at_code(s, k);
    let a = delim_codes(s.take(k + 1));
    let b = delim_codes(s.take(k)).insert(x as u8);
    assert(s.take(k + 1)[k] == s[k]);
    assert(char_at_code(s.take(k + 1), k) == x);
    assert forall|c: u8| a.contains(c) implies b.contains(c) by {
        let i = choose|i: int|
            0 <= i < s.take(k + 1).len() && #[trigger] char_at_code(s.take(k + 1), i) == c as u32;
        if i < k {
            assert(s.take(k)[i] == s[i]);
            assert(char_at_code(s.take(k), i) == c as u32);
            assert(delim_codes(s.take(k)).contains(c));
        } else {
            assert(c as u32 == x);
            assert(c as u32 == x && x < 128 ==> c == x as u8) by (bit_vector);
            assert(c == x as u8);
        }
    };
    assert forall|c: u8| b.contains(c) implies a.contains(c) by {
        if delim_codes(s.take(k)).contains(c) {
            let i = choose|i: int|
                0 <= i < s.take(k).len() && #[trigger] char_at_code(s.take(k), i) == c as u32;
            assert(s.take(k + 1)[i] == s[i]);
            assert(char_at_code(s.take(k + 1), i) == c as u32);
        } else {
            assert(c == x as u8);
            assert(x < 128 ==> (x as u8) as u32 == x) by (bit_vector);
            assert(char_at_code(s.take(k + 1), k) == c as u32);
        }
    };
    assert(a =~= b);
}

/// A schema whose delimiter set was built from a delimiter string answers
/// queries by that string: a query character with an ASCII code point is a
/// delimiter exactly when a character with that code point occurs in the
/// string, and a non-ASCII query character never is. The left-hand side is
/// what [`ParsedSchema::has_delimiter`] returns.
pub proof fn lemma_delimiter_query(ps: ParsedSchema, ds: Seq<char>, c: char)
    requires
        all_ascii(ds),
        ps.delimiters@ == delim_codes(ds),
    ensures
        ((c as u32) < 128 && ps.delimiters@.contains(c as u8)) <==> ((c as u32) < 128 && exists|
            i: int,
        | 0 <= i < ds.len() && #[trigger] char_at_code(ds, i) == c as u32),
{
    let x: u32 = c as u32;
    assert(c as u8 == x as u8);
    if x < 128 && ps.delimiters@.contains(c as u8) {
        let i = choose|i: int|
            0 <= i < ds.len() && #[trigger] char_at_code(ds, i) == (c as u8) as u32;
        assert(x < 128 ==> (x as u8) as u32 == x) by (bit_vector);
        assert(char_at_code(ds, i) == x);
    }
    if x < 128 && exists|i: int| 0 <= i < ds.len() && #[trigger] char_at_code(ds, i) == x {
        let i = choose|i: int| 0 <= i < ds.len() && #[trigger] char_at_code(ds, i) == x;
        assert(x < 128 ==> (x as u8) as u32 == x) by (bit_vector);
        assert(char_at_code(ds, i) == (c as u8) as u32);
        assert(ps.delimiters@.contains(c as u8));
    }
}

/// Leaving any one of the three required sections out of an otherwise valid
/// document makes the build fail with `MissingSchemaKey` naming exactly that
/// section's key. The hypothesis is what
/// [`ParsedSchema::load_from_kv_pairs`] ensures of every error it returns.
pub proof fn lemma_missing_section(doc: Seq<(String, DocValue)>, e: SchemaError)
    requires
        build_err_matches(doc, e),
    ensures
        ts_section(doc) is None ==> (e matches SchemaError::MissingSchemaKey(k) && k@
            == "timestamp"@),
        ts_section_ok(doc) && var_section(doc) is None ==> (e matches
            SchemaError::MissingSchemaKey(k) && k@ == "variables"@),
        ts_section_ok(doc) && var_section_ok(doc) && delim_section(doc) is None ==> (e matches
            SchemaError::MissingSchemaKey(k) && k@ == "delimiters"@),
{
}

/// A delimiter string holding any character with a code point of 128 or
/// above makes an otherwise valid build fail with `NoneASCIICharacters`,
/// wherever in the string that character stands.
pub proof fn lemma_non_ascii_delimiters(doc: Seq<(String, DocValue)>, e: SchemaError)
    requires
        build_err_matches(doc, e),
        ts_section_ok(doc),
        var_section_ok(doc),
        delim_section(doc) matches Some(d) && d is Text,
        !all_ascii(spec_delims(doc)),
    ensures
        e is NoneASCIICharacters,
{
}

} // verus!
