//! The grammar-parser collaborator: every pattern string of the schema is
//! turned into the abstract syntax tree of its regular expression, or
//! rejected with the parser's own syntax error.

use vstd::prelude::*;

verus! {

/// `regex_syntax::ast::Ast`, the abstract syntax tree of one regular
/// expression. The schema treats it as an opaque capability: it is stored and
/// handed out, never inspected.
#[verifier::external_type_specification]
#[verifier::external_body]
pub struct ExAst(regex_syntax::ast::Ast);

/// The tree that the grammar parser returns for a pattern, `None` where the
/// pattern is not a well-formed regular expression. With the parser's default
/// configuration the outcome is a function of the pattern alone.
pub uninterp spec fn regex_ast_of(s: Seq<char>) -> Option<regex_syntax::ast::Ast>;

/// The pattern is a well-formed regular expression.
pub open spec fn pattern_ok(s: Seq<char>) -> bool {
    regex_ast_of(s) is Some
}

/// The tree of a well-formed pattern.
pub open spec fn spec_ast_of(s: Seq<char>) -> regex_syntax::ast::Ast
    recommends
        pattern_ok(s),
{
    regex_ast_of(s)->0
}

/// Relies on `regex_syntax::ast::parse::Parser::parse`: a freshly built
/// parser with the default configuration returns the pattern's abstract
/// syntax tree, or its syntax error; which of the two, and which tree, depend
/// on the pattern string alone.
#[verifier::external_body]
pub fn parse_into_ast(pattern: &str) -> (r: Result<
    regex_syntax::ast::Ast,
    regex_syntax::ast::Error,
>)
    ensures
        r is Ok <==> pattern_ok(pattern@),
        r matches Ok(a) ==> regex_ast_of(pattern@) == Some(a),
{
    let mut parser = regex_syntax::ast::parse::Parser::new();
    parser.parse(pattern)
}

} // verus!
