use vstd::prelude::*;

use crate::ast::AstNode;
use crate::defs::{defs_of, extract_definitions};
use crate::symbols::{ParsedFile, ParsedFileV};
use crate::usages::{extract_usages, uses_of};

verus! {

/// The tree that the grammar parser produces for a source text, copied into
/// plain values, or `None` where it can produce no tree. The grammar parser
/// is deterministic, so the tree is a function of the source text alone.
pub uninterp spec fn ts_ast(source: Seq<char>) -> Option<AstNode>;

/// Declares tree_sitter's node handle so that the conversion below can take
/// it as a parameter; the library never reads such a value itself.
#[verifier::external_type_specification]
#[verifier::external_body]
pub struct ExNode<'a>(tree_sitter::Node<'a>);

/// Relies on tree_sitter::Node's accessors (kind, start_position, child,
/// field_name_for_child, utf8_text): copies the node and its subtree into
/// plain values, child order kept. Called only inside `parse_to_ast`.
#[verifier::external_body]
fn convert_node(node: tree_sitter::Node<'_>, source: &str, field: Option<String>) -> AstNode {
    let pos = node.start_position();
    let mut children = Vec::new();
    for i in 0..node.child_count() {
        let child_field = node.field_name_for_child(i).map(|s| s.to_string());
        children.push(convert_node(node.child(i).unwrap(), source, child_field));
    }
    AstNode {
        kind: node.kind().to_string(),
        row: pos.row,
        column: pos.column,
        text: node.utf8_text(source.as_bytes()).unwrap_or("").to_string(),
        field,
        children,
    }
}

/// Relies on tree_sitter::Parser::parse with the TypeScript grammar of
/// tree_sitter_typescript: a fresh parser is set up per call and parsing is
/// deterministic, so the returned tree is a function of the source text
/// alone, named `ts_ast`. Returns `None` exactly when no tree can be
/// produced (the grammar cannot be loaded, or parsing yields no tree).
#[verifier::external_body]
fn parse_to_ast(source: &str) -> (r: Option<AstNode>)
    ensures
        r == ts_ast(source@),
{
    let mut parser = tree_sitter::Parser::new();
    if parser.set_language(&tree_sitter_typescript::LANGUAGE_TYPESCRIPT.into()).is_err() {
        return None;
    }
    match parser.parse(source, None) {
        Some(tree) => Some(convert_node(tree.root_node(), source, None)),
        None => None,
    }
}

/// The one error `parse` surfaces: the grammar parser produced no tree at
/// all. Every per-node irregularity is a silent, local skip instead.
#[derive(Debug, PartialEq, Eq)]
pub enum ParseError {
    ParseFailure,
}

/// What `parse` returns on a source that the grammar parser accepts.
pub open spec fn spec_parsed(ast: AstNode, path: Seq<char>) -> ParsedFileV {
    ParsedFileV { path, definitions: defs_of(ast, None, path), usages: uses_of(ast, path) }
}

/// What `parse` returns, as a function of the source text and the path:
/// `None` stands for the one failure case.
pub open spec fn spec_parse(source: Seq<char>, path: Seq<char>) -> Option<ParsedFileV> {
    match ts_ast(source) {
        Some(ast) => Some(spec_parsed(ast, path)),
        None => None,
    }
}

/// Extracts definitions and usages from TypeScript source text.
pub struct TypeScriptParser {}

impl TypeScriptParser {
    /// Creates an extractor. The grammar parser itself is set up fresh
    /// inside each `parse` call, so construction always succeeds.
    pub fn new() -> (r: Result<TypeScriptParser, ParseError>)
        ensures
            r is Ok,
    {
        Ok(TypeScriptParser {  })
    }

    /// Parses `source` and extracts its definitions and usages, both in
    /// depth-first pre-order. Fails exactly when the grammar parser can
    /// produce no tree; no partial result is returned then.
    pub fn parse(&self, source: &str, file_path: &str) -> (r: Result<ParsedFile, ParseError>)
        ensures
            match r {
                Ok(pf) => spec_parse(source@, file_path@) == Some(pf@),
                Err(e) => spec_parse(source@, file_path@) is None && e == ParseError::ParseFailure,
            },
    {
        match parse_to_ast(source) {
            Some(root) => {
                let definitions = extract_definitions(&root, file_path);
                let usages = extract_usages(&root, file_path);
                Ok(ParsedFile { path: file_path.to_owned(), definitions, usages })
            },
            None => Err(ParseError::ParseFailure),
        }
    }
}

} // verus!
