//! Rust source parsed by the tree-sitter Rust grammar, held as a plain tree
//! of nodes that the analyses walk.

use crate::context::Position;
use tree_sitter::StreamingIterator;
use vstd::prelude::*;

verus! {

#[verifier::external_type_specification]
#[verifier::external_body]
pub struct ExTreeSitterNode<'tree>(tree_sitter::Node<'tree>);

/// A node of a syntax tree: its grammar kind, its source text (absent
/// where the bytes it spans are not UTF-8), where it starts and ends (in
/// bytes, and as zero-based row and column), and all its children, named or
/// not, in source order.
#[derive(Debug)]
pub struct SyntaxNode {
    pub kind: String,
    pub text: Option<String>,
    pub start_byte: usize,
    pub end_byte: usize,
    pub start: Position,
    pub end: Position,
    pub children: Vec<SyntaxNode>,
}

/// The syntax tree that the tree-sitter Rust grammar gives for a source
/// text, or nothing where the parser gives none. It depends on the text
/// alone.
pub uninterp spec fn rust_syntax_tree(source: Seq<char>) -> Option<SyntaxNode>;

/// Parses `source` with a `tree_sitter::Parser` set to
/// `tree_sitter_rust::LANGUAGE` (`Parser::new`, `Parser::set_language`,
/// `Parser::parse`, `Tree::root_node`) and copies the tree into plain
/// nodes. Claimed: the result is `rust_syntax_tree` of the text; `None`
/// where the language cannot be set or the parser gives no tree.
#[verifier::external_body]
pub(crate) fn parse_rust(source: &str) -> (r: Option<SyntaxNode>)
    ensures
        r == rust_syntax_tree(source@),
{
    let mut parser = tree_sitter::Parser::new();
    parser.set_language(&tree_sitter_rust::LANGUAGE.into()).ok()?;
    let tree = parser.parse(source, None)?;
    Some(plain_node(tree.root_node(), source))
}

/// The copy of a tree-sitter node into a plain node, made for
/// `parse_rust`: `Node::kind`, `Node::utf8_text`, `Node::start_byte`,
/// `Node::end_byte`, `Node::start_position`, `Node::end_position` (rows and
/// columns cut to `u32`) and `Node::children`, each child copied in turn.
#[verifier::external_body]
fn plain_node(node: tree_sitter::Node, source: &str) -> SyntaxNode {
    let mut cursor = node.walk();
    let start = node.start_position();
    let end = node.end_position();
    SyntaxNode {
        kind: node.kind().to_string(),
        text: node.utf8_text(source.as_bytes()).ok().map(|t| t.to_string()),
        start_byte: node.start_byte(),
        end_byte: node.end_byte(),
        start: Position { line: start.row as u32, column: start.column as u32 },
        end: Position { line: end.row as u32, column: end.column as u32 },
        children: node.children(&mut cursor).map(|c| plain_node(c, source)).collect(),
    }
}

/// A node that a query captured: its kind, text (absent where not UTF-8)
/// and where it starts and ends.
#[derive(Debug)]
pub struct NodeSpan {
    pub kind: String,
    pub text: Option<String>,
    pub start_byte: usize,
    pub end_byte: usize,
    pub start: Position,
    pub end: Position,
}

/// A capture of a query match: the capture's name and the node it took.
#[derive(Debug)]
pub struct QueryCapture {
    pub name: String,
    pub node: NodeSpan,
}

/// The matches, each a list of captures, that a tree-sitter query gives
/// on the syntax tree of a source text; nothing where the query does not
/// compile or the source gives no tree. It depends on the two texts alone.
pub uninterp spec fn rust_query_matches(query: Seq<char>, source: Seq<char>) -> Option<
    Vec<Vec<QueryCapture>>,
>;

/// Whether a query compiles for the tree-sitter Rust grammar.
pub uninterp spec fn rust_query_compiles(query: Seq<char>) -> bool;

/// Parses `source` as `parse_rust` does, compiles `query` with
/// `tree_sitter::Query::new` for `tree_sitter_rust::LANGUAGE`, and runs it
/// over the whole tree with `QueryCursor::matches` (text predicates such
/// as `#eq?` applied), copying each match's captures with
/// `Query::capture_names`. Claimed: the result is `rust_query_matches` of
/// the two texts.
#[verifier::external_body]
pub(crate) fn run_rust_query(query: &str, source: &str) -> (r: Option<Vec<Vec<QueryCapture>>>)
    ensures
        r == rust_query_matches(query@, source@),
{
    let language = tree_sitter_rust::LANGUAGE.into();
    let mut parser = tree_sitter::Parser::new();
    parser.set_language(&language).ok()?;
    let tree = parser.parse(source, None)?;
    let query = tree_sitter::Query::new(&language, query).ok()?;
    let names = query.capture_names();
    let mut cursor = tree_sitter::QueryCursor::new();
    let mut matches = cursor.matches(&query, tree.root_node(), source.as_bytes());
    let mut out = Vec::new();
    while let Some(m) = matches.next() {
        out.push(m.captures().iter().map(|c| capture_of(names[c.index as usize], c.node, source)).collect());
    }
    Some(out)
}

/// Compiles `query` with `tree_sitter::Query::new` for
/// `tree_sitter_rust::LANGUAGE`. Claimed: the result is
/// `rust_query_compiles` of the query.
#[verifier::external_body]
pub(crate) fn query_compiles(query: &str) -> (r: bool)
    ensures
        r == rust_query_compiles(query@),
{
    tree_sitter::Query::new(&tree_sitter_rust::LANGUAGE.into(), query).is_ok()
}

/// A capture, made for `run_rust_query`: its name and the captured node.
#[verifier::external_body]
fn capture_of(name: &str, node: tree_sitter::Node, source: &str) -> QueryCapture {
    QueryCapture { name: name.to_string(), node: node_span(node, source) }
}

/// The copy of a captured tree-sitter node, made for `run_rust_query`:
/// `Node::kind`, `Node::utf8_text`, `Node::start_byte`, `Node::end_byte`,
/// `Node::start_position` and `Node::end_position` (rows and columns cut
/// to `u32`).
#[verifier::external_body]
fn node_span(node: tree_sitter::Node, source: &str) -> NodeSpan {
    let start = node.start_position();
    let end = node.end_position();
    NodeSpan {
        kind: node.kind().to_string(),
        text: node.utf8_text(source.as_bytes()).ok().map(|t| t.to_string()),
        start_byte: node.start_byte(),
        end_byte: node.end_byte(),
        start: Position { line: start.row as u32, column: start.column as u32 },
        end: Position { line: end.row as u32, column: end.column as u32 },
    }
}

impl SyntaxNode {
    /// The text of the first child of the given kind whose text is known.
    pub open spec fn child_text_spec(self, kind: Seq<char>) -> Option<Seq<char>> {
        first_text_of_kind(self.children@, kind, 0)
    }
}

/// The text of the first node of the given kind, from index `i` on, whose
/// text is known.
pub open spec fn first_text_of_kind(nodes: Seq<SyntaxNode>, kind: Seq<char>, i: int) -> Option<
    Seq<char>,
>
    decreases nodes.len() - i,
{
    if i < 0 || i >= nodes.len() {
        None
    } else if nodes[i].kind@ == kind && nodes[i].text is Some {
        Some(nodes[i].text->0@)
    } else {
        first_text_of_kind(nodes, kind, i + 1)
    }
}

} // verus!
