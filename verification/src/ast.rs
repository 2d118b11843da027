//! The symbols of Rust source (functions, types, modules, tests and more)
//! found with tree-sitter queries, and the symbols around a cursor.

use crate::context::{Position, Range, Symbol, SymbolContext, SymbolKind};
use crate::error::{RazError, RazResult};
use crate::syntax_tree::{
    parse_rust, query_compiles, run_rust_query, rust_query_compiles, rust_query_matches,
    rust_syntax_tree, NodeSpan, QueryCapture, SyntaxNode,
};
use crate::text::{copy_strings, has_prefix, owned, str_eq, str_starts_with, views};
use vstd::prelude::*;

verus! {

/// The query for function items.
pub open spec fn functions_query() -> Seq<char> {
    "(function_item name: (identifier) @function.name)"@
}

/// The query for struct items, with their visibility.
pub open spec fn structs_query() -> Seq<char> {
    "(struct_item (visibility_modifier)? @struct.vis name: (type_identifier) @struct.name)"@
}

/// The query for enum items.
pub open spec fn enums_query() -> Seq<char> {
    "(enum_item name: (type_identifier) @enum.name)"@
}

/// The query for trait items.
pub open spec fn traits_query() -> Seq<char> {
    "(trait_item name: (type_identifier) @trait.name)"@
}

/// The query for module items, the whole item captured too.
pub open spec fn modules_query() -> Seq<char> {
    "(mod_item name: (identifier) @module.name) @module"@
}

/// The query for `#[test]` attributes.
pub open spec fn tests_query() -> Seq<char> {
    "(attribute_item (attribute (identifier) @test.attr (#eq? @test.attr \"test\")))"@
}

/// The query for constant items.
pub open spec fn constants_query() -> Seq<char> {
    "(const_item name: (identifier) @const.name)"@
}

/// The query for type aliases.
pub open spec fn type_aliases_query() -> Seq<char> {
    "(type_item name: (type_identifier) @type.name)"@
}

/// The query for macro definitions.
pub open spec fn macros_query() -> Seq<char> {
    "(macro_definition name: (identifier) @macro.name)"@
}

/// The query for function items with their names, used to find tests by
/// name.
pub open spec fn named_functions_query() -> Seq<char> {
    "(function_item name: (identifier) @func.name) @func"@
}

/// A symbol as values.
pub struct SymbolSpec {
    pub name: Seq<char>,
    pub kind: SymbolKind,
    pub range: Range,
    pub modifiers: Seq<Seq<char>>,
}

/// A symbol is the given one, with no children and no metadata.
pub open spec fn symbol_is(s: Symbol, v: SymbolSpec) -> bool {
    &&& s.name@ == v.name
    &&& s.kind == v.kind
    &&& s.range == v.range
    &&& views(s.modifiers@) == v.modifiers
    &&& s.children@.len() == 0
    &&& s.metadata@.len() == 0
}

/// The symbols are the given ones, in order.
pub open spec fn symbols_are(s: Seq<Symbol>, v: Seq<SymbolSpec>) -> bool {
    s.len() == v.len() && forall|i: int| 0 <= i < s.len() ==> symbol_is(#[trigger] s[i], v[i])
}

pub open spec fn opt_symbol_is(s: Option<Symbol>, v: Option<SymbolSpec>) -> bool {
    match (s, v) {
        (Some(a), Some(b)) => symbol_is(a, b),
        (None, None) => true,
        _ => false,
    }
}

pub open spec fn span_range(n: NodeSpan) -> Range {
    Range { start: n.start, end: n.end }
}

pub open spec fn node_range(n: SyntaxNode) -> Range {
    Range { start: n.start, end: n.end }
}

/// The nodes above the first node, in source order under `n` (`n` not
/// counted), of the given kind and byte span: from `n` down to its parent.
pub open spec fn path_above(n: SyntaxNode, kind: Seq<char>, sb: usize, eb: usize) -> Option<
    Seq<SyntaxNode>,
>
    decreases n, n.children@.len() + 1,
{
    path_from(n, 0, kind, sb, eb)
}

/// The path through the first child from index `i` on that is, or holds,
/// the node sought.
pub open spec fn path_from(n: SyntaxNode, i: nat, kind: Seq<char>, sb: usize, eb: usize) -> Option<
    Seq<SyntaxNode>,
>
    decreases n, n.children@.len() - i,
{
    if i >= n.children@.len() {
        None
    } else {
        let c = n.children@[i as int];
        if c.kind@ == kind && c.start_byte == sb && c.end_byte == eb {
            Some(seq![n])
        } else {
            match path_above(c, kind, sb, eb) {
                Some(p) => Some(seq![n] + p),
                None => path_from(n, i + 1, kind, sb, eb),
            }
        }
    }
}

/// The parent, in the tree, of a captured node.
pub open spec fn parent_in(tree: SyntaxNode, c: NodeSpan) -> Option<SyntaxNode> {
    match path_above(tree, c.kind@, c.start_byte, c.end_byte) {
        Some(p) => if p.len() > 0 {
            Some(p.last())
        } else {
            None
        },
        None => None,
    }
}

/// The last node of the given kind in a path.
pub open spec fn last_of_kind(p: Seq<SyntaxNode>, kind: Seq<char>) -> Option<SyntaxNode>
    decreases p.len(),
{
    if p.len() == 0 {
        None
    } else if p.last().kind@ == kind {
        Some(p.last())
    } else {
        last_of_kind(p.drop_last(), kind)
    }
}

/// The nearest function item above a captured node.
pub open spec fn enclosing_function(tree: SyntaxNode, c: NodeSpan) -> Option<SyntaxNode> {
    match path_above(tree, c.kind@, c.start_byte, c.end_byte) {
        Some(p) => last_of_kind(p, "function_item"@),
        None => None,
    }
}

/// The first child of the given kind.
pub open spec fn first_child_of_kind(n: SyntaxNode, kind: Seq<char>, i: nat) -> Option<SyntaxNode>
    decreases n.children@.len() - i,
{
    if i >= n.children@.len() {
        None
    } else if n.children@[i as int].kind@ == kind {
        Some(n.children@[i as int])
    } else {
        first_child_of_kind(n, kind, i + 1)
    }
}

/// What a match gives: the symbol kind, the capture that names the symbol
/// (its node's range is the symbol's, or its parent's where the parent is
/// of `parent_kind`), the capture whose node gives the range where it is
/// not the name's, the capture whose text is a modifier, and the captures
/// that stand for a fixed modifier.
pub struct MatchRule {
    pub kind: SymbolKind,
    pub name: Seq<char>,
    pub range: Seq<char>,
    pub text_modifier: Option<Seq<char>>,
    pub pairs: Seq<(Seq<char>, Seq<char>)>,
    pub parent_kind: Option<Seq<char>>,
}

/// The name, range and modifiers collected from a match so far.
pub struct MatchState {
    pub name: Option<Seq<char>>,
    pub range: Option<Range>,
    pub modifiers: Seq<Seq<char>>,
}

/// The modifier a capture name stands for, by the rule's pairs from
/// index `k` on.
pub open spec fn pair_modifier(pairs: Seq<(Seq<char>, Seq<char>)>, cn: Seq<char>, k: int) -> Option<
    Seq<char>,
>
    decreases pairs.len() - k,
{
    if k < 0 || k >= pairs.len() {
        None
    } else if pairs[k].0 == cn {
        Some(pairs[k].1)
    } else {
        pair_modifier(pairs, cn, k + 1)
    }
}

/// The range a name capture gives.
pub open spec fn name_range(tree: SyntaxNode, c: NodeSpan, rule: MatchRule) -> Range {
    match rule.parent_kind {
        Some(pk) => match parent_in(tree, c) {
            Some(p) => if p.kind@ == pk {
                node_range(p)
            } else {
                span_range(c)
            },
            None => span_range(c),
        },
        None => span_range(c),
    }
}

/// One capture read into the state; `None` where a text to read is not
/// UTF-8.
pub open spec fn match_step(st: MatchState, c: QueryCapture, rule: MatchRule, tree: SyntaxNode) -> Option<
    MatchState,
> {
    let cn = c.name@;
    if cn == rule.name {
        match c.node.text {
            None => None,
            Some(t) => Some(
                MatchState {
                    name: Some(t@),
                    range: if rule.range == rule.name {
                        Some(name_range(tree, c.node, rule))
                    } else {
                        st.range
                    },
                    ..st
                },
            ),
        }
    } else if cn == rule.range {
        Some(MatchState { range: Some(span_range(c.node)), ..st })
    } else if rule.text_modifier == Some(cn) {
        match c.node.text {
            None => None,
            Some(t) => Some(MatchState { modifiers: st.modifiers.push(t@), ..st }),
        }
    } else {
        match pair_modifier(rule.pairs, cn, 0) {
            Some(m) => Some(MatchState { modifiers: st.modifiers.push(m), ..st }),
            None => Some(st),
        }
    }
}

pub open spec fn empty_state() -> MatchState {
    MatchState { name: None, range: None, modifiers: seq![] }
}

/// The state after the first `k` captures of a match.
pub open spec fn match_fold(caps: Seq<QueryCapture>, k: int, rule: MatchRule, tree: SyntaxNode) -> Option<
    MatchState,
>
    decreases k,
{
    if k <= 0 || k > caps.len() {
        Some(empty_state())
    } else {
        match match_fold(caps, k - 1, rule, tree) {
            None => None,
            Some(st) => match_step(st, caps[k - 1], rule, tree),
        }
    }
}

/// The symbol a match gives: `None` where a text is not UTF-8, `Some(None)`
/// where it names no symbol.
pub open spec fn symbol_of_match(caps: Seq<QueryCapture>, rule: MatchRule, tree: SyntaxNode) -> Option<
    Option<SymbolSpec>,
> {
    match match_fold(caps, caps.len() as int, rule, tree) {
        None => None,
        Some(st) => match (st.name, st.range) {
            (Some(n), Some(r)) => Some(
                Some(SymbolSpec { name: n, kind: rule.kind, range: r, modifiers: st.modifiers }),
            ),
            _ => Some(None),
        },
    }
}

/// The symbols the first `k` matches give.
pub open spec fn symbols_of_matches(
    ms: Seq<Vec<QueryCapture>>,
    k: int,
    rule: MatchRule,
    tree: SyntaxNode,
) -> Option<Seq<SymbolSpec>>
    decreases k,
{
    if k <= 0 || k > ms.len() {
        Some(seq![])
    } else {
        match symbols_of_matches(ms, k - 1, rule, tree) {
            None => None,
            Some(a) => match symbol_of_match(ms[k - 1]@, rule, tree) {
                None => None,
                Some(Some(s)) => Some(a.push(s)),
                Some(None) => Some(a),
            },
        }
    }
}

/// The symbols a query gives by a rule.
pub open spec fn symbols_by(query: Seq<char>, rule: MatchRule, tree: SyntaxNode, source: Seq<char>) -> Option<
    Seq<SymbolSpec>,
> {
    match rust_query_matches(query, source) {
        None => None,
        Some(ms) => symbols_of_matches(ms@, ms@.len() as int, rule, tree),
    }
}

pub open spec fn function_rule() -> MatchRule {
    MatchRule {
        kind: SymbolKind::Function,
        name: "function.name"@,
        range: "function.name"@,
        text_modifier: None,
        pairs: seq![
            ("function.async"@, "async"@),
            ("function.unsafe"@, "unsafe"@),
            ("function.const"@, "const"@),
            ("function.extern"@, "extern"@),
        ],
        parent_kind: None,
    }
}

pub open spec fn struct_rule() -> MatchRule {
    MatchRule {
        kind: SymbolKind::Struct,
        name: "struct.name"@,
        range: "struct.name"@,
        text_modifier: Some("struct.vis"@),
        pairs: seq![],
        parent_kind: Some("struct_item"@),
    }
}

pub open spec fn enum_rule() -> MatchRule {
    MatchRule {
        kind: SymbolKind::Enum,
        name: "enum.name"@,
        range: "enum.name"@,
        text_modifier: None,
        pairs: seq![("enum.pub"@, "pub"@)],
        parent_kind: None,
    }
}

pub open spec fn trait_rule() -> MatchRule {
    MatchRule {
        kind: SymbolKind::Trait,
        name: "trait.name"@,
        range: "trait.name"@,
        text_modifier: None,
        pairs: seq![("trait.pub"@, "pub"@), ("trait.unsafe"@, "unsafe"@)],
        parent_kind: None,
    }
}

pub open spec fn module_rule() -> MatchRule {
    MatchRule {
        kind: SymbolKind::Module,
        name: "module.name"@,
        range: "module"@,
        text_modifier: None,
        pairs: seq![("module.pub"@, "pub"@)],
        parent_kind: None,
    }
}

pub open spec fn constant_rule() -> MatchRule {
    MatchRule {
        kind: SymbolKind::Constant,
        name: "const.name"@,
        range: "const.name"@,
        text_modifier: None,
        pairs: seq![("const.pub"@, "pub"@)],
        parent_kind: None,
    }
}

pub open spec fn type_alias_rule() -> MatchRule {
    MatchRule {
        kind: SymbolKind::TypeAlias,
        name: "type.name"@,
        range: "type.name"@,
        text_modifier: None,
        pairs: seq![("type.pub"@, "pub"@)],
        parent_kind: None,
    }
}

pub open spec fn macro_rule() -> MatchRule {
    MatchRule {
        kind: SymbolKind::Macro,
        name: "macro.name"@,
        range: "macro.name"@,
        text_modifier: None,
        pairs: seq![("macro.pub"@, "pub"@)],
        parent_kind: None,
    }
}

/// The `test.attr` captures of a match, in order.
pub open spec fn attrs_in(caps: Seq<QueryCapture>) -> Seq<NodeSpan>
    decreases caps.len(),
{
    if caps.len() == 0 {
        seq![]
    } else {
        attrs_in(caps.drop_last()) + if caps.last().name@ == "test.attr"@ {
            seq![caps.last().node]
        } else {
            seq![]
        }
    }
}

/// The `test.attr` captures of the matches, in order.
pub open spec fn attrs_of_matches(ms: Seq<Vec<QueryCapture>>) -> Seq<NodeSpan>
    decreases ms.len(),
{
    if ms.len() == 0 {
        seq![]
    } else {
        attrs_of_matches(ms.drop_last()) + attrs_in(ms.last()@)
    }
}

/// The test a `#[test]` attribute gives: the function item above it,
/// named by its first identifier; `None` where that name is not UTF-8.
pub open spec fn test_of_attr(tree: SyntaxNode, a: NodeSpan) -> Option<Option<SymbolSpec>> {
    match enclosing_function(tree, a) {
        None => Some(None),
        Some(f) => match first_child_of_kind(f, "identifier"@, 0) {
            None => Some(None),
            Some(c) => match c.text {
                None => None,
                Some(t) => Some(
                    Some(
                        SymbolSpec {
                            name: t@,
                            kind: SymbolKind::Test,
                            range: node_range(f),
                            modifiers: seq!["test"@],
                        },
                    ),
                ),
            },
        },
    }
}

/// The tests the first `k` attributes give.
pub open spec fn tests_of_attrs(tree: SyntaxNode, attrs: Seq<NodeSpan>, k: int) -> Option<
    Seq<SymbolSpec>,
>
    decreases k,
{
    if k <= 0 || k > attrs.len() {
        Some(seq![])
    } else {
        match tests_of_attrs(tree, attrs, k - 1) {
            None => None,
            Some(a) => match test_of_attr(tree, attrs[k - 1]) {
                None => None,
                Some(Some(t)) => Some(a.push(t)),
                Some(None) => Some(a),
            },
        }
    }
}

/// The node of the last capture with the given name.
pub open spec fn last_capture(caps: Seq<QueryCapture>, cname: Seq<char>) -> Option<NodeSpan>
    decreases caps.len(),
{
    if caps.len() == 0 {
        None
    } else if caps.last().name@ == cname {
        Some(caps.last().node)
    } else {
        last_capture(caps.drop_last(), cname)
    }
}

/// Some symbol of the list has the name.
pub open spec fn has_name(syms: Seq<SymbolSpec>, n: Seq<char>) -> bool {
    exists|i: int| 0 <= i < syms.len() && #[trigger] syms[i].name == n
}

/// The tests so far, and the function of a match when its name starts
/// with `test_` and no test has it yet.
pub open spec fn named_test(caps: Seq<QueryCapture>, tests: Seq<SymbolSpec>) -> Seq<SymbolSpec> {
    let name = match last_capture(caps, "func.name"@) {
        Some(n) => match n.text {
            Some(t) => Some(t@),
            None => None,
        },
        None => None,
    };
    match (name, last_capture(caps, "func"@)) {
        (Some(n), Some(f)) => if has_prefix(n, "test_"@) && !has_name(tests, n) {
            tests.push(
                SymbolSpec {
                    name: n,
                    kind: SymbolKind::Test,
                    range: span_range(f),
                    modifiers: seq!["test"@],
                },
            )
        } else {
            tests
        },
        _ => tests,
    }
}

/// The tests after the first `k` matches of the function query.
pub open spec fn named_tests(ms: Seq<Vec<QueryCapture>>, k: int, tests: Seq<SymbolSpec>) -> Seq<
    SymbolSpec,
>
    decreases k,
{
    if k <= 0 || k > ms.len() {
        tests
    } else {
        named_test(ms[k - 1]@, named_tests(ms, k - 1, tests))
    }
}

/// The tests of a source: the functions under `#[test]` attributes, then
/// the functions named `test_...` not found that way.
pub open spec fn tests_spec(tree: SyntaxNode, source: Seq<char>) -> Option<Seq<SymbolSpec>> {
    match rust_query_matches(tests_query(), source) {
        None => None,
        Some(ms) => {
            let attrs = attrs_of_matches(ms@);
            match tests_of_attrs(tree, attrs, attrs.len() as int) {
                None => None,
                Some(t) => match rust_query_matches(named_functions_query(), source) {
                    None => None,
                    Some(fm) => Some(named_tests(fm@, fm@.len() as int, t)),
                },
            }
        },
    }
}

/// The symbols of the list whose names no test has.
pub open spec fn not_tests(syms: Seq<SymbolSpec>, tests: Seq<SymbolSpec>) -> Seq<SymbolSpec>
    decreases syms.len(),
{
    if syms.len() == 0 {
        seq![]
    } else {
        not_tests(syms.drop_last(), tests) + if has_name(tests, syms.last().name) {
            seq![]
        } else {
            seq![syms.last()]
        }
    }
}

/// Two lists one after the other, where both are known.
pub open spec fn then(a: Option<Seq<SymbolSpec>>, b: Option<Seq<SymbolSpec>>) -> Option<
    Seq<SymbolSpec>,
> {
    match (a, b) {
        (Some(x), Some(y)) => Some(x + y),
        _ => None,
    }
}

/// The modules, constants, type aliases and macros of a source.
pub open spec fn item_symbols_spec(tree: SyntaxNode, source: Seq<char>) -> Option<Seq<SymbolSpec>> {
    then(
        symbols_by(modules_query(), module_rule(), tree, source),
        then(
            symbols_by(constants_query(), constant_rule(), tree, source),
            then(
                symbols_by(type_aliases_query(), type_alias_rule(), tree, source),
                symbols_by(macros_query(), macro_rule(), tree, source),
            ),
        ),
    )
}

/// The structs, enums and traits of a source, then its other items.
pub open spec fn type_symbols_spec(tree: SyntaxNode, source: Seq<char>) -> Option<Seq<SymbolSpec>> {
    then(
        symbols_by(structs_query(), struct_rule(), tree, source),
        then(
            symbols_by(enums_query(), enum_rule(), tree, source),
            then(
                symbols_by(traits_query(), trait_rule(), tree, source),
                item_symbols_spec(tree, source),
            ),
        ),
    )
}

/// The symbols of a source: tests, functions that are not tests,
/// structs, enums, traits, modules, constants, type aliases and macros.
pub open spec fn symbols_spec(tree: SyntaxNode, source: Seq<char>) -> Option<Seq<SymbolSpec>> {
    match tests_spec(tree, source) {
        None => None,
        Some(tests) => match symbols_by(functions_query(), function_rule(), tree, source) {
            None => None,
            Some(fs) => then(Some(tests + not_tests(fs, tests)), type_symbols_spec(tree, source)),
        },
    }
}

/// The number of lines a range spans, as `u32` subtraction wraps.
pub open spec fn line_span(r: Range) -> u32 {
    if r.end.line >= r.start.line {
        (r.end.line - r.start.line) as u32
    } else {
        (r.end.line - r.start.line + 0x1_0000_0000) as u32
    }
}

/// The best symbol among the first `k` for a position, with the number
/// of lines it spans: the first of those that hold the position and span
/// the fewest lines.
pub open spec fn best_scan(syms: Seq<SymbolSpec>, p: Position, k: int) -> (Option<SymbolSpec>, u32)
    decreases k,
{
    if k <= 0 || k > syms.len() {
        (None, u32::MAX)
    } else {
        let (b, m) = best_scan(syms, p, k - 1);
        let s = syms[k - 1];
        if s.range.spec_contains(p) && line_span(s.range) < m {
            (Some(s), line_span(s.range))
        } else {
            (b, m)
        }
    }
}

/// The symbols around a position, as values.
pub struct ContextSpec {
    pub in_function: Option<SymbolSpec>,
    pub in_test_function: Option<SymbolSpec>,
    pub in_struct: Option<SymbolSpec>,
    pub in_enum: Option<SymbolSpec>,
    pub in_trait: Option<SymbolSpec>,
    pub in_module: Option<SymbolSpec>,
    pub in_impl: Option<SymbolSpec>,
}

pub open spec fn empty_context() -> ContextSpec {
    ContextSpec {
        in_function: None,
        in_test_function: None,
        in_struct: None,
        in_enum: None,
        in_trait: None,
        in_module: None,
        in_impl: None,
    }
}

/// The context after the first `k` symbols: each symbol that holds the
/// position takes the place its kind has (a function with the `test`
/// modifier that of the test function); later ones win.
pub open spec fn context_scan(syms: Seq<SymbolSpec>, p: Position, k: int) -> ContextSpec
    decreases k,
{
    if k <= 0 || k > syms.len() {
        empty_context()
    } else {
        let c = context_scan(syms, p, k - 1);
        let s = syms[k - 1];
        if !s.range.spec_contains(p) {
            c
        } else {
            match s.kind {
                SymbolKind::Function => if s.modifiers.contains("test"@) {
                    ContextSpec { in_test_function: Some(s), ..c }
                } else {
                    ContextSpec { in_function: Some(s), ..c }
                },
                SymbolKind::Struct => ContextSpec { in_struct: Some(s), ..c },
                SymbolKind::Enum => ContextSpec { in_enum: Some(s), ..c },
                SymbolKind::Trait => ContextSpec { in_trait: Some(s), ..c },
                SymbolKind::Module => ContextSpec { in_module: Some(s), ..c },
                SymbolKind::Impl => ContextSpec { in_impl: Some(s), ..c },
                _ => c,
            }
        }
    }
}

/// A symbol context holds the given symbols.
pub open spec fn context_is(c: SymbolContext, v: ContextSpec) -> bool {
    &&& opt_symbol_is(c.in_function, v.in_function)
    &&& opt_symbol_is(c.in_test_function, v.in_test_function)
    &&& opt_symbol_is(c.in_struct, v.in_struct)
    &&& opt_symbol_is(c.in_enum, v.in_enum)
    &&& opt_symbol_is(c.in_trait, v.in_trait)
    &&& opt_symbol_is(c.in_module, v.in_module)
    &&& opt_symbol_is(c.in_impl, v.in_impl)
}

/// The kinds of symbol the analyzer queries for.
#[derive(Clone, Copy, PartialEq, Eq, Structural)]
enum QueryKind {
    Functions,
    Structs,
    Enums,
    Traits,
    Modules,
    Constants,
    TypeAliases,
    Macros,
}

spec fn rule_for(k: QueryKind) -> MatchRule {
    match k {
        QueryKind::Functions => function_rule(),
        QueryKind::Structs => struct_rule(),
        QueryKind::Enums => enum_rule(),
        QueryKind::Traits => trait_rule(),
        QueryKind::Modules => module_rule(),
        QueryKind::Constants => constant_rule(),
        QueryKind::TypeAliases => type_alias_rule(),
        QueryKind::Macros => macro_rule(),
    }
}

spec fn query_for(k: QueryKind) -> Seq<char> {
    match k {
        QueryKind::Functions => functions_query(),
        QueryKind::Structs => structs_query(),
        QueryKind::Enums => enums_query(),
        QueryKind::Traits => traits_query(),
        QueryKind::Modules => modules_query(),
        QueryKind::Constants => constants_query(),
        QueryKind::TypeAliases => type_aliases_query(),
        QueryKind::Macros => macros_query(),
    }
}

fn query_text(k: QueryKind) -> (r: &'static str)
    ensures
        r@ == query_for(k),
{
    match k {
        QueryKind::Functions => "(function_item name: (identifier) @function.name)",
        QueryKind::Structs => "(struct_item (visibility_modifier)? @struct.vis name: (type_identifier) @struct.name)",
        QueryKind::Enums => "(enum_item name: (type_identifier) @enum.name)",
        QueryKind::Traits => "(trait_item name: (type_identifier) @trait.name)",
        QueryKind::Modules => "(mod_item name: (identifier) @module.name) @module",
        QueryKind::Constants => "(const_item name: (identifier) @const.name)",
        QueryKind::TypeAliases => "(type_item name: (type_identifier) @type.name)",
        QueryKind::Macros => "(macro_definition name: (identifier) @macro.name)",
    }
}

/// What a match gives, as held by the analyzer.
struct Rule {
    kind: SymbolKind,
    name: String,
    range: String,
    text_modifier: Option<String>,
    pairs: Vec<(String, String)>,
    parent_kind: Option<String>,
}

impl View for Rule {
    type V = MatchRule;

    closed spec fn view(&self) -> MatchRule {
        MatchRule {
            kind: self.kind,
            name: self.name@,
            range: self.range@,
            text_modifier: match self.text_modifier {
                Some(t) => Some(t@),
                None => None,
            },
            pairs: self.pairs@.map_values(|p: (String, String)| (p.0@, p.1@)),
            parent_kind: match self.parent_kind {
                Some(t) => Some(t@),
                None => None,
            },
        }
    }
}

fn pair(a: &str, b: &str) -> (r: (String, String))
    ensures
        r.0@ == a@,
        r.1@ == b@,
{
    (owned(a), owned(b))
}

fn simple_rule(kind: SymbolKind, name: &str, pairs: Vec<(String, String)>) -> (r: Rule)
    ensures
        r@ == (MatchRule {
            kind,
            name: name@,
            range: name@,
            text_modifier: None,
            pairs: pairs@.map_values(|p: (String, String)| (p.0@, p.1@)),
            parent_kind: None,
        }),
{
    Rule {
        kind,
        name: owned(name),
        range: owned(name),
        text_modifier: None,
        pairs,
        parent_kind: None,
    }
}

fn function_rule_exec() -> (r: Rule)
    ensures
        r@ == function_rule(),
{
    let pairs = vec![
        pair("function.async", "async"),
        pair("function.unsafe", "unsafe"),
        pair("function.const", "const"),
        pair("function.extern", "extern"),
    ];
    let r = simple_rule(SymbolKind::Function, "function.name", pairs);
    assert(r@.pairs =~= function_rule().pairs);
    r
}

fn struct_rule_exec() -> (r: Rule)
    ensures
        r@ == struct_rule(),
{
    let r = Rule {
        kind: SymbolKind::Struct,
        name: owned("struct.name"),
        range: owned("struct.name"),
        text_modifier: Some(owned("struct.vis")),
        pairs: Vec::new(),
        parent_kind: Some(owned("struct_item")),
    };
    assert(r@.pairs =~= struct_rule().pairs);
    r
}

fn enum_rule_exec() -> (r: Rule)
    ensures
        r@ == enum_rule(),
{
    let r = simple_rule(SymbolKind::Enum, "enum.name", vec![pair("enum.pub", "pub")]);
    assert(r@.pairs =~= enum_rule().pairs);
    r
}

fn trait_rule_exec() -> (r: Rule)
    ensures
        r@ == trait_rule(),
{
    let r = simple_rule(
        SymbolKind::Trait,
        "trait.name",
        vec![pair("trait.pub", "pub"), pair("trait.unsafe", "unsafe")],
    );
    assert(r@.pairs =~= trait_rule().pairs);
    r
}

fn module_rule_exec() -> (r: Rule)
    ensures
        r@ == module_rule(),
{
    let r = Rule {
        kind: SymbolKind::Module,
        name: owned("module.name"),
        range: owned("module"),
        text_modifier: None,
        pairs: vec![pair("module.pub", "pub")],
        parent_kind: None,
    };
    assert(r@.pairs =~= module_rule().pairs);
    r
}

fn constant_rule_exec() -> (r: Rule)
    ensures
        r@ == constant_rule(),
{
    let r = simple_rule(SymbolKind::Constant, "const.name", vec![pair("const.pub", "pub")]);
    assert(r@.pairs =~= constant_rule().pairs);
    r
}

fn type_alias_rule_exec() -> (r: Rule)
    ensures
        r@ == type_alias_rule(),
{
    let r = simple_rule(SymbolKind::TypeAlias, "type.name", vec![pair("type.pub", "pub")]);
    assert(r@.pairs =~= type_alias_rule().pairs);
    r
}

fn macro_rule_exec() -> (r: Rule)
    ensures
        r@ == macro_rule(),
{
    let r = simple_rule(SymbolKind::Macro, "macro.name", vec![pair("macro.pub", "pub")]);
    assert(r@.pairs =~= macro_rule().pairs);
    r
}

/// A symbol with no children and no metadata.
fn make_symbol(name: String, kind: SymbolKind, range: Range, modifiers: Vec<String>) -> (r: Symbol)
    ensures
        symbol_is(
            r,
            SymbolSpec { name: name@, kind, range, modifiers: views(modifiers@) },
        ),
{
    Symbol { name, kind, range, modifiers, children: Vec::new(), metadata: Vec::new() }
}

/// A copy of a symbol that has no children and no metadata.
fn copy_symbol(s: &Symbol) -> (r: Symbol)
    requires
        s.children@.len() == 0,
        s.metadata@.len() == 0,
    ensures
        forall|v: SymbolSpec| symbol_is(*s, v) ==> symbol_is(r, v),
{
    make_symbol(s.name.clone(), s.kind, s.range, copy_strings(&s.modifiers))
}

fn text_range(n: &SyntaxNode) -> (r: Range)
    ensures
        r == node_range(*n),
{
    Range { start: n.start, end: n.end }
}

pub open spec fn derefs<'a>(v: Seq<&'a SyntaxNode>) -> Seq<SyntaxNode> {
    v.map_values(|x: &SyntaxNode| *x)
}

/// The path from `n` down to the parent of the first node of the given
/// kind and span under it.
fn find_path_above<'a>(n: &'a SyntaxNode, kind: &str, sb: usize, eb: usize) -> (r: Option<
    Vec<&'a SyntaxNode>,
>)
    ensures
        match path_above(*n, kind@, sb, eb) {
            None => r is None,
            Some(p) => r matches Some(v) && derefs(v@) == p,
        },
    decreases n,
{
    let mut i: usize = 0;
    while i < n.children.len()
        invariant
            i <= n.children@.len(),
            path_above(*n, kind@, sb, eb) == path_from(*n, i as nat, kind@, sb, eb),
        decreases n.children.len() - i,
    {
        let c = &n.children[i];
        if str_eq(c.kind.as_str(), kind) && c.start_byte == sb && c.end_byte == eb {
            let mut v: Vec<&'a SyntaxNode> = Vec::new();
            v.push(n);
            assert(derefs(v@) =~= seq![*n]);
            return Some(v);
        }
        match find_path_above(c, kind, sb, eb) {
            Some(mut p) => {
                let mut v: Vec<&'a SyntaxNode> = Vec::new();
                v.push(n);
                let ghost pv = p@;
                v.append(&mut p);
                assert(derefs(v@) =~= seq![*n] + derefs(pv));
                return Some(v);
            },
            None => {},
        }
        i += 1;
    }
    None
}

/// The first child of the given kind.
fn first_child<'a>(n: &'a SyntaxNode, kind: &str) -> (r: Option<&'a SyntaxNode>)
    ensures
        match first_child_of_kind(*n, kind@, 0) {
            None => r is None,
            Some(c) => r matches Some(x) && *x == c,
        },
{
    let mut i: usize = 0;
    while i < n.children.len()
        invariant
            i <= n.children@.len(),
            first_child_of_kind(*n, kind@, 0) == first_child_of_kind(*n, kind@, i as nat),
        decreases n.children.len() - i,
    {
        if str_eq(n.children[i].kind.as_str(), kind) {
            return Some(&n.children[i]);
        }
        i += 1;
    }
    None
}

/// The last node of the path of the given kind.
fn last_node_of_kind<'a>(p: &Vec<&'a SyntaxNode>, kind: &str) -> (r: Option<&'a SyntaxNode>)
    ensures
        match last_of_kind(derefs(p@), kind@) {
            None => r is None,
            Some(c) => r matches Some(x) && *x == c,
        },
{
    let ghost d = derefs(p@);
    let mut k: usize = p.len();
    assert(d.take(k as int) =~= d);
    while k > 0
        invariant
            k <= p@.len(),
            d == derefs(p@),
            last_of_kind(d, kind@) == last_of_kind(d.take(k as int), kind@),
        decreases k,
    {
        let x = p[k - 1];
        assert(d.take(k as int).last() == *x);
        assert(d.take(k as int).drop_last() =~= d.take(k - 1));
        if str_eq(x.kind.as_str(), kind) {
            return Some(x);
        }
        k -= 1;
    }
    assert(d.take(0) =~= Seq::<SyntaxNode>::empty());
    None
}

/// Some modifier of the list is `m`.
fn has_modifier(mods: &Vec<String>, m: &str) -> (r: bool)
    ensures
        r == views(mods@).contains(m@),
{
    let mut i: usize = 0;
    while i < mods.len()
        invariant
            i <= mods@.len(),
            forall|j: int| 0 <= j < i ==> mods@[j]@ != m@,
        decreases mods.len() - i,
    {
        if str_eq(mods[i].as_str(), m) {
            assert(views(mods@)[i as int] == m@);
            return true;
        }
        i += 1;
    }
    proof {
        if views(mods@).contains(m@) {
            let j = choose|j: int| 0 <= j < views(mods@).len() && views(mods@)[j] == m@;
            assert(mods@[j]@ == m@);
        }
    }
    false
}

proof fn lemma_match_fold_none(caps: Seq<QueryCapture>, k: int, m: int, rule: MatchRule, tree: SyntaxNode)
    requires
        0 <= k <= m <= caps.len(),
        match_fold(caps, k, rule, tree) is None,
    ensures
        match_fold(caps, m, rule, tree) is None,
    decreases m,
{
    if m > k {
        lemma_match_fold_none(caps, k, m - 1, rule, tree);
    }
}

proof fn lemma_symbols_of_matches_none(
    ms: Seq<Vec<QueryCapture>>,
    k: int,
    m: int,
    rule: MatchRule,
    tree: SyntaxNode,
)
    requires
        0 <= k <= m <= ms.len(),
        symbols_of_matches(ms, k, rule, tree) is None,
    ensures
        symbols_of_matches(ms, m, rule, tree) is None,
    decreases m,
{
    if m > k {
        lemma_symbols_of_matches_none(ms, k, m - 1, rule, tree);
    }
}

proof fn lemma_tests_of_attrs_none(tree: SyntaxNode, attrs: Seq<NodeSpan>, k: int, m: int)
    requires
        0 <= k <= m <= attrs.len(),
        tests_of_attrs(tree, attrs, k) is None,
    ensures
        tests_of_attrs(tree, attrs, m) is None,
    decreases m,
{
    if m > k {
        lemma_tests_of_attrs_none(tree, attrs, k, m - 1);
    }
}

/// The modifier a capture name stands for by the rule's pairs.
fn pair_lookup(pairs: &Vec<(String, String)>, cn: &str) -> (r: Option<String>)
    ensures
        match pair_modifier(pairs@.map_values(|p: (String, String)| (p.0@, p.1@)), cn@, 0) {
            Some(m) => r matches Some(x) && x@ == m,
            None => r is None,
        },
{
    let ghost pv = pairs@.map_values(|p: (String, String)| (p.0@, p.1@));
    let mut k: usize = 0;
    while k < pairs.len()
        invariant
            k <= pairs@.len(),
            pv == pairs@.map_values(|p: (String, String)| (p.0@, p.1@)),
            pair_modifier(pv, cn@, 0) == pair_modifier(pv, cn@, k as int),
        decreases pairs.len() - k,
    {
        assert(pv[k as int] == (pairs@[k as int].0@, pairs@[k as int].1@));
        if str_eq(pairs[k].0.as_str(), cn) {
            return Some(pairs[k].1.clone());
        }
        k += 1;
    }
    None
}

/// Finds the symbols of Rust source with tree-sitter queries.
pub struct RustAnalyzer {}

/// The queries the analyzer runs, each checked to compile.
struct QuerySet {}

impl QuerySet {
    fn new() -> (r: RazResult<Self>)
        ensures
            r is Ok <==> (rust_query_compiles(functions_query()) && rust_query_compiles(
                structs_query(),
            ) && rust_query_compiles(enums_query()) && rust_query_compiles(traits_query())
                && rust_query_compiles(modules_query()) && rust_query_compiles(tests_query())
                && rust_query_compiles(constants_query()) && rust_query_compiles(
                type_aliases_query(),
            ) && rust_query_compiles(macros_query())),
    {
        if !query_compiles("(function_item name: (identifier) @function.name)") {
            return Err(RazError::analysis("Failed to create functions query"));
        }
        if !query_compiles(
            "(struct_item (visibility_modifier)? @struct.vis name: (type_identifier) @struct.name)",
        ) {
            return Err(RazError::analysis("Failed to create structs query"));
        }
        if !query_compiles("(enum_item name: (type_identifier) @enum.name)") {
            return Err(RazError::analysis("Failed to create enums query"));
        }
        if !query_compiles("(trait_item name: (type_identifier) @trait.name)") {
            return Err(RazError::analysis("Failed to create traits query"));
        }
        if !query_compiles("(mod_item name: (identifier) @module.name) @module") {
            return Err(RazError::analysis("Failed to create modules query"));
        }
        if !query_compiles(
            "(attribute_item (attribute (identifier) @test.attr (#eq? @test.attr \"test\")))",
        ) {
            return Err(RazError::analysis("Failed to create tests query"));
        }
        if !query_compiles("(const_item name: (identifier) @const.name)") {
            return Err(RazError::analysis("Failed to create constants query"));
        }
        if !query_compiles("(type_item name: (type_identifier) @type.name)") {
            return Err(RazError::analysis("Failed to create type aliases query"));
        }
        if !query_compiles("(macro_definition name: (identifier) @macro.name)") {
            return Err(RazError::analysis("Failed to create macros query"));
        }
        Ok(QuerySet {  })
    }
}

/// All the analyzer's queries compile.
pub open spec fn queries_compile() -> bool {
    rust_query_compiles(functions_query()) && rust_query_compiles(structs_query())
        && rust_query_compiles(enums_query()) && rust_query_compiles(traits_query())
        && rust_query_compiles(modules_query()) && rust_query_compiles(tests_query())
        && rust_query_compiles(constants_query()) && rust_query_compiles(type_aliases_query())
        && rust_query_compiles(macros_query())
}

impl RustAnalyzer {
    /// An analyzer, when its queries compile.
    pub fn new() -> (r: RazResult<Self>)
        ensures
            r is Ok <==> queries_compile(),
    {
        let _queries = QuerySet::new()?;
        Ok(RustAnalyzer {  })
    }

    /// The syntax tree of a source text.
    pub fn parse(&mut self, source: &str) -> (r: RazResult<SyntaxNode>)
        ensures
            match rust_syntax_tree(source@) {
                Some(t) => r matches Ok(x) && x == t,
                None => r is Err,
            },
    {
        match parse_rust(source) {
            Some(t) => Ok(t),
            None => Err(RazError::analysis("Failed to parse source code")),
        }
    }

    /// The range a captured node spans.
    fn node_to_range(&self, node: &NodeSpan) -> (r: Range)
        ensures
            r == span_range(*node),
    {
        Range { start: node.start, end: node.end }
    }

    /// The range a name capture gives by the rule.
    fn name_range(&self, tree: &SyntaxNode, c: &NodeSpan, rule: &Rule) -> (r: Range)
        ensures
            r == name_range(*tree, *c, rule@),
    {
        match &rule.parent_kind {
            Some(pk) => {
                let parent = match find_path_above(tree, c.kind.as_str(), c.start_byte, c.end_byte) {
                    Some(p) => if p.len() > 0 {
                        Some(p[p.len() - 1])
                    } else {
                        None
                    },
                    None => None,
                };
                match parent {
                    Some(p) => if str_eq(p.kind.as_str(), pk.as_str()) {
                        text_range(p)
                    } else {
                        self.node_to_range(c)
                    },
                    None => self.node_to_range(c),
                }
            },
            None => self.node_to_range(c),
        }
    }

    /// The symbol a match gives by the rule.
    fn parse_match(&self, caps: &Vec<QueryCapture>, tree: &SyntaxNode, rule: &Rule) -> (r: RazResult<
        Option<Symbol>,
    >)
        ensures
            match symbol_of_match(caps@, rule@, *tree) {
                None => r is Err,
                Some(v) => r matches Ok(x) && opt_symbol_is(x, v),
            },
    {
        let ghost rv = rule@;
        let mut name: Option<String> = None;
        let mut range: Option<Range> = None;
        let mut modifiers: Vec<String> = Vec::new();
        assert(views(modifiers@) =~= Seq::<Seq<char>>::empty());
        let mut i: usize = 0;
        while i < caps.len()
            invariant
                i <= caps@.len(),
                rv == rule@,
                match_fold(caps@, i as int, rv, *tree) == Some(
                    MatchState {
                        name: match name {
                            Some(n) => Some(n@),
                            None => None,
                        },
                        range,
                        modifiers: views(modifiers@),
                    },
                ),
            decreases caps.len() - i,
        {
            let c = &caps[i];
            let ghost before = views(modifiers@);
            if str_eq(c.name.as_str(), rule.name.as_str()) {
                match &c.node.text {
                    None => {
                        proof {
                            lemma_match_fold_none(caps@, i + 1, caps@.len() as int, rv, *tree);
                        }
                        return Err(RazError::analysis("Failed to extract symbol name"));
                    },
                    Some(t) => {
                        name = Some(t.clone());
                        if str_eq(rule.range.as_str(), rule.name.as_str()) {
                            range = Some(self.name_range(tree, &c.node, rule));
                        }
                    },
                }
            } else if str_eq(c.name.as_str(), rule.range.as_str()) {
                range = Some(self.node_to_range(&c.node));
            } else if match &rule.text_modifier {
                Some(tm) => str_eq(c.name.as_str(), tm.as_str()),
                None => false,
            } {
                match &c.node.text {
                    None => {
                        proof {
                            lemma_match_fold_none(caps@, i + 1, caps@.len() as int, rv, *tree);
                        }
                        return Err(RazError::analysis("Failed to extract symbol modifier"));
                    },
                    Some(t) => {
                        modifiers.push(t.clone());
                        assert(views(modifiers@) =~= before.push(t@));
                    },
                }
            } else {
                match pair_lookup(&rule.pairs, c.name.as_str()) {
                    Some(m) => {
                        modifiers.push(m);
                        assert(views(modifiers@) =~= before.push(modifiers@.last()@));
                    },
                    None => {},
                }
            }
            assert(caps@.take(i + 1).drop_last() =~= caps@.take(i as int));
            i += 1;
        }
        match (name, range) {
            (Some(n), Some(rg)) => Ok(Some(make_symbol(n, rule.kind, rg, modifiers))),
            _ => Ok(None),
        }
    }

    /// The symbol a match of the query of a kind gives.
    fn parse_query_match(&self, kind: QueryKind, caps: &Vec<QueryCapture>, tree: &SyntaxNode) -> (r:
        RazResult<Option<Symbol>>)
        ensures
            match symbol_of_match(caps@, rule_for(kind), *tree) {
                None => r is Err,
                Some(v) => r matches Ok(x) && opt_symbol_is(x, v),
            },
    {
        match kind {
            QueryKind::Functions => self.parse_function_match(caps, tree),
            QueryKind::Structs => self.parse_struct_match(caps, tree),
            QueryKind::Enums => self.parse_enum_match(caps, tree),
            QueryKind::Traits => self.parse_trait_match(caps, tree),
            QueryKind::Modules => self.parse_module_match(caps, tree),
            QueryKind::Constants => self.parse_constant_match(caps, tree),
            QueryKind::TypeAliases => self.parse_type_alias_match(caps, tree),
            QueryKind::Macros => self.parse_macro_match(caps, tree),
        }
    }

    /// A function item: named by its `function.name` capture, with the
    /// modifiers its `function.async`, `function.unsafe`, `function.const` and
    /// `function.extern` captures stand for.
    fn parse_function_match(&self, caps: &Vec<QueryCapture>, tree: &SyntaxNode) -> (r: RazResult<
        Option<Symbol>,
    >)
        ensures
            match symbol_of_match(caps@, function_rule(), *tree) {
                None => r is Err,
                Some(v) => r matches Ok(x) && opt_symbol_is(x, v),
            },
    {
        self.parse_match(caps, tree, &function_rule_exec())
    }

    /// A struct item: named by its `struct.name` capture, over the range of
    /// the struct item around the name, with its visibility's text.
    fn parse_struct_match(&self, caps: &Vec<QueryCapture>, tree: &SyntaxNode) -> (r: RazResult<
        Option<Symbol>,
    >)
        ensures
            match symbol_of_match(caps@, struct_rule(), *tree) {
                None => r is Err,
                Some(v) => r matches Ok(x) && opt_symbol_is(x, v),
            },
    {
        self.parse_match(caps, tree, &struct_rule_exec())
    }

    /// An enum item: named by its `enum.name` capture.
    fn parse_enum_match(&self, caps: &Vec<QueryCapture>, tree: &SyntaxNode) -> (r: RazResult<
        Option<Symbol>,
    >)
        ensures
            match symbol_of_match(caps@, enum_rule(), *tree) {
                None => r is Err,
                Some(v) => r matches Ok(x) && opt_symbol_is(x, v),
            },
    {
        self.parse_match(caps, tree, &enum_rule_exec())
    }

    /// A trait item: named by its `trait.name` capture.
    fn parse_trait_match(&self, caps: &Vec<QueryCapture>, tree: &SyntaxNode) -> (r: RazResult<
        Option<Symbol>,
    >)
        ensures
            match symbol_of_match(caps@, trait_rule(), *tree) {
                None => r is Err,
                Some(v) => r matches Ok(x) && opt_symbol_is(x, v),
            },
    {
        self.parse_match(caps, tree, &trait_rule_exec())
    }

    /// A module item: named by its `module.name` capture, over the range of
    /// the whole item.
    fn parse_module_match(&self, caps: &Vec<QueryCapture>, tree: &SyntaxNode) -> (r: RazResult<
        Option<Symbol>,
    >)
        ensures
            match symbol_of_match(caps@, module_rule(), *tree) {
                None => r is Err,
                Some(v) => r matches Ok(x) && opt_symbol_is(x, v),
            },
    {
        self.parse_match(caps, tree, &module_rule_exec())
    }

    /// A constant item: named by its `const.name` capture.
    fn parse_constant_match(&self, caps: &Vec<QueryCapture>, tree: &SyntaxNode) -> (r: RazResult<
        Option<Symbol>,
    >)
        ensures
            match symbol_of_match(caps@, constant_rule(), *tree) {
                None => r is Err,
                Some(v) => r matches Ok(x) && opt_symbol_is(x, v),
            },
    {
        self.parse_match(caps, tree, &constant_rule_exec())
    }

    /// A type alias: named by its `type.name` capture.
    fn parse_type_alias_match(&self, caps: &Vec<QueryCapture>, tree: &SyntaxNode) -> (r: RazResult<
        Option<Symbol>,
    >)
        ensures
            match symbol_of_match(caps@, type_alias_rule(), *tree) {
                None => r is Err,
                Some(v) => r matches Ok(x) && opt_symbol_is(x, v),
            },
    {
        self.parse_match(caps, tree, &type_alias_rule_exec())
    }

    /// A macro definition: named by its `macro.name` capture.
    fn parse_macro_match(&self, caps: &Vec<QueryCapture>, tree: &SyntaxNode) -> (r: RazResult<
        Option<Symbol>,
    >)
        ensures
            match symbol_of_match(caps@, macro_rule(), *tree) {
                None => r is Err,
                Some(v) => r matches Ok(x) && opt_symbol_is(x, v),
            },
    {
        self.parse_match(caps, tree, &macro_rule_exec())
    }

    /// The symbols the query of a kind gives.
    fn extract_with(&self, kind: QueryKind, tree: &SyntaxNode, source: &str) -> (r: RazResult<
        Vec<Symbol>,
    >)
        ensures
            match symbols_by(query_for(kind), rule_for(kind), *tree, source@) {
                None => r is Err,
                Some(v) => r matches Ok(x) && symbols_are(x@, v),
            },
    {
        let ms = match run_rust_query(query_text(kind), source) {
            Some(m) => m,
            None => {
                return Err(RazError::analysis("Failed to run query"));
            },
        };
        let ghost msv = ms@;
        let mut out: Vec<Symbol> = Vec::new();
        let ghost mut specs: Seq<SymbolSpec> = seq![];
        let mut i: usize = 0;
        while i < ms.len()
            invariant
                i <= ms@.len(),
                msv == ms@,
                rust_query_matches(query_for(kind), source@) == Some(ms),
                symbols_of_matches(msv, i as int, rule_for(kind), *tree) == Some(specs),
                symbols_are(out@, specs),
            decreases ms.len() - i,
        {
            match self.parse_query_match(kind, &ms[i], tree) {
                Err(e) => {
                    proof {
                        lemma_symbols_of_matches_none(
                            msv,
                            i + 1,
                            msv.len() as int,
                            rule_for(kind),
                            *tree,
                        );
                    }
                    return Err(e);
                },
                Ok(Some(sym)) => {
                    let ghost sv = symbol_of_match(msv[i as int]@, rule_for(kind), *tree)->0->0;
                    out.push(sym);
                    proof {
                        specs = specs.push(sv);
                    }
                },
                Ok(None) => {},
            }
            i += 1;
        }
        Ok(out)
    }

    /// Function items.
    fn extract_functions(&self, tree: &SyntaxNode, source: &str) -> (r: RazResult<Vec<Symbol>>)
        ensures
            match symbols_by(functions_query(), function_rule(), *tree, source@) {
                None => r is Err,
                Some(v) => r matches Ok(x) && symbols_are(x@, v),
            },
    {
        self.extract_with(QueryKind::Functions, tree, source)
    }

    /// Struct items.
    fn extract_structs(&self, tree: &SyntaxNode, source: &str) -> (r: RazResult<Vec<Symbol>>)
        ensures
            match symbols_by(structs_query(), struct_rule(), *tree, source@) {
                None => r is Err,
                Some(v) => r matches Ok(x) && symbols_are(x@, v),
            },
    {
        self.extract_with(QueryKind::Structs, tree, source)
    }

    /// Enum items.
    fn extract_enums(&self, tree: &SyntaxNode, source: &str) -> (r: RazResult<Vec<Symbol>>)
        ensures
            match symbols_by(enums_query(), enum_rule(), *tree, source@) {
                None => r is Err,
                Some(v) => r matches Ok(x) && symbols_are(x@, v),
            },
    {
        self.extract_with(QueryKind::Enums, tree, source)
    }

    /// Trait items.
    fn extract_traits(&self, tree: &SyntaxNode, source: &str) -> (r: RazResult<Vec<Symbol>>)
        ensures
            match symbols_by(traits_query(), trait_rule(), *tree, source@) {
                None => r is Err,
                Some(v) => r matches Ok(x) && symbols_are(x@, v),
            },
    {
        self.extract_with(QueryKind::Traits, tree, source)
    }

    /// Module items.
    fn extract_modules(&self, tree: &SyntaxNode, source: &str) -> (r: RazResult<Vec<Symbol>>)
        ensures
            match symbols_by(modules_query(), module_rule(), *tree, source@) {
                None => r is Err,
                Some(v) => r matches Ok(x) && symbols_are(x@, v),
            },
    {
        self.extract_with(QueryKind::Modules, tree, source)
    }

    /// Constant items.
    fn extract_constants(&self, tree: &SyntaxNode, source: &str) -> (r: RazResult<Vec<Symbol>>)
        ensures
            match symbols_by(constants_query(), constant_rule(), *tree, source@) {
                None => r is Err,
                Some(v) => r matches Ok(x) && symbols_are(x@, v),
            },
    {
        self.extract_with(QueryKind::Constants, tree, source)
    }

    /// Type aliases.
    fn extract_type_aliases(&self, tree: &SyntaxNode, source: &str) -> (r: RazResult<
        Vec<Symbol>,
    >)
        ensures
            match symbols_by(type_aliases_query(), type_alias_rule(), *tree, source@) {
                None => r is Err,
                Some(v) => r matches Ok(x) && symbols_are(x@, v),
            },
    {
        self.extract_with(QueryKind::TypeAliases, tree, source)
    }

    /// Macro definitions.
    fn extract_macros(&self, tree: &SyntaxNode, source: &str) -> (r: RazResult<Vec<Symbol>>)
        ensures
            match symbols_by(macros_query(), macro_rule(), *tree, source@) {
                None => r is Err,
                Some(v) => r matches Ok(x) && symbols_are(x@, v),
            },
    {
        self.extract_with(QueryKind::Macros, tree, source)
    }
}

pub open spec fn span_derefs<'a>(v: Seq<&'a NodeSpan>) -> Seq<NodeSpan> {
    v.map_values(|x: &NodeSpan| *x)
}

/// The test a function item gives: named by its first identifier child.
pub open spec fn test_of_function(f: SyntaxNode) -> Option<Option<SymbolSpec>> {
    match first_child_of_kind(f, "identifier"@, 0) {
        None => Some(None),
        Some(c) => match c.text {
            None => None,
            Some(t) => Some(
                Some(
                    SymbolSpec {
                        name: t@,
                        kind: SymbolKind::Test,
                        range: node_range(f),
                        modifiers: seq!["test"@],
                    },
                ),
            ),
        },
    }
}

fn test_modifiers() -> (r: Vec<String>)
    ensures
        views(r@) == seq!["test"@],
{
    let r = vec![owned("test")];
    assert(views(r@) =~= seq!["test"@]);
    r
}

/// Some symbol of the list has the name.
fn has_symbol_named(syms: &Vec<Symbol>, Ghost(specs): Ghost<Seq<SymbolSpec>>, name: &str) -> (r: bool)
    requires
        symbols_are(syms@, specs),
    ensures
        r == has_name(specs, name@),
{
    let mut i: usize = 0;
    while i < syms.len()
        invariant
            i <= syms@.len(),
            symbols_are(syms@, specs),
            forall|j: int| 0 <= j < i ==> specs[j].name != name@,
        decreases syms.len() - i,
    {
        assert(symbol_is(syms@[i as int], specs[i as int]));
        if str_eq(syms[i].name.as_str(), name) {
            return true;
        }
        i += 1;
    }
    false
}

impl RustAnalyzer {
    /// The function item above a `#[test]` attribute's identifier.
    fn find_function_with_test_attr<'a>(&self, test_attr: &NodeSpan, root: &'a SyntaxNode) -> (r:
        Option<&'a SyntaxNode>)
        ensures
            match enclosing_function(*root, *test_attr) {
                None => r is None,
                Some(f) => r matches Some(x) && *x == f,
            },
    {
        match find_path_above(root, test_attr.kind.as_str(), test_attr.start_byte, test_attr.end_byte) {
            Some(p) => last_node_of_kind(&p, "function_item"),
            None => None,
        }
    }

    /// The test a function item gives, named by its first identifier.
    fn create_test_symbol_from_function(&self, function_node: &SyntaxNode) -> (r: RazResult<
        Option<Symbol>,
    >)
        ensures
            match test_of_function(*function_node) {
                None => r is Err,
                Some(v) => r matches Ok(x) && opt_symbol_is(x, v),
            },
    {
        match first_child(function_node, "identifier") {
            Some(child) => match &child.text {
                Some(t) => Ok(
                    Some(
                        make_symbol(
                            t.clone(),
                            SymbolKind::Test,
                            text_range(function_node),
                            test_modifiers(),
                        ),
                    ),
                ),
                None => Err(RazError::analysis("Failed to extract test function name")),
            },
            None => Ok(None),
        }
    }

    /// The tests of a source: functions under `#[test]` attributes, then
    /// functions named `test_...` not found that way.
    fn extract_tests(&self, tree: &SyntaxNode, source: &str) -> (r: RazResult<Vec<Symbol>>)
        ensures
            match tests_spec(*tree, source@) {
                None => r is Err,
                Some(v) => r matches Ok(x) && symbols_are(x@, v),
            },
    {
        let ms = match run_rust_query(
            "(attribute_item (attribute (identifier) @test.attr (#eq? @test.attr \"test\")))",
            source,
        ) {
            Some(m) => m,
            None => {
                return Err(RazError::analysis("Failed to run tests query"));
            },
        };
        let ghost msv = ms@;
        let mut test_attrs: Vec<&NodeSpan> = Vec::new();
        let mut i: usize = 0;
        assert(span_derefs(test_attrs@) =~= attrs_of_matches(msv.take(0)));
        while i < ms.len()
            invariant
                i <= msv.len(),
                msv == ms@,
                span_derefs(test_attrs@) == attrs_of_matches(msv.take(i as int)),
                rust_query_matches(tests_query(), source@) == Some(ms),
            decreases ms.len() - i,
        {
            let caps = &ms[i];
            let ghost base = span_derefs(test_attrs@);
            let mut j: usize = 0;
            assert(attrs_in(caps@.take(0)) =~= Seq::<NodeSpan>::empty());
            while j < caps.len()
                invariant
                    j <= caps@.len(),
                    span_derefs(test_attrs@) == base + attrs_in(caps@.take(j as int)),
                decreases caps.len() - j,
            {
                let ghost was = span_derefs(test_attrs@);
                if str_eq(caps[j].name.as_str(), "test.attr") {
                    test_attrs.push(&caps[j].node);
                    assert(span_derefs(test_attrs@) =~= was.push(caps@[j as int].node));
                } else {
                    assert(span_derefs(test_attrs@) =~= was);
                }
                assert(caps@.take(j + 1).drop_last() =~= caps@.take(j as int));
                assert(caps@.take(j + 1).last() == caps@[j as int]);
                assert(span_derefs(test_attrs@) =~= base + attrs_in(caps@.take(j + 1)));
                j += 1;
            }
            assert(caps@.take(caps@.len() as int) =~= caps@);
            assert(msv.take(i + 1).drop_last() =~= msv.take(i as int));
            i += 1;
        }
        assert(msv.take(msv.len() as int) =~= msv);
        let ghost attrs = span_derefs(test_attrs@);
        let mut tests: Vec<Symbol> = Vec::new();
        let ghost mut specs: Seq<SymbolSpec> = seq![];
        let mut k: usize = 0;
        while k < test_attrs.len()
            invariant
                k <= attrs.len(),
                rust_query_matches(tests_query(), source@) == Some(ms),
                msv == ms@,
                attrs == span_derefs(test_attrs@),
                attrs == attrs_of_matches(msv),
                tests_of_attrs(*tree, attrs, k as int) == Some(specs),
                symbols_are(tests@, specs),
            decreases test_attrs.len() - k,
        {
            let attr = test_attrs[k];
            assert(attrs[k as int] == *attr);
            match self.find_function_with_test_attr(attr, tree) {
                Some(f) => match self.create_test_symbol_from_function(f) {
                    Ok(Some(sym)) => {
                        let ghost sv = test_of_function(*f)->0->0;
                        tests.push(sym);
                        proof {
                            specs = specs.push(sv);
                        }
                    },
                    Ok(None) => {},
                    Err(e) => {
                        proof {
                            lemma_tests_of_attrs_none(*tree, attrs, k + 1, attrs.len() as int);
                        }
                        return Err(e);
                    },
                },
                None => {},
            }
            k += 1;
        }
        let fm = match run_rust_query("(function_item name: (identifier) @func.name) @func", source) {
            Some(m) => m,
            None => {
                return Err(RazError::analysis("Failed to create function query"));
            },
        };
        let ghost fmv = fm@;
        let ghost first = specs;
        let mut m: usize = 0;
        while m < fm.len()
            invariant
                m <= fmv.len(),
                fmv == fm@,
                named_tests(fmv, m as int, first) == specs,
                symbols_are(tests@, specs),
            decreases fm.len() - m,
        {
            let caps = &fm[m];
            let mut func_name: Option<String> = None;
            let mut func_node: Option<&NodeSpan> = None;
            let mut j: usize = 0;
            while j < caps.len()
                invariant
                    j <= caps@.len(),
                    match last_capture(caps@.take(j as int), "func.name"@) {
                        Some(n) => match n.text {
                            Some(t) => func_name matches Some(x) && x@ == t@,
                            None => func_name is None,
                        },
                        None => func_name is None,
                    },
                    match last_capture(caps@.take(j as int), "func"@) {
                        Some(n) => func_node matches Some(x) && *x == n,
                        None => func_node is None,
                    },
                decreases caps.len() - j,
            {
                let c = &caps[j];
                if str_eq(c.name.as_str(), "func.name") {
                    func_name = match &c.node.text {
                        Some(t) => Some(t.clone()),
                        None => None,
                    };
                } else if str_eq(c.name.as_str(), "func") {
                    func_node = Some(&c.node);
                }
                proof {
                    reveal_strlit("func.name");
                    reveal_strlit("func");
                    assert("func.name"@.len() == 9);
                    assert("func"@.len() == 4);
                    assert("func.name"@ != "func"@);
                    assert(caps@.take(j + 1).drop_last() =~= caps@.take(j as int));
                    assert(caps@.take(j + 1).last() == caps@[j as int]);
                    if caps@[j as int].name@ == "func"@ {
                        assert(last_capture(caps@.take(j + 1), "func"@) == Some(caps@[j as int].node));
                    } else {
                        assert(last_capture(caps@.take(j + 1), "func"@) == last_capture(
                            caps@.take(j as int),
                            "func"@,
                        ));
                    }
                }
                j += 1;
            }
            assert(caps@.take(caps@.len() as int) =~= caps@);
            match (func_name, func_node) {
                (Some(name), Some(node)) => {
                    if str_starts_with(name.as_str(), "test_") && !has_symbol_named(
                        &tests,
                        Ghost(specs),
                        name.as_str(),
                    ) {
                        let ghost sv = SymbolSpec {
                            name: name@,
                            kind: SymbolKind::Test,
                            range: span_range(*node),
                            modifiers: seq!["test"@],
                        };
                        tests.push(
                            make_symbol(name, SymbolKind::Test, self.node_to_range(node), test_modifiers()),
                        );
                        proof {
                            specs = specs.push(sv);
                        }
                    }
                },
                _ => {},
            }
            m += 1;
        }
        Ok(tests)
    }
}

proof fn lemma_symbols_are_append(a: Seq<Symbol>, va: Seq<SymbolSpec>, b: Seq<Symbol>, vb: Seq<SymbolSpec>)
    requires
        symbols_are(a, va),
        symbols_are(b, vb),
    ensures
        symbols_are(a + b, va + vb),
{
    assert forall|i: int| 0 <= i < (a + b).len() implies symbol_is(#[trigger] (a + b)[i], (va + vb)[i]) by {
        if i < a.len() {
            assert(symbol_is(a[i], va[i]));
        } else {
            assert(symbol_is(b[i - a.len()], vb[i - a.len()]));
        }
    }
}

/// Appends `more` to `syms`.
fn append_symbols(
    syms: &mut Vec<Symbol>,
    Ghost(va): Ghost<Seq<SymbolSpec>>,
    more: Vec<Symbol>,
    Ghost(vb): Ghost<Seq<SymbolSpec>>,
)
    requires
        symbols_are(old(syms)@, va),
        symbols_are(more@, vb),
    ensures
        symbols_are(final(syms)@, va + vb),
{
    let mut more = more;
    let ghost a = syms@;
    let ghost b = more@;
    syms.append(&mut more);
    proof {
        lemma_symbols_are_append(a, va, b, vb);
    }
}

/// Copies of the functions whose names no test has.
fn keep_non_tests(
    functions: &Vec<Symbol>,
    Ghost(fs): Ghost<Seq<SymbolSpec>>,
    tests: &Vec<Symbol>,
    Ghost(ts): Ghost<Seq<SymbolSpec>>,
) -> (r: Vec<Symbol>)
    requires
        symbols_are(functions@, fs),
        symbols_are(tests@, ts),
    ensures
        symbols_are(r@, not_tests(fs, ts)),
{
    let mut kept: Vec<Symbol> = Vec::new();
    let mut i: usize = 0;
    while i < functions.len()
        invariant
            i <= functions@.len(),
            symbols_are(tests@, ts),
            symbols_are(functions@, fs),
            symbols_are(kept@, not_tests(fs.take(i as int), ts)),
        decreases functions.len() - i,
    {
        let func = &functions[i];
        assert(symbol_is(functions@[i as int], fs[i as int]));
        assert(fs.take(i + 1).drop_last() =~= fs.take(i as int));
        assert(fs.take(i + 1).last() == fs[i as int]);
        if !has_symbol_named(tests, Ghost(ts), func.name.as_str()) {
            let ghost before = kept@;
            kept.push(copy_symbol(func));
            proof {
                let target = not_tests(fs.take(i + 1), ts);
                assert(target == not_tests(fs.take(i as int), ts).push(fs[i as int]));
                assert forall|j: int| 0 <= j < kept@.len() implies symbol_is(
                    #[trigger] kept@[j],
                    target[j],
                ) by {
                    if j < before.len() {
                        assert(kept@[j] == before[j]);
                    }
                }
            }
        } else {
            assert(not_tests(fs.take(i + 1), ts) =~= not_tests(fs.take(i as int), ts));
        }
        i += 1;
    }
    assert(fs.take(fs.len() as int) =~= fs);
    kept
}

fn line_span_exec(r: Range) -> (s: u32)
    ensures
        s == line_span(r),
{
    if r.end.line >= r.start.line {
        r.end.line - r.start.line
    } else {
        (r.end.line as u64 + 0x1_0000_0000u64 - r.start.line as u64) as u32
    }
}

impl RustAnalyzer {
    /// The modules, constants, type aliases and macros of a source.
    fn extract_item_symbols(&self, tree: &SyntaxNode, source: &str) -> (r: RazResult<Vec<Symbol>>)
        ensures
            match item_symbols_spec(*tree, source@) {
                None => r is Err,
                Some(v) => r matches Ok(x) && symbols_are(x@, v),
            },
    {
        let mut symbols = self.extract_modules(tree, source)?;
        let ghost vm = symbols_by(modules_query(), module_rule(), *tree, source@)->0;
        let constants = self.extract_constants(tree, source)?;
        let ghost vc = symbols_by(constants_query(), constant_rule(), *tree, source@)->0;
        append_symbols(&mut symbols, Ghost(vm), constants, Ghost(vc));
        let type_aliases = self.extract_type_aliases(tree, source)?;
        let ghost va = symbols_by(type_aliases_query(), type_alias_rule(), *tree, source@)->0;
        append_symbols(&mut symbols, Ghost(vm + vc), type_aliases, Ghost(va));
        let macros = self.extract_macros(tree, source)?;
        let ghost vmac = symbols_by(macros_query(), macro_rule(), *tree, source@)->0;
        append_symbols(&mut symbols, Ghost(vm + vc + va), macros, Ghost(vmac));
        assert(vm + vc + va + vmac =~= vm + (vc + (va + vmac)));
        Ok(symbols)
    }

    /// The structs, enums and traits of a source, then its other items.
    fn extract_type_symbols(&self, tree: &SyntaxNode, source: &str) -> (r: RazResult<Vec<Symbol>>)
        ensures
            match type_symbols_spec(*tree, source@) {
                None => r is Err,
                Some(v) => r matches Ok(x) && symbols_are(x@, v),
            },
    {
        let mut symbols = self.extract_structs(tree, source)?;
        let ghost vs = symbols_by(structs_query(), struct_rule(), *tree, source@)->0;
        let enums = self.extract_enums(tree, source)?;
        let ghost ve = symbols_by(enums_query(), enum_rule(), *tree, source@)->0;
        append_symbols(&mut symbols, Ghost(vs), enums, Ghost(ve));
        let traits = self.extract_traits(tree, source)?;
        let ghost vt = symbols_by(traits_query(), trait_rule(), *tree, source@)->0;
        append_symbols(&mut symbols, Ghost(vs + ve), traits, Ghost(vt));
        let items = self.extract_item_symbols(tree, source)?;
        let ghost vi = item_symbols_spec(*tree, source@)->0;
        append_symbols(&mut symbols, Ghost(vs + ve + vt), items, Ghost(vi));
        assert(vs + ve + vt + vi =~= vs + (ve + (vt + vi)));
        Ok(symbols)
    }

    /// The symbols of a source: its tests, the functions that are not
    /// tests, then its structs, enums, traits, modules, constants, type
    /// aliases and macros.
    pub fn extract_symbols(&self, tree: &SyntaxNode, source: &str) -> (r: RazResult<Vec<Symbol>>)
        ensures
            match symbols_spec(*tree, source@) {
                None => r is Err,
                Some(v) => r matches Ok(x) && symbols_are(x@, v),
            },
    {
        let mut symbols = self.extract_tests(tree, source)?;
        let ghost tests = tests_spec(*tree, source@)->0;
        let functions = self.extract_functions(tree, source)?;
        let ghost fs = symbols_by(functions_query(), function_rule(), *tree, source@)->0;
        let kept = keep_non_tests(&functions, Ghost(fs), &symbols, Ghost(tests));
        append_symbols(&mut symbols, Ghost(tests), kept, Ghost(not_tests(fs, tests)));
        let others = self.extract_type_symbols(tree, source)?;
        let ghost vo = type_symbols_spec(*tree, source@)->0;
        append_symbols(&mut symbols, Ghost(tests + not_tests(fs, tests)), others, Ghost(vo));
        Ok(symbols)
    }

    /// The symbol that holds a position and spans the fewest lines (the
    /// first such).
    pub fn symbol_at_position(&self, tree: &SyntaxNode, source: &str, position: Position) -> (r:
        RazResult<Option<Symbol>>)
        ensures
            match symbols_spec(*tree, source@) {
                None => r is Err,
                Some(v) => r matches Ok(x) && opt_symbol_is(x, best_scan(v, position, v.len() as int).0),
            },
    {
        let symbols = self.extract_symbols(tree, source)?;
        let ghost v = symbols_spec(*tree, source@)->0;
        let mut best: Option<usize> = None;
        let mut smallest_range: u32 = u32::MAX;
        let mut i: usize = 0;
        while i < symbols.len()
            invariant
                i <= symbols@.len(),
                symbols_are(symbols@, v),
                best matches Some(b) ==> b < i,
                best_scan(v, position, i as int) == (
                    match best {
                        Some(b) => Some(v[b as int]),
                        None => None,
                    },
                    smallest_range,
                ),
            decreases symbols.len() - i,
        {
            let sym = &symbols[i];
            assert(symbol_is(symbols@[i as int], v[i as int]));
            if sym.range.contains_position(position) {
                let range_size = line_span_exec(sym.range);
                if range_size < smallest_range {
                    smallest_range = range_size;
                    best = Some(i);
                }
            }
            i += 1;
        }
        match best {
            Some(b) => {
                assert(symbol_is(symbols@[b as int], v[b as int]));
                Ok(Some(copy_symbol(&symbols[b])))
            },
            None => Ok(None),
        }
    }

    /// The function, test function, struct, enum, trait, module and impl
    /// block that hold a position.
    pub fn context_at_position(&self, tree: &SyntaxNode, source: &str, position: Position) -> (r:
        RazResult<SymbolContext>)
        ensures
            match symbols_spec(*tree, source@) {
                None => r is Err,
                Some(v) => r matches Ok(x) && context_is(x, context_scan(v, position, v.len() as int)),
            },
    {
        let symbols = self.extract_symbols(tree, source)?;
        let ghost v = symbols_spec(*tree, source@)->0;
        let mut context = SymbolContext::default();
        let mut i: usize = 0;
        while i < symbols.len()
            invariant
                i <= symbols@.len(),
                symbols_are(symbols@, v),
                context_is(context, context_scan(v, position, i as int)),
            decreases symbols.len() - i,
        {
            let symbol = &symbols[i];
            assert(symbol_is(symbols@[i as int], v[i as int]));
            if symbol.range.contains_position(position) {
                match symbol.kind {
                    SymbolKind::Function => {
                        if has_modifier(&symbol.modifiers, "test") {
                            context.in_test_function = Some(copy_symbol(symbol));
                        } else {
                            context.in_function = Some(copy_symbol(symbol));
                        }
                    },
                    SymbolKind::Struct => {
                        context.in_struct = Some(copy_symbol(symbol));
                    },
                    SymbolKind::Enum => {
                        context.in_enum = Some(copy_symbol(symbol));
                    },
                    SymbolKind::Trait => {
                        context.in_trait = Some(copy_symbol(symbol));
                    },
                    SymbolKind::Module => {
                        context.in_module = Some(copy_symbol(symbol));
                    },
                    SymbolKind::Impl => {
                        context.in_impl = Some(copy_symbol(symbol));
                    },
                    _ => {},
                }
            }
            i += 1;
        }
        Ok(context)
    }
}

/// The symbol chosen for a position holds it and spans no more lines than
/// any other symbol that holds it; where none is chosen, every symbol that
/// holds the position spans `u32::MAX` lines.
pub proof fn lemma_best_symbol_is_smallest(syms: Seq<SymbolSpec>, p: Position, k: int)
    requires
        0 <= k <= syms.len(),
    ensures
        best_scan(syms, p, k).0 matches Some(s) ==> s.range.spec_contains(p) && line_span(s.range)
            == best_scan(syms, p, k).1,
        forall|i: int|
            0 <= i < k && (#[trigger] syms[i]).range.spec_contains(p) ==> best_scan(syms, p, k).1
                <= line_span(syms[i].range),
        best_scan(syms, p, k).0 is None ==> best_scan(syms, p, k).1 == u32::MAX,
    decreases k,
{
    if k > 0 {
        lemma_best_symbol_is_smallest(syms, p, k - 1);
    }
}

/// Each place of the context that a symbol takes holds a symbol of its
/// kind that holds the position; a test function carries the `test`
/// modifier, a plain function does not.
pub proof fn lemma_context_symbols_hold_position(syms: Seq<SymbolSpec>, p: Position, k: int)
    requires
        0 <= k <= syms.len(),
    ensures
        ({
            let c = context_scan(syms, p, k);
            &&& c.in_function matches Some(s) ==> s.range.spec_contains(p) && s.kind
                == SymbolKind::Function && !s.modifiers.contains("test"@)
            &&& c.in_test_function matches Some(s) ==> s.range.spec_contains(p) && s.kind
                == SymbolKind::Function && s.modifiers.contains("test"@)
            &&& c.in_struct matches Some(s) ==> s.range.spec_contains(p) && s.kind
                == SymbolKind::Struct
            &&& c.in_enum matches Some(s) ==> s.range.spec_contains(p) && s.kind == SymbolKind::Enum
            &&& c.in_trait matches Some(s) ==> s.range.spec_contains(p) && s.kind
                == SymbolKind::Trait
            &&& c.in_module matches Some(s) ==> s.range.spec_contains(p) && s.kind
                == SymbolKind::Module
            &&& c.in_impl matches Some(s) ==> s.range.spec_contains(p) && s.kind == SymbolKind::Impl
        }),
    decreases k,
{
    if k > 0 {
        lemma_context_symbols_hold_position(syms, p, k - 1);
    }
}

} // verus!
