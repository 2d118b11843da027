//! Entry points, test context and doc tests read from the syntax tree of a
//! Rust file.

use crate::context::Position;
use crate::error::{RazError, RazResult};
use crate::browser::{regex_capture_group, regex_first_group};
use crate::file_detection::{char_width, char_width_exec, entries_view, EntryPoint, EntryPointType, EntryView};
use crate::syntax_tree::{first_text_of_kind, parse_rust, rust_syntax_tree, SyntaxNode};
use crate::numbers::{decimal, decimal_chars};
use crate::text::{
    chars_of, copy_strings, has_prefix, has_sub, join, join_strings, lines, lines_of,
    owned, starts_with_seq, str_contains, str_eq, string_from, trim, trim_vec, views, vviews,
};
use vstd::prelude::*;

verus! {

/// The one-based line of a zero-based row (as `u32` arithmetic wraps).
pub open spec fn line_after(row: u32) -> u32 {
    if row < u32::MAX {
        (row + 1) as u32
    } else {
        0
    }
}

fn next_line(row: u32) -> (r: u32)
    ensures
        r == line_after(row),
{
    if row < u32::MAX {
        row + 1
    } else {
        0
    }
}

/// A node's text, or the empty text where it is not known.
pub open spec fn text_or_empty(n: SyntaxNode) -> Seq<char> {
    match n.text {
        Some(t) => t@,
        None => seq![],
    }
}

pub open spec fn deref_node(o: Option<&SyntaxNode>) -> Option<SyntaxNode> {
    match o {
        Some(n) => Some(*n),
        None => None,
    }
}

/// The name of an item: the text of its first identifier child.
pub open spec fn ident_of(n: SyntaxNode) -> Option<Seq<char>> {
    n.child_text_spec("identifier"@)
}

/// The name of a type item: the text of its first type identifier child.
pub open spec fn type_ident_of(n: SyntaxNode) -> Option<Seq<char>> {
    n.child_text_spec("type_identifier"@)
}

/// Some child is an attribute whose text holds `cfg(test)`.
pub open spec fn has_cfg_test_attr(n: SyntaxNode) -> bool {
    exists|i: int|
        0 <= i < n.children@.len() && #[trigger] n.children@[i].kind@ == "attribute_item"@
            && has_sub(text_or_empty(n.children@[i]), "cfg(test)"@)
}

/// A module is a test module when it carries `#[cfg(test)]` or its name
/// holds `test`.
pub open spec fn is_test_module_spec(n: SyntaxNode) -> bool {
    has_cfg_test_attr(n) || match ident_of(n) {
        Some(name) => has_sub(name, "test"@),
        None => false,
    }
}

/// The node before a function is an attribute whose text holds `test` and
/// not `bench`.
pub open spec fn is_test_function_spec(prev: Option<SyntaxNode>) -> bool {
    match prev {
        Some(p) => p.kind@ == "attribute_item"@ && p.text is Some && has_sub(p.text->0@, "test"@)
            && !has_sub(p.text->0@, "bench"@),
        None => false,
    }
}

/// The node before a function is an attribute whose text holds `bench`.
pub open spec fn is_bench_function_spec(prev: Option<SyntaxNode>) -> bool {
    match prev {
        Some(p) => p.kind@ == "attribute_item"@ && p.text is Some && has_sub(p.text->0@, "bench"@),
        None => false,
    }
}

/// A name under the modules of the stack, joined with `::`.
pub open spec fn scoped(stack: Seq<Seq<char>>, name: Seq<char>) -> Seq<char> {
    join(stack.push(name), "::"@)
}

/// The entry a function item gives: a test, `main` or a benchmark.
pub open spec fn function_entries(
    n: SyntaxNode,
    prev: Option<SyntaxNode>,
    stack: Seq<Seq<char>>,
    name: Seq<char>,
) -> Seq<EntryView> {
    let start = line_after(n.start.line);
    let end = line_after(n.end.line);
    if is_test_function_spec(prev) {
        seq![EntryView {
            name,
            entry_type: EntryPointType::Test,
            line: start,
            column: n.start.column,
            line_range: (start, end),
            full_path: Some(scoped(stack, name)),
        }]
    } else if name == "main"@ {
        seq![EntryView {
            name: "main"@,
            entry_type: EntryPointType::Main,
            line: start,
            column: n.start.column,
            line_range: (start, end),
            full_path: None,
        }]
    } else if is_bench_function_spec(prev) {
        seq![EntryView {
            name,
            entry_type: EntryPointType::Benchmark,
            line: start,
            column: n.start.column,
            line_range: (start, end),
            full_path: None,
        }]
    } else {
        seq![]
    }
}

/// The entry a module gives: a test module, when it is one or lies inside
/// a module named `tests`.
pub open spec fn module_entries(n: SyntaxNode, stack: Seq<Seq<char>>, name: Seq<char>) -> Seq<
    EntryView,
> {
    let start = line_after(n.start.line);
    let end = line_after(n.end.line);
    if is_test_module_spec(n) || stack.contains("tests"@) {
        seq![EntryView {
            name,
            entry_type: EntryPointType::TestModule,
            line: start,
            column: 0,
            line_range: (start, end),
            full_path: Some(scoped(stack, name)),
        }]
    } else {
        seq![]
    }
}

/// The entry points found from a node down, in source order, with the
/// enclosing modules on the stack; `None` where a module or function has
/// no name.
pub open spec fn walk_entries(n: SyntaxNode, prev: Option<SyntaxNode>, stack: Seq<Seq<char>>) -> Option<
    Seq<EntryView>,
>
    decreases n, n.children@.len() + 1,
{
    if n.kind@ == "mod_item"@ {
        match ident_of(n) {
            None => None,
            Some(name) => match walk_bodies(n, n.children@.len(), stack.push(name)) {
                None => None,
                Some(rest) => Some(module_entries(n, stack, name) + rest),
            },
        }
    } else if n.kind@ == "function_item"@ {
        match ident_of(n) {
            None => None,
            Some(name) => match walk_children(n, n.children@.len(), stack) {
                None => None,
                Some(rest) => Some(function_entries(n, prev, stack, name) + rest),
            },
        }
    } else {
        walk_children(n, n.children@.len(), stack)
    }
}

/// The entry points of the first `k` children of a node.
pub open spec fn walk_children(n: SyntaxNode, k: nat, stack: Seq<Seq<char>>) -> Option<
    Seq<EntryView>,
>
    decreases n, k,
{
    if k == 0 || k > n.children@.len() {
        Some(seq![])
    } else {
        match walk_children(n, (k - 1) as nat, stack) {
            None => None,
            Some(a) => {
                let prev = if k >= 2 {
                    Some(n.children@[k - 2])
                } else {
                    None
                };
                match walk_entries(n.children@[k - 1], prev, stack) {
                    None => None,
                    Some(b) => Some(a + b),
                }
            },
        }
    }
}

/// The entry points of the bodies (declaration lists) among the first `k`
/// children of a module.
pub open spec fn walk_bodies(n: SyntaxNode, k: nat, stack: Seq<Seq<char>>) -> Option<
    Seq<EntryView>,
>
    decreases n, k,
{
    if k == 0 || k > n.children@.len() {
        Some(seq![])
    } else {
        match walk_bodies(n, (k - 1) as nat, stack) {
            None => None,
            Some(a) => {
                let c = n.children@[k - 1];
                if c.kind@ == "declaration_list"@ {
                    match walk_children(c, c.children@.len(), stack) {
                        None => None,
                        Some(b) => Some(a + b),
                    }
                } else {
                    Some(a)
                }
            },
        }
    }
}

/// The text of the first child of the given kind whose text is known.
fn child_text(node: &SyntaxNode, kind: &str) -> (r: Option<String>)
    ensures
        match r {
            Some(s) => node.child_text_spec(kind@) == Some(s@),
            None => node.child_text_spec(kind@) is None,
        },
{
    let ghost cs = node.children@;
    let mut i: usize = 0;
    while i < node.children.len()
        invariant
            cs == node.children@,
            i <= cs.len(),
            first_text_of_kind(cs, kind@, 0) == first_text_of_kind(cs, kind@, i as int),
        decreases node.children.len() - i,
    {
        let c = &node.children[i];
        if str_eq(c.kind.as_str(), kind) {
            match &c.text {
                Some(t) => {
                    return Some(t.clone());
                },
                None => {},
            }
        }
        i += 1;
    }
    None
}

/// The node's text holds `p`.
fn text_has(node: &SyntaxNode, p: &str) -> (r: bool)
    ensures
        r == (node.text is Some && has_sub(node.text->0@, p@)),
{
    match &node.text {
        Some(t) => str_contains(t.as_str(), p),
        None => false,
    }
}

fn is_kind(node: &SyntaxNode, kind: &str) -> (r: bool)
    ensures
        r == (node.kind@ == kind@),
{
    str_eq(node.kind.as_str(), kind)
}

/// Joins the module names on the stack and `name` with `::`.
fn scoped_path(stack: &Vec<String>, name: &str) -> (r: String)
    ensures
        r@ == scoped(views(stack@), name@),
{
    let mut parts = copy_strings(stack);
    parts.push(owned(name));
    proof {
        assert(views(parts@) =~= views(stack@).push(name@));
    }
    join_strings(&parts, "::")
}

/// Detects tests, test modules, `main`, benchmarks and doc tests in Rust
/// source with the tree-sitter Rust grammar.
pub struct TreeSitterTestDetector;

proof fn lemma_walk_children_none(n: SyntaxNode, k: nat, m: nat, stack: Seq<Seq<char>>)
    requires
        k <= m <= n.children@.len(),
        walk_children(n, k, stack) is None,
    ensures
        walk_children(n, m, stack) is None,
    decreases m,
{
    if m > k {
        lemma_walk_children_none(n, k, (m - 1) as nat, stack);
    }
}

proof fn lemma_walk_bodies_none(n: SyntaxNode, k: nat, m: nat, stack: Seq<Seq<char>>)
    requires
        k <= m <= n.children@.len(),
        walk_bodies(n, k, stack) is None,
    ensures
        walk_bodies(n, m, stack) is None,
    decreases m,
{
    if m > k {
        lemma_walk_bodies_none(n, k, (m - 1) as nat, stack);
    }
}

impl TreeSitterTestDetector {
    /// A detector.
    pub fn new() -> (r: RazResult<Self>)
        ensures
            r is Ok,
    {
        Ok(TreeSitterTestDetector)
    }

    /// A module carries `#[cfg(test)]` or has a name that holds `test`.
    fn is_test_module(&self, node: &SyntaxNode) -> (r: bool)
        ensures
            r == is_test_module_spec(*node),
    {
        let mut i: usize = 0;
        while i < node.children.len()
            invariant
                i <= node.children@.len(),
                forall|j: int|
                    0 <= j < i ==> !(#[trigger] node.children@[j].kind@ == "attribute_item"@
                        && has_sub(text_or_empty(node.children@[j]), "cfg(test)"@)),
            decreases node.children.len() - i,
        {
            let c = &node.children[i];
            if is_kind(c, "attribute_item") && text_has(c, "cfg(test)") {
                return true;
            }
            proof {
                reveal_strlit("cfg(test)");
                if c.text is None {
                    assert(!has_sub(seq![], "cfg(test)"@));
                }
            }
            i += 1;
        }
        match child_text(node, "identifier") {
            Some(name) => str_contains(name.as_str(), "test"),
            None => false,
        }
    }

    /// The attribute before a function holds `test` and not `bench`.
    fn is_test_function(&self, prev: Option<&SyntaxNode>) -> (r: bool)
        ensures
            r == is_test_function_spec(deref_node(prev)),
    {
        match prev {
            Some(p) => is_kind(p, "attribute_item") && p.text.is_some() && text_has(p, "test")
                && !text_has(p, "bench"),
            None => false,
        }
    }

    /// The attribute before a function holds `bench`.
    fn is_bench_function(&self, prev: Option<&SyntaxNode>) -> (r: bool)
        ensures
            r == is_bench_function_spec(deref_node(prev)),
    {
        match prev {
            Some(p) => is_kind(p, "attribute_item") && p.text.is_some() && text_has(p, "bench"),
            None => false,
        }
    }

    /// The name of a module item.
    fn get_module_name(&self, node: &SyntaxNode) -> (r: RazResult<String>)
        ensures
            match r {
                Ok(s) => ident_of(*node) == Some(s@),
                Err(_) => ident_of(*node) is None,
            },
    {
        match child_text(node, "identifier") {
            Some(s) => Ok(s),
            None => Err(RazError::analysis("Module name not found")),
        }
    }

    /// The name of a function item.
    fn get_function_name(&self, node: &SyntaxNode) -> (r: RazResult<String>)
        ensures
            match r {
                Ok(s) => ident_of(*node) == Some(s@),
                Err(_) => ident_of(*node) is None,
            },
    {
        match child_text(node, "identifier") {
            Some(s) => Ok(s),
            None => Err(RazError::analysis("Function name not found")),
        }
    }

    /// The name of a struct item.
    fn get_struct_name(&self, node: &SyntaxNode) -> (r: RazResult<String>)
        ensures
            match r {
                Ok(s) => type_ident_of(*node) == Some(s@),
                Err(_) => type_ident_of(*node) is None,
            },
    {
        match child_text(node, "type_identifier") {
            Some(s) => Ok(s),
            None => Err(RazError::analysis("Struct name not found")),
        }
    }

    /// The name of an enum item.
    fn get_enum_name(&self, node: &SyntaxNode) -> (r: RazResult<String>)
        ensures
            match r {
                Ok(s) => type_ident_of(*node) == Some(s@),
                Err(_) => type_ident_of(*node) is None,
            },
    {
        match child_text(node, "type_identifier") {
            Some(s) => Ok(s),
            None => Err(RazError::analysis("Enum name not found")),
        }
    }

    /// The type an impl block is for: its first type identifier.
    fn get_impl_target_name(&self, node: &SyntaxNode) -> (r: RazResult<String>)
        ensures
            match r {
                Ok(s) => type_ident_of(*node) == Some(s@),
                Err(_) => type_ident_of(*node) is None,
            },
    {
        match child_text(node, "type_identifier") {
            Some(s) => Ok(s),
            None => Err(RazError::analysis("Impl target name not found")),
        }
    }

    /// Walks a node and what lies under it, adding the test modules,
    /// tests, `main` and benchmarks found to `entry_points`; the stack
    /// holds the names of the enclosing modules.
    fn walk_tree(
        &self,
        node: &SyntaxNode,
        prev: Option<&SyntaxNode>,
        entry_points: &mut Vec<EntryPoint>,
        module_stack: &mut Vec<String>,
    ) -> (r: RazResult<()>)
        ensures
            match walk_entries(*node, deref_node(prev), views(old(module_stack)@)) {
                None => r is Err,
                Some(es) => r is Ok && entries_view(final(entry_points)@) == entries_view(
                    old(entry_points)@,
                ) + es && final(module_stack)@ == old(module_stack)@,
            },
        decreases node, 1nat,
    {
        let ghost stack = views(module_stack@);
        if is_kind(node, "mod_item") {
            let module_name = self.get_module_name(node)?;
            let start_line = next_line(node.start.line);
            let end_line = next_line(node.end.line);
            let is_test_mod = self.is_test_module(node);
            let in_test_context = stack_has(module_stack, "tests");
            if is_test_mod || in_test_context {
                let full_path = scoped_path(module_stack, module_name.as_str());
                let ghost before = entry_points@;
                entry_points.push(
                    EntryPoint {
                        name: module_name.clone(),
                        entry_type: EntryPointType::TestModule,
                        line: start_line,
                        column: 0,
                        line_range: (start_line, end_line),
                        full_path: Some(full_path),
                    },
                );
                assert(entries_view(entry_points@) =~= entries_view(before) + module_entries(
                    *node,
                    stack,
                    module_name@,
                ));
            } else {
                assert(module_entries(*node, stack, module_name@) =~= Seq::<EntryView>::empty());
                assert(entries_view(entry_points@) =~= entries_view(entry_points@) + module_entries(
                    *node,
                    stack,
                    module_name@,
                ));
            }
            let ghost base = entries_view(entry_points@);
            let ghost saved = module_stack@;
            module_stack.push(module_name);
            let ghost inner = views(module_stack@);
            assert(inner =~= stack.push(ident_of(*node)->0));
            let mut i: usize = 0;
            while i < node.children.len()
                invariant
                    i <= node.children@.len(),
                    module_stack@ == saved.push(module_stack@.last()),
                    views(module_stack@) == inner,
                    stack == views(old(module_stack)@),
                    node.kind@ == "mod_item"@,
                    ident_of(*node) is Some,
                    inner == stack.push(ident_of(*node)->0),
                    walk_bodies(*node, i as nat, inner) matches Some(es) && entries_view(
                        entry_points@,
                    ) == base + es,
                decreases node.children.len() - i,
            {
                let c = &node.children[i];
                if is_kind(c, "declaration_list") {
                    let res = self.walk_all_children(c, entry_points, module_stack);
                    if res.is_err() {
                        proof {
                            assert(walk_children(*c, c.children@.len(), inner) is None);
                            assert(walk_bodies(*node, (i + 1) as nat, inner) is None);
                            lemma_walk_bodies_none(
                                *node,
                                (i + 1) as nat,
                                node.children@.len(),
                                inner,
                            );
                        }
                        return res;
                    }
                }
                i += 1;
            }
            module_stack.pop();
            assert(module_stack@ =~= saved);
            return Ok(());
        }
        let mut added: Vec<EntryPoint> = Vec::new();
        if is_kind(node, "function_item") {
            let fn_name = self.get_function_name(node)?;
            let start_line = next_line(node.start.line);
            let end_line = next_line(node.end.line);
            let column = node.start.column;
            if self.is_test_function(prev) {
                let full_path = scoped_path(module_stack, fn_name.as_str());
                added.push(
                    EntryPoint {
                        name: fn_name,
                        entry_type: EntryPointType::Test,
                        line: start_line,
                        column,
                        line_range: (start_line, end_line),
                        full_path: Some(full_path),
                    },
                );
            } else if str_eq(fn_name.as_str(), "main") {
                added.push(
                    EntryPoint {
                        name: owned("main"),
                        entry_type: EntryPointType::Main,
                        line: start_line,
                        column,
                        line_range: (start_line, end_line),
                        full_path: None,
                    },
                );
            } else if self.is_bench_function(prev) {
                added.push(
                    EntryPoint {
                        name: fn_name,
                        entry_type: EntryPointType::Benchmark,
                        line: start_line,
                        column,
                        line_range: (start_line, end_line),
                        full_path: None,
                    },
                );
            }
            assert(entries_view(added@) =~= function_entries(
                *node,
                deref_node(prev),
                stack,
                ident_of(*node)->0,
            ));
        }
        let ghost before = entries_view(entry_points@);
        let ghost more = entries_view(added@);
        for e in it: added.into_iter()
            invariant
                it.seq().len() == more.len(),
                forall|j: int| 0 <= j < more.len() ==> #[trigger] more[j] == it.seq()[j]@,
                entries_view(entry_points@) == before + more.take(it.index() as int),
        {
            let ghost k = it.index() as int;
            let ghost was = entry_points@;
            entry_points.push(e);
            proof {
                assert(entries_view(entry_points@) =~= entries_view(was).push(more[k]));
                assert(more.take(k + 1) =~= more.take(k).push(more[k]));
            }
        }
        assert(more.take(more.len() as int) =~= more);
        self.walk_all_children(node, entry_points, module_stack)
    }

    /// Walks each child of a node in turn.
    fn walk_all_children(
        &self,
        node: &SyntaxNode,
        entry_points: &mut Vec<EntryPoint>,
        module_stack: &mut Vec<String>,
    ) -> (r: RazResult<()>)
        ensures
            match walk_children(*node, node.children@.len(), views(old(module_stack)@)) {
                None => r is Err,
                Some(es) => r is Ok && entries_view(final(entry_points)@) == entries_view(
                    old(entry_points)@,
                ) + es && final(module_stack)@ == old(module_stack)@,
            },
        decreases node, 0nat,
    {
        let ghost stack = views(module_stack@);
        let ghost saved = module_stack@;
        let ghost base = entries_view(entry_points@);
        let mut i: usize = 0;
        while i < node.children.len()
            invariant
                i <= node.children@.len(),
                module_stack@ == saved,
                views(module_stack@) == stack,
                stack == views(old(module_stack)@),
                walk_children(*node, i as nat, stack) matches Some(es) && entries_view(
                    entry_points@,
                ) == base + es,
            decreases node.children.len() - i,
        {
            let prev = if i >= 1 {
                Some(&node.children[i - 1])
            } else {
                None
            };
            let res = self.walk_tree(&node.children[i], prev, entry_points, module_stack);
            if res.is_err() {
                proof {
                    assert(walk_entries(node.children@[i as int], deref_node(prev), stack) is None);
                    assert(walk_children(*node, (i + 1) as nat, stack) is None);
                    lemma_walk_children_none(*node, (i + 1) as nat, node.children@.len(), stack);
                }
                return res;
            }
            i += 1;
        }
        Ok(())
    }
}

/// A trimmed line that opens with `///` or `//!`.
pub open spec fn is_doc_line(t: Seq<char>) -> bool {
    has_prefix(t, "///"@) || has_prefix(t, "//!"@)
}

/// The doc comment block that ends above line `item_line` (zero-based):
/// its first and last lines. Blank lines may stand inside the block; other
/// lines between the block and the item are passed over.
pub open spec fn doc_block_before(ls: Seq<Seq<char>>, item_line: int) -> Option<(int, int)> {
    if item_line == 0 || item_line >= ls.len() {
        None
    } else {
        scan_doc_up(ls, item_line - 1, None)
    }
}

pub open spec fn scan_doc_up(ls: Seq<Seq<char>>, i: int, found: Option<(int, int)>) -> Option<
    (int, int),
>
    decreases i + 1,
{
    if i < 0 {
        found
    } else {
        let t = trim(ls[i]);
        if is_doc_line(t) {
            let end = match found {
                Some(f) => f.1,
                None => i,
            };
            scan_doc_up(ls, i - 1, Some((i, end)))
        } else if found is Some && t.len() > 0 {
            found
        } else {
            scan_doc_up(ls, i - 1, found)
        }
    }
}

/// Doc text that holds a code fence and something that looks like Rust.
pub open spec fn has_rust_code(doc: Seq<char>) -> bool {
    has_sub(doc, "```"@) && (has_sub(doc, "assert_eq!"@) || has_sub(doc, "assert!"@) || has_sub(
        doc,
        "panic!"@,
    ) || has_sub(doc, "println!"@) || has_sub(doc, "fn "@) || has_sub(doc, "let "@) || has_sub(
        doc,
        "use "@,
    ) || has_sub(doc, "::new"@) || has_sub(doc, "#["@) || has_sub(doc, "impl "@) || has_sub(
        doc,
        "struct "@,
    ) || has_sub(doc, "enum "@) || has_sub(doc, "trait "@) || has_sub(doc, "mod "@) || has_sub(
        doc,
        "pub "@,
    ))
}

/// The name of a function, struct, enum or impl item.
pub open spec fn item_name_of(n: SyntaxNode) -> Option<Seq<char>> {
    if n.kind@ == "function_item"@ {
        ident_of(n)
    } else if n.kind@ == "struct_item"@ || n.kind@ == "enum_item"@ || n.kind@ == "impl_item"@ {
        type_ident_of(n)
    } else {
        None
    }
}

pub open spec fn is_doc_item_kind(k: Seq<char>) -> bool {
    k == "function_item"@ || k == "struct_item"@ || k == "enum_item"@ || k == "impl_item"@
}

/// The name given to a doc test that belongs to no named item.
pub open spec fn fallback_doctest_name(start: u32, end: u32) -> Seq<char> {
    "doctest_"@ + decimal(start as nat) + "_"@ + decimal(end as nat)
}

/// The lines `s..=e` joined with line breaks.
pub open spec fn doc_block_text(ls: Seq<Seq<char>>, s: int, e: int) -> Seq<char> {
    join(ls.subrange(s, e + 1), "\n"@)
}

/// The doc test an item gives: its doc comment block, when that holds
/// Rust code, named after the item.
pub open spec fn item_doctest(n: SyntaxNode, ls: Seq<Seq<char>>) -> Seq<EntryView> {
    let name = match item_name_of(n) {
        Some(x) => x,
        None => seq![],
    };
    match doc_block_before(ls, n.start.line as int) {
        Some(b) => if has_rust_code(doc_block_text(ls, b.0, b.1)) {
            let start = (b.0 + 1) as u32;
            let end = (b.1 + 1) as u32;
            seq![EntryView {
                name: if name.len() == 0 {
                    fallback_doctest_name(start, end)
                } else {
                    name
                },
                entry_type: EntryPointType::DocTest,
                line: start,
                column: 0,
                line_range: (start, end),
                full_path: Some(name),
            }]
        } else {
            seq![]
        },
        None => seq![],
    }
}

/// The doc tests of the items from a node down, in source order.
pub open spec fn doctest_entries(n: SyntaxNode, ls: Seq<Seq<char>>) -> Seq<EntryView>
    decreases n, n.children@.len() + 1,
{
    (if is_doc_item_kind(n.kind@) {
        item_doctest(n, ls)
    } else {
        seq![]
    }) + doctest_children(n, n.children@.len(), ls)
}

/// The doc tests under the first `k` children of a node.
pub open spec fn doctest_children(n: SyntaxNode, k: nat, ls: Seq<Seq<char>>) -> Seq<EntryView>
    decreases n, k,
{
    if k == 0 || k > n.children@.len() {
        seq![]
    } else {
        doctest_children(n, (k - 1) as nat, ls) + doctest_entries(n.children@[k - 1], ls)
    }
}

proof fn lemma_scan_doc_up_bounds(ls: Seq<Seq<char>>, i: int, found: Option<(int, int)>)
    requires
        -1 <= i < ls.len(),
        found matches Some(f) ==> i < f.0 <= f.1 < ls.len(),
    ensures
        scan_doc_up(ls, i, found) matches Some(f) ==> 0 <= f.0 <= f.1 < ls.len(),
    decreases i + 1,
{
    if i >= 0 {
        let t = trim(ls[i]);
        if is_doc_line(t) {
            let end = match found {
                Some(f) => f.1,
                None => i,
            };
            lemma_scan_doc_up_bounds(ls, i - 1, Some((i, end)));
            assert(scan_doc_up(ls, i, found) == scan_doc_up(ls, i - 1, Some((i, end))));
        } else if found is Some && t.len() > 0 {
            assert(scan_doc_up(ls, i, found) == found);
        } else {
            lemma_scan_doc_up_bounds(ls, i - 1, found);
            assert(scan_doc_up(ls, i, found) == scan_doc_up(ls, i - 1, found));
        }
    } else {
        assert(scan_doc_up(ls, i, found) == found);
    }
}

/// A trimmed line opens with `///` or `//!`.
fn doc_line(line: &Vec<char>) -> (r: bool)
    ensures
        r == is_doc_line(trim(line@)),
{
    let t = trim_vec(line.as_slice());
    let a = chars_of("///");
    let b = chars_of("//!");
    starts_with_seq(t.as_slice(), a.as_slice()) || starts_with_seq(t.as_slice(), b.as_slice())
}

/// The trimmed line is empty.
fn blank_line(line: &Vec<char>) -> (r: bool)
    ensures
        r == (trim(line@).len() == 0),
{
    let t = trim_vec(line.as_slice());
    t.len() == 0
}

/// Lines `s..=e` joined with line breaks.
fn join_lines(ls: &Vec<Vec<char>>, s: usize, e: usize) -> (r: Vec<char>)
    requires
        s <= e < ls@.len(),
        e < u32::MAX,
    ensures
        r@ == doc_block_text(vviews(ls@), s as int, e as int),
{
    let ghost lv = vviews(ls@);
    let mut r: Vec<char> = Vec::new();
    let mut i: usize = s;
    while i <= e
        invariant
            s <= i <= e + 1,
            e < ls@.len(),
            e < u32::MAX,
            lv == vviews(ls@),
            r@ == join(lv.subrange(s as int, i as int), "\n"@),
        decreases e + 1 - i,
    {
        let ghost before = r@;
        if i != s {
            r.push('\n');
        }
        let line = &ls[i];
        let mut j: usize = 0;
        let ghost mid = r@;
        while j < line.len()
            invariant
                j <= line@.len(),
                r@ == mid + line@.take(j as int),
            decreases line.len() - j,
        {
            r.push(line[j]);
            proof {
                assert(line@.take(j + 1) =~= line@.take(j as int).push(line@[j as int]));
            }
            j += 1;
        }
        proof {
            reveal_strlit("\n");
            let part = lv.subrange(s as int, i + 1);
            assert(part.drop_last() =~= lv.subrange(s as int, i as int));
            assert(part.last() == line@);
            assert(line@.take(line@.len() as int) =~= line@);
            if i == s {
                assert(part.len() == 1);
                assert(r@ =~= part[0]);
            } else {
                assert(r@ =~= before + "\n"@ + line@);
            }
        }
        i += 1;
    }
    r
}

impl TreeSitterTestDetector {
    /// The doc comment block (first and last zero-based lines) that ends
    /// above line `item_line`.
    fn find_doc_comment_before_line(&self, source: &str, item_line: usize) -> (r: Option<
        (usize, usize),
    >)
        ensures
            match doc_block_before(lines(source@), item_line as int) {
                Some(b) => r == Some((b.0 as usize, b.1 as usize)) && 0 <= b.0 <= b.1 < lines(
                    source@,
                ).len(),
                None => r is None,
            },
    {
        let c = chars_of(source);
        let ls = lines_of(c.as_slice());
        let ghost lv = vviews(ls@);
        if item_line == 0 || item_line >= ls.len() {
            return None;
        }
        let mut found: Option<(usize, usize)> = None;
        let mut i: usize = item_line;
        while i > 0
            invariant
                lv == vviews(ls@),
                lv == lines(source@),
                0 < item_line < lv.len(),
                i <= item_line,
                found matches Some(f) ==> i <= f.0 <= f.1 < lv.len(),
                scan_doc_up(lv, item_line - 1, None) == scan_doc_up(
                    lv,
                    i - 1,
                    match found {
                        Some(f) => Some((f.0 as int, f.1 as int)),
                        None => None,
                    },
                ),
            decreases i,
        {
            let k = i - 1;
            let line = &ls[k];
            assert(lv[k as int] == line@);
            if doc_line(line) {
                let end = match found {
                    Some(f) => f.1,
                    None => k,
                };
                found = Some((k, end));
                i = k;
            } else if found.is_some() && !blank_line(line) {
                i = 0;
            } else {
                i = k;
            }
        }
        proof {
            lemma_scan_doc_up_bounds(lv, item_line - 1, None);
            let fi = match found {
                Some(f) => Some((f.0 as int, f.1 as int)),
                None => None,
            };
            assert(scan_doc_up(lv, -1, fi) == fi);
        }
        found
    }

    /// Doc text holds a code fence and something that looks like Rust.
    fn contains_rust_code_blocks(&self, doc_text: &str) -> (r: bool)
        ensures
            r == has_rust_code(doc_text@),
    {
        if !str_contains(doc_text, "```") {
            return false;
        }
        str_contains(doc_text, "assert_eq!") || str_contains(doc_text, "assert!") || str_contains(
            doc_text,
            "panic!",
        ) || str_contains(doc_text, "println!") || str_contains(doc_text, "fn ") || str_contains(
            doc_text,
            "let ",
        ) || str_contains(doc_text, "use ") || str_contains(doc_text, "::new") || str_contains(
            doc_text,
            "#[",
        ) || str_contains(doc_text, "impl ") || str_contains(doc_text, "struct ") || str_contains(
            doc_text,
            "enum ",
        ) || str_contains(doc_text, "trait ") || str_contains(doc_text, "mod ") || str_contains(
            doc_text,
            "pub ",
        )
    }

    /// The name of a function, struct, enum or impl item.
    fn extract_item_name(&self, node: &SyntaxNode) -> (r: Option<String>)
        ensures
            match r {
                Some(s) => item_name_of(*node) == Some(s@),
                None => item_name_of(*node) is None,
            },
    {
        if is_kind(node, "function_item") {
            self.get_function_name(node).ok()
        } else if is_kind(node, "struct_item") {
            self.get_struct_name(node).ok()
        } else if is_kind(node, "enum_item") {
            self.get_enum_name(node).ok()
        } else if is_kind(node, "impl_item") {
            self.get_impl_target_name(node).ok()
        } else {
            None
        }
    }

    /// Adds the doc tests found from `node` down.
    pub fn detect_doctests(
        &self,
        node: &SyntaxNode,
        source: &str,
        entry_points: &mut Vec<EntryPoint>,
    ) -> (r: RazResult<()>)
        requires
            lines(source@).len() < u32::MAX,
        ensures
            r is Ok,
            entries_view(final(entry_points)@) == entries_view(old(entry_points)@)
                + doctest_entries(*node, lines(source@)),
    {
        self.walk_tree_for_doctests(node, source, entry_points, "")
    }

    /// Walks a node and what lies under it, adding a doc test for each
    /// function, struct, enum or impl item whose doc comment holds Rust
    /// code.
    fn walk_tree_for_doctests(
        &self,
        node: &SyntaxNode,
        source: &str,
        entry_points: &mut Vec<EntryPoint>,
        parent_name: &str,
    ) -> (r: RazResult<()>)
        requires
            lines(source@).len() < u32::MAX,
        ensures
            r is Ok,
            entries_view(final(entry_points)@) == entries_view(old(entry_points)@)
                + doctest_entries(*node, lines(source@)),
        decreases node,
    {
        let ghost ls = lines(source@);
        let ghost base = entries_view(entry_points@);
        let mut item_name = String::new();
        if is_kind(node, "function_item") || is_kind(node, "struct_item") || is_kind(
            node,
            "enum_item",
        ) || is_kind(node, "impl_item") {
            item_name = match self.extract_item_name(node) {
                Some(n) => n,
                None => String::new(),
            };
            let item_start_line = node.start.line as usize;
            match self.find_doc_comment_before_line(source, item_start_line) {
                Some((doc_start, doc_end)) => {
                    let c = chars_of(source);
                    let lv = lines_of(c.as_slice());
                    let doc = join_lines(&lv, doc_start, doc_end);
                    let doc_text = string_from(doc.as_slice());
                    if self.contains_rust_code_blocks(doc_text.as_str()) {
                        let start_line = (doc_start + 1) as u32;
                        let end_line = (doc_end + 1) as u32;
                        let unnamed = item_name.as_str().unicode_len() == 0;
                        let doctest_name = if unnamed {
                            doctest_label(start_line, end_line)
                        } else {
                            item_name.clone()
                        };
                        assert(doctest_name@ == (if item_name@.len() == 0 {
                            fallback_doctest_name(start_line, end_line)
                        } else {
                            item_name@
                        }));
                        let ghost was = entry_points@;
                        entry_points.push(
                            EntryPoint {
                                name: doctest_name,
                                entry_type: EntryPointType::DocTest,
                                line: start_line,
                                column: 0,
                                line_range: (start_line, end_line),
                                full_path: Some(item_name.clone()),
                            },
                        );
                        proof {
                            let lvv = vviews(lv@);
                            assert(lvv == ls);
                            assert(doc_block_before(ls, node.start.line as int) == Some(
                                (doc_start as int, doc_end as int),
                            ));
                            assert(has_rust_code(doc_block_text(ls, doc_start as int, doc_end as int)));
                            let name = match item_name_of(*node) {
                                Some(x) => x,
                                None => seq![],
                            };
                            assert(item_name@ == name);
                            assert(entries_view(entry_points@) == entries_view(was).push(
                                entry_points@.last()@,
                            ));
                            assert(entry_points@.last()@.name == (if name.len() == 0 {
                                fallback_doctest_name(start_line, end_line)
                            } else {
                                name
                            }));
                        }
                        assert(entries_view(entry_points@) =~= base + item_doctest(*node, ls));
                    } else {
                        assert(entries_view(entry_points@) =~= base + item_doctest(*node, ls));
                    }
                },
                None => {
                    assert(entries_view(entry_points@) =~= base + item_doctest(*node, ls));
                },
            }
        } else {
            assert(entries_view(entry_points@) =~= base + Seq::<EntryView>::empty());
        }
        let ghost here = entries_view(entry_points@);
        let mut i: usize = 0;
        while i < node.children.len()
            invariant
                i <= node.children@.len(),
                ls == lines(source@),
                ls.len() < u32::MAX,
                entries_view(entry_points@) == here + doctest_children(*node, i as nat, ls),
            decreases node.children.len() - i,
        {
            let _ = self.walk_tree_for_doctests(
                &node.children[i],
                source,
                entry_points,
                item_name.as_str(),
            );
            i += 1;
        }
        Ok(())
    }
}

/// `doctest_{start}_{end}`.
fn doctest_label(start: u32, end: u32) -> (r: String)
    ensures
        r@ == fallback_doctest_name(start, end),
{
    let mut v = chars_of("doctest_");
    let a = decimal_chars(start as u64);
    let b = decimal_chars(end as u64);
    let mut k: usize = 0;
    let ghost v0 = v@;
    while k < a.len()
        invariant
            k <= a@.len(),
            v@ == v0 + a@.take(k as int),
        decreases a.len() - k,
    {
        v.push(a[k]);
        assert(a@.take(k + 1) =~= a@.take(k as int).push(a@[k as int]));
        k += 1;
    }
    v.push('_');
    let ghost v1 = v@;
    k = 0;
    while k < b.len()
        invariant
            k <= b@.len(),
            v@ == v1 + b@.take(k as int),
        decreases b.len() - k,
    {
        v.push(b[k]);
        assert(b@.take(k + 1) =~= b@.take(k as int).push(b@[k as int]));
        k += 1;
    }
    proof {
        reveal_strlit("doctest_");
        reveal_strlit("_");
        assert(a@.take(a@.len() as int) =~= a@);
        assert(b@.take(b@.len() as int) =~= b@);
        assert(v@ =~= fallback_doctest_name(start, end));
    }
    string_from(v.as_slice())
}

/// The length in bytes of the UTF-8 text of `s`.
pub open spec fn byte_len(s: Seq<char>) -> nat
    decreases s.len(),
{
    if s.len() == 0 {
        0
    } else {
        byte_len(s.drop_last()) + char_width(s.last()) as nat
    }
}

proof fn lemma_byte_len_take(s: Seq<char>, i: int, j: int)
    requires
        0 <= i <= j <= s.len(),
    ensures
        byte_len(s.take(i)) <= byte_len(s.take(j)),
    decreases j - i,
{
    if i < j {
        lemma_byte_len_take(s, i, j - 1);
        assert(s.take(j).drop_last() =~= s.take(j - 1));
    }
}

/// Where the scan for a position stands at character `i`, on line `cur`:
/// the byte offset of the position's line and column. A column past the
/// end of the text gives the line's start; a line past the text, its end.
pub open spec fn offset_scan(cs: Seq<char>, line: nat, col: nat, i: int, cur: nat) -> nat
    decreases cs.len() - i,
{
    if i < 0 || i >= cs.len() {
        byte_len(cs)
    } else if cur == line {
        if i + col < cs.len() {
            byte_len(cs.take(i + col))
        } else {
            byte_len(cs.take(i))
        }
    } else if cs[i] == '\n' {
        offset_scan(cs, line, col, i + 1, cur + 1)
    } else {
        offset_scan(cs, line, col, i + 1, cur)
    }
}

/// The byte offset of a position in the source.
pub open spec fn byte_offset_of(source: Seq<char>, p: Position) -> nat {
    offset_scan(source, p.line as nat, p.column as nat, 0, 0)
}

/// The zero-based line that holds a byte offset, counting each line's
/// bytes and one for its line break; past the end, the last line.
pub open spec fn line_of_offset(ls: Seq<Seq<char>>, off: nat, k: int, cur: nat) -> nat
    decreases ls.len() - k,
{
    if k < 0 || k >= ls.len() {
        if ls.len() > 0 {
            (ls.len() - 1) as nat
        } else {
            0
        }
    } else {
        let end = cur + byte_len(ls[k]) + 1;
        if off <= end {
            k as nat
        } else {
            line_of_offset(ls, off, k + 1, end)
        }
    }
}

/// The first line of the doc comment block around line `i` (blank lines
/// may stand inside the block).
pub open spec fn block_start(ls: Seq<Seq<char>>, i: int, start: int) -> int
    decreases i + 1,
{
    if i < 0 || i >= ls.len() {
        start
    } else {
        let t = trim(ls[i]);
        if is_doc_line(t) {
            block_start(ls, i - 1, i)
        } else if t.len() == 0 {
            block_start(ls, i - 1, start)
        } else {
            start
        }
    }
}

/// The last line of the doc comment block around line `i`.
pub open spec fn block_end(ls: Seq<Seq<char>>, i: int, end: int) -> int
    decreases ls.len() - i,
{
    if i < 0 || i >= ls.len() {
        end
    } else {
        let t = trim(ls[i]);
        if is_doc_line(t) {
            block_end(ls, i + 1, i)
        } else if t.len() == 0 {
            block_end(ls, i + 1, end)
        } else {
            end
        }
    }
}

/// The doc comment block that holds line `ln`.
pub open spec fn doc_block_around(ls: Seq<Seq<char>>, ln: int) -> Option<(int, int)> {
    if ln < 0 || ln >= ls.len() {
        None
    } else {
        let s = block_start(ls, ln, ln);
        let e = block_end(ls, ln, ln);
        if is_doc_line(trim(ls[s])) {
            Some((s, e))
        } else {
            None
        }
    }
}

/// The patterns that name a declaration, tried in order: a function, a
/// struct, an enum, an impl block (`impl Trait for Type` names `Type`).
pub open spec fn declaration_patterns() -> Seq<Seq<char>> {
    seq![
        "fn\\s+(\\w+)"@,
        "struct\\s+(\\w+)"@,
        "enum\\s+(\\w+)"@,
        "impl\\s+(?:\\w+\\s+for\\s+)?(\\w+)"@,
    ]
}

/// The name the first matching declaration pattern from index `i` on
/// captures.
pub open spec fn declared_name(line: Seq<char>, i: int) -> Option<Seq<char>>
    decreases 4 - i,
{
    if i < 0 || i >= 4 {
        None
    } else {
        match regex_first_group(declaration_patterns()[i], line) {
            Some(Some(n)) => Some(n),
            _ => declared_name(line, i + 1),
        }
    }
}

/// The name of the item declared on the first line after `i` that is
/// neither blank nor a doc comment.
pub open spec fn item_after(ls: Seq<Seq<char>>, i: int) -> Option<Seq<char>>
    decreases ls.len() - i,
{
    if i < 0 || i >= ls.len() {
        None
    } else {
        let t = trim(ls[i]);
        if t.len() == 0 || is_doc_line(t) {
            item_after(ls, i + 1)
        } else {
            declared_name(t, 0)
        }
    }
}

/// The doc test whose doc comment holds the cursor's byte offset.
pub open spec fn doctest_at_line(ls: Seq<Seq<char>>, cb: nat) -> Option<EntryView> {
    let cl = line_of_offset(ls, cb, 0, 0) as int;
    if cl >= ls.len() || !is_doc_line(trim(ls[cl])) {
        None
    } else {
        match doc_block_around(ls, cl) {
            Some(b) => if has_rust_code(doc_block_text(ls, b.0, b.1)) {
                let start = (b.0 + 1) as u32;
                let end = (b.1 + 1) as u32;
                let name = match item_after(ls, b.1 + 1) {
                    Some(n) => n,
                    None => fallback_doctest_name(start, end),
                };
                Some(
                    EntryView {
                        name,
                        entry_type: EntryPointType::DocTest,
                        line: start,
                        column: 0,
                        line_range: (start, end),
                        full_path: Some(name),
                    },
                )
            } else {
                None
            },
            None => None,
        }
    }
}

/// The name of the outermost function, struct, enum or impl item, from a
/// node down, that spans the byte offset.
pub open spec fn item_at(n: SyntaxNode, cb: nat) -> Option<Seq<char>>
    decreases n, n.children@.len() + 1,
{
    if n.start_byte <= cb <= n.end_byte {
        let own = if n.kind@ == "function_item"@ {
            ident_of(n)
        } else if n.kind@ == "struct_item"@ || n.kind@ == "enum_item"@ || n.kind@ == "impl_item"@ {
            type_ident_of(n)
        } else {
            None
        };
        if own is Some {
            own
        } else {
            item_at_from(n, 0, cb)
        }
    } else {
        None
    }
}

/// The first answer among the children from index `i` on.
pub open spec fn item_at_from(n: SyntaxNode, i: nat, cb: nat) -> Option<Seq<char>>
    decreases n, n.children@.len() - i,
{
    if i >= n.children@.len() {
        None
    } else {
        match item_at(n.children@[i as int], cb) {
            Some(x) => Some(x),
            None => item_at_from(n, i + 1, cb),
        }
    }
}

/// The test context as values: the test module (name, path, lines) and
/// the test function (name, path, line) that hold the cursor.
pub struct ContextView {
    pub module: Option<(Seq<char>, Seq<char>, (u32, u32))>,
    pub function: Option<(Seq<char>, Seq<char>, u32)>,
}

/// The test context after a node and what lies under it, for a cursor at
/// a byte offset; the innermost, then the last, test module and test
/// function that span it win. `None` where a module, or a test function,
/// has no name.
pub open spec fn context_walk(
    n: SyntaxNode,
    prev: Option<SyntaxNode>,
    cb: nat,
    stack: Seq<Seq<char>>,
    acc: ContextView,
) -> Option<ContextView>
    decreases n, n.children@.len() + 1,
{
    if !(n.start_byte <= cb <= n.end_byte) {
        Some(acc)
    } else if n.kind@ == "mod_item"@ {
        match ident_of(n) {
            None => None,
            Some(name) => {
                let inner = stack.push(name);
                let acc2 = if is_test_module_spec(n) {
                    ContextView {
                        module: Some(
                            (
                                name,
                                join(inner, "::"@),
                                (line_after(n.start.line), line_after(n.end.line)),
                            ),
                        ),
                        ..acc
                    }
                } else {
                    acc
                };
                context_children(n, n.children@.len(), cb, inner, acc2)
            },
        }
    } else if n.kind@ == "function_item"@ && is_test_function_spec(prev) {
        match ident_of(n) {
            None => None,
            Some(name) => context_children(
                n,
                n.children@.len(),
                cb,
                stack,
                ContextView {
                    function: Some((name, scoped(stack, name), line_after(n.start.line))),
                    ..acc
                },
            ),
        }
    } else {
        context_children(n, n.children@.len(), cb, stack, acc)
    }
}

/// The test context after the first `k` children of a node.
pub open spec fn context_children(
    n: SyntaxNode,
    k: nat,
    cb: nat,
    stack: Seq<Seq<char>>,
    acc: ContextView,
) -> Option<ContextView>
    decreases n, k,
{
    if k == 0 || k > n.children@.len() {
        Some(acc)
    } else {
        match context_children(n, (k - 1) as nat, cb, stack, acc) {
            None => None,
            Some(a) => {
                let prev = if k >= 2 {
                    Some(n.children@[k - 2])
                } else {
                    None
                };
                context_walk(n.children@[k - 1], prev, cb, stack, a)
            },
        }
    }
}

proof fn lemma_context_children_none(
    n: SyntaxNode,
    k: nat,
    m: nat,
    cb: nat,
    stack: Seq<Seq<char>>,
    acc: ContextView,
)
    requires
        k <= m <= n.children@.len(),
        context_children(n, k, cb, stack, acc) is None,
    ensures
        context_children(n, m, cb, stack, acc) is None,
    decreases m,
{
    if m > k {
        lemma_context_children_none(n, k, (m - 1) as nat, cb, stack, acc);
    }
}

/// The test module that holds the cursor.
#[derive(Debug)]
pub struct TestModule {
    pub name: String,
    pub full_path: String,
    pub line_range: (u32, u32),
}

/// The test function that holds the cursor.
#[derive(Debug)]
pub struct TestFunction {
    pub name: String,
    pub full_path: String,
    pub line: u32,
}

/// The test module and test function that hold the cursor.
#[derive(Debug)]
pub struct TestContext {
    pub in_test_module: Option<TestModule>,
    pub in_test_function: Option<TestFunction>,
}

impl View for TestContext {
    type V = ContextView;

    open spec fn view(&self) -> ContextView {
        ContextView {
            module: match self.in_test_module {
                Some(m) => Some((m.name@, m.full_path@, m.line_range)),
                None => None,
            },
            function: match self.in_test_function {
                Some(f) => Some((f.name@, f.full_path@, f.line)),
                None => None,
            },
        }
    }
}

impl Default for TestContext {
    fn default() -> (r: Self)
        ensures
            r.in_test_module is None,
            r.in_test_function is None,
    {
        TestContext { in_test_module: None, in_test_function: None }
    }
}

/// The UTF-8 width of a character.
fn width(c: char) -> (r: usize)
    ensures
        r == char_width(c),
{
    char_width_exec(c) as usize
}

/// The UTF-8 length of `s`, or `usize::MAX` where it would not fit.
fn byte_len_saturating(s: &Vec<char>) -> (r: usize)
    ensures
        r == (if byte_len(s@) <= usize::MAX {
            byte_len(s@)
        } else {
            usize::MAX as nat
        }),
{
    let mut total: usize = 0;
    let mut i: usize = 0;
    while i < s.len()
        invariant
            i <= s@.len(),
            total == (if byte_len(s@.take(i as int)) <= usize::MAX {
                byte_len(s@.take(i as int))
            } else {
                usize::MAX as nat
            }),
        decreases s.len() - i,
    {
        assert(s@.take(i + 1).drop_last() =~= s@.take(i as int));
        total = total.saturating_add(width(s[i]));
        i += 1;
    }
    assert(s@.take(s@.len() as int) =~= s@);
    total
}

/// The first doc test of the list that belongs to the named item.
pub open spec fn doctest_for(es: Seq<EntryView>, item: Seq<char>, i: int) -> Option<EntryView>
    decreases es.len() - i,
{
    if i < 0 || i >= es.len() {
        None
    } else if es[i].entry_type == EntryPointType::DocTest && es[i].full_path == Some(item) {
        Some(es[i])
    } else {
        doctest_for(es, item, i + 1)
    }
}

pub open spec fn no_context() -> ContextView {
    ContextView { module: None, function: None }
}

/// The doc test for a cursor: none inside a test module or test function;
/// else the doc test of the outermost item that spans the cursor, or the
/// one whose doc comment holds the cursor. `None` where the source cannot
/// be analysed.
pub open spec fn doctest_at_cursor(source: Seq<char>, cursor: Position) -> Option<
    Option<EntryView>,
> {
    match rust_syntax_tree(source) {
        None => None,
        Some(root) => {
            let cb = byte_offset_of(source, cursor);
            let ls = lines(source);
            match context_walk(root, None, cb, seq![], no_context()) {
                None => None,
                Some(c) => if c.module is Some || c.function is Some {
                    Some(None)
                } else {
                    match item_at(root, cb) {
                        Some(item) => match doctest_for(doctest_entries(root, ls), item, 0) {
                            Some(e) => Some(Some(e)),
                            None => Some(doctest_at_line(ls, cb)),
                        },
                        None => Some(doctest_at_line(ls, cb)),
                    }
                },
            }
        },
    }
}

proof fn lemma_block_start_bounds(ls: Seq<Seq<char>>, i: int, start: int)
    requires
        -1 <= i <= start < ls.len(),
        0 <= start,
    ensures
        0 <= block_start(ls, i, start) <= start,
    decreases i + 1,
{
    if i >= 0 {
        let t = trim(ls[i]);
        if is_doc_line(t) {
            lemma_block_start_bounds(ls, i - 1, i);
        } else if t.len() == 0 {
            lemma_block_start_bounds(ls, i - 1, start);
        }
    }
}

proof fn lemma_block_end_bounds(ls: Seq<Seq<char>>, i: int, end: int)
    requires
        0 <= end <= i <= ls.len(),
        end < ls.len(),
    ensures
        end <= block_end(ls, i, end) < ls.len(),
    decreases ls.len() - i,
{
    if i < ls.len() {
        let t = trim(ls[i]);
        if is_doc_line(t) {
            lemma_block_end_bounds(ls, i + 1, i);
        } else if t.len() == 0 {
            lemma_block_end_bounds(ls, i + 1, end);
        }
    }
}

impl TreeSitterTestDetector {
    /// The byte offset of a position in the source.
    fn position_to_byte_offset(&self, source: &str, position: Position) -> (r: usize)
        requires
            byte_len(source@) <= usize::MAX,
        ensures
            r == byte_offset_of(source@, position),
    {
        let cs = chars_of(source);
        let line = position.line as usize;
        let col = position.column as usize;
        let mut cur: usize = 0;
        let mut bp: usize = 0;
        let mut i: usize = 0;
        while i < cs.len()
            invariant
                cs@ == source@,
                i <= cs@.len(),
                cur <= i,
                byte_len(cs@) <= usize::MAX,
                bp == byte_len(cs@.take(i as int)),
                line == position.line,
                col == position.column,
                byte_offset_of(source@, position) == offset_scan(
                    cs@,
                    line as nat,
                    col as nat,
                    i as int,
                    cur as nat,
                ),
            decreases cs.len() - i,
        {
            if cur == line {
                if col < cs.len() - i {
                    let stop = i + col;
                    let mut b = bp;
                    let mut j = i;
                    while j < stop
                        invariant
                            i <= j <= stop,
                            stop < cs@.len(),
                            byte_len(cs@) <= usize::MAX,
                            b == byte_len(cs@.take(j as int)),
                        decreases stop - j,
                    {
                        proof {
                            lemma_byte_len_take(cs@, j + 1, cs@.len() as int);
                            assert(cs@.take(j + 1).drop_last() =~= cs@.take(j as int));
                            assert(cs@.take(cs@.len() as int) =~= cs@);
                        }
                        b = b + width(cs[j]);
                        j += 1;
                    }
                    return b;
                } else {
                    return bp;
                }
            }
            proof {
                lemma_byte_len_take(cs@, i + 1, cs@.len() as int);
                assert(cs@.take(i + 1).drop_last() =~= cs@.take(i as int));
                assert(cs@.take(cs@.len() as int) =~= cs@);
            }
            bp = bp + width(cs[i]);
            if cs[i] == '\n' {
                cur = cur + 1;
            }
            i += 1;
        }
        assert(cs@.take(cs@.len() as int) =~= cs@);
        bp
    }

    /// The zero-based line that holds a byte offset.
    fn byte_offset_to_line(&self, source: &str, byte_offset: usize) -> (r: usize)
        ensures
            r == line_of_offset(lines(source@), byte_offset as nat, 0, 0),
    {
        let c = chars_of(source);
        let ls = lines_of(c.as_slice());
        let ghost lv = vviews(ls@);
        let ghost mut cur_spec: nat = 0;
        let mut current_byte: usize = 0;
        let mut k: usize = 0;
        while k < ls.len()
            invariant
                lv == vviews(ls@),
                lv == lines(source@),
                k <= ls@.len(),
                current_byte == (if cur_spec <= usize::MAX {
                    cur_spec
                } else {
                    usize::MAX as nat
                }),
                line_of_offset(lv, byte_offset as nat, 0, 0) == line_of_offset(
                    lv,
                    byte_offset as nat,
                    k as int,
                    cur_spec,
                ),
            decreases ls.len() - k,
        {
            let len = byte_len_saturating(&ls[k]);
            assert(lv[k as int] == ls@[k as int]@);
            let line_end = current_byte.saturating_add(len).saturating_add(1);
            let ghost end_spec = cur_spec + byte_len(lv[k as int]) + 1;
            if byte_offset <= line_end {
                return k;
            }
            proof {
                cur_spec = end_spec;
            }
            current_byte = line_end;
            k += 1;
        }
        ls.len().saturating_sub(1)
    }

    /// The doc comment block (first and last zero-based lines) that holds
    /// line `line_num`.
    fn find_doc_comment_block_containing_line(&self, source: &str, line_num: usize) -> (r: Option<
        (usize, usize),
    >)
        ensures
            match doc_block_around(lines(source@), line_num as int) {
                Some(b) => r == Some((b.0 as usize, b.1 as usize)) && 0 <= b.0 <= line_num <= b.1
                    < lines(source@).len(),
                None => r is None,
            },
    {
        let c = chars_of(source);
        let ls = lines_of(c.as_slice());
        let ghost lv = vviews(ls@);
        if line_num >= ls.len() {
            return None;
        }
        let mut start_line = line_num;
        let mut i: usize = line_num + 1;
        while i > 0
            invariant
                lv == vviews(ls@),
                line_num < lv.len(),
                i <= line_num + 1,
                i <= start_line + 1,
                start_line <= line_num,
                block_start(lv, line_num as int, line_num as int) == block_start(
                    lv,
                    i - 1,
                    start_line as int,
                ),
            decreases i,
        {
            let k = i - 1;
            let line = &ls[k];
            assert(lv[k as int] == line@);
            if doc_line(line) {
                start_line = k;
                i = k;
            } else if blank_line(line) {
                i = k;
            } else {
                i = 0;
            }
        }
        let mut end_line = line_num;
        let mut j: usize = line_num;
        while j < ls.len()
            invariant
                lv == vviews(ls@),
                line_num < lv.len(),
                line_num <= end_line <= j <= lv.len(),
                end_line < lv.len(),
                block_end(lv, line_num as int, line_num as int) == block_end(
                    lv,
                    j as int,
                    end_line as int,
                ),
            decreases ls.len() - j,
        {
            let line = &ls[j];
            assert(lv[j as int] == line@);
            if doc_line(line) {
                end_line = j;
                j += 1;
            } else if blank_line(line) {
                j += 1;
            } else {
                j = ls.len();
            }
        }
        proof {
            lemma_block_start_bounds(lv, line_num as int, line_num as int);
            lemma_block_end_bounds(lv, line_num as int, line_num as int);
        }
        assert(lv[start_line as int] == ls@[start_line as int]@);
        if doc_line(&ls[start_line]) {
            Some((start_line, end_line))
        } else {
            None
        }
    }

    /// The name of the item declared on the first line after `after_line`
    /// that is neither blank nor a doc comment.
    fn find_item_name_after_line(&self, source: &str, after_line: usize) -> (r: Option<String>)
        ensures
            match r {
                Some(s) => item_after(lines(source@), after_line + 1) == Some(s@),
                None => item_after(lines(source@), after_line + 1) is None,
            },
    {
        let c = chars_of(source);
        let ls = lines_of(c.as_slice());
        let ghost lv = vviews(ls@);
        if after_line >= ls.len() {
            return None;
        }
        let mut i = after_line + 1;
        while i < ls.len()
            invariant
                lv == vviews(ls@),
                lv == lines(source@),
                after_line < lv.len(),
                after_line + 1 <= i <= lv.len(),
                item_after(lv, after_line + 1) == item_after(lv, i as int),
            decreases ls.len() - i,
        {
            let line = &ls[i];
            assert(lv[i as int] == line@);
            if blank_line(line) || doc_line(line) {
                i += 1;
            } else {
                let t = trim_vec(line.as_slice());
                let text = string_from(t.as_slice());
                return self.extract_name_from_declaration(text.as_str());
            }
        }
        None
    }

    /// The name a declaration line gives: of a function, a struct, an enum
    /// or the type of an impl block.
    fn extract_name_from_declaration(&self, line: &str) -> (r: Option<String>)
        ensures
            match r {
                Some(s) => declared_name(line@, 0) == Some(s@),
                None => declared_name(line@, 0) is None,
            },
    {
        proof {
            reveal_with_fuel(declared_name, 5);
            assert(declaration_patterns()[0] == "fn\\s+(\\w+)"@);
            assert(declaration_patterns()[1] == "struct\\s+(\\w+)"@);
            assert(declaration_patterns()[2] == "enum\\s+(\\w+)"@);
            assert(declaration_patterns()[3] == "impl\\s+(?:\\w+\\s+for\\s+)?(\\w+)"@);
        }
        match regex_capture_group("fn\\s+(\\w+)", line) {
            Some(Some(name)) => {
                return Some(name);
            },
            _ => {},
        }
        match regex_capture_group("struct\\s+(\\w+)", line) {
            Some(Some(name)) => {
                return Some(name);
            },
            _ => {},
        }
        match regex_capture_group("enum\\s+(\\w+)", line) {
            Some(Some(name)) => {
                return Some(name);
            },
            _ => {},
        }
        match regex_capture_group("impl\\s+(?:\\w+\\s+for\\s+)?(\\w+)", line) {
            Some(Some(name)) => {
                return Some(name);
            },
            _ => {},
        }
        None
    }

    /// The doc test whose doc comment holds the cursor's byte offset.
    fn find_doctest_containing_cursor(&self, source: &str, cursor_byte: usize) -> (r: RazResult<
        Option<EntryPoint>,
    >)
        requires
            lines(source@).len() < u32::MAX,
        ensures
            r is Ok,
            match r->Ok_0 {
                Some(e) => doctest_at_line(lines(source@), cursor_byte as nat) == Some(e@),
                None => doctest_at_line(lines(source@), cursor_byte as nat) is None,
            },
    {
        let ghost lv = lines(source@);
        let cursor_line = self.byte_offset_to_line(source, cursor_byte);
        let c = chars_of(source);
        let ls = lines_of(c.as_slice());
        if cursor_line >= ls.len() {
            return Ok(None);
        }
        assert(vviews(ls@)[cursor_line as int] == ls@[cursor_line as int]@);
        if !doc_line(&ls[cursor_line]) {
            return Ok(None);
        }
        match self.find_doc_comment_block_containing_line(source, cursor_line) {
            Some((doc_start, doc_end)) => {
                let doc = join_lines(&ls, doc_start, doc_end);
                let doc_text = string_from(doc.as_slice());
                if self.contains_rust_code_blocks(doc_text.as_str()) {
                    let start_line = (doc_start + 1) as u32;
                    let end_line = (doc_end + 1) as u32;
                    let associated_item = match self.find_item_name_after_line(source, doc_end) {
                        Some(n) => n,
                        None => doctest_label(start_line, end_line),
                    };
                    let full_path = associated_item.clone();
                    Ok(
                        Some(
                            EntryPoint {
                                name: associated_item,
                                entry_type: EntryPointType::DocTest,
                                line: start_line,
                                column: 0,
                                line_range: (start_line, end_line),
                                full_path: Some(full_path),
                            },
                        ),
                    )
                } else {
                    Ok(None)
                }
            },
            None => Ok(None),
        }
    }

    /// The name of the outermost function, struct, enum or impl item, from
    /// `node` down, that spans the byte offset.
    fn find_item_at_cursor(&self, node: &SyntaxNode, cursor_byte: usize) -> (r: RazResult<
        Option<String>,
    >)
        ensures
            r is Ok,
            match r->Ok_0 {
                Some(s) => item_at(*node, cursor_byte as nat) == Some(s@),
                None => item_at(*node, cursor_byte as nat) is None,
            },
        decreases node,
    {
        if cursor_byte >= node.start_byte && cursor_byte <= node.end_byte {
            if is_kind(node, "function_item") {
                match self.get_function_name(node) {
                    Ok(name) => {
                        return Ok(Some(name));
                    },
                    Err(_) => {},
                }
            } else if is_kind(node, "struct_item") {
                match self.get_struct_name(node) {
                    Ok(name) => {
                        return Ok(Some(name));
                    },
                    Err(_) => {},
                }
            } else if is_kind(node, "enum_item") {
                match self.get_enum_name(node) {
                    Ok(name) => {
                        return Ok(Some(name));
                    },
                    Err(_) => {},
                }
            } else if is_kind(node, "impl_item") {
                match self.get_impl_target_name(node) {
                    Ok(name) => {
                        return Ok(Some(name));
                    },
                    Err(_) => {},
                }
            }
            let mut i: usize = 0;
            while i < node.children.len()
                invariant
                    i <= node.children@.len(),
                    item_at(*node, cursor_byte as nat) == item_at_from(*node, i as nat, cursor_byte as nat),
                decreases node.children.len() - i,
            {
                let found = self.find_item_at_cursor(&node.children[i], cursor_byte)?;
                match found {
                    Some(name) => {
                        return Ok(Some(name));
                    },
                    None => {},
                }
                i += 1;
            }
        }
        Ok(None)
    }

    /// Records the test module and test function, from `node` down, that
    /// span the cursor's byte offset; the stack holds the names of the
    /// enclosing modules.
    fn find_context_recursive(
        &self,
        node: &SyntaxNode,
        prev: Option<&SyntaxNode>,
        cursor_byte: usize,
        context: &mut TestContext,
        module_stack: &mut Vec<String>,
    ) -> (r: RazResult<()>)
        ensures
            match context_walk(
                *node,
                deref_node(prev),
                cursor_byte as nat,
                views(old(module_stack)@),
                old(context)@,
            ) {
                None => r is Err,
                Some(c) => r is Ok && final(context)@ == c && final(module_stack)@ == old(
                    module_stack,
                )@,
            },
        decreases node, 1nat,
    {
        let ghost stack = views(module_stack@);
        if !(cursor_byte >= node.start_byte && cursor_byte <= node.end_byte) {
            return Ok(());
        }
        if is_kind(node, "mod_item") {
            let module_name = self.get_module_name(node)?;
            let is_test_mod = self.is_test_module(node);
            let ghost saved = module_stack@;
            module_stack.push(module_name);
            assert(views(module_stack@) =~= stack.push(ident_of(*node)->0));
            if is_test_mod {
                let full_path = join_strings(module_stack, "::");
                let name = module_stack[module_stack.len() - 1].clone();
                context.in_test_module = Some(
                    TestModule {
                        name,
                        full_path,
                        line_range: (next_line(node.start.line), next_line(node.end.line)),
                    },
                );
            }
            let res = self.context_of_children(node, cursor_byte, context, module_stack);
            if res.is_err() {
                return res;
            }
            module_stack.pop();
            assert(module_stack@ =~= saved);
            return Ok(());
        }
        if is_kind(node, "function_item") && self.is_test_function(prev) {
            let fn_name = self.get_function_name(node)?;
            let full_path = scoped_path(module_stack, fn_name.as_str());
            context.in_test_function = Some(
                TestFunction { name: fn_name, full_path, line: next_line(node.start.line) },
            );
        }
        self.context_of_children(node, cursor_byte, context, module_stack)
    }

    /// Records the test context under each child of a node in turn.
    fn context_of_children(
        &self,
        node: &SyntaxNode,
        cursor_byte: usize,
        context: &mut TestContext,
        module_stack: &mut Vec<String>,
    ) -> (r: RazResult<()>)
        ensures
            match context_children(
                *node,
                node.children@.len(),
                cursor_byte as nat,
                views(old(module_stack)@),
                old(context)@,
            ) {
                None => r is Err,
                Some(c) => r is Ok && final(context)@ == c && final(module_stack)@ == old(
                    module_stack,
                )@,
            },
        decreases node, 0nat,
    {
        let ghost stack = views(module_stack@);
        let ghost saved = module_stack@;
        let ghost start = context@;
        let mut i: usize = 0;
        while i < node.children.len()
            invariant
                i <= node.children@.len(),
                module_stack@ == saved,
                views(module_stack@) == stack,
                stack == views(old(module_stack)@),
                start == old(context)@,
                context_children(*node, i as nat, cursor_byte as nat, stack, start) == Some(
                    context@,
                ),
            decreases node.children.len() - i,
        {
            let prev = if i >= 1 {
                Some(&node.children[i - 1])
            } else {
                None
            };
            let res = self.find_context_recursive(
                &node.children[i],
                prev,
                cursor_byte,
                context,
                module_stack,
            );
            if res.is_err() {
                proof {
                    lemma_context_children_none(
                        *node,
                        (i + 1) as nat,
                        node.children@.len(),
                        cursor_byte as nat,
                        stack,
                        start,
                    );
                }
                return res;
            }
            i += 1;
        }
        Ok(())
    }
}

/// The entry points of a source file: the tests, test modules, `main`
/// and benchmarks the tree holds, then its doc tests; `None` where the
/// source gives no tree or a module or function has no name.
pub open spec fn entry_points_of(source: Seq<char>) -> Option<Seq<EntryView>> {
    match rust_syntax_tree(source) {
        None => None,
        Some(root) => match walk_entries(root, None, seq![]) {
            None => None,
            Some(es) => Some(es + doctest_entries(root, lines(source))),
        },
    }
}

/// The test context at a cursor: `None` where the source cannot be
/// analysed, `Some(None)` outside any test module and test function.
pub open spec fn test_context_at(source: Seq<char>, cursor: Position) -> Option<
    Option<ContextView>,
> {
    match rust_syntax_tree(source) {
        None => None,
        Some(root) => match context_walk(
            root,
            None,
            byte_offset_of(source, cursor),
            seq![],
            no_context(),
        ) {
            None => None,
            Some(c) => if c.module is Some || c.function is Some {
                Some(Some(c))
            } else {
                Some(None)
            },
        },
    }
}

impl TreeSitterTestDetector {
    /// The entry points of a source file: tests, test modules, `main` and
    /// benchmarks from its syntax tree, then its doc tests.
    pub fn detect_entry_points(&mut self, source: &str, cursor: Option<Position>) -> (r: RazResult<
        Vec<EntryPoint>,
    >)
        requires
            lines(source@).len() < u32::MAX,
        ensures
            match entry_points_of(source@) {
                None => r is Err,
                Some(es) => r is Ok && entries_view(r->Ok_0@) == es,
            },
    {
        let tree = match parse_rust(source) {
            Some(t) => t,
            None => {
                return Err(RazError::analysis("Failed to parse source code"));
            },
        };
        let mut entry_points: Vec<EntryPoint> = Vec::new();
        let mut module_stack: Vec<String> = Vec::new();
        proof {
            assert(entries_view(entry_points@) =~= Seq::<EntryView>::empty());
            assert(views(module_stack@) =~= Seq::<Seq<char>>::empty());
        }
        self.walk_tree(&tree, None, &mut entry_points, &mut module_stack)?;
        self.detect_doctests(&tree, source, &mut entry_points)?;
        Ok(entry_points)
    }

    /// The test module and test function that hold the cursor, if any.
    pub fn find_test_context_at_cursor(&mut self, source: &str, cursor: Position) -> (r: RazResult<
        Option<TestContext>,
    >)
        requires
            byte_len(source@) <= usize::MAX,
        ensures
            match test_context_at(source@, cursor) {
                None => r is Err,
                Some(None) => r matches Ok(None),
                Some(Some(c)) => r matches Ok(Some(t)) && t@ == c,
            },
    {
        let tree = match parse_rust(source) {
            Some(t) => t,
            None => {
                return Err(RazError::analysis("Failed to parse source code"));
            },
        };
        let cursor_byte = self.position_to_byte_offset(source, cursor);
        let mut context = TestContext::default();
        let mut module_stack: Vec<String> = Vec::new();
        proof {
            assert(views(module_stack@) =~= Seq::<Seq<char>>::empty());
            assert(context@ == no_context());
        }
        self.find_context_recursive(&tree, None, cursor_byte, &mut context, &mut module_stack)?;
        if context.in_test_function.is_some() || context.in_test_module.is_some() {
            Ok(Some(context))
        } else {
            Ok(None)
        }
    }

    /// The doc test that goes with the cursor: none inside tests; else the
    /// doc test of the item under the cursor, or the one whose doc comment
    /// holds the cursor.
    pub fn find_doctest_at_cursor(&mut self, source: &str, cursor: Position) -> (r: RazResult<
        Option<EntryPoint>,
    >)
        requires
            byte_len(source@) <= usize::MAX,
            lines(source@).len() < u32::MAX,
        ensures
            match doctest_at_cursor(source@, cursor) {
                None => r is Err,
                Some(None) => r matches Ok(None),
                Some(Some(e)) => r matches Ok(Some(x)) && x@ == e,
            },
    {
        let tree = match parse_rust(source) {
            Some(t) => t,
            None => {
                return Err(RazError::analysis("Failed to parse source code"));
            },
        };
        match self.find_test_context_at_cursor(source, cursor)? {
            Some(test_context) => {
                if test_context.in_test_function.is_some() || test_context.in_test_module.is_some() {
                    return Ok(None);
                }
            },
            None => {},
        }
        let cursor_byte = self.position_to_byte_offset(source, cursor);
        let ghost ls = lines(source@);
        match self.find_item_at_cursor(&tree, cursor_byte)? {
            Some(associated_item) => {
                let mut entry_points: Vec<EntryPoint> = Vec::new();
                assert(entries_view(entry_points@) =~= Seq::<EntryView>::empty());
                self.detect_doctests(&tree, source, &mut entry_points)?;
                let ghost es = entries_view(entry_points@);
                let ghost answer = match doctest_for(es, associated_item@, 0) {
                    Some(e) => Some(Some(e)),
                    None => Some(doctest_at_line(lines(source@), cursor_byte as nat)),
                };
                assert(doctest_at_cursor(source@, cursor) == answer);
                let mut k: usize = 0;
                while k < entry_points.len()
                    invariant
                        k <= entry_points@.len(),
                        es == entries_view(entry_points@),
                        doctest_at_cursor(source@, cursor) == answer,
                        answer == match doctest_for(es, associated_item@, 0) {
                            Some(e) => Some(Some(e)),
                            None => Some(doctest_at_line(lines(source@), cursor_byte as nat)),
                        },
                        doctest_for(es, associated_item@, 0) == doctest_for(
                            es,
                            associated_item@,
                            k as int,
                        ),
                    decreases entry_points.len() - k,
                {
                    let ep = &entry_points[k];
                    assert(es[k as int] == ep@);
                    let matches_item = match &ep.full_path {
                        Some(p) => str_eq(p.as_str(), associated_item.as_str()),
                        None => false,
                    };
                    if ep.entry_type == EntryPointType::DocTest && matches_item {
                        return Ok(Some(copy_entry(ep)));
                    }
                    k += 1;
                }
            },
            None => {},
        }
        self.find_doctest_containing_cursor(source, cursor_byte)
    }
}

/// A copy of an entry point.
fn copy_entry(e: &EntryPoint) -> (r: EntryPoint)
    ensures
        r@ == e@,
{
    EntryPoint {
        name: e.name.clone(),
        entry_type: e.entry_type,
        line: e.line,
        column: e.column,
        line_range: e.line_range,
        full_path: match &e.full_path {
            Some(p) => Some(p.clone()),
            None => None,
        },
    }
}

/// The lines from `a` to `e` are doc comment or blank lines.
pub open spec fn doc_or_blank_between(ls: Seq<Seq<char>>, a: int, e: int) -> bool {
    forall|j: int| a <= j <= e ==> is_doc_line(#[trigger] trim(ls[j])) || trim(ls[j]).len() == 0
}

proof fn lemma_scan_doc_up_block(ls: Seq<Seq<char>>, item_line: int, i: int, found: Option<(int, int)>)
    requires
        -1 <= i < item_line <= ls.len(),
        found matches Some(f) ==> i < f.0 <= f.1 < item_line && is_doc_line(trim(ls[f.0]))
            && is_doc_line(trim(ls[f.1])) && doc_or_blank_between(ls, i + 1, f.1),
    ensures
        scan_doc_up(ls, i, found) matches Some(b) ==> 0 <= b.0 <= b.1 < item_line && is_doc_line(
            trim(ls[b.0]),
        ) && is_doc_line(trim(ls[b.1])) && doc_or_blank_between(ls, b.0, b.1),
    decreases i + 1,
{
    if i >= 0 {
        let t = trim(ls[i]);
        if is_doc_line(t) {
            let end = match found {
                Some(f) => f.1,
                None => i,
            };
            lemma_scan_doc_up_block(ls, item_line, i - 1, Some((i, end)));
        } else if found is Some && t.len() > 0 {
        } else {
            lemma_scan_doc_up_block(ls, item_line, i - 1, found);
        }
    }
}

/// The doc comment block found above an item lies above it, starts and
/// ends with doc comment lines, and holds nothing but doc comment and
/// blank lines.
pub proof fn lemma_doc_block_before_is_doc_comment(ls: Seq<Seq<char>>, item_line: int)
    ensures
        doc_block_before(ls, item_line) matches Some(b) ==> 0 <= b.0 <= b.1 < item_line
            && is_doc_line(trim(ls[b.0])) && is_doc_line(trim(ls[b.1])) && doc_or_blank_between(
            ls,
            b.0,
            b.1,
        ),
{
    if item_line > 0 && item_line < ls.len() {
        lemma_scan_doc_up_block(ls, item_line, item_line - 1, None);
    }
}

/// The node `m` is `n` or lies under it.
pub open spec fn subtree_has(n: SyntaxNode, m: SyntaxNode) -> bool
    decreases n, n.children@.len() + 1,
{
    n == m || children_have(n, n.children@.len(), m)
}

/// The node `m` lies under one of the first `k` children of `n`.
pub open spec fn children_have(n: SyntaxNode, k: nat, m: SyntaxNode) -> bool
    decreases n, k,
{
    if k == 0 || k > n.children@.len() {
        false
    } else {
        children_have(n, (k - 1) as nat, m) || subtree_has(n.children@[k - 1], m)
    }
}

/// A function item under `n` that spans the byte offset gives the test
/// function's name and line.
pub open spec fn spanning_function(n: SyntaxNode, f: (Seq<char>, Seq<char>, u32), cb: nat) -> bool {
    exists|m: SyntaxNode|
        #[trigger] subtree_has(n, m) && m.kind@ == "function_item"@ && m.start_byte <= cb
            <= m.end_byte && ident_of(m) == Some(f.0) && line_after(m.start.line) == f.2
}

/// A module item under `n` that spans the byte offset gives the test
/// module's name and lines.
pub open spec fn spanning_module(n: SyntaxNode, md: (Seq<char>, Seq<char>, (u32, u32)), cb: nat) -> bool {
    exists|m: SyntaxNode|
        #[trigger] subtree_has(n, m) && m.kind@ == "mod_item"@ && m.start_byte <= cb <= m.end_byte
            && ident_of(m) == Some(md.0) && md.2 == (line_after(m.start.line), line_after(
            m.end.line,
        ))
}

proof fn lemma_child_in_subtree(n: SyntaxNode, i: int, k: nat, m: SyntaxNode)
    requires
        0 <= i < k <= n.children@.len(),
        subtree_has(n.children@[i], m),
    ensures
        children_have(n, k, m),
    decreases k,
{
    if k - 1 > i {
        lemma_child_in_subtree(n, i, (k - 1) as nat, m);
    }
}

/// What the walk finds it finds in the subtree: a test function or test
/// module it reports spans the cursor there.
proof fn lemma_context_walk_spans(
    n: SyntaxNode,
    prev: Option<SyntaxNode>,
    cb: nat,
    stack: Seq<Seq<char>>,
    acc: ContextView,
)
    ensures
        context_walk(n, prev, cb, stack, acc) matches Some(c) ==> (c.function == acc.function || (
        c.function matches Some(f) && spanning_function(n, f, cb))) && (c.module == acc.module || (
        c.module matches Some(md) && spanning_module(n, md, cb))),
    decreases n, n.children@.len() + 1,
{
    if n.start_byte <= cb <= n.end_byte {
        if n.kind@ == "mod_item"@ {
            match ident_of(n) {
                None => {},
                Some(name) => {
                    let inner = stack.push(name);
                    let acc2 = if is_test_module_spec(n) {
                        ContextView {
                            module: Some(
                                (
                                    name,
                                    join(inner, "::"@),
                                    (line_after(n.start.line), line_after(n.end.line)),
                                ),
                            ),
                            ..acc
                        }
                    } else {
                        acc
                    };
                    lemma_context_children_spans(n, n.children@.len(), cb, inner, acc2);
                    assert(subtree_has(n, n));
                },
            }
        } else if n.kind@ == "function_item"@ && is_test_function_spec(prev) {
            match ident_of(n) {
                None => {},
                Some(name) => {
                    let acc2 = ContextView {
                        function: Some((name, scoped(stack, name), line_after(n.start.line))),
                        ..acc
                    };
                    lemma_context_children_spans(n, n.children@.len(), cb, stack, acc2);
                    assert(subtree_has(n, n));
                },
            }
        } else {
            lemma_context_children_spans(n, n.children@.len(), cb, stack, acc);
        }
    }
}

proof fn lemma_context_children_spans(
    n: SyntaxNode,
    k: nat,
    cb: nat,
    stack: Seq<Seq<char>>,
    acc: ContextView,
)
    ensures
        context_children(n, k, cb, stack, acc) matches Some(c) ==> (c.function == acc.function || (
        c.function matches Some(f) && spanning_function(n, f, cb))) && (c.module == acc.module || (
        c.module matches Some(md) && spanning_module(n, md, cb))),
    decreases n, k,
{
    if k > 0 && k <= n.children@.len() {
        lemma_context_children_spans(n, (k - 1) as nat, cb, stack, acc);
        match context_children(n, (k - 1) as nat, cb, stack, acc) {
            None => {},
            Some(a) => {
                let prev = if k >= 2 {
                    Some(n.children@[k - 2])
                } else {
                    None
                };
                let child = n.children@[k - 1];
                lemma_context_walk_spans(child, prev, cb, stack, a);
                match context_walk(child, prev, cb, stack, a) {
                    None => {},
                    Some(c) => {
                        if c.function != a.function {
                            let f = c.function->0;
                            let m = choose|m: SyntaxNode|
                                #[trigger] subtree_has(child, m) && m.kind@ == "function_item"@
                                    && m.start_byte <= cb <= m.end_byte && ident_of(m) == Some(f.0)
                                    && line_after(m.start.line) == f.2;
                            lemma_child_in_subtree(n, k - 1, n.children@.len(), m);
                            assert(subtree_has(n, m));
                        } else if a.function != acc.function {
                            let f = a.function->0;
                            assert(spanning_function(n, f, cb));
                        }
                        if c.module != a.module {
                            let md = c.module->0;
                            let m = choose|m: SyntaxNode|
                                #[trigger] subtree_has(child, m) && m.kind@ == "mod_item"@
                                    && m.start_byte <= cb <= m.end_byte && ident_of(m) == Some(md.0)
                                    && md.2 == (line_after(m.start.line), line_after(m.end.line));
                            lemma_child_in_subtree(n, k - 1, n.children@.len(), m);
                            assert(subtree_has(n, m));
                        }
                    },
                }
            },
        }
    }
}

/// Cursor awareness: the test function and the test module found for a
/// cursor are items of the file's syntax tree that span the cursor's byte
/// offset, and they carry those items' names and lines.
pub proof fn lemma_test_context_spans_cursor(source: Seq<char>, cursor: Position)
    ensures
        test_context_at(source, cursor) matches Some(Some(c)) ==> ({
            let root = rust_syntax_tree(source)->0;
            let cb = byte_offset_of(source, cursor);
            &&& c.function matches Some(f) ==> spanning_function(root, f, cb)
            &&& c.module matches Some(md) ==> spanning_module(root, md, cb)
        }),
{
    match rust_syntax_tree(source) {
        None => {},
        Some(root) => {
            lemma_context_walk_spans(root, None, byte_offset_of(source, cursor), seq![], no_context());
        },
    }
}

/// Some name on the stack is `name`.
fn stack_has(stack: &Vec<String>, name: &str) -> (r: bool)
    ensures
        r == views(stack@).contains(name@),
{
    let mut i: usize = 0;
    while i < stack.len()
        invariant
            i <= stack@.len(),
            forall|j: int| 0 <= j < i ==> stack@[j]@ != name@,
        decreases stack.len() - i,
    {
        if str_eq(stack[i].as_str(), name) {
            assert(views(stack@)[i as int] == name@);
            return true;
        }
        i += 1;
    }
    proof {
        if views(stack@).contains(name@) {
            let j = choose|j: int| 0 <= j < views(stack@).len() && views(stack@)[j] == name@;
            assert(stack@[j]@ == name@);
        }
    }
    false
}

} // verus!
