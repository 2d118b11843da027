//! Project and file context: the data the command generators read, cursor
//! positions, test contexts and source-text analysis.

use crate::error::{RazError, RazResult};
use crate::paths::{extension, last_index_exec, last_index_of, lemma_last_index_props, path_extension};
use crate::text::{
    chars_of, find, find_seq, has_suffix, join, join_strings, lines, lines_of,
    starts_with_seq, ends_with_seq, string_from, sub_vec, trim, trim_vec, views,
    vviews, owned, split, split_seq, seq_eq,
};
use vstd::prelude::*;

verus! {

/// Cursor position in a file.
#[derive(Debug, Clone, Copy, PartialEq, Eq, Structural, PartialOrd, Ord, Hash)]
pub struct Position {
    pub line: u32,
    pub column: u32,
}

/// Range in a file.
#[derive(Debug, Clone, Copy, PartialEq, Eq, Structural, Hash)]
pub struct Range {
    pub start: Position,
    pub end: Position,
}

/// The order of positions: by line, then by column.
pub open spec fn pos_le(a: Position, b: Position) -> bool {
    a.line < b.line || (a.line == b.line && a.column <= b.column)
}

pub fn position_le(a: Position, b: Position) -> (r: bool)
    ensures
        r == pos_le(a, b),
{
    a.line < b.line || (a.line == b.line && a.column <= b.column)
}

/// Positions are totally ordered.
pub proof fn lemma_pos_le_total_order(a: Position, b: Position, c: Position)
    ensures
        pos_le(a, a),
        pos_le(a, b) || pos_le(b, a),
        pos_le(a, b) && pos_le(b, a) ==> a == b,
        pos_le(a, b) && pos_le(b, c) ==> pos_le(a, c),
{
}

impl Range {
    pub open spec fn spec_contains(self, p: Position) -> bool {
        pos_le(self.start, p) && pos_le(p, self.end)
    }

    pub fn contains(&self, position: Position) -> (r: bool)
        ensures
            r == self.spec_contains(position),
    {
        position_le(self.start, position) && position_le(position, self.end)
    }

    pub fn contains_position(&self, position: Position) -> (r: bool)
        ensures
            r == self.spec_contains(position),
    {
        self.contains(position)
    }
}

/// A range contains both its ends exactly when it is not empty.
pub proof fn lemma_range_contains_ends(r: Range)
    ensures
        pos_le(r.start, r.end) <==> r.spec_contains(r.start),
        pos_le(r.start, r.end) <==> r.spec_contains(r.end),
{
}

/// Types of projects that can be detected.
#[derive(Debug, PartialEq, Eq)]
pub enum ProjectType {
    Binary,
    Library,
    Workspace,
    Leptos,
    Dioxus,
    Axum,
    Bevy,
    Tauri,
    Yew,
    Mixed(Vec<ProjectType>),
}

/// Programming language of a file.
#[derive(Debug, Clone, Copy, PartialEq, Eq, Structural)]
pub enum Language {
    Rust,
    Toml,
    Json,
    Yaml,
    Markdown,
    Unknown,
}

pub open spec fn language_of_extension(e: Option<Seq<char>>) -> Language {
    match e {
        Some(x) => if x == "rs"@ {
            Language::Rust
        } else if x == "toml"@ {
            Language::Toml
        } else if x == "json"@ {
            Language::Json
        } else if x == "yaml"@ || x == "yml"@ {
            Language::Yaml
        } else if x == "md"@ {
            Language::Markdown
        } else {
            Language::Unknown
        },
        None => Language::Unknown,
    }
}

impl Language {
    /// The language of a file, by the extension of its path.
    pub fn from_path(path: &str) -> (r: Language)
        ensures
            r == language_of_extension(extension(path@)),
    {
        match path_extension(path) {
            Some(e) => {
                let x = e.as_str();
                if crate::text::str_eq(x, "rs") {
                    Language::Rust
                } else if crate::text::str_eq(x, "toml") {
                    Language::Toml
                } else if crate::text::str_eq(x, "json") {
                    Language::Json
                } else if crate::text::str_eq(x, "yaml") || crate::text::str_eq(x, "yml") {
                    Language::Yaml
                } else if crate::text::str_eq(x, "md") {
                    Language::Markdown
                } else {
                    Language::Unknown
                }
            },
            None => Language::Unknown,
        }
    }
}

/// Types of symbols that can be detected.
#[derive(Debug, Clone, Copy, PartialEq, Eq, Structural)]
pub enum SymbolKind {
    Function,
    Struct,
    Enum,
    Trait,
    Module,
    Test,
    Impl,
    Constant,
    Static,
    TypeAlias,
    Macro,
    Variable,
}

/// Symbol visibility.
#[derive(Debug, Clone, Copy, PartialEq, Eq, Structural)]
pub enum Visibility {
    Public,
    Private,
    Crate,
    Super,
}

/// A symbol found in source code.
#[derive(Debug, PartialEq, Eq)]
pub struct Symbol {
    pub name: String,
    pub kind: SymbolKind,
    pub range: Range,
    pub modifiers: Vec<String>,
    pub children: Vec<Symbol>,
    pub metadata: Vec<(String, String)>,
}

/// An import statement.
#[derive(Debug, Clone, PartialEq, Eq)]
pub struct Import {
    pub path: String,
    pub alias: Option<String>,
    pub items: Vec<String>,
}

/// A dependency of the project.
#[derive(Debug, Clone, PartialEq, Eq)]
pub struct Dependency {
    pub name: String,
    pub version: String,
    pub features: Vec<String>,
    pub optional: bool,
    pub dev_dependency: bool,
}

/// A member of a workspace.
#[derive(Debug, PartialEq, Eq)]
pub struct WorkspaceMember {
    pub name: String,
    pub path: String,
    pub package_type: ProjectType,
}

/// Types of build targets.
#[derive(Debug, Clone, Copy, PartialEq, Eq, Structural)]
pub enum TargetType {
    Binary,
    Library,
    Example,
    Test,
    Bench,
}

/// A build target of the project.
#[derive(Debug, Clone, PartialEq, Eq)]
pub struct BuildTarget {
    pub name: String,
    pub target_type: TargetType,
    pub path: String,
}

/// File-specific context information.
#[derive(Debug)]
pub struct FileContext {
    pub path: String,
    pub language: Language,
    pub symbols: Vec<Symbol>,
    pub imports: Vec<Import>,
    pub cursor_symbol: Option<Symbol>,
    pub module_name: Option<String>,
}

/// Project context containing all relevant information for command generation.
#[derive(Debug)]
pub struct ProjectContext {
    pub workspace_root: String,
    pub current_file: Option<FileContext>,
    pub cursor_position: Option<Position>,
    pub project_type: ProjectType,
    pub dependencies: Vec<Dependency>,
    pub workspace_members: Vec<WorkspaceMember>,
    pub build_targets: Vec<BuildTarget>,
    pub active_features: Vec<String>,
    pub env_vars: Vec<(String, String)>,
}

/// What was found on the file system about the paths that conditions ask
/// about: the paths that exist, the glob patterns that matched a file, the
/// readable files with their contents, and the operating system's name.
#[derive(Debug, Clone)]
pub struct FileFacts {
    pub existing_paths: Vec<String>,
    pub matched_patterns: Vec<String>,
    pub file_contents: Vec<(String, String)>,
    pub platform: String,
}

impl FileFacts {
    /// Facts under which no path exists, no pattern matches and no file can be read.
    pub fn none() -> (r: FileFacts)
        ensures
            r.existing_paths@.len() == 0,
            r.matched_patterns@.len() == 0,
            r.file_contents@.len() == 0,
            r.platform@.len() == 0,
    {
        FileFacts {
            existing_paths: Vec::new(),
            matched_patterns: Vec::new(),
            file_contents: Vec::new(),
            platform: String::new(),
        }
    }

    pub open spec fn path_exists(self, p: Seq<char>) -> bool {
        views(self.existing_paths@).contains(p)
    }

    pub open spec fn pattern_matches(self, p: Seq<char>) -> bool {
        views(self.matched_patterns@).contains(p)
    }

    /// The file at `p` was read and its text contains `needle`.
    pub open spec fn file_contains(self, p: Seq<char>, needle: Seq<char>) -> bool {
        exists|i: int|
            0 <= i < self.file_contents@.len() && self.file_contents@[i].0@ == p
                && crate::text::has_sub(self.file_contents@[i].1@, needle)
    }
}

/// The symbols that surround a cursor position.
#[derive(Debug)]
pub struct SymbolContext {
    /// The function containing the cursor (if any)
    pub in_function: Option<Symbol>,
    /// The test function containing the cursor (if any)
    pub in_test_function: Option<Symbol>,
    /// The struct containing the cursor (if any)
    pub in_struct: Option<Symbol>,
    /// The enum containing the cursor (if any)
    pub in_enum: Option<Symbol>,
    /// The trait containing the cursor (if any)
    pub in_trait: Option<Symbol>,
    /// The module containing the cursor (if any)
    pub in_module: Option<Symbol>,
    /// The impl block containing the cursor (if any)
    pub in_impl: Option<Symbol>,
}

impl Default for SymbolContext {
    fn default() -> (r: Self)
        ensures
            r.in_function is None && r.in_test_function is None && r.in_struct is None
                && r.in_enum is None && r.in_trait is None && r.in_module is None
                && r.in_impl is None,
    {
        SymbolContext {
            in_function: None,
            in_test_function: None,
            in_struct: None,
            in_enum: None,
            in_trait: None,
            in_module: None,
            in_impl: None,
        }
    }
}

/// A test function found in a source file.
#[derive(Debug)]
pub struct TestFunction {
    pub name: String,
    pub full_path: String,
    pub line: u32,
}

/// Test target types for enhanced test command generation.
#[derive(Debug, Clone, PartialEq, Eq)]
pub enum TestTargetType {
    Lib,
    Bin(String),
    Test(String),
    Bench(String),
    Example(String),
}

/// Enhanced test context for precise command generation.
#[derive(Debug, Clone, PartialEq, Eq)]
pub struct TestContext {
    pub package_name: Option<String>,
    pub target_type: TestTargetType,
    pub module_parts: Vec<String>,
    pub test_name: Option<String>,
    pub features: Vec<String>,
    pub env_vars: Vec<(String, String)>,
    pub working_dir: Option<String>,
}

pub open spec fn opt_view(o: Option<String>) -> Option<Seq<char>> {
    match o {
        Some(s) => Some(s@),
        None => None,
    }
}

impl TestContext {
    /// `module_parts` joined with `::`, when it is not empty.
    pub open spec fn spec_module_path_string(self) -> Option<Seq<char>> {
        if self.module_parts@.len() == 0 {
            None
        } else {
            Some(join(views(self.module_parts@), "::"@))
        }
    }

    /// Module path and test name joined with `::`.
    pub open spec fn spec_full_test_path(self) -> Option<Seq<char>> {
        match (self.spec_module_path_string(), opt_view(self.test_name)) {
            (Some(m), Some(t)) => Some(m + "::"@ + t),
            (None, Some(t)) => Some(t),
            (Some(m), None) => Some(m),
            (None, None) => None,
        }
    }

    /// Create a new empty test context.
    pub fn new() -> (r: Self)
        ensures
            r.package_name is None,
            r.target_type == TestTargetType::Lib,
            r.module_parts@.len() == 0,
            r.test_name is None,
            r.features@.len() == 0,
            r.env_vars@.len() == 0,
            r.working_dir is None,
    {
        TestContext {
            package_name: None,
            target_type: TestTargetType::Lib,
            module_parts: Vec::new(),
            test_name: None,
            features: Vec::new(),
            env_vars: Vec::new(),
            working_dir: None,
        }
    }

    /// The full module path as a string, e.g. `middleware::csrf::tests`.
    pub fn module_path_string(&self) -> (r: Option<String>)
        ensures
            opt_view(r) == self.spec_module_path_string(),
    {
        if self.module_parts.len() == 0 {
            None
        } else {
            Some(join_strings(&self.module_parts, "::"))
        }
    }

    /// The full test path including module and test name.
    pub fn full_test_path(&self) -> (r: Option<String>)
        ensures
            opt_view(r) == self.spec_full_test_path(),
            opt_view(r) == full_test_path_of(self@),
    {
        match (self.module_path_string(), &self.test_name) {
            (Some(module), Some(test)) => {
                let mut s = module;
                s.append("::");
                s.append(test.as_str());
                Some(s)
            },
            (None, Some(test)) => Some(test.clone()),
            (Some(module), None) => Some(module),
            (None, None) => None,
        }
    }

    /// Whether this context has enough information for a precise test command.
    pub fn is_precise(&self) -> (r: bool)
        ensures
            r == (self.test_name is Some || self.module_parts@.len() > 0),
    {
        self.test_name.is_some() || self.module_parts.len() != 0
    }
}

/// A test target with its name as a character sequence.
pub enum TargetView {
    Lib,
    Bin(Seq<char>),
    Test(Seq<char>),
    Bench(Seq<char>),
    Example(Seq<char>),
}

pub open spec fn target_view(t: TestTargetType) -> TargetView {
    match t {
        TestTargetType::Lib => TargetView::Lib,
        TestTargetType::Bin(n) => TargetView::Bin(n@),
        TestTargetType::Test(n) => TargetView::Test(n@),
        TestTargetType::Bench(n) => TargetView::Bench(n@),
        TestTargetType::Example(n) => TargetView::Example(n@),
    }
}

/// A test context with every text as a character sequence.
pub struct TestContextView {
    pub package_name: Option<Seq<char>>,
    pub target: TargetView,
    pub module_parts: Seq<Seq<char>>,
    pub test_name: Option<Seq<char>>,
    pub features: Seq<Seq<char>>,
    pub env_vars: Seq<(Seq<char>, Seq<char>)>,
    pub working_dir: Option<Seq<char>>,
}

impl View for TestContext {
    type V = TestContextView;

    open spec fn view(&self) -> TestContextView {
        TestContextView {
            package_name: opt_view(self.package_name),
            target: target_view(self.target_type),
            module_parts: views(self.module_parts@),
            test_name: opt_view(self.test_name),
            features: views(self.features@),
            env_vars: self.env_vars@.map_values(|p: (String, String)| (p.0@, p.1@)),
            working_dir: opt_view(self.working_dir),
        }
    }
}

/// Module path and test name joined with `::`, over the view.
pub open spec fn full_test_path_of(v: TestContextView) -> Option<Seq<char>> {
    let m = if v.module_parts.len() == 0 {
        None
    } else {
        Some(join(v.module_parts, "::"@))
    };
    match (m, v.test_name) {
        (Some(m), Some(t)) => Some(m + "::"@ + t),
        (None, Some(t)) => Some(t),
        (Some(m), None) => Some(m),
        (None, None) => None,
    }
}

/// The segments of a path that name modules: a segment named exactly
/// `main` names none.
pub open spec fn module_segments(parts: Seq<Seq<char>>) -> Seq<Seq<char>>
    decreases parts.len(),
{
    if parts.len() == 0 {
        parts
    } else if parts.last() == "main"@ {
        module_segments(parts.drop_last())
    } else {
        module_segments(parts.drop_last()).push(parts.last())
    }
}

/// The module path a source file stands for, from its path under `src/`:
/// the segments after `src/`, the last without `.rs`, joined with `::`,
/// leaving out each segment named `main`; none where no segment is left.
pub open spec fn module_path_of(p: Seq<char>) -> Option<Seq<char>> {
    match find(p, "src/"@) {
        Some(k) => {
            let rel = p.subrange(k + 4, p.len() as int);
            if has_suffix(rel, ".rs"@) {
                let w = rel.subrange(0, rel.len() - 3);
                let segs = module_segments(split(w, "/"@));
                if segs.len() == 0 {
                    None
                } else {
                    Some(join(segs, "::"@))
                }
            } else {
                None
            }
        },
        None => None,
    }
}

/// The body of a `use` line: what stands between `use ` and the final `;`.
pub open spec fn use_body(line: Seq<char>) -> Option<Seq<char>> {
    if line.len() >= 5 && line.subrange(0, 4) == "use "@ && line.last() == ';' {
        Some(line.subrange(4, line.len() - 1))
    } else {
        None
    }
}

/// Splitting comma-separated import items at commas outside braces, each
/// item trimmed and empty items dropped; the scan state is the depth of
/// braces, the current item and the items so far.
pub open spec fn items_scan(
    s: Seq<char>,
    i: int,
    depth: int,
    cur: Seq<char>,
    items: Seq<Seq<char>>,
) -> Seq<Seq<char>>
    decreases s.len() - i,
{
    if i < 0 || i >= s.len() {
        if trim(cur).len() > 0 {
            items.push(trim(cur))
        } else {
            items
        }
    } else {
        let c = s[i];
        if c == '{' {
            items_scan(s, i + 1, depth + 1, cur.push(c), items)
        } else if c == '}' {
            items_scan(s, i + 1, depth - 1, cur.push(c), items)
        } else if c == ',' && depth == 0 {
            items_scan(
                s,
                i + 1,
                depth,
                seq![],
                if trim(cur).len() > 0 {
                    items.push(trim(cur))
                } else {
                    items
                },
            )
        } else {
            items_scan(s, i + 1, depth, cur.push(c), items)
        }
    }
}

pub open spec fn import_items(s: Seq<char>) -> Seq<Seq<char>> {
    items_scan(s, 0, 0, seq![], seq![])
}

/// A braced `use` whose closing brace stands before its opening `::{`,
/// which the slicing of the statement cannot take apart.
pub open spec fn use_body_malformed(u: Seq<char>) -> bool {
    !has_suffix(u, "::*"@) && match (find(u, "::{"@), last_index_of(u, '}')) {
        (Some(b), Some(e)) => e < b + 3,
        _ => false,
    }
}

/// What an `Import` parsed from the body `u` of a `use` line holds.
pub open spec fn import_of_body(imp: Import, u: Seq<char>) -> bool {
    if has_suffix(u, "::*"@) {
        imp.path@ == u.subrange(0, u.len() - 3) && imp.alias is None && views(imp.items@) == seq![
            "*"@,
        ]
    } else {
        match (find(u, "::{"@), last_index_of(u, '}')) {
            (Some(b), Some(e)) => imp.path@ == trim(u.subrange(0, b)) && imp.alias is None
                && views(imp.items@) == import_items(u.subrange(b + 3, e)),
            _ => match find(u, " as "@) {
                Some(a) => imp.path@ == trim(u.subrange(0, a)) && opt_view(imp.alias) == Some(
                    trim(u.subrange(a + 4, u.len() as int)),
                ) && imp.items@.len() == 0,
                None => imp.path@ == u && imp.alias is None && imp.items@.len() == 0,
            },
        }
    }
}

/// The bodies of the `use` statements among the first `k` lines
/// (trimmed), in order.
pub open spec fn use_bodies(ls: Seq<Seq<char>>, k: int) -> Seq<Seq<char>>
    decreases k,
{
    if k <= 0 || k > ls.len() {
        seq![]
    } else {
        use_bodies(ls, k - 1) + match use_body(trim(ls[k - 1])) {
            Some(u) => seq![u],
            None => seq![],
        }
    }
}

/// File analysis on source text.
pub struct FileAnalyzer {
    rust_analyzer: Option<crate::ast::RustAnalyzer>,
}

/// What analysing a Rust file gives, as values: its symbols and the symbol
/// under the cursor; `None` where the source cannot be analysed.
pub open spec fn rust_file_analysis(content: Seq<char>, cursor: Option<Position>) -> Option<
    (Seq<crate::ast::SymbolSpec>, Option<crate::ast::SymbolSpec>),
> {
    if !crate::ast::queries_compile() {
        None
    } else {
        match crate::syntax_tree::rust_syntax_tree(content) {
            None => None,
            Some(tree) => match crate::ast::symbols_spec(tree, content) {
                None => None,
                Some(syms) => Some(
                    (
                        syms,
                        match cursor {
                            Some(p) => crate::ast::best_scan(syms, p, syms.len() as int).0,
                            None => None,
                        },
                    ),
                ),
            },
        }
    }
}

/// The imports of a text's lines can be read without fault.
pub open spec fn imports_readable(content: Seq<char>) -> bool {
    forall|i: int|
        0 <= i < lines(content).len() ==> (#[trigger] use_body(trim(lines(content)[i]))
            matches Some(u) ==> !use_body_malformed(u))
}

/// Analysing a file fails: a Rust file, with a Rust analyzer at hand,
/// whose text could not be read or cannot be analysed.
pub open spec fn file_analysis_fails(
    available: bool,
    path: Seq<char>,
    content: Option<&str>,
    cursor: Option<Position>,
) -> bool {
    language_of_extension(extension(path)) == Language::Rust && available && match content {
        None => true,
        Some(c) => rust_file_analysis(c@, cursor) is None,
    }
}

/// The context of a file: for a Rust file, with a Rust analyzer at hand,
/// the symbols of its text and the symbol under the cursor; otherwise its
/// language and nothing more. Its path and module path either way.
pub open spec fn file_context_is(
    fc: FileContext,
    available: bool,
    path: Seq<char>,
    content: Option<&str>,
    cursor: Option<Position>,
) -> bool {
    &&& fc.path@ == path
    &&& opt_view(fc.module_name) == module_path_of(path)
    &&& if language_of_extension(extension(path)) == Language::Rust && available {
        &&& fc.language == Language::Rust
        &&& content matches Some(c) && rust_file_analysis(c@, cursor) matches Some((syms, at))
            && crate::ast::symbols_are(fc.symbols@, syms) && crate::ast::opt_symbol_is(
            fc.cursor_symbol,
            at,
        )
    } else {
        &&& fc.language == language_of_extension(extension(path))
        &&& fc.symbols@.len() == 0
        &&& fc.imports@.len() == 0
        &&& fc.cursor_symbol is None
    }
}

impl FileAnalyzer {
    /// An analyzer, with a Rust analyzer where its queries compile.
    pub fn new() -> (r: Self)
        ensures
            r.has_rust_analyzer() == crate::ast::queries_compile(),
    {
        FileAnalyzer { rust_analyzer: crate::ast::RustAnalyzer::new().ok() }
    }

    pub closed spec fn has_rust_analyzer(&self) -> bool {
        self.rust_analyzer is Some
    }

    /// Whether a Rust analyzer is at hand.
    pub fn rust_analyzer_available(&self) -> (r: bool)
        ensures
            r == self.has_rust_analyzer(),
    {
        self.rust_analyzer.is_some()
    }

    /// The context of a file: for a Rust file, when a Rust analyzer is at
    /// hand, its symbols, imports and the symbol under the cursor (an I/O
    /// error where the file's text could not be read); otherwise its
    /// language, no symbols or imports, and its module path.
    pub fn analyze_file(&self, path: &str, content: Option<&str>, cursor: Option<Position>) -> (r:
        RazResult<FileContext>)
        requires
            content matches Some(c) ==> imports_readable(c@),
        ensures
            r is Err <==> file_analysis_fails(self.has_rust_analyzer(), path@, content, cursor),
            r matches Ok(fc) ==> file_context_is(fc, self.has_rust_analyzer(), path@, content, cursor),
            language_of_extension(extension(path@)) == Language::Rust && self.has_rust_analyzer()
                && content is None ==> r matches Err(RazError::Io { .. }),
    {
        let language = Language::from_path(path);
        if language == Language::Rust && self.rust_analyzer.is_some() {
            self.analyze_rust_file(path, content, cursor)
        } else {
            Ok(
                FileContext {
                    path: owned(path),
                    language,
                    symbols: Vec::new(),
                    imports: Vec::new(),
                    cursor_symbol: None,
                    module_name: Self::extract_module_path(path),
                },
            )
        }
    }

    /// The context of a Rust file from its text: its symbols, imports and
    /// the symbol under the cursor.
    fn analyze_rust_file(&self, path: &str, content: Option<&str>, cursor: Option<Position>) -> (r:
        RazResult<FileContext>)
        requires
            content matches Some(c) ==> imports_readable(c@),
        ensures
            match content {
                None => r matches Err(RazError::Io { .. }),
                Some(c) => match rust_file_analysis(c@, cursor) {
                    None => r is Err,
                    Some((syms, at)) => r matches Ok(fc) && fc.path@ == path@ && fc.language
                        == Language::Rust && crate::ast::symbols_are(fc.symbols@, syms)
                        && crate::ast::opt_symbol_is(fc.cursor_symbol, at) && opt_view(
                        fc.module_name,
                    ) == module_path_of(path@),
                },
            },
    {
        let content = match content {
            Some(c) => c,
            None => {
                return Err(RazError::Io { message: owned("the file could not be read") });
            },
        };
        let mut rust_analyzer = crate::ast::RustAnalyzer::new()?;
        let tree = rust_analyzer.parse(content)?;
        let symbols = rust_analyzer.extract_symbols(&tree, content)?;
        let cursor_symbol = match cursor {
            Some(pos) => rust_analyzer.symbol_at_position(&tree, content, pos)?,
            None => None,
        };
        let imports = self.extract_imports(content);
        Ok(
            FileContext {
                path: owned(path),
                language: Language::Rust,
                symbols,
                imports,
                cursor_symbol,
                module_name: Self::extract_module_path(path),
            },
        )
    }

    /// The module path of a file from its path, e.g. `src/handlers/auth.rs`
    /// gives `handlers::auth`.
    pub fn extract_module_path(path: &str) -> (r: Option<String>)
        ensures
            opt_view(r) == module_path_of(path@),
    {
        let p = chars_of(path);
        let src = ['s', 'r', 'c', '/'];
        let dot_rs = ['.', 'r', 's'];
        let slash = ['/'];
        let main_w = ['m', 'a', 'i', 'n'];
        proof {
            reveal_strlit("src/");
            reveal_strlit(".rs");
            reveal_strlit("/");
            reveal_strlit("main");
            assert(src@ =~= "src/"@);
            assert(dot_rs@ =~= ".rs"@);
            assert(slash@ =~= "/"@);
            assert(main_w@ =~= "main"@);
        }
        match find_seq(p.as_slice(), &src) {
            Some(k) => {
                proof {
                    crate::text::lemma_first_match_props(p@, src@, 0);
                }
                let n = p.len();
                let rel = sub_vec(p.as_slice(), k + 4, n);
                if ends_with_seq(rel.as_slice(), &dot_rs) {
                    let w = sub_vec(rel.as_slice(), 0, rel.len() - 3);
                    let parts = split_seq(w.as_slice(), &slash);
                    let ghost pv = vviews(parts@);
                    let mut kept: Vec<String> = Vec::new();
                    let mut i: usize = 0;
                    while i < parts.len()
                        invariant
                            pv == vviews(parts@),
                            i <= parts@.len(),
                            main_w@ == "main"@,
                            views(kept@) == module_segments(pv.take(i as int)),
                        decreases parts.len() - i,
                    {
                        proof {
                            assert(pv.take(i + 1).drop_last() =~= pv.take(i as int));
                            assert(pv.take(i + 1).last() == parts@[i as int]@);
                        }
                        if !seq_eq(parts[i].as_slice(), &main_w) {
                            let seg = string_from(parts[i].as_slice());
                            proof {
                                crate::text::lemma_views_push(kept@, seg);
                            }
                            kept.push(seg);
                        }
                        i += 1;
                    }
                    assert(pv.take(parts@.len() as int) =~= pv);
                    if kept.len() == 0 {
                        None
                    } else {
                        Some(join_strings(&kept, "::"))
                    }
                } else {
                    None
                }
            },
            None => None,
        }
    }

    /// Parse comma-separated import items, keeping nested groups whole.
    pub fn parse_import_items(&self, items_str: &str) -> (r: Vec<String>)
        ensures
            views(r@) == import_items(items_str@),
    {
        let s = chars_of(items_str);
        items_of(s.as_slice())
    }

    /// Parse a `use` statement into an `Import`.
    pub fn parse_use_statement(&self, use_line: &str) -> (r: Option<Import>)
        requires
            use_body(use_line@) matches Some(u) ==> !use_body_malformed(u),
        ensures
            r is None <==> use_body(use_line@) is None,
            r matches Some(imp) ==> import_of_body(imp, use_body(use_line@)->0),
    {
        let l = chars_of(use_line);
        parse_use_chars(l.as_slice())
    }

    /// Imports of every line that starts with `use ` (after trimming).
    pub fn extract_imports(&self, content: &str) -> (r: Vec<Import>)
        requires
            forall|i: int|
                0 <= i < lines(content@).len() ==> (#[trigger] use_body(
                    trim(lines(content@)[i]),
                ) matches Some(u) ==> !use_body_malformed(u)),
        ensures
            r@.len() == use_bodies(lines(content@), lines(content@).len() as int).len(),
            forall|k: int|
                0 <= k < r@.len() ==> import_of_body(
                    #[trigger] r@[k],
                    use_bodies(lines(content@), lines(content@).len() as int)[k],
                ),
    {
        let c = chars_of(content);
        let ls = lines_of(c.as_slice());
        let ghost lv = vviews(ls@);
        let mut imports: Vec<Import> = Vec::new();
        let mut i: usize = 0;
        while i < ls.len()
            invariant
                i <= ls@.len(),
                lv == vviews(ls@),
                lv == lines(content@),
                forall|j: int|
                    0 <= j < lv.len() ==> (#[trigger] use_body(trim(lv[j])) matches Some(u)
                        ==> !use_body_malformed(u)),
                imports@.len() == use_bodies(lv, i as int).len(),
                forall|k: int|
                    0 <= k < imports@.len() ==> import_of_body(
                        #[trigger] imports@[k],
                        use_bodies(lv, i as int)[k],
                    ),
            decreases ls.len() - i,
        {
            let t = trim_vec(ls[i].as_slice());
            assert(lv[i as int] == ls@[i as int]@);
            let u = ['u', 's', 'e', ' '];
            proof {
                reveal_strlit("use ");
                assert(u@ =~= "use "@);
            }
            if starts_with_seq(t.as_slice(), &u) {
                assert(use_body(trim(lv[i as int])) matches Some(b) ==> !use_body_malformed(b));
                match parse_use_chars(t.as_slice()) {
                    Some(imp) => {
                        imports.push(imp);
                        assert(use_body(trim(lv[i as int])) is Some);
                    },
                    None => {},
                }
            } else {
                proof {
                    if use_body(t@) is Some {
                        assert(t@.subrange(0, 4) == "use "@);
                        assert(crate::text::has_prefix(t@, "use "@));
                    }
                }
            }
            i += 1;
        }
        imports
    }
}

fn items_of(s: &[char]) -> (r: Vec<String>)
    ensures
        views(r@) == import_items(s@),
{
    let n = s.len();
    let mut items: Vec<String> = Vec::new();
    let mut cur: Vec<char> = Vec::new();
    let mut depth: i128 = 0;
    let mut i: usize = 0;
    assert(cur@ =~= Seq::<char>::empty());
    assert(views(items@) =~= Seq::<Seq<char>>::empty());
    while i < n
        invariant
            n == s@.len(),
            i <= n,
            -(i as int) <= depth <= i,
            import_items(s@) == items_scan(s@, i as int, depth as int, cur@, views(items@)),
        decreases n - i,
    {
        let c = s[i];
        if c == '{' {
            depth = depth + 1;
            cur.push(c);
        } else if c == '}' {
            depth = depth - 1;
            cur.push(c);
        } else if c == ',' && depth == 0 {
            let t = trim_vec(cur.as_slice());
            if t.len() > 0 {
                let ts = string_from(t.as_slice());
                proof {
                    crate::text::lemma_views_push(items@, ts);
                }
                items.push(ts);
            }
            cur = Vec::new();
        } else {
            cur.push(c);
        }
        i += 1;
    }
    let t = trim_vec(cur.as_slice());
    if t.len() > 0 {
        let ts = string_from(t.as_slice());
        proof {
            crate::text::lemma_views_push(items@, ts);
        }
        items.push(ts);
    }
    items
}

fn parse_use_chars(l: &[char]) -> (r: Option<Import>)
    requires
        use_body(l@) matches Some(u) ==> !use_body_malformed(u),
    ensures
        r is None <==> use_body(l@) is None,
        r matches Some(imp) ==> import_of_body(imp, use_body(l@)->0),
{
    let n = l.len();
    if n < 5 || !(l[0] == 'u' && l[1] == 's' && l[2] == 'e' && l[3] == ' ') || l[n - 1] != ';' {
        proof {
            reveal_strlit("use ");
            if n >= 5 && l@.subrange(0, 4) == "use "@ {
                assert(l@.subrange(0, 4)[0] == 'u');
                assert(l@.subrange(0, 4)[1] == 's');
                assert(l@.subrange(0, 4)[2] == 'e');
                assert(l@.subrange(0, 4)[3] == ' ');
            }
        }
        return None;
    }
    proof {
        reveal_strlit("use ");
        assert(l@.subrange(0, 4) =~= "use "@);
    }
    let u = sub_vec(l, 4, n - 1);
    let un = u.len();
    let glob = [':', ':', '*'];
    let brace = [':', ':', '{'];
    let as_w = [' ', 'a', 's', ' '];
    proof {
        reveal_strlit("::*");
        reveal_strlit("::{");
        reveal_strlit(" as ");
        reveal_strlit("*");
        assert(glob@ =~= "::*"@);
        assert(brace@ =~= "::{"@);
        assert(as_w@ =~= " as "@);
    }
    if ends_with_seq(u.as_slice(), &glob) {
        let path = sub_vec(u.as_slice(), 0, un - 3);
        let mut items: Vec<String> = Vec::new();
        items.push(crate::text::owned("*"));
        assert(views(items@) =~= seq!["*"@]);
        return Some(Import { path: string_from(path.as_slice()), alias: None, items });
    }
    proof {
        crate::text::lemma_first_match_props(u@, brace@, 0);
        lemma_last_index_props(u@, '}');
    }
    let bs = find_seq(u.as_slice(), &brace);
    let be = last_index_exec(u.as_slice(), '}');
    if let (Some(b), Some(e)) = (bs, be) {
        let head = sub_vec(u.as_slice(), 0, b);
        let path = trim_vec(head.as_slice());
        let inner = sub_vec(u.as_slice(), b + 3, e);
        let items = items_of(inner.as_slice());
        return Some(Import { path: string_from(path.as_slice()), alias: None, items });
    }
    proof {
        crate::text::lemma_first_match_props(u@, as_w@, 0);
    }
    match find_seq(u.as_slice(), &as_w) {
        Some(a) => {
            let head = sub_vec(u.as_slice(), 0, a);
            let tail = sub_vec(u.as_slice(), a + 4, un);
            let path = trim_vec(head.as_slice());
            let alias = trim_vec(tail.as_slice());
            Some(
                Import {
                    path: string_from(path.as_slice()),
                    alias: Some(string_from(alias.as_slice())),
                    items: Vec::new(),
                },
            )
        },
        None => Some(Import { path: string_from(u.as_slice()), alias: None, items: Vec::new() }),
    }
}

impl Default for TestContext {
    /// The same context as `TestContext::new`.
    fn default() -> (r: Self)
        ensures
            r.package_name is None,
            r.target_type == TestTargetType::Lib,
            r.module_parts@.len() == 0,
            r.test_name is None,
            r.features@.len() == 0,
            r.env_vars@.len() == 0,
            r.working_dir is None,
    {
        TestContext::new()
    }
}

impl Default for FileAnalyzer {
    /// The same analyzer as `FileAnalyzer::new`.
    fn default() -> (r: Self)
        ensures
            r.has_rust_analyzer() == crate::ast::queries_compile(),
    {
        FileAnalyzer::new()
    }
}

} // verus!
