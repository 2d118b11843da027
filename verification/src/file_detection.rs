//! File detection: the execution context of a Rust file (the kind of
//! project it belongs to, its role, its entry points and what can be done
//! with it), decided from its path, its text and the manifests around it.

use crate::context::Position;
use crate::tree_sitter_test_detector::{entry_points_of, is_doc_line, TreeSitterTestDetector};
use crate::error::RazResult;
use crate::paths::{components, file_name, file_stem, join_path, path_file_name, path_file_stem, path_join};
use crate::text::{
    chars_of, contains_seq, copy_opt, copy_strings, find, find_seq, has_prefix, has_sub, join, join_strings, lines,
    lines_of, owned, regex_is_match, regex_matches, seq_eq, split, split_seq, starts_with_seq,
    str_contains, str_eq, str_starts_with, string_from, sub_vec, trim, trim_vec, views, vviews,
};
use vstd::prelude::*;

verus! {

/// Types of single Rust files.
#[derive(Debug, Clone, Copy, PartialEq, Eq, Structural)]
pub enum SingleFileType {
    /// Executable with main function
    Executable,
    /// Library with public API
    Library,
    /// Test file with test functions
    Test,
    /// Module file
    Module,
}

/// Workspace member information.
#[derive(Debug, PartialEq)]
pub struct WorkspaceMember {
    pub name: String,
    pub path: String,
    pub is_current: bool,
}

/// Different types of Rust projects and files.
#[derive(Debug, PartialEq)]
pub enum RustProjectType {
    /// Cargo workspace with multiple packages
    CargoWorkspace { root: String, members: Vec<WorkspaceMember> },
    /// Single cargo package
    CargoPackage { root: String, package_name: String },
    /// Cargo script with embedded manifest
    CargoScript { file_path: String, manifest: Option<String> },
    /// Single standalone Rust file
    SingleFile { file_path: String, file_type: SingleFileType },
}

/// Role of the specific file in the project.
#[derive(Debug, PartialEq)]
pub enum FileRole {
    /// Main binary entry point
    MainBinary { binary_name: String },
    /// Additional binary in bin/
    AdditionalBinary { binary_name: String },
    /// Library root (lib.rs)
    LibraryRoot,
    /// Frontend library in web framework
    FrontendLibrary { framework: String },
    /// Integration test
    IntegrationTest { test_name: String },
    /// Benchmark file
    Benchmark { bench_name: String },
    /// Example file
    Example { example_name: String },
    /// Build script
    BuildScript,
    /// Regular module
    Module,
    /// Standalone file
    Standalone,
}

/// Types of entry points.
#[derive(Debug, Clone, Copy, PartialEq, Eq, Structural)]
pub enum EntryPointType {
    /// main() function
    Main,
    /// Test function
    Test,
    /// Test module (when cursor is in test module but not on specific test)
    TestModule,
    /// Benchmark function
    Benchmark,
    /// Example function (in examples)
    Example,
    /// Doc test
    DocTest,
}

/// An entry point found in a file.
#[derive(Debug, PartialEq)]
pub struct EntryPoint {
    pub name: String,
    pub entry_type: EntryPointType,
    pub line: u32,
    pub column: u32,
    /// Line range of the entry point (start, end)
    pub line_range: (u32, u32),
    /// Full path for tests (e.g., "tests::it_works" for tests in a module)
    pub full_path: Option<String>,
}

/// Execution capabilities for a file or project.
#[derive(Debug, Clone, PartialEq)]
pub struct ExecutionCapabilities {
    pub can_run: bool,
    pub can_test: bool,
    pub can_bench: bool,
    pub can_doc_test: bool,
    pub requires_framework: Option<String>,
}

/// File execution context.
#[derive(Debug, PartialEq)]
pub struct FileExecutionContext {
    pub project_type: RustProjectType,
    pub file_role: FileRole,
    pub entry_points: Vec<EntryPoint>,
    pub capabilities: ExecutionCapabilities,
    pub file_path: String,
}

impl FileExecutionContext {
    /// The workspace root, if this is a cargo project.
    pub fn get_workspace_root(&self) -> (r: Option<&str>)
        ensures
            match self.project_type {
                RustProjectType::CargoWorkspace { root, .. } => r is Some && r->0@ == root@,
                RustProjectType::CargoPackage { root, .. } => r is Some && r->0@ == root@,
                _ => r is None,
            },
    {
        match &self.project_type {
            RustProjectType::CargoWorkspace { root, .. } => Some(root.as_str()),
            RustProjectType::CargoPackage { root, .. } => Some(root.as_str()),
            RustProjectType::CargoScript { .. } => None,
            RustProjectType::SingleFile { .. } => None,
        }
    }
}

/// Stateless file detector.
pub struct FileDetector {}

/// The first index in `s` of a character of `set`.
pub open spec fn find_any(s: Seq<char>, set: Seq<char>) -> Option<int>
    decreases s.len(),
{
    if s.len() == 0 {
        None
    } else {
        match find_any(s.drop_last(), set) {
            Some(i) => Some(i),
            None => if set.contains(s.last()) {
                Some(s.len() - 1)
            } else {
                None
            },
        }
    }
}

proof fn lemma_find_any_props(s: Seq<char>, set: Seq<char>)
    ensures
        match find_any(s, set) {
            Some(i) => 0 <= i < s.len() && set.contains(s[i]) && forall|j: int|
                0 <= j < i ==> !set.contains(#[trigger] s[j]),
            None => forall|j: int| 0 <= j < s.len() ==> !set.contains(#[trigger] s[j]),
        },
    decreases s.len(),
{
    if s.len() > 0 {
        lemma_find_any_props(s.drop_last(), set);
        assert forall|j: int| 0 <= j < s.len() - 1 implies s.drop_last()[j] == s[j] by {}
    }
}

/// `str::find` with a set of characters as the pattern.
fn find_any_exec(s: &[char], set: &[char]) -> (r: Option<usize>)
    ensures
        match r {
            Some(i) => find_any(s@, set@) == Some(i as int) && i < s@.len(),
            None => find_any(s@, set@) is None,
        },
{
    proof {
        lemma_find_any_props(s@, set@);
    }
    let mut i: usize = 0;
    while i < s.len()
        invariant
            i <= s@.len(),
            forall|j: int| 0 <= j < i ==> !set@.contains(#[trigger] s@[j]),
            match find_any(s@, set@) {
                Some(k) => 0 <= k < s@.len() && set@.contains(s@[k]) && forall|j: int|
                    0 <= j < k ==> !set@.contains(#[trigger] s@[j]),
                None => forall|j: int| 0 <= j < s@.len() ==> !set@.contains(#[trigger] s@[j]),
            },
        decreases s.len() - i,
    {
        let mut k: usize = 0;
        let mut hit = false;
        while k < set.len()
            invariant
                k <= set@.len(),
                i < s@.len(),
                hit <==> exists|m: int| 0 <= m < k && set@[m] == s@[i as int],
            decreases set.len() - k,
        {
            if set[k] == s[i] {
                hit = true;
            }
            k += 1;
        }
        if hit {
            return Some(i);
        }
        assert(!set@.contains(s@[i as int]));
        i += 1;
    }
    None
}

/// The name of a function declared on the line: what stands between `fn `
/// and the next `(`, trimmed, when it is not empty.
pub open spec fn function_name_of(line: Seq<char>) -> Option<Seq<char>> {
    let t = trim(line);
    match find(t, "fn "@) {
        Some(k) => {
            let part = t.subrange(k + 3, t.len() as int);
            match find(part, "("@) {
                Some(p) => {
                    let name = trim(part.subrange(0, p));
                    if name.len() > 0 {
                        Some(name)
                    } else {
                        None
                    }
                },
                None => None,
            }
        },
        None => None,
    }
}

/// The characters that end a struct name.
pub open spec fn struct_name_ends() -> Seq<char> {
    seq![' ', '<', '{', ';']
}

/// The characters that end a type name after `impl` or `for`.
pub open spec fn type_name_ends() -> Seq<char> {
    seq![' ', '{', '<']
}

/// The characters that end a module name after `mod `.
pub open spec fn module_name_ends() -> Seq<char> {
    seq![' ', '{', ';']
}

/// The part of `s` before the first character of `set`, or all of `s`.
pub open spec fn upto_any(s: Seq<char>, set: Seq<char>) -> Seq<char> {
    match find_any(s, set) {
        Some(e) => s.subrange(0, e),
        None => s,
    }
}

pub open spec fn nonempty(s: Seq<char>) -> Option<Seq<char>> {
    if s.len() > 0 {
        Some(s)
    } else {
        None
    }
}

/// The name of a struct declared on the line.
pub open spec fn struct_name_of(line: Seq<char>) -> Option<Seq<char>> {
    let t = trim(line);
    if has_prefix(t, "pub struct "@) {
        nonempty(trim(upto_any(t.subrange(11, t.len() as int), struct_name_ends())))
    } else if has_prefix(t, "struct "@) {
        nonempty(trim(upto_any(t.subrange(7, t.len() as int), struct_name_ends())))
    } else {
        None
    }
}

/// The type an `impl` line is for: after ` for ` when there is one, else
/// after `impl` (and after the generic parameters of `impl<..>`).
pub open spec fn impl_name_of(line: Seq<char>) -> Option<Seq<char>> {
    let t = trim(line);
    if !has_prefix(t, "impl"@) {
        None
    } else {
        match find(t, " for "@) {
            Some(fp) => nonempty(trim(upto_any(t.subrange(fp + 5, t.len() as int), type_name_ends()))),
            None => if has_prefix(t, "impl<"@) {
                match find(t, ">"@) {
                    Some(gt) => nonempty(
                        trim(upto_any(trim(t.subrange(gt + 1, t.len() as int)), type_name_ends())),
                    ),
                    None => None,
                }
            } else {
                nonempty(trim(upto_any(trim(t.subrange(4, t.len() as int)), type_name_ends())))
            },
        }
    }
}

fn lit(s: &str) -> (r: Vec<char>)
    ensures
        r@ == s@,
{
    chars_of(s)
}

fn nonempty_string(v: Vec<char>) -> (r: Option<String>)
    ensures
        match r {
            Some(s) => nonempty(v@) == Some(s@),
            None => nonempty(v@) is None,
        },
{
    if v.len() > 0 {
        Some(string_from(v.as_slice()))
    } else {
        None
    }
}

fn upto_any_exec(s: &[char], set: &[char]) -> (r: Vec<char>)
    ensures
        r@ == upto_any(s@, set@),
{
    match find_any_exec(s, set) {
        Some(e) => sub_vec(s, 0, e),
        None => {
            let r = sub_vec(s, 0, s.len());
            assert(s@.subrange(0, s@.len() as int) =~= s@);
            r
        },
    }
}

fn name_ends(a: char, b: char, c: char) -> (r: Vec<char>)
    ensures
        r@ == seq![a, b, c],
{
    let mut v: Vec<char> = Vec::new();
    v.push(a);
    v.push(b);
    v.push(c);
    assert(v@ =~= seq![a, b, c]);
    v
}

/// The function name on a line of characters.
fn function_name_chars(line: &[char]) -> (r: Option<String>)
    ensures
        match r {
            Some(s) => function_name_of(line@) == Some(s@),
            None => function_name_of(line@) is None,
        },
{
    let t = trim_vec(line);
    let fn_pat = lit("fn ");
    proof {
        reveal_strlit("fn ");
    }
    match find_seq(t.as_slice(), fn_pat.as_slice()) {
        Some(k) => {
            let n = t.len();
            assert(fn_pat@.len() == 3);
            let part = sub_vec(t.as_slice(), k + 3, n);
            let paren = lit("(");
            match find_seq(part.as_slice(), paren.as_slice()) {
                Some(p) => {
                    let name = trim_vec(sub_vec(part.as_slice(), 0, p).as_slice());
                    nonempty_string(name)
                },
                None => None,
            }
        },
        None => None,
    }
}

impl FileDetector {
    /// Whether the text starts with a cargo-script shebang.
    pub fn is_cargo_script(content: &str) -> (r: bool)
        ensures
            r == (has_prefix(content@, "#!/usr/bin/env -S cargo"@) || has_prefix(
                content@,
                "#!/usr/bin/env cargo"@,
            ) || has_prefix(content@, "#!/usr/bin/env cargo-eval"@) || has_prefix(
                content@,
                "#!/usr/bin/env run-cargo-script"@,
            )),
    {
        str_starts_with(content, "#!/usr/bin/env -S cargo") || str_starts_with(
            content,
            "#!/usr/bin/env cargo",
        ) || str_starts_with(content, "#!/usr/bin/env cargo-eval") || str_starts_with(
            content,
            "#!/usr/bin/env run-cargo-script",
        )
    }

    /// The name of the function declared on a line.
    pub fn extract_function_name(line: &str) -> (r: Option<String>)
        ensures
            match r {
                Some(s) => function_name_of(line@) == Some(s@),
                None => function_name_of(line@) is None,
            },
    {
        let c = chars_of(line);
        function_name_chars(c.as_slice())
    }

    /// The name of the struct declared on a line.
    pub fn extract_struct_name(line: &str) -> (r: Option<String>)
        ensures
            match r {
                Some(s) => struct_name_of(line@) == Some(s@),
                None => struct_name_of(line@) is None,
            },
    {
        let c = chars_of(line);
        let t = trim_vec(c.as_slice());
        let ends = lit(" <{;");
        proof {
            reveal_strlit(" <{;");
            assert(ends@ =~= struct_name_ends());
        }
        let start: usize = if starts_with_seq(t.as_slice(), lit("pub struct ").as_slice()) {
            11
        } else if starts_with_seq(t.as_slice(), lit("struct ").as_slice()) {
            7
        } else {
            return None;
        };
        proof {
            reveal_strlit("pub struct ");
            reveal_strlit("struct ");
        }
        let after = sub_vec(t.as_slice(), start, t.len());
        let name = trim_vec(upto_any_exec(after.as_slice(), ends.as_slice()).as_slice());
        nonempty_string(name)
    }

    /// The type that an `impl` line is for.
    pub fn extract_impl_name(line: &str) -> (r: Option<String>)
        ensures
            match r {
                Some(s) => impl_name_of(line@) == Some(s@),
                None => impl_name_of(line@) is None,
            },
    {
        let c = chars_of(line);
        let t = trim_vec(c.as_slice());
        let ends = name_ends(' ', '{', '<');
        if !starts_with_seq(t.as_slice(), lit("impl").as_slice()) {
            return None;
        }
        proof {
            reveal_strlit("impl");
        }
        proof {
            reveal_strlit(" for ");
        }
        match find_seq(t.as_slice(), lit(" for ").as_slice()) {
            Some(fp) => {
                let n = t.len();
                let after = sub_vec(t.as_slice(), fp + 5, n);
                let name = trim_vec(upto_any_exec(after.as_slice(), ends.as_slice()).as_slice());
                nonempty_string(name)
            },
            None => {
                proof {
                    reveal_strlit(">");
                }
                let rest = if starts_with_seq(t.as_slice(), lit("impl<").as_slice()) {
                    match find_seq(t.as_slice(), lit(">").as_slice()) {
                        Some(gt) => {
                            let n = t.len();
                            trim_vec(sub_vec(t.as_slice(), gt + 1, n).as_slice())
                        },
                        None => {
                            return None;
                        },
                    }
                } else {
                    trim_vec(sub_vec(t.as_slice(), 4, t.len()).as_slice())
                };
                let name = trim_vec(upto_any_exec(rest.as_slice(), ends.as_slice()).as_slice());
                nonempty_string(name)
            },
        }
    }
}

/// Whether the cargo-script manifest of the text can be cut out: the
/// character twelve places after the start of its opening line must exist
/// and be a single byte, as the text is cut one byte past that line.
pub open spec fn manifest_cut_ok(content: Seq<char>) -> bool {
    match find(content, "//! ```cargo"@) {
        Some(k) => k + 12 < content.len() && (content[k + 12] as u32) < 0x80,
        None => true,
    }
}

/// The manifest embedded in a cargo script: the text between the line
/// `//! ```cargo` (and the character after it) and the next `//! ````, trimmed.
pub open spec fn cargo_script_manifest(content: Seq<char>) -> Option<Seq<char>> {
    match find(content, "//! ```cargo"@) {
        Some(k) => {
            let rest = content.subrange(k + 13, content.len() as int);
            match find(rest, "//! ```"@) {
                Some(e) => Some(trim(rest.subrange(0, e))),
                None => None,
            }
        },
        None => None,
    }
}

/// `s` with every leading and trailing `c` removed (`str::trim_matches`).
pub open spec fn strip_char(s: Seq<char>, c: char) -> Seq<char> {
    strip_char_end(strip_char_start(s, c), c)
}

pub open spec fn strip_char_start(s: Seq<char>, c: char) -> Seq<char>
    decreases s.len(),
{
    if s.len() > 0 && s[0] == c {
        strip_char_start(s.drop_first(), c)
    } else {
        s
    }
}

pub open spec fn strip_char_end(s: Seq<char>, c: char) -> Seq<char>
    decreases s.len(),
{
    if s.len() > 0 && s.last() == c {
        strip_char_end(s.drop_last(), c)
    } else {
        s
    }
}

fn strip_char_exec(s: &[char], c: char) -> (r: Vec<char>)
    ensures
        r@ == strip_char(s@, c),
{
    let n = s.len();
    let mut a: usize = 0;
    assert(s@.subrange(0, n as int) =~= s@);
    while a < n && s[a] == c
        invariant
            a <= n,
            n == s@.len(),
            strip_char_start(s@, c) == strip_char_start(s@.subrange(a as int, n as int), c),
        decreases n - a,
    {
        assert(s@.subrange(a as int, n as int).drop_first() =~= s@.subrange(a + 1, n as int));
        a += 1;
    }
    let mut b: usize = n;
    while b > a && s[b - 1] == c
        invariant
            a <= b <= n,
            n == s@.len(),
            strip_char_start(s@, c) == s@.subrange(a as int, n as int),
            strip_char(s@, c) == strip_char_end(s@.subrange(a as int, b as int), c),
        decreases b - a,
    {
        assert(s@.subrange(a as int, b as int).drop_last() =~= s@.subrange(a as int, b - 1));
        b -= 1;
    }
    sub_vec(s, a, b)
}

/// The names listed in `members = [...]`: the text between the brackets,
/// split at commas, each part trimmed and stripped of quotes.
pub open spec fn member_names(content: Seq<char>) -> Seq<Seq<char>> {
    match find(content, "members = ["@) {
        Some(k) => {
            let section = content.subrange(k, content.len() as int);
            match find(section, "]"@) {
                Some(end) => split(section.subrange(11, end), ","@).map_values(
                    |m: Seq<char>| strip_char(strip_char(trim(m), '"'), '\''),
                ).filter(|n: Seq<char>| n.len() > 0),
                None => seq![],
            }
        },
        None => seq![],
    }
}

/// The abstract value of a workspace member: its name and path.
pub open spec fn member_view(m: WorkspaceMember) -> (Seq<char>, Seq<char>, bool) {
    (m.name@, m.path@, m.is_current)
}

pub open spec fn members_view(v: Seq<WorkspaceMember>) -> Seq<(Seq<char>, Seq<char>, bool)> {
    v.map_values(|m: WorkspaceMember| member_view(m))
}

/// The members a workspace manifest lists under `root`.
pub open spec fn workspace_members_spec(content: Seq<char>, root: Seq<char>) -> Seq<(Seq<char>, Seq<char>, bool)> {
    member_names(content).map_values(|n: Seq<char>| (n, join_path(root, n), false))
}

/// The package name in a manifest: the text after the first `name = "` up
/// to the next `"`, else `unknown`.
pub open spec fn package_name_spec(content: Seq<char>) -> Seq<char> {
    match find(content, "name = \""@) {
        Some(k) => {
            let rest = content.subrange(k + 8, content.len() as int);
            match find(rest, "\""@) {
                Some(e) => rest.subrange(0, e),
                None => "unknown"@,
            }
        },
        None => "unknown"@,
    }
}

/// A `lib.rs` under a `frontend`, `app`, `client` or `web` directory.
pub open spec fn frontend_library(path: Seq<char>) -> bool {
    file_name(path) == Some("lib.rs"@) && (has_sub(path, "/frontend/"@) || has_sub(path, "/app/"@)
        || has_sub(path, "/client/"@) || has_sub(path, "/web/"@))
}

/// The web framework named by the nearest manifest (given for each
/// enclosing directory, nearest first) that mentions one.
pub open spec fn web_framework_spec(manifests: Seq<Option<Seq<char>>>) -> Seq<char>
    decreases manifests.len(),
{
    if manifests.len() == 0 {
        "unknown"@
    } else {
        match manifests[0] {
            Some(m) => if has_sub(m, "leptos"@) {
                "leptos"@
            } else if has_sub(m, "dioxus"@) {
                "dioxus"@
            } else if has_sub(m, "yew"@) {
                "yew"@
            } else {
                web_framework_spec(manifests.drop_first())
            },
            None => web_framework_spec(manifests.drop_first()),
        }
    }
}

pub open spec fn opt_views(v: Seq<Option<String>>) -> Seq<Option<Seq<char>>> {
    v.map_values(|o: Option<String>| match o {
        Some(s) => Some(s@),
        None => None,
    })
}

/// The name of a `src/main.rs` binary: the package name in the manifest two
/// directories up, else `main`.
pub open spec fn binary_name_spec(manifests: Seq<Option<Seq<char>>>) -> Seq<char> {
    if manifests.len() >= 2 && manifests[1] is Some {
        package_name_spec(manifests[1]->0)
    } else {
        "main"@
    }
}

impl FileDetector {
    /// The manifest embedded in a cargo script.
    pub fn extract_cargo_script_manifest(content: &str) -> (r: Option<String>)
        requires
            manifest_cut_ok(content@),
        ensures
            match r {
                Some(m) => cargo_script_manifest(content@) == Some(m@),
                None => cargo_script_manifest(content@) is None,
            },
    {
        let c = chars_of(content);
        let open = lit("//! ```cargo");
        let close = lit("//! ```");
        match find_seq(c.as_slice(), open.as_slice()) {
            Some(k) => {
                let n = c.len();
                let rest = sub_vec(c.as_slice(), k + 13, n);
                match find_seq(rest.as_slice(), close.as_slice()) {
                    Some(e) => {
                        let m = trim_vec(sub_vec(rest.as_slice(), 0, e).as_slice());
                        Some(string_from(m.as_slice()))
                    },
                    None => None,
                }
            },
            None => None,
        }
    }

    /// Whether the manifest of a cargo script can be cut out of the text.
    pub fn manifest_cut_possible(content: &str) -> (r: bool)
        ensures
            r == manifest_cut_ok(content@),
    {
        let c = chars_of(content);
        let open = lit("//! ```cargo");
        proof {
            reveal_strlit("//! ```cargo");
        }
        match find_seq(c.as_slice(), open.as_slice()) {
            Some(k) => c.len() - k > 12 && (c[k + 12] as u32) < 0x80,
            None => true,
        }
    }

    /// The members of a workspace manifest, with their paths under `root`.
    pub fn parse_workspace_members(content: &str, root: &str) -> (r: RazResult<Vec<WorkspaceMember>>)
        ensures
            r is Ok,
            members_view(r->Ok_0@) == workspace_members_spec(content@, root@),
    {
        let c = chars_of(content);
        let mut members: Vec<WorkspaceMember> = Vec::new();
        let ghost names = member_names(content@);
        let start = lit("members = [");
        proof {
            reveal_strlit("members = [");
            reveal_strlit("]");
            reveal_strlit(",");
        }
        match find_seq(c.as_slice(), start.as_slice()) {
            Some(k) => {
                let n = c.len();
                let section = sub_vec(c.as_slice(), k, n);
                let close = lit("]");
                match find_seq(section.as_slice(), close.as_slice()) {
                    Some(end) => {
                        proof {
                            crate::text::lemma_first_match_props(c@, "members = ["@, 0);
                            crate::text::lemma_first_match_props(section@, "]"@, 0);
                            if end < 11 {
                                assert(section@.subrange(end as int, end + 1) == "]"@);
                                assert(section@.subrange(end as int, end + 1)[0] == ']');
                                assert(section@[end as int] == ']');
                                assert(section@[end as int] == c@[k + end]);
                                assert(c@.subrange(k as int, k + 11) == "members = ["@);
                                assert(c@.subrange(k as int, k + 11)[end as int] == c@[k + end]);
                            }
                        }
                        let inner = sub_vec(section.as_slice(), 11, end);
                        let comma = lit(",");
                        let parts = split_seq(inner.as_slice(), comma.as_slice());
                        let ghost pv = vviews(parts@);
                        let ghost f = |m: Seq<char>| strip_char(strip_char(trim(m), '"'), '\'');
                        let ghost keep = |n: Seq<char>| n.len() > 0;
                        let mut i: usize = 0;
                        while i < parts.len()
                            invariant
                                pv == vviews(parts@),
                                pv == split(inner@, ","@),
                                names == pv.map_values(f).filter(keep),
                                f == (|m: Seq<char>| strip_char(strip_char(trim(m), '"'), '\'')),
                                keep == (|n: Seq<char>| n.len() > 0),
                                i <= parts@.len(),
                                members_view(members@) == pv.take(i as int).map_values(f).filter(
                                    keep,
                                ).map_values(|n: Seq<char>| (n, join_path(root@, n), false)),
                            decreases parts.len() - i,
                        {
                            let t = trim_vec(parts[i].as_slice());
                            let u = strip_char_exec(t.as_slice(), '"');
                            let name = strip_char_exec(u.as_slice(), '\'');
                            proof {
                                assert(pv[i as int] == parts@[i as int]@);
                                assert(name@ == f(pv[i as int]));
                                assert(pv.take(i + 1).map_values(f) =~= pv.take(i as int).map_values(
                                    f,
                                ).push(f(pv[i as int])));
                                pv.take(i as int).map_values(f).lemma_filter_push(f(pv[i as int]), keep);
                            }
                            if name.len() > 0 {
                                let nm = string_from(name.as_slice());
                                let path = path_join(root, nm.as_str());
                                let ghost before = members@;
                                members.push(WorkspaceMember { name: nm, path, is_current: false });
                                proof {
                                    let g = |n: Seq<char>| (n, join_path(root@, n), false);
                                    let old_names = pv.take(i as int).map_values(f).filter(keep);
                                    assert(members_view(members@) =~= members_view(before).push(
                                        (name@, join_path(root@, name@), false),
                                    ));
                                    assert(old_names.push(name@).map_values(g) =~= old_names.map_values(
                                        g,
                                    ).push(g(name@)));
                                }
                            }
                            i += 1;
                        }
                        assert(pv.take(parts@.len() as int) =~= pv);
                    },
                    None => {
                        assert(members_view(members@) =~= seq![]);
                    },
                }
            },
            None => {
                assert(members_view(members@) =~= seq![]);
            },
        }
        Ok(members)
    }

    /// The package name a manifest gives, or `unknown`.
    pub fn extract_package_name(content: &str) -> (r: RazResult<String>)
        ensures
            r is Ok,
            r->Ok_0@ == package_name_spec(content@),
    {
        let c = chars_of(content);
        let key = lit("name = \"");
        proof {
            reveal_strlit("name = \"");
        }
        match find_seq(c.as_slice(), key.as_slice()) {
            Some(k) => {
                let n = c.len();
                let rest = sub_vec(c.as_slice(), k + 8, n);
                match find_seq(rest.as_slice(), lit("\"").as_slice()) {
                    Some(e) => Ok(string_from(sub_vec(rest.as_slice(), 0, e).as_slice())),
                    None => Ok(owned("unknown")),
                }
            },
            None => Ok(owned("unknown")),
        }
    }

    /// Whether the path is the `lib.rs` of a frontend crate.
    pub fn is_frontend_library(file_path: &str) -> (r: bool)
        ensures
            r == frontend_library(file_path@),
    {
        let is_lib = match path_file_name(file_path) {
            Some(f) => str_eq(f.as_str(), "lib.rs"),
            None => false,
        };
        is_lib && (str_contains(file_path, "/frontend/") || str_contains(file_path, "/app/")
            || str_contains(file_path, "/client/") || str_contains(file_path, "/web/"))
    }

    /// The web framework that the nearest manifest naming one names, given
    /// the manifest of each enclosing directory (nearest first; `None` where
    /// there is none), else `unknown`.
    pub fn detect_web_framework(ancestor_manifests: &Vec<Option<String>>) -> (r: RazResult<String>)
        ensures
            r is Ok,
            r->Ok_0@ == web_framework_spec(opt_views(ancestor_manifests@)),
    {
        let ghost all = opt_views(ancestor_manifests@);
        assert(all.skip(0) =~= all);
        let mut i: usize = 0;
        while i < ancestor_manifests.len()
            invariant
                all == opt_views(ancestor_manifests@),
                i <= ancestor_manifests@.len(),
                web_framework_spec(all) == web_framework_spec(all.skip(i as int)),
            decreases ancestor_manifests.len() - i,
        {
            let ghost rest = all.skip(i as int);
            assert(rest.drop_first() =~= all.skip(i + 1));
            assert(rest[0] == all[i as int]);
            match &ancestor_manifests[i] {
                Some(m) => {
                    if str_contains(m.as_str(), "leptos") {
                        return Ok(owned("leptos"));
                    } else if str_contains(m.as_str(), "dioxus") {
                        return Ok(owned("dioxus"));
                    } else if str_contains(m.as_str(), "yew") {
                        return Ok(owned("yew"));
                    }
                },
                None => {},
            }
            i += 1;
        }
        Ok(owned("unknown"))
    }

    /// The name of a `src/main.rs` binary, given the manifests of the
    /// enclosing directories (nearest first).
    pub fn extract_binary_name_from_path(ancestor_manifests: &Vec<Option<String>>) -> (r: String)
        ensures
            r@ == binary_name_spec(opt_views(ancestor_manifests@)),
    {
        if ancestor_manifests.len() >= 2 {
            match &ancestor_manifests[1] {
                Some(m) => {
                    let name = Self::extract_package_name(m.as_str());
                    match name {
                        Ok(n) => {
                            return n;
                        },
                        Err(_) => {
                            return owned("main");
                        },
                    }
                },
                None => {},
            }
        }
        owned("main")
    }
}

/// The abstract value of a project type.
pub enum ProjectTypeView {
    CargoWorkspace { root: Seq<char>, members: Seq<(Seq<char>, Seq<char>, bool)> },
    CargoPackage { root: Seq<char>, package_name: Seq<char> },
    CargoScript { file_path: Seq<char>, manifest: Option<Seq<char>> },
    SingleFile { file_path: Seq<char>, file_type: SingleFileType },
}

impl View for RustProjectType {
    type V = ProjectTypeView;

    open spec fn view(&self) -> ProjectTypeView {
        match self {
            RustProjectType::CargoWorkspace { root, members } => ProjectTypeView::CargoWorkspace {
                root: root@,
                members: members_view(members@),
            },
            RustProjectType::CargoPackage { root, package_name } => ProjectTypeView::CargoPackage {
                root: root@,
                package_name: package_name@,
            },
            RustProjectType::CargoScript { file_path, manifest } => ProjectTypeView::CargoScript {
                file_path: file_path@,
                manifest: match manifest {
                    Some(m) => Some(m@),
                    None => None,
                },
            },
            RustProjectType::SingleFile { file_path, file_type } => ProjectTypeView::SingleFile {
                file_path: file_path@,
                file_type: *file_type,
            },
        }
    }
}

/// The kind of a single file, from its text.
pub open spec fn single_file_type(content: Seq<char>) -> SingleFileType {
    if has_sub(content, "fn main("@) {
        SingleFileType::Executable
    } else if has_sub(content, "pub "@) {
        SingleFileType::Library
    } else if has_sub(content, "#[test]"@) || has_sub(content, "#[cfg(test)]"@) {
        SingleFileType::Test
    } else {
        SingleFileType::Module
    }
}

pub open spec fn cargo_script(content: Seq<char>) -> bool {
    has_prefix(content, "#!/usr/bin/env -S cargo"@) || has_prefix(content, "#!/usr/bin/env cargo"@)
        || has_prefix(content, "#!/usr/bin/env cargo-eval"@) || has_prefix(
        content,
        "#!/usr/bin/env run-cargo-script"@,
    )
}

/// What a file is, judged alone from its text.
pub open spec fn single_file_spec(file_path: Seq<char>, content: Seq<char>) -> ProjectTypeView {
    if cargo_script(content) {
        ProjectTypeView::CargoScript {
            file_path,
            manifest: cargo_script_manifest(content),
        }
    } else {
        ProjectTypeView::SingleFile { file_path, file_type: single_file_type(content) }
    }
}

/// What a project is, from its manifest (a workspace, a package, or, when
/// the manifest is neither, the file alone).
pub open spec fn cargo_project_spec(
    manifest: Seq<char>,
    root: Seq<char>,
    file_path: Seq<char>,
    content: Seq<char>,
) -> ProjectTypeView {
    if has_sub(manifest, "[workspace]"@) {
        ProjectTypeView::CargoWorkspace {
            root,
            members: workspace_members_spec(manifest, root),
        }
    } else if has_sub(manifest, "[package]"@) {
        ProjectTypeView::CargoPackage { root, package_name: package_name_spec(manifest) }
    } else {
        single_file_spec(file_path, content)
    }
}

/// The abstract value of a file role.
pub enum FileRoleView {
    MainBinary(Seq<char>),
    AdditionalBinary(Seq<char>),
    LibraryRoot,
    FrontendLibrary(Seq<char>),
    IntegrationTest(Seq<char>),
    Benchmark(Seq<char>),
    Example(Seq<char>),
    BuildScript,
    Module,
    Standalone,
}

impl View for FileRole {
    type V = FileRoleView;

    open spec fn view(&self) -> FileRoleView {
        match self {
            FileRole::MainBinary { binary_name } => FileRoleView::MainBinary(binary_name@),
            FileRole::AdditionalBinary { binary_name } => FileRoleView::AdditionalBinary(
                binary_name@,
            ),
            FileRole::LibraryRoot => FileRoleView::LibraryRoot,
            FileRole::FrontendLibrary { framework } => FileRoleView::FrontendLibrary(framework@),
            FileRole::IntegrationTest { test_name } => FileRoleView::IntegrationTest(test_name@),
            FileRole::Benchmark { bench_name } => FileRoleView::Benchmark(bench_name@),
            FileRole::Example { example_name } => FileRoleView::Example(example_name@),
            FileRole::BuildScript => FileRoleView::BuildScript,
            FileRole::Module => FileRoleView::Module,
            FileRole::Standalone => FileRoleView::Standalone,
        }
    }
}

pub open spec fn stem_or(path: Seq<char>, default: Seq<char>) -> Seq<char> {
    match file_stem(path) {
        Some(s) => s,
        None => default,
    }
}

pub open spec fn name_or_empty(path: Seq<char>) -> Seq<char> {
    match file_name(path) {
        Some(f) => f,
        None => seq![],
    }
}

/// The role of a file in its project.
pub open spec fn file_role_spec(
    path: Seq<char>,
    project: ProjectTypeView,
    manifests: Seq<Option<Seq<char>>>,
) -> FileRoleView {
    let fname = name_or_empty(path);
    match project {
        ProjectTypeView::CargoScript { .. } => FileRoleView::MainBinary(stem_or(path, "script"@)),
        ProjectTypeView::SingleFile { file_type, .. } => if fname == "build.rs"@ {
            FileRoleView::BuildScript
        } else if file_type == SingleFileType::Executable {
            FileRoleView::MainBinary(stem_or(path, "main"@))
        } else {
            FileRoleView::Standalone
        },
        _ => if fname == "build.rs"@ {
            FileRoleView::BuildScript
        } else if has_sub(path, "/src/main.rs"@) {
            FileRoleView::MainBinary(binary_name_spec(manifests))
        } else if has_sub(path, "/src/bin/"@) {
            FileRoleView::AdditionalBinary(stem_or(path, "unknown"@))
        } else if fname == "lib.rs"@ {
            if frontend_library(path) {
                FileRoleView::FrontendLibrary(web_framework_spec(manifests))
            } else {
                FileRoleView::LibraryRoot
            }
        } else if has_sub(path, "/tests/"@) {
            FileRoleView::IntegrationTest(stem_or(path, "unknown"@))
        } else if has_sub(path, "/benches/"@) {
            FileRoleView::Benchmark(stem_or(path, "unknown"@))
        } else if has_sub(path, "/examples/"@) {
            FileRoleView::Example(stem_or(path, "unknown"@))
        } else if has_sub(path, "/src/"@) && crate::text::has_suffix(fname, ".rs"@) {
            FileRoleView::Module
        } else {
            FileRoleView::Standalone
        },
    }
}

fn stem_or_exec(path: &str, default: &str) -> (r: String)
    ensures
        r@ == stem_or(path@, default@),
{
    match path_file_stem(path) {
        Some(s) => s,
        None => owned(default),
    }
}

/// Capabilities as a tuple: run, test, bench, doc-test, required framework.
pub open spec fn capabilities_view(c: ExecutionCapabilities) -> (bool, bool, bool, bool, Option<Seq<char>>) {
    (
        c.can_run,
        c.can_test,
        c.can_bench,
        c.can_doc_test,
        match c.requires_framework {
            Some(f) => Some(f@),
            None => None,
        },
    )
}

/// What can be done with a file of the given role in the given project,
/// knowing whether it has a main function, tests and benchmarks.
pub open spec fn capabilities_spec(
    project: ProjectTypeView,
    role: FileRoleView,
    has_main: bool,
    has_tests: bool,
    has_benches: bool,
) -> (bool, bool, bool, bool, Option<Seq<char>>) {
    match role {
        FileRoleView::MainBinary(_) => (has_main, has_tests, has_benches, false, None),
        FileRoleView::AdditionalBinary(_) => (has_main, has_tests, has_benches, false, None),
        FileRoleView::FrontendLibrary(f) => (true, has_tests, has_benches, true, Some(f)),
        FileRoleView::LibraryRoot => (false, has_tests, has_benches, true, None),
        FileRoleView::IntegrationTest(_) => (false, true, false, false, None),
        FileRoleView::Benchmark(_) => (false, false, true, false, None),
        FileRoleView::Example(_) => (has_main, has_tests, has_benches, false, None),
        FileRoleView::BuildScript => (has_main, false, false, false, None),
        FileRoleView::Module => (false, has_tests, has_benches, false, None),
        FileRoleView::Standalone => match project {
            ProjectTypeView::SingleFile { file_type, .. } => match file_type {
                SingleFileType::Executable => (has_main, has_tests, has_benches, false, None),
                SingleFileType::Library => (false, has_tests, has_benches, true, None),
                SingleFileType::Test => (false, true, false, false, None),
                SingleFileType::Module => (false, has_tests, false, false, None),
            },
            _ => (has_main, has_tests, has_benches, false, None),
        },
    }
}

/// Some entry point has the given type.
pub open spec fn has_entry_type(entries: Seq<EntryView>, t: EntryPointType) -> bool {
    exists|i: int| 0 <= i < entries.len() && #[trigger] entries[i].entry_type == t
}

/// The abstract value of an entry point.
pub struct EntryView {
    pub name: Seq<char>,
    pub entry_type: EntryPointType,
    pub line: u32,
    pub column: u32,
    pub line_range: (u32, u32),
    pub full_path: Option<Seq<char>>,
}

impl View for EntryPoint {
    type V = EntryView;

    open spec fn view(&self) -> EntryView {
        EntryView {
            name: self.name@,
            entry_type: self.entry_type,
            line: self.line,
            column: self.column,
            line_range: self.line_range,
            full_path: match self.full_path {
                Some(p) => Some(p@),
                None => None,
            },
        }
    }
}

pub open spec fn entries_view(v: Seq<EntryPoint>) -> Seq<EntryView> {
    v.map_values(|e: EntryPoint| e@)
}

fn any_entry_of_type(entries: &Vec<EntryPoint>, t: EntryPointType) -> (r: bool)
    ensures
        r == has_entry_type(entries_view(entries@), t),
{
    let ghost ev = entries_view(entries@);
    let mut i: usize = 0;
    while i < entries.len()
        invariant
            ev == entries_view(entries@),
            i <= entries@.len(),
            forall|j: int| 0 <= j < i ==> #[trigger] ev[j].entry_type != t,
        decreases entries.len() - i,
    {
        assert(ev[i as int] == entries@[i as int]@);
        if entries[i].entry_type == t {
            assert(ev[i as int].entry_type == t);
            return true;
        }
        i += 1;
    }
    false
}

/// The last part of the path in `components` order is a plain name.
pub open spec fn is_normal(c: Seq<char>) -> bool {
    c != "/"@ && c != "."@ && c != ".."@
}

/// `s` without every trailing `.rs` (`trim_end_matches(".rs")`).
pub open spec fn trim_rs(s: Seq<char>) -> Seq<char>
    decreases s.len(),
{
    if crate::text::has_suffix(s, ".rs"@) && s.len() >= 3 {
        trim_rs(s.subrange(0, s.len() - 3))
    } else {
        s
    }
}

/// The module name a component of the path under `src/` contributes, if any.
pub open spec fn module_part(rel: Seq<Seq<char>>, name: Seq<char>) -> Option<Seq<char>> {
    if name == "lib.rs"@ || name == "main.rs"@ {
        None
    } else if name == "mod.rs"@ {
        if rel.len() >= 2 && is_normal(rel[rel.len() - 2]) {
            nonempty(rel[rel.len() - 2])
        } else {
            None
        }
    } else if crate::text::has_suffix(name, ".rs"@) {
        nonempty(trim_rs(name))
    } else {
        nonempty(name)
    }
}

/// The module names from a list of components, in order.
pub open spec fn module_parts_of(rel: Seq<Seq<char>>, upto: int) -> Seq<Seq<char>>
    decreases upto,
{
    if upto <= 0 {
        seq![]
    } else {
        let prev = module_parts_of(rel, upto - 1);
        let c = rel[upto - 1];
        if is_normal(c) {
            match module_part(rel, c) {
                Some(m) => prev.push(m),
                None => prev,
            }
        } else {
            prev
        }
    }
}

/// The module path of a file of a cargo project, from its place under the
/// project's `src` directory.
pub open spec fn module_path_from_file(file_path: Seq<char>, project: ProjectTypeView) -> Seq<Seq<char>> {
    let root = match project {
        ProjectTypeView::CargoWorkspace { root, .. } => Some(root),
        ProjectTypeView::CargoPackage { root, .. } => Some(root),
        _ => None,
    };
    match root {
        Some(r) => {
            let base = components(join_path(r, "src"@));
            let all = components(file_path);
            if base.is_prefix_of(all) {
                let rel = all.skip(base.len() as int);
                module_parts_of(rel, rel.len() as int)
            } else {
                seq![]
            }
        },
        None => seq![],
    }
}

fn trim_rs_exec(s: &[char]) -> (r: Vec<char>)
    ensures
        r@ == trim_rs(s@),
{
    let rs = lit(".rs");
    proof {
        reveal_strlit(".rs");
    }
    let mut end: usize = s.len();
    assert(s@.subrange(0, end as int) =~= s@);
    while end >= 3 && crate::text::ends_with_seq(sub_vec(s, 0, end).as_slice(), rs.as_slice())
        invariant
            end <= s@.len(),
            rs@ == ".rs"@,
            trim_rs(s@) == trim_rs(s@.subrange(0, end as int)),
        decreases end,
    {
        assert(s@.subrange(0, end as int).subrange(0, end - 3) =~= s@.subrange(0, end - 3));
        end -= 3;
    }
    sub_vec(s, 0, end)
}

impl FileDetector {
    /// What a file is, judged alone from its text.
    pub fn analyze_single_file(file_path: &str, content: &str) -> (r: RazResult<RustProjectType>)
        requires
            cargo_script(content@) ==> manifest_cut_ok(content@),
        ensures
            r is Ok,
            r->Ok_0@ == single_file_spec(file_path@, content@),
    {
        if Self::is_cargo_script(content) {
            let manifest = Self::extract_cargo_script_manifest(content);
            return Ok(RustProjectType::CargoScript { file_path: owned(file_path), manifest });
        }
        let file_type = if str_contains(content, "fn main(") {
            SingleFileType::Executable
        } else if str_contains(content, "pub ") {
            SingleFileType::Library
        } else if str_contains(content, "#[test]") || str_contains(content, "#[cfg(test)]") {
            SingleFileType::Test
        } else {
            SingleFileType::Module
        };
        Ok(RustProjectType::SingleFile { file_path: owned(file_path), file_type })
    }

    /// What a project is, from its manifest at `root`: a workspace, a
    /// package, or, when the manifest is neither, the file alone.
    pub fn analyze_cargo_project(
        manifest: &str,
        root: &str,
        file_path: &str,
        content: &str,
    ) -> (r: RazResult<RustProjectType>)
        requires
            cargo_script(content@) ==> manifest_cut_ok(content@),
        ensures
            r is Ok,
            r->Ok_0@ == cargo_project_spec(manifest@, root@, file_path@, content@),
    {
        if str_contains(manifest, "[workspace]") {
            let members = Self::parse_workspace_members(manifest, root);
            match members {
                Ok(m) => Ok(RustProjectType::CargoWorkspace { root: owned(root), members: m }),
                Err(e) => Err(e),
            }
        } else if str_contains(manifest, "[package]") {
            let name = Self::extract_package_name(manifest);
            match name {
                Ok(n) => Ok(RustProjectType::CargoPackage { root: owned(root), package_name: n }),
                Err(e) => Err(e),
            }
        } else {
            Self::analyze_single_file(file_path, content)
        }
    }

    /// The role of a file in its project; `ancestor_manifests` holds the
    /// manifest of each enclosing directory, nearest first.
    pub fn detect_file_role(
        file_path: &str,
        project_type: &RustProjectType,
        ancestor_manifests: &Vec<Option<String>>,
    ) -> (r: RazResult<FileRole>)
        ensures
            r is Ok,
            r->Ok_0@ == file_role_spec(file_path@, project_type@, opt_views(ancestor_manifests@)),
    {
        let fname = match path_file_name(file_path) {
            Some(f) => f,
            None => String::new(),
        };
        let is_build = str_eq(fname.as_str(), "build.rs");
        match project_type {
            RustProjectType::CargoScript { .. } => Ok(
                FileRole::MainBinary { binary_name: stem_or_exec(file_path, "script") },
            ),
            RustProjectType::SingleFile { file_type, .. } => {
                if is_build {
                    Ok(FileRole::BuildScript)
                } else if *file_type == SingleFileType::Executable {
                    Ok(FileRole::MainBinary { binary_name: stem_or_exec(file_path, "main") })
                } else {
                    Ok(FileRole::Standalone)
                }
            },
            _ => {
                if is_build {
                    Ok(FileRole::BuildScript)
                } else if str_contains(file_path, "/src/main.rs") {
                    Ok(
                        FileRole::MainBinary {
                            binary_name: Self::extract_binary_name_from_path(ancestor_manifests),
                        },
                    )
                } else if str_contains(file_path, "/src/bin/") {
                    Ok(
                        FileRole::AdditionalBinary {
                            binary_name: stem_or_exec(file_path, "unknown"),
                        },
                    )
                } else if str_eq(fname.as_str(), "lib.rs") {
                    if Self::is_frontend_library(file_path) {
                        match Self::detect_web_framework(ancestor_manifests) {
                            Ok(framework) => Ok(FileRole::FrontendLibrary { framework }),
                            Err(e) => Err(e),
                        }
                    } else {
                        Ok(FileRole::LibraryRoot)
                    }
                } else if str_contains(file_path, "/tests/") {
                    Ok(FileRole::IntegrationTest { test_name: stem_or_exec(file_path, "unknown") })
                } else if str_contains(file_path, "/benches/") {
                    Ok(FileRole::Benchmark { bench_name: stem_or_exec(file_path, "unknown") })
                } else if str_contains(file_path, "/examples/") {
                    Ok(FileRole::Example { example_name: stem_or_exec(file_path, "unknown") })
                } else if str_contains(file_path, "/src/") && crate::text::str_ends_with(
                    fname.as_str(),
                    ".rs",
                ) {
                    Ok(FileRole::Module)
                } else {
                    Ok(FileRole::Standalone)
                }
            },
        }
    }

    /// What can be done with the file.
    pub fn determine_capabilities(
        project_type: &RustProjectType,
        file_role: &FileRole,
        entry_points: &Vec<EntryPoint>,
    ) -> (r: ExecutionCapabilities)
        ensures
            capabilities_view(r) == capabilities_spec(
                project_type@,
                file_role@,
                has_entry_type(entries_view(entry_points@), EntryPointType::Main),
                has_entry_type(entries_view(entry_points@), EntryPointType::Test),
                has_entry_type(entries_view(entry_points@), EntryPointType::Benchmark),
            ),
    {
        let has_main = any_entry_of_type(entry_points, EntryPointType::Main);
        let has_tests = any_entry_of_type(entry_points, EntryPointType::Test);
        let has_benches = any_entry_of_type(entry_points, EntryPointType::Benchmark);
        let caps = |run: bool, test: bool, bench: bool, doc: bool| -> (c: ExecutionCapabilities)
            ensures
                capabilities_view(c) == (run, test, bench, doc, None::<Seq<char>>),
            {
                ExecutionCapabilities {
                    can_run: run,
                    can_test: test,
                    can_bench: bench,
                    can_doc_test: doc,
                    requires_framework: None,
                }
            };
        match file_role {
            FileRole::MainBinary { .. } | FileRole::AdditionalBinary { .. } => caps(
                has_main,
                has_tests,
                has_benches,
                false,
            ),
            FileRole::FrontendLibrary { framework } => ExecutionCapabilities {
                can_run: true,
                can_test: has_tests,
                can_bench: has_benches,
                can_doc_test: true,
                requires_framework: Some(framework.clone()),
            },
            FileRole::LibraryRoot => caps(false, has_tests, has_benches, true),
            FileRole::IntegrationTest { .. } => caps(false, true, false, false),
            FileRole::Benchmark { .. } => caps(false, false, true, false),
            FileRole::Example { .. } => caps(has_main, has_tests, has_benches, false),
            FileRole::BuildScript => caps(has_main, false, false, false),
            FileRole::Standalone => match project_type {
                RustProjectType::SingleFile { file_type, .. } => match file_type {
                    SingleFileType::Executable => caps(has_main, has_tests, has_benches, false),
                    SingleFileType::Library => caps(false, has_tests, has_benches, true),
                    SingleFileType::Test => caps(false, true, false, false),
                    SingleFileType::Module => caps(false, has_tests, false, false),
                },
                _ => caps(has_main, has_tests, has_benches, false),
            },
            FileRole::Module => caps(false, has_tests, has_benches, false),
        }
    }

    /// The module path of a file of a cargo project, from its place under
    /// the project's `src` directory (empty for other projects).
    pub fn build_module_path_from_file(file_path: &str, project_type: &RustProjectType) -> (r: Vec<String>)
        ensures
            views(r@) == module_path_from_file(file_path@, project_type@),
    {
        let mut out: Vec<String> = Vec::new();
        let root = match project_type {
            RustProjectType::CargoWorkspace { root, .. } => root,
            RustProjectType::CargoPackage { root, .. } => root,
            _ => {
                assert(views(out@) =~= seq![]);
                return out;
            },
        };
        let src = path_join(root.as_str(), "src");
        let sc = chars_of(src.as_str());
        let fc = chars_of(file_path);
        let base = crate::paths::components_exec(sc.as_slice());
        let all = crate::paths::components_exec(fc.as_slice());
        let ghost bv = vviews(base@);
        let ghost av = vviews(all@);
        if !crate::paths::path_starts_with(file_path, src.as_str()) {
            assert(views(out@) =~= seq![]);
            return out;
        }
        let start = base.len();
        let ghost rel = av.skip(start as int);
        let dot = lit(".");
        let dotdot = lit("..");
        let slash = lit("/");
        let mut i: usize = start;
        while i < all.len()
            invariant
                av == vviews(all@),
                bv == vviews(base@),
                start == bv.len(),
                start <= all@.len(),
                rel == av.skip(start as int),
                start <= i <= all@.len(),
                dot@ == "."@,
                dotdot@ == ".."@,
                slash@ == "/"@,
                views(out@) == module_parts_of(rel, i - start),
            decreases all.len() - i,
        {
            let c = &all[i];
            assert(rel[i - start] == c@);
            let normal = !seq_eq(c.as_slice(), slash.as_slice()) && !seq_eq(c.as_slice(), dot.as_slice())
                && !seq_eq(c.as_slice(), dotdot.as_slice());
            if normal {
                let part: Option<Vec<char>> = if seq_eq(c.as_slice(), lit("lib.rs").as_slice())
                    || seq_eq(c.as_slice(), lit("main.rs").as_slice()) {
                    None
                } else if seq_eq(c.as_slice(), lit("mod.rs").as_slice()) {
                    let n = all.len();
                    if n - start >= 2 {
                        let p = &all[n - 2];
                        assert(rel[rel.len() - 2] == p@);
                        if !seq_eq(p.as_slice(), slash.as_slice()) && !seq_eq(p.as_slice(), dot.as_slice())
                            && !seq_eq(p.as_slice(), dotdot.as_slice()) && p.len() > 0 {
                            Some(sub_vec(p.as_slice(), 0, p.len()))
                        } else {
                            None
                        }
                    } else {
                        None
                    }
                } else if crate::text::ends_with_seq(c.as_slice(), lit(".rs").as_slice()) {
                    let t = trim_rs_exec(c.as_slice());
                    if t.len() > 0 {
                        Some(t)
                    } else {
                        None
                    }
                } else if c.len() > 0 {
                    Some(sub_vec(c.as_slice(), 0, c.len()))
                } else {
                    None
                };
                proof {
                    assert(c@.subrange(0, c@.len() as int) =~= c@);
                }
                assert(match part {
                    Some(m) => module_part(rel, c@) == Some(m@),
                    None => module_part(rel, c@) is None,
                });
                match part {
                    Some(m) => {
                        let ghost before = out@;
                        out.push(string_from(m.as_slice()));
                        proof {
                            crate::text::lemma_views_push(before, out@.last());
                            assert(out@ == before.push(out@.last()));
                        }
                    },
                    None => {},
                }
            }
            i += 1;
        }
        out
    }
}

/// The number of times `c` occurs in `s`.
pub open spec fn count_char(s: Seq<char>, c: char) -> nat
    decreases s.len(),
{
    if s.len() == 0 {
        0
    } else {
        count_char(s.drop_last(), c) + if s.last() == c {
            1nat
        } else {
            0nat
        }
    }
}

/// UTF-8 width of a character.
pub open spec fn char_width(c: char) -> u32 {
    if (c as u32) < 0x80 {
        1
    } else if (c as u32) < 0x800 {
        2
    } else if (c as u32) < 0x10000 {
        3
    } else {
        4
    }
}

/// The length in bytes of the UTF-8 text `s`, as a `u32` (modulo 2^32).
pub open spec fn byte_len_u32(s: Seq<char>) -> u32
    decreases s.len(),
{
    if s.len() == 0 {
        0
    } else {
        byte_len_u32(s.drop_last()).wrapping_add(char_width(s.last()))
    }
}

/// The byte column where `pat` first occurs in `line`, or 0.
pub open spec fn column_of(line: Seq<char>, pat: Seq<char>) -> u32 {
    match find(line, pat) {
        Some(k) => byte_len_u32(line.take(k)),
        None => 0,
    }
}

/// The state of the line scanner.
pub struct ScanState {
    pub entries: Seq<EntryView>,
    pub modules: Seq<Seq<char>>,
    pub depths: Seq<u32>,
    pub depth: u32,
    pub in_test_module: bool,
    pub test_module_depth: u32,
    pub in_doc_comment: bool,
    pub in_doc_code_block: bool,
    pub doc_test_start: Option<u32>,
    pub doc_start_line: Option<int>,
}

pub open spec fn initial_scan() -> ScanState {
    ScanState {
        entries: seq![],
        modules: seq![],
        depths: seq![],
        depth: 0,
        in_test_module: false,
        test_module_depth: 0,
        in_doc_comment: false,
        in_doc_code_block: false,
        doc_test_start: None,
        doc_start_line: None,
    }
}

/// Leaves the modules whose scope starts deeper than `depth`.
pub open spec fn pop_scopes(st: ScanState) -> ScanState
    decreases st.depths.len(),
{
    if st.depths.len() > 0 && st.depth < st.depths.last() && st.modules.len() == st.depths.len() {
        pop_scopes(
            ScanState { modules: st.modules.drop_last(), depths: st.depths.drop_last(), ..st },
        )
    } else {
        st
    }
}

/// One closing brace: one level up, out of the modules and test module that end.
pub open spec fn close_one(st: ScanState) -> ScanState {
    let s1 = pop_scopes(ScanState { depth: st.depth.saturating_sub(1), ..st });
    if s1.in_test_module && s1.depth < s1.test_module_depth {
        ScanState { in_test_module: false, ..s1 }
    } else {
        s1
    }
}

pub open spec fn close_n(st: ScanState, n: nat) -> ScanState
    decreases n,
{
    if n == 0 {
        st
    } else {
        close_one(close_n(st, (n - 1) as nat))
    }
}

/// The module declared with a body on line `i`, if any.
pub open spec fn mod_decl(ls: Seq<Seq<char>>, i: int) -> Option<Seq<char>> {
    let t = trim(ls[i]);
    match find(t, "mod "@) {
        Some(ms) => {
            let after = t.subrange(ms + 4, t.len() as int);
            match find_any(after, module_name_ends()) {
                Some(ne) => {
                    let name = trim(after.subrange(0, ne));
                    let has_body = has_sub(t, "{"@) || (i + 1 < ls.len() && has_prefix(
                        trim(ls[i + 1]),
                        "{"@,
                    ));
                    if has_body && name.len() > 0 {
                        Some(name)
                    } else {
                        None
                    }
                },
                None => None,
            }
        },
        None => None,
    }
}

pub open spec fn starts_fn(t: Seq<char>) -> bool {
    has_prefix(t, "pub fn"@) || has_prefix(t, "fn"@)
}

pub open spec fn starts_struct(t: Seq<char>) -> bool {
    has_prefix(t, "pub struct"@) || has_prefix(t, "struct"@)
}

/// The item named on line `i + k` or later (up to `i + 4`) that a doc comment belongs to.
pub open spec fn item_ahead(ls: Seq<Seq<char>>, i: int, k: int) -> Option<Seq<char>>
    decreases 5 - k,
{
    if k >= 5 || k < 1 {
        None
    } else if i + k < ls.len() {
        let a = trim(ls[i + k]);
        if starts_fn(a) {
            function_name_of(a)
        } else if starts_struct(a) {
            struct_name_of(a)
        } else if has_prefix(a, "impl"@) {
            impl_name_of(a)
        } else {
            item_ahead(ls, i, k + 1)
        }
    } else {
        item_ahead(ls, i, k + 1)
    }
}

/// The item a doc comment ending before line `i` belongs to.
pub open spec fn doc_item(ls: Seq<Seq<char>>, i: int) -> Option<Seq<char>> {
    let t = trim(ls[i]);
    if starts_fn(t) {
        function_name_of(t)
    } else if starts_struct(t) {
        struct_name_of(t)
    } else if has_prefix(t, "impl"@) {
        impl_name_of(t)
    } else {
        item_ahead(ls, i, 1)
    }
}

pub open spec fn opens_doc_code(t: Seq<char>) -> bool {
    t == "/// ```"@ || t == "/// ```rust"@ || t == "//! ```"@ || t == "//! ```rust"@
}

/// The doc-test entry for a doc comment that ends at line `i`, when the
/// cursor lies in its code.
pub open spec fn doc_entry(st: ScanState, ls: Seq<Seq<char>>, i: int, cursor: Option<Position>) -> Seq<EntryView> {
    match (cursor, st.doc_test_start) {
        (Some(c), Some(start)) => if c.line + 1 >= start && c.line < i + 1 {
            match doc_item(ls, i) {
                Some(name) => seq![
                    EntryView {
                        name,
                        entry_type: EntryPointType::DocTest,
                        line: start,
                        column: 0,
                        line_range: (
                            (match st.doc_start_line {
                                Some(l) => l,
                                None => 0,
                            } + 1) as u32,
                            (i as u32).saturating_sub(1),
                        ),
                        full_path: Some(name),
                    },
                ],
                None => seq![],
            }
        } else {
            seq![]
        },
        _ => seq![],
    }
}

/// The doc-comment part of the scan of line `i`.
pub open spec fn doc_step(st: ScanState, ls: Seq<Seq<char>>, i: int, cursor: Option<Position>) -> ScanState {
    let t = trim(ls[i]);
    if has_prefix(t, "///"@) || has_prefix(t, "//!"@) {
        let st1 = if !st.in_doc_comment {
            ScanState { doc_start_line: Some(i), ..st }
        } else {
            st
        };
        let st2 = ScanState { in_doc_comment: true, ..st1 };
        if opens_doc_code(t) && !st2.in_doc_code_block {
            ScanState { in_doc_code_block: true, doc_test_start: Some((i + 1) as u32), ..st2 }
        } else if t == "/// ```"@ && st2.in_doc_code_block {
            ScanState { in_doc_code_block: false, ..st2 }
        } else {
            st2
        }
    } else if st.in_doc_comment && !has_prefix(t, "//"@) {
        ScanState {
            entries: st.entries + doc_entry(st, ls, i, cursor),
            in_doc_comment: false,
            in_doc_code_block: false,
            doc_test_start: None,
            doc_start_line: None,
            ..st
        }
    } else {
        st
    }
}

/// The module path of a function in the current scope.
pub open spec fn scoped_path(fmp: Seq<Seq<char>>, modules: Seq<Seq<char>>, name: Seq<char>) -> Seq<char> {
    join(fmp + modules + seq![name], "::"@)
}

pub open spec fn test_attr_pattern() -> Seq<char> {
    "#\\[(\\w+::)?test\\]"@
}

/// The test function named on one of the three lines after a test
/// attribute on line `i`, looking from line `i + k`.
pub open spec fn test_after_attr(
    st: ScanState,
    ls: Seq<Seq<char>>,
    i: int,
    fmp: Seq<Seq<char>>,
    k: int,
) -> Seq<EntryView>
    decreases 4 - k,
{
    if k > 3 || k < 1 {
        seq![]
    } else if i + k < ls.len() {
        match function_name_of(ls[i + k]) {
            Some(f) => seq![
                EntryView {
                    name: f,
                    entry_type: EntryPointType::Test,
                    line: (i + k + 1) as u32,
                    column: 0,
                    line_range: ((i + 1) as u32, (i + 1) as u32),
                    full_path: Some(scoped_path(fmp, st.modules, f)),
                },
            ],
            None => test_after_attr(st, ls, i, fmp, k + 1),
        }
    } else {
        test_after_attr(st, ls, i, fmp, k + 1)
    }
}

/// The `main` entry point that line `i` declares, if any.
pub open spec fn main_part(ls: Seq<Seq<char>>, i: int) -> Seq<EntryView> {
    let line = ls[i];
    let ln = (i + 1) as u32;
    if has_sub(trim(line), "fn main("@) {
        seq![
            EntryView {
                name: "main"@,
                entry_type: EntryPointType::Main,
                line: ln,
                column: column_of(line, "fn main("@),
                line_range: (ln, ln),
                full_path: None,
            },
        ]
    } else {
        seq![]
    }
}

/// The test that line `i` marks or declares, if any.
pub open spec fn tests_part(st: ScanState, ls: Seq<Seq<char>>, i: int, fmp: Seq<Seq<char>>) -> Seq<EntryView> {
    let line = ls[i];
    let t = trim(line);
    let ln = (i + 1) as u32;
    if regex_matches(test_attr_pattern(), t) == Some(true) {
        test_after_attr(st, ls, i, fmp, 1)
    } else if (has_prefix(t, "fn test_"@) || has_sub(t, "fn test_"@)) && (st.in_test_module
        || has_sub(t, "#["@)) {
        match function_name_of(t) {
            Some(f) => seq![
                EntryView {
                    name: f,
                    entry_type: EntryPointType::Test,
                    line: ln,
                    column: column_of(line, "fn "@ + f),
                    line_range: (ln, ln),
                    full_path: Some(scoped_path(fmp, st.modules, f)),
                },
            ],
            None => seq![],
        }
    } else {
        seq![]
    }
}

/// The benchmark that a `#[bench]` on line `i` marks, if any.
pub open spec fn bench_part(ls: Seq<Seq<char>>, i: int) -> Seq<EntryView> {
    let ln = (i + 1) as u32;
    if has_prefix(trim(ls[i]), "#[bench]"@) && i + 1 < ls.len() {
        match function_name_of(ls[i + 1]) {
            Some(f) => seq![
                EntryView {
                    name: f,
                    entry_type: EntryPointType::Benchmark,
                    line: (i + 2) as u32,
                    column: 0,
                    line_range: (ln, ln),
                    full_path: None,
                },
            ],
            None => seq![],
        }
    } else {
        seq![]
    }
}

/// The criterion benchmark entry for line `i`, if it declares one.
pub open spec fn criterion_part(ls: Seq<Seq<char>>, i: int) -> Seq<EntryView> {
    let t = trim(ls[i]);
    let ln = (i + 1) as u32;
    if has_sub(t, "criterion_group!"@) || has_sub(t, "criterion_main!"@) {
        seq![
            EntryView {
                name: "criterion_bench"@,
                entry_type: EntryPointType::Benchmark,
                line: ln,
                column: 0,
                line_range: (ln, ln),
                full_path: None,
            },
        ]
    } else {
        seq![]
    }
}

/// The entry points that line `i` itself declares.
pub open spec fn line_entries(st: ScanState, ls: Seq<Seq<char>>, i: int, fmp: Seq<Seq<char>>) -> Seq<EntryView> {
    main_part(ls, i) + tests_part(st, ls, i, fmp) + bench_part(ls, i) + criterion_part(ls, i)
}

/// The part of the scan of line `i` that tracks braces and modules.
pub open spec fn structure_step(st: ScanState, ls: Seq<Seq<char>>, i: int) -> ScanState {
    let t = trim(ls[i]);
    let s1 = close_n(st, count_char(t, '}'));
    let s2 = ScanState { depth: s1.depth.saturating_add(count_char(t, '{') as u32), ..s1 };
    let s3 = if t == "#[cfg(test)]"@ {
        ScanState { in_test_module: true, test_module_depth: s2.depth, ..s2 }
    } else {
        s2
    };
    match mod_decl(ls, i) {
        Some(name) => {
            let s = ScanState {
                modules: s3.modules.push(name),
                depths: s3.depths.push(s3.depth),
                ..s3
            };
            if has_sub(name, "test"@) && !s3.in_test_module {
                ScanState { in_test_module: true, test_module_depth: s3.depth, ..s }
            } else {
                s
            }
        },
        None => s3,
    }
}

/// The scan of line `i`.
pub open spec fn scan_step(
    st: ScanState,
    ls: Seq<Seq<char>>,
    i: int,
    cursor: Option<Position>,
    fmp: Seq<Seq<char>>,
) -> ScanState {
    let s5 = doc_step(structure_step(st, ls, i), ls, i, cursor);
    ScanState { entries: s5.entries + line_entries(s5, ls, i, fmp), ..s5 }
}

proof fn lemma_pop_scopes_keeps(st: ScanState)
    ensures
        pop_scopes(st).doc_start_line == st.doc_start_line,
        pop_scopes(st).entries == st.entries,
        st.modules.len() == st.depths.len() ==> pop_scopes(st).modules.len() == pop_scopes(
            st,
        ).depths.len(),
    decreases st.depths.len(),
{
    if st.depths.len() > 0 && st.depth < st.depths.last() && st.modules.len() == st.depths.len() {
        lemma_pop_scopes_keeps(
            ScanState { modules: st.modules.drop_last(), depths: st.depths.drop_last(), ..st },
        );
    }
}

/// The scanner state after the first `k` lines.
pub open spec fn scan_upto(
    ls: Seq<Seq<char>>,
    k: int,
    cursor: Option<Position>,
    fmp: Seq<Seq<char>>,
) -> ScanState
    decreases k,
{
    if k <= 0 {
        initial_scan()
    } else {
        scan_step(scan_upto(ls, k - 1, cursor, fmp), ls, k - 1, cursor, fmp)
    }
}

/// The doc test for a doc comment that runs to the end of the file, when
/// the cursor lies after its code starts.
pub open spec fn trailing_doc_part(st: ScanState, n: int, cursor: Option<Position>) -> Seq<EntryView> {
    match cursor {
        Some(c) => if st.in_doc_comment {
            match st.doc_test_start {
                Some(start) => if c.line + 1 >= start {
                    seq![
                        EntryView {
                            name: "doc_test"@,
                            entry_type: EntryPointType::DocTest,
                            line: start,
                            column: 0,
                            line_range: (
                                (match st.doc_start_line {
                                    Some(l) => l,
                                    None => 0,
                                } + 1) as u32,
                                n as u32,
                            ),
                            full_path: None,
                        },
                    ]
                } else {
                    seq![]
                },
                None => seq![],
            }
        } else {
            seq![]
        },
        None => seq![],
    }
}

/// Some found entry is a test on line `line`.
pub open spec fn test_on_line(found: Seq<EntryView>, line: u32) -> bool {
    exists|j: int|
        0 <= j < found.len() && #[trigger] found[j].entry_type == EntryPointType::Test
            && found[j].line == line
}

/// The test module under the cursor, when the cursor is in a test module but
/// on no test.
pub open spec fn module_part_entry(
    in_test_module: bool,
    modules: Seq<Seq<char>>,
    found: Seq<EntryView>,
    cursor: Option<Position>,
    fmp: Seq<Seq<char>>,
) -> Seq<EntryView> {
    match cursor {
        Some(c) => if in_test_module && modules.len() > 0 {
            let cl = (c.line + 1) as u32;
            if !test_on_line(found, cl) {
                seq![
                    EntryView {
                        name: modules.last() + "_module"@,
                        entry_type: EntryPointType::TestModule,
                        line: cl,
                        column: 0,
                        line_range: (cl, cl),
                        full_path: Some(join(fmp + modules, "::"@)),
                    },
                ]
            } else {
                seq![]
            }
        } else {
            seq![]
        },
        None => seq![],
    }
}

/// The entry points of a file's lines, as the line scanner finds them.
pub open spec fn entry_points_spec(ls: Seq<Seq<char>>, cursor: Option<Position>, fmp: Seq<Seq<char>>) -> Seq<EntryView> {
    let st = scan_upto(ls, ls.len() as int, cursor, fmp);
    let found = st.entries + trailing_doc_part(st, ls.len() as int, cursor);
    found + module_part_entry(st.in_test_module, st.modules, found, cursor, fmp)
}

/// The line scanner's state.
struct Scanner {
    entries: Vec<EntryPoint>,
    modules: Vec<String>,
    depths: Vec<u32>,
    depth: u32,
    in_test_module: bool,
    test_module_depth: u32,
    in_doc_comment: bool,
    in_doc_code_block: bool,
    doc_test_start: Option<u32>,
    doc_start_line: Option<usize>,
}

impl View for Scanner {
    type V = ScanState;

    closed spec fn view(&self) -> ScanState {
        ScanState {
            entries: entries_view(self.entries@),
            modules: views(self.modules@),
            depths: self.depths@,
            depth: self.depth,
            in_test_module: self.in_test_module,
            test_module_depth: self.test_module_depth,
            in_doc_comment: self.in_doc_comment,
            in_doc_code_block: self.in_doc_code_block,
            doc_test_start: self.doc_test_start,
            doc_start_line: match self.doc_start_line {
                Some(l) => Some(l as int),
                None => None,
            },
        }
    }
}

fn count_char_exec(s: &[char], c: char) -> (r: usize)
    ensures
        r == count_char(s@, c),
{
    let mut n: usize = 0;
    let mut i: usize = 0;
    while i < s.len()
        invariant
            i <= s@.len(),
            n == count_char(s@.take(i as int), c),
            n <= i,
        decreases s.len() - i,
    {
        assert(s@.take(i + 1).drop_last() =~= s@.take(i as int));
        if s[i] == c {
            n += 1;
        }
        i += 1;
    }
    assert(s@.take(s@.len() as int) =~= s@);
    n
}

pub(crate) fn char_width_exec(c: char) -> (r: u32)
    ensures
        r == char_width(c),
{
    let v = c as u32;
    if v < 0x80 {
        1
    } else if v < 0x800 {
        2
    } else if v < 0x10000 {
        3
    } else {
        4
    }
}

fn column_of_exec(line: &[char], pat: &[char]) -> (r: u32)
    ensures
        r == column_of(line@, pat@),
{
    match find_seq(line, pat) {
        Some(k) => {
            let mut acc: u32 = 0;
            let mut i: usize = 0;
            while i < k
                invariant
                    k <= line@.len(),
                    i <= k,
                    acc == byte_len_u32(line@.take(i as int)),
                decreases k - i,
            {
                assert(line@.take(i + 1).drop_last() =~= line@.take(i as int));
                acc = acc.wrapping_add(char_width_exec(line[i]));
                i += 1;
            }
            acc
        },
        None => 0,
    }
}

fn join_path_parts(fmp: &Vec<String>, modules: &Vec<String>, last: Option<&String>) -> (r: String)
    ensures
        r@ == join(
            views(fmp@) + views(modules@) + match last {
                Some(l) => seq![l@],
                None => seq![],
            },
            "::"@,
        ),
{
    let mut parts: Vec<String> = Vec::new();
    let mut i: usize = 0;
    while i < fmp.len()
        invariant
            i <= fmp@.len(),
            views(parts@) == views(fmp@).take(i as int),
        decreases fmp.len() - i,
    {
        let ghost before = parts@;
        parts.push(fmp[i].clone());
        proof {
            crate::text::lemma_views_push(before, parts@.last());
            assert(parts@ == before.push(parts@.last()));
            assert(views(fmp@).take(i + 1) =~= views(fmp@).take(i as int).push(fmp@[i as int]@));
        }
        i += 1;
    }
    assert(views(fmp@).take(fmp@.len() as int) =~= views(fmp@));
    let mut j: usize = 0;
    while j < modules.len()
        invariant
            j <= modules@.len(),
            views(parts@) == views(fmp@) + views(modules@).take(j as int),
        decreases modules.len() - j,
    {
        let ghost before = parts@;
        parts.push(modules[j].clone());
        proof {
            crate::text::lemma_views_push(before, parts@.last());
            assert(parts@ == before.push(parts@.last()));
            assert(views(modules@).take(j + 1) =~= views(modules@).take(j as int).push(
                modules@[j as int]@,
            ));
        }
        j += 1;
    }
    assert(views(modules@).take(modules@.len() as int) =~= views(modules@));
    match last {
        Some(l) => {
            let ghost before = parts@;
            parts.push(l.clone());
            proof {
                crate::text::lemma_views_push(before, parts@.last());
                assert(parts@ == before.push(parts@.last()));
                assert(views(parts@) =~= views(fmp@) + views(modules@) + seq![l@]);
            }
        },
        None => {
            assert(views(parts@) =~= views(fmp@) + views(modules@) + seq![]);
        },
    }
    join_strings(&parts, "::")
}

fn starts_fn_exec(t: &[char]) -> (r: bool)
    ensures
        r == starts_fn(t@),
{
    starts_with_seq(t, lit("pub fn").as_slice()) || starts_with_seq(t, lit("fn").as_slice())
}

fn starts_struct_exec(t: &[char]) -> (r: bool)
    ensures
        r == starts_struct(t@),
{
    starts_with_seq(t, lit("pub struct").as_slice()) || starts_with_seq(t, lit("struct").as_slice())
}

fn item_name_on(t: &[char]) -> (r: Option<Option<String>>)
    ensures
        match r {
            Some(n) => (starts_fn(t@) || starts_struct(t@) || has_prefix(t@, "impl"@)) && match n {
                Some(x) => (if starts_fn(t@) {
                    function_name_of(t@)
                } else if starts_struct(t@) {
                    struct_name_of(t@)
                } else {
                    impl_name_of(t@)
                }) == Some(x@),
                None => (if starts_fn(t@) {
                    function_name_of(t@)
                } else if starts_struct(t@) {
                    struct_name_of(t@)
                } else {
                    impl_name_of(t@)
                }) is None,
            },
            None => !(starts_fn(t@) || starts_struct(t@) || has_prefix(t@, "impl"@)),
        },
{
    let line = string_from(t);
    if starts_fn_exec(t) {
        Some(FileDetector::extract_function_name(line.as_str()))
    } else if starts_struct_exec(t) {
        Some(FileDetector::extract_struct_name(line.as_str()))
    } else if starts_with_seq(t, lit("impl").as_slice()) {
        Some(FileDetector::extract_impl_name(line.as_str()))
    } else {
        None
    }
}

fn doc_item_exec(ls: &Vec<Vec<char>>, i: usize) -> (r: Option<String>)
    requires
        i < ls@.len(),
    ensures
        match r {
            Some(n) => doc_item(vviews(ls@), i as int) == Some(n@),
            None => doc_item(vviews(ls@), i as int) is None,
        },
{
    let ghost lv = vviews(ls@);
    assert(lv[i as int] == ls@[i as int]@);
    let t = trim_vec(ls[i].as_slice());
    match item_name_on(t.as_slice()) {
        Some(n) => {
            return n;
        },
        None => {},
    }
    let mut k: usize = 1;
    while k < 5
        invariant
            lv == vviews(ls@),
            i < ls@.len(),
            1 <= k <= 5,
            doc_item(lv, i as int) == item_ahead(lv, i as int, k as int),
        decreases 5 - k,
    {
        if k < ls.len() - i {
            assert(lv[i + k] == ls@[i + k]@);
            let a = trim_vec(ls[i + k].as_slice());
            match item_name_on(a.as_slice()) {
                Some(n) => {
                    return n;
                },
                None => {},
            }
        }
        k += 1;
    }
    None
}

fn function_name_on_line(ls: &Vec<Vec<char>>, j: usize) -> (r: Option<String>)
    requires
        j < ls@.len(),
    ensures
        match r {
            Some(n) => function_name_of(vviews(ls@)[j as int]) == Some(n@),
            None => function_name_of(vviews(ls@)[j as int]) is None,
        },
{
    assert(vviews(ls@)[j as int] == ls@[j as int]@);
    function_name_chars(ls[j].as_slice())
}

fn mod_decl_exec(ls: &Vec<Vec<char>>, i: usize) -> (r: Option<String>)
    requires
        i < ls@.len(),
    ensures
        match r {
            Some(n) => mod_decl(vviews(ls@), i as int) == Some(n@),
            None => mod_decl(vviews(ls@), i as int) is None,
        },
{
    let ghost lv = vviews(ls@);
    assert(lv[i as int] == ls@[i as int]@);
    let t = trim_vec(ls[i].as_slice());
    let pat = lit("mod ");
    proof {
        reveal_strlit("mod ");
    }
    match find_seq(t.as_slice(), pat.as_slice()) {
        Some(ms) => {
            let n = t.len();
            let after = sub_vec(t.as_slice(), ms + 4, n);
            let ends = name_ends(' ', '{', ';');
            match find_any_exec(after.as_slice(), ends.as_slice()) {
                Some(ne) => {
                    let name = trim_vec(sub_vec(after.as_slice(), 0, ne).as_slice());
                    let mut has_body = contains_seq(t.as_slice(), lit("{").as_slice());
                    if !has_body && ls.len() - i > 1 {
                        assert(lv[i + 1] == ls@[i + 1]@);
                        let nt = trim_vec(ls[i + 1].as_slice());
                        has_body = starts_with_seq(nt.as_slice(), lit("{").as_slice());
                    }
                    if has_body && name.len() > 0 {
                        Some(string_from(name.as_slice()))
                    } else {
                        None
                    }
                },
                None => None,
            }
        },
        None => None,
    }
}

fn entry(
    name: String,
    entry_type: EntryPointType,
    line: u32,
    column: u32,
    range: (u32, u32),
    full_path: Option<String>,
) -> (r: EntryPoint)
    ensures
        r@ == (EntryView {
            name: name@,
            entry_type,
            line,
            column,
            line_range: range,
            full_path: match full_path {
                Some(p) => Some(p@),
                None => None,
            },
        }),
{
    EntryPoint { name, entry_type, line, column, line_range: range, full_path }
}

fn single(e: EntryPoint) -> (r: Vec<EntryPoint>)
    ensures
        entries_view(r@) == seq![e@],
{
    let mut v: Vec<EntryPoint> = Vec::new();
    v.push(e);
    assert(entries_view(v@) =~= seq![e@]);
    v
}

fn no_entries() -> (r: Vec<EntryPoint>)
    ensures
        entries_view(r@) == Seq::<EntryView>::empty(),
{
    let v: Vec<EntryPoint> = Vec::new();
    assert(entries_view(v@) =~= Seq::<EntryView>::empty());
    v
}

/// Appends the entries of `more` to `v`.
fn append_entries(v: &mut Vec<EntryPoint>, more: Vec<EntryPoint>)
    ensures
        entries_view(final(v)@) == entries_view(old(v)@) + entries_view(more@),
{
    let ghost start = entries_view(v@);
    let ghost mv = entries_view(more@);
    let ghost n = more@.len();
    for e in it: more.into_iter()
        invariant
            it.seq().len() == n,
            mv.len() == n,
            forall|j: int| 0 <= j < n ==> #[trigger] mv[j] == it.seq()[j]@,
            entries_view(v@) == start + mv.take(it.index() as int),
    {
        let ghost i = it.index() as int;
        let ghost before = v@;
        v.push(e);
        proof {
            assert(entries_view(v@) =~= entries_view(before).push(mv[i]));
            assert(mv.take(i + 1) =~= mv.take(i).push(mv[i]));
        }
    }
    assert(mv.take(n as int) =~= mv);
}

fn main_part_exec(ls: &Vec<Vec<char>>, i: usize) -> (r: Vec<EntryPoint>)
    requires
        i < ls@.len(),
        ls@.len() + 8 < u32::MAX,
    ensures
        entries_view(r@) == main_part(vviews(ls@), i as int),
{
    assert(vviews(ls@)[i as int] == ls@[i as int]@);
    let line = &ls[i];
    let t = trim_vec(line.as_slice());
    let pat = lit("fn main(");
    if contains_seq(t.as_slice(), pat.as_slice()) {
        let ln = i as u32 + 1;
        let col = column_of_exec(line.as_slice(), pat.as_slice());
        single(entry(owned("main"), EntryPointType::Main, ln, col, (ln, ln), None))
    } else {
        no_entries()
    }
}

fn bench_part_exec(ls: &Vec<Vec<char>>, i: usize) -> (r: Vec<EntryPoint>)
    requires
        i < ls@.len(),
        ls@.len() + 8 < u32::MAX,
    ensures
        entries_view(r@) == bench_part(vviews(ls@), i as int),
{
    assert(vviews(ls@)[i as int] == ls@[i as int]@);
    let t = trim_vec(ls[i].as_slice());
    if starts_with_seq(t.as_slice(), lit("#[bench]").as_slice()) && ls.len() - i > 1 {
        match function_name_on_line(ls, i + 1) {
            Some(f) => {
                let ln = i as u32 + 1;
                single(entry(f, EntryPointType::Benchmark, i as u32 + 2, 0, (ln, ln), None))
            },
            None => no_entries(),
        }
    } else {
        no_entries()
    }
}

fn criterion_part_exec(ls: &Vec<Vec<char>>, i: usize) -> (r: Vec<EntryPoint>)
    requires
        i < ls@.len(),
        ls@.len() + 8 < u32::MAX,
    ensures
        entries_view(r@) == criterion_part(vviews(ls@), i as int),
{
    assert(vviews(ls@)[i as int] == ls@[i as int]@);
    let t = trim_vec(ls[i].as_slice());
    if contains_seq(t.as_slice(), lit("criterion_group!").as_slice()) || contains_seq(
        t.as_slice(),
        lit("criterion_main!").as_slice(),
    ) {
        let ln = i as u32 + 1;
        single(entry(owned("criterion_bench"), EntryPointType::Benchmark, ln, 0, (ln, ln), None))
    } else {
        no_entries()
    }
}

impl Scanner {
    fn new() -> (r: Scanner)
        ensures
            r@ == initial_scan(),
    {
        let r = Scanner {
            entries: Vec::new(),
            modules: Vec::new(),
            depths: Vec::new(),
            depth: 0,
            in_test_module: false,
            test_module_depth: 0,
            in_doc_comment: false,
            in_doc_code_block: false,
            doc_test_start: None,
            doc_start_line: None,
        };
        assert(entries_view(r.entries@) =~= seq![]);
        assert(views(r.modules@) =~= seq![]);
        assert(r.depths@ =~= seq![]);
        r
    }

    spec fn wf(&self) -> bool {
        self.modules@.len() == self.depths@.len()
    }

    fn close_one(&mut self)
        requires
            old(self).wf(),
        ensures
            final(self).wf(),
            final(self)@ == close_one(old(self)@),
    {
        self.depth = self.depth.saturating_sub(1);
        let ghost after_depth = self@;
        while self.depths.len() > 0 && self.depth < self.depths[self.depths.len() - 1]
            invariant
                self.wf(),
                pop_scopes(self@) == pop_scopes(after_depth),
            decreases self.depths.len(),
        {
            let ghost before = self@;
            self.depths.pop();
            self.modules.pop();
            proof {
                assert(views(self.modules@) =~= before.modules.drop_last());
                assert(self@ == ScanState {
                    modules: before.modules.drop_last(),
                    depths: before.depths.drop_last(),
                    ..before
                });
            }
        }
        if self.in_test_module && self.depth < self.test_module_depth {
            self.in_test_module = false;
        }
    }

    fn push_module(&mut self, name: String)
        requires
            old(self).wf(),
        ensures
            final(self).wf(),
            final(self)@ == (ScanState {
                modules: old(self)@.modules.push(name@),
                depths: old(self)@.depths.push(old(self)@.depth),
                ..old(self)@
            }),
    {
        let ghost before = self.modules@;
        self.modules.push(name);
        self.depths.push(self.depth);
        proof {
            crate::text::lemma_views_push(before, self.modules@.last());
            assert(self.modules@ == before.push(self.modules@.last()));
        }
    }

    fn doc_step(&mut self, ls: &Vec<Vec<char>>, i: usize, cursor: Option<Position>)
        requires
            old(self).wf(),
            old(self)@.doc_start_line matches Some(l) ==> l <= i,
            i < ls@.len(),
            ls@.len() + 8 < u32::MAX,
            match cursor {
                Some(c) => c.line < u32::MAX,
                None => true,
            },
        ensures
            final(self).wf(),
            final(self)@ == doc_step(old(self)@, vviews(ls@), i as int, cursor),
            final(self)@.doc_start_line matches Some(l) ==> l <= i,
    {
        let ghost lv = vviews(ls@);
        assert(lv[i as int] == ls@[i as int]@);
        let t = trim_vec(ls[i].as_slice());
        let ts = t.as_slice();
        if starts_with_seq(ts, lit("///").as_slice()) || starts_with_seq(ts, lit("//!").as_slice()) {
            if !self.in_doc_comment {
                self.doc_start_line = Some(i);
            }
            self.in_doc_comment = true;
            let opens = seq_eq(ts, lit("/// ```").as_slice()) || seq_eq(ts, lit("/// ```rust").as_slice())
                || seq_eq(ts, lit("//! ```").as_slice()) || seq_eq(ts, lit("//! ```rust").as_slice());
            if opens && !self.in_doc_code_block {
                self.in_doc_code_block = true;
                self.doc_test_start = Some(i as u32 + 1);
            } else if seq_eq(ts, lit("/// ```").as_slice()) && self.in_doc_code_block {
                self.in_doc_code_block = false;
            }
        } else if self.in_doc_comment && !starts_with_seq(ts, lit("//").as_slice()) {
            let ghost st = self@;
            let found: Vec<EntryPoint> = match (cursor, self.doc_test_start) {
                (Some(c), Some(start)) => {
                    if c.line + 1 >= start && c.line < i as u32 + 1 {
                        match doc_item_exec(ls, i) {
                            Some(name) => {
                                let first: u32 = match self.doc_start_line {
                                    Some(l) => l as u32 + 1,
                                    None => 1,
                                };
                                let nm = name.clone();
                                single(
                                    entry(
                                        name,
                                        EntryPointType::DocTest,
                                        start,
                                        0,
                                        (first, (i as u32).saturating_sub(1)),
                                        Some(nm),
                                    ),
                                )
                            },
                            None => no_entries(),
                        }
                    } else {
                        no_entries()
                    }
                },
                _ => no_entries(),
            };
            assert(entries_view(found@) == doc_entry(st, lv, i as int, cursor));
            append_entries(&mut self.entries, found);
            self.in_doc_comment = false;
            self.in_doc_code_block = false;
            self.doc_test_start = None;
            self.doc_start_line = None;
        }
    }
}

fn concat_chars(a: &[char], b: &[char]) -> (r: Vec<char>)
    ensures
        r@ == a@ + b@,
{
    let mut v = sub_vec(a, 0, a.len());
    let mut i: usize = 0;
    assert(a@.subrange(0, a@.len() as int) =~= a@);
    while i < b.len()
        invariant
            i <= b@.len(),
            v@ == a@ + b@.take(i as int),
        decreases b.len() - i,
    {
        v.push(b[i]);
        assert(b@.take(i + 1) =~= b@.take(i as int).push(b@[i as int]));
        assert(v@ =~= a@ + b@.take(i + 1));
        i += 1;
    }
    assert(b@.take(b@.len() as int) =~= b@);
    v
}

impl Scanner {
    fn tests_part_exec(&self, ls: &Vec<Vec<char>>, i: usize, fmp: &Vec<String>) -> (r: Vec<EntryPoint>)
        requires
            i < ls@.len(),
            ls@.len() + 8 < u32::MAX,
        ensures
            entries_view(r@) == tests_part(self@, vviews(ls@), i as int, views(fmp@)),
    {
        let ghost lv = vviews(ls@);
        let ghost st = self@;
        let ghost fv = views(fmp@);
        assert(lv[i as int] == ls@[i as int]@);
        let line = &ls[i];
        let t = trim_vec(line.as_slice());
        let ts = string_from(t.as_slice());
        let ln = i as u32 + 1;
        let attr = regex_is_match("#\\[(\\w+::)?test\\]", ts.as_str());
        let is_attr = match attr {
            Some(b) => b,
            None => false,
        };
        if is_attr {
            assert(ts@ == trim(lv[i as int]));
            assert(regex_matches(test_attr_pattern(), trim(lv[i as int])) == Some(true));
            assert(tests_part(st, lv, i as int, fv) == test_after_attr(st, lv, i as int, fv, 1));
            let mut k: usize = 1;
            while k <= 3
                invariant
                    lv == vviews(ls@),
                    st == self@,
                    fv == views(fmp@),
                    i < ls@.len(),
                    ls@.len() + 8 < u32::MAX,
                    ln == i + 1,
                    1 <= k <= 4,
                    tests_part(st, lv, i as int, fv) == test_after_attr(st, lv, i as int, fv, 1),
                    test_after_attr(st, lv, i as int, fv, 1) == test_after_attr(
                        st,
                        lv,
                        i as int,
                        fv,
                        k as int,
                    ),
                decreases 4 - k,
            {
                if k < ls.len() - i {
                    match function_name_on_line(ls, i + k) {
                        Some(f) => {
                            let full = join_path_parts(fmp, &self.modules, Some(&f));
                            assert(lv[i + k] == ls@[i + k]@);
                            assert(full@ == scoped_path(fv, st.modules, f@));
                            assert(test_after_attr(st, lv, i as int, fv, k as int) == seq![
                                EntryView {
                                    name: f@,
                                    entry_type: EntryPointType::Test,
                                    line: (i + k + 1) as u32,
                                    column: 0,
                                    line_range: ((i + 1) as u32, (i + 1) as u32),
                                    full_path: Some(scoped_path(fv, st.modules, f@)),
                                },
                            ]);
                            let line_no: u32 = (i + k) as u32 + 1;
                            assert(line_no == (i + k + 1) as u32);
                            let ghost fv2 = f@;
                            let e = entry(f, EntryPointType::Test, line_no, 0, (ln, ln), Some(full));
                            assert(e@ == EntryView {
                                name: fv2,
                                entry_type: EntryPointType::Test,
                                line: (i + k + 1) as u32,
                                column: 0,
                                line_range: ((i + 1) as u32, (i + 1) as u32),
                                full_path: Some(scoped_path(fv, st.modules, fv2)),
                            });
                            return single(e);
                        },
                        None => {},
                    }
                }
                k += 1;
            }
            no_entries()
        } else if (starts_with_seq(t.as_slice(), lit("fn test_").as_slice()) || contains_seq(
            t.as_slice(),
            lit("fn test_").as_slice(),
        )) && (self.in_test_module || contains_seq(t.as_slice(), lit("#[").as_slice())) {
            match function_name_chars(t.as_slice()) {
                Some(f) => {
                    let fc = chars_of(f.as_str());
                    let pat = concat_chars(lit("fn ").as_slice(), fc.as_slice());
                    let col = column_of_exec(line.as_slice(), pat.as_slice());
                    let full = join_path_parts(fmp, &self.modules, Some(&f));
                    single(entry(f, EntryPointType::Test, ln, col, (ln, ln), Some(full)))
                },
                None => no_entries(),
            }
        } else {
            no_entries()
        }
    }

    fn structure_line(&mut self, ls: &Vec<Vec<char>>, i: usize)
        requires
            old(self).wf(),
            i < ls@.len(),
        ensures
            final(self).wf(),
            final(self)@.doc_start_line == old(self)@.doc_start_line,
            final(self)@.entries == old(self)@.entries,
            final(self)@ == structure_step(old(self)@, vviews(ls@), i as int),
    {
        let ghost lv = vviews(ls@);
        let ghost st0 = self@;
        assert(lv[i as int] == ls@[i as int]@);
        let t = trim_vec(ls[i].as_slice());
        let close = count_char_exec(t.as_slice(), '}');
        let mut k: usize = 0;
        while k < close
            invariant
                self.wf(),
                self@ == close_n(st0, k as nat),
                self@.doc_start_line == st0.doc_start_line,
                self@.entries == st0.entries,
                k <= close,
            decreases close - k,
        {
            proof {
                lemma_pop_scopes_keeps(ScanState { depth: self@.depth.saturating_sub(1), ..self@ });
            }
            self.close_one();
            k += 1;
        }
        let open = count_char_exec(t.as_slice(), '{');
        self.depth = self.depth.saturating_add(open as u32);
        if seq_eq(t.as_slice(), lit("#[cfg(test)]").as_slice()) {
            self.in_test_module = true;
            self.test_module_depth = self.depth;
        }
        match mod_decl_exec(ls, i) {
            Some(name) => {
                let was_in_test = self.in_test_module;
                let is_test = str_contains(name.as_str(), "test");
                self.push_module(name);
                if is_test && !was_in_test {
                    self.in_test_module = true;
                    self.test_module_depth = self.depth;
                }
            },
            None => {},
        }
    }

    fn scan_line(&mut self, ls: &Vec<Vec<char>>, i: usize, cursor: Option<Position>, fmp: &Vec<String>)
        requires
            old(self).wf(),
            old(self)@.doc_start_line matches Some(l) ==> l < i,
            i < ls@.len(),
            ls@.len() + 8 < u32::MAX,
            match cursor {
                Some(c) => c.line < u32::MAX,
                None => true,
            },
        ensures
            final(self).wf(),
            final(self)@.doc_start_line matches Some(l) ==> l <= i,
            final(self)@ == scan_step(old(self)@, vviews(ls@), i as int, cursor, views(fmp@)),
    {
        self.structure_line(ls, i);
        self.doc_step(ls, i, cursor);
        let ghost s5 = self@;
        let mut found = main_part_exec(ls, i);
        append_entries(&mut found, self.tests_part_exec(ls, i, fmp));
        append_entries(&mut found, bench_part_exec(ls, i));
        append_entries(&mut found, criterion_part_exec(ls, i));
        assert(entries_view(found@) == line_entries(s5, vviews(ls@), i as int, views(fmp@)));
        append_entries(&mut self.entries, found);
    }
}

impl FileDetector {
    /// The entry points of a file (main functions, tests, benchmarks, doc
    /// tests, the test module under the cursor), found line by line.
    fn detect_entry_points_by_lines(
        file_path: &str,
        content: &str,
        cursor: Option<Position>,
        project_type: &RustProjectType,
    ) -> (r: RazResult<Vec<EntryPoint>>)
        requires
            lines(content@).len() + 8 < u32::MAX,
            match cursor {
                Some(c) => c.line < u32::MAX,
                None => true,
            },
        ensures
            r is Ok,
            entries_view(r->Ok_0@) == entry_points_spec(
                lines(content@),
                cursor,
                module_path_from_file(file_path@, project_type@),
            ),
    {
        let c = chars_of(content);
        let ls = lines_of(c.as_slice());
        let ghost lv = vviews(ls@);
        let fmp = Self::build_module_path_from_file(file_path, project_type);
        let ghost fv = views(fmp@);
        let mut sc = Scanner::new();
        let mut i: usize = 0;
        while i < ls.len()
            invariant
                lv == vviews(ls@),
                lv == lines(content@),
                fv == views(fmp@),
                ls@.len() + 8 < u32::MAX,
                match cursor {
                    Some(c) => c.line < u32::MAX,
                    None => true,
                },
                i <= ls@.len(),
                sc.wf(),
                sc@.doc_start_line matches Some(l) ==> l < i,
                sc@ == scan_upto(lv, i as int, cursor, fv),
            decreases ls.len() - i,
        {
            sc.scan_line(&ls, i, cursor, &fmp);
            i += 1;
        }
        let ghost st = sc@;
        let n = ls.len();
        let doc = trailing_doc_exec(&sc, n, cursor);
        let mut entries = sc.entries;
        append_entries(&mut entries, doc);
        let modules = sc.modules;
        let more = module_entry_exec(sc.in_test_module, &modules, &entries, cursor, &fmp);
        append_entries(&mut entries, more);
        Ok(entries)
    }
}

/// Whether the lines up to and including line `i` leave a doc comment
/// open, given whether one was open before it: a doc line opens one, a
/// line that is not a comment closes it.
pub open spec fn doc_open_after(ls: Seq<Seq<char>>, i: int, open: bool) -> bool {
    let t = trim(ls[i]);
    if is_doc_line(t) {
        true
    } else if open && !has_prefix(t, "//"@) {
        false
    } else {
        open
    }
}

/// The `main` functions and benchmarks that the first `k` lines declare
/// outside doc comments, and whether a doc comment is open after them.
pub open spec fn non_test_scan(ls: Seq<Seq<char>>, k: int) -> (Seq<EntryView>, bool)
    decreases k,
{
    if k <= 0 || k > ls.len() {
        (seq![], false)
    } else {
        let (es, open) = non_test_scan(ls, k - 1);
        let now = doc_open_after(ls, k - 1, open);
        (es + if now {
            seq![]
        } else {
            main_part(ls, k - 1) + bench_part(ls, k - 1) + criterion_part(ls, k - 1)
        }, now)
    }
}

/// The `main` functions and benchmarks a text declares outside doc
/// comments, line by line.
pub open spec fn non_test_entries(content: Seq<char>) -> Seq<EntryView> {
    non_test_scan(lines(content), lines(content).len() as int).0
}

/// A test or test module's path under the file's module path.
pub open spec fn under_file_path(e: EntryView, fmp: Seq<Seq<char>>) -> EntryView {
    if e.entry_type == EntryPointType::Test || e.entry_type == EntryPointType::TestModule {
        match e.full_path {
            Some(p) => EntryView { full_path: Some(join(fmp.push(p), "::"@)), ..e },
            None => if fmp.len() > 0 {
                EntryView { full_path: Some(join(fmp.push(e.name), "::"@)), ..e }
            } else {
                e
            },
        }
    } else {
        e
    }
}

/// The entry points of a file: those of its syntax tree, with the paths of
/// tests under the file's module path, then the `main` functions and
/// benchmarks found line by line; where the tree gives none, those found
/// line by line alone.
pub open spec fn file_entry_points(content: Seq<char>, cursor: Option<Position>, fmp: Seq<
    Seq<char>,
>) -> Seq<EntryView> {
    match entry_points_of(content) {
        Some(es) => es.map_values(|e: EntryView| under_file_path(e, fmp)) + non_test_entries(
            content,
        ),
        None => entry_points_spec(lines(content), cursor, fmp),
    }
}

/// Puts the paths of tests and test modules under the file's module path.
fn place_under_file_path(entries: &mut Vec<EntryPoint>, fmp: &Vec<String>)
    ensures
        entries_view(final(entries)@) == entries_view(old(entries)@).map_values(
            |e: EntryView| under_file_path(e, views(fmp@)),
        ),
{
    let ghost start = entries_view(entries@);
    let ghost fv = views(fmp@);
    let mut i: usize = 0;
    while i < entries.len()
        invariant
            i <= entries@.len(),
            entries@.len() == start.len(),
            fv == views(fmp@),
            forall|j: int| 0 <= j < i ==> #[trigger] entries@[j]@ == under_file_path(start[j], fv),
            forall|j: int| i <= j < entries@.len() ==> #[trigger] entries@[j]@ == start[j],
        decreases entries.len() - i,
    {
        let t = entries[i].entry_type;
        if t == EntryPointType::Test || t == EntryPointType::TestModule {
            let tail: Option<String> = match &entries[i].full_path {
                Some(p) => Some(p.clone()),
                None => if fmp.len() > 0 {
                    Some(entries[i].name.clone())
                } else {
                    None
                },
            };
            match tail {
                Some(last) => {
                    let mut parts = copy_strings(fmp);
                    parts.push(last);
                    proof {
                        assert(views(parts@) =~= fv.push(views(parts@).last()));
                    }
                    let joined = join_strings(&parts, "::");
                    let old_entry = copy_entry_point(&entries[i]);
                    let updated = EntryPoint { full_path: Some(joined), ..old_entry };
                    entries.set(i, updated);
                },
                None => {},
            }
        }
        i += 1;
    }
    assert(entries_view(entries@) =~= start.map_values(|e: EntryView| under_file_path(e, fv)));
}

fn copy_entry_point(e: &EntryPoint) -> (r: EntryPoint)
    ensures
        r@ == e@,
{
    EntryPoint {
        name: e.name.clone(),
        entry_type: e.entry_type,
        line: e.line,
        column: e.column,
        line_range: e.line_range,
        full_path: copy_opt(&e.full_path),
    }
}

impl FileDetector {
    /// The `main` functions and benchmarks declared outside doc comments,
    /// found line by line.
    fn detect_non_test_entries(content: &str) -> (r: RazResult<Vec<EntryPoint>>)
        requires
            lines(content@).len() + 8 < u32::MAX,
        ensures
            r is Ok,
            entries_view(r->Ok_0@) == non_test_entries(content@),
    {
        let c = chars_of(content);
        let ls = lines_of(c.as_slice());
        let ghost lv = vviews(ls@);
        let mut entry_points: Vec<EntryPoint> = Vec::new();
        let mut in_doc_comment = false;
        let mut i: usize = 0;
        let slashes = lit("//");
        assert(entries_view(entry_points@) =~= Seq::<EntryView>::empty());
        while i < ls.len()
            invariant
                lv == vviews(ls@),
                lv == lines(content@),
                slashes@ == "//"@,
                lv.len() + 8 < u32::MAX,
                i <= lv.len(),
                non_test_scan(lv, i as int) == (entries_view(entry_points@), in_doc_comment),
            decreases ls.len() - i,
        {
            let line = &ls[i];
            assert(lv[i as int] == line@);
            let t = trim_vec(line.as_slice());
            let doc = starts_with_seq(t.as_slice(), lit("///").as_slice()) || starts_with_seq(
                t.as_slice(),
                lit("//!").as_slice(),
            );
            if doc {
                in_doc_comment = true;
            } else if in_doc_comment && !starts_with_seq(t.as_slice(), slashes.as_slice()) {
                in_doc_comment = false;
            }
            if !in_doc_comment {
                append_entries(&mut entry_points, main_part_exec(&ls, i));
                append_entries(&mut entry_points, bench_part_exec(&ls, i));
                append_entries(&mut entry_points, criterion_part_exec(&ls, i));
            }
            proof {
                assert(entries_view(entry_points@) =~= non_test_scan(lv, i + 1).0);
            }
            i += 1;
        }
        Ok(entry_points)
    }

    /// The entry points of a file (tests, test modules, `main` functions,
    /// benchmarks, doc tests), from its syntax tree where the source gives
    /// one, else line by line.
    pub fn detect_entry_points(
        file_path: &str,
        content: &str,
        cursor: Option<Position>,
        project_type: &RustProjectType,
    ) -> (r: RazResult<Vec<EntryPoint>>)
        requires
            lines(content@).len() + 8 < u32::MAX,
            match cursor {
                Some(c) => c.line < u32::MAX,
                None => true,
            },
        ensures
            r is Ok,
            entries_view(r->Ok_0@) == file_entry_points(
                content@,
                cursor,
                module_path_from_file(file_path@, project_type@),
            ),
    {
        match TreeSitterTestDetector::new() {
            Ok(mut detector) => {
                match detector.detect_entry_points(content, cursor) {
                    Ok(mut tree_sitter_entries) => {
                        let file_module_path = Self::build_module_path_from_file(
                            file_path,
                            project_type,
                        );
                        place_under_file_path(&mut tree_sitter_entries, &file_module_path);
                        let more = Self::detect_non_test_entries(content)?;
                        append_entries(&mut tree_sitter_entries, more);
                        return Ok(tree_sitter_entries);
                    },
                    Err(_) => {},
                }
            },
            Err(_) => {},
        }
        Self::detect_entry_points_by_lines(file_path, content, cursor, project_type)
    }
}

fn trailing_doc_exec(sc: &Scanner, n: usize, cursor: Option<Position>) -> (r: Vec<EntryPoint>)
    requires
        n + 8 < u32::MAX,
        sc@.doc_start_line matches Some(l) ==> l < n,
        match cursor {
            Some(c) => c.line < u32::MAX,
            None => true,
        },
    ensures
        entries_view(r@) == trailing_doc_part(sc@, n as int, cursor),
{
    match cursor {
        Some(c) => {
            if sc.in_doc_comment {
                match sc.doc_test_start {
                    Some(start) => {
                        if c.line + 1 >= start {
                            let first: u32 = match sc.doc_start_line {
                                Some(l) => l as u32 + 1,
                                None => 1,
                            };
                            return single(
                                entry(
                                    owned("doc_test"),
                                    EntryPointType::DocTest,
                                    start,
                                    0,
                                    (first, n as u32),
                                    None,
                                ),
                            );
                        }
                    },
                    None => {},
                }
            }
        },
        None => {},
    }
    no_entries()
}

fn module_entry_exec(
    in_test_module: bool,
    modules: &Vec<String>,
    found: &Vec<EntryPoint>,
    cursor: Option<Position>,
    fmp: &Vec<String>,
) -> (r: Vec<EntryPoint>)
    requires
        match cursor {
            Some(c) => c.line < u32::MAX,
            None => true,
        },
    ensures
        entries_view(r@) == module_part_entry(
            in_test_module,
            views(modules@),
            entries_view(found@),
            cursor,
            views(fmp@),
        ),
{
    match cursor {
        Some(c) => {
            if in_test_module && modules.len() > 0 {
                let cl = c.line + 1;
                let ghost fv = entries_view(found@);
                let mut on_test = false;
                let mut j: usize = 0;
                while j < found.len()
                    invariant
                        fv == entries_view(found@),
                        j <= found@.len(),
                        on_test <==> exists|m: int|
                            0 <= m < j && #[trigger] fv[m].entry_type == EntryPointType::Test
                                && fv[m].line == cl,
                    decreases found.len() - j,
                {
                    assert(fv[j as int] == found@[j as int]@);
                    let hit = found[j].entry_type == EntryPointType::Test && found[j].line == cl;
                    assert(hit == (fv[j as int].entry_type == EntryPointType::Test && fv[j as int].line
                        == cl));
                    if hit {
                        on_test = true;
                    }
                    j += 1;
                }
                if !on_test {
                    let last = modules.len() - 1;
                    let mut name = modules[last].clone();
                    name.append("_module");
                    let full = join_path_parts(fmp, modules, None);
                    proof {
                        assert(views(modules@).last() == modules@[last as int]@);
                        assert(views(fmp@) + views(modules@) + seq![] =~= views(fmp@) + views(modules@));
                    }
                    return single(
                        entry(name, EntryPointType::TestModule, cl, 0, (cl, cl), Some(full)),
                    );
                }
            }
        },
        None => {},
    }
    no_entries()
}

/// What the file system shows about a file: its path and text, the nearest
/// manifest found going up from its directory, and the manifest of each
/// enclosing directory, nearest first.
pub struct FileInputs {
    pub file_path: String,
    pub content: String,
    /// The directory of the nearest `Cargo.toml` and the text of that file.
    pub manifest: Option<(String, String)>,
    /// The text of `Cargo.toml` in each enclosing directory (`None` where there is none).
    pub ancestor_manifests: Vec<Option<String>>,
}

pub open spec fn manifest_view(m: Option<(String, String)>) -> Option<(Seq<char>, Seq<char>)> {
    match m {
        Some(p) => Some((p.0@, p.1@)),
        None => None,
    }
}

/// The project a file belongs to, before its role is known.
pub open spec fn initial_project(
    path: Seq<char>,
    content: Seq<char>,
    manifest: Option<(Seq<char>, Seq<char>)>,
    force_standalone: bool,
) -> ProjectTypeView {
    if force_standalone {
        single_file_spec(path, content)
    } else {
        match manifest {
            Some((root, text)) => cargo_project_spec(text, root, path, content),
            None => single_file_spec(path, content),
        }
    }
}

/// The project a file belongs to: a file that stands outside the usual
/// places of a cargo project counts as a single file.
pub open spec fn final_project(
    path: Seq<char>,
    content: Seq<char>,
    manifest: Option<(Seq<char>, Seq<char>)>,
    manifests: Seq<Option<Seq<char>>>,
    force_standalone: bool,
) -> ProjectTypeView {
    let pt = initial_project(path, content, manifest, force_standalone);
    let role = file_role_spec(path, pt, manifests);
    if role is Standalone && (pt is CargoPackage || pt is CargoWorkspace) {
        single_file_spec(path, content)
    } else {
        pt
    }
}

/// What detection may be run on: the file's text has fewer lines than fit
/// a line number, its cargo-script manifest (if any) can be cut out, and
/// the cursor's line has a successor.
pub open spec fn detectable(content: Seq<char>, cursor: Option<Position>) -> bool {
    &&& lines(content).len() + 8 < u32::MAX
    &&& cargo_script(content) ==> manifest_cut_ok(content)
    &&& match cursor {
        Some(c) => c.line < u32::MAX,
        None => true,
    }
}

impl FileDetector {
    /// Whether detection may be run on this text with this cursor.
    pub fn can_detect(content: &str, cursor: Option<Position>) -> (r: bool)
        ensures
            r == detectable(content@, cursor),
    {
        let c = chars_of(content);
        let ls = lines_of(c.as_slice());
        let cursor_ok = match cursor {
            Some(p) => p.line < u32::MAX,
            None => true,
        };
        ls.len() < u32::MAX as usize - 8 && (!Self::is_cargo_script(content)
            || Self::manifest_cut_possible(content)) && cursor_ok
    }

    /// The execution context of a file, optionally judging it alone
    /// whatever manifest lies above it.
    pub fn detect_context_with_options(
        inputs: &FileInputs,
        cursor: Option<Position>,
        force_standalone: bool,
    ) -> (r: RazResult<FileExecutionContext>)
        requires
            detectable(inputs.content@, cursor),
        ensures
            r is Ok,
            ({
                let ctx = r->Ok_0;
                let path = inputs.file_path@;
                let content = inputs.content@;
                let m = manifest_view(inputs.manifest);
                let anc = opt_views(inputs.ancestor_manifests@);
                let pt = final_project(path, content, m, anc, force_standalone);
                let role = file_role_spec(
                    path,
                    initial_project(path, content, m, force_standalone),
                    anc,
                );
                let entries = file_entry_points(content, cursor, module_path_from_file(path, pt));
                &&& ctx.project_type@ == pt
                &&& ctx.file_role@ == role
                &&& entries_view(ctx.entry_points@) == entries
                &&& capabilities_view(ctx.capabilities) == capabilities_spec(
                    pt,
                    role,
                    has_entry_type(entries, EntryPointType::Main),
                    has_entry_type(entries, EntryPointType::Test),
                    has_entry_type(entries, EntryPointType::Benchmark),
                )
                &&& ctx.file_path@ == path
            }),
    {
        let path = inputs.file_path.as_str();
        let content = inputs.content.as_str();
        let first = if force_standalone {
            Self::analyze_single_file(path, content)
        } else {
            match &inputs.manifest {
                Some(m) => Self::analyze_cargo_project(m.1.as_str(), m.0.as_str(), path, content),
                None => Self::analyze_single_file(path, content),
            }
        };
        let mut project_type = match first {
            Ok(p) => p,
            Err(e) => {
                return Err(e);
            },
        };
        let file_role = match Self::detect_file_role(path, &project_type, &inputs.ancestor_manifests) {
            Ok(r) => r,
            Err(e) => {
                return Err(e);
            },
        };
        let standalone = match file_role {
            FileRole::Standalone => true,
            _ => false,
        };
        let in_cargo = match project_type {
            RustProjectType::CargoPackage { .. } | RustProjectType::CargoWorkspace { .. } => true,
            _ => false,
        };
        if standalone && in_cargo {
            project_type = match Self::analyze_single_file(path, content) {
                Ok(p) => p,
                Err(e) => {
                    return Err(e);
                },
            };
        }
        let entry_points = match Self::detect_entry_points(path, content, cursor, &project_type) {
            Ok(v) => v,
            Err(e) => {
                return Err(e);
            },
        };
        let capabilities = Self::determine_capabilities(&project_type, &file_role, &entry_points);
        Ok(
            FileExecutionContext {
                project_type,
                file_role,
                entry_points,
                capabilities,
                file_path: owned(path),
            },
        )
    }

    /// The execution context of a file.
    pub fn detect_context(inputs: &FileInputs, cursor: Option<Position>) -> (r: RazResult<FileExecutionContext>)
        requires
            detectable(inputs.content@, cursor),
        ensures
            r is Ok,
            ({
                let ctx = r->Ok_0;
                let path = inputs.file_path@;
                let content = inputs.content@;
                let m = manifest_view(inputs.manifest);
                let anc = opt_views(inputs.ancestor_manifests@);
                let pt = final_project(path, content, m, anc, false);
                &&& ctx.project_type@ == pt
                &&& ctx.file_role@ == file_role_spec(path, initial_project(path, content, m, false), anc)
                &&& entries_view(ctx.entry_points@) == file_entry_points(
                    content,
                    cursor,
                    module_path_from_file(path, pt),
                )
                &&& ctx.file_path@ == path
            }),
    {
        Self::detect_context_with_options(inputs, cursor, false)
    }
}

} // verus!
