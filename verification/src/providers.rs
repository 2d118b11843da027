//! Command providers: each one proposes the commands that fit a project.


use vstd::prelude::*;
use crate::commands::{
    Command, CommandBuilder, CommandCategory, CommandSummary, CategoryView, summary, summaries,
    push_command, append_commands,
};
use crate::context::{
    BuildTarget, FileAnalyzer, FileContext, Language, ProjectContext, ProjectType, Symbol,
    SymbolKind, TargetType, TargetView, TestContext, TestContextView, TestTargetType,
    WorkspaceMember, module_path_of, opt_view, target_view,
};
use crate::error::RazResult;
use crate::paths::{
    lemma_rs_file_stem,
    components, components_exec, file_stem, is_absolute, join_path, path_file_stem, path_has_prefix,
    path_join, path_starts_with,
};
use crate::test_commands::{TestCommandGenerator, generated_test_commands};
use crate::text::{
    chars_of, copy_pairs, copy_strings, fmt_text, has_prefix, has_sub, owned, split, split_seq,
    str_contains, str_eq, str_starts_with, string_from, views, vviews,
};

pub mod bevy;
pub mod leptos;
pub mod yew;
pub mod tauri;
pub mod dioxus;

verus! {

/// A source of commands for some kind of project. The library's providers
/// state what each method gives; a provider of the library's user is held
/// to nothing here.
pub trait CommandProvider {
    /// Unique name for this provider.
    fn name(&self) -> (r: &str);

    /// Priority for this provider (higher = more important).
    fn priority(&self) -> (r: u8) {
        50
    }

    /// Whether this provider can handle the given context.
    fn can_handle(&self, context: &ProjectContext) -> (r: bool) {
        true
    }

    /// Generate commands for the given context.
    fn commands(&self, context: &ProjectContext) -> (r: RazResult<Vec<Command>>);
}

/// Every command of a list carries the tag.
pub open spec fn all_tagged(s: Seq<CommandSummary>, tag: Seq<char>) -> bool {
    forall|i: int| 0 <= i < s.len() ==> (#[trigger] s[i]).tags.contains(tag)
}

pub proof fn lemma_all_tagged_concat(a: Seq<CommandSummary>, b: Seq<CommandSummary>, tag: Seq<char>)
    requires
        all_tagged(a, tag),
        all_tagged(b, tag),
    ensures
        all_tagged(a + b, tag),
{
    assert forall|i: int| 0 <= i < (a + b).len() implies (#[trigger] (a + b)[i]).tags.contains(
        tag,
    ) by {
        if i < a.len() {
            assert((a + b)[i] == a[i]);
        } else {
            assert((a + b)[i] == b[i - a.len()]);
        }
    }
}

/// Whether a list of project types holds the given framework.
pub open spec fn types_contain(v: Seq<ProjectType>, t: ProjectType) -> bool {
    exists|i: int| 0 <= i < v.len() && v[i] == t
}

pub(crate) fn same_simple_type(a: &ProjectType, b: &ProjectType) -> (r: bool)
    requires
        !(*b is Mixed),
    ensures
        r == (*a == *b),
{
    match (a, b) {
        (ProjectType::Binary, ProjectType::Binary) => true,
        (ProjectType::Library, ProjectType::Library) => true,
        (ProjectType::Workspace, ProjectType::Workspace) => true,
        (ProjectType::Leptos, ProjectType::Leptos) => true,
        (ProjectType::Dioxus, ProjectType::Dioxus) => true,
        (ProjectType::Axum, ProjectType::Axum) => true,
        (ProjectType::Bevy, ProjectType::Bevy) => true,
        (ProjectType::Tauri, ProjectType::Tauri) => true,
        (ProjectType::Yew, ProjectType::Yew) => true,
        _ => false,
    }
}

/// `Vec<ProjectType>::contains` for a framework without fields.
pub fn project_types_contain(v: &Vec<ProjectType>, t: &ProjectType) -> (r: bool)
    requires
        !(*t is Mixed),
    ensures
        r == types_contain(v@, *t),
{
    let mut i: usize = 0;
    while i < v.len()
        invariant
            i <= v@.len(),
            !(*t is Mixed),
            forall|j: int| 0 <= j < i ==> v@[j] != *t,
        decreases v.len() - i,
    {
        if same_simple_type(&v[i], t) {
            return true;
        }
        i += 1;
    }
    false
}

/// The texts of a list of string slices.
pub open spec fn texts(names: Seq<&str>) -> Seq<Seq<char>> {
    names.map_values(|x: &str| x@)
}

pub open spec fn opt_str(o: Option<&str>) -> Option<Seq<char>> {
    match o {
        Some(s) => Some(s@),
        None => None,
    }
}

/// Whether `name` is one of `names`.
pub fn name_in(name: &str, names: &[&str]) -> (r: bool)
    ensures
        r == texts(names@).contains(name@),
{
    let mut j: usize = 0;
    while j < names.len()
        invariant
            j <= names@.len(),
            forall|k: int| 0 <= k < j ==> texts(names@)[k] != name@,
        decreases names.len() - j,
    {
        if str_eq(names[j], name) {
            assert(texts(names@)[j as int] == name@);
            return true;
        }
        j += 1;
    }
    false
}

/// A dependency named one of `names`, or with a name that begins with
/// `prefix`.
pub open spec fn dependency_named_in(
    context: ProjectContext,
    names: Seq<Seq<char>>,
    prefix: Option<Seq<char>>,
) -> bool {
    exists|i: int|
        0 <= i < context.dependencies@.len() && (names.contains(
            #[trigger] context.dependencies@[i].name@,
        ) || (prefix matches Some(p) && has_prefix(context.dependencies@[i].name@, p)))
}

pub fn any_dependency_named(context: &ProjectContext, names: &[&str], prefix: Option<&str>) -> (r:
    bool)
    ensures
        r == dependency_named_in(*context, texts(names@), opt_str(prefix)),
{
    let mut i: usize = 0;
    while i < context.dependencies.len()
        invariant
            i <= context.dependencies@.len(),
            forall|k: int|
                0 <= k < i ==> !(texts(names@).contains(#[trigger] context.dependencies@[k].name@)
                    || (opt_str(prefix) matches Some(p) && has_prefix(
                    context.dependencies@[k].name@,
                    p,
                ))),
        decreases context.dependencies.len() - i,
    {
        let name = context.dependencies[i].name.as_str();
        let by_prefix = match prefix {
            Some(p) => str_starts_with(name, p),
            None => false,
        };
        if name_in(name, names) || by_prefix {
            return true;
        }
        i += 1;
    }
    false
}

/// A dependency whose name contains `pattern`.
pub open spec fn dependency_name_has(context: ProjectContext, pattern: Seq<char>) -> bool {
    exists|i: int|
        0 <= i < context.dependencies@.len() && has_sub(
            #[trigger] context.dependencies@[i].name@,
            pattern,
        )
}

pub fn any_dependency_name_has(context: &ProjectContext, pattern: &str) -> (r: bool)
    ensures
        r == dependency_name_has(*context, pattern@),
{
    let mut i: usize = 0;
    while i < context.dependencies.len()
        invariant
            i <= context.dependencies@.len(),
            forall|k: int|
                0 <= k < i ==> !has_sub(#[trigger] context.dependencies@[k].name@, pattern@),
        decreases context.dependencies.len() - i,
    {
        if str_contains(context.dependencies[i].name.as_str(), pattern) {
            return true;
        }
        i += 1;
    }
    false
}

/// A feature equal to (or, when not `exact`, containing) one of `patterns`.
pub open spec fn feature_matches(f: Seq<char>, patterns: Seq<Seq<char>>, exact: bool) -> bool {
    exists|k: int|
        0 <= k < patterns.len() && (if exact {
            f == #[trigger] patterns[k]
        } else {
            has_sub(f, patterns[k])
        })
}

/// A dependency named one of `names`, or with a feature that matches.
pub open spec fn dependency_with(
    d: crate::context::Dependency,
    names: Seq<Seq<char>>,
    patterns: Seq<Seq<char>>,
    exact: bool,
) -> bool {
    names.contains(d.name@) || exists|j: int|
        0 <= j < d.features@.len() && feature_matches(
            #[trigger] d.features@[j]@,
            patterns,
            exact,
        )
}

pub open spec fn some_dependency_with(
    context: ProjectContext,
    names: Seq<Seq<char>>,
    patterns: Seq<Seq<char>>,
    exact: bool,
) -> bool {
    exists|i: int|
        0 <= i < context.dependencies@.len() && dependency_with(
            #[trigger] context.dependencies@[i],
            names,
            patterns,
            exact,
        )
}

fn feature_matches_exec(f: &str, patterns: &[&str], exact: bool) -> (r: bool)
    ensures
        r == feature_matches(f@, texts(patterns@), exact),
{
    let mut k: usize = 0;
    while k < patterns.len()
        invariant
            k <= patterns@.len(),
            forall|m: int|
                0 <= m < k ==> !(if exact {
                    f@ == #[trigger] texts(patterns@)[m]
                } else {
                    has_sub(f@, texts(patterns@)[m])
                }),
        decreases patterns.len() - k,
    {
        let hit = if exact {
            str_eq(f, patterns[k])
        } else {
            str_contains(f, patterns[k])
        };
        if hit {
            assert(texts(patterns@)[k as int] == patterns@[k as int]@);
            return true;
        }
        k += 1;
    }
    false
}

fn dependency_with_exec(
    d: &crate::context::Dependency,
    names: &[&str],
    patterns: &[&str],
    exact: bool,
) -> (r: bool)
    ensures
        r == dependency_with(*d, texts(names@), texts(patterns@), exact),
{
    if name_in(d.name.as_str(), names) {
        return true;
    }
    let mut j: usize = 0;
    while j < d.features.len()
        invariant
            j <= d.features@.len(),
            forall|m: int|
                0 <= m < j ==> !feature_matches(
                    #[trigger] d.features@[m]@,
                    texts(patterns@),
                    exact,
                ),
        decreases d.features.len() - j,
    {
        if feature_matches_exec(d.features[j].as_str(), patterns, exact) {
            return true;
        }
        j += 1;
    }
    false
}

/// Whether some dependency is named one of `names` or has a feature equal
/// to (or, when not `exact`, containing) one of `patterns`.
pub fn any_dependency_with(
    context: &ProjectContext,
    names: &[&str],
    patterns: &[&str],
    exact: bool,
) -> (r: bool)
    ensures
        r == some_dependency_with(*context, texts(names@), texts(patterns@), exact),
{
    let mut i: usize = 0;
    while i < context.dependencies.len()
        invariant
            i <= context.dependencies@.len(),
            forall|k: int|
                0 <= k < i ==> !dependency_with(
                    #[trigger] context.dependencies@[k],
                    texts(names@),
                    texts(patterns@),
                    exact,
                ),
        decreases context.dependencies.len() - i,
    {
        if dependency_with_exec(&context.dependencies[i], names, patterns, exact) {
            return true;
        }
        i += 1;
    }
    false
}

/// Whether some build target has the given type.
pub open spec fn has_target_type(targets: Seq<BuildTarget>, k: TargetType) -> bool {
    exists|i: int| 0 <= i < targets.len() && targets[i].target_type == k
}

fn any_target_of(targets: &Vec<BuildTarget>, k: TargetType) -> (r: bool)
    ensures
        r == has_target_type(targets@, k),
{
    let mut i: usize = 0;
    while i < targets.len()
        invariant
            i <= targets@.len(),
            forall|j: int| 0 <= j < i ==> targets@[j].target_type != k,
        decreases targets.len() - i,
    {
        if targets[i].target_type == k {
            return true;
        }
        i += 1;
    }
    false
}

/// The non-empty parts of a list, in order.
pub open spec fn nonempty_parts(s: Seq<Seq<char>>) -> Seq<Seq<char>>
    decreases s.len(),
{
    if s.len() == 0 {
        seq![]
    } else if s.last().len() > 0 {
        nonempty_parts(s.drop_last()).push(s.last())
    } else {
        nonempty_parts(s.drop_last())
    }
}

/// A module symbol whose name speaks of tests.
pub open spec fn is_test_module(s: Symbol) -> bool {
    s.kind == SymbolKind::Module && (s.name@ == "tests"@ || has_sub(s.name@, "test"@))
}

pub open spec fn cursor_kind_is(fc: FileContext, k: SymbolKind) -> bool {
    fc.cursor_symbol matches Some(s) && s.kind == k
}

/// The module path of a test: the file's module path, with `tests`
/// appended when the file has a test module, the cursor is on a test and
/// the path does not already name `tests`.
pub open spec fn test_module_parts(path: Seq<char>, fc: FileContext) -> Seq<Seq<char>> {
    let base = match module_path_of(path) {
        Some(m) => nonempty_parts(split(m, "::"@)),
        None => seq![],
    };
    let has_test_module = exists|i: int|
        0 <= i < fc.symbols@.len() && is_test_module(#[trigger] fc.symbols@[i]);
    if has_test_module && !base.contains("tests"@) && cursor_kind_is(fc, SymbolKind::Test) {
        base.push("tests"@)
    } else {
        base
    }
}

/// Where a workspace member lies: its path, taken from the workspace root
/// when relative.
pub open spec fn member_root(member_path: Seq<char>, root: Seq<char>) -> Seq<char> {
    if is_absolute(member_path) {
        member_path
    } else {
        join_path(root, member_path)
    }
}

/// The first member, from index `i` on, that holds the file.
pub open spec fn member_holding(
    members: Seq<WorkspaceMember>,
    root: Seq<char>,
    path: Seq<char>,
    i: int,
) -> Option<Seq<char>>
    decreases members.len() - i,
{
    if i < 0 || i >= members.len() {
        None
    } else if path_has_prefix(path, member_root(members[i].path@, root)) {
        Some(members[i].name@)
    } else {
        member_holding(members, root, path, i + 1)
    }
}

/// The package a file belongs to: the only member of a single-package
/// project, else the first member that holds the file.
pub open spec fn package_for(context: ProjectContext, path: Seq<char>) -> Option<Seq<char>> {
    if context.workspace_members@.len() == 1 {
        Some(context.workspace_members@[0].name@)
    } else {
        member_holding(context.workspace_members@, context.workspace_root@, path, 0)
    }
}

/// The components of `Path::parent`, where the path has a parent.
pub open spec fn parent_components(p: Seq<char>) -> Option<Seq<Seq<char>>> {
    let c = components(p);
    if c.len() == 0 || c.last() == "/"@ {
        None
    } else {
        Some(c.drop_last())
    }
}

/// Whether a file lies in the directory of a build target (the workspace
/// root when the target's path has no parent).
pub open spec fn in_target_dir(path: Seq<char>, target_path: Seq<char>, root: Seq<char>) -> bool {
    match parent_components(target_path) {
        Some(pc) => pc.is_prefix_of(components(path)),
        None => path_has_prefix(path, root),
    }
}

/// The first build target, from index `i` on, whose directory holds the file.
pub open spec fn target_holding(
    targets: Seq<BuildTarget>,
    root: Seq<char>,
    path: Seq<char>,
    i: int,
) -> Option<BuildTarget>
    decreases targets.len() - i,
{
    if i < 0 || i >= targets.len() {
        None
    } else if in_target_dir(path, targets[i].path@, root) {
        Some(targets[i])
    } else {
        target_holding(targets, root, path, i + 1)
    }
}

/// The test target a build target stands for.
pub open spec fn build_target_view(t: BuildTarget) -> TargetView {
    match t.target_type {
        TargetType::Binary => TargetView::Bin(t.name@),
        TargetType::Library => TargetView::Lib,
        TargetType::Test => TargetView::Test(t.name@),
        TargetType::Bench => TargetView::Bench(t.name@),
        TargetType::Example => TargetView::Example(t.name@),
    }
}

/// The test target of a file, from its path and the build targets.
pub open spec fn target_for(context: ProjectContext, path: Seq<char>) -> TargetView {
    let stem = file_stem(path);
    if has_sub(path, "/tests/"@) && stem is Some {
        TargetView::Test(stem->0)
    } else if has_sub(path, "/examples/"@) && stem is Some {
        TargetView::Example(stem->0)
    } else if has_sub(path, "/benches/"@) && stem is Some {
        TargetView::Bench(stem->0)
    } else if has_sub(path, "/src/lib.rs"@) || has_sub(path, "/src/mod.rs"@) {
        TargetView::Lib
    } else if has_sub(path, "/src/main.rs"@) {
        TargetView::Bin("main"@)
    } else if has_sub(path, "/src/bin/"@) && stem is Some {
        TargetView::Bin(stem->0)
    } else {
        match target_holding(context.build_targets@, context.workspace_root@, path, 0) {
            Some(t) => build_target_view(t),
            None => TargetView::Lib,
        }
    }
}

/// The test under the cursor: a test symbol, or a function named `test_…`.
pub open spec fn cursor_test_name(fc: FileContext) -> Option<Seq<char>> {
    match fc.cursor_symbol {
        Some(s) => if s.kind == SymbolKind::Test || (s.kind == SymbolKind::Function && has_prefix(
            s.name@,
            "test_"@,
        )) {
            Some(s.name@)
        } else {
            None
        },
        None => None,
    }
}

/// The test context of the current file: present for a Rust file when it
/// names a test, a module path or a package.
pub open spec fn resolved_test_context(context: ProjectContext) -> Option<TestContextView> {
    match context.current_file {
        None => None,
        Some(fc) => if fc.language != Language::Rust {
            None
        } else {
            let v = TestContextView {
                package_name: package_for(context, fc.path@),
                target: target_for(context, fc.path@),
                module_parts: test_module_parts(fc.path@, fc),
                test_name: cursor_test_name(fc),
                features: views(context.active_features@),
                env_vars: context.env_vars@.map_values(|p: (String, String)| (p.0@, p.1@)),
                working_dir: Some(context.workspace_root@),
            };
            if v.test_name is Some || v.module_parts.len() > 0 || v.package_name is Some {
                Some(v)
            } else {
                None
            }
        },
    }
}

/// The test commands for the current file: the precise ones when a test
/// context is found, else a plain one for a test under the cursor.
pub open spec fn cargo_context_commands(context: ProjectContext) -> Seq<CommandSummary> {
    match context.current_file {
        None => seq![],
        Some(fc) => match resolved_test_context(context) {
            Some(tc) => generated_test_commands(Some(tc)),
            None => match fc.cursor_symbol {
                Some(s) => if s.kind == SymbolKind::Test {
                    seq![cargo_test_current_cmd(s.name@, context.workspace_root@)]
                } else {
                    seq![]
                },
                None => seq![],
            },
        },
    }
}

/// The commands that every Cargo project gets.
pub open spec fn cargo_basic_commands(cwd: Seq<char>) -> Seq<CommandSummary> {
    seq![
        cargo_build_cmd(cwd),
        cargo_build_release_cmd(cwd),
        cargo_test_cmd(cwd),
        cargo_test_release_cmd(cwd),
        cargo_check_cmd(cwd),
        cargo_clippy_cmd(cwd),
        cargo_fmt_cmd(cwd),
        cargo_fmt_check_cmd(cwd),
        cargo_clean_cmd(cwd),
        cargo_update_cmd(cwd),
    ]
}

/// One run command per example target, in target order.
pub open spec fn example_commands(targets: Seq<BuildTarget>, cwd: Seq<char>) -> Seq<CommandSummary>
    decreases targets.len(),
{
    if targets.len() == 0 {
        seq![]
    } else {
        let rest = example_commands(targets.drop_last(), cwd);
        if targets.last().target_type == TargetType::Example {
            rest.push(cargo_example_cmd(targets.last().name@, cwd))
        } else {
            rest
        }
    }
}

/// The commands of the Cargo provider.
pub open spec fn cargo_provider_commands(context: ProjectContext) -> Seq<CommandSummary> {
    let cwd = context.workspace_root@;
    let targets = context.build_targets@;
    cargo_basic_commands(cwd) + (if has_target_type(targets, TargetType::Binary) {
        seq![cargo_run_cmd(cwd), cargo_run_release_cmd(cwd)]
    } else {
        seq![]
    }) + example_commands(targets, cwd) + (if has_target_type(targets, TargetType::Bench) {
        seq![cargo_bench_cmd(cwd)]
    } else {
        seq![]
    }) + (if context.workspace_members@.len() > 1 {
        seq![cargo_build_all_cmd(cwd), cargo_test_all_cmd(cwd)]
    } else {
        seq![]
    }) + cargo_context_commands(context)
}

/// Built-in cargo provider that handles standard Rust project commands.
pub struct CargoProvider {
    name: String,
}

fn comps_prefix(a: &Vec<Vec<char>>, alen: usize, b: &Vec<Vec<char>>) -> (r: bool)
    requires
        alen <= a@.len(),
    ensures
        r == vviews(a@).take(alen as int).is_prefix_of(vviews(b@)),
{
    let ghost av = vviews(a@).take(alen as int);
    let ghost bv = vviews(b@);
    if alen > b.len() {
        return false;
    }
    let mut i: usize = 0;
    while i < alen
        invariant
            i <= alen <= a@.len(),
            alen <= b@.len(),
            av == vviews(a@).take(alen as int),
            bv == vviews(b@),
            forall|j: int| 0 <= j < i ==> av[j] == bv[j],
        decreases alen - i,
    {
        if !crate::text::seq_eq(a[i].as_slice(), b[i].as_slice()) {
            assert(av[i as int] != bv[i as int]);
            assert(!av.is_prefix_of(bv)) by {
                if av.is_prefix_of(bv) {
                    assert(av[i as int] == bv.subrange(0, av.len() as int)[i as int]);
                }
            }
            return false;
        }
        i += 1;
    }
    assert(av =~= bv.subrange(0, av.len() as int));
    true
}

/// Whether a file lies in the directory of a build target.
fn in_target_dir_exec(path: &str, target_path: &str, root: &str) -> (r: bool)
    ensures
        r == in_target_dir(path@, target_path@, root@),
{
    let tv = chars_of(target_path);
    let tc = components_exec(tv.as_slice());
    let ghost tcv = vviews(tc@);
    let slash = ['/'];
    proof {
        reveal_strlit("/");
        assert(slash@ =~= "/"@);
    }
    if tc.len() == 0 || crate::text::seq_eq(tc[tc.len() - 1].as_slice(), &slash) {
        proof {
            if tc.len() > 0 {
                assert(tcv.last() == tc@[tc.len() - 1]@);
            }
        }
        path_starts_with(path, root)
    } else {
        let pv = chars_of(path);
        let pc = components_exec(pv.as_slice());
        let r = comps_prefix(&tc, tc.len() - 1, &pc);
        proof {
            assert(tcv.last() == tc@[tc.len() - 1]@);
            assert(vviews(tc@).take(tc.len() - 1) =~= tcv.drop_last());
        }
        r
    }
}

impl CargoProvider {
    pub closed spec fn spec_provider_name(&self) -> Seq<char> {
        self.name@
    }

    pub fn new() -> (r: Self)
        ensures
            r.spec_provider_name() == "cargo"@,
    {
        CargoProvider { name: owned("cargo") }
    }

    /// Resolve the test context of the current file, for precise test
    /// commands.
    fn resolve_test_context(&self, context: &ProjectContext) -> (r: RazResult<Option<TestContext>>)
        ensures
            r is Ok,
            match r->Ok_0 {
                Some(tc) => resolved_test_context(*context) == Some(tc@),
                None => resolved_test_context(*context) is None,
            },
    {
        let file_context = match &context.current_file {
            Some(fc) => fc,
            None => {
                return Ok(None);
            },
        };
        if file_context.language != Language::Rust {
            return Ok(None);
        }
        let mut test_context = TestContext::new();
        test_context.package_name = match self.resolve_package_name(
            context,
            file_context.path.as_str(),
        ) {
            Ok(p) => p,
            Err(e) => {
                return Err(e);
            },
        };
        test_context.target_type = match self.resolve_target_type(
            context,
            file_context.path.as_str(),
        ) {
            Ok(t) => t,
            Err(e) => {
                return Err(e);
            },
        };
        test_context.module_parts = match self.build_module_path(
            file_context.path.as_str(),
            file_context,
        ) {
            Ok(m) => m,
            Err(e) => {
                return Err(e);
            },
        };
        if let Some(cursor_symbol) = &file_context.cursor_symbol {
            if cursor_symbol.kind == SymbolKind::Test || (cursor_symbol.kind
                == SymbolKind::Function && str_starts_with(cursor_symbol.name.as_str(), "test_")) {
                test_context.test_name = Some(cursor_symbol.name.clone());
            }
        }
        test_context.features = copy_strings(&context.active_features);
        test_context.env_vars = copy_pairs(&context.env_vars);
        test_context.working_dir = Some(context.workspace_root.clone());
        proof {
            let fc = context.current_file->0;
            assert(test_context@.test_name == cursor_test_name(fc));
        }
        if test_context.is_precise() || test_context.package_name.is_some() {
            Ok(Some(test_context))
        } else {
            Ok(None)
        }
    }

    /// The module path of a test: the file's module path, with `tests`
    /// appended when the cursor is on a test in a file with a test module.
    fn build_module_path(&self, file_path: &str, file_context: &FileContext) -> (r: RazResult<
        Vec<String>,
    >)
        ensures
            r is Ok,
            views(r->Ok_0@) == test_module_parts(file_path@, *file_context),
    {
        let mut module_parts: Vec<String> = Vec::new();
        let ghost base: Seq<Seq<char>> = match module_path_of(file_path@) {
            Some(m) => nonempty_parts(split(m, "::"@)),
            None => seq![],
        };
        if let Some(base_path) = FileAnalyzer::extract_module_path(file_path) {
            let chars = chars_of(base_path.as_str());
            let sep = [':', ':'];
            proof {
                reveal_strlit("::");
                assert(sep@ =~= "::"@);
            }
            let parts = split_seq(chars.as_slice(), &sep);
            let ghost pv = vviews(parts@);
            let mut i: usize = 0;
            while i < parts.len()
                invariant
                    i <= parts@.len(),
                    pv == vviews(parts@),
                    views(module_parts@) == nonempty_parts(pv.take(i as int)),
                decreases parts.len() - i,
            {
                proof {
                    assert(pv.take(i + 1).drop_last() =~= pv.take(i as int));
                    assert(pv.take(i + 1).last() == parts@[i as int]@);
                }
                if parts[i].len() > 0 {
                    let ghost before = module_parts@;
                    module_parts.push(string_from(parts[i].as_slice()));
                    proof {
                        crate::text::lemma_views_push(before, module_parts@.last());
                        assert(module_parts@ == before.push(module_parts@.last()));
                    }
                }
                i += 1;
            }
            assert(pv.take(parts@.len() as int) =~= pv);
        }
        assert(views(module_parts@) == base);
        let mut has_test_module = false;
        let mut k: usize = 0;
        while k < file_context.symbols.len()
            invariant
                k <= file_context.symbols@.len(),
                has_test_module == exists|j: int|
                    0 <= j < k && is_test_module(#[trigger] file_context.symbols@[j]),
            decreases file_context.symbols.len() - k,
        {
            let s = &file_context.symbols[k];
            if s.kind == SymbolKind::Module && (str_eq(s.name.as_str(), "tests") || str_contains(
                s.name.as_str(),
                "test",
            )) {
                has_test_module = true;
            }
            k += 1;
        }
        if has_test_module && !crate::commands::strings_contain(&module_parts, "tests") {
            let likely_in_test = match &file_context.cursor_symbol {
                Some(s) => s.kind == SymbolKind::Test,
                None => false,
            };
            if likely_in_test {
                crate::text::push_text(&mut module_parts, "tests");
            }
        }
        Ok(module_parts)
    }

    /// The package a file belongs to.
    fn resolve_package_name(&self, context: &ProjectContext, file_path: &str) -> (r: RazResult<
        Option<String>,
    >)
        ensures
            r is Ok,
            opt_view(r->Ok_0) == package_for(*context, file_path@),
    {
        Ok(member_package_name(context, file_path))
    }

    /// The test target of a file.
    fn resolve_target_type(&self, context: &ProjectContext, file_path: &str) -> (r: RazResult<
        TestTargetType,
    >)
        ensures
            r is Ok,
            target_view(r->Ok_0) == target_for(*context, file_path@),
    {
        Ok(file_target_type(context, file_path))
    }

    /// The test commands for the current file.
    fn context_commands(&self, context: &ProjectContext) -> (r: RazResult<Vec<Command>>)
        ensures
            r is Ok,
            summaries(r->Ok_0@) == cargo_context_commands(*context),
    {
        let mut commands: Vec<Command> = Vec::new();
        if let Some(file_context) = &context.current_file {
            let resolved = self.resolve_test_context(context);
            if let Ok(Some(test_context)) = resolved {
                let enhanced = match TestCommandGenerator::generate_commands(
                    context,
                    Some(&test_context),
                ) {
                    Ok(v) => v,
                    Err(e) => {
                        return Err(e);
                    },
                };
                return Ok(enhanced);
            } else {
                if let Some(cursor_symbol) = &file_context.cursor_symbol {
                    if cursor_symbol.kind == SymbolKind::Test {
                        push_command(
                            &mut commands,
                            cargo_test_current(
                                cursor_symbol.name.as_str(),
                                context.workspace_root.as_str(),
                            ),
                        );
                    }
                }
            }
        }
        proof {
            assert(summaries(commands@) =~= cargo_context_commands(*context));
        }
        Ok(commands)
    }
}

/// The package a file belongs to: the only member of a single-package
/// project, else the first member that holds the file.
pub(crate) fn member_package_name(context: &ProjectContext, file_path: &str) -> (r: Option<String>)
    ensures
        opt_view(r) == package_for(*context, file_path@),
{
    if context.workspace_members.len() == 1 {
        return Some(context.workspace_members[0].name.clone());
    }
    let mut i: usize = 0;
    while i < context.workspace_members.len()
        invariant
            i <= context.workspace_members@.len(),
            context.workspace_members@.len() != 1,
            member_holding(
                context.workspace_members@,
                context.workspace_root@,
                file_path@,
                0,
            ) == member_holding(
                context.workspace_members@,
                context.workspace_root@,
                file_path@,
                i as int,
            ),
        decreases context.workspace_members.len() - i,
    {
        let member = &context.workspace_members[i];
        let member_path = if str_starts_with(member.path.as_str(), "/") {
            member.path.clone()
        } else {
            path_join(context.workspace_root.as_str(), member.path.as_str())
        };
        proof {
            reveal_strlit("/");
        }
        assert(member_path@ == member_root(member.path@, context.workspace_root@));
        if path_starts_with(file_path, member_path.as_str()) {
            return Some(member.name.clone());
        }
        i += 1;
    }
    None
}


/// The test target of a file, from its path and the build targets.
pub(crate) fn file_target_type(context: &ProjectContext, file_path: &str) -> (r: TestTargetType)
    ensures
        target_view(r) == target_for(*context, file_path@),
{
    let stem = path_file_stem(file_path);
    if str_contains(file_path, "/tests/") {
        if let Some(name) = &stem {
            return TestTargetType::Test(name.clone());
        }
    }
    if str_contains(file_path, "/examples/") {
        if let Some(name) = &stem {
            return TestTargetType::Example(name.clone());
        }
    }
    if str_contains(file_path, "/benches/") {
        if let Some(name) = &stem {
            return TestTargetType::Bench(name.clone());
        }
    }
    if str_contains(file_path, "/src/lib.rs") || str_contains(file_path, "/src/mod.rs") {
        return TestTargetType::Lib;
    }
    if str_contains(file_path, "/src/main.rs") {
        let main_name = owned("main");
        return TestTargetType::Bin(main_name);
    }
    if str_contains(file_path, "/src/bin/") {
        if let Some(name) = &stem {
            return TestTargetType::Bin(name.clone());
        }
    }
    let ghost fallback = match target_holding(
        context.build_targets@,
        context.workspace_root@,
        file_path@,
        0,
    ) {
        Some(t) => build_target_view(t),
        None => TargetView::Lib,
    };
    proof {
        reveal_strlit("/tests/");
        reveal_strlit("/examples/");
        reveal_strlit("/benches/");
    }
    assert(target_for(*context, file_path@) == fallback);
    let mut i: usize = 0;
    while i < context.build_targets.len()
        invariant
            i <= context.build_targets@.len(),
            target_for(*context, file_path@) == fallback,
            fallback == match target_holding(
                context.build_targets@,
                context.workspace_root@,
                file_path@,
                i as int,
            ) {
                Some(t) => build_target_view(t),
                None => TargetView::Lib,
            },
        decreases context.build_targets.len() - i,
    {
        let target = &context.build_targets[i];
        if in_target_dir_exec(
            file_path,
            target.path.as_str(),
            context.workspace_root.as_str(),
        ) {
            let t = match target.target_type {
                TargetType::Binary => TestTargetType::Bin(target.name.clone()),
                TargetType::Library => TestTargetType::Lib,
                TargetType::Test => TestTargetType::Test(target.name.clone()),
                TargetType::Bench => TestTargetType::Bench(target.name.clone()),
                TargetType::Example => TestTargetType::Example(target.name.clone()),
            };
            return t;
        }
        i += 1;
    }
    TestTargetType::Lib
}


/// One run command per example target, in target order.
fn example_commands_exec(targets: &Vec<BuildTarget>, cwd: &str) -> (r: Vec<Command>)
    ensures
        summaries(r@) == example_commands(targets@, cwd@),
{
    let mut commands: Vec<Command> = Vec::new();
    let mut i: usize = 0;
    while i < targets.len()
        invariant
            i <= targets@.len(),
            summaries(commands@) == example_commands(targets@.take(i as int), cwd@),
        decreases targets.len() - i,
    {
        proof {
            assert(targets@.take(i + 1).drop_last() =~= targets@.take(i as int));
            assert(targets@.take(i + 1).last() == targets@[i as int]);
        }
        if targets[i].target_type == TargetType::Example {
            push_command(&mut commands, cargo_example(targets[i].name.as_str(), cwd));
        }
        i += 1;
    }
    assert(targets@.take(targets@.len() as int) =~= targets@);
    commands
}

impl CargoProvider {
    /// The provider's name.
    pub open spec fn spec_name(&self) -> Seq<char> {
        self.spec_provider_name()
    }

    /// The provider's priority (higher is more important).
    pub open spec fn spec_priority(&self) -> u8 {
        100
    }

    /// Whether the provider applies to a project.
    pub open spec fn handles(&self, context: ProjectContext) -> bool {
        !(context.project_type is Mixed)
    }

    /// The commands the provider proposes for a project, in order.
    pub open spec fn provided(&self, context: ProjectContext) -> Seq<CommandSummary> {
        cargo_provider_commands(context)
    }
}

impl CommandProvider for CargoProvider {
    fn name(&self) -> (r: &str)
        ensures
            r@ == self.spec_name(),
    {
        self.name.as_str()
    }

    fn priority(&self) -> (r: u8)
        ensures
            r == self.spec_priority(),
    {
        100
    }

    fn can_handle(&self, context: &ProjectContext) -> (r: bool)
        ensures
            r == self.handles(*context),
    {
        match &context.project_type {
            ProjectType::Mixed(_) => false,
            _ => true,
        }
    }

    fn commands(&self, context: &ProjectContext) -> (r: RazResult<Vec<Command>>)
        ensures
            r is Ok ==> summaries(r->Ok_0@) == self.provided(*context),
            r is Ok,
    {
        let mut commands: Vec<Command> = Vec::new();
        let cwd = context.workspace_root.as_str();
        push_command(&mut commands, cargo_build(cwd));
        push_command(&mut commands, cargo_build_release(cwd));
        push_command(&mut commands, cargo_test(cwd));
        push_command(&mut commands, cargo_test_release(cwd));
        push_command(&mut commands, cargo_check(cwd));
        push_command(&mut commands, cargo_clippy(cwd));
        push_command(&mut commands, cargo_fmt(cwd));
        push_command(&mut commands, cargo_fmt_check(cwd));
        push_command(&mut commands, cargo_clean(cwd));
        push_command(&mut commands, cargo_update(cwd));
        let ghost s1 = summaries(commands@);
        assert(s1 =~= cargo_basic_commands(cwd@));
        let ghost targets = context.build_targets@;
        let has_binary = any_target_of(&context.build_targets, TargetType::Binary);
        if has_binary {
            push_command(&mut commands, cargo_run(cwd));
            push_command(&mut commands, cargo_run_release(cwd));
        }
        let ghost s2 = summaries(commands@);
        let ghost part_bin = if has_target_type(targets, TargetType::Binary) {
            seq![cargo_run_cmd(cwd@), cargo_run_release_cmd(cwd@)]
        } else {
            seq![]
        };
        assert(s2 =~= s1 + part_bin);
        append_commands(&mut commands, example_commands_exec(&context.build_targets, cwd));
        let ghost s3 = summaries(commands@);
        let has_bench = any_target_of(&context.build_targets, TargetType::Bench);
        if has_bench {
            push_command(&mut commands, cargo_bench(cwd));
        }
        let ghost s4 = summaries(commands@);
        let ghost part_bench = if has_target_type(targets, TargetType::Bench) {
            seq![cargo_bench_cmd(cwd@)]
        } else {
            seq![]
        };
        assert(s4 =~= s3 + part_bench);
        if context.workspace_members.len() > 1 {
            push_command(&mut commands, cargo_build_all(cwd));
            push_command(&mut commands, cargo_test_all(cwd));
        }
        let ghost s5 = summaries(commands@);
        let ghost part_ws = if context.workspace_members@.len() > 1 {
            seq![cargo_build_all_cmd(cwd@), cargo_test_all_cmd(cwd@)]
        } else {
            seq![]
        };
        assert(s5 =~= s4 + part_ws);
        let extra = match self.context_commands(context) {
            Ok(v) => v,
            Err(e) => {
                return Err(e);
            },
        };
        append_commands(&mut commands, extra);
        assert(summaries(commands@) == cargo_provider_commands(*context));
        Ok(commands)
    }
}

/// The documentation commands.
pub open spec fn doc_provider_commands(cwd: Seq<char>) -> Seq<CommandSummary> {
    seq![cargo_doc_cmd(cwd), cargo_doc_open_cmd(cwd)]
}

/// Provider for project documentation commands.
pub struct DocProvider;

impl DocProvider {
    pub fn new() -> (r: Self) {
        DocProvider
    }
}

impl DocProvider {
    /// The provider's name.
    pub open spec fn spec_name(&self) -> Seq<char> {
        "doc"@
    }

    /// The provider's priority (higher is more important).
    pub open spec fn spec_priority(&self) -> u8 {
        60
    }

    /// Whether the provider applies to a project.
    pub open spec fn handles(&self, context: ProjectContext) -> bool {
        true
    }

    /// The commands the provider proposes for a project, in order.
    pub open spec fn provided(&self, context: ProjectContext) -> Seq<CommandSummary> {
        doc_provider_commands(context.workspace_root@)
    }
}

impl CommandProvider for DocProvider {
    fn name(&self) -> (r: &str)
        ensures
            r@ == self.spec_name(),
    {
        "doc"
    }

    fn priority(&self) -> (r: u8)
        ensures
            r == self.spec_priority(),
    {
        60
    }

    fn can_handle(&self, context: &ProjectContext) -> (r: bool)
        ensures
            r == self.handles(*context),
    {
        true
    }

    fn commands(&self, context: &ProjectContext) -> (r: RazResult<Vec<Command>>)
        ensures
            r is Ok ==> summaries(r->Ok_0@) == self.provided(*context),
            r is Ok,
    {
        let cwd = context.workspace_root.as_str();
        let mut commands: Vec<Command> = Vec::new();
        push_command(&mut commands, cargo_doc(cwd));
        push_command(&mut commands, cargo_doc_open(cwd));
        assert(summaries(commands@) =~= doc_provider_commands(cwd@));
        Ok(commands)
    }
}

pub open spec fn cargo_build_cmd(cwd: Seq<char>) -> CommandSummary {
    CommandSummary {
        id: "cargo-build"@,
        label: "Build Project"@,
        description: Some("Build the project in debug mode"@),
        command: "cargo"@,
        args: seq!["build"@],
        env: seq![],
        cwd: Some(cwd),
        category: CategoryView::Build,
        priority: 80,
        conditions: seq![],
        tags: seq!["cargo"@, "build"@],
        requires_input: false,
        estimated_duration: Some(30),
    }
}
pub open spec fn cargo_build_release_cmd(cwd: Seq<char>) -> CommandSummary {
    CommandSummary {
        id: "cargo-build-release"@,
        label: "Build Release"@,
        description: Some("Build the project in release mode with optimizations"@),
        command: "cargo"@,
        args: seq!["build"@, "--release"@],
        env: seq![],
        cwd: Some(cwd),
        category: CategoryView::Build,
        priority: 70,
        conditions: seq![],
        tags: seq!["cargo"@, "build"@, "release"@],
        requires_input: false,
        estimated_duration: Some(120),
    }
}
pub open spec fn cargo_test_cmd(cwd: Seq<char>) -> CommandSummary {
    CommandSummary {
        id: "cargo-test"@,
        label: "Run Tests"@,
        description: Some("Run all tests in the project"@),
        command: "cargo"@,
        args: seq!["test"@],
        env: seq![],
        cwd: Some(cwd),
        category: CategoryView::Test,
        priority: 85,
        conditions: seq![],
        tags: seq!["cargo"@, "test"@],
        requires_input: false,
        estimated_duration: Some(60),
    }
}
pub open spec fn cargo_test_release_cmd(cwd: Seq<char>) -> CommandSummary {
    CommandSummary {
        id: "cargo-test-release"@,
        label: "Run Tests (Release)"@,
        description: Some("Run tests in release mode"@),
        command: "cargo"@,
        args: seq!["test"@, "--release"@],
        env: seq![],
        cwd: Some(cwd),
        category: CategoryView::Test,
        priority: 60,
        conditions: seq![],
        tags: seq!["cargo"@, "test"@, "release"@],
        requires_input: false,
        estimated_duration: Some(90),
    }
}
pub open spec fn cargo_check_cmd(cwd: Seq<char>) -> CommandSummary {
    CommandSummary {
        id: "cargo-check"@,
        label: "Check Code"@,
        description: Some("Check for compilation errors without building"@),
        command: "cargo"@,
        args: seq!["check"@],
        env: seq![],
        cwd: Some(cwd),
        category: CategoryView::Lint,
        priority: 90,
        conditions: seq![],
        tags: seq!["cargo"@, "check"@],
        requires_input: false,
        estimated_duration: Some(15),
    }
}
pub open spec fn cargo_clippy_cmd(cwd: Seq<char>) -> CommandSummary {
    CommandSummary {
        id: "cargo-clippy"@,
        label: "Run Clippy"@,
        description: Some("Run Clippy lints to catch common mistakes"@),
        command: "cargo"@,
        args: seq!["clippy"@],
        env: seq![],
        cwd: Some(cwd),
        category: CategoryView::Lint,
        priority: 75,
        conditions: seq![],
        tags: seq!["cargo"@, "clippy"@, "lint"@],
        requires_input: false,
        estimated_duration: Some(30),
    }
}
pub open spec fn cargo_fmt_cmd(cwd: Seq<char>) -> CommandSummary {
    CommandSummary {
        id: "cargo-fmt"@,
        label: "Format Code"@,
        description: Some("Format code using rustfmt"@),
        command: "cargo"@,
        args: seq!["fmt"@],
        env: seq![],
        cwd: Some(cwd),
        category: CategoryView::Format,
        priority: 70,
        conditions: seq![],
        tags: seq!["cargo"@, "format"@],
        requires_input: false,
        estimated_duration: Some(5),
    }
}
pub open spec fn cargo_fmt_check_cmd(cwd: Seq<char>) -> CommandSummary {
    CommandSummary {
        id: "cargo-fmt-check"@,
        label: "Check Formatting"@,
        description: Some("Check if code is properly formatted"@),
        command: "cargo"@,
        args: seq!["fmt"@, "--check"@],
        env: seq![],
        cwd: Some(cwd),
        category: CategoryView::Format,
        priority: 60,
        conditions: seq![],
        tags: seq!["cargo"@, "format"@, "check"@],
        requires_input: false,
        estimated_duration: Some(5),
    }
}
pub open spec fn cargo_clean_cmd(cwd: Seq<char>) -> CommandSummary {
    CommandSummary {
        id: "cargo-clean"@,
        label: "Clean Build"@,
        description: Some("Remove build artifacts"@),
        command: "cargo"@,
        args: seq!["clean"@],
        env: seq![],
        cwd: Some(cwd),
        category: CategoryView::Clean,
        priority: 40,
        conditions: seq![],
        tags: seq!["cargo"@, "clean"@],
        requires_input: false,
        estimated_duration: Some(5),
    }
}
pub open spec fn cargo_update_cmd(cwd: Seq<char>) -> CommandSummary {
    CommandSummary {
        id: "cargo-update"@,
        label: "Update Dependencies"@,
        description: Some("Update dependencies to latest compatible versions"@),
        command: "cargo"@,
        args: seq!["update"@],
        env: seq![],
        cwd: Some(cwd),
        category: CategoryView::Update,
        priority: 30,
        conditions: seq![],
        tags: seq!["cargo"@, "update"@],
        requires_input: false,
        estimated_duration: Some(30),
    }
}
pub open spec fn cargo_run_cmd(cwd: Seq<char>) -> CommandSummary {
    CommandSummary {
        id: "cargo-run"@,
        label: "Run Project"@,
        description: Some("Run the main binary"@),
        command: "cargo"@,
        args: seq!["run"@],
        env: seq![],
        cwd: Some(cwd),
        category: CategoryView::Run,
        priority: 95,
        conditions: seq![],
        tags: seq!["cargo"@, "run"@],
        requires_input: false,
        estimated_duration: Some(60),
    }
}
pub open spec fn cargo_run_release_cmd(cwd: Seq<char>) -> CommandSummary {
    CommandSummary {
        id: "cargo-run-release"@,
        label: "Run Project (Release)"@,
        description: Some("Run the main binary in release mode"@),
        command: "cargo"@,
        args: seq!["run"@, "--release"@],
        env: seq![],
        cwd: Some(cwd),
        category: CategoryView::Run,
        priority: 80,
        conditions: seq![],
        tags: seq!["cargo"@, "run"@, "release"@],
        requires_input: false,
        estimated_duration: Some(90),
    }
}
pub open spec fn cargo_example_cmd(name: Seq<char>, cwd: Seq<char>) -> CommandSummary {
    CommandSummary {
        id: "cargo-example-"@ + name,
        label: "Run Example: "@ + name,
        description: Some("Run the '"@ + name + "' example"@),
        command: "cargo"@,
        args: seq!["run"@, "--example"@, name],
        env: seq![],
        cwd: Some(cwd),
        category: CategoryView::Run,
        priority: 65,
        conditions: seq![],
        tags: seq!["cargo"@, "example"@, name],
        requires_input: false,
        estimated_duration: Some(45),
    }
}
pub open spec fn cargo_bench_cmd(cwd: Seq<char>) -> CommandSummary {
    CommandSummary {
        id: "cargo-bench"@,
        label: "Run Benchmarks"@,
        description: Some("Run all benchmarks"@),
        command: "cargo"@,
        args: seq!["bench"@],
        env: seq![],
        cwd: Some(cwd),
        category: CategoryView::Test,
        priority: 50,
        conditions: seq![],
        tags: seq!["cargo"@, "bench"@],
        requires_input: false,
        estimated_duration: Some(180),
    }
}
pub open spec fn cargo_build_all_cmd(cwd: Seq<char>) -> CommandSummary {
    CommandSummary {
        id: "cargo-build-all"@,
        label: "Build All Packages"@,
        description: Some("Build all packages in the workspace"@),
        command: "cargo"@,
        args: seq!["build"@, "--workspace"@],
        env: seq![],
        cwd: Some(cwd),
        category: CategoryView::Build,
        priority: 85,
        conditions: seq![],
        tags: seq!["cargo"@, "workspace"@, "build"@],
        requires_input: false,
        estimated_duration: Some(120),
    }
}
pub open spec fn cargo_test_all_cmd(cwd: Seq<char>) -> CommandSummary {
    CommandSummary {
        id: "cargo-test-all"@,
        label: "Test All Packages"@,
        description: Some("Run tests for all packages in the workspace"@),
        command: "cargo"@,
        args: seq!["test"@, "--workspace"@],
        env: seq![],
        cwd: Some(cwd),
        category: CategoryView::Test,
        priority: 80,
        conditions: seq![],
        tags: seq!["cargo"@, "workspace"@, "test"@],
        requires_input: false,
        estimated_duration: Some(180),
    }
}
pub open spec fn cargo_test_current_cmd(name: Seq<char>, cwd: Seq<char>) -> CommandSummary {
    CommandSummary {
        id: "cargo-test-current"@,
        label: "Run Test: "@ + name,
        description: Some("Run the '"@ + name + "' test function"@),
        command: "cargo"@,
        args: seq!["test"@, name],
        env: seq![],
        cwd: Some(cwd),
        category: CategoryView::Test,
        priority: 100,
        conditions: seq![],
        tags: seq!["cargo"@, "test"@, "current"@],
        requires_input: false,
        estimated_duration: Some(15),
    }
}
pub open spec fn cargo_doc_cmd(cwd: Seq<char>) -> CommandSummary {
    CommandSummary {
        id: "cargo-doc"@,
        label: "Generate Documentation"@,
        description: Some("Generate documentation for the project"@),
        command: "cargo"@,
        args: seq!["doc"@],
        env: seq![],
        cwd: Some(cwd),
        category: CategoryView::Generate,
        priority: 50,
        conditions: seq![],
        tags: seq!["cargo"@, "doc"@],
        requires_input: false,
        estimated_duration: Some(60),
    }
}
pub open spec fn cargo_doc_open_cmd(cwd: Seq<char>) -> CommandSummary {
    CommandSummary {
        id: "cargo-doc-open"@,
        label: "Generate & Open Documentation"@,
        description: Some("Generate documentation and open in browser"@),
        command: "cargo"@,
        args: seq!["doc"@, "--open"@],
        env: seq![],
        cwd: Some(cwd),
        category: CategoryView::Generate,
        priority: 55,
        conditions: seq![],
        tags: seq!["cargo"@, "doc"@],
        requires_input: false,
        estimated_duration: Some(65),
    }
}

fn cargo_build(cwd: &str) -> (r: Command)
    ensures
        summary(r@) == cargo_build_cmd(cwd@),
{
    let c = CommandBuilder::new("cargo-build", "cargo")
        .label("Build Project")
        .description("Build the project in debug mode")
        .arg("build")
        .category(CommandCategory::Build)
        .priority(80)
        .tag("cargo")
        .tag("build")
        .cwd(cwd)
        .estimated_duration(30)
        .build();
    
    
    assert(views(c@.args) =~= seq!["build"@]);
    assert(views(c@.tags) =~= seq!["cargo"@, "build"@]);
    assert(summary(c@).env =~= seq![]);
    c
}
fn cargo_build_release(cwd: &str) -> (r: Command)
    ensures
        summary(r@) == cargo_build_release_cmd(cwd@),
{
    let c = CommandBuilder::new("cargo-build-release", "cargo")
        .label("Build Release")
        .description("Build the project in release mode with optimizations")
        .arg("build")
        .arg("--release")
        .category(CommandCategory::Build)
        .priority(70)
        .tag("cargo")
        .tag("build")
        .tag("release")
        .cwd(cwd)
        .estimated_duration(120)
        .build();
    
    
    assert(views(c@.args) =~= seq!["build"@, "--release"@]);
    assert(views(c@.tags) =~= seq!["cargo"@, "build"@, "release"@]);
    assert(summary(c@).env =~= seq![]);
    c
}
fn cargo_test(cwd: &str) -> (r: Command)
    ensures
        summary(r@) == cargo_test_cmd(cwd@),
{
    let c = CommandBuilder::new("cargo-test", "cargo")
        .label("Run Tests")
        .description("Run all tests in the project")
        .arg("test")
        .category(CommandCategory::Test)
        .priority(85)
        .tag("cargo")
        .tag("test")
        .cwd(cwd)
        .estimated_duration(60)
        .build();
    
    
    assert(views(c@.args) =~= seq!["test"@]);
    assert(views(c@.tags) =~= seq!["cargo"@, "test"@]);
    assert(summary(c@).env =~= seq![]);
    c
}
fn cargo_test_release(cwd: &str) -> (r: Command)
    ensures
        summary(r@) == cargo_test_release_cmd(cwd@),
{
    let c = CommandBuilder::new("cargo-test-release", "cargo")
        .label("Run Tests (Release)")
        .description("Run tests in release mode")
        .arg("test")
        .arg("--release")
        .category(CommandCategory::Test)
        .priority(60)
        .tag("cargo")
        .tag("test")
        .tag("release")
        .cwd(cwd)
        .estimated_duration(90)
        .build();
    
    
    assert(views(c@.args) =~= seq!["test"@, "--release"@]);
    assert(views(c@.tags) =~= seq!["cargo"@, "test"@, "release"@]);
    assert(summary(c@).env =~= seq![]);
    c
}
fn cargo_check(cwd: &str) -> (r: Command)
    ensures
        summary(r@) == cargo_check_cmd(cwd@),
{
    let c = CommandBuilder::new("cargo-check", "cargo")
        .label("Check Code")
        .description("Check for compilation errors without building")
        .arg("check")
        .category(CommandCategory::Lint)
        .priority(90)
        .tag("cargo")
        .tag("check")
        .cwd(cwd)
        .estimated_duration(15)
        .build();
    
    
    assert(views(c@.args) =~= seq!["check"@]);
    assert(views(c@.tags) =~= seq!["cargo"@, "check"@]);
    assert(summary(c@).env =~= seq![]);
    c
}
fn cargo_clippy(cwd: &str) -> (r: Command)
    ensures
        summary(r@) == cargo_clippy_cmd(cwd@),
{
    let c = CommandBuilder::new("cargo-clippy", "cargo")
        .label("Run Clippy")
        .description("Run Clippy lints to catch common mistakes")
        .arg("clippy")
        .category(CommandCategory::Lint)
        .priority(75)
        .tag("cargo")
        .tag("clippy")
        .tag("lint")
        .cwd(cwd)
        .estimated_duration(30)
        .build();
    
    
    assert(views(c@.args) =~= seq!["clippy"@]);
    assert(views(c@.tags) =~= seq!["cargo"@, "clippy"@, "lint"@]);
    assert(summary(c@).env =~= seq![]);
    c
}
fn cargo_fmt(cwd: &str) -> (r: Command)
    ensures
        summary(r@) == cargo_fmt_cmd(cwd@),
{
    let c = CommandBuilder::new("cargo-fmt", "cargo")
        .label("Format Code")
        .description("Format code using rustfmt")
        .arg("fmt")
        .category(CommandCategory::Format)
        .priority(70)
        .tag("cargo")
        .tag("format")
        .cwd(cwd)
        .estimated_duration(5)
        .build();
    
    
    assert(views(c@.args) =~= seq!["fmt"@]);
    assert(views(c@.tags) =~= seq!["cargo"@, "format"@]);
    assert(summary(c@).env =~= seq![]);
    c
}
fn cargo_fmt_check(cwd: &str) -> (r: Command)
    ensures
        summary(r@) == cargo_fmt_check_cmd(cwd@),
{
    let c = CommandBuilder::new("cargo-fmt-check", "cargo")
        .label("Check Formatting")
        .description("Check if code is properly formatted")
        .arg("fmt")
        .arg("--check")
        .category(CommandCategory::Format)
        .priority(60)
        .tag("cargo")
        .tag("format")
        .tag("check")
        .cwd(cwd)
        .estimated_duration(5)
        .build();
    
    
    assert(views(c@.args) =~= seq!["fmt"@, "--check"@]);
    assert(views(c@.tags) =~= seq!["cargo"@, "format"@, "check"@]);
    assert(summary(c@).env =~= seq![]);
    c
}
fn cargo_clean(cwd: &str) -> (r: Command)
    ensures
        summary(r@) == cargo_clean_cmd(cwd@),
{
    let c = CommandBuilder::new("cargo-clean", "cargo")
        .label("Clean Build")
        .description("Remove build artifacts")
        .arg("clean")
        .category(CommandCategory::Clean)
        .priority(40)
        .tag("cargo")
        .tag("clean")
        .cwd(cwd)
        .estimated_duration(5)
        .build();
    
    
    assert(views(c@.args) =~= seq!["clean"@]);
    assert(views(c@.tags) =~= seq!["cargo"@, "clean"@]);
    assert(summary(c@).env =~= seq![]);
    c
}
fn cargo_update(cwd: &str) -> (r: Command)
    ensures
        summary(r@) == cargo_update_cmd(cwd@),
{
    let c = CommandBuilder::new("cargo-update", "cargo")
        .label("Update Dependencies")
        .description("Update dependencies to latest compatible versions")
        .arg("update")
        .category(CommandCategory::Update)
        .priority(30)
        .tag("cargo")
        .tag("update")
        .cwd(cwd)
        .estimated_duration(30)
        .build();
    
    
    assert(views(c@.args) =~= seq!["update"@]);
    assert(views(c@.tags) =~= seq!["cargo"@, "update"@]);
    assert(summary(c@).env =~= seq![]);
    c
}
fn cargo_run(cwd: &str) -> (r: Command)
    ensures
        summary(r@) == cargo_run_cmd(cwd@),
{
    let c = CommandBuilder::new("cargo-run", "cargo")
        .label("Run Project")
        .description("Run the main binary")
        .arg("run")
        .category(CommandCategory::Run)
        .priority(95)
        .tag("cargo")
        .tag("run")
        .cwd(cwd)
        .estimated_duration(60)
        .build();
    
    
    assert(views(c@.args) =~= seq!["run"@]);
    assert(views(c@.tags) =~= seq!["cargo"@, "run"@]);
    assert(summary(c@).env =~= seq![]);
    c
}
fn cargo_run_release(cwd: &str) -> (r: Command)
    ensures
        summary(r@) == cargo_run_release_cmd(cwd@),
{
    let c = CommandBuilder::new("cargo-run-release", "cargo")
        .label("Run Project (Release)")
        .description("Run the main binary in release mode")
        .arg("run")
        .arg("--release")
        .category(CommandCategory::Run)
        .priority(80)
        .tag("cargo")
        .tag("run")
        .tag("release")
        .cwd(cwd)
        .estimated_duration(90)
        .build();
    
    
    assert(views(c@.args) =~= seq!["run"@, "--release"@]);
    assert(views(c@.tags) =~= seq!["cargo"@, "run"@, "release"@]);
    assert(summary(c@).env =~= seq![]);
    c
}
fn cargo_example(name: &str, cwd: &str) -> (r: Command)
    ensures
        summary(r@) == cargo_example_cmd(name@, cwd@),
{
    let c = CommandBuilder::new(fmt_text("cargo-example-", name, "").as_str(), "cargo")
        .label(fmt_text("Run Example: ", name, "").as_str())
        .description(fmt_text("Run the '", name, "' example").as_str())
        .arg("run")
        .arg("--example")
        .arg(name)
        .category(CommandCategory::Run)
        .priority(65)
        .tag("cargo")
        .tag("example")
        .tag(name)
        .cwd(cwd)
        .estimated_duration(45)
        .build();
    proof { reveal_strlit(""); }
    assert(c@.id@ =~= "cargo-example-"@ + name@);
    assert(c@.label@ =~= "Run Example: "@ + name@);
    assert(c@.description->0@ =~= "Run the '"@ + name@ + "' example"@);
    assert(views(c@.args) =~= seq!["run"@, "--example"@, name@]);
    assert(views(c@.tags) =~= seq!["cargo"@, "example"@, name@]);
    assert(summary(c@).env =~= seq![]);
    c
}
fn cargo_bench(cwd: &str) -> (r: Command)
    ensures
        summary(r@) == cargo_bench_cmd(cwd@),
{
    let c = CommandBuilder::new("cargo-bench", "cargo")
        .label("Run Benchmarks")
        .description("Run all benchmarks")
        .arg("bench")
        .category(CommandCategory::Test)
        .priority(50)
        .tag("cargo")
        .tag("bench")
        .cwd(cwd)
        .estimated_duration(180)
        .build();
    
    
    assert(views(c@.args) =~= seq!["bench"@]);
    assert(views(c@.tags) =~= seq!["cargo"@, "bench"@]);
    assert(summary(c@).env =~= seq![]);
    c
}
fn cargo_build_all(cwd: &str) -> (r: Command)
    ensures
        summary(r@) == cargo_build_all_cmd(cwd@),
{
    let c = CommandBuilder::new("cargo-build-all", "cargo")
        .label("Build All Packages")
        .description("Build all packages in the workspace")
        .arg("build")
        .arg("--workspace")
        .category(CommandCategory::Build)
        .priority(85)
        .tag("cargo")
        .tag("workspace")
        .tag("build")
        .cwd(cwd)
        .estimated_duration(120)
        .build();
    
    
    assert(views(c@.args) =~= seq!["build"@, "--workspace"@]);
    assert(views(c@.tags) =~= seq!["cargo"@, "workspace"@, "build"@]);
    assert(summary(c@).env =~= seq![]);
    c
}
fn cargo_test_all(cwd: &str) -> (r: Command)
    ensures
        summary(r@) == cargo_test_all_cmd(cwd@),
{
    let c = CommandBuilder::new("cargo-test-all", "cargo")
        .label("Test All Packages")
        .description("Run tests for all packages in the workspace")
        .arg("test")
        .arg("--workspace")
        .category(CommandCategory::Test)
        .priority(80)
        .tag("cargo")
        .tag("workspace")
        .tag("test")
        .cwd(cwd)
        .estimated_duration(180)
        .build();
    
    
    assert(views(c@.args) =~= seq!["test"@, "--workspace"@]);
    assert(views(c@.tags) =~= seq!["cargo"@, "workspace"@, "test"@]);
    assert(summary(c@).env =~= seq![]);
    c
}
fn cargo_test_current(name: &str, cwd: &str) -> (r: Command)
    ensures
        summary(r@) == cargo_test_current_cmd(name@, cwd@),
{
    let c = CommandBuilder::new("cargo-test-current", "cargo")
        .label(fmt_text("Run Test: ", name, "").as_str())
        .description(fmt_text("Run the '", name, "' test function").as_str())
        .arg("test")
        .arg(name)
        .category(CommandCategory::Test)
        .priority(100)
        .tag("cargo")
        .tag("test")
        .tag("current")
        .cwd(cwd)
        .estimated_duration(15)
        .build();
    proof { reveal_strlit(""); }
    assert(c@.label@ =~= "Run Test: "@ + name@);
    assert(c@.description->0@ =~= "Run the '"@ + name@ + "' test function"@);
    assert(views(c@.args) =~= seq!["test"@, name@]);
    assert(views(c@.tags) =~= seq!["cargo"@, "test"@, "current"@]);
    assert(summary(c@).env =~= seq![]);
    c
}
fn cargo_doc(cwd: &str) -> (r: Command)
    ensures
        summary(r@) == cargo_doc_cmd(cwd@),
{
    let c = CommandBuilder::new("cargo-doc", "cargo")
        .label("Generate Documentation")
        .description("Generate documentation for the project")
        .arg("doc")
        .category(CommandCategory::Generate)
        .priority(50)
        .tag("cargo")
        .tag("doc")
        .cwd(cwd)
        .estimated_duration(60)
        .build();
    
    
    assert(views(c@.args) =~= seq!["doc"@]);
    assert(views(c@.tags) =~= seq!["cargo"@, "doc"@]);
    assert(summary(c@).env =~= seq![]);
    c
}
fn cargo_doc_open(cwd: &str) -> (r: Command)
    ensures
        summary(r@) == cargo_doc_open_cmd(cwd@),
{
    let c = CommandBuilder::new("cargo-doc-open", "cargo")
        .label("Generate & Open Documentation")
        .description("Generate documentation and open in browser")
        .arg("doc")
        .arg("--open")
        .category(CommandCategory::Generate)
        .priority(55)
        .tag("cargo")
        .tag("doc")
        .cwd(cwd)
        .estimated_duration(65)
        .build();
    
    
    assert(views(c@.args) =~= seq!["doc"@, "--open"@]);
    assert(views(c@.tags) =~= seq!["cargo"@, "doc"@]);
    assert(summary(c@).env =~= seq![]);
    c
}

/// The test target of a file follows its place in the package: a file
/// under `/tests/`, `/examples/` or `/benches/` is the test, example or
/// bench named by the file's stem; `src/lib.rs` or a `src/mod.rs` is the
/// library; `src/main.rs` is the binary `main`; and a file under `src/bin/`
/// is the binary named by the file's stem, whatever the build targets say.
pub proof fn lemma_file_target(context: ProjectContext, path: Seq<char>)
    ensures
        has_sub(path, "/tests/"@) && file_stem(path) is Some ==> target_for(context, path)
            == TargetView::Test(file_stem(path)->0),
        !has_sub(path, "/tests/"@) && has_sub(path, "/examples/"@) && file_stem(path) is Some
            ==> target_for(context, path) == TargetView::Example(file_stem(path)->0),
        !has_sub(path, "/tests/"@) && !has_sub(path, "/examples/"@) && has_sub(path, "/benches/"@)
            && file_stem(path) is Some ==> target_for(context, path) == TargetView::Bench(
            file_stem(path)->0,
        ),
        !has_sub(path, "/tests/"@) && !has_sub(path, "/examples/"@) && !has_sub(path, "/benches/"@)
            && (has_sub(path, "/src/lib.rs"@) || has_sub(path, "/src/mod.rs"@)) ==> target_for(
            context,
            path,
        ) == TargetView::Lib,
        !has_sub(path, "/tests/"@) && !has_sub(path, "/examples/"@) && !has_sub(path, "/benches/"@)
            && !has_sub(path, "/src/lib.rs"@) && !has_sub(path, "/src/mod.rs"@) && has_sub(
            path,
            "/src/main.rs"@,
        ) ==> target_for(context, path) == TargetView::Bin("main"@),
        !has_sub(path, "/tests/"@) && !has_sub(path, "/examples/"@) && !has_sub(path, "/benches/"@)
            && !has_sub(path, "/src/lib.rs"@) && !has_sub(path, "/src/mod.rs"@) && !has_sub(
            path,
            "/src/main.rs"@,
        ) && has_sub(path, "/src/bin/"@) && file_stem(path) is Some ==> target_for(context, path)
            == TargetView::Bin(file_stem(path)->0),
{
}

/// A Rust file `n.rs` under `src/bin/` is tested as the binary `n`.
pub proof fn lemma_bin_file_target_named(context: ProjectContext, d: Seq<char>, n: Seq<char>)
    requires
        n.len() > 0,
        !n.contains('/'),
        ({
            let path = d + "/src/bin/"@ + n + ".rs"@;
            &&& !has_sub(path, "/tests/"@)
            &&& !has_sub(path, "/examples/"@)
            &&& !has_sub(path, "/benches/"@)
            &&& !has_sub(path, "/src/lib.rs"@)
            &&& !has_sub(path, "/src/mod.rs"@)
            &&& !has_sub(path, "/src/main.rs"@)
        }),
    ensures
        target_for(context, d + "/src/bin/"@ + n + ".rs"@) == TargetView::Bin(n),
{
    reveal_strlit("/src/bin/");
    reveal_strlit("/src/bin");
    reveal_strlit("/");
    let path = d + "/src/bin/"@ + n + ".rs"@;
    assert(path =~= (d + "/src/bin"@) + "/"@ + n + ".rs"@);
    lemma_rs_file_stem(d + "/src/bin"@, n);
    assert(crate::text::matches_at(path, "/src/bin/"@, d.len() as int)) by {
        assert(path.subrange(d.len() as int, d.len() + 9int) =~= "/src/bin/"@);
    }
    lemma_file_target(context, path);
}

} // verus!
