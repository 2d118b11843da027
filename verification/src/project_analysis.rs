//! Project analysis: framework detection rules, build targets from a
//! directory listing, and the analyzers that combine them.

use vstd::prelude::*;
use crate::commands::strings_contain;
use crate::context::{
    BuildTarget, Dependency, FileAnalyzer, FileFacts, ProjectContext, ProjectType, TargetType,
    WorkspaceMember,
};
use crate::error::RazError;
use crate::framework_detection::has_dep;
use crate::manifest::{
    parse_toml_text, strings_among, toml_as_array, toml_as_bool, toml_as_str, toml_at, toml_document,
    toml_get, toml_is_table, toml_strings, toml_table_entries, toml_text_at,
    TomlData,
};
use crate::text::{has_prefix, fmt_text, split, split_seq, string_from, chars_of};
use crate::context::{
    Language, Position, TestContext, TestContextView, module_path_of, opt_view,
};
use crate::providers::{
    cursor_test_name, file_target_type, member_package_name, nonempty_parts, package_for,
    target_for,
};
use crate::error::RazResult;
use crate::paths::{join_path, path_join};
use crate::providers::{member_root, same_simple_type};
use crate::text::{has_suffix, owned, str_contains, str_eq, str_ends_with, str_starts_with, views};

verus! {

/// A condition that a framework detection rule checks.
#[derive(Debug)]
pub enum DetectionCondition {
    HasDependency(String),
    HasAnyDependency(Vec<String>),
    HasFile(String),
    HasFilePattern(String),
    ConfigFileContains(String, String),
}

/// Whether a condition holds of the dependencies and the file system facts.
/// A file is looked for at its own path; a pattern is taken from the
/// workspace root; a configuration file is read from the workspace root
/// unless its path is absolute.
pub open spec fn detection_condition_met(
    c: DetectionCondition,
    deps: Seq<Dependency>,
    root: Seq<char>,
    facts: FileFacts,
) -> bool {
    match c {
        DetectionCondition::HasDependency(name) => exists|i: int|
            0 <= i < deps.len() && (#[trigger] deps[i]).name@ == name@,
        DetectionCondition::HasAnyDependency(names) => exists|i: int|
            0 <= i < deps.len() && views(names@).contains((#[trigger] deps[i]).name@),
        DetectionCondition::HasFile(path) => facts.path_exists(path@),
        DetectionCondition::HasFilePattern(pattern) => facts.pattern_matches(
            join_path(root, pattern@),
        ),
        DetectionCondition::ConfigFileContains(path, content) => facts.file_contains(
            member_root(path@, root),
            content@,
        ),
    }
}

fn has_dependency_named(dependencies: &[Dependency], name: &str) -> (r: bool)
    ensures
        r == exists|i: int|
            0 <= i < dependencies@.len() && (#[trigger] dependencies@[i]).name@ == name@,
{
    let mut i: usize = 0;
    while i < dependencies.len()
        invariant
            i <= dependencies@.len(),
            forall|k: int| 0 <= k < i ==> (#[trigger] dependencies@[k]).name@ != name@,
        decreases dependencies.len() - i,
    {
        if str_eq(dependencies[i].name.as_str(), name) {
            return true;
        }
        i += 1;
    }
    false
}

fn has_dependency_in(dependencies: &[Dependency], names: &Vec<String>) -> (r: bool)
    ensures
        r == exists|i: int|
            0 <= i < dependencies@.len() && views(names@).contains(
                (#[trigger] dependencies@[i]).name@,
            ),
{
    let mut i: usize = 0;
    while i < dependencies.len()
        invariant
            i <= dependencies@.len(),
            forall|k: int|
                0 <= k < i ==> !views(names@).contains((#[trigger] dependencies@[k]).name@),
        decreases dependencies.len() - i,
    {
        if strings_contain(names, dependencies[i].name.as_str()) {
            return true;
        }
        i += 1;
    }
    false
}

/// Whether the file at `p` was read and contains `needle`.
fn facts_file_contains(facts: &FileFacts, p: &str, needle: &str) -> (r: bool)
    ensures
        r == facts.file_contains(p@, needle@),
{
    let mut i: usize = 0;
    while i < facts.file_contents.len()
        invariant
            i <= facts.file_contents@.len(),
            forall|k: int|
                0 <= k < i ==> !((#[trigger] facts.file_contents@[k]).0@ == p@
                    && crate::text::has_sub(facts.file_contents@[k].1@, needle@)),
        decreases facts.file_contents.len() - i,
    {
        let entry = &facts.file_contents[i];
        if str_eq(entry.0.as_str(), p) && crate::text::str_contains(entry.1.as_str(), needle) {
            return true;
        }
        i += 1;
    }
    false
}

impl DetectionCondition {
    /// Whether the condition holds of the dependencies and the file system
    /// facts.
    pub fn is_met(&self, dependencies: &[Dependency], workspace_root: &str, facts: &FileFacts) -> (r:
        bool)
        ensures
            r == detection_condition_met(*self, dependencies@, workspace_root@, *facts),
    {
        match self {
            DetectionCondition::HasDependency(name) => has_dependency_named(
                dependencies,
                name.as_str(),
            ),
            DetectionCondition::HasAnyDependency(names) => has_dependency_in(dependencies, names),
            DetectionCondition::HasFile(path) => strings_contain(
                &facts.existing_paths,
                path.as_str(),
            ),
            DetectionCondition::HasFilePattern(pattern) => {
                let full = path_join(workspace_root, pattern.as_str());
                strings_contain(&facts.matched_patterns, full.as_str())
            },
            DetectionCondition::ConfigFileContains(path, content) => {
                let full = if str_starts_with(path.as_str(), "/") {
                    path.clone()
                } else {
                    path_join(workspace_root, path.as_str())
                };
                proof {
                    reveal_strlit("/");
                }
                assert(full@ == member_root(path@, workspace_root@));
                facts_file_contains(facts, full.as_str(), content.as_str())
            },
        }
    }
}

/// A rule that recognises a framework when all its conditions hold.
#[derive(Debug)]
pub struct DetectionRule {
    pub framework: String,
    pub project_type: ProjectType,
    pub conditions: Vec<DetectionCondition>,
}

/// Whether every condition of a rule holds.
pub open spec fn rule_matches(
    rule: DetectionRule,
    deps: Seq<Dependency>,
    root: Seq<char>,
    facts: FileFacts,
) -> bool {
    forall|i: int|
        0 <= i < rule.conditions@.len() ==> detection_condition_met(
            #[trigger] rule.conditions@[i],
            deps,
            root,
            facts,
        )
}

/// A rule matches exactly when each of its conditions is met; a rule with
/// no conditions matches every project.
pub proof fn lemma_rule_without_conditions_matches(
    rule: DetectionRule,
    deps: Seq<Dependency>,
    root: Seq<char>,
    facts: FileFacts,
)
    requires
        rule.conditions@.len() == 0,
    ensures
        rule_matches(rule, deps, root, facts),
{
}

impl DetectionRule {
    /// Whether every condition of the rule holds.
    pub fn matches(&self, dependencies: &[Dependency], workspace_root: &str, facts: &FileFacts) -> (r:
        bool)
        ensures
            r == rule_matches(*self, dependencies@, workspace_root@, *facts),
    {
        let mut i: usize = 0;
        while i < self.conditions.len()
            invariant
                i <= self.conditions@.len(),
                forall|k: int|
                    0 <= k < i ==> detection_condition_met(
                        #[trigger] self.conditions@[k],
                        dependencies@,
                        workspace_root@,
                        *facts,
                    ),
            decreases self.conditions.len() - i,
        {
            if !self.conditions[i].is_met(dependencies, workspace_root, facts) {
                return false;
            }
            i += 1;
        }
        true
    }
}

/// The frameworks that the rules detect, each once, in rule order.
pub open spec fn detected_types(
    rules: Seq<DetectionRule>,
    deps: Seq<Dependency>,
    root: Seq<char>,
    facts: FileFacts,
) -> Seq<ProjectType>
    decreases rules.len(),
{
    if rules.len() == 0 {
        seq![]
    } else {
        let d = detected_types(rules.drop_last(), deps, root, facts);
        let r = rules.last();
        if rule_matches(r, deps, root, facts) && !d.contains(r.project_type) {
            d.push(r.project_type)
        } else {
            d
        }
    }
}

/// The order in which detected frameworks are listed: Tauri first (it is
/// often the wrapper), then Leptos, Dioxus, Yew, Bevy, Axum, then others.
pub open spec fn type_priority(t: ProjectType) -> nat {
    match t {
        ProjectType::Tauri => 0,
        ProjectType::Leptos => 1,
        ProjectType::Dioxus => 2,
        ProjectType::Yew => 3,
        ProjectType::Bevy => 4,
        ProjectType::Axum => 5,
        _ => 6,
    }
}

/// The elements of priority `k`, in order.
pub open spec fn with_priority(v: Seq<ProjectType>, k: nat) -> Seq<ProjectType>
    decreases v.len(),
{
    if v.len() == 0 {
        seq![]
    } else if type_priority(v.last()) == k {
        with_priority(v.drop_last(), k).push(v.last())
    } else {
        with_priority(v.drop_last(), k)
    }
}

/// The elements of priority below `k`, by priority and then in order.
pub open spec fn priority_buckets(v: Seq<ProjectType>, k: nat) -> Seq<ProjectType>
    decreases k,
{
    if k == 0 {
        seq![]
    } else {
        priority_buckets(v, (k - 1) as nat) + with_priority(v, (k - 1) as nat)
    }
}

/// A stable sort by priority.
pub open spec fn sorted_by_priority(v: Seq<ProjectType>) -> Seq<ProjectType> {
    priority_buckets(v, 7)
}

/// No rule is for a mixed project.
pub open spec fn simple_rules(rules: Seq<DetectionRule>) -> bool {
    forall|i: int| 0 <= i < rules.len() ==> !((#[trigger] rules[i]).project_type is Mixed)
}

/// A copy of a project type that is not mixed.
fn copy_simple_type(p: &ProjectType) -> (r: ProjectType)
    requires
        !(*p is Mixed),
    ensures
        r == *p,
{
    match p {
        ProjectType::Binary => ProjectType::Binary,
        ProjectType::Library => ProjectType::Library,
        ProjectType::Workspace => ProjectType::Workspace,
        ProjectType::Leptos => ProjectType::Leptos,
        ProjectType::Dioxus => ProjectType::Dioxus,
        ProjectType::Axum => ProjectType::Axum,
        ProjectType::Bevy => ProjectType::Bevy,
        ProjectType::Tauri => ProjectType::Tauri,
        ProjectType::Yew => ProjectType::Yew,
        ProjectType::Mixed(_) => ProjectType::Binary,
    }
}

fn priority_of(p: &ProjectType) -> (r: u8)
    ensures
        r == type_priority(*p),
{
    match p {
        ProjectType::Tauri => 0,
        ProjectType::Leptos => 1,
        ProjectType::Dioxus => 2,
        ProjectType::Yew => 3,
        ProjectType::Bevy => 4,
        ProjectType::Axum => 5,
        _ => 6,
    }
}

proof fn lemma_with_priority_simple(v: Seq<ProjectType>, k: nat)
    requires
        forall|i: int| 0 <= i < v.len() ==> !((#[trigger] v[i]) is Mixed),
    ensures
        forall|i: int|
            0 <= i < with_priority(v, k).len() ==> !((#[trigger] with_priority(v, k)[i]) is Mixed),
    decreases v.len(),
{
    if v.len() > 0 {
        lemma_with_priority_simple(v.drop_last(), k);
        let w = with_priority(v.drop_last(), k);
        assert(v.last() == v[v.len() - 1]);
        if type_priority(v.last()) == k {
            assert forall|i: int|
                0 <= i < w.push(v.last()).len() implies !((#[trigger] w.push(v.last())[i]) is Mixed) by {
                if i < w.len() {
                    assert(w.push(v.last())[i] == w[i]);
                }
            }
        }
    }
}

/// The frameworks sorted by priority, keeping the order of equal ones.
fn sort_by_priority_exec(v: &Vec<ProjectType>) -> (r: Vec<ProjectType>)
    requires
        forall|i: int| 0 <= i < v@.len() ==> !((#[trigger] v@[i]) is Mixed),
    ensures
        r@ == sorted_by_priority(v@),
{
    let mut out: Vec<ProjectType> = Vec::new();
    let mut k: u8 = 0;
    while k < 7
        invariant
            k <= 7,
            forall|i: int| 0 <= i < v@.len() ==> !((#[trigger] v@[i]) is Mixed),
            out@ == priority_buckets(v@, k as nat),
        decreases 7 - k,
    {
        let ghost start = out@;
        let mut i: usize = 0;
        while i < v.len()
            invariant
                i <= v@.len(),
                k < 7,
                forall|j: int| 0 <= j < v@.len() ==> !((#[trigger] v@[j]) is Mixed),
                out@ == start + with_priority(v@.take(i as int), k as nat),
            decreases v.len() - i,
        {
            proof {
                assert(v@.take(i + 1).drop_last() =~= v@.take(i as int));
                assert(v@.take(i + 1).last() == v@[i as int]);
            }
            if priority_of(&v[i]) == k {
                let t = copy_simple_type(&v[i]);
                out.push(t);
            }
            i += 1;
        }
        assert(v@.take(v@.len() as int) =~= v@);
        k += 1;
    }
    out
}

/// What the detected frameworks make of a project: a plain binary when
/// none, the one framework, or a mixed project of all sorted by priority.
pub open spec fn detection_result(det: Seq<ProjectType>, r: ProjectType) -> bool {
    if det.len() == 0 {
        r == ProjectType::Binary
    } else if det.len() == 1 {
        r == det[0]
    } else {
        r matches ProjectType::Mixed(v) && v@ == sorted_by_priority(det)
    }
}

/// Framework detection based on dependencies and project structure.
pub struct FrameworkDetector {
    rules: Vec<DetectionRule>,
}

/// A type that is simple.
fn simple_type_contained(v: &Vec<ProjectType>, t: &ProjectType) -> (r: bool)
    requires
        !(*t is Mixed),
    ensures
        r == v@.contains(*t),
{
    let mut i: usize = 0;
    while i < v.len()
        invariant
            i <= v@.len(),
            !(*t is Mixed),
            forall|j: int| 0 <= j < i ==> v@[j] != *t,
        decreases v.len() - i,
    {
        if same_simple_type(&v[i], t) {
            assert(v@[i as int] == *t);
            return true;
        }
        i += 1;
    }
    false
}

proof fn lemma_detected_simple(
    rules: Seq<DetectionRule>,
    deps: Seq<Dependency>,
    root: Seq<char>,
    facts: FileFacts,
)
    requires
        simple_rules(rules),
    ensures
        forall|i: int|
            0 <= i < detected_types(rules, deps, root, facts).len() ==> !((#[trigger] detected_types(
                rules,
                deps,
                root,
                facts,
            )[i]) is Mixed),
    decreases rules.len(),
{
    if rules.len() > 0 {
        assert(simple_rules(rules.drop_last())) by {
            assert forall|i: int| 0 <= i < rules.drop_last().len() implies !((
            #[trigger] rules.drop_last()[i]).project_type is Mixed) by {
                assert(rules.drop_last()[i] == rules[i]);
            }
        }
        lemma_detected_simple(rules.drop_last(), deps, root, facts);
        assert(rules.last() == rules[rules.len() - 1]);
        let d = detected_types(rules.drop_last(), deps, root, facts);
        let p = rules.last().project_type;
        assert forall|i: int| 0 <= i < d.push(p).len() implies !((#[trigger] d.push(p)[i]) is Mixed) by {
            if i < d.len() {
                assert(d.push(p)[i] == d[i]);
            }
        }
    }
}

impl FrameworkDetector {
    #[verifier::type_invariant]
    spec fn rules_are_simple(self) -> bool {
        simple_rules(self.rules@)
    }

    pub closed spec fn spec_rules(&self) -> Seq<DetectionRule> {
        self.rules@
    }

    /// A detector with the built-in rules.
    pub fn new() -> (r: Self)
        ensures
            default_rules_spec(r.spec_rules()),
    {
        let rules = Self::default_rules();
        FrameworkDetector { rules }
    }

    /// The framework a project uses, from the rules that match: see
    /// `detection_result`.
    pub fn detect(
        &self,
        dependencies: &[Dependency],
        targets: &[BuildTarget],
        workspace_root: &str,
        facts: &FileFacts,
    ) -> (r: RazResult<ProjectType>)
        ensures
            r is Ok,
            detection_result(
                detected_types(self.spec_rules(), dependencies@, workspace_root@, *facts),
                r->Ok_0,
            ),
    {
        proof {
            use_type_invariant(self);
        }
        let ghost rules = self.rules@;
        let mut detected: Vec<ProjectType> = Vec::new();
        let mut i: usize = 0;
        while i < self.rules.len()
            invariant
                i <= rules.len(),
                rules == self.rules@,
                simple_rules(rules),
                detected@ == detected_types(
                    rules.take(i as int),
                    dependencies@,
                    workspace_root@,
                    *facts,
                ),
            decreases self.rules.len() - i,
        {
            proof {
                assert(rules.take(i + 1).drop_last() =~= rules.take(i as int));
                assert(rules.take(i + 1).last() == rules[i as int]);
            }
            let rule = &self.rules[i];
            if rule.matches(dependencies, workspace_root, facts) {
                if !simple_type_contained(&detected, &rule.project_type) {
                    detected.push(copy_simple_type(&rule.project_type));
                }
            }
            i += 1;
        }
        assert(rules.take(rules.len() as int) =~= rules);
        proof {
            lemma_detected_simple(rules, dependencies@, workspace_root@, *facts);
        }
        if detected.len() == 0 {
            Ok(ProjectType::Binary)
        } else if detected.len() == 1 {
            Ok(copy_simple_type(&detected[0]))
        } else {
            Ok(ProjectType::Mixed(sort_by_priority_exec(&detected)))
        }
    }

    fn default_rules() -> (r: Vec<DetectionRule>)
        ensures
            default_rules_spec(r@),
            simple_rules(r@),
    {
        let mut rules: Vec<DetectionRule> = Vec::new();
        rules.push(
            DetectionRule {
                framework: owned("tauri"),
                project_type: ProjectType::Tauri,
                conditions: vec![
                    DetectionCondition::HasFilePattern(owned("src-tauri/Cargo.toml")),
                    DetectionCondition::HasFilePattern(owned("src-tauri/tauri.conf.json")),
                ],
            },
        );
        rules.push(
            DetectionRule {
                framework: owned("tauri"),
                project_type: ProjectType::Tauri,
                conditions: vec![DetectionCondition::HasDependency(owned("tauri"))],
            },
        );
        rules.push(
            DetectionRule {
                framework: owned("leptos"),
                project_type: ProjectType::Leptos,
                conditions: vec![
                    DetectionCondition::HasAnyDependency(leptos_crates()),
                    DetectionCondition::ConfigFileContains(
                        owned("Cargo.toml"),
                        owned("[package.metadata.leptos]"),
                    ),
                ],
            },
        );
        rules.push(
            DetectionRule {
                framework: owned("leptos"),
                project_type: ProjectType::Leptos,
                conditions: vec![DetectionCondition::HasAnyDependency(leptos_crates())],
            },
        );
        rules.push(
            DetectionRule {
                framework: owned("dioxus"),
                project_type: ProjectType::Dioxus,
                conditions: vec![
                    DetectionCondition::HasDependency(owned("dioxus")),
                    DetectionCondition::HasFile(owned("Dioxus.toml")),
                ],
            },
        );
        rules.push(
            DetectionRule {
                framework: owned("dioxus"),
                project_type: ProjectType::Dioxus,
                conditions: vec![DetectionCondition::HasAnyDependency(dioxus_crates())],
            },
        );
        rules.push(
            DetectionRule {
                framework: owned("bevy"),
                project_type: ProjectType::Bevy,
                conditions: vec![DetectionCondition::HasDependency(owned("bevy"))],
            },
        );
        rules.push(
            DetectionRule {
                framework: owned("axum"),
                project_type: ProjectType::Axum,
                conditions: vec![DetectionCondition::HasDependency(owned("axum"))],
            },
        );
        rules.push(
            DetectionRule {
                framework: owned("yew"),
                project_type: ProjectType::Yew,
                conditions: vec![
                    DetectionCondition::HasDependency(owned("yew")),
                    DetectionCondition::HasFile(owned("Trunk.toml")),
                ],
            },
        );
        rules.push(
            DetectionRule {
                framework: owned("yew"),
                project_type: ProjectType::Yew,
                conditions: vec![DetectionCondition::HasAnyDependency(yew_crates())],
            },
        );
        proof {
            assert forall|i: int| 0 <= i < rules@.len() implies !((
            #[trigger] rules@[i]).project_type is Mixed) by {}
        }
        rules
    }
}

fn leptos_crates() -> (r: Vec<String>)
    ensures
        views(r@) == seq![
            "leptos"@,
            "leptos_axum"@,
            "leptos_actix"@,
            "leptos_router"@,
            "leptos_reactive"@,
        ],
{
    let mut v: Vec<String> = Vec::new();
    crate::text::push_text(&mut v, "leptos");
    crate::text::push_text(&mut v, "leptos_axum");
    crate::text::push_text(&mut v, "leptos_actix");
    crate::text::push_text(&mut v, "leptos_router");
    crate::text::push_text(&mut v, "leptos_reactive");
    assert(views(v@) =~= seq![
        "leptos"@,
        "leptos_axum"@,
        "leptos_actix"@,
        "leptos_router"@,
        "leptos_reactive"@,
    ]);
    v
}

fn dioxus_crates() -> (r: Vec<String>)
    ensures
        views(r@) == seq!["dioxus"@, "dioxus-web"@, "dioxus-desktop"@, "dioxus-mobile"@],
{
    let mut v: Vec<String> = Vec::new();
    crate::text::push_text(&mut v, "dioxus");
    crate::text::push_text(&mut v, "dioxus-web");
    crate::text::push_text(&mut v, "dioxus-desktop");
    crate::text::push_text(&mut v, "dioxus-mobile");
    assert(views(v@) =~= seq!["dioxus"@, "dioxus-web"@, "dioxus-desktop"@, "dioxus-mobile"@]);
    v
}

fn yew_crates() -> (r: Vec<String>)
    ensures
        views(r@) == seq!["yew"@, "yew-router"@, "yew-hooks"@],
{
    let mut v: Vec<String> = Vec::new();
    crate::text::push_text(&mut v, "yew");
    crate::text::push_text(&mut v, "yew-router");
    crate::text::push_text(&mut v, "yew-hooks");
    assert(views(v@) =~= seq!["yew"@, "yew-router"@, "yew-hooks"@]);
    v
}

/// A condition, with its texts as character sequences.
pub enum ConditionView {
    HasDependency(Seq<char>),
    HasAnyDependency(Seq<Seq<char>>),
    HasFile(Seq<char>),
    HasFilePattern(Seq<char>),
    ConfigFileContains(Seq<char>, Seq<char>),
}

pub open spec fn condition_view(c: DetectionCondition) -> ConditionView {
    match c {
        DetectionCondition::HasDependency(n) => ConditionView::HasDependency(n@),
        DetectionCondition::HasAnyDependency(ns) => ConditionView::HasAnyDependency(views(ns@)),
        DetectionCondition::HasFile(p) => ConditionView::HasFile(p@),
        DetectionCondition::HasFilePattern(p) => ConditionView::HasFilePattern(p@),
        DetectionCondition::ConfigFileContains(p, c) => ConditionView::ConfigFileContains(p@, c@),
    }
}

/// A rule is for the framework and type named, with the conditions given.
pub open spec fn rule_is(
    r: DetectionRule,
    framework: Seq<char>,
    t: ProjectType,
    conditions: Seq<ConditionView>,
) -> bool {
    &&& r.framework@ == framework
    &&& r.project_type == t
    &&& r.conditions@.len() == conditions.len()
    &&& forall|i: int|
        0 <= i < conditions.len() ==> condition_view(#[trigger] r.conditions@[i]) == conditions[i]
}

/// The built-in rules: Tauri by its directory layout or dependency;
/// Leptos by a dependency, with or without its Cargo metadata; Dioxus by a
/// dependency, with or without `Dioxus.toml`; Bevy; Axum; Yew by a
/// dependency, with or without `Trunk.toml`.
pub open spec fn default_rules_spec(rules: Seq<DetectionRule>) -> bool {
    let leptos = seq![
        "leptos"@,
        "leptos_axum"@,
        "leptos_actix"@,
        "leptos_router"@,
        "leptos_reactive"@,
    ];
    let dioxus = seq!["dioxus"@, "dioxus-web"@, "dioxus-desktop"@, "dioxus-mobile"@];
    let yew = seq!["yew"@, "yew-router"@, "yew-hooks"@];
    &&& rules.len() == 10
    &&& rule_is(
        rules[0],
        "tauri"@,
        ProjectType::Tauri,
        seq![
            ConditionView::HasFilePattern("src-tauri/Cargo.toml"@),
            ConditionView::HasFilePattern("src-tauri/tauri.conf.json"@),
        ],
    )
    &&& rule_is(rules[1], "tauri"@, ProjectType::Tauri, seq![ConditionView::HasDependency("tauri"@)])
    &&& rule_is(
        rules[2],
        "leptos"@,
        ProjectType::Leptos,
        seq![
            ConditionView::HasAnyDependency(leptos),
            ConditionView::ConfigFileContains("Cargo.toml"@, "[package.metadata.leptos]"@),
        ],
    )
    &&& rule_is(
        rules[3],
        "leptos"@,
        ProjectType::Leptos,
        seq![ConditionView::HasAnyDependency(leptos)],
    )
    &&& rule_is(
        rules[4],
        "dioxus"@,
        ProjectType::Dioxus,
        seq![ConditionView::HasDependency("dioxus"@), ConditionView::HasFile("Dioxus.toml"@)],
    )
    &&& rule_is(
        rules[5],
        "dioxus"@,
        ProjectType::Dioxus,
        seq![ConditionView::HasAnyDependency(dioxus)],
    )
    &&& rule_is(rules[6], "bevy"@, ProjectType::Bevy, seq![ConditionView::HasDependency("bevy"@)])
    &&& rule_is(rules[7], "axum"@, ProjectType::Axum, seq![ConditionView::HasDependency("axum"@)])
    &&& rule_is(
        rules[8],
        "yew"@,
        ProjectType::Yew,
        seq![ConditionView::HasDependency("yew"@), ConditionView::HasFile("Trunk.toml"@)],
    )
    &&& rule_is(rules[9], "yew"@, ProjectType::Yew, seq![ConditionView::HasAnyDependency(yew)])
}


/// A build target as a triple of name, type and path.
pub open spec fn target_triple(t: BuildTarget) -> (Seq<char>, TargetType, Seq<char>) {
    (t.name@, t.target_type, t.path@)
}

pub open spec fn target_triples(v: Seq<BuildTarget>) -> Seq<(Seq<char>, TargetType, Seq<char>)> {
    v.map_values(|t: BuildTarget| target_triple(t))
}

/// One target per `.rs` file of a directory, named by the file's stem.
pub open spec fn rust_file_targets(dir: Seq<char>, names: Seq<Seq<char>>, k: TargetType) -> Seq<
    (Seq<char>, TargetType, Seq<char>),
>
    decreases names.len(),
{
    if names.len() == 0 {
        seq![]
    } else {
        let rest = rust_file_targets(dir, names.drop_last(), k);
        let n = names.last();
        if has_suffix(n, ".rs"@) {
            rest.push((n.subrange(0, n.len() - 3), k, join_path(dir, n)))
        } else {
            rest
        }
    }
}

/// The build targets of a project: the main binary and the library where
/// their files exist, then one example per `.rs` file of `examples/` and
/// one test per `.rs` file of `tests/`, in the order the directories list
/// them.
pub open spec fn listed_targets(
    root: Seq<char>,
    has_main: bool,
    has_lib: bool,
    examples: Option<Seq<Seq<char>>>,
    tests: Option<Seq<Seq<char>>>,
) -> Seq<(Seq<char>, TargetType, Seq<char>)> {
    (if has_main {
        seq![("main"@, TargetType::Binary, join_path(root, "src/main.rs"@))]
    } else {
        seq![]
    }) + (if has_lib {
        seq![("lib"@, TargetType::Library, join_path(root, "src/lib.rs"@))]
    } else {
        seq![]
    }) + (match examples {
        Some(e) => rust_file_targets(join_path(root, "examples"@), e, TargetType::Example),
        None => seq![],
    }) + (match tests {
        Some(t) => rust_file_targets(join_path(root, "tests"@), t, TargetType::Test),
        None => seq![],
    })
}

pub open spec fn opt_views(o: Option<&Vec<String>>) -> Option<Seq<Seq<char>>> {
    match o {
        Some(v) => Some(views(v@)),
        None => None,
    }
}

/// Build target detection from what the project directory holds.
pub struct TargetDetector;

fn push_rust_file_targets(
    out: &mut Vec<BuildTarget>,
    dir: &str,
    names: &Vec<String>,
    k: TargetType,
)
    ensures
        target_triples(final(out)@) == target_triples(old(out)@) + rust_file_targets(
            dir@,
            views(names@),
            k,
        ),
{
    let ghost start = target_triples(out@);
    let ghost nv = views(names@);
    let mut i: usize = 0;
    while i < names.len()
        invariant
            i <= names@.len(),
            nv == views(names@),
            target_triples(out@) == start + rust_file_targets(dir@, nv.take(i as int), k),
        decreases names.len() - i,
    {
        proof {
            assert(nv.take(i + 1).drop_last() =~= nv.take(i as int));
            assert(nv.take(i + 1).last() == names@[i as int]@);
        }
        let name = names[i].as_str();
        if str_ends_with(name, ".rs") {
            proof {
                reveal_strlit(".rs");
            }
            let chars = crate::text::chars_of(name);
            let stem = crate::text::sub_string(chars.as_slice(), 0, chars.len() - 3);
            let t = BuildTarget { name: stem, target_type: k, path: path_join(dir, name) };
            let ghost before = out@;
            out.push(t);
            assert(target_triples(out@) =~= target_triples(before).push(target_triple(t)));
        }
        i += 1;
    }
    assert(nv.take(names@.len() as int) =~= nv);
}

impl TargetDetector {
    pub fn new() -> (r: Self) {
        TargetDetector
    }

    /// The build targets of a project from what its directory holds:
    /// whether `src/main.rs` and `src/lib.rs` exist, and the file names in
    /// `examples/` and `tests/` where those directories exist.
    pub fn detect_from_listing(
        &self,
        root: &str,
        has_main: bool,
        has_lib: bool,
        example_files: Option<&Vec<String>>,
        test_files: Option<&Vec<String>>,
    ) -> (r: Vec<BuildTarget>)
        ensures
            target_triples(r@) == listed_targets(
                root@,
                has_main,
                has_lib,
                opt_views(example_files),
                opt_views(test_files),
            ),
    {
        let mut targets: Vec<BuildTarget> = Vec::new();
        if has_main {
            targets.push(
                BuildTarget {
                    name: owned("main"),
                    target_type: TargetType::Binary,
                    path: path_join(root, "src/main.rs"),
                },
            );
        }
        if has_lib {
            targets.push(
                BuildTarget {
                    name: owned("lib"),
                    target_type: TargetType::Library,
                    path: path_join(root, "src/lib.rs"),
                },
            );
        }
        let ghost head = target_triples(targets@);
        assert(head =~= (if has_main {
            seq![("main"@, TargetType::Binary, join_path(root@, "src/main.rs"@))]
        } else {
            seq![]
        }) + (if has_lib {
            seq![("lib"@, TargetType::Library, join_path(root@, "src/lib.rs"@))]
        } else {
            seq![]
        }));
        if let Some(names) = example_files {
            let dir = path_join(root, "examples");
            push_rust_file_targets(&mut targets, dir.as_str(), names, TargetType::Example);
        }
        let ghost mid = target_triples(targets@);
        if let Some(names) = test_files {
            let dir = path_join(root, "tests");
            push_rust_file_targets(&mut targets, dir.as_str(), names, TargetType::Test);
        }
        assert(target_triples(targets@) =~= listed_targets(
            root@,
            has_main,
            has_lib,
            opt_views(example_files),
            opt_views(test_files),
        ));
        targets
    }
}


/// The structure a `Cargo.toml` describes: a workspace with its members,
/// or a single package.
#[derive(Debug)]
pub struct WorkspaceInfo {
    pub is_workspace: bool,
    pub members: Vec<WorkspaceMember>,
}

/// Workspace detection from a `Cargo.toml`.
pub struct WorkspaceDetector;

/// The error for a manifest that is no TOML document.
/// The package name of a manifest document.
pub open spec fn package_name_in(doc: TomlData) -> Option<Seq<char>> {
    match toml_at(doc, "package"@) {
        Some(p) => toml_text_at(p, "name"@),
        None => None,
    }
}

/// The workspace a `Cargo.toml` text describes: for a `[workspace]`
/// table, its members (each string of its `members` array, named by its
/// path), else the one package, named by its name or `unknown`, at the
/// manifest's directory. `Err` holds the parse error's text, or `None`
/// where the workspace has no members array.
pub open spec fn workspace_of(content: Seq<char>, cargo_dir: Seq<char>) -> Result<
    (bool, Seq<(Seq<char>, Seq<char>)>),
    Option<Seq<char>>,
> {
    match toml_document(content) {
        Err(m) => Err(Some(m)),
        Ok(doc) => match toml_at(doc, "workspace"@) {
            Some(ws) => match toml_at(ws, "members"@) {
                Some(TomlData::Arr(items)) => Ok(
                    (
                        true,
                        strings_among(items@, items@.len() as int).map_values(
                            |p: Seq<char>| (p, p),
                        ),
                    ),
                ),
                _ => Err(None),
            },
            None => Ok(
                (
                    false,
                    seq![
                        (
                            match package_name_in(doc) {
                                Some(n) => n,
                                None => "unknown"@,
                            },
                            cargo_dir,
                        ),
                    ],
                ),
            ),
        },
    }
}

/// Members are the given (name, path) pairs, each typed as a binary.
pub open spec fn members_are(v: Seq<WorkspaceMember>, s: Seq<(Seq<char>, Seq<char>)>) -> bool {
    v.len() == s.len() && forall|i: int|
        0 <= i < v.len() ==> (#[trigger] v[i]).name@ == s[i].0 && v[i].path@ == s[i].1
            && v[i].package_type == ProjectType::Binary
}

/// A dependency as values.
pub struct DepSpec {
    pub name: Seq<char>,
    pub version: Seq<char>,
    pub features: Seq<Seq<char>>,
    pub optional: bool,
    pub dev: bool,
}

pub open spec fn dep_is(d: Dependency, s: DepSpec) -> bool {
    &&& d.name@ == s.name
    &&& d.version@ == s.version
    &&& views(d.features@) == s.features
    &&& d.optional == s.optional
    &&& d.dev_dependency == s.dev
}

pub open spec fn deps_are(v: Seq<Dependency>, s: Seq<DepSpec>) -> bool {
    v.len() == s.len() && forall|i: int| 0 <= i < v.len() ==> dep_is(#[trigger] v[i], s[i])
}

/// The dependency a table entry gives: a version string, or a table with
/// a version (`*` when it has no string one), the strings of its features
/// array and its `optional` flag; nothing for other values.
pub open spec fn dependency_entry(name: Seq<char>, v: TomlData, is_dev: bool) -> Option<DepSpec> {
    match v {
        TomlData::Str(s) => Some(
            DepSpec { name, version: s@, features: seq![], optional: false, dev: is_dev },
        ),
        TomlData::Tab(_) => Some(
            DepSpec {
                name,
                version: match toml_text_at(v, "version"@) {
                    Some(t) => t,
                    None => "*"@,
                },
                features: match toml_at(v, "features"@) {
                    Some(TomlData::Arr(items)) => strings_among(items@, items@.len() as int),
                    _ => seq![],
                },
                optional: match toml_at(v, "optional"@) {
                    Some(TomlData::Bool(b)) => b,
                    _ => false,
                },
                dev: is_dev,
            },
        ),
        _ => None,
    }
}

/// The dependencies the first `k` entries give.
pub open spec fn dependencies_in(entries: Seq<(String, TomlData)>, is_dev: bool, k: int) -> Seq<
    DepSpec,
>
    decreases k,
{
    if k <= 0 || k > entries.len() {
        seq![]
    } else {
        dependencies_in(entries, is_dev, k - 1) + match dependency_entry(
            entries[k - 1].0@,
            entries[k - 1].1,
            is_dev,
        ) {
            Some(d) => seq![d],
            None => seq![],
        }
    }
}

/// The dependencies of a section of a manifest document, where it is a
/// table.
pub open spec fn section_dependencies(doc: TomlData, section: Seq<char>, is_dev: bool) -> Seq<
    DepSpec,
> {
    match toml_at(doc, section) {
        Some(TomlData::Tab(e)) => dependencies_in(e@, is_dev, e@.len() as int),
        _ => seq![],
    }
}

fn invalid_manifest(message: String) -> (e: RazError)
    ensures
        e matches RazError::Parse { message: m } && m@ == "Invalid Cargo.toml: "@ + message@
            && has_prefix(m@, "Invalid Cargo.toml: "@),
{
    let text = fmt_text("Invalid Cargo.toml: ", message.as_str(), "");
    proof {
        reveal_strlit("");
        assert(text@ =~= "Invalid Cargo.toml: "@ + message@);
        assert(text@.subrange(0, "Invalid Cargo.toml: "@.len() as int) =~= "Invalid Cargo.toml: "@);
    }
    RazError::Parse { message: text }
}

impl WorkspaceDetector {
    pub fn new() -> (r: Self) {
        WorkspaceDetector
    }

    /// The workspace structure a `Cargo.toml` text describes; `cargo_dir`
    /// is the directory that holds it. A package without a name is
    /// `unknown`.
    pub fn detect_from_toml(&self, content: &str, cargo_dir: &str) -> (r: RazResult<WorkspaceInfo>)
        ensures
            match workspace_of(content@, cargo_dir@) {
                Err(Some(m)) => r matches Err(RazError::Parse { message }) && message@
                    == "Invalid Cargo.toml: "@ + m,
                Err(None) => r matches Err(RazError::Parse { message }) && message@
                    == "Workspace missing members"@,
                Ok((ws, members)) => r matches Ok(info) && info.is_workspace == ws && members_are(
                    info.members@,
                    members,
                ),
            },
    {
        let parsed = match parse_toml_text(content) {
            Ok(v) => v,
            Err(message) => {
                return Err(invalid_manifest(message));
            },
        };
        if let Some(workspace) = toml_get(&parsed, "workspace") {
            let members = match self.extract_workspace_members(workspace) {
                Ok(m) => m,
                Err(e) => {
                    return Err(e);
                },
            };
            Ok(WorkspaceInfo { is_workspace: true, members })
        } else {
            let name = match toml_get(&parsed, "package") {
                Some(p) => match toml_get(p, "name") {
                    Some(n) => toml_as_str(n),
                    None => None,
                },
                None => None,
            };
            let package_name = match name {
                Some(n) => n,
                None => owned("unknown"),
            };
            let mut members: Vec<WorkspaceMember> = Vec::new();
            members.push(
                WorkspaceMember {
                    name: package_name,
                    path: owned(cargo_dir),
                    package_type: ProjectType::Binary,
                },
            );
            Ok(WorkspaceInfo { is_workspace: false, members })
        }
    }

    /// The members a `[workspace]` table lists, each named by its path.
    fn extract_workspace_members(&self, workspace: &TomlData) -> (r: RazResult<
        Vec<WorkspaceMember>,
    >)
        ensures
            match toml_at(*workspace, "members"@) {
                Some(TomlData::Arr(items)) => r matches Ok(v) && members_are(
                    v@,
                    strings_among(items@, items@.len() as int).map_values(|p: Seq<char>| (p, p)),
                ),
                _ => r matches Err(RazError::Parse { message }) && message@
                    == "Workspace missing members"@,
            },
    {
        let members = match toml_get(workspace, "members") {
            Some(m) => match toml_as_array(m) {
                Some(a) => a,
                None => {
                    return Err(RazError::parse("Workspace missing members"));
                },
            },
            None => {
                return Err(RazError::parse("Workspace missing members"));
            },
        };
        let paths = toml_strings(members);
        let ghost ps = views(paths@);
        let mut result: Vec<WorkspaceMember> = Vec::new();
        let mut i: usize = 0;
        while i < paths.len()
            invariant
                i <= paths@.len(),
                ps == views(paths@),
                members_are(result@, ps.take(i as int).map_values(|p: Seq<char>| (p, p))),
            decreases paths.len() - i,
        {
            let path_str = paths[i].clone();
            let name = paths[i].clone();
            let ghost before = result@;
            result.push(WorkspaceMember { name, path: path_str, package_type: ProjectType::Binary });
            proof {
                let t = ps.take(i + 1).map_values(|p: Seq<char>| (p, p));
                assert(t =~= ps.take(i as int).map_values(|p: Seq<char>| (p, p)).push(
                    (ps[i as int], ps[i as int]),
                ));
                assert forall|k: int| 0 <= k < result@.len() implies (#[trigger] result@[k]).name@
                    == t[k].0 && result@[k].path@ == t[k].1 && result@[k].package_type
                    == ProjectType::Binary by {
                    if k < before.len() {
                        assert(result@[k] == before[k]);
                    }
                }
            }
            i += 1;
        }
        assert(ps.take(ps.len() as int) =~= ps);
        Ok(result)
    }
}

/// Dependency analysis of a `Cargo.toml`.
pub struct DependencyAnalyzer;

impl DependencyAnalyzer {
    pub fn new() -> (r: Self) {
        DependencyAnalyzer
    }

    /// The dependencies of a `Cargo.toml` text: those of `[dependencies]`,
    /// then those of `[dev-dependencies]` marked as such.
    pub fn analyze_toml(&self, content: &str) -> (r: RazResult<Vec<Dependency>>)
        ensures
            match toml_document(content@) {
                Err(m) => r matches Err(RazError::Parse { message }) && message@
                    == "Invalid Cargo.toml: "@ + m,
                Ok(doc) => r matches Ok(v) && deps_are(
                    v@,
                    section_dependencies(doc, "dependencies"@, false) + section_dependencies(
                        doc,
                        "dev-dependencies"@,
                        true,
                    ),
                ),
            },
    {
        let parsed = match parse_toml_text(content) {
            Ok(v) => v,
            Err(message) => {
                return Err(invalid_manifest(message));
            },
        };
        let mut dependencies: Vec<Dependency> = Vec::new();
        let ghost a = section_dependencies(parsed, "dependencies"@, false);
        let ghost b = section_dependencies(parsed, "dev-dependencies"@, true);
        assert(deps_are(dependencies@, Seq::<DepSpec>::empty()));
        if let Some(deps) = toml_get(&parsed, "dependencies") {
            if let Some(entries) = toml_table_entries(deps) {
                let mut found = self.parse_dependencies(entries, false);
                let ghost f = found@;
                dependencies.append(&mut found);
                assert(dependencies@ =~= f);
            }
        }
        let ghost mid = dependencies@;
        assert(deps_are(mid, a));
        if let Some(deps) = toml_get(&parsed, "dev-dependencies") {
            if let Some(entries) = toml_table_entries(deps) {
                let mut found = self.parse_dependencies(entries, true);
                let ghost f = found@;
                dependencies.append(&mut found);
                proof {
                    assert(dependencies@ =~= mid + f);
                    assert forall|i: int| 0 <= i < dependencies@.len() implies dep_is(
                        #[trigger] dependencies@[i],
                        (a + b)[i],
                    ) by {
                        if i < mid.len() {
                            assert(dep_is(mid[i], a[i]));
                        } else {
                            assert(dep_is(f[i - mid.len()], b[i - mid.len()]));
                        }
                    }
                }
            }
        }
        assert(a + b =~= a + b);
        proof {
            if !(toml_at(parsed, "dev-dependencies"@) matches Some(TomlData::Tab(_))) {
                assert(b =~= Seq::<DepSpec>::empty());
                assert(a + b =~= a);
            }
        }
        Ok(dependencies)
    }

    /// The dependencies of a table's entries: a version string, or a table
    /// with a version (`*` when absent), features and whether it is
    /// optional. Other entries are skipped.
    fn parse_dependencies(&self, entries: &Vec<(String, TomlData)>, is_dev: bool) -> (r: Vec<
        Dependency,
    >)
        ensures
            deps_are(r@, dependencies_in(entries@, is_dev, entries@.len() as int)),
    {
        let mut result: Vec<Dependency> = Vec::new();
        let mut i: usize = 0;
        while i < entries.len()
            invariant
                i <= entries@.len(),
                deps_are(result@, dependencies_in(entries@, is_dev, i as int)),
            decreases entries.len() - i,
        {
            let name = &entries[i].0;
            let value = &entries[i].1;
            let ghost before = result@;
            let ghost prev = dependencies_in(entries@, is_dev, i as int);
            if let Some(version) = toml_as_str(value) {
                result.push(
                    Dependency {
                        name: name.clone(),
                        version,
                        features: Vec::new(),
                        optional: false,
                        dev_dependency: is_dev,
                    },
                );
                proof {
                    assert(views(result@.last().features@) =~= Seq::<Seq<char>>::empty());
                }
            } else if toml_is_table(value) {
                let version = match toml_get(value, "version") {
                    Some(v) => match toml_as_str(v) {
                        Some(s) => s,
                        None => owned("*"),
                    },
                    None => owned("*"),
                };
                let features: Vec<String> = match toml_get(value, "features") {
                    Some(f) => match toml_as_array(f) {
                        Some(items) => toml_strings(items),
                        None => Vec::new(),
                    },
                    None => Vec::new(),
                };
                assert(features@.len() == 0 ==> views(features@) =~= Seq::<Seq<char>>::empty());
                let optional = match toml_get(value, "optional") {
                    Some(o) => match toml_as_bool(o) {
                        Some(b) => b,
                        None => false,
                    },
                    None => false,
                };
                result.push(
                    Dependency { name: name.clone(), version, features, optional, dev_dependency: is_dev },
                );
            }
            proof {
                assert(entries@.take(i + 1).drop_last() =~= entries@.take(i as int));
                assert forall|k: int| 0 <= k < result@.len() implies dep_is(
                    #[trigger] result@[k],
                    dependencies_in(entries@, is_dev, i + 1)[k],
                ) by {
                    if k < before.len() {
                        assert(result@[k] == before[k]);
                        assert(dep_is(before[k], prev[k]));
                    }
                }
            }
            i += 1;
        }
        result
    }
}

/// The package name a `Cargo.toml` text gives.
pub fn package_name_from_toml(content: &str) -> (r: RazResult<String>)
    ensures
        match toml_document(content@) {
            Err(m) => r matches Err(RazError::Parse { message }) && message@ == "Invalid Cargo.toml: "@
                + m,
            Ok(doc) => match package_name_in(doc) {
                Some(n) => r matches Ok(s) && s@ == n,
                None => r matches Err(RazError::Parse { message }) && message@
                    == "No package name found in Cargo.toml"@,
            },
        },
{
    let parsed = match parse_toml_text(content) {
        Ok(v) => v,
        Err(message) => {
            return Err(invalid_manifest(message));
        },
    };
    let name = match toml_get(&parsed, "package") {
        Some(p) => match toml_get(p, "name") {
            Some(n) => toml_as_str(n),
            None => None,
        },
        None => None,
    };
    match name {
        Some(n) => Ok(n),
        None => Err(RazError::parse("No package name found in Cargo.toml")),
    }
}

/// What a workspace member's `Cargo.toml` gives: its package name, where
/// one was found, and its dependencies.
pub struct MemberManifest {
    pub package_name: Option<String>,
    pub dependencies: Vec<Dependency>,
}

/// The dependencies with those of `more` added whose name is not there yet.
pub open spec fn merged_deps(all: Seq<Dependency>, more: Seq<Dependency>) -> Seq<Dependency>
    decreases more.len(),
{
    if more.len() == 0 {
        all
    } else {
        let m = merged_deps(all, more.drop_last());
        if has_dep(m, more.last().name@) {
            m
        } else {
            m.push(more.last())
        }
    }
}

/// The dependencies with those of every member manifest merged in, in
/// member order.
pub open spec fn merged_all(all: Seq<Dependency>, manifests: Seq<Option<MemberManifest>>) -> Seq<
    Dependency,
>
    decreases manifests.len(),
{
    if manifests.len() == 0 {
        all
    } else {
        let a = merged_all(all, manifests.drop_last());
        match manifests.last() {
            Some(m) => merged_deps(a, m.dependencies@),
            None => a,
        }
    }
}

/// How the analysis updates a workspace member from its manifest: the
/// package name where one was found, and the framework its dependencies
/// show; a member without a manifest is kept.
pub open spec fn member_updated(
    old: WorkspaceMember,
    manifest: Option<MemberManifest>,
    new: WorkspaceMember,
    root: Seq<char>,
    facts: FileFacts,
    rules: Seq<DetectionRule>,
) -> bool {
    &&& new.path == old.path
    &&& match manifest {
        None => new.name == old.name && new.package_type == old.package_type,
        Some(m) => {
            &&& new.name@ == (match m.package_name {
                Some(n) => n@,
                None => old.name@,
            })
            &&& detection_result(
                detected_types(rules, m.dependencies@, join_path(root, old.path@), facts),
                new.package_type,
            )
        },
    }
}

fn merge_into(all: &mut Vec<Dependency>, more: Vec<Dependency>)
    ensures
        final(all)@ == merged_deps(old(all)@, more@),
{
    let ghost start = all@;
    let ghost ms = more@;
    let ghost n = more@.len();
    for d in it: more.into_iter()
        invariant
            it.seq() == ms,
            all@ == merged_deps(start, ms.take(it.index() as int)),
    {
        let ghost i = it.index() as int;
        proof {
            assert(ms.take(i + 1).drop_last() =~= ms.take(i));
            assert(ms.take(i + 1).last() == ms[i]);
        }
        let present = {
            let mut found = false;
            let mut k: usize = 0;
            while k < all.len()
                invariant
                    k <= all@.len(),
                    found == exists|j: int| 0 <= j < k && (#[trigger] all@[j]).name@ == d.name@,
                decreases all.len() - k,
            {
                if str_eq(all[k].name.as_str(), d.name.as_str()) {
                    found = true;
                }
                k += 1;
            }
            found
        };
        if !present {
            all.push(d);
        }
    }
    assert(ms.take(n as int) =~= ms);
}

/// Main project analyzer.
pub struct ProjectAnalyzer {
    workspace_detector: WorkspaceDetector,
    dependency_analyzer: DependencyAnalyzer,
    target_detector: TargetDetector,
    framework_detector: FrameworkDetector,
    file_analyzer: FileAnalyzer,
}

impl ProjectAnalyzer {
    pub closed spec fn spec_rules(&self) -> Seq<DetectionRule> {
        self.framework_detector.spec_rules()
    }

    pub fn new() -> (r: Self)
        ensures
            default_rules_spec(r.spec_rules()),
            r.spec_has_rust_analyzer() == crate::ast::queries_compile(),
    {
        ProjectAnalyzer {
            workspace_detector: WorkspaceDetector::new(),
            dependency_analyzer: DependencyAnalyzer::new(),
            target_detector: TargetDetector::new(),
            framework_detector: FrameworkDetector::new(),
            file_analyzer: FileAnalyzer::new(),
        }
    }

    /// The project context from what was read of the project: its
    /// workspace structure, the root package's name and dependencies, each
    /// member's manifest where it exists, the build targets and the file
    /// system facts. Members of a workspace are named and typed from their
    /// manifests and their dependencies merged in (each name once); a single
    /// package takes the root package's name. The project's framework comes
    /// from all dependencies.
    pub fn analyze_project_from(
        &self,
        root: &str,
        workspace: WorkspaceInfo,
        root_package_name: Option<String>,
        root_dependencies: Vec<Dependency>,
        member_manifests: Vec<Option<MemberManifest>>,
        targets: Vec<BuildTarget>,
        facts: &FileFacts,
    ) -> (r: RazResult<ProjectContext>)
        requires
            workspace.is_workspace ==> member_manifests@.len() == workspace.members@.len(),
        ensures
            r is Ok,
            ({
                let c = r->Ok_0;
                &&& c.workspace_root@ == root@
                &&& c.current_file is None
                &&& c.cursor_position is None
                &&& c.active_features@.len() == 0
                &&& c.env_vars@.len() == 0
                &&& c.build_targets == targets
                &&& c.workspace_members@.len() == workspace.members@.len()
                &&& detection_result(
                    detected_types(self.spec_rules(), c.dependencies@, root@, *facts),
                    c.project_type,
                )
                &&& if workspace.is_workspace {
                    &&& c.dependencies@ == merged_all(root_dependencies@, member_manifests@)
                    &&& forall|i: int|
                        0 <= i < c.workspace_members@.len() ==> member_updated(
                            workspace.members@[i],
                            member_manifests@[i],
                            #[trigger] c.workspace_members@[i],
                            root@,
                            *facts,
                            self.spec_rules(),
                        )
                } else {
                    &&& c.dependencies@ == root_dependencies@
                    &&& forall|i: int|
                        0 < i < c.workspace_members@.len() ==> #[trigger] c.workspace_members@[i]
                            == workspace.members@[i]
                    &&& c.workspace_members@.len() > 0 ==> {
                        let m = c.workspace_members@[0];
                        let o = workspace.members@[0];
                        &&& m.path == o.path
                        &&& m.package_type == o.package_type
                        &&& m.name@ == (match root_package_name {
                            Some(n) => n@,
                            None => o.name@,
                        })
                    }
                }
            }),
    {
        let ghost old_members = workspace.members@;
        let ghost mans = member_manifests@;
        let mut all_dependencies = root_dependencies;
        let mut members = workspace.members;
        let mut out_members: Vec<WorkspaceMember> = Vec::new();
        if workspace.is_workspace {
            let mut manifests = member_manifests;
            let n = members.len();
            while members.len() > 0
                invariant
                    members@.len() == manifests@.len(),
                    old_members.len() == n,
                    mans.len() == n,
                    out_members@.len() + members@.len() == n,
                    members@ == old_members.skip(out_members@.len() as int),
                    manifests@ == mans.skip(out_members@.len() as int),
                    all_dependencies@ == merged_all(root_dependencies@, mans.take(out_members@.len() as int)),
                    forall|i: int|
                        0 <= i < out_members@.len() ==> member_updated(
                            old_members[i],
                            mans[i],
                            #[trigger] out_members@[i],
                            root@,
                            *facts,
                            self.spec_rules(),
                        ),
                decreases members.len(),
            {
                let ghost i = out_members@.len() as int;
                proof {
                    assert(old_members.skip(i)[0] == old_members[i]);
                    assert(mans.skip(i)[0] == mans[i]);
                    assert(old_members.skip(i).remove(0) =~= old_members.skip(i + 1));
                    assert(mans.skip(i).remove(0) =~= mans.skip(i + 1));
                    assert(mans.take(i + 1).drop_last() =~= mans.take(i));
                    assert(mans.take(i + 1).last() == mans[i]);
                }
                let member = members.remove(0);
                let manifest = manifests.remove(0);
                match manifest {
                    Some(m) => {
                        let member_root = path_join(root, member.path.as_str());
                        let package_type = match self.framework_detector.detect(
                            m.dependencies.as_slice(),
                            &[],
                            member_root.as_str(),
                            facts,
                        ) {
                            Ok(t) => t,
                            Err(e) => {
                                return Err(e);
                            },
                        };
                        let name = match m.package_name {
                            Some(n) => n,
                            None => member.name,
                        };
                        merge_into(&mut all_dependencies, m.dependencies);
                        out_members.push(WorkspaceMember { name, path: member.path, package_type });
                    },
                    None => {
                        out_members.push(member);
                    },
                }
            }
            assert(mans.take(n as int) =~= mans);
        } else {
            if members.len() > 0 {
                if let Some(name) = root_package_name {
                    let first = members.remove(0);
                    members.insert(
                        0,
                        WorkspaceMember { name, path: first.path, package_type: first.package_type },
                    );
                }
            }
            out_members = members;
        }
        let project_type = match self.framework_detector.detect(
            all_dependencies.as_slice(),
            targets.as_slice(),
            root,
            facts,
        ) {
            Ok(t) => t,
            Err(e) => {
                return Err(e);
            },
        };
        Ok(
            ProjectContext {
                workspace_root: owned(root),
                current_file: None,
                cursor_position: None,
                project_type,
                dependencies: all_dependencies,
                workspace_members: out_members,
                build_targets: targets,
                active_features: Vec::new(),
                env_vars: Vec::new(),
            },
        )
    }
}


/// The first package name found among a file's ancestor directories.
pub open spec fn first_found(names: Seq<Option<String>>) -> Option<Seq<char>>
    decreases names.len(),
{
    if names.len() == 0 {
        None
    } else {
        match names[0] {
            Some(n) => Some(n@),
            None => first_found(names.drop_first()),
        }
    }
}

/// The module path of a file from its path, split at `::`.
pub open spec fn path_module_parts(path: Seq<char>) -> Seq<Seq<char>> {
    match module_path_of(path) {
        Some(m) => nonempty_parts(split(m, "::"@)),
        None => seq![],
    }
}

/// The first module among the symbols whose name holds `test`.
pub open spec fn test_module_name(syms: Seq<crate::ast::SymbolSpec>, k: int) -> Option<Seq<char>>
    decreases syms.len() - k,
{
    if k < 0 || k >= syms.len() {
        None
    } else if syms[k].kind == crate::context::SymbolKind::Module && (syms[k].name == "tests"@
        || crate::text::has_sub(syms[k].name, "test"@)) {
        Some(syms[k].name)
    } else {
        test_module_name(syms, k + 1)
    }
}

/// Module directories that a file's path may name.
pub open spec fn common_modules() -> Seq<Seq<char>> {
    seq!["middleware"@, "handlers"@, "controllers"@, "services"@, "utils"@, "helpers"@]
}

/// The index of the first `name` in the list.
pub open spec fn index_of_name(mp: Seq<Seq<char>>, name: Seq<char>, k: int) -> Option<int>
    decreases mp.len() - k,
{
    if k < 0 || k >= mp.len() {
        None
    } else if mp[k] == name {
        Some(k)
    } else {
        index_of_name(mp, name, k + 1)
    }
}

/// A module directory the path names, not yet in the module path, goes in
/// before `tests` where that is there, else before the last part.
pub open spec fn with_common_module(mp: Seq<Seq<char>>, path: Seq<char>, common: Seq<char>) -> Seq<
    Seq<char>,
> {
    if crate::text::has_sub(path, "/"@ + common + "/"@) && !mp.contains(common) {
        match index_of_name(mp, "tests"@, 0) {
            Some(pos) => mp.insert(pos, common),
            None => mp.insert(
                if mp.len() > 0 {
                    mp.len() - 1
                } else {
                    0
                },
                common,
            ),
        }
    } else {
        mp
    }
}

/// The module path after the first `k` module directories.
pub open spec fn with_common_modules(mp: Seq<Seq<char>>, path: Seq<char>, k: int) -> Seq<Seq<char>>
    decreases k,
{
    if k <= 0 || k > 6 {
        mp
    } else {
        with_common_module(with_common_modules(mp, path, k - 1), path, common_modules()[k - 1])
    }
}

/// A module path completed by the usual layouts: `tests` where the text
/// has a test module, the file's stem alone for an integration test, and
/// the module directories the path names.
pub open spec fn enhanced_module_path(mp: Seq<Seq<char>>, path: Seq<char>, content: Seq<char>) -> Seq<
    Seq<char>,
> {
    let a = if (crate::text::has_sub(content, "#[cfg(test)]"@) || crate::text::has_sub(
        content,
        "mod tests"@,
    )) && !mp.contains("tests"@) {
        mp.push("tests"@)
    } else {
        mp
    };
    let b = if crate::text::has_sub(path, "/tests/"@) {
        match crate::paths::file_stem(path) {
            Some(stem) => seq![stem],
            None => a,
        }
    } else {
        a
    };
    with_common_modules(b, path, 6)
}

/// The module path read from a file's syntax tree: its path's modules,
/// the first test module among its symbols, completed by the usual
/// layouts. Empty where no Rust analyzer is at hand; `None` where the text
/// could not be read or analysed.
pub open spec fn syntax_module_path(available: bool, path: Seq<char>, source: Option<&str>) -> Option<
    Seq<Seq<char>>,
> {
    if !available {
        Some(seq![])
    } else {
        match source {
            None => None,
            Some(c) => if !crate::ast::queries_compile() {
                None
            } else {
                match crate::syntax_tree::rust_syntax_tree(c@) {
                    None => None,
                    Some(t) => match crate::ast::symbols_spec(t, c@) {
                        None => None,
                        Some(syms) => {
                            let base = path_module_parts(path);
                            let mp = match test_module_name(syms, 0) {
                                Some(n) => base.push(n),
                                None => base,
                            };
                            Some(enhanced_module_path(mp, path, c@))
                        },
                    },
                }
            },
        }
    }
}

/// The module path of a file: from its syntax tree where that gives one,
/// else from its path.
pub open spec fn resolved_module_path(available: bool, path: Seq<char>, source: Option<&str>) -> Seq<
    Seq<char>,
> {
    match syntax_module_path(available, path, source) {
        Some(mp) => if mp.len() > 0 {
            mp
        } else {
            path_module_parts(path)
        },
        None => path_module_parts(path),
    }
}

/// The test context the analyzer resolves for the current file. The
/// package comes from the workspace members, else from the nearest
/// ancestor directory whose `Cargo.toml` names one (`ancestor_packages`
/// lists, from the file's directory up, what each directory's manifest
/// names).
pub open spec fn analyzer_test_context(
    context: ProjectContext,
    ancestor_packages: Seq<Option<String>>,
    available: bool,
    source: Option<&str>,
) -> Option<TestContextView> {
    match context.current_file {
        None => None,
        Some(fc) => if fc.language != Language::Rust {
            None
        } else {
            let v = TestContextView {
                package_name: match package_for(context, fc.path@) {
                    Some(p) => Some(p),
                    None => first_found(ancestor_packages),
                },
                target: target_for(context, fc.path@),
                module_parts: resolved_module_path(available, fc.path@, source),
                test_name: cursor_test_name(fc),
                features: views(context.active_features@),
                env_vars: context.env_vars@.map_values(|p: (String, String)| (p.0@, p.1@)),
                working_dir: Some(context.workspace_root@),
            };
            if v.test_name is Some || v.module_parts.len() > 0 || v.package_name is Some {
                Some(v)
            } else {
                None
            }
        },
    }
}

fn module_parts_of_path(file_path: &str) -> (r: Vec<String>)
    ensures
        views(r@) == path_module_parts(file_path@),
{
    let mut parts_out: Vec<String> = Vec::new();
    if let Some(base) = FileAnalyzer::extract_module_path(file_path) {
        let chars = chars_of(base.as_str());
        let sep = [':', ':'];
        proof {
            reveal_strlit("::");
            assert(sep@ =~= "::"@);
        }
        let parts = split_seq(chars.as_slice(), &sep);
        let ghost pv = crate::text::vviews(parts@);
        let mut i: usize = 0;
        while i < parts.len()
            invariant
                i <= parts@.len(),
                pv == crate::text::vviews(parts@),
                views(parts_out@) == nonempty_parts(pv.take(i as int)),
            decreases parts.len() - i,
        {
            proof {
                assert(pv.take(i + 1).drop_last() =~= pv.take(i as int));
                assert(pv.take(i + 1).last() == parts@[i as int]@);
            }
            if parts[i].len() > 0 {
                let ghost before = parts_out@;
                parts_out.push(string_from(parts[i].as_slice()));
                proof {
                    crate::text::lemma_views_push(before, parts_out@.last());
                    assert(parts_out@ == before.push(parts_out@.last()));
                }
            }
            i += 1;
        }
        assert(pv.take(parts@.len() as int) =~= pv);
    }
    parts_out
}

/// Some name of the list is `name`.
fn names_contain(names: &Vec<String>, name: &str) -> (r: bool)
    ensures
        r == views(names@).contains(name@),
{
    let mut i: usize = 0;
    while i < names.len()
        invariant
            i <= names@.len(),
            forall|j: int| 0 <= j < i ==> names@[j]@ != name@,
        decreases names.len() - i,
    {
        if str_eq(names[i].as_str(), name) {
            assert(views(names@)[i as int] == name@);
            return true;
        }
        i += 1;
    }
    proof {
        if views(names@).contains(name@) {
            let j = choose|j: int| 0 <= j < views(names@).len() && views(names@)[j] == name@;
            assert(names@[j]@ == name@);
        }
    }
    false
}

/// The index of the first `name` in the list.
fn position_of(names: &Vec<String>, name: &str) -> (r: Option<usize>)
    ensures
        match r {
            Some(p) => p < names@.len() && index_of_name(views(names@), name@, 0) == Some(p as int),
            None => index_of_name(views(names@), name@, 0) is None,
        },
{
    let ghost v = views(names@);
    let mut i: usize = 0;
    while i < names.len()
        invariant
            i <= names@.len(),
            v == views(names@),
            index_of_name(v, name@, 0) == index_of_name(v, name@, i as int),
        decreases names.len() - i,
    {
        assert(v[i as int] == names@[i as int]@);
        if str_eq(names[i].as_str(), name) {
            return Some(i);
        }
        i += 1;
    }
    None
}

/// Puts a module directory that the path names into the module path.
fn add_common_module(mod_path: &mut Vec<String>, file_path: &str, common: &str)
    ensures
        views(final(mod_path)@) == with_common_module(
            views(old(mod_path)@),
            file_path@,
            common@,
        ),
{
    let pattern = fmt_text("/", common, "/");
    if str_contains(file_path, pattern.as_str()) && !names_contain(mod_path, common) {
        let ghost before = views(mod_path@);
        let pos = match position_of(mod_path, "tests") {
            Some(p) => p,
            None => if mod_path.len() > 0 {
                mod_path.len() - 1
            } else {
                0
            },
        };
        mod_path.insert(pos, owned(common));
        assert(views(mod_path@) =~= before.insert(pos as int, common@));
        assert(pattern@ == "/"@ + common@ + "/"@);
        assert(crate::text::has_sub(file_path@, "/"@ + common@ + "/"@));
        assert(!before.contains(common@));
        assert(views(mod_path@) == with_common_module(before, file_path@, common@));
    } else {
        assert(!(crate::text::has_sub(file_path@, "/"@ + common@ + "/"@) && !views(
            mod_path@,
        ).contains(common@)));
    }
}

/// The name of the first module symbol whose name holds `test`.
fn first_test_module(symbols: &Vec<crate::context::Symbol>, Ghost(syms): Ghost<
    Seq<crate::ast::SymbolSpec>,
>) -> (r: Option<String>)
    requires
        crate::ast::symbols_are(symbols@, syms),
    ensures
        match test_module_name(syms, 0) {
            Some(n) => r matches Some(x) && x@ == n,
            None => r is None,
        },
{
    let mut i: usize = 0;
    while i < symbols.len()
        invariant
            i <= symbols@.len(),
            crate::ast::symbols_are(symbols@, syms),
            test_module_name(syms, 0) == test_module_name(syms, i as int),
        decreases symbols.len() - i,
    {
        let s = &symbols[i];
        assert(crate::ast::symbol_is(symbols@[i as int], syms[i as int]));
        if s.kind == crate::context::SymbolKind::Module && (str_eq(s.name.as_str(), "tests")
            || str_contains(s.name.as_str(), "test")) {
            return Some(s.name.clone());
        }
        i += 1;
    }
    None
}

impl ProjectAnalyzer {
    pub closed spec fn spec_has_rust_analyzer(&self) -> bool {
        self.file_analyzer.has_rust_analyzer()
    }

    /// Sets the current file of the project context, analysed from its
    /// text where it could be read, and the cursor.
    pub fn analyze_file(
        &self,
        context: &mut ProjectContext,
        file_path: &str,
        content: Option<&str>,
        cursor: Option<Position>,
    ) -> (r: RazResult<()>)
        requires
            content matches Some(c) ==> crate::context::imports_readable(c@),
        ensures
            r is Err <==> crate::context::file_analysis_fails(
                self.spec_has_rust_analyzer(),
                file_path@,
                content,
                cursor,
            ),
            r is Ok ==> (final(context).current_file matches Some(fc)
                && crate::context::file_context_is(
                fc,
                self.spec_has_rust_analyzer(),
                file_path@,
                content,
                cursor,
            ) && final(context).cursor_position == cursor),
            r is Err ==> *final(context) == *old(context),
            final(context).workspace_root == old(context).workspace_root,
            final(context).dependencies == old(context).dependencies,
            final(context).workspace_members == old(context).workspace_members,
            final(context).build_targets == old(context).build_targets,
    {
        let file_context = match self.file_analyzer.analyze_file(file_path, content, cursor) {
            Ok(f) => f,
            Err(e) => {
                return Err(e);
            },
        };
        context.current_file = Some(file_context);
        context.cursor_position = cursor;
        Ok(())
    }

    /// The package of a file: from the workspace members, else the first
    /// package an ancestor directory's manifest names.
    fn resolve_package_name(
        &self,
        context: &ProjectContext,
        file_path: &str,
        ancestor_packages: &Vec<Option<String>>,
    ) -> (r: RazResult<Option<String>>)
        ensures
            r is Ok,
            opt_view(r->Ok_0) == (match package_for(*context, file_path@) {
                Some(p) => Some(p),
                None => first_found(ancestor_packages@),
            }),
    {
        if let Some(p) = member_package_name(context, file_path) {
            return Ok(Some(p));
        }
        let mut i: usize = 0;
        assert(ancestor_packages@.skip(0) =~= ancestor_packages@);
        while i < ancestor_packages.len()
            invariant
                i <= ancestor_packages@.len(),
                first_found(ancestor_packages@) == first_found(ancestor_packages@.skip(i as int)),
                package_for(*context, file_path@) is None,
            decreases ancestor_packages.len() - i,
        {
            proof {
                assert(ancestor_packages@.skip(i as int)[0] == ancestor_packages@[i as int]);
                assert(ancestor_packages@.skip(i as int).drop_first() =~= ancestor_packages@.skip(
                    i + 1,
                ));
            }
            if let Some(name) = &ancestor_packages[i] {
                return Ok(Some(name.clone()));
            }
            i += 1;
        }
        assert(ancestor_packages@.skip(ancestor_packages@.len() as int) =~= seq![]);
        Ok(None)
    }

    /// The test target of a file.
    fn resolve_target_type(&self, context: &ProjectContext, file_path: &str) -> (r: RazResult<
        crate::context::TestTargetType,
    >)
        ensures
            r is Ok,
            crate::context::target_view(r->Ok_0) == target_for(*context, file_path@),
    {
        Ok(file_target_type(context, file_path))
    }

    /// The module path of a file: from its syntax tree where that gives a
    /// non-empty one, else from its path.
    fn resolve_module_path(&self, file_path: &str, source: Option<&str>) -> (r: RazResult<
        Vec<String>,
    >)
        ensures
            r is Ok,
            views(r->Ok_0@) == resolved_module_path(self.spec_has_rust_analyzer(), file_path@, source),
    {
        match self.resolve_module_path_treesitter(file_path, source) {
            Ok(mod_path) => {
                if mod_path.len() > 0 {
                    return Ok(mod_path);
                }
            },
            Err(_) => {},
        }
        Ok(module_parts_of_path(file_path))
    }

    /// The module path read from a file's syntax tree: its path's modules,
    /// the first test module among its symbols, completed by the usual
    /// layouts.
    fn resolve_module_path_treesitter(&self, file_path: &str, source: Option<&str>) -> (r:
        RazResult<Vec<String>>)
        ensures
            match syntax_module_path(self.spec_has_rust_analyzer(), file_path@, source) {
                None => r is Err,
                Some(mp) => r matches Ok(v) && views(v@) == mp,
            },
    {
        if !self.file_analyzer.rust_analyzer_available() {
            let v: Vec<String> = Vec::new();
            assert(views(v@) =~= Seq::<Seq<char>>::empty());
            return Ok(v);
        }
        let content = match source {
            Some(c) => c,
            None => {
                return Err(RazError::Io { message: owned("the file could not be read") });
            },
        };
        let mut rust_analyzer = crate::ast::RustAnalyzer::new()?;
        let tree = rust_analyzer.parse(content)?;
        let mut mod_path = module_parts_of_path(file_path);
        let symbols = rust_analyzer.extract_symbols(&tree, content)?;
        let ghost syms = crate::ast::symbols_spec(tree, content@)->0;
        match first_test_module(&symbols, Ghost(syms)) {
            Some(name) => {
                let ghost before = mod_path@;
                mod_path.push(name);
                assert(views(mod_path@) =~= views(before).push(mod_path@.last()@));
            },
            None => {},
        }
        self.enhance_module_path_with_patterns(mod_path, file_path, content)
    }

    /// A module path completed by the usual layouts: `tests` where the text
    /// has a test module, the file's stem alone for an integration test,
    /// and the module directories the path names.
    fn enhance_module_path_with_patterns(
        &self,
        mod_path: Vec<String>,
        file_path: &str,
        content: &str,
    ) -> (r: RazResult<Vec<String>>)
        ensures
            r matches Ok(v) && views(v@) == enhanced_module_path(
                views(mod_path@),
                file_path@,
                content@,
            ),
    {
        let mut mod_path = mod_path;
        let ghost mp0 = views(mod_path@);
        if (str_contains(content, "#[cfg(test)]") || str_contains(content, "mod tests"))
            && !names_contain(&mod_path, "tests") {
            mod_path.push(owned("tests"));
            assert(views(mod_path@) =~= mp0.push("tests"@));
        }
        if str_contains(file_path, "/tests/") {
            match crate::paths::path_file_stem(file_path) {
                Some(test_name) => {
                    mod_path = vec![test_name];
                    assert(views(mod_path@) =~= seq![views(mod_path@)[0]]);
                },
                None => {},
            }
        }
        let ghost b = views(mod_path@);
        add_common_module(&mut mod_path, file_path, "middleware");
        add_common_module(&mut mod_path, file_path, "handlers");
        add_common_module(&mut mod_path, file_path, "controllers");
        add_common_module(&mut mod_path, file_path, "services");
        add_common_module(&mut mod_path, file_path, "utils");
        add_common_module(&mut mod_path, file_path, "helpers");
        proof {
            reveal_with_fuel(with_common_modules, 7);
        }
        Ok(mod_path)
    }

    /// Resolve the test context of the current file, for precise test
    /// commands.
    pub fn resolve_test_context(
        &self,
        context: &ProjectContext,
        ancestor_packages: &Vec<Option<String>>,
        source: Option<&str>,
    ) -> (r: RazResult<Option<TestContext>>)
        ensures
            r is Ok,
            match r->Ok_0 {
                Some(tc) => analyzer_test_context(
                    *context,
                    ancestor_packages@,
                    self.spec_has_rust_analyzer(),
                    source,
                ) == Some(tc@),
                None => analyzer_test_context(
                    *context,
                    ancestor_packages@,
                    self.spec_has_rust_analyzer(),
                    source,
                ) is None,
            },
    {
        let file_context = match &context.current_file {
            Some(fc) => fc,
            None => {
                return Ok(None);
            },
        };
        if file_context.language != Language::Rust {
            return Ok(None);
        }
        let mut test_context = TestContext::new();
        test_context.package_name = match self.resolve_package_name(
            context,
            file_context.path.as_str(),
            ancestor_packages,
        ) {
            Ok(p) => p,
            Err(e) => {
                return Err(e);
            },
        };
        test_context.target_type = match self.resolve_target_type(context, file_context.path.as_str()) {
            Ok(t) => t,
            Err(e) => {
                return Err(e);
            },
        };
        test_context.module_parts = match self.resolve_module_path(file_context.path.as_str(), source) {
            Ok(m) => m,
            Err(e) => {
                return Err(e);
            },
        };
        if let Some(cursor_symbol) = &file_context.cursor_symbol {
            if cursor_symbol.kind == crate::context::SymbolKind::Test || (cursor_symbol.kind
                == crate::context::SymbolKind::Function && str_starts_with(
                cursor_symbol.name.as_str(),
                "test_",
            )) {
                test_context.test_name = Some(cursor_symbol.name.clone());
            }
        }
        test_context.features = crate::text::copy_strings(&context.active_features);
        test_context.env_vars = crate::text::copy_pairs(&context.env_vars);
        test_context.working_dir = Some(context.workspace_root.clone());
        proof {
            let fc = context.current_file->0;
            assert(test_context@.test_name == cursor_test_name(fc));
        }
        if test_context.is_precise() || test_context.package_name.is_some() {
            Ok(Some(test_context))
        } else {
            Ok(None)
        }
    }
}

impl Default for FrameworkDetector {
    /// The same detector as `FrameworkDetector::new`.
    fn default() -> (r: Self)
        ensures
            default_rules_spec(r.spec_rules()),
    {
        FrameworkDetector::new()
    }
}

impl Default for TargetDetector {
    fn default() -> (r: Self) {
        TargetDetector::new()
    }
}

impl Default for WorkspaceDetector {
    fn default() -> (r: Self) {
        WorkspaceDetector::new()
    }
}

impl Default for DependencyAnalyzer {
    fn default() -> (r: Self) {
        DependencyAnalyzer::new()
    }
}

impl Default for ProjectAnalyzer {
    /// The same analyzer as `ProjectAnalyzer::new`.
    fn default() -> (r: Self)
        ensures
            default_rules_spec(r.spec_rules()),
            r.spec_has_rust_analyzer() == crate::ast::queries_compile(),
    {
        ProjectAnalyzer::new()
    }
}

} // verus!
