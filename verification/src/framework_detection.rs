//! Framework kinds with their run and build commands, and a detector that
//! scores how well a project fits each framework.

use vstd::prelude::*;
use crate::context::{Dependency, FileFacts, ProjectContext, WorkspaceMember};
use crate::manifest::ManifestFacts;
use crate::paths::{components, components_exec, file_name, join_path, path_file_name, path_join};
use crate::text::{
    chars_of, has_sub, join, lowercase, owned, str_contains, str_eq, to_lowercase, views, vviews,
};
use crate::commands::strings_contain;
use crate::providers::opt_str;

verus! {

/// Framework types that can be detected.
#[derive(Debug, Clone, Copy, PartialEq, Eq, Structural, Hash)]
pub enum FrameworkType {
    LeptosSSR,
    LeptosCSR,
    DioxusWeb,
    DioxusDesktop,
    DioxusMobile,
    BevyGame,
    TauriDesktop,
    ActixWeb,
    Axum,
    Rocket,
    YewWeb,
    EguiDesktop,
    WasmPack,
    VanillaRust,
}

/// The texts of a list of static strings.
pub open spec fn static_texts(v: Seq<&'static str>) -> Seq<Seq<char>> {
    v.map_values(|s: &'static str| s@)
}

/// Whether a framework serves web content.
pub open spec fn web_framework(f: FrameworkType) -> bool {
    match f {
        FrameworkType::LeptosSSR | FrameworkType::LeptosCSR | FrameworkType::DioxusWeb
        | FrameworkType::YewWeb | FrameworkType::ActixWeb | FrameworkType::Axum
        | FrameworkType::Rocket => true,
        _ => false,
    }
}

/// The program and arguments that run a project of the framework.
pub open spec fn run_command_of(f: FrameworkType) -> (Seq<char>, Seq<Seq<char>>) {
    match f {
        FrameworkType::LeptosSSR => ("cargo"@, seq!["leptos"@, "watch"@]),
        FrameworkType::LeptosCSR => ("trunk"@, seq!["serve"@]),
        FrameworkType::DioxusWeb => ("dx"@, seq!["serve"@]),
        FrameworkType::DioxusDesktop => ("dx"@, seq!["serve"@, "--platform"@, "desktop"@]),
        FrameworkType::DioxusMobile => ("dx"@, seq!["serve"@, "--platform"@, "mobile"@]),
        FrameworkType::BevyGame => ("cargo"@, seq!["run"@]),
        FrameworkType::TauriDesktop => ("cargo"@, seq!["tauri"@, "dev"@]),
        FrameworkType::ActixWeb => ("cargo"@, seq!["run"@]),
        FrameworkType::Axum => ("cargo"@, seq!["run"@]),
        FrameworkType::Rocket => ("cargo"@, seq!["run"@]),
        FrameworkType::YewWeb => ("trunk"@, seq!["serve"@]),
        FrameworkType::EguiDesktop => ("cargo"@, seq!["run"@]),
        FrameworkType::WasmPack => ("wasm-pack"@, seq!["build"@]),
        FrameworkType::VanillaRust => ("cargo"@, seq!["run"@]),
    }
}

/// The program and arguments that build a project of the framework for
/// release.
pub open spec fn build_command_of(f: FrameworkType) -> (Seq<char>, Seq<Seq<char>>) {
    match f {
        FrameworkType::LeptosSSR => ("cargo"@, seq!["leptos"@, "build"@, "--release"@]),
        FrameworkType::LeptosCSR => ("trunk"@, seq!["build"@, "--release"@]),
        FrameworkType::DioxusWeb => ("dx"@, seq!["build"@, "--release"@]),
        FrameworkType::DioxusDesktop => ("dx"@, seq!["build"@, "--release"@]),
        FrameworkType::DioxusMobile => (
            "dx"@,
            seq!["build"@, "--release"@, "--platform"@, "mobile"@],
        ),
        FrameworkType::BevyGame => ("cargo"@, seq!["build"@, "--release"@]),
        FrameworkType::TauriDesktop => ("cargo"@, seq!["tauri"@, "build"@]),
        FrameworkType::ActixWeb => ("cargo"@, seq!["build"@, "--release"@]),
        FrameworkType::Axum => ("cargo"@, seq!["build"@, "--release"@]),
        FrameworkType::Rocket => ("cargo"@, seq!["build"@, "--release"@]),
        FrameworkType::YewWeb => ("trunk"@, seq!["build"@, "--release"@]),
        FrameworkType::EguiDesktop => ("cargo"@, seq!["build"@, "--release"@]),
        FrameworkType::WasmPack => ("wasm-pack"@, seq!["build"@, "--release"@]),
        FrameworkType::VanillaRust => ("cargo"@, seq!["build"@, "--release"@]),
    }
}

fn words1(a: &'static str) -> (r: Vec<&'static str>)
    ensures
        static_texts(r@) == seq![a@],
{
    let v = vec![a];
    assert(static_texts(v@) =~= seq![a@]);
    v
}

fn words2(a: &'static str, b: &'static str) -> (r: Vec<&'static str>)
    ensures
        static_texts(r@) == seq![a@, b@],
{
    let v = vec![a, b];
    assert(static_texts(v@) =~= seq![a@, b@]);
    v
}

fn words3(a: &'static str, b: &'static str, c: &'static str) -> (r: Vec<&'static str>)
    ensures
        static_texts(r@) == seq![a@, b@, c@],
{
    let v = vec![a, b, c];
    assert(static_texts(v@) =~= seq![a@, b@, c@]);
    v
}

fn words4(a: &'static str, b: &'static str, c: &'static str, d: &'static str) -> (r: Vec<
    &'static str,
>)
    ensures
        static_texts(r@) == seq![a@, b@, c@, d@],
{
    let v = vec![a, b, c, d];
    assert(static_texts(v@) =~= seq![a@, b@, c@, d@]);
    v
}

impl FrameworkType {
    /// Check if this is a web framework.
    pub fn is_web_framework(&self) -> (r: bool)
        ensures
            r == web_framework(*self),
    {
        match self {
            FrameworkType::LeptosSSR | FrameworkType::LeptosCSR | FrameworkType::DioxusWeb
            | FrameworkType::YewWeb | FrameworkType::ActixWeb | FrameworkType::Axum
            | FrameworkType::Rocket => true,
            _ => false,
        }
    }

    /// Get the primary run command for this framework.
    pub fn primary_run_command(&self) -> (r: (&'static str, Vec<&'static str>))
        ensures
            (r.0@, static_texts(r.1@)) == run_command_of(*self),
    {
        match self {
            FrameworkType::LeptosSSR => ("cargo", words2("leptos", "watch")),
            FrameworkType::LeptosCSR => ("trunk", words1("serve")),
            FrameworkType::DioxusWeb => ("dx", words1("serve")),
            FrameworkType::DioxusDesktop => ("dx", words3("serve", "--platform", "desktop")),
            FrameworkType::DioxusMobile => ("dx", words3("serve", "--platform", "mobile")),
            FrameworkType::BevyGame => ("cargo", words1("run")),
            FrameworkType::TauriDesktop => ("cargo", words2("tauri", "dev")),
            FrameworkType::ActixWeb => ("cargo", words1("run")),
            FrameworkType::Axum => ("cargo", words1("run")),
            FrameworkType::Rocket => ("cargo", words1("run")),
            FrameworkType::YewWeb => ("trunk", words1("serve")),
            FrameworkType::EguiDesktop => ("cargo", words1("run")),
            FrameworkType::WasmPack => ("wasm-pack", words1("build")),
            FrameworkType::VanillaRust => ("cargo", words1("run")),
        }
    }

    /// Get the build command for this framework.
    pub fn build_command(&self) -> (r: (&'static str, Vec<&'static str>))
        ensures
            (r.0@, static_texts(r.1@)) == build_command_of(*self),
    {
        match self {
            FrameworkType::LeptosSSR => ("cargo", words3("leptos", "build", "--release")),
            FrameworkType::LeptosCSR => ("trunk", words2("build", "--release")),
            FrameworkType::DioxusWeb => ("dx", words2("build", "--release")),
            FrameworkType::DioxusDesktop => ("dx", words2("build", "--release")),
            FrameworkType::DioxusMobile => (
                "dx",
                words4("build", "--release", "--platform", "mobile"),
            ),
            FrameworkType::BevyGame => ("cargo", words2("build", "--release")),
            FrameworkType::TauriDesktop => ("cargo", words2("tauri", "build")),
            FrameworkType::ActixWeb => ("cargo", words2("build", "--release")),
            FrameworkType::Axum => ("cargo", words2("build", "--release")),
            FrameworkType::Rocket => ("cargo", words2("build", "--release")),
            FrameworkType::YewWeb => ("trunk", words2("build", "--release")),
            FrameworkType::EguiDesktop => ("cargo", words2("build", "--release")),
            FrameworkType::WasmPack => ("wasm-pack", words2("build", "--release")),
            FrameworkType::VanillaRust => ("cargo", words2("build", "--release")),
        }
    }
}

/// A framework's pattern, with its texts as character sequences. Scores are
/// counted in half points.
pub struct PatternView {
    pub required: Seq<Seq<char>>,
    pub optional: Seq<Seq<char>>,
    pub files: Seq<Seq<char>>,
    pub configs: Seq<Seq<char>>,
    pub entries: Seq<Seq<char>>,
    pub specificity: nat,
}

/// How to recognise a framework: dependencies it needs, dependencies,
/// files and configuration files that make it likelier, its entry points,
/// and how specific it is (in half points).
struct FrameworkPattern {
    required_deps: Vec<&'static str>,
    optional_deps: Vec<&'static str>,
    file_patterns: Vec<&'static str>,
    config_files: Vec<&'static str>,
    entry_points: Vec<&'static str>,
    specificity: u64,
}

spec fn pattern_view(p: FrameworkPattern) -> PatternView {
    PatternView {
        required: static_texts(p.required_deps@),
        optional: static_texts(p.optional_deps@),
        files: static_texts(p.file_patterns@),
        configs: static_texts(p.config_files@),
        entries: static_texts(p.entry_points@),
        specificity: p.specificity as nat,
    }
}

/// The built-in patterns, in the order they are tried. Specificities are
/// in half points: Leptos SSR 10, Leptos CSR 8, the Dioxus platforms 8,
/// Bevy 7, Tauri 9.5, Actix 5, Axum 4, Rocket 6, Yew 9, egui 6, wasm-pack 5.
pub open spec fn pattern_table() -> Seq<(FrameworkType, PatternView)> {
    seq![
        (FrameworkType::LeptosSSR, PatternView {
            required: seq!["leptos"@, "leptos_axum"@],
            optional: seq!["leptos_meta"@, "leptos_router"@, "axum"@, "tokio"@, "tower"@, "tower-http"@],
            files: seq!["app/src/lib.rs"@, "frontend/src/lib.rs"@, "server/src/main.rs"@, "style/main.scss"@, "Cargo.toml"@],
            configs: seq!["Cargo.toml"@, "Trunk.toml"@, "style.css"@],
            entries: seq!["server/src/main.rs"@, "src/main.rs"@],
            specificity: 20,
        }),
        (FrameworkType::LeptosCSR, PatternView {
            required: seq!["leptos"@],
            optional: seq!["leptos_meta"@, "leptos_router"@, "wasm-bindgen"@, "web-sys"@],
            files: seq!["src/main.rs"@, "src/app.rs"@, "index.html"@, "Trunk.toml"@],
            configs: seq!["Trunk.toml"@, "index.html"@],
            entries: seq!["src/main.rs"@],
            specificity: 16,
        }),
        (FrameworkType::DioxusWeb, PatternView {
            required: seq!["dioxus"@],
            optional: seq!["dioxus-web"@, "dioxus-router"@, "dioxus-hooks"@, "wasm-bindgen"@],
            files: seq!["src/main.rs"@, "index.html"@, "Dioxus.toml"@],
            configs: seq!["Dioxus.toml"@],
            entries: seq!["src/main.rs"@],
            specificity: 16,
        }),
        (FrameworkType::DioxusDesktop, PatternView {
            required: seq!["dioxus"@],
            optional: seq!["dioxus-desktop"@, "dioxus-router"@, "dioxus-hooks"@],
            files: seq!["src/main.rs"@, "Dioxus.toml"@],
            configs: seq!["Dioxus.toml"@],
            entries: seq!["src/main.rs"@],
            specificity: 16,
        }),
        (FrameworkType::DioxusMobile, PatternView {
            required: seq!["dioxus"@],
            optional: seq!["dioxus-mobile"@, "dioxus-router"@, "dioxus-hooks"@],
            files: seq!["src/main.rs"@, "Dioxus.toml"@],
            configs: seq!["Dioxus.toml"@],
            entries: seq!["src/main.rs"@],
            specificity: 16,
        }),
        (FrameworkType::BevyGame, PatternView {
            required: seq!["bevy"@],
            optional: seq!["bevy_egui"@, "bevy_rapier3d"@, "bevy_rapier2d"@],
            files: seq!["src/main.rs"@, "assets/"@],
            configs: seq![],
            entries: seq!["src/main.rs"@],
            specificity: 14,
        }),
        (FrameworkType::TauriDesktop, PatternView {
            required: seq!["tauri"@],
            optional: seq!["serde"@, "serde_json"@, "tokio"@, "tauri-build"@],
            files: seq!["src-tauri/src/main.rs"@, "src-tauri/tauri.conf.json"@, "src/main.rs"@, "tauri.conf.json"@, "src/main.js"@, "index.html"@],
            configs: seq!["src-tauri/tauri.conf.json"@, "tauri.conf.json"@],
            entries: seq!["src-tauri/src/main.rs"@, "src/main.rs"@],
            specificity: 19,
        }),
        (FrameworkType::ActixWeb, PatternView {
            required: seq!["actix-web"@],
            optional: seq!["actix-rt"@, "actix-cors"@, "actix-session"@],
            files: seq!["src/main.rs"@],
            configs: seq![],
            entries: seq!["src/main.rs"@],
            specificity: 10,
        }),
        (FrameworkType::Axum, PatternView {
            required: seq!["axum"@],
            optional: seq!["tower"@, "tower-http"@, "tokio"@],
            files: seq!["src/main.rs"@],
            configs: seq![],
            entries: seq!["src/main.rs"@],
            specificity: 8,
        }),
        (FrameworkType::Rocket, PatternView {
            required: seq!["rocket"@],
            optional: seq!["rocket_contrib"@, "serde"@, "serde_json"@],
            files: seq!["src/main.rs"@, "Rocket.toml"@],
            configs: seq!["Rocket.toml"@],
            entries: seq!["src/main.rs"@],
            specificity: 12,
        }),
        (FrameworkType::YewWeb, PatternView {
            required: seq!["yew"@],
            optional: seq!["yew-router"@, "wasm-bindgen"@, "web-sys"@, "js-sys"@],
            files: seq!["src/main.rs"@, "index.html"@, "Trunk.toml"@, "index.scss"@, "style.css"@],
            configs: seq!["Trunk.toml"@, "index.html"@],
            entries: seq!["src/main.rs"@],
            specificity: 18,
        }),
        (FrameworkType::EguiDesktop, PatternView {
            required: seq!["egui"@, "eframe"@],
            optional: seq!["egui_extras"@],
            files: seq!["src/main.rs"@],
            configs: seq![],
            entries: seq!["src/main.rs"@],
            specificity: 12,
        }),
        (FrameworkType::WasmPack, PatternView {
            required: seq!["wasm-bindgen"@],
            optional: seq!["web-sys"@, "js-sys"@, "wasm-bindgen-futures"@],
            files: seq!["src/lib.rs"@, "Cargo.toml"@, "pkg/"@],
            configs: seq![],
            entries: seq!["src/lib.rs"@],
            specificity: 10,
        }),
    ]
}

/// A dependency of that name is present.
pub open spec fn has_dep(deps: Seq<Dependency>, name: Seq<char>) -> bool {
    exists|i: int| 0 <= i < deps.len() && (#[trigger] deps[i]).name@ == name
}

/// Every named dependency is present.
pub open spec fn all_present(names: Seq<Seq<char>>, deps: Seq<Dependency>) -> bool {
    forall|k: int| 0 <= k < names.len() ==> has_dep(deps, #[trigger] names[k])
}

/// How many of the names are present as dependencies.
pub open spec fn count_present(names: Seq<Seq<char>>, deps: Seq<Dependency>) -> nat
    decreases names.len(),
{
    if names.len() == 0 {
        0
    } else {
        count_present(names.drop_last(), deps) + (if has_dep(deps, names.last()) {
            1nat
        } else {
            0nat
        })
    }
}

/// How many of the paths, taken from the root, exist.
pub open spec fn count_existing(paths: Seq<Seq<char>>, root: Seq<char>, facts: FileFacts) -> nat
    decreases paths.len(),
{
    if paths.len() == 0 {
        0
    } else {
        count_existing(paths.drop_last(), root, facts) + (if facts.path_exists(
            join_path(root, paths.last()),
        ) {
            1nat
        } else {
            0nat
        })
    }
}

/// The first entry point, taken from the root, that is the file (as paths
/// compare: component by component).
pub open spec fn first_entry(entries: Seq<Seq<char>>, root: Seq<char>, file: Seq<char>) -> Option<
    Seq<char>,
>
    decreases entries.len(),
{
    if entries.len() == 0 {
        None
    } else if components(file) == components(join_path(root, entries[0])) {
        Some(entries[0])
    } else {
        first_entry(entries.drop_first(), root, file)
    }
}

/// A score in half points with its reasons.
pub struct Tally {
    pub score: nat,
    pub reasons: Seq<Seq<char>>,
}

pub open spec fn add_points(t: Tally, points: nat, reason: Seq<char>) -> Tally {
    Tally { score: t.score + points, reasons: t.reasons.push(reason) }
}

/// The one-digit decimal text of a number below ten.
pub open spec fn digit_text(n: nat) -> Seq<char> {
    seq![((n + 48) as u32) as char]
}

/// `{:?}` of a list of plain strings: `["a", "b"]`.
pub open spec fn quoted(names: Seq<Seq<char>>) -> Seq<Seq<char>> {
    names.map_values(|s: Seq<char>| "\""@ + s + "\""@)
}

pub open spec fn debug_list(names: Seq<Seq<char>>) -> Seq<char> {
    "["@ + join(quoted(names), ", "@) + "]"@
}

/// The Dioxus platform a framework stands for.
pub open spec fn dioxus_word(f: FrameworkType) -> Seq<char> {
    match f {
        FrameworkType::DioxusWeb => "web"@,
        FrameworkType::DioxusDesktop => "desktop"@,
        _ => "mobile"@,
    }
}

pub open spec fn dioxus_word_capital(f: FrameworkType) -> Seq<char> {
    match f {
        FrameworkType::DioxusWeb => "Web"@,
        FrameworkType::DioxusDesktop => "Desktop"@,
        _ => "Mobile"@,
    }
}

pub open spec fn is_dioxus(f: FrameworkType) -> bool {
    f == FrameworkType::DioxusWeb || f == FrameworkType::DioxusDesktop || f
        == FrameworkType::DioxusMobile
}

/// The last component of a member's path, or nothing.
pub open spec fn member_dir_name(p: Seq<char>) -> Seq<char> {
    match file_name(p) {
        Some(n) => n,
        None => seq![],
    }
}

/// Five half points for each workspace member whose name or directory
/// mentions the platform, case aside.
pub open spec fn member_tally(t: Tally, members: Seq<WorkspaceMember>, word: Seq<char>) -> Tally
    decreases members.len(),
{
    if members.len() == 0 {
        t
    } else {
        let t1 = member_tally(t, members.drop_last(), word);
        let m = members.last();
        if has_sub(lowercase(m.name@), word) || has_sub(lowercase(member_dir_name(m.path@)), word) {
            add_points(t1, 10, "Found "@ + word + " workspace member: "@ + m.name@)
        } else {
            t1
        }
    }
}

/// The first dependency of that name, from index `i` on.
pub open spec fn first_dep_from(deps: Seq<Dependency>, name: Seq<char>, i: int) -> Option<
    Dependency,
>
    decreases deps.len() - i,
{
    if i < 0 || i >= deps.len() {
        None
    } else if deps[i].name@ == name {
        Some(deps[i])
    } else {
        first_dep_from(deps, name, i + 1)
    }
}

/// The Dioxus bonus: workspace members, `Dioxus.toml` and its default
/// platform, the features of the `dioxus` dependency, and the default
/// features of `Cargo.toml`.
pub open spec fn dioxus_tally(
    t: Tally,
    f: FrameworkType,
    context: ProjectContext,
    facts: FileFacts,
    manifests: ManifestFacts,
) -> Tally {
    let w = dioxus_word(f);
    let root = context.workspace_root@;
    let t1 = member_tally(t, context.workspace_members@, w);
    let has_config = facts.path_exists(join_path(root, "Dioxus.toml"@));
    let t2 = if has_config {
        add_points(t1, 4, "Has Dioxus.toml configuration file"@)
    } else {
        t1
    };
    let t3 = if has_config && (manifests.dioxus_default_platform matches Some(p) && p@ == w) {
        add_points(t2, 6, "Dioxus.toml specifies "@ + w + " platform"@)
    } else {
        t2
    };
    let t4 = match first_dep_from(context.dependencies@, "dioxus"@, 0) {
        Some(d) => {
            let a = if views(d.features@).contains(w) {
                add_points(t3, 6, "Dioxus dependency has '"@ + w + "' feature"@)
            } else {
                t3
            };
            if views(d.features@).contains("fullstack"@) {
                add_points(a, 2, "Dioxus dependency has 'fullstack' feature"@)
            } else {
                a
            }
        },
        None => t3,
    };
    if facts.path_exists(join_path(root, "Cargo.toml"@)) && manifests.default_features is Some {
        let names = views(manifests.default_features->0@);
        let a = if names.contains(w) {
            add_points(t4, 8, dioxus_word_capital(f) + " is in default features"@)
        } else {
            t4
        };
        if f == FrameworkType::DioxusDesktop && names.len() == 0 {
            Tally { score: a.score + 2, reasons: a.reasons }
        } else {
            a
        }
    } else {
        t4
    }
}

/// The score and reasons of a framework whose required dependencies are
/// present.
pub open spec fn pattern_tally(
    f: FrameworkType,
    pv: PatternView,
    context: ProjectContext,
    file: Option<Seq<char>>,
    facts: FileFacts,
    manifests: ManifestFacts,
) -> Tally {
    let deps = context.dependencies@;
    let root = context.workspace_root@;
    let t0 = Tally {
        score: pv.specificity,
        reasons: seq!["Has all required dependencies: "@ + debug_list(pv.required)],
    };
    let o = count_present(pv.optional, deps);
    let t1 = if o > 0 {
        add_points(t0, o, "Has "@ + digit_text(o) + " optional dependencies"@)
    } else {
        t0
    };
    let fm = count_existing(pv.files, root, facts);
    let t2 = if fm > 0 {
        add_points(t1, 2 * fm, "Matches "@ + digit_text(fm) + " file structure patterns"@)
    } else {
        t1
    };
    let c = count_existing(pv.configs, root, facts);
    let t3 = if c > 0 {
        add_points(t2, 4 * c, "Has "@ + digit_text(c) + " config files"@)
    } else {
        t2
    };
    let t4 = match file {
        Some(fp) => match first_entry(pv.entries, root, fp) {
            Some(e) => add_points(t3, 6, "Current file is entry point: "@ + e),
            None => t3,
        },
        None => t3,
    };
    let t5 = if f == FrameworkType::LeptosSSR {
        let members = context.workspace_members@;
        let named = |n: Seq<char>|
            exists|i: int| 0 <= i < members.len() && (#[trigger] members[i]).name@ == n;
        let a = if named("app"@) || named("frontend"@) {
            add_points(t4, 4, "Has Leptos workspace structure (app/frontend crates)"@)
        } else {
            t4
        };
        if named("server"@) {
            add_points(a, 4, "Has server crate typical of Leptos SSR"@)
        } else {
            a
        }
    } else {
        t4
    };
    if is_dioxus(f) {
        dioxus_tally(t5, f, context, facts, manifests)
    } else {
        t5
    }
}

/// A framework with its score in half points and the reasons for it.
pub struct ScoreView {
    pub framework: FrameworkType,
    pub score: nat,
    pub reasons: Seq<Seq<char>>,
}

/// The scores of the frameworks whose required dependencies are present,
/// in pattern order.
pub open spec fn all_scores(
    patterns: Seq<(FrameworkType, PatternView)>,
    context: ProjectContext,
    file: Option<Seq<char>>,
    facts: FileFacts,
    manifests: ManifestFacts,
) -> Seq<ScoreView>
    decreases patterns.len(),
{
    if patterns.len() == 0 {
        seq![]
    } else {
        let rest = all_scores(patterns.drop_last(), context, file, facts, manifests);
        let (f, pv) = patterns.last();
        if all_present(pv.required, context.dependencies@) {
            let t = pattern_tally(f, pv, context, file, facts, manifests);
            rest.push(ScoreView { framework: f, score: t.score, reasons: t.reasons })
        } else {
            rest
        }
    }
}

/// Inserts a score after every score at least as high.
pub open spec fn insert_desc(s: Seq<ScoreView>, x: ScoreView) -> Seq<ScoreView>
    decreases s.len(),
{
    if s.len() == 0 {
        seq![x]
    } else if s.last().score >= x.score {
        s.push(x)
    } else {
        insert_desc(s.drop_last(), x).push(s.last())
    }
}

/// A stable sort by score, highest first.
pub open spec fn sort_desc(s: Seq<ScoreView>) -> Seq<ScoreView>
    decreases s.len(),
{
    if s.len() == 0 {
        seq![]
    } else {
        insert_desc(sort_desc(s.drop_last()), s.last())
    }
}

/// A detected framework with its confidence, counted in half points.
pub struct DetectionScore {
    pub framework: FrameworkType,
    pub confidence_halves: u64,
    pub reasons: Vec<String>,
}

pub open spec fn score_view(d: DetectionScore) -> ScoreView {
    ScoreView {
        framework: d.framework,
        score: d.confidence_halves as nat,
        reasons: views(d.reasons@),
    }
}

pub open spec fn score_views(v: Seq<DetectionScore>) -> Seq<ScoreView> {
    v.map_values(|d: DetectionScore| score_view(d))
}

/// Framework detection engine with precise pattern matching.
pub struct PreciseFrameworkDetector {
    patterns: Vec<(FrameworkType, FrameworkPattern)>,
}

/// A score and its reasons.
pub open spec fn tally_of(score: u64, reasons: Seq<String>) -> Tally {
    Tally { score: score as nat, reasons: views(reasons) }
}

fn add_reason(score: &mut u64, reasons: &mut Vec<String>, points: u64, reason: String)
    requires
        *old(score) + points <= u64::MAX,
    ensures
        tally_of(*final(score), final(reasons)@) == add_points(
            tally_of(*old(score), old(reasons)@),
            points as nat,
            reason@,
        ),
{
    *score = *score + points;
    let ghost before = reasons@;
    reasons.push(reason);
    proof {
        crate::text::lemma_views_push(before, reasons@.last());
        assert(reasons@ == before.push(reasons@.last()));
    }
}

/// Whether a dependency of that name is present.
fn dep_present(deps: &[Dependency], name: &str) -> (r: bool)
    ensures
        r == has_dep(deps@, name@),
{
    let mut i: usize = 0;
    while i < deps.len()
        invariant
            i <= deps@.len(),
            forall|k: int| 0 <= k < i ==> (#[trigger] deps@[k]).name@ != name@,
        decreases deps.len() - i,
    {
        if str_eq(deps[i].name.as_str(), name) {
            return true;
        }
        i += 1;
    }
    false
}

fn all_required(names: &Vec<&'static str>, deps: &[Dependency]) -> (r: bool)
    ensures
        r == all_present(static_texts(names@), deps@),
{
    let ghost nv = static_texts(names@);
    let mut k: usize = 0;
    while k < names.len()
        invariant
            k <= names@.len(),
            nv == static_texts(names@),
            forall|j: int| 0 <= j < k ==> has_dep(deps@, #[trigger] nv[j]),
        decreases names.len() - k,
    {
        if !dep_present(deps, names[k]) {
            assert(!has_dep(deps@, nv[k as int]));
            return false;
        }
        k += 1;
    }
    true
}

fn count_present_exec(names: &Vec<&'static str>, deps: &[Dependency]) -> (r: usize)
    ensures
        r == count_present(static_texts(names@), deps@),
        r <= names@.len(),
{
    let ghost nv = static_texts(names@);
    let mut n: usize = 0;
    let mut k: usize = 0;
    while k < names.len()
        invariant
            k <= names@.len(),
            n <= k,
            nv == static_texts(names@),
            n == count_present(nv.take(k as int), deps@),
        decreases names.len() - k,
    {
        proof {
            assert(nv.take(k + 1).drop_last() =~= nv.take(k as int));
            assert(nv.take(k + 1).last() == nv[k as int]);
        }
        if dep_present(deps, names[k]) {
            n += 1;
        }
        k += 1;
    }
    assert(nv.take(names@.len() as int) =~= nv);
    n
}

fn count_existing_exec(paths: &Vec<&'static str>, root: &str, facts: &FileFacts) -> (r: usize)
    ensures
        r == count_existing(static_texts(paths@), root@, *facts),
        r <= paths@.len(),
{
    let ghost pv = static_texts(paths@);
    let mut n: usize = 0;
    let mut k: usize = 0;
    while k < paths.len()
        invariant
            k <= paths@.len(),
            n <= k,
            pv == static_texts(paths@),
            n == count_existing(pv.take(k as int), root@, *facts),
        decreases paths.len() - k,
    {
        proof {
            assert(pv.take(k + 1).drop_last() =~= pv.take(k as int));
            assert(pv.take(k + 1).last() == pv[k as int]);
        }
        let full = path_join(root, paths[k]);
        if strings_contain(&facts.existing_paths, full.as_str()) {
            n += 1;
        }
        k += 1;
    }
    assert(pv.take(paths@.len() as int) =~= pv);
    n
}

fn same_components(a: &Vec<Vec<char>>, b: &Vec<Vec<char>>) -> (r: bool)
    ensures
        r == (vviews(a@) == vviews(b@)),
{
    if a.len() != b.len() {
        assert(vviews(a@).len() != vviews(b@).len());
        return false;
    }
    let mut i: usize = 0;
    while i < a.len()
        invariant
            i <= a@.len(),
            a@.len() == b@.len(),
            forall|j: int| 0 <= j < i ==> vviews(a@)[j] == vviews(b@)[j],
        decreases a.len() - i,
    {
        if !crate::text::seq_eq(a[i].as_slice(), b[i].as_slice()) {
            assert(vviews(a@)[i as int] != vviews(b@)[i as int]);
            return false;
        }
        i += 1;
    }
    assert(vviews(a@) =~= vviews(b@));
    true
}

fn first_entry_exec(entries: &Vec<&'static str>, root: &str, file: &str) -> (r: Option<
    &'static str,
>)
    ensures
        match r {
            Some(e) => first_entry(static_texts(entries@), root@, file@) == Some(e@),
            None => first_entry(static_texts(entries@), root@, file@) is None,
        },
{
    let ghost ev = static_texts(entries@);
    let fv = chars_of(file);
    let fc = components_exec(fv.as_slice());
    let mut k: usize = 0;
    assert(ev.skip(0) =~= ev);
    while k < entries.len()
        invariant
            k <= entries@.len(),
            ev == static_texts(entries@),
            vviews(fc@) == components(file@),
            first_entry(ev, root@, file@) == first_entry(ev.skip(k as int), root@, file@),
        decreases entries.len() - k,
    {
        let full = path_join(root, entries[k]);
        let pv = chars_of(full.as_str());
        let pc = components_exec(pv.as_slice());
        proof {
            assert(ev.skip(k as int)[0] == ev[k as int]);
            assert(ev.skip(k as int).drop_first() =~= ev.skip(k + 1));
        }
        if same_components(&fc, &pc) {
            return Some(entries[k]);
        }
        k += 1;
    }
    assert(ev.skip(entries@.len() as int) =~= seq![]);
    None
}

/// The one-digit decimal text of a number below ten.
fn digit_string(n: usize) -> (r: String)
    requires
        n < 10,
    ensures
        r@ == digit_text(n as nat),
{
    let c: char = match n {
        0 => '0',
        1 => '1',
        2 => '2',
        3 => '3',
        4 => '4',
        5 => '5',
        6 => '6',
        7 => '7',
        8 => '8',
        _ => '9',
    };
    let mut s = String::new();
    crate::text::push_char(&mut s, c);
    assert(s@ =~= digit_text(n as nat));
    s
}

/// `{:?}` of a list of plain strings.
fn debug_list_exec(names: &Vec<&'static str>) -> (r: String)
    ensures
        r@ == debug_list(static_texts(names@)),
{
    let ghost q = quoted(static_texts(names@));
    let mut s = owned("[");
    let ghost start = s@;
    let mut i: usize = 0;
    while i < names.len()
        invariant
            i <= names@.len(),
            q == quoted(static_texts(names@)),
            q.len() == names@.len(),
            start == "["@,
            s@ == start + join(q.take(i as int), ", "@),
        decreases names.len() - i,
    {
        let ghost before = s@;
        if i != 0 {
            s.append(", ");
        }
        s.append("\"");
        s.append(names[i]);
        s.append("\"");
        proof {
            assert(q[i as int] == "\""@ + names@[i as int]@ + "\""@);
            assert(q.take(i + 1).drop_last() =~= q.take(i as int));
            assert(q.take(i + 1).last() == q[i as int]);
            if i == 0 {
                assert(q.take(1).len() == 1);
                assert(join(q.take(1), ", "@) == q.take(1)[0]);
                assert(s@ =~= start + join(q.take(i + 1), ", "@));
            } else {
                assert(s@ =~= start + join(q.take(i + 1), ", "@));
            }
        }
        i += 1;
    }
    assert(q.take(names@.len() as int) =~= q);
    s.append("]");
    s
}

fn member_named(members: &Vec<WorkspaceMember>, name: &str) -> (r: bool)
    ensures
        r == exists|i: int| 0 <= i < members@.len() && (#[trigger] members@[i]).name@ == name@,
{
    let mut i: usize = 0;
    while i < members.len()
        invariant
            i <= members@.len(),
            forall|k: int| 0 <= k < i ==> (#[trigger] members@[k]).name@ != name@,
        decreases members.len() - i,
    {
        if str_eq(members[i].name.as_str(), name) {
            return true;
        }
        i += 1;
    }
    false
}

fn member_tally_exec(
    score: &mut u64,
    reasons: &mut Vec<String>,
    members: &Vec<WorkspaceMember>,
    word: &str,
)
    requires
        *old(score) <= 0x1_0000_0000,
        members@.len() <= u32::MAX,
    ensures
        tally_of(*final(score), final(reasons)@) == member_tally(
            tally_of(*old(score), old(reasons)@),
            members@,
            word@,
        ),
        *final(score) <= *old(score) + 10 * members@.len(),
{
    let ghost t0 = tally_of(*score, reasons@);
    let ghost s0 = *score;
    let mut i: usize = 0;
    while i < members.len()
        invariant
            i <= members@.len() <= u32::MAX,
            s0 <= 0x1_0000_0000,
            tally_of(*score, reasons@) == member_tally(t0, members@.take(i as int), word@),
            *score <= s0 + 10 * i,
        decreases members.len() - i,
    {
        proof {
            assert(members@.take(i + 1).drop_last() =~= members@.take(i as int));
            assert(members@.take(i + 1).last() == members@[i as int]);
        }
        let m = &members[i];
        let lower_name = to_lowercase(m.name.as_str());
        let dir = match path_file_name(m.path.as_str()) {
            Some(n) => n,
            None => String::new(),
        };
        let lower_dir = to_lowercase(dir.as_str());
        proof {
            if file_name(m.path@) is None {
                assert(dir@ =~= member_dir_name(m.path@));
            }
        }
        if str_contains(lower_name.as_str(), word) || str_contains(lower_dir.as_str(), word) {
            let mut reason = crate::text::fmt_text("Found ", word, " workspace member: ");
            reason.append(m.name.as_str());
            add_reason(score, reasons, 10, reason);
        }
        i += 1;
    }
    assert(members@.take(members@.len() as int) =~= members@);
}

fn first_dep_index(deps: &[Dependency], name: &str) -> (r: Option<usize>)
    ensures
        match r {
            Some(i) => i < deps@.len() && first_dep_from(deps@, name@, 0) == Some(deps@[i as int]),
            None => first_dep_from(deps@, name@, 0) is None,
        },
{
    let mut i: usize = 0;
    while i < deps.len()
        invariant
            i <= deps@.len(),
            first_dep_from(deps@, name@, 0) == first_dep_from(deps@, name@, i as int),
        decreases deps.len() - i,
    {
        if str_eq(deps[i].name.as_str(), name) {
            return Some(i);
        }
        i += 1;
    }
    None
}

fn dioxus_word_text(f: FrameworkType) -> (r: (&'static str, &'static str))
    requires
        is_dioxus(f),
    ensures
        r.0@ == dioxus_word(f),
        r.1@ == dioxus_word_capital(f),
{
    match f {
        FrameworkType::DioxusWeb => ("web", "Web"),
        FrameworkType::DioxusDesktop => ("desktop", "Desktop"),
        _ => ("mobile", "Mobile"),
    }
}

fn detect_dioxus_platform_specifics(
    score: &mut u64,
    reasons: &mut Vec<String>,
    f: FrameworkType,
    context: &ProjectContext,
    facts: &FileFacts,
    manifests: &ManifestFacts,
)
    requires
        is_dioxus(f),
        *old(score) <= 0x1_0000_0000,
        context.workspace_members@.len() <= u32::MAX,
    ensures
        tally_of(*final(score), final(reasons)@) == dioxus_tally(
            tally_of(*old(score), old(reasons)@),
            f,
            *context,
            *facts,
            *manifests,
        ),
{
    let (w, cap) = dioxus_word_text(f);
    let root = context.workspace_root.as_str();
    let ghost t0 = tally_of(*score, reasons@);
    member_tally_exec(score, reasons, &context.workspace_members, w);
    let ghost t1 = tally_of(*score, reasons@);
    let config_path = path_join(root, "Dioxus.toml");
    let has_config = strings_contain(&facts.existing_paths, config_path.as_str());
    if has_config {
        add_reason(score, reasons, 4, owned("Has Dioxus.toml configuration file"));
    }
    let ghost t2 = tally_of(*score, reasons@);
    let platform_matches = match &manifests.dioxus_default_platform {
        Some(p) => str_eq(p.as_str(), w),
        None => false,
    };
    if has_config && platform_matches {
        add_reason(score, reasons, 6, crate::text::fmt_text("Dioxus.toml specifies ", w, " platform"));
    }
    let ghost t3 = tally_of(*score, reasons@);
    assert(t3 == (if has_config && (manifests.dioxus_default_platform matches Some(p) && p@ == w@) {
        add_points(t2, 6, "Dioxus.toml specifies "@ + w@ + " platform"@)
    } else {
        t2
    }));
    match first_dep_index(&context.dependencies, "dioxus") {
        Some(i) => {
            let d = &context.dependencies[i];
            if strings_contain(&d.features, w) {
                add_reason(score, reasons, 6, crate::text::fmt_text("Dioxus dependency has '", w, "' feature"));
            }
            if strings_contain(&d.features, "fullstack") {
                add_reason(score, reasons, 2, owned("Dioxus dependency has 'fullstack' feature"));
            }
        },
        None => {},
    }
    let ghost t4 = tally_of(*score, reasons@);
    let cargo_path = path_join(root, "Cargo.toml");
    if strings_contain(&facts.existing_paths, cargo_path.as_str()) {
        if let Some(fs) = &manifests.default_features {
            if strings_contain(fs, w) {
                let reason = crate::text::fmt_text(cap, " is in default features", "");
                proof {
                    reveal_strlit("");
                    assert(reason@ =~= cap@ + " is in default features"@);
                }
                add_reason(score, reasons, 8, reason);
            }
            if f == FrameworkType::DioxusDesktop && fs.len() == 0 {
                *score = *score + 2;
            }
        }
    }
}

fn pattern_tally_exec(
    f: FrameworkType,
    pattern: &FrameworkPattern,
    context: &ProjectContext,
    file_path: Option<&str>,
    facts: &FileFacts,
    manifests: &ManifestFacts,
) -> (r: (u64, Vec<String>))
    requires
        pattern_bounded(*pattern),
        context.workspace_members@.len() <= u32::MAX,
    ensures
        tally_of(r.0, r.1@) == pattern_tally(
            f,
            pattern_view(*pattern),
            *context,
            opt_str(file_path),
            *facts,
            *manifests,
        ),
{
    let ghost pv = pattern_view(*pattern);
    let deps = context.dependencies.as_slice();
    let root = context.workspace_root.as_str();
    let mut score: u64 = pattern.specificity;
    let mut reasons: Vec<String> = Vec::new();
    let listed = debug_list_exec(&pattern.required_deps);
    let first = crate::text::fmt_text("Has all required dependencies: ", listed.as_str(), "");
    reasons.push(first);
    proof {
        reveal_strlit("");
        assert(views(reasons@) =~= seq!["Has all required dependencies: "@ + debug_list(pv.required)]);
    }
    let o = count_present_exec(&pattern.optional_deps, deps);
    if o > 0 {
        let d = digit_string(o);
        add_reason(&mut score, &mut reasons, o as u64, crate::text::fmt_text("Has ", d.as_str(), " optional dependencies"));
    }
    let fm = count_existing_exec(&pattern.file_patterns, root, facts);
    if fm > 0 {
        let d = digit_string(fm);
        add_reason(&mut score, &mut reasons, 2 * fm as u64, crate::text::fmt_text("Matches ", d.as_str(), " file structure patterns"));
    }
    let c = count_existing_exec(&pattern.config_files, root, facts);
    if c > 0 {
        let d = digit_string(c);
        add_reason(&mut score, &mut reasons, 4 * c as u64, crate::text::fmt_text("Has ", d.as_str(), " config files"));
    }
    if let Some(fp) = file_path {
        if let Some(e) = first_entry_exec(&pattern.entry_points, root, fp) {
            let reason = crate::text::fmt_text("Current file is entry point: ", e, "");
            proof {
                assert(reason@ =~= "Current file is entry point: "@ + e@);
            }
            add_reason(&mut score, &mut reasons, 6, reason);
        }
    }
    if f == FrameworkType::LeptosSSR {
        let members = &context.workspace_members;
        if member_named(members, "app") || member_named(members, "frontend") {
            add_reason(&mut score, &mut reasons, 4, owned("Has Leptos workspace structure (app/frontend crates)"));
        }
        if member_named(members, "server") {
            add_reason(&mut score, &mut reasons, 4, owned("Has server crate typical of Leptos SSR"));
        }
    }
    if f == FrameworkType::DioxusWeb || f == FrameworkType::DioxusDesktop || f == FrameworkType::DioxusMobile {
        detect_dioxus_platform_specifics(&mut score, &mut reasons, f, context, facts, manifests);
    }
    (score, reasons)
}

spec fn pattern_bounded(p: FrameworkPattern) -> bool {
    &&& p.specificity <= 100
    &&& p.optional_deps@.len() <= 9
    &&& p.file_patterns@.len() <= 9
    &&& p.config_files@.len() <= 9
}

impl PreciseFrameworkDetector {
    #[verifier::type_invariant]
    spec fn patterns_bounded(self) -> bool {
        forall|i: int| 0 <= i < self.patterns@.len() ==> pattern_bounded(#[trigger] self.patterns@[i].1)
    }

    /// The patterns, in the order they are tried.
    pub closed spec fn spec_patterns(&self) -> Seq<(FrameworkType, PatternView)> {
        self.patterns@.map_values(|p: (FrameworkType, FrameworkPattern)| (p.0, pattern_view(p.1)))
    }

    /// A detector with the built-in patterns.
    pub fn new() -> (r: Self)
        ensures
            r.spec_patterns() == pattern_table(),
    {
        let ghost table = pattern_table();
        let mut patterns: Vec<(FrameworkType, FrameworkPattern)> = Vec::new();
        let p0 = FrameworkPattern {
            required_deps: vec!["leptos", "leptos_axum"],
            optional_deps: vec!["leptos_meta", "leptos_router", "axum", "tokio", "tower", "tower-http"],
            file_patterns: vec!["app/src/lib.rs", "frontend/src/lib.rs", "server/src/main.rs", "style/main.scss", "Cargo.toml"],
            config_files: vec!["Cargo.toml", "Trunk.toml", "style.css"],
            entry_points: vec!["server/src/main.rs", "src/main.rs"],
            specificity: 20,
        };
        proof {
            assert(static_texts(p0.required_deps@) =~= seq!["leptos"@, "leptos_axum"@]);
            assert(static_texts(p0.optional_deps@) =~= seq!["leptos_meta"@, "leptos_router"@, "axum"@, "tokio"@, "tower"@, "tower-http"@]);
            assert(static_texts(p0.file_patterns@) =~= seq!["app/src/lib.rs"@, "frontend/src/lib.rs"@, "server/src/main.rs"@, "style/main.scss"@, "Cargo.toml"@]);
            assert(static_texts(p0.config_files@) =~= seq!["Cargo.toml"@, "Trunk.toml"@, "style.css"@]);
            assert(static_texts(p0.entry_points@) =~= seq!["server/src/main.rs"@, "src/main.rs"@]);
            assert(pattern_view(p0) == table[0].1);
        }
        patterns.push((FrameworkType::LeptosSSR, p0));
        let p1 = FrameworkPattern {
            required_deps: vec!["leptos"],
            optional_deps: vec!["leptos_meta", "leptos_router", "wasm-bindgen", "web-sys"],
            file_patterns: vec!["src/main.rs", "src/app.rs", "index.html", "Trunk.toml"],
            config_files: vec!["Trunk.toml", "index.html"],
            entry_points: vec!["src/main.rs"],
            specificity: 16,
        };
        proof {
            assert(static_texts(p1.required_deps@) =~= seq!["leptos"@]);
            assert(static_texts(p1.optional_deps@) =~= seq!["leptos_meta"@, "leptos_router"@, "wasm-bindgen"@, "web-sys"@]);
            assert(static_texts(p1.file_patterns@) =~= seq!["src/main.rs"@, "src/app.rs"@, "index.html"@, "Trunk.toml"@]);
            assert(static_texts(p1.config_files@) =~= seq!["Trunk.toml"@, "index.html"@]);
            assert(static_texts(p1.entry_points@) =~= seq!["src/main.rs"@]);
            assert(pattern_view(p1) == table[1].1);
        }
        patterns.push((FrameworkType::LeptosCSR, p1));
        let p2 = FrameworkPattern {
            required_deps: vec!["dioxus"],
            optional_deps: vec!["dioxus-web", "dioxus-router", "dioxus-hooks", "wasm-bindgen"],
            file_patterns: vec!["src/main.rs", "index.html", "Dioxus.toml"],
            config_files: vec!["Dioxus.toml"],
            entry_points: vec!["src/main.rs"],
            specificity: 16,
        };
        proof {
            assert(static_texts(p2.required_deps@) =~= seq!["dioxus"@]);
            assert(static_texts(p2.optional_deps@) =~= seq!["dioxus-web"@, "dioxus-router"@, "dioxus-hooks"@, "wasm-bindgen"@]);
            assert(static_texts(p2.file_patterns@) =~= seq!["src/main.rs"@, "index.html"@, "Dioxus.toml"@]);
            assert(static_texts(p2.config_files@) =~= seq!["Dioxus.toml"@]);
            assert(static_texts(p2.entry_points@) =~= seq!["src/main.rs"@]);
            assert(pattern_view(p2) == table[2].1);
        }
        patterns.push((FrameworkType::DioxusWeb, p2));
        let p3 = FrameworkPattern {
            required_deps: vec!["dioxus"],
            optional_deps: vec!["dioxus-desktop", "dioxus-router", "dioxus-hooks"],
            file_patterns: vec!["src/main.rs", "Dioxus.toml"],
            config_files: vec!["Dioxus.toml"],
            entry_points: vec!["src/main.rs"],
            specificity: 16,
        };
        proof {
            assert(static_texts(p3.required_deps@) =~= seq!["dioxus"@]);
            assert(static_texts(p3.optional_deps@) =~= seq!["dioxus-desktop"@, "dioxus-router"@, "dioxus-hooks"@]);
            assert(static_texts(p3.file_patterns@) =~= seq!["src/main.rs"@, "Dioxus.toml"@]);
            assert(static_texts(p3.config_files@) =~= seq!["Dioxus.toml"@]);
            assert(static_texts(p3.entry_points@) =~= seq!["src/main.rs"@]);
            assert(pattern_view(p3) == table[3].1);
        }
        patterns.push((FrameworkType::DioxusDesktop, p3));
        let p4 = FrameworkPattern {
            required_deps: vec!["dioxus"],
            optional_deps: vec!["dioxus-mobile", "dioxus-router", "dioxus-hooks"],
            file_patterns: vec!["src/main.rs", "Dioxus.toml"],
            config_files: vec!["Dioxus.toml"],
            entry_points: vec!["src/main.rs"],
            specificity: 16,
        };
        proof {
            assert(static_texts(p4.required_deps@) =~= seq!["dioxus"@]);
            assert(static_texts(p4.optional_deps@) =~= seq!["dioxus-mobile"@, "dioxus-router"@, "dioxus-hooks"@]);
            assert(static_texts(p4.file_patterns@) =~= seq!["src/main.rs"@, "Dioxus.toml"@]);
            assert(static_texts(p4.config_files@) =~= seq!["Dioxus.toml"@]);
            assert(static_texts(p4.entry_points@) =~= seq!["src/main.rs"@]);
            assert(pattern_view(p4) == table[4].1);
        }
        patterns.push((FrameworkType::DioxusMobile, p4));
        let p5 = FrameworkPattern {
            required_deps: vec!["bevy"],
            optional_deps: vec!["bevy_egui", "bevy_rapier3d", "bevy_rapier2d"],
            file_patterns: vec!["src/main.rs", "assets/"],
            config_files: Vec::new(),
            entry_points: vec!["src/main.rs"],
            specificity: 14,
        };
        proof {
            assert(static_texts(p5.required_deps@) =~= seq!["bevy"@]);
            assert(static_texts(p5.optional_deps@) =~= seq!["bevy_egui"@, "bevy_rapier3d"@, "bevy_rapier2d"@]);
            assert(static_texts(p5.file_patterns@) =~= seq!["src/main.rs"@, "assets/"@]);
            assert(static_texts(p5.config_files@) =~= seq![]);
            assert(static_texts(p5.entry_points@) =~= seq!["src/main.rs"@]);
            assert(pattern_view(p5) == table[5].1);
        }
        patterns.push((FrameworkType::BevyGame, p5));
        let p6 = FrameworkPattern {
            required_deps: vec!["tauri"],
            optional_deps: vec!["serde", "serde_json", "tokio", "tauri-build"],
            file_patterns: vec!["src-tauri/src/main.rs", "src-tauri/tauri.conf.json", "src/main.rs", "tauri.conf.json", "src/main.js", "index.html"],
            config_files: vec!["src-tauri/tauri.conf.json", "tauri.conf.json"],
            entry_points: vec!["src-tauri/src/main.rs", "src/main.rs"],
            specificity: 19,
        };
        proof {
            assert(static_texts(p6.required_deps@) =~= seq!["tauri"@]);
            assert(static_texts(p6.optional_deps@) =~= seq!["serde"@, "serde_json"@, "tokio"@, "tauri-build"@]);
            assert(static_texts(p6.file_patterns@) =~= seq!["src-tauri/src/main.rs"@, "src-tauri/tauri.conf.json"@, "src/main.rs"@, "tauri.conf.json"@, "src/main.js"@, "index.html"@]);
            assert(static_texts(p6.config_files@) =~= seq!["src-tauri/tauri.conf.json"@, "tauri.conf.json"@]);
            assert(static_texts(p6.entry_points@) =~= seq!["src-tauri/src/main.rs"@, "src/main.rs"@]);
            assert(pattern_view(p6) == table[6].1);
        }
        patterns.push((FrameworkType::TauriDesktop, p6));
        let p7 = FrameworkPattern {
            required_deps: vec!["actix-web"],
            optional_deps: vec!["actix-rt", "actix-cors", "actix-session"],
            file_patterns: vec!["src/main.rs"],
            config_files: Vec::new(),
            entry_points: vec!["src/main.rs"],
            specificity: 10,
        };
        proof {
            assert(static_texts(p7.required_deps@) =~= seq!["actix-web"@]);
            assert(static_texts(p7.optional_deps@) =~= seq!["actix-rt"@, "actix-cors"@, "actix-session"@]);
            assert(static_texts(p7.file_patterns@) =~= seq!["src/main.rs"@]);
            assert(static_texts(p7.config_files@) =~= seq![]);
            assert(static_texts(p7.entry_points@) =~= seq!["src/main.rs"@]);
            assert(pattern_view(p7) == table[7].1);
        }
        patterns.push((FrameworkType::ActixWeb, p7));
        let p8 = FrameworkPattern {
            required_deps: vec!["axum"],
            optional_deps: vec!["tower", "tower-http", "tokio"],
            file_patterns: vec!["src/main.rs"],
            config_files: Vec::new(),
            entry_points: vec!["src/main.rs"],
            specificity: 8,
        };
        proof {
            assert(static_texts(p8.required_deps@) =~= seq!["axum"@]);
            assert(static_texts(p8.optional_deps@) =~= seq!["tower"@, "tower-http"@, "tokio"@]);
            assert(static_texts(p8.file_patterns@) =~= seq!["src/main.rs"@]);
            assert(static_texts(p8.config_files@) =~= seq![]);
            assert(static_texts(p8.entry_points@) =~= seq!["src/main.rs"@]);
            assert(pattern_view(p8) == table[8].1);
        }
        patterns.push((FrameworkType::Axum, p8));
        let p9 = FrameworkPattern {
            required_deps: vec!["rocket"],
            optional_deps: vec!["rocket_contrib", "serde", "serde_json"],
            file_patterns: vec!["src/main.rs", "Rocket.toml"],
            config_files: vec!["Rocket.toml"],
            entry_points: vec!["src/main.rs"],
            specificity: 12,
        };
        proof {
            assert(static_texts(p9.required_deps@) =~= seq!["rocket"@]);
            assert(static_texts(p9.optional_deps@) =~= seq!["rocket_contrib"@, "serde"@, "serde_json"@]);
            assert(static_texts(p9.file_patterns@) =~= seq!["src/main.rs"@, "Rocket.toml"@]);
            assert(static_texts(p9.config_files@) =~= seq!["Rocket.toml"@]);
            assert(static_texts(p9.entry_points@) =~= seq!["src/main.rs"@]);
            assert(pattern_view(p9) == table[9].1);
        }
        patterns.push((FrameworkType::Rocket, p9));
        let p10 = FrameworkPattern {
            required_deps: vec!["yew"],
            optional_deps: vec!["yew-router", "wasm-bindgen", "web-sys", "js-sys"],
            file_patterns: vec!["src/main.rs", "index.html", "Trunk.toml", "index.scss", "style.css"],
            config_files: vec!["Trunk.toml", "index.html"],
            entry_points: vec!["src/main.rs"],
            specificity: 18,
        };
        proof {
            assert(static_texts(p10.required_deps@) =~= seq!["yew"@]);
            assert(static_texts(p10.optional_deps@) =~= seq!["yew-router"@, "wasm-bindgen"@, "web-sys"@, "js-sys"@]);
            assert(static_texts(p10.file_patterns@) =~= seq!["src/main.rs"@, "index.html"@, "Trunk.toml"@, "index.scss"@, "style.css"@]);
            assert(static_texts(p10.config_files@) =~= seq!["Trunk.toml"@, "index.html"@]);
            assert(static_texts(p10.entry_points@) =~= seq!["src/main.rs"@]);
            assert(pattern_view(p10) == table[10].1);
        }
        patterns.push((FrameworkType::YewWeb, p10));
        let p11 = FrameworkPattern {
            required_deps: vec!["egui", "eframe"],
            optional_deps: vec!["egui_extras"],
            file_patterns: vec!["src/main.rs"],
            config_files: Vec::new(),
            entry_points: vec!["src/main.rs"],
            specificity: 12,
        };
        proof {
            assert(static_texts(p11.required_deps@) =~= seq!["egui"@, "eframe"@]);
            assert(static_texts(p11.optional_deps@) =~= seq!["egui_extras"@]);
            assert(static_texts(p11.file_patterns@) =~= seq!["src/main.rs"@]);
            assert(static_texts(p11.config_files@) =~= seq![]);
            assert(static_texts(p11.entry_points@) =~= seq!["src/main.rs"@]);
            assert(pattern_view(p11) == table[11].1);
        }
        patterns.push((FrameworkType::EguiDesktop, p11));
        let p12 = FrameworkPattern {
            required_deps: vec!["wasm-bindgen"],
            optional_deps: vec!["web-sys", "js-sys", "wasm-bindgen-futures"],
            file_patterns: vec!["src/lib.rs", "Cargo.toml", "pkg/"],
            config_files: Vec::new(),
            entry_points: vec!["src/lib.rs"],
            specificity: 10,
        };
        proof {
            assert(static_texts(p12.required_deps@) =~= seq!["wasm-bindgen"@]);
            assert(static_texts(p12.optional_deps@) =~= seq!["web-sys"@, "js-sys"@, "wasm-bindgen-futures"@]);
            assert(static_texts(p12.file_patterns@) =~= seq!["src/lib.rs"@, "Cargo.toml"@, "pkg/"@]);
            assert(static_texts(p12.config_files@) =~= seq![]);
            assert(static_texts(p12.entry_points@) =~= seq!["src/lib.rs"@]);
            assert(pattern_view(p12) == table[12].1);
        }
        patterns.push((FrameworkType::WasmPack, p12));
        let r = PreciseFrameworkDetector { patterns };
        assert(r.spec_patterns() =~= pattern_table());
        r
    }
}


proof fn lemma_insert_desc_at(s: Seq<ScoreView>, x: ScoreView, i: int)
    requires
        0 <= i <= s.len(),
        forall|j: int| i <= j < s.len() ==> (#[trigger] s[j]).score < x.score,
        i == 0 || s[i - 1].score >= x.score,
    ensures
        insert_desc(s, x) == s.take(i).push(x) + s.skip(i),
    decreases s.len(),
{
    if s.len() == i {
        if s.len() == 0 {
            assert(s.take(0).push(x) + s.skip(0) =~= seq![x]);
        } else {
            assert(s.last() == s[i - 1]);
            assert(s.take(i).push(x) + s.skip(i) =~= s.push(x));
        }
    } else {
        assert(s.last() == s[s.len() - 1]);
        let d = s.drop_last();
        assert forall|j: int| i <= j < d.len() implies (#[trigger] d[j]).score < x.score by {
            assert(d[j] == s[j]);
        }
        if i > 0 {
            assert(d[i - 1] == s[i - 1]);
        }
        lemma_insert_desc_at(d, x, i);
        assert((d.take(i).push(x) + d.skip(i)).push(s.last()) =~= s.take(i).push(x) + s.skip(i));
    }
}

/// Inserts a score after every score at least as high, in a list sorted
/// highest first.
fn insert_score(out: &mut Vec<DetectionScore>, x: DetectionScore)
    ensures
        score_views(final(out)@) == insert_desc(score_views(old(out)@), score_view(x)),
{
    let ghost sv = score_views(out@);
    let ghost xv = score_view(x);
    let mut i: usize = out.len();
    while i > 0 && out[i - 1].confidence_halves < x.confidence_halves
        invariant
            i <= out@.len(),
            sv == score_views(out@),
            xv == score_view(x),
            forall|j: int| i <= j < out@.len() ==> (#[trigger] sv[j]).score < xv.score,
        decreases i,
    {
        i -= 1;
    }
    proof {
        if i > 0 {
            assert(sv[i - 1] == score_view(out@[i - 1]));
        }
        lemma_insert_desc_at(sv, xv, i as int);
    }
    let ghost before = out@;
    out.insert(i, x);
    assert(score_views(out@) =~= sv.take(i as int).push(xv) + sv.skip(i as int)) by {
        assert(out@ == before.insert(i as int, x));
    }
}

/// The best framework: the first of the sorted scores, when its score
/// reaches the minimum.
pub open spec fn best_of(sorted: Seq<ScoreView>, min: nat) -> Option<FrameworkType> {
    if sorted.len() > 0 && sorted[0].score >= min {
        Some(sorted[0].framework)
    } else {
        None
    }
}

impl PreciseFrameworkDetector {
    /// The frameworks whose required dependencies are present, with their
    /// scores (in half points) and reasons, highest score first; equal
    /// scores keep the pattern order.
    pub fn detect(
        &self,
        context: &ProjectContext,
        file_path: Option<&str>,
        facts: &FileFacts,
        manifests: &ManifestFacts,
    ) -> (r: Vec<DetectionScore>)
        requires
            context.workspace_members@.len() <= u32::MAX,
        ensures
            score_views(r@) == sort_desc(
                all_scores(self.spec_patterns(), *context, opt_str(file_path), *facts, *manifests),
            ),
    {
        proof {
            use_type_invariant(self);
        }
        let ghost pats = self.spec_patterns();
        let ghost file = opt_str(file_path);
        let mut scores: Vec<DetectionScore> = Vec::new();
        let mut i: usize = 0;
        while i < self.patterns.len()
            invariant
                i <= self.patterns@.len(),
                pats == self.spec_patterns(),
                pats.len() == self.patterns@.len(),
                file == opt_str(file_path),
                context.workspace_members@.len() <= u32::MAX,
                forall|k: int| 0 <= k < self.patterns@.len() ==> pattern_bounded(#[trigger] self.patterns@[k].1),
                score_views(scores@) == sort_desc(
                    all_scores(pats.take(i as int), *context, file, *facts, *manifests),
                ),
            decreases self.patterns.len() - i,
        {
            proof {
                assert(pats.take(i + 1).drop_last() =~= pats.take(i as int));
                assert(pats.take(i + 1).last() == pats[i as int]);
                assert(pats[i as int] == (self.patterns@[i as int].0, pattern_view(self.patterns@[i as int].1)));
            }
            let entry = &self.patterns[i];
            let f = entry.0;
            let pattern = &entry.1;
            let ghost prev = all_scores(pats.take(i as int), *context, file, *facts, *manifests);
            let ghost next = all_scores(pats.take(i + 1), *context, file, *facts, *manifests);
            if all_required(&pattern.required_deps, context.dependencies.as_slice()) {
                let (score, reasons) = pattern_tally_exec(f, pattern, context, file_path, facts, manifests);
                let d = DetectionScore { framework: f, confidence_halves: score, reasons };
                proof {
                    let t = pattern_tally(f, pattern_view(*pattern), *context, file, *facts, *manifests);
                    assert(next == prev.push(ScoreView { framework: f, score: t.score, reasons: t.reasons }));
                    assert(score_view(d) == ScoreView { framework: f, score: t.score, reasons: t.reasons });
                    assert(next.drop_last() =~= prev);
                    assert(sort_desc(next) == insert_desc(sort_desc(prev), score_view(d)));
                }
                insert_score(&mut scores, d);
            } else {
                assert(next == prev);
            }
            i += 1;
        }
        assert(pats.take(pats.len() as int) =~= pats);
        scores
    }

    /// The best match, when its score (in half points) reaches the minimum.
    pub fn best_match(
        &self,
        context: &ProjectContext,
        file_path: Option<&str>,
        facts: &FileFacts,
        manifests: &ManifestFacts,
        min_confidence_halves: u64,
    ) -> (r: Option<FrameworkType>)
        requires
            context.workspace_members@.len() <= u32::MAX,
        ensures
            r == best_of(
                sort_desc(all_scores(self.spec_patterns(), *context, opt_str(file_path), *facts, *manifests)),
                min_confidence_halves as nat,
            ),
    {
        let scores = self.detect(context, file_path, facts, manifests);
        if scores.len() > 0 && scores[0].confidence_halves >= min_confidence_halves {
            assert(score_views(scores@)[0] == score_view(scores@[0]));
            Some(scores[0].framework)
        } else {
            proof {
                if scores@.len() > 0 {
                    assert(score_views(scores@)[0] == score_view(scores@[0]));
                }
            }
            None
        }
    }
}


/// Scores highest first.
pub open spec fn sorted_desc(s: Seq<ScoreView>) -> bool {
    forall|i: int, j: int| 0 <= i < j < s.len() ==> (#[trigger] s[i]).score >= (#[trigger] s[j]).score
}

proof fn lemma_insert_desc_props(s: Seq<ScoreView>, x: ScoreView)
    requires
        sorted_desc(s),
    ensures
        sorted_desc(insert_desc(s, x)),
        insert_desc(s, x).to_multiset() == s.to_multiset().insert(x),
        insert_desc(s, x).len() == s.len() + 1,
        forall|k: int|
            0 <= k < insert_desc(s, x).len() ==> #[trigger] insert_desc(s, x)[k] == x || s.contains(
                insert_desc(s, x)[k],
            ),
    decreases s.len(),
{
    broadcast use vstd::seq_lib::to_multiset_build;

    if s.len() == 0 {
        assert(insert_desc(s, x) =~= seq![x]);
        assert(seq![x] =~= s.push(x));
    } else if s.last().score >= x.score {
        let r = s.push(x);
        assert forall|i: int, j: int| 0 <= i < j < r.len() implies (#[trigger] r[i]).score >= (
        #[trigger] r[j]).score by {
            if j == r.len() - 1 {
                assert(r[i] == s[i]);
                if i < s.len() - 1 {
                    assert(s[i].score >= s[s.len() - 1].score);
                }
            } else {
                assert(r[i] == s[i] && r[j] == s[j]);
            }
        }
        assert forall|k: int| 0 <= k < r.len() implies #[trigger] r[k] == x || s.contains(r[k]) by {
            if k < s.len() {
                assert(r[k] == s[k]);
            }
        }
    } else {
        let d = s.drop_last();
        let y = s.last();
        assert(sorted_desc(d)) by {
            assert forall|i: int, j: int| 0 <= i < j < d.len() implies (#[trigger] d[i]).score >= (
            #[trigger] d[j]).score by {
                assert(d[i] == s[i] && d[j] == s[j]);
            }
        }
        lemma_insert_desc_props(d, x);
        let r1 = insert_desc(d, x);
        let r = r1.push(y);
        assert forall|k: int| 0 <= k < r1.len() implies (#[trigger] r1[k]).score >= y.score by {
            if r1[k] != x {
                assert(d.contains(r1[k]));
                let m = choose|m: int| 0 <= m < d.len() && d[m] == r1[k];
                assert(s[m] == d[m]);
                assert(s[m].score >= s[s.len() - 1].score);
            }
        }
        assert forall|i: int, j: int| 0 <= i < j < r.len() implies (#[trigger] r[i]).score >= (
        #[trigger] r[j]).score by {
            if j == r.len() - 1 {
                assert(r[i] == r1[i]);
            } else {
                assert(r[i] == r1[i] && r[j] == r1[j]);
            }
        }
        assert forall|k: int| 0 <= k < r.len() implies #[trigger] r[k] == x || s.contains(r[k]) by {
            if k < r1.len() {
                assert(r[k] == r1[k]);
                if r1[k] != x {
                    let m = choose|m: int| 0 <= m < d.len() && d[m] == r1[k];
                    assert(s[m] == d[m]);
                }
            } else {
                assert(s[s.len() - 1] == y);
            }
        }
        assert(d.push(y) =~= s);
    }
}

/// The detector's order: scores highest first, the same scores as before
/// sorting.
pub proof fn lemma_sort_desc_sorted(s: Seq<ScoreView>)
    ensures
        sorted_desc(sort_desc(s)),
        sort_desc(s).to_multiset() == s.to_multiset(),
        sort_desc(s).len() == s.len(),
    decreases s.len(),
{
    broadcast use vstd::seq_lib::to_multiset_build;

    if s.len() > 0 {
        lemma_sort_desc_sorted(s.drop_last());
        lemma_insert_desc_props(sort_desc(s.drop_last()), s.last());
        assert(s.drop_last().push(s.last()) =~= s);
        assert(s.to_multiset() == s.drop_last().to_multiset().insert(s.last()));
    } else {
        assert(s =~= seq![]);
        assert(sort_desc(s) =~= s);
    }
}

} // verus!
