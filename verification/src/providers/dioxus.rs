//! Commands for Dioxus projects: serving for the project's platform,
//! platform builds, tests, commands for the component under the cursor,
//! and bundling.

use vstd::prelude::*;
use crate::commands::{
    Command, CommandBuilder, CommandCategory, CommandSummary, CategoryView, summary, summaries,
    push_command, append_commands, strings_contain,
};
use crate::context::{ProjectContext, ProjectType, Symbol, SymbolKind, opt_view};
use crate::error::RazResult;
use crate::manifest::{parse_toml_text, toml_as_str, toml_at, toml_document, toml_get, toml_text};
use crate::providers::{
    CommandProvider, all_tagged, types_contain, project_types_contain, dependency_named_in, any_dependency_named,
    dependency_name_has, any_dependency_name_has, some_dependency_with, any_dependency_with, texts,
};
use crate::text::{
    fmt_text, has_prefix, has_sub, lowercase, owned, starts_uppercase, str_contains,
    str_starts_uppercase, str_starts_with, to_lowercase, views,
};

verus! {

/// The default platform of a `Dioxus.toml` text: its `application`
/// table's `default_platform`, `desktop` where that is not a string; none
/// when the text is no TOML document or has no such entry.
pub open spec fn configured_platform(content: Seq<char>) -> Option<Seq<char>> {
    match toml_document(content) {
        Err(_) => None,
        Ok(doc) => match toml_at(doc, "application"@) {
            None => None,
            Some(app) => match toml_at(app, "default_platform"@) {
                None => None,
                Some(p) => match toml_text(p) {
                    Some(s) => Some(s),
                    None => Some("desktop"@),
                },
            },
        },
    }
}

/// The default platform that a `Dioxus.toml` file gives in its
/// `application` table (`desktop` where the entry is not a string); none
/// when the text is no TOML document or has no such entry.
pub fn config_default_platform(content: &str) -> (r: Option<String>)
    ensures
        opt_view(r) == configured_platform(content@),
{
    let config = match parse_toml_text(content) {
        Ok(v) => v,
        Err(_) => {
            return None;
        },
    };
    let application = match toml_get(&config, "application") {
        Some(v) => v,
        None => {
            return None;
        },
    };
    match toml_get(application, "default_platform") {
        Some(p) => match toml_as_str(p) {
            Some(s) => Some(s),
            None => Some(owned("desktop")),
        },
        None => None,
    }
}

/// Whether the project is a Dioxus project: by its type, or by a
/// dependency on `dioxus` or one of its platform crates.
pub open spec fn dioxus_handles(context: ProjectContext) -> bool {
    match context.project_type {
        ProjectType::Dioxus => true,
        ProjectType::Mixed(v) => types_contain(v@, ProjectType::Dioxus),
        _ => dependency_named_in(
            context,
            seq!["dioxus"@, "dioxus-web"@, "dioxus-desktop"@, "dioxus-mobile"@],
            None,
        ),
    }
}

/// The platform the dependencies point to: fullstack, web, desktop or
/// mobile, in that order of preference, desktop when none does.
pub open spec fn dependency_platform(context: ProjectContext) -> Seq<char> {
    if some_dependency_with(context, seq![], seq!["fullstack"@, "server"@], true) {
        "fullstack"@
    } else if some_dependency_with(context, seq!["dioxus-web"@], seq!["web"@], true) {
        "web"@
    } else if some_dependency_with(context, seq!["dioxus-desktop"@], seq!["desktop"@], true) {
        "desktop"@
    } else if some_dependency_with(context, seq!["dioxus-mobile"@], seq!["mobile"@], true) {
        "mobile"@
    } else {
        "desktop"@
    }
}

/// The platform to serve for: the override when given, else the one the
/// configuration names, else the one the dependencies point to.
pub open spec fn platform_choice(
    over: Option<Seq<char>>,
    configured: Option<Seq<char>>,
    context: ProjectContext,
) -> Seq<char> {
    match over {
        Some(p) => p,
        None => match configured {
            Some(p) => p,
            None => dependency_platform(context),
        },
    }
}

pub open spec fn dioxus_development_commands(platform: Seq<char>) -> Seq<CommandSummary> {
    seq![
        dx_serve_cmd(platform),
        dx_serve_open_cmd(platform),
        dx_serve_release_cmd(platform),
        dx_run_cmd(platform),
    ]
}

/// The platform builds: iOS and Android builds when a dependency's name
/// mentions `mobile`.
pub open spec fn dioxus_platform_commands(context: ProjectContext) -> Seq<CommandSummary> {
    seq![
        dx_build_web_cmd(),
        dx_build_desktop_cmd(),
        dx_build_release_cmd(),
        dx_build_fullstack_cmd(),
        dx_build_ssg_cmd(),
    ] + (if dependency_name_has(context, "mobile"@) {
        seq![dx_build_ios_cmd(), dx_build_android_cmd()]
    } else {
        seq![]
    })
}

pub open spec fn dioxus_test_commands() -> Seq<CommandSummary> {
    seq![dx_cargo_test_cmd(), dx_test_workspace_cmd(), dx_check_cmd(), dx_fmt_cmd()]
}

/// The commands for the symbol under the cursor: a preview for functions
/// named in PascalCase, a test run for test functions, a check for state
/// structs.
pub open spec fn dioxus_symbol_commands(s: Symbol) -> Seq<CommandSummary> {
    let name = s.name@;
    match s.kind {
        SymbolKind::Function => (if starts_uppercase(name) {
            seq![dx_component_preview_cmd(name)]
        } else {
            seq![]
        }) + (if has_prefix(name, "test_"@) || views(s.modifiers@).contains("test"@) {
            seq![dx_test_current_cmd(name)]
        } else {
            seq![]
        }),
        SymbolKind::Struct => if has_sub(lowercase(name), "state"@) {
            seq![dx_check_state_cmd(name)]
        } else {
            seq![]
        },
        _ => seq![],
    }
}

/// The commands for the current file: those of the symbol under the
/// cursor, then a build for component files.
pub open spec fn dioxus_context_commands(context: ProjectContext) -> Seq<CommandSummary> {
    match context.current_file {
        None => seq![],
        Some(fc) => (match fc.cursor_symbol {
            Some(s) => dioxus_symbol_commands(s),
            None => seq![],
        }) + (if has_sub(fc.path@, "component"@) {
            seq![dx_build_components_cmd()]
        } else {
            seq![]
        }),
    }
}

pub open spec fn dioxus_deployment_commands() -> Seq<CommandSummary> {
    seq![dx_bundle_cmd(), dx_bundle_release_cmd(), dx_clean_cmd(), dx_new_cmd()]
}

/// The commands of the Dioxus provider for a platform, in order.
pub open spec fn dioxus_provider_commands(context: ProjectContext, platform: Seq<char>) -> Seq<
    CommandSummary,
> {
    dioxus_development_commands(platform) + dioxus_platform_commands(context)
        + dioxus_test_commands() + dioxus_context_commands(context) + dioxus_deployment_commands()
}

/// Provider for Dioxus cross-platform framework commands. It holds the
/// platform override and the configured default platform it was made with.
pub struct DioxusProvider {
    priority: u8,
    platform_override: Option<String>,
    config_platform: Option<String>,
}

impl DioxusProvider {
    pub closed spec fn spec_dioxus_priority(&self) -> u8 {
        self.priority
    }

    pub closed spec fn spec_override(&self) -> Option<Seq<char>> {
        opt_view(self.platform_override)
    }

    pub closed spec fn spec_configured(&self) -> Option<Seq<char>> {
        opt_view(self.config_platform)
    }

    /// A provider with no override and no configuration.
    pub fn new() -> (r: Self)
        ensures
            r.spec_dioxus_priority() == 90,
            r.spec_override() is None,
            r.spec_configured() is None,
    {
        DioxusProvider { priority: 90, platform_override: None, config_platform: None }
    }

    /// A provider with a platform override and the text of `Dioxus.toml`,
    /// where they exist.
    pub fn with_environment(platform_override: Option<String>, dioxus_toml: Option<&str>) -> (r:
        Self)
        ensures
            r.spec_dioxus_priority() == 90,
            r.spec_override() == opt_view(platform_override),
            r.spec_configured() == match dioxus_toml {
                Some(t) => configured_platform(t@),
                None => None,
            },
    {
        let config_platform = match dioxus_toml {
            Some(t) => config_default_platform(t),
            None => None,
        };
        DioxusProvider { priority: 90, platform_override, config_platform }
    }

    /// The platform to serve for.
    pub fn detect_platform(&self, context: &ProjectContext) -> (r: String)
        ensures
            r@ == platform_choice(self.spec_override(), self.spec_configured(), *context),
    {
        if let Some(p) = &self.platform_override {
            return p.clone();
        }
        if let Some(p) = &self.config_platform {
            return p.clone();
        }
        let none: [&str; 0] = [];
        let fullstack = ["fullstack", "server"];
        let web_name = ["dioxus-web"];
        let web = ["web"];
        let desktop_name = ["dioxus-desktop"];
        let desktop = ["desktop"];
        let mobile_name = ["dioxus-mobile"];
        let mobile = ["mobile"];
        proof {
            assert(texts(none@) =~= seq![]);
            assert(texts(fullstack@) =~= seq!["fullstack"@, "server"@]);
            assert(texts(web_name@) =~= seq!["dioxus-web"@]);
            assert(texts(web@) =~= seq!["web"@]);
            assert(texts(desktop_name@) =~= seq!["dioxus-desktop"@]);
            assert(texts(desktop@) =~= seq!["desktop"@]);
            assert(texts(mobile_name@) =~= seq!["dioxus-mobile"@]);
            assert(texts(mobile@) =~= seq!["mobile"@]);
        }
        let has_web = any_dependency_with(context, &web_name, &web, true);
        let has_desktop = any_dependency_with(context, &desktop_name, &desktop, true);
        let has_mobile = any_dependency_with(context, &mobile_name, &mobile, true);
        let has_fullstack = any_dependency_with(context, &none, &fullstack, true);
        if has_fullstack {
            owned("fullstack")
        } else if has_web {
            owned("web")
        } else if has_desktop {
            owned("desktop")
        } else if has_mobile {
            owned("mobile")
        } else {
            owned("desktop")
        }
    }

    /// Development server and watch commands.
    fn development_commands(&self, context: &ProjectContext) -> (r: Vec<Command>)
        ensures
            summaries(r@) == dioxus_development_commands(
                platform_choice(self.spec_override(), self.spec_configured(), *context),
            ),
    {
        let platform = self.detect_platform(context);
        let p = platform.as_str();
        let mut v: Vec<Command> = Vec::new();
        push_command(&mut v, dx_serve(p));
        push_command(&mut v, dx_serve_open(p));
        push_command(&mut v, dx_serve_release(p));
        push_command(&mut v, dx_run(p));
        assert(summaries(v@) =~= dioxus_development_commands(p@));
        v
    }

    /// Platform-specific build commands.
    fn platform_commands(&self, context: &ProjectContext) -> (r: Vec<Command>)
        ensures
            summaries(r@) == dioxus_platform_commands(*context),
    {
        let mut v: Vec<Command> = Vec::new();
        push_command(&mut v, dx_build_web());
        push_command(&mut v, dx_build_desktop());
        push_command(&mut v, dx_build_release());
        push_command(&mut v, dx_build_fullstack());
        push_command(&mut v, dx_build_ssg());
        if any_dependency_name_has(context, "mobile") {
            push_command(&mut v, dx_build_ios());
            push_command(&mut v, dx_build_android());
        }
        assert(summaries(v@) =~= dioxus_platform_commands(*context));
        v
    }

    /// Testing commands.
    fn test_commands(&self, context: &ProjectContext) -> (r: Vec<Command>)
        ensures
            summaries(r@) == dioxus_test_commands(),
    {
        let mut v: Vec<Command> = Vec::new();
        push_command(&mut v, dx_cargo_test());
        push_command(&mut v, dx_test_workspace());
        push_command(&mut v, dx_check());
        push_command(&mut v, dx_fmt());
        assert(summaries(v@) =~= dioxus_test_commands());
        v
    }

    fn symbol_commands(&self, symbol: &Symbol) -> (r: Vec<Command>)
        ensures
            summaries(r@) == dioxus_symbol_commands(*symbol),
    {
        let mut v: Vec<Command> = Vec::new();
        let name = symbol.name.as_str();
        match symbol.kind {
            SymbolKind::Function => {
                if str_starts_uppercase(name) {
                    push_command(&mut v, dx_component_preview(name));
                }
                if str_starts_with(name, "test_") || strings_contain(&symbol.modifiers, "test") {
                    push_command(&mut v, dx_test_current(name));
                }
                assert(summaries(v@) =~= dioxus_symbol_commands(*symbol));
            },
            SymbolKind::Struct => {
                let lower = to_lowercase(name);
                if str_contains(lower.as_str(), "state") {
                    push_command(&mut v, dx_check_state(name));
                }
                assert(summaries(v@) =~= dioxus_symbol_commands(*symbol));
            },
            _ => {
                assert(summaries(v@) =~= dioxus_symbol_commands(*symbol));
            },
        }
        v
    }

    /// Context-aware commands based on cursor position.
    fn context_aware_commands(&self, context: &ProjectContext) -> (r: Vec<Command>)
        ensures
            summaries(r@) == dioxus_context_commands(*context),
    {
        let mut v: Vec<Command> = Vec::new();
        if let Some(file_context) = &context.current_file {
            if let Some(symbol) = &file_context.cursor_symbol {
                v = self.symbol_commands(symbol);
            }
            if str_contains(file_context.path.as_str(), "component") {
                push_command(&mut v, dx_build_components());
            }
            assert(summaries(v@) =~= dioxus_context_commands(*context));
        } else {
            assert(summaries(v@) =~= dioxus_context_commands(*context));
        }
        v
    }

    /// Bundle and deployment commands.
    fn deployment_commands(&self, context: &ProjectContext) -> (r: Vec<Command>)
        ensures
            summaries(r@) == dioxus_deployment_commands(),
    {
        let mut v: Vec<Command> = Vec::new();
        push_command(&mut v, dx_bundle());
        push_command(&mut v, dx_bundle_release());
        push_command(&mut v, dx_clean());
        push_command(&mut v, dx_new());
        assert(summaries(v@) =~= dioxus_deployment_commands());
        v
    }
}

impl DioxusProvider {
    /// The provider's name.
    pub open spec fn spec_name(&self) -> Seq<char> {
        "dioxus"@
    }

    /// The provider's priority (higher is more important).
    pub open spec fn spec_priority(&self) -> u8 {
        self.spec_dioxus_priority()
    }

    /// Whether the provider applies to a project.
    pub open spec fn handles(&self, context: ProjectContext) -> bool {
        dioxus_handles(context)
    }

    /// The commands the provider proposes for a project, in order.
    pub open spec fn provided(&self, context: ProjectContext) -> Seq<CommandSummary> {
        dioxus_provider_commands(
            context,
            platform_choice(self.spec_override(), self.spec_configured(), context),
        )
    }
}

impl CommandProvider for DioxusProvider {
    fn name(&self) -> (r: &str)
        ensures
            r@ == self.spec_name(),
    {
        "dioxus"
    }

    fn priority(&self) -> (r: u8)
        ensures
            r == self.spec_priority(),
    {
        self.priority
    }

    fn can_handle(&self, context: &ProjectContext) -> (r: bool)
        ensures
            r == self.handles(*context),
    {
        match &context.project_type {
            ProjectType::Dioxus => true,
            ProjectType::Mixed(frameworks) => project_types_contain(
                frameworks,
                &ProjectType::Dioxus,
            ),
            _ => {
                let names = ["dioxus", "dioxus-web", "dioxus-desktop", "dioxus-mobile"];
                proof {
                    assert(texts(names@) =~= seq![
                        "dioxus"@,
                        "dioxus-web"@,
                        "dioxus-desktop"@,
                        "dioxus-mobile"@,
                    ]);
                }
                any_dependency_named(context, &names, None)
            },
        }
    }

    fn commands(&self, context: &ProjectContext) -> (r: RazResult<Vec<Command>>)
        ensures
            r is Ok ==> summaries(r->Ok_0@) == self.provided(*context),
            r is Ok,
    {
        let mut commands = self.development_commands(context);
        append_commands(&mut commands, self.platform_commands(context));
        append_commands(&mut commands, self.test_commands(context));
        append_commands(&mut commands, self.context_aware_commands(context));
        append_commands(&mut commands, self.deployment_commands(context));
        Ok(commands)
    }
}

pub open spec fn dx_serve_cmd(platform: Seq<char>) -> CommandSummary {
    CommandSummary {
        id: "dx-serve"@,
        label: "Dioxus Dev Server ("@ + platform + ")"@,
        description: Some("Build, watch & serve with hot-reload for "@ + platform + " platform"@),
        command: "dx"@,
        args: seq!["serve"@, "--platform"@, platform],
        env: seq![],
        cwd: None,
        category: CategoryView::Run,
        priority: 95,
        conditions: seq![],
        tags: seq!["dev"@, "serve"@, "hot-reload"@, "dioxus"@, platform],
        requires_input: false,
        estimated_duration: Some(5),
    }
}
pub open spec fn dx_serve_open_cmd(platform: Seq<char>) -> CommandSummary {
    CommandSummary {
        id: "dx-serve-open"@,
        label: "Dioxus Serve & Open ("@ + platform + ")"@,
        description: Some("Start dev server and open browser for "@ + platform + " platform"@),
        command: "dx"@,
        args: seq!["serve"@, "--platform"@, platform, "--open"@],
        env: seq![],
        cwd: None,
        category: CategoryView::Run,
        priority: 93,
        conditions: seq![],
        tags: seq!["dev"@, "serve"@, "browser"@, "dioxus"@, platform],
        requires_input: false,
        estimated_duration: Some(5),
    }
}
pub open spec fn dx_serve_release_cmd(platform: Seq<char>) -> CommandSummary {
    CommandSummary {
        id: "dx-serve-release"@,
        label: "Dioxus Serve Release ("@ + platform + ")"@,
        description: Some("Serve in release mode for "@ + platform + " platform"@),
        command: "dx"@,
        args: seq!["serve"@, "--platform"@, platform, "--release"@],
        env: seq![],
        cwd: None,
        category: CategoryView::Run,
        priority: 85,
        conditions: seq![],
        tags: seq!["serve"@, "release"@, "dioxus"@, platform],
        requires_input: false,
        estimated_duration: Some(30),
    }
}
pub open spec fn dx_run_cmd(platform: Seq<char>) -> CommandSummary {
    CommandSummary {
        id: "dx-run"@,
        label: "Dioxus Run ("@ + platform + ")"@,
        description: Some("Run without hot-reload for "@ + platform + " platform"@),
        command: "dx"@,
        args: seq!["run"@, "--platform"@, platform],
        env: seq![],
        cwd: None,
        category: CategoryView::Run,
        priority: 80,
        conditions: seq![],
        tags: seq!["run"@, "dioxus"@, platform],
        requires_input: false,
        estimated_duration: Some(5),
    }
}
pub open spec fn dx_build_web_cmd() -> CommandSummary {
    CommandSummary {
        id: "dx-build-web"@,
        label: "Build for Web"@,
        description: Some("Build Dioxus app for web deployment"@),
        command: "dx"@,
        args: seq!["build"@, "--platform"@, "web"@],
        env: seq![],
        cwd: None,
        category: CategoryView::Build,
        priority: 85,
        conditions: seq![],
        tags: seq!["build"@, "web"@, "dioxus"@],
        requires_input: false,
        estimated_duration: Some(30),
    }
}
pub open spec fn dx_build_desktop_cmd() -> CommandSummary {
    CommandSummary {
        id: "dx-build-desktop"@,
        label: "Build for Desktop"@,
        description: Some("Build Dioxus desktop application"@),
        command: "dx"@,
        args: seq!["build"@, "--platform"@, "desktop"@],
        env: seq![],
        cwd: None,
        category: CategoryView::Build,
        priority: 80,
        conditions: seq![],
        tags: seq!["build"@, "desktop"@, "dioxus"@],
        requires_input: false,
        estimated_duration: Some(45),
    }
}
pub open spec fn dx_build_release_cmd() -> CommandSummary {
    CommandSummary {
        id: "dx-build-release"@,
        label: "Build Release"@,
        description: Some("Build optimized release version"@),
        command: "dx"@,
        args: seq!["build"@, "--release"@],
        env: seq![],
        cwd: None,
        category: CategoryView::Build,
        priority: 80,
        conditions: seq![],
        tags: seq!["build"@, "release"@, "dioxus"@],
        requires_input: false,
        estimated_duration: Some(60),
    }
}
pub open spec fn dx_build_fullstack_cmd() -> CommandSummary {
    CommandSummary {
        id: "dx-build-fullstack"@,
        label: "Build Fullstack"@,
        description: Some("Build fullstack app with server and client"@),
        command: "dx"@,
        args: seq!["build"@, "--fullstack"@],
        env: seq![],
        cwd: None,
        category: CategoryView::Build,
        priority: 78,
        conditions: seq![],
        tags: seq!["build"@, "fullstack"@, "dioxus"@],
        requires_input: false,
        estimated_duration: Some(45),
    }
}
pub open spec fn dx_build_ssg_cmd() -> CommandSummary {
    CommandSummary {
        id: "dx-build-ssg"@,
        label: "Build Static Site"@,
        description: Some("Generate static site"@),
        command: "dx"@,
        args: seq!["build"@, "--ssg"@],
        env: seq![],
        cwd: None,
        category: CategoryView::Build,
        priority: 77,
        conditions: seq![],
        tags: seq!["build"@, "ssg"@, "static"@, "dioxus"@],
        requires_input: false,
        estimated_duration: Some(40),
    }
}
pub open spec fn dx_build_ios_cmd() -> CommandSummary {
    CommandSummary {
        id: "dx-build-ios"@,
        label: "Build for iOS"@,
        description: Some("Build Dioxus app for iOS"@),
        command: "dx"@,
        args: seq!["build"@, "--platform"@, "ios"@],
        env: seq![],
        cwd: None,
        category: CategoryView::Build,
        priority: 75,
        conditions: seq![],
        tags: seq!["build"@, "ios"@, "mobile"@, "dioxus"@],
        requires_input: false,
        estimated_duration: Some(90),
    }
}
pub open spec fn dx_build_android_cmd() -> CommandSummary {
    CommandSummary {
        id: "dx-build-android"@,
        label: "Build for Android"@,
        description: Some("Build Dioxus app for Android"@),
        command: "dx"@,
        args: seq!["build"@, "--platform"@, "android"@],
        env: seq![],
        cwd: None,
        category: CategoryView::Build,
        priority: 75,
        conditions: seq![],
        tags: seq!["build"@, "android"@, "mobile"@, "dioxus"@],
        requires_input: false,
        estimated_duration: Some(90),
    }
}
pub open spec fn dx_cargo_test_cmd() -> CommandSummary {
    CommandSummary {
        id: "cargo-test"@,
        label: "Run Tests"@,
        description: Some("Run all tests"@),
        command: "cargo"@,
        args: seq!["test"@],
        env: seq![],
        cwd: None,
        category: CategoryView::Test,
        priority: 75,
        conditions: seq![],
        tags: seq!["test"@, "dioxus"@],
        requires_input: false,
        estimated_duration: Some(20),
    }
}
pub open spec fn dx_test_workspace_cmd() -> CommandSummary {
    CommandSummary {
        id: "cargo-test-workspace"@,
        label: "Test Workspace"@,
        description: Some("Run all workspace tests"@),
        command: "cargo"@,
        args: seq!["test"@, "--workspace"@],
        env: seq![],
        cwd: None,
        category: CategoryView::Test,
        priority: 70,
        conditions: seq![],
        tags: seq!["test"@, "workspace"@, "dioxus"@],
        requires_input: false,
        estimated_duration: Some(30),
    }
}
pub open spec fn dx_check_cmd() -> CommandSummary {
    CommandSummary {
        id: "dx-check"@,
        label: "Check Project"@,
        description: Some("Check project for issues"@),
        command: "dx"@,
        args: seq!["check"@],
        env: seq![],
        cwd: None,
        category: CategoryView::Lint,
        priority: 72,
        conditions: seq![],
        tags: seq!["check"@, "lint"@, "dioxus"@],
        requires_input: false,
        estimated_duration: Some(10),
    }
}
pub open spec fn dx_fmt_cmd() -> CommandSummary {
    CommandSummary {
        id: "dx-fmt"@,
        label: "Format RSX"@,
        description: Some("Automatically format RSX code"@),
        command: "dx"@,
        args: seq!["fmt"@],
        env: seq![],
        cwd: None,
        category: CategoryView::Format,
        priority: 70,
        conditions: seq![],
        tags: seq!["format"@, "rsx"@, "dioxus"@],
        requires_input: false,
        estimated_duration: Some(5),
    }
}
pub open spec fn dx_component_preview_cmd(name: Seq<char>) -> CommandSummary {
    CommandSummary {
        id: "dx-component-preview"@,
        label: "Preview Component"@,
        description: Some("Preview component: "@ + name),
        command: "dx"@,
        args: seq!["serve"@, "--component"@, name],
        env: seq![],
        cwd: None,
        category: CategoryView::Run,
        priority: 85,
        conditions: seq![],
        tags: seq!["component"@, "preview"@, "dioxus"@],
        requires_input: false,
        estimated_duration: Some(10),
    }
}
pub open spec fn dx_test_current_cmd(name: Seq<char>) -> CommandSummary {
    CommandSummary {
        id: "dx-test-current"@,
        label: "Test Current Function"@,
        description: Some("Run test: "@ + name),
        command: "dx"@,
        args: seq!["test"@, name],
        env: seq![],
        cwd: None,
        category: CategoryView::Test,
        priority: 90,
        conditions: seq![],
        tags: seq!["test"@, "current"@, "dioxus"@],
        requires_input: false,
        estimated_duration: Some(5),
    }
}
pub open spec fn dx_check_state_cmd(name: Seq<char>) -> CommandSummary {
    CommandSummary {
        id: "dx-check-state"@,
        label: "Check State Management"@,
        description: Some("Analyze state struct: "@ + name),
        command: "cargo"@,
        args: seq!["check"@],
        env: seq![],
        cwd: None,
        category: CategoryView::Lint,
        priority: 70,
        conditions: seq![],
        tags: seq!["state"@, "check"@, "dioxus"@],
        requires_input: false,
        estimated_duration: Some(8),
    }
}
pub open spec fn dx_build_components_cmd() -> CommandSummary {
    CommandSummary {
        id: "dx-build-components"@,
        label: "Build Components"@,
        description: Some("Build and validate all components"@),
        command: "dx"@,
        args: seq!["build"@, "--components-only"@],
        env: seq![],
        cwd: None,
        category: CategoryView::Build,
        priority: 80,
        conditions: seq![],
        tags: seq!["components"@, "build"@, "dioxus"@],
        requires_input: false,
        estimated_duration: Some(20),
    }
}
pub open spec fn dx_bundle_cmd() -> CommandSummary {
    CommandSummary {
        id: "dx-bundle"@,
        label: "Bundle Application"@,
        description: Some("Bundle the Dioxus app into a shippable object"@),
        command: "dx"@,
        args: seq!["bundle"@],
        env: seq![],
        cwd: None,
        category: CategoryView::Build,
        priority: 75,
        conditions: seq![],
        tags: seq!["bundle"@, "production"@, "dioxus"@],
        requires_input: false,
        estimated_duration: Some(60),
    }
}
pub open spec fn dx_bundle_release_cmd() -> CommandSummary {
    CommandSummary {
        id: "dx-bundle-release"@,
        label: "Bundle Release"@,
        description: Some("Bundle optimized release version"@),
        command: "dx"@,
        args: seq!["bundle"@, "--release"@],
        env: seq![],
        cwd: None,
        category: CategoryView::Deploy,
        priority: 72,
        conditions: seq![],
        tags: seq!["bundle"@, "release"@, "deploy"@, "dioxus"@],
        requires_input: false,
        estimated_duration: Some(75),
    }
}
pub open spec fn dx_clean_cmd() -> CommandSummary {
    CommandSummary {
        id: "dx-clean"@,
        label: "Clean Artifacts"@,
        description: Some("Clean output artifacts"@),
        command: "dx"@,
        args: seq!["clean"@],
        env: seq![],
        cwd: None,
        category: CategoryView::Clean,
        priority: 65,
        conditions: seq![],
        tags: seq!["clean"@, "dioxus"@],
        requires_input: false,
        estimated_duration: Some(5),
    }
}
pub open spec fn dx_new_cmd() -> CommandSummary {
    CommandSummary {
        id: "dx-new"@,
        label: "New Project"@,
        description: Some("Create a new Dioxus project"@),
        command: "dx"@,
        args: seq!["new"@],
        env: seq![],
        cwd: None,
        category: CategoryView::Generate,
        priority: 60,
        conditions: seq![],
        tags: seq!["new"@, "create"@, "dioxus"@],
        requires_input: false,
        estimated_duration: Some(10),
    }
}

fn dx_serve(platform: &str) -> (r: Command)
    ensures
        summary(r@) == dx_serve_cmd(platform@),
{
    let c = CommandBuilder::new("dx-serve", "dx")
        .label(fmt_text("Dioxus Dev Server (", platform, ")").as_str())
        .description(fmt_text("Build, watch & serve with hot-reload for ", platform, " platform").as_str())
        .arg("serve")
        .arg("--platform")
        .arg(platform)
        .category(CommandCategory::Run)
        .priority(95)
        .tag("dev")
        .tag("serve")
        .tag("hot-reload")
        .tag("dioxus")
        .tag(platform)
        .estimated_duration(5)
        .build();
    proof { reveal_strlit(""); }
    assert(c@.label@ =~= "Dioxus Dev Server ("@ + platform@ + ")"@);
    assert(c@.description->0@ =~= "Build, watch & serve with hot-reload for "@ + platform@ + " platform"@);
    assert(views(c@.args) =~= seq!["serve"@, "--platform"@, platform@]);
    assert(views(c@.tags) =~= seq!["dev"@, "serve"@, "hot-reload"@, "dioxus"@, platform@]);
    assert(summary(c@).env =~= seq![]);
    c
}
fn dx_serve_open(platform: &str) -> (r: Command)
    ensures
        summary(r@) == dx_serve_open_cmd(platform@),
{
    let c = CommandBuilder::new("dx-serve-open", "dx")
        .label(fmt_text("Dioxus Serve & Open (", platform, ")").as_str())
        .description(fmt_text("Start dev server and open browser for ", platform, " platform").as_str())
        .arg("serve")
        .arg("--platform")
        .arg(platform)
        .arg("--open")
        .category(CommandCategory::Run)
        .priority(93)
        .tag("dev")
        .tag("serve")
        .tag("browser")
        .tag("dioxus")
        .tag(platform)
        .estimated_duration(5)
        .build();
    proof { reveal_strlit(""); }
    assert(c@.label@ =~= "Dioxus Serve & Open ("@ + platform@ + ")"@);
    assert(c@.description->0@ =~= "Start dev server and open browser for "@ + platform@ + " platform"@);
    assert(views(c@.args) =~= seq!["serve"@, "--platform"@, platform@, "--open"@]);
    assert(views(c@.tags) =~= seq!["dev"@, "serve"@, "browser"@, "dioxus"@, platform@]);
    assert(summary(c@).env =~= seq![]);
    c
}
fn dx_serve_release(platform: &str) -> (r: Command)
    ensures
        summary(r@) == dx_serve_release_cmd(platform@),
{
    let c = CommandBuilder::new("dx-serve-release", "dx")
        .label(fmt_text("Dioxus Serve Release (", platform, ")").as_str())
        .description(fmt_text("Serve in release mode for ", platform, " platform").as_str())
        .arg("serve")
        .arg("--platform")
        .arg(platform)
        .arg("--release")
        .category(CommandCategory::Run)
        .priority(85)
        .tag("serve")
        .tag("release")
        .tag("dioxus")
        .tag(platform)
        .estimated_duration(30)
        .build();
    proof { reveal_strlit(""); }
    assert(c@.label@ =~= "Dioxus Serve Release ("@ + platform@ + ")"@);
    assert(c@.description->0@ =~= "Serve in release mode for "@ + platform@ + " platform"@);
    assert(views(c@.args) =~= seq!["serve"@, "--platform"@, platform@, "--release"@]);
    assert(views(c@.tags) =~= seq!["serve"@, "release"@, "dioxus"@, platform@]);
    assert(summary(c@).env =~= seq![]);
    c
}
fn dx_run(platform: &str) -> (r: Command)
    ensures
        summary(r@) == dx_run_cmd(platform@),
{
    let c = CommandBuilder::new("dx-run", "dx")
        .label(fmt_text("Dioxus Run (", platform, ")").as_str())
        .description(fmt_text("Run without hot-reload for ", platform, " platform").as_str())
        .arg("run")
        .arg("--platform")
        .arg(platform)
        .category(CommandCategory::Run)
        .priority(80)
        .tag("run")
        .tag("dioxus")
        .tag(platform)
        .estimated_duration(5)
        .build();
    proof { reveal_strlit(""); }
    assert(c@.label@ =~= "Dioxus Run ("@ + platform@ + ")"@);
    assert(c@.description->0@ =~= "Run without hot-reload for "@ + platform@ + " platform"@);
    assert(views(c@.args) =~= seq!["run"@, "--platform"@, platform@]);
    assert(views(c@.tags) =~= seq!["run"@, "dioxus"@, platform@]);
    assert(summary(c@).env =~= seq![]);
    c
}
fn dx_build_web() -> (r: Command)
    ensures
        summary(r@) == dx_build_web_cmd(),
{
    let c = CommandBuilder::new("dx-build-web", "dx")
        .label("Build for Web")
        .description("Build Dioxus app for web deployment")
        .arg("build")
        .arg("--platform")
        .arg("web")
        .category(CommandCategory::Build)
        .priority(85)
        .tag("build")
        .tag("web")
        .tag("dioxus")
        .estimated_duration(30)
        .build();
    
    
    assert(views(c@.args) =~= seq!["build"@, "--platform"@, "web"@]);
    assert(views(c@.tags) =~= seq!["build"@, "web"@, "dioxus"@]);
    assert(summary(c@).env =~= seq![]);
    c
}
fn dx_build_desktop() -> (r: Command)
    ensures
        summary(r@) == dx_build_desktop_cmd(),
{
    let c = CommandBuilder::new("dx-build-desktop", "dx")
        .label("Build for Desktop")
        .description("Build Dioxus desktop application")
        .arg("build")
        .arg("--platform")
        .arg("desktop")
        .category(CommandCategory::Build)
        .priority(80)
        .tag("build")
        .tag("desktop")
        .tag("dioxus")
        .estimated_duration(45)
        .build();
    
    
    assert(views(c@.args) =~= seq!["build"@, "--platform"@, "desktop"@]);
    assert(views(c@.tags) =~= seq!["build"@, "desktop"@, "dioxus"@]);
    assert(summary(c@).env =~= seq![]);
    c
}
fn dx_build_release() -> (r: Command)
    ensures
        summary(r@) == dx_build_release_cmd(),
{
    let c = CommandBuilder::new("dx-build-release", "dx")
        .label("Build Release")
        .description("Build optimized release version")
        .arg("build")
        .arg("--release")
        .category(CommandCategory::Build)
        .priority(80)
        .tag("build")
        .tag("release")
        .tag("dioxus")
        .estimated_duration(60)
        .build();
    
    
    assert(views(c@.args) =~= seq!["build"@, "--release"@]);
    assert(views(c@.tags) =~= seq!["build"@, "release"@, "dioxus"@]);
    assert(summary(c@).env =~= seq![]);
    c
}
fn dx_build_fullstack() -> (r: Command)
    ensures
        summary(r@) == dx_build_fullstack_cmd(),
{
    let c = CommandBuilder::new("dx-build-fullstack", "dx")
        .label("Build Fullstack")
        .description("Build fullstack app with server and client")
        .arg("build")
        .arg("--fullstack")
        .category(CommandCategory::Build)
        .priority(78)
        .tag("build")
        .tag("fullstack")
        .tag("dioxus")
        .estimated_duration(45)
        .build();
    
    
    assert(views(c@.args) =~= seq!["build"@, "--fullstack"@]);
    assert(views(c@.tags) =~= seq!["build"@, "fullstack"@, "dioxus"@]);
    assert(summary(c@).env =~= seq![]);
    c
}
fn dx_build_ssg() -> (r: Command)
    ensures
        summary(r@) == dx_build_ssg_cmd(),
{
    let c = CommandBuilder::new("dx-build-ssg", "dx")
        .label("Build Static Site")
        .description("Generate static site")
        .arg("build")
        .arg("--ssg")
        .category(CommandCategory::Build)
        .priority(77)
        .tag("build")
        .tag("ssg")
        .tag("static")
        .tag("dioxus")
        .estimated_duration(40)
        .build();
    
    
    assert(views(c@.args) =~= seq!["build"@, "--ssg"@]);
    assert(views(c@.tags) =~= seq!["build"@, "ssg"@, "static"@, "dioxus"@]);
    assert(summary(c@).env =~= seq![]);
    c
}
fn dx_build_ios() -> (r: Command)
    ensures
        summary(r@) == dx_build_ios_cmd(),
{
    let c = CommandBuilder::new("dx-build-ios", "dx")
        .label("Build for iOS")
        .description("Build Dioxus app for iOS")
        .arg("build")
        .arg("--platform")
        .arg("ios")
        .category(CommandCategory::Build)
        .priority(75)
        .tag("build")
        .tag("ios")
        .tag("mobile")
        .tag("dioxus")
        .estimated_duration(90)
        .build();
    
    
    assert(views(c@.args) =~= seq!["build"@, "--platform"@, "ios"@]);
    assert(views(c@.tags) =~= seq!["build"@, "ios"@, "mobile"@, "dioxus"@]);
    assert(summary(c@).env =~= seq![]);
    c
}
fn dx_build_android() -> (r: Command)
    ensures
        summary(r@) == dx_build_android_cmd(),
{
    let c = CommandBuilder::new("dx-build-android", "dx")
        .label("Build for Android")
        .description("Build Dioxus app for Android")
        .arg("build")
        .arg("--platform")
        .arg("android")
        .category(CommandCategory::Build)
        .priority(75)
        .tag("build")
        .tag("android")
        .tag("mobile")
        .tag("dioxus")
        .estimated_duration(90)
        .build();
    
    
    assert(views(c@.args) =~= seq!["build"@, "--platform"@, "android"@]);
    assert(views(c@.tags) =~= seq!["build"@, "android"@, "mobile"@, "dioxus"@]);
    assert(summary(c@).env =~= seq![]);
    c
}
fn dx_cargo_test() -> (r: Command)
    ensures
        summary(r@) == dx_cargo_test_cmd(),
{
    let c = CommandBuilder::new("cargo-test", "cargo")
        .label("Run Tests")
        .description("Run all tests")
        .arg("test")
        .category(CommandCategory::Test)
        .priority(75)
        .tag("test")
        .tag("dioxus")
        .estimated_duration(20)
        .build();
    
    
    assert(views(c@.args) =~= seq!["test"@]);
    assert(views(c@.tags) =~= seq!["test"@, "dioxus"@]);
    assert(summary(c@).env =~= seq![]);
    c
}
fn dx_test_workspace() -> (r: Command)
    ensures
        summary(r@) == dx_test_workspace_cmd(),
{
    let c = CommandBuilder::new("cargo-test-workspace", "cargo")
        .label("Test Workspace")
        .description("Run all workspace tests")
        .arg("test")
        .arg("--workspace")
        .category(CommandCategory::Test)
        .priority(70)
        .tag("test")
        .tag("workspace")
        .tag("dioxus")
        .estimated_duration(30)
        .build();
    
    
    assert(views(c@.args) =~= seq!["test"@, "--workspace"@]);
    assert(views(c@.tags) =~= seq!["test"@, "workspace"@, "dioxus"@]);
    assert(summary(c@).env =~= seq![]);
    c
}
fn dx_check() -> (r: Command)
    ensures
        summary(r@) == dx_check_cmd(),
{
    let c = CommandBuilder::new("dx-check", "dx")
        .label("Check Project")
        .description("Check project for issues")
        .arg("check")
        .category(CommandCategory::Lint)
        .priority(72)
        .tag("check")
        .tag("lint")
        .tag("dioxus")
        .estimated_duration(10)
        .build();
    
    
    assert(views(c@.args) =~= seq!["check"@]);
    assert(views(c@.tags) =~= seq!["check"@, "lint"@, "dioxus"@]);
    assert(summary(c@).env =~= seq![]);
    c
}
fn dx_fmt() -> (r: Command)
    ensures
        summary(r@) == dx_fmt_cmd(),
{
    let c = CommandBuilder::new("dx-fmt", "dx")
        .label("Format RSX")
        .description("Automatically format RSX code")
        .arg("fmt")
        .category(CommandCategory::Format)
        .priority(70)
        .tag("format")
        .tag("rsx")
        .tag("dioxus")
        .estimated_duration(5)
        .build();
    
    
    assert(views(c@.args) =~= seq!["fmt"@]);
    assert(views(c@.tags) =~= seq!["format"@, "rsx"@, "dioxus"@]);
    assert(summary(c@).env =~= seq![]);
    c
}
fn dx_component_preview(name: &str) -> (r: Command)
    ensures
        summary(r@) == dx_component_preview_cmd(name@),
{
    let c = CommandBuilder::new("dx-component-preview", "dx")
        .label("Preview Component")
        .description(fmt_text("Preview component: ", name, "").as_str())
        .arg("serve")
        .arg("--component")
        .arg(name)
        .category(CommandCategory::Run)
        .priority(85)
        .tag("component")
        .tag("preview")
        .tag("dioxus")
        .estimated_duration(10)
        .build();
    proof { reveal_strlit(""); }
    assert(c@.description->0@ =~= "Preview component: "@ + name@);
    assert(views(c@.args) =~= seq!["serve"@, "--component"@, name@]);
    assert(views(c@.tags) =~= seq!["component"@, "preview"@, "dioxus"@]);
    assert(summary(c@).env =~= seq![]);
    c
}
fn dx_test_current(name: &str) -> (r: Command)
    ensures
        summary(r@) == dx_test_current_cmd(name@),
{
    let c = CommandBuilder::new("dx-test-current", "dx")
        .label("Test Current Function")
        .description(fmt_text("Run test: ", name, "").as_str())
        .arg("test")
        .arg(name)
        .category(CommandCategory::Test)
        .priority(90)
        .tag("test")
        .tag("current")
        .tag("dioxus")
        .estimated_duration(5)
        .build();
    proof { reveal_strlit(""); }
    assert(c@.description->0@ =~= "Run test: "@ + name@);
    assert(views(c@.args) =~= seq!["test"@, name@]);
    assert(views(c@.tags) =~= seq!["test"@, "current"@, "dioxus"@]);
    assert(summary(c@).env =~= seq![]);
    c
}
fn dx_check_state(name: &str) -> (r: Command)
    ensures
        summary(r@) == dx_check_state_cmd(name@),
{
    let c = CommandBuilder::new("dx-check-state", "cargo")
        .label("Check State Management")
        .description(fmt_text("Analyze state struct: ", name, "").as_str())
        .arg("check")
        .category(CommandCategory::Lint)
        .priority(70)
        .tag("state")
        .tag("check")
        .tag("dioxus")
        .estimated_duration(8)
        .build();
    proof { reveal_strlit(""); }
    assert(c@.description->0@ =~= "Analyze state struct: "@ + name@);
    assert(views(c@.args) =~= seq!["check"@]);
    assert(views(c@.tags) =~= seq!["state"@, "check"@, "dioxus"@]);
    assert(summary(c@).env =~= seq![]);
    c
}
fn dx_build_components() -> (r: Command)
    ensures
        summary(r@) == dx_build_components_cmd(),
{
    let c = CommandBuilder::new("dx-build-components", "dx")
        .label("Build Components")
        .description("Build and validate all components")
        .arg("build")
        .arg("--components-only")
        .category(CommandCategory::Build)
        .priority(80)
        .tag("components")
        .tag("build")
        .tag("dioxus")
        .estimated_duration(20)
        .build();
    
    
    assert(views(c@.args) =~= seq!["build"@, "--components-only"@]);
    assert(views(c@.tags) =~= seq!["components"@, "build"@, "dioxus"@]);
    assert(summary(c@).env =~= seq![]);
    c
}
fn dx_bundle() -> (r: Command)
    ensures
        summary(r@) == dx_bundle_cmd(),
{
    let c = CommandBuilder::new("dx-bundle", "dx")
        .label("Bundle Application")
        .description("Bundle the Dioxus app into a shippable object")
        .arg("bundle")
        .category(CommandCategory::Build)
        .priority(75)
        .tag("bundle")
        .tag("production")
        .tag("dioxus")
        .estimated_duration(60)
        .build();
    
    
    assert(views(c@.args) =~= seq!["bundle"@]);
    assert(views(c@.tags) =~= seq!["bundle"@, "production"@, "dioxus"@]);
    assert(summary(c@).env =~= seq![]);
    c
}
fn dx_bundle_release() -> (r: Command)
    ensures
        summary(r@) == dx_bundle_release_cmd(),
{
    let c = CommandBuilder::new("dx-bundle-release", "dx")
        .label("Bundle Release")
        .description("Bundle optimized release version")
        .arg("bundle")
        .arg("--release")
        .category(CommandCategory::Deploy)
        .priority(72)
        .tag("bundle")
        .tag("release")
        .tag("deploy")
        .tag("dioxus")
        .estimated_duration(75)
        .build();
    
    
    assert(views(c@.args) =~= seq!["bundle"@, "--release"@]);
    assert(views(c@.tags) =~= seq!["bundle"@, "release"@, "deploy"@, "dioxus"@]);
    assert(summary(c@).env =~= seq![]);
    c
}
fn dx_clean() -> (r: Command)
    ensures
        summary(r@) == dx_clean_cmd(),
{
    let c = CommandBuilder::new("dx-clean", "dx")
        .label("Clean Artifacts")
        .description("Clean output artifacts")
        .arg("clean")
        .category(CommandCategory::Clean)
        .priority(65)
        .tag("clean")
        .tag("dioxus")
        .estimated_duration(5)
        .build();
    
    
    assert(views(c@.args) =~= seq!["clean"@]);
    assert(views(c@.tags) =~= seq!["clean"@, "dioxus"@]);
    assert(summary(c@).env =~= seq![]);
    c
}
fn dx_new() -> (r: Command)
    ensures
        summary(r@) == dx_new_cmd(),
{
    let c = CommandBuilder::new("dx-new", "dx")
        .label("New Project")
        .description("Create a new Dioxus project")
        .arg("new")
        .category(CommandCategory::Generate)
        .priority(60)
        .tag("new")
        .tag("create")
        .tag("dioxus")
        .estimated_duration(10)
        .build();
    
    
    assert(views(c@.args) =~= seq!["new"@]);
    assert(views(c@.tags) =~= seq!["new"@, "create"@, "dioxus"@]);
    assert(summary(c@).env =~= seq![]);
    c
}

/// Every command the Dioxus provider proposes carries the `dioxus` tag.
pub proof fn lemma_dioxus_commands_tagged(context: ProjectContext, platform: Seq<char>)
    ensures
        all_tagged(dioxus_provider_commands(context, platform), "dioxus"@),
{
    broadcast use vstd::seq_lib::group_seq_properties;
    let s = dioxus_provider_commands(context, platform);
    assert forall|i: int| 0 <= i < s.len() implies (#[trigger] s[i]).tags.contains("dioxus"@) by {
    }
}

} // verus!
