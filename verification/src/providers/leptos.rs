//! Commands for Leptos web projects: watch and serve, builds, tests,
//! commands for the component under the cursor, and deployment.

use vstd::prelude::*;
use crate::commands::{
    Command, CommandBuilder, CommandCategory, CommandSummary, CategoryView, summary, summaries,
    push_command, append_commands, strings_contain,
};
use crate::context::{ProjectContext, ProjectType, Symbol, SymbolKind};
use crate::error::RazResult;
use crate::providers::{
    CommandProvider, all_tagged, types_contain, project_types_contain, dependency_named_in, any_dependency_named,
    texts,
};
use crate::text::{
    fmt_text, has_prefix, has_sub, starts_uppercase, str_contains, str_starts_uppercase,
    str_starts_with, views,
};

verus! {

/// Whether the project is a Leptos project: by its type, or by one of its
/// dependencies.
pub open spec fn leptos_handles(context: ProjectContext) -> bool {
    match context.project_type {
        ProjectType::Leptos => true,
        ProjectType::Mixed(v) => types_contain(v@, ProjectType::Leptos),
        _ => dependency_named_in(context, seq!["leptos"@, "leptos_axum"@, "leptos_actix"@], None),
    }
}

pub open spec fn leptos_development_commands(cwd: Seq<char>) -> Seq<CommandSummary> {
    seq![leptos_watch_cmd(cwd), leptos_watch_hot_cmd(cwd), leptos_serve_cmd(cwd), leptos_serve_release_cmd(cwd)]
}

pub open spec fn leptos_build_commands(cwd: Seq<char>) -> Seq<CommandSummary> {
    seq![leptos_build_cmd(cwd), leptos_build_release_cmd(cwd), leptos_build_precompress_cmd(cwd)]
}

pub open spec fn leptos_test_commands(cwd: Seq<char>) -> Seq<CommandSummary> {
    seq![leptos_test_cmd(cwd), leptos_end_to_end_cmd(cwd), leptos_test_workspace_cmd(cwd)]
}

/// The commands for the symbol under the cursor: a test run for test
/// functions, a component command for functions named in PascalCase, and
/// a check for structs.
pub open spec fn leptos_symbol_commands(s: Symbol, cwd: Seq<char>) -> Seq<CommandSummary> {
    let name = s.name@;
    match s.kind {
        SymbolKind::Function => (if has_prefix(name, "test_"@) || views(s.modifiers@).contains(
            "test"@,
        ) {
            seq![leptos_test_current_cmd(name, cwd)]
        } else {
            seq![]
        }) + (if starts_uppercase(name) {
            seq![leptos_dev_component_cmd(name, cwd)]
        } else {
            seq![]
        }),
        SymbolKind::Struct => seq![leptos_check_struct_cmd(name, cwd)],
        _ => seq![],
    }
}

/// The commands for the current file: those of the symbol under the
/// cursor, then a check for component files.
pub open spec fn leptos_context_commands(context: ProjectContext) -> Seq<CommandSummary> {
    let cwd = context.workspace_root@;
    match context.current_file {
        None => seq![],
        Some(fc) => (match fc.cursor_symbol {
            Some(s) => leptos_symbol_commands(s, cwd),
            None => seq![],
        }) + (if has_sub(fc.path@, "component"@) {
            seq![leptos_build_check_cmd(cwd)]
        } else {
            seq![]
        }),
    }
}

pub open spec fn leptos_deployment_commands(cwd: Seq<char>) -> Seq<CommandSummary> {
    seq![leptos_new_cmd(cwd), leptos_clean_cmd(cwd)]
}

/// The commands of the Leptos provider, in order.
pub open spec fn leptos_provider_commands(context: ProjectContext) -> Seq<CommandSummary> {
    let cwd = context.workspace_root@;
    leptos_development_commands(cwd) + leptos_build_commands(cwd) + leptos_test_commands(cwd)
        + leptos_context_commands(context) + leptos_deployment_commands(cwd)
}

/// Provider for Leptos web framework commands.
pub struct LeptosProvider {
    priority: u8,
}

impl LeptosProvider {
    pub closed spec fn spec_leptos_priority(&self) -> u8 {
        self.priority
    }

    pub fn new() -> (r: Self)
        ensures
            r.spec_leptos_priority() == 90,
    {
        LeptosProvider { priority: 90 }
    }

    /// Development server and watch commands.
    fn development_commands(&self, context: &ProjectContext) -> (r: Vec<Command>)
        ensures
            summaries(r@) == leptos_development_commands(context.workspace_root@),
    {
        let cwd = context.workspace_root.as_str();
        let mut v: Vec<Command> = Vec::new();
        push_command(&mut v, leptos_watch(cwd));
        push_command(&mut v, leptos_watch_hot(cwd));
        push_command(&mut v, leptos_serve(cwd));
        push_command(&mut v, leptos_serve_release(cwd));
        assert(summaries(v@) =~= leptos_development_commands(cwd@));
        v
    }

    /// Build commands.
    fn build_commands(&self, context: &ProjectContext) -> (r: Vec<Command>)
        ensures
            summaries(r@) == leptos_build_commands(context.workspace_root@),
    {
        let cwd = context.workspace_root.as_str();
        let mut v: Vec<Command> = Vec::new();
        push_command(&mut v, leptos_build(cwd));
        push_command(&mut v, leptos_build_release(cwd));
        push_command(&mut v, leptos_build_precompress(cwd));
        assert(summaries(v@) =~= leptos_build_commands(cwd@));
        v
    }

    /// Testing commands.
    fn test_commands(&self, context: &ProjectContext) -> (r: Vec<Command>)
        ensures
            summaries(r@) == leptos_test_commands(context.workspace_root@),
    {
        let cwd = context.workspace_root.as_str();
        let mut v: Vec<Command> = Vec::new();
        push_command(&mut v, leptos_test(cwd));
        push_command(&mut v, leptos_end_to_end(cwd));
        push_command(&mut v, leptos_test_workspace(cwd));
        assert(summaries(v@) =~= leptos_test_commands(cwd@));
        v
    }

    fn symbol_commands(&self, symbol: &Symbol, cwd: &str) -> (r: Vec<Command>)
        ensures
            summaries(r@) == leptos_symbol_commands(*symbol, cwd@),
    {
        let mut v: Vec<Command> = Vec::new();
        let name = symbol.name.as_str();
        match symbol.kind {
            SymbolKind::Function => {
                if str_starts_with(name, "test_") || strings_contain(&symbol.modifiers, "test") {
                    push_command(&mut v, leptos_test_current(name, cwd));
                }
                if str_starts_uppercase(name) {
                    push_command(&mut v, leptos_dev_component(name, cwd));
                }
                assert(summaries(v@) =~= leptos_symbol_commands(*symbol, cwd@));
            },
            SymbolKind::Struct => {
                push_command(&mut v, leptos_check_struct(name, cwd));
                assert(summaries(v@) =~= leptos_symbol_commands(*symbol, cwd@));
            },
            _ => {
                assert(summaries(v@) =~= leptos_symbol_commands(*symbol, cwd@));
            },
        }
        v
    }

    /// Context-aware commands based on cursor position and file path.
    fn context_aware_commands(&self, context: &ProjectContext) -> (r: Vec<Command>)
        ensures
            summaries(r@) == leptos_context_commands(*context),
    {
        let cwd = context.workspace_root.as_str();
        let mut v: Vec<Command> = Vec::new();
        if let Some(file_context) = &context.current_file {
            if let Some(symbol) = &file_context.cursor_symbol {
                v = self.symbol_commands(symbol, cwd);
            }
            if str_contains(file_context.path.as_str(), "component") {
                push_command(&mut v, leptos_build_check(cwd));
            }
            assert(summaries(v@) =~= leptos_context_commands(*context));
        } else {
            assert(summaries(v@) =~= leptos_context_commands(*context));
        }
        v
    }

    /// Deployment and utility commands.
    fn deployment_commands(&self, context: &ProjectContext) -> (r: Vec<Command>)
        ensures
            summaries(r@) == leptos_deployment_commands(context.workspace_root@),
    {
        let cwd = context.workspace_root.as_str();
        let mut v: Vec<Command> = Vec::new();
        push_command(&mut v, leptos_new(cwd));
        push_command(&mut v, leptos_clean(cwd));
        assert(summaries(v@) =~= leptos_deployment_commands(cwd@));
        v
    }
}

impl LeptosProvider {
    /// The provider's name.
    pub open spec fn spec_name(&self) -> Seq<char> {
        "leptos"@
    }

    /// The provider's priority (higher is more important).
    pub open spec fn spec_priority(&self) -> u8 {
        self.spec_leptos_priority()
    }

    /// Whether the provider applies to a project.
    pub open spec fn handles(&self, context: ProjectContext) -> bool {
        leptos_handles(context)
    }

    /// The commands the provider proposes for a project, in order.
    pub open spec fn provided(&self, context: ProjectContext) -> Seq<CommandSummary> {
        leptos_provider_commands(context)
    }
}

impl CommandProvider for LeptosProvider {
    fn name(&self) -> (r: &str)
        ensures
            r@ == self.spec_name(),
    {
        "leptos"
    }

    fn priority(&self) -> (r: u8)
        ensures
            r == self.spec_priority(),
    {
        self.priority
    }

    fn can_handle(&self, context: &ProjectContext) -> (r: bool)
        ensures
            r == self.handles(*context),
    {
        match &context.project_type {
            ProjectType::Leptos => true,
            ProjectType::Mixed(frameworks) => project_types_contain(frameworks, &ProjectType::Leptos),
            _ => {
                let names = ["leptos", "leptos_axum", "leptos_actix"];
                proof {
                    assert(texts(names@) =~= seq!["leptos"@, "leptos_axum"@, "leptos_actix"@]);
                }
                any_dependency_named(context, &names, None)
            },
        }
    }

    fn commands(&self, context: &ProjectContext) -> (r: RazResult<Vec<Command>>)
        ensures
            r is Ok ==> summaries(r->Ok_0@) == self.provided(*context),
            r is Ok,
    {
        let mut commands = self.development_commands(context);
        append_commands(&mut commands, self.build_commands(context));
        append_commands(&mut commands, self.test_commands(context));
        append_commands(&mut commands, self.context_aware_commands(context));
        append_commands(&mut commands, self.deployment_commands(context));
        Ok(commands)
    }
}

pub open spec fn leptos_watch_cmd(cwd: Seq<char>) -> CommandSummary {
    CommandSummary {
        id: "leptos-watch"@,
        label: "Leptos Dev Watch"@,
        description: Some("Development server with auto-reload (recommended for development)"@),
        command: "cargo-leptos"@,
        args: seq!["watch"@],
        env: seq![],
        cwd: Some(cwd),
        category: CategoryView::Run,
        priority: 95,
        conditions: seq![],
        tags: seq!["dev"@, "watch"@, "leptos"@],
        requires_input: false,
        estimated_duration: Some(5),
    }
}
pub open spec fn leptos_watch_hot_cmd(cwd: Seq<char>) -> CommandSummary {
    CommandSummary {
        id: "leptos-watch-hot"@,
        label: "Leptos Hot Reload"@,
        description: Some("Development with hot-reload (requires nightly)"@),
        command: "cargo-leptos"@,
        args: seq!["watch"@, "--hot-reload"@],
        env: seq![],
        cwd: Some(cwd),
        category: CategoryView::Run,
        priority: 92,
        conditions: seq![],
        tags: seq!["dev"@, "hot-reload"@, "leptos"@],
        requires_input: false,
        estimated_duration: Some(5),
    }
}
pub open spec fn leptos_serve_cmd(cwd: Seq<char>) -> CommandSummary {
    CommandSummary {
        id: "leptos-serve"@,
        label: "Leptos Serve"@,
        description: Some("Serve in hydrate mode (production-like, no auto-reload)"@),
        command: "cargo-leptos"@,
        args: seq!["serve"@],
        env: seq![],
        cwd: Some(cwd),
        category: CategoryView::Run,
        priority: 85,
        conditions: seq![],
        tags: seq!["serve"@, "leptos"@],
        requires_input: false,
        estimated_duration: Some(5),
    }
}
pub open spec fn leptos_serve_release_cmd(cwd: Seq<char>) -> CommandSummary {
    CommandSummary {
        id: "leptos-serve-release"@,
        label: "Leptos Serve Release"@,
        description: Some("Serve optimized release build"@),
        command: "cargo-leptos"@,
        args: seq!["serve"@, "--release"@],
        env: seq![],
        cwd: Some(cwd),
        category: CategoryView::Run,
        priority: 80,
        conditions: seq![],
        tags: seq!["serve"@, "release"@, "leptos"@],
        requires_input: false,
        estimated_duration: Some(8),
    }
}
pub open spec fn leptos_build_cmd(cwd: Seq<char>) -> CommandSummary {
    CommandSummary {
        id: "leptos-build"@,
        label: "Leptos Build"@,
        description: Some("Build Leptos app (both server SSR and client WASM)"@),
        command: "cargo-leptos"@,
        args: seq!["build"@],
        env: seq![],
        cwd: Some(cwd),
        category: CategoryView::Build,
        priority: 85,
        conditions: seq![],
        tags: seq!["build"@, "production"@, "leptos"@],
        requires_input: false,
        estimated_duration: Some(30),
    }
}
pub open spec fn leptos_build_release_cmd(cwd: Seq<char>) -> CommandSummary {
    CommandSummary {
        id: "leptos-build-release"@,
        label: "Leptos Release Build"@,
        description: Some("Build optimized release version"@),
        command: "cargo-leptos"@,
        args: seq!["build"@, "--release"@],
        env: seq![],
        cwd: Some(cwd),
        category: CategoryView::Build,
        priority: 82,
        conditions: seq![],
        tags: seq!["build"@, "release"@, "leptos"@],
        requires_input: false,
        estimated_duration: Some(60),
    }
}
pub open spec fn leptos_build_precompress_cmd(cwd: Seq<char>) -> CommandSummary {
    CommandSummary {
        id: "leptos-build-precompress"@,
        label: "Leptos Build Compressed"@,
        description: Some("Build release with precompressed assets (gzip & brotli)"@),
        command: "cargo-leptos"@,
        args: seq!["build"@, "--release"@, "--precompress"@],
        env: seq![],
        cwd: Some(cwd),
        category: CategoryView::Build,
        priority: 80,
        conditions: seq![],
        tags: seq!["build"@, "release"@, "production"@, "leptos"@],
        requires_input: false,
        estimated_duration: Some(70),
    }
}
pub open spec fn leptos_test_cmd(cwd: Seq<char>) -> CommandSummary {
    CommandSummary {
        id: "leptos-test"@,
        label: "Leptos Test"@,
        description: Some("Run tests for app, client and server"@),
        command: "cargo-leptos"@,
        args: seq!["test"@],
        env: seq![],
        cwd: Some(cwd),
        category: CategoryView::Test,
        priority: 75,
        conditions: seq![],
        tags: seq!["test"@, "leptos"@],
        requires_input: false,
        estimated_duration: Some(15),
    }
}
pub open spec fn leptos_end_to_end_cmd(cwd: Seq<char>) -> CommandSummary {
    CommandSummary {
        id: "leptos-end-to-end"@,
        label: "Leptos E2E Tests"@,
        description: Some("Start server and run end-to-end tests"@),
        command: "cargo-leptos"@,
        args: seq!["end-to-end"@],
        env: seq![],
        cwd: Some(cwd),
        category: CategoryView::Test,
        priority: 72,
        conditions: seq![],
        tags: seq!["test"@, "e2e"@, "leptos"@],
        requires_input: false,
        estimated_duration: Some(90),
    }
}
pub open spec fn leptos_test_workspace_cmd(cwd: Seq<char>) -> CommandSummary {
    CommandSummary {
        id: "cargo-test-workspace"@,
        label: "Workspace Tests"@,
        description: Some("Run all tests in the workspace"@),
        command: "cargo"@,
        args: seq!["test"@, "--workspace"@],
        env: seq![],
        cwd: Some(cwd),
        category: CategoryView::Test,
        priority: 70,
        conditions: seq![],
        tags: seq!["test"@, "workspace"@, "leptos"@],
        requires_input: false,
        estimated_duration: Some(30),
    }
}
pub open spec fn leptos_test_current_cmd(name: Seq<char>, cwd: Seq<char>) -> CommandSummary {
    CommandSummary {
        id: "cargo-test-current"@,
        label: "Test Current Function"@,
        description: Some("Run test function: "@ + name),
        command: "cargo"@,
        args: seq!["test"@, name, "--"@, "--nocapture"@],
        env: seq![],
        cwd: Some(cwd),
        category: CategoryView::Test,
        priority: 90,
        conditions: seq![],
        tags: seq!["test"@, "current"@, "leptos"@],
        requires_input: false,
        estimated_duration: Some(5),
    }
}
pub open spec fn leptos_dev_component_cmd(name: Seq<char>, cwd: Seq<char>) -> CommandSummary {
    CommandSummary {
        id: "leptos-dev-component"@,
        label: "Dev with Component Focus"@,
        description: Some("Develop focusing on component: "@ + name),
        command: "cargo-leptos"@,
        args: seq!["serve"@],
        env: seq![],
        cwd: Some(cwd),
        category: CategoryView::Run,
        priority: 85,
        conditions: seq![],
        tags: seq!["component"@, "dev"@, "leptos"@],
        requires_input: false,
        estimated_duration: Some(10),
    }
}
pub open spec fn leptos_check_struct_cmd(name: Seq<char>, cwd: Seq<char>) -> CommandSummary {
    CommandSummary {
        id: "leptos-check-struct"@,
        label: "Check Struct Usage"@,
        description: Some("Check usage of struct: "@ + name),
        command: "cargo"@,
        args: seq!["check"@, "--message-format=json"@],
        env: seq![],
        cwd: Some(cwd),
        category: CategoryView::Lint,
        priority: 70,
        conditions: seq![],
        tags: seq!["check"@, "struct"@, "leptos"@],
        requires_input: false,
        estimated_duration: Some(8),
    }
}
pub open spec fn leptos_build_check_cmd(cwd: Seq<char>) -> CommandSummary {
    CommandSummary {
        id: "leptos-build-check"@,
        label: "Build & Check"@,
        description: Some("Build and check component compilation"@),
        command: "cargo-leptos"@,
        args: seq!["build"@],
        env: seq![],
        cwd: Some(cwd),
        category: CategoryView::Build,
        priority: 80,
        conditions: seq![],
        tags: seq!["components"@, "build"@, "leptos"@],
        requires_input: false,
        estimated_duration: Some(20),
    }
}
pub open spec fn leptos_new_cmd(cwd: Seq<char>) -> CommandSummary {
    CommandSummary {
        id: "leptos-new"@,
        label: "New Leptos Project"@,
        description: Some("Create a new Leptos project with wizard"@),
        command: "cargo-leptos"@,
        args: seq!["new"@],
        env: seq![],
        cwd: Some(cwd),
        category: CategoryView::Generate,
        priority: 70,
        conditions: seq![],
        tags: seq!["new"@, "generate"@, "leptos"@],
        requires_input: false,
        estimated_duration: Some(30),
    }
}
pub open spec fn leptos_clean_cmd(cwd: Seq<char>) -> CommandSummary {
    CommandSummary {
        id: "leptos-clean"@,
        label: "Clean Leptos Build"@,
        description: Some("Clean build artifacts and temp files"@),
        command: "cargo"@,
        args: seq!["clean"@],
        env: seq![],
        cwd: Some(cwd),
        category: CategoryView::Clean,
        priority: 60,
        conditions: seq![],
        tags: seq!["clean"@, "leptos"@],
        requires_input: false,
        estimated_duration: Some(5),
    }
}

fn leptos_watch(cwd: &str) -> (r: Command)
    ensures
        summary(r@) == leptos_watch_cmd(cwd@),
{
    let c = CommandBuilder::new("leptos-watch", "cargo-leptos")
        .label("Leptos Dev Watch")
        .description("Development server with auto-reload (recommended for development)")
        .arg("watch")
        .category(CommandCategory::Run)
        .priority(95)
        .tag("dev")
        .tag("watch")
        .tag("leptos")
        .cwd(cwd)
        .estimated_duration(5)
        .build();
    
    
    assert(views(c@.args) =~= seq!["watch"@]);
    assert(views(c@.tags) =~= seq!["dev"@, "watch"@, "leptos"@]);
    assert(summary(c@).env =~= seq![]);
    c
}
fn leptos_watch_hot(cwd: &str) -> (r: Command)
    ensures
        summary(r@) == leptos_watch_hot_cmd(cwd@),
{
    let c = CommandBuilder::new("leptos-watch-hot", "cargo-leptos")
        .label("Leptos Hot Reload")
        .description("Development with hot-reload (requires nightly)")
        .arg("watch")
        .arg("--hot-reload")
        .category(CommandCategory::Run)
        .priority(92)
        .tag("dev")
        .tag("hot-reload")
        .tag("leptos")
        .cwd(cwd)
        .estimated_duration(5)
        .build();
    
    
    assert(views(c@.args) =~= seq!["watch"@, "--hot-reload"@]);
    assert(views(c@.tags) =~= seq!["dev"@, "hot-reload"@, "leptos"@]);
    assert(summary(c@).env =~= seq![]);
    c
}
fn leptos_serve(cwd: &str) -> (r: Command)
    ensures
        summary(r@) == leptos_serve_cmd(cwd@),
{
    let c = CommandBuilder::new("leptos-serve", "cargo-leptos")
        .label("Leptos Serve")
        .description("Serve in hydrate mode (production-like, no auto-reload)")
        .arg("serve")
        .category(CommandCategory::Run)
        .priority(85)
        .tag("serve")
        .tag("leptos")
        .cwd(cwd)
        .estimated_duration(5)
        .build();
    
    
    assert(views(c@.args) =~= seq!["serve"@]);
    assert(views(c@.tags) =~= seq!["serve"@, "leptos"@]);
    assert(summary(c@).env =~= seq![]);
    c
}
fn leptos_serve_release(cwd: &str) -> (r: Command)
    ensures
        summary(r@) == leptos_serve_release_cmd(cwd@),
{
    let c = CommandBuilder::new("leptos-serve-release", "cargo-leptos")
        .label("Leptos Serve Release")
        .description("Serve optimized release build")
        .arg("serve")
        .arg("--release")
        .category(CommandCategory::Run)
        .priority(80)
        .tag("serve")
        .tag("release")
        .tag("leptos")
        .cwd(cwd)
        .estimated_duration(8)
        .build();
    
    
    assert(views(c@.args) =~= seq!["serve"@, "--release"@]);
    assert(views(c@.tags) =~= seq!["serve"@, "release"@, "leptos"@]);
    assert(summary(c@).env =~= seq![]);
    c
}
fn leptos_build(cwd: &str) -> (r: Command)
    ensures
        summary(r@) == leptos_build_cmd(cwd@),
{
    let c = CommandBuilder::new("leptos-build", "cargo-leptos")
        .label("Leptos Build")
        .description("Build Leptos app (both server SSR and client WASM)")
        .arg("build")
        .category(CommandCategory::Build)
        .priority(85)
        .tag("build")
        .tag("production")
        .tag("leptos")
        .cwd(cwd)
        .estimated_duration(30)
        .build();
    
    
    assert(views(c@.args) =~= seq!["build"@]);
    assert(views(c@.tags) =~= seq!["build"@, "production"@, "leptos"@]);
    assert(summary(c@).env =~= seq![]);
    c
}
fn leptos_build_release(cwd: &str) -> (r: Command)
    ensures
        summary(r@) == leptos_build_release_cmd(cwd@),
{
    let c = CommandBuilder::new("leptos-build-release", "cargo-leptos")
        .label("Leptos Release Build")
        .description("Build optimized release version")
        .arg("build")
        .arg("--release")
        .category(CommandCategory::Build)
        .priority(82)
        .tag("build")
        .tag("release")
        .tag("leptos")
        .cwd(cwd)
        .estimated_duration(60)
        .build();
    
    
    assert(views(c@.args) =~= seq!["build"@, "--release"@]);
    assert(views(c@.tags) =~= seq!["build"@, "release"@, "leptos"@]);
    assert(summary(c@).env =~= seq![]);
    c
}
fn leptos_build_precompress(cwd: &str) -> (r: Command)
    ensures
        summary(r@) == leptos_build_precompress_cmd(cwd@),
{
    let c = CommandBuilder::new("leptos-build-precompress", "cargo-leptos")
        .label("Leptos Build Compressed")
        .description("Build release with precompressed assets (gzip & brotli)")
        .arg("build")
        .arg("--release")
        .arg("--precompress")
        .category(CommandCategory::Build)
        .priority(80)
        .tag("build")
        .tag("release")
        .tag("production")
        .tag("leptos")
        .cwd(cwd)
        .estimated_duration(70)
        .build();
    
    
    assert(views(c@.args) =~= seq!["build"@, "--release"@, "--precompress"@]);
    assert(views(c@.tags) =~= seq!["build"@, "release"@, "production"@, "leptos"@]);
    assert(summary(c@).env =~= seq![]);
    c
}
fn leptos_test(cwd: &str) -> (r: Command)
    ensures
        summary(r@) == leptos_test_cmd(cwd@),
{
    let c = CommandBuilder::new("leptos-test", "cargo-leptos")
        .label("Leptos Test")
        .description("Run tests for app, client and server")
        .arg("test")
        .category(CommandCategory::Test)
        .priority(75)
        .tag("test")
        .tag("leptos")
        .cwd(cwd)
        .estimated_duration(15)
        .build();
    
    
    assert(views(c@.args) =~= seq!["test"@]);
    assert(views(c@.tags) =~= seq!["test"@, "leptos"@]);
    assert(summary(c@).env =~= seq![]);
    c
}
fn leptos_end_to_end(cwd: &str) -> (r: Command)
    ensures
        summary(r@) == leptos_end_to_end_cmd(cwd@),
{
    let c = CommandBuilder::new("leptos-end-to-end", "cargo-leptos")
        .label("Leptos E2E Tests")
        .description("Start server and run end-to-end tests")
        .arg("end-to-end")
        .category(CommandCategory::Test)
        .priority(72)
        .tag("test")
        .tag("e2e")
        .tag("leptos")
        .cwd(cwd)
        .estimated_duration(90)
        .build();
    
    
    assert(views(c@.args) =~= seq!["end-to-end"@]);
    assert(views(c@.tags) =~= seq!["test"@, "e2e"@, "leptos"@]);
    assert(summary(c@).env =~= seq![]);
    c
}
fn leptos_test_workspace(cwd: &str) -> (r: Command)
    ensures
        summary(r@) == leptos_test_workspace_cmd(cwd@),
{
    let c = CommandBuilder::new("cargo-test-workspace", "cargo")
        .label("Workspace Tests")
        .description("Run all tests in the workspace")
        .arg("test")
        .arg("--workspace")
        .category(CommandCategory::Test)
        .priority(70)
        .tag("test")
        .tag("workspace")
        .tag("leptos")
        .cwd(cwd)
        .estimated_duration(30)
        .build();
    
    
    assert(views(c@.args) =~= seq!["test"@, "--workspace"@]);
    assert(views(c@.tags) =~= seq!["test"@, "workspace"@, "leptos"@]);
    assert(summary(c@).env =~= seq![]);
    c
}
fn leptos_test_current(name: &str, cwd: &str) -> (r: Command)
    ensures
        summary(r@) == leptos_test_current_cmd(name@, cwd@),
{
    let c = CommandBuilder::new("cargo-test-current", "cargo")
        .label("Test Current Function")
        .description(fmt_text("Run test function: ", name, "").as_str())
        .arg("test")
        .arg(name)
        .arg("--")
        .arg("--nocapture")
        .category(CommandCategory::Test)
        .priority(90)
        .tag("test")
        .tag("current")
        .tag("leptos")
        .cwd(cwd)
        .estimated_duration(5)
        .build();
    proof { reveal_strlit(""); }
    assert(c@.description->0@ =~= "Run test function: "@ + name@);
    assert(views(c@.args) =~= seq!["test"@, name@, "--"@, "--nocapture"@]);
    assert(views(c@.tags) =~= seq!["test"@, "current"@, "leptos"@]);
    assert(summary(c@).env =~= seq![]);
    c
}
fn leptos_dev_component(name: &str, cwd: &str) -> (r: Command)
    ensures
        summary(r@) == leptos_dev_component_cmd(name@, cwd@),
{
    let c = CommandBuilder::new("leptos-dev-component", "cargo-leptos")
        .label("Dev with Component Focus")
        .description(fmt_text("Develop focusing on component: ", name, "").as_str())
        .arg("serve")
        .category(CommandCategory::Run)
        .priority(85)
        .tag("component")
        .tag("dev")
        .tag("leptos")
        .cwd(cwd)
        .estimated_duration(10)
        .build();
    proof { reveal_strlit(""); }
    assert(c@.description->0@ =~= "Develop focusing on component: "@ + name@);
    assert(views(c@.args) =~= seq!["serve"@]);
    assert(views(c@.tags) =~= seq!["component"@, "dev"@, "leptos"@]);
    assert(summary(c@).env =~= seq![]);
    c
}
fn leptos_check_struct(name: &str, cwd: &str) -> (r: Command)
    ensures
        summary(r@) == leptos_check_struct_cmd(name@, cwd@),
{
    let c = CommandBuilder::new("leptos-check-struct", "cargo")
        .label("Check Struct Usage")
        .description(fmt_text("Check usage of struct: ", name, "").as_str())
        .arg("check")
        .arg("--message-format=json")
        .category(CommandCategory::Lint)
        .priority(70)
        .tag("check")
        .tag("struct")
        .tag("leptos")
        .cwd(cwd)
        .estimated_duration(8)
        .build();
    proof { reveal_strlit(""); }
    assert(c@.description->0@ =~= "Check usage of struct: "@ + name@);
    assert(views(c@.args) =~= seq!["check"@, "--message-format=json"@]);
    assert(views(c@.tags) =~= seq!["check"@, "struct"@, "leptos"@]);
    assert(summary(c@).env =~= seq![]);
    c
}
fn leptos_build_check(cwd: &str) -> (r: Command)
    ensures
        summary(r@) == leptos_build_check_cmd(cwd@),
{
    let c = CommandBuilder::new("leptos-build-check", "cargo-leptos")
        .label("Build & Check")
        .description("Build and check component compilation")
        .arg("build")
        .category(CommandCategory::Build)
        .priority(80)
        .tag("components")
        .tag("build")
        .tag("leptos")
        .cwd(cwd)
        .estimated_duration(20)
        .build();
    
    
    assert(views(c@.args) =~= seq!["build"@]);
    assert(views(c@.tags) =~= seq!["components"@, "build"@, "leptos"@]);
    assert(summary(c@).env =~= seq![]);
    c
}
fn leptos_new(cwd: &str) -> (r: Command)
    ensures
        summary(r@) == leptos_new_cmd(cwd@),
{
    let c = CommandBuilder::new("leptos-new", "cargo-leptos")
        .label("New Leptos Project")
        .description("Create a new Leptos project with wizard")
        .arg("new")
        .category(CommandCategory::Generate)
        .priority(70)
        .tag("new")
        .tag("generate")
        .tag("leptos")
        .cwd(cwd)
        .estimated_duration(30)
        .build();
    
    
    assert(views(c@.args) =~= seq!["new"@]);
    assert(views(c@.tags) =~= seq!["new"@, "generate"@, "leptos"@]);
    assert(summary(c@).env =~= seq![]);
    c
}
fn leptos_clean(cwd: &str) -> (r: Command)
    ensures
        summary(r@) == leptos_clean_cmd(cwd@),
{
    let c = CommandBuilder::new("leptos-clean", "cargo")
        .label("Clean Leptos Build")
        .description("Clean build artifacts and temp files")
        .arg("clean")
        .category(CommandCategory::Clean)
        .priority(60)
        .tag("clean")
        .tag("leptos")
        .cwd(cwd)
        .estimated_duration(5)
        .build();
    
    
    assert(views(c@.args) =~= seq!["clean"@]);
    assert(views(c@.tags) =~= seq!["clean"@, "leptos"@]);
    assert(summary(c@).env =~= seq![]);
    c
}

/// Every command the Leptos provider proposes carries the `leptos` tag.
pub proof fn lemma_leptos_commands_tagged(context: ProjectContext)
    ensures
        all_tagged(leptos_provider_commands(context), "leptos"@),
{
    broadcast use vstd::seq_lib::group_seq_properties;
    let s = leptos_provider_commands(context);
    assert forall|i: int| 0 <= i < s.len() implies (#[trigger] s[i]).tags.contains("leptos"@) by {
    }
}

} // verus!
