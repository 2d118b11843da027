//! Commands for Yew web projects: serve and watch, builds, tests,
//! commands for the component under the cursor, and utilities.

use vstd::prelude::*;
use crate::commands::{
    Command, CommandBuilder, CommandCategory, CommandSummary, CategoryView, summary, summaries,
    push_command, append_commands, strings_contain,
};
use crate::context::{ProjectContext, ProjectType, Symbol, SymbolKind};
use crate::error::RazResult;
use crate::providers::{
    CommandProvider, all_tagged, types_contain, project_types_contain, dependency_named_in, any_dependency_named,
    texts,
};
use crate::text::{
    fmt_text, has_prefix, has_sub, starts_uppercase, str_contains, str_starts_uppercase,
    str_starts_with, views,
};

verus! {

/// Whether the project is a Yew project: by its type, or by one of its
/// dependencies.
pub open spec fn yew_handles(context: ProjectContext) -> bool {
    match context.project_type {
        ProjectType::Yew => true,
        ProjectType::Mixed(v) => types_contain(v@, ProjectType::Yew),
        _ => dependency_named_in(context, seq!["yew"@, "yew-router"@, "yew-hooks"@], None),
    }
}

pub open spec fn yew_development_commands(cwd: Seq<char>) -> Seq<CommandSummary> {
    seq![yew_serve_cmd(cwd), yew_serve_open_cmd(cwd), yew_serve_port_cmd(cwd), yew_watch_cmd(cwd)]
}

pub open spec fn yew_build_commands(cwd: Seq<char>) -> Seq<CommandSummary> {
    seq![yew_build_cmd(cwd), yew_build_release_cmd(cwd), yew_build_public_url_cmd(cwd), yew_build_dist_cmd(cwd)]
}

pub open spec fn yew_test_commands(cwd: Seq<char>) -> Seq<CommandSummary> {
    seq![yew_test_cmd(cwd), yew_test_wasm_cmd(cwd), yew_test_workspace_cmd(cwd)]
}

/// The commands for the symbol under the cursor: a test run for test
/// functions, a component command for functions named in PascalCase, and
/// a check for structs.
pub open spec fn yew_symbol_commands(s: Symbol, cwd: Seq<char>) -> Seq<CommandSummary> {
    let name = s.name@;
    match s.kind {
        SymbolKind::Function => (if has_prefix(name, "test_"@) || views(s.modifiers@).contains(
            "test"@,
        ) {
            seq![yew_test_current_cmd(name, cwd)]
        } else {
            seq![]
        }) + (if starts_uppercase(name) {
            seq![yew_dev_component_cmd(name, cwd)]
        } else {
            seq![]
        }),
        SymbolKind::Struct => seq![yew_check_struct_cmd(name, cwd)],
        _ => seq![],
    }
}

/// The commands for the current file: those of the symbol under the
/// cursor, then a check for component files.
pub open spec fn yew_context_commands(context: ProjectContext) -> Seq<CommandSummary> {
    let cwd = context.workspace_root@;
    match context.current_file {
        None => seq![],
        Some(fc) => (match fc.cursor_symbol {
            Some(s) => yew_symbol_commands(s, cwd),
            None => seq![],
        }) + (if has_sub(fc.path@, "component"@) {
            seq![yew_build_check_cmd(cwd)]
        } else {
            seq![]
        }),
    }
}

pub open spec fn yew_deployment_commands(cwd: Seq<char>) -> Seq<CommandSummary> {
    seq![yew_clean_cmd(cwd), yew_cargo_clean_cmd(cwd), yew_config_cmd(cwd)]
}

/// The commands of the Yew provider, in order.
pub open spec fn yew_provider_commands(context: ProjectContext) -> Seq<CommandSummary> {
    let cwd = context.workspace_root@;
    yew_development_commands(cwd) + yew_build_commands(cwd) + yew_test_commands(cwd)
        + yew_context_commands(context) + yew_deployment_commands(cwd)
}

/// Provider for Yew web framework commands.
pub struct YewProvider {
    priority: u8,
}

impl YewProvider {
    pub closed spec fn spec_yew_priority(&self) -> u8 {
        self.priority
    }

    pub fn new() -> (r: Self)
        ensures
            r.spec_yew_priority() == 90,
    {
        YewProvider { priority: 90 }
    }

    /// Development server and watch commands.
    fn development_commands(&self, context: &ProjectContext) -> (r: Vec<Command>)
        ensures
            summaries(r@) == yew_development_commands(context.workspace_root@),
    {
        let cwd = context.workspace_root.as_str();
        let mut v: Vec<Command> = Vec::new();
        push_command(&mut v, yew_serve(cwd));
        push_command(&mut v, yew_serve_open(cwd));
        push_command(&mut v, yew_serve_port(cwd));
        push_command(&mut v, yew_watch(cwd));
        assert(summaries(v@) =~= yew_development_commands(cwd@));
        v
    }

    /// Build commands.
    fn build_commands(&self, context: &ProjectContext) -> (r: Vec<Command>)
        ensures
            summaries(r@) == yew_build_commands(context.workspace_root@),
    {
        let cwd = context.workspace_root.as_str();
        let mut v: Vec<Command> = Vec::new();
        push_command(&mut v, yew_build(cwd));
        push_command(&mut v, yew_build_release(cwd));
        push_command(&mut v, yew_build_public_url(cwd));
        push_command(&mut v, yew_build_dist(cwd));
        assert(summaries(v@) =~= yew_build_commands(cwd@));
        v
    }

    /// Testing commands.
    fn test_commands(&self, context: &ProjectContext) -> (r: Vec<Command>)
        ensures
            summaries(r@) == yew_test_commands(context.workspace_root@),
    {
        let cwd = context.workspace_root.as_str();
        let mut v: Vec<Command> = Vec::new();
        push_command(&mut v, yew_test(cwd));
        push_command(&mut v, yew_test_wasm(cwd));
        push_command(&mut v, yew_test_workspace(cwd));
        assert(summaries(v@) =~= yew_test_commands(cwd@));
        v
    }

    fn symbol_commands(&self, symbol: &Symbol, cwd: &str) -> (r: Vec<Command>)
        ensures
            summaries(r@) == yew_symbol_commands(*symbol, cwd@),
    {
        let mut v: Vec<Command> = Vec::new();
        let name = symbol.name.as_str();
        match symbol.kind {
            SymbolKind::Function => {
                if str_starts_with(name, "test_") || strings_contain(&symbol.modifiers, "test") {
                    push_command(&mut v, yew_test_current(name, cwd));
                }
                if str_starts_uppercase(name) {
                    push_command(&mut v, yew_dev_component(name, cwd));
                }
                assert(summaries(v@) =~= yew_symbol_commands(*symbol, cwd@));
            },
            SymbolKind::Struct => {
                push_command(&mut v, yew_check_struct(name, cwd));
                assert(summaries(v@) =~= yew_symbol_commands(*symbol, cwd@));
            },
            _ => {
                assert(summaries(v@) =~= yew_symbol_commands(*symbol, cwd@));
            },
        }
        v
    }

    /// Context-aware commands based on cursor position and file path.
    fn context_aware_commands(&self, context: &ProjectContext) -> (r: Vec<Command>)
        ensures
            summaries(r@) == yew_context_commands(*context),
    {
        let cwd = context.workspace_root.as_str();
        let mut v: Vec<Command> = Vec::new();
        if let Some(file_context) = &context.current_file {
            if let Some(symbol) = &file_context.cursor_symbol {
                v = self.symbol_commands(symbol, cwd);
            }
            if str_contains(file_context.path.as_str(), "component") {
                push_command(&mut v, yew_build_check(cwd));
            }
            assert(summaries(v@) =~= yew_context_commands(*context));
        } else {
            assert(summaries(v@) =~= yew_context_commands(*context));
        }
        v
    }

    /// Deployment and utility commands.
    fn deployment_commands(&self, context: &ProjectContext) -> (r: Vec<Command>)
        ensures
            summaries(r@) == yew_deployment_commands(context.workspace_root@),
    {
        let cwd = context.workspace_root.as_str();
        let mut v: Vec<Command> = Vec::new();
        push_command(&mut v, yew_clean(cwd));
        push_command(&mut v, yew_cargo_clean(cwd));
        push_command(&mut v, yew_config(cwd));
        assert(summaries(v@) =~= yew_deployment_commands(cwd@));
        v
    }
}

impl YewProvider {
    /// The provider's name.
    pub open spec fn spec_name(&self) -> Seq<char> {
        "yew"@
    }

    /// The provider's priority (higher is more important).
    pub open spec fn spec_priority(&self) -> u8 {
        self.spec_yew_priority()
    }

    /// Whether the provider applies to a project.
    pub open spec fn handles(&self, context: ProjectContext) -> bool {
        yew_handles(context)
    }

    /// The commands the provider proposes for a project, in order.
    pub open spec fn provided(&self, context: ProjectContext) -> Seq<CommandSummary> {
        yew_provider_commands(context)
    }
}

impl CommandProvider for YewProvider {
    fn name(&self) -> (r: &str)
        ensures
            r@ == self.spec_name(),
    {
        "yew"
    }

    fn priority(&self) -> (r: u8)
        ensures
            r == self.spec_priority(),
    {
        self.priority
    }

    fn can_handle(&self, context: &ProjectContext) -> (r: bool)
        ensures
            r == self.handles(*context),
    {
        match &context.project_type {
            ProjectType::Yew => true,
            ProjectType::Mixed(frameworks) => project_types_contain(frameworks, &ProjectType::Yew),
            _ => {
                let names = ["yew", "yew-router", "yew-hooks"];
                proof {
                    assert(texts(names@) =~= seq!["yew"@, "yew-router"@, "yew-hooks"@]);
                }
                any_dependency_named(context, &names, None)
            },
        }
    }

    fn commands(&self, context: &ProjectContext) -> (r: RazResult<Vec<Command>>)
        ensures
            r is Ok ==> summaries(r->Ok_0@) == self.provided(*context),
            r is Ok,
    {
        let mut commands = self.development_commands(context);
        append_commands(&mut commands, self.build_commands(context));
        append_commands(&mut commands, self.test_commands(context));
        append_commands(&mut commands, self.context_aware_commands(context));
        append_commands(&mut commands, self.deployment_commands(context));
        Ok(commands)
    }
}

pub open spec fn yew_serve_cmd(cwd: Seq<char>) -> CommandSummary {
    CommandSummary {
        id: "yew-serve"@,
        label: "Yew Dev Server"@,
        description: Some("Development server with auto-reload (recommended for development)"@),
        command: "trunk"@,
        args: seq!["serve"@],
        env: seq![],
        cwd: Some(cwd),
        category: CategoryView::Run,
        priority: 95,
        conditions: seq![],
        tags: seq!["dev"@, "serve"@, "yew"@],
        requires_input: false,
        estimated_duration: Some(5),
    }
}
pub open spec fn yew_serve_open_cmd(cwd: Seq<char>) -> CommandSummary {
    CommandSummary {
        id: "yew-serve-open"@,
        label: "Yew Dev Server + Open"@,
        description: Some("Development server with auto-reload and open browser"@),
        command: "trunk"@,
        args: seq!["serve"@, "--open"@],
        env: seq![],
        cwd: Some(cwd),
        category: CategoryView::Run,
        priority: 92,
        conditions: seq![],
        tags: seq!["dev"@, "serve"@, "open"@, "yew"@],
        requires_input: false,
        estimated_duration: Some(5),
    }
}
pub open spec fn yew_serve_port_cmd(cwd: Seq<char>) -> CommandSummary {
    CommandSummary {
        id: "yew-serve-port"@,
        label: "Yew Dev Server (Port 8080)"@,
        description: Some("Development server on custom port 8080"@),
        command: "trunk"@,
        args: seq!["serve"@, "--port"@, "8080"@],
        env: seq![],
        cwd: Some(cwd),
        category: CategoryView::Run,
        priority: 85,
        conditions: seq![],
        tags: seq!["dev"@, "serve"@, "port"@, "yew"@],
        requires_input: false,
        estimated_duration: Some(5),
    }
}
pub open spec fn yew_watch_cmd(cwd: Seq<char>) -> CommandSummary {
    CommandSummary {
        id: "yew-watch"@,
        label: "Yew Watch Build"@,
        description: Some("Watch for changes and rebuild (no server)"@),
        command: "trunk"@,
        args: seq!["watch"@],
        env: seq![],
        cwd: Some(cwd),
        category: CategoryView::Build,
        priority: 80,
        conditions: seq![],
        tags: seq!["watch"@, "build"@, "yew"@],
        requires_input: false,
        estimated_duration: Some(5),
    }
}
pub open spec fn yew_build_cmd(cwd: Seq<char>) -> CommandSummary {
    CommandSummary {
        id: "yew-build"@,
        label: "Yew Build"@,
        description: Some("Build Yew app for development"@),
        command: "trunk"@,
        args: seq!["build"@],
        env: seq![],
        cwd: Some(cwd),
        category: CategoryView::Build,
        priority: 85,
        conditions: seq![],
        tags: seq!["build"@, "yew"@],
        requires_input: false,
        estimated_duration: Some(30),
    }
}
pub open spec fn yew_build_release_cmd(cwd: Seq<char>) -> CommandSummary {
    CommandSummary {
        id: "yew-build-release"@,
        label: "Yew Release Build"@,
        description: Some("Build optimized release version"@),
        command: "trunk"@,
        args: seq!["build"@, "--release"@],
        env: seq![],
        cwd: Some(cwd),
        category: CategoryView::Build,
        priority: 82,
        conditions: seq![],
        tags: seq!["build"@, "release"@, "yew"@],
        requires_input: false,
        estimated_duration: Some(60),
    }
}
pub open spec fn yew_build_public_url_cmd(cwd: Seq<char>) -> CommandSummary {
    CommandSummary {
        id: "yew-build-public-url"@,
        label: "Yew Build with Public URL"@,
        description: Some("Build with custom public URL for deployment"@),
        command: "trunk"@,
        args: seq!["build"@, "--release"@, "--public-url"@, "/app/"@],
        env: seq![],
        cwd: Some(cwd),
        category: CategoryView::Build,
        priority: 70,
        conditions: seq![],
        tags: seq!["build"@, "release"@, "deploy"@, "yew"@],
        requires_input: false,
        estimated_duration: Some(65),
    }
}
pub open spec fn yew_build_dist_cmd(cwd: Seq<char>) -> CommandSummary {
    CommandSummary {
        id: "yew-build-dist"@,
        label: "Yew Build to Custom Dist"@,
        description: Some("Build to custom dist directory"@),
        command: "trunk"@,
        args: seq!["build"@, "--release"@, "--dist"@, "build"@],
        env: seq![],
        cwd: Some(cwd),
        category: CategoryView::Build,
        priority: 65,
        conditions: seq![],
        tags: seq!["build"@, "release"@, "custom"@, "yew"@],
        requires_input: false,
        estimated_duration: Some(65),
    }
}
pub open spec fn yew_test_cmd(cwd: Seq<char>) -> CommandSummary {
    CommandSummary {
        id: "yew-test"@,
        label: "Yew Tests"@,
        description: Some("Run Rust tests for Yew components"@),
        command: "cargo"@,
        args: seq!["test"@],
        env: seq![],
        cwd: Some(cwd),
        category: CategoryView::Test,
        priority: 75,
        conditions: seq![],
        tags: seq!["test"@, "yew"@],
        requires_input: false,
        estimated_duration: Some(15),
    }
}
pub open spec fn yew_test_wasm_cmd(cwd: Seq<char>) -> CommandSummary {
    CommandSummary {
        id: "yew-test-wasm"@,
        label: "Yew WASM Tests"@,
        description: Some("Run tests in WASM environment"@),
        command: "wasm-pack"@,
        args: seq!["test"@, "--headless"@, "--chrome"@],
        env: seq![],
        cwd: Some(cwd),
        category: CategoryView::Test,
        priority: 72,
        conditions: seq![],
        tags: seq!["test"@, "wasm"@, "browser"@, "yew"@],
        requires_input: false,
        estimated_duration: Some(30),
    }
}
pub open spec fn yew_test_workspace_cmd(cwd: Seq<char>) -> CommandSummary {
    CommandSummary {
        id: "cargo-test-workspace"@,
        label: "Workspace Tests"@,
        description: Some("Run all tests in the workspace"@),
        command: "cargo"@,
        args: seq!["test"@, "--workspace"@],
        env: seq![],
        cwd: Some(cwd),
        category: CategoryView::Test,
        priority: 70,
        conditions: seq![],
        tags: seq!["test"@, "workspace"@, "yew"@],
        requires_input: false,
        estimated_duration: Some(30),
    }
}
pub open spec fn yew_test_current_cmd(name: Seq<char>, cwd: Seq<char>) -> CommandSummary {
    CommandSummary {
        id: "cargo-test-current"@,
        label: "Test Current Function"@,
        description: Some("Run test function: "@ + name),
        command: "cargo"@,
        args: seq!["test"@, name, "--"@, "--nocapture"@],
        env: seq![],
        cwd: Some(cwd),
        category: CategoryView::Test,
        priority: 90,
        conditions: seq![],
        tags: seq!["test"@, "current"@, "yew"@],
        requires_input: false,
        estimated_duration: Some(5),
    }
}
pub open spec fn yew_dev_component_cmd(name: Seq<char>, cwd: Seq<char>) -> CommandSummary {
    CommandSummary {
        id: "yew-dev-component"@,
        label: "Dev with Component Focus"@,
        description: Some("Develop focusing on component: "@ + name),
        command: "trunk"@,
        args: seq!["serve"@, "--open"@],
        env: seq![],
        cwd: Some(cwd),
        category: CategoryView::Run,
        priority: 88,
        conditions: seq![],
        tags: seq!["component"@, "dev"@, "yew"@],
        requires_input: false,
        estimated_duration: Some(8),
    }
}
pub open spec fn yew_check_struct_cmd(name: Seq<char>, cwd: Seq<char>) -> CommandSummary {
    CommandSummary {
        id: "yew-check-struct"@,
        label: "Check Struct Usage"@,
        description: Some("Check usage of struct: "@ + name),
        command: "cargo"@,
        args: seq!["check"@, "--message-format=json"@],
        env: seq![],
        cwd: Some(cwd),
        category: CategoryView::Lint,
        priority: 70,
        conditions: seq![],
        tags: seq!["check"@, "struct"@, "yew"@],
        requires_input: false,
        estimated_duration: Some(8),
    }
}
pub open spec fn yew_build_check_cmd(cwd: Seq<char>) -> CommandSummary {
    CommandSummary {
        id: "yew-build-check"@,
        label: "Build & Check"@,
        description: Some("Build and check component compilation"@),
        command: "trunk"@,
        args: seq!["build"@],
        env: seq![],
        cwd: Some(cwd),
        category: CategoryView::Build,
        priority: 80,
        conditions: seq![],
        tags: seq!["components"@, "build"@, "yew"@],
        requires_input: false,
        estimated_duration: Some(20),
    }
}
pub open spec fn yew_clean_cmd(cwd: Seq<char>) -> CommandSummary {
    CommandSummary {
        id: "yew-clean"@,
        label: "Clean Yew Build"@,
        description: Some("Clean trunk build artifacts"@),
        command: "trunk"@,
        args: seq!["clean"@],
        env: seq![],
        cwd: Some(cwd),
        category: CategoryView::Clean,
        priority: 60,
        conditions: seq![],
        tags: seq!["clean"@, "yew"@],
        requires_input: false,
        estimated_duration: Some(2),
    }
}
pub open spec fn yew_cargo_clean_cmd(cwd: Seq<char>) -> CommandSummary {
    CommandSummary {
        id: "cargo-clean"@,
        label: "Clean Cargo Build"@,
        description: Some("Clean cargo build artifacts"@),
        command: "cargo"@,
        args: seq!["clean"@],
        env: seq![],
        cwd: Some(cwd),
        category: CategoryView::Clean,
        priority: 55,
        conditions: seq![],
        tags: seq!["clean"@, "cargo"@, "yew"@],
        requires_input: false,
        estimated_duration: Some(5),
    }
}
pub open spec fn yew_config_cmd(cwd: Seq<char>) -> CommandSummary {
    CommandSummary {
        id: "yew-config"@,
        label: "Trunk Config Check"@,
        description: Some("Check Trunk.toml configuration"@),
        command: "trunk"@,
        args: seq!["config"@, "show"@],
        env: seq![],
        cwd: Some(cwd),
        category: CategoryView::Generate,
        priority: 50,
        conditions: seq![],
        tags: seq!["config"@, "trunk"@, "yew"@],
        requires_input: false,
        estimated_duration: Some(2),
    }
}

fn yew_serve(cwd: &str) -> (r: Command)
    ensures
        summary(r@) == yew_serve_cmd(cwd@),
{
    let c = CommandBuilder::new("yew-serve", "trunk")
        .label("Yew Dev Server")
        .description("Development server with auto-reload (recommended for development)")
        .arg("serve")
        .category(CommandCategory::Run)
        .priority(95)
        .tag("dev")
        .tag("serve")
        .tag("yew")
        .cwd(cwd)
        .estimated_duration(5)
        .build();
    
    
    assert(views(c@.args) =~= seq!["serve"@]);
    assert(views(c@.tags) =~= seq!["dev"@, "serve"@, "yew"@]);
    assert(summary(c@).env =~= seq![]);
    c
}
fn yew_serve_open(cwd: &str) -> (r: Command)
    ensures
        summary(r@) == yew_serve_open_cmd(cwd@),
{
    let c = CommandBuilder::new("yew-serve-open", "trunk")
        .label("Yew Dev Server + Open")
        .description("Development server with auto-reload and open browser")
        .arg("serve")
        .arg("--open")
        .category(CommandCategory::Run)
        .priority(92)
        .tag("dev")
        .tag("serve")
        .tag("open")
        .tag("yew")
        .cwd(cwd)
        .estimated_duration(5)
        .build();
    
    
    assert(views(c@.args) =~= seq!["serve"@, "--open"@]);
    assert(views(c@.tags) =~= seq!["dev"@, "serve"@, "open"@, "yew"@]);
    assert(summary(c@).env =~= seq![]);
    c
}
fn yew_serve_port(cwd: &str) -> (r: Command)
    ensures
        summary(r@) == yew_serve_port_cmd(cwd@),
{
    let c = CommandBuilder::new("yew-serve-port", "trunk")
        .label("Yew Dev Server (Port 8080)")
        .description("Development server on custom port 8080")
        .arg("serve")
        .arg("--port")
        .arg("8080")
        .category(CommandCategory::Run)
        .priority(85)
        .tag("dev")
        .tag("serve")
        .tag("port")
        .tag("yew")
        .cwd(cwd)
        .estimated_duration(5)
        .build();
    
    
    assert(views(c@.args) =~= seq!["serve"@, "--port"@, "8080"@]);
    assert(views(c@.tags) =~= seq!["dev"@, "serve"@, "port"@, "yew"@]);
    assert(summary(c@).env =~= seq![]);
    c
}
fn yew_watch(cwd: &str) -> (r: Command)
    ensures
        summary(r@) == yew_watch_cmd(cwd@),
{
    let c = CommandBuilder::new("yew-watch", "trunk")
        .label("Yew Watch Build")
        .description("Watch for changes and rebuild (no server)")
        .arg("watch")
        .category(CommandCategory::Build)
        .priority(80)
        .tag("watch")
        .tag("build")
        .tag("yew")
        .cwd(cwd)
        .estimated_duration(5)
        .build();
    
    
    assert(views(c@.args) =~= seq!["watch"@]);
    assert(views(c@.tags) =~= seq!["watch"@, "build"@, "yew"@]);
    assert(summary(c@).env =~= seq![]);
    c
}
fn yew_build(cwd: &str) -> (r: Command)
    ensures
        summary(r@) == yew_build_cmd(cwd@),
{
    let c = CommandBuilder::new("yew-build", "trunk")
        .label("Yew Build")
        .description("Build Yew app for development")
        .arg("build")
        .category(CommandCategory::Build)
        .priority(85)
        .tag("build")
        .tag("yew")
        .cwd(cwd)
        .estimated_duration(30)
        .build();
    
    
    assert(views(c@.args) =~= seq!["build"@]);
    assert(views(c@.tags) =~= seq!["build"@, "yew"@]);
    assert(summary(c@).env =~= seq![]);
    c
}
fn yew_build_release(cwd: &str) -> (r: Command)
    ensures
        summary(r@) == yew_build_release_cmd(cwd@),
{
    let c = CommandBuilder::new("yew-build-release", "trunk")
        .label("Yew Release Build")
        .description("Build optimized release version")
        .arg("build")
        .arg("--release")
        .category(CommandCategory::Build)
        .priority(82)
        .tag("build")
        .tag("release")
        .tag("yew")
        .cwd(cwd)
        .estimated_duration(60)
        .build();
    
    
    assert(views(c@.args) =~= seq!["build"@, "--release"@]);
    assert(views(c@.tags) =~= seq!["build"@, "release"@, "yew"@]);
    assert(summary(c@).env =~= seq![]);
    c
}
fn yew_build_public_url(cwd: &str) -> (r: Command)
    ensures
        summary(r@) == yew_build_public_url_cmd(cwd@),
{
    let c = CommandBuilder::new("yew-build-public-url", "trunk")
        .label("Yew Build with Public URL")
        .description("Build with custom public URL for deployment")
        .arg("build")
        .arg("--release")
        .arg("--public-url")
        .arg("/app/")
        .category(CommandCategory::Build)
        .priority(70)
        .tag("build")
        .tag("release")
        .tag("deploy")
        .tag("yew")
        .cwd(cwd)
        .estimated_duration(65)
        .build();
    
    
    assert(views(c@.args) =~= seq!["build"@, "--release"@, "--public-url"@, "/app/"@]);
    assert(views(c@.tags) =~= seq!["build"@, "release"@, "deploy"@, "yew"@]);
    assert(summary(c@).env =~= seq![]);
    c
}
fn yew_build_dist(cwd: &str) -> (r: Command)
    ensures
        summary(r@) == yew_build_dist_cmd(cwd@),
{
    let c = CommandBuilder::new("yew-build-dist", "trunk")
        .label("Yew Build to Custom Dist")
        .description("Build to custom dist directory")
        .arg("build")
        .arg("--release")
        .arg("--dist")
        .arg("build")
        .category(CommandCategory::Build)
        .priority(65)
        .tag("build")
        .tag("release")
        .tag("custom")
        .tag("yew")
        .cwd(cwd)
        .estimated_duration(65)
        .build();
    
    
    assert(views(c@.args) =~= seq!["build"@, "--release"@, "--dist"@, "build"@]);
    assert(views(c@.tags) =~= seq!["build"@, "release"@, "custom"@, "yew"@]);
    assert(summary(c@).env =~= seq![]);
    c
}
fn yew_test(cwd: &str) -> (r: Command)
    ensures
        summary(r@) == yew_test_cmd(cwd@),
{
    let c = CommandBuilder::new("yew-test", "cargo")
        .label("Yew Tests")
        .description("Run Rust tests for Yew components")
        .arg("test")
        .category(CommandCategory::Test)
        .priority(75)
        .tag("test")
        .tag("yew")
        .cwd(cwd)
        .estimated_duration(15)
        .build();
    
    
    assert(views(c@.args) =~= seq!["test"@]);
    assert(views(c@.tags) =~= seq!["test"@, "yew"@]);
    assert(summary(c@).env =~= seq![]);
    c
}
fn yew_test_wasm(cwd: &str) -> (r: Command)
    ensures
        summary(r@) == yew_test_wasm_cmd(cwd@),
{
    let c = CommandBuilder::new("yew-test-wasm", "wasm-pack")
        .label("Yew WASM Tests")
        .description("Run tests in WASM environment")
        .arg("test")
        .arg("--headless")
        .arg("--chrome")
        .category(CommandCategory::Test)
        .priority(72)
        .tag("test")
        .tag("wasm")
        .tag("browser")
        .tag("yew")
        .cwd(cwd)
        .estimated_duration(30)
        .build();
    
    
    assert(views(c@.args) =~= seq!["test"@, "--headless"@, "--chrome"@]);
    assert(views(c@.tags) =~= seq!["test"@, "wasm"@, "browser"@, "yew"@]);
    assert(summary(c@).env =~= seq![]);
    c
}
fn yew_test_workspace(cwd: &str) -> (r: Command)
    ensures
        summary(r@) == yew_test_workspace_cmd(cwd@),
{
    let c = CommandBuilder::new("cargo-test-workspace", "cargo")
        .label("Workspace Tests")
        .description("Run all tests in the workspace")
        .arg("test")
        .arg("--workspace")
        .category(CommandCategory::Test)
        .priority(70)
        .tag("test")
        .tag("workspace")
        .tag("yew")
        .cwd(cwd)
        .estimated_duration(30)
        .build();
    
    
    assert(views(c@.args) =~= seq!["test"@, "--workspace"@]);
    assert(views(c@.tags) =~= seq!["test"@, "workspace"@, "yew"@]);
    assert(summary(c@).env =~= seq![]);
    c
}
fn yew_test_current(name: &str, cwd: &str) -> (r: Command)
    ensures
        summary(r@) == yew_test_current_cmd(name@, cwd@),
{
    let c = CommandBuilder::new("cargo-test-current", "cargo")
        .label("Test Current Function")
        .description(fmt_text("Run test function: ", name, "").as_str())
        .arg("test")
        .arg(name)
        .arg("--")
        .arg("--nocapture")
        .category(CommandCategory::Test)
        .priority(90)
        .tag("test")
        .tag("current")
        .tag("yew")
        .cwd(cwd)
        .estimated_duration(5)
        .build();
    proof { reveal_strlit(""); }
    assert(c@.description->0@ =~= "Run test function: "@ + name@);
    assert(views(c@.args) =~= seq!["test"@, name@, "--"@, "--nocapture"@]);
    assert(views(c@.tags) =~= seq!["test"@, "current"@, "yew"@]);
    assert(summary(c@).env =~= seq![]);
    c
}
fn yew_dev_component(name: &str, cwd: &str) -> (r: Command)
    ensures
        summary(r@) == yew_dev_component_cmd(name@, cwd@),
{
    let c = CommandBuilder::new("yew-dev-component", "trunk")
        .label("Dev with Component Focus")
        .description(fmt_text("Develop focusing on component: ", name, "").as_str())
        .arg("serve")
        .arg("--open")
        .category(CommandCategory::Run)
        .priority(88)
        .tag("component")
        .tag("dev")
        .tag("yew")
        .cwd(cwd)
        .estimated_duration(8)
        .build();
    proof { reveal_strlit(""); }
    assert(c@.description->0@ =~= "Develop focusing on component: "@ + name@);
    assert(views(c@.args) =~= seq!["serve"@, "--open"@]);
    assert(views(c@.tags) =~= seq!["component"@, "dev"@, "yew"@]);
    assert(summary(c@).env =~= seq![]);
    c
}
fn yew_check_struct(name: &str, cwd: &str) -> (r: Command)
    ensures
        summary(r@) == yew_check_struct_cmd(name@, cwd@),
{
    let c = CommandBuilder::new("yew-check-struct", "cargo")
        .label("Check Struct Usage")
        .description(fmt_text("Check usage of struct: ", name, "").as_str())
        .arg("check")
        .arg("--message-format=json")
        .category(CommandCategory::Lint)
        .priority(70)
        .tag("check")
        .tag("struct")
        .tag("yew")
        .cwd(cwd)
        .estimated_duration(8)
        .build();
    proof { reveal_strlit(""); }
    assert(c@.description->0@ =~= "Check usage of struct: "@ + name@);
    assert(views(c@.args) =~= seq!["check"@, "--message-format=json"@]);
    assert(views(c@.tags) =~= seq!["check"@, "struct"@, "yew"@]);
    assert(summary(c@).env =~= seq![]);
    c
}
fn yew_build_check(cwd: &str) -> (r: Command)
    ensures
        summary(r@) == yew_build_check_cmd(cwd@),
{
    let c = CommandBuilder::new("yew-build-check", "trunk")
        .label("Build & Check")
        .description("Build and check component compilation")
        .arg("build")
        .category(CommandCategory::Build)
        .priority(80)
        .tag("components")
        .tag("build")
        .tag("yew")
        .cwd(cwd)
        .estimated_duration(20)
        .build();
    
    
    assert(views(c@.args) =~= seq!["build"@]);
    assert(views(c@.tags) =~= seq!["components"@, "build"@, "yew"@]);
    assert(summary(c@).env =~= seq![]);
    c
}
fn yew_clean(cwd: &str) -> (r: Command)
    ensures
        summary(r@) == yew_clean_cmd(cwd@),
{
    let c = CommandBuilder::new("yew-clean", "trunk")
        .label("Clean Yew Build")
        .description("Clean trunk build artifacts")
        .arg("clean")
        .category(CommandCategory::Clean)
        .priority(60)
        .tag("clean")
        .tag("yew")
        .cwd(cwd)
        .estimated_duration(2)
        .build();
    
    
    assert(views(c@.args) =~= seq!["clean"@]);
    assert(views(c@.tags) =~= seq!["clean"@, "yew"@]);
    assert(summary(c@).env =~= seq![]);
    c
}
fn yew_cargo_clean(cwd: &str) -> (r: Command)
    ensures
        summary(r@) == yew_cargo_clean_cmd(cwd@),
{
    let c = CommandBuilder::new("cargo-clean", "cargo")
        .label("Clean Cargo Build")
        .description("Clean cargo build artifacts")
        .arg("clean")
        .category(CommandCategory::Clean)
        .priority(55)
        .tag("clean")
        .tag("cargo")
        .tag("yew")
        .cwd(cwd)
        .estimated_duration(5)
        .build();
    
    
    assert(views(c@.args) =~= seq!["clean"@]);
    assert(views(c@.tags) =~= seq!["clean"@, "cargo"@, "yew"@]);
    assert(summary(c@).env =~= seq![]);
    c
}
fn yew_config(cwd: &str) -> (r: Command)
    ensures
        summary(r@) == yew_config_cmd(cwd@),
{
    let c = CommandBuilder::new("yew-config", "trunk")
        .label("Trunk Config Check")
        .description("Check Trunk.toml configuration")
        .arg("config")
        .arg("show")
        .category(CommandCategory::Generate)
        .priority(50)
        .tag("config")
        .tag("trunk")
        .tag("yew")
        .cwd(cwd)
        .estimated_duration(2)
        .build();
    
    
    assert(views(c@.args) =~= seq!["config"@, "show"@]);
    assert(views(c@.tags) =~= seq!["config"@, "trunk"@, "yew"@]);
    assert(summary(c@).env =~= seq![]);
    c
}

/// Every command the Yew provider proposes carries the `yew` tag.
pub proof fn lemma_yew_commands_tagged(context: ProjectContext)
    ensures
        all_tagged(yew_provider_commands(context), "yew"@),
{
    broadcast use vstd::seq_lib::group_seq_properties;
    let s = yew_provider_commands(context);
    assert forall|i: int| 0 <= i < s.len() implies (#[trigger] s[i]).tags.contains("yew"@) by {
    }
}

} // verus!
