//! Commands for Bevy game projects: running, platform builds, tests,
//! commands for the system or component under the cursor, and assets.

use vstd::prelude::*;
use crate::commands::{
    Command, CommandBuilder, CommandCategory, CommandSummary, CategoryView, summary, summaries,
    push_command, append_commands,
};
use crate::context::{ProjectContext, ProjectType, Symbol, SymbolKind};
use crate::error::RazResult;
use crate::providers::{
    CommandProvider, all_tagged, types_contain, project_types_contain, dependency_named_in, any_dependency_named,
    dependency_name_has, any_dependency_name_has,
};
use crate::text::{
    fmt_text, has_prefix, has_sub, has_suffix, str_contains, str_ends_with, str_starts_with, views,
};
use crate::commands::strings_contain;

verus! {

/// Whether the project is a Bevy project: by its type, or by a dependency
/// named `bevy` or `bevy_…`.
pub open spec fn bevy_handles(context: ProjectContext) -> bool {
    match context.project_type {
        ProjectType::Bevy => true,
        ProjectType::Mixed(v) => types_contain(v@, ProjectType::Bevy),
        _ => dependency_named_in(context, seq!["bevy"@], Some("bevy_"@)),
    }
}

pub open spec fn bevy_development_commands() -> Seq<CommandSummary> {
    seq![bevy_run_cmd(), bevy_run_release_cmd(), bevy_run_features_cmd(), bevy_check_cmd()]
}

/// The build commands: a WASM build when a dependency's name mentions
/// `wasm`, and a Windows cross-build always.
pub open spec fn bevy_build_commands(context: ProjectContext) -> Seq<CommandSummary> {
    seq![bevy_build_cmd(), bevy_build_release_cmd()] + (if dependency_name_has(context, "wasm"@) {
        seq![bevy_build_wasm_cmd()]
    } else {
        seq![]
    }) + seq![bevy_build_windows_cmd()]
}

pub open spec fn bevy_test_commands() -> Seq<CommandSummary> {
    seq![bevy_test_cmd(), bevy_test_headless_cmd(), bevy_test_doc_cmd()]
}

/// The commands for the symbol under the cursor: systems and tests among
/// functions, components and resources among structs.
pub open spec fn bevy_symbol_commands(s: Symbol) -> Seq<CommandSummary> {
    let name = s.name@;
    match s.kind {
        SymbolKind::Function => (if has_suffix(name, "_system"@) || has_sub(name, "update"@)
            || has_sub(name, "spawn"@) {
            seq![bevy_run_system_cmd(name)]
        } else {
            seq![]
        }) + (if has_prefix(name, "test_"@) || views(s.modifiers@).contains("test"@) {
            seq![bevy_test_current_cmd(name)]
        } else {
            seq![]
        }),
        SymbolKind::Struct => (if has_suffix(name, "Component"@) || views(s.modifiers@).contains(
            "Component"@,
        ) {
            seq![bevy_inspect_component_cmd(name)]
        } else {
            seq![]
        }) + (if has_suffix(name, "Resource"@) {
            seq![bevy_debug_resource_cmd(name)]
        } else {
            seq![]
        }),
        _ => seq![],
    }
}

/// The commands for the current file: those of the symbol under the
/// cursor, then those for system and asset files.
pub open spec fn bevy_context_commands(context: ProjectContext) -> Seq<CommandSummary> {
    match context.current_file {
        None => seq![],
        Some(fc) => (match fc.cursor_symbol {
            Some(s) => bevy_symbol_commands(s),
            None => seq![],
        }) + (if has_sub(fc.path@, "system"@) {
            seq![bevy_check_systems_cmd()]
        } else {
            seq![]
        }) + (if has_sub(fc.path@, "asset"@) {
            seq![bevy_check_assets_cmd()]
        } else {
            seq![]
        }),
    }
}

pub open spec fn bevy_asset_commands() -> Seq<CommandSummary> {
    seq![bevy_assets_watch_cmd(), bevy_optimize_assets_cmd(), bevy_bundle_assets_cmd()]
}

/// The commands of the Bevy provider, in order.
pub open spec fn bevy_provider_commands(context: ProjectContext) -> Seq<CommandSummary> {
    bevy_development_commands() + bevy_build_commands(context) + bevy_test_commands()
        + bevy_context_commands(context) + bevy_asset_commands()
}

/// Provider for Bevy game engine commands.
pub struct BevyProvider {
    priority: u8,
}

impl BevyProvider {
    pub closed spec fn spec_bevy_priority(&self) -> u8 {
        self.priority
    }

    pub fn new() -> (r: Self)
        ensures
            r.spec_bevy_priority() == 85,
    {
        BevyProvider { priority: 85 }
    }

    /// Development and running commands.
    fn development_commands(&self, context: &ProjectContext) -> (r: Vec<Command>)
        ensures
            summaries(r@) == bevy_development_commands(),
    {
        let mut v: Vec<Command> = Vec::new();
        push_command(&mut v, bevy_run());
        push_command(&mut v, bevy_run_release());
        push_command(&mut v, bevy_run_features());
        push_command(&mut v, bevy_check());
        assert(summaries(v@) =~= bevy_development_commands());
        v
    }

    /// Build commands for different platforms and targets.
    fn build_commands(&self, context: &ProjectContext) -> (r: Vec<Command>)
        ensures
            summaries(r@) == bevy_build_commands(*context),
    {
        let mut v: Vec<Command> = Vec::new();
        push_command(&mut v, bevy_build());
        push_command(&mut v, bevy_build_release());
        if any_dependency_name_has(context, "wasm") {
            push_command(&mut v, bevy_build_wasm());
        }
        push_command(&mut v, bevy_build_windows());
        assert(summaries(v@) =~= bevy_build_commands(*context));
        v
    }

    /// Testing commands.
    fn test_commands(&self, context: &ProjectContext) -> (r: Vec<Command>)
        ensures
            summaries(r@) == bevy_test_commands(),
    {
        let mut v: Vec<Command> = Vec::new();
        push_command(&mut v, bevy_test());
        push_command(&mut v, bevy_test_headless());
        push_command(&mut v, bevy_test_doc());
        assert(summaries(v@) =~= bevy_test_commands());
        v
    }

    fn symbol_commands(&self, symbol: &Symbol) -> (r: Vec<Command>)
        ensures
            summaries(r@) == bevy_symbol_commands(*symbol),
    {
        let mut v: Vec<Command> = Vec::new();
        let name = symbol.name.as_str();
        match symbol.kind {
            SymbolKind::Function => {
                if str_ends_with(name, "_system") || str_contains(name, "update") || str_contains(
                    name,
                    "spawn",
                ) {
                    push_command(&mut v, bevy_run_system(name));
                }
                let ghost mid = summaries(v@);
                if str_starts_with(name, "test_") || strings_contain(&symbol.modifiers, "test") {
                    push_command(&mut v, bevy_test_current(name));
                }
                assert(summaries(v@) =~= bevy_symbol_commands(*symbol));
            },
            SymbolKind::Struct => {
                if str_ends_with(name, "Component") || strings_contain(
                    &symbol.modifiers,
                    "Component",
                ) {
                    push_command(&mut v, bevy_inspect_component(name));
                }
                if str_ends_with(name, "Resource") {
                    push_command(&mut v, bevy_debug_resource(name));
                }
                assert(summaries(v@) =~= bevy_symbol_commands(*symbol));
            },
            _ => {
                assert(summaries(v@) =~= bevy_symbol_commands(*symbol));
            },
        }
        v
    }

    /// Context-aware commands based on cursor position.
    fn context_aware_commands(&self, context: &ProjectContext) -> (r: Vec<Command>)
        ensures
            summaries(r@) == bevy_context_commands(*context),
    {
        let mut v: Vec<Command> = Vec::new();
        if let Some(file_context) = &context.current_file {
            if let Some(symbol) = &file_context.cursor_symbol {
                v = self.symbol_commands(symbol);
            }
            let ghost first = summaries(v@);
            if str_contains(file_context.path.as_str(), "system") {
                push_command(&mut v, bevy_check_systems());
            }
            if str_contains(file_context.path.as_str(), "asset") {
                push_command(&mut v, bevy_check_assets());
            }
            assert(summaries(v@) =~= bevy_context_commands(*context));
        } else {
            assert(summaries(v@) =~= bevy_context_commands(*context));
        }
        v
    }

    /// Asset management and optimization commands.
    fn asset_commands(&self, context: &ProjectContext) -> (r: Vec<Command>)
        ensures
            summaries(r@) == bevy_asset_commands(),
    {
        let mut v: Vec<Command> = Vec::new();
        push_command(&mut v, bevy_assets_watch());
        push_command(&mut v, bevy_optimize_assets());
        push_command(&mut v, bevy_bundle_assets());
        assert(summaries(v@) =~= bevy_asset_commands());
        v
    }
}

impl BevyProvider {
    /// The provider's name.
    pub open spec fn spec_name(&self) -> Seq<char> {
        "bevy"@
    }

    /// The provider's priority (higher is more important).
    pub open spec fn spec_priority(&self) -> u8 {
        self.spec_bevy_priority()
    }

    /// Whether the provider applies to a project.
    pub open spec fn handles(&self, context: ProjectContext) -> bool {
        bevy_handles(context)
    }

    /// The commands the provider proposes for a project, in order.
    pub open spec fn provided(&self, context: ProjectContext) -> Seq<CommandSummary> {
        bevy_provider_commands(context)
    }
}

impl CommandProvider for BevyProvider {
    fn name(&self) -> (r: &str)
        ensures
            r@ == self.spec_name(),
    {
        "bevy"
    }

    fn priority(&self) -> (r: u8)
        ensures
            r == self.spec_priority(),
    {
        self.priority
    }

    fn can_handle(&self, context: &ProjectContext) -> (r: bool)
        ensures
            r == self.handles(*context),
    {
        match &context.project_type {
            ProjectType::Bevy => true,
            ProjectType::Mixed(frameworks) => project_types_contain(frameworks, &ProjectType::Bevy),
            _ => {
                let names = ["bevy"];
                proof {
                    assert(crate::providers::texts(names@) =~= seq!["bevy"@]);
                }
                any_dependency_named(context, &names, Some("bevy_"))
            },
        }
    }

    fn commands(&self, context: &ProjectContext) -> (r: RazResult<Vec<Command>>)
        ensures
            r is Ok ==> summaries(r->Ok_0@) == self.provided(*context),
            r is Ok,
    {
        let mut commands = self.development_commands(context);
        append_commands(&mut commands, self.build_commands(context));
        append_commands(&mut commands, self.test_commands(context));
        append_commands(&mut commands, self.context_aware_commands(context));
        append_commands(&mut commands, self.asset_commands(context));
        Ok(commands)
    }
}

pub open spec fn bevy_run_cmd() -> CommandSummary {
    CommandSummary {
        id: "bevy-run"@,
        label: "Run Bevy Game"@,
        description: Some("Run the Bevy game in development mode"@),
        command: "cargo"@,
        args: seq!["run"@],
        env: seq![],
        cwd: None,
        category: CategoryView::Run,
        priority: 95,
        conditions: seq![],
        tags: seq!["dev"@, "run"@, "bevy"@],
        requires_input: false,
        estimated_duration: Some(3),
    }
}
pub open spec fn bevy_run_release_cmd() -> CommandSummary {
    CommandSummary {
        id: "bevy-run-release"@,
        label: "Run Release Build"@,
        description: Some("Run optimized release build of the game"@),
        command: "cargo"@,
        args: seq!["run"@, "--release"@],
        env: seq![],
        cwd: None,
        category: CategoryView::Run,
        priority: 85,
        conditions: seq![],
        tags: seq!["run"@, "release"@, "bevy"@],
        requires_input: false,
        estimated_duration: Some(5),
    }
}
pub open spec fn bevy_run_features_cmd() -> CommandSummary {
    CommandSummary {
        id: "bevy-run-features"@,
        label: "Run with Dynamic Features"@,
        description: Some("Run with dynamic linking for faster iteration"@),
        command: "cargo"@,
        args: seq!["run"@, "--features"@, "bevy/dynamic_linking"@],
        env: seq![],
        cwd: None,
        category: CategoryView::Run,
        priority: 88,
        conditions: seq![],
        tags: seq!["dev"@, "dynamic"@, "bevy"@],
        requires_input: false,
        estimated_duration: Some(4),
    }
}
pub open spec fn bevy_check_cmd() -> CommandSummary {
    CommandSummary {
        id: "bevy-check"@,
        label: "Check Bevy Code"@,
        description: Some("Fast compile check without building"@),
        command: "cargo"@,
        args: seq!["check"@],
        env: seq![],
        cwd: None,
        category: CategoryView::Lint,
        priority: 90,
        conditions: seq![],
        tags: seq!["check"@, "fast"@, "bevy"@],
        requires_input: false,
        estimated_duration: Some(8),
    }
}
pub open spec fn bevy_build_cmd() -> CommandSummary {
    CommandSummary {
        id: "bevy-build"@,
        label: "Build Bevy Game"@,
        description: Some("Build the game for the current platform"@),
        command: "cargo"@,
        args: seq!["build"@],
        env: seq![],
        cwd: None,
        category: CategoryView::Build,
        priority: 80,
        conditions: seq![],
        tags: seq!["build"@, "bevy"@],
        requires_input: false,
        estimated_duration: Some(45),
    }
}
pub open spec fn bevy_build_release_cmd() -> CommandSummary {
    CommandSummary {
        id: "bevy-build-release"@,
        label: "Build Release"@,
        description: Some("Build optimized release version"@),
        command: "cargo"@,
        args: seq!["build"@, "--release"@],
        env: seq![],
        cwd: None,
        category: CategoryView::Build,
        priority: 85,
        conditions: seq![],
        tags: seq!["build"@, "release"@, "bevy"@],
        requires_input: false,
        estimated_duration: Some(90),
    }
}
pub open spec fn bevy_build_wasm_cmd() -> CommandSummary {
    CommandSummary {
        id: "bevy-build-wasm"@,
        label: "Build for WASM"@,
        description: Some("Build Bevy game for web (WebAssembly)"@),
        command: "cargo"@,
        args: seq!["build"@, "--target"@, "wasm32-unknown-unknown"@, "--release"@],
        env: seq![],
        cwd: None,
        category: CategoryView::Build,
        priority: 75,
        conditions: seq![],
        tags: seq!["build"@, "wasm"@, "web"@, "bevy"@],
        requires_input: false,
        estimated_duration: Some(120),
    }
}
pub open spec fn bevy_build_windows_cmd() -> CommandSummary {
    CommandSummary {
        id: "bevy-build-windows"@,
        label: "Build for Windows"@,
        description: Some("Cross-compile for Windows"@),
        command: "cargo"@,
        args: seq!["build"@, "--target"@, "x86_64-pc-windows-gnu"@, "--release"@],
        env: seq![],
        cwd: None,
        category: CategoryView::Build,
        priority: 70,
        conditions: seq![],
        tags: seq!["build"@, "windows"@, "cross"@, "bevy"@],
        requires_input: false,
        estimated_duration: Some(100),
    }
}
pub open spec fn bevy_test_cmd() -> CommandSummary {
    CommandSummary {
        id: "bevy-test"@,
        label: "Run Bevy Tests"@,
        description: Some("Run unit and integration tests"@),
        command: "cargo"@,
        args: seq!["test"@],
        env: seq![],
        cwd: None,
        category: CategoryView::Test,
        priority: 75,
        conditions: seq![],
        tags: seq!["test"@, "bevy"@],
        requires_input: false,
        estimated_duration: Some(20),
    }
}
pub open spec fn bevy_test_headless_cmd() -> CommandSummary {
    CommandSummary {
        id: "bevy-test-headless"@,
        label: "Headless Tests"@,
        description: Some("Run tests without rendering (headless)"@),
        command: "cargo"@,
        args: seq!["test"@, "--features"@, "bevy/headless"@],
        env: seq![],
        cwd: None,
        category: CategoryView::Test,
        priority: 80,
        conditions: seq![],
        tags: seq!["test"@, "headless"@, "bevy"@],
        requires_input: false,
        estimated_duration: Some(15),
    }
}
pub open spec fn bevy_test_doc_cmd() -> CommandSummary {
    CommandSummary {
        id: "bevy-test-doc"@,
        label: "Test Documentation"@,
        description: Some("Test code examples in documentation"@),
        command: "cargo"@,
        args: seq!["test"@, "--doc"@],
        env: seq![],
        cwd: None,
        category: CategoryView::Test,
        priority: 65,
        conditions: seq![],
        tags: seq!["test"@, "doc"@, "bevy"@],
        requires_input: false,
        estimated_duration: Some(25),
    }
}
pub open spec fn bevy_run_system_cmd(name: Seq<char>) -> CommandSummary {
    CommandSummary {
        id: "bevy-run-system"@,
        label: "Run with System Focus"@,
        description: Some("Run game focusing on system: "@ + name),
        command: "cargo"@,
        args: seq!["run"@, "--features"@, "bevy/trace"@],
        env: seq![],
        cwd: None,
        category: CategoryView::Run,
        priority: 85,
        conditions: seq![],
        tags: seq!["system"@, "debug"@, "bevy"@],
        requires_input: false,
        estimated_duration: Some(8),
    }
}
pub open spec fn bevy_test_current_cmd(name: Seq<char>) -> CommandSummary {
    CommandSummary {
        id: "bevy-test-current"@,
        label: "Test Current System"@,
        description: Some("Run test: "@ + name),
        command: "cargo"@,
        args: seq!["test"@, name, "--"@, "--nocapture"@],
        env: seq![],
        cwd: None,
        category: CategoryView::Test,
        priority: 90,
        conditions: seq![],
        tags: seq!["test"@, "current"@, "bevy"@],
        requires_input: false,
        estimated_duration: Some(5),
    }
}
pub open spec fn bevy_inspect_component_cmd(name: Seq<char>) -> CommandSummary {
    CommandSummary {
        id: "bevy-inspect-component"@,
        label: "Inspect Component"@,
        description: Some("Run with component inspector: "@ + name),
        command: "cargo"@,
        args: seq!["run"@, "--features"@, "bevy-inspector-egui/default"@],
        env: seq![],
        cwd: None,
        category: CategoryView::Run,
        priority: 80,
        conditions: seq![],
        tags: seq!["component"@, "inspector"@, "bevy"@],
        requires_input: false,
        estimated_duration: Some(10),
    }
}
pub open spec fn bevy_debug_resource_cmd(name: Seq<char>) -> CommandSummary {
    CommandSummary {
        id: "bevy-debug-resource"@,
        label: "Debug Resource"@,
        description: Some("Run with resource debugging: "@ + name),
        command: "cargo"@,
        args: seq!["run"@, "--features"@, "bevy/trace"@],
        env: seq![],
        cwd: None,
        category: CategoryView::Run,
        priority: 75,
        conditions: seq![],
        tags: seq!["resource"@, "debug"@, "bevy"@],
        requires_input: false,
        estimated_duration: Some(8),
    }
}
pub open spec fn bevy_check_systems_cmd() -> CommandSummary {
    CommandSummary {
        id: "bevy-check-systems"@,
        label: "Check Systems"@,
        description: Some("Check all game systems for compilation errors"@),
        command: "cargo"@,
        args: seq!["check"@, "--features"@, "bevy/trace"@],
        env: seq![],
        cwd: None,
        category: CategoryView::Lint,
        priority: 80,
        conditions: seq![],
        tags: seq!["systems"@, "check"@, "bevy"@],
        requires_input: false,
        estimated_duration: Some(12),
    }
}
pub open spec fn bevy_check_assets_cmd() -> CommandSummary {
    CommandSummary {
        id: "bevy-check-assets"@,
        label: "Validate Assets"@,
        description: Some("Check asset loading and validation"@),
        command: "cargo"@,
        args: seq!["run"@, "--features"@, "bevy/filesystem_watcher"@],
        env: seq![],
        cwd: None,
        category: CategoryView::Run,
        priority: 75,
        conditions: seq![],
        tags: seq!["assets"@, "validate"@, "bevy"@],
        requires_input: false,
        estimated_duration: Some(15),
    }
}
pub open spec fn bevy_assets_watch_cmd() -> CommandSummary {
    CommandSummary {
        id: "bevy-assets-watch"@,
        label: "Watch Assets"@,
        description: Some("Run with asset hot-reloading enabled"@),
        command: "cargo"@,
        args: seq!["run"@, "--features"@, "bevy/file_watcher"@],
        env: seq![],
        cwd: None,
        category: CategoryView::Run,
        priority: 85,
        conditions: seq![],
        tags: seq!["assets"@, "watch"@, "bevy"@],
        requires_input: false,
        estimated_duration: Some(5),
    }
}
pub open spec fn bevy_optimize_assets_cmd() -> CommandSummary {
    CommandSummary {
        id: "bevy-optimize-assets"@,
        label: "Optimize Assets"@,
        description: Some("Build with optimized asset processing"@),
        command: "cargo"@,
        args: seq!["build"@, "--release"@, "--features"@, "bevy/serialize"@],
        env: seq![],
        cwd: None,
        category: CategoryView::Build,
        priority: 70,
        conditions: seq![],
        tags: seq!["assets"@, "optimize"@, "bevy"@],
        requires_input: false,
        estimated_duration: Some(60),
    }
}
pub open spec fn bevy_bundle_assets_cmd() -> CommandSummary {
    CommandSummary {
        id: "bevy-bundle-assets"@,
        label: "Bundle Assets"@,
        description: Some("Create asset bundle for distribution"@),
        command: "cargo"@,
        args: seq!["build"@, "--release"@, "--features"@, "bevy/embedded_watcher"@],
        env: seq![],
        cwd: None,
        category: CategoryView::Deploy,
        priority: 65,
        conditions: seq![],
        tags: seq!["bundle"@, "assets"@, "deploy"@, "bevy"@],
        requires_input: false,
        estimated_duration: Some(90),
    }
}

fn bevy_run() -> (r: Command)
    ensures
        summary(r@) == bevy_run_cmd(),
{
    let c = CommandBuilder::new("bevy-run", "cargo")
        .label("Run Bevy Game")
        .description("Run the Bevy game in development mode")
        .arg("run")
        .category(CommandCategory::Run)
        .priority(95)
        .tag("dev")
        .tag("run")
        .tag("bevy")
        .estimated_duration(3)
        .build();
    
    
    assert(views(c@.args) =~= seq!["run"@]);
    assert(views(c@.tags) =~= seq!["dev"@, "run"@, "bevy"@]);
    assert(summary(c@).env =~= seq![]);
    c
}
fn bevy_run_release() -> (r: Command)
    ensures
        summary(r@) == bevy_run_release_cmd(),
{
    let c = CommandBuilder::new("bevy-run-release", "cargo")
        .label("Run Release Build")
        .description("Run optimized release build of the game")
        .arg("run")
        .arg("--release")
        .category(CommandCategory::Run)
        .priority(85)
        .tag("run")
        .tag("release")
        .tag("bevy")
        .estimated_duration(5)
        .build();
    
    
    assert(views(c@.args) =~= seq!["run"@, "--release"@]);
    assert(views(c@.tags) =~= seq!["run"@, "release"@, "bevy"@]);
    assert(summary(c@).env =~= seq![]);
    c
}
fn bevy_run_features() -> (r: Command)
    ensures
        summary(r@) == bevy_run_features_cmd(),
{
    let c = CommandBuilder::new("bevy-run-features", "cargo")
        .label("Run with Dynamic Features")
        .description("Run with dynamic linking for faster iteration")
        .arg("run")
        .arg("--features")
        .arg("bevy/dynamic_linking")
        .category(CommandCategory::Run)
        .priority(88)
        .tag("dev")
        .tag("dynamic")
        .tag("bevy")
        .estimated_duration(4)
        .build();
    
    
    assert(views(c@.args) =~= seq!["run"@, "--features"@, "bevy/dynamic_linking"@]);
    assert(views(c@.tags) =~= seq!["dev"@, "dynamic"@, "bevy"@]);
    assert(summary(c@).env =~= seq![]);
    c
}
fn bevy_check() -> (r: Command)
    ensures
        summary(r@) == bevy_check_cmd(),
{
    let c = CommandBuilder::new("bevy-check", "cargo")
        .label("Check Bevy Code")
        .description("Fast compile check without building")
        .arg("check")
        .category(CommandCategory::Lint)
        .priority(90)
        .tag("check")
        .tag("fast")
        .tag("bevy")
        .estimated_duration(8)
        .build();
    
    
    assert(views(c@.args) =~= seq!["check"@]);
    assert(views(c@.tags) =~= seq!["check"@, "fast"@, "bevy"@]);
    assert(summary(c@).env =~= seq![]);
    c
}
fn bevy_build() -> (r: Command)
    ensures
        summary(r@) == bevy_build_cmd(),
{
    let c = CommandBuilder::new("bevy-build", "cargo")
        .label("Build Bevy Game")
        .description("Build the game for the current platform")
        .arg("build")
        .category(CommandCategory::Build)
        .priority(80)
        .tag("build")
        .tag("bevy")
        .estimated_duration(45)
        .build();
    
    
    assert(views(c@.args) =~= seq!["build"@]);
    assert(views(c@.tags) =~= seq!["build"@, "bevy"@]);
    assert(summary(c@).env =~= seq![]);
    c
}
fn bevy_build_release() -> (r: Command)
    ensures
        summary(r@) == bevy_build_release_cmd(),
{
    let c = CommandBuilder::new("bevy-build-release", "cargo")
        .label("Build Release")
        .description("Build optimized release version")
        .arg("build")
        .arg("--release")
        .category(CommandCategory::Build)
        .priority(85)
        .tag("build")
        .tag("release")
        .tag("bevy")
        .estimated_duration(90)
        .build();
    
    
    assert(views(c@.args) =~= seq!["build"@, "--release"@]);
    assert(views(c@.tags) =~= seq!["build"@, "release"@, "bevy"@]);
    assert(summary(c@).env =~= seq![]);
    c
}
fn bevy_build_wasm() -> (r: Command)
    ensures
        summary(r@) == bevy_build_wasm_cmd(),
{
    let c = CommandBuilder::new("bevy-build-wasm", "cargo")
        .label("Build for WASM")
        .description("Build Bevy game for web (WebAssembly)")
        .arg("build")
        .arg("--target")
        .arg("wasm32-unknown-unknown")
        .arg("--release")
        .category(CommandCategory::Build)
        .priority(75)
        .tag("build")
        .tag("wasm")
        .tag("web")
        .tag("bevy")
        .estimated_duration(120)
        .build();
    
    
    assert(views(c@.args) =~= seq!["build"@, "--target"@, "wasm32-unknown-unknown"@, "--release"@]);
    assert(views(c@.tags) =~= seq!["build"@, "wasm"@, "web"@, "bevy"@]);
    assert(summary(c@).env =~= seq![]);
    c
}
fn bevy_build_windows() -> (r: Command)
    ensures
        summary(r@) == bevy_build_windows_cmd(),
{
    let c = CommandBuilder::new("bevy-build-windows", "cargo")
        .label("Build for Windows")
        .description("Cross-compile for Windows")
        .arg("build")
        .arg("--target")
        .arg("x86_64-pc-windows-gnu")
        .arg("--release")
        .category(CommandCategory::Build)
        .priority(70)
        .tag("build")
        .tag("windows")
        .tag("cross")
        .tag("bevy")
        .estimated_duration(100)
        .build();
    
    
    assert(views(c@.args) =~= seq!["build"@, "--target"@, "x86_64-pc-windows-gnu"@, "--release"@]);
    assert(views(c@.tags) =~= seq!["build"@, "windows"@, "cross"@, "bevy"@]);
    assert(summary(c@).env =~= seq![]);
    c
}
fn bevy_test() -> (r: Command)
    ensures
        summary(r@) == bevy_test_cmd(),
{
    let c = CommandBuilder::new("bevy-test", "cargo")
        .label("Run Bevy Tests")
        .description("Run unit and integration tests")
        .arg("test")
        .category(CommandCategory::Test)
        .priority(75)
        .tag("test")
        .tag("bevy")
        .estimated_duration(20)
        .build();
    
    
    assert(views(c@.args) =~= seq!["test"@]);
    assert(views(c@.tags) =~= seq!["test"@, "bevy"@]);
    assert(summary(c@).env =~= seq![]);
    c
}
fn bevy_test_headless() -> (r: Command)
    ensures
        summary(r@) == bevy_test_headless_cmd(),
{
    let c = CommandBuilder::new("bevy-test-headless", "cargo")
        .label("Headless Tests")
        .description("Run tests without rendering (headless)")
        .arg("test")
        .arg("--features")
        .arg("bevy/headless")
        .category(CommandCategory::Test)
        .priority(80)
        .tag("test")
        .tag("headless")
        .tag("bevy")
        .estimated_duration(15)
        .build();
    
    
    assert(views(c@.args) =~= seq!["test"@, "--features"@, "bevy/headless"@]);
    assert(views(c@.tags) =~= seq!["test"@, "headless"@, "bevy"@]);
    assert(summary(c@).env =~= seq![]);
    c
}
fn bevy_test_doc() -> (r: Command)
    ensures
        summary(r@) == bevy_test_doc_cmd(),
{
    let c = CommandBuilder::new("bevy-test-doc", "cargo")
        .label("Test Documentation")
        .description("Test code examples in documentation")
        .arg("test")
        .arg("--doc")
        .category(CommandCategory::Test)
        .priority(65)
        .tag("test")
        .tag("doc")
        .tag("bevy")
        .estimated_duration(25)
        .build();
    
    
    assert(views(c@.args) =~= seq!["test"@, "--doc"@]);
    assert(views(c@.tags) =~= seq!["test"@, "doc"@, "bevy"@]);
    assert(summary(c@).env =~= seq![]);
    c
}
fn bevy_run_system(name: &str) -> (r: Command)
    ensures
        summary(r@) == bevy_run_system_cmd(name@),
{
    let c = CommandBuilder::new("bevy-run-system", "cargo")
        .label("Run with System Focus")
        .description(fmt_text("Run game focusing on system: ", name, "").as_str())
        .arg("run")
        .arg("--features")
        .arg("bevy/trace")
        .category(CommandCategory::Run)
        .priority(85)
        .tag("system")
        .tag("debug")
        .tag("bevy")
        .estimated_duration(8)
        .build();
    proof { reveal_strlit(""); }
    assert(c@.description->0@ =~= "Run game focusing on system: "@ + name@);
    assert(views(c@.args) =~= seq!["run"@, "--features"@, "bevy/trace"@]);
    assert(views(c@.tags) =~= seq!["system"@, "debug"@, "bevy"@]);
    assert(summary(c@).env =~= seq![]);
    c
}
fn bevy_test_current(name: &str) -> (r: Command)
    ensures
        summary(r@) == bevy_test_current_cmd(name@),
{
    let c = CommandBuilder::new("bevy-test-current", "cargo")
        .label("Test Current System")
        .description(fmt_text("Run test: ", name, "").as_str())
        .arg("test")
        .arg(name)
        .arg("--")
        .arg("--nocapture")
        .category(CommandCategory::Test)
        .priority(90)
        .tag("test")
        .tag("current")
        .tag("bevy")
        .estimated_duration(5)
        .build();
    proof { reveal_strlit(""); }
    assert(c@.description->0@ =~= "Run test: "@ + name@);
    assert(views(c@.args) =~= seq!["test"@, name@, "--"@, "--nocapture"@]);
    assert(views(c@.tags) =~= seq!["test"@, "current"@, "bevy"@]);
    assert(summary(c@).env =~= seq![]);
    c
}
fn bevy_inspect_component(name: &str) -> (r: Command)
    ensures
        summary(r@) == bevy_inspect_component_cmd(name@),
{
    let c = CommandBuilder::new("bevy-inspect-component", "cargo")
        .label("Inspect Component")
        .description(fmt_text("Run with component inspector: ", name, "").as_str())
        .arg("run")
        .arg("--features")
        .arg("bevy-inspector-egui/default")
        .category(CommandCategory::Run)
        .priority(80)
        .tag("component")
        .tag("inspector")
        .tag("bevy")
        .estimated_duration(10)
        .build();
    proof { reveal_strlit(""); }
    assert(c@.description->0@ =~= "Run with component inspector: "@ + name@);
    assert(views(c@.args) =~= seq!["run"@, "--features"@, "bevy-inspector-egui/default"@]);
    assert(views(c@.tags) =~= seq!["component"@, "inspector"@, "bevy"@]);
    assert(summary(c@).env =~= seq![]);
    c
}
fn bevy_debug_resource(name: &str) -> (r: Command)
    ensures
        summary(r@) == bevy_debug_resource_cmd(name@),
{
    let c = CommandBuilder::new("bevy-debug-resource", "cargo")
        .label("Debug Resource")
        .description(fmt_text("Run with resource debugging: ", name, "").as_str())
        .arg("run")
        .arg("--features")
        .arg("bevy/trace")
        .category(CommandCategory::Run)
        .priority(75)
        .tag("resource")
        .tag("debug")
        .tag("bevy")
        .estimated_duration(8)
        .build();
    proof { reveal_strlit(""); }
    assert(c@.description->0@ =~= "Run with resource debugging: "@ + name@);
    assert(views(c@.args) =~= seq!["run"@, "--features"@, "bevy/trace"@]);
    assert(views(c@.tags) =~= seq!["resource"@, "debug"@, "bevy"@]);
    assert(summary(c@).env =~= seq![]);
    c
}
fn bevy_check_systems() -> (r: Command)
    ensures
        summary(r@) == bevy_check_systems_cmd(),
{
    let c = CommandBuilder::new("bevy-check-systems", "cargo")
        .label("Check Systems")
        .description("Check all game systems for compilation errors")
        .arg("check")
        .arg("--features")
        .arg("bevy/trace")
        .category(CommandCategory::Lint)
        .priority(80)
        .tag("systems")
        .tag("check")
        .tag("bevy")
        .estimated_duration(12)
        .build();
    
    
    assert(views(c@.args) =~= seq!["check"@, "--features"@, "bevy/trace"@]);
    assert(views(c@.tags) =~= seq!["systems"@, "check"@, "bevy"@]);
    assert(summary(c@).env =~= seq![]);
    c
}
fn bevy_check_assets() -> (r: Command)
    ensures
        summary(r@) == bevy_check_assets_cmd(),
{
    let c = CommandBuilder::new("bevy-check-assets", "cargo")
        .label("Validate Assets")
        .description("Check asset loading and validation")
        .arg("run")
        .arg("--features")
        .arg("bevy/filesystem_watcher")
        .category(CommandCategory::Run)
        .priority(75)
        .tag("assets")
        .tag("validate")
        .tag("bevy")
        .estimated_duration(15)
        .build();
    
    
    assert(views(c@.args) =~= seq!["run"@, "--features"@, "bevy/filesystem_watcher"@]);
    assert(views(c@.tags) =~= seq!["assets"@, "validate"@, "bevy"@]);
    assert(summary(c@).env =~= seq![]);
    c
}
fn bevy_assets_watch() -> (r: Command)
    ensures
        summary(r@) == bevy_assets_watch_cmd(),
{
    let c = CommandBuilder::new("bevy-assets-watch", "cargo")
        .label("Watch Assets")
        .description("Run with asset hot-reloading enabled")
        .arg("run")
        .arg("--features")
        .arg("bevy/file_watcher")
        .category(CommandCategory::Run)
        .priority(85)
        .tag("assets")
        .tag("watch")
        .tag("bevy")
        .estimated_duration(5)
        .build();
    
    
    assert(views(c@.args) =~= seq!["run"@, "--features"@, "bevy/file_watcher"@]);
    assert(views(c@.tags) =~= seq!["assets"@, "watch"@, "bevy"@]);
    assert(summary(c@).env =~= seq![]);
    c
}
fn bevy_optimize_assets() -> (r: Command)
    ensures
        summary(r@) == bevy_optimize_assets_cmd(),
{
    let c = CommandBuilder::new("bevy-optimize-assets", "cargo")
        .label("Optimize Assets")
        .description("Build with optimized asset processing")
        .arg("build")
        .arg("--release")
        .arg("--features")
        .arg("bevy/serialize")
        .category(CommandCategory::Build)
        .priority(70)
        .tag("assets")
        .tag("optimize")
        .tag("bevy")
        .estimated_duration(60)
        .build();
    
    
    assert(views(c@.args) =~= seq!["build"@, "--release"@, "--features"@, "bevy/serialize"@]);
    assert(views(c@.tags) =~= seq!["assets"@, "optimize"@, "bevy"@]);
    assert(summary(c@).env =~= seq![]);
    c
}
fn bevy_bundle_assets() -> (r: Command)
    ensures
        summary(r@) == bevy_bundle_assets_cmd(),
{
    let c = CommandBuilder::new("bevy-bundle-assets", "cargo")
        .label("Bundle Assets")
        .description("Create asset bundle for distribution")
        .arg("build")
        .arg("--release")
        .arg("--features")
        .arg("bevy/embedded_watcher")
        .category(CommandCategory::Deploy)
        .priority(65)
        .tag("bundle")
        .tag("assets")
        .tag("deploy")
        .tag("bevy")
        .estimated_duration(90)
        .build();
    
    
    assert(views(c@.args) =~= seq!["build"@, "--release"@, "--features"@, "bevy/embedded_watcher"@]);
    assert(views(c@.tags) =~= seq!["bundle"@, "assets"@, "deploy"@, "bevy"@]);
    assert(summary(c@).env =~= seq![]);
    c
}

/// Every command the Bevy provider proposes carries the `bevy` tag.
pub proof fn lemma_bevy_commands_tagged(context: ProjectContext)
    ensures
        all_tagged(bevy_provider_commands(context), "bevy"@),
{
    broadcast use vstd::seq_lib::group_seq_properties;
    let s = bevy_provider_commands(context);
    assert forall|i: int| 0 <= i < s.len() implies (#[trigger] s[i]).tags.contains("bevy"@) by {
        assert(s[i].tags.last() == "bevy"@);
    }
}

} // verus!
