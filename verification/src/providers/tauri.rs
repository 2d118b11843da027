//! Commands for Tauri desktop projects: development, builds, tests,
//! commands for the Tauri command or state under the cursor, and
//! distribution.

use vstd::prelude::*;
use crate::commands::{
    Command, CommandBuilder, CommandCategory, CommandSummary, CategoryView, summary, summaries,
    push_command, append_commands, strings_contain,
};
use crate::context::{FileFacts, ProjectContext, ProjectType, Symbol, SymbolKind};
use crate::error::RazResult;
use crate::paths::{join_path, path_join};
use crate::providers::{
    CommandProvider, all_tagged, types_contain, project_types_contain, dependency_named_in, any_dependency_named,
    some_dependency_with, any_dependency_with, texts,
};
use crate::text::{
    fmt_text, has_prefix, has_sub, has_suffix, str_contains, str_ends_with, str_starts_with, views,
};

verus! {

/// Whether the project is a Tauri project: by its type, by a dependency
/// named `tauri`, `tauri-build` or `tauri-…`, or by a `src-tauri`
/// directory or `tauri.conf.json` file in the workspace root.
pub open spec fn tauri_handles(context: ProjectContext, facts: FileFacts) -> bool {
    match context.project_type {
        ProjectType::Tauri => true,
        ProjectType::Mixed(v) => types_contain(v@, ProjectType::Tauri),
        _ => dependency_named_in(context, seq!["tauri"@, "tauri-build"@], Some("tauri-"@))
            || facts.path_exists(join_path(context.workspace_root@, "src-tauri"@))
            || facts.path_exists(join_path(context.workspace_root@, "tauri.conf.json"@)),
    }
}

pub open spec fn tauri_development_commands() -> Seq<CommandSummary> {
    seq![
        tauri_dev_cmd(),
        tauri_dev_debug_cmd(),
        tauri_dev_release_cmd(),
        tauri_dev_no_watch_cmd(),
        tauri_info_cmd(),
        tauri_init_cmd(),
    ]
}

/// The build commands: per-platform builds when some dependency has an
/// `updater` or `api-all` feature.
pub open spec fn tauri_build_commands(context: ProjectContext) -> Seq<CommandSummary> {
    seq![tauri_build_cmd(), tauri_build_debug_cmd()] + (if some_dependency_with(
        context,
        seq![],
        seq!["updater"@, "api-all"@],
        false,
    ) {
        seq![tauri_build_windows_cmd(), tauri_build_macos_cmd(), tauri_build_linux_cmd()]
    } else {
        seq![]
    })
}

pub open spec fn tauri_test_commands() -> Seq<CommandSummary> {
    seq![tauri_test_cmd(), tauri_test_core_cmd(), tauri_test_webdriver_cmd()]
}

/// The commands for the symbol under the cursor.
pub open spec fn tauri_symbol_commands(s: Symbol) -> Seq<CommandSummary> {
    let name = s.name@;
    match s.kind {
        SymbolKind::Function => (if has_prefix(name, "cmd_"@) || has_sub(name, "command"@) || views(
            s.modifiers@,
        ).contains("tauri::command"@) {
            seq![tauri_test_command_cmd(name)]
        } else {
            seq![]
        }) + (if has_sub(name, "event"@) || has_sub(name, "handler"@) {
            seq![tauri_dev_events_cmd(name)]
        } else {
            seq![]
        }) + (if has_prefix(name, "test_"@) || views(s.modifiers@).contains("test"@) {
            seq![tauri_test_current_cmd(name)]
        } else {
            seq![]
        }),
        SymbolKind::Struct => if has_suffix(name, "State"@) || has_sub(name, "Config"@) {
            seq![tauri_check_state_cmd(name)]
        } else {
            seq![]
        },
        _ => seq![],
    }
}

/// The commands for the current file: those of the symbol under the
/// cursor, then those for the main file of `src-tauri` and for command
/// files.
pub open spec fn tauri_context_commands(context: ProjectContext) -> Seq<CommandSummary> {
    match context.current_file {
        None => seq![],
        Some(fc) => (match fc.cursor_symbol {
            Some(s) => tauri_symbol_commands(s),
            None => seq![],
        }) + (if has_sub(fc.path@, "main.rs"@) && has_sub(fc.path@, "src-tauri"@) {
            seq![tauri_check_main_cmd()]
        } else {
            seq![]
        }) + (if has_sub(fc.path@, "command"@) {
            seq![tauri_test_commands_run_cmd()]
        } else {
            seq![]
        }),
    }
}

/// The distribution commands: mobile development when a feature mentions
/// `mobile`, `android` or `ios`, signing and updates when one mentions
/// `updater`.
pub open spec fn tauri_distribution_commands(context: ProjectContext) -> Seq<CommandSummary> {
    seq![tauri_bundle_cmd(), tauri_icon_cmd(), tauri_add_cmd(), tauri_migrate_cmd()]
        + (if some_dependency_with(context, seq![], seq!["mobile"@, "android"@, "ios"@], false) {
        seq![tauri_android_dev_cmd(), tauri_ios_dev_cmd()]
    } else {
        seq![]
    }) + (if some_dependency_with(context, seq![], seq!["updater"@], false) {
        seq![tauri_sign_cmd(), tauri_updater_cmd()]
    } else {
        seq![]
    })
}

/// The commands of the Tauri provider, in order.
pub open spec fn tauri_provider_commands(context: ProjectContext) -> Seq<CommandSummary> {
    tauri_development_commands() + tauri_build_commands(context) + tauri_test_commands()
        + tauri_context_commands(context) + tauri_distribution_commands(context)
}

/// Provider for Tauri desktop application commands. It knows which paths
/// exist from the file system facts it was made with.
pub struct TauriProvider {
    priority: u8,
    facts: FileFacts,
}

impl TauriProvider {
    pub closed spec fn spec_tauri_priority(&self) -> u8 {
        self.priority
    }

    pub closed spec fn spec_facts(&self) -> FileFacts {
        self.facts
    }

    /// A provider that knows of no file.
    pub fn new() -> (r: Self)
        ensures
            r.spec_tauri_priority() == 88,
            r.spec_facts().existing_paths@.len() == 0,
    {
        TauriProvider { priority: 88, facts: FileFacts::none() }
    }

    /// A provider that checks paths against the given facts.
    pub fn with_facts(facts: FileFacts) -> (r: Self)
        ensures
            r.spec_tauri_priority() == 88,
            r.spec_facts() == facts,
    {
        TauriProvider { priority: 88, facts }
    }

    /// Development and running commands.
    fn development_commands(&self, context: &ProjectContext) -> (r: Vec<Command>)
        ensures
            summaries(r@) == tauri_development_commands(),
    {
        let mut v: Vec<Command> = Vec::new();
        push_command(&mut v, tauri_dev());
        push_command(&mut v, tauri_dev_debug());
        push_command(&mut v, tauri_dev_release());
        push_command(&mut v, tauri_dev_no_watch());
        push_command(&mut v, tauri_info());
        push_command(&mut v, tauri_init());
        assert(summaries(v@) =~= tauri_development_commands());
        v
    }

    /// Build commands for different platforms and targets.
    fn build_commands(&self, context: &ProjectContext) -> (r: Vec<Command>)
        ensures
            summaries(r@) == tauri_build_commands(*context),
    {
        let mut v: Vec<Command> = Vec::new();
        push_command(&mut v, tauri_build());
        push_command(&mut v, tauri_build_debug());
        let names: [&str; 0] = [];
        let patterns = ["updater", "api-all"];
        proof {
            assert(texts(names@) =~= seq![]);
            assert(texts(patterns@) =~= seq!["updater"@, "api-all"@]);
        }
        if any_dependency_with(context, &names, &patterns, false) {
            push_command(&mut v, tauri_build_windows());
            push_command(&mut v, tauri_build_macos());
            push_command(&mut v, tauri_build_linux());
        }
        assert(summaries(v@) =~= tauri_build_commands(*context));
        v
    }

    /// Testing commands.
    fn test_commands(&self, context: &ProjectContext) -> (r: Vec<Command>)
        ensures
            summaries(r@) == tauri_test_commands(),
    {
        let mut v: Vec<Command> = Vec::new();
        push_command(&mut v, tauri_test());
        push_command(&mut v, tauri_test_core());
        push_command(&mut v, tauri_test_webdriver());
        assert(summaries(v@) =~= tauri_test_commands());
        v
    }

    fn symbol_commands(&self, symbol: &Symbol) -> (r: Vec<Command>)
        ensures
            summaries(r@) == tauri_symbol_commands(*symbol),
    {
        let mut v: Vec<Command> = Vec::new();
        let name = symbol.name.as_str();
        match symbol.kind {
            SymbolKind::Function => {
                if str_starts_with(name, "cmd_") || str_contains(name, "command") || strings_contain(
                    &symbol.modifiers,
                    "tauri::command",
                ) {
                    push_command(&mut v, tauri_test_command(name));
                }
                if str_contains(name, "event") || str_contains(name, "handler") {
                    push_command(&mut v, tauri_dev_events(name));
                }
                if str_starts_with(name, "test_") || strings_contain(&symbol.modifiers, "test") {
                    push_command(&mut v, tauri_test_current(name));
                }
                assert(summaries(v@) =~= tauri_symbol_commands(*symbol));
            },
            SymbolKind::Struct => {
                if str_ends_with(name, "State") || str_contains(name, "Config") {
                    push_command(&mut v, tauri_check_state(name));
                }
                assert(summaries(v@) =~= tauri_symbol_commands(*symbol));
            },
            _ => {
                assert(summaries(v@) =~= tauri_symbol_commands(*symbol));
            },
        }
        v
    }

    /// Context-aware commands based on cursor position and file path.
    fn context_aware_commands(&self, context: &ProjectContext) -> (r: Vec<Command>)
        ensures
            summaries(r@) == tauri_context_commands(*context),
    {
        let mut v: Vec<Command> = Vec::new();
        if let Some(file_context) = &context.current_file {
            if let Some(symbol) = &file_context.cursor_symbol {
                v = self.symbol_commands(symbol);
            }
            let path = file_context.path.as_str();
            if str_contains(path, "main.rs") && str_contains(path, "src-tauri") {
                push_command(&mut v, tauri_check_main());
            }
            if str_contains(path, "command") {
                push_command(&mut v, tauri_test_commands_run());
            }
            assert(summaries(v@) =~= tauri_context_commands(*context));
        } else {
            assert(summaries(v@) =~= tauri_context_commands(*context));
        }
        v
    }

    /// Distribution and signing commands.
    fn distribution_commands(&self, context: &ProjectContext) -> (r: Vec<Command>)
        ensures
            summaries(r@) == tauri_distribution_commands(*context),
    {
        let mut v: Vec<Command> = Vec::new();
        push_command(&mut v, tauri_bundle());
        push_command(&mut v, tauri_icon());
        push_command(&mut v, tauri_add());
        push_command(&mut v, tauri_migrate());
        let ghost base = summaries(v@);
        let names: [&str; 0] = [];
        let mobile = ["mobile", "android", "ios"];
        let updater = ["updater"];
        proof {
            assert(texts(names@) =~= seq![]);
            assert(texts(mobile@) =~= seq!["mobile"@, "android"@, "ios"@]);
            assert(texts(updater@) =~= seq!["updater"@]);
        }
        if any_dependency_with(context, &names, &mobile, false) {
            push_command(&mut v, tauri_android_dev());
            push_command(&mut v, tauri_ios_dev());
        }
        if any_dependency_with(context, &names, &updater, false) {
            push_command(&mut v, tauri_sign());
            push_command(&mut v, tauri_updater());
        }
        assert(summaries(v@) =~= tauri_distribution_commands(*context));
        v
    }
}

impl TauriProvider {
    /// The provider's name.
    pub open spec fn spec_name(&self) -> Seq<char> {
        "tauri"@
    }

    /// The provider's priority (higher is more important).
    pub open spec fn spec_priority(&self) -> u8 {
        self.spec_tauri_priority()
    }

    /// Whether the provider applies to a project.
    pub open spec fn handles(&self, context: ProjectContext) -> bool {
        tauri_handles(context, self.spec_facts())
    }

    /// The commands the provider proposes for a project, in order.
    pub open spec fn provided(&self, context: ProjectContext) -> Seq<CommandSummary> {
        tauri_provider_commands(context)
    }
}

impl CommandProvider for TauriProvider {
    fn name(&self) -> (r: &str)
        ensures
            r@ == self.spec_name(),
    {
        "tauri"
    }

    fn priority(&self) -> (r: u8)
        ensures
            r == self.spec_priority(),
    {
        self.priority
    }

    fn can_handle(&self, context: &ProjectContext) -> (r: bool)
        ensures
            r == self.handles(*context),
    {
        match &context.project_type {
            ProjectType::Tauri => true,
            ProjectType::Mixed(frameworks) => project_types_contain(frameworks, &ProjectType::Tauri),
            _ => {
                let names = ["tauri", "tauri-build"];
                proof {
                    assert(texts(names@) =~= seq!["tauri"@, "tauri-build"@]);
                }
                if any_dependency_named(context, &names, Some("tauri-")) {
                    return true;
                }
                let dir = path_join(context.workspace_root.as_str(), "src-tauri");
                let conf = path_join(context.workspace_root.as_str(), "tauri.conf.json");
                strings_contain(&self.facts.existing_paths, dir.as_str()) || strings_contain(
                    &self.facts.existing_paths,
                    conf.as_str(),
                )
            },
        }
    }

    fn commands(&self, context: &ProjectContext) -> (r: RazResult<Vec<Command>>)
        ensures
            r is Ok ==> summaries(r->Ok_0@) == self.provided(*context),
            r is Ok,
    {
        let mut commands = self.development_commands(context);
        append_commands(&mut commands, self.build_commands(context));
        append_commands(&mut commands, self.test_commands(context));
        append_commands(&mut commands, self.context_aware_commands(context));
        append_commands(&mut commands, self.distribution_commands(context));
        Ok(commands)
    }
}

pub open spec fn tauri_dev_cmd() -> CommandSummary {
    CommandSummary {
        id: "tauri-dev"@,
        label: "Tauri Dev Server"@,
        description: Some("Start Tauri development server with hot reload"@),
        command: "cargo"@,
        args: seq!["tauri"@, "dev"@],
        env: seq![],
        cwd: None,
        category: CategoryView::Run,
        priority: 95,
        conditions: seq![],
        tags: seq!["dev"@, "serve"@, "tauri"@],
        requires_input: false,
        estimated_duration: Some(8),
    }
}
pub open spec fn tauri_dev_debug_cmd() -> CommandSummary {
    CommandSummary {
        id: "tauri-dev-debug"@,
        label: "Tauri Debug Mode"@,
        description: Some("Start development with debugging enabled"@),
        command: "cargo"@,
        args: seq!["tauri"@, "dev"@, "--debug"@],
        env: seq![],
        cwd: None,
        category: CategoryView::Run,
        priority: 90,
        conditions: seq![],
        tags: seq!["dev"@, "debug"@, "tauri"@],
        requires_input: false,
        estimated_duration: Some(10),
    }
}
pub open spec fn tauri_dev_release_cmd() -> CommandSummary {
    CommandSummary {
        id: "tauri-dev-release"@,
        label: "Tauri Dev Release"@,
        description: Some("Run in development mode with release build"@),
        command: "cargo"@,
        args: seq!["tauri"@, "dev"@, "--release"@],
        env: seq![],
        cwd: None,
        category: CategoryView::Run,
        priority: 85,
        conditions: seq![],
        tags: seq!["dev"@, "release"@, "tauri"@],
        requires_input: false,
        estimated_duration: Some(30),
    }
}
pub open spec fn tauri_dev_no_watch_cmd() -> CommandSummary {
    CommandSummary {
        id: "tauri-dev-no-watch"@,
        label: "Tauri Dev (No Watch)"@,
        description: Some("Start development without file watching"@),
        command: "cargo"@,
        args: seq!["tauri"@, "dev"@, "--no-watch"@],
        env: seq![],
        cwd: None,
        category: CategoryView::Run,
        priority: 80,
        conditions: seq![],
        tags: seq!["dev"@, "no-watch"@, "tauri"@],
        requires_input: false,
        estimated_duration: Some(6),
    }
}
pub open spec fn tauri_info_cmd() -> CommandSummary {
    CommandSummary {
        id: "tauri-info"@,
        label: "Tauri System Info"@,
        description: Some("Show Tauri environment and system information"@),
        command: "cargo"@,
        args: seq!["tauri"@, "info"@],
        env: seq![],
        cwd: None,
        category: CategoryView::Generate,
        priority: 75,
        conditions: seq![],
        tags: seq!["info"@, "system"@, "tauri"@],
        requires_input: false,
        estimated_duration: Some(2),
    }
}
pub open spec fn tauri_init_cmd() -> CommandSummary {
    CommandSummary {
        id: "tauri-init"@,
        label: "Initialize Tauri"@,
        description: Some("Add Tauri to existing project"@),
        command: "cargo"@,
        args: seq!["tauri"@, "init"@],
        env: seq![],
        cwd: None,
        category: CategoryView::Generate,
        priority: 70,
        conditions: seq![],
        tags: seq!["init"@, "setup"@, "tauri"@],
        requires_input: false,
        estimated_duration: Some(5),
    }
}
pub open spec fn tauri_build_cmd() -> CommandSummary {
    CommandSummary {
        id: "tauri-build"@,
        label: "Build Tauri App"@,
        description: Some("Build the Tauri application for current platform"@),
        command: "cargo"@,
        args: seq!["tauri"@, "build"@],
        env: seq![],
        cwd: None,
        category: CategoryView::Build,
        priority: 85,
        conditions: seq![],
        tags: seq!["build"@, "tauri"@],
        requires_input: false,
        estimated_duration: Some(60),
    }
}
pub open spec fn tauri_build_debug_cmd() -> CommandSummary {
    CommandSummary {
        id: "tauri-build-debug"@,
        label: "Build Debug"@,
        description: Some("Build debug version of the app"@),
        command: "cargo"@,
        args: seq!["tauri"@, "build"@, "--debug"@],
        env: seq![],
        cwd: None,
        category: CategoryView::Build,
        priority: 80,
        conditions: seq![],
        tags: seq!["build"@, "debug"@, "tauri"@],
        requires_input: false,
        estimated_duration: Some(45),
    }
}
pub open spec fn tauri_build_windows_cmd() -> CommandSummary {
    CommandSummary {
        id: "tauri-build-windows"@,
        label: "Build for Windows"@,
        description: Some("Cross-compile for Windows"@),
        command: "cargo"@,
        args: seq!["tauri"@, "build"@, "--target"@, "x86_64-pc-windows-msvc"@],
        env: seq![],
        cwd: None,
        category: CategoryView::Build,
        priority: 75,
        conditions: seq![],
        tags: seq!["build"@, "windows"@, "cross"@, "tauri"@],
        requires_input: false,
        estimated_duration: Some(90),
    }
}
pub open spec fn tauri_build_macos_cmd() -> CommandSummary {
    CommandSummary {
        id: "tauri-build-macos"@,
        label: "Build for macOS"@,
        description: Some("Cross-compile for macOS"@),
        command: "cargo"@,
        args: seq!["tauri"@, "build"@, "--target"@, "x86_64-apple-darwin"@],
        env: seq![],
        cwd: None,
        category: CategoryView::Build,
        priority: 75,
        conditions: seq![],
        tags: seq!["build"@, "macos"@, "cross"@, "tauri"@],
        requires_input: false,
        estimated_duration: Some(100),
    }
}
pub open spec fn tauri_build_linux_cmd() -> CommandSummary {
    CommandSummary {
        id: "tauri-build-linux"@,
        label: "Build for Linux"@,
        description: Some("Cross-compile for Linux"@),
        command: "cargo"@,
        args: seq!["tauri"@, "build"@, "--target"@, "x86_64-unknown-linux-gnu"@],
        env: seq![],
        cwd: None,
        category: CategoryView::Build,
        priority: 75,
        conditions: seq![],
        tags: seq!["build"@, "linux"@, "cross"@, "tauri"@],
        requires_input: false,
        estimated_duration: Some(85),
    }
}
pub open spec fn tauri_test_cmd() -> CommandSummary {
    CommandSummary {
        id: "tauri-test"@,
        label: "Run Tauri Tests"@,
        description: Some("Run unit and integration tests"@),
        command: "cargo"@,
        args: seq!["test"@],
        env: seq![],
        cwd: None,
        category: CategoryView::Test,
        priority: 75,
        conditions: seq![],
        tags: seq!["test"@, "tauri"@],
        requires_input: false,
        estimated_duration: Some(25),
    }
}
pub open spec fn tauri_test_core_cmd() -> CommandSummary {
    CommandSummary {
        id: "tauri-test-core"@,
        label: "Test Core Logic"@,
        description: Some("Test Rust core logic without UI"@),
        command: "cargo"@,
        args: seq!["test"@, "--package"@, "src-tauri"@],
        env: seq![],
        cwd: None,
        category: CategoryView::Test,
        priority: 80,
        conditions: seq![],
        tags: seq!["test"@, "core"@, "tauri"@],
        requires_input: false,
        estimated_duration: Some(15),
    }
}
pub open spec fn tauri_test_webdriver_cmd() -> CommandSummary {
    CommandSummary {
        id: "tauri-test-webdriver"@,
        label: "WebDriver Tests"@,
        description: Some("Run end-to-end tests with WebDriver"@),
        command: "cargo"@,
        args: seq!["&&"@, "cargo"@, "test"@, "--test"@, "webdriver"@],
        env: seq![],
        cwd: None,
        category: CategoryView::Test,
        priority: 70,
        conditions: seq![],
        tags: seq!["test"@, "e2e"@, "webdriver"@, "tauri"@],
        requires_input: false,
        estimated_duration: Some(60),
    }
}
pub open spec fn tauri_test_command_cmd(name: Seq<char>) -> CommandSummary {
    CommandSummary {
        id: "tauri-test-command"@,
        label: "Test Tauri Command"@,
        description: Some("Test command function: "@ + name),
        command: "cargo"@,
        args: seq!["test"@, "test_"@ + name],
        env: seq![],
        cwd: None,
        category: CategoryView::Test,
        priority: 85,
        conditions: seq![],
        tags: seq!["command"@, "test"@, "tauri"@],
        requires_input: false,
        estimated_duration: Some(8),
    }
}
pub open spec fn tauri_dev_events_cmd(name: Seq<char>) -> CommandSummary {
    CommandSummary {
        id: "tauri-dev-events"@,
        label: "Debug Event Handlers"@,
        description: Some("Run with event debugging: "@ + name),
        command: "cargo"@,
        args: seq!["tauri"@, "dev"@, "--debug"@],
        env: seq![],
        cwd: None,
        category: CategoryView::Run,
        priority: 80,
        conditions: seq![],
        tags: seq!["events"@, "debug"@, "tauri"@],
        requires_input: false,
        estimated_duration: Some(12),
    }
}
pub open spec fn tauri_test_current_cmd(name: Seq<char>) -> CommandSummary {
    CommandSummary {
        id: "tauri-test-current"@,
        label: "Test Current Function"@,
        description: Some("Run test: "@ + name),
        command: "cargo"@,
        args: seq!["test"@, name, "--"@, "--nocapture"@],
        env: seq![],
        cwd: None,
        category: CategoryView::Test,
        priority: 90,
        conditions: seq![],
        tags: seq!["test"@, "current"@, "tauri"@],
        requires_input: false,
        estimated_duration: Some(5),
    }
}
pub open spec fn tauri_check_state_cmd(name: Seq<char>) -> CommandSummary {
    CommandSummary {
        id: "tauri-check-state"@,
        label: "Check State Management"@,
        description: Some("Validate state struct: "@ + name),
        command: "cargo"@,
        args: seq!["check"@],
        env: seq![],
        cwd: None,
        category: CategoryView::Lint,
        priority: 75,
        conditions: seq![],
        tags: seq!["state"@, "check"@, "tauri"@],
        requires_input: false,
        estimated_duration: Some(10),
    }
}
pub open spec fn tauri_check_main_cmd() -> CommandSummary {
    CommandSummary {
        id: "tauri-check-main"@,
        label: "Check Main App"@,
        description: Some("Check main Tauri application logic"@),
        command: "cargo"@,
        args: seq!["check"@, "--package"@, "src-tauri"@],
        env: seq![],
        cwd: None,
        category: CategoryView::Lint,
        priority: 85,
        conditions: seq![],
        tags: seq!["main"@, "check"@, "tauri"@],
        requires_input: false,
        estimated_duration: Some(8),
    }
}
pub open spec fn tauri_test_commands_run_cmd() -> CommandSummary {
    CommandSummary {
        id: "tauri-test-commands"@,
        label: "Test All Commands"@,
        description: Some("Test all Tauri command handlers"@),
        command: "cargo"@,
        args: seq!["test"@, "commands"@],
        env: seq![],
        cwd: None,
        category: CategoryView::Test,
        priority: 80,
        conditions: seq![],
        tags: seq!["commands"@, "test"@, "tauri"@],
        requires_input: false,
        estimated_duration: Some(20),
    }
}
pub open spec fn tauri_bundle_cmd() -> CommandSummary {
    CommandSummary {
        id: "tauri-bundle"@,
        label: "Create App Bundle"@,
        description: Some("Create platform-specific app bundle"@),
        command: "cargo"@,
        args: seq!["tauri"@, "build"@, "--bundles"@, "all"@],
        env: seq![],
        cwd: None,
        category: CategoryView::Deploy,
        priority: 75,
        conditions: seq![],
        tags: seq!["bundle"@, "deploy"@, "tauri"@],
        requires_input: false,
        estimated_duration: Some(90),
    }
}
pub open spec fn tauri_icon_cmd() -> CommandSummary {
    CommandSummary {
        id: "tauri-icon"@,
        label: "Generate App Icons"@,
        description: Some("Generate app icons from source image"@),
        command: "cargo"@,
        args: seq!["tauri"@, "icon"@],
        env: seq![],
        cwd: None,
        category: CategoryView::Generate,
        priority: 65,
        conditions: seq![],
        tags: seq!["icon"@, "generate"@, "tauri"@],
        requires_input: false,
        estimated_duration: Some(5),
    }
}
pub open spec fn tauri_add_cmd() -> CommandSummary {
    CommandSummary {
        id: "tauri-add"@,
        label: "Add Tauri Plugin"@,
        description: Some("Add a Tauri plugin to the project"@),
        command: "cargo"@,
        args: seq!["tauri"@, "add"@],
        env: seq![],
        cwd: None,
        category: CategoryView::Generate,
        priority: 60,
        conditions: seq![],
        tags: seq!["plugin"@, "add"@, "tauri"@],
        requires_input: false,
        estimated_duration: Some(10),
    }
}
pub open spec fn tauri_migrate_cmd() -> CommandSummary {
    CommandSummary {
        id: "tauri-migrate"@,
        label: "Migrate to Tauri v2"@,
        description: Some("Migrate project from Tauri v1 to v2"@),
        command: "cargo"@,
        args: seq!["tauri"@, "migrate"@],
        env: seq![],
        cwd: None,
        category: CategoryView::Generate,
        priority: 55,
        conditions: seq![],
        tags: seq!["migrate"@, "upgrade"@, "tauri"@],
        requires_input: false,
        estimated_duration: Some(20),
    }
}
pub open spec fn tauri_android_dev_cmd() -> CommandSummary {
    CommandSummary {
        id: "tauri-android-dev"@,
        label: "Android Dev"@,
        description: Some("Run Tauri app on Android device/emulator"@),
        command: "cargo"@,
        args: seq!["tauri"@, "android"@, "dev"@],
        env: seq![],
        cwd: None,
        category: CategoryView::Run,
        priority: 70,
        conditions: seq![],
        tags: seq!["mobile"@, "android"@, "dev"@, "tauri"@],
        requires_input: false,
        estimated_duration: Some(60),
    }
}
pub open spec fn tauri_ios_dev_cmd() -> CommandSummary {
    CommandSummary {
        id: "tauri-ios-dev"@,
        label: "iOS Dev"@,
        description: Some("Run Tauri app on iOS device/simulator"@),
        command: "cargo"@,
        args: seq!["tauri"@, "ios"@, "dev"@],
        env: seq![],
        cwd: None,
        category: CategoryView::Run,
        priority: 70,
        conditions: seq![],
        tags: seq!["mobile"@, "ios"@, "dev"@, "tauri"@],
        requires_input: false,
        estimated_duration: Some(60),
    }
}
pub open spec fn tauri_sign_cmd() -> CommandSummary {
    CommandSummary {
        id: "tauri-sign"@,
        label: "Sign Application"@,
        description: Some("Sign the application for distribution"@),
        command: "cargo"@,
        args: seq!["tauri"@, "signer"@, "sign"@],
        env: seq![],
        cwd: None,
        category: CategoryView::Deploy,
        priority: 70,
        conditions: seq![],
        tags: seq!["sign"@, "security"@, "deploy"@, "tauri"@],
        requires_input: false,
        estimated_duration: Some(15),
    }
}
pub open spec fn tauri_updater_cmd() -> CommandSummary {
    CommandSummary {
        id: "tauri-updater"@,
        label: "Generate Update"@,
        description: Some("Generate update package for auto-updater"@),
        command: "cargo"@,
        args: seq!["tauri"@, "build"@, "--config"@, "updater.active=true"@],
        env: seq![],
        cwd: None,
        category: CategoryView::Deploy,
        priority: 70,
        conditions: seq![],
        tags: seq!["updater"@, "deploy"@, "tauri"@],
        requires_input: false,
        estimated_duration: Some(75),
    }
}

fn tauri_dev() -> (r: Command)
    ensures
        summary(r@) == tauri_dev_cmd(),
{
    let c = CommandBuilder::new("tauri-dev", "cargo")
        .label("Tauri Dev Server")
        .description("Start Tauri development server with hot reload")
        .arg("tauri")
        .arg("dev")
        .category(CommandCategory::Run)
        .priority(95)
        .tag("dev")
        .tag("serve")
        .tag("tauri")
        .estimated_duration(8)
        .build();
    
    
    assert(views(c@.args) =~= seq!["tauri"@, "dev"@]);
    assert(views(c@.tags) =~= seq!["dev"@, "serve"@, "tauri"@]);
    assert(summary(c@).env =~= seq![]);
    c
}
fn tauri_dev_debug() -> (r: Command)
    ensures
        summary(r@) == tauri_dev_debug_cmd(),
{
    let c = CommandBuilder::new("tauri-dev-debug", "cargo")
        .label("Tauri Debug Mode")
        .description("Start development with debugging enabled")
        .arg("tauri")
        .arg("dev")
        .arg("--debug")
        .category(CommandCategory::Run)
        .priority(90)
        .tag("dev")
        .tag("debug")
        .tag("tauri")
        .estimated_duration(10)
        .build();
    
    
    assert(views(c@.args) =~= seq!["tauri"@, "dev"@, "--debug"@]);
    assert(views(c@.tags) =~= seq!["dev"@, "debug"@, "tauri"@]);
    assert(summary(c@).env =~= seq![]);
    c
}
fn tauri_dev_release() -> (r: Command)
    ensures
        summary(r@) == tauri_dev_release_cmd(),
{
    let c = CommandBuilder::new("tauri-dev-release", "cargo")
        .label("Tauri Dev Release")
        .description("Run in development mode with release build")
        .arg("tauri")
        .arg("dev")
        .arg("--release")
        .category(CommandCategory::Run)
        .priority(85)
        .tag("dev")
        .tag("release")
        .tag("tauri")
        .estimated_duration(30)
        .build();
    
    
    assert(views(c@.args) =~= seq!["tauri"@, "dev"@, "--release"@]);
    assert(views(c@.tags) =~= seq!["dev"@, "release"@, "tauri"@]);
    assert(summary(c@).env =~= seq![]);
    c
}
fn tauri_dev_no_watch() -> (r: Command)
    ensures
        summary(r@) == tauri_dev_no_watch_cmd(),
{
    let c = CommandBuilder::new("tauri-dev-no-watch", "cargo")
        .label("Tauri Dev (No Watch)")
        .description("Start development without file watching")
        .arg("tauri")
        .arg("dev")
        .arg("--no-watch")
        .category(CommandCategory::Run)
        .priority(80)
        .tag("dev")
        .tag("no-watch")
        .tag("tauri")
        .estimated_duration(6)
        .build();
    
    
    assert(views(c@.args) =~= seq!["tauri"@, "dev"@, "--no-watch"@]);
    assert(views(c@.tags) =~= seq!["dev"@, "no-watch"@, "tauri"@]);
    assert(summary(c@).env =~= seq![]);
    c
}
fn tauri_info() -> (r: Command)
    ensures
        summary(r@) == tauri_info_cmd(),
{
    let c = CommandBuilder::new("tauri-info", "cargo")
        .label("Tauri System Info")
        .description("Show Tauri environment and system information")
        .arg("tauri")
        .arg("info")
        .category(CommandCategory::Generate)
        .priority(75)
        .tag("info")
        .tag("system")
        .tag("tauri")
        .estimated_duration(2)
        .build();
    
    
    assert(views(c@.args) =~= seq!["tauri"@, "info"@]);
    assert(views(c@.tags) =~= seq!["info"@, "system"@, "tauri"@]);
    assert(summary(c@).env =~= seq![]);
    c
}
fn tauri_init() -> (r: Command)
    ensures
        summary(r@) == tauri_init_cmd(),
{
    let c = CommandBuilder::new("tauri-init", "cargo")
        .label("Initialize Tauri")
        .description("Add Tauri to existing project")
        .arg("tauri")
        .arg("init")
        .category(CommandCategory::Generate)
        .priority(70)
        .tag("init")
        .tag("setup")
        .tag("tauri")
        .estimated_duration(5)
        .build();
    
    
    assert(views(c@.args) =~= seq!["tauri"@, "init"@]);
    assert(views(c@.tags) =~= seq!["init"@, "setup"@, "tauri"@]);
    assert(summary(c@).env =~= seq![]);
    c
}
fn tauri_build() -> (r: Command)
    ensures
        summary(r@) == tauri_build_cmd(),
{
    let c = CommandBuilder::new("tauri-build", "cargo")
        .label("Build Tauri App")
        .description("Build the Tauri application for current platform")
        .arg("tauri")
        .arg("build")
        .category(CommandCategory::Build)
        .priority(85)
        .tag("build")
        .tag("tauri")
        .estimated_duration(60)
        .build();
    
    
    assert(views(c@.args) =~= seq!["tauri"@, "build"@]);
    assert(views(c@.tags) =~= seq!["build"@, "tauri"@]);
    assert(summary(c@).env =~= seq![]);
    c
}
fn tauri_build_debug() -> (r: Command)
    ensures
        summary(r@) == tauri_build_debug_cmd(),
{
    let c = CommandBuilder::new("tauri-build-debug", "cargo")
        .label("Build Debug")
        .description("Build debug version of the app")
        .arg("tauri")
        .arg("build")
        .arg("--debug")
        .category(CommandCategory::Build)
        .priority(80)
        .tag("build")
        .tag("debug")
        .tag("tauri")
        .estimated_duration(45)
        .build();
    
    
    assert(views(c@.args) =~= seq!["tauri"@, "build"@, "--debug"@]);
    assert(views(c@.tags) =~= seq!["build"@, "debug"@, "tauri"@]);
    assert(summary(c@).env =~= seq![]);
    c
}
fn tauri_build_windows() -> (r: Command)
    ensures
        summary(r@) == tauri_build_windows_cmd(),
{
    let c = CommandBuilder::new("tauri-build-windows", "cargo")
        .label("Build for Windows")
        .description("Cross-compile for Windows")
        .arg("tauri")
        .arg("build")
        .arg("--target")
        .arg("x86_64-pc-windows-msvc")
        .category(CommandCategory::Build)
        .priority(75)
        .tag("build")
        .tag("windows")
        .tag("cross")
        .tag("tauri")
        .estimated_duration(90)
        .build();
    
    
    assert(views(c@.args) =~= seq!["tauri"@, "build"@, "--target"@, "x86_64-pc-windows-msvc"@]);
    assert(views(c@.tags) =~= seq!["build"@, "windows"@, "cross"@, "tauri"@]);
    assert(summary(c@).env =~= seq![]);
    c
}
fn tauri_build_macos() -> (r: Command)
    ensures
        summary(r@) == tauri_build_macos_cmd(),
{
    let c = CommandBuilder::new("tauri-build-macos", "cargo")
        .label("Build for macOS")
        .description("Cross-compile for macOS")
        .arg("tauri")
        .arg("build")
        .arg("--target")
        .arg("x86_64-apple-darwin")
        .category(CommandCategory::Build)
        .priority(75)
        .tag("build")
        .tag("macos")
        .tag("cross")
        .tag("tauri")
        .estimated_duration(100)
        .build();
    
    
    assert(views(c@.args) =~= seq!["tauri"@, "build"@, "--target"@, "x86_64-apple-darwin"@]);
    assert(views(c@.tags) =~= seq!["build"@, "macos"@, "cross"@, "tauri"@]);
    assert(summary(c@).env =~= seq![]);
    c
}
fn tauri_build_linux() -> (r: Command)
    ensures
        summary(r@) == tauri_build_linux_cmd(),
{
    let c = CommandBuilder::new("tauri-build-linux", "cargo")
        .label("Build for Linux")
        .description("Cross-compile for Linux")
        .arg("tauri")
        .arg("build")
        .arg("--target")
        .arg("x86_64-unknown-linux-gnu")
        .category(CommandCategory::Build)
        .priority(75)
        .tag("build")
        .tag("linux")
        .tag("cross")
        .tag("tauri")
        .estimated_duration(85)
        .build();
    
    
    assert(views(c@.args) =~= seq!["tauri"@, "build"@, "--target"@, "x86_64-unknown-linux-gnu"@]);
    assert(views(c@.tags) =~= seq!["build"@, "linux"@, "cross"@, "tauri"@]);
    assert(summary(c@).env =~= seq![]);
    c
}
fn tauri_test() -> (r: Command)
    ensures
        summary(r@) == tauri_test_cmd(),
{
    let c = CommandBuilder::new("tauri-test", "cargo")
        .label("Run Tauri Tests")
        .description("Run unit and integration tests")
        .arg("test")
        .category(CommandCategory::Test)
        .priority(75)
        .tag("test")
        .tag("tauri")
        .estimated_duration(25)
        .build();
    
    
    assert(views(c@.args) =~= seq!["test"@]);
    assert(views(c@.tags) =~= seq!["test"@, "tauri"@]);
    assert(summary(c@).env =~= seq![]);
    c
}
fn tauri_test_core() -> (r: Command)
    ensures
        summary(r@) == tauri_test_core_cmd(),
{
    let c = CommandBuilder::new("tauri-test-core", "cargo")
        .label("Test Core Logic")
        .description("Test Rust core logic without UI")
        .arg("test")
        .arg("--package")
        .arg("src-tauri")
        .category(CommandCategory::Test)
        .priority(80)
        .tag("test")
        .tag("core")
        .tag("tauri")
        .estimated_duration(15)
        .build();
    
    
    assert(views(c@.args) =~= seq!["test"@, "--package"@, "src-tauri"@]);
    assert(views(c@.tags) =~= seq!["test"@, "core"@, "tauri"@]);
    assert(summary(c@).env =~= seq![]);
    c
}
fn tauri_test_webdriver() -> (r: Command)
    ensures
        summary(r@) == tauri_test_webdriver_cmd(),
{
    let c = CommandBuilder::new("tauri-test-webdriver", "cargo")
        .label("WebDriver Tests")
        .description("Run end-to-end tests with WebDriver")
        .arg("&&")
        .arg("cargo")
        .arg("test")
        .arg("--test")
        .arg("webdriver")
        .category(CommandCategory::Test)
        .priority(70)
        .tag("test")
        .tag("e2e")
        .tag("webdriver")
        .tag("tauri")
        .estimated_duration(60)
        .build();
    
    
    assert(views(c@.args) =~= seq!["&&"@, "cargo"@, "test"@, "--test"@, "webdriver"@]);
    assert(views(c@.tags) =~= seq!["test"@, "e2e"@, "webdriver"@, "tauri"@]);
    assert(summary(c@).env =~= seq![]);
    c
}
fn tauri_test_command(name: &str) -> (r: Command)
    ensures
        summary(r@) == tauri_test_command_cmd(name@),
{
    let c = CommandBuilder::new("tauri-test-command", "cargo")
        .label("Test Tauri Command")
        .description(fmt_text("Test command function: ", name, "").as_str())
        .arg("test")
        .arg(fmt_text("test_", name, "").as_str())
        .category(CommandCategory::Test)
        .priority(85)
        .tag("command")
        .tag("test")
        .tag("tauri")
        .estimated_duration(8)
        .build();
    proof { reveal_strlit(""); }
    assert(c@.description->0@ =~= "Test command function: "@ + name@);
    assert(views(c@.args) =~= seq!["test"@, "test_"@ + name@]);
    assert(views(c@.tags) =~= seq!["command"@, "test"@, "tauri"@]);
    assert(summary(c@).env =~= seq![]);
    c
}
fn tauri_dev_events(name: &str) -> (r: Command)
    ensures
        summary(r@) == tauri_dev_events_cmd(name@),
{
    let c = CommandBuilder::new("tauri-dev-events", "cargo")
        .label("Debug Event Handlers")
        .description(fmt_text("Run with event debugging: ", name, "").as_str())
        .arg("tauri")
        .arg("dev")
        .arg("--debug")
        .category(CommandCategory::Run)
        .priority(80)
        .tag("events")
        .tag("debug")
        .tag("tauri")
        .estimated_duration(12)
        .build();
    proof { reveal_strlit(""); }
    assert(c@.description->0@ =~= "Run with event debugging: "@ + name@);
    assert(views(c@.args) =~= seq!["tauri"@, "dev"@, "--debug"@]);
    assert(views(c@.tags) =~= seq!["events"@, "debug"@, "tauri"@]);
    assert(summary(c@).env =~= seq![]);
    c
}
fn tauri_test_current(name: &str) -> (r: Command)
    ensures
        summary(r@) == tauri_test_current_cmd(name@),
{
    let c = CommandBuilder::new("tauri-test-current", "cargo")
        .label("Test Current Function")
        .description(fmt_text("Run test: ", name, "").as_str())
        .arg("test")
        .arg(name)
        .arg("--")
        .arg("--nocapture")
        .category(CommandCategory::Test)
        .priority(90)
        .tag("test")
        .tag("current")
        .tag("tauri")
        .estimated_duration(5)
        .build();
    proof { reveal_strlit(""); }
    assert(c@.description->0@ =~= "Run test: "@ + name@);
    assert(views(c@.args) =~= seq!["test"@, name@, "--"@, "--nocapture"@]);
    assert(views(c@.tags) =~= seq!["test"@, "current"@, "tauri"@]);
    assert(summary(c@).env =~= seq![]);
    c
}
fn tauri_check_state(name: &str) -> (r: Command)
    ensures
        summary(r@) == tauri_check_state_cmd(name@),
{
    let c = CommandBuilder::new("tauri-check-state", "cargo")
        .label("Check State Management")
        .description(fmt_text("Validate state struct: ", name, "").as_str())
        .arg("check")
        .category(CommandCategory::Lint)
        .priority(75)
        .tag("state")
        .tag("check")
        .tag("tauri")
        .estimated_duration(10)
        .build();
    proof { reveal_strlit(""); }
    assert(c@.description->0@ =~= "Validate state struct: "@ + name@);
    assert(views(c@.args) =~= seq!["check"@]);
    assert(views(c@.tags) =~= seq!["state"@, "check"@, "tauri"@]);
    assert(summary(c@).env =~= seq![]);
    c
}
fn tauri_check_main() -> (r: Command)
    ensures
        summary(r@) == tauri_check_main_cmd(),
{
    let c = CommandBuilder::new("tauri-check-main", "cargo")
        .label("Check Main App")
        .description("Check main Tauri application logic")
        .arg("check")
        .arg("--package")
        .arg("src-tauri")
        .category(CommandCategory::Lint)
        .priority(85)
        .tag("main")
        .tag("check")
        .tag("tauri")
        .estimated_duration(8)
        .build();
    
    
    assert(views(c@.args) =~= seq!["check"@, "--package"@, "src-tauri"@]);
    assert(views(c@.tags) =~= seq!["main"@, "check"@, "tauri"@]);
    assert(summary(c@).env =~= seq![]);
    c
}
fn tauri_test_commands_run() -> (r: Command)
    ensures
        summary(r@) == tauri_test_commands_run_cmd(),
{
    let c = CommandBuilder::new("tauri-test-commands", "cargo")
        .label("Test All Commands")
        .description("Test all Tauri command handlers")
        .arg("test")
        .arg("commands")
        .category(CommandCategory::Test)
        .priority(80)
        .tag("commands")
        .tag("test")
        .tag("tauri")
        .estimated_duration(20)
        .build();
    
    
    assert(views(c@.args) =~= seq!["test"@, "commands"@]);
    assert(views(c@.tags) =~= seq!["commands"@, "test"@, "tauri"@]);
    assert(summary(c@).env =~= seq![]);
    c
}
fn tauri_bundle() -> (r: Command)
    ensures
        summary(r@) == tauri_bundle_cmd(),
{
    let c = CommandBuilder::new("tauri-bundle", "cargo")
        .label("Create App Bundle")
        .description("Create platform-specific app bundle")
        .arg("tauri")
        .arg("build")
        .arg("--bundles")
        .arg("all")
        .category(CommandCategory::Deploy)
        .priority(75)
        .tag("bundle")
        .tag("deploy")
        .tag("tauri")
        .estimated_duration(90)
        .build();
    
    
    assert(views(c@.args) =~= seq!["tauri"@, "build"@, "--bundles"@, "all"@]);
    assert(views(c@.tags) =~= seq!["bundle"@, "deploy"@, "tauri"@]);
    assert(summary(c@).env =~= seq![]);
    c
}
fn tauri_icon() -> (r: Command)
    ensures
        summary(r@) == tauri_icon_cmd(),
{
    let c = CommandBuilder::new("tauri-icon", "cargo")
        .label("Generate App Icons")
        .description("Generate app icons from source image")
        .arg("tauri")
        .arg("icon")
        .category(CommandCategory::Generate)
        .priority(65)
        .tag("icon")
        .tag("generate")
        .tag("tauri")
        .estimated_duration(5)
        .build();
    
    
    assert(views(c@.args) =~= seq!["tauri"@, "icon"@]);
    assert(views(c@.tags) =~= seq!["icon"@, "generate"@, "tauri"@]);
    assert(summary(c@).env =~= seq![]);
    c
}
fn tauri_add() -> (r: Command)
    ensures
        summary(r@) == tauri_add_cmd(),
{
    let c = CommandBuilder::new("tauri-add", "cargo")
        .label("Add Tauri Plugin")
        .description("Add a Tauri plugin to the project")
        .arg("tauri")
        .arg("add")
        .category(CommandCategory::Generate)
        .priority(60)
        .tag("plugin")
        .tag("add")
        .tag("tauri")
        .estimated_duration(10)
        .build();
    
    
    assert(views(c@.args) =~= seq!["tauri"@, "add"@]);
    assert(views(c@.tags) =~= seq!["plugin"@, "add"@, "tauri"@]);
    assert(summary(c@).env =~= seq![]);
    c
}
fn tauri_migrate() -> (r: Command)
    ensures
        summary(r@) == tauri_migrate_cmd(),
{
    let c = CommandBuilder::new("tauri-migrate", "cargo")
        .label("Migrate to Tauri v2")
        .description("Migrate project from Tauri v1 to v2")
        .arg("tauri")
        .arg("migrate")
        .category(CommandCategory::Generate)
        .priority(55)
        .tag("migrate")
        .tag("upgrade")
        .tag("tauri")
        .estimated_duration(20)
        .build();
    
    
    assert(views(c@.args) =~= seq!["tauri"@, "migrate"@]);
    assert(views(c@.tags) =~= seq!["migrate"@, "upgrade"@, "tauri"@]);
    assert(summary(c@).env =~= seq![]);
    c
}
fn tauri_android_dev() -> (r: Command)
    ensures
        summary(r@) == tauri_android_dev_cmd(),
{
    let c = CommandBuilder::new("tauri-android-dev", "cargo")
        .label("Android Dev")
        .description("Run Tauri app on Android device/emulator")
        .arg("tauri")
        .arg("android")
        .arg("dev")
        .category(CommandCategory::Run)
        .priority(70)
        .tag("mobile")
        .tag("android")
        .tag("dev")
        .tag("tauri")
        .estimated_duration(60)
        .build();
    
    
    assert(views(c@.args) =~= seq!["tauri"@, "android"@, "dev"@]);
    assert(views(c@.tags) =~= seq!["mobile"@, "android"@, "dev"@, "tauri"@]);
    assert(summary(c@).env =~= seq![]);
    c
}
fn tauri_ios_dev() -> (r: Command)
    ensures
        summary(r@) == tauri_ios_dev_cmd(),
{
    let c = CommandBuilder::new("tauri-ios-dev", "cargo")
        .label("iOS Dev")
        .description("Run Tauri app on iOS device/simulator")
        .arg("tauri")
        .arg("ios")
        .arg("dev")
        .category(CommandCategory::Run)
        .priority(70)
        .tag("mobile")
        .tag("ios")
        .tag("dev")
        .tag("tauri")
        .estimated_duration(60)
        .build();
    
    
    assert(views(c@.args) =~= seq!["tauri"@, "ios"@, "dev"@]);
    assert(views(c@.tags) =~= seq!["mobile"@, "ios"@, "dev"@, "tauri"@]);
    assert(summary(c@).env =~= seq![]);
    c
}
fn tauri_sign() -> (r: Command)
    ensures
        summary(r@) == tauri_sign_cmd(),
{
    let c = CommandBuilder::new("tauri-sign", "cargo")
        .label("Sign Application")
        .description("Sign the application for distribution")
        .arg("tauri")
        .arg("signer")
        .arg("sign")
        .category(CommandCategory::Deploy)
        .priority(70)
        .tag("sign")
        .tag("security")
        .tag("deploy")
        .tag("tauri")
        .estimated_duration(15)
        .build();
    
    
    assert(views(c@.args) =~= seq!["tauri"@, "signer"@, "sign"@]);
    assert(views(c@.tags) =~= seq!["sign"@, "security"@, "deploy"@, "tauri"@]);
    assert(summary(c@).env =~= seq![]);
    c
}
fn tauri_updater() -> (r: Command)
    ensures
        summary(r@) == tauri_updater_cmd(),
{
    let c = CommandBuilder::new("tauri-updater", "cargo")
        .label("Generate Update")
        .description("Generate update package for auto-updater")
        .arg("tauri")
        .arg("build")
        .arg("--config")
        .arg("updater.active=true")
        .category(CommandCategory::Deploy)
        .priority(70)
        .tag("updater")
        .tag("deploy")
        .tag("tauri")
        .estimated_duration(75)
        .build();
    
    
    assert(views(c@.args) =~= seq!["tauri"@, "build"@, "--config"@, "updater.active=true"@]);
    assert(views(c@.tags) =~= seq!["updater"@, "deploy"@, "tauri"@]);
    assert(summary(c@).env =~= seq![]);
    c
}

proof fn lemma_tauri_development_tagged()
    ensures
        all_tagged(tauri_development_commands(), "tauri"@),
{
    broadcast use vstd::seq_lib::group_seq_properties;
    let s = tauri_development_commands();
    assert forall|i: int| 0 <= i < s.len() implies (#[trigger] s[i]).tags.contains("tauri"@) by {}
}

proof fn lemma_tauri_build_tagged(context: ProjectContext)
    ensures
        all_tagged(tauri_build_commands(context), "tauri"@),
{
    broadcast use vstd::seq_lib::group_seq_properties;
    let s = tauri_build_commands(context);
    assert forall|i: int| 0 <= i < s.len() implies (#[trigger] s[i]).tags.contains("tauri"@) by {}
}

proof fn lemma_tauri_test_tagged()
    ensures
        all_tagged(tauri_test_commands(), "tauri"@),
{
    broadcast use vstd::seq_lib::group_seq_properties;
    let s = tauri_test_commands();
    assert forall|i: int| 0 <= i < s.len() implies (#[trigger] s[i]).tags.contains("tauri"@) by {}
}

proof fn lemma_tauri_context_tagged(context: ProjectContext)
    ensures
        all_tagged(tauri_context_commands(context), "tauri"@),
{
    broadcast use vstd::seq_lib::group_seq_properties;
    let s = tauri_context_commands(context);
    assert forall|i: int| 0 <= i < s.len() implies (#[trigger] s[i]).tags.contains("tauri"@) by {}
}

proof fn lemma_tauri_distribution_tagged(context: ProjectContext)
    ensures
        all_tagged(tauri_distribution_commands(context), "tauri"@),
{
    broadcast use vstd::seq_lib::group_seq_properties;
    let s = tauri_distribution_commands(context);
    assert forall|i: int| 0 <= i < s.len() implies (#[trigger] s[i]).tags.contains("tauri"@) by {}
}

/// Every command the Tauri provider proposes carries the `tauri` tag.
pub proof fn lemma_tauri_commands_tagged(context: ProjectContext)
    ensures
        all_tagged(tauri_provider_commands(context), "tauri"@),
{
    let d = tauri_development_commands();
    let b = tauri_build_commands(context);
    let t = tauri_test_commands();
    let c = tauri_context_commands(context);
    let x = tauri_distribution_commands(context);
    lemma_tauri_development_tagged();
    lemma_tauri_build_tagged(context);
    lemma_tauri_test_tagged();
    lemma_tauri_context_tagged(context);
    lemma_tauri_distribution_tagged(context);
    crate::providers::lemma_all_tagged_concat(d, b, "tauri"@);
    crate::providers::lemma_all_tagged_concat(d + b, t, "tauri"@);
    crate::providers::lemma_all_tagged_concat(d + b + t, c, "tauri"@);
    crate::providers::lemma_all_tagged_concat(d + b + t + c, x, "tauri"@);
}

} // verus!
