use raz_core::commands::{Command, CommandBuilder, CommandCategory, Condition};
use raz_core::context::{
    BuildTarget, Dependency, FileContext, FileFacts, Language, Position, ProjectContext,
    ProjectType, Range, Symbol, SymbolKind, TargetType,
};

fn context_with(deps: Vec<&str>, cursor: Option<Symbol>) -> ProjectContext {
    ProjectContext {
        workspace_root: "/test".to_string(),
        current_file: Some(FileContext {
            path: "/test/src/lib.rs".to_string(),
            language: Language::Rust,
            symbols: Vec::new(),
            imports: Vec::new(),
            cursor_symbol: cursor,
            module_name: None,
        }),
        cursor_position: None,
        project_type: ProjectType::Library,
        dependencies: deps
            .into_iter()
            .map(|d| Dependency {
                name: d.to_string(),
                version: "1".to_string(),
                features: Vec::new(),
                optional: false,
                dev_dependency: false,
            })
            .collect(),
        workspace_members: Vec::new(),
        build_targets: vec![BuildTarget {
            name: "lib".to_string(),
            target_type: TargetType::Library,
            path: "/test/src/lib.rs".to_string(),
        }],
        active_features: Vec::new(),
        env_vars: Vec::new(),
    }
}

fn symbol(name: &str, kind: SymbolKind) -> Symbol {
    let p = Position { line: 0, column: 0 };
    Symbol {
        name: name.to_string(),
        kind,
        range: Range { start: p, end: p },
        modifiers: Vec::new(),
        children: Vec::new(),
        metadata: Vec::new(),
    }
}

#[test]
fn test_command_builder() {
    let cmd = Command::builder("test-build", "cargo")
        .label("Build Project")
        .description("Build the project in debug mode")
        .arg("build")
        .category(CommandCategory::Build)
        .priority(10)
        .tag("cargo")
        .build();

    assert_eq!(cmd.id, "test-build");
    assert_eq!(cmd.command, "cargo");
    assert_eq!(cmd.args, vec!["build"]);
    assert_eq!(cmd.category, CommandCategory::Build);
    assert_eq!(cmd.priority, 10);
    assert!(cmd.tags.contains(&"cargo".to_string()));
}

#[test]
fn test_command_line() {
    let cmd = Command::builder("test", "cargo")
        .args(vec!["test".to_string(), "--release".to_string()])
        .build();

    assert_eq!(cmd.command_line(), "cargo test --release");
}

#[test]
fn test_leptos_watch_command() {
    let command = CommandBuilder::new("leptos-watch", "cargo-leptos")
        .label("Leptos Dev Watch")
        .description("Development server with auto-reload (recommended for development)")
        .arg("watch")
        .category(CommandCategory::Run)
        .priority(95)
        .tag("dev")
        .tag("watch")
        .tag("leptos")
        .estimated_duration(5)
        .build();

    assert_eq!(command.command, "cargo-leptos");
    assert_eq!(command.args, vec!["watch"]);
    assert!(command.tags.contains(&"dev".to_string()));
    assert!(command.tags.contains(&"watch".to_string()));
    assert!(command.tags.contains(&"leptos".to_string()));
    assert!(command.is_interactive());
    assert!(command.is_server_command());
}

#[test]
fn builder_defaults() {
    let cmd = CommandBuilder::new("id", "cargo").build();
    assert_eq!(cmd.label, "cargo");
    assert_eq!(cmd.description, None);
    assert!(cmd.args.is_empty());
    assert!(cmd.env.is_empty());
    assert_eq!(cmd.cwd, None);
    assert_eq!(cmd.category, CommandCategory::Custom("default".to_string()));
    assert_eq!(cmd.priority, 50);
    assert!(cmd.conditions.is_empty());
    assert!(!cmd.requires_input);
    assert_eq!(cmd.estimated_duration, None);
    assert_eq!(cmd.command_line(), "cargo");
}

#[test]
fn env_setting_twice_keeps_last_value() {
    let cmd = CommandBuilder::new("id", "cargo")
        .env("RUST_LOG", "info")
        .env("OTHER", "1")
        .env("RUST_LOG", "debug")
        .cwd("/work")
        .build();
    assert_eq!(
        cmd.env,
        vec![
            ("RUST_LOG".to_string(), "debug".to_string()),
            ("OTHER".to_string(), "1".to_string())
        ]
    );
    assert_eq!(cmd.cwd, Some("/work".to_string()));
}

#[test]
fn category_names() {
    assert_eq!(CommandCategory::Build.as_str(), "build");
    assert_eq!(CommandCategory::Clean.as_str(), "clean");
    assert_eq!(CommandCategory::Custom("x".to_string()).as_str(), "x");
}

#[test]
fn server_and_interactive_detection() {
    let trunk = CommandBuilder::new("t", "trunk").arg("serve").build();
    assert!(trunk.is_server_command());
    assert!(!trunk.is_interactive());
    let leptos = CommandBuilder::new("l", "cargo").arg("leptos").arg("build").build();
    assert!(leptos.is_server_command());
    let build = CommandBuilder::new("b", "cargo").arg("build").build();
    assert!(!build.is_server_command());
    assert!(!build.is_interactive());
    let tagged = CommandBuilder::new("i", "sh").tag("interactive").build();
    assert!(tagged.is_interactive());
}

#[test]
fn conditions_against_context_and_facts() {
    let ctx = context_with(vec!["serde"], Some(symbol("my_test", SymbolKind::Test)));
    let mut facts = FileFacts::none();
    facts.existing_paths.push("/test/Cargo.toml".to_string());
    facts.matched_patterns.push("/test/*.rs".to_string());
    facts.platform = "linux".to_string();

    assert!(Condition::FileExists("Cargo.toml".to_string()).is_met(&ctx, &facts));
    assert!(!Condition::FileExists("Missing.toml".to_string()).is_met(&ctx, &facts));
    assert!(Condition::FilePattern("*.rs".to_string()).is_met(&ctx, &facts));
    assert!(Condition::CursorInTest.is_met(&ctx, &facts));
    assert!(!Condition::CursorInFunction("my_test".to_string()).is_met(&ctx, &facts));
    assert!(Condition::HasDependency("serde".to_string()).is_met(&ctx, &facts));
    assert!(!Condition::HasDependency("tokio".to_string()).is_met(&ctx, &facts));
    assert!(!Condition::InWorkspace.is_met(&ctx, &facts));
    assert!(Condition::Platform("linux".to_string()).is_met(&ctx, &facts));
    assert!(!Condition::Platform("windows".to_string()).is_met(&ctx, &facts));
    assert!(!Condition::Expression("true".to_string()).is_met(&ctx, &facts));

    let f = context_with(vec![], Some(symbol("main", SymbolKind::Function)));
    assert!(Condition::CursorInFunction("main".to_string()).is_met(&f, &facts));
    assert!(!Condition::CursorInStruct("main".to_string()).is_met(&f, &facts));

    let cmd = CommandBuilder::new("c", "cargo")
        .condition(Condition::HasDependency("serde".to_string()))
        .condition(Condition::CursorInTest)
        .build();
    assert!(cmd.is_available(&ctx, &facts));
    assert!(!cmd.is_available(&f, &facts));
}
