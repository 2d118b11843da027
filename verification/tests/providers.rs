use raz_core::commands::Command;
use raz_core::context::{
    BuildTarget, Dependency, FileContext, FileFacts, Language, Position, ProjectContext,
    ProjectType, Range, Symbol, SymbolKind, TargetType, WorkspaceMember,
};
use raz_core::providers::bevy::BevyProvider;
use raz_core::providers::dioxus::{config_default_platform, DioxusProvider};
use raz_core::providers::leptos::LeptosProvider;
use raz_core::providers::tauri::TauriProvider;
use raz_core::providers::yew::YewProvider;
use raz_core::providers::{CargoProvider, CommandProvider, DocProvider};

fn dependency(name: &str, version: &str, features: Vec<&str>) -> Dependency {
    Dependency {
        name: name.to_string(),
        version: version.to_string(),
        features: features.into_iter().map(|f| f.to_string()).collect(),
        optional: false,
        dev_dependency: false,
    }
}

fn framework_context(
    project_type: ProjectType,
    member_type: ProjectType,
    dep: Dependency,
    member: &str,
    main_path: &str,
    feature: &str,
) -> ProjectContext {
    ProjectContext {
        workspace_root: "/test".to_string(),
        current_file: None,
        cursor_position: None,
        project_type,
        dependencies: vec![dep],
        workspace_members: vec![WorkspaceMember {
            name: member.to_string(),
            path: "/test".to_string(),
            package_type: member_type,
        }],
        build_targets: vec![BuildTarget {
            name: "main".to_string(),
            target_type: TargetType::Binary,
            path: main_path.to_string(),
        }],
        active_features: vec![feature.to_string()],
        env_vars: Vec::new(),
    }
}

fn create_test_context() -> ProjectContext {
    ProjectContext {
        workspace_root: "/test/project".to_string(),
        current_file: None,
        cursor_position: None,
        project_type: ProjectType::Binary,
        dependencies: Vec::new(),
        workspace_members: vec![WorkspaceMember {
            name: "test-project".to_string(),
            path: "/test/project".to_string(),
            package_type: ProjectType::Binary,
        }],
        build_targets: vec![BuildTarget {
            name: "main".to_string(),
            target_type: TargetType::Binary,
            path: "/test/project/src/main.rs".to_string(),
        }],
        active_features: Vec::new(),
        env_vars: Vec::new(),
    }
}

fn create_bevy_context() -> ProjectContext {
    framework_context(
        ProjectType::Bevy,
        ProjectType::Bevy,
        dependency("bevy", "0.12", vec!["dynamic_linking"]),
        "bevy-game",
        "/test/src/main.rs",
        "dynamic_linking",
    )
}

fn create_dioxus_context() -> ProjectContext {
    framework_context(
        ProjectType::Dioxus,
        ProjectType::Dioxus,
        dependency("dioxus", "0.4", vec!["web", "desktop"]),
        "dioxus-app",
        "/test/src/main.rs",
        "web",
    )
}

fn create_leptos_context() -> ProjectContext {
    framework_context(
        ProjectType::Leptos,
        ProjectType::Leptos,
        dependency("leptos", "0.6", vec!["csr"]),
        "leptos-app",
        "/test/src/main.rs",
        "csr",
    )
}

fn create_tauri_context() -> ProjectContext {
    framework_context(
        ProjectType::Tauri,
        ProjectType::Tauri,
        dependency("tauri", "1.5", vec!["api-all"]),
        "tauri-app",
        "/test/src-tauri/src/main.rs",
        "api-all",
    )
}

fn create_yew_context() -> ProjectContext {
    framework_context(
        ProjectType::Yew,
        ProjectType::Yew,
        dependency("yew", "0.21", vec!["web"]),
        "yew-app",
        "/test/src/main.rs",
        "web",
    )
}

fn ids(commands: &[Command]) -> Vec<String> {
    commands.iter().map(|c| c.id.clone()).collect()
}

fn has_id(commands: &[Command], id: &str) -> bool {
    commands.iter().any(|c| c.id == id)
}

fn symbol(name: &str, kind: SymbolKind, modifiers: Vec<&str>) -> Symbol {
    Symbol {
        name: name.to_string(),
        kind,
        range: Range {
            start: Position { line: 0, column: 0 },
            end: Position { line: 10, column: 0 },
        },
        modifiers: modifiers.into_iter().map(|m| m.to_string()).collect(),
        children: Vec::new(),
        metadata: Vec::new(),
    }
}

fn file(path: &str, symbols: Vec<Symbol>, cursor: Option<Symbol>) -> FileContext {
    FileContext {
        path: path.to_string(),
        language: Language::Rust,
        symbols,
        imports: Vec::new(),
        cursor_symbol: cursor,
        module_name: None,
    }
}

#[test]
fn test_cargo_provider_basic_commands() {
    let provider = CargoProvider::new();
    let context = create_test_context();

    let commands = provider.commands(&context).unwrap();

    assert!(!commands.is_empty());
    assert!(commands.iter().any(|c| c.id == "cargo-build"));
    assert!(commands.iter().any(|c| c.id == "cargo-test"));
    assert!(commands.iter().any(|c| c.id == "cargo-run"));
    assert!(commands.iter().any(|c| c.id == "cargo-check"));
    assert!(commands.iter().any(|c| c.id == "cargo-clippy"));
    assert!(commands.iter().any(|c| c.id == "cargo-fmt"));
}

#[test]
fn test_cargo_provider_with_examples() {
    let provider = CargoProvider::new();
    let mut context = create_test_context();

    context.build_targets.push(BuildTarget {
        name: "hello".to_string(),
        target_type: TargetType::Example,
        path: "/test/project/examples/hello.rs".to_string(),
    });

    let commands = provider.commands(&context).unwrap();

    assert!(commands.iter().any(|c| c.id == "cargo-example-hello"));
}

#[test]
fn test_cargo_provider_workspace() {
    let provider = CargoProvider::new();
    let mut context = create_test_context();

    context.workspace_members.push(WorkspaceMember {
        name: "test-lib".to_string(),
        path: "/test/project/test-lib".to_string(),
        package_type: ProjectType::Library,
    });

    let commands = provider.commands(&context).unwrap();

    assert!(commands.iter().any(|c| c.id == "cargo-build-all"));
    assert!(commands.iter().any(|c| c.id == "cargo-test-all"));
}

#[test]
fn test_doc_provider() {
    let provider = DocProvider::new();
    let context = create_test_context();

    let commands = provider.commands(&context).unwrap();

    assert_eq!(commands.len(), 2);
    assert!(commands.iter().any(|c| c.id == "cargo-doc"));
    assert!(commands.iter().any(|c| c.id == "cargo-doc-open"));
}

#[test]
fn cargo_provider_order_and_fields() {
    let provider = CargoProvider::new();
    let mut context = create_test_context();
    context.build_targets.push(BuildTarget {
        name: "bench_a".to_string(),
        target_type: TargetType::Bench,
        path: "/test/project/benches/bench_a.rs".to_string(),
    });
    let commands = provider.commands(&context).unwrap();
    assert_eq!(
        ids(&commands),
        vec![
            "cargo-build",
            "cargo-build-release",
            "cargo-test",
            "cargo-test-release",
            "cargo-check",
            "cargo-clippy",
            "cargo-fmt",
            "cargo-fmt-check",
            "cargo-clean",
            "cargo-update",
            "cargo-run",
            "cargo-run-release",
            "cargo-bench",
        ]
    );
    let release = &commands[1];
    assert_eq!(release.args, vec!["build".to_string(), "--release".to_string()]);
    assert_eq!(release.cwd, Some("/test/project".to_string()));
    assert_eq!(release.priority, 70);
    assert_eq!(release.estimated_duration, Some(120));
    assert_eq!(provider.name(), "cargo");
    assert_eq!(provider.priority(), 100);
    assert!(provider.can_handle(&context));
    context.project_type = ProjectType::Mixed(vec![ProjectType::Leptos]);
    assert!(!provider.can_handle(&context));
}

#[test]
fn cargo_provider_precise_test_commands() {
    let provider = CargoProvider::new();
    let mut context = create_test_context();
    let test_fn = symbol("test_addition", SymbolKind::Test, vec![]);
    let tests_mod = symbol("tests", SymbolKind::Module, vec![]);
    context.current_file = Some(file(
        "/test/project/src/math/ops.rs",
        vec![tests_mod],
        Some(test_fn),
    ));
    context.active_features = vec!["fast".to_string(), "simd".to_string()];
    let commands = provider.commands(&context).unwrap();
    let precise = commands.iter().find(|c| c.id == "cargo-test-precise").unwrap();
    assert_eq!(
        precise.args,
        vec![
            "test",
            "--package",
            "test-project",
            "--bin",
            "main",
            "--features",
            "fast,simd",
            "--",
            "math::ops::tests::test_addition",
            "--exact",
            "--show-output",
        ]
    );
    assert_eq!(precise.label, "Run Test: test_addition");
    assert_eq!(precise.cwd, Some("/test/project".to_string()));
    let nextest = commands.iter().find(|c| c.id == "nextest-test-precise").unwrap();
    assert_eq!(
        nextest.args,
        vec![
            "nextest",
            "run",
            "-p",
            "test-project",
            "--bin",
            "main",
            "--features",
            "fast,simd",
            "-E",
            "test(math::ops::tests::test_addition)",
        ]
    );
    assert_eq!(nextest.priority, 95);
    assert!(!has_id(&commands, "cargo-test-current"));
}

#[test]
fn cargo_provider_test_target_from_path() {
    let provider = CargoProvider::new();
    let mut context = create_test_context();
    context.current_file = Some(file(
        "/test/project/tests/integration.rs",
        vec![],
        Some(symbol("test_flow", SymbolKind::Function, vec![])),
    ));
    let commands = provider.commands(&context).unwrap();
    let precise = commands.iter().find(|c| c.id == "cargo-test-precise").unwrap();
    assert_eq!(
        precise.args,
        vec![
            "test",
            "--package",
            "test-project",
            "--test",
            "integration",
            "--",
            "test_flow",
            "--exact",
            "--show-output",
        ]
    );
}

#[test]
fn cargo_provider_fallback_test_command() {
    let provider = CargoProvider::new();
    let mut context = create_test_context();
    context.workspace_members.clear();
    let mut f = file("/elsewhere/notes.rs", vec![], Some(symbol("check_it", SymbolKind::Test, vec![])));
    f.language = Language::Toml;
    context.current_file = Some(f);
    let commands = provider.commands(&context).unwrap();
    let last = commands.last().unwrap();
    assert_eq!(last.id, "cargo-test-current");
    assert_eq!(last.args, vec!["test".to_string(), "check_it".to_string()]);
    assert_eq!(last.priority, 100);
}

#[test]
fn test_bevy_provider_can_handle() {
    let provider = BevyProvider::new();
    let context = create_bevy_context();

    assert!(provider.can_handle(&context));
    assert_eq!(provider.name(), "bevy");
    assert_eq!(provider.priority(), 85);
}

#[test]
fn test_bevy_commands_generation() {
    let provider = BevyProvider::new();
    let context = create_bevy_context();

    let commands = provider.commands(&context).unwrap();

    assert!(!commands.is_empty());
    assert!(commands.iter().any(|c| c.id == "bevy-run"));
    assert!(commands.iter().any(|c| c.id == "bevy-run-features"));
    assert!(commands.iter().any(|c| c.id == "bevy-build"));
    assert!(commands.iter().any(|c| c.id == "bevy-build-release"));
    assert!(commands.iter().any(|c| c.id == "bevy-test"));
    assert!(commands.iter().any(|c| c.id == "bevy-test-headless"));
    assert!(commands.iter().any(|c| c.id == "bevy-assets-watch"));
}

#[test]
fn test_bevy_wasm_commands() {
    let provider = BevyProvider::new();
    let mut context = create_bevy_context();

    context.dependencies.push(dependency("wasm-bindgen", "0.2", vec![]));

    let commands = provider.commands(&context).unwrap();

    assert!(commands.iter().any(|c| c.id == "bevy-build-wasm"));
}

#[test]
fn test_bevy_command_priorities() {
    let provider = BevyProvider::new();
    let context = create_bevy_context();

    let commands = provider.commands(&context).unwrap();

    let run_cmd = commands.iter().find(|c| c.id == "bevy-run").unwrap();
    assert_eq!(run_cmd.priority, 95);

    assert!(commands.iter().all(|c| c.tags.contains(&"bevy".to_string())));
}

#[test]
fn test_bevy_dependency_detection() {
    let provider = BevyProvider::new();
    let mut context = create_bevy_context();
    context.project_type = ProjectType::Binary;

    assert!(provider.can_handle(&context));
}

#[test]
fn bevy_context_commands_for_systems_and_files() {
    let provider = BevyProvider::new();
    let mut context = create_bevy_context();
    context.current_file = Some(file(
        "/test/src/systems/asset_loader.rs",
        vec![],
        Some(symbol("spawn_enemies", SymbolKind::Function, vec!["test"])),
    ));
    let commands = provider.commands(&context).unwrap();
    let system = commands.iter().find(|c| c.id == "bevy-run-system").unwrap();
    assert_eq!(
        system.description,
        Some("Run game focusing on system: spawn_enemies".to_string())
    );
    let current = commands.iter().find(|c| c.id == "bevy-test-current").unwrap();
    assert_eq!(current.args, vec!["test", "spawn_enemies", "--", "--nocapture"]);
    assert!(has_id(&commands, "bevy-check-systems"));
    assert!(has_id(&commands, "bevy-check-assets"));
    assert!(!has_id(&commands, "bevy-build-wasm"));
    let mut other = create_bevy_context();
    other.project_type = ProjectType::Library;
    other.dependencies = vec![dependency("bevy_ecs", "0.12", vec![])];
    assert!(provider.can_handle(&other));
    other.dependencies = vec![dependency("bevyx", "0.1", vec![])];
    assert!(!provider.can_handle(&other));
    other.project_type = ProjectType::Mixed(vec![ProjectType::Tauri, ProjectType::Bevy]);
    assert!(provider.can_handle(&other));
}

#[test]
fn test_dioxus_provider_can_handle() {
    let provider = DioxusProvider::new();
    let context = create_dioxus_context();

    assert!(provider.can_handle(&context));
    assert_eq!(provider.name(), "dioxus");
    assert_eq!(provider.priority(), 90);
}

#[test]
fn test_dioxus_commands_generation() {
    let provider = DioxusProvider::new();
    let context = create_dioxus_context();

    let commands = provider.commands(&context).unwrap();

    assert!(!commands.is_empty());
    assert!(commands.iter().any(|c| c.id == "dx-serve"));
    assert!(commands.iter().any(|c| c.id == "dx-run"));
    assert!(commands.iter().any(|c| c.id == "dx-build-web"));
    assert!(commands.iter().any(|c| c.id == "dx-build-desktop"));
    assert!(commands.iter().any(|c| c.id == "cargo-test"));
    assert!(commands.iter().any(|c| c.id == "dx-check"));
    assert!(commands.iter().any(|c| c.id == "dx-bundle"));
}

#[test]
fn test_dioxus_mobile_commands() {
    let provider = DioxusProvider::new();
    let mut context = create_dioxus_context();

    context.dependencies.push(dependency("dioxus-mobile", "0.4", vec![]));

    let commands = provider.commands(&context).unwrap();

    assert!(commands.iter().any(|c| c.id == "dx-build-ios"));
    assert!(commands.iter().any(|c| c.id == "dx-build-android"));
}

#[test]
fn test_dioxus_command_priorities() {
    let provider = DioxusProvider::new();
    let context = create_dioxus_context();

    let commands = provider.commands(&context).unwrap();

    let serve_cmd = commands.iter().find(|c| c.id == "dx-serve").unwrap();
    assert_eq!(serve_cmd.priority, 95);

    assert!(commands.iter().all(|c| c.tags.contains(&"dioxus".to_string())));
}

#[test]
fn dioxus_platform_detection() {
    let provider = DioxusProvider::new();
    let context = create_dioxus_context();
    assert_eq!(provider.detect_platform(&context), "web");
    let commands = provider.commands(&context).unwrap();
    assert_eq!(commands[0].label, "Dioxus Dev Server (web)");
    assert_eq!(commands[0].args, vec!["serve", "--platform", "web"]);

    let mut fullstack = create_dioxus_context();
    fullstack.dependencies.push(dependency("dioxus-fullstack", "0.4", vec!["server"]));
    assert_eq!(provider.detect_platform(&fullstack), "fullstack");

    let mut bare = create_dioxus_context();
    bare.dependencies = vec![dependency("dioxus", "0.4", vec![])];
    assert_eq!(provider.detect_platform(&bare), "desktop");
    bare.dependencies.push(dependency("dioxus-mobile", "0.4", vec![]));
    assert_eq!(provider.detect_platform(&bare), "mobile");

    let overridden = DioxusProvider::with_environment(Some("ios".to_string()), None);
    assert_eq!(overridden.detect_platform(&context), "ios");

    let configured = DioxusProvider::with_environment(
        None,
        Some("[application]\ndefault_platform = \"desktop\"\n"),
    );
    assert_eq!(configured.detect_platform(&context), "desktop");
}

#[test]
fn dioxus_config_reading() {
    assert_eq!(
        config_default_platform("[application]\nname = \"app\"\ndefault_platform = \"web\"\n"),
        Some("web".to_string())
    );
    assert_eq!(
        config_default_platform("[application]\ndefault_platform = 3\n"),
        Some("desktop".to_string())
    );
    assert_eq!(config_default_platform("[application]\nname = \"app\"\n"), None);
    assert_eq!(config_default_platform("[web]\ndefault_platform = \"web\"\n"), None);
    assert_eq!(config_default_platform("this is = = not toml"), None);
}

#[test]
fn dioxus_state_struct_commands() {
    let provider = DioxusProvider::new();
    let mut context = create_dioxus_context();
    context.current_file = Some(file(
        "/test/src/components/app.rs",
        vec![],
        Some(symbol("AppState", SymbolKind::Struct, vec![])),
    ));
    let commands = provider.commands(&context).unwrap();
    assert!(has_id(&commands, "dx-check-state"));
    assert!(has_id(&commands, "dx-build-components"));
    context.current_file = Some(file(
        "/test/src/main.rs",
        vec![],
        Some(symbol("Header", SymbolKind::Function, vec![])),
    ));
    let commands = provider.commands(&context).unwrap();
    let preview = commands.iter().find(|c| c.id == "dx-component-preview").unwrap();
    assert_eq!(preview.label, "Preview Component");
    assert_eq!(preview.args, vec!["serve", "--component", "Header"]);
    assert!(!has_id(&commands, "dx-build-components"));
}

#[test]
fn test_leptos_provider_can_handle() {
    let provider = LeptosProvider::new();
    let context = create_leptos_context();

    assert!(provider.can_handle(&context));
    assert_eq!(provider.name(), "leptos");
    assert_eq!(provider.priority(), 90);
}

#[test]
fn test_leptos_commands_generation() {
    let provider = LeptosProvider::new();
    let context = create_leptos_context();

    let commands = provider.commands(&context).unwrap();

    assert!(!commands.is_empty());
    assert!(commands.iter().any(|c| c.id == "leptos-watch"));
    assert!(commands.iter().any(|c| c.id == "leptos-serve"));
    assert!(commands.iter().any(|c| c.id == "leptos-build"));
    assert!(commands.iter().any(|c| c.id == "leptos-build-release"));
    assert!(commands.iter().any(|c| c.id == "leptos-test"));
    assert!(commands.iter().any(|c| c.id == "leptos-new"));
}

#[test]
fn test_leptos_command_priorities() {
    let provider = LeptosProvider::new();
    let context = create_leptos_context();

    let commands = provider.commands(&context).unwrap();

    let watch_cmd = commands.iter().find(|c| c.id == "leptos-watch").unwrap();
    assert_eq!(watch_cmd.priority, 95);

    assert!(commands.iter().all(|c| c.tags.contains(&"leptos".to_string())));
}

#[test]
fn test_leptos_non_leptos_project() {
    let provider = LeptosProvider::new();
    let mut context = create_leptos_context();
    context.project_type = ProjectType::Binary;
    context.dependencies.clear();

    assert!(!provider.can_handle(&context));
}

#[test]
fn test_leptos_dependency_detection() {
    let provider = LeptosProvider::new();
    let mut context = create_leptos_context();
    context.project_type = ProjectType::Binary;

    assert!(provider.can_handle(&context));
}

#[test]
fn leptos_component_commands() {
    let provider = LeptosProvider::new();
    let mut context = create_leptos_context();
    context.current_file = Some(file(
        "/test/src/components/nav.rs",
        vec![],
        Some(symbol("NavBar", SymbolKind::Function, vec![])),
    ));
    let commands = provider.commands(&context).unwrap();
    let dev = commands.iter().find(|c| c.id == "leptos-dev-component").unwrap();
    assert_eq!(dev.cwd, Some("/test".to_string()));
    assert!(has_id(&commands, "leptos-build-check"));
    assert!(!has_id(&commands, "cargo-test-current"));
    assert_eq!(commands.last().unwrap().id, "leptos-clean");
}

#[test]
fn test_tauri_provider_can_handle() {
    let provider = TauriProvider::new();
    let context = create_tauri_context();

    assert!(provider.can_handle(&context));
    assert_eq!(provider.name(), "tauri");
    assert_eq!(provider.priority(), 88);
}

#[test]
fn test_tauri_commands_generation() {
    let provider = TauriProvider::new();
    let context = create_tauri_context();

    let commands = provider.commands(&context).unwrap();

    assert!(!commands.is_empty());
    assert!(commands.iter().any(|c| c.id == "tauri-dev"));
    assert!(commands.iter().any(|c| c.id == "tauri-dev-debug"));
    assert!(commands.iter().any(|c| c.id == "tauri-build"));
    assert!(commands.iter().any(|c| c.id == "tauri-build-debug"));
    assert!(commands.iter().any(|c| c.id == "tauri-test"));
    assert!(commands.iter().any(|c| c.id == "tauri-test-core"));
    assert!(commands.iter().any(|c| c.id == "tauri-bundle"));
    assert!(commands.iter().any(|c| c.id == "tauri-icon"));
}

#[test]
fn test_tauri_cross_platform_builds() {
    let provider = TauriProvider::new();
    let mut context = create_tauri_context();

    context.dependencies[0].features.push("updater".to_string());

    let commands = provider.commands(&context).unwrap();

    assert!(commands.iter().any(|c| c.id == "tauri-build-windows"));
    assert!(commands.iter().any(|c| c.id == "tauri-build-macos"));
    assert!(commands.iter().any(|c| c.id == "tauri-build-linux"));
}

#[test]
fn test_tauri_updater_commands() {
    let provider = TauriProvider::new();
    let mut context = create_tauri_context();

    context.dependencies[0].features.push("updater".to_string());

    let commands = provider.commands(&context).unwrap();

    assert!(commands.iter().any(|c| c.id == "tauri-sign"));
    assert!(commands.iter().any(|c| c.id == "tauri-updater"));
}

#[test]
fn test_tauri_command_priorities() {
    let provider = TauriProvider::new();
    let context = create_tauri_context();

    let commands = provider.commands(&context).unwrap();

    let dev_cmd = commands.iter().find(|c| c.id == "tauri-dev").unwrap();
    assert_eq!(dev_cmd.priority, 95);

    assert!(commands.iter().all(|c| c.tags.contains(&"tauri".to_string())));
}

#[test]
fn test_tauri_dependency_detection() {
    let provider = TauriProvider::new();
    let mut context = create_tauri_context();
    context.project_type = ProjectType::Binary;

    assert!(provider.can_handle(&context));
}

#[test]
fn tauri_detection_by_files_and_context() {
    let mut context = create_tauri_context();
    context.project_type = ProjectType::Binary;
    context.dependencies.clear();
    assert!(!TauriProvider::new().can_handle(&context));
    let mut facts = FileFacts::none();
    facts.existing_paths.push("/test/src-tauri".to_string());
    let provider = TauriProvider::with_facts(facts);
    assert!(provider.can_handle(&context));

    let mut context = create_tauri_context();
    context.current_file = Some(file(
        "/test/src-tauri/src/main.rs",
        vec![],
        Some(symbol("greet_command", SymbolKind::Function, vec![])),
    ));
    let commands = provider.commands(&context).unwrap();
    assert!(has_id(&commands, "tauri-test-command"));
    assert!(has_id(&commands, "tauri-check-main"));
    assert!(!has_id(&commands, "tauri-sign"));
    let webdriver = commands.iter().find(|c| c.id == "tauri-test-webdriver").unwrap();
    assert_eq!(webdriver.args, vec!["&&", "cargo", "test", "--test", "webdriver"]);
}

#[test]
fn test_yew_provider_can_handle() {
    let provider = YewProvider::new();
    let context = create_yew_context();

    assert!(provider.can_handle(&context));
    assert_eq!(provider.name(), "yew");
    assert_eq!(provider.priority(), 90);
}

#[test]
fn test_yew_commands_generation() {
    let provider = YewProvider::new();
    let context = create_yew_context();

    let commands = provider.commands(&context).unwrap();

    assert!(!commands.is_empty());
    assert!(commands.iter().any(|c| c.id == "yew-serve"));
    assert!(commands.iter().any(|c| c.id == "yew-serve-open"));
    assert!(commands.iter().any(|c| c.id == "yew-build"));
    assert!(commands.iter().any(|c| c.id == "yew-build-release"));
    assert!(commands.iter().any(|c| c.id == "yew-test"));
    assert!(commands.iter().any(|c| c.id == "yew-clean"));
}

#[test]
fn test_yew_command_priorities() {
    let provider = YewProvider::new();
    let context = create_yew_context();

    let commands = provider.commands(&context).unwrap();

    let serve_cmd = commands.iter().find(|c| c.id == "yew-serve").unwrap();
    assert_eq!(serve_cmd.priority, 95);

    assert!(commands.iter().all(|c| c.tags.contains(&"yew".to_string())));
}

#[test]
fn test_yew_non_yew_project() {
    let provider = YewProvider::new();
    let mut context = create_yew_context();
    context.project_type = ProjectType::Binary;
    context.dependencies.clear();

    assert!(!provider.can_handle(&context));
}

#[test]
fn test_yew_dependency_detection() {
    let provider = YewProvider::new();
    let mut context = create_yew_context();
    context.project_type = ProjectType::Binary;

    assert!(provider.can_handle(&context));
}

#[test]
fn test_yew_router_dependency_detection() {
    let provider = YewProvider::new();
    let mut context = create_yew_context();
    context.project_type = ProjectType::Binary;
    context.dependencies.clear();
    context.dependencies.push(dependency("yew-router", "0.18", vec![]));

    assert!(provider.can_handle(&context));
}
