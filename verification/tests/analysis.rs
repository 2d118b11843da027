use raz_core::browser::{browser_command, browser_step, extract_server_url, server_url_from_capture};
use raz_core::context::{
    BuildTarget, Dependency, FileContext, FileFacts, Language, ProjectContext, ProjectType,
    Symbol, SymbolKind, TargetType, WorkspaceMember, Range, Position,
};
use raz_core::engine::RazCore;
use raz_core::error::RazError;
use raz_core::framework_detection::{FrameworkType, PreciseFrameworkDetector};
use raz_core::manifest::ManifestFacts;
use raz_core::providers::dioxus::config_default_platform;
use raz_core::project_analysis::{
    package_name_from_toml, DependencyAnalyzer, DetectionCondition, DetectionRule, FrameworkDetector,
    MemberManifest, ProjectAnalyzer, TargetDetector, WorkspaceDetector, WorkspaceInfo,
};

fn dep(name: &str, version: &str) -> Dependency {
    Dependency {
        name: name.to_string(),
        version: version.to_string(),
        features: vec![],
        optional: false,
        dev_dependency: false,
    }
}

fn bare_context(root: &str, deps: Vec<Dependency>, members: Vec<WorkspaceMember>) -> ProjectContext {
    ProjectContext {
        workspace_root: root.to_string(),
        current_file: None,
        cursor_position: None,
        project_type: ProjectType::Binary,
        dependencies: deps,
        workspace_members: members,
        build_targets: vec![],
        active_features: vec![],
        env_vars: Vec::new(),
    }
}

fn member(name: &str, path: &str, t: ProjectType) -> WorkspaceMember {
    WorkspaceMember { name: name.to_string(), path: path.to_string(), package_type: t }
}

#[test]
fn test_leptos_ssr_detection() {
    let detector = PreciseFrameworkDetector::new();

    let context = bare_context(
        "/test/project",
        vec![dep("leptos", "0.5.0"), dep("leptos_axum", "0.5.0"), dep("axum", "0.6.0")],
        vec![
            member("app", "app", ProjectType::Library),
            member("server", "server", ProjectType::Binary),
        ],
    );

    let scores = detector.detect(&context, None, &FileFacts::none(), &ManifestFacts::none());
    assert!(!scores.is_empty());
    assert_eq!(scores[0].framework, FrameworkType::LeptosSSR);
    // Confidence is counted in half points: above 10 points.
    assert!(scores[0].confidence_halves > 20);
}

#[test]
fn precise_detection_scores_and_reasons() {
    let detector = PreciseFrameworkDetector::new();
    let context = bare_context(
        "/test/project",
        vec![dep("leptos", "0.5.0"), dep("leptos_axum", "0.5.0"), dep("axum", "0.6.0")],
        vec![member("app", "app", ProjectType::Library), member("server", "server", ProjectType::Binary)],
    );
    let scores = detector.detect(&context, None, &FileFacts::none(), &ManifestFacts::none());
    let frameworks: Vec<FrameworkType> = scores.iter().map(|s| s.framework).collect();
    assert_eq!(frameworks, vec![FrameworkType::LeptosSSR, FrameworkType::LeptosCSR, FrameworkType::Axum]);
    // Leptos SSR: 10 + one optional (0.5) + app (2) + server (2) = 14.5 points.
    assert_eq!(scores[0].confidence_halves, 29);
    assert_eq!(
        scores[0].reasons,
        vec![
            "Has all required dependencies: [\"leptos\", \"leptos_axum\"]",
            "Has 1 optional dependencies",
            "Has Leptos workspace structure (app/frontend crates)",
            "Has server crate typical of Leptos SSR",
        ]
    );
    // Leptos CSR: 8 points; Axum: 4 points.
    assert_eq!(scores[1].confidence_halves, 16);
    assert_eq!(scores[2].confidence_halves, 8);

    let mut facts = FileFacts::none();
    facts.existing_paths.push("/test/project/src/main.rs".to_string());
    facts.existing_paths.push("/test/project/Trunk.toml".to_string());
    let scores = detector.detect(&context, Some("/test/project/src/main.rs"), &facts, &ManifestFacts::none());
    let csr = scores.iter().find(|s| s.framework == FrameworkType::LeptosCSR).unwrap();
    // 8 + main.rs and Trunk.toml (2 x 1) + Trunk.toml as config (2) + entry point (3) = 15 points.
    assert_eq!(csr.confidence_halves, 30);
    assert_eq!(csr.reasons.last().unwrap(), "Current file is entry point: src/main.rs");
    // Leptos SSR: 14.5 + Trunk.toml as config (2) + entry point (3) = 19.5 points.
    assert_eq!(scores[0].framework, FrameworkType::LeptosSSR);
    assert_eq!(scores[0].confidence_halves, 39);
    assert_eq!(
        detector.best_match(&context, Some("/test/project/src/main.rs"), &facts, &ManifestFacts::none(), 20),
        Some(FrameworkType::LeptosSSR)
    );
    assert_eq!(
        detector.best_match(&context, None, &FileFacts::none(), &ManifestFacts::none(), 100),
        None
    );
}

#[test]
fn dioxus_platform_scores() {
    let detector = PreciseFrameworkDetector::new();
    let mut dioxus = dep("dioxus", "0.5");
    dioxus.features = vec!["desktop".to_string()];
    let context = bare_context(
        "/app",
        vec![dioxus],
        vec![member("ui-desktop", "/app/packages/desktop", ProjectType::Binary)],
    );
    let mut facts = FileFacts::none();
    facts.existing_paths.push("/app/Dioxus.toml".to_string());
    facts.existing_paths.push("/app/Cargo.toml".to_string());
    let manifests = ManifestFacts::read(
        Some("[application]\ndefault_platform = \"desktop\"\n"),
        Some("[features]\ndefault = []\n"),
    );
    assert_eq!(manifests.dioxus_default_platform, Some("desktop".to_string()));
    assert_eq!(manifests.default_features, Some(vec![]));
    let scores = detector.detect(&context, None, &facts, &manifests);
    assert_eq!(scores[0].framework, FrameworkType::DioxusDesktop);
    // 8 + Dioxus.toml as file and config (1 + 2) + member (5) + Dioxus.toml (2)
    // + configured platform (3) + feature (3) + empty default features (1) = 25 points.
    assert_eq!(scores[0].confidence_halves, 50);
    assert!(scores[0].reasons.contains(&"Found desktop workspace member: ui-desktop".to_string()));
    assert!(scores[0].reasons.contains(&"Dioxus dependency has 'desktop' feature".to_string()));
    let web = scores.iter().find(|s| s.framework == FrameworkType::DioxusWeb).unwrap();
    // 8 + Dioxus.toml as file and config (1 + 2) + Dioxus.toml (2) = 13 points.
    assert_eq!(web.confidence_halves, 26);
}

#[test]
fn framework_commands() {
    assert!(FrameworkType::Axum.is_web_framework());
    assert!(!FrameworkType::BevyGame.is_web_framework());
    assert_eq!(FrameworkType::LeptosSSR.primary_run_command(), ("cargo", vec!["leptos", "watch"]));
    assert_eq!(
        FrameworkType::DioxusMobile.build_command(),
        ("dx", vec!["build", "--release", "--platform", "mobile"])
    );
    assert_eq!(FrameworkType::TauriDesktop.build_command(), ("cargo", vec!["tauri", "build"]));
}

#[test]
fn test_extract_server_url() {
    assert_eq!(
        extract_server_url("Serving at http://localhost:3000"),
        Some("http://localhost:3000".to_string())
    );

    assert_eq!(
        extract_server_url("listening on http://127.0.0.1:8080"),
        Some("http://127.0.0.1:8080".to_string())
    );

    assert_eq!(
        extract_server_url("Serving at http://*********:3000"),
        Some("http://localhost:3000".to_string())
    );

    assert_eq!(extract_server_url("no url here"), None);
}

#[test]
fn server_urls_and_browser_steps() {
    assert_eq!(server_url_from_capture("http://***:8080"), "http://localhost:8080");
    assert_eq!(server_url_from_capture("http://example.com"), "http://example.com");
    assert_eq!(
        extract_server_url("Server running on https://0.0.0.0:9000/app"),
        Some("https://0.0.0.0:9000/app".to_string())
    );
    assert_eq!(
        extract_server_url("started at http://localhost:4000 ok"),
        Some("http://localhost:4000".to_string())
    );
    assert_eq!(browser_step(false, "compiling..."), (false, None));
    assert_eq!(
        browser_step(false, "Listening on http://127.0.0.1:3000"),
        (true, Some("http://127.0.0.1:3000".to_string()))
    );
    assert_eq!(browser_step(true, "Listening on http://127.0.0.1:3000"), (true, None));
    assert_eq!(browser_command("Firefox", "linux"), Some("firefox".to_string()));
    assert_eq!(browser_command("chrome", "windows"), Some("chrome.exe".to_string()));
    assert_eq!(browser_command("safari", "linux"), None);
    assert_eq!(browser_command("my-browser", "macos"), Some("my-browser".to_string()));
}

#[test]
fn test_file_pattern_detection() {
    let mut facts = FileFacts::none();
    facts.matched_patterns.push("/tmp/p/src-tauri/Cargo.toml".to_string());
    facts.matched_patterns.push("/tmp/p/src-tauri/*.json".to_string());
    facts.matched_patterns.push("/tmp/p/Dioxus.toml".to_string());
    let deps: Vec<Dependency> = vec![];
    let check = |p: &str| DetectionCondition::HasFilePattern(p.to_string()).is_met(&deps, "/tmp/p", &facts);

    assert!(check("src-tauri/Cargo.toml"));
    assert!(check("src-tauri/*.json"));
    assert!(check("Dioxus.toml"));
    assert!(!check("nonexistent.toml"));
    assert!(!check("src-nonexistent/*.toml"));
}

#[test]
fn test_file_content_detection() {
    let mut facts = FileFacts::none();
    facts.file_contents.push((
        "/tmp/p/Cargo.toml".to_string(),
        "\n[package]\nname = \"test\"\n\n[package.metadata.leptos]\noutput-name = \"my-app\"\n        ".to_string(),
    ));
    let deps: Vec<Dependency> = vec![];
    let check = |p: &str, c: &str| {
        DetectionCondition::ConfigFileContains(p.to_string(), c.to_string()).is_met(&deps, "/tmp/p", &facts)
    };

    assert!(check("Cargo.toml", "[package.metadata.leptos]"));
    assert!(check("Cargo.toml", "output-name"));
    assert!(!check("Cargo.toml", "nonexistent-content"));
    assert!(!check("nonexistent.toml", "any-content"));
}

#[test]
fn test_multi_framework_detection() {
    let mut facts = FileFacts::none();
    facts.matched_patterns.push("/tmp/mixed/src-tauri/Cargo.toml".to_string());
    facts.matched_patterns.push("/tmp/mixed/src-tauri/tauri.conf.json".to_string());
    facts.file_contents.push((
        "/tmp/mixed/Cargo.toml".to_string(),
        "[package]\nname = \"mixed-app\"\n\n[package.metadata.leptos]\noutput-name = \"my-app\"\n\n[dependencies]\nleptos = \"0.6\"\ntauri = \"1.0\"\n".to_string(),
    ));

    let detector = FrameworkDetector::new();
    let deps = vec![dep("leptos", "0.6"), dep("tauri", "1.0")];

    let result = detector.detect(&deps, &[], "/tmp/mixed", &facts).unwrap();

    match result {
        ProjectType::Mixed(frameworks) => {
            assert!(frameworks.contains(&ProjectType::Tauri));
            assert!(frameworks.contains(&ProjectType::Leptos));
            assert_eq!(frameworks[0], ProjectType::Tauri);
        }
        _ => panic!("Expected Mixed project type, got {result:?}"),
    }
}

#[test]
fn framework_detector_single_and_none() {
    let detector = FrameworkDetector::new();
    let facts = FileFacts::none();
    assert_eq!(detector.detect(&[], &[], "/p", &facts).unwrap(), ProjectType::Binary);
    assert_eq!(detector.detect(&[dep("yew-router", "0.18")], &[], "/p", &facts).unwrap(), ProjectType::Yew);
    let mixed = detector
        .detect(&[dep("bevy", "0.12"), dep("axum", "0.7"), dep("dioxus", "0.5")], &[], "/p", &facts)
        .unwrap();
    assert_eq!(
        mixed,
        ProjectType::Mixed(vec![ProjectType::Dioxus, ProjectType::Bevy, ProjectType::Axum])
    );
}

#[test]
fn test_project_analysis() {
    let content = "\n            [package]\n            name = \"test-project\"\n            version = \"0.1.0\"\n            edition = \"2021\"\n            \n            [dependencies]\n            leptos = \"0.5\"\n        ";
    let analyzer = ProjectAnalyzer::new();
    let workspace = WorkspaceDetector::new().detect_from_toml(content, "/tmp/proj").unwrap();
    assert!(!workspace.is_workspace);
    let deps = DependencyAnalyzer::new().analyze_toml(content).unwrap();
    let name = package_name_from_toml(content).ok();
    let context = analyzer
        .analyze_project_from("/tmp/proj", workspace, name, deps, vec![], vec![], &FileFacts::none())
        .unwrap();

    assert_eq!(context.workspace_root, "/tmp/proj");
    assert_eq!(context.project_type, ProjectType::Leptos);
    assert!(context.dependencies.iter().any(|d| d.name == "leptos"));
    assert_eq!(context.workspace_members[0].name, "test-project");
}

#[test]
fn workspace_analysis_merges_members() {
    let root_toml = "[workspace]\nmembers = [\"app\", \"server\"]\n";
    let workspace = WorkspaceDetector::new().detect_from_toml(root_toml, "/w").unwrap();
    assert!(workspace.is_workspace);
    assert_eq!(workspace.members.len(), 2);
    assert_eq!(workspace.members[1].name, "server");
    let app_toml = "[package]\nname = \"my-app\"\n[dependencies]\nleptos = { version = \"0.6\", features = [\"csr\"] }\n[dev-dependencies]\nserde = \"1\"\n";
    let app_deps = DependencyAnalyzer::new().analyze_toml(app_toml).unwrap();
    assert_eq!(app_deps.len(), 2);
    assert_eq!(app_deps[0].name, "leptos");
    assert_eq!(app_deps[0].version, "0.6");
    assert_eq!(app_deps[0].features, vec!["csr".to_string()]);
    assert!(app_deps[1].dev_dependency);
    let manifests = vec![
        Some(MemberManifest { package_name: package_name_from_toml(app_toml).ok(), dependencies: app_deps }),
        Some(MemberManifest {
            package_name: None,
            dependencies: vec![dep("leptos", "0.6"), dep("axum", "0.7")],
        }),
    ];
    let analyzer = ProjectAnalyzer::new();
    let context = analyzer
        .analyze_project_from("/w", workspace, None, vec![], manifests, vec![], &FileFacts::none())
        .unwrap();
    assert_eq!(context.workspace_members[0].name, "my-app");
    assert_eq!(context.workspace_members[0].package_type, ProjectType::Leptos);
    assert_eq!(context.workspace_members[1].name, "server");
    assert_eq!(
        context.workspace_members[1].package_type,
        ProjectType::Mixed(vec![ProjectType::Leptos, ProjectType::Axum])
    );
    let names: Vec<&str> = context.dependencies.iter().map(|d| d.name.as_str()).collect();
    assert_eq!(names, vec!["leptos", "serde", "axum"]);
    assert_eq!(context.project_type, ProjectType::Mixed(vec![ProjectType::Leptos, ProjectType::Axum]));
}

#[test]
fn manifest_errors() {
    let err = WorkspaceDetector::new().detect_from_toml("not = [valid", "/w").unwrap_err();
    assert!(err.to_message().starts_with("Parsing error: Invalid Cargo.toml: "));
    let err = WorkspaceDetector::new().detect_from_toml("[workspace]\nresolver = \"2\"\n", "/w").unwrap_err();
    assert_eq!(err.to_message(), "Parsing error: Workspace missing members");
    let info = WorkspaceDetector::new().detect_from_toml("[dependencies]\n", "/w").unwrap();
    assert_eq!(info.members[0].name, "unknown");
    assert_eq!(info.members[0].path, "/w");
    assert!(package_name_from_toml("[dependencies]\n").is_err());
    assert!(DependencyAnalyzer::new().analyze_toml("[[[").is_err());
}

#[test]
fn targets_from_listing() {
    let examples = vec!["hello.rs".to_string(), "README.md".to_string()];
    let tests = vec!["integration.rs".to_string()];
    let targets = TargetDetector::new().detect_from_listing("/p", true, true, Some(&examples), Some(&tests));
    let described: Vec<(String, TargetType, String)> =
        targets.iter().map(|t| (t.name.clone(), t.target_type, t.path.clone())).collect();
    assert_eq!(
        described,
        vec![
            ("main".to_string(), TargetType::Binary, "/p/src/main.rs".to_string()),
            ("lib".to_string(), TargetType::Library, "/p/src/lib.rs".to_string()),
            ("hello".to_string(), TargetType::Example, "/p/examples/hello.rs".to_string()),
            ("integration".to_string(), TargetType::Test, "/p/tests/integration.rs".to_string()),
        ]
    );
    assert!(TargetDetector::new().detect_from_listing("/p", false, false, None, None).is_empty());
}

#[test]
fn analyzer_test_context() {
    let analyzer = ProjectAnalyzer::new();
    let mut context = bare_context("/ws", vec![], vec![]);
    let path = "/ws/crates/core/src/parser/lexer.rs";
    let source = "pub fn lex() {}\n#[cfg(test)]\nmod tests {\n    #[test]\n    fn lexes() {}\n}\n";
    // A Rust file whose text could not be read cannot be analysed.
    assert!(matches!(
        analyzer.analyze_file(&mut context, path, None, None),
        Err(RazError::Io { .. })
    ));
    assert!(context.current_file.is_none());
    analyzer.analyze_file(&mut context, path, Some(source), None).unwrap();
    let file = context.current_file.as_ref().unwrap();
    assert_eq!(file.language, Language::Rust);
    let names: Vec<(&str, SymbolKind)> = file.symbols.iter().map(|s| (s.name.as_str(), s.kind)).collect();
    assert_eq!(
        names,
        vec![("lex", SymbolKind::Function), ("lexes", SymbolKind::Function), ("tests", SymbolKind::Module)]
    );
    let ancestors = vec![None, None, Some("core".to_string())];
    // From the syntax tree: the path's modules and the test module.
    let tc = analyzer.resolve_test_context(&context, &ancestors, Some(source)).unwrap().unwrap();
    assert_eq!(tc.package_name, Some("core".to_string()));
    assert_eq!(
        tc.module_parts,
        vec!["parser".to_string(), "lexer".to_string(), "tests".to_string()]
    );
    assert_eq!(tc.test_name, None);
    // Without the text, from the path alone.
    let tc = analyzer.resolve_test_context(&context, &ancestors, None).unwrap().unwrap();
    assert_eq!(tc.module_parts, vec!["parser".to_string(), "lexer".to_string()]);
    let mut toml_context = bare_context("/ws", vec![], vec![]);
    toml_context.current_file = Some(FileContext {
        path: "/ws/Cargo.toml".to_string(),
        language: Language::Toml,
        symbols: vec![],
        imports: vec![],
        cursor_symbol: Some(Symbol {
            name: "test_x".to_string(),
            kind: SymbolKind::Test,
            range: Range { start: Position { line: 0, column: 0 }, end: Position { line: 1, column: 0 } },
            modifiers: vec![],
            children: vec![],
            metadata: vec![],
        }),
        module_name: None,
    });
    assert!(analyzer.resolve_test_context(&toml_context, &ancestors, None).unwrap().is_none());
}

#[test]
fn test_raz_core_creation() {
    let raz = RazCore::new();
    assert!(!raz.providers().is_empty());
}

#[test]
fn test_command_generation() {
    let content = "\n            [package]\n            name = \"test-project\"\n            version = \"0.1.0\"\n            edition = \"2021\"\n        ";
    let raz = RazCore::new();
    let workspace = WorkspaceDetector::new().detect_from_toml(content, "/tmp/gen").unwrap();
    let deps = DependencyAnalyzer::new().analyze_toml(content).unwrap();
    let context = raz
        .context_analyzer
        .analyze_project_from("/tmp/gen", workspace, package_name_from_toml(content).ok(), deps, vec![], vec![], &FileFacts::none())
        .unwrap();
    assert_eq!(context.project_type, ProjectType::Binary);
    let commands = raz.generate_commands(&context).unwrap();

    assert!(!commands.is_empty());
    assert!(commands.iter().any(|c| c.command == "cargo"));
    // Sorted by priority, highest first.
    assert!(commands.windows(2).all(|w| w[0].priority >= w[1].priority));
}

#[test]
fn workspace_info_shape() {
    let info = WorkspaceInfo { is_workspace: false, members: vec![member("a", "/a", ProjectType::Binary)] };
    assert_eq!(info.members.len(), 1);
    let targets: Vec<BuildTarget> = vec![];
    assert!(targets.is_empty());
}

#[test]
fn dependency_tables_in_table_order() {
    let toml = "[dependencies]\nzeta = \"1\"\nalpha = { features = [\"a\", 3, \"b\"], optional = true }\nskip = 5\n";
    let deps = DependencyAnalyzer::new().analyze_toml(toml).unwrap();
    // Entries come in the table's (sorted) order; values that are neither
    // strings nor tables are skipped; non-string features are dropped.
    assert_eq!(deps.len(), 2);
    assert_eq!(deps[0].name, "alpha");
    assert_eq!(deps[0].version, "*");
    assert_eq!(deps[0].features, vec!["a".to_string(), "b".to_string()]);
    assert!(deps[0].optional);
    assert!(!deps[0].dev_dependency);
    assert_eq!(deps[1].name, "zeta");
    assert_eq!(deps[1].version, "1");
    assert!(deps[1].features.is_empty());
    assert!(!deps[1].optional);
}

#[test]
fn dioxus_configured_platform() {
    assert_eq!(
        config_default_platform("[application]\ndefault_platform = \"web\"\n"),
        Some("web".to_string())
    );
    assert_eq!(
        config_default_platform("[application]\ndefault_platform = 3\n"),
        Some("desktop".to_string())
    );
    assert_eq!(config_default_platform("[application]\nname = \"x\"\n"), None);
    assert_eq!(config_default_platform("not toml ["), None);
}

#[test]
fn rule_without_conditions_matches_any_project() {
    let rule = DetectionRule {
        framework: "plain".to_string(),
        project_type: ProjectType::Binary,
        conditions: vec![],
    };
    assert!(rule.matches(&[], "/tmp/nowhere", &FileFacts::none()));
    assert!(rule.matches(&[dep("serde", "1.0")], "/", &FileFacts::none()));
}

struct ScriptProvider {
    fails: bool,
}

impl raz_core::providers::CommandProvider for ScriptProvider {
    fn name(&self) -> &str {
        "script"
    }

    fn priority(&self) -> u8 {
        50
    }

    fn can_handle(&self, _context: &ProjectContext) -> bool {
        true
    }

    fn commands(&self, _context: &ProjectContext) -> raz_core::error::RazResult<Vec<raz_core::commands::Command>> {
        if self.fails {
            return Err(RazError::provider("script", "no script runner"));
        }
        Ok(vec![raz_core::commands::CommandBuilder::new("script-run", "just")
            .label("Run script")
            .arg("run")
            .priority(255)
            .build()])
    }
}

#[test]
fn user_provider_commands_are_proposed() {
    let content = "[package]\nname = \"demo\"\nversion = \"0.1.0\"\n";
    let mut raz = RazCore::new();
    raz.register_provider(raz_core::engine::AnyProvider::Custom(Box::new(ScriptProvider { fails: false })));
    let workspace = WorkspaceDetector::new().detect_from_toml(content, "/tmp/user").unwrap();
    let context = raz
        .context_analyzer
        .analyze_project_from("/tmp/user", workspace, package_name_from_toml(content).ok(), vec![], vec![], vec![], &FileFacts::none())
        .unwrap();
    let commands = raz.generate_commands(&context).unwrap();
    assert_eq!(commands[0].id, "script-run");

    let mut failing = RazCore::new();
    failing.register_provider(raz_core::engine::AnyProvider::Custom(Box::new(ScriptProvider { fails: true })));
    assert!(failing.generate_commands(&context).is_err());
}
