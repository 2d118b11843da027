use raz_core::context::Position;
use raz_core::file_detection::{
    EntryPointType, FileDetector, FileInputs, FileRole, RustProjectType, SingleFileType,
};

#[test]
fn test_cargo_script_detection() {
    let content = "#!/usr/bin/env -S cargo +nightly -Zscript\n\nfn main() {}";
    assert!(FileDetector::is_cargo_script(content));
}

#[test]
fn test_function_name_extraction() {
    assert_eq!(
        FileDetector::extract_function_name("fn test_something() {"),
        Some("test_something".to_string())
    );
    assert_eq!(
        FileDetector::extract_function_name("    fn main() {"),
        Some("main".to_string())
    );
}

#[test]
fn test_frontend_library_detection() {
    let frontend_lib = "/tmp/x/frontend/src/lib.rs";
    assert!(FileDetector::is_frontend_library(frontend_lib));

    let regular_lib = "/tmp/x/src/lib.rs";
    assert!(!FileDetector::is_frontend_library(regular_lib));
}

fn standalone(path: &str, content: &str) -> FileInputs {
    FileInputs {
        file_path: path.to_string(),
        content: content.to_string(),
        manifest: None,
        ancestor_manifests: Vec::new(),
    }
}

#[test]
fn test_nested_module_path_resolution() {
    let content = r#"
#[cfg(test)]
mod tests {
    use super::*;

    #[test]
    fn test_top_level() {
        assert_eq!(2 + 2, 4);
    }

    mod integration {
        use super::*;

        #[test] 
        fn test_integration_basic() {
            assert!(true);
        }

        mod database {
            use super::*;

            #[test]
            fn test_db_connection() {
                assert!(true);
            }

            mod transactions {
                use super::*;

                #[test]
                fn test_transaction_rollback() {
                    assert!(true);
                }
            }
        }
    }
}
"#;
    let inputs = standalone("/tmp/t/nested_test.rs", content);
    let context = FileDetector::detect_context(
        &inputs,
        Some(Position {
            line: 27,
            column: 1,
        }),
    )
    .unwrap();

    let nested_test = context.entry_points.iter().find(|ep| {
        ep.name == "test_transaction_rollback" && ep.entry_type == EntryPointType::Test
    });
    assert!(nested_test.is_some());
    assert_eq!(
        nested_test.unwrap().full_path.as_ref().unwrap(),
        "tests::integration::database::transactions::test_transaction_rollback"
    );

    let context2 = FileDetector::detect_context(
        &inputs,
        Some(Position {
            line: 19,
            column: 1,
        }),
    )
    .unwrap();
    let mid_level_test = context2
        .entry_points
        .iter()
        .find(|ep| ep.name == "test_db_connection" && ep.entry_type == EntryPointType::Test);
    assert!(mid_level_test.is_some());
    assert_eq!(
        mid_level_test.unwrap().full_path.as_ref().unwrap(),
        "tests::integration::database::test_db_connection"
    );

    let top_level_test = context
        .entry_points
        .iter()
        .find(|ep| ep.name == "test_top_level" && ep.entry_type == EntryPointType::Test);
    assert!(top_level_test.is_some());
    assert_eq!(
        top_level_test.unwrap().full_path.as_ref().unwrap(),
        "tests::test_top_level"
    );
}

#[test]
fn test_module_stack_handling_with_complex_nesting() {
    let content = r#"
mod outer {
    mod middle {
        #[cfg(test)]
        mod tests {
            #[test]
            fn test_deeply_nested() {
                assert!(true);
            }
            
            mod sub_tests {
                #[test]
                fn test_sub_nested() {
                    assert!(true);
                }
            }
        }
        
        mod other {
            fn regular_function() {}
        }
    }
}

#[cfg(test)]
mod main_tests {
    #[test]
    fn test_main_level() {
        assert!(true);
    }
}
"#;
    let inputs = standalone("/tmp/t/complex_nested.rs", content);
    let context = FileDetector::detect_context(&inputs, None).unwrap();

    let deeply_nested = context
        .entry_points
        .iter()
        .find(|ep| ep.name == "test_deeply_nested");
    assert!(deeply_nested.is_some());
    assert_eq!(
        deeply_nested.unwrap().full_path.as_ref().unwrap(),
        "outer::middle::tests::test_deeply_nested"
    );

    let sub_nested = context
        .entry_points
        .iter()
        .find(|ep| ep.name == "test_sub_nested");
    assert!(sub_nested.is_some());
    assert_eq!(
        sub_nested.unwrap().full_path.as_ref().unwrap(),
        "outer::middle::tests::sub_tests::test_sub_nested"
    );

    let main_test = context
        .entry_points
        .iter()
        .find(|ep| ep.name == "test_main_level");
    assert!(main_test.is_some());
    assert_eq!(
        main_test.unwrap().full_path.as_ref().unwrap(),
        "main_tests::test_main_level"
    );
}

#[test]
fn struct_and_impl_names() {
    assert_eq!(
        FileDetector::extract_struct_name("pub struct Foo<T> {"),
        Some("Foo".to_string())
    );
    assert_eq!(FileDetector::extract_struct_name("struct Bar;"), Some("Bar".to_string()));
    assert_eq!(FileDetector::extract_struct_name("enum X {}"), None);
    assert_eq!(
        FileDetector::extract_impl_name("impl Display for Foo {"),
        Some("Foo".to_string())
    );
    assert_eq!(
        FileDetector::extract_impl_name("impl<T> Wrapper<T> {"),
        Some("Wrapper".to_string())
    );
    assert_eq!(FileDetector::extract_impl_name("impl Foo"), Some("Foo".to_string()));
    assert_eq!(FileDetector::extract_impl_name("fn impl_x()"), None);
    assert_eq!(FileDetector::extract_function_name("let x = 1;"), None);
}

#[test]
fn manifests_and_members() {
    let script = "#!/usr/bin/env cargo\n//! ```cargo\n//! [dependencies]\n//! ```\nfn main() {}";
    assert!(FileDetector::manifest_cut_possible(script));
    assert_eq!(
        FileDetector::extract_cargo_script_manifest(script),
        Some("//! [dependencies]".to_string())
    );
    assert_eq!(FileDetector::extract_cargo_script_manifest("fn main() {}"), None);

    let ws = "[workspace]\nmembers = [\"core\", 'cli', \"\"]\n";
    let members = FileDetector::parse_workspace_members(ws, "/w").unwrap();
    let names: Vec<&str> = members.iter().map(|m| m.name.as_str()).collect();
    assert_eq!(names, vec!["core", "cli"]);
    assert_eq!(members[0].path, "/w/core");
    assert!(!members[1].is_current);

    assert_eq!(
        FileDetector::extract_package_name("[package]\nname = \"demo\"\n").unwrap(),
        "demo"
    );
    assert_eq!(FileDetector::extract_package_name("[package]\n").unwrap(), "unknown");
}

#[test]
fn roles_and_capabilities() {
    let pkg = FileInputs {
        file_path: "/p/src/main.rs".to_string(),
        content: "fn main() {\n}\n".to_string(),
        manifest: Some(("/p".to_string(), "[package]\nname = \"app\"\n".to_string())),
        ancestor_manifests: vec![None, Some("[package]\nname = \"app\"\n".to_string()), None],
    };
    let ctx = FileDetector::detect_context(&pkg, None).unwrap();
    assert_eq!(
        ctx.project_type,
        RustProjectType::CargoPackage {
            root: "/p".to_string(),
            package_name: "app".to_string()
        }
    );
    assert_eq!(
        ctx.file_role,
        FileRole::MainBinary {
            binary_name: "app".to_string()
        }
    );
    assert!(ctx.capabilities.can_run);
    assert!(!ctx.capabilities.can_test);
    assert_eq!(ctx.get_workspace_root(), Some("/p"));
    // `main` is found in the syntax tree and again line by line.
    assert_eq!(ctx.entry_points.len(), 2);
    for ep in &ctx.entry_points {
        assert_eq!(ep.entry_type, EntryPointType::Main);
        assert_eq!(ep.line, 1);
        assert_eq!(ep.column, 0);
    }

    let web = FileInputs {
        file_path: "/p/frontend/src/lib.rs".to_string(),
        content: "pub fn app() {}\n".to_string(),
        manifest: Some(("/p/frontend".to_string(), "[package]\nname = \"web\"\n[dependencies]\nleptos = \"0.6\"\n".to_string())),
        ancestor_manifests: vec![
            None,
            Some("[package]\nname = \"web\"\n[dependencies]\nleptos = \"0.6\"\n".to_string()),
            None,
        ],
    };
    let ctx = FileDetector::detect_context(&web, None).unwrap();
    assert_eq!(
        ctx.file_role,
        FileRole::FrontendLibrary {
            framework: "leptos".to_string()
        }
    );
    assert!(ctx.capabilities.can_doc_test);
    assert_eq!(ctx.capabilities.requires_framework, Some("leptos".to_string()));

    let stray = FileInputs {
        file_path: "/p/scripts/tool.rs".to_string(),
        content: "pub fn x() {}\n#[test]\nfn t() {}\n".to_string(),
        manifest: Some(("/p".to_string(), "[package]\nname = \"app\"\n".to_string())),
        ancestor_manifests: vec![None, Some("[package]\nname = \"app\"\n".to_string())],
    };
    let ctx = FileDetector::detect_context(&stray, None).unwrap();
    assert_eq!(ctx.file_role, FileRole::Standalone);
    assert_eq!(
        ctx.project_type,
        RustProjectType::SingleFile {
            file_path: "/p/scripts/tool.rs".to_string(),
            file_type: SingleFileType::Library
        }
    );
    assert!(ctx.capabilities.can_test);
    assert_eq!(ctx.entry_points[0].name, "t");
    assert_eq!(ctx.entry_points[0].line, 3);
}

#[test]
fn module_paths_and_doc_tests() {
    let pt = RustProjectType::CargoPackage {
        root: "/p".to_string(),
        package_name: "app".to_string(),
    };
    assert_eq!(
        FileDetector::build_module_path_from_file("/p/src/net/http/mod.rs", &pt),
        vec!["net", "http", "http"]
    );
    assert_eq!(
        FileDetector::build_module_path_from_file("/p/src/net/client.rs", &pt),
        vec!["net", "client"]
    );
    assert!(FileDetector::build_module_path_from_file("/p/src/lib.rs", &pt).is_empty());

    let content = "/// Adds.\n/// ```\n/// assert_eq!(add(1, 2), 3);\n/// ```\npub fn add(a: i32, b: i32) -> i32 { a + b }\n";
    let eps = FileDetector::detect_entry_points(
        "/p/src/math.rs",
        content,
        Some(Position { line: 2, column: 0 }),
        &pt,
    )
    .unwrap();
    // The doc test spans the whole doc comment, lines 1 to 4.
    assert_eq!(eps.len(), 1);
    assert_eq!(eps[0].entry_type, EntryPointType::DocTest);
    assert_eq!(eps[0].name, "add");
    assert_eq!(eps[0].line, 1);
    assert_eq!(eps[0].line_range, (1, 4));
    assert_eq!(eps[0].full_path, Some("add".to_string()));

    let tests = "#[cfg(test)]\nmod tests {\n    #[tokio::test]\n    async fn works() {\n    }\n}\n";
    let eps = FileDetector::detect_entry_points(
        "/p/src/math.rs",
        tests,
        Some(Position { line: 0, column: 0 }),
        &pt,
    )
    .unwrap();
    assert_eq!(eps.len(), 2);
    assert_eq!(eps[0].entry_type, EntryPointType::TestModule);
    assert_eq!(eps[0].name, "tests");
    assert_eq!(eps[0].line_range, (2, 6));
    assert_eq!(eps[0].full_path, Some("math::tests".to_string()));
    assert_eq!(eps[1].entry_type, EntryPointType::Test);
    assert_eq!(eps[1].name, "works");
    assert_eq!(eps[1].line, 4);
    assert_eq!(eps[1].column, 4);
    assert_eq!(eps[1].full_path, Some("math::tests::works".to_string()));

    // The benchmark is found in the tree and again line by line.
    let benches = "#[bench]\nfn fast(b: &mut Bencher) {}\ncriterion_main!(benches);\n";
    let eps = FileDetector::detect_entry_points("/b.rs", benches, None, &pt).unwrap();
    assert_eq!(eps.len(), 3);
    assert_eq!(eps[0].name, "fast");
    assert_eq!(eps[0].entry_type, EntryPointType::Benchmark);
    assert_eq!(eps[0].line, 2);
    assert_eq!(eps[0].line_range, (2, 2));
    assert_eq!(eps[1].name, "fast");
    assert_eq!(eps[1].line, 2);
    assert_eq!(eps[1].line_range, (1, 1));
    assert_eq!(eps[2].name, "criterion_bench");
}

#[test]
fn web_framework_and_binary_names() {
    let m = vec![None, Some("yew = \"0.21\"".to_string()), Some("leptos".to_string())];
    assert_eq!(FileDetector::detect_web_framework(&m).unwrap(), "yew");
    assert_eq!(FileDetector::detect_web_framework(&vec![None]).unwrap(), "unknown");
    assert_eq!(FileDetector::extract_binary_name_from_path(&vec![None]), "main");
    assert!(FileDetector::can_detect("fn main() {}", None));
    assert!(!FileDetector::can_detect(
        "#!/usr/bin/env cargo\n//! ```cargo",
        None
    ));
}
