use raz_core::context::{FileAnalyzer, Language, Position, Range, TestContext, TestTargetType};

#[test]
fn test_language_detection() {
    assert_eq!(Language::from_path("main.rs"), Language::Rust);
    assert_eq!(Language::from_path("Cargo.toml"), Language::Toml);
    assert_eq!(Language::from_path("package.json"), Language::Json);
}

#[test]
fn test_position_ordering() {
    let pos1 = Position { line: 1, column: 5 };
    let pos2 = Position { line: 2, column: 3 };
    let pos3 = Position {
        line: 1,
        column: 10,
    };

    assert!(pos1 < pos2);
    assert!(pos1 < pos3);
    assert!(pos3 < pos2);
}

#[test]
fn test_range_contains() {
    let range = Range {
        start: Position { line: 1, column: 0 },
        end: Position {
            line: 3,
            column: 10,
        },
    };

    assert!(range.contains(Position { line: 2, column: 5 }));
    assert!(range.contains(Position { line: 1, column: 0 }));
    assert!(range.contains(Position {
        line: 3,
        column: 10
    }));
    assert!(!range.contains(Position { line: 0, column: 5 }));
    assert!(!range.contains(Position { line: 4, column: 5 }));
}

#[test]
fn test_complex_use_statement_parsing() {
    let analyzer = FileAnalyzer::new();

    let import = analyzer.parse_use_statement("use std::*;").unwrap();
    assert_eq!(import.path, "std");
    assert_eq!(import.items, vec!["*"]);

    let import = analyzer
        .parse_use_statement("use std::collections::HashMap as Map;")
        .unwrap();
    assert_eq!(import.path, "std::collections::HashMap");
    assert_eq!(import.alias, Some("Map".to_string()));

    let import = analyzer
        .parse_use_statement("use std::{fs, io, collections::HashMap};")
        .unwrap();
    assert_eq!(import.path, "std");
    assert_eq!(import.items, vec!["fs", "io", "collections::HashMap"]);

    let import = analyzer
        .parse_use_statement("use crate::module::{Item1, Item2 as Alias, Item3};")
        .unwrap();
    assert_eq!(import.path, "crate::module");
    assert_eq!(import.items, vec!["Item1", "Item2 as Alias", "Item3"]);

    let import = analyzer
        .parse_use_statement("use std::{fs, io::{self, Read, Write}};")
        .unwrap();
    assert_eq!(import.path, "std");
    assert_eq!(import.items, vec!["fs", "io::{self, Read, Write}"]);

    let import = analyzer
        .parse_use_statement("use std::collections::HashMap;")
        .unwrap();
    assert_eq!(import.path, "std::collections::HashMap");
    assert!(import.items.is_empty());
    assert!(import.alias.is_none());
}

#[test]
fn use_statement_requires_use_and_semicolon() {
    let analyzer = FileAnalyzer::new();
    assert!(analyzer.parse_use_statement("use std::fs").is_none());
    assert!(analyzer.parse_use_statement("pub use std::fs;").is_none());
}

#[test]
fn imports_are_extracted_from_each_use_line() {
    let analyzer = FileAnalyzer::new();
    let content = "use a::b;\nfn main() {}\n    use c::{d, e};\r\n";
    let imports = analyzer.extract_imports(content);
    assert_eq!(imports.len(), 2);
    assert_eq!(imports[0].path, "a::b");
    assert_eq!(imports[1].path, "c");
    assert_eq!(imports[1].items, vec!["d", "e"]);
}

#[test]
fn module_path_from_file_path() {
    assert_eq!(
        FileAnalyzer::extract_module_path("/p/src/handlers/auth.rs"),
        Some("handlers::auth".to_string())
    );
    assert_eq!(FileAnalyzer::extract_module_path("/p/src/main.rs"), None);
    assert_eq!(FileAnalyzer::extract_module_path("/p/lib.rs"), None);
    assert_eq!(FileAnalyzer::extract_module_path("/p/src/a.txt"), None);
    assert_eq!(FileAnalyzer::extract_module_path("src/domain.rs"), Some("domain".to_string()));
    assert_eq!(
        FileAnalyzer::extract_module_path("src/remainder/main.rs"),
        Some("remainder".to_string())
    );
    assert_eq!(FileAnalyzer::extract_module_path("lib/a.rs"), None);
}

#[test]
fn full_test_path_joins_module_and_name() {
    let mut ctx = TestContext::new();
    assert_eq!(ctx.full_test_path(), None);
    assert!(!ctx.is_precise());
    ctx.module_parts = vec!["middleware".to_string(), "csrf".to_string(), "tests".to_string()];
    assert_eq!(ctx.module_path_string(), Some("middleware::csrf::tests".to_string()));
    ctx.test_name = Some("it_works".to_string());
    assert_eq!(
        ctx.full_test_path(),
        Some("middleware::csrf::tests::it_works".to_string())
    );
    assert!(ctx.is_precise());
    assert_eq!(ctx.target_type, TestTargetType::Lib);
}

#[test]
fn language_of_other_extensions() {
    assert_eq!(Language::from_path("a/b.yml"), Language::Yaml);
    assert_eq!(Language::from_path("README.md"), Language::Markdown);
    assert_eq!(Language::from_path(".bashrc"), Language::Unknown);
    assert_eq!(Language::from_path("Makefile"), Language::Unknown);
}

#[test]
fn new_test_context_equals_default() {
    let ctx = TestContext::new();
    assert_eq!(ctx, TestContext::default());
    assert!(!ctx.is_precise());
}
