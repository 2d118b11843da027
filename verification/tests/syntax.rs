use raz_core::ast::RustAnalyzer;
use raz_core::context::{Position, SymbolKind};
use raz_core::file_detection::EntryPointType;
use raz_core::tree_sitter_test_detector::TreeSitterTestDetector;

#[test]
fn test_rust_analyzer_creation() {
    let analyzer = RustAnalyzer::new();
    assert!(analyzer.is_ok());
}

#[test]
fn test_parse_simple_function() {
    let mut analyzer = RustAnalyzer::new().unwrap();
    let source = r#"
            fn hello_world() {
                println!("Hello, world!");
            }
        "#;

    let tree = analyzer.parse(source).unwrap();
    let symbols = analyzer.extract_symbols(&tree, source).unwrap();

    assert_eq!(symbols.len(), 1);
    assert_eq!(symbols[0].name, "hello_world");
    assert_eq!(symbols[0].kind, SymbolKind::Function);
}

#[test]
fn test_parse_struct() {
    let mut analyzer = RustAnalyzer::new().unwrap();
    let source = r#"
            pub struct Person {
                name: String,
                age: u32,
            }
        "#;

    let tree = analyzer.parse(source).unwrap();
    let symbols = analyzer.extract_symbols(&tree, source).unwrap();

    assert_eq!(symbols.len(), 1);
    assert_eq!(symbols[0].name, "Person");
    assert_eq!(symbols[0].kind, SymbolKind::Struct);
    assert!(symbols[0].modifiers.contains(&"pub".to_string()));
}

#[test]
fn test_parse_test_function() {
    let mut analyzer = RustAnalyzer::new().unwrap();
    let source = r#"
            #[test]
            fn test_addition() {
                assert_eq!(2 + 2, 4);
            }
        "#;

    let tree = analyzer.parse(source).unwrap();
    let symbols = analyzer.extract_symbols(&tree, source).unwrap();

    assert_eq!(symbols.len(), 1);
    assert_eq!(symbols[0].name, "test_addition");
    assert_eq!(symbols[0].kind, SymbolKind::Test);
    assert!(symbols[0].modifiers.contains(&"test".to_string()));
}

#[test]
fn struct_range_is_the_whole_item_and_names_are_ranges_elsewhere() {
    let mut analyzer = RustAnalyzer::new().unwrap();
    let source = "struct A {\n    x: u8,\n}\nenum B { One }\nmod m {\n}\nfn f() {}\n";
    let tree = analyzer.parse(source).unwrap();
    let symbols = analyzer.extract_symbols(&tree, source).unwrap();
    let kinds: Vec<(&str, SymbolKind)> = symbols.iter().map(|s| (s.name.as_str(), s.kind)).collect();
    assert_eq!(
        kinds,
        vec![
            ("f", SymbolKind::Function),
            ("A", SymbolKind::Struct),
            ("B", SymbolKind::Enum),
            ("m", SymbolKind::Module)
        ]
    );
    // The struct spans its item, rows 0 to 2.
    assert_eq!(symbols[1].range.start, Position { line: 0, column: 0 });
    assert_eq!(symbols[1].range.end, Position { line: 2, column: 1 });
    assert!(symbols[1].modifiers.is_empty());
    // The enum's range is its name's.
    assert_eq!(symbols[2].range.start, Position { line: 3, column: 5 });
    assert_eq!(symbols[2].range.end, Position { line: 3, column: 6 });
    // The module's range is the whole item.
    assert_eq!(symbols[3].range.start, Position { line: 4, column: 0 });
    assert_eq!(symbols[3].range.end, Position { line: 5, column: 1 });
}

#[test]
fn symbol_and_context_at_a_position() {
    let mut analyzer = RustAnalyzer::new().unwrap();
    let source = "mod outer {\n    fn inner() {}\n}\n";
    let tree = analyzer.parse(source).unwrap();
    // The function's range is its name's: row 1, columns 7 to 12.
    let at_name = analyzer
        .symbol_at_position(&tree, source, Position { line: 1, column: 8 })
        .unwrap()
        .unwrap();
    assert_eq!(at_name.name, "inner");
    let context = analyzer
        .context_at_position(&tree, source, Position { line: 1, column: 8 })
        .unwrap();
    assert_eq!(context.in_function.unwrap().name, "inner");
    assert_eq!(context.in_module.unwrap().name, "outer");
    assert!(context.in_test_function.is_none());
    // Elsewhere in the module only the module holds the position.
    let at_module = analyzer
        .symbol_at_position(&tree, source, Position { line: 2, column: 0 })
        .unwrap()
        .unwrap();
    assert_eq!(at_module.name, "outer");
}

#[test]
fn detector_finds_nested_tests_and_main() {
    let mut detector = TreeSitterTestDetector::new().unwrap();
    let source = "fn main() {}\n#[cfg(test)]\nmod tests {\n    #[test]\n    fn top() {}\n    mod inner {\n        #[test]\n        fn deep() {}\n    }\n}\n";
    let entries = detector.detect_entry_points(source, None).unwrap();
    let found: Vec<(&str, EntryPointType, Option<&str>)> = entries
        .iter()
        .map(|e| (e.name.as_str(), e.entry_type, e.full_path.as_deref()))
        .collect();
    assert_eq!(
        found,
        vec![
            ("main", EntryPointType::Main, None),
            ("tests", EntryPointType::TestModule, Some("tests")),
            ("top", EntryPointType::Test, Some("tests::top")),
            ("inner", EntryPointType::TestModule, Some("tests::inner")),
            ("deep", EntryPointType::Test, Some("tests::inner::deep")),
        ]
    );
    assert_eq!(entries[2].line, 5);
    assert_eq!(entries[2].column, 4);
    assert_eq!(entries[2].line_range, (5, 5));
    assert_eq!(entries[1].line_range, (3, 10));
}

#[test]
fn detector_finds_the_test_under_the_cursor() {
    let mut detector = TreeSitterTestDetector::new().unwrap();
    let source = "mod tests {\n    #[test]\n    fn it_works() {\n        let x = 1;\n    }\n}\n";
    let context = detector
        .find_test_context_at_cursor(source, Position { line: 3, column: 8 })
        .unwrap()
        .unwrap();
    let module = context.in_test_module.unwrap();
    assert_eq!(module.name, "tests");
    assert_eq!(module.full_path, "tests");
    assert_eq!(module.line_range, (1, 6));
    let function = context.in_test_function.unwrap();
    assert_eq!(function.name, "it_works");
    assert_eq!(function.full_path, "tests::it_works");
    assert_eq!(function.line, 3);
    // Outside every test there is no test context.
    let plain = "fn a() {}\n";
    assert!(detector
        .find_test_context_at_cursor(plain, Position { line: 0, column: 3 })
        .unwrap()
        .is_none());
}

#[test]
fn detector_finds_doc_tests_for_items_and_comments() {
    let mut detector = TreeSitterTestDetector::new().unwrap();
    let source = "/// Adds one.\n/// ```\n/// assert_eq!(add_one(1), 2);\n/// ```\npub fn add_one(x: i32) -> i32 { x + 1 }\n";
    for cursor in [Position { line: 4, column: 10 }, Position { line: 1, column: 5 }] {
        let doctest = detector.find_doctest_at_cursor(source, cursor).unwrap().unwrap();
        assert_eq!(doctest.name, "add_one");
        assert_eq!(doctest.entry_type, EntryPointType::DocTest);
        assert_eq!(doctest.line, 1);
        assert_eq!(doctest.line_range, (1, 4));
        assert_eq!(doctest.full_path, Some("add_one".to_string()));
    }
    // Inside a test there is no doc test.
    let tests = "#[test]\nfn t() {\n}\n";
    assert!(detector
        .find_doctest_at_cursor(tests, Position { line: 1, column: 4 })
        .unwrap()
        .is_none());
    // A doc comment without code gives none.
    let prose = "/// Just words.\nfn f() {}\n";
    assert!(detector
        .find_doctest_at_cursor(prose, Position { line: 0, column: 2 })
        .unwrap()
        .is_none());
}
