use raz_core::dioxus_validation::{address_verdict, DioxusOptionType, FrameworkValidator, ValidationResult};
use raz_core::numbers::{levenshtein_distance, parse_unsigned_exec};

#[test]
fn test_valid_dioxus_options() {
    let validator = FrameworkValidator::new();

    assert!(matches!(
        validator.validate_dioxus_option("--release", None),
        ValidationResult::Valid
    ));
    assert!(matches!(
        validator.validate_dioxus_option("--fullstack", None),
        ValidationResult::Valid
    ));
    assert!(matches!(
        validator.validate_dioxus_option("--device", Some("true")),
        ValidationResult::Valid
    ));
    assert!(matches!(
        validator.validate_dioxus_option("--device", Some("false")),
        ValidationResult::Valid
    ));
    assert!(matches!(
        validator.validate_dioxus_option("--hot-reload", Some("true")),
        ValidationResult::Valid
    ));
    assert!(matches!(
        validator.validate_dioxus_option("--port", Some("3000")),
        ValidationResult::Valid
    ));
    assert!(matches!(
        validator.validate_dioxus_option("--port", Some("8080")),
        ValidationResult::Valid
    ));
    assert!(matches!(
        validator.validate_dioxus_option("--platform", Some("web")),
        ValidationResult::Valid
    ));
    assert!(matches!(
        validator.validate_dioxus_option("--arch", Some("x64")),
        ValidationResult::Valid
    ));
    assert!(matches!(
        validator.validate_dioxus_option("--arch", Some("arm64")),
        ValidationResult::Valid
    ));
}

#[test]
fn test_valid_leptos_options() {
    let validator = FrameworkValidator::new();

    assert!(matches!(
        validator.validate_leptos_option("--release", None),
        ValidationResult::Valid
    ));
    assert!(matches!(
        validator.validate_leptos_option("--precompress", None),
        ValidationResult::Valid
    ));
    assert!(matches!(
        validator.validate_leptos_option("--hot-reload", None),
        ValidationResult::Valid
    ));
    assert!(matches!(
        validator.validate_leptos_option("--js-minify", Some("true")),
        ValidationResult::Valid
    ));
    assert!(matches!(
        validator.validate_leptos_option("--js-minify", Some("false")),
        ValidationResult::Valid
    ));
    assert!(matches!(
        validator.validate_leptos_option("--project", Some("my-project")),
        ValidationResult::Valid
    ));
    assert!(matches!(
        validator.validate_leptos_option("--features", Some("ssr,hydrate")),
        ValidationResult::Valid
    ));
}

#[test]
fn test_invalid_device_value() {
    let validator = FrameworkValidator::new();

    match validator.validate_dioxus_option("--device", Some("example")) {
        ValidationResult::InvalidValue {
            expected,
            got,
            suggestions,
        } => {
            assert_eq!(expected, "true or false");
            assert_eq!(got, "example");
            assert!(!suggestions.is_empty());
        }
        _ => panic!("Expected InvalidValue result"),
    }
}

#[test]
fn test_invalid_platform_value() {
    let validator = FrameworkValidator::new();

    match validator.validate_dioxus_option("--platform", Some("desktop")) {
        ValidationResult::InvalidValue {
            expected,
            got,
            suggestions,
        } => {
            assert!(expected.contains("web"));
            assert_eq!(got, "desktop");
            assert!(suggestions
                .iter()
                .any(|s| s.contains("web") || s.contains("macos")));
        }
        _ => panic!("Expected InvalidValue result"),
    }
}

#[test]
fn test_typo_suggestions() {
    let validator = FrameworkValidator::new();

    match validator.validate_dioxus_option("--hot-reloads", None) {
        ValidationResult::InvalidOption { suggestion } => {
            assert_eq!(suggestion, Some("--hot-reload".to_string()));
        }
        _ => panic!("Expected InvalidOption result"),
    }
}

#[test]
fn test_leptos_typo_suggestions() {
    let validator = FrameworkValidator::new();

    match validator.validate_leptos_option("--precompres", None) {
        ValidationResult::InvalidOption { suggestion } => {
            assert_eq!(suggestion, Some("--precompress".to_string()));
        }
        _ => panic!("Expected InvalidOption result"),
    }
}

#[test]
fn test_port_validation() {
    let validator = FrameworkValidator::new();

    assert!(matches!(
        validator.validate_dioxus_option("--port", Some("3000")),
        ValidationResult::Valid
    ));
    assert!(matches!(
        validator.validate_dioxus_option("--port", Some("8080")),
        ValidationResult::Valid
    ));

    match validator.validate_dioxus_option("--port", Some("0")) {
        ValidationResult::InvalidValue { .. } => {}
        _ => panic!("Expected InvalidValue for port 0"),
    }

    match validator.validate_dioxus_option("--port", Some("abc")) {
        ValidationResult::InvalidValue { .. } => {}
        _ => panic!("Expected InvalidValue for non-numeric port"),
    }
}

#[test]
fn test_address_validation() {
    let validator = FrameworkValidator::new();

    assert!(matches!(
        validator.validate_dioxus_option("--addr", Some("localhost")),
        ValidationResult::Valid
    ));
    assert!(matches!(
        validator.validate_dioxus_option("--addr", Some("127.0.0.1")),
        ValidationResult::Valid
    ));
    assert!(matches!(
        validator.validate_dioxus_option("--addr", Some("0.0.0.0")),
        ValidationResult::Valid
    ));
}

#[test]
fn test_leptos_js_minify() {
    let validator = FrameworkValidator::new();

    assert!(matches!(
        validator.validate_leptos_option("--js-minify", Some("true")),
        ValidationResult::Valid
    ));
    assert!(matches!(
        validator.validate_leptos_option("--js-minify", Some("false")),
        ValidationResult::Valid
    ));

    match validator.validate_leptos_option("--js-minify", Some("maybe")) {
        ValidationResult::InvalidValue {
            expected,
            got,
            suggestions,
        } => {
            assert_eq!(expected, "true or false");
            assert_eq!(got, "maybe");
            assert!(!suggestions.is_empty());
        }
        _ => panic!("Expected InvalidValue result"),
    }
}

#[test]
fn addresses_rejected_and_accepted() {
    let validator = FrameworkValidator::new();
    assert!(matches!(
        validator.validate_dioxus_option("--addr", Some("300.1.1.1")),
        ValidationResult::InvalidValue { .. }
    ));
    assert!(matches!(
        validator.validate_dioxus_option("--addr", Some("my-host.local")),
        ValidationResult::Valid
    ));
    match validator.validate_dioxus_option("--addr", Some("bad host!")) {
        ValidationResult::InvalidValue { suggestions, .. } => {
            assert_eq!(suggestions, vec!["localhost", "127.0.0.1", "0.0.0.0"]);
        }
        _ => panic!("expected InvalidValue"),
    }
    assert!(matches!(
        validator.validate_dioxus_option("--addr", None),
        ValidationResult::MissingValue { .. }
    ));
}

#[test]
fn address_verdict_follows_shapes() {
    assert!(address_verdict("localhost", None, None));
    assert!(address_verdict("10.0.0.255", Some(true), Some(true)));
    assert!(!address_verdict("10.0.0.256", Some(true), Some(true)));
    assert!(address_verdict("host", Some(false), Some(true)));
    assert!(!address_verdict("ho st", Some(false), Some(false)));
    assert!(!address_verdict("host", None, Some(true)));
}

#[test]
fn flags_and_values() {
    let v = FrameworkValidator::new();
    match v.validate_dioxus_option("--release", Some("yes")) {
        ValidationResult::InvalidValue {
            expected,
            got,
            suggestions,
        } => {
            assert_eq!(expected, "no value (this is a flag)");
            assert_eq!(got, "yes");
            assert_eq!(
                suggestions,
                vec!["Remove the value - this option doesn't take a value"]
            );
        }
        _ => panic!("expected InvalidValue"),
    }
    match v.validate_dioxus_option("--device", Some("Yes")) {
        ValidationResult::InvalidValue { suggestions, .. } => assert_eq!(suggestions, vec!["true"]),
        _ => panic!("expected InvalidValue"),
    }
    match v.validate_dioxus_option("--device", Some("no")) {
        ValidationResult::InvalidValue { suggestions, .. } => assert_eq!(suggestions, vec!["false"]),
        _ => panic!("expected InvalidValue"),
    }
    match v.validate_dioxus_option("--device", Some("x")) {
        ValidationResult::InvalidValue { suggestions, .. } => {
            assert_eq!(suggestions, vec!["true", "false"])
        }
        _ => panic!("expected InvalidValue"),
    }
    match v.validate_dioxus_option("--platform", None) {
        ValidationResult::MissingValue { expected } => assert_eq!(
            expected,
            "platform (web, macos, windows, linux, ios, android, server, liveview)"
        ),
        _ => panic!("expected MissingValue"),
    }
    match v.validate_dioxus_option("--platform", Some("WIN")) {
        ValidationResult::InvalidValue { suggestions, .. } => {
            assert_eq!(suggestions, vec!["web", "windows"])
        }
        _ => panic!("expected InvalidValue"),
    }
    match v.validate_dioxus_option("--platform", Some("zzzzzzzz")) {
        ValidationResult::InvalidValue { suggestions, .. } => {
            assert_eq!(suggestions, vec!["web", "desktop"])
        }
        _ => panic!("expected InvalidValue"),
    }
    match v.validate_dioxus_option("--arch", Some("x65")) {
        ValidationResult::InvalidValue {
            expected,
            suggestions,
            ..
        } => {
            assert_eq!(expected, "one of: arm, arm64, x86, x64");
            assert_eq!(suggestions, vec!["x64"]);
        }
        _ => panic!("expected InvalidValue"),
    }
    assert!(matches!(
        v.validate_dioxus_option("--wsl-file-poll-interval", Some("+30")),
        ValidationResult::Valid
    ));
    assert!(matches!(
        v.validate_dioxus_option("--wsl-file-poll-interval", Some("-1")),
        ValidationResult::InvalidValue { .. }
    ));
    assert!(matches!(
        v.validate_dioxus_option("--target", None),
        ValidationResult::MissingValue { .. }
    ));
    assert!(matches!(
        v.validate_option("yew", "--release", None),
        ValidationResult::InvalidOption { suggestion: None }
    ));
    match v.validate_dioxus_option("--completely-unknown-option", None) {
        ValidationResult::InvalidOption { suggestion } => assert_eq!(suggestion, None),
        _ => panic!("expected InvalidOption"),
    }
}

#[test]
fn option_queries() {
    let v = FrameworkValidator::new();
    assert!(v.is_valid_option("dioxus", "--port"));
    assert!(!v.is_valid_option("dioxus", "--project"));
    assert!(v.is_valid_option("leptos", "--project"));
    assert!(!v.is_valid_option("other", "--port"));
    assert!(v.is_valid_serve_option("--ssg"));
    let info = v.get_option_info("dioxus", "--interactive").unwrap();
    assert_eq!(info.short, Some("-i"));
    assert_eq!(info.option_type, DioxusOptionType::Bool { default: Some(false) });
    assert!(v.get_option_info("leptos", "--port").is_none());
    assert_eq!(v.get_all_options("dioxus").len(), 33);
    assert_eq!(v.get_all_options("leptos").len(), 12);
    assert_eq!(v.get_all_options("leptos")[0], "--release");
    assert!(v.get_all_options("none").is_empty());
}

#[test]
fn numbers_and_distances() {
    assert_eq!(levenshtein_distance("kitten", "sitting"), 3);
    assert_eq!(levenshtein_distance("", "abc"), 3);
    assert_eq!(levenshtein_distance("same", "same"), 0);
    assert_eq!(parse_unsigned_exec("65535", 65535), Some(65535));
    assert_eq!(parse_unsigned_exec("65536", 65535), None);
    assert_eq!(parse_unsigned_exec("+7", 255), Some(7));
    assert_eq!(parse_unsigned_exec("+", 255), None);
    assert_eq!(parse_unsigned_exec("", 255), None);
    assert_eq!(parse_unsigned_exec("1a", 255), None);
}

#[test]
fn listed_options_are_unique_and_valid() {
    let v = FrameworkValidator::new();
    for framework in ["dioxus", "leptos"] {
        let names = v.get_all_options(framework);
        for (i, a) in names.iter().enumerate() {
            assert!(v.is_valid_option(framework, a));
            for b in &names[i + 1..] {
                assert_ne!(a, b);
            }
        }
    }
    assert!(!v.get_all_options("dioxus").contains(&"--precompress"));
    assert!(!v.is_valid_option("dioxus", "--precompress"));
    assert!(v.is_valid_option("leptos", "--precompress"));
    assert!(v.is_valid_serve_option("--port"));
    assert!(!v.is_valid_serve_option("--precompress"));
}
