use raz_core::rustc_options::{
    get_rustc_optimization_flags, get_rustc_translation_help, is_valid_rustc_option,
    translate_cargo_to_rustc, validate_and_translate_options,
};

#[test]
fn test_translate_cargo_to_rustc() {
    assert_eq!(translate_cargo_to_rustc("--release"), Some("-O"));
    assert_eq!(translate_cargo_to_rustc("--debug"), Some("-g"));
    assert_eq!(translate_cargo_to_rustc("--test"), Some("--test"));
    assert_eq!(translate_cargo_to_rustc("--lib"), Some("--crate-type=lib"));
    assert_eq!(translate_cargo_to_rustc("--features"), None);
}

#[test]
fn test_is_valid_rustc_option() {
    assert!(is_valid_rustc_option("-O"));
    assert!(is_valid_rustc_option("-g"));
    assert!(is_valid_rustc_option("--test"));
    assert!(is_valid_rustc_option("--target"));
    assert!(is_valid_rustc_option("-C"));
    assert!(!is_valid_rustc_option("--release"));
    assert!(!is_valid_rustc_option("--features"));
}

#[test]
fn test_validate_and_translate_options() {
    let options = vec![
        "--release".to_string(),
        "--target".to_string(),
        "wasm32-unknown-unknown".to_string(),
        "--features".to_string(),
        "foo,bar".to_string(),
    ];

    let translated = validate_and_translate_options(&options, true);
    assert_eq!(
        translated,
        vec![
            "-O".to_string(),
            "--target".to_string(),
            "wasm32-unknown-unknown".to_string(),
        ]
    );
}

#[test]
fn translation_is_identity_for_cargo() {
    let options = vec!["--release".to_string(), "--bogus".to_string()];
    assert_eq!(validate_and_translate_options(&options, false), options);
}

#[test]
fn profile_expands_to_optimization_flags() {
    let options = vec!["--profile".to_string(), "release".to_string(), "-g".to_string()];
    assert_eq!(
        validate_and_translate_options(&options, true),
        vec!["-O", "-C", "lto=yes", "-C", "codegen-units=1", "-g"]
    );
    assert_eq!(get_rustc_optimization_flags("test"), vec!["--test", "-g"]);
    assert!(get_rustc_optimization_flags("other").is_empty());
}

#[test]
fn value_options_take_their_value() {
    let options = vec![
        "--edition".to_string(),
        "2021".to_string(),
        "-C".to_string(),
        "-O".to_string(),
    ];
    assert_eq!(
        validate_and_translate_options(&options, true),
        vec!["--edition", "2021", "-C", "-O"]
    );
    assert!(is_valid_rustc_option("-Copt-level=3"));
    assert!(is_valid_rustc_option("-L/usr/lib"));
    assert!(!is_valid_rustc_option("x"));
    assert!(get_rustc_translation_help().starts_with("Cargo to Rustc Option Translation:"));
}
