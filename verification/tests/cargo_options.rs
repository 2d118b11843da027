use raz_core::cargo_options::{CargoOptions, OptionType};
use raz_core::cargo_options_catalog::{get_option_info, is_cargo_option};

#[test]
fn test_common_options() {
    let options = &CargoOptions::new();
    assert!(options.is_valid_option("run", "--features"));
    assert!(options.is_valid_option("test", "--release"));
    assert!(options.is_valid_option("bench", "--package"));
}

#[test]
fn test_command_specific_options() {
    let options = &CargoOptions::new();
    assert!(options.is_valid_option("run", "--bin"));
    assert!(options.is_valid_option("test", "--doc"));
    assert!(options.is_valid_option("bench", "--benches"));

    assert!(!options.is_valid_option("run", "--doc"));
    assert!(!options.is_valid_option("run", "--no-run"));
}

#[test]
fn test_option_conflicts() {
    let options = &CargoOptions::new();
    let conflicts = options.check_conflicts("test", &["--lib", "--bin", "--bins"]);
    assert!(!conflicts.is_empty());
    assert!(conflicts.contains(&("--lib", "--bin")));
    assert!(conflicts.contains(&("--lib", "--bins")));
    assert!(conflicts.contains(&("--bin", "--bins")));
}

#[test]
fn unknown_commands_and_metadata() {
    let options = CargoOptions::new();
    assert!(!options.is_valid_option("doc", "--release"));
    let m = options.get_option("doc", "--release").unwrap();
    assert_eq!(m.option_type, OptionType::Flag);
    assert_eq!(m.conflicts_with, vec!["--debug"]);
    assert!(options.get_option("run", "--nothing").is_none());
    assert_eq!(options.get_option("test", "-Z").unwrap().option_type, OptionType::Repeatable);
}

#[test]
fn all_options_are_unique() {
    let options = CargoOptions::new();
    let run = options.get_all_options("run");
    assert_eq!(run.len(), 23 + 8);
    let mut sorted = run.clone();
    sorted.sort();
    sorted.dedup();
    assert_eq!(sorted.len(), run.len());
    assert_eq!(options.get_all_options("unknown").len(), 23);
    assert_eq!(options.get_all_options("test").len(), 23 + 16);
}

#[test]
fn conflicts_follow_order() {
    let options = CargoOptions::new();
    assert_eq!(
        options.check_conflicts("build", &["--release", "--debug"]),
        vec![("--release", "--debug")]
    );
    assert_eq!(
        options.check_conflicts("build", &["--verbose", "-q"]),
        Vec::<(&str, &str)>::new()
    );
    assert_eq!(
        options.check_conflicts("build", &["-q", "--verbose"]),
        vec![("-q", "--verbose")]
    );
}

#[test]
fn catalog_knows_only_its_subcommands() {
    assert!(is_cargo_option("test", "-r"));
    assert!(is_cargo_option("build", "--release"));
    assert!(!is_cargo_option("fmt", "--release"));
    assert!(get_option_info("fmt", "--release").is_none());
    assert_eq!(get_option_info("build", "--release").is_some(), is_cargo_option("build", "--release"));
}
