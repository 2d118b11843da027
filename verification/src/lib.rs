//! Context-aware command generation for Rust projects: option catalogs,
//! command construction, filtering, file and project analysis.

pub mod text;
pub mod manifest;
pub mod error;
pub mod rustc_options;
pub mod paths;
pub mod context;
pub mod commands;
pub mod numbers;
pub mod filters;
pub mod dioxus_validation;
pub mod file_detection;
pub mod cargo_options;
pub mod cargo_options_catalog;
pub mod test_commands;
pub mod providers;
pub mod project_analysis;
pub mod framework_detection;
pub mod browser;
pub mod engine;
pub mod syntax_tree;
pub mod ast;
pub mod tree_sitter_test_detector;
