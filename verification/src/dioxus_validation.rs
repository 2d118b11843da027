//! Validation of the command-line options of the Dioxus (`dx serve`) and
//! Leptos (`cargo leptos watch`) tools, with typed values and suggestions
//! for typos.

use crate::numbers::{lev_dist, levenshtein_distance, parse_unsigned, parse_unsigned_chars};
use crate::text::{
    chars_of, has_prefix, lowercase, owned, regex_is_match, regex_matches, split, split_seq,
    str_eq, str_starts_with, to_lowercase, views, vviews,
};
use vstd::prelude::*;

verus! {

/// Option value types.
#[derive(Debug, Clone, PartialEq)]
pub enum DioxusOptionType {
    /// Flag option (no value required)
    Flag,
    /// Boolean option with explicit true/false values
    Bool { default: Option<bool> },
    /// String value
    String { default: Option<String> },
    /// Port number (1-65535)
    Port { default: Option<u16> },
    /// Network address
    Address { default: Option<String> },
    /// Platform enum
    Platform { default: Option<String> },
    /// Architecture enum
    Architecture,
    /// Profile name
    Profile { default: Option<String> },
    /// Features list (space-separated)
    Features,
    /// Multiple string values
    Multiple,
    /// Interval in seconds
    Interval { default: Option<u64> },
}

/// The abstract value of an option type.
pub enum OptionTypeView {
    Flag,
    Bool { default: Option<bool> },
    String { default: Option<Seq<char>> },
    Port { default: Option<u16> },
    Address { default: Option<Seq<char>> },
    Platform { default: Option<Seq<char>> },
    Architecture,
    Profile { default: Option<Seq<char>> },
    Features,
    Multiple,
    Interval { default: Option<u64> },
}

pub open spec fn opt_string_view(o: Option<String>) -> Option<Seq<char>> {
    match o {
        Some(s) => Some(s@),
        None => None,
    }
}

impl View for DioxusOptionType {
    type V = OptionTypeView;

    open spec fn view(&self) -> OptionTypeView {
        match self {
            DioxusOptionType::Flag => OptionTypeView::Flag,
            DioxusOptionType::Bool { default } => OptionTypeView::Bool { default: *default },
            DioxusOptionType::String { default } => OptionTypeView::String {
                default: opt_string_view(*default),
            },
            DioxusOptionType::Port { default } => OptionTypeView::Port { default: *default },
            DioxusOptionType::Address { default } => OptionTypeView::Address {
                default: opt_string_view(*default),
            },
            DioxusOptionType::Platform { default } => OptionTypeView::Platform {
                default: opt_string_view(*default),
            },
            DioxusOptionType::Architecture => OptionTypeView::Architecture,
            DioxusOptionType::Profile { default } => OptionTypeView::Profile {
                default: opt_string_view(*default),
            },
            DioxusOptionType::Features => OptionTypeView::Features,
            DioxusOptionType::Multiple => OptionTypeView::Multiple,
            DioxusOptionType::Interval { default } => OptionTypeView::Interval { default: *default },
        }
    }
}

/// Option metadata.
#[derive(Debug, Clone)]
pub struct DioxusOptionInfo {
    pub long: &'static str,
    pub short: Option<&'static str>,
    pub option_type: DioxusOptionType,
    pub description: &'static str,
    pub possible_values: Option<Vec<&'static str>>,
}

/// The abstract value of an option's metadata.
pub struct OptionEntry {
    pub long: Seq<char>,
    pub short: Option<Seq<char>>,
    pub option_type: OptionTypeView,
    pub description: Seq<char>,
    pub possible_values: Option<Seq<Seq<char>>>,
}

/// The texts of a list of string slices.
pub open spec fn strs_view(v: Seq<&str>) -> Seq<Seq<char>> {
    v.map_values(|x: &str| x@)
}

impl View for DioxusOptionInfo {
    type V = OptionEntry;

    open spec fn view(&self) -> OptionEntry {
        OptionEntry {
            long: self.long@,
            short: match self.short {
                Some(s) => Some(s@),
                None => None,
            },
            option_type: self.option_type@,
            description: self.description@,
            possible_values: match self.possible_values {
                Some(v) => Some(strs_view(v@)),
                None => None,
            },
        }
    }
}

pub open spec fn entries_view(v: Seq<DioxusOptionInfo>) -> Seq<OptionEntry> {
    v.map_values(|e: DioxusOptionInfo| e@)
}

/// Validation result.
#[derive(Debug, Clone)]
pub enum ValidationResult {
    Valid,
    InvalidOption { suggestion: Option<String> },
    InvalidValue { expected: String, got: String, suggestions: Vec<String> },
    MissingValue { expected: String },
}

/// The abstract value of a validation result.
pub enum ValidationOutcome {
    Valid,
    InvalidOption { suggestion: Option<Seq<char>> },
    InvalidValue { expected: Seq<char>, got: Seq<char>, suggestions: Seq<Seq<char>> },
    MissingValue { expected: Seq<char> },
}

impl View for ValidationResult {
    type V = ValidationOutcome;

    open spec fn view(&self) -> ValidationOutcome {
        match self {
            ValidationResult::Valid => ValidationOutcome::Valid,
            ValidationResult::InvalidOption { suggestion } => ValidationOutcome::InvalidOption {
                suggestion: opt_string_view(*suggestion),
            },
            ValidationResult::InvalidValue { expected, got, suggestions } =>
                ValidationOutcome::InvalidValue {
                expected: expected@,
                got: got@,
                suggestions: views(suggestions@),
            },
            ValidationResult::MissingValue { expected } => ValidationOutcome::MissingValue {
                expected: expected@,
            },
        }
    }
}

pub open spec fn bool_values_spec() -> Seq<Seq<char>> {
    seq!["true"@, "false"@]
}

pub open spec fn platform_values_spec() -> Seq<Seq<char>> {
    seq![
        "web"@,
        "macos"@,
        "windows"@,
        "linux"@,
        "ios"@,
        "android"@,
        "server"@,
        "liveview"@,
    ]
}

pub open spec fn arch_values_spec() -> Seq<Seq<char>> {
    seq!["arm"@, "arm64"@, "x86"@, "x64"@]
}

fn bool_strs() -> (r: Vec<&'static str>)
    ensures
        strs_view(r@) == bool_values_spec(),
{
    let mut v: Vec<&'static str> = Vec::new();
    v.push("true");
    v.push("false");
    assert(strs_view(v@) =~= bool_values_spec());
    v
}

fn platform_strs() -> (r: Vec<&'static str>)
    ensures
        strs_view(r@) == platform_values_spec(),
{
    let mut v: Vec<&'static str> = Vec::new();
    v.push("web");
    v.push("macos");
    v.push("windows");
    v.push("linux");
    v.push("ios");
    v.push("android");
    v.push("server");
    v.push("liveview");
    assert(strs_view(v@) =~= platform_values_spec());
    v
}

fn arch_strs() -> (r: Vec<&'static str>)
    ensures
        strs_view(r@) == arch_values_spec(),
{
    let mut v: Vec<&'static str> = Vec::new();
    v.push("arm");
    v.push("arm64");
    v.push("x86");
    v.push("x64");
    assert(strs_view(v@) =~= arch_values_spec());
    v
}

/// The options of `dx serve`, in the order they are listed.
pub open spec fn dioxus_serve_spec() -> Seq<OptionEntry> {
    seq![
        OptionEntry {
            long: "--port"@,
            short: None,
            option_type: OptionTypeView::Port { default: None },
            description: "The port the server will run on"@,
            possible_values: None,
        },
        OptionEntry {
            long: "--addr"@,
            short: None,
            option_type: OptionTypeView::Address { default: Some("localhost"@) },
            description: "The address the server will run on"@,
            possible_values: None,
        },
        OptionEntry {
            long: "--open"@,
            short: None,
            option_type: OptionTypeView::Bool { default: Some(true) },
            description: "Open the app in the default browser"@,
            possible_values: Some(bool_values_spec()),
        },
        OptionEntry {
            long: "--hot-reload"@,
            short: None,
            option_type: OptionTypeView::Bool { default: Some(true) },
            description: "Enable full hot reloading for the app"@,
            possible_values: Some(bool_values_spec()),
        },
        OptionEntry {
            long: "--always-on-top"@,
            short: None,
            option_type: OptionTypeView::Bool { default: Some(true) },
            description: "Configure always-on-top for desktop apps"@,
            possible_values: Some(bool_values_spec()),
        },
        OptionEntry {
            long: "--cross-origin-policy"@,
            short: None,
            option_type: OptionTypeView::Flag,
            description: "Set cross-origin-policy to same-origin"@,
            possible_values: None,
        },
        OptionEntry {
            long: "--args"@,
            short: None,
            option_type: OptionTypeView::String { default: None },
            description: "Additional arguments to pass to the executable"@,
            possible_values: None,
        },
        OptionEntry {
            long: "--wsl-file-poll-interval"@,
            short: None,
            option_type: OptionTypeView::Interval { default: None },
            description: "Sets the interval in seconds that the CLI will poll for file changes on WSL"@,
            possible_values: None,
        },
        OptionEntry {
            long: "--interactive"@,
            short: Some("-i"@),
            option_type: OptionTypeView::Bool { default: Some(false) },
            description: "Run the server in interactive mode"@,
            possible_values: Some(bool_values_spec()),
        },
        OptionEntry {
            long: "--release"@,
            short: Some("-r"@),
            option_type: OptionTypeView::Flag,
            description: "Build in release mode"@,
            possible_values: None,
        },
        OptionEntry {
            long: "--force-sequential"@,
            short: None,
            option_type: OptionTypeView::Flag,
            description: "Force fullstack builds to run server first, then client"@,
            possible_values: None,
        },
        OptionEntry {
            long: "--profile"@,
            short: None,
            option_type: OptionTypeView::Profile { default: None },
            description: "Build the app with custom a profile"@,
            possible_values: None,
        },
        OptionEntry {
            long: "--verbose"@,
            short: None,
            option_type: OptionTypeView::Flag,
            description: "Use verbose output"@,
            possible_values: None,
        },
        OptionEntry {
            long: "--server-profile"@,
            short: None,
            option_type: OptionTypeView::Profile { default: Some("server-dev"@) },
            description: "Build with custom profile for the fullstack server"@,
            possible_values: None,
        },
        OptionEntry {
            long: "--trace"@,
            short: None,
            option_type: OptionTypeView::Flag,
            description: "Use trace output"@,
            possible_values: None,
        },
        OptionEntry {
            long: "--json-output"@,
            short: None,
            option_type: OptionTypeView::Flag,
            description: "Output logs in JSON format"@,
            possible_values: None,
        },
        OptionEntry {
            long: "--platform"@,
            short: None,
            option_type: OptionTypeView::Platform { default: Some("default_platform"@) },
            description: "Build platform: support Web & Desktop"@,
            possible_values: Some(platform_values_spec()),
        },
        OptionEntry {
            long: "--fullstack"@,
            short: None,
            option_type: OptionTypeView::Flag,
            description: "Build the fullstack variant of this app"@,
            possible_values: None,
        },
        OptionEntry {
            long: "--ssg"@,
            short: None,
            option_type: OptionTypeView::Flag,
            description: "Run the ssg config of the app and generate the files"@,
            possible_values: None,
        },
        OptionEntry {
            long: "--skip-assets"@,
            short: None,
            option_type: OptionTypeView::Flag,
            description: "Skip collecting assets from dependencies"@,
            possible_values: None,
        },
        OptionEntry {
            long: "--inject-loading-scripts"@,
            short: None,
            option_type: OptionTypeView::Flag,
            description: "Inject scripts to load the wasm and js files"@,
            possible_values: None,
        },
        OptionEntry {
            long: "--debug-symbols"@,
            short: None,
            option_type: OptionTypeView::Flag,
            description: "Generate debug symbols for the wasm binary"@,
            possible_values: None,
        },
        OptionEntry {
            long: "--nightly"@,
            short: None,
            option_type: OptionTypeView::Flag,
            description: "Build for nightly"@,
            possible_values: None,
        },
        OptionEntry {
            long: "--example"@,
            short: None,
            option_type: OptionTypeView::String { default: Some(""@) },
            description: "Build a example"@,
            possible_values: None,
        },
        OptionEntry {
            long: "--bin"@,
            short: None,
            option_type: OptionTypeView::String { default: Some(""@) },
            description: "Build a binary"@,
            possible_values: None,
        },
        OptionEntry {
            long: "--package"@,
            short: Some("-p"@),
            option_type: OptionTypeView::String { default: None },
            description: "The package to build"@,
            possible_values: None,
        },
        OptionEntry {
            long: "--features"@,
            short: None,
            option_type: OptionTypeView::Features,
            description: "Space separated list of features to activate"@,
            possible_values: None,
        },
        OptionEntry {
            long: "--client-features"@,
            short: None,
            option_type: OptionTypeView::String { default: Some("web"@) },
            description: "The feature to use for the client in a fullstack app"@,
            possible_values: None,
        },
        OptionEntry {
            long: "--server-features"@,
            short: None,
            option_type: OptionTypeView::String { default: Some("server"@) },
            description: "The feature to use for the server in a fullstack app"@,
            possible_values: None,
        },
        OptionEntry {
            long: "--no-default-features"@,
            short: None,
            option_type: OptionTypeView::Flag,
            description: "Don't include the default features in the build"@,
            possible_values: None,
        },
        OptionEntry {
            long: "--arch"@,
            short: None,
            option_type: OptionTypeView::Architecture,
            description: "The architecture to build for"@,
            possible_values: Some(arch_values_spec()),
        },
        OptionEntry {
            long: "--device"@,
            short: None,
            option_type: OptionTypeView::Bool { default: None },
            description: "Are we building for a device or just the simulator"@,
            possible_values: Some(bool_values_spec()),
        },
        OptionEntry {
            long: "--target"@,
            short: None,
            option_type: OptionTypeView::String { default: None },
            description: "Rustc platform triple"@,
            possible_values: None,
        },
    ]
}

/// The options of `cargo leptos watch`, in the order they are listed.
pub open spec fn leptos_watch_spec() -> Seq<OptionEntry> {
    seq![
        OptionEntry {
            long: "--release"@,
            short: Some("-r"@),
            option_type: OptionTypeView::Flag,
            description: "Build artifacts in release mode, with optimizations"@,
            possible_values: None,
        },
        OptionEntry {
            long: "--precompress"@,
            short: Some("-P"@),
            option_type: OptionTypeView::Flag,
            description: "Precompress static assets with gzip and brotli. Applies to release builds only"@,
            possible_values: None,
        },
        OptionEntry {
            long: "--hot-reload"@,
            short: None,
            option_type: OptionTypeView::Flag,
            description: "Turn on partial hot-reloading. Requires rust nightly [beta]"@,
            possible_values: None,
        },
        OptionEntry {
            long: "--project"@,
            short: Some("-p"@),
            option_type: OptionTypeView::String { default: None },
            description: "Which project to use, from a list of projects defined in a workspace"@,
            possible_values: None,
        },
        OptionEntry {
            long: "--features"@,
            short: None,
            option_type: OptionTypeView::Features,
            description: "The features to use when compiling all targets"@,
            possible_values: None,
        },
        OptionEntry {
            long: "--lib-features"@,
            short: None,
            option_type: OptionTypeView::Features,
            description: "The features to use when compiling the lib target"@,
            possible_values: None,
        },
        OptionEntry {
            long: "--lib-cargo-args"@,
            short: None,
            option_type: OptionTypeView::String { default: None },
            description: "The cargo flags to pass to cargo when compiling the lib target"@,
            possible_values: None,
        },
        OptionEntry {
            long: "--bin-features"@,
            short: None,
            option_type: OptionTypeView::Features,
            description: "The features to use when compiling the bin target"@,
            possible_values: None,
        },
        OptionEntry {
            long: "--bin-cargo-args"@,
            short: None,
            option_type: OptionTypeView::String { default: None },
            description: "The cargo flags to pass to cargo when compiling the bin target"@,
            possible_values: None,
        },
        OptionEntry {
            long: "--wasm-debug"@,
            short: None,
            option_type: OptionTypeView::Flag,
            description: "Include debug information in Wasm output. Includes source maps and DWARF debug info"@,
            possible_values: None,
        },
        OptionEntry {
            long: "-v"@,
            short: None,
            option_type: OptionTypeView::Multiple,
            description: "Verbosity (none: info, errors & warnings, -v: verbose, -vv: very verbose)"@,
            possible_values: None,
        },
        OptionEntry {
            long: "--js-minify"@,
            short: None,
            option_type: OptionTypeView::Bool { default: Some(true) },
            description: "Minify javascript assets with swc. Applies to release builds only"@,
            possible_values: Some(bool_values_spec()),
        },
    ]
}

#[verifier::rlimit(60)]
fn dioxus_serve_table() -> (r: Vec<DioxusOptionInfo>)
    ensures
        entries_view(r@) == dioxus_serve_spec(),
{
    let mut t: Vec<DioxusOptionInfo> = Vec::new();
    t.push(DioxusOptionInfo {
        long: "--port",
        short: None,
        option_type: DioxusOptionType::Port { default: None },
        description: "The port the server will run on",
        possible_values: None,
    });
    t.push(DioxusOptionInfo {
        long: "--addr",
        short: None,
        option_type: DioxusOptionType::Address { default: Some(owned("localhost")) },
        description: "The address the server will run on",
        possible_values: None,
    });
    t.push(DioxusOptionInfo {
        long: "--open",
        short: None,
        option_type: DioxusOptionType::Bool { default: Some(true) },
        description: "Open the app in the default browser",
        possible_values: Some(bool_strs()),
    });
    t.push(DioxusOptionInfo {
        long: "--hot-reload",
        short: None,
        option_type: DioxusOptionType::Bool { default: Some(true) },
        description: "Enable full hot reloading for the app",
        possible_values: Some(bool_strs()),
    });
    t.push(DioxusOptionInfo {
        long: "--always-on-top",
        short: None,
        option_type: DioxusOptionType::Bool { default: Some(true) },
        description: "Configure always-on-top for desktop apps",
        possible_values: Some(bool_strs()),
    });
    t.push(DioxusOptionInfo {
        long: "--cross-origin-policy",
        short: None,
        option_type: DioxusOptionType::Flag,
        description: "Set cross-origin-policy to same-origin",
        possible_values: None,
    });
    t.push(DioxusOptionInfo {
        long: "--args",
        short: None,
        option_type: DioxusOptionType::String { default: None },
        description: "Additional arguments to pass to the executable",
        possible_values: None,
    });
    t.push(DioxusOptionInfo {
        long: "--wsl-file-poll-interval",
        short: None,
        option_type: DioxusOptionType::Interval { default: None },
        description: "Sets the interval in seconds that the CLI will poll for file changes on WSL",
        possible_values: None,
    });
    t.push(DioxusOptionInfo {
        long: "--interactive",
        short: Some("-i"),
        option_type: DioxusOptionType::Bool { default: Some(false) },
        description: "Run the server in interactive mode",
        possible_values: Some(bool_strs()),
    });
    t.push(DioxusOptionInfo {
        long: "--release",
        short: Some("-r"),
        option_type: DioxusOptionType::Flag,
        description: "Build in release mode",
        possible_values: None,
    });
    t.push(DioxusOptionInfo {
        long: "--force-sequential",
        short: None,
        option_type: DioxusOptionType::Flag,
        description: "Force fullstack builds to run server first, then client",
        possible_values: None,
    });
    t.push(DioxusOptionInfo {
        long: "--profile",
        short: None,
        option_type: DioxusOptionType::Profile { default: None },
        description: "Build the app with custom a profile",
        possible_values: None,
    });
    t.push(DioxusOptionInfo {
        long: "--verbose",
        short: None,
        option_type: DioxusOptionType::Flag,
        description: "Use verbose output",
        possible_values: None,
    });
    t.push(DioxusOptionInfo {
        long: "--server-profile",
        short: None,
        option_type: DioxusOptionType::Profile { default: Some(owned("server-dev")) },
        description: "Build with custom profile for the fullstack server",
        possible_values: None,
    });
    t.push(DioxusOptionInfo {
        long: "--trace",
        short: None,
        option_type: DioxusOptionType::Flag,
        description: "Use trace output",
        possible_values: None,
    });
    t.push(DioxusOptionInfo {
        long: "--json-output",
        short: None,
        option_type: DioxusOptionType::Flag,
        description: "Output logs in JSON format",
        possible_values: None,
    });
    t.push(DioxusOptionInfo {
        long: "--platform",
        short: None,
        option_type: DioxusOptionType::Platform { default: Some(owned("default_platform")) },
        description: "Build platform: support Web & Desktop",
        possible_values: Some(platform_strs()),
    });
    t.push(DioxusOptionInfo {
        long: "--fullstack",
        short: None,
        option_type: DioxusOptionType::Flag,
        description: "Build the fullstack variant of this app",
        possible_values: None,
    });
    t.push(DioxusOptionInfo {
        long: "--ssg",
        short: None,
        option_type: DioxusOptionType::Flag,
        description: "Run the ssg config of the app and generate the files",
        possible_values: None,
    });
    t.push(DioxusOptionInfo {
        long: "--skip-assets",
        short: None,
        option_type: DioxusOptionType::Flag,
        description: "Skip collecting assets from dependencies",
        possible_values: None,
    });
    t.push(DioxusOptionInfo {
        long: "--inject-loading-scripts",
        short: None,
        option_type: DioxusOptionType::Flag,
        description: "Inject scripts to load the wasm and js files",
        possible_values: None,
    });
    t.push(DioxusOptionInfo {
        long: "--debug-symbols",
        short: None,
        option_type: DioxusOptionType::Flag,
        description: "Generate debug symbols for the wasm binary",
        possible_values: None,
    });
    t.push(DioxusOptionInfo {
        long: "--nightly",
        short: None,
        option_type: DioxusOptionType::Flag,
        description: "Build for nightly",
        possible_values: None,
    });
    t.push(DioxusOptionInfo {
        long: "--example",
        short: None,
        option_type: DioxusOptionType::String { default: Some(owned("")) },
        description: "Build a example",
        possible_values: None,
    });
    t.push(DioxusOptionInfo {
        long: "--bin",
        short: None,
        option_type: DioxusOptionType::String { default: Some(owned("")) },
        description: "Build a binary",
        possible_values: None,
    });
    t.push(DioxusOptionInfo {
        long: "--package",
        short: Some("-p"),
        option_type: DioxusOptionType::String { default: None },
        description: "The package to build",
        possible_values: None,
    });
    t.push(DioxusOptionInfo {
        long: "--features",
        short: None,
        option_type: DioxusOptionType::Features,
        description: "Space separated list of features to activate",
        possible_values: None,
    });
    t.push(DioxusOptionInfo {
        long: "--client-features",
        short: None,
        option_type: DioxusOptionType::String { default: Some(owned("web")) },
        description: "The feature to use for the client in a fullstack app",
        possible_values: None,
    });
    t.push(DioxusOptionInfo {
        long: "--server-features",
        short: None,
        option_type: DioxusOptionType::String { default: Some(owned("server")) },
        description: "The feature to use for the server in a fullstack app",
        possible_values: None,
    });
    t.push(DioxusOptionInfo {
        long: "--no-default-features",
        short: None,
        option_type: DioxusOptionType::Flag,
        description: "Don't include the default features in the build",
        possible_values: None,
    });
    t.push(DioxusOptionInfo {
        long: "--arch",
        short: None,
        option_type: DioxusOptionType::Architecture,
        description: "The architecture to build for",
        possible_values: Some(arch_strs()),
    });
    t.push(DioxusOptionInfo {
        long: "--device",
        short: None,
        option_type: DioxusOptionType::Bool { default: None },
        description: "Are we building for a device or just the simulator",
        possible_values: Some(bool_strs()),
    });
    t.push(DioxusOptionInfo {
        long: "--target",
        short: None,
        option_type: DioxusOptionType::String { default: None },
        description: "Rustc platform triple",
        possible_values: None,
    });
    assert(entries_view(t@) =~= dioxus_serve_spec());
    t
}

#[verifier::rlimit(60)]
fn leptos_watch_table() -> (r: Vec<DioxusOptionInfo>)
    ensures
        entries_view(r@) == leptos_watch_spec(),
{
    let mut t: Vec<DioxusOptionInfo> = Vec::new();
    t.push(DioxusOptionInfo {
        long: "--release",
        short: Some("-r"),
        option_type: DioxusOptionType::Flag,
        description: "Build artifacts in release mode, with optimizations",
        possible_values: None,
    });
    t.push(DioxusOptionInfo {
        long: "--precompress",
        short: Some("-P"),
        option_type: DioxusOptionType::Flag,
        description: "Precompress static assets with gzip and brotli. Applies to release builds only",
        possible_values: None,
    });
    t.push(DioxusOptionInfo {
        long: "--hot-reload",
        short: None,
        option_type: DioxusOptionType::Flag,
        description: "Turn on partial hot-reloading. Requires rust nightly [beta]",
        possible_values: None,
    });
    t.push(DioxusOptionInfo {
        long: "--project",
        short: Some("-p"),
        option_type: DioxusOptionType::String { default: None },
        description: "Which project to use, from a list of projects defined in a workspace",
        possible_values: None,
    });
    t.push(DioxusOptionInfo {
        long: "--features",
        short: None,
        option_type: DioxusOptionType::Features,
        description: "The features to use when compiling all targets",
        possible_values: None,
    });
    t.push(DioxusOptionInfo {
        long: "--lib-features",
        short: None,
        option_type: DioxusOptionType::Features,
        description: "The features to use when compiling the lib target",
        possible_values: None,
    });
    t.push(DioxusOptionInfo {
        long: "--lib-cargo-args",
        short: None,
        option_type: DioxusOptionType::String { default: None },
        description: "The cargo flags to pass to cargo when compiling the lib target",
        possible_values: None,
    });
    t.push(DioxusOptionInfo {
        long: "--bin-features",
        short: None,
        option_type: DioxusOptionType::Features,
        description: "The features to use when compiling the bin target",
        possible_values: None,
    });
    t.push(DioxusOptionInfo {
        long: "--bin-cargo-args",
        short: None,
        option_type: DioxusOptionType::String { default: None },
        description: "The cargo flags to pass to cargo when compiling the bin target",
        possible_values: None,
    });
    t.push(DioxusOptionInfo {
        long: "--wasm-debug",
        short: None,
        option_type: DioxusOptionType::Flag,
        description: "Include debug information in Wasm output. Includes source maps and DWARF debug info",
        possible_values: None,
    });
    t.push(DioxusOptionInfo {
        long: "-v",
        short: None,
        option_type: DioxusOptionType::Multiple,
        description: "Verbosity (none: info, errors & warnings, -v: verbose, -vv: very verbose)",
        possible_values: None,
    });
    t.push(DioxusOptionInfo {
        long: "--js-minify",
        short: None,
        option_type: DioxusOptionType::Bool { default: Some(true) },
        description: "Minify javascript assets with swc. Applies to release builds only",
        possible_values: Some(bool_strs()),
    });
    assert(entries_view(t@) =~= leptos_watch_spec());
    t
}

/// Framework CLI validator for Dioxus and Leptos.
pub struct FrameworkValidator {
    dioxus_serve_options: Vec<DioxusOptionInfo>,
    leptos_watch_options: Vec<DioxusOptionInfo>,
    platform_values: Vec<&'static str>,
    arch_values: Vec<&'static str>,
    bool_values: Vec<&'static str>,
}

/// The earlier name of the validator.
pub type DioxusValidator = FrameworkValidator;

/// The index of the first entry whose long form is `option`.
pub open spec fn entry_index(t: Seq<OptionEntry>, option: Seq<char>) -> Option<int>
    decreases t.len(),
{
    if t.len() == 0 {
        None
    } else {
        match entry_index(t.drop_last(), option) {
            Some(i) => Some(i),
            None => if t.last().long == option {
                Some(t.len() - 1)
            } else {
                None
            },
        }
    }
}

/// The names of `s` without repeats, each where it first occurs.
pub open spec fn first_occurrences(s: Seq<Seq<char>>) -> Seq<Seq<char>>
    decreases s.len(),
{
    if s.len() == 0 {
        s
    } else if s.drop_last().contains(s.last()) {
        first_occurrences(s.drop_last())
    } else {
        first_occurrences(s.drop_last()).push(s.last())
    }
}

/// Keeping the first occurrences keeps every name and repeats none.
pub proof fn lemma_first_occurrences_props(s: Seq<Seq<char>>)
    ensures
        forall|x: Seq<char>| #[trigger] first_occurrences(s).contains(x) <==> s.contains(x),
        first_occurrences(s).no_duplicates(),
    decreases s.len(),
{
    if s.len() > 0 {
        let d = s.drop_last();
        lemma_first_occurrences_props(d);
        let f = first_occurrences(d);
        assert forall|x: Seq<char>| #[trigger] s.contains(x) <==> (d.contains(x) || x == s.last()) by {
            if s.contains(x) {
                let k = choose|k: int| 0 <= k < s.len() && s[k] == x;
                if k < s.len() - 1 {
                    assert(d[k] == x);
                }
            }
            if d.contains(x) {
                let k = choose|k: int| 0 <= k < d.len() && d[k] == x;
                assert(s[k] == x);
            }
            if x == s.last() {
                assert(s[s.len() - 1] == x);
            }
        }
        if !d.contains(s.last()) {
            let g = f.push(s.last());
            assert forall|x: Seq<char>| #[trigger] g.contains(x) <==> (f.contains(x) || x == s.last()) by {
                if g.contains(x) {
                    let k = choose|k: int| 0 <= k < g.len() && g[k] == x;
                    if k < f.len() {
                        assert(f[k] == x);
                    }
                }
                if f.contains(x) {
                    let k = choose|k: int| 0 <= k < f.len() && f[k] == x;
                    assert(g[k] == x);
                }
                if x == s.last() {
                    assert(g[f.len() as int] == x);
                }
            }
            assert forall|a: int, b: int| 0 <= a < g.len() && 0 <= b < g.len() && a != b implies g[a] != g[b] by {
                if a == f.len() {
                    assert(f.contains(g[b]));
                } else if b == f.len() {
                    assert(f.contains(g[a]));
                } else {
                    assert(g[a] == f[a] && g[b] == f[b]);
                }
            }
        }
    }
}

/// The closest long form to `input` among the first entries of `t`, with
/// its distance: an entry replaces the best so far only when it is strictly
/// closer, and only entries within distance 3 count.
pub open spec fn closest_from(t: Seq<OptionEntry>, input: Seq<char>) -> (nat, Option<Seq<char>>)
    decreases t.len(),
{
    if t.len() == 0 {
        (usize::MAX as nat, None)
    } else {
        let best = closest_from(t.drop_last(), input);
        let d = lev_dist(input, t.last().long);
        if d < best.0 && d <= 3 {
            (d, Some(t.last().long))
        } else {
            best
        }
    }
}

pub open spec fn suggest_bool_spec(input: Seq<char>) -> Seq<Seq<char>> {
    let lower = lowercase(input);
    if has_prefix(lower, "t"@) || has_prefix(lower, "y"@) || lower == "1"@ {
        seq!["true"@]
    } else if has_prefix(lower, "f"@) || has_prefix(lower, "n"@) || lower == "0"@ {
        seq!["false"@]
    } else {
        seq!["true"@, "false"@]
    }
}

/// The values that start with `input` lowercased or lie within `max_dist`
/// edits of it, in order; `fallback` when there are none.
pub open spec fn suggest_values_spec(
    values: Seq<Seq<char>>,
    input: Seq<char>,
    max_dist: nat,
    fallback: Seq<Seq<char>>,
) -> Seq<Seq<char>> {
    let lower = lowercase(input);
    let close = values.filter(|v: Seq<char>| has_prefix(v, lower) || lev_dist(lower, v) <= max_dist);
    if close.len() == 0 {
        fallback
    } else {
        close
    }
}

pub open spec fn ip_pattern() -> Seq<char> {
    "^(\\d{1,3}\\.){3}\\d{1,3}$"@
}

pub open spec fn hostname_pattern() -> Seq<char> {
    "^[a-zA-Z0-9.-]+$"@
}

/// Every dot-separated part of `addr` is a number from 0 to 255.
pub open spec fn octets_ok(addr: Seq<char>) -> bool {
    forall|i: int|
        0 <= i < split(addr, "."@).len() ==> (#[trigger] parse_unsigned(split(addr, "."@)[i], 255)) is Some
}

/// Whether an address is accepted, given whether it has the shape of an IPv4
/// address and of a host name (`None` when the shape test could not be made).
pub open spec fn address_accepted(addr: Seq<char>, ip_shape: Option<bool>, host_shape: Option<bool>) -> bool {
    if addr == "localhost"@ || addr == "0.0.0.0"@ {
        true
    } else if ip_shape == Some(true) {
        octets_ok(addr)
    } else if ip_shape == Some(false) {
        host_shape == Some(true)
    } else {
        false
    }
}

/// Whether an address is accepted: `localhost`, `0.0.0.0`, four dotted
/// numbers from 0 to 255, or a host name of letters, digits, dots and dashes.
pub open spec fn address_valid(addr: Seq<char>) -> bool {
    address_accepted(addr, regex_matches(ip_pattern(), addr), regex_matches(hostname_pattern(), addr))
}

pub open spec fn invalid_value(expected: Seq<char>, got: Seq<char>, suggestions: Seq<Seq<char>>) -> ValidationOutcome {
    ValidationOutcome::InvalidValue { expected, got, suggestions }
}

pub open spec fn join_view(parts: Seq<Seq<char>>, sep: Seq<char>) -> Seq<char> {
    crate::text::join(parts, sep)
}

/// The outcome of validating `value` for an option of type `t`.
pub open spec fn value_outcome(
    v: FrameworkValidator,
    t: OptionTypeView,
    value: Option<Seq<char>>,
) -> ValidationOutcome {
    match t {
        OptionTypeView::Flag => match value {
            Some(val) => invalid_value(
                "no value (this is a flag)"@,
                val,
                seq!["Remove the value - this option doesn't take a value"@],
            ),
            None => ValidationOutcome::Valid,
        },
        OptionTypeView::Bool { .. } => match value {
            Some(val) => if v.bool_values().contains(val) {
                ValidationOutcome::Valid
            } else {
                invalid_value("true or false"@, val, suggest_bool_spec(val))
            },
            None => ValidationOutcome::Valid,
        },
        OptionTypeView::Port { .. } => match value {
            Some(val) => match parse_unsigned(val, 65535) {
                Some(port) => if port > 0 {
                    ValidationOutcome::Valid
                } else {
                    invalid_value(
                        "port number (1-65535)"@,
                        val,
                        seq!["Try a port number like 3000, 8080, or 8000"@],
                    )
                },
                None => invalid_value(
                    "port number (1-65535)"@,
                    val,
                    seq!["Port must be a number, e.g., 3000, 8080, 8000"@],
                ),
            },
            None => ValidationOutcome::MissingValue { expected: "port number (e.g., 3000, 8080)"@ },
        },
        OptionTypeView::Address { .. } => match value {
            Some(val) => if address_valid(val) {
                ValidationOutcome::Valid
            } else {
                invalid_value(
                    "valid IP address or hostname"@,
                    val,
                    seq!["localhost"@, "127.0.0.1"@, "0.0.0.0"@],
                )
            },
            None => ValidationOutcome::MissingValue {
                expected: "IP address or hostname (e.g., localhost, 127.0.0.1)"@,
            },
        },
        OptionTypeView::Platform { .. } => match value {
            Some(val) => if v.platform_values().contains(val) {
                ValidationOutcome::Valid
            } else {
                invalid_value(
                    "one of: "@ + join_view(v.platform_values(), ", "@),
                    val,
                    suggest_values_spec(v.platform_values(), val, 2, seq!["web"@, "desktop"@]),
                )
            },
            None => ValidationOutcome::MissingValue {
                expected: "platform ("@ + join_view(v.platform_values(), ", "@) + ")"@,
            },
        },
        OptionTypeView::Architecture => match value {
            Some(val) => if v.arch_values().contains(val) {
                ValidationOutcome::Valid
            } else {
                invalid_value(
                    "one of: "@ + join_view(v.arch_values(), ", "@),
                    val,
                    suggest_values_spec(v.arch_values(), val, 1, seq!["x64"@, "arm64"@]),
                )
            },
            None => ValidationOutcome::MissingValue {
                expected: "architecture ("@ + join_view(v.arch_values(), ", "@) + ")"@,
            },
        },
        OptionTypeView::Interval { .. } => match value {
            Some(val) => match parse_unsigned(val, u64::MAX as nat) {
                Some(_) => ValidationOutcome::Valid,
                None => invalid_value(
                    "number of seconds"@,
                    val,
                    seq!["Try a number like 1, 5, or 30"@],
                ),
            },
            None => ValidationOutcome::MissingValue { expected: "interval in seconds (e.g., 1, 5, 30)"@ },
        },
        _ => match value {
            Some(_) => ValidationOutcome::Valid,
            None => ValidationOutcome::MissingValue { expected: "string value"@ },
        },
    }
}

/// The outcome of validating `option` with `value` for `framework`.
pub open spec fn validation_outcome(
    v: FrameworkValidator,
    framework: Seq<char>,
    option: Seq<char>,
    value: Option<Seq<char>>,
) -> ValidationOutcome {
    match v.options_of(framework) {
        None => ValidationOutcome::InvalidOption { suggestion: None },
        Some(t) => match entry_index(t, option) {
            None => ValidationOutcome::InvalidOption { suggestion: closest_from(t, option).1 },
            Some(i) => value_outcome(v, t[i].option_type, value),
        },
    }
}

pub open spec fn opt_str_view(o: Option<&str>) -> Option<Seq<char>> {
    match o {
        Some(s) => Some(s@),
        None => None,
    }
}

proof fn lemma_entry_index_props(t: Seq<OptionEntry>, option: Seq<char>)
    ensures
        match entry_index(t, option) {
            Some(i) => 0 <= i < t.len() && t[i].long == option && forall|j: int|
                0 <= j < i ==> #[trigger] t[j].long != option,
            None => forall|j: int| 0 <= j < t.len() ==> #[trigger] t[j].long != option,
        },
    decreases t.len(),
{
    if t.len() > 0 {
        lemma_entry_index_props(t.drop_last(), option);
        assert forall|j: int| 0 <= j < t.len() - 1 implies t.drop_last()[j] == t[j] by {}
    }
}

/// Whether `v` holds a slice equal to `s`.
fn strs_contain(v: &Vec<&'static str>, s: &str) -> (r: bool)
    ensures
        r == strs_view(v@).contains(s@),
{
    let mut i: usize = 0;
    while i < v.len()
        invariant
            i <= v@.len(),
            forall|j: int| 0 <= j < i ==> v@[j]@ != s@,
        decreases v.len() - i,
    {
        if str_eq(v[i], s) {
            assert(strs_view(v@)[i as int] == s@);
            return true;
        }
        i += 1;
    }
    assert(!strs_view(v@).contains(s@)) by {
        if strs_view(v@).contains(s@) {
            let k = choose|k: int| 0 <= k < strs_view(v@).len() && strs_view(v@)[k] == s@;
            assert(v@[k]@ == s@);
        }
    }
    false
}

/// Joins string slices with `sep` between consecutive ones.
fn join_strs(parts: &Vec<&'static str>, sep: &str) -> (r: String)
    ensures
        r@ == join_view(strs_view(parts@), sep@),
{
    let mut r = String::new();
    let n = parts.len();
    let ghost vs = strs_view(parts@);
    let mut i: usize = 0;
    while i < n
        invariant
            n == parts@.len(),
            vs == strs_view(parts@),
            i <= n,
            r@ == crate::text::join(vs.take(i as int), sep@),
        decreases n - i,
    {
        if i != 0 {
            r.append(sep);
        }
        r.append(parts[i]);
        proof {
            assert(vs.take(i + 1).drop_last() =~= vs.take(i as int));
            assert(vs.take(i + 1).last() == parts@[i as int]@);
            if i == 0 {
                assert(r@ =~= vs.take(1)[0]);
            }
        }
        i += 1;
    }
    assert(vs.take(n as int) =~= vs);
    r
}

fn one_string(a: &str) -> (r: Vec<String>)
    ensures
        views(r@) == seq![a@],
{
    let mut r: Vec<String> = Vec::new();
    r.push(owned(a));
    assert(views(r@) =~= seq![a@]);
    r
}

fn two_strings(a: &str, b: &str) -> (r: Vec<String>)
    ensures
        views(r@) == seq![a@, b@],
{
    let mut r: Vec<String> = Vec::new();
    r.push(owned(a));
    r.push(owned(b));
    assert(views(r@) =~= seq![a@, b@]);
    r
}

fn three_strings(a: &str, b: &str, c: &str) -> (r: Vec<String>)
    ensures
        views(r@) == seq![a@, b@, c@],
{
    let mut r: Vec<String> = Vec::new();
    r.push(owned(a));
    r.push(owned(b));
    r.push(owned(c));
    assert(views(r@) =~= seq![a@, b@, c@]);
    r
}

fn invalid_value_result(expected: String, got: &str, suggestions: Vec<String>) -> (r: ValidationResult)
    ensures
        r@ == invalid_value(expected@, got@, views(suggestions@)),
{
    ValidationResult::InvalidValue { expected, got: owned(got), suggestions }
}

fn missing_value(expected: &str) -> (r: ValidationResult)
    ensures
        r@ == (ValidationOutcome::MissingValue { expected: expected@ }),
{
    ValidationResult::MissingValue { expected: owned(expected) }
}

/// Decides whether an address is accepted, given the results of the two
/// shape tests (whether it looks like four dotted numbers, and like a host
/// name; `None` where the test could not be made).
pub fn address_verdict(addr: &str, ip_shape: Option<bool>, host_shape: Option<bool>) -> (r: bool)
    ensures
        r == address_accepted(addr@, ip_shape, host_shape),
{
    if str_eq(addr, "localhost") || str_eq(addr, "0.0.0.0") {
        return true;
    }
    match ip_shape {
        Some(true) => {
            let c = chars_of(addr);
            let mut dot: Vec<char> = Vec::new();
            dot.push('.');
            proof {
                reveal_strlit(".");
                assert(dot@ =~= "."@);
            }
            let parts = split_seq(c.as_slice(), dot.as_slice());
            let mut i: usize = 0;
            while i < parts.len()
                invariant
                    ip_shape == Some(true),
                    addr@ != "localhost"@,
                    addr@ != "0.0.0.0"@,
                    vviews(parts@) == split(addr@, "."@),
                    i <= parts@.len(),
                    forall|k: int| 0 <= k < i ==> (#[trigger] parse_unsigned(split(addr@, "."@)[k], 255)) is Some,
                decreases parts.len() - i,
            {
                assert(vviews(parts@)[i as int] == parts@[i as int]@);
                if parse_unsigned_chars(parts[i].as_slice(), 255).is_none() {
                    assert(parse_unsigned(split(addr@, "."@)[i as int], 255) is None);
                    assert(!octets_ok(addr@));
                    return false;
                }
                i += 1;
            }
            true
        },
        Some(false) => host_shape == Some(true),
        None => false,
    }
}

impl FrameworkValidator {
    pub closed spec fn dioxus_options(&self) -> Seq<OptionEntry> {
        entries_view(self.dioxus_serve_options@)
    }

    pub closed spec fn leptos_options(&self) -> Seq<OptionEntry> {
        entries_view(self.leptos_watch_options@)
    }

    pub closed spec fn platform_values(&self) -> Seq<Seq<char>> {
        strs_view(self.platform_values@)
    }

    pub closed spec fn arch_values(&self) -> Seq<Seq<char>> {
        strs_view(self.arch_values@)
    }

    pub closed spec fn bool_values(&self) -> Seq<Seq<char>> {
        strs_view(self.bool_values@)
    }

    /// The options of a framework: `dioxus` or `leptos`.
    pub open spec fn options_of(&self, framework: Seq<char>) -> Option<Seq<OptionEntry>> {
        if framework == "dioxus"@ {
            Some(self.dioxus_options())
        } else if framework == "leptos"@ {
            Some(self.leptos_options())
        } else {
            None
        }
    }

    pub fn new() -> (r: Self)
        ensures
            r.dioxus_options() == dioxus_serve_spec(),
            r.leptos_options() == leptos_watch_spec(),
            r.platform_values() == platform_values_spec(),
            r.arch_values() == arch_values_spec(),
            r.bool_values() == bool_values_spec(),
    {
        FrameworkValidator {
            dioxus_serve_options: dioxus_serve_table(),
            leptos_watch_options: leptos_watch_table(),
            platform_values: platform_strs(),
            arch_values: arch_strs(),
            bool_values: bool_strs(),
        }
    }

    fn table(&self, framework: &str) -> (r: Option<&Vec<DioxusOptionInfo>>)
        ensures
            match r {
                Some(t) => self.options_of(framework@) == Some(entries_view(t@)),
                None => self.options_of(framework@) is None,
            },
    {
        if str_eq(framework, "dioxus") {
            Some(&self.dioxus_serve_options)
        } else if str_eq(framework, "leptos") {
            Some(&self.leptos_watch_options)
        } else {
            None
        }
    }

    fn find_index(t: &Vec<DioxusOptionInfo>, option: &str) -> (r: Option<usize>)
        ensures
            match r {
                Some(i) => i < t@.len() && entry_index(entries_view(t@), option@) == Some(i as int),
                None => entry_index(entries_view(t@), option@) is None,
            },
    {
        let ghost ev = entries_view(t@);
        proof {
            lemma_entry_index_props(ev, option@);
        }
        let mut i: usize = 0;
        while i < t.len()
            invariant
                ev == entries_view(t@),
                i <= t@.len(),
                forall|j: int| 0 <= j < i ==> #[trigger] ev[j].long != option@,
                match entry_index(ev, option@) {
                    Some(k) => 0 <= k < ev.len() && ev[k].long == option@ && forall|j: int|
                        0 <= j < k ==> #[trigger] ev[j].long != option@,
                    None => forall|j: int| 0 <= j < ev.len() ==> #[trigger] ev[j].long != option@,
                },
            decreases t.len() - i,
        {
            assert(ev[i as int].long == t@[i as int].long@);
            if str_eq(t[i].long, option) {
                return Some(i);
            }
            i += 1;
        }
        None
    }

    /// Find the closest matching option for typo suggestions.
    fn find_closest_option(&self, framework: &str, input: &str) -> (r: Option<String>)
        ensures
            opt_string_view(r) == match self.options_of(framework@) {
                Some(t) => closest_from(t, input@).1,
                None => None,
            },
    {
        let t = match self.table(framework) {
            Some(t) => t,
            None => {
                return None;
            },
        };
        let ghost ev = entries_view(t@);
        let mut best: Option<String> = None;
        let mut best_distance: usize = usize::MAX;
        let mut i: usize = 0;
        while i < t.len()
            invariant
                ev == entries_view(t@),
                i <= t@.len(),
                (best_distance as nat, opt_string_view(best)) == closest_from(ev.take(i as int), input@),
            decreases t.len() - i,
        {
            assert(ev.take(i + 1).drop_last() =~= ev.take(i as int));
            assert(ev.take(i + 1).last() == ev[i as int]);
            let distance = levenshtein_distance(input, t[i].long);
            if distance < best_distance && distance <= 3 {
                best_distance = distance;
                best = Some(owned(t[i].long));
            }
            i += 1;
        }
        assert(ev.take(t@.len() as int) =~= ev);
        best
    }

    /// Suggest boolean values based on input.
    fn suggest_bool_values(&self, input: &str) -> (r: Vec<String>)
        ensures
            views(r@) == suggest_bool_spec(input@),
    {
        let lower = to_lowercase(input);
        let l = lower.as_str();
        if str_starts_with(l, "t") || str_starts_with(l, "y") || str_eq(l, "1") {
            one_string("true")
        } else if str_starts_with(l, "f") || str_starts_with(l, "n") || str_eq(l, "0") {
            one_string("false")
        } else {
            two_strings("true", "false")
        }
    }

    /// Values close to `input`: those starting with it (lowercased) or
    /// within `max_dist` edits of it; `fallback` when there are none.
    fn suggest_values(
        values: &Vec<&'static str>,
        input: &str,
        max_dist: usize,
        fallback: Vec<String>,
    ) -> (r: Vec<String>)
        ensures
            views(r@) == suggest_values_spec(strs_view(values@), input@, max_dist as nat, views(fallback@)),
    {
        let lower = to_lowercase(input);
        let ghost sv = strs_view(values@);
        let ghost p = |v: Seq<char>| has_prefix(v, lower@) || lev_dist(lower@, v) <= max_dist as nat;
        let mut out: Vec<String> = Vec::new();
        let mut i: usize = 0;
        while i < values.len()
            invariant
                sv == strs_view(values@),
                lower@ == lowercase(input@),
                p == (|v: Seq<char>| has_prefix(v, lower@) || lev_dist(lower@, v) <= max_dist as nat),
                i <= values@.len(),
                views(out@) == sv.take(i as int).filter(p),
            decreases values.len() - i,
        {
            proof {
                assert(sv.take(i + 1) =~= sv.take(i as int).push(sv[i as int]));
                sv.take(i as int).lemma_filter_push(sv[i as int], p);
            }
            let v = values[i];
            if str_starts_with(v, lower.as_str()) || levenshtein_distance(lower.as_str(), v) <= max_dist {
                let ghost before = out@;
                out.push(owned(v));
                proof {
                    crate::text::lemma_views_push(before, out@.last());
                    assert(out@ == before.push(out@.last()));
                }
            }
            i += 1;
        }
        assert(sv.take(values@.len() as int) =~= sv);
        if out.len() == 0 {
            fallback
        } else {
            out
        }
    }

    /// Platforms close to `input` (within two edits), else `web` and
    /// `desktop`.
    fn suggest_platform_values(&self, input: &str) -> (r: Vec<String>)
        ensures
            views(r@) == suggest_values_spec(
                strs_view(self.platform_values@),
                input@,
                2,
                seq!["web"@, "desktop"@],
            ),
    {
        let fallback = two_strings("web", "desktop");
        Self::suggest_values(&self.platform_values, input, 2, fallback)
    }

    /// Architectures close to `input` (within one edit), else `x64` and
    /// `arm64`.
    fn suggest_arch_values(&self, input: &str) -> (r: Vec<String>)
        ensures
            views(r@) == suggest_values_spec(
                strs_view(self.arch_values@),
                input@,
                1,
                seq!["x64"@, "arm64"@],
            ),
    {
        let fallback = two_strings("x64", "arm64");
        Self::suggest_values(&self.arch_values, input, 1, fallback)
    }

    /// Basic address validation.
    fn is_valid_address(&self, addr: &str) -> (r: bool)
        ensures
            r == address_valid(addr@),
    {
        if str_eq(addr, "localhost") || str_eq(addr, "0.0.0.0") {
            return address_verdict(addr, None, None);
        }
        let ip_shape = regex_is_match("^(\\d{1,3}\\.){3}\\d{1,3}$", addr);
        let host_shape = regex_is_match("^[a-zA-Z0-9.-]+$", addr);
        address_verdict(addr, ip_shape, host_shape)
    }

    /// Validate a framework option and its value.
    pub fn validate_option(&self, framework: &str, option: &str, value: Option<&str>) -> (r: ValidationResult)
        ensures
            r@ == validation_outcome(*self, framework@, option@, opt_str_view(value)),
    {
        let t = match self.table(framework) {
            Some(t) => t,
            None => {
                return ValidationResult::InvalidOption { suggestion: None };
            },
        };
        let i = match Self::find_index(t, option) {
            Some(i) => i,
            None => {
                let suggestion = self.find_closest_option(framework, option);
                return ValidationResult::InvalidOption { suggestion };
            },
        };
        assert(entries_view(t@)[i as int] == t@[i as int]@);
        match &t[i].option_type {
            DioxusOptionType::Flag => match value {
                Some(val) => invalid_value_result(
                    owned("no value (this is a flag)"),
                    val,
                    one_string("Remove the value - this option doesn't take a value"),
                ),
                None => ValidationResult::Valid,
            },
            DioxusOptionType::Bool { .. } => match value {
                Some(val) => if strs_contain(&self.bool_values, val) {
                    ValidationResult::Valid
                } else {
                    invalid_value_result(owned("true or false"), val, self.suggest_bool_values(val))
                },
                None => ValidationResult::Valid,
            },
            DioxusOptionType::Port { .. } => match value {
                Some(val) => match crate::numbers::parse_unsigned_exec(val, 65535) {
                    Some(port) => if port > 0 {
                        ValidationResult::Valid
                    } else {
                        invalid_value_result(
                            owned("port number (1-65535)"),
                            val,
                            one_string("Try a port number like 3000, 8080, or 8000"),
                        )
                    },
                    None => invalid_value_result(
                        owned("port number (1-65535)"),
                        val,
                        one_string("Port must be a number, e.g., 3000, 8080, 8000"),
                    ),
                },
                None => missing_value("port number (e.g., 3000, 8080)"),
            },
            DioxusOptionType::Address { .. } => match value {
                Some(val) => if self.is_valid_address(val) {
                    ValidationResult::Valid
                } else {
                    invalid_value_result(
                        owned("valid IP address or hostname"),
                        val,
                        three_strings("localhost", "127.0.0.1", "0.0.0.0"),
                    )
                },
                None => missing_value("IP address or hostname (e.g., localhost, 127.0.0.1)"),
            },
            DioxusOptionType::Platform { .. } => match value {
                Some(val) => if strs_contain(&self.platform_values, val) {
                    ValidationResult::Valid
                } else {
                    let mut expected = owned("one of: ");
                    expected.append(join_strs(&self.platform_values, ", ").as_str());
                    invalid_value_result(expected, val, self.suggest_platform_values(val))
                },
                None => {
                    let mut expected = owned("platform (");
                    expected.append(join_strs(&self.platform_values, ", ").as_str());
                    expected.append(")");
                    ValidationResult::MissingValue { expected }
                },
            },
            DioxusOptionType::Architecture => match value {
                Some(val) => if strs_contain(&self.arch_values, val) {
                    ValidationResult::Valid
                } else {
                    let mut expected = owned("one of: ");
                    expected.append(join_strs(&self.arch_values, ", ").as_str());
                    invalid_value_result(expected, val, self.suggest_arch_values(val))
                },
                None => {
                    let mut expected = owned("architecture (");
                    expected.append(join_strs(&self.arch_values, ", ").as_str());
                    expected.append(")");
                    ValidationResult::MissingValue { expected }
                },
            },
            DioxusOptionType::Interval { .. } => match value {
                Some(val) => match crate::numbers::parse_unsigned_exec(val, u64::MAX) {
                    Some(_) => ValidationResult::Valid,
                    None => invalid_value_result(
                        owned("number of seconds"),
                        val,
                        one_string("Try a number like 1, 5, or 30"),
                    ),
                },
                None => missing_value("interval in seconds (e.g., 1, 5, 30)"),
            },
            _ => match value {
                Some(_) => ValidationResult::Valid,
                None => missing_value("string value"),
            },
        }
    }

    /// Check if an option is valid for the specified framework.
    pub fn is_valid_option(&self, framework: &str, option: &str) -> (r: bool)
        ensures
            r == match self.options_of(framework@) {
                Some(t) => entry_index(t, option@) is Some,
                None => false,
            },
    {
        match self.table(framework) {
            Some(t) => Self::find_index(t, option).is_some(),
            None => false,
        }
    }

    /// Check if an option is valid for `dx serve`.
    pub fn is_valid_serve_option(&self, option: &str) -> (r: bool)
        ensures
            r == (entry_index(self.dioxus_options(), option@) is Some),
    {
        self.is_valid_option("dioxus", option)
    }

    /// Get option information for the specified framework.
    pub fn get_option_info(&self, framework: &str, option: &str) -> (r: Option<&DioxusOptionInfo>)
        ensures
            match self.options_of(framework@) {
                Some(t) => match entry_index(t, option@) {
                    Some(i) => r is Some && r->0@ == t[i],
                    None => r is None,
                },
                None => r is None,
            },
    {
        match self.table(framework) {
            Some(t) => match Self::find_index(t, option) {
                Some(i) => {
                    assert(entries_view(t@)[i as int] == t@[i as int]@);
                    Some(&t[i])
                },
                None => None,
            },
            None => None,
        }
    }

    /// All option names of the specified framework, each once, in the order
    /// of their first entry.
    pub fn get_all_options(&self, framework: &str) -> (r: Vec<&'static str>)
        ensures
            strs_view(r@) == match self.options_of(framework@) {
                Some(t) => first_occurrences(t.map_values(|e: OptionEntry| e.long)),
                None => Seq::<Seq<char>>::empty(),
            },
            strs_view(r@).no_duplicates(),
    {
        let mut out: Vec<&'static str> = Vec::new();
        match self.table(framework) {
            Some(t) => {
                let ghost names = entries_view(t@).map_values(|e: OptionEntry| e.long);
                let mut i: usize = 0;
                while i < t.len()
                    invariant
                        names == entries_view(t@).map_values(|e: OptionEntry| e.long),
                        i <= t@.len(),
                        strs_view(out@) == first_occurrences(names.take(i as int)),
                        strs_view(out@).no_duplicates(),
                    decreases t.len() - i,
                {
                    let name = t[i].long;
                    proof {
                        assert(names[i as int] == name@);
                        assert(names.take(i + 1).drop_last() =~= names.take(i as int));
                        assert(names.take(i + 1).last() == name@);
                        lemma_first_occurrences_props(names.take(i as int));
                    }
                    if !strs_contain(&out, name) {
                        let ghost before = out@;
                        out.push(name);
                        proof {
                            assert(strs_view(out@) =~= strs_view(before).push(name@));
                        }
                    }
                    i += 1;
                }
                assert(names.take(t@.len() as int) =~= names);
            },
            None => {
                assert(strs_view(out@) =~= Seq::<Seq<char>>::empty());
            },
        }
        out
    }

    /// Validate a `dx serve` option.
    pub fn validate_dioxus_option(&self, option: &str, value: Option<&str>) -> (r: ValidationResult)
        ensures
            r@ == validation_outcome(*self, "dioxus"@, option@, opt_str_view(value)),
    {
        self.validate_option("dioxus", option, value)
    }

    /// Validate a `cargo leptos watch` option.
    pub fn validate_leptos_option(&self, option: &str, value: Option<&str>) -> (r: ValidationResult)
        ensures
            r@ == validation_outcome(*self, "leptos"@, option@, opt_str_view(value)),
    {
        self.validate_option("leptos", option, value)
    }
}

/// An option is reported unknown exactly when the framework does not list it.
pub proof fn lemma_invalid_option_iff_unknown(
    v: FrameworkValidator,
    framework: Seq<char>,
    option: Seq<char>,
    value: Option<Seq<char>>,
)
    ensures
        validation_outcome(v, framework, option, value) is InvalidOption <==> match v.options_of(
            framework,
        ) {
            Some(t) => entry_index(t, option) is None,
            None => true,
        },
{
}

/// A suggestion for an unknown option names an option of the framework
/// within three edits of the input, and no option is strictly closer; when
/// there is no suggestion, every option is more than three edits away.
pub proof fn lemma_closest_is_closest(t: Seq<OptionEntry>, input: Seq<char>)
    ensures
        match closest_from(t, input).1 {
            Some(s) => {
                &&& exists|i: int| 0 <= i < t.len() && #[trigger] t[i].long == s
                &&& lev_dist(input, s) <= 3
                &&& lev_dist(input, s) == closest_from(t, input).0
                &&& forall|j: int| 0 <= j < t.len() ==> lev_dist(input, s) <= lev_dist(input, #[trigger] t[j].long)
            },
            None => forall|j: int| 0 <= j < t.len() ==> lev_dist(input, #[trigger] t[j].long) > 3,
        },
        closest_from(t, input).0 <= usize::MAX,
        closest_from(t, input).1 is None ==> closest_from(t, input).0 == usize::MAX,
    decreases t.len(),
{
    if t.len() > 0 {
        let u = t.drop_last();
        lemma_closest_is_closest(u, input);
        assert forall|j: int| 0 <= j < u.len() implies #[trigger] u[j] == t[j] by {}
        let last = t.len() - 1;
        assert(t[last] == t.last());
        let d = lev_dist(input, t.last().long);
        let best = closest_from(u, input);
        if d < best.0 && d <= 3 {
            assert(closest_from(t, input) == (d, Some(t.last().long)));
            assert forall|j: int| 0 <= j < t.len() implies d <= lev_dist(input, #[trigger] t[j].long) by {
                if j < last {
                    assert(u[j] == t[j]);
                    match best.1 {
                        Some(s) => {},
                        None => {
                            assert(lev_dist(input, u[j].long) > 3);
                        },
                    }
                }
            }
        } else {
            assert(closest_from(t, input) == best);
            match best.1 {
                Some(s) => {
                    let i = choose|i: int| 0 <= i < u.len() && #[trigger] u[i].long == s;
                    assert(t[i].long == s);
                    assert forall|j: int| 0 <= j < t.len() implies lev_dist(input, s) <= lev_dist(input, #[trigger] t[j].long) by {
                        if j < last {
                            assert(u[j] == t[j]);
                        }
                    }
                },
                None => {
                    assert forall|j: int| 0 <= j < t.len() implies lev_dist(input, #[trigger] t[j].long) > 3 by {
                        if j < last {
                            assert(u[j] == t[j]);
                        }
                    }
                },
            }
        }
    }
}

impl Default for FrameworkValidator {
    /// The same validator as `FrameworkValidator::new`.
    fn default() -> (r: Self)
        ensures
            r.dioxus_options() == dioxus_serve_spec(),
            r.leptos_options() == leptos_watch_spec(),
            r.platform_values() == platform_values_spec(),
            r.arch_values() == arch_values_spec(),
            r.bool_values() == bool_values_spec(),
    {
        FrameworkValidator::new()
    }
}

/// The option found for a name is the first entry with that long form, and
/// a name is found exactly when some entry has it: so an option is valid for
/// a framework exactly when `get_all_options` lists it.
pub proof fn lemma_entry_index_first(t: Seq<OptionEntry>, option: Seq<char>)
    ensures
        match entry_index(t, option) {
            Some(i) => 0 <= i < t.len() && t[i].long == option && forall|j: int|
                0 <= j < i ==> #[trigger] t[j].long != option,
            None => forall|j: int| 0 <= j < t.len() ==> #[trigger] t[j].long != option,
        },
        t.map_values(|e: OptionEntry| e.long).contains(option) <==> entry_index(t, option) is Some,
        first_occurrences(t.map_values(|e: OptionEntry| e.long)).contains(option) <==> entry_index(
            t,
            option,
        ) is Some,
    decreases t.len(),
{
    if t.len() > 0 {
        lemma_entry_index_first(t.drop_last(), option);
        assert forall|j: int| 0 <= j < t.len() - 1 implies t.drop_last()[j] == t[j] by {}
    }
    let names = t.map_values(|e: OptionEntry| e.long);
    lemma_first_occurrences_props(names);
    match entry_index(t, option) {
        Some(i) => {
            assert(names[i] == option);
        },
        None => {
            assert forall|j: int| 0 <= j < names.len() implies names[j] != option by {
                assert(names[j] == t[j].long);
            }
        },
    }
}

/// `dx serve` options are those of the Dioxus table, and only `dioxus` and
/// `leptos` have tables: for any other framework nothing is valid or listed.
pub proof fn lemma_framework_tables(v: FrameworkValidator, framework: Seq<char>)
    ensures
        v.options_of("dioxus"@) == Some(v.dioxus_options()),
        v.options_of(framework) is Some <==> (framework == "dioxus"@ || framework == "leptos"@),
{
}

} // verus!
