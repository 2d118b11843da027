//! The options of the cargo subcommands, as listed in their help, for
//! recognising options and their values on a command line.

use crate::text::{has_prefix, join, owned, str_eq, str_starts_with, views};
use vstd::prelude::*;

verus! {

/// Type of option value.
#[derive(Debug, PartialEq)]
pub enum OptionValueType {
    /// No value (boolean flag)
    Flag,
    /// Single value required
    Required(String),
    /// Optional value
    Optional(String),
    /// Multiple values allowed
    Multiple(String),
}

/// The abstract value of an option value type.
pub enum ValueTypeView {
    Flag,
    Required(Seq<char>),
    Optional(Seq<char>),
    Multiple(Seq<char>),
}

impl View for OptionValueType {
    type V = ValueTypeView;

    open spec fn view(&self) -> ValueTypeView {
        match self {
            OptionValueType::Flag => ValueTypeView::Flag,
            OptionValueType::Required(s) => ValueTypeView::Required(s@),
            OptionValueType::Optional(s) => ValueTypeView::Optional(s@),
            OptionValueType::Multiple(s) => ValueTypeView::Multiple(s@),
        }
    }
}

impl Clone for OptionValueType {
    fn clone(&self) -> (r: Self)
        ensures
            r@ == self@,
    {
        match self {
            OptionValueType::Flag => OptionValueType::Flag,
            OptionValueType::Required(s) => OptionValueType::Required(s.clone()),
            OptionValueType::Optional(s) => OptionValueType::Optional(s.clone()),
            OptionValueType::Multiple(s) => OptionValueType::Multiple(s.clone()),
        }
    }
}

/// Option metadata.
#[derive(Debug)]
pub struct OptionInfo {
    /// Long form (e.g., "--release")
    pub long: &'static str,
    /// Short form if available (e.g., "-r")
    pub short: Option<&'static str>,
    /// Value type
    pub value_type: OptionValueType,
    /// Description
    pub description: &'static str,
    /// Category (Package Selection, Target Selection, etc.)
    pub category: &'static str,
}

/// The abstract value of option metadata.
pub struct InfoView {
    pub long: Seq<char>,
    pub short: Option<Seq<char>>,
    pub value_type: ValueTypeView,
    pub description: Seq<char>,
    pub category: Seq<char>,
}

impl View for OptionInfo {
    type V = InfoView;

    open spec fn view(&self) -> InfoView {
        InfoView {
            long: self.long@,
            short: match self.short {
                Some(s) => Some(s@),
                None => None,
            },
            value_type: self.value_type@,
            description: self.description@,
            category: self.category@,
        }
    }
}

impl Clone for OptionInfo {
    fn clone(&self) -> (r: Self)
        ensures
            r@ == self@,
    {
        OptionInfo {
            long: self.long,
            short: self.short,
            value_type: self.value_type.clone(),
            description: self.description,
            category: self.category,
        }
    }
}

pub open spec fn infos_view(v: Seq<OptionInfo>) -> Seq<InfoView> {
    v.map_values(|o: OptionInfo| o@)
}

fn info(
    long: &'static str,
    short: Option<&'static str>,
    value_type: OptionValueType,
    description: &'static str,
    category: &'static str,
) -> (r: OptionInfo)
    ensures
        r@ == (InfoView {
            long: long@,
            short: match short {
                Some(s) => Some(s@),
                None => None,
            },
            value_type: value_type@,
            description: description@,
            category: category@,
        }),
{
    OptionInfo { long, short, value_type, description, category }
}

/// Appends `more` to `v`.
fn append_infos(v: &mut Vec<OptionInfo>, more: Vec<OptionInfo>)
    ensures
        infos_view(final(v)@) == infos_view(old(v)@) + infos_view(more@),
{
    let ghost start = infos_view(v@);
    let ghost mv = infos_view(more@);
    let ghost n = more@.len();
    for e in it: more.into_iter()
        invariant
            it.seq().len() == n,
            mv.len() == n,
            forall|j: int| 0 <= j < n ==> #[trigger] mv[j] == it.seq()[j]@,
            infos_view(v@) == start + mv.take(it.index() as int),
    {
        let ghost i = it.index() as int;
        let ghost before = v@;
        v.push(e);
        proof {
            assert(infos_view(v@) =~= infos_view(before).push(mv[i]));
            assert(mv.take(i + 1) =~= mv.take(i).push(mv[i]));
        }
    }
    assert(mv.take(n as int) =~= mv);
}

/// Options of every subcommand.
pub open spec fn common_options_spec() -> Seq<InfoView> {
    seq![
        InfoView {
            long: "--message-format"@,
            short: None,
            value_type: ValueTypeView::Required("FMT"@),
            description: "Error format"@,
            category: "Options"@,
        },
        InfoView {
            long: "--verbose"@,
            short: Some("-v"@),
            value_type: ValueTypeView::Flag,
            description: "Use verbose output (-vv very verbose/build.rs output)"@,
            category: "Options"@,
        },
        InfoView {
            long: "--quiet"@,
            short: Some("-q"@),
            value_type: ValueTypeView::Flag,
            description: "Do not print cargo log messages"@,
            category: "Options"@,
        },
        InfoView {
            long: "--color"@,
            short: None,
            value_type: ValueTypeView::Required("WHEN"@),
            description: "Coloring: auto, always, never"@,
            category: "Options"@,
        },
        InfoView {
            long: "--config"@,
            short: None,
            value_type: ValueTypeView::Required("KEY=VALUE|PATH"@),
            description: "Override a configuration value"@,
            category: "Options"@,
        },
        InfoView {
            long: "-Z"@,
            short: None,
            value_type: ValueTypeView::Required("FLAG"@),
            description: "Unstable (nightly-only) flags"@,
            category: "Options"@,
        },
    ]
}

#[verifier::rlimit(60)]
fn common_options_infos() -> (r: Vec<OptionInfo>)
    ensures
        infos_view(r@) == common_options_spec(),
{
    let mut v: Vec<OptionInfo> = Vec::new();
    v.push(info("--message-format", None, OptionValueType::Required(owned("FMT")), "Error format", "Options"));
    v.push(info("--verbose", Some("-v"), OptionValueType::Flag, "Use verbose output (-vv very verbose/build.rs output)", "Options"));
    v.push(info("--quiet", Some("-q"), OptionValueType::Flag, "Do not print cargo log messages", "Options"));
    v.push(info("--color", None, OptionValueType::Required(owned("WHEN")), "Coloring: auto, always, never", "Options"));
    v.push(info("--config", None, OptionValueType::Required(owned("KEY=VALUE|PATH")), "Override a configuration value", "Options"));
    v.push(info("-Z", None, OptionValueType::Required(owned("FLAG")), "Unstable (nightly-only) flags", "Options"));
    assert(infos_view(v@) =~= common_options_spec());
    v
}

/// Package selection options.
pub open spec fn package_options_spec() -> Seq<InfoView> {
    seq![
        InfoView {
            long: "--package"@,
            short: Some("-p"@),
            value_type: ValueTypeView::Optional("SPEC"@),
            description: "Package to operate on"@,
            category: "Package Selection"@,
        },
        InfoView {
            long: "--workspace"@,
            short: None,
            value_type: ValueTypeView::Flag,
            description: "Operate on all packages in the workspace"@,
            category: "Package Selection"@,
        },
        InfoView {
            long: "--exclude"@,
            short: None,
            value_type: ValueTypeView::Required("SPEC"@),
            description: "Exclude packages from the operation"@,
            category: "Package Selection"@,
        },
        InfoView {
            long: "--all"@,
            short: None,
            value_type: ValueTypeView::Flag,
            description: "Alias for --workspace (deprecated)"@,
            category: "Package Selection"@,
        },
    ]
}

#[verifier::rlimit(60)]
fn package_options_infos() -> (r: Vec<OptionInfo>)
    ensures
        infos_view(r@) == package_options_spec(),
{
    let mut v: Vec<OptionInfo> = Vec::new();
    v.push(info("--package", Some("-p"), OptionValueType::Optional(owned("SPEC")), "Package to operate on", "Package Selection"));
    v.push(info("--workspace", None, OptionValueType::Flag, "Operate on all packages in the workspace", "Package Selection"));
    v.push(info("--exclude", None, OptionValueType::Required(owned("SPEC")), "Exclude packages from the operation", "Package Selection"));
    v.push(info("--all", None, OptionValueType::Flag, "Alias for --workspace (deprecated)", "Package Selection"));
    assert(infos_view(v@) =~= package_options_spec());
    v
}

/// Feature selection options.
pub open spec fn feature_options_spec() -> Seq<InfoView> {
    seq![
        InfoView {
            long: "--features"@,
            short: Some("-F"@),
            value_type: ValueTypeView::Required("FEATURES"@),
            description: "Space or comma separated list of features to activate"@,
            category: "Feature Selection"@,
        },
        InfoView {
            long: "--all-features"@,
            short: None,
            value_type: ValueTypeView::Flag,
            description: "Activate all available features"@,
            category: "Feature Selection"@,
        },
        InfoView {
            long: "--no-default-features"@,
            short: None,
            value_type: ValueTypeView::Flag,
            description: "Do not activate the default feature"@,
            category: "Feature Selection"@,
        },
    ]
}

#[verifier::rlimit(60)]
fn feature_options_infos() -> (r: Vec<OptionInfo>)
    ensures
        infos_view(r@) == feature_options_spec(),
{
    let mut v: Vec<OptionInfo> = Vec::new();
    v.push(info("--features", Some("-F"), OptionValueType::Required(owned("FEATURES")), "Space or comma separated list of features to activate", "Feature Selection"));
    v.push(info("--all-features", None, OptionValueType::Flag, "Activate all available features", "Feature Selection"));
    v.push(info("--no-default-features", None, OptionValueType::Flag, "Do not activate the default feature", "Feature Selection"));
    assert(infos_view(v@) =~= feature_options_spec());
    v
}

/// Compilation options.
pub open spec fn compilation_options_spec() -> Seq<InfoView> {
    seq![
        InfoView {
            long: "--jobs"@,
            short: Some("-j"@),
            value_type: ValueTypeView::Required("N"@),
            description: "Number of parallel jobs"@,
            category: "Compilation Options"@,
        },
        InfoView {
            long: "--release"@,
            short: Some("-r"@),
            value_type: ValueTypeView::Flag,
            description: "Build artifacts in release mode"@,
            category: "Compilation Options"@,
        },
        InfoView {
            long: "--profile"@,
            short: None,
            value_type: ValueTypeView::Required("PROFILE-NAME"@),
            description: "Build artifacts with the specified profile"@,
            category: "Compilation Options"@,
        },
        InfoView {
            long: "--target"@,
            short: None,
            value_type: ValueTypeView::Optional("TRIPLE"@),
            description: "Build for the target triple"@,
            category: "Compilation Options"@,
        },
        InfoView {
            long: "--target-dir"@,
            short: None,
            value_type: ValueTypeView::Required("DIRECTORY"@),
            description: "Directory for all generated artifacts"@,
            category: "Compilation Options"@,
        },
    ]
}

#[verifier::rlimit(60)]
fn compilation_options_infos() -> (r: Vec<OptionInfo>)
    ensures
        infos_view(r@) == compilation_options_spec(),
{
    let mut v: Vec<OptionInfo> = Vec::new();
    v.push(info("--jobs", Some("-j"), OptionValueType::Required(owned("N")), "Number of parallel jobs", "Compilation Options"));
    v.push(info("--release", Some("-r"), OptionValueType::Flag, "Build artifacts in release mode", "Compilation Options"));
    v.push(info("--profile", None, OptionValueType::Required(owned("PROFILE-NAME")), "Build artifacts with the specified profile", "Compilation Options"));
    v.push(info("--target", None, OptionValueType::Optional(owned("TRIPLE")), "Build for the target triple", "Compilation Options"));
    v.push(info("--target-dir", None, OptionValueType::Required(owned("DIRECTORY")), "Directory for all generated artifacts", "Compilation Options"));
    assert(infos_view(v@) =~= compilation_options_spec());
    v
}

/// Manifest options.
pub open spec fn manifest_options_spec() -> Seq<InfoView> {
    seq![
        InfoView {
            long: "--manifest-path"@,
            short: None,
            value_type: ValueTypeView::Required("PATH"@),
            description: "Path to Cargo.toml"@,
            category: "Manifest Options"@,
        },
        InfoView {
            long: "--locked"@,
            short: None,
            value_type: ValueTypeView::Flag,
            description: "Assert that Cargo.lock will remain unchanged"@,
            category: "Manifest Options"@,
        },
        InfoView {
            long: "--offline"@,
            short: None,
            value_type: ValueTypeView::Flag,
            description: "Run without accessing the network"@,
            category: "Manifest Options"@,
        },
        InfoView {
            long: "--frozen"@,
            short: None,
            value_type: ValueTypeView::Flag,
            description: "Equivalent to specifying both --locked and --offline"@,
            category: "Manifest Options"@,
        },
    ]
}

#[verifier::rlimit(60)]
fn manifest_options_infos() -> (r: Vec<OptionInfo>)
    ensures
        infos_view(r@) == manifest_options_spec(),
{
    let mut v: Vec<OptionInfo> = Vec::new();
    v.push(info("--manifest-path", None, OptionValueType::Required(owned("PATH")), "Path to Cargo.toml", "Manifest Options"));
    v.push(info("--locked", None, OptionValueType::Flag, "Assert that Cargo.lock will remain unchanged", "Manifest Options"));
    v.push(info("--offline", None, OptionValueType::Flag, "Run without accessing the network", "Manifest Options"));
    v.push(info("--frozen", None, OptionValueType::Flag, "Equivalent to specifying both --locked and --offline", "Manifest Options"));
    assert(infos_view(v@) =~= manifest_options_spec());
    v
}

/// The options of `cargo run` beyond the shared ones.
pub open spec fn run_only_spec() -> Seq<InfoView> {
    seq![
        InfoView {
            long: "--bin"@,
            short: None,
            value_type: ValueTypeView::Optional("NAME"@),
            description: "Name of the bin target to run"@,
            category: "Target Selection"@,
        },
        InfoView {
            long: "--example"@,
            short: None,
            value_type: ValueTypeView::Optional("NAME"@),
            description: "Name of the example target to run"@,
            category: "Target Selection"@,
        },
    ]
}

#[verifier::rlimit(60)]
fn run_only_infos() -> (r: Vec<OptionInfo>)
    ensures
        infos_view(r@) == run_only_spec(),
{
    let mut v: Vec<OptionInfo> = Vec::new();
    v.push(info("--bin", None, OptionValueType::Optional(owned("NAME")), "Name of the bin target to run", "Target Selection"));
    v.push(info("--example", None, OptionValueType::Optional(owned("NAME")), "Name of the example target to run", "Target Selection"));
    assert(infos_view(v@) =~= run_only_spec());
    v
}

/// The options of `cargo test` beyond the shared ones.
pub open spec fn test_only_spec() -> Seq<InfoView> {
    seq![
        InfoView {
            long: "--no-run"@,
            short: None,
            value_type: ValueTypeView::Flag,
            description: "Compile, but don't run tests"@,
            category: "Options"@,
        },
        InfoView {
            long: "--no-fail-fast"@,
            short: None,
            value_type: ValueTypeView::Flag,
            description: "Run all tests regardless of failure"@,
            category: "Options"@,
        },
        InfoView {
            long: "--lib"@,
            short: None,
            value_type: ValueTypeView::Flag,
            description: "Test only this package's library"@,
            category: "Target Selection"@,
        },
        InfoView {
            long: "--bins"@,
            short: None,
            value_type: ValueTypeView::Flag,
            description: "Test all binaries"@,
            category: "Target Selection"@,
        },
        InfoView {
            long: "--bin"@,
            short: None,
            value_type: ValueTypeView::Optional("NAME"@),
            description: "Test only the specified binary"@,
            category: "Target Selection"@,
        },
        InfoView {
            long: "--examples"@,
            short: None,
            value_type: ValueTypeView::Flag,
            description: "Test all examples"@,
            category: "Target Selection"@,
        },
        InfoView {
            long: "--example"@,
            short: None,
            value_type: ValueTypeView::Optional("NAME"@),
            description: "Test only the specified example"@,
            category: "Target Selection"@,
        },
        InfoView {
            long: "--tests"@,
            short: None,
            value_type: ValueTypeView::Flag,
            description: "Test all test targets"@,
            category: "Target Selection"@,
        },
        InfoView {
            long: "--test"@,
            short: None,
            value_type: ValueTypeView::Optional("NAME"@),
            description: "Test only the specified test target"@,
            category: "Target Selection"@,
        },
        InfoView {
            long: "--benches"@,
            short: None,
            value_type: ValueTypeView::Flag,
            description: "Test all bench targets"@,
            category: "Target Selection"@,
        },
        InfoView {
            long: "--bench"@,
            short: None,
            value_type: ValueTypeView::Optional("NAME"@),
            description: "Test only the specified bench target"@,
            category: "Target Selection"@,
        },
        InfoView {
            long: "--all-targets"@,
            short: None,
            value_type: ValueTypeView::Flag,
            description: "Test all targets (does not include doctests)"@,
            category: "Target Selection"@,
        },
        InfoView {
            long: "--doc"@,
            short: None,
            value_type: ValueTypeView::Flag,
            description: "Test only this library's documentation"@,
            category: "Target Selection"@,
        },
    ]
}

#[verifier::rlimit(60)]
fn test_only_infos() -> (r: Vec<OptionInfo>)
    ensures
        infos_view(r@) == test_only_spec(),
{
    let mut v: Vec<OptionInfo> = Vec::new();
    v.push(info("--no-run", None, OptionValueType::Flag, "Compile, but don't run tests", "Options"));
    v.push(info("--no-fail-fast", None, OptionValueType::Flag, "Run all tests regardless of failure", "Options"));
    v.push(info("--lib", None, OptionValueType::Flag, "Test only this package's library", "Target Selection"));
    v.push(info("--bins", None, OptionValueType::Flag, "Test all binaries", "Target Selection"));
    v.push(info("--bin", None, OptionValueType::Optional(owned("NAME")), "Test only the specified binary", "Target Selection"));
    v.push(info("--examples", None, OptionValueType::Flag, "Test all examples", "Target Selection"));
    v.push(info("--example", None, OptionValueType::Optional(owned("NAME")), "Test only the specified example", "Target Selection"));
    v.push(info("--tests", None, OptionValueType::Flag, "Test all test targets", "Target Selection"));
    v.push(info("--test", None, OptionValueType::Optional(owned("NAME")), "Test only the specified test target", "Target Selection"));
    v.push(info("--benches", None, OptionValueType::Flag, "Test all bench targets", "Target Selection"));
    v.push(info("--bench", None, OptionValueType::Optional(owned("NAME")), "Test only the specified bench target", "Target Selection"));
    v.push(info("--all-targets", None, OptionValueType::Flag, "Test all targets (does not include doctests)", "Target Selection"));
    v.push(info("--doc", None, OptionValueType::Flag, "Test only this library's documentation", "Target Selection"));
    assert(infos_view(v@) =~= test_only_spec());
    v
}

/// The options of `cargo build` beyond the shared ones.
pub open spec fn build_only_spec() -> Seq<InfoView> {
    seq![
        InfoView {
            long: "--lib"@,
            short: None,
            value_type: ValueTypeView::Flag,
            description: "Build only this package's library"@,
            category: "Target Selection"@,
        },
        InfoView {
            long: "--bins"@,
            short: None,
            value_type: ValueTypeView::Flag,
            description: "Build all binaries"@,
            category: "Target Selection"@,
        },
        InfoView {
            long: "--bin"@,
            short: None,
            value_type: ValueTypeView::Optional("NAME"@),
            description: "Build only the specified binary"@,
            category: "Target Selection"@,
        },
        InfoView {
            long: "--examples"@,
            short: None,
            value_type: ValueTypeView::Flag,
            description: "Build all examples"@,
            category: "Target Selection"@,
        },
        InfoView {
            long: "--example"@,
            short: None,
            value_type: ValueTypeView::Optional("NAME"@),
            description: "Build only the specified example"@,
            category: "Target Selection"@,
        },
        InfoView {
            long: "--tests"@,
            short: None,
            value_type: ValueTypeView::Flag,
            description: "Build all test targets"@,
            category: "Target Selection"@,
        },
        InfoView {
            long: "--test"@,
            short: None,
            value_type: ValueTypeView::Optional("NAME"@),
            description: "Build only the specified test target"@,
            category: "Target Selection"@,
        },
        InfoView {
            long: "--benches"@,
            short: None,
            value_type: ValueTypeView::Flag,
            description: "Build all bench targets"@,
            category: "Target Selection"@,
        },
        InfoView {
            long: "--bench"@,
            short: None,
            value_type: ValueTypeView::Optional("NAME"@),
            description: "Build only the specified bench target"@,
            category: "Target Selection"@,
        },
        InfoView {
            long: "--all-targets"@,
            short: None,
            value_type: ValueTypeView::Flag,
            description: "Build all targets"@,
            category: "Target Selection"@,
        },
        InfoView {
            long: "--keep-going"@,
            short: None,
            value_type: ValueTypeView::Flag,
            description: "Do not abort the build as soon as there is an error"@,
            category: "Compilation Options"@,
        },
    ]
}

#[verifier::rlimit(60)]
fn build_only_infos() -> (r: Vec<OptionInfo>)
    ensures
        infos_view(r@) == build_only_spec(),
{
    let mut v: Vec<OptionInfo> = Vec::new();
    v.push(info("--lib", None, OptionValueType::Flag, "Build only this package's library", "Target Selection"));
    v.push(info("--bins", None, OptionValueType::Flag, "Build all binaries", "Target Selection"));
    v.push(info("--bin", None, OptionValueType::Optional(owned("NAME")), "Build only the specified binary", "Target Selection"));
    v.push(info("--examples", None, OptionValueType::Flag, "Build all examples", "Target Selection"));
    v.push(info("--example", None, OptionValueType::Optional(owned("NAME")), "Build only the specified example", "Target Selection"));
    v.push(info("--tests", None, OptionValueType::Flag, "Build all test targets", "Target Selection"));
    v.push(info("--test", None, OptionValueType::Optional(owned("NAME")), "Build only the specified test target", "Target Selection"));
    v.push(info("--benches", None, OptionValueType::Flag, "Build all bench targets", "Target Selection"));
    v.push(info("--bench", None, OptionValueType::Optional(owned("NAME")), "Build only the specified bench target", "Target Selection"));
    v.push(info("--all-targets", None, OptionValueType::Flag, "Build all targets", "Target Selection"));
    v.push(info("--keep-going", None, OptionValueType::Flag, "Do not abort the build as soon as there is an error", "Compilation Options"));
    assert(infos_view(v@) =~= build_only_spec());
    v
}

/// The options of `cargo bench` beyond the shared ones.
pub open spec fn bench_only_spec() -> Seq<InfoView> {
    seq![
        InfoView {
            long: "--no-run"@,
            short: None,
            value_type: ValueTypeView::Flag,
            description: "Compile, but don't run benchmarks"@,
            category: "Options"@,
        },
        InfoView {
            long: "--no-fail-fast"@,
            short: None,
            value_type: ValueTypeView::Flag,
            description: "Run all benchmarks regardless of failure"@,
            category: "Options"@,
        },
        InfoView {
            long: "--lib"@,
            short: None,
            value_type: ValueTypeView::Flag,
            description: "Benchmark only this package's library"@,
            category: "Target Selection"@,
        },
        InfoView {
            long: "--bins"@,
            short: None,
            value_type: ValueTypeView::Flag,
            description: "Benchmark all binaries"@,
            category: "Target Selection"@,
        },
        InfoView {
            long: "--bin"@,
            short: None,
            value_type: ValueTypeView::Optional("NAME"@),
            description: "Benchmark only the specified binary"@,
            category: "Target Selection"@,
        },
        InfoView {
            long: "--examples"@,
            short: None,
            value_type: ValueTypeView::Flag,
            description: "Benchmark all examples"@,
            category: "Target Selection"@,
        },
        InfoView {
            long: "--example"@,
            short: None,
            value_type: ValueTypeView::Optional("NAME"@),
            description: "Benchmark only the specified example"@,
            category: "Target Selection"@,
        },
        InfoView {
            long: "--tests"@,
            short: None,
            value_type: ValueTypeView::Flag,
            description: "Benchmark all test targets"@,
            category: "Target Selection"@,
        },
        InfoView {
            long: "--test"@,
            short: None,
            value_type: ValueTypeView::Optional("NAME"@),
            description: "Benchmark only the specified test target"@,
            category: "Target Selection"@,
        },
        InfoView {
            long: "--benches"@,
            short: None,
            value_type: ValueTypeView::Flag,
            description: "Benchmark all bench targets"@,
            category: "Target Selection"@,
        },
        InfoView {
            long: "--bench"@,
            short: None,
            value_type: ValueTypeView::Optional("NAME"@),
            description: "Benchmark only the specified bench target"@,
            category: "Target Selection"@,
        },
        InfoView {
            long: "--all-targets"@,
            short: None,
            value_type: ValueTypeView::Flag,
            description: "Benchmark all targets"@,
            category: "Target Selection"@,
        },
    ]
}

#[verifier::rlimit(60)]
fn bench_only_infos() -> (r: Vec<OptionInfo>)
    ensures
        infos_view(r@) == bench_only_spec(),
{
    let mut v: Vec<OptionInfo> = Vec::new();
    v.push(info("--no-run", None, OptionValueType::Flag, "Compile, but don't run benchmarks", "Options"));
    v.push(info("--no-fail-fast", None, OptionValueType::Flag, "Run all benchmarks regardless of failure", "Options"));
    v.push(info("--lib", None, OptionValueType::Flag, "Benchmark only this package's library", "Target Selection"));
    v.push(info("--bins", None, OptionValueType::Flag, "Benchmark all binaries", "Target Selection"));
    v.push(info("--bin", None, OptionValueType::Optional(owned("NAME")), "Benchmark only the specified binary", "Target Selection"));
    v.push(info("--examples", None, OptionValueType::Flag, "Benchmark all examples", "Target Selection"));
    v.push(info("--example", None, OptionValueType::Optional(owned("NAME")), "Benchmark only the specified example", "Target Selection"));
    v.push(info("--tests", None, OptionValueType::Flag, "Benchmark all test targets", "Target Selection"));
    v.push(info("--test", None, OptionValueType::Optional(owned("NAME")), "Benchmark only the specified test target", "Target Selection"));
    v.push(info("--benches", None, OptionValueType::Flag, "Benchmark all bench targets", "Target Selection"));
    v.push(info("--bench", None, OptionValueType::Optional(owned("NAME")), "Benchmark only the specified bench target", "Target Selection"));
    v.push(info("--all-targets", None, OptionValueType::Flag, "Benchmark all targets", "Target Selection"));
    assert(infos_view(v@) =~= bench_only_spec());
    v
}

/// The options of `cargo check` beyond the shared ones.
pub open spec fn check_only_spec() -> Seq<InfoView> {
    seq![
        InfoView {
            long: "--lib"@,
            short: None,
            value_type: ValueTypeView::Flag,
            description: "Check only this package's library"@,
            category: "Target Selection"@,
        },
        InfoView {
            long: "--bins"@,
            short: None,
            value_type: ValueTypeView::Flag,
            description: "Check all binaries"@,
            category: "Target Selection"@,
        },
        InfoView {
            long: "--bin"@,
            short: None,
            value_type: ValueTypeView::Optional("NAME"@),
            description: "Check only the specified binary"@,
            category: "Target Selection"@,
        },
        InfoView {
            long: "--examples"@,
            short: None,
            value_type: ValueTypeView::Flag,
            description: "Check all examples"@,
            category: "Target Selection"@,
        },
        InfoView {
            long: "--example"@,
            short: None,
            value_type: ValueTypeView::Optional("NAME"@),
            description: "Check only the specified example"@,
            category: "Target Selection"@,
        },
        InfoView {
            long: "--tests"@,
            short: None,
            value_type: ValueTypeView::Flag,
            description: "Check all test targets"@,
            category: "Target Selection"@,
        },
        InfoView {
            long: "--test"@,
            short: None,
            value_type: ValueTypeView::Optional("NAME"@),
            description: "Check only the specified test target"@,
            category: "Target Selection"@,
        },
        InfoView {
            long: "--benches"@,
            short: None,
            value_type: ValueTypeView::Flag,
            description: "Check all bench targets"@,
            category: "Target Selection"@,
        },
        InfoView {
            long: "--bench"@,
            short: None,
            value_type: ValueTypeView::Optional("NAME"@),
            description: "Check only the specified bench target"@,
            category: "Target Selection"@,
        },
        InfoView {
            long: "--all-targets"@,
            short: None,
            value_type: ValueTypeView::Flag,
            description: "Check all targets"@,
            category: "Target Selection"@,
        },
        InfoView {
            long: "--keep-going"@,
            short: None,
            value_type: ValueTypeView::Flag,
            description: "Do not abort the build as soon as there is an error"@,
            category: "Compilation Options"@,
        },
    ]
}

#[verifier::rlimit(60)]
fn check_only_infos() -> (r: Vec<OptionInfo>)
    ensures
        infos_view(r@) == check_only_spec(),
{
    let mut v: Vec<OptionInfo> = Vec::new();
    v.push(info("--lib", None, OptionValueType::Flag, "Check only this package's library", "Target Selection"));
    v.push(info("--bins", None, OptionValueType::Flag, "Check all binaries", "Target Selection"));
    v.push(info("--bin", None, OptionValueType::Optional(owned("NAME")), "Check only the specified binary", "Target Selection"));
    v.push(info("--examples", None, OptionValueType::Flag, "Check all examples", "Target Selection"));
    v.push(info("--example", None, OptionValueType::Optional(owned("NAME")), "Check only the specified example", "Target Selection"));
    v.push(info("--tests", None, OptionValueType::Flag, "Check all test targets", "Target Selection"));
    v.push(info("--test", None, OptionValueType::Optional(owned("NAME")), "Check only the specified test target", "Target Selection"));
    v.push(info("--benches", None, OptionValueType::Flag, "Check all bench targets", "Target Selection"));
    v.push(info("--bench", None, OptionValueType::Optional(owned("NAME")), "Check only the specified bench target", "Target Selection"));
    v.push(info("--all-targets", None, OptionValueType::Flag, "Check all targets", "Target Selection"));
    v.push(info("--keep-going", None, OptionValueType::Flag, "Do not abort the build as soon as there is an error", "Compilation Options"));
    assert(infos_view(v@) =~= check_only_spec());
    v
}

/// The options every subcommand shares.
pub open spec fn shared_spec() -> Seq<InfoView> {
    common_options_spec() + package_options_spec() + feature_options_spec()
        + compilation_options_spec() + manifest_options_spec()
}

/// The catalog: each subcommand with its options, in this order.
pub open spec fn catalog_spec() -> Seq<(Seq<char>, Seq<InfoView>)> {
    seq![
        ("run"@, shared_spec() + run_only_spec()),
        ("test"@, shared_spec() + test_only_spec()),
        ("build"@, shared_spec() + build_only_spec()),
        ("bench"@, shared_spec() + bench_only_spec()),
        ("check"@, shared_spec() + check_only_spec()),
    ]
}

/// Complete catalog of cargo options by subcommand.
pub struct OptionsCatalog {
    entries: Vec<(&'static str, Vec<OptionInfo>)>,
}

impl View for OptionsCatalog {
    type V = Seq<(Seq<char>, Seq<InfoView>)>;

    closed spec fn view(&self) -> Seq<(Seq<char>, Seq<InfoView>)> {
        self.entries@.map_values(|e: (&str, Vec<OptionInfo>)| (e.0@, infos_view(e.1@)))
    }
}

fn shared_infos() -> (r: Vec<OptionInfo>)
    ensures
        infos_view(r@) == shared_spec(),
{
    let mut v = common_options_infos();
    append_infos(&mut v, package_options_infos());
    append_infos(&mut v, feature_options_infos());
    append_infos(&mut v, compilation_options_infos());
    append_infos(&mut v, manifest_options_infos());
    v
}

fn with_shared(only: Vec<OptionInfo>) -> (r: Vec<OptionInfo>)
    ensures
        infos_view(r@) == shared_spec() + infos_view(only@),
{
    let mut v = shared_infos();
    append_infos(&mut v, only);
    v
}

/// The catalog of cargo options.
pub fn cargo_options_catalog() -> (r: OptionsCatalog)
    ensures
        r@ == catalog_spec(),
{
    let mut entries: Vec<(&'static str, Vec<OptionInfo>)> = Vec::new();
    entries.push(("run", with_shared(run_only_infos())));
    entries.push(("test", with_shared(test_only_infos())));
    entries.push(("build", with_shared(build_only_infos())));
    entries.push(("bench", with_shared(bench_only_infos())));
    entries.push(("check", with_shared(check_only_infos())));
    let r = OptionsCatalog { entries };
    assert(r@ =~= catalog_spec());
    r
}

/// An option is named by its long or its short form.
pub open spec fn option_matches(o: InfoView, option: Seq<char>) -> bool {
    o.long == option || o.short == Some(option)
}

/// The first option in `v` named `option`.
pub open spec fn first_match(v: Seq<InfoView>, option: Seq<char>) -> Option<int>
    decreases v.len(),
{
    if v.len() == 0 {
        None
    } else {
        match first_match(v.drop_last(), option) {
            Some(i) => Some(i),
            None => if option_matches(v.last(), option) {
                Some(v.len() - 1)
            } else {
                None
            },
        }
    }
}

/// The option found for a name is the first one with that long or short
/// form, and a name is found exactly when some option has it.
pub proof fn lemma_first_match_props(v: Seq<InfoView>, option: Seq<char>)
    ensures
        match first_match(v, option) {
            Some(i) => 0 <= i < v.len() && option_matches(v[i], option) && forall|j: int|
                0 <= j < i ==> !option_matches(#[trigger] v[j], option),
            None => forall|j: int| 0 <= j < v.len() ==> !option_matches(#[trigger] v[j], option),
        },
    decreases v.len(),
{
    if v.len() > 0 {
        lemma_first_match_props(v.drop_last(), option);
        assert forall|j: int| 0 <= j < v.len() - 1 implies v.drop_last()[j] == v[j] by {}
    }
}

/// The options of a subcommand in the catalog.
pub open spec fn options_of(c: Seq<(Seq<char>, Seq<InfoView>)>, sub: Seq<char>) -> Option<Seq<InfoView>>
    decreases c.len(),
{
    if c.len() == 0 {
        None
    } else {
        match options_of(c.drop_last(), sub) {
            Some(v) => Some(v),
            None => if c.last().0 == sub {
                Some(c.last().1)
            } else {
                None
            },
        }
    }
}

/// All options of the catalog, subcommand after subcommand.
pub open spec fn all_options(c: Seq<(Seq<char>, Seq<InfoView>)>) -> Seq<InfoView>
    decreases c.len(),
{
    if c.len() == 0 {
        seq![]
    } else {
        all_options(c.drop_last()) + c.last().1
    }
}

fn match_index(v: &Vec<OptionInfo>, option: &str) -> (r: Option<usize>)
    ensures
        match r {
            Some(i) => i < v@.len() && first_match(infos_view(v@), option@) == Some(i as int),
            None => first_match(infos_view(v@), option@) is None,
        },
{
    let ghost iv = infos_view(v@);
    proof {
        lemma_first_match_props(iv, option@);
    }
    let mut i: usize = 0;
    while i < v.len()
        invariant
            iv == infos_view(v@),
            i <= v@.len(),
            forall|j: int| 0 <= j < i ==> !option_matches(#[trigger] iv[j], option@),
            match first_match(iv, option@) {
                Some(k) => 0 <= k < iv.len() && option_matches(iv[k], option@) && forall|j: int|
                    0 <= j < k ==> !option_matches(#[trigger] iv[j], option@),
                None => forall|j: int| 0 <= j < iv.len() ==> !option_matches(#[trigger] iv[j], option@),
            },
        decreases v.len() - i,
    {
        assert(iv[i as int] == v@[i as int]@);
        let o = &v[i];
        let short_hit = match o.short {
            Some(s) => str_eq(s, option),
            None => false,
        };
        if str_eq(o.long, option) || short_hit {
            return Some(i);
        }
        i += 1;
    }
    None
}

impl OptionsCatalog {
    fn options_for(&self, subcommand: &str) -> (r: Option<&Vec<OptionInfo>>)
        ensures
            match r {
                Some(v) => options_of(self@, subcommand@) == Some(infos_view(v@)),
                None => options_of(self@, subcommand@) is None,
            },
    {
        let ghost cv = self@;
        let mut i: usize = 0;
        while i < self.entries.len()
            invariant
                cv == self@,
                i <= self.entries@.len(),
                forall|k: int| 0 <= k < i ==> #[trigger] cv[k].0 != subcommand@,
            decreases self.entries.len() - i,
        {
            assert(cv[i as int].0 == self.entries@[i as int].0@);
            if str_eq(self.entries[i].0, subcommand) {
                assert(cv[i as int].1 == infos_view(self.entries@[i as int].1@));
                proof {
                    lemma_options_of_first(cv, subcommand@, i as int);
                }
                return Some(&self.entries[i].1);
            }
            i += 1;
        }
        proof {
            lemma_options_of_none(cv, subcommand@);
        }
        None
    }
}

proof fn lemma_options_of_first(c: Seq<(Seq<char>, Seq<InfoView>)>, sub: Seq<char>, i: int)
    requires
        0 <= i < c.len(),
        c[i].0 == sub,
        forall|k: int| 0 <= k < i ==> #[trigger] c[k].0 != sub,
    ensures
        options_of(c, sub) == Some(c[i].1),
    decreases c.len(),
{
    if i < c.len() - 1 {
        assert forall|k: int| 0 <= k < i implies #[trigger] c.drop_last()[k].0 != sub by {
            assert(c.drop_last()[k] == c[k]);
        }
        assert(c.drop_last()[i] == c[i]);
        lemma_options_of_first(c.drop_last(), sub, i);
    } else {
        lemma_options_of_none(c.drop_last(), sub);
    }
}

proof fn lemma_options_of_none(c: Seq<(Seq<char>, Seq<InfoView>)>, sub: Seq<char>)
    requires
        forall|k: int| 0 <= k < c.len() ==> #[trigger] c[k].0 != sub,
    ensures
        options_of(c, sub) is None,
    decreases c.len(),
{
    if c.len() > 0 {
        assert forall|k: int| 0 <= k < c.len() - 1 implies #[trigger] c.drop_last()[k].0 != sub by {
            assert(c.drop_last()[k] == c[k]);
        }
        lemma_options_of_none(c.drop_last(), sub);
    }
}

/// The catalog has options for `run`, `test`, `build`, `bench` and `check`,
/// and for no other subcommand: elsewhere every option is unknown.
pub proof fn lemma_catalog_subcommands(sub: Seq<char>)
    ensures
        options_of(catalog_spec(), sub) is Some <==> (sub == "run"@ || sub == "test"@ || sub
            == "build"@ || sub == "bench"@ || sub == "check"@),
{
    let c = catalog_spec();
    reveal_strlit("run");
    reveal_strlit("test");
    reveal_strlit("build");
    reveal_strlit("bench");
    reveal_strlit("check");
    assert(c[0].0 == "run"@);
    assert(c[1].0 == "test"@);
    assert(c[2].0 == "build"@);
    assert(c[3].0 == "bench"@);
    assert(c[4].0 == "check"@);
    assert("build"@[1] != "bench"@[1]);
    assert("build"@ != "check"@) by {
        assert("build"@[0] != "check"@[0]);
    }
    assert("bench"@ != "check"@) by {
        assert("bench"@[0] != "check"@[0]);
    }
    if sub == "run"@ {
        lemma_options_of_first(c, sub, 0);
    } else if sub == "test"@ {
        lemma_options_of_first(c, sub, 1);
    } else if sub == "build"@ {
        lemma_options_of_first(c, sub, 2);
    } else if sub == "bench"@ {
        lemma_options_of_first(c, sub, 3);
    } else if sub == "check"@ {
        lemma_options_of_first(c, sub, 4);
    } else {
        lemma_options_of_none(c, sub);
    }
}

/// Whether `option` names an option of the subcommand.
pub fn is_cargo_option(subcommand: &str, option: &str) -> (r: bool)
    ensures
        r == match options_of(catalog_spec(), subcommand@) {
            Some(v) => first_match(v, option@) is Some,
            None => false,
        },
{
    let catalog = cargo_options_catalog();
    match catalog.options_for(subcommand) {
        Some(v) => match_index(v, option).is_some(),
        None => false,
    }
}

/// The metadata of the first option of the subcommand named `option`.
pub fn get_option_info(subcommand: &str, option: &str) -> (r: Option<OptionInfo>)
    ensures
        match options_of(catalog_spec(), subcommand@) {
            Some(v) => match first_match(v, option@) {
                Some(i) => r is Some && r->0@ == v[i],
                None => r is None,
            },
            None => r is None,
        },
{
    let catalog = cargo_options_catalog();
    match catalog.options_for(subcommand) {
        Some(v) => match match_index(v, option) {
            Some(i) => {
                assert(infos_view(v@)[i as int] == v@[i as int]@);
                Some(v[i].clone())
            },
            None => None,
        },
        None => None,
    }
}

/// The number of tokens from `start` on that do not start with `-`, up to the first that does.
pub open spec fn value_run(tokens: Seq<Seq<char>>, start: int) -> nat
    decreases tokens.len() - start,
{
    if start < 0 || start >= tokens.len() || has_prefix(tokens[start], "-"@) {
        0
    } else {
        1 + value_run(tokens, start + 1)
    }
}

/// The value an option of type `vt` takes from the tokens after `index`,
/// with the number of tokens it consumes.
pub open spec fn parsed_value(vt: ValueTypeView, tokens: Seq<Seq<char>>, index: int) -> (Option<Seq<char>>, nat) {
    match vt {
        ValueTypeView::Flag => (None, 0),
        ValueTypeView::Multiple(_) => {
            let n = value_run(tokens, index + 1);
            if n == 0 {
                (None, 0)
            } else {
                (Some(join(tokens.subrange(index + 1, index + 1 + n), " "@)), n)
            }
        },
        _ => if index + 1 < tokens.len() && !has_prefix(tokens[index + 1], "-"@) {
            (Some(tokens[index + 1]), 1)
        } else {
            (None, 0)
        },
    }
}

/// The value of `option` (at position `index` of the tokens), as the first
/// option of that name in the catalog takes it.
pub open spec fn option_value_spec(option: Seq<char>, tokens: Seq<Seq<char>>, index: int) -> (Option<Seq<char>>, nat) {
    let all = all_options(catalog_spec());
    match first_match(all, option) {
        Some(i) => parsed_value(all[i].value_type, tokens, index),
        None => (None, 0),
    }
}

fn all_infos(c: &OptionsCatalog) -> (r: Vec<OptionInfo>)
    ensures
        infos_view(r@) == all_options(c@),
{
    let ghost cv = c@;
    let mut v: Vec<OptionInfo> = Vec::new();
    let mut i: usize = 0;
    while i < c.entries.len()
        invariant
            cv == c@,
            i <= c.entries@.len(),
            infos_view(v@) == all_options(cv.take(i as int)),
        decreases c.entries.len() - i,
    {
        let list = &c.entries[i].1;
        let mut more: Vec<OptionInfo> = Vec::new();
        let mut j: usize = 0;
        while j < list.len()
            invariant
                j <= list@.len(),
                infos_view(more@) == infos_view(list@).take(j as int),
            decreases list.len() - j,
        {
            let ghost before = more@;
            more.push(list[j].clone());
            proof {
                assert(infos_view(more@) =~= infos_view(before).push(list@[j as int]@));
                assert(infos_view(list@).take(j + 1) =~= infos_view(list@).take(j as int).push(
                    list@[j as int]@,
                ));
            }
            j += 1;
        }
        assert(infos_view(list@).take(list@.len() as int) =~= infos_view(list@));
        append_infos(&mut v, more);
        proof {
            assert(cv.take(i + 1).drop_last() =~= cv.take(i as int));
            assert(cv[i as int].1 == infos_view(c.entries@[i as int].1@));
        }
        i += 1;
    }
    assert(cv.take(c.entries@.len() as int) =~= cv);
    v
}

/// Parses an option and its value from a list of tokens: the value, and the
/// number of tokens after `index` that it takes.
pub fn parse_option_value(option: &str, tokens: &[String], index: usize) -> (r: (Option<String>, usize))
    requires
        index < usize::MAX,
    ensures
        (match r.0 {
            Some(s) => Some(s@),
            None => None,
        }, r.1 as nat) == option_value_spec(option@, views(tokens@), index as int),
{
    let catalog = cargo_options_catalog();
    let all = all_infos(&catalog);
    let ghost tv = views(tokens@);
    let i = match match_index(&all, option) {
        Some(i) => i,
        None => {
            return (None, 0);
        },
    };
    assert(infos_view(all@)[i as int] == all@[i as int]@);
    match &all[i].value_type {
        OptionValueType::Flag => (None, 0),
        OptionValueType::Multiple(_) => {
            if index + 1 >= tokens.len() {
                return (None, 0);
            }
            let mut values: Vec<String> = Vec::new();
            let mut k: usize = index + 1;
            assert(tv.subrange(index + 1, k as int) =~= Seq::<Seq<char>>::empty());
            assert(views(values@) =~= Seq::<Seq<char>>::empty());
            while k < tokens.len() && !str_starts_with(tokens[k].as_str(), "-")
                invariant
                    tv == views(tokens@),
                    index + 1 <= k <= tokens@.len(),
                    views(values@) == tv.subrange(index + 1, k as int),
                    value_run(tv, index + 1) == (k - (index + 1)) + value_run(tv, k as int),
                decreases tokens.len() - k,
            {
                assert(tv[k as int] == tokens@[k as int]@);
                let ghost before = values@;
                values.push(tokens[k].clone());
                proof {
                    assert(views(values@) =~= views(before).push(tv[k as int]));
                    assert(tv.subrange(index + 1, k + 1) =~= tv.subrange(index + 1, k as int).push(
                        tv[k as int],
                    ));
                }
                k += 1;
            }
            proof {
                if k < tokens@.len() {
                    assert(tv[k as int] == tokens@[k as int]@);
                }
            }
            if values.len() == 0 {
                (None, 0)
            } else {
                (Some(crate::text::join_strings(&values, " ")), values.len())
            }
        },
        _ => {
            if index + 1 < tokens.len() && !str_starts_with(tokens[index + 1].as_str(), "-") {
                assert(tv[index + 1] == tokens@[index + 1]@);
                (Some(tokens[index + 1].clone()), 1)
            } else {
                proof {
                    if index + 1 < tokens@.len() {
                        assert(tv[index + 1] == tokens@[index + 1]@);
                    }
                }
                (None, 0)
            }
        },
    }
}

/// A run of values starting at `start` is the longest stretch of tokens
/// there that do not start with `-`: each of them does not, and the token
/// after the run, if any, does.
pub proof fn lemma_value_run_props(tokens: Seq<Seq<char>>, start: int)
    requires
        0 <= start,
    ensures
        start + value_run(tokens, start) <= tokens.len() || value_run(tokens, start) == 0,
        forall|k: int|
            start <= k < start + value_run(tokens, start) ==> 0 <= k < tokens.len() && !has_prefix(
                #[trigger] tokens[k],
                "-"@,
            ),
        start + value_run(tokens, start) < tokens.len() ==> has_prefix(
            tokens[start + value_run(tokens, start)],
            "-"@,
        ),
    decreases tokens.len() - start,
{
    if start < tokens.len() && !has_prefix(tokens[start], "-"@) {
        lemma_value_run_props(tokens, start + 1);
    }
}

/// An option that takes one value (required or optional) takes the token
/// after it when that token exists and does not start with `-`, consuming
/// one token; otherwise it takes nothing. A flag takes nothing. An option
/// with several values takes every token up to the next one starting with
/// `-`, joined with spaces.
pub proof fn lemma_option_value_taken(option: Seq<char>, tokens: Seq<Seq<char>>, index: int)
    requires
        0 <= index,
        first_match(all_options(catalog_spec()), option) is Some,
    ensures
        ({
            let vt = all_options(catalog_spec())[first_match(all_options(catalog_spec()), option)->0].value_type;
            let r = option_value_spec(option, tokens, index);
            &&& (vt is Required || vt is Optional) && index + 1 < tokens.len() && !has_prefix(
                tokens[index + 1],
                "-"@,
            ) ==> r == (Some(tokens[index + 1]), 1nat)
            &&& (vt is Required || vt is Optional) && (index + 1 >= tokens.len() || has_prefix(
                tokens[index + 1],
                "-"@,
            )) ==> r == (None::<Seq<char>>, 0nat)
            &&& vt is Flag ==> r == (None::<Seq<char>>, 0nat)
            &&& vt is Multiple ==> {
                &&& index + 1 + r.1 <= tokens.len() || r.1 == 0
                &&& forall|k: int| index + 1 <= k < index + 1 + r.1 ==> !has_prefix(#[trigger] tokens[k], "-"@)
                &&& index + 1 + r.1 < tokens.len() ==> has_prefix(tokens[index + 1 + r.1], "-"@)
                &&& r.0 == if r.1 == 0 {
                    None
                } else {
                    Some(join(tokens.subrange(index + 1, index + 1 + r.1), " "@))
                }
            }
        }),
{
    lemma_value_run_props(tokens, index + 1);
}

} // verus!
