//! The options of the cargo subcommands `run`, `test`, `build`, `check`
//! and `bench`: their kinds, descriptions and conflicts.

use crate::text::{str_eq, views};
use vstd::prelude::*;

verus! {

/// Type of cargo option.
#[derive(Debug, Clone, Copy, PartialEq, Eq, Structural)]
pub enum OptionType {
    /// Boolean flag (no value)
    Flag,
    /// Single value option
    Single,
    /// Multiple values (comma-separated)
    Multiple,
    /// Can be used multiple times
    Repeatable,
}

/// Cargo option metadata.
#[derive(Debug, Clone)]
pub struct OptionMetadata {
    /// Option type
    pub option_type: OptionType,
    /// Short description
    pub description: &'static str,
    /// Conflicts with these options
    pub conflicts_with: Vec<&'static str>,
}

/// The abstract value of option metadata.
pub struct MetaView {
    pub option_type: OptionType,
    pub description: Seq<char>,
    pub conflicts_with: Seq<Seq<char>>,
}

pub open spec fn strs(v: Seq<&str>) -> Seq<Seq<char>> {
    v.map_values(|x: &str| x@)
}

impl View for OptionMetadata {
    type V = MetaView;

    open spec fn view(&self) -> MetaView {
        MetaView {
            option_type: self.option_type,
            description: self.description@,
            conflicts_with: strs(self.conflicts_with@),
        }
    }
}

/// The abstract value of a table of options: names with their metadata.
pub open spec fn table_view(t: Seq<(&str, OptionMetadata)>) -> Seq<(Seq<char>, MetaView)> {
    t.map_values(|e: (&str, OptionMetadata)| (e.0@, e.1@))
}

/// Catalog of cargo options: the common ones and those of each subcommand,
/// each a list of names (none twice) with their metadata.
pub struct CargoOptions {
    /// Common options for all cargo commands
    pub common: Vec<(&'static str, OptionMetadata)>,
    /// cargo run specific options
    pub run: Vec<(&'static str, OptionMetadata)>,
    /// cargo test specific options
    pub test: Vec<(&'static str, OptionMetadata)>,
    /// cargo build specific options
    pub build: Vec<(&'static str, OptionMetadata)>,
    /// cargo check specific options
    pub check: Vec<(&'static str, OptionMetadata)>,
    /// cargo bench specific options
    pub bench: Vec<(&'static str, OptionMetadata)>,
}

fn meta0(option_type: OptionType, description: &'static str) -> (r: OptionMetadata)
    ensures
        r@ == (MetaView { option_type, description: description@, conflicts_with: seq![] }),
{
    let r = OptionMetadata { option_type, description, conflicts_with: Vec::new() };
    assert(strs(r.conflicts_with@) =~= seq![]);
    r
}

fn meta1(option_type: OptionType, description: &'static str, a: &'static str) -> (r: OptionMetadata)
    ensures
        r@ == (MetaView { option_type, description: description@, conflicts_with: seq![a@] }),
{
    let mut v: Vec<&'static str> = Vec::new();
    v.push(a);
    assert(strs(v@) =~= seq![a@]);
    OptionMetadata { option_type, description, conflicts_with: v }
}

fn meta2(option_type: OptionType, description: &'static str, a: &'static str, b: &'static str) -> (r: OptionMetadata)
    ensures
        r@ == (MetaView { option_type, description: description@, conflicts_with: seq![a@, b@] }),
{
    let mut v: Vec<&'static str> = Vec::new();
    v.push(a);
    v.push(b);
    assert(strs(v@) =~= seq![a@, b@]);
    OptionMetadata { option_type, description, conflicts_with: v }
}

/// The `common` options, in the order they are listed.
pub open spec fn common_spec() -> Seq<(Seq<char>, MetaView)> {
    seq![
        ("--package"@, MetaView {
            option_type: OptionType::Single,
            description: "Package to run"@,
            conflicts_with: seq!["--workspace"@],
        }),
        ("-p"@, MetaView {
            option_type: OptionType::Single,
            description: "Alias for --package"@,
            conflicts_with: seq!["--workspace"@],
        }),
        ("--workspace"@, MetaView {
            option_type: OptionType::Flag,
            description: "Run for all workspace members"@,
            conflicts_with: seq!["--package"@, "-p"@],
        }),
        ("--exclude"@, MetaView {
            option_type: OptionType::Multiple,
            description: "Exclude packages from the operation"@,
            conflicts_with: seq![],
        }),
        ("--features"@, MetaView {
            option_type: OptionType::Multiple,
            description: "Space or comma separated list of features to activate"@,
            conflicts_with: seq!["--all-features"@],
        }),
        ("--all-features"@, MetaView {
            option_type: OptionType::Flag,
            description: "Activate all available features"@,
            conflicts_with: seq!["--features"@, "--no-default-features"@],
        }),
        ("--no-default-features"@, MetaView {
            option_type: OptionType::Flag,
            description: "Do not activate the default feature"@,
            conflicts_with: seq![],
        }),
        ("--release"@, MetaView {
            option_type: OptionType::Flag,
            description: "Build in release mode"@,
            conflicts_with: seq!["--debug"@],
        }),
        ("--debug"@, MetaView {
            option_type: OptionType::Flag,
            description: "Build in debug mode (default)"@,
            conflicts_with: seq!["--release"@],
        }),
        ("--profile"@, MetaView {
            option_type: OptionType::Single,
            description: "Build with the specified profile"@,
            conflicts_with: seq![],
        }),
        ("--target"@, MetaView {
            option_type: OptionType::Single,
            description: "Build for the target triple"@,
            conflicts_with: seq![],
        }),
        ("--target-dir"@, MetaView {
            option_type: OptionType::Single,
            description: "Directory for all generated artifacts"@,
            conflicts_with: seq![],
        }),
        ("--verbose"@, MetaView {
            option_type: OptionType::Flag,
            description: "Use verbose output"@,
            conflicts_with: seq!["--quiet"@],
        }),
        ("-v"@, MetaView {
            option_type: OptionType::Flag,
            description: "Alias for --verbose"@,
            conflicts_with: seq!["--quiet"@, "-q"@],
        }),
        ("--quiet"@, MetaView {
            option_type: OptionType::Flag,
            description: "No output printed to stdout"@,
            conflicts_with: seq!["--verbose"@, "-v"@],
        }),
        ("-q"@, MetaView {
            option_type: OptionType::Flag,
            description: "Alias for --quiet"@,
            conflicts_with: seq!["--verbose"@, "-v"@],
        }),
        ("--color"@, MetaView {
            option_type: OptionType::Single,
            description: "Coloring: auto, always, never"@,
            conflicts_with: seq![],
        }),
        ("--message-format"@, MetaView {
            option_type: OptionType::Single,
            description: "Error format"@,
            conflicts_with: seq![],
        }),
        ("--manifest-path"@, MetaView {
            option_type: OptionType::Single,
            description: "Path to Cargo.toml"@,
            conflicts_with: seq![],
        }),
        ("--frozen"@, MetaView {
            option_type: OptionType::Flag,
            description: "Require Cargo.lock and cache are up to date"@,
            conflicts_with: seq!["--locked"@],
        }),
        ("--locked"@, MetaView {
            option_type: OptionType::Flag,
            description: "Require Cargo.lock is up to date"@,
            conflicts_with: seq!["--frozen"@],
        }),
        ("--offline"@, MetaView {
            option_type: OptionType::Flag,
            description: "Run without accessing the network"@,
            conflicts_with: seq![],
        }),
        ("-Z"@, MetaView {
            option_type: OptionType::Repeatable,
            description: "Unstable (nightly-only) flags to Cargo"@,
            conflicts_with: seq![],
        }),
    ]
}

#[verifier::rlimit(60)]
fn common_table() -> (r: Vec<(&'static str, OptionMetadata)>)
    ensures
        table_view(r@) == common_spec(),
{
    let mut t: Vec<(&'static str, OptionMetadata)> = Vec::new();
    t.push(("--package", meta1(OptionType::Single, "Package to run", "--workspace")));
    t.push(("-p", meta1(OptionType::Single, "Alias for --package", "--workspace")));
    t.push(("--workspace", meta2(OptionType::Flag, "Run for all workspace members", "--package", "-p")));
    t.push(("--exclude", meta0(OptionType::Multiple, "Exclude packages from the operation")));
    t.push(("--features", meta1(OptionType::Multiple, "Space or comma separated list of features to activate", "--all-features")));
    t.push(("--all-features", meta2(OptionType::Flag, "Activate all available features", "--features", "--no-default-features")));
    t.push(("--no-default-features", meta0(OptionType::Flag, "Do not activate the default feature")));
    t.push(("--release", meta1(OptionType::Flag, "Build in release mode", "--debug")));
    t.push(("--debug", meta1(OptionType::Flag, "Build in debug mode (default)", "--release")));
    t.push(("--profile", meta0(OptionType::Single, "Build with the specified profile")));
    t.push(("--target", meta0(OptionType::Single, "Build for the target triple")));
    t.push(("--target-dir", meta0(OptionType::Single, "Directory for all generated artifacts")));
    t.push(("--verbose", meta1(OptionType::Flag, "Use verbose output", "--quiet")));
    t.push(("-v", meta2(OptionType::Flag, "Alias for --verbose", "--quiet", "-q")));
    t.push(("--quiet", meta2(OptionType::Flag, "No output printed to stdout", "--verbose", "-v")));
    t.push(("-q", meta2(OptionType::Flag, "Alias for --quiet", "--verbose", "-v")));
    t.push(("--color", meta0(OptionType::Single, "Coloring: auto, always, never")));
    t.push(("--message-format", meta0(OptionType::Single, "Error format")));
    t.push(("--manifest-path", meta0(OptionType::Single, "Path to Cargo.toml")));
    t.push(("--frozen", meta1(OptionType::Flag, "Require Cargo.lock and cache are up to date", "--locked")));
    t.push(("--locked", meta1(OptionType::Flag, "Require Cargo.lock is up to date", "--frozen")));
    t.push(("--offline", meta0(OptionType::Flag, "Run without accessing the network")));
    t.push(("-Z", meta0(OptionType::Repeatable, "Unstable (nightly-only) flags to Cargo")));
    assert(table_view(t@) =~= common_spec());
    t
}

/// The `run` options, in the order they are listed.
pub open spec fn run_spec() -> Seq<(Seq<char>, MetaView)> {
    seq![
        ("--bin"@, MetaView {
            option_type: OptionType::Single,
            description: "Name of the bin target to run"@,
            conflicts_with: seq!["--example"@],
        }),
        ("--example"@, MetaView {
            option_type: OptionType::Single,
            description: "Name of the example target to run"@,
            conflicts_with: seq!["--bin"@],
        }),
        ("--platform"@, MetaView {
            option_type: OptionType::Single,
            description: "Target platform (web, desktop, mobile)"@,
            conflicts_with: seq![],
        }),
        ("--device"@, MetaView {
            option_type: OptionType::Single,
            description: "Build for device (true) or simulator (false)"@,
            conflicts_with: seq![],
        }),
        ("--hot-reload"@, MetaView {
            option_type: OptionType::Flag,
            description: "Enable hot reloading"@,
            conflicts_with: seq![],
        }),
        ("--open"@, MetaView {
            option_type: OptionType::Flag,
            description: "Open the browser on startup"@,
            conflicts_with: seq![],
        }),
        ("--port"@, MetaView {
            option_type: OptionType::Single,
            description: "Port to serve on"@,
            conflicts_with: seq![],
        }),
        ("--host"@, MetaView {
            option_type: OptionType::Single,
            description: "Host to serve on"@,
            conflicts_with: seq![],
        }),
    ]
}

#[verifier::rlimit(60)]
fn run_table() -> (r: Vec<(&'static str, OptionMetadata)>)
    ensures
        table_view(r@) == run_spec(),
{
    let mut t: Vec<(&'static str, OptionMetadata)> = Vec::new();
    t.push(("--bin", meta1(OptionType::Single, "Name of the bin target to run", "--example")));
    t.push(("--example", meta1(OptionType::Single, "Name of the example target to run", "--bin")));
    t.push(("--platform", meta0(OptionType::Single, "Target platform (web, desktop, mobile)")));
    t.push(("--device", meta0(OptionType::Single, "Build for device (true) or simulator (false)")));
    t.push(("--hot-reload", meta0(OptionType::Flag, "Enable hot reloading")));
    t.push(("--open", meta0(OptionType::Flag, "Open the browser on startup")));
    t.push(("--port", meta0(OptionType::Single, "Port to serve on")));
    t.push(("--host", meta0(OptionType::Single, "Host to serve on")));
    assert(table_view(t@) =~= run_spec());
    t
}

/// The `test` options, in the order they are listed.
pub open spec fn test_spec() -> Seq<(Seq<char>, MetaView)> {
    seq![
        ("--lib"@, MetaView {
            option_type: OptionType::Flag,
            description: "Test only this package's library"@,
            conflicts_with: seq!["--bin"@, "--bins"@],
        }),
        ("--bin"@, MetaView {
            option_type: OptionType::Single,
            description: "Test only the specified binary"@,
            conflicts_with: seq!["--lib"@, "--bins"@],
        }),
        ("--bins"@, MetaView {
            option_type: OptionType::Flag,
            description: "Test all binaries"@,
            conflicts_with: seq!["--lib"@, "--bin"@],
        }),
        ("--example"@, MetaView {
            option_type: OptionType::Single,
            description: "Test only the specified example"@,
            conflicts_with: seq!["--examples"@],
        }),
        ("--examples"@, MetaView {
            option_type: OptionType::Flag,
            description: "Test all examples"@,
            conflicts_with: seq!["--example"@],
        }),
        ("--test"@, MetaView {
            option_type: OptionType::Single,
            description: "Test only the specified test target"@,
            conflicts_with: seq!["--tests"@],
        }),
        ("--tests"@, MetaView {
            option_type: OptionType::Flag,
            description: "Test all tests"@,
            conflicts_with: seq!["--test"@],
        }),
        ("--bench"@, MetaView {
            option_type: OptionType::Single,
            description: "Test only the specified bench target"@,
            conflicts_with: seq!["--benches"@],
        }),
        ("--benches"@, MetaView {
            option_type: OptionType::Flag,
            description: "Test all benches"@,
            conflicts_with: seq!["--bench"@],
        }),
        ("--all-targets"@, MetaView {
            option_type: OptionType::Flag,
            description: "Test all targets"@,
            conflicts_with: seq![],
        }),
        ("--doc"@, MetaView {
            option_type: OptionType::Flag,
            description: "Test only this library's documentation"@,
            conflicts_with: seq![],
        }),
        ("--no-run"@, MetaView {
            option_type: OptionType::Flag,
            description: "Compile, but don't run tests"@,
            conflicts_with: seq![],
        }),
        ("--no-fail-fast"@, MetaView {
            option_type: OptionType::Flag,
            description: "Run all tests regardless of failure"@,
            conflicts_with: seq![],
        }),
        ("-j"@, MetaView {
            option_type: OptionType::Single,
            description: "Number of parallel jobs"@,
            conflicts_with: seq![],
        }),
        ("--jobs"@, MetaView {
            option_type: OptionType::Single,
            description: "Number of parallel jobs"@,
            conflicts_with: seq![],
        }),
        ("--platform"@, MetaView {
            option_type: OptionType::Single,
            description: "Target platform (web, desktop, mobile)"@,
            conflicts_with: seq![],
        }),
    ]
}

#[verifier::rlimit(60)]
fn test_table() -> (r: Vec<(&'static str, OptionMetadata)>)
    ensures
        table_view(r@) == test_spec(),
{
    let mut t: Vec<(&'static str, OptionMetadata)> = Vec::new();
    t.push(("--lib", meta2(OptionType::Flag, "Test only this package's library", "--bin", "--bins")));
    t.push(("--bin", meta2(OptionType::Single, "Test only the specified binary", "--lib", "--bins")));
    t.push(("--bins", meta2(OptionType::Flag, "Test all binaries", "--lib", "--bin")));
    t.push(("--example", meta1(OptionType::Single, "Test only the specified example", "--examples")));
    t.push(("--examples", meta1(OptionType::Flag, "Test all examples", "--example")));
    t.push(("--test", meta1(OptionType::Single, "Test only the specified test target", "--tests")));
    t.push(("--tests", meta1(OptionType::Flag, "Test all tests", "--test")));
    t.push(("--bench", meta1(OptionType::Single, "Test only the specified bench target", "--benches")));
    t.push(("--benches", meta1(OptionType::Flag, "Test all benches", "--bench")));
    t.push(("--all-targets", meta0(OptionType::Flag, "Test all targets")));
    t.push(("--doc", meta0(OptionType::Flag, "Test only this library's documentation")));
    t.push(("--no-run", meta0(OptionType::Flag, "Compile, but don't run tests")));
    t.push(("--no-fail-fast", meta0(OptionType::Flag, "Run all tests regardless of failure")));
    t.push(("-j", meta0(OptionType::Single, "Number of parallel jobs")));
    t.push(("--jobs", meta0(OptionType::Single, "Number of parallel jobs")));
    t.push(("--platform", meta0(OptionType::Single, "Target platform (web, desktop, mobile)")));
    assert(table_view(t@) =~= test_spec());
    t
}

/// The `build` options, in the order they are listed.
pub open spec fn build_spec() -> Seq<(Seq<char>, MetaView)> {
    seq![
        ("--lib"@, MetaView {
            option_type: OptionType::Flag,
            description: "Build only this package's library"@,
            conflicts_with: seq!["--bin"@, "--bins"@],
        }),
        ("--bin"@, MetaView {
            option_type: OptionType::Single,
            description: "Build only the specified binary"@,
            conflicts_with: seq!["--lib"@, "--bins"@],
        }),
        ("--bins"@, MetaView {
            option_type: OptionType::Flag,
            description: "Build all binaries"@,
            conflicts_with: seq!["--lib"@, "--bin"@],
        }),
        ("--example"@, MetaView {
            option_type: OptionType::Single,
            description: "Build only the specified example"@,
            conflicts_with: seq!["--examples"@],
        }),
        ("--examples"@, MetaView {
            option_type: OptionType::Flag,
            description: "Build all examples"@,
            conflicts_with: seq!["--example"@],
        }),
        ("--test"@, MetaView {
            option_type: OptionType::Single,
            description: "Build only the specified test target"@,
            conflicts_with: seq!["--tests"@],
        }),
        ("--tests"@, MetaView {
            option_type: OptionType::Flag,
            description: "Build all tests"@,
            conflicts_with: seq!["--test"@],
        }),
        ("--bench"@, MetaView {
            option_type: OptionType::Single,
            description: "Build only the specified bench target"@,
            conflicts_with: seq!["--benches"@],
        }),
        ("--benches"@, MetaView {
            option_type: OptionType::Flag,
            description: "Build all benches"@,
            conflicts_with: seq!["--bench"@],
        }),
        ("--all-targets"@, MetaView {
            option_type: OptionType::Flag,
            description: "Build all targets"@,
            conflicts_with: seq![],
        }),
    ]
}

#[verifier::rlimit(60)]
fn build_table() -> (r: Vec<(&'static str, OptionMetadata)>)
    ensures
        table_view(r@) == build_spec(),
{
    let mut t: Vec<(&'static str, OptionMetadata)> = Vec::new();
    t.push(("--lib", meta2(OptionType::Flag, "Build only this package's library", "--bin", "--bins")));
    t.push(("--bin", meta2(OptionType::Single, "Build only the specified binary", "--lib", "--bins")));
    t.push(("--bins", meta2(OptionType::Flag, "Build all binaries", "--lib", "--bin")));
    t.push(("--example", meta1(OptionType::Single, "Build only the specified example", "--examples")));
    t.push(("--examples", meta1(OptionType::Flag, "Build all examples", "--example")));
    t.push(("--test", meta1(OptionType::Single, "Build only the specified test target", "--tests")));
    t.push(("--tests", meta1(OptionType::Flag, "Build all tests", "--test")));
    t.push(("--bench", meta1(OptionType::Single, "Build only the specified bench target", "--benches")));
    t.push(("--benches", meta1(OptionType::Flag, "Build all benches", "--bench")));
    t.push(("--all-targets", meta0(OptionType::Flag, "Build all targets")));
    assert(table_view(t@) =~= build_spec());
    t
}

/// The `check` options, in the order they are listed.
pub open spec fn check_spec() -> Seq<(Seq<char>, MetaView)> {
    seq![
        ("--lib"@, MetaView {
            option_type: OptionType::Flag,
            description: "Check only this package's library"@,
            conflicts_with: seq!["--bin"@, "--bins"@],
        }),
        ("--bin"@, MetaView {
            option_type: OptionType::Single,
            description: "Check only the specified binary"@,
            conflicts_with: seq!["--lib"@, "--bins"@],
        }),
        ("--bins"@, MetaView {
            option_type: OptionType::Flag,
            description: "Check all binaries"@,
            conflicts_with: seq!["--lib"@, "--bin"@],
        }),
        ("--example"@, MetaView {
            option_type: OptionType::Single,
            description: "Check only the specified example"@,
            conflicts_with: seq!["--examples"@],
        }),
        ("--examples"@, MetaView {
            option_type: OptionType::Flag,
            description: "Check all examples"@,
            conflicts_with: seq!["--example"@],
        }),
        ("--test"@, MetaView {
            option_type: OptionType::Single,
            description: "Check only the specified test target"@,
            conflicts_with: seq!["--tests"@],
        }),
        ("--tests"@, MetaView {
            option_type: OptionType::Flag,
            description: "Check all tests"@,
            conflicts_with: seq!["--test"@],
        }),
        ("--bench"@, MetaView {
            option_type: OptionType::Single,
            description: "Check only the specified bench target"@,
            conflicts_with: seq!["--benches"@],
        }),
        ("--benches"@, MetaView {
            option_type: OptionType::Flag,
            description: "Check all benches"@,
            conflicts_with: seq!["--bench"@],
        }),
        ("--all-targets"@, MetaView {
            option_type: OptionType::Flag,
            description: "Check all targets"@,
            conflicts_with: seq![],
        }),
    ]
}

#[verifier::rlimit(60)]
fn check_table() -> (r: Vec<(&'static str, OptionMetadata)>)
    ensures
        table_view(r@) == check_spec(),
{
    let mut t: Vec<(&'static str, OptionMetadata)> = Vec::new();
    t.push(("--lib", meta2(OptionType::Flag, "Check only this package's library", "--bin", "--bins")));
    t.push(("--bin", meta2(OptionType::Single, "Check only the specified binary", "--lib", "--bins")));
    t.push(("--bins", meta2(OptionType::Flag, "Check all binaries", "--lib", "--bin")));
    t.push(("--example", meta1(OptionType::Single, "Check only the specified example", "--examples")));
    t.push(("--examples", meta1(OptionType::Flag, "Check all examples", "--example")));
    t.push(("--test", meta1(OptionType::Single, "Check only the specified test target", "--tests")));
    t.push(("--tests", meta1(OptionType::Flag, "Check all tests", "--test")));
    t.push(("--bench", meta1(OptionType::Single, "Check only the specified bench target", "--benches")));
    t.push(("--benches", meta1(OptionType::Flag, "Check all benches", "--bench")));
    t.push(("--all-targets", meta0(OptionType::Flag, "Check all targets")));
    assert(table_view(t@) =~= check_spec());
    t
}

/// The `bench` options, in the order they are listed.
pub open spec fn bench_spec() -> Seq<(Seq<char>, MetaView)> {
    seq![
        ("--lib"@, MetaView {
            option_type: OptionType::Flag,
            description: "Benchmark only this package's library"@,
            conflicts_with: seq!["--bin"@, "--bins"@],
        }),
        ("--bin"@, MetaView {
            option_type: OptionType::Single,
            description: "Benchmark only the specified binary"@,
            conflicts_with: seq!["--lib"@, "--bins"@],
        }),
        ("--bins"@, MetaView {
            option_type: OptionType::Flag,
            description: "Benchmark all binaries"@,
            conflicts_with: seq!["--lib"@, "--bin"@],
        }),
        ("--example"@, MetaView {
            option_type: OptionType::Single,
            description: "Benchmark only the specified example"@,
            conflicts_with: seq!["--examples"@],
        }),
        ("--examples"@, MetaView {
            option_type: OptionType::Flag,
            description: "Benchmark all examples"@,
            conflicts_with: seq!["--example"@],
        }),
        ("--test"@, MetaView {
            option_type: OptionType::Single,
            description: "Benchmark only the specified test target"@,
            conflicts_with: seq!["--tests"@],
        }),
        ("--tests"@, MetaView {
            option_type: OptionType::Flag,
            description: "Benchmark all tests"@,
            conflicts_with: seq!["--test"@],
        }),
        ("--bench"@, MetaView {
            option_type: OptionType::Single,
            description: "Benchmark only the specified bench target"@,
            conflicts_with: seq!["--benches"@],
        }),
        ("--benches"@, MetaView {
            option_type: OptionType::Flag,
            description: "Benchmark all benches"@,
            conflicts_with: seq!["--bench"@],
        }),
        ("--all-targets"@, MetaView {
            option_type: OptionType::Flag,
            description: "Benchmark all targets"@,
            conflicts_with: seq![],
        }),
        ("--no-run"@, MetaView {
            option_type: OptionType::Flag,
            description: "Compile, but don't run benchmarks"@,
            conflicts_with: seq![],
        }),
    ]
}

#[verifier::rlimit(60)]
fn bench_table() -> (r: Vec<(&'static str, OptionMetadata)>)
    ensures
        table_view(r@) == bench_spec(),
{
    let mut t: Vec<(&'static str, OptionMetadata)> = Vec::new();
    t.push(("--lib", meta2(OptionType::Flag, "Benchmark only this package's library", "--bin", "--bins")));
    t.push(("--bin", meta2(OptionType::Single, "Benchmark only the specified binary", "--lib", "--bins")));
    t.push(("--bins", meta2(OptionType::Flag, "Benchmark all binaries", "--lib", "--bin")));
    t.push(("--example", meta1(OptionType::Single, "Benchmark only the specified example", "--examples")));
    t.push(("--examples", meta1(OptionType::Flag, "Benchmark all examples", "--example")));
    t.push(("--test", meta1(OptionType::Single, "Benchmark only the specified test target", "--tests")));
    t.push(("--tests", meta1(OptionType::Flag, "Benchmark all tests", "--test")));
    t.push(("--bench", meta1(OptionType::Single, "Benchmark only the specified bench target", "--benches")));
    t.push(("--benches", meta1(OptionType::Flag, "Benchmark all benches", "--bench")));
    t.push(("--all-targets", meta0(OptionType::Flag, "Benchmark all targets")));
    t.push(("--no-run", meta0(OptionType::Flag, "Compile, but don't run benchmarks")));
    assert(table_view(t@) =~= bench_spec());
    t
}

/// The index of the entry named `key` in a table.
pub open spec fn lookup(t: Seq<(Seq<char>, MetaView)>, key: Seq<char>) -> Option<int>
    decreases t.len(),
{
    if t.len() == 0 {
        None
    } else {
        match lookup(t.drop_last(), key) {
            Some(i) => Some(i),
            None => if t.last().0 == key {
                Some(t.len() - 1)
            } else {
                None
            },
        }
    }
}

proof fn lemma_lookup_props(t: Seq<(Seq<char>, MetaView)>, key: Seq<char>)
    ensures
        match lookup(t, key) {
            Some(i) => 0 <= i < t.len() && t[i].0 == key && forall|j: int|
                0 <= j < i ==> #[trigger] t[j].0 != key,
            None => forall|j: int| 0 <= j < t.len() ==> #[trigger] t[j].0 != key,
        },
    decreases t.len(),
{
    if t.len() > 0 {
        lemma_lookup_props(t.drop_last(), key);
        assert forall|j: int| 0 <= j < t.len() - 1 implies t.drop_last()[j] == t[j] by {}
    }
}

/// The subcommands with options of their own.
pub open spec fn known_command(command: Seq<char>) -> bool {
    command == "run"@ || command == "test"@ || command == "build"@ || command == "check"@
        || command == "bench"@
}

/// The metadata of an option for a command: a common option, else one of
/// the command's own.
pub open spec fn option_meta(o: CargoOptions, command: Seq<char>, option: Seq<char>) -> Option<MetaView> {
    match lookup(table_view(o.common@), option) {
        Some(i) => Some(table_view(o.common@)[i].1),
        None => match o.table_of(command) {
            Some(t) => match lookup(t, option) {
                Some(i) => Some(t[i].1),
                None => None,
            },
            None => None,
        },
    }
}

/// The pairs `(options[i], options[j])`, for `i < j < n`, where option `j`
/// is among the conflicts of option `i`.
pub open spec fn pairs_from(
    opts: Seq<Seq<char>>,
    i: int,
    conflicts: Seq<Seq<char>>,
    n: int,
) -> Seq<(Seq<char>, Seq<char>)>
    decreases n - i,
{
    if n <= i + 1 {
        seq![]
    } else {
        let prev = pairs_from(opts, i, conflicts, n - 1);
        if conflicts.contains(opts[n - 1]) {
            prev.push((opts[i], opts[n - 1]))
        } else {
            prev
        }
    }
}

/// The conflicts among the first `k` options, in order.
pub open spec fn conflicts_upto(
    o: CargoOptions,
    command: Seq<char>,
    opts: Seq<Seq<char>>,
    k: int,
) -> Seq<(Seq<char>, Seq<char>)>
    decreases k,
{
    if k <= 0 {
        seq![]
    } else {
        conflicts_upto(o, command, opts, k - 1) + match option_meta(o, command, opts[k - 1]) {
            Some(m) => pairs_from(opts, k - 1, m.conflicts_with, opts.len() as int),
            None => seq![],
        }
    }
}

/// The names of a table.
pub open spec fn table_names(t: Seq<(Seq<char>, MetaView)>) -> Set<Seq<char>> {
    Set::new(|n: Seq<char>| exists|i: int| 0 <= i < t.len() && #[trigger] t[i].0 == n)
}

fn find_entry(t: &Vec<(&'static str, OptionMetadata)>, option: &str) -> (r: Option<usize>)
    ensures
        match r {
            Some(i) => i < t@.len() && lookup(table_view(t@), option@) == Some(i as int),
            None => lookup(table_view(t@), option@) is None,
        },
{
    let ghost tv = table_view(t@);
    proof {
        lemma_lookup_props(tv, option@);
    }
    let mut i: usize = 0;
    while i < t.len()
        invariant
            tv == table_view(t@),
            i <= t@.len(),
            forall|j: int| 0 <= j < i ==> #[trigger] tv[j].0 != option@,
            match lookup(tv, option@) {
                Some(k) => 0 <= k < tv.len() && tv[k].0 == option@ && forall|j: int|
                    0 <= j < k ==> #[trigger] tv[j].0 != option@,
                None => forall|j: int| 0 <= j < tv.len() ==> #[trigger] tv[j].0 != option@,
            },
        decreases t.len() - i,
    {
        assert(tv[i as int].0 == t@[i as int].0@);
        if str_eq(t[i].0, option) {
            return Some(i);
        }
        i += 1;
    }
    None
}

impl CargoOptions {
    /// The catalog of options.
    pub fn new() -> (r: Self)
        ensures
            table_view(r.common@) == common_spec(),
            table_view(r.run@) == run_spec(),
            table_view(r.test@) == test_spec(),
            table_view(r.build@) == build_spec(),
            table_view(r.check@) == check_spec(),
            table_view(r.bench@) == bench_spec(),
    {
        CargoOptions {
            common: common_table(),
            run: run_table(),
            test: test_table(),
            build: build_table(),
            check: check_table(),
            bench: bench_table(),
        }
    }

    /// The options of a subcommand of its own.
    pub open spec fn table_of(&self, command: Seq<char>) -> Option<Seq<(Seq<char>, MetaView)>> {
        if command == "run"@ {
            Some(table_view(self.run@))
        } else if command == "test"@ {
            Some(table_view(self.test@))
        } else if command == "build"@ {
            Some(table_view(self.build@))
        } else if command == "check"@ {
            Some(table_view(self.check@))
        } else if command == "bench"@ {
            Some(table_view(self.bench@))
        } else {
            None
        }
    }

    fn command_table(&self, command: &str) -> (r: Option<&Vec<(&'static str, OptionMetadata)>>)
        ensures
            match r {
                Some(t) => self.table_of(command@) == Some(table_view(t@)),
                None => self.table_of(command@) is None,
            },
    {
        if str_eq(command, "run") {
            Some(&self.run)
        } else if str_eq(command, "test") {
            Some(&self.test)
        } else if str_eq(command, "build") {
            Some(&self.build)
        } else if str_eq(command, "check") {
            Some(&self.check)
        } else if str_eq(command, "bench") {
            Some(&self.bench)
        } else {
            None
        }
    }

    /// The metadata of an option for a command: common options first.
    pub fn get_option(&self, command: &str, option: &str) -> (r: Option<&OptionMetadata>)
        ensures
            match r {
                Some(m) => option_meta(*self, command@, option@) == Some(m@),
                None => option_meta(*self, command@, option@) is None,
            },
    {
        match find_entry(&self.common, option) {
            Some(i) => {
                assert(table_view(self.common@)[i as int].1 == self.common@[i as int].1@);
                return Some(&self.common[i].1);
            },
            None => {},
        }
        match self.command_table(command) {
            Some(t) => match find_entry(t, option) {
                Some(i) => {
                    assert(table_view(t@)[i as int].1 == t@[i as int].1@);
                    Some(&t[i].1)
                },
                None => None,
            },
            None => None,
        }
    }

    /// Whether an option is valid for a known command.
    pub fn is_valid_option(&self, command: &str, option: &str) -> (r: bool)
        ensures
            r == (known_command(command@) && option_meta(*self, command@, option@) is Some),
    {
        if str_eq(command, "run") || str_eq(command, "test") || str_eq(command, "build") || str_eq(
            command,
            "check",
        ) || str_eq(command, "bench") {
            self.get_option(command, option).is_some()
        } else {
            false
        }
    }

    /// All option names valid for a command (each once): the common ones and
    /// the command's own.
    pub fn get_all_options(&self, command: &str) -> (r: Vec<&'static str>)
        ensures
            strs(r@).to_set() == table_names(table_view(self.common@)).union(
                match self.table_of(command@) {
                    Some(t) => table_names(t),
                    None => Set::empty(),
                },
            ),
            strs(r@).no_duplicates(),
    {
        let mut out: Vec<&'static str> = Vec::new();
        let ghost common = table_view(self.common@);
        add_names(&mut out, &self.common);
        match self.command_table(command) {
            Some(t) => {
                add_names(&mut out, t);
            },
            None => {},
        }
        assert(strs(out@).to_set() =~= table_names(common).union(
            match self.table_of(command@) {
                Some(t) => table_names(t),
                None => Set::empty(),
            },
        ));
        out
    }

    /// The pairs of given options that conflict: `(a, b)` for each option
    /// `a` and each later option `b` among `a`'s conflicts.
    pub fn check_conflicts<'a>(&self, command: &str, options: &[&'a str]) -> (r: Vec<(&'a str, &'a str)>)
        ensures
            r@.map_values(|p: (&str, &str)| (p.0@, p.1@)) == conflicts_upto(
                *self,
                command@,
                strs(options@),
                options@.len() as int,
            ),
    {
        let ghost ov = strs(options@);
        let ghost f = |p: (&str, &str)| (p.0@, p.1@);
        let mut conflicts: Vec<(&'a str, &'a str)> = Vec::new();
        let mut i: usize = 0;
        while i < options.len()
            invariant
                ov == strs(options@),
                f == (|p: (&str, &str)| (p.0@, p.1@)),
                i <= options@.len(),
                conflicts@.map_values(f) == conflicts_upto(*self, command@, ov, i as int),
            decreases options.len() - i,
        {
            let opt1 = options[i];
            assert(ov[i as int] == opt1@);
            match self.get_option(command, opt1) {
                Some(m) => {
                    let ghost before = conflicts@.map_values(f);
                    let mut j: usize = i + 1;
                    assert(pairs_from(ov, i as int, m@.conflicts_with, j as int) =~= seq![]);
                    while j < options.len()
                        invariant
                            ov == strs(options@),
                            f == (|p: (&str, &str)| (p.0@, p.1@)),
                            i < j <= options@.len(),
                            opt1@ == ov[i as int],
                            conflicts@.map_values(f) == before + pairs_from(
                                ov,
                                i as int,
                                m@.conflicts_with,
                                j as int,
                            ),
                        decreases options.len() - j,
                    {
                        let opt2 = options[j];
                        assert(ov[j as int] == opt2@);
                        if strs_contain(&m.conflicts_with, opt2) {
                            let ghost b2 = conflicts@;
                            conflicts.push((opt1, opt2));
                            assert(conflicts@.map_values(f) =~= b2.map_values(f).push((opt1@, opt2@)));
                        }
                        j += 1;
                    }
                },
                None => {},
            }
            assert(conflicts_upto(*self, command@, ov, i + 1) =~= conflicts_upto(
                *self,
                command@,
                ov,
                i as int,
            ) + match option_meta(*self, command@, ov[i as int]) {
                Some(m) => pairs_from(ov, i as int, m.conflicts_with, ov.len() as int),
                None => seq![],
            });
            i += 1;
        }
        conflicts
    }
}

/// Whether `v` holds a slice equal to `s`.
fn strs_contain(v: &Vec<&'static str>, s: &str) -> (r: bool)
    ensures
        r == strs(v@).contains(s@),
{
    let mut i: usize = 0;
    while i < v.len()
        invariant
            i <= v@.len(),
            forall|j: int| 0 <= j < i ==> v@[j]@ != s@,
        decreases v.len() - i,
    {
        if str_eq(v[i], s) {
            assert(strs(v@)[i as int] == s@);
            return true;
        }
        i += 1;
    }
    assert(!strs(v@).contains(s@)) by {
        if strs(v@).contains(s@) {
            let k = choose|k: int| 0 <= k < strs(v@).len() && strs(v@)[k] == s@;
            assert(v@[k]@ == s@);
        }
    }
    false
}

/// Adds the names of a table to `out`, each unless it is there already.
fn add_names(out: &mut Vec<&'static str>, t: &Vec<(&'static str, OptionMetadata)>)
    requires
        strs(old(out)@).no_duplicates(),
    ensures
        strs(final(out)@).no_duplicates(),
        strs(final(out)@).to_set() == strs(old(out)@).to_set().union(table_names(table_view(t@))),
{
    let ghost start = strs(out@).to_set();
    let ghost tv = table_view(t@);
    let mut i: usize = 0;
    while i < t.len()
        invariant
            tv == table_view(t@),
            i <= t@.len(),
            strs(out@).no_duplicates(),
            strs(out@).to_set() == start.union(table_names(tv.take(i as int))),
        decreases t.len() - i,
    {
        let name = t[i].0;
        assert(tv[i as int].0 == name@);
        let ghost before = strs(out@);
        let ghost names_before = table_names(tv.take(i as int));
        let ghost names_after = table_names(tv.take(i + 1));
        assert forall|n: Seq<char>| names_after.contains(n) <==> (names_before.contains(n) || n == name@) by {
            if names_after.contains(n) {
                let k = choose|k: int| 0 <= k < i + 1 && #[trigger] tv.take(i + 1)[k].0 == n;
                if k < i {
                    assert(tv.take(i as int)[k].0 == n);
                }
            }
            if names_before.contains(n) {
                let k = choose|k: int| 0 <= k < i && #[trigger] tv.take(i as int)[k].0 == n;
                assert(tv.take(i + 1)[k].0 == n);
            }
            if n == name@ {
                assert(tv.take(i + 1)[i as int].0 == n);
            }
        }
        if !strs_contain(out, name) {
            out.push(name);
            proof {
                assert(strs(out@) =~= before.push(name@));
                assert forall|n: Seq<char>| strs(out@).contains(n) <==> (before.contains(n) || n == name@) by {
                    if strs(out@).contains(n) && !before.contains(n) {
                        let k = choose|k: int| 0 <= k < strs(out@).len() && strs(out@)[k] == n;
                        if k < before.len() {
                            assert(before[k] == n);
                        }
                    }
                    if before.contains(n) {
                        let k = choose|k: int| 0 <= k < before.len() && before[k] == n;
                        assert(strs(out@)[k] == n);
                    }
                    if n == name@ {
                        assert(strs(out@)[before.len() as int] == n);
                    }
                }
                assert forall|a: int, b: int| 0 <= a < b < strs(out@).len() implies strs(out@)[a] != strs(out@)[b] by {
                    if b == before.len() {
                        assert(strs(out@)[a] == before[a]);
                    }
                }
            }
        }
        proof {
            assert forall|n: Seq<char>| #[trigger] strs(out@).to_set().contains(n) == start.union(names_after).contains(n) by {
                assert(before.to_set().contains(n) == start.union(names_before).contains(n));
                assert(strs(out@).to_set().contains(n) == strs(out@).contains(n));
                assert(before.to_set().contains(n) == before.contains(n));
            }
            assert(strs(out@).to_set() =~= start.union(names_after));
        }
        i += 1;
    }
    assert(tv.take(t@.len() as int) =~= tv);
}

/// For a command with options of its own, an option is listed by
/// `get_all_options` exactly when `is_valid_option` accepts it.
pub proof fn lemma_listed_iff_valid(o: CargoOptions, command: Seq<char>, option: Seq<char>)
    requires
        known_command(command),
    ensures
        table_names(table_view(o.common@)).union(table_names(o.table_of(command)->0)).contains(
            option,
        ) <==> option_meta(o, command, option) is Some,
{
    let c = table_view(o.common@);
    let t = o.table_of(command)->0;
    lemma_lookup_props(c, option);
    lemma_lookup_props(t, option);
    if table_names(c).contains(option) {
        let i = choose|i: int| 0 <= i < c.len() && #[trigger] c[i].0 == option;
        assert(c[i].0 == option);
    }
    if table_names(t).contains(option) {
        let i = choose|i: int| 0 <= i < t.len() && #[trigger] t[i].0 == option;
        assert(t[i].0 == option);
    }
    match lookup(c, option) {
        Some(i) => {
            assert(table_names(c).contains(option));
        },
        None => {
            match lookup(t, option) {
                Some(i) => {
                    assert(table_names(t).contains(option));
                },
                None => {},
            }
        },
    }
}

} // verus!
