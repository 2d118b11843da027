//! Test commands that target one test function precisely.

use vstd::prelude::*;
use crate::commands::{
    Command, CommandBuilder, CommandCategory, CommandSummary, CategoryView, summary, summaries,
};
use crate::context::{
    ProjectContext, TestContext, TestContextView, TestTargetType, TargetView, target_view,
    full_test_path_of,
};
use crate::error::RazResult;
use crate::text::{views, join, join_strings, push_text, fmt_text};

verus! {

/// The arguments that select the build target of a test.
pub open spec fn target_args(t: TargetView) -> Seq<Seq<char>> {
    match t {
        TargetView::Lib => seq!["--lib"@],
        TargetView::Bin(n) => seq!["--bin"@, n],
        TargetView::Test(n) => seq!["--test"@, n],
        TargetView::Bench(n) => seq!["--bench"@, n],
        TargetView::Example(n) => seq!["--example"@, n],
    }
}

/// The package selection, behind the given flag, when a package is known.
pub open spec fn package_args(tc: TestContextView, flag: Seq<char>) -> Seq<Seq<char>> {
    match tc.package_name {
        Some(p) => seq![flag, p],
        None => seq![],
    }
}

/// The features, joined with commas, when there are any.
pub open spec fn feature_args(tc: TestContextView) -> Seq<Seq<char>> {
    if tc.features.len() == 0 {
        seq![]
    } else {
        seq!["--features"@, join(tc.features, ","@)]
    }
}

/// The test path: module path and test name, or the test name alone.
pub open spec fn test_path(tc: TestContextView, name: Seq<char>) -> Seq<char> {
    match full_test_path_of(tc) {
        Some(p) => p,
        None => name,
    }
}

/// The arguments of the precise `cargo test` command.
pub open spec fn cargo_test_args(tc: TestContextView, name: Seq<char>) -> Seq<Seq<char>> {
    seq!["test"@] + package_args(tc, "--package"@) + target_args(tc.target) + feature_args(tc)
        + seq!["--"@, test_path(tc, name), "--exact"@, "--show-output"@]
}

/// The arguments of the precise `cargo nextest run` command.
pub open spec fn nextest_args(tc: TestContextView, name: Seq<char>) -> Seq<Seq<char>> {
    seq!["nextest"@, "run"@] + package_args(tc, "-p"@) + target_args(tc.target)
        + feature_args(tc) + seq!["-E"@, "test("@ + test_path(tc, name) + ")"@]
}

/// The precise `cargo test` command, when the context names a test.
pub open spec fn precise_cargo_test(tc: TestContextView) -> Option<CommandSummary> {
    match tc.test_name {
        Some(t) => Some(
            CommandSummary {
                id: "cargo-test-precise"@,
                label: "Run Test: "@ + t,
                description: Some(
                    "Run the '"@ + t + "' test function with precise targeting"@,
                ),
                command: "cargo"@,
                args: cargo_test_args(tc, t),
                env: seq![],
                cwd: tc.working_dir,
                category: CategoryView::Test,
                priority: 100,
                conditions: seq![],
                tags: seq!["test"@, "precise"@, "current"@],
                requires_input: false,
                estimated_duration: None,
            },
        ),
        None => None,
    }
}

/// The precise `cargo nextest run` command, when the context names a test.
pub open spec fn precise_nextest(tc: TestContextView) -> Option<CommandSummary> {
    match tc.test_name {
        Some(t) => Some(
            CommandSummary {
                id: "nextest-test-precise"@,
                label: "Run Test (nextest): "@ + t,
                description: Some(
                    "Run the '"@ + t + "' test function with nextest and precise targeting"@,
                ),
                command: "cargo"@,
                args: nextest_args(tc, t),
                env: seq![],
                cwd: None,
                category: CategoryView::Test,
                priority: 95,
                conditions: seq![],
                tags: seq!["test"@, "nextest"@, "precise"@, "current"@],
                requires_input: false,
                estimated_duration: None,
            },
        ),
        None => None,
    }
}

pub open spec fn opt_seq(o: Option<CommandSummary>) -> Seq<CommandSummary> {
    match o {
        Some(c) => seq![c],
        None => seq![],
    }
}

/// The commands generated for an optional test context: the precise
/// `cargo test` command, then the precise nextest command.
pub open spec fn generated_test_commands(tc: Option<TestContextView>) -> Seq<CommandSummary> {
    match tc {
        Some(t) => opt_seq(precise_cargo_test(t)) + opt_seq(precise_nextest(t)),
        None => seq![],
    }
}

/// Generates test commands that target one test function.
pub struct TestCommandGenerator;

fn push_target_args(args: &mut Vec<String>, t: &TestTargetType)
    ensures
        views(final(args)@) == views(old(args)@) + target_args(target_view(*t)),
{
    match t {
        TestTargetType::Lib => push_text(args, "--lib"),
        TestTargetType::Bin(n) => {
            push_text(args, "--bin");
            push_text(args, n.as_str());
        },
        TestTargetType::Test(n) => {
            push_text(args, "--test");
            push_text(args, n.as_str());
        },
        TestTargetType::Bench(n) => {
            push_text(args, "--bench");
            push_text(args, n.as_str());
        },
        TestTargetType::Example(n) => {
            push_text(args, "--example");
            push_text(args, n.as_str());
        },
    }
}

fn push_selection_args(args: &mut Vec<String>, tc: &TestContext, flag: &str)
    ensures
        views(final(args)@) == views(old(args)@) + package_args(tc@, flag@) + target_args(tc@.target)
            + feature_args(tc@),
{
    let ghost a0 = views(args@);
    if let Some(p) = &tc.package_name {
        push_text(args, flag);
        push_text(args, p.as_str());
    }
    assert(views(args@) =~= a0 + package_args(tc@, flag@));
    let ghost a1 = views(args@);
    push_target_args(args, &tc.target_type);
    let ghost a2 = views(args@);
    if tc.features.len() != 0 {
        push_text(args, "--features");
        let joined = join_strings(&tc.features, ",");
        push_text(args, joined.as_str());
    }
    assert(views(args@) =~= a2 + feature_args(tc@));
}

fn test_path_text(tc: &TestContext, name: &String) -> (r: String)
    ensures
        r@ == test_path(tc@, name@),
{
    match tc.full_test_path() {
        Some(p) => p,
        None => name.clone(),
    }
}

impl TestCommandGenerator {
    /// Generates the precise test commands for a test context: none without
    /// a context, else the precise `cargo test` command and the precise
    /// nextest command, each when the context names a test.
    pub fn generate_commands(context: &ProjectContext, test_context: Option<&TestContext>) -> (r:
        RazResult<Vec<Command>>)
        ensures
            r is Ok,
            summaries(r->Ok_0@) == generated_test_commands(
                match test_context {
                    Some(t) => Some(t@),
                    None => None,
                },
            ),
    {
        let mut commands: Vec<Command> = Vec::new();
        if let Some(tc) = test_context {
            if let Some(c) = Self::build_precise_cargo_test(context, tc) {
                commands.push(c);
            }
            let ghost mid = commands@;
            if let Some(c) = Self::build_precise_nextest(context, tc) {
                commands.push(c);
            }
            assert(summaries(commands@) =~= opt_seq(precise_cargo_test(tc@)) + opt_seq(
                precise_nextest(tc@),
            ));
        } else {
            assert(summaries(commands@) =~= seq![]);
        }
        Ok(commands)
    }

    /// The precise `cargo test` command, when the context names a test.
    fn build_precise_cargo_test(context: &ProjectContext, tc: &TestContext) -> (r: Option<Command>)
        ensures
            match r {
                Some(c) => precise_cargo_test(tc@) == Some(summary(c@)),
                None => precise_cargo_test(tc@) is None,
            },
    {
        let test_name = match &tc.test_name {
            Some(t) => t,
            None => {
                return None;
            },
        };
        let mut args: Vec<String> = Vec::new();
        push_text(&mut args, "test");
        push_selection_args(&mut args, tc, "--package");
        push_text(&mut args, "--");
        let path = test_path_text(tc, test_name);
        push_text(&mut args, path.as_str());
        push_text(&mut args, "--exact");
        push_text(&mut args, "--show-output");
        assert(views(args@) =~= cargo_test_args(tc@, test_name@));
        let label = fmt_text("Run Test: ", test_name.as_str(), "");
        let description = fmt_text(
            "Run the '",
            test_name.as_str(),
            "' test function with precise targeting",
        );
        let mut builder = CommandBuilder::new("cargo-test-precise", "cargo").label(
            label.as_str(),
        ).description(description.as_str()).args(args).category(CommandCategory::Test).priority(
            100,
        ).tag("test").tag("precise").tag("current");
        if let Some(dir) = &tc.working_dir {
            builder = builder.cwd(dir.as_str());
        }
        let c = builder.build();
        proof {
            reveal_strlit("");
            assert(label@ =~= "Run Test: "@ + test_name@);
            assert(views(c@.tags) =~= seq!["test"@, "precise"@, "current"@]);
            assert(summary(c@).args == cargo_test_args(tc@, test_name@));
            assert(summary(c@).env =~= seq![]);
            assert(summary(c@).cwd == tc@.working_dir);
            assert(summary(c@).label == "Run Test: "@ + test_name@);
            assert(summary(c@).description == Some("Run the '"@ + test_name@ + "' test function with precise targeting"@));
            assert(summary(c@).category == CategoryView::Test);
            assert(summary(c@) == precise_cargo_test(tc@)->0);
        }
        Some(c)
    }

    /// The precise nextest command, when the context names a test.
    fn build_precise_nextest(context: &ProjectContext, tc: &TestContext) -> (r: Option<Command>)
        ensures
            match r {
                Some(c) => precise_nextest(tc@) == Some(summary(c@)),
                None => precise_nextest(tc@) is None,
            },
    {
        let test_name = match &tc.test_name {
            Some(t) => t,
            None => {
                return None;
            },
        };
        let mut args: Vec<String> = Vec::new();
        push_text(&mut args, "nextest");
        push_text(&mut args, "run");
        push_selection_args(&mut args, tc, "-p");
        push_text(&mut args, "-E");
        let path = test_path_text(tc, test_name);
        let filter = fmt_text("test(", path.as_str(), ")");
        push_text(&mut args, filter.as_str());
        assert(views(args@) =~= nextest_args(tc@, test_name@));
        let label = fmt_text("Run Test (nextest): ", test_name.as_str(), "");
        let description = fmt_text(
            "Run the '",
            test_name.as_str(),
            "' test function with nextest and precise targeting",
        );
        let c = CommandBuilder::new("nextest-test-precise", "cargo").label(
            label.as_str(),
        ).description(description.as_str()).args(args).category(CommandCategory::Test).priority(
            95,
        ).tag("test").tag("nextest").tag("precise").tag("current").build();
        proof {
            reveal_strlit("");
            assert(label@ =~= "Run Test (nextest): "@ + test_name@);
            assert(views(c@.tags) =~= seq!["test"@, "nextest"@, "precise"@, "current"@]);
            assert(summary(c@).env =~= seq![]);
            assert(summary(c@) == precise_nextest(tc@)->0);
        }
        Some(c)
    }
}

/// The precise test commands run the test's own binary: when the target is
/// the binary `n`, both the `cargo test` and the `cargo nextest run`
/// arguments hold `--bin` directly followed by `n`, after the package
/// selection.
pub proof fn lemma_bin_target_selected(tc: TestContextView, name: Seq<char>, n: Seq<char>)
    requires
        tc.target == TargetView::Bin(n),
    ensures
        ({
            let k: int = 1 + package_args(tc, "--package"@).len() as int;
            cargo_test_args(tc, name)[k] == "--bin"@ && cargo_test_args(tc, name)[k + 1] == n
        }),
        ({
            let k: int = 2 + package_args(tc, "-p"@).len() as int;
            nextest_args(tc, name)[k] == "--bin"@ && nextest_args(tc, name)[k + 1] == n
        }),
{
    let k: int = 1 + package_args(tc, "--package"@).len() as int;
    let a = cargo_test_args(tc, name);
    assert(a[k] == target_args(tc.target)[0]);
    assert(a[k + 1] == target_args(tc.target)[1]);
    let k2: int = 2 + package_args(tc, "-p"@).len() as int;
    let b = nextest_args(tc, name);
    assert(b[k2] == target_args(tc.target)[0]);
    assert(b[k2 + 1] == target_args(tc.target)[1]);
}

} // verus!
