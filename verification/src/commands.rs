//! Commands, their construction and the conditions under which they apply.

use crate::context::{FileFacts, ProjectContext, SymbolKind};
use crate::paths::join_path;
use crate::text::{
    copy_opt, copy_pairs, copy_strings, join, join_strings, owned, str_eq, views,
};
use vstd::prelude::*;

verus! {

/// Categories for grouping commands.
#[derive(Debug, PartialEq, Eq, Hash)]
pub enum CommandCategory {
    Build,
    Test,
    Run,
    Debug,
    Deploy,
    Lint,
    Format,
    Generate,
    Install,
    Update,
    Clean,
    Custom(String),
}

/// The name of a category.
pub open spec fn category_name(c: CommandCategory) -> Seq<char> {
    match c {
        CommandCategory::Build => "build"@,
        CommandCategory::Test => "test"@,
        CommandCategory::Run => "run"@,
        CommandCategory::Debug => "debug"@,
        CommandCategory::Deploy => "deploy"@,
        CommandCategory::Lint => "lint"@,
        CommandCategory::Format => "format"@,
        CommandCategory::Generate => "generate"@,
        CommandCategory::Install => "install"@,
        CommandCategory::Update => "update"@,
        CommandCategory::Clean => "clean"@,
        CommandCategory::Custom(name) => name@,
    }
}

impl CommandCategory {
    pub fn as_str(&self) -> (r: &str)
        ensures
            r@ == category_name(*self),
    {
        match self {
            CommandCategory::Build => "build",
            CommandCategory::Test => "test",
            CommandCategory::Run => "run",
            CommandCategory::Debug => "debug",
            CommandCategory::Deploy => "deploy",
            CommandCategory::Lint => "lint",
            CommandCategory::Format => "format",
            CommandCategory::Generate => "generate",
            CommandCategory::Install => "install",
            CommandCategory::Update => "update",
            CommandCategory::Clean => "clean",
            CommandCategory::Custom(name) => name.as_str(),
        }
    }
}

impl Clone for CommandCategory {
    fn clone(&self) -> (r: Self)
        ensures
            r == *self,
    {
        match self {
            CommandCategory::Build => CommandCategory::Build,
            CommandCategory::Test => CommandCategory::Test,
            CommandCategory::Run => CommandCategory::Run,
            CommandCategory::Debug => CommandCategory::Debug,
            CommandCategory::Deploy => CommandCategory::Deploy,
            CommandCategory::Lint => CommandCategory::Lint,
            CommandCategory::Format => CommandCategory::Format,
            CommandCategory::Generate => CommandCategory::Generate,
            CommandCategory::Install => CommandCategory::Install,
            CommandCategory::Update => CommandCategory::Update,
            CommandCategory::Clean => CommandCategory::Clean,
            CommandCategory::Custom(name) => CommandCategory::Custom(name.clone()),
        }
    }
}

/// Conditions that determine when a command is available.
#[derive(Debug, PartialEq, Eq)]
pub enum Condition {
    /// File must exist
    FileExists(String),
    /// File pattern must match
    FilePattern(String),
    /// Cursor must be in a function with this name
    CursorInFunction(String),
    /// Cursor must be in a struct with this name
    CursorInStruct(String),
    /// Cursor must be in a test function
    CursorInTest,
    /// Project must have this dependency
    HasDependency(String),
    /// Must be in a workspace
    InWorkspace,
    /// Must be on a specific platform
    Platform(String),
    /// Custom condition with expression
    Expression(String),
}

impl Clone for Condition {
    fn clone(&self) -> (r: Self)
        ensures
            r == *self,
    {
        match self {
            Condition::FileExists(s) => Condition::FileExists(s.clone()),
            Condition::FilePattern(s) => Condition::FilePattern(s.clone()),
            Condition::CursorInFunction(s) => Condition::CursorInFunction(s.clone()),
            Condition::CursorInStruct(s) => Condition::CursorInStruct(s.clone()),
            Condition::CursorInTest => Condition::CursorInTest,
            Condition::HasDependency(s) => Condition::HasDependency(s.clone()),
            Condition::InWorkspace => Condition::InWorkspace,
            Condition::Platform(s) => Condition::Platform(s.clone()),
            Condition::Expression(s) => Condition::Expression(s.clone()),
        }
    }
}

/// The symbol under the cursor has this kind, and this name when one is given.
pub open spec fn cursor_symbol_is(
    context: ProjectContext,
    kind: SymbolKind,
    name: Option<Seq<char>>,
) -> bool {
    match context.current_file {
        Some(fc) => match fc.cursor_symbol {
            Some(sym) => sym.kind == kind && match name {
                Some(n) => sym.name@ == n,
                None => true,
            },
            None => false,
        },
        None => false,
    }
}

pub open spec fn has_dependency_named(context: ProjectContext, dep: Seq<char>) -> bool {
    exists|i: int|
        0 <= i < context.dependencies@.len() && #[trigger] context.dependencies@[i].name@ == dep
}

/// When a condition holds.
pub open spec fn condition_met(c: Condition, context: ProjectContext, facts: FileFacts) -> bool {
    match c {
        Condition::FileExists(path) => facts.path_exists(
            join_path(context.workspace_root@, path@),
        ),
        Condition::FilePattern(pattern) => facts.pattern_matches(
            join_path(context.workspace_root@, pattern@),
        ),
        Condition::CursorInFunction(name) => cursor_symbol_is(
            context,
            SymbolKind::Function,
            Some(name@),
        ),
        Condition::CursorInStruct(name) => cursor_symbol_is(
            context,
            SymbolKind::Struct,
            Some(name@),
        ),
        Condition::CursorInTest => cursor_symbol_is(context, SymbolKind::Test, None),
        Condition::HasDependency(dep) => has_dependency_named(context, dep@),
        Condition::InWorkspace => context.workspace_members@.len() > 1,
        Condition::Platform(p) => facts.platform@ == p@ && (p@ == "windows"@ || p@ == "macos"@
            || p@ == "linux"@),
        Condition::Expression(_) => false,
    }
}

/// Whether `v` holds a string equal to `s`.
pub fn strings_contain(v: &Vec<String>, s: &str) -> (r: bool)
    ensures
        r == views(v@).contains(s@),
{
    let mut i: usize = 0;
    while i < v.len()
        invariant
            i <= v@.len(),
            forall|j: int| 0 <= j < i ==> v@[j]@ != s@,
        decreases v.len() - i,
    {
        if str_eq(v[i].as_str(), s) {
            assert(views(v@)[i as int] == s@);
            return true;
        }
        i += 1;
    }
    assert(!views(v@).contains(s@)) by {
        if views(v@).contains(s@) {
            let k = choose|k: int| 0 <= k < views(v@).len() && views(v@)[k] == s@;
            assert(v@[k]@ == s@);
        }
    }
    false
}

pub fn has_dependency(context: &ProjectContext, dep: &str) -> (r: bool)
    ensures
        r == has_dependency_named(*context, dep@),
{
    let mut i: usize = 0;
    while i < context.dependencies.len()
        invariant
            i <= context.dependencies@.len(),
            forall|j: int| 0 <= j < i ==> context.dependencies@[j].name@ != dep@,
        decreases context.dependencies.len() - i,
    {
        if str_eq(context.dependencies[i].name.as_str(), dep) {
            return true;
        }
        i += 1;
    }
    false
}

fn cursor_symbol_matches(context: &ProjectContext, kind: SymbolKind, name: Option<&str>) -> (r: bool)
    ensures
        r == cursor_symbol_is(
            *context,
            kind,
            match name {
                Some(n) => Some(n@),
                None => None,
            },
        ),
{
    match &context.current_file {
        Some(fc) => match &fc.cursor_symbol {
            Some(sym) => sym.kind == kind && match name {
                Some(n) => str_eq(sym.name.as_str(), n),
                None => true,
            },
            None => false,
        },
        None => false,
    }
}

impl Condition {
    /// Check if this condition is met in the given context, given what is
    /// known about the file system.
    pub fn is_met(&self, context: &ProjectContext, facts: &FileFacts) -> (r: bool)
        ensures
            r == condition_met(*self, *context, *facts),
    {
        match self {
            Condition::FileExists(path) => {
                let full = crate::paths::path_join(context.workspace_root.as_str(), path.as_str());
                strings_contain(&facts.existing_paths, full.as_str())
            },
            Condition::FilePattern(pattern) => {
                let full = crate::paths::path_join(
                    context.workspace_root.as_str(),
                    pattern.as_str(),
                );
                strings_contain(&facts.matched_patterns, full.as_str())
            },
            Condition::CursorInFunction(name) => cursor_symbol_matches(
                context,
                SymbolKind::Function,
                Some(name.as_str()),
            ),
            Condition::CursorInStruct(name) => cursor_symbol_matches(
                context,
                SymbolKind::Struct,
                Some(name.as_str()),
            ),
            Condition::CursorInTest => cursor_symbol_matches(context, SymbolKind::Test, None),
            Condition::HasDependency(dep) => has_dependency(context, dep.as_str()),
            Condition::InWorkspace => context.workspace_members.len() > 1,
            Condition::Platform(p) => str_eq(facts.platform.as_str(), p.as_str()) && (str_eq(
                p.as_str(),
                "windows",
            ) || str_eq(p.as_str(), "macos") || str_eq(p.as_str(), "linux")),
            Condition::Expression(_) => false,
        }
    }
}

/// The abstract value of a command: its fields, with lists as sequences.
pub struct CommandView {
    pub id: String,
    pub label: String,
    pub description: Option<String>,
    pub command: String,
    pub args: Seq<String>,
    pub env: Seq<(String, String)>,
    pub cwd: Option<String>,
    pub category: CommandCategory,
    pub priority: u8,
    pub conditions: Seq<Condition>,
    pub tags: Seq<String>,
    pub requires_input: bool,
    pub estimated_duration: Option<u32>,
}

/// Represents a command that can be executed.
#[derive(Debug, PartialEq)]
pub struct Command {
    /// Unique identifier for this command
    pub id: String,
    /// Human-readable label for display
    pub label: String,
    /// Optional description providing more context
    pub description: Option<String>,
    /// The actual command to execute
    pub command: String,
    /// Command arguments
    pub args: Vec<String>,
    /// Environment variables to set; `CommandBuilder::env` keeps one entry
    /// per variable (see `env_keys_distinct`)
    pub env: Vec<(String, String)>,
    /// Working directory for execution
    pub cwd: Option<String>,
    /// Command category for grouping
    pub category: CommandCategory,
    /// Priority for sorting (higher = more important)
    pub priority: u8,
    /// Conditions that must be met for this command to be available
    pub conditions: Vec<Condition>,
    /// Tags for filtering and search
    pub tags: Vec<String>,
    /// Whether this command requires user input
    pub requires_input: bool,
    /// Estimated execution time in seconds
    pub estimated_duration: Option<u32>,
}

impl View for Command {
    type V = CommandView;

    open spec fn view(&self) -> CommandView {
        CommandView {
            id: self.id,
            label: self.label,
            description: self.description,
            command: self.command,
            args: self.args@,
            env: self.env@,
            cwd: self.cwd,
            category: self.category,
            priority: self.priority,
            conditions: self.conditions@,
            tags: self.tags@,
            requires_input: self.requires_input,
            estimated_duration: self.estimated_duration,
        }
    }
}

/// The views of a list of commands.
pub open spec fn command_views(v: Seq<Command>) -> Seq<CommandView> {
    v.map_values(|c: Command| c@)
}

/// The full command line of a command: the program, then the arguments,
/// separated by single spaces.
pub open spec fn command_line_of(c: CommandView) -> Seq<char> {
    if c.args.len() == 0 {
        c.command@
    } else {
        c.command@ + " "@ + join(views(c.args), " "@)
    }
}

/// All conditions of a command hold.
pub open spec fn command_available(c: CommandView, context: ProjectContext, facts: FileFacts) -> bool {
    forall|i: int|
        0 <= i < c.conditions.len() ==> condition_met(#[trigger] c.conditions[i], context, facts)
}

pub open spec fn has_tag(c: CommandView, tag: Seq<char>) -> bool {
    views(c.tags).contains(tag)
}

pub open spec fn has_arg(c: CommandView, arg: Seq<char>) -> bool {
    views(c.args).contains(arg)
}

/// Commands that run until stopped or need the terminal: executed with
/// inherited standard streams.
pub open spec fn interactive(c: CommandView) -> bool {
    (c.command@ == "cargo-leptos"@ && (has_arg(c, "serve"@) || has_arg(c, "watch"@))) || has_tag(
        c,
        "serve"@,
    ) || has_tag(c, "watch"@) || has_tag(c, "interactive"@)
}

/// Commands that may print the URL of a server they start.
pub open spec fn server_command(c: CommandView) -> bool {
    has_tag(c, "serve"@) || has_tag(c, "server"@) || has_tag(c, "dev"@) || has_tag(c, "watch"@)
        || (c.command@ == "cargo"@ && c.args.len() > 0 && c.args[0]@ == "leptos"@) || (
    c.command@ == "cargo-leptos"@ && has_arg(c, "serve"@)) || (c.command@ == "cargo-leptos"@
        && has_arg(c, "watch"@)) || (c.command@ == "trunk"@ && has_arg(c, "serve"@)) || (
    c.command@ == "dx"@ && has_arg(c, "serve"@))
}

impl Clone for Command {
    fn clone(&self) -> (r: Self)
        ensures
            r@ == self@,
    {
        Command {
            id: self.id.clone(),
            label: self.label.clone(),
            description: copy_opt(&self.description),
            command: self.command.clone(),
            args: copy_strings(&self.args),
            env: copy_pairs(&self.env),
            cwd: copy_opt(&self.cwd),
            category: self.category.clone(),
            priority: self.priority,
            conditions: copy_conditions(&self.conditions),
            tags: copy_strings(&self.tags),
            requires_input: self.requires_input,
            estimated_duration: self.estimated_duration,
        }
    }
}

fn copy_conditions(v: &Vec<Condition>) -> (r: Vec<Condition>)
    ensures
        r@ == v@,
{
    let mut r: Vec<Condition> = Vec::new();
    let mut i: usize = 0;
    while i < v.len()
        invariant
            i <= v@.len(),
            r@ == v@.subrange(0, i as int),
        decreases v.len() - i,
    {
        r.push(v[i].clone());
        i += 1;
    }
    assert(r@ =~= v@);
    r
}

impl Command {
    /// Create a new command builder.
    pub fn builder(id: &str, command: &str) -> (r: CommandBuilder)
        ensures
            CommandBuilder::is_new(r.spec_command(), id@, command@),
    {
        CommandBuilder::new(id, command)
    }

    /// Check if all conditions for this command are met.
    pub fn is_available(&self, context: &ProjectContext, facts: &FileFacts) -> (r: bool)
        ensures
            r == command_available(self@, *context, *facts),
    {
        let mut i: usize = 0;
        while i < self.conditions.len()
            invariant
                i <= self.conditions@.len(),
                forall|j: int|
                    0 <= j < i ==> condition_met(#[trigger] self.conditions@[j], *context, *facts),
            decreases self.conditions.len() - i,
        {
            if !self.conditions[i].is_met(context, facts) {
                assert(self@.conditions[i as int] == self.conditions@[i as int]);
                return false;
            }
            i += 1;
        }
        true
    }

    /// The full command line as a string.
    pub fn command_line(&self) -> (r: String)
        ensures
            r@ == command_line_of(self@),
    {
        if self.args.len() == 0 {
            self.command.clone()
        } else {
            let mut s = self.command.clone();
            s.append(" ");
            let rest = join_strings(&self.args, " ");
            s.append(rest.as_str());
            s
        }
    }

    /// Check if this is an interactive/long-running command.
    pub fn is_interactive(&self) -> (r: bool)
        ensures
            r == interactive(self@),
    {
        let is_cargo_leptos = str_eq(self.command.as_str(), "cargo-leptos");
        let has_serve_or_watch = strings_contain(&self.args, "serve") || strings_contain(
            &self.args,
            "watch",
        );
        (is_cargo_leptos && has_serve_or_watch) || strings_contain(&self.tags, "serve")
            || strings_contain(&self.tags, "watch") || strings_contain(&self.tags, "interactive")
    }

    /// Check if this is a server command that might output a URL.
    pub fn is_server_command(&self) -> (r: bool)
        ensures
            r == server_command(self@),
    {
        let has_serve_tag = strings_contain(&self.tags, "serve");
        let has_server_tag = strings_contain(&self.tags, "server");
        let has_dev_tag = strings_contain(&self.tags, "dev");
        let has_watch_tag = strings_contain(&self.tags, "watch");
        let is_cargo_leptos = str_eq(self.command.as_str(), "cargo") && self.args.len() > 0
            && str_eq(self.args[0].as_str(), "leptos");
        let is_cargo_leptos_serve = str_eq(self.command.as_str(), "cargo-leptos")
            && strings_contain(&self.args, "serve");
        let is_cargo_leptos_watch = str_eq(self.command.as_str(), "cargo-leptos")
            && strings_contain(&self.args, "watch");
        let is_trunk_serve = str_eq(self.command.as_str(), "trunk") && strings_contain(
            &self.args,
            "serve",
        );
        let is_dx_serve = str_eq(self.command.as_str(), "dx") && strings_contain(
            &self.args,
            "serve",
        );
        has_serve_tag || has_server_tag || has_dev_tag || has_watch_tag || is_cargo_leptos
            || is_cargo_leptos_serve || is_cargo_leptos_watch || is_trunk_serve || is_dx_serve
    }
}

/// No two entries of the environment name the same variable.
pub open spec fn env_keys_distinct(env: Seq<(String, String)>) -> bool {
    forall|i: int, j: int| 0 <= i < j < env.len() ==> #[trigger] env[i].0@ != #[trigger] env[j].0@
}

/// The environment after setting `key` to `value`: the entry for `key` is
/// replaced where there is one, else a new entry is added at the end.
pub open spec fn env_insert(env: Seq<(String, String)>, key: String, value: String) -> Seq<
    (String, String),
> {
    match first_key_index(env, key@) {
        Some(i) => env.update(i, (key, value)),
        None => env.push((key, value)),
    }
}

/// The index of the first entry whose key is `key`.
pub open spec fn first_key_index(env: Seq<(String, String)>, key: Seq<char>) -> Option<int>
    decreases env.len(),
{
    if env.len() == 0 {
        None
    } else {
        match first_key_index(env.drop_last(), key) {
            Some(i) => Some(i),
            None => if env.last().0@ == key {
                Some(env.len() - 1)
            } else {
                None
            },
        }
    }
}

/// Builder for creating commands.
pub struct CommandBuilder {
    command: Command,
}

impl CommandBuilder {
    /// The command being built.
    pub closed spec fn spec_command(self) -> CommandView {
        self.command@
    }

    /// A fresh command with the given id and program: its label is the
    /// program, it has no description, arguments, environment, directory,
    /// conditions or tags, its category is `Custom("default")`, its priority
    /// 50, it needs no input and has no duration estimate.
    pub open spec fn is_new(c: CommandView, id: Seq<char>, command: Seq<char>) -> bool {
        &&& c.id@ == id
        &&& c.label@ == command
        &&& c.command@ == command
        &&& c.category matches CommandCategory::Custom(name) && name@ == "default"@
        &&& c.description is None
        &&& c.args == Seq::<String>::empty()
        &&& c.env == Seq::<(String, String)>::empty()
        &&& c.cwd is None
        &&& c.priority == 50
        &&& c.conditions == Seq::<Condition>::empty()
        &&& c.tags == Seq::<String>::empty()
        &&& !c.requires_input
        &&& c.estimated_duration is None
    }

    pub fn new(id: &str, command: &str) -> (r: Self)
        ensures
            CommandBuilder::is_new(r.spec_command(), id@, command@),
    {
        let command_str = owned(command);
        let c = Command {
            id: owned(id),
            label: command_str.clone(),
            description: None,
            command: command_str,
            args: Vec::new(),
            env: Vec::new(),
            cwd: None,
            category: CommandCategory::Custom(owned("default")),
            priority: 50,
            conditions: Vec::new(),
            tags: Vec::new(),
            requires_input: false,
            estimated_duration: None,
        };
        assert(c@.args =~= seq![]);
        assert(c@.env =~= seq![]);
        assert(c@.conditions =~= seq![]);
        assert(c@.tags =~= seq![]);
        CommandBuilder { command: c }
    }

    pub fn label(self, label: &str) -> (r: Self)
        ensures
            r.spec_command() == (CommandView { label: r.spec_command().label, ..self.spec_command() }),
            r.spec_command().label@ == label@,
    {
        let mut b = self;
        b.command.label = owned(label);
        b
    }

    pub fn description(self, description: &str) -> (r: Self)
        ensures
            r.spec_command() == (CommandView {
                description: r.spec_command().description,
                ..self.spec_command()
            }),
            r.spec_command().description is Some,
            r.spec_command().description->0@ == description@,
    {
        let mut b = self;
        b.command.description = Some(owned(description));
        b
    }

    pub fn args(self, args: Vec<String>) -> (r: Self)
        ensures
            r.spec_command() == (CommandView { args: args@, ..self.spec_command() }),
    {
        let mut b = self;
        b.command.args = args;
        b
    }

    pub fn arg(self, arg: &str) -> (r: Self)
        ensures
            r.spec_command() == (CommandView { args: r.spec_command().args, ..self.spec_command() }),
            r.spec_command().args.len() == self.spec_command().args.len() + 1,
            r.spec_command().args.drop_last() == self.spec_command().args,
            r.spec_command().args.last()@ == arg@,
    {
        let mut b = self;
        b.command.args.push(owned(arg));
        assert(b.command.args@.drop_last() =~= self.command.args@);
        b
    }

    /// Sets an environment variable; each variable has one entry.
    pub fn env(self, key: &str, value: &str) -> (r: Self)
        ensures
            exists|k: String, v: String|
                k@ == key@ && v@ == value@ && r.spec_command() == (CommandView {
                    env: env_insert(self.spec_command().env, k, v),
                    ..self.spec_command()
                }),
            env_keys_distinct(self.spec_command().env) ==> env_keys_distinct(r.spec_command().env),
    {
        let mut b = self;
        let k = owned(key);
        let v = owned(value);
        let ghost gk = k;
        let ghost gv = v;
        let ghost old_env = b.command.env@;
        proof {
            if env_keys_distinct(self.spec_command().env) {
                lemma_env_insert_keeps_keys_distinct(self.spec_command().env, gk, gv);
            }
        }
        let mut i: usize = 0;
        let n = b.command.env.len();
        while i < n
            invariant
                n == old_env.len(),
                b.command@ == self.command@,
                old_env == self.command.env@,
                gk == k,
                gv == v,
                k@ == key@,
                v@ == value@,
                i <= n,
                first_key_index(old_env.take(i as int), key@) is None,
            decreases n - i,
        {
            assert(old_env.take(i + 1).drop_last() =~= old_env.take(i as int));
            if str_eq(b.command.env[i].0.as_str(), key) {
                assert(first_key_index(old_env.take(i + 1), key@) == Some(i as int));
                proof {
                    lemma_first_key_prefix(old_env, key@, i as int + 1);
                }
                b.command.env.set(i, (k, v));
                assert(b.spec_command() == (CommandView {
                    env: env_insert(self.spec_command().env, gk, gv),
                    ..self.spec_command()
                }));
                return b;
            }
            i += 1;
        }
        assert(old_env.take(n as int) =~= old_env);
        b.command.env.push((k, v));
        assert(b.spec_command() == (CommandView {
            env: env_insert(self.spec_command().env, gk, gv),
            ..self.spec_command()
        }));
        b
    }

    pub fn cwd(self, cwd: &str) -> (r: Self)
        ensures
            r.spec_command() == (CommandView { cwd: r.spec_command().cwd, ..self.spec_command() }),
            r.spec_command().cwd is Some,
            r.spec_command().cwd->0@ == cwd@,
    {
        let mut b = self;
        b.command.cwd = Some(owned(cwd));
        b
    }

    pub fn category(self, category: CommandCategory) -> (r: Self)
        ensures
            r.spec_command() == (CommandView { category, ..self.spec_command() }),
    {
        let mut b = self;
        b.command.category = category;
        b
    }

    pub fn priority(self, priority: u8) -> (r: Self)
        ensures
            r.spec_command() == (CommandView { priority, ..self.spec_command() }),
    {
        let mut b = self;
        b.command.priority = priority;
        b
    }

    pub fn condition(self, condition: Condition) -> (r: Self)
        ensures
            r.spec_command() == (CommandView {
                conditions: self.spec_command().conditions.push(condition),
                ..self.spec_command()
            }),
    {
        let mut b = self;
        b.command.conditions.push(condition);
        b
    }

    pub fn tag(self, tag: &str) -> (r: Self)
        ensures
            r.spec_command() == (CommandView { tags: r.spec_command().tags, ..self.spec_command() }),
            r.spec_command().tags.len() == self.spec_command().tags.len() + 1,
            r.spec_command().tags.drop_last() == self.spec_command().tags,
            r.spec_command().tags.last()@ == tag@,
    {
        let mut b = self;
        b.command.tags.push(owned(tag));
        assert(b.command.tags@.drop_last() =~= self.command.tags@);
        b
    }

    pub fn requires_input(self, requires_input: bool) -> (r: Self)
        ensures
            r.spec_command() == (CommandView { requires_input, ..self.spec_command() }),
    {
        let mut b = self;
        b.command.requires_input = requires_input;
        b
    }

    pub fn estimated_duration(self, seconds: u32) -> (r: Self)
        ensures
            r.spec_command() == (CommandView {
                estimated_duration: Some(seconds),
                ..self.spec_command()
            }),
    {
        let mut b = self;
        b.command.estimated_duration = Some(seconds);
        b
    }

    pub fn build(self) -> (r: Command)
        ensures
            r@ == self.spec_command(),
    {
        self.command
    }
}

proof fn lemma_first_key_prefix(env: Seq<(String, String)>, key: Seq<char>, k: int)
    requires
        0 <= k <= env.len(),
        first_key_index(env.take(k), key) is Some,
    ensures
        first_key_index(env, key) == first_key_index(env.take(k), key),
    decreases env.len() - k,
{
    if k < env.len() {
        assert(env.take(k + 1).drop_last() =~= env.take(k));
        lemma_first_key_prefix(env, key, k + 1);
    } else {
        assert(env.take(k) =~= env);
    }
}

/// Setting a variable twice keeps one entry for it, with the later value.
pub proof fn lemma_env_insert_overwrites(
    env: Seq<(String, String)>,
    k: String,
    v1: String,
    v2: String,
)
    ensures
        env_insert(env_insert(env, k, v1), k, v2) == env_insert(env, k, v2),
{
    lemma_first_key_index_props(env, k@);
    let e1 = env_insert(env, k, v1);
    lemma_first_key_index_props(e1, k@);
    match first_key_index(env, k@) {
        Some(i) => {
            assert forall|j: int| 0 <= j < i implies e1[j].0@ != k@ by {
                assert(e1[j] == env[j]);
            }
            lemma_first_key_index_unique(e1, k@, i);
        },
        None => {
            assert forall|j: int| 0 <= j < env.len() implies e1[j].0@ != k@ by {
                assert(e1[j] == env[j]);
            }
            lemma_first_key_index_unique(e1, k@, env.len() as int);
        },
    }
}

/// Setting a variable in an environment where each variable has one entry
/// keeps it so: the variable then has exactly one entry.
pub proof fn lemma_env_insert_keeps_keys_distinct(env: Seq<(String, String)>, k: String, v: String)
    requires
        env_keys_distinct(env),
    ensures
        env_keys_distinct(env_insert(env, k, v)),
        exists|i: int| 0 <= i < env_insert(env, k, v).len() && #[trigger] env_insert(env, k, v)[i] == (k, v),
{
    lemma_first_key_index_props(env, k@);
    let e1 = env_insert(env, k, v);
    match first_key_index(env, k@) {
        Some(n) => {
            assert(e1[n] == (k, v));
            assert forall|i: int, j: int| 0 <= i < j < e1.len() implies #[trigger] e1[i].0@ != #[trigger] e1[j].0@ by {
                if i != n && j != n {
                    assert(e1[i] == env[i] && e1[j] == env[j]);
                } else if i == n {
                    assert(e1[j] == env[j]);
                    assert(env[n].0@ != env[j].0@);
                } else {
                    assert(e1[i] == env[i]);
                    assert(env[i].0@ != env[n].0@);
                }
            }
        },
        None => {
            let n = env.len() as int;
            assert(e1[n] == (k, v));
            assert forall|i: int, j: int| 0 <= i < j < e1.len() implies #[trigger] e1[i].0@ != #[trigger] e1[j].0@ by {
                assert(e1[i] == env[i]);
                if j != n {
                    assert(e1[j] == env[j]);
                }
            }
        },
    }
}

/// The value of an environment variable: that of its first entry.
pub open spec fn env_lookup(env: Seq<(String, String)>, key: Seq<char>) -> Option<Seq<char>> {
    match first_key_index(env, key) {
        Some(i) => Some(env[i].1@),
        None => None,
    }
}

/// After setting a variable, it has the new value and every other variable
/// keeps the value it had.
pub proof fn lemma_env_insert_lookup(env: Seq<(String, String)>, k: String, v: String, q: Seq<char>)
    ensures
        env_lookup(env_insert(env, k, v), q) == if q == k@ {
            Some(v@)
        } else {
            env_lookup(env, q)
        },
{
    lemma_first_key_index_props(env, k@);
    lemma_first_key_index_props(env, q);
    let e1 = env_insert(env, k, v);
    lemma_first_key_index_props(e1, q);
    let n: int = match first_key_index(env, k@) {
        Some(i) => i,
        None => env.len() as int,
    };
    assert(e1[n] == (k, v));
    assert forall|j: int| 0 <= j < e1.len() && j != n implies #[trigger] e1[j] == env[j] by {}
    if q == k@ {
        assert forall|j: int| 0 <= j < n implies #[trigger] e1[j].0@ != q by {
            assert(e1[j] == env[j]);
        }
        lemma_first_key_index_unique(e1, q, n);
    } else {
        match first_key_index(env, q) {
            Some(m) => {
                assert(m != n);
                assert(e1[m] == env[m]);
                assert forall|j: int| 0 <= j < m implies #[trigger] e1[j].0@ != q by {
                    if j != n {
                        assert(e1[j] == env[j]);
                    }
                }
                lemma_first_key_index_unique(e1, q, m);
            },
            None => {
                if let Some(m) = first_key_index(e1, q) {
                    if m != n {
                        assert(e1[m] == env[m]);
                    }
                }
            },
        }
    }
}

/// What `first_key_index` finds: the least index whose key matches.
proof fn lemma_first_key_index_props(env: Seq<(String, String)>, key: Seq<char>)
    ensures
        match first_key_index(env, key) {
            Some(i) => 0 <= i < env.len() && env[i].0@ == key && forall|j: int|
                0 <= j < i ==> #[trigger] env[j].0@ != key,
            None => forall|j: int| 0 <= j < env.len() ==> #[trigger] env[j].0@ != key,
        },
    decreases env.len(),
{
    if env.len() > 0 {
        lemma_first_key_index_props(env.drop_last(), key);
        assert forall|j: int| 0 <= j < env.len() - 1 implies env.drop_last()[j] == env[j] by {}
    }
}

/// An index with a matching key and none before it is what `first_key_index` finds.
proof fn lemma_first_key_index_unique(env: Seq<(String, String)>, key: Seq<char>, i: int)
    requires
        0 <= i < env.len(),
        env[i].0@ == key,
        forall|j: int| 0 <= j < i ==> #[trigger] env[j].0@ != key,
    ensures
        first_key_index(env, key) == Some(i),
{
    lemma_first_key_index_props(env, key);
    match first_key_index(env, key) {
        Some(m) => {
            if m < i {
                assert(env[m].0@ != key);
            }
            if i < m {
                assert(env[i].0@ != key);
            }
        },
        None => {
            assert(env[i].0@ != key);
        },
    }
}

/// The abstract value of a category, with names as character sequences.
pub enum CategoryView {
    Build,
    Test,
    Run,
    Debug,
    Deploy,
    Lint,
    Format,
    Generate,
    Install,
    Update,
    Clean,
    Custom(Seq<char>),
}

pub open spec fn category_view(c: CommandCategory) -> CategoryView {
    match c {
        CommandCategory::Build => CategoryView::Build,
        CommandCategory::Test => CategoryView::Test,
        CommandCategory::Run => CategoryView::Run,
        CommandCategory::Debug => CategoryView::Debug,
        CommandCategory::Deploy => CategoryView::Deploy,
        CommandCategory::Lint => CategoryView::Lint,
        CommandCategory::Format => CategoryView::Format,
        CommandCategory::Generate => CategoryView::Generate,
        CommandCategory::Install => CategoryView::Install,
        CommandCategory::Update => CategoryView::Update,
        CommandCategory::Clean => CategoryView::Clean,
        CommandCategory::Custom(n) => CategoryView::Custom(n@),
    }
}

/// A command with every text as a character sequence.
pub struct CommandSummary {
    pub id: Seq<char>,
    pub label: Seq<char>,
    pub description: Option<Seq<char>>,
    pub command: Seq<char>,
    pub args: Seq<Seq<char>>,
    pub env: Seq<(Seq<char>, Seq<char>)>,
    pub cwd: Option<Seq<char>>,
    pub category: CategoryView,
    pub priority: u8,
    pub conditions: Seq<Condition>,
    pub tags: Seq<Seq<char>>,
    pub requires_input: bool,
    pub estimated_duration: Option<u32>,
}

pub open spec fn opt_text(o: Option<String>) -> Option<Seq<char>> {
    match o {
        Some(s) => Some(s@),
        None => None,
    }
}

/// The summary of a command.
pub open spec fn summary(c: CommandView) -> CommandSummary {
    CommandSummary {
        id: c.id@,
        label: c.label@,
        description: opt_text(c.description),
        command: c.command@,
        args: views(c.args),
        env: c.env.map_values(|p: (String, String)| (p.0@, p.1@)),
        cwd: opt_text(c.cwd),
        category: category_view(c.category),
        priority: c.priority,
        conditions: c.conditions,
        tags: views(c.tags),
        requires_input: c.requires_input,
        estimated_duration: c.estimated_duration,
    }
}

/// The summaries of a list of commands.
pub open spec fn summaries(v: Seq<Command>) -> Seq<CommandSummary> {
    v.map_values(|c: Command| summary(c@))
}

/// Appends the commands of `more` to `v`.
pub fn append_commands(v: &mut Vec<Command>, more: Vec<Command>)
    ensures
        summaries(final(v)@) == summaries(old(v)@) + summaries(more@),
        command_views(final(v)@) == command_views(old(v)@) + command_views(more@),
{
    let ghost start = summaries(v@);
    let ghost startv = command_views(v@);
    let ghost mv = summaries(more@);
    let ghost mvv = command_views(more@);
    let ghost n = more@.len();
    for e in it: more.into_iter()
        invariant
            it.seq().len() == n,
            mv.len() == n,
            mvv.len() == n,
            forall|j: int| 0 <= j < n ==> #[trigger] mv[j] == summary(it.seq()[j]@),
            forall|j: int| 0 <= j < n ==> #[trigger] mvv[j] == it.seq()[j]@,
            summaries(v@) == start + mv.take(it.index() as int),
            command_views(v@) == startv + mvv.take(it.index() as int),
    {
        let ghost i = it.index() as int;
        let ghost before = v@;
        v.push(e);
        proof {
            assert(summaries(v@) =~= summaries(before).push(mv[i]));
            assert(mv.take(i + 1) =~= mv.take(i).push(mv[i]));
            assert(command_views(v@) =~= command_views(before).push(mvv[i]));
            assert(mvv.take(i + 1) =~= mvv.take(i).push(mvv[i]));
        }
    }
    assert(mv.take(n as int) =~= mv);
    assert(mvv.take(n as int) =~= mvv);
}

/// The result of running a command.
#[derive(Debug)]
pub struct ExecutionResult {
    pub exit_code: i32,
    pub stdout: String,
    pub stderr: String,
    pub duration: std::time::Duration,
    pub command: Command,
}

impl ExecutionResult {
    /// Whether the command exited with status zero.
    pub fn is_success(&self) -> (r: bool)
        ensures
            r == (self.exit_code == 0),
    {
        self.exit_code == 0
    }

    /// The standard output, or the error output when the standard output
    /// is empty.
    pub fn output(&self) -> (r: &str)
        ensures
            r@ == (if self.stdout@.len() == 0 {
                self.stderr@
            } else {
                self.stdout@
            }),
    {
        if self.stdout.as_str().unicode_len() == 0 {
            self.stderr.as_str()
        } else {
            self.stdout.as_str()
        }
    }
}

/// Appends one command to a list.
pub fn push_command(v: &mut Vec<Command>, c: Command)
    ensures
        summaries(final(v)@) == summaries(old(v)@).push(summary(c@)),
        command_views(final(v)@) == command_views(old(v)@).push(c@),
{
    let ghost before = v@;
    v.push(c);
    assert(summaries(v@) =~= summaries(before).push(summary(c@)));
    assert(command_views(v@) =~= command_views(before).push(c@));
}

} // verus!
