//! Command filtering and prioritization.

use crate::commands::{
    category_name, command_available, command_line_of, command_views, condition_met, Command,
    CommandView, Condition,
};
use crate::commands::{has_dependency, has_dependency_named, strings_contain, CommandCategory};
use crate::context::{FileFacts, ProjectContext, ProjectType, SymbolKind};
use crate::error::RazResult;
use crate::paths::{extension, path_extension};
use crate::text::{
    ascii_lower, has_sub, is_ascii_seq, lowercase, owned, str_contains, str_eq, to_lowercase, views,
};
use chrono::Timelike;
use vstd::prelude::*;

verus! {

/// Keeping the commands of `s` that satisfy `p`, in order.
pub proof fn lemma_filter_step(s: Seq<CommandView>, p: spec_fn(CommandView) -> bool, i: int)
    requires
        0 <= i < s.len(),
    ensures
        s.take(i + 1).filter(p) == (if p(s[i]) {
            s.take(i).filter(p).push(s[i])
        } else {
            s.take(i).filter(p)
        }),
{
    assert(s.take(i + 1) =~= s.take(i).push(s[i]));
    s.take(i).lemma_filter_push(s[i], p);
}

pub proof fn lemma_views_push(v: Seq<Command>, c: Command)
    ensures
        command_views(v.push(c)) == command_views(v).push(c@),
{
    assert(command_views(v.push(c)) =~= command_views(v).push(c@));
}

/// A set of names given as a list: the names it holds.
pub open spec fn name_set(v: Seq<String>) -> Set<Seq<char>> {
    views(v).to_set()
}

pub proof fn lemma_name_set_push(v: Seq<String>, x: String)
    ensures
        name_set(v.push(x)) == name_set(v).insert(x@),
{
    crate::text::lemma_views_push(v, x);
    let w = views(v);
    assert(views(v.push(x)) == w.push(x@));
    assert forall|a: Seq<char>| (w.contains(a) || a == x@) implies w.push(x@).contains(a) by {
        if a == x@ {
            assert(w.push(x@)[w.len() as int] == a);
        } else {
            let k = choose|k: int| 0 <= k < w.len() && w[k] == a;
            assert(w.push(x@)[k] == a);
        }
    }
    assert forall|a: Seq<char>| w.push(x@).contains(a) implies (w.contains(a) || a == x@) by {
        let k = choose|k: int| 0 <= k < w.len() + 1 && w.push(x@)[k] == a;
        if k < w.len() {
            assert(w[k] == a);
        }
    }
    assert forall|a: Seq<char>|
        name_set(v.push(x)).contains(a) == name_set(v).insert(x@).contains(a) by {
        assert(name_set(v.push(x)).contains(a) == w.push(x@).contains(a));
        assert(name_set(v).contains(a) == w.contains(a));
    }
    assert(name_set(v.push(x)) =~= name_set(v).insert(x@));
}

/// Adds `name` to a list of names unless it is there already.
fn insert_name(v: &mut Vec<String>, name: &str)
    ensures
        name_set(final(v)@) == name_set(old(v)@).insert(name@),
{
    if !crate::commands::strings_contain(v, name) {
        let ghost before = v@;
        v.push(owned(name));
        proof {
            assert(v@ == before.push(v@.last()));
            lemma_name_set_push(before, v@.last());
        }
    } else {
        assert(name_set(v@) =~= name_set(v@).insert(name@));
    }
}

/// Whether the command has one of the tags in `tags`.
fn has_any_tag(command: &Command, tags: &Vec<String>) -> (r: bool)
    ensures
        r == exists|t: Seq<char>| name_set(tags@).contains(t) && views(command@.tags).contains(t),
{
    let mut i: usize = 0;
    while i < tags.len()
        invariant
            i <= tags@.len(),
            forall|j: int| 0 <= j < i ==> !views(command@.tags).contains(#[trigger] tags@[j]@),
        decreases tags.len() - i,
    {
        if crate::commands::strings_contain(&command.tags, tags[i].as_str()) {
            assert(views(tags@)[i as int] == tags@[i as int]@);
            assert(name_set(tags@).contains(tags@[i as int]@));
            return true;
        }
        i += 1;
    }
    assert forall|t: Seq<char>|
        name_set(tags@).contains(t) implies !views(command@.tags).contains(t) by {
        let k = choose|k: int| 0 <= k < views(tags@).len() && views(tags@)[k] == t;
        assert(tags@[k]@ == t);
    }
    false
}

/// A filter over a list of commands. The library's filters state what they
/// keep; a filter of the library's user is held to nothing here.
pub trait CommandFilter {
    fn filter(&self, commands: Vec<Command>, context: &ProjectContext) -> (r: RazResult<Vec<Command>>);
}

/// Keeps the commands whose conditions all hold, as far as the given file
/// system facts show.
pub struct ConditionFilter {
    facts: FileFacts,
}

impl ConditionFilter {
    /// A filter that knows of no file and no platform: unlike a check of
    /// the disk, it holds every condition on a file, a file pattern or the
    /// platform to be unmet, and drops the commands that have one. The
    /// library reads no files; to judge such conditions, read the project's
    /// files and build the filter with `with_facts`.
    pub fn new() -> (r: Self)
        ensures
            r.facts().existing_paths@.len() == 0,
            r.facts().matched_patterns@.len() == 0,
            r.facts().file_contents@.len() == 0,
            forall|c: Condition, context: ProjectContext|
                (c is FileExists || c is FilePattern || c is Platform) ==> !#[trigger] condition_met(
                    c,
                    context,
                    r.facts(),
                ),
    {
        let facts = FileFacts::none();
        proof {
            reveal_strlit("windows");
            reveal_strlit("macos");
            reveal_strlit("linux");
            assert(views(facts.existing_paths@) =~= Seq::<Seq<char>>::empty());
            assert(views(facts.matched_patterns@) =~= Seq::<Seq<char>>::empty());
        }
        ConditionFilter { facts }
    }

    /// A filter that checks conditions against the given facts.
    pub fn with_facts(facts: FileFacts) -> (r: Self)
        ensures
            r.facts() == facts,
    {
        ConditionFilter { facts }
    }

    pub closed spec fn facts(&self) -> FileFacts {
        self.facts
    }
}

pub open spec fn available_in(context: ProjectContext, facts: FileFacts) -> spec_fn(CommandView) -> bool {
    |c: CommandView| command_available(c, context, facts)
}

impl ConditionFilter {
    /// The commands that the filter keeps, in the order it gives them.
    pub open spec fn filtered(&self, commands: Seq<CommandView>, context: ProjectContext) -> Seq<CommandView> {
        commands.filter(available_in(context, self.facts()))
    }
}

impl CommandFilter for ConditionFilter {
    fn filter(&self, commands: Vec<Command>, context: &ProjectContext) -> (r: RazResult<Vec<Command>>)
        ensures
            r is Ok,
            command_views(r->Ok_0@) == self.filtered(command_views(commands@), *context),
    {
        let ghost s = command_views(commands@);
        let ghost p = available_in(*context, self.facts);
        let mut out: Vec<Command> = Vec::new();
        let ghost n = commands@.len();
        for c in it: commands.into_iter()
            invariant
                it.seq().len() == n,
                s.len() == n,
                forall|j: int| 0 <= j < n ==> #[trigger] s[j] == it.seq()[j]@,
                p == available_in(*context, self.facts),
                command_views(out@) == s.take(it.index() as int).filter(p),
        {
            let ghost i = it.index() as int;
            proof {
                lemma_filter_step(s, p, i);
            }
            if c.is_available(context, &self.facts) {
                let ghost before = out@;
                out.push(c);
                proof {
                    lemma_views_push(before, out@.last());
                    assert(out@ == before.push(out@.last()));
                }
            }
        }
        proof {
            assert(s.take(n as int) =~= s);
        }
        Ok(out)
    }
}

/// Excludes commands by category.
pub struct CategoryFilter {
    excluded_categories: Vec<String>,
}

pub open spec fn category_not_in(excluded: Set<Seq<char>>) -> spec_fn(CommandView) -> bool {
    |c: CommandView| !excluded.contains(category_name(c.category))
}

impl CategoryFilter {
    pub closed spec fn excluded(&self) -> Set<Seq<char>> {
        name_set(self.excluded_categories@)
    }

    /// A filter that excludes no category.
    pub fn new() -> (r: Self)
        ensures
            r.excluded() == Set::<Seq<char>>::empty(),
    {
        let r = CategoryFilter { excluded_categories: Vec::new() };
        assert(r.excluded() =~= Set::<Seq<char>>::empty());
        r
    }

    pub fn exclude_category(&mut self, category: &str)
        ensures
            final(self).excluded() == old(self).excluded().insert(category@),
    {
        insert_name(&mut self.excluded_categories, category);
    }
}

impl CategoryFilter {
    /// The commands that the filter keeps, in the order it gives them.
    pub open spec fn filtered(&self, commands: Seq<CommandView>, context: ProjectContext) -> Seq<CommandView> {
        commands.filter(category_not_in(self.excluded()))
    }
}

impl CommandFilter for CategoryFilter {
    fn filter(&self, commands: Vec<Command>, context: &ProjectContext) -> (r: RazResult<Vec<Command>>)
        ensures
            r is Ok,
            command_views(r->Ok_0@) == self.filtered(command_views(commands@), *context),
    {
        let ghost s = command_views(commands@);
        let ghost p = category_not_in(self.excluded());
        let mut out: Vec<Command> = Vec::new();
        let ghost n = commands@.len();
        for c in it: commands.into_iter()
            invariant
                it.seq().len() == n,
                s.len() == n,
                forall|j: int| 0 <= j < n ==> #[trigger] s[j] == it.seq()[j]@,
                p == category_not_in(self.excluded()),
                command_views(out@) == s.take(it.index() as int).filter(p),
        {
            let ghost i = it.index() as int;
            proof {
                lemma_filter_step(s, p, i);
            }
            let excluded = crate::commands::strings_contain(
                &self.excluded_categories,
                c.category.as_str(),
            );
            if !excluded {
                let ghost before = out@;
                out.push(c);
                proof {
                    lemma_views_push(before, out@.last());
                    assert(out@ == before.push(out@.last()));
                }
            }
        }
        proof {
            assert(s.take(n as int) =~= s);
        }
        Ok(out)
    }
}

/// Keeps the commands whose priority is at least a minimum.
pub struct PriorityFilter {
    pub min_priority: u8,
}

pub open spec fn priority_at_least(min: u8) -> spec_fn(CommandView) -> bool {
    |c: CommandView| c.priority >= min
}

impl PriorityFilter {
    /// A filter that keeps every priority.
    pub fn new() -> (r: Self)
        ensures
            r.min_priority == 0,
    {
        PriorityFilter { min_priority: 0 }
    }

    pub fn with_min_priority(min_priority: u8) -> (r: Self)
        ensures
            r.min_priority == min_priority,
    {
        PriorityFilter { min_priority }
    }
}

impl PriorityFilter {
    /// The commands that the filter keeps, in the order it gives them.
    pub open spec fn filtered(&self, commands: Seq<CommandView>, context: ProjectContext) -> Seq<CommandView> {
        commands.filter(priority_at_least(self.min_priority))
    }
}

impl CommandFilter for PriorityFilter {
    fn filter(&self, commands: Vec<Command>, context: &ProjectContext) -> (r: RazResult<Vec<Command>>)
        ensures
            r is Ok,
            command_views(r->Ok_0@) == self.filtered(command_views(commands@), *context),
    {
        let ghost s = command_views(commands@);
        let ghost p = priority_at_least(self.min_priority);
        let mut out: Vec<Command> = Vec::new();
        let ghost n = commands@.len();
        for c in it: commands.into_iter()
            invariant
                it.seq().len() == n,
                s.len() == n,
                forall|j: int| 0 <= j < n ==> #[trigger] s[j] == it.seq()[j]@,
                p == priority_at_least(self.min_priority),
                command_views(out@) == s.take(it.index() as int).filter(p),
        {
            let ghost i = it.index() as int;
            proof {
                lemma_filter_step(s, p, i);
            }
            if c.priority >= self.min_priority {
                let ghost before = out@;
                out.push(c);
                proof {
                    lemma_views_push(before, out@.last());
                    assert(out@ == before.push(out@.last()));
                }
            }
        }
        proof {
            assert(s.take(n as int) =~= s);
        }
        Ok(out)
    }
}

/// Removes commands whose command line an earlier command already has.
pub struct DuplicateFilter {}

/// Some command before position `i` has the same command line as the one at `i`.
pub open spec fn line_seen_before(s: Seq<CommandView>, i: int) -> bool {
    exists|j: int| 0 <= j < i && command_line_of(s[j]) == command_line_of(s[i])
}

/// The commands of `s` whose command line no earlier command has, in order.
pub open spec fn dedup_lines(s: Seq<CommandView>) -> Seq<CommandView>
    decreases s.len(),
{
    if s.len() == 0 {
        s
    } else {
        let rest = dedup_lines(s.drop_last());
        if line_seen_before(s, s.len() - 1) {
            rest
        } else {
            rest.push(s.last())
        }
    }
}

/// The command lines of the first `i` commands of `s`.
pub open spec fn lines_upto(s: Seq<CommandView>, i: int) -> Set<Seq<char>> {
    Set::new(|l: Seq<char>| exists|j: int| 0 <= j < i && command_line_of(s[j]) == l)
}

impl DuplicateFilter {
    pub fn new() -> (r: Self) {
        DuplicateFilter {  }
    }
}

impl DuplicateFilter {
    /// The commands that the filter keeps, in the order it gives them.
    pub open spec fn filtered(&self, commands: Seq<CommandView>, context: ProjectContext) -> Seq<CommandView> {
        dedup_lines(commands)
    }
}

impl CommandFilter for DuplicateFilter {
    fn filter(&self, commands: Vec<Command>, context: &ProjectContext) -> (r: RazResult<Vec<Command>>)
        ensures
            r is Ok,
            command_views(r->Ok_0@) == self.filtered(command_views(commands@), *context),
    {
        let ghost s = command_views(commands@);
        let mut seen: Vec<String> = Vec::new();
        let mut out: Vec<Command> = Vec::new();
        let ghost n = commands@.len();
        proof {
            assert(name_set(seen@) =~= lines_upto(s, 0));
            assert(s.take(0) =~= seq![]);
        }
        for c in it: commands.into_iter()
            invariant
                it.seq().len() == n,
                s.len() == n,
                forall|j: int| 0 <= j < n ==> #[trigger] s[j] == it.seq()[j]@,
                name_set(seen@) == lines_upto(s, it.index() as int),
                command_views(out@) == dedup_lines(s.take(it.index() as int)),
        {
            let ghost i = it.index() as int;
            let line = c.command_line();
            let ghost t = s.take(i + 1);
            proof {
                assert(t.drop_last() =~= s.take(i));
                assert(line@ == command_line_of(s[i]));
                assert(line_seen_before(t, i) == lines_upto(s, i).contains(line@)) by {
                    if line_seen_before(t, i) {
                        let j = choose|j: int| 0 <= j < i && command_line_of(t[j]) == command_line_of(t[i]);
                        assert(t[j] == s[j]);
                    }
                    if lines_upto(s, i).contains(line@) {
                        let j = choose|j: int| 0 <= j < i && command_line_of(s[j]) == line@;
                        assert(t[j] == s[j]);
                    }
                }
                assert(lines_upto(s, i + 1) =~= lines_upto(s, i).insert(line@)) by {
                    assert forall|l: Seq<char>| lines_upto(s, i).insert(line@).contains(l) implies
                        lines_upto(s, i + 1).contains(l) by {
                        if l != line@ {
                            let j = choose|j: int| 0 <= j < i && command_line_of(s[j]) == l;
                            assert(0 <= j < i + 1 && command_line_of(s[j]) == l);
                        } else {
                            assert(0 <= i < i + 1 && command_line_of(s[i]) == l);
                        }
                    }
                }
            }
            if !crate::commands::strings_contain(&seen, line.as_str()) {
                let ghost before = out@;
                let ghost seen_before = seen@;
                seen.push(line);
                out.push(c);
                proof {
                    lemma_views_push(before, out@.last());
                    assert(out@ == before.push(out@.last()));
                    assert(seen@ == seen_before.push(seen@.last()));
                    lemma_name_set_push(seen_before, seen@.last());
                }
            } else {
                proof {
                    assert(lines_upto(s, i).insert(line@) =~= lines_upto(s, i));
                }
            }
        }
        proof {
            assert(s.take(n as int) =~= s);
        }
        Ok(out)
    }
}

/// Keeps commands by their tags: one of the required tags must be present,
/// when any is required, and none of the excluded tags.
pub struct TagFilter {
    required_tags: Vec<String>,
    excluded_tags: Vec<String>,
}

pub open spec fn has_tag_in(c: CommandView, tags: Set<Seq<char>>) -> bool {
    exists|t: Seq<char>| tags.contains(t) && views(c.tags).contains(t)
}

pub open spec fn tags_allow(required: Set<Seq<char>>, excluded: Set<Seq<char>>) -> spec_fn(CommandView) -> bool {
    |c: CommandView| (required == Set::<Seq<char>>::empty() || has_tag_in(c, required)) && !has_tag_in(c, excluded)
}

impl TagFilter {
    pub closed spec fn required(&self) -> Set<Seq<char>> {
        name_set(self.required_tags@)
    }

    pub closed spec fn excluded(&self) -> Set<Seq<char>> {
        name_set(self.excluded_tags@)
    }

    /// A filter that requires and excludes no tag.
    pub fn new() -> (r: Self)
        ensures
            r.required() == Set::<Seq<char>>::empty(),
            r.excluded() == Set::<Seq<char>>::empty(),
    {
        let r = TagFilter { required_tags: Vec::new(), excluded_tags: Vec::new() };
        assert(r.required() =~= Set::<Seq<char>>::empty());
        assert(r.excluded() =~= Set::<Seq<char>>::empty());
        r
    }

    pub fn require_tag(&mut self, tag: &str)
        ensures
            final(self).required() == old(self).required().insert(tag@),
            final(self).excluded() == old(self).excluded(),
    {
        insert_name(&mut self.required_tags, tag);
    }

    pub fn exclude_tag(&mut self, tag: &str)
        ensures
            final(self).excluded() == old(self).excluded().insert(tag@),
            final(self).required() == old(self).required(),
    {
        insert_name(&mut self.excluded_tags, tag);
    }

    fn allows(&self, c: &Command) -> (r: bool)
        ensures
            r == tags_allow(self.required(), self.excluded())(c@),
    {
        if self.required_tags.len() > 0 {
            assert(name_set(self.required_tags@).contains(self.required_tags@[0]@)) by {
                assert(views(self.required_tags@)[0] == self.required_tags@[0]@);
            }
            if !has_any_tag(c, &self.required_tags) {
                return false;
            }
        } else {
            assert(self.required() =~= Set::<Seq<char>>::empty());
        }
        !has_any_tag(c, &self.excluded_tags)
    }
}

impl TagFilter {
    /// The commands that the filter keeps, in the order it gives them.
    pub open spec fn filtered(&self, commands: Seq<CommandView>, context: ProjectContext) -> Seq<CommandView> {
        commands.filter(tags_allow(self.required(), self.excluded()))
    }
}

impl CommandFilter for TagFilter {
    fn filter(&self, commands: Vec<Command>, context: &ProjectContext) -> (r: RazResult<Vec<Command>>)
        ensures
            r is Ok,
            command_views(r->Ok_0@) == self.filtered(command_views(commands@), *context),
    {
        let ghost s = command_views(commands@);
        let ghost p = tags_allow(self.required(), self.excluded());
        let mut out: Vec<Command> = Vec::new();
        let ghost n = commands@.len();
        for c in it: commands.into_iter()
            invariant
                it.seq().len() == n,
                s.len() == n,
                forall|j: int| 0 <= j < n ==> #[trigger] s[j] == it.seq()[j]@,
                p == tags_allow(self.required(), self.excluded()),
                command_views(out@) == s.take(it.index() as int).filter(p),
        {
            let ghost i = it.index() as int;
            proof {
                lemma_filter_step(s, p, i);
            }
            if self.allows(&c) {
                let ghost before = out@;
                out.push(c);
                proof {
                    lemma_views_push(before, out@.last());
                    assert(out@ == before.push(out@.last()));
                }
            }
        }
        proof {
            assert(s.take(n as int) =~= s);
        }
        Ok(out)
    }
}

/// Keeps at most a given number of commands, the first ones.
pub struct LimitFilter {
    max_commands: usize,
}

impl LimitFilter {
    pub closed spec fn max(&self) -> nat {
        self.max_commands as nat
    }

    pub fn new(max_commands: usize) -> (r: Self)
        ensures
            r.max() == max_commands,
    {
        LimitFilter { max_commands }
    }
}

/// The first `max` items of `s`, or all of them when there are fewer.
pub open spec fn first_n(s: Seq<CommandView>, max: nat) -> Seq<CommandView> {
    if max <= s.len() {
        s.take(max as int)
    } else {
        s
    }
}

/// Truncating a vector of commands.
fn truncate_commands(commands: Vec<Command>, max: usize) -> (r: Vec<Command>)
    ensures
        command_views(r@) == first_n(command_views(commands@), max as nat),
{
    let mut v = commands;
    v.truncate(max);
    proof {
        if (max as nat) <= commands@.len() {
            assert(command_views(v@) =~= command_views(commands@).take(max as int));
        }
    }
    v
}

impl LimitFilter {
    /// The commands that the filter keeps, in the order it gives them.
    pub open spec fn filtered(&self, commands: Seq<CommandView>, context: ProjectContext) -> Seq<CommandView> {
        first_n(commands, self.max())
    }
}

impl CommandFilter for LimitFilter {
    fn filter(&self, commands: Vec<Command>, context: &ProjectContext) -> (r: RazResult<Vec<Command>>)
        ensures
            r is Ok,
            command_views(r->Ok_0@) == self.filtered(command_views(commands@), *context),
    {
        Ok(truncate_commands(commands, self.max_commands))
    }
}

/// Ranks commands by relevance to the cursor and the project. Weights are
/// kept in hundredths: tests (1.5) and runs (1.3) under a cursor on a test
/// or a function, and the unused debug (1.2) and build (1.0) weights.
pub struct SmartFilter {
    test_weight: u64,
    debug_weight: u64,
    build_weight: u64,
    run_weight: u64,
}

impl SmartFilter {
    #[verifier::type_invariant]
    spec fn weights_bounded(self) -> bool {
        self.test_weight <= 1000 && self.run_weight <= 1000
    }

    pub closed spec fn test_weight(&self) -> nat {
        self.test_weight as nat
    }

    pub closed spec fn run_weight(&self) -> nat {
        self.run_weight as nat
    }

    pub fn new() -> (r: Self)
        ensures
            r.test_weight() == 150,
            r.run_weight() == 130,
    {
        SmartFilter { test_weight: 150, debug_weight: 120, build_weight: 100, run_weight: 130 }
    }

    /// The relevance of a command, in ten-thousandths: see `relevance`.
    fn calculate_relevance_score(&self, command: &Command, context: &ProjectContext) -> (r: u64)
        ensures
            r == relevance(command@, *context, self.test_weight(), self.run_weight()),
    {
        proof {
            use_type_invariant(self);
        }
        let mut cursor: u64 = 100;
        if let Some(file_context) = &context.current_file {
            if let Some(cursor_symbol) = &file_context.cursor_symbol {
                match cursor_symbol.kind {
                    SymbolKind::Test => {
                        if let CommandCategory::Test = command.category {
                            cursor = self.test_weight;
                        }
                    },
                    SymbolKind::Function => {
                        if let CommandCategory::Run = command.category {
                            cursor = self.run_weight;
                        }
                    },
                    _ => {},
                }
            }
        }
        let mut project: u64 = 100;
        match context.project_type {
            ProjectType::Leptos | ProjectType::Dioxus => {
                if strings_contain(&command.tags, "serve") || strings_contain(&command.tags, "dev") {
                    project = 140;
                }
            },
            ProjectType::Bevy => {
                if strings_contain(&command.tags, "run") {
                    project = 130;
                }
            },
            _ => {},
        }
        assert(cursor <= 1000 && project <= 140);
        assert(command.priority as u64 * cursor <= 255 * 1000) by (nonlinear_arith)
            requires
                command.priority <= 255,
                cursor <= 1000,
        ;
        assert(command.priority as u64 * cursor * project <= 255 * 1000 * 140) by (nonlinear_arith)
            requires
                command.priority as u64 * cursor <= 255 * 1000,
                project <= 140,
        ;
        command.priority as u64 * cursor * project
    }
}

/// The weight of a command for the symbol under the cursor, in hundredths.
pub open spec fn cursor_weight(c: CommandView, context: ProjectContext, test_w: nat, run_w: nat) -> nat {
    match context.current_file {
        Some(fc) => match fc.cursor_symbol {
            Some(s) => match s.kind {
                SymbolKind::Test => if c.category is Test {
                    test_w
                } else {
                    100
                },
                SymbolKind::Function => if c.category is Run {
                    run_w
                } else {
                    100
                },
                _ => 100,
            },
            None => 100,
        },
        None => 100,
    }
}

/// The weight of a command for the project's framework, in hundredths:
/// serving and development commands in Leptos and Dioxus projects (1.4),
/// run commands in Bevy projects (1.3).
pub open spec fn project_weight(c: CommandView, context: ProjectContext) -> nat {
    match context.project_type {
        ProjectType::Leptos | ProjectType::Dioxus => if views(c.tags).contains("serve"@) || views(
            c.tags,
        ).contains("dev"@) {
            140
        } else {
            100
        },
        ProjectType::Bevy => if views(c.tags).contains("run"@) {
            130
        } else {
            100
        },
        _ => 100,
    }
}

/// A command's priority times its two weights.
pub open spec fn relevance(c: CommandView, context: ProjectContext, test_w: nat, run_w: nat) -> nat {
    c.priority as nat * cursor_weight(c, context, test_w, run_w) * project_weight(c, context)
}

/// With the cursor on a test, a test command's relevance is its priority
/// times the test weight (times the project weight) and every other
/// command's cursor weight is one; with the cursor on a function, the same
/// holds of run commands and the run weight; elsewhere every cursor weight
/// is one. (Weights are in hundredths.)
pub proof fn lemma_cursor_weights(c: CommandView, context: ProjectContext, test_w: nat, run_w: nat)
    ensures
        (context.current_file matches Some(fc) && fc.cursor_symbol matches Some(s) && s.kind
            == SymbolKind::Test) ==> relevance(c, context, test_w, run_w) == c.priority as nat * (if c.category
            is Test {
            test_w
        } else {
            100
        }) * project_weight(c, context),
        (context.current_file matches Some(fc) && fc.cursor_symbol matches Some(s) && s.kind
            == SymbolKind::Function) ==> relevance(c, context, test_w, run_w) == c.priority as nat * (if c.category
            is Run {
            run_w
        } else {
            100
        }) * project_weight(c, context),
        !(context.current_file matches Some(fc) && fc.cursor_symbol matches Some(s) && (s.kind
            == SymbolKind::Test || s.kind == SymbolKind::Function)) ==> relevance(c, context, test_w, run_w)
            == c.priority as nat * 100 * project_weight(c, context),
{
}

/// Inserts a command after every command at least as relevant.
pub open spec fn insert_relevant(
    s: Seq<CommandView>,
    x: CommandView,
    context: ProjectContext,
    test_w: nat,
    run_w: nat,
) -> Seq<CommandView>
    decreases s.len(),
{
    if s.len() == 0 {
        seq![x]
    } else if relevance(s.last(), context, test_w, run_w) >= relevance(x, context, test_w, run_w) {
        s.push(x)
    } else {
        insert_relevant(s.drop_last(), x, context, test_w, run_w).push(s.last())
    }
}

/// A stable sort by relevance, most relevant first.
pub open spec fn relevance_sort(s: Seq<CommandView>, context: ProjectContext, test_w: nat, run_w: nat) -> Seq<
    CommandView,
>
    decreases s.len(),
{
    if s.len() == 0 {
        seq![]
    } else {
        insert_relevant(relevance_sort(s.drop_last(), context, test_w, run_w), s.last(), context, test_w, run_w)
    }
}

proof fn lemma_insert_relevant_at(
    s: Seq<CommandView>,
    x: CommandView,
    context: ProjectContext,
    tw: nat,
    rw: nat,
    i: int,
)
    requires
        0 <= i <= s.len(),
        forall|j: int| i <= j < s.len() ==> relevance(#[trigger] s[j], context, tw, rw) < relevance(x, context, tw, rw),
        i == 0 || relevance(s[i - 1], context, tw, rw) >= relevance(x, context, tw, rw),
    ensures
        insert_relevant(s, x, context, tw, rw) == s.take(i).push(x) + s.skip(i),
    decreases s.len(),
{
    if s.len() == i {
        if s.len() == 0 {
            assert(s.take(0).push(x) + s.skip(0) =~= seq![x]);
        } else {
            assert(s.last() == s[i - 1]);
            assert(s.take(i).push(x) + s.skip(i) =~= s.push(x));
        }
    } else {
        assert(s.last() == s[s.len() - 1]);
        let d = s.drop_last();
        assert forall|j: int| i <= j < d.len() implies relevance(#[trigger] d[j], context, tw, rw) < relevance(x, context, tw, rw) by {
            assert(d[j] == s[j]);
        }
        if i > 0 {
            assert(d[i - 1] == s[i - 1]);
        }
        lemma_insert_relevant_at(d, x, context, tw, rw, i);
        assert((d.take(i).push(x) + d.skip(i)).push(s.last()) =~= s.take(i).push(x) + s.skip(i));
    }
}

impl SmartFilter {
    /// The commands that the filter keeps, in the order it gives them.
    pub open spec fn filtered(&self, commands: Seq<CommandView>, context: ProjectContext) -> Seq<CommandView> {
        relevance_sort(commands, context, self.test_weight(), self.run_weight())
    }
}

impl CommandFilter for SmartFilter {
    fn filter(&self, commands: Vec<Command>, context: &ProjectContext) -> (r: RazResult<Vec<Command>>)
        ensures
            r is Ok,
            command_views(r->Ok_0@) == self.filtered(command_views(commands@), *context),
    {
        let ghost tw = self.test_weight();
        let ghost rw = self.run_weight();
        let ghost s = command_views(commands@);
        let mut out: Vec<Command> = Vec::new();
        let mut scores: Vec<u64> = Vec::new();
        let ghost n = commands@.len();
        for c in it: commands.into_iter()
            invariant
                it.seq().len() == n,
                s.len() == n,
                forall|j: int| 0 <= j < n ==> #[trigger] s[j] == it.seq()[j]@,
                tw == self.test_weight(),
                rw == self.run_weight(),
                scores@.len() == out@.len(),
                forall|j: int| 0 <= j < out@.len() ==> #[trigger] scores@[j] == relevance(out@[j]@, *context, tw, rw),
                command_views(out@) == relevance_sort(s.take(it.index() as int), *context, tw, rw),
        {
            let ghost k = it.index() as int;
            let ghost cv = command_views(out@);
            let score = self.calculate_relevance_score(&c, context);
            let mut i: usize = out.len();
            while i > 0 && scores[i - 1] < score
                invariant
                    i <= out@.len(),
                    scores@.len() == out@.len(),
                    cv == command_views(out@),
                    score == relevance(c@, *context, tw, rw),
                    forall|j: int| 0 <= j < out@.len() ==> #[trigger] scores@[j] == relevance(out@[j]@, *context, tw, rw),
                    forall|j: int| i <= j < out@.len() ==> relevance(#[trigger] cv[j], *context, tw, rw) < score,
                decreases i,
            {
                assert(cv[i - 1] == out@[i - 1]@);
                i -= 1;
            }
            proof {
                if i > 0 {
                    assert(cv[i - 1] == out@[i - 1]@);
                }
                lemma_insert_relevant_at(cv, c@, *context, tw, rw, i as int);
                assert(s.take(k + 1).drop_last() =~= s.take(k));
                assert(s.take(k + 1).last() == c@);
            }
            let ghost before = out@;
            let ghost before_scores = scores@;
            out.insert(i, c);
            scores.insert(i, score);
            proof {
                assert(command_views(out@) =~= cv.take(i as int).push(c@) + cv.skip(i as int)) by {
                    assert(out@ == before.insert(i as int, c));
                }
                assert forall|j: int| 0 <= j < out@.len() implies #[trigger] scores@[j] == relevance(out@[j]@, *context, tw, rw) by {
                    assert(out@ == before.insert(i as int, c));
                    assert(scores@ == before_scores.insert(i as int, score));
                    if j < i {
                        assert(out@[j] == before[j]);
                    } else if j > i {
                        assert(out@[j] == before[j - 1]);
                    }
                }
            }
        }
        assert(s.take(n as int) =~= s);
        Ok(out)
    }
}

/// The first `i + 1` items of `s` mapped by `f` are the first `i` mapped, then `f(s[i])`.
pub proof fn lemma_map_step(s: Seq<CommandView>, f: spec_fn(CommandView) -> CommandView, i: int)
    requires
        0 <= i < s.len(),
    ensures
        s.take(i + 1).map_values(f) == s.take(i).map_values(f).push(f(s[i])),
{
    assert(s.take(i + 1).map_values(f) =~= s.take(i).map_values(f).push(f(s[i])));
}

/// How `{:?}` writes a symbol kind.
pub open spec fn symbol_kind_name(k: SymbolKind) -> Seq<char> {
    match k {
        SymbolKind::Function => "Function"@,
        SymbolKind::Struct => "Struct"@,
        SymbolKind::Enum => "Enum"@,
        SymbolKind::Trait => "Trait"@,
        SymbolKind::Module => "Module"@,
        SymbolKind::Test => "Test"@,
        SymbolKind::Impl => "Impl"@,
        SymbolKind::Constant => "Constant"@,
        SymbolKind::Static => "Static"@,
        SymbolKind::TypeAlias => "TypeAlias"@,
        SymbolKind::Macro => "Macro"@,
        SymbolKind::Variable => "Variable"@,
    }
}

fn symbol_kind_str(k: SymbolKind) -> (r: &'static str)
    ensures
        r@ == symbol_kind_name(k),
{
    match k {
        SymbolKind::Function => "Function",
        SymbolKind::Struct => "Struct",
        SymbolKind::Enum => "Enum",
        SymbolKind::Trait => "Trait",
        SymbolKind::Module => "Module",
        SymbolKind::Test => "Test",
        SymbolKind::Impl => "Impl",
        SymbolKind::Constant => "Constant",
        SymbolKind::Static => "Static",
        SymbolKind::TypeAlias => "TypeAlias",
        SymbolKind::Macro => "Macro",
        SymbolKind::Variable => "Variable",
    }
}

/// How `{:?}` writes a project type.
pub open spec fn project_type_debug(p: ProjectType) -> Seq<char>
    decreases p,
{
    match p {
        ProjectType::Binary => "Binary"@,
        ProjectType::Library => "Library"@,
        ProjectType::Workspace => "Workspace"@,
        ProjectType::Leptos => "Leptos"@,
        ProjectType::Dioxus => "Dioxus"@,
        ProjectType::Axum => "Axum"@,
        ProjectType::Bevy => "Bevy"@,
        ProjectType::Tauri => "Tauri"@,
        ProjectType::Yew => "Yew"@,
        ProjectType::Mixed(v) => "Mixed(["@ + project_types_debug(v@) + "])"@,
    }
}

/// The `{:?}` forms of a list of project types, separated by `, `.
pub open spec fn project_types_debug(s: Seq<ProjectType>) -> Seq<char>
    decreases s,
{
    if s.len() == 0 {
        seq![]
    } else if s.len() == 1 {
        project_type_debug(s[0])
    } else {
        project_types_debug(s.drop_last()) + ", "@ + project_type_debug(s.last())
    }
}

fn project_type_debug_string(p: &ProjectType) -> (r: String)
    ensures
        r@ == project_type_debug(*p),
    decreases p,
{
    match p {
        ProjectType::Binary => owned("Binary"),
        ProjectType::Library => owned("Library"),
        ProjectType::Workspace => owned("Workspace"),
        ProjectType::Leptos => owned("Leptos"),
        ProjectType::Dioxus => owned("Dioxus"),
        ProjectType::Axum => owned("Axum"),
        ProjectType::Bevy => owned("Bevy"),
        ProjectType::Tauri => owned("Tauri"),
        ProjectType::Yew => owned("Yew"),
        ProjectType::Mixed(v) => {
            let mut r = owned("Mixed([");
            let mut i: usize = 0;
            while i < v.len()
                invariant
                    i <= v@.len(),
                    *p is Mixed,
                    (*p)->Mixed_0 == *v,
                    r@ == "Mixed(["@ + project_types_debug(v@.take(i as int)),
                decreases v.len() - i,
            {
                assert(v@.take(i + 1).drop_last() =~= v@.take(i as int));
                proof {
                    assert(decreases_to!(*p => (*p)->Mixed_0));
                    assert(*v == (*p)->Mixed_0);
                    assert(decreases_to!(*v => v@));
                    assert(decreases_to!(v@ => v@[i as int]));
                    assert(decreases_to!(*p => v@[i as int]));
                }
                let item = project_type_debug_string(&v[i]);
                if i > 0 {
                    r.append(", ");
                }
                r.append(item.as_str());
                assert(r@ == "Mixed(["@ + project_types_debug(v@.take(i + 1)));
                i += 1;
            }
            assert(v@.take(v@.len() as int) =~= v@);
            r.append("])");
            r
        },
    }
}

/// Conditions for filter rules.
#[derive(Debug)]
pub enum RuleCondition {
    /// Project has specific type
    ProjectType(String),
    /// File extension matches
    FileExtension(String),
    /// Cursor is in specific context
    CursorContext(String),
    /// Project has dependency
    HasDependency(String),
    /// Time of day condition: the hour is within `start..=end`
    TimeOfDay { start: u8, end: u8 },
    /// Custom expression
    Expression(String),
}

/// When a rule condition holds, at the given hour of the local time.
pub open spec fn rule_condition_met(c: RuleCondition, context: ProjectContext, hour: u8) -> bool {
    match c {
        RuleCondition::ProjectType(t) => ascii_lower(project_type_debug(context.project_type))
            == lowercase(t@),
        RuleCondition::FileExtension(ext) => match context.current_file {
            Some(fc) => extension(fc.path@) == Some(ext@),
            None => false,
        },
        RuleCondition::CursorContext(kind) => match context.current_file {
            Some(fc) => match fc.cursor_symbol {
                Some(sym) => ascii_lower(symbol_kind_name(sym.kind)) == lowercase(kind@),
                None => false,
            },
            None => false,
        },
        RuleCondition::HasDependency(dep) => has_dependency_named(context, dep@),
        RuleCondition::TimeOfDay { start, end } => start <= hour && hour <= end,
        RuleCondition::Expression(_) => false,
    }
}

/// The hour of the local time (`chrono::Local::now().hour()`), which chrono
/// documents as lying in 0 to 23.
#[verifier::external_body]
fn local_hour() -> (h: u8)
    ensures
        h < 24,
{
    chrono::Local::now().hour() as u8
}

/// Lowercases text that is known to be ASCII.
fn lower_ascii_text(s: &str) -> (r: String)
    requires
        is_ascii_seq(s@),
    ensures
        r@ == ascii_lower(s@),
{
    to_lowercase(s)
}

proof fn lemma_project_type_debug_ascii(p: ProjectType)
    ensures
        is_ascii_seq(project_type_debug(p)),
    decreases p,
{
    reveal_strlit("Binary");
    reveal_strlit("Library");
    reveal_strlit("Workspace");
    reveal_strlit("Leptos");
    reveal_strlit("Dioxus");
    reveal_strlit("Axum");
    reveal_strlit("Bevy");
    reveal_strlit("Tauri");
    reveal_strlit("Yew");
    reveal_strlit("Mixed([");
    reveal_strlit("])");
    if let ProjectType::Mixed(v) = p {
        lemma_project_types_debug_ascii(v@);
    }
}

proof fn lemma_project_types_debug_ascii(s: Seq<ProjectType>)
    ensures
        is_ascii_seq(project_types_debug(s)),
    decreases s,
{
    reveal_strlit(", ");
    if s.len() == 1 {
        lemma_project_type_debug_ascii(s[0]);
    } else if s.len() > 1 {
        lemma_project_types_debug_ascii(s.drop_last());
        lemma_project_type_debug_ascii(s.last());
    }
}

proof fn lemma_symbol_kind_name_ascii(k: SymbolKind)
    ensures
        is_ascii_seq(symbol_kind_name(k)),
{
    reveal_strlit("Function");
    reveal_strlit("Struct");
    reveal_strlit("Enum");
    reveal_strlit("Trait");
    reveal_strlit("Module");
    reveal_strlit("Test");
    reveal_strlit("Impl");
    reveal_strlit("Constant");
    reveal_strlit("Static");
    reveal_strlit("TypeAlias");
    reveal_strlit("Macro");
    reveal_strlit("Variable");
}

impl RuleCondition {
    /// Whether the condition holds at the given hour of the local time.
    pub fn is_met_at(&self, context: &ProjectContext, hour: u8) -> (r: bool)
        ensures
            r == rule_condition_met(*self, *context, hour),
    {
        match self {
            RuleCondition::ProjectType(t) => {
                let name = project_type_debug_string(&context.project_type);
                proof {
                    lemma_project_type_debug_ascii(context.project_type);
                }
                let a = lower_ascii_text(name.as_str());
                let b = to_lowercase(t.as_str());
                str_eq(a.as_str(), b.as_str())
            },
            RuleCondition::FileExtension(ext) => match &context.current_file {
                Some(fc) => match path_extension(fc.path.as_str()) {
                    Some(e) => str_eq(e.as_str(), ext.as_str()),
                    None => false,
                },
                None => false,
            },
            RuleCondition::CursorContext(kind) => match &context.current_file {
                Some(fc) => match &fc.cursor_symbol {
                    Some(sym) => {
                        proof {
                            lemma_symbol_kind_name_ascii(sym.kind);
                        }
                        let a = lower_ascii_text(symbol_kind_str(sym.kind));
                        let b = to_lowercase(kind.as_str());
                        str_eq(a.as_str(), b.as_str())
                    },
                    None => false,
                },
                None => false,
            },
            RuleCondition::HasDependency(dep) => has_dependency(context, dep.as_str()),
            RuleCondition::TimeOfDay { start, end } => *start <= hour && hour <= *end,
            RuleCondition::Expression(_) => false,
        }
    }

    /// Whether the condition holds now. Only a time-of-day condition reads the clock.
    pub fn is_met(&self, context: &ProjectContext) -> (r: bool)
        ensures
            exists|h: u8| h < 24 && r == rule_condition_met(*self, *context, h),
            !(self is TimeOfDay) ==> r == rule_condition_met(*self, *context, 0),
    {
        let hour: u8 = match self {
            RuleCondition::TimeOfDay { .. } => local_hour(),
            _ => 0,
        };
        let r = self.is_met_at(context, hour);
        assert(hour < 24 && r == rule_condition_met(*self, *context, hour));
        r
    }
}

/// Actions for filter rules.
#[derive(Debug)]
pub enum RuleAction {
    /// Boost priority of commands matching pattern
    BoostPriority { pattern: String, boost: u8 },
    /// Filter by category
    FilterCategory(String),
    /// Limit number of commands
    Limit(usize),
    /// Add tag to matching commands
    AddTag { pattern: String, tag: String },
    /// Remove commands matching pattern
    Remove(String),
    /// Reorder by custom criteria
    Reorder(String),
}

/// A command matches a pattern when its id or its label contains it.
pub open spec fn matches_pattern(c: CommandView, pattern: Seq<char>) -> bool {
    has_sub(c.id@, pattern) || has_sub(c.label@, pattern)
}

pub open spec fn boosted(pattern: Seq<char>, boost: u8) -> spec_fn(CommandView) -> CommandView {
    |c: CommandView| if matches_pattern(c, pattern) {
        CommandView { priority: c.priority.saturating_add(boost), ..c }
    } else {
        c
    }
}

pub open spec fn tagged(pattern: Seq<char>, tag: String) -> spec_fn(CommandView) -> CommandView {
    |c: CommandView| if matches_pattern(c, pattern) && !views(c.tags).contains(tag@) {
        CommandView { tags: c.tags.push(tag), ..c }
    } else {
        c
    }
}

pub open spec fn in_category(name: Seq<char>) -> spec_fn(CommandView) -> bool {
    |c: CommandView| category_name(c.category) == name
}

pub open spec fn not_matching(pattern: Seq<char>) -> spec_fn(CommandView) -> bool {
    |c: CommandView| !has_sub(c.id@, pattern) && !has_sub(c.label@, pattern)
}

/// The commands after an action.
pub open spec fn action_result(a: RuleAction, s: Seq<CommandView>) -> Seq<CommandView> {
    match a {
        RuleAction::BoostPriority { pattern, boost } => s.map_values(boosted(pattern@, boost)),
        RuleAction::FilterCategory(category) => s.filter(in_category(category@)),
        RuleAction::Limit(max) => first_n(s, max as nat),
        RuleAction::AddTag { pattern, tag } => s.map_values(tagged(pattern@, tag)),
        RuleAction::Remove(pattern) => s.filter(not_matching(pattern@)),
        RuleAction::Reorder(_) => s,
    }
}

fn matches_pattern_exec(c: &Command, pattern: &str) -> (r: bool)
    ensures
        r == matches_pattern(c@, pattern@),
{
    str_contains(c.id.as_str(), pattern) || str_contains(c.label.as_str(), pattern)
}

impl RuleAction {
    pub fn apply(&self, commands: Vec<Command>, context: &ProjectContext) -> (r: RazResult<Vec<Command>>)
        ensures
            r is Ok,
            command_views(r->Ok_0@) == action_result(*self, command_views(commands@)),
    {
        let ghost s = command_views(commands@);
        let ghost n = commands@.len();
        match self {
            RuleAction::BoostPriority { pattern, boost } => {
                let ghost f = boosted(pattern@, *boost);
                let mut out: Vec<Command> = Vec::new();
                for c in it: commands.into_iter()
                    invariant
                        it.seq().len() == n,
                        s.len() == n,
                        forall|j: int| 0 <= j < n ==> #[trigger] s[j] == it.seq()[j]@,
                        f == boosted(pattern@, *boost),
                        command_views(out@) == s.take(it.index() as int).map_values(f),
                {
                    let ghost i = it.index() as int;
                    proof {
                        lemma_map_step(s, f, i);
                    }
                    let mut c = c;
                    if matches_pattern_exec(&c, pattern.as_str()) {
                        c.priority = c.priority.saturating_add(*boost);
                    }
                    let ghost before = out@;
                    out.push(c);
                    proof {
                        lemma_views_push(before, out@.last());
                        assert(out@ == before.push(out@.last()));
                    }
                }
                proof {
                    assert(s.take(n as int) =~= s);
                }
                Ok(out)
            },
            RuleAction::FilterCategory(category) => {
                let ghost p = in_category(category@);
                let mut out: Vec<Command> = Vec::new();
                for c in it: commands.into_iter()
                    invariant
                        it.seq().len() == n,
                        s.len() == n,
                        forall|j: int| 0 <= j < n ==> #[trigger] s[j] == it.seq()[j]@,
                        p == in_category(category@),
                        command_views(out@) == s.take(it.index() as int).filter(p),
                {
                    let ghost i = it.index() as int;
                    proof {
                        lemma_filter_step(s, p, i);
                    }
                    if str_eq(c.category.as_str(), category.as_str()) {
                        let ghost before = out@;
                        out.push(c);
                        proof {
                            lemma_views_push(before, out@.last());
                            assert(out@ == before.push(out@.last()));
                        }
                    }
                }
                proof {
                    assert(s.take(n as int) =~= s);
                }
                Ok(out)
            },
            RuleAction::Limit(max) => Ok(truncate_commands(commands, *max)),
            RuleAction::AddTag { pattern, tag } => {
                let ghost f = tagged(pattern@, *tag);
                let mut out: Vec<Command> = Vec::new();
                for c in it: commands.into_iter()
                    invariant
                        it.seq().len() == n,
                        s.len() == n,
                        forall|j: int| 0 <= j < n ==> #[trigger] s[j] == it.seq()[j]@,
                        f == tagged(pattern@, *tag),
                        command_views(out@) == s.take(it.index() as int).map_values(f),
                {
                    let ghost i = it.index() as int;
                    proof {
                        lemma_map_step(s, f, i);
                    }
                    let mut c = c;
                    if matches_pattern_exec(&c, pattern.as_str())
                        && !crate::commands::strings_contain(&c.tags, tag.as_str()) {
                        c.tags.push(tag.clone());
                    }
                    let ghost before = out@;
                    out.push(c);
                    proof {
                        lemma_views_push(before, out@.last());
                        assert(out@ == before.push(out@.last()));
                    }
                }
                proof {
                    assert(s.take(n as int) =~= s);
                }
                Ok(out)
            },
            RuleAction::Remove(pattern) => {
                let ghost p = not_matching(pattern@);
                let mut out: Vec<Command> = Vec::new();
                for c in it: commands.into_iter()
                    invariant
                        it.seq().len() == n,
                        s.len() == n,
                        forall|j: int| 0 <= j < n ==> #[trigger] s[j] == it.seq()[j]@,
                        p == not_matching(pattern@),
                        command_views(out@) == s.take(it.index() as int).filter(p),
                {
                    let ghost i = it.index() as int;
                    proof {
                        lemma_filter_step(s, p, i);
                    }
                    if !str_contains(c.id.as_str(), pattern.as_str()) && !str_contains(
                        c.label.as_str(),
                        pattern.as_str(),
                    ) {
                        let ghost before = out@;
                        out.push(c);
                        proof {
                            lemma_views_push(before, out@.last());
                            assert(out@ == before.push(out@.last()));
                        }
                    }
                }
                proof {
                    assert(s.take(n as int) =~= s);
                }
                Ok(out)
            },
            RuleAction::Reorder(_) => Ok(commands),
        }
    }
}

/// Custom filter rule with conditions and actions.
#[derive(Debug)]
pub struct FilterRule {
    pub name: String,
    pub conditions: Vec<RuleCondition>,
    pub actions: Vec<RuleAction>,
    pub enabled: bool,
}

/// A rule takes effect when it is enabled and all its conditions hold.
pub open spec fn rule_in_effect(rule: FilterRule, context: ProjectContext, hour: u8) -> bool {
    rule.enabled && forall|i: int|
        0 <= i < rule.conditions@.len() ==> rule_condition_met(
            #[trigger] rule.conditions@[i],
            context,
            hour,
        )
}

/// The commands after the actions, applied in order.
pub open spec fn actions_result(actions: Seq<RuleAction>, s: Seq<CommandView>) -> Seq<CommandView>
    decreases actions.len(),
{
    if actions.len() == 0 {
        s
    } else {
        action_result(actions.last(), actions_result(actions.drop_last(), s))
    }
}

/// The commands after a rule, at the given hour.
pub open spec fn rule_result(
    rule: FilterRule,
    s: Seq<CommandView>,
    context: ProjectContext,
    hour: u8,
) -> Seq<CommandView> {
    if rule_in_effect(rule, context, hour) {
        actions_result(rule.actions@, s)
    } else {
        s
    }
}

impl FilterRule {
    /// Applies the rule as it stands at the given hour of the local time.
    pub fn apply_at(&self, commands: Vec<Command>, context: &ProjectContext, hour: u8) -> (r: RazResult<Vec<Command>>)
        ensures
            r is Ok,
            command_views(r->Ok_0@) == rule_result(*self, command_views(commands@), *context, hour),
    {
        if !self.enabled {
            return Ok(commands);
        }
        let mut i: usize = 0;
        while i < self.conditions.len()
            invariant
                i <= self.conditions@.len(),
                forall|j: int| 0 <= j < i ==> rule_condition_met(#[trigger] self.conditions@[j], *context, hour),
            decreases self.conditions.len() - i,
        {
            if !self.conditions[i].is_met_at(context, hour) {
                return Ok(commands);
            }
            i += 1;
        }
        let ghost s = command_views(commands@);
        let mut cmds = commands;
        let mut k: usize = 0;
        while k < self.actions.len()
            invariant
                k <= self.actions@.len(),
                command_views(cmds@) == actions_result(self.actions@.take(k as int), s),
            decreases self.actions.len() - k,
        {
            assert(self.actions@.take(k + 1).drop_last() =~= self.actions@.take(k as int));
            let r = self.actions[k].apply(cmds, context);
            cmds = match r {
                Ok(v) => v,
                Err(e) => {
                    return Err(e);
                },
            };
            k += 1;
        }
        assert(self.actions@.take(self.actions@.len() as int) =~= self.actions@);
        Ok(cmds)
    }

    /// Applies the rule as it stands now: the clock is read once, for all
    /// time-of-day conditions.
    pub fn apply(&self, commands: Vec<Command>, context: &ProjectContext) -> (r: RazResult<Vec<Command>>)
        ensures
            r is Ok,
            exists|h: u8|
                h < 24 && command_views(r->Ok_0@) == rule_result(
                    *self,
                    command_views(commands@),
                    *context,
                    h,
                ),
    {
        let ghost s = command_views(commands@);
        let hour = local_hour();
        let r = self.apply_at(commands, context, hour);
        assert(hour < 24 && command_views(r->Ok_0@) == rule_result(*self, s, *context, hour));
        r
    }
}

/// A rule that is disabled, or one of whose conditions fails, leaves the
/// commands as they are; a disabled rule does so at every hour, so `apply`
/// returns its input unchanged.
pub proof fn lemma_rule_out_of_effect(
    rule: FilterRule,
    s: Seq<CommandView>,
    context: ProjectContext,
    hour: u8,
    k: int,
)
    requires
        !rule.enabled || (0 <= k < rule.conditions@.len() && !rule_condition_met(
            rule.conditions@[k],
            context,
            hour,
        )),
    ensures
        rule_result(rule, s, context, hour) == s,
        !rule.enabled ==> forall|h: u8| #[trigger] rule_result(rule, s, context, h) == s,
{
}

/// A rule in effect applies its actions in order: the first action, then
/// the rest to what it gave.
pub proof fn lemma_rule_actions_in_order(actions: Seq<RuleAction>, s: Seq<CommandView>)
    requires
        actions.len() > 0,
    ensures
        actions_result(actions, s) == actions_result(actions.drop_first(), action_result(actions[0], s)),
    decreases actions.len(),
{
    if actions.len() > 1 {
        let d = actions.drop_last();
        lemma_rule_actions_in_order(d, s);
        let r = actions.drop_first();
        let x = action_result(actions[0], s);
        assert(d.drop_first() =~= r.drop_last());
        assert(d[0] == actions[0]);
        assert(r.last() == actions.last());
        assert(actions_result(r, x) == action_result(r.last(), actions_result(r.drop_last(), x)));
        assert(actions_result(actions, s) == action_result(actions.last(), actions_result(d, s)));
        assert(actions_result(d, s) == actions_result(r.drop_last(), x));
    } else {
        let x = action_result(actions[0], s);
        assert(actions.drop_first() =~= Seq::<RuleAction>::empty());
        assert(actions.drop_last() =~= Seq::<RuleAction>::empty());
        assert(actions_result(actions.drop_first(), x) == x);
        assert(actions_result(actions.drop_last(), s) == s);
        assert(actions.last() == actions[0]);
    }
}

/// `a` comes before `b` in the order of `str`: at the first position where
/// they differ `a` has the smaller character, or `a` is a proper prefix of `b`.
pub open spec fn text_lt(a: Seq<char>, b: Seq<char>) -> bool {
    exists|k: int|
        0 <= k <= a.len() && k <= b.len() && #[trigger] a.take(k) == b.take(k) && ((k == a.len()
            && k < b.len()) || (k < a.len() && k < b.len() && (a[k] as u32) < (b[k] as u32)))
}

/// The order of `str` on two strings.
pub fn text_less(a: &str, b: &str) -> (r: bool)
    ensures
        r == text_lt(a@, b@),
{
    let x = crate::text::chars_of(a);
    let y = crate::text::chars_of(b);
    let mut k: usize = 0;
    while k < x.len() && k < y.len() && x[k] == y[k]
        invariant
            x@ == a@,
            y@ == b@,
            k <= x@.len(),
            k <= y@.len(),
            x@.take(k as int) == y@.take(k as int),
        decreases x.len() - k,
    {
        assert(x@.take(k + 1) =~= x@.take(k as int).push(x@[k as int]));
        assert(y@.take(k + 1) =~= y@.take(k as int).push(y@[k as int]));
        k += 1;
    }
    let r = if k == x.len() {
        k < y.len()
    } else if k == y.len() {
        false
    } else {
        (x[k] as u32) < (y[k] as u32)
    };
    proof {
        let a_ = a@;
        let b_ = b@;
        if r {
            assert(a_.take(k as int) == b_.take(k as int));
        } else if text_lt(a_, b_) {
            let m = choose|m: int|
                0 <= m <= a_.len() && m <= b_.len() && #[trigger] a_.take(m) == b_.take(m) && ((m
                    == a_.len() && m < b_.len()) || (m < a_.len() && m < b_.len() && (a_[m] as u32)
                    < (b_[m] as u32)));
            if m < k {
                assert(a_.take(k as int)[m] == b_.take(k as int)[m]);
            } else if m > k {
                assert(a_.take(m)[k as int] == b_.take(m)[k as int]);
            }
        }
    }
    r
}

/// `a` goes before `b` when commands are listed: higher priority first,
/// then by label.
pub open spec fn goes_before(a: CommandView, b: CommandView) -> bool {
    a.priority > b.priority || (a.priority == b.priority && text_lt(a.label@, b.label@))
}

fn goes_before_exec(a: &Command, b: &Command) -> (r: bool)
    ensures
        r == goes_before(a@, b@),
{
    a.priority > b.priority || (a.priority == b.priority && text_less(
        a.label.as_str(),
        b.label.as_str(),
    ))
}

/// Where `x` goes in the list `s`: before the first item it goes before.
pub open spec fn insert_pos(s: Seq<CommandView>, x: CommandView) -> int
    decreases s.len(),
{
    if s.len() == 0 {
        0
    } else if goes_before(x, s[0]) {
        0
    } else {
        1 + insert_pos(s.drop_first(), x)
    }
}

/// A stable sort of commands by `goes_before`: each command, in order, is
/// placed after every command that does not come after it.
pub open spec fn priority_sort(s: Seq<CommandView>) -> Seq<CommandView>
    decreases s.len(),
{
    if s.len() == 0 {
        s
    } else {
        let t = priority_sort(s.drop_last());
        t.insert(insert_pos(t, s.last()), s.last())
    }
}

proof fn lemma_insert_pos_at(s: Seq<CommandView>, x: CommandView, j: int)
    requires
        0 <= j <= s.len(),
        forall|k: int| 0 <= k < j ==> !goes_before(x, #[trigger] s[k]),
        j == s.len() || goes_before(x, s[j]),
    ensures
        insert_pos(s, x) == j,
    decreases j,
{
    if j > 0 {
        assert(!goes_before(x, s[0]));
        let t = s.drop_first();
        assert forall|k: int| 0 <= k < j - 1 implies !goes_before(x, #[trigger] t[k]) by {
            assert(t[k] == s[k + 1]);
        }
        if j < s.len() {
            assert(t[j - 1] == s[j]);
        }
        lemma_insert_pos_at(t, x, j - 1);
    }
}

/// Sorts commands by priority (descending), then by label; commands that
/// compare equal keep their order.
pub fn sort_by_priority(commands: Vec<Command>) -> (r: Vec<Command>)
    ensures
        command_views(r@) == priority_sort(command_views(commands@)),
{
    let ghost s = command_views(commands@);
    let ghost n = commands@.len();
    let mut out: Vec<Command> = Vec::new();
    for c in it: commands.into_iter()
        invariant
            it.seq().len() == n,
            s.len() == n,
            forall|j: int| 0 <= j < n ==> #[trigger] s[j] == it.seq()[j]@,
            command_views(out@) == priority_sort(s.take(it.index() as int)),
    {
        let ghost i = it.index() as int;
        let ghost t = command_views(out@);
        proof {
            assert(s.take(i + 1).drop_last() =~= s.take(i));
            assert(s.take(i + 1).last() == s[i]);
            assert(c@ == s[i]);
        }
        let mut j: usize = 0;
        while j < out.len() && !goes_before_exec(&c, &out[j])
            invariant
                j <= out@.len(),
                t == command_views(out@),
                forall|k: int| 0 <= k < j ==> !goes_before(c@, #[trigger] t[k]),
            decreases out.len() - j,
        {
            assert(t[j as int] == out@[j as int]@);
            j += 1;
        }
        proof {
            if j < out.len() {
                assert(t[j as int] == out@[j as int]@);
            }
            lemma_insert_pos_at(t, c@, j as int);
        }
        let ghost before = out@;
        out.insert(j, c);
        proof {
            assert(command_views(out@) =~= t.insert(j as int, s[i]));
        }
    }
    proof {
        assert(s.take(n as int) =~= s);
    }
    out
}

/// The filters that the engine can run.
pub enum AnyFilter {
    Condition(ConditionFilter),
    Category(CategoryFilter),
    Priority(PriorityFilter),
    Duplicate(DuplicateFilter),
    Tag(TagFilter),
    Limit(LimitFilter),
    Smart(SmartFilter),
    /// A filter of the library's user.
    Custom(Box<dyn CommandFilter>),
}

impl AnyFilter {
    /// What a filter of the library keeps. Of a filter of the user nothing
    /// is known: it stands here as keeping all, and the contracts that
    /// speak of it leave such filters out.
    pub open spec fn filtered(&self, commands: Seq<CommandView>, context: ProjectContext) -> Seq<CommandView> {
        match self {
            AnyFilter::Condition(f) => f.filtered(commands, context),
            AnyFilter::Category(f) => f.filtered(commands, context),
            AnyFilter::Priority(f) => f.filtered(commands, context),
            AnyFilter::Duplicate(f) => f.filtered(commands, context),
            AnyFilter::Tag(f) => f.filtered(commands, context),
            AnyFilter::Limit(f) => f.filtered(commands, context),
            AnyFilter::Smart(f) => f.filtered(commands, context),
            AnyFilter::Custom(_) => commands,
        }
    }
}

impl CommandFilter for AnyFilter {
    fn filter(&self, commands: Vec<Command>, context: &ProjectContext) -> (r: RazResult<Vec<Command>>)
        ensures
            !(self is Custom) ==> r is Ok && command_views(r->Ok_0@) == self.filtered(
                command_views(commands@),
                *context,
            ),
    {
        match self {
            AnyFilter::Condition(f) => f.filter(commands, context),
            AnyFilter::Category(f) => f.filter(commands, context),
            AnyFilter::Priority(f) => f.filter(commands, context),
            AnyFilter::Duplicate(f) => f.filter(commands, context),
            AnyFilter::Tag(f) => f.filter(commands, context),
            AnyFilter::Limit(f) => f.filter(commands, context),
            AnyFilter::Smart(f) => f.filter(commands, context),
            AnyFilter::Custom(f) => f.filter(commands, context),
        }
    }
}

/// Some filter is one of the library's user.
pub open spec fn has_user_filter(filters: Seq<AnyFilter>) -> bool {
    exists|i: int| 0 <= i < filters.len() && #[trigger] filters[i] is Custom
}

/// The commands after the filters, applied in order.
pub open spec fn filters_result(
    filters: Seq<AnyFilter>,
    s: Seq<CommandView>,
    context: ProjectContext,
) -> Seq<CommandView>
    decreases filters.len(),
{
    if filters.len() == 0 {
        s
    } else {
        filters.last().filtered(filters_result(filters.drop_last(), s, context), context)
    }
}

/// The commands after the rules, applied in order, at the given hour.
pub open spec fn rules_result(
    rules: Seq<FilterRule>,
    s: Seq<CommandView>,
    context: ProjectContext,
    hour: u8,
) -> Seq<CommandView>
    decreases rules.len(),
{
    if rules.len() == 0 {
        s
    } else {
        rule_result(rules.last(), rules_result(rules.drop_last(), s, context, hour), context, hour)
    }
}

/// Engine for filtering and prioritizing commands.
pub struct FilterEngine {
    filters: Vec<AnyFilter>,
    rules: Vec<FilterRule>,
}

/// What the engine gives for the commands `s` at the given hour: the filters,
/// then the rules, then the sort by priority and label.
pub open spec fn engine_result(
    filters: Seq<AnyFilter>,
    rules: Seq<FilterRule>,
    s: Seq<CommandView>,
    context: ProjectContext,
    hour: u8,
) -> Seq<CommandView> {
    priority_sort(rules_result(rules, filters_result(filters, s, context), context, hour))
}

impl FilterEngine {
    pub closed spec fn filters(&self) -> Seq<AnyFilter> {
        self.filters@
    }

    pub closed spec fn rules(&self) -> Seq<FilterRule> {
        self.rules@
    }

    /// An engine with the standard filters (category, priority, conditions,
    /// duplicates, tags), none of which removes anything by itself but
    /// unmet conditions and repeated command lines, and no rules. Its
    /// condition filter knows of no file and no platform (see
    /// `ConditionFilter::new`): every condition on a file, a file pattern or
    /// the platform is unmet. To judge them against the project's files, read
    /// those first and use `with_facts`.
    pub fn new() -> (r: Self)
        ensures
            r.filters().len() == 5,
            r.filters()[0] matches AnyFilter::Category(f) && f.excluded() == Set::<Seq<char>>::empty(),
            r.filters()[1] matches AnyFilter::Priority(f) && f.min_priority == 0,
            r.filters()[2] matches AnyFilter::Condition(f) && f.facts().existing_paths@.len() == 0
                && f.facts().matched_patterns@.len() == 0 && f.facts().file_contents@.len() == 0
                && forall|c: Condition, context: ProjectContext|
                (c is FileExists || c is FilePattern || c is Platform) ==> !#[trigger] condition_met(
                    c,
                    context,
                    f.facts(),
                ),
            r.filters()[3] is Duplicate,
            r.filters()[4] matches AnyFilter::Tag(f) && f.required() == Set::<Seq<char>>::empty()
                && f.excluded() == Set::<Seq<char>>::empty(),
            r.rules().len() == 0,
    {
        FilterEngine::with_condition_filter(ConditionFilter::new())
    }

    /// The standard engine, with conditions checked against the given facts.
    pub fn with_facts(facts: FileFacts) -> (r: Self)
        ensures
            r.filters().len() == 5,
            r.filters()[0] matches AnyFilter::Category(f) && f.excluded() == Set::<Seq<char>>::empty(),
            r.filters()[1] matches AnyFilter::Priority(f) && f.min_priority == 0,
            r.filters()[2] matches AnyFilter::Condition(f) && f.facts() == facts,
            r.filters()[3] is Duplicate,
            r.filters()[4] matches AnyFilter::Tag(f) && f.required() == Set::<Seq<char>>::empty()
                && f.excluded() == Set::<Seq<char>>::empty(),
            r.rules().len() == 0,
    {
        FilterEngine::with_condition_filter(ConditionFilter::with_facts(facts))
    }

    fn with_condition_filter(condition: ConditionFilter) -> (r: Self)
        ensures
            r.filters().len() == 5,
            r.filters()[0] matches AnyFilter::Category(f) && f.excluded() == Set::<Seq<char>>::empty(),
            r.filters()[1] matches AnyFilter::Priority(f) && f.min_priority == 0,
            r.filters()[2] == AnyFilter::Condition(condition),
            r.filters()[3] is Duplicate,
            r.filters()[4] matches AnyFilter::Tag(f) && f.required() == Set::<Seq<char>>::empty()
                && f.excluded() == Set::<Seq<char>>::empty(),
            r.rules().len() == 0,
    {
        let mut filters: Vec<AnyFilter> = Vec::new();
        filters.push(AnyFilter::Category(CategoryFilter::new()));
        filters.push(AnyFilter::Priority(PriorityFilter::new()));
        filters.push(AnyFilter::Condition(condition));
        filters.push(AnyFilter::Duplicate(DuplicateFilter::new()));
        filters.push(AnyFilter::Tag(TagFilter::new()));
        FilterEngine { filters, rules: Vec::new() }
    }

    /// Applies the filters, then the rules as they stand at the given hour,
    /// then sorts by priority (descending) and label.
    /// Only a filter of the user can fail, and its error is returned; with
    /// none, the result is that of the filters, rules and sort.
    pub fn apply_filters_at(&self, commands: &[Command], context: &ProjectContext, hour: u8) -> (r: RazResult<Vec<Command>>)
        ensures
            !has_user_filter(self.filters()) ==> r is Ok && command_views(r->Ok_0@) == engine_result(
                self.filters(),
                self.rules(),
                command_views(commands@),
                *context,
                hour,
            ),
            r is Err ==> has_user_filter(self.filters()),
    {
        let ghost s = command_views(commands@);
        let mut cmds: Vec<Command> = Vec::new();
        let mut i: usize = 0;
        while i < commands.len()
            invariant
                i <= commands@.len(),
                s == command_views(commands@),
                command_views(cmds@) == s.take(i as int),
            decreases commands.len() - i,
        {
            let ghost before = cmds@;
            cmds.push(commands[i].clone());
            proof {
                lemma_views_push(before, cmds@.last());
                assert(cmds@ == before.push(cmds@.last()));
                assert(s.take(i + 1) =~= s.take(i as int).push(s[i as int]));
            }
            i += 1;
        }
        assert(s.take(commands@.len() as int) =~= s);
        let mut k: usize = 0;
        while k < self.filters.len()
            invariant
                k <= self.filters@.len(),
                !has_user_filter(self.filters@.take(k as int)) ==> command_views(cmds@)
                    == filters_result(self.filters@.take(k as int), s, *context),
            decreases self.filters.len() - k,
        {
            assert(self.filters@.take(k + 1).drop_last() =~= self.filters@.take(k as int));
            proof {
                if !has_user_filter(self.filters@.take(k + 1)) {
                    assert(!(self.filters@.take(k + 1)[k as int] is Custom));
                    assert forall|j: int| 0 <= j < k implies !(#[trigger] self.filters@.take(k as int)[j] is Custom) by {
                        assert(self.filters@.take(k as int)[j] == self.filters@.take(k + 1)[j]);
                    }
                }
            }
            let r = self.filters[k].filter(cmds, context);
            cmds = match r {
                Ok(v) => v,
                Err(e) => {
                    assert(self.filters()[k as int] is Custom);
                    return Err(e);
                },
            };
            k += 1;
        }
        assert(self.filters@.take(self.filters@.len() as int) =~= self.filters@);
        let ghost after_filters = command_views(cmds@);
        let mut k: usize = 0;
        while k < self.rules.len()
            invariant
                k <= self.rules@.len(),
                !has_user_filter(self.filters@) ==> after_filters == filters_result(self.filters@, s, *context),
                command_views(cmds@) == rules_result(
                    self.rules@.take(k as int),
                    after_filters,
                    *context,
                    hour,
                ),
            decreases self.rules.len() - k,
        {
            assert(self.rules@.take(k + 1).drop_last() =~= self.rules@.take(k as int));
            let r = self.rules[k].apply_at(cmds, context, hour);
            cmds = match r {
                Ok(v) => v,
                Err(e) => {
                    return Err(e);
                },
            };
            k += 1;
        }
        assert(self.rules@.take(self.rules@.len() as int) =~= self.rules@);
        Ok(sort_by_priority(cmds))
    }

    /// Applies all filters, then the rules as they stand now (the clock is
    /// read once), then sorts by priority (descending) and label.
    /// Only a filter of the user can fail, and its error is returned; with
    /// none, the result is that of the filters, rules and sort at some hour.
    pub fn apply_filters(&self, commands: &[Command], context: &ProjectContext) -> (r: RazResult<Vec<Command>>)
        ensures
            !has_user_filter(self.filters()) ==> r is Ok && exists|h: u8|
                h < 24 && command_views(r->Ok_0@) == engine_result(
                    self.filters(),
                    self.rules(),
                    command_views(commands@),
                    *context,
                    h,
                ),
            r is Err ==> has_user_filter(self.filters()),
    {
        let hour = local_hour();
        let r = self.apply_filters_at(commands, context, hour);
        proof {
            if !has_user_filter(self.filters()) {
                assert(hour < 24 && command_views(r->Ok_0@) == engine_result(
                    self.filters(),
                    self.rules(),
                    command_views(commands@),
                    *context,
                    hour,
                ));
            }
        }
        r
    }

    /// Add a filter, run after the others.
    pub fn add_filter(&mut self, filter: AnyFilter)
        ensures
            final(self).filters() == old(self).filters().push(filter),
            final(self).rules() == old(self).rules(),
    {
        self.filters.push(filter);
    }

    /// Add a rule, run after the others.
    pub fn add_rule(&mut self, rule: FilterRule)
        ensures
            final(self).rules() == old(self).rules().push(rule),
            final(self).filters() == old(self).filters(),
    {
        self.rules.push(rule);
    }
}

/// The order of text is a strict order: never both ways, and transitive.
pub proof fn lemma_text_lt_strict(a: Seq<char>, b: Seq<char>, c: Seq<char>)
    ensures
        !(text_lt(a, b) && text_lt(b, a)),
        text_lt(a, b) && text_lt(b, c) ==> text_lt(a, c),
{
    if text_lt(a, b) && text_lt(b, a) {
        let k1 = choose|k: int|
            0 <= k <= a.len() && k <= b.len() && #[trigger] a.take(k) == b.take(k) && ((k == a.len()
                && k < b.len()) || (k < a.len() && k < b.len() && (a[k] as u32) < (b[k] as u32)));
        let k2 = choose|k: int|
            0 <= k <= b.len() && k <= a.len() && #[trigger] b.take(k) == a.take(k) && ((k == b.len()
                && k < a.len()) || (k < b.len() && k < a.len() && (b[k] as u32) < (a[k] as u32)));
        if k1 < k2 {
            assert(a.take(k2)[k1] == b.take(k2)[k1]);
        } else if k2 < k1 {
            assert(a.take(k1)[k2] == b.take(k1)[k2]);
        }
    }
    if text_lt(a, b) && text_lt(b, c) {
        let k1 = choose|k: int|
            0 <= k <= a.len() && k <= b.len() && #[trigger] a.take(k) == b.take(k) && ((k == a.len()
                && k < b.len()) || (k < a.len() && k < b.len() && (a[k] as u32) < (b[k] as u32)));
        let k2 = choose|k: int|
            0 <= k <= b.len() && k <= c.len() && #[trigger] b.take(k) == c.take(k) && ((k == b.len()
                && k < c.len()) || (k < b.len() && k < c.len() && (b[k] as u32) < (c[k] as u32)));
        if k1 < k2 {
            assert(b.take(k2)[k1] == c.take(k2)[k1]);
            assert(a.take(k1) =~= c.take(k1)) by {
                assert forall|i: int| 0 <= i < k1 implies a.take(k1)[i] == c.take(k1)[i] by {
                    assert(a.take(k1)[i] == b.take(k1)[i]);
                    assert(b.take(k2)[i] == c.take(k2)[i]);
                }
            }
            assert(a.take(k1) == c.take(k1));
        } else if k2 < k1 {
            assert(a.take(k1)[k2] == b.take(k1)[k2]);
            assert(a.take(k2) =~= c.take(k2)) by {
                assert forall|i: int| 0 <= i < k2 implies a.take(k2)[i] == c.take(k2)[i] by {
                    assert(a.take(k1)[i] == b.take(k1)[i]);
                    assert(b.take(k2)[i] == c.take(k2)[i]);
                }
            }
            assert(a.take(k2) == c.take(k2));
        } else {
            assert(a.take(k1) =~= c.take(k1)) by {
                assert forall|i: int| 0 <= i < k1 implies a.take(k1)[i] == c.take(k1)[i] by {
                    assert(a.take(k1)[i] == b.take(k1)[i]);
                    assert(b.take(k2)[i] == c.take(k2)[i]);
                }
            }
            assert(a.take(k1) == c.take(k1));
        }
    }
}

/// Listing order is a strict order: never both ways, and transitive.
pub proof fn lemma_goes_before_strict(a: CommandView, b: CommandView, c: CommandView)
    ensures
        !(goes_before(a, b) && goes_before(b, a)),
        goes_before(a, b) && goes_before(b, c) ==> goes_before(a, c),
{
    lemma_text_lt_strict(a.label@, b.label@, c.label@);
    lemma_text_lt_strict(b.label@, a.label@, c.label@);
}

proof fn lemma_insert_pos_props(t: Seq<CommandView>, x: CommandView)
    ensures
        0 <= insert_pos(t, x) <= t.len(),
        forall|k: int| 0 <= k < insert_pos(t, x) ==> !goes_before(x, #[trigger] t[k]),
        insert_pos(t, x) < t.len() ==> goes_before(x, t[insert_pos(t, x)]),
    decreases t.len(),
{
    if t.len() > 0 && !goes_before(x, t[0]) {
        let u = t.drop_first();
        lemma_insert_pos_props(u, x);
        assert forall|k: int| 0 <= k < insert_pos(t, x) implies !goes_before(x, #[trigger] t[k]) by {
            if k > 0 {
                assert(t[k] == u[k - 1]);
            }
        }
        if insert_pos(t, x) < t.len() {
            assert(t[insert_pos(t, x)] == u[insert_pos(u, x)]);
        }
    }
}

/// A list is in listing order when no item goes before an earlier one.
pub open spec fn in_listing_order(s: Seq<CommandView>) -> bool {
    forall|i: int, j: int| 0 <= i < j < s.len() ==> !goes_before(#[trigger] s[j], #[trigger] s[i])
}

/// What the engine returns is in listing order: by priority, highest first,
/// and by label among equal priorities.
pub proof fn lemma_priority_sort_sorted(s: Seq<CommandView>)
    ensures
        in_listing_order(priority_sort(s)),
        priority_sort(s).len() == s.len(),
    decreases s.len(),
{
    if s.len() > 0 {
        let t = priority_sort(s.drop_last());
        lemma_priority_sort_sorted(s.drop_last());
        let x = s.last();
        lemma_insert_pos_props(t, x);
        let p = insert_pos(t, x);
        let r = t.insert(p, x);
        assert forall|i: int, j: int| 0 <= i < j < r.len() implies !goes_before(#[trigger] r[j], #[trigger] r[i]) by {
            if j < p {
                assert(r[i] == t[i] && r[j] == t[j]);
            } else if j == p {
                assert(r[i] == t[i]);
            } else if i < p {
                assert(r[i] == t[i] && r[j] == t[j - 1]);
            } else if i == p {
                assert(r[j] == t[j - 1]);
                lemma_goes_before_strict(t[j - 1], x, t[p]);
                if j - 1 > p {
                    assert(!goes_before(t[j - 1], t[p]));
                }
            } else {
                assert(r[i] == t[i - 1] && r[j] == t[j - 1]);
            }
        }
    }
}

/// The engine's sort keeps exactly the commands it is given.
pub proof fn lemma_priority_sort_permutes(s: Seq<CommandView>)
    ensures
        priority_sort(s).to_multiset() == s.to_multiset(),
    decreases s.len(),
{
    broadcast use vstd::seq_lib::to_multiset_insert, vstd::seq_lib::to_multiset_build;

    if s.len() > 0 {
        let t = priority_sort(s.drop_last());
        lemma_priority_sort_permutes(s.drop_last());
        lemma_insert_pos_props(t, s.last());
        assert(s.drop_last().push(s.last()) =~= s);
    }
}

/// In a list sorted by relevance, most relevant first, the place of a new
/// command: after every command at least as relevant, before the others.
proof fn lemma_relevance_split(
    t: Seq<CommandView>,
    x: CommandView,
    context: ProjectContext,
    tw: nat,
    rw: nat,
) -> (i: int)
    requires
        forall|a: int, b: int|
            0 <= a < b < t.len() ==> relevance(#[trigger] t[a], context, tw, rw) >= relevance(
                #[trigger] t[b],
                context,
                tw,
                rw,
            ),
    ensures
        0 <= i <= t.len(),
        forall|j: int| 0 <= j < i ==> relevance(#[trigger] t[j], context, tw, rw) >= relevance(x, context, tw, rw),
        forall|j: int| i <= j < t.len() ==> relevance(#[trigger] t[j], context, tw, rw) < relevance(x, context, tw, rw),
    decreases t.len(),
{
    if t.len() == 0 {
        0
    } else if relevance(t.last(), context, tw, rw) >= relevance(x, context, tw, rw) {
        assert forall|j: int| 0 <= j < t.len() implies relevance(#[trigger] t[j], context, tw, rw) >= relevance(
            x,
            context,
            tw,
            rw,
        ) by {
            if j < t.len() - 1 {
                assert(relevance(t[j], context, tw, rw) >= relevance(t[t.len() - 1], context, tw, rw));
            }
        }
        t.len() as int
    } else {
        let d = t.drop_last();
        assert forall|a: int, b: int| 0 <= a < b < d.len() implies relevance(#[trigger] d[a], context, tw, rw)
            >= relevance(#[trigger] d[b], context, tw, rw) by {
            assert(d[a] == t[a] && d[b] == t[b]);
        }
        let i = lemma_relevance_split(d, x, context, tw, rw);
        assert forall|j: int| 0 <= j < i implies relevance(#[trigger] t[j], context, tw, rw) >= relevance(
            x,
            context,
            tw,
            rw,
        ) by {
            assert(d[j] == t[j]);
        }
        assert forall|j: int| i <= j < t.len() implies relevance(#[trigger] t[j], context, tw, rw) < relevance(
            x,
            context,
            tw,
            rw,
        ) by {
            if j < t.len() - 1 {
                assert(d[j] == t[j]);
            }
        }
        i
    }
}

/// The smart filter gives back exactly the commands it is given, most
/// relevant first (commands of equal relevance keep their order).
pub proof fn lemma_relevance_sort_sorted(s: Seq<CommandView>, context: ProjectContext, tw: nat, rw: nat)
    ensures
        forall|a: int, b: int|
            0 <= a < b < relevance_sort(s, context, tw, rw).len() ==> relevance(
                #[trigger] relevance_sort(s, context, tw, rw)[a],
                context,
                tw,
                rw,
            ) >= relevance(#[trigger] relevance_sort(s, context, tw, rw)[b], context, tw, rw),
        relevance_sort(s, context, tw, rw).to_multiset() == s.to_multiset(),
    decreases s.len(),
{
    broadcast use vstd::seq_lib::to_multiset_insert, vstd::seq_lib::to_multiset_build;

    if s.len() > 0 {
        let t = relevance_sort(s.drop_last(), context, tw, rw);
        lemma_relevance_sort_sorted(s.drop_last(), context, tw, rw);
        let x = s.last();
        let i = lemma_relevance_split(t, x, context, tw, rw);
        lemma_insert_relevant_at(t, x, context, tw, rw, i);
        let r = t.insert(i, x);
        assert(t.take(i).push(x) + t.skip(i) =~= r);
        assert forall|a: int, b: int| 0 <= a < b < r.len() implies relevance(#[trigger] r[a], context, tw, rw)
            >= relevance(#[trigger] r[b], context, tw, rw) by {
            if b < i {
                assert(r[a] == t[a] && r[b] == t[b]);
            } else if b == i {
                assert(r[a] == t[a]);
            } else if a < i {
                assert(r[a] == t[a] && r[b] == t[b - 1]);
            } else if a == i {
                assert(r[b] == t[b - 1]);
            } else {
                assert(r[a] == t[a - 1] && r[b] == t[b - 1]);
            }
        }
        assert(relevance_sort(s, context, tw, rw) == r);
        assert(r.to_multiset() == t.to_multiset().insert(x));
        assert(s.drop_last().push(s.last()) =~= s);
        assert(s.drop_last().push(x).to_multiset() == s.drop_last().to_multiset().insert(x));
    } else {
        assert(relevance_sort(s, context, tw, rw) =~= s);
    }
}

/// The duplicate filter leaves no two commands with the same command line.
pub proof fn lemma_dedup_lines_distinct(s: Seq<CommandView>)
    ensures
        forall|i: int, j: int|
            0 <= i < j < dedup_lines(s).len() ==> command_line_of(#[trigger] dedup_lines(s)[i])
                != command_line_of(#[trigger] dedup_lines(s)[j]),
        forall|i: int|
            0 <= i < dedup_lines(s).len() ==> exists|k: int|
                0 <= k < s.len() && #[trigger] dedup_lines(s)[i] == s[k],
    decreases s.len(),
{
    if s.len() > 0 {
        let rest = dedup_lines(s.drop_last());
        lemma_dedup_lines_distinct(s.drop_last());
        assert forall|i: int| 0 <= i < rest.len() implies exists|k: int|
            0 <= k < s.len() && #[trigger] rest[i] == s[k] by {
            let k = choose|k: int| 0 <= k < s.drop_last().len() && rest[i] == s.drop_last()[k];
            assert(s[k] == s.drop_last()[k]);
        }
        if !line_seen_before(s, s.len() - 1) {
            let r = rest.push(s.last());
            assert forall|i: int, j: int| 0 <= i < j < r.len() implies command_line_of(#[trigger] r[i])
                != command_line_of(#[trigger] r[j]) by {
                if j == r.len() - 1 {
                    let k = choose|k: int| 0 <= k < s.len() && rest[i] == s[k];
                    assert(r[i] == rest[i]);
                    if k == s.len() - 1 {
                        assert(rest[i] == s.drop_last()[choose|k2: int| 0 <= k2 < s.drop_last().len() && rest[i] == s.drop_last()[k2]]);
                    }
                } else {
                    assert(r[i] == rest[i] && r[j] == rest[j]);
                }
            }
            assert forall|i: int| 0 <= i < r.len() implies exists|k: int|
                0 <= k < s.len() && #[trigger] r[i] == s[k] by {
                if i == r.len() - 1 {
                    assert(r[i] == s[s.len() - 1]);
                } else {
                    assert(r[i] == rest[i]);
                }
            }
        }
    }
}

} // verus!
