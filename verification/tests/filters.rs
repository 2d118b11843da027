use raz_core::commands::{Command, CommandBuilder, CommandCategory, Condition};
use raz_core::context::{
    BuildTarget, FileContext, FileFacts, Language, Position, ProjectContext, ProjectType, Range, Symbol,
    SymbolKind, TargetType, WorkspaceMember,
};
use raz_core::filters::{
    text_less, AnyFilter, CategoryFilter, CommandFilter, ConditionFilter, DuplicateFilter,
    FilterEngine, FilterRule, LimitFilter, PriorityFilter, RuleAction, RuleCondition, SmartFilter,
    TagFilter,
};

fn create_test_context() -> ProjectContext {
    ProjectContext {
        workspace_root: "/test".to_string(),
        current_file: None,
        cursor_position: None,
        project_type: ProjectType::Binary,
        dependencies: Vec::new(),
        workspace_members: vec![WorkspaceMember {
            name: "test".to_string(),
            path: "/test".to_string(),
            package_type: ProjectType::Binary,
        }],
        build_targets: vec![BuildTarget {
            name: "main".to_string(),
            target_type: TargetType::Binary,
            path: "/test/src/main.rs".to_string(),
        }],
        active_features: Vec::new(),
        env_vars: Vec::new(),
    }
}

fn create_test_commands() -> Vec<Command> {
    vec![
        CommandBuilder::new("build", "cargo")
            .label("Build")
            .arg("build")
            .category(CommandCategory::Build)
            .priority(80)
            .build(),
        CommandBuilder::new("test", "cargo")
            .label("Test")
            .arg("test")
            .category(CommandCategory::Test)
            .priority(90)
            .build(),
        CommandBuilder::new("run", "cargo")
            .label("Run")
            .arg("run")
            .category(CommandCategory::Run)
            .priority(85)
            .build(),
    ]
}

#[test]
fn test_priority_filter() {
    let filter = PriorityFilter::with_min_priority(85);
    let commands = create_test_commands();
    let context = create_test_context();

    let filtered = filter.filter(commands, &context).unwrap();

    assert_eq!(filtered.len(), 2);
    assert!(filtered.iter().all(|c| c.priority >= 85));
}

#[test]
fn test_category_filter() {
    let mut filter = CategoryFilter::new();
    filter.exclude_category("test");

    let commands = create_test_commands();
    let context = create_test_context();

    let filtered = filter.filter(commands, &context).unwrap();

    assert_eq!(filtered.len(), 2);
    assert!(!filtered.iter().any(|c| c.category == CommandCategory::Test));
}

#[test]
fn test_duplicate_filter() {
    let filter = DuplicateFilter::new();
    let mut commands = create_test_commands();

    commands.push(
        CommandBuilder::new("build2", "cargo")
            .label("Build Duplicate")
            .arg("build")
            .build(),
    );

    let context = create_test_context();
    let filtered = filter.filter(commands, &context).unwrap();

    assert_eq!(filtered.len(), 3);
}

#[test]
fn test_limit_filter() {
    let filter = LimitFilter::new(2);
    let commands = create_test_commands();
    let context = create_test_context();

    let filtered = filter.filter(commands, &context).unwrap();

    assert_eq!(filtered.len(), 2);
}

#[test]
fn test_filter_engine() {
    let engine = FilterEngine::new();
    let commands = create_test_commands();
    let context = create_test_context();

    let filtered = engine.apply_filters(&commands, &context).unwrap();

    assert_eq!(filtered.len(), 3);

    assert_eq!(filtered[0].priority, 90);
    assert_eq!(filtered[1].priority, 85);
    assert_eq!(filtered[2].priority, 80);
}

#[test]
fn test_condition_filter() {
    let filter = ConditionFilter::new();
    let commands = create_test_commands();
    let context = create_test_context();

    let filtered = filter.filter(commands, &context).unwrap();

    assert_eq!(filtered.len(), 3);
}

#[test]
fn test_create_test_commands() {
    let commands = create_test_commands();
    assert_eq!(commands.len(), 3);

    for command in &commands {
        assert_eq!(
            command.conditions.len(),
            0,
            "Command {} has conditions",
            command.id
        );
    }
}

#[test]
fn test_step_by_step_filters() {
    let commands = create_test_commands();
    let context = create_test_context();

    let category_filter = CategoryFilter::new();
    let after_category = category_filter.filter(commands.clone(), &context).unwrap();

    let priority_filter = PriorityFilter::new();
    let after_priority = priority_filter.filter(after_category, &context).unwrap();

    let condition_filter = ConditionFilter::new();
    let after_condition = condition_filter.filter(after_priority, &context).unwrap();

    let duplicate_filter = DuplicateFilter::new();
    let after_duplicate = duplicate_filter.filter(after_condition, &context).unwrap();
    for cmd in &after_duplicate {
        println!("  Remaining: {} -> {}", cmd.id, cmd.command_line());
    }

    let tag_filter = TagFilter::new();
    let after_tag = tag_filter.filter(after_duplicate, &context).unwrap();

    assert_eq!(after_tag.len(), 3);
}

#[test]
fn engine_sorts_equal_priorities_by_label() {
    let engine = FilterEngine::new();
    let commands = vec![
        CommandBuilder::new("b", "x").label("beta").priority(50).build(),
        CommandBuilder::new("a", "y").label("alpha").priority(50).build(),
        CommandBuilder::new("c", "z").label("Zed").priority(60).build(),
    ];
    let out = engine.apply_filters(&commands, &create_test_context()).unwrap();
    let ids: Vec<&str> = out.iter().map(|c| c.id.as_str()).collect();
    assert_eq!(ids, vec!["c", "a", "b"]);
}

#[test]
fn text_order() {
    assert!(text_less("Build", "build"));
    assert!(text_less("ab", "abc"));
    assert!(!text_less("abc", "ab"));
    assert!(!text_less("same", "same"));
}

#[test]
fn tag_filter_required_and_excluded() {
    let ctx = create_test_context();
    let cmds = vec![
        CommandBuilder::new("a", "x").tag("fast").build(),
        CommandBuilder::new("b", "y").tag("slow").build(),
        CommandBuilder::new("c", "z").tag("fast").tag("slow").build(),
    ];
    let mut f = TagFilter::new();
    f.require_tag("fast");
    f.exclude_tag("slow");
    let out = f.filter(cmds, &ctx).unwrap();
    assert_eq!(out.len(), 1);
    assert_eq!(out[0].id, "a");
}

#[test]
fn duplicate_filter_keeps_first() {
    let ctx = create_test_context();
    let cmds = vec![
        CommandBuilder::new("one", "cargo").arg("build").build(),
        CommandBuilder::new("two", "cargo").arg("build").build(),
        CommandBuilder::new("three", "cargo").build(),
    ];
    let out = DuplicateFilter::new().filter(cmds, &ctx).unwrap();
    let ids: Vec<&str> = out.iter().map(|c| c.id.as_str()).collect();
    assert_eq!(ids, vec!["one", "three"]);
}

#[test]
fn limit_larger_than_list_keeps_all() {
    let ctx = create_test_context();
    let out = LimitFilter::new(10)
        .filter(create_test_commands(), &ctx)
        .unwrap();
    assert_eq!(out.len(), 3);
}

#[test]
fn rule_actions() {
    let ctx = create_test_context();
    let boost = RuleAction::BoostPriority {
        pattern: "bui".to_string(),
        boost: 200,
    };
    let out = boost.apply(create_test_commands(), &ctx).unwrap();
    assert_eq!(out[0].priority, 255);
    assert_eq!(out[1].priority, 90);

    let add = RuleAction::AddTag {
        pattern: "Run".to_string(),
        tag: "hot".to_string(),
    };
    let out = add.apply(create_test_commands(), &ctx).unwrap();
    assert_eq!(out[2].tags, vec!["hot"]);
    assert!(out[0].tags.is_empty());

    let only_test = RuleAction::FilterCategory("test".to_string());
    let out = only_test.apply(create_test_commands(), &ctx).unwrap();
    assert_eq!(out.len(), 1);
    assert_eq!(out[0].id, "test");

    let remove = RuleAction::Remove("u".to_string());
    let out = remove.apply(create_test_commands(), &ctx).unwrap();
    let ids: Vec<&str> = out.iter().map(|c| c.id.as_str()).collect();
    assert_eq!(ids, vec!["test"]);

    let limit = RuleAction::Limit(1);
    assert_eq!(limit.apply(create_test_commands(), &ctx).unwrap().len(), 1);

    let reorder = RuleAction::Reorder("x".to_string());
    assert_eq!(reorder.apply(create_test_commands(), &ctx).unwrap().len(), 3);
}

#[test]
fn rule_conditions_and_rules() {
    let ctx = create_test_context();
    assert!(RuleCondition::ProjectType("BINARY".to_string()).is_met(&ctx));
    assert!(!RuleCondition::ProjectType("library".to_string()).is_met(&ctx));
    assert!(!RuleCondition::FileExtension("rs".to_string()).is_met(&ctx));
    assert!(!RuleCondition::HasDependency("serde".to_string()).is_met(&ctx));
    assert!(RuleCondition::TimeOfDay { start: 0, end: 23 }.is_met(&ctx));
    assert!(RuleCondition::TimeOfDay { start: 9, end: 17 }.is_met_at(&ctx, 12));
    assert!(!RuleCondition::TimeOfDay { start: 9, end: 17 }.is_met_at(&ctx, 18));
    assert!(!RuleCondition::Expression("x".to_string()).is_met(&ctx));

    let mut engine = FilterEngine::new();
    engine.add_rule(FilterRule {
        name: "only builds".to_string(),
        conditions: vec![RuleCondition::ProjectType("binary".to_string())],
        actions: vec![RuleAction::FilterCategory("build".to_string())],
        enabled: true,
    });
    let out = engine
        .apply_filters(&create_test_commands(), &ctx)
        .unwrap();
    assert_eq!(out.len(), 1);
    assert_eq!(out[0].id, "build");

    let disabled = FilterRule {
        name: "off".to_string(),
        conditions: Vec::new(),
        actions: vec![RuleAction::Limit(0)],
        enabled: false,
    };
    assert_eq!(disabled.apply(create_test_commands(), &ctx).unwrap().len(), 3);

    let mut engine = FilterEngine::new();
    engine.add_filter(AnyFilter::Limit(LimitFilter::new(1)));
    let out = engine.apply_filters(&create_test_commands(), &ctx).unwrap();
    assert_eq!(out.len(), 1);
    assert_eq!(out[0].id, "build");
}

#[test]
fn test_smart_filter() {
    let filter = SmartFilter::new();
    let commands = create_test_commands();
    let context = create_test_context();

    let filtered = filter.filter(commands, &context).unwrap();

    // Commands should be reordered based on relevance
    assert_eq!(filtered.len(), 3);
}

#[test]
fn smart_filter_weights_cursor_and_project() {
    let filter = SmartFilter::new();
    let mut context = create_test_context();
    let ids = |v: &Vec<Command>| v.iter().map(|c| c.id.clone()).collect::<Vec<String>>();
    // No cursor: by priority, highest first.
    let plain = filter.filter(create_test_commands(), &context).unwrap();
    assert_eq!(ids(&plain), vec!["test", "run", "build"]);
    // A cursor on a function weights runs by 1.3: run (85 x 1.3 = 110.5) comes first.
    context.current_file = Some(FileContext {
        path: "/test/src/main.rs".to_string(),
        language: Language::Rust,
        symbols: vec![],
        imports: vec![],
        cursor_symbol: Some(Symbol {
            name: "main".to_string(),
            kind: SymbolKind::Function,
            range: Range { start: Position { line: 0, column: 0 }, end: Position { line: 3, column: 0 } },
            modifiers: vec![],
            children: vec![],
            metadata: vec![],
        }),
        module_name: None,
    });
    let weighted = filter.filter(create_test_commands(), &context).unwrap();
    assert_eq!(ids(&weighted), vec!["run", "test", "build"]);
    // Equal relevance keeps the given order.
    let same = vec![
        CommandBuilder::new("a", "x").priority(50).build(),
        CommandBuilder::new("b", "y").priority(50).build(),
    ];
    let kept = filter.filter(same, &create_test_context()).unwrap();
    assert_eq!(ids(&kept), vec!["a", "b"]);
}

struct KeepTests;

impl CommandFilter for KeepTests {
    fn filter(
        &self,
        commands: Vec<Command>,
        _context: &ProjectContext,
    ) -> raz_core::error::RazResult<Vec<Command>> {
        Ok(commands.into_iter().filter(|c| c.category == CommandCategory::Test).collect())
    }
}

struct Refuses;

impl CommandFilter for Refuses {
    fn filter(
        &self,
        _commands: Vec<Command>,
        _context: &ProjectContext,
    ) -> raz_core::error::RazResult<Vec<Command>> {
        Err(raz_core::error::RazError::config("refused"))
    }
}

#[test]
fn user_filters_run_after_the_standard_ones() {
    let ctx = create_test_context();
    let mut engine = FilterEngine::new();
    engine.add_filter(AnyFilter::Custom(Box::new(KeepTests)));
    let out = engine.apply_filters(&create_test_commands(), &ctx).unwrap();
    assert!(out.iter().all(|c| c.category == CommandCategory::Test));

    let mut failing = FilterEngine::new();
    failing.add_filter(AnyFilter::Custom(Box::new(Refuses)));
    assert!(failing.apply_filters(&create_test_commands(), &ctx).is_err());
}

#[test]
fn file_conditions_need_facts() {
    let ctx = create_test_context();
    let commands = vec![CommandBuilder::new("fmt", "cargo")
        .arg("fmt")
        .condition(Condition::FileExists("rustfmt.toml".to_string()))
        .build()];
    let blind = FilterEngine::new();
    assert!(blind.apply_filters(&commands, &ctx).unwrap().is_empty());

    let mut facts = FileFacts::none();
    facts.existing_paths.push("/test/rustfmt.toml".to_string());
    let seeing = FilterEngine::with_facts(facts);
    assert_eq!(seeing.apply_filters(&commands, &ctx).unwrap().len(), 1);
}
