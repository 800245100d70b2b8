use convex_doctor::config::Config;
use convex_doctor::diagnostic::{Category, Severity};
use convex_doctor::engine::{evaluate, gitignore_contains, node_version_from, plan_scan, project_context, FileForms, ProjectFacts, ScanMode};
use convex_doctor::rules::{ConvexFunction, FileAnalysis, FunctionKind, IndexDef, ProjectContext, Rule, RuleRegistry};

fn big_handler_file(path: &str) -> FileAnalysis {
    FileAnalysis {
        file_path: path.to_string(),
        functions: vec![ConvexFunction {
            name: "huge".to_string(),
            kind: FunctionKind::InternalMutation,
            has_args_validator: true,
            has_return_validator: true,
            handler_line_count: 80,
            span_line: 3,
            span_col: 1,
            ..Default::default()
        }],
        ..Default::default()
    }
}

fn facts() -> ProjectFacts {
    ProjectFacts {
        has_schema: true,
        has_auth_config: false,
        has_convex_json: false,
        has_env_local: false,
        env_gitignored: false,
        has_generated_dir: true,
        has_tsconfig: true,
        node_version_from_config: None,
        generated_files_modified: false,
    }
}

#[test]
fn evaluate_runs_file_rules_then_parse_failures_then_project_rules() {
    let registry = RuleRegistry::new();
    let config = Config::default();
    let analyses = vec![big_handler_file("convex/a.ts")];
    let ctx = project_context(&facts(), &analyses);
    let r = evaluate(&registry, &config, &analyses, &vec!["convex/bad.ts".to_string()], Some(&ctx), "app".to_string(), 2);
    let rules: Vec<&str> = r.diagnostics.iter().map(|d| d.rule.as_str()).collect();
    assert!(rules.contains(&"arch/large-handler"));
    let parse = r.diagnostics.iter().position(|d| d.rule == "correctness/file-parse-error").unwrap();
    assert_eq!(r.diagnostics[parse].message, "Failed to parse file `convex/bad.ts`");
    assert_eq!(r.diagnostics[parse].severity, Severity::Error);
    let convex_json = r.diagnostics.iter().position(|d| d.rule == "config/missing-convex-json").unwrap();
    assert!(parse < convex_json);
    assert_eq!(r.files_scanned, 2);
    assert_eq!(r.project_name, "app");
}

#[test]
fn evaluate_without_project_context_skips_project_rules() {
    let registry = RuleRegistry::new();
    let config = Config::default();
    let analyses = vec![big_handler_file("convex/a.ts")];
    let r = evaluate(&registry, &config, &analyses, &vec![], None, "app".to_string(), 1);
    assert!(r.diagnostics.iter().all(|d| d.rule != "config/missing-convex-json"));
    assert!(r.diagnostics.iter().any(|d| d.rule == "arch/large-handler"));
}

#[test]
fn rules_turned_off_report_nothing() {
    let registry = RuleRegistry::new();
    let mut config = Config::default();
    config.set_rule("arch/large-handler", "off");
    config.set_rule("correctness/file-parse-error", "off");
    let analyses = vec![big_handler_file("convex/a.ts")];
    let r = evaluate(&registry, &config, &analyses, &vec!["convex/bad.ts".to_string()], None, "app".to_string(), 2);
    assert!(r.diagnostics.iter().all(|d| d.rule != "arch/large-handler"));
    assert!(r.diagnostics.iter().all(|d| d.rule != "correctness/file-parse-error"));
}

#[test]
fn score_and_ci_floor_follow_the_findings() {
    let registry = RuleRegistry::new();
    let mut config = Config::default();
    config.ci.fail_below = 100;
    let r = evaluate(&registry, &config, &vec![], &vec![], None, "app".to_string(), 0);
    assert!(r.diagnostics.is_empty());
    assert_eq!(r.score.value, 100);
    assert!(!r.fails_ci());
    let r = evaluate(&registry, &config, &vec![], &vec!["convex/x.ts".to_string()], None, "app".to_string(), 1);
    assert_eq!(r.score.value, 97);
    assert!(r.fails_ci());
}

#[test]
fn registry_run_matches_each_rule_check() {
    let registry = RuleRegistry::new();
    let config = Config::default();
    let a = big_handler_file("convex/a.ts");
    let all = registry.run(&a, &config);
    let mut expected = Vec::new();
    for rule in registry.rules() {
        expected.extend(rule.check(&a));
    }
    assert_eq!(all, expected);
    for d in &all {
        let owner = registry.rules().iter().find(|r| r.id() == d.rule).unwrap();
        assert_eq!(owner.category(), d.category);
    }
}

#[test]
fn registry_has_unique_rule_ids() {
    let registry = RuleRegistry::new();
    let mut ids: Vec<&str> = registry.rules().iter().map(|r| r.id()).collect();
    let n = ids.len();
    ids.sort();
    ids.dedup();
    assert_eq!(ids.len(), n);
    assert_eq!(n, 65);
}

#[test]
fn project_context_collects_auth_and_indexes() {
    let mut a = big_handler_file("convex/a.ts");
    a.functions[0].has_auth_check = true;
    a.index_definitions.push(IndexDef {
        table: "messages".to_string(),
        name: "by_author".to_string(),
        fields: vec!["author".to_string()],
        line: 4,
    });
    let b = big_handler_file("convex/b.ts");
    let ctx: ProjectContext = project_context(&facts(), &vec![b, a]);
    assert!(ctx.uses_auth);
    assert_eq!(ctx.all_index_definitions.len(), 1);
    assert_eq!(ctx.all_index_definitions[0].fields, vec!["author".to_string()]);
    let ctx = project_context(&facts(), &vec![big_handler_file("convex/b.ts")]);
    assert!(!ctx.uses_auth);
    assert!(ctx.has_schema);
}

#[test]
fn gitignore_lines_are_trimmed_and_comments_skipped() {
    assert!(gitignore_contains("node_modules\n  /.env.local  \r\n", ".env.local"));
    assert!(gitignore_contains(".env*\n", ".env.local"));
    assert!(!gitignore_contains("# .env.local\n!.env.local\n\n", ".env.local"));
    assert!(!gitignore_contains("", ".env.local"));
    assert!(gitignore_contains("dist\nconfig/.env.local", "config/.env.local"));
    assert!(gitignore_contains(".env.local", "config/.env.local"));
}

#[test]
fn node_version_prefers_the_nested_key() {
    assert_eq!(node_version_from(Some(Some("18".to_string())), Some(Some("20".to_string()))), Some("18".to_string()));
    assert_eq!(node_version_from(Some(None), Some(Some("20".to_string()))), None);
    assert_eq!(node_version_from(None, Some(Some("20".to_string()))), Some("20".to_string()));
    assert_eq!(node_version_from(None, None), None);
}

#[test]
fn rule_id_prefix_names_the_category() {
    let registry = RuleRegistry::new();
    for rule in registry.rules() {
        let prefix = rule.id().split('/').next().unwrap();
        let expected = match prefix {
            "security" => Category::Security,
            "perf" => Category::Performance,
            "correctness" => Category::Correctness,
            "schema" => Category::Schema,
            "arch" => Category::Architecture,
            "config" => Category::Configuration,
            "client" => Category::ClientSide,
            other => panic!("unexpected prefix {other}"),
        };
        assert_eq!(rule.category(), expected, "{}", rule.id());
    }
}

#[test]
fn diff_runs_scan_changed_files_without_project_rules() {
    let file = |name: &str, forms: &[&str]| FileForms {
        file: name.to_string(),
        forms: forms.iter().map(|f| f.to_string()).collect(),
    };
    let files = vec![
        file("/p/convex/a.ts", &["/p/convex/a.ts", "convex/a.ts", "./convex/a.ts"]),
        file("/p/convex/b.ts", &["/p/convex/b.ts", "convex/b.ts", "./convex/b.ts"]),
    ];
    let full = plan_scan(&files, &ScanMode::Full);
    assert_eq!(full.files, vec!["/p/convex/a.ts", "/p/convex/b.ts"]);
    assert!(full.project_rules);
    let diff = plan_scan(&files, &ScanMode::Diff(vec!["convex/b.ts".to_string(), "/p/x.ts".to_string()]));
    assert_eq!(diff.files, vec!["/p/convex/b.ts"]);
    assert!(!diff.project_rules);
    let unknown = plan_scan(&files, &ScanMode::DiffUnknown);
    assert_eq!(unknown.files.len(), 2);
    assert!(!unknown.project_rules);
}
