use convex_doctor::diagnostic::Category;
use convex_doctor::rules::security::HttpMissingCors;
use convex_doctor::rules::schema::{OptionalFieldNoDefaultHandling, TooManyIndexes};
use convex_doctor::rules::security::InternalApiMisuse;
use convex_doctor::rules::{CallLocation, CtxCall, FileAnalysis, HttpRoute, IndexDef, Rule, RuleRegistry};

fn route(method: &str, path: &str, line: u32) -> HttpRoute {
    HttpRoute { method: method.to_string(), path: path.to_string(), is_webhook: false, line }
}

#[test]
fn cors_findings_come_once_per_path_in_path_order() {
    let analysis = FileAnalysis {
        file_path: "convex/http.ts".to_string(),
        http_routes: vec![
            route("POST", "/zeta", 3),
            route("GET", "/alpha", 5),
            route("PUT", "/zeta", 7),
            route("POST", "/mid", 9),
            route("OPTIONS", "/mid", 11),
        ],
        ..Default::default()
    };
    let ds = HttpMissingCors.check(&analysis);
    let messages: Vec<&str> = ds.iter().map(|d| d.message.as_str()).collect();
    assert_eq!(
        messages,
        vec![
            "HTTP route `/alpha` has no OPTIONS handler for CORS",
            "HTTP route `/zeta` has no OPTIONS handler for CORS",
        ]
    );
    assert_eq!(ds[1].line, 3);
}

#[test]
fn every_registered_rule_tags_its_findings() {
    let registry = RuleRegistry::new();
    let analysis = FileAnalysis {
        file_path: "convex/http.ts".to_string(),
        http_routes: vec![route("POST", "/a", 1)],
        exported_function_count: 20,
        ..Default::default()
    };
    for rule in registry.rules() {
        for d in rule.check(&analysis) {
            assert_eq!(d.rule, rule.id());
            assert_eq!(d.category, rule.category());
        }
    }
    let categories: Vec<Category> = registry.rules().iter().map(|r| r.category()).collect();
    assert!(categories.contains(&Category::ClientSide));
    assert!(categories.contains(&Category::Configuration));
    assert!(categories.contains(&Category::Schema));
}

#[test]
fn test_too_many_indexes_triggered() {
    let index = |name: &str| IndexDef { table: "table@10".to_string(), name: name.to_string(), fields: vec![name.to_string()], line: 3 };
    let analysis = FileAnalysis {
        index_definitions: (0..8).map(|i| index(&format!("idx{i}"))).collect(),
        ..Default::default()
    };
    let diagnostics = TooManyIndexes.check(&analysis);
    assert_eq!(diagnostics.len(), 1);
    assert_eq!(diagnostics[0].severity, convex_doctor::diagnostic::Severity::Info);
    assert!(diagnostics[0].message.contains("indexes"));
    assert!(diagnostics[0].message.contains("soft warning threshold is 8"));
}

#[test]
fn test_optional_fields_not_triggered_for_schema_named_utility_file() {
    let fields: Vec<CallLocation> = (0..6).map(|i| CallLocation { line: i, col: 1, detail: "v.optional".to_string() }).collect();
    let utility = FileAnalysis { file_path: "/tmp/x/schema-utils.ts".to_string(), optional_schema_fields: fields.clone(), ..Default::default() };
    assert!(OptionalFieldNoDefaultHandling.check(&utility).is_empty());
    let schema = FileAnalysis { file_path: "/tmp/x/convex/schema.ts".to_string(), optional_schema_fields: fields, ..Default::default() };
    let ds = OptionalFieldNoDefaultHandling.check(&schema);
    assert_eq!(ds.len(), 1);
    assert_eq!(ds[0].message, "6 optional fields in schema — ensure undefined is handled");
}

#[test]
fn internal_api_misuse_is_a_warning() {
    let analysis = FileAnalysis {
        ctx_calls: vec![CtxCall {
            chain: "ctx.runMutation".to_string(),
            first_arg_chain: Some("api.tasks.create".to_string()),
            ..Default::default()
        }],
        ..Default::default()
    };
    let ds = InternalApiMisuse.check(&analysis);
    assert_eq!(ds.len(), 1);
    assert_eq!(ds[0].severity, convex_doctor::diagnostic::Severity::Warning);
    assert_eq!(ds[0].message, "`ctx.runMutation` is called with public API reference `api.tasks.create`");
}
