use convex_doctor::analysis::{is_convex_react_import, react_import, ExportNames, NameMap, PendingFunctions, ReactImport};
use convex_doctor::rules::{ConvexFunction, FunctionKind};
use convex_doctor::analysis::{
    FunctionBuilder,
    has_doctor_ignore_comment, is_auth_helper_call, is_immediately_invoked, line_col,
    parse_named_import_entries, resolve_identifier_alias_root, secret_prefix,
};

#[test]
fn line_col_counts_lines_and_columns_from_one() {
    let src = "ab\ncd\n\nxyz".as_bytes();
    assert_eq!(line_col(src, 0), (1, 1));
    assert_eq!(line_col(src, 1), (1, 2));
    assert_eq!(line_col(src, 3), (2, 1));
    assert_eq!(line_col(src, 4), (2, 2));
    assert_eq!(line_col(src, 7), (4, 1));
    assert_eq!(line_col(src, 9), (4, 3));
    assert_eq!(line_col(src, 20), (4, 14));
}

#[test]
fn immediately_invoked_skips_white_space() {
    let src = "useMutation(api.x)  \n (1)".as_bytes();
    assert!(is_immediately_invoked(src, 18));
    assert!(!is_immediately_invoked("f(x);(y)".as_bytes(), 4));
    assert!(!is_immediately_invoked("f(x)   ".as_bytes(), 4));
}

#[test]
fn named_imports_with_aliases() {
    let entries = parse_named_import_entries("import { useQuery as uq, useMutation, , a b c, x as } from 'convex/react'");
    assert_eq!(
        entries,
        vec![
            ("useQuery".to_string(), "uq".to_string()),
            ("useMutation".to_string(), "useMutation".to_string()),
        ]
    );
    assert!(parse_named_import_entries("import api from './api'").is_empty());
    assert!(parse_named_import_entries("} {").is_empty());
    assert_eq!(parse_named_import_entries("{\tone\n}"), vec![("one".to_string(), "one".to_string())]);
}

#[test]
fn ignore_comment_on_the_line_or_two_above() {
    let lines: Vec<String> = vec!["// Convex-Doctor-Ignore", "a", "b", "c"].into_iter().map(String::from).collect();
    assert!(has_doctor_ignore_comment(&lines, 1));
    assert!(has_doctor_ignore_comment(&lines, 3));
    assert!(!has_doctor_ignore_comment(&lines, 4));
    assert!(!has_doctor_ignore_comment(&lines, 0));
    assert!(!has_doctor_ignore_comment(&lines, 9));
}

#[test]
fn alias_chains_resolve_to_their_root() {
    let aliases: Vec<(String, String)> = vec![("b", "a"), ("c", "b"), ("self", "self")]
        .into_iter()
        .map(|(k, v)| (k.to_string(), v.to_string()))
        .collect();
    assert_eq!(resolve_identifier_alias_root(&aliases, "c"), Some("a".to_string()));
    assert_eq!(resolve_identifier_alias_root(&aliases, "a"), None);
    assert_eq!(resolve_identifier_alias_root(&aliases, "self"), None);
    let cycle: Vec<(String, String)> = vec![("x".to_string(), "y".to_string()), ("y".to_string(), "x".to_string())];
    // 33 steps from `x` end on `y`.
    assert_eq!(resolve_identifier_alias_root(&cycle, "x"), Some("y".to_string()));
}

#[test]
fn secret_prefixes_need_more_than_ten_bytes() {
    assert_eq!(secret_prefix("sk_live_1234567890"), Some("sk_live_"));
    assert_eq!(secret_prefix("sk-12345678"), Some("sk-"));
    assert_eq!(secret_prefix("sk-1234567"), None);
    assert_eq!(secret_prefix("AKIAéééé"), Some("AKIA"));
    assert_eq!(secret_prefix("hello world, not a key"), None);
}

#[test]
fn auth_helpers_by_name_and_arguments() {
    assert!(is_auth_helper_call("requireAuth", true, true));
    assert!(!is_auth_helper_call("requireAuth", true, false));
    assert!(is_auth_helper_call("ensureSessionValid", true, true));
    assert!(!is_auth_helper_call("ensureValid", true, true));
    assert!(!is_auth_helper_call("loadUser", true, true));
}

#[test]
fn a_function_of_unknown_kind_is_built_as_a_query() {
    let f = FunctionBuilder { name: "list".to_string(), handler_line_count: 7, span_line: 2, ..Default::default() }.build();
    assert_eq!(f.kind, convex_doctor::rules::FunctionKind::Query);
    assert_eq!(f.name, "list");
    assert_eq!(f.handler_line_count, 7);
    let g = FunctionBuilder { kind: Some(convex_doctor::rules::FunctionKind::InternalAction), ..Default::default() }.build();
    assert_eq!(g.kind, convex_doctor::rules::FunctionKind::InternalAction);
}

#[test]
fn pending_functions_keep_one_per_name() {
    let f = |name: &str, line: u32| ConvexFunction {
        name: name.to_string(),
        kind: FunctionKind::Query,
        span_line: line,
        ..Default::default()
    };
    let mut pending = PendingFunctions::new();
    pending.defer(f("list", 1));
    pending.defer(f("get", 2));
    pending.defer(f("list", 3));
    let taken = pending.take("list").unwrap();
    assert_eq!(taken.span_line, 3);
    assert!(pending.take("list").is_none());
    assert_eq!(pending.take("get").unwrap().span_line, 2);
    assert!(pending.take("get").is_none());
}

#[test]
fn name_map_sets_replaces_and_removes() {
    let mut aliases = NameMap::new();
    aliases.insert("a".to_string(), "b".to_string());
    aliases.insert("c".to_string(), "d".to_string());
    aliases.insert("a".to_string(), "e".to_string());
    assert_eq!(aliases.get("a"), Some("e".to_string()));
    assert_eq!(aliases.pairs().len(), 2);
    aliases.remove("a");
    assert_eq!(aliases.get("a"), None);
    assert_eq!(aliases.get("c"), Some("d".to_string()));
    aliases.insert("x".to_string(), "c".to_string());
    assert_eq!(resolve_identifier_alias_root(aliases.pairs(), "x"), Some("d".to_string()));
}

#[test]
fn export_names_are_handed_out_in_order() {
    let mut names = ExportNames::new();
    assert!(names.is_empty());
    assert_eq!(names.next_name(), None);
    names.enter(vec!["a".to_string(), "b".to_string()]);
    assert!(!names.is_empty());
    assert_eq!(names.next_name(), Some("a".to_string()));
    assert_eq!(names.next_name(), Some("b".to_string()));
    assert_eq!(names.next_name(), None);
    names.leave();
    assert!(names.is_empty());
}

#[test]
fn convex_react_imports_are_hooks_or_providers() {
    assert!(is_convex_react_import("convex/react"));
    assert!(is_convex_react_import("convex/react-clerk"));
    assert!(!is_convex_react_import("convex/server"));
    assert_eq!(react_import("useQuery"), ReactImport::Hook);
    assert_eq!(react_import("ConvexReactClient"), ReactImport::Provider);
    assert_eq!(react_import("usePaginatedQuery"), ReactImport::Other);
}
