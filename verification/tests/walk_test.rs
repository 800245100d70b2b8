use convex_doctor::analysis::{FunctionBuilder, PendingFunctions};
use convex_doctor::rules::{ConvexFunction, FunctionKind};
use convex_doctor::syntax::Expr;
use convex_doctor::walk::{export_pending, handler_lines, settle_function, WalkState};

fn builder(name: &str) -> FunctionBuilder {
    FunctionBuilder { name: name.to_string(), ..Default::default() }
}

fn filter_on(var: &str) -> Expr {
    Expr::Member(Box::new(Expr::Ident(var.to_string())), "filter".to_string())
}

#[test]
fn functions_nest_and_restore_their_kind() {
    let mut walk = WalkState::new();
    assert!(!walk.in_query());
    assert!(!walk.in_function());
    let outer = walk.start_function(FunctionKind::InternalQuery, builder("list"));
    assert_eq!(outer, None);
    assert!(walk.in_query());
    let inner = walk.start_function(FunctionKind::Mutation, builder("save"));
    assert_eq!(inner, Some(FunctionKind::InternalQuery));
    assert!(!walk.in_query());
    walk.mark_auth_check();
    let saved = walk.end_function(inner).unwrap();
    assert_eq!(saved.name, "save");
    assert!(saved.has_auth_check);
    assert_eq!(walk.function_kind(), Some(FunctionKind::InternalQuery));
    assert_eq!(walk.current_function().unwrap().name, "list");
    assert!(!walk.current_function().unwrap().has_auth_check);
    walk.end_function(outer);
    assert!(!walk.in_function());
    assert_eq!(walk.function_kind(), None);
}

#[test]
fn filter_after_collect_is_reported_within_the_function() {
    let mut walk = WalkState::new();
    walk.start_function(FunctionKind::Query, builder("list"));
    walk.note_collect(&Some("rows".to_string()));
    walk.note_collect(&None);
    assert_eq!(
        walk.collect_filter(&filter_on("rows")),
        Some("rows.filter() after .collect() — filter in JS instead of using an index".to_string())
    );
    assert_eq!(walk.collect_filter(&filter_on("other")), None);
    walk.start_function(FunctionKind::Query, builder("next"));
    assert_eq!(walk.collect_filter(&filter_on("rows")), None);
}

#[test]
fn loops_and_validators_are_counted() {
    let mut walk = WalkState::new();
    assert!(!walk.in_loop());
    walk.enter_loop();
    walk.enter_loop();
    walk.leave_loop();
    assert!(walk.in_loop());
    walk.leave_loop();
    walk.leave_loop();
    assert!(!walk.in_loop());
    walk.enter_validator();
    walk.enter_validator();
    walk.leave_validator();
    walk.enter_validator();
    walk.leave_validator();
    walk.leave_validator();
    assert_eq!(walk.deepest_validators(), 2);
}

#[test]
fn finished_functions_are_exported_or_wait() {
    let f = |name: &str, line: u32| ConvexFunction { name: name.to_string(), span_line: line, ..Default::default() };
    let mut functions = Vec::new();
    let mut exported = 0u32;
    let mut pending = PendingFunctions::new();
    settle_function(&mut functions, &mut exported, &mut pending, f("a", 1), true);
    settle_function(&mut functions, &mut exported, &mut pending, f("b", 2), false);
    assert_eq!(functions.len(), 1);
    assert_eq!(exported, 1);
    export_pending(&mut functions, &mut exported, &mut pending, "b", "renamed");
    assert_eq!(functions.len(), 2);
    assert_eq!(functions[1].name, "renamed");
    assert_eq!(functions[1].span_line, 2);
    assert_eq!(exported, 2);
    export_pending(&mut functions, &mut exported, &mut pending, "b", "again");
    assert_eq!(functions.len(), 2);
    assert_eq!(exported, 2);
}

#[test]
fn handler_lines_count_both_ends() {
    assert_eq!(handler_lines(3, 7), 5);
    assert_eq!(handler_lines(4, 4), 1);
    assert_eq!(handler_lines(0, u32::MAX), u32::MAX);
}
