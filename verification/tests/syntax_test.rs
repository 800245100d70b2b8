use convex_doctor::rules::FunctionKind;
use convex_doctor::syntax::{
    call_uses_auth_helper, callee_name_of, collect_identifiers, contains_ctx_auth,
    contains_process_env, expression_has_identifier, extract_filter_field_names,
    get_function_kind, is_convex_function_call, is_ctx_call, is_pagination_opts_validator_expr,
    resolve_member_chain, Expr, Exprs, Stmt, Stmts,
};

fn ident(name: &str) -> Expr {
    Expr::Ident(name.to_string())
}

fn member(object: Expr, property: &str) -> Expr {
    Expr::Member(Box::new(object), property.to_string())
}

fn list(items: Vec<Expr>) -> Exprs {
    items
        .into_iter()
        .rev()
        .fold(Exprs::Nil, |tail, head| Exprs::Cons(Box::new(head), Box::new(tail)))
}

fn call(callee: Expr, args: Vec<Expr>) -> Expr {
    Expr::Call(Box::new(callee), Box::new(list(args)), 0)
}

fn string(value: &str) -> Expr {
    Expr::Str(value.to_string())
}

#[test]
fn member_chain_of_a_ctx_call() {
    let callee = member(member(ident("ctx"), "db"), "query");
    assert_eq!(resolve_member_chain(&callee), Some("ctx.db.query".to_string()));
    assert!(is_ctx_call(&callee));
    let through_call = member(call(callee, vec![string("users")]), "collect");
    assert_eq!(
        resolve_member_chain(&through_call),
        Some("ctx.db.query.collect".to_string())
    );
}

#[test]
fn member_chain_stops_at_an_index() {
    let e = member(
        Expr::Computed(Box::new(ident("obj")), Box::new(string("key"))),
        "run",
    );
    assert_eq!(resolve_member_chain(&e), None);
    assert!(!is_ctx_call(&e));
    assert!(!is_ctx_call(&member(ident("context"), "db")));
}

#[test]
fn callee_name_is_the_last_property() {
    assert_eq!(
        callee_name_of(&member(ident("auth"), "requireUser")),
        Some("requireUser".to_string())
    );
    assert_eq!(callee_name_of(&ident("getUser")), Some("getUser".to_string()));
    assert_eq!(callee_name_of(&Expr::Other), None);
}

#[test]
fn identifier_in_call_arguments() {
    let e = call(ident("helper"), vec![member(ident("ctx"), "db")]);
    assert!(expression_has_identifier(&e, "ctx"));
    assert!(expression_has_identifier(&e, "helper"));
    assert!(!expression_has_identifier(&e, "db"));
    let chained = Expr::ChainCall(Box::new(ident("helper")), Box::new(list(vec![ident("ctx")])));
    assert!(!expression_has_identifier(&chained, "ctx"));
}

#[test]
fn ctx_auth_in_a_chain() {
    let e = call(member(member(ident("ctx"), "auth"), "getUserIdentity"), vec![]);
    assert!(contains_ctx_auth(&e));
    assert!(!contains_ctx_auth(&call(member(member(ident("ctx"), "db"), "get"), vec![])));
}

#[test]
fn process_env_in_a_conditional_test() {
    let test = member(member(ident("process"), "env"), "FLAG");
    let e = Expr::Conditional(Box::new(test), Box::new(ident("a")), Box::new(ident("b")));
    assert!(contains_process_env(&e));
    assert!(!contains_process_env(&member(ident("process"), "argv")));
}

#[test]
fn convex_constructor_calls() {
    assert_eq!(get_function_kind(&ident("internalMutation")), Some(FunctionKind::InternalMutation));
    assert_eq!(get_function_kind(&ident("defineTable")), None);
    assert!(is_convex_function_call(&call(ident("query"), vec![])));
    assert!(!is_convex_function_call(&ident("query")));
}

#[test]
fn pagination_validator_through_members() {
    assert!(is_pagination_opts_validator_expr(&ident("paginationOptsValidator")));
    assert!(is_pagination_opts_validator_expr(&member(ident("v"), "paginationOptsValidator")));
    assert!(!is_pagination_opts_validator_expr(&member(ident("v"), "string")));
}

#[test]
fn auth_helper_needs_ctx_or_request() {
    let callee = ident("requireAuth");
    assert!(call_uses_auth_helper(&callee, &list(vec![ident("ctx")])));
    assert!(!call_uses_auth_helper(&callee, &list(vec![ident("user")])));
    assert!(!call_uses_auth_helper(&ident("formatDate"), &list(vec![ident("ctx")])));
}

#[test]
fn identifiers_in_order() {
    let e = Expr::Array(Box::new(list(vec![
        ident("a"),
        call(member(ident("b"), "c"), vec![ident("d"), string("s")]),
        Expr::Binary(Box::new(ident("e")), Box::new(ident("f"))),
    ])));
    let mut out = vec!["z".to_string()];
    collect_identifiers(&e, &mut out);
    assert_eq!(out, vec!["z", "a", "b", "d", "e", "f"]);
}

#[test]
fn filter_fields_of_an_arrow_callback() {
    // q => q.eq(q.field("status"), "active")
    let field = call(member(ident("q"), "field"), vec![string("status")]);
    let body = call(member(ident("q"), "eq"), vec![field, string("active")]);
    let arrow = Expr::Arrow(Box::new(Stmts::Cons(
        Box::new(Stmt::Expression(Box::new(body))),
        Box::new(Stmts::Nil),
    )));
    assert_eq!(extract_filter_field_names(&arrow), vec!["status".to_string()]);
}

#[test]
fn filter_fields_of_a_function_body() {
    // function (q) { const x = 1; return q.and(q.field("a"), q.field("b")); }
    let a = call(member(ident("q"), "field"), vec![string("a")]);
    let b = call(member(ident("q"), "field"), vec![string("b")]);
    let ret = call(member(ident("q"), "and"), vec![a, b]);
    let body = Stmts::Cons(
        Box::new(Stmt::Other),
        Box::new(Stmts::Cons(Box::new(Stmt::Return(Box::new(ret))), Box::new(Stmts::Nil))),
    );
    let func = Expr::Function(Box::new(body));
    assert_eq!(
        extract_filter_field_names(&func),
        vec!["a".to_string(), "b".to_string()]
    );
    // A field call on something that is not a name is not a compared field.
    let not_a_name = call(member(call(ident("f"), vec![]), "field"), vec![string("x")]);
    assert!(extract_filter_field_names(&not_a_name).is_empty());
}
