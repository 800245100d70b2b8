use convex_doctor::analysis::{FunctionBuilder, NameMap};
use convex_doctor::rules::FunctionKind;
use convex_doctor::calls::{
    ctx_call_record, define_table_call_start, register_function, defines_table, index_table_id, table_id, CallSite,
    api_refs, arg_chain, cron_helper, cron_method, cron_non_reference, ctx_call_target,
    db_chain_call, first_call_chain, function_config, index_definition, is_global_call,
    is_id_array, is_loop_relevant_ctx_call, is_old_syntax, is_raw_arg_patch, large_write,
    path_has_webhook_segment, query_delete_chain, route, search_index_definition,
    webhook_mentioned_near,
};
use convex_doctor::syntax::{Expr, Exprs, Props};

fn ident(name: &str) -> Expr {
    Expr::Ident(name.to_string())
}

fn member(object: Expr, property: &str) -> Expr {
    Expr::Member(Box::new(object), property.to_string())
}

fn chain(path: &str) -> Expr {
    let mut parts = path.split('.');
    let mut e = ident(parts.next().unwrap());
    for p in parts {
        e = member(e, p);
    }
    e
}

fn list(items: Vec<Expr>) -> Exprs {
    items
        .into_iter()
        .rev()
        .fold(Exprs::Nil, |tail, head| Exprs::Cons(Box::new(head), Box::new(tail)))
}

fn call(callee: Expr, args: Vec<Expr>) -> Expr {
    Expr::Call(Box::new(callee), Box::new(list(args)), 0)
}

fn string(value: &str) -> Expr {
    Expr::Str(value.to_string())
}

fn object(props: Vec<(Option<&str>, Expr)>) -> Props {
    props.into_iter().rev().fold(Props::Nil, |tail, (k, v)| {
        Props::Cons(k.map(str::to_string), Box::new(v), Box::new(tail))
    })
}

/// `ctx.db.query("t").withIndex("i", f)` as a receiver for a further method.
fn indexed_query() -> Expr {
    let query = call(chain("ctx.db.query"), vec![string("t")]);
    call(member(query, "withIndex"), vec![string("by_x"), Expr::Other])
}

#[test]
fn collect_on_a_db_chain() {
    let callee = member(indexed_query(), "collect");
    assert_eq!(
        db_chain_call(&callee, "collect"),
        Some("ctx.db.query.withIndex.collect".to_string())
    );
    assert_eq!(db_chain_call(&callee, "filter"), None);
    assert_eq!(db_chain_call(&chain("items.collect"), "collect"), None);
}

#[test]
fn first_needs_an_index() {
    let indexed = member(indexed_query(), "first");
    assert_eq!(
        first_call_chain(&indexed),
        Some("ctx.db.query.withIndex.first".to_string())
    );
    let plain = member(call(chain("ctx.db.query"), vec![string("t")]), "first");
    assert_eq!(first_call_chain(&plain), None);
}

#[test]
fn delete_only_inside_queries() {
    let callee = member(indexed_query(), "delete");
    assert_eq!(
        query_delete_chain(&callee, true),
        Some("ctx.db.query.withIndex.delete".to_string())
    );
    assert_eq!(query_delete_chain(&callee, false), None);
}

#[test]
fn global_calls_and_id_arrays() {
    assert!(is_global_call(&chain("v.optional"), "v", "optional"));
    assert!(!is_global_call(&chain("x.v.optional"), "v", "optional"));
    let ids = list(vec![call(chain("v.id"), vec![string("users")])]);
    assert!(is_id_array(&chain("v.array"), &ids));
    assert!(!is_id_array(&chain("v.array"), &list(vec![call(chain("v.string"), vec![])])));
}

#[test]
fn scheduler_targets_the_second_argument() {
    let args = list(vec![ident("delay"), chain("internal.jobs.run")]);
    assert_eq!(
        ctx_call_target("ctx.scheduler.runAfter", &args),
        Some("internal.jobs.run".to_string())
    );
    assert_eq!(ctx_call_target("ctx.runMutation", &args), Some("delay".to_string()));
    assert_eq!(arg_chain(&args, 2), None);
    assert!(is_loop_relevant_ctx_call("ctx.runQuery"));
    assert!(!is_loop_relevant_ctx_call("ctx.db.get"));
}

#[test]
fn raw_args_patch() {
    assert!(is_raw_arg_patch("ctx.db.patch", &list(vec![ident("id"), ident("args")])));
    assert!(!is_raw_arg_patch("ctx.db.patch", &list(vec![ident("id"), chain("args.data")])));
    assert!(!is_raw_arg_patch("ctx.db.replace", &list(vec![ident("id"), ident("args")])));
}

#[test]
fn cron_registrations() {
    assert_eq!(cron_method(&chain("crons.daily")), Some("daily".to_string()));
    assert_eq!(cron_method(&chain("myCronJobs.interval")), Some("interval".to_string()));
    assert_eq!(cron_method(&chain("jobs.daily")), None);
    assert!(cron_helper("weekly"));
    assert!(!cron_helper("cron"));
    let args = list(vec![string("job"), Expr::Other, chain("handlers.cleanup"), chain("api.jobs.run")]);
    assert_eq!(cron_non_reference(&args), Some("handlers.cleanup".to_string()));
    assert_eq!(api_refs(&args), vec!["api.jobs.run".to_string()]);
}

#[test]
fn index_and_search_index_definitions() {
    let fields = Expr::Array(Box::new(list(vec![string("a"), ident("b"), string("c")])));
    let def = index_definition(&chain("t.index"), &list(vec![string("by_ac"), fields]));
    assert_eq!(def, Some(("by_ac".to_string(), vec!["a".to_string(), "c".to_string()])));
    assert_eq!(index_definition(&chain("t.index"), &list(vec![string("only_name")])), None);
    let options = Expr::Object(Box::new(object(vec![
        (Some("searchField"), string("body")),
        (Some("filterFields"), Expr::Array(Box::new(Exprs::Nil))),
    ])));
    assert_eq!(
        search_index_definition(&chain("t.searchIndex"), &list(vec![string("search"), options])),
        Some(("search".to_string(), true))
    );
}

#[test]
fn large_writes_over_twenty_properties() {
    let props: Vec<(Option<&str>, Expr)> = (0..21).map(|_| (Some("f"), string("x"))).collect();
    let args = list(vec![string("t"), Expr::Object(Box::new(object(props)))]);
    assert_eq!(
        large_write("ctx.db.insert", &args),
        Some("ctx.db.insert with 21 properties".to_string())
    );
    let small: Vec<(Option<&str>, Expr)> = (0..20).map(|_| (Some("f"), string("x"))).collect();
    let args = list(vec![string("t"), Expr::Object(Box::new(object(small)))]);
    assert_eq!(large_write("ctx.db.insert", &args), None);
}

#[test]
fn configuration_of_a_registration() {
    let args_object = Expr::Object(Box::new(object(vec![
        (Some("internalSecret"), call(chain("v.string"), vec![])),
        (Some("paginationOpts"), ident("paginationOptsValidator")),
        (Some("payload"), call(chain("v.any"), vec![])),
        (Some("owner"), call(chain("v.id"), vec![])),
        (None, call(chain("v.id"), vec![])),
    ])));
    let config = object(vec![
        (Some("args"), args_object),
        (Some("handler"), Expr::Other),
    ]);
    let c = function_config(&config);
    assert!(c.has_args_validator);
    assert!(!c.has_return_validator);
    assert_eq!(c.arg_names, vec!["internalSecret", "paginationOpts", "payload", "owner"]);
    assert!(c.has_internal_secret);
    assert_eq!(c.pagination_args, 1);
    assert!(c.has_any_validator_in_args);
    assert_eq!(
        c.generic_id_validators,
        vec![
            "Arg 'owner' uses v.id() without table name".to_string(),
            "v.id() without table name".to_string(),
        ]
    );
    assert!(is_old_syntax(&list(vec![Expr::Arrow(Box::new(convex_doctor::syntax::Stmts::Nil))])));
    assert!(!is_old_syntax(&list(vec![Expr::Object(Box::new(Props::Nil))])));
    assert!(!is_old_syntax(&Exprs::Nil));
}

#[test]
fn routes_and_webhooks() {
    let config = Expr::Object(Box::new(object(vec![
        (Some("path"), string("/api/Webhook/stripe")),
        (Some("method"), string("POST")),
        (Some("handler"), ident("h")),
    ])));
    assert_eq!(
        route(&chain("http.route"), &list(vec![config])),
        Some(("POST".to_string(), "/api/Webhook/stripe".to_string()))
    );
    assert!(path_has_webhook_segment("/api/Webhook/stripe"));
    assert!(!path_has_webhook_segment("/api/webhooks"));
    let lines = vec![
        "// Stripe WEBHOOK endpoint".to_string(),
        "".to_string(),
        "http.route({".to_string(),
    ];
    assert!(webhook_mentioned_near(&lines, 3));
    assert!(!webhook_mentioned_near(&lines, 0));
    let far: Vec<String> = std::iter::once("// webhook".to_string())
        .chain((0..5).map(|_| String::new()))
        .collect();
    assert!(!webhook_mentioned_near(&far, 6));
}

#[test]
fn tables_of_index_definitions() {
    let fields = Expr::Object(Box::new(Props::Nil));
    let define = Expr::Call(Box::new(ident("defineTable")), Box::new(list(vec![fields])), 120);
    assert!(defines_table(&ident("defineTable"), &list(vec![Expr::Object(Box::new(Props::Nil))])));
    assert!(!defines_table(&ident("defineTable"), &list(vec![ident("fields")])));
    // defineTable({..}).index("a", [..]).index("b", [..])
    let first = call(member(define, "index"), vec![string("a"), Expr::Array(Box::new(Exprs::Nil))]);
    assert_eq!(define_table_call_start(&first), Some(120));
    let second_callee = member(first, "index");
    let aliases = NameMap::new();
    assert_eq!(index_table_id(&second_callee, &aliases), Some("table@120".to_string()));
    // users.index("by_email", [..]) where `users` names a table.
    let mut aliases = NameMap::new();
    aliases.insert("users".to_string(), "table@7".to_string());
    assert_eq!(index_table_id(&chain("users.index"), &aliases), Some("table@7".to_string()));
    assert_eq!(table_id(&ident("posts"), &aliases), None);
    assert_eq!(index_table_id(&chain("users.filter"), &aliases), None);
}

#[test]
fn ctx_call_records_its_enclosing_function() {
    let builder = FunctionBuilder {
        name: "send".to_string(),
        has_internal_secret: true,
        span_line: 12,
        span_col: 14,
        ..Default::default()
    };
    let site = CallSite {
        is_awaited: true,
        is_returned: false,
        assigned_to: Some("id".to_string()),
        enclosing_function_kind: Some(FunctionKind::Mutation),
    };
    let args = list(vec![ident("delay"), chain("internal.mail.deliver")]);
    let c = ctx_call_record("ctx.scheduler.runAfter".to_string(), &args, 20, 5, site, Some(&builder));
    assert_eq!(c.first_arg_chain, Some("internal.mail.deliver".to_string()));
    assert_eq!(c.enclosing_function_id, Some("send@12:14".to_string()));
    assert_eq!(c.enclosing_function_name, Some("send".to_string()));
    assert!(c.enclosing_function_has_internal_secret);
    assert!(c.is_awaited);
    let site = CallSite {
        is_awaited: false,
        is_returned: true,
        assigned_to: None,
        enclosing_function_kind: None,
    };
    let c = ctx_call_record("ctx.db.get".to_string(), &list(vec![ident("id")]), 1, 1, site, None);
    assert_eq!(c.enclosing_function_id, None);
    assert_eq!(c.first_arg_chain, Some("id".to_string()));
    assert!(!c.enclosing_function_has_internal_secret);
}

#[test]
fn registrations_read_their_configuration() {
    let config = Expr::Object(Box::new(object(vec![
        (Some("args"), Expr::Object(Box::new(object(vec![(Some("id"), call(chain("v.id"), vec![]))])))),
        (Some("returns"), call(chain("v.null"), vec![])),
    ])));
    let r = register_function("get".to_string(), FunctionKind::Query, 3, 14, false, 5, &list(vec![config]));
    assert!(r.builder.has_args_validator);
    assert!(r.builder.has_return_validator);
    assert_eq!(r.builder.arg_names, vec!["id".to_string()]);
    assert_eq!(r.builder.handler_line_count, 5);
    assert_eq!(r.generic_id_validators, vec!["Arg 'id' uses v.id() without table name".to_string()]);
    assert_eq!(r.old_syntax, None);
    let legacy = register_function(
        "list".to_string(),
        FunctionKind::Mutation,
        8,
        1,
        true,
        0,
        &list(vec![Expr::Arrow(Box::new(convex_doctor::syntax::Stmts::Nil))]),
    );
    assert_eq!(legacy.old_syntax, Some("list() using old function syntax".to_string()));
    assert!(!legacy.builder.has_args_validator);
    assert!(legacy.builder.is_intentionally_public);
    assert_eq!(legacy.builder.kind, Some(FunctionKind::Mutation));
}
