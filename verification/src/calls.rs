//! What the analyser reads from one call expression, given its callee and arguments: database
//! query chains, calls on a global object (`v.optional()`, `Date.now()`), the configuration of
//! a function registration and its validators, index and search index definitions and the
//! tables they belong to, HTTP routes, cron registrations, large writes, and the record of a
//! `ctx` call with the function reference it hands on.
use vstd::prelude::*;

use crate::analysis::{lookup, FunctionBuilder, NameMap};
use crate::rules::{CtxCall, FunctionKind};
use crate::syntax::{
    is_pagination_opts_validator_expr, member_chain, mentions_pagination_validator,
    resolve_member_chain, Expr, Exprs, Props,
};
use crate::text::{
    chars_of, contains, decimal, decimal_string, eq_ignore_ascii_case, eq_ignore_case, has_infix,
    has_prefix, lemma_string_views_push, lower_seq, matches_at, owned, push_str,
    slice_matches_at, starts_with, str_eq, string_views, to_ascii_lowercase,
};

verus! {

/// The property of a plain member callee `object.property`.
pub open spec fn member_property(callee: Expr) -> Option<Seq<char>> {
    match callee {
        Expr::Member(_, p) => Some(p@),
        _ => None,
    }
}

/// The dotted chain of `e`, or the empty text where it has none.
pub open spec fn chain_text(e: Expr) -> Seq<char> {
    match member_chain(e) {
        Some(c) => c,
        None => Seq::empty(),
    }
}

/// The chain of `e`, or the empty text where it has none.
pub fn chain_or_empty(e: &Expr) -> (r: String)
    ensures
        r@ == chain_text(*e),
{
    match resolve_member_chain(e) {
        Some(c) => c,
        None => {
            let r = owned("");
            proof {
                reveal_strlit("");
            }
            r
        },
    }
}

/// A call `<chain>.property(..)` on a `ctx.db` chain: the callee's full chain.
pub open spec fn db_chain_of(callee: Expr, property: Seq<char>) -> Option<Seq<char>> {
    if member_property(callee) == Some(property) && has_infix(chain_text(callee), "ctx.db"@) {
        Some(chain_text(callee))
    } else {
        None
    }
}

/// The full chain of a call `<chain>.property(..)` whose chain mentions `ctx.db`
/// (`.collect()` and `.filter()` on a database query).
pub fn db_chain_call(callee: &Expr, property: &str) -> (r: Option<String>)
    ensures
        match r {
            Some(c) => db_chain_of(*callee, property@) == Some(c@),
            None => db_chain_of(*callee, property@) is None,
        },
{
    let is_property = match callee {
        Expr::Member(_, p) => str_eq(p.as_str(), property),
        _ => false,
    };
    if !is_property {
        return None;
    }
    let chain = chain_or_empty(callee);
    if contains(chain.as_str(), "ctx.db") {
        Some(chain)
    } else {
        None
    }
}

/// A `.first()` on a `ctx.db` chain that went through `.withIndex(..)`.
pub open spec fn first_call_of(callee: Expr) -> Option<Seq<char>> {
    match db_chain_of(callee, "first"@) {
        Some(c) => if has_infix(c, ".withIndex."@) {
            Some(c)
        } else {
            None
        },
        None => None,
    }
}

/// The chain of a `.first()` on an indexed `ctx.db` query.
pub fn first_call_chain(callee: &Expr) -> (r: Option<String>)
    ensures
        match r {
            Some(c) => first_call_of(*callee) == Some(c@),
            None => first_call_of(*callee) is None,
        },
{
    match db_chain_call(callee, "first") {
        Some(c) => if contains(c.as_str(), ".withIndex.") {
            Some(c)
        } else {
            None
        },
        None => None,
    }
}

/// A `.delete()` inside a query handler on a `ctx.db` chain that went through `.query(..)`,
/// `.withIndex(..)` or `.withSearchIndex(..)`.
pub open spec fn query_delete_of(callee: Expr, in_query: bool) -> Option<Seq<char>> {
    match db_chain_of(callee, "delete"@) {
        Some(c) => if in_query && (has_infix(c, ".query."@) || has_infix(c, ".withIndex."@)
            || has_infix(c, ".withSearchIndex."@)) {
            Some(c)
        } else {
            None
        },
        None => None,
    }
}

/// The chain of a `.delete()` on a database query inside a query handler.
pub fn query_delete_chain(callee: &Expr, in_query: bool) -> (r: Option<String>)
    ensures
        match r {
            Some(c) => query_delete_of(*callee, in_query) == Some(c@),
            None => query_delete_of(*callee, in_query) is None,
        },
{
    if !in_query {
        return None;
    }
    match db_chain_call(callee, "delete") {
        Some(c) => if contains(c.as_str(), ".query.") || contains(c.as_str(), ".withIndex.")
            || contains(c.as_str(), ".withSearchIndex.") {
            Some(c)
        } else {
            None
        },
        None => None,
    }
}

/// The callee is `object.property` with `object` a plain name.
pub open spec fn global_call_of(callee: Expr, object: Seq<char>, property: Seq<char>) -> bool {
    callee matches Expr::Member(o, p) && p@ == property && (*o matches Expr::Ident(n) && n@ == object)
}

/// Whether the callee is `object.property`, such as `v.optional` or `Date.now`.
pub fn is_global_call(callee: &Expr, object: &str, property: &str) -> (b: bool)
    ensures
        b == global_call_of(*callee, object@, property@),
{
    match callee {
        Expr::Member(o, p) => match &**o {
            Expr::Ident(n) => str_eq(p.as_str(), property) && str_eq(n.as_str(), object),
            _ => false,
        },
        _ => false,
    }
}

/// `v.array(v.id(..), ..)`: an array of document ids.
pub open spec fn id_array_of(callee: Expr, args: Exprs) -> bool {
    global_call_of(callee, "v"@, "array"@) && (args matches Exprs::Cons(first, _)
        && (*first matches Expr::Call(c, _, _) && global_call_of(*c, "v"@, "id"@)))
}

/// Whether the call is `v.array(v.id(..))`.
pub fn is_id_array(callee: &Expr, args: &Exprs) -> (b: bool)
    ensures
        b == id_array_of(*callee, *args),
{
    if !is_global_call(callee, "v", "array") {
        return false;
    }
    match args {
        Exprs::Cons(first, _) => match &**first {
            Expr::Call(c, _, _) => is_global_call(c, "v", "id"),
            _ => false,
        },
        Exprs::Nil => false,
    }
}

/// The `i`-th argument of a call.
pub open spec fn nth_arg(args: Exprs, i: nat) -> Option<Expr>
    decreases args,
{
    match args {
        Exprs::Nil => None,
        Exprs::Cons(h, t) => if i == 0 {
            Some(*h)
        } else {
            nth_arg(*t, (i - 1) as nat)
        },
    }
}

/// The chain of the `i`-th argument, where it has one.
pub open spec fn arg_chain_of(args: Exprs, i: nat) -> Option<Seq<char>> {
    match nth_arg(args, i) {
        Some(e) => member_chain(e),
        None => None,
    }
}

/// The chain of the `i`-th argument of a call, where there is one and it has a chain.
pub fn arg_chain(args: &Exprs, i: usize) -> (r: Option<String>)
    ensures
        match r {
            Some(c) => arg_chain_of(*args, i as nat) == Some(c@),
            None => arg_chain_of(*args, i as nat) is None,
        },
    decreases args,
{
    match args {
        Exprs::Nil => None,
        Exprs::Cons(h, t) => if i == 0 {
            resolve_member_chain(h)
        } else {
            arg_chain(t, i - 1)
        },
    }
}

/// The argument of a `ctx` call that names the function it hands on: the second for
/// `ctx.scheduler.runAfter` and `ctx.scheduler.runAt`, the first otherwise.
pub open spec fn ctx_target_index(chain: Seq<char>) -> nat {
    if has_prefix(chain, "ctx.scheduler.runAfter"@) || has_prefix(chain, "ctx.scheduler.runAt"@) {
        1
    } else {
        0
    }
}

/// The chain of the function reference that a `ctx` call with `chain` hands on.
pub fn ctx_call_target(chain: &str, args: &Exprs) -> (r: Option<String>)
    ensures
        match r {
            Some(c) => arg_chain_of(*args, ctx_target_index(chain@)) == Some(c@),
            None => arg_chain_of(*args, ctx_target_index(chain@)) is None,
        },
{
    let index: usize = if starts_with(chain, "ctx.scheduler.runAfter") || starts_with(
        chain,
        "ctx.scheduler.runAt",
    ) {
        1
    } else {
        0
    };
    arg_chain(args, index)
}

/// A `ctx` call that matters inside a loop: one that runs or schedules another function.
pub open spec fn loop_relevant_chain(chain: Seq<char>) -> bool {
    has_prefix(chain, "ctx.runMutation"@) || has_prefix(chain, "ctx.runQuery"@) || has_prefix(
        chain,
        "ctx.runAction"@,
    ) || has_prefix(chain, "ctx.scheduler"@)
}

/// Whether a `ctx` call with `chain` runs or schedules another function.
pub fn is_loop_relevant_ctx_call(chain: &str) -> (b: bool)
    ensures
        b == loop_relevant_chain(chain@),
{
    starts_with(chain, "ctx.runMutation") || starts_with(chain, "ctx.runQuery") || starts_with(
        chain,
        "ctx.runAction",
    ) || starts_with(chain, "ctx.scheduler")
}

/// `ctx.db.patch(id, args)`: the handler's arguments written as they came.
pub open spec fn raw_arg_patch_of(chain: Seq<char>, args: Exprs) -> bool {
    has_prefix(chain, "ctx.db.patch"@) && arg_chain_of(args, 1) == Some("args"@)
}

/// Whether a `ctx` call with `chain` patches a document with the raw `args`.
pub fn is_raw_arg_patch(chain: &str, args: &Exprs) -> (b: bool)
    ensures
        b == raw_arg_patch_of(chain@, *args),
{
    if !starts_with(chain, "ctx.db.patch") {
        return false;
    }
    match arg_chain(args, 1) {
        Some(c) => str_eq(c.as_str(), "args"),
        None => false,
    }
}

/// The cron scheduling methods.
pub open spec fn is_cron_method(p: Seq<char>) -> bool {
    p == "interval"@ || p == "hourly"@ || p == "daily"@ || p == "weekly"@ || p == "monthly"@
        || p == "cron"@
}

/// A cron registration `crons.<method>(..)`: a cron scheduling method on a receiver whose chain
/// is `crons` or mentions `cron` or `Cron`. Gives the method's name.
pub open spec fn cron_method_of(callee: Expr) -> Option<Seq<char>> {
    match callee {
        Expr::Member(o, p) => {
            let receiver = chain_text(*o);
            if is_cron_method(p@) && (receiver == "crons"@ || has_infix(receiver, "cron"@)
                || has_infix(receiver, "Cron"@)) {
                Some(p@)
            } else {
                None
            }
        },
        _ => None,
    }
}

/// The method of a cron registration.
pub fn cron_method(callee: &Expr) -> (r: Option<String>)
    ensures
        match r {
            Some(m) => cron_method_of(*callee) == Some(m@),
            None => cron_method_of(*callee) is None,
        },
{
    match callee {
        Expr::Member(o, p) => {
            let m = p.as_str();
            let is_method = str_eq(m, "interval") || str_eq(m, "hourly") || str_eq(m, "daily")
                || str_eq(m, "weekly") || str_eq(m, "monthly") || str_eq(m, "cron");
            if !is_method {
                return None;
            }
            let receiver = chain_or_empty(o);
            if str_eq(receiver.as_str(), "crons") || contains(receiver.as_str(), "cron") || contains(
                receiver.as_str(),
                "Cron",
            ) {
                Some(owned(m))
            } else {
                None
            }
        },
        _ => None,
    }
}

/// The cron helpers that hide the schedule's time zone: `hourly`, `daily` and `weekly`.
pub open spec fn is_cron_helper(method: Seq<char>) -> bool {
    method == "hourly"@ || method == "daily"@ || method == "weekly"@
}

/// Whether a cron method is one of the helpers `hourly`, `daily`, `weekly`.
pub fn cron_helper(method: &str) -> (b: bool)
    ensures
        b == is_cron_helper(method@),
{
    str_eq(method, "hourly") || str_eq(method, "daily") || str_eq(method, "weekly")
}

/// The function a cron registration runs, its third argument, where its chain is neither an
/// `internal.` nor an `api.` reference.
pub open spec fn cron_non_reference_of(args: Exprs) -> Option<Seq<char>> {
    match arg_chain_of(args, 2) {
        Some(c) => if !has_prefix(c, "internal."@) && !has_prefix(c, "api."@) {
            Some(c)
        } else {
            None
        },
        None => None,
    }
}

/// The chain of a cron's function argument that is not a function reference.
pub fn cron_non_reference(args: &Exprs) -> (r: Option<String>)
    ensures
        match r {
            Some(c) => cron_non_reference_of(*args) == Some(c@),
            None => cron_non_reference_of(*args) is None,
        },
{
    match arg_chain(args, 2) {
        Some(c) => if !starts_with(c.as_str(), "internal.") && !starts_with(c.as_str(), "api.") {
            Some(c)
        } else {
            None
        },
        None => None,
    }
}

/// The chains of the arguments that are public `api.` references, in order.
pub open spec fn api_refs_of(args: Exprs) -> Seq<Seq<char>>
    decreases args,
{
    match args {
        Exprs::Nil => Seq::empty(),
        Exprs::Cons(h, t) => {
            let here = match member_chain(*h) {
                Some(c) => if has_prefix(c, "api."@) {
                    seq![c]
                } else {
                    Seq::empty()
                },
                None => Seq::empty(),
            };
            here + api_refs_of(*t)
        },
    }
}

/// The `api.` references among a call's arguments, in order.
pub fn api_refs(args: &Exprs) -> (r: Vec<String>)
    ensures
        r@.map_values(|s: String| s@) == api_refs_of(*args),
    decreases args,
{
    match args {
        Exprs::Nil => Vec::new(),
        Exprs::Cons(h, t) => {
            let mut out: Vec<String> = Vec::new();
            match resolve_member_chain(h) {
                Some(c) => if starts_with(c.as_str(), "api.") {
                    out.push(c);
                },
                None => {},
            }
            let mut rest = api_refs(t);
            out.append(&mut rest);
            assert(out@.map_values(|s: String| s@) =~= api_refs_of(*args));
            out
        },
    }
}

/// The number of properties of an object literal, spreads included.
pub open spec fn props_len(props: Props) -> nat
    decreases props,
{
    match props {
        Props::Nil => 0,
        Props::Cons(_, _, t) => 1 + props_len(*t),
    }
}

/// The key has the static name `name`.
pub open spec fn key_is(key: Option<String>, name: Seq<char>) -> bool {
    key matches Some(k) && k@ == name
}

/// Some property of the object is named `name`.
pub open spec fn has_key(props: Props, name: Seq<char>) -> bool
    decreases props,
{
    match props {
        Props::Nil => false,
        Props::Cons(k, _, t) => key_is(k, name) || has_key(*t, name),
    }
}

/// Whether some property of the object is named `name`.
pub fn object_has_key(props: &Props, name: &str) -> (b: bool)
    ensures
        b == has_key(*props, name@),
    decreases props,
{
    match props {
        Props::Nil => false,
        Props::Cons(k, _, t) => {
            let here = match k {
                Some(key) => str_eq(key.as_str(), name),
                None => false,
            };
            here || object_has_key(t, name)
        },
    }
}

/// The value of the last property named `a` or `b` whose value is a string literal.
pub open spec fn last_string_value(props: Props, a: Seq<char>, b: Seq<char>) -> Option<Seq<char>>
    decreases props,
{
    match props {
        Props::Nil => None,
        Props::Cons(k, v, t) => match last_string_value(*t, a, b) {
            Some(later) => Some(later),
            None => if key_is(k, a) || key_is(k, b) {
                match *v {
                    Expr::Str(value) => Some(value@),
                    _ => None,
                }
            } else {
                None
            },
        },
    }
}

/// The value of the last property named `a` or `b` whose value is a string literal.
pub fn last_string_property(props: &Props, a: &str, b: &str) -> (r: Option<String>)
    ensures
        match r {
            Some(v) => last_string_value(*props, a@, b@) == Some(v@),
            None => last_string_value(*props, a@, b@) is None,
        },
    decreases props,
{
    match props {
        Props::Nil => None,
        Props::Cons(k, v, t) => match last_string_property(t, a, b) {
            Some(later) => Some(later),
            None => {
                let named = match k {
                    Some(key) => str_eq(key.as_str(), a) || str_eq(key.as_str(), b),
                    None => false,
                };
                if named {
                    match &**v {
                        Expr::Str(value) => Some(owned(value.as_str())),
                        _ => None,
                    }
                } else {
                    None
                }
            },
        },
    }
}

/// `.route({ method, path })`: the route's method and path (or path prefix), where the
/// callee's property is `route` and its first argument an object that gives both as string
/// literals.
pub open spec fn route_of(callee: Expr, args: Exprs) -> Option<(Seq<char>, Seq<char>)> {
    if member_property(callee) == Some("route"@) {
        match nth_arg(args, 0) {
            Some(Expr::Object(props)) => match (
                last_string_value(*props, "method"@, "method"@),
                last_string_value(*props, "path"@, "pathPrefix"@),
            ) {
                (Some(m), Some(p)) => Some((m, p)),
                _ => None,
            },
            _ => None,
        }
    } else {
        None
    }
}

/// The method and path of an HTTP route registration.
pub fn route(callee: &Expr, args: &Exprs) -> (r: Option<(String, String)>)
    ensures
        match r {
            Some((m, p)) => route_of(*callee, *args) == Some((m@, p@)),
            None => route_of(*callee, *args) is None,
        },
{
    let is_route = match callee {
        Expr::Member(_, p) => str_eq(p.as_str(), "route"),
        _ => false,
    };
    if !is_route {
        return None;
    }
    match args {
        Exprs::Cons(first, _) => match &**first {
            Expr::Object(props) => {
                let method = last_string_property(props, "method", "method");
                let path = last_string_property(props, "path", "pathPrefix");
                match (method, path) {
                    (Some(m), Some(p)) => Some((m, p)),
                    _ => None,
                }
            },
            _ => None,
        },
        Exprs::Nil => None,
    }
}

/// `webhook` is a whole `/`-separated segment of the lower-cased path.
pub open spec fn webhook_segment(path: Seq<char>) -> bool {
    let l = lower_seq(path);
    exists|i: int|
        #[trigger] matches_at(l, "webhook"@, i) && (i == 0 || l[i - 1] == '/') && (i + 7 == l.len()
            || l[i + 7] == '/')
}

/// Whether some `/`-separated segment of the path is `webhook`, in any case.
pub fn path_has_webhook_segment(path: &str) -> (b: bool)
    ensures
        b == webhook_segment(path@),
{
    let lowered = to_ascii_lowercase(path);
    let l = chars_of(lowered.as_str());
    let w = chars_of("webhook");
    proof {
        reveal_strlit("webhook");
    }
    assert(w@.len() == 7);
    let mut i: usize = 0;
    while i < l.len()
        invariant
            i <= l.len(),
            l@ == lower_seq(path@),
            w@ == "webhook"@,
            w@.len() == 7,
            forall|k: int|
                0 <= k < i ==> !(matches_at(l@, w@, k) && (k == 0 || l@[k - 1] == '/') && (k + 7
                    == l@.len() || l@[k + 7] == '/')),
        decreases l.len() - i,
    {
        if slice_matches_at(l.as_slice(), w.as_slice(), i) {
            let before = i == 0 || l[i - 1] == '/';
            let after = i + 7 == l.len() || l[i + 7] == '/';
            if before && after {
                assert(matches_at(l@, "webhook"@, i as int));
                return true;
            }
        }
        i = i + 1;
    }
    assert forall|k: int| !(#[trigger] matches_at(l@, "webhook"@, k) && (k == 0 || l@[k - 1] == '/')
        && (k + 7 == l@.len() || l@[k + 7] == '/')) by {
        if matches_at(l@, "webhook"@, k) {
            assert(0 <= k && k < l@.len());
        }
    }
    false
}

/// One of the source lines numbered from `line - 3` to `line` (1-based) mentions `webhook`, in
/// any case.
pub open spec fn webhook_comment_near(lines: Seq<String>, line: u32) -> bool {
    line > 0 && exists|i: int|
        line - 4 <= i <= line - 1 && 0 <= i < lines.len() && has_infix(
            lower_seq(#[trigger] lines[i]@),
            "webhook"@,
        )
}

/// Whether a line at or up to three lines above `line` mentions `webhook`.
pub fn webhook_mentioned_near(lines: &Vec<String>, line: u32) -> (b: bool)
    ensures
        b == webhook_comment_near(lines@, line),
{
    if line == 0 {
        return false;
    }
    let last: usize = (line - 1) as usize;
    let mut i: usize = if last >= 3 {
        last - 3
    } else {
        0
    };
    let ghost first = i as int;
    while i <= last && i < lines.len()
        invariant
            first == (if last >= 3 {
                last - 3
            } else {
                0
            }),
            first <= i,
            last == line - 1,
            forall|k: int|
                first <= k < i && k < lines@.len() ==> !has_infix(lower_seq(lines@[k]@), "webhook"@),
        decreases lines.len() - i,
    {
        let text = to_ascii_lowercase(lines[i].as_str());
        if contains(text.as_str(), "webhook") {
            return true;
        }
        i = i + 1;
    }
    false
}
/// The string values of an array's elements that are string literals, in order.
pub open spec fn string_elements(l: Exprs) -> Seq<Seq<char>>
    decreases l,
{
    match l {
        Exprs::Nil => Seq::empty(),
        Exprs::Cons(h, t) => match *h {
            Expr::Str(v) => seq![v@] + string_elements(*t),
            _ => string_elements(*t),
        },
    }
}

/// The string literals among an array's elements, in order.
pub fn collect_string_elements(l: &Exprs, out: &mut Vec<String>)
    ensures
        string_views(final(out)@) == string_views(old(out)@) + string_elements(*l),
    decreases l,
{
    let ghost start = string_views(out@);
    match l {
        Exprs::Nil => {
            assert(string_views(out@) =~= start + Seq::<Seq<char>>::empty());
        },
        Exprs::Cons(h, t) => {
            match &**h {
                Expr::Str(v) => {
                    out.push(owned(v.as_str()));
                    proof {
                        lemma_string_views_push(old(out)@, out@.last());
                    }
                },
                _ => {},
            }
            let ghost mid = string_views(out@);
            collect_string_elements(t, out);
            assert(string_views(out@) =~= start + string_elements(*l));
        },
    }
}

/// `.index("name", ["field", ..])`: the index's name and its fields, where the callee's
/// property is `index`, the call has at least two arguments, the first is a string literal and
/// the second an array.
pub open spec fn index_definition_of(callee: Expr, args: Exprs) -> Option<(Seq<char>, Seq<Seq<char>>)> {
    if member_property(callee) == Some("index"@) && nth_arg(args, 1) is Some {
        match (nth_arg(args, 0), nth_arg(args, 1)) {
            (Some(Expr::Str(name)), Some(Expr::Array(els))) => Some((name@, string_elements(*els))),
            _ => None,
        }
    } else {
        None
    }
}

/// The name and fields of an index definition.
pub fn index_definition(callee: &Expr, args: &Exprs) -> (r: Option<(String, Vec<String>)>)
    ensures
        match r {
            Some((name, fields)) => index_definition_of(*callee, *args) == Some(
                (name@, string_views(fields@)),
            ),
            None => index_definition_of(*callee, *args) is None,
        },
{
    let is_index = match callee {
        Expr::Member(_, p) => str_eq(p.as_str(), "index"),
        _ => false,
    };
    if !is_index {
        return None;
    }
    proof {
        reveal_with_fuel(nth_arg, 3);
    }
    match args {
        Exprs::Cons(first, rest) => match &**rest {
            Exprs::Cons(second, _) => match (&**first, &**second) {
                (Expr::Str(name), Expr::Array(els)) => {
                    let mut fields: Vec<String> = Vec::new();
                    collect_string_elements(els, &mut fields);
                    assert(string_views(fields@) =~= string_elements(**els));
                    Some((owned(name.as_str()), fields))
                },
                _ => None,
            },
            Exprs::Nil => None,
        },
        Exprs::Nil => None,
    }
}

/// `.searchIndex("name", { .. })`: the index's name and whether its options name
/// `filterFields`, where the call has at least two arguments and the first is a string literal.
pub open spec fn search_index_of(callee: Expr, args: Exprs) -> Option<(Seq<char>, bool)> {
    if member_property(callee) == Some("searchIndex"@) && nth_arg(args, 1) is Some {
        match nth_arg(args, 0) {
            Some(Expr::Str(name)) => Some(
                (
                    name@,
                    match nth_arg(args, 1) {
                        Some(Expr::Object(props)) => has_key(*props, "filterFields"@),
                        _ => false,
                    },
                ),
            ),
            _ => None,
        }
    } else {
        None
    }
}

/// The name of a search index definition and whether it has filter fields.
pub fn search_index_definition(callee: &Expr, args: &Exprs) -> (r: Option<(String, bool)>)
    ensures
        match r {
            Some((name, filters)) => search_index_of(*callee, *args) == Some((name@, filters)),
            None => search_index_of(*callee, *args) is None,
        },
{
    let is_search = match callee {
        Expr::Member(_, p) => str_eq(p.as_str(), "searchIndex"),
        _ => false,
    };
    if !is_search {
        return None;
    }
    proof {
        reveal_with_fuel(nth_arg, 3);
    }
    match args {
        Exprs::Cons(first, rest) => match &**rest {
            Exprs::Cons(second, _) => match &**first {
                Expr::Str(name) => {
                    let filters = match &**second {
                        Expr::Object(props) => object_has_key(props, "filterFields"),
                        _ => false,
                    };
                    Some((owned(name.as_str()), filters))
                },
                _ => None,
            },
            Exprs::Nil => None,
        },
        Exprs::Nil => None,
    }
}

/// The number of properties a document write takes: the second argument of a
/// `ctx.db.insert` or `ctx.db.replace` call, where it is an object literal.
pub open spec fn write_size_of(chain: Seq<char>, args: Exprs) -> Option<nat> {
    if has_prefix(chain, "ctx.db.insert"@) || has_prefix(chain, "ctx.db.replace"@) {
        match nth_arg(args, 1) {
            Some(Expr::Object(props)) => Some(props_len(*props)),
            _ => None,
        }
    } else {
        None
    }
}

/// `n`, or `u64::MAX` where `n` does not fit.
pub open spec fn capped(n: nat) -> nat {
    if n <= u64::MAX {
        n
    } else {
        u64::MAX as nat
    }
}

/// The number of properties of an object literal, `u64::MAX` where it does not fit.
pub fn object_len(props: &Props) -> (n: u64)
    ensures
        n == capped(props_len(*props)),
    decreases props,
{
    match props {
        Props::Nil => 0,
        Props::Cons(_, _, t) => {
            let rest = object_len(t);
            if rest == u64::MAX {
                u64::MAX
            } else {
                rest + 1
            }
        },
    }
}

/// The size of a document write, where the call inserts or replaces a literal object.
pub fn write_size(chain: &str, args: &Exprs) -> (r: Option<u64>)
    ensures
        match r {
            Some(n) => write_size_of(chain@, *args) matches Some(k) && n == capped(k),
            None => write_size_of(chain@, *args) is None,
        },
{
    if !(starts_with(chain, "ctx.db.insert") || starts_with(chain, "ctx.db.replace")) {
        return None;
    }
    proof {
        reveal_with_fuel(nth_arg, 3);
    }
    match args {
        Exprs::Cons(_, rest) => match &**rest {
            Exprs::Cons(second, _) => match &**second {
                Expr::Object(props) => Some(object_len(props)),
                _ => None,
            },
            Exprs::Nil => None,
        },
        Exprs::Nil => None,
    }
}

/// The `args` object of a configuration property, where the property is `args: { .. }`.
pub open spec fn args_object(key: Option<String>, value: Expr) -> Option<Props> {
    if key_is(key, "args"@) {
        match value {
            Expr::Object(a) => Some(*a),
            _ => None,
        }
    } else {
        None
    }
}

/// Whether a configuration property is `args: { .. }`: its object, if so.
fn args_object_of<'a>(key: &Option<String>, value: &'a Expr) -> (r: Option<&'a Props>)
    ensures
        match r {
            Some(a) => args_object(*key, *value) == Some(*a),
            None => args_object(*key, *value) is None,
        },
{
    let is_args = match key {
        Some(k) => str_eq(k.as_str(), "args"),
        None => false,
    };
    if !is_args {
        return None;
    }
    match value {
        Expr::Object(a) => Some(&**a),
        _ => None,
    }
}

/// The names of an object's properties that have one, in order.
pub open spec fn named_keys(props: Props) -> Seq<Seq<char>>
    decreases props,
{
    match props {
        Props::Nil => Seq::empty(),
        Props::Cons(k, _, t) => match k {
            Some(n) => seq![n@] + named_keys(*t),
            None => named_keys(*t),
        },
    }
}

/// The argument names that the `args` objects of a configuration declare, in order.
pub open spec fn config_arg_names(config: Props) -> Seq<Seq<char>>
    decreases config,
{
    match config {
        Props::Nil => Seq::empty(),
        Props::Cons(k, v, t) => match args_object(k, *v) {
            Some(a) => named_keys(a) + config_arg_names(*t),
            None => config_arg_names(*t),
        },
    }
}

fn collect_named_keys(props: &Props, out: &mut Vec<String>)
    ensures
        string_views(final(out)@) == string_views(old(out)@) + named_keys(*props),
    decreases props,
{
    let ghost start = string_views(out@);
    match props {
        Props::Nil => {
            assert(string_views(out@) =~= start + Seq::<Seq<char>>::empty());
        },
        Props::Cons(k, _, t) => {
            match k {
                Some(n) => {
                    out.push(owned(n.as_str()));
                    proof {
                        lemma_string_views_push(old(out)@, out@.last());
                    }
                },
                None => {},
            }
            collect_named_keys(t, out);
            assert(string_views(out@) =~= start + named_keys(*props));
        },
    }
}

fn collect_config_arg_names(config: &Props, out: &mut Vec<String>)
    ensures
        string_views(final(out)@) == string_views(old(out)@) + config_arg_names(*config),
    decreases config,
{
    let ghost start = string_views(out@);
    match config {
        Props::Nil => {
            assert(string_views(out@) =~= start + Seq::<Seq<char>>::empty());
        },
        Props::Cons(k, v, t) => {
            match args_object_of(k, v) {
                Some(a) => {
                    collect_named_keys(a, out);
                    collect_config_arg_names(t, out);
                    assert(string_views(out@) =~= start + config_arg_names(*config));
                },
                None => {
                    collect_config_arg_names(t, out);
                },
            }
        },
    }
}

/// An argument name that marks a function as called with a shared secret.
pub open spec fn is_secret_name(name: Seq<char>) -> bool {
    eq_ignore_case(name, "internalsecret"@) || eq_ignore_case(name, "internal_secret"@)
}

/// An argument `paginationOpts` validated by `paginationOptsValidator`, counted.
pub open spec fn pagination_args_in(a: Props) -> nat
    decreases a,
{
    match a {
        Props::Nil => 0,
        Props::Cons(k, v, t) => (if key_is(k, "paginationOpts"@) && mentions_pagination_validator(
            *v,
        ) {
            1nat
        } else {
            0nat
        }) + pagination_args_in(*t),
    }
}

/// The pagination arguments of all `args` objects of a configuration.
pub open spec fn config_pagination_args(config: Props) -> nat
    decreases config,
{
    match config {
        Props::Nil => 0,
        Props::Cons(k, v, t) => match args_object(k, *v) {
            Some(a) => pagination_args_in(a) + config_pagination_args(*t),
            None => config_pagination_args(*t),
        },
    }
}

fn count_pagination_args(a: &Props) -> (n: u64)
    ensures
        n == capped(pagination_args_in(*a)),
    decreases a,
{
    match a {
        Props::Nil => 0,
        Props::Cons(k, v, t) => {
            let here = match k {
                Some(n) => str_eq(n.as_str(), "paginationOpts") && is_pagination_opts_validator_expr(
                    v,
                ),
                None => false,
            };
            let rest = count_pagination_args(t);
            if here {
                if rest == u64::MAX {
                    u64::MAX
                } else {
                    rest + 1
                }
            } else {
                rest
            }
        },
    }
}

fn count_config_pagination_args(config: &Props) -> (n: u64)
    ensures
        n == capped(config_pagination_args(*config)),
    decreases config,
{
    match config {
        Props::Nil => 0,
        Props::Cons(k, v, t) => {
            let rest = count_config_pagination_args(t);
            match args_object_of(k, v) {
                Some(a) => {
                    let here = count_pagination_args(a);
                    if here > u64::MAX - rest {
                        u64::MAX
                    } else {
                        here + rest
                    }
                },
                None => rest,
            }
        },
    }
}

/// The value is a call of `v.any`.
pub open spec fn is_any_validator(value: Expr) -> bool {
    value matches Expr::Call(c, _, _) && global_call_of(*c, "v"@, "any"@)
}

/// Some argument of the object is validated by `v.any()`.
pub open spec fn any_validator_in(a: Props) -> bool
    decreases a,
{
    match a {
        Props::Nil => false,
        Props::Cons(_, v, t) => is_any_validator(*v) || any_validator_in(*t),
    }
}

/// Some argument of the configuration's `args` objects is validated by `v.any()`.
pub open spec fn config_any_validator(config: Props) -> bool
    decreases config,
{
    match config {
        Props::Nil => false,
        Props::Cons(k, v, t) => match args_object(k, *v) {
            Some(a) => any_validator_in(a) || config_any_validator(*t),
            None => config_any_validator(*t),
        },
    }
}

fn has_any_validator(a: &Props) -> (b: bool)
    ensures
        b == any_validator_in(*a),
    decreases a,
{
    match a {
        Props::Nil => false,
        Props::Cons(_, v, t) => {
            let here = match &**v {
                Expr::Call(c, _, _) => is_global_call(c, "v", "any"),
                _ => false,
            };
            here || has_any_validator(t)
        },
    }
}

fn config_has_any_validator(config: &Props) -> (b: bool)
    ensures
        b == config_any_validator(*config),
    decreases config,
{
    match config {
        Props::Nil => false,
        Props::Cons(k, v, t) => match args_object_of(k, v) {
            Some(a) => has_any_validator(a) || config_has_any_validator(t),
            None => config_has_any_validator(t),
        },
    }
}

/// The value is `v.id()` without a table name.
pub open spec fn is_generic_id(value: Expr) -> bool {
    value matches Expr::Call(c, args, _) && global_call_of(*c, "v"@, "id"@) && (*args matches Exprs::Nil)
}

/// What a generic id validator of the argument with key `key` is reported as.
pub open spec fn generic_id_detail(key: Option<String>) -> Seq<char> {
    match key {
        Some(n) => "Arg '"@ + n@ + "' uses v.id() without table name"@,
        None => "v.id() without table name"@,
    }
}

/// The reports of the arguments validated by `v.id()` without a table name, in order.
pub open spec fn generic_ids_in(a: Props) -> Seq<Seq<char>>
    decreases a,
{
    match a {
        Props::Nil => Seq::empty(),
        Props::Cons(k, v, t) => if is_generic_id(*v) {
            seq![generic_id_detail(k)] + generic_ids_in(*t)
        } else {
            generic_ids_in(*t)
        },
    }
}

/// The generic id validators of all `args` objects of a configuration, in order.
pub open spec fn config_generic_ids(config: Props) -> Seq<Seq<char>>
    decreases config,
{
    match config {
        Props::Nil => Seq::empty(),
        Props::Cons(k, v, t) => match args_object(k, *v) {
            Some(a) => generic_ids_in(a) + config_generic_ids(*t),
            None => config_generic_ids(*t),
        },
    }
}

fn generic_id_report(key: &Option<String>) -> (r: String)
    ensures
        r@ == generic_id_detail(*key),
{
    match key {
        Some(n) => {
            let mut r = owned("Arg '");
            push_str(&mut r, n.as_str());
            push_str(&mut r, "' uses v.id() without table name");
            r
        },
        None => owned("v.id() without table name"),
    }
}

fn collect_generic_ids(a: &Props, out: &mut Vec<String>)
    ensures
        string_views(final(out)@) == string_views(old(out)@) + generic_ids_in(*a),
    decreases a,
{
    let ghost start = string_views(out@);
    match a {
        Props::Nil => {
            assert(string_views(out@) =~= start + Seq::<Seq<char>>::empty());
        },
        Props::Cons(k, v, t) => {
            let generic = match &**v {
                Expr::Call(c, args, _) => is_global_call(c, "v", "id") && match &**args {
                    Exprs::Nil => true,
                    Exprs::Cons(_, _) => false,
                },
                _ => false,
            };
            if generic {
                out.push(generic_id_report(k));
                proof {
                    lemma_string_views_push(old(out)@, out@.last());
                }
            }
            collect_generic_ids(t, out);
            assert(string_views(out@) =~= start + generic_ids_in(*a));
        },
    }
}

fn collect_config_generic_ids(config: &Props, out: &mut Vec<String>)
    ensures
        string_views(final(out)@) == string_views(old(out)@) + config_generic_ids(*config),
    decreases config,
{
    let ghost start = string_views(out@);
    match config {
        Props::Nil => {
            assert(string_views(out@) =~= start + Seq::<Seq<char>>::empty());
        },
        Props::Cons(k, v, t) => {
            match args_object_of(k, v) {
                Some(a) => {
                    collect_generic_ids(a, out);
                    collect_config_generic_ids(t, out);
                    assert(string_views(out@) =~= start + config_generic_ids(*config));
                },
                None => {
                    collect_config_generic_ids(t, out);
                },
            }
        },
    }
}

/// What the configuration object of a function registration (`query({ args, returns,
/// handler })`) declares.
pub struct FunctionConfig {
    /// It has an `args` property.
    pub has_args_validator: bool,
    /// It has a `returns` property.
    pub has_return_validator: bool,
    /// The argument names of its `args` objects, in order.
    pub arg_names: Vec<String>,
    /// An argument is named `internalSecret` or `internal_secret`, in any case.
    pub has_internal_secret: bool,
    /// How many `paginationOpts` arguments are validated by `paginationOptsValidator`.
    pub pagination_args: u64,
    /// An argument is validated by `v.any()`.
    pub has_any_validator_in_args: bool,
    /// The reports of the arguments validated by `v.id()` without a table name, in order.
    pub generic_id_validators: Vec<String>,
}

/// Reads the configuration object of a function registration.
pub fn function_config(config: &Props) -> (r: FunctionConfig)
    ensures
        r.has_args_validator == has_key(*config, "args"@),
        r.has_return_validator == has_key(*config, "returns"@),
        string_views(r.arg_names@) == config_arg_names(*config),
        r.has_internal_secret == exists|i: int|
            0 <= i < config_arg_names(*config).len() && is_secret_name(
                #[trigger] config_arg_names(*config)[i],
            ),
        r.pagination_args == capped(config_pagination_args(*config)),
        r.has_any_validator_in_args == config_any_validator(*config),
        string_views(r.generic_id_validators@) == config_generic_ids(*config),
{
    let mut arg_names: Vec<String> = Vec::new();
    collect_config_arg_names(config, &mut arg_names);
    assert(string_views(arg_names@) =~= config_arg_names(*config));
    let mut has_internal_secret = false;
    let mut i: usize = 0;
    while i < arg_names.len()
        invariant
            i <= arg_names.len(),
            string_views(arg_names@) == config_arg_names(*config),
            has_internal_secret == exists|j: int|
                0 <= j < i && is_secret_name(#[trigger] config_arg_names(*config)[j]),
        decreases arg_names.len() - i,
    {
        let name = arg_names[i].as_str();
        if eq_ignore_ascii_case(name, "internalsecret") || eq_ignore_ascii_case(
            name,
            "internal_secret",
        ) {
            assert(is_secret_name(config_arg_names(*config)[i as int]));
            has_internal_secret = true;
        }
        i = i + 1;
    }
    let mut generic_id_validators: Vec<String> = Vec::new();
    collect_config_generic_ids(config, &mut generic_id_validators);
    assert(string_views(generic_id_validators@) =~= config_generic_ids(*config));
    FunctionConfig {
        has_args_validator: object_has_key(config, "args"),
        has_return_validator: object_has_key(config, "returns"),
        arg_names,
        has_internal_secret,
        pagination_args: count_config_pagination_args(config),
        has_any_validator_in_args: config_has_any_validator(config),
        generic_id_validators,
    }
}

/// A registration written the old way: with arguments, the first of which is not a
/// configuration object (`query(async (ctx) => ..)`).
pub open spec fn old_syntax_of(args: Exprs) -> bool {
    args matches Exprs::Cons(first, _) && !(*first matches Expr::Object(_))
}

/// Whether a function registration uses the old syntax.
pub fn is_old_syntax(args: &Exprs) -> (b: bool)
    ensures
        b == old_syntax_of(*args),
{
    match args {
        Exprs::Cons(first, _) => match &**first {
            Expr::Object(_) => false,
            _ => true,
        },
        Exprs::Nil => false,
    }
}

/// A write of a document with more than twenty properties: the call's chain, `with`, the
/// number of properties and `properties`.
pub open spec fn large_write_of(chain: Seq<char>, args: Exprs) -> Option<Seq<char>> {
    match write_size_of(chain, args) {
        Some(n) => if n > 20 {
            Some(chain + " with "@ + decimal(capped(n)) + " properties"@)
        } else {
            None
        },
        None => None,
    }
}

/// The report of a write of a document with more than twenty properties.
pub fn large_write(chain: &str, args: &Exprs) -> (r: Option<String>)
    ensures
        match r {
            Some(d) => large_write_of(chain@, *args) == Some(d@),
            None => large_write_of(chain@, *args) is None,
        },
{
    match write_size(chain, args) {
        Some(n) => if n > 20 {
            let mut d = owned(chain);
            push_str(&mut d, " with ");
            let count = decimal_string(n);
            push_str(&mut d, count.as_str());
            push_str(&mut d, " properties");
            Some(d)
        } else {
            None
        },
        None => None,
    }
}

/// The offset at which the `defineTable(..)` call at the root of a chain starts, through the
/// callees and member objects of the chain.
pub open spec fn define_table_start(e: Expr) -> Option<u32>
    decreases e,
{
    match e {
        Expr::Call(c, _, start) => if (*c matches Expr::Ident(n) && n@ == "defineTable"@) {
            Some(start)
        } else {
            match *c {
                Expr::Member(o, _) => define_table_start(*o),
                _ => define_table_start(*c),
            }
        },
        Expr::Member(o, _) => define_table_start(*o),
        _ => None,
    }
}

/// The offset of the `defineTable(..)` call at the root of a chain.
pub fn define_table_call_start(e: &Expr) -> (r: Option<u32>)
    ensures
        r == define_table_start(*e),
    decreases e,
{
    match e {
        Expr::Call(c, _, start) => {
            let is_define = match &**c {
                Expr::Ident(n) => str_eq(n.as_str(), "defineTable"),
                _ => false,
            };
            if is_define {
                Some(*start)
            } else {
                match &**c {
                    Expr::Member(o, _) => define_table_call_start(o),
                    _ => define_table_call_start(c),
                }
            }
        },
        Expr::Member(o, _) => define_table_call_start(o),
        _ => None,
    }
}

/// How a table is named by the `defineTable(..)` call that starts at `start`.
pub open spec fn table_label(start: u32) -> Seq<char> {
    "table@"@ + decimal(start as nat)
}

/// The name of the table defined by the call that starts at `start`.
pub fn table_label_of(start: u32) -> (r: String)
    ensures
        r@ == table_label(start),
{
    let mut r = owned("table@");
    let digits = decimal_string(start as u64);
    push_str(&mut r, digits.as_str());
    r
}

/// The table a chain of schema calls belongs to: through a name bound to a table, the
/// `defineTable(..)` call at its root, and `.index(..)`/`.searchIndex(..)` calls on it.
pub open spec fn table_id_of(e: Expr, aliases: Seq<(String, String)>) -> Option<Seq<char>>
    decreases e,
{
    match e {
        Expr::Ident(n) => lookup(aliases, n@),
        Expr::Call(c, args, start) => if (*c matches Expr::Ident(n) && n@ == "defineTable"@) {
            Some(table_label(start))
        } else if (*c matches Expr::Member(o, p) && (p@ == "index"@ || p@ == "searchIndex"@)) {
            match *c {
                Expr::Member(o, _) => table_id_of(*o, aliases),
                _ => None,
            }
        } else {
            match define_table_start(Expr::Call(c, args, start)) {
                Some(s) => Some(table_label(s)),
                None => None,
            }
        },
        Expr::Member(o, _) => table_id_of(*o, aliases),
        _ => None,
    }
}

fn is_index_method(p: &str) -> (b: bool)
    ensures
        b == (p@ == "index"@ || p@ == "searchIndex"@),
{
    str_eq(p, "index") || str_eq(p, "searchIndex")
}

/// The table a chain of schema calls belongs to.
pub fn table_id(e: &Expr, aliases: &NameMap) -> (r: Option<String>)
    ensures
        match r {
            Some(t) => table_id_of(*e, aliases.view()) == Some(t@),
            None => table_id_of(*e, aliases.view()) is None,
        },
    decreases e,
{
    match e {
        Expr::Ident(n) => aliases.get(n.as_str()),
        Expr::Call(c, _, start) => {
            let is_define = match &**c {
                Expr::Ident(n) => str_eq(n.as_str(), "defineTable"),
                _ => false,
            };
            if is_define {
                return Some(table_label_of(*start));
            }
            match &**c {
                Expr::Member(o, p) => if is_index_method(p.as_str()) {
                    return table_id(o, aliases);
                },
                _ => {},
            }
            match define_table_call_start(e) {
                Some(s) => Some(table_label_of(s)),
                None => None,
            }
        },
        Expr::Member(o, _) => table_id(o, aliases),
        _ => None,
    }
}

/// The table an `.index(..)` or `.searchIndex(..)` call defines an index on.
pub open spec fn index_table_of(callee: Expr, aliases: Seq<(String, String)>) -> Option<Seq<char>> {
    match callee {
        Expr::Member(o, p) => if p@ == "index"@ || p@ == "searchIndex"@ {
            table_id_of(*o, aliases)
        } else {
            None
        },
        _ => None,
    }
}

/// The table of an index definition's callee.
pub fn index_table_id(callee: &Expr, aliases: &NameMap) -> (r: Option<String>)
    ensures
        match r {
            Some(t) => index_table_of(*callee, aliases.view()) == Some(t@),
            None => index_table_of(*callee, aliases.view()) is None,
        },
{
    match callee {
        Expr::Member(o, p) => if is_index_method(p.as_str()) {
            table_id(o, aliases)
        } else {
            None
        },
        _ => None,
    }
}

/// `defineTable({ .. })`: a table definition with its fields given as an object.
pub open spec fn defines_table_of(callee: Expr, args: Exprs) -> bool {
    (callee matches Expr::Ident(n) && n@ == "defineTable"@) && (args matches Exprs::Cons(first, _)
        && (*first matches Expr::Object(_)))
}

/// Whether a call is `defineTable({ .. })`.
pub fn defines_table(callee: &Expr, args: &Exprs) -> (b: bool)
    ensures
        b == defines_table_of(*callee, *args),
{
    let named = match callee {
        Expr::Ident(n) => str_eq(n.as_str(), "defineTable"),
        _ => false,
    };
    named && match args {
        Exprs::Cons(first, _) => match &**first {
            Expr::Object(_) => true,
            _ => false,
        },
        Exprs::Nil => false,
    }
}

/// How a `ctx` call names the function it sits in: its name, `@`, and the line and column of
/// its registration.
pub open spec fn function_id(name: Seq<char>, line: u32, col: u32) -> Seq<char> {
    name + "@"@ + decimal(line as nat) + ":"@ + decimal(col as nat)
}

/// Where a call stands: awaited, returned, assigned to a name, and in which function.
pub struct CallSite {
    pub is_awaited: bool,
    pub is_returned: bool,
    pub assigned_to: Option<String>,
    pub enclosing_function_kind: Option<FunctionKind>,
}

/// The record of a `ctx` call with `chain` and `args` at `line`:`col`, standing at `site`,
/// inside the function under construction `enclosing` where there is one.
pub fn ctx_call_record(
    chain: String,
    args: &Exprs,
    line: u32,
    col: u32,
    site: CallSite,
    enclosing: Option<&FunctionBuilder>,
) -> (r: CtxCall)
    ensures
        r.chain@ == chain@,
        r.line == line,
        r.col == col,
        r.is_awaited == site.is_awaited,
        r.is_returned == site.is_returned,
        r.assigned_to == site.assigned_to,
        r.enclosing_function_kind == site.enclosing_function_kind,
        match r.first_arg_chain {
            Some(c) => arg_chain_of(*args, ctx_target_index(chain@)) == Some(c@),
            None => arg_chain_of(*args, ctx_target_index(chain@)) is None,
        },
        match enclosing {
            Some(b) => {
                &&& r.enclosing_function_name matches Some(n) && n@ == b.name@
                &&& r.enclosing_function_id matches Some(id) && id@ == function_id(
                    b.name@,
                    b.span_line,
                    b.span_col,
                )
                &&& r.enclosing_function_has_internal_secret == b.has_internal_secret
            },
            None => {
                &&& r.enclosing_function_name is None
                &&& r.enclosing_function_id is None
                &&& !r.enclosing_function_has_internal_secret
            },
        },
{
    let first_arg_chain = ctx_call_target(chain.as_str(), args);
    let (name, id, secret) = match enclosing {
        Some(b) => {
            let mut id = owned(b.name.as_str());
            push_str(&mut id, "@");
            let l = decimal_string(b.span_line as u64);
            push_str(&mut id, l.as_str());
            push_str(&mut id, ":");
            let c = decimal_string(b.span_col as u64);
            push_str(&mut id, c.as_str());
            (Some(owned(b.name.as_str())), Some(id), b.has_internal_secret)
        },
        None => (None, None, false),
    };
    CtxCall {
        chain,
        line,
        col,
        is_awaited: site.is_awaited,
        is_returned: site.is_returned,
        assigned_to: site.assigned_to,
        enclosing_function_kind: site.enclosing_function_kind,
        enclosing_function_id: id,
        enclosing_function_name: name,
        enclosing_function_has_internal_secret: secret,
        first_arg_chain,
    }
}

/// What the registration of a function (`query({ .. })`, `mutation(async (ctx) => ..)`) yields:
/// the function under construction, the number of its validated pagination arguments, the
/// reports of its generic id validators and, for the old syntax, that report.
pub struct Registration {
    pub builder: FunctionBuilder,
    pub pagination_args: u64,
    pub generic_id_validators: Vec<String>,
    pub old_syntax: Option<String>,
}

/// The first argument of a registration, where it is a configuration object.
pub open spec fn config_of(args: Exprs) -> Option<Props> {
    match args {
        Exprs::Cons(first, _) => match *first {
            Expr::Object(props) => Some(*props),
            _ => None,
        },
        Exprs::Nil => None,
    }
}

/// Starts the function `name` of `kind` registered at `line`:`col` with `args`; `ignored` says
/// whether a comment marks it as intentionally public, `handler_lines` how many lines its
/// handler spans.
pub fn register_function(
    name: String,
    kind: FunctionKind,
    line: u32,
    col: u32,
    ignored: bool,
    handler_lines: u32,
    args: &Exprs,
) -> (r: Registration)
    ensures
        r.builder.name@ == name@,
        r.builder.kind == Some(kind),
        r.builder.is_intentionally_public == ignored,
        r.builder.span_line == line,
        r.builder.span_col == col,
        r.builder.handler_line_count == handler_lines,
        !r.builder.has_auth_check,
        match config_of(*args) {
            Some(config) => {
                &&& r.builder.has_args_validator == has_key(config, "args"@)
                &&& r.builder.has_return_validator == has_key(config, "returns"@)
                &&& string_views(r.builder.arg_names@) == config_arg_names(config)
                &&& r.builder.has_internal_secret == exists|i: int|
                    0 <= i < config_arg_names(config).len() && is_secret_name(
                        #[trigger] config_arg_names(config)[i],
                    )
                &&& r.builder.has_any_validator_in_args == config_any_validator(config)
                &&& r.pagination_args == capped(config_pagination_args(config))
                &&& string_views(r.generic_id_validators@) == config_generic_ids(config)
            },
            None => {
                &&& !r.builder.has_args_validator
                &&& !r.builder.has_return_validator
                &&& r.builder.arg_names@.len() == 0
                &&& !r.builder.has_internal_secret
                &&& !r.builder.has_any_validator_in_args
                &&& r.pagination_args == 0
                &&& r.generic_id_validators@.len() == 0
            },
        },
        match r.old_syntax {
            Some(d) => old_syntax_of(*args) && d@ == name@ + "() using old function syntax"@,
            None => !old_syntax_of(*args),
        },
{
    let old_syntax = if is_old_syntax(args) {
        let mut d = owned(name.as_str());
        push_str(&mut d, "() using old function syntax");
        Some(d)
    } else {
        None
    };
    let mut builder = FunctionBuilder {
        name,
        kind: Some(kind),
        has_args_validator: false,
        has_any_validator_in_args: false,
        arg_names: Vec::new(),
        has_internal_secret: false,
        is_intentionally_public: ignored,
        has_return_validator: false,
        has_auth_check: false,
        handler_line_count: handler_lines,
        span_line: line,
        span_col: col,
    };
    let mut pagination_args: u64 = 0;
    let mut generic_id_validators: Vec<String> = Vec::new();
    match args {
        Exprs::Cons(first, _) => match &**first {
            Expr::Object(props) => {
                let config = function_config(props);
                builder.has_args_validator = config.has_args_validator;
                builder.has_return_validator = config.has_return_validator;
                builder.arg_names = config.arg_names;
                builder.has_internal_secret = config.has_internal_secret;
                builder.has_any_validator_in_args = config.has_any_validator_in_args;
                pagination_args = config.pagination_args;
                generic_id_validators = config.generic_id_validators;
            },
            _ => {},
        },
        Exprs::Nil => {},
    }
    Registration { builder, pagination_args, generic_id_validators, old_syntax }
}

} // verus!
