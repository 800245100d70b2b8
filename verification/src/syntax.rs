//! The expressions of a script as plain values (with object literals and the statements of
//! function bodies as far as the analyser looks into them), and what the analyser reads from
//! them: member chains, callee names, identifiers, `ctx.auth` and `process.env` uses,
//! pagination validators, authentication helpers and the fields that filters compare.
use vstd::prelude::*;

use crate::analysis::{auth_helper_call_spec, is_auth_helper_call};
use crate::rules::{kind_from_name, FunctionKind};
use crate::text::{
    has_prefix, lemma_string_views_push, owned, push_str, starts_with, str_eq, string_views,
};

verus! {

/// An expression, with what the analyser distinguishes of it.
#[derive(Debug)]
pub enum Expr {
    /// A name.
    Ident(String),
    /// A string literal, by its value.
    Str(String),
    /// `object.property`.
    Member(Box<Expr>, String),
    /// `object[index]`.
    Computed(Box<Expr>, Box<Expr>),
    /// `callee(arguments)`, with the offset in the source at which the call starts; an
    /// argument that is not an expression (a spread) is `Other`.
    Call(Box<Expr>, Box<Exprs>, u32),
    /// `callee?.(arguments)` and calls inside an optional chain.
    ChainCall(Box<Expr>, Box<Exprs>),
    /// `object?.property` and members inside an optional chain.
    ChainMember(Box<Expr>, String),
    /// `object?.[index]` inside an optional chain.
    ChainComputed(Box<Expr>, Box<Expr>),
    /// `[elements]`; a hole or a spread is `Other`.
    Array(Box<Exprs>),
    /// `(expression)`.
    Paren(Box<Expr>),
    /// A unary operator applied to its argument.
    Unary(Box<Expr>),
    /// A binary operator between two operands.
    Binary(Box<Expr>, Box<Expr>),
    /// `&&`, `||` or `??` between two operands.
    Logical(Box<Expr>, Box<Expr>),
    /// `test ? consequent : alternate`.
    Conditional(Box<Expr>, Box<Expr>, Box<Expr>),
    /// An arrow function, by the statements of its body.
    Arrow(Box<Stmts>),
    /// A function expression, by the statements of its body.
    Function(Box<Stmts>),
    /// `{ properties }`.
    Object(Box<Props>),
    /// Any other expression.
    Other,
}

/// A list of expressions.
#[derive(Debug)]
pub enum Exprs {
    Nil,
    Cons(Box<Expr>, Box<Exprs>),
}

/// The properties of an object literal, in order: each by its key's static name (`None` for a
/// computed key) and its value; a spread is a property with no name whose value is `Other`.
#[derive(Debug)]
pub enum Props {
    Nil,
    Cons(Option<String>, Box<Expr>, Box<Props>),
}

/// A statement of a function body, with what the analyser distinguishes of it.
#[derive(Debug)]
pub enum Stmt {
    /// An expression statement.
    Expression(Box<Expr>),
    /// `return argument;`.
    Return(Box<Expr>),
    /// `return;`.
    ReturnNothing,
    /// Any other statement.
    Other,
}

/// A list of statements.
#[derive(Debug)]
pub enum Stmts {
    Nil,
    Cons(Box<Stmt>, Box<Stmts>),
}

/// The dotted name of a member chain, such as `ctx.db.query`: through calls to their callees;
/// `None` when the chain does not start at a name or passes through an index.
pub open spec fn member_chain(e: Expr) -> Option<Seq<char>>
    decreases e,
{
    match e {
        Expr::Ident(n) => Some(n@),
        Expr::Member(o, p) => match member_chain(*o) {
            Some(c) => Some(c + "."@ + p@),
            None => None,
        },
        Expr::ChainMember(o, p) => match member_chain(*o) {
            Some(c) => Some(c + "."@ + p@),
            None => None,
        },
        Expr::Call(c, _, _) => member_chain(*c),
        Expr::ChainCall(c, _) => member_chain(*c),
        _ => None,
    }
}

/// Resolves a member chain into its dotted name.
pub fn resolve_member_chain(e: &Expr) -> (r: Option<String>)
    ensures
        match r {
            Some(s) => member_chain(*e) == Some(s@),
            None => member_chain(*e) is None,
        },
    decreases e,
{
    match e {
        Expr::Ident(n) => Some(owned(n.as_str())),
        Expr::Member(o, p) | Expr::ChainMember(o, p) => match resolve_member_chain(o) {
            Some(mut c) => {
                push_str(&mut c, ".");
                push_str(&mut c, p.as_str());
                Some(c)
            },
            None => None,
        },
        Expr::Call(c, _, _) | Expr::ChainCall(c, _) => resolve_member_chain(c),
        _ => None,
    }
}

/// The name a call's callee goes by: the name itself, or the last property of a member.
pub open spec fn callee_name(e: Expr) -> Option<Seq<char>>
    decreases e,
{
    match e {
        Expr::Ident(n) => Some(n@),
        Expr::Member(_, p) => Some(p@),
        Expr::ChainMember(_, p) => Some(p@),
        Expr::Call(c, _, _) => callee_name(*c),
        Expr::ChainCall(c, _) => callee_name(*c),
        _ => None,
    }
}

/// The name a call's callee goes by.
pub fn callee_name_of(e: &Expr) -> (r: Option<String>)
    ensures
        match r {
            Some(s) => callee_name(*e) == Some(s@),
            None => callee_name(*e) is None,
        },
    decreases e,
{
    match e {
        Expr::Ident(n) => Some(owned(n.as_str())),
        Expr::Member(_, p) | Expr::ChainMember(_, p) => Some(owned(p.as_str())),
        Expr::Call(c, _, _) | Expr::ChainCall(c, _) => callee_name_of(c),
        _ => None,
    }
}

/// The name `target` appears in `e`: as the expression, at the root of a member chain, in a
/// callee, or in a plain call's arguments.
pub open spec fn has_identifier(e: Expr, target: Seq<char>) -> bool
    decreases e,
{
    match e {
        Expr::Ident(n) => n@ == target,
        Expr::Member(o, _) => has_identifier(*o, target),
        Expr::Call(c, args, _) => has_identifier(*c, target) || any_has_identifier(*args, target),
        Expr::ChainCall(c, _) => has_identifier(*c, target),
        Expr::ChainMember(o, _) => has_identifier(*o, target),
        _ => false,
    }
}

/// Some expression of the list has `target` in it.
pub open spec fn any_has_identifier(l: Exprs, target: Seq<char>) -> bool
    decreases l,
{
    match l {
        Exprs::Nil => false,
        Exprs::Cons(h, t) => has_identifier(*h, target) || any_has_identifier(*t, target),
    }
}

/// Whether the name `target` appears in `e`.
pub fn expression_has_identifier(e: &Expr, target: &str) -> (b: bool)
    ensures
        b == has_identifier(*e, target@),
    decreases e,
{
    match e {
        Expr::Ident(n) => str_eq(n.as_str(), target),
        Expr::Member(o, _) | Expr::ChainMember(o, _) | Expr::ChainCall(o, _) => expression_has_identifier(o, target),
        Expr::Call(c, args, _) => expression_has_identifier(c, target) || list_has_identifier(args, target),
        _ => false,
    }
}

/// Whether the name `target` appears in some expression of the list.
pub fn list_has_identifier(l: &Exprs, target: &str) -> (b: bool)
    ensures
        b == any_has_identifier(*l, target@),
    decreases l,
{
    match l {
        Exprs::Nil => false,
        Exprs::Cons(h, t) => expression_has_identifier(h, target) || list_has_identifier(t, target),
    }
}

/// The number of expressions in the list.
pub open spec fn exprs_len(l: Exprs) -> nat
    decreases l,
{
    match l {
        Exprs::Nil => 0,
        Exprs::Cons(_, t) => 1 + exprs_len(*t),
    }
}

/// `o.p` where `o` is the name `object` and `p` is `property`.
pub open spec fn is_named_member(o: Expr, p: Seq<char>, object: Seq<char>, property: Seq<char>) -> bool {
    (o matches Expr::Ident(n) && n@ == object) && p == property
}

/// Whether `o.p` is `object.property`.
fn named_member(o: &Expr, p: &str, object: &str, property: &str) -> (b: bool)
    ensures
        b == is_named_member(*o, p@, object@, property@),
{
    match o {
        Expr::Ident(n) => str_eq(n.as_str(), object) && str_eq(p, property),
        _ => false,
    }
}

/// `ctx.auth` occurs in the chain of `e`.
pub open spec fn uses_ctx_auth(e: Expr) -> bool
    decreases e,
{
    match e {
        Expr::Member(o, p) => is_named_member(*o, p@, "ctx"@, "auth"@) || uses_ctx_auth(*o),
        Expr::ChainMember(o, p) => is_named_member(*o, p@, "ctx"@, "auth"@) || uses_ctx_auth(*o),
        Expr::Call(c, _, _) => uses_ctx_auth(*c),
        Expr::ChainCall(c, _) => uses_ctx_auth(*c),
        _ => false,
    }
}

/// Whether `ctx.auth` occurs in the chain of `e`.
pub fn contains_ctx_auth(e: &Expr) -> (b: bool)
    ensures
        b == uses_ctx_auth(*e),
    decreases e,
{
    match e {
        Expr::Member(o, p) | Expr::ChainMember(o, p) => named_member(o, p.as_str(), "ctx", "auth") || contains_ctx_auth(o),
        Expr::Call(c, _, _) | Expr::ChainCall(c, _) => contains_ctx_auth(c),
        _ => false,
    }
}

/// `process.env` occurs anywhere in `e`, through members, indexes, calls and their arguments,
/// and operators.
pub open spec fn uses_process_env(e: Expr) -> bool
    decreases e,
{
    match e {
        Expr::Member(o, p) => is_named_member(*o, p@, "process"@, "env"@) || uses_process_env(*o),
        Expr::Computed(o, _) => uses_process_env(*o),
        Expr::Call(c, args, _) => uses_process_env(*c) || any_uses_process_env(*args),
        Expr::Conditional(a, b, c) => uses_process_env(*a) || uses_process_env(*b) || uses_process_env(*c),
        Expr::Binary(l, r) => uses_process_env(*l) || uses_process_env(*r),
        Expr::Unary(a) => uses_process_env(*a),
        Expr::Logical(l, r) => uses_process_env(*l) || uses_process_env(*r),
        _ => false,
    }
}

/// Some expression of the list uses `process.env`.
pub open spec fn any_uses_process_env(l: Exprs) -> bool
    decreases l,
{
    match l {
        Exprs::Nil => false,
        Exprs::Cons(h, t) => uses_process_env(*h) || any_uses_process_env(*t),
    }
}

/// Whether `process.env` occurs anywhere in `e`.
pub fn contains_process_env(e: &Expr) -> (b: bool)
    ensures
        b == uses_process_env(*e),
    decreases e,
{
    match e {
        Expr::Member(o, p) => named_member(o, p.as_str(), "process", "env") || contains_process_env(o),
        Expr::Computed(o, _) => contains_process_env(o),
        Expr::Call(c, args, _) => contains_process_env(c) || list_uses_process_env(args),
        Expr::Conditional(a, b, c) => contains_process_env(a) || contains_process_env(b) || contains_process_env(c),
        Expr::Binary(l, r) | Expr::Logical(l, r) => contains_process_env(l) || contains_process_env(r),
        Expr::Unary(a) => contains_process_env(a),
        _ => false,
    }
}

/// Whether some expression of the list uses `process.env`.
fn list_uses_process_env(l: &Exprs) -> (b: bool)
    ensures
        b == any_uses_process_env(*l),
    decreases l,
{
    match l {
        Exprs::Nil => false,
        Exprs::Cons(h, t) => contains_process_env(h) || list_uses_process_env(t),
    }
}

/// The kind of Convex function that a constructor callee (`query`, `internalAction`, ...)
/// registers.
pub open spec fn function_kind(callee: Expr) -> Option<FunctionKind> {
    match callee {
        Expr::Ident(n) => kind_from_name(n@),
        _ => None,
    }
}

/// The kind of Convex function that a callee registers, if it is a constructor.
pub fn get_function_kind(callee: &Expr) -> (r: Option<FunctionKind>)
    ensures
        r == function_kind(*callee),
{
    match callee {
        Expr::Ident(n) => FunctionKind::from_callee(n.as_str()),
        _ => None,
    }
}

/// Whether `e` calls a Convex function constructor.
pub fn is_convex_function_call(e: &Expr) -> (b: bool)
    ensures
        b == (*e matches Expr::Call(c, _, _) && function_kind(*c) is Some),
{
    match e {
        Expr::Call(c, _, _) => get_function_kind(c).is_some(),
        _ => false,
    }
}

/// Whether a callee is a member chain on `ctx`.
pub fn is_ctx_call(callee: &Expr) -> (b: bool)
    ensures
        b == (member_chain(*callee) matches Some(c) && has_prefix(c, "ctx."@)),
{
    match resolve_member_chain(callee) {
        Some(chain) => starts_with(chain.as_str(), "ctx."),
        None => false,
    }
}

/// `e` is `paginationOptsValidator`, or a member chain that mentions it.
pub open spec fn mentions_pagination_validator(e: Expr) -> bool
    decreases e,
{
    match e {
        Expr::Ident(n) => n@ == "paginationOptsValidator"@,
        Expr::Member(o, p) => p@ == "paginationOptsValidator"@ || mentions_pagination_validator(*o),
        Expr::ChainMember(o, p) => p@ == "paginationOptsValidator"@ || mentions_pagination_validator(*o),
        Expr::ChainCall(c, _) => mentions_pagination_validator(*c),
        _ => false,
    }
}

/// Whether `e` is `paginationOptsValidator`, or a member chain that mentions it.
pub fn is_pagination_opts_validator_expr(e: &Expr) -> (b: bool)
    ensures
        b == mentions_pagination_validator(*e),
    decreases e,
{
    match e {
        Expr::Ident(n) => str_eq(n.as_str(), "paginationOptsValidator"),
        Expr::Member(o, p) | Expr::ChainMember(o, p) => str_eq(p.as_str(), "paginationOptsValidator")
            || is_pagination_opts_validator_expr(o),
        Expr::ChainCall(c, _) => is_pagination_opts_validator_expr(c),
        _ => false,
    }
}

/// A call of `callee` with `args` checks authentication: the callee's name reads as an
/// authentication helper and an argument mentions `ctx` or `request`.
pub open spec fn calls_auth_helper(callee: Expr, args: Exprs) -> bool {
    match callee_name(callee) {
        Some(name) => auth_helper_call_spec(
            name,
            exprs_len(args) > 0,
            any_has_identifier(args, "ctx"@) || any_has_identifier(args, "request"@),
        ),
        None => false,
    }
}

/// Whether a call of `callee` with `args` checks authentication.
pub fn call_uses_auth_helper(callee: &Expr, args: &Exprs) -> (b: bool)
    ensures
        b == calls_auth_helper(*callee, *args),
{
    match callee_name_of(callee) {
        Some(name) => {
            let has_args = match args {
                Exprs::Nil => false,
                Exprs::Cons(_, _) => true,
            };
            let passes = list_has_identifier(args, "ctx") || list_has_identifier(args, "request");
            is_auth_helper_call(name.as_str(), has_args, passes)
        },
        None => false,
    }
}


/// The names that occur in `e`, in order: in arrays, calls and their arguments, member
/// objects, indexes, parentheses and operators.
pub open spec fn identifiers(e: Expr) -> Seq<Seq<char>>
    decreases e,
{
    match e {
        Expr::Ident(n) => seq![n@],
        Expr::Array(els) => list_identifiers(*els),
        Expr::Call(c, args, _) => identifiers(*c) + list_identifiers(*args),
        Expr::ChainCall(c, args) => identifiers(*c) + list_identifiers(*args),
        Expr::Member(o, _) => identifiers(*o),
        Expr::ChainMember(o, _) => identifiers(*o),
        Expr::Computed(o, x) => identifiers(*o) + identifiers(*x),
        Expr::ChainComputed(o, x) => identifiers(*o) + identifiers(*x),
        Expr::Paren(x) => identifiers(*x),
        Expr::Unary(x) => identifiers(*x),
        Expr::Binary(l, r) => identifiers(*l) + identifiers(*r),
        Expr::Logical(l, r) => identifiers(*l) + identifiers(*r),
        Expr::Conditional(a, b, c) => identifiers(*a) + identifiers(*b) + identifiers(*c),
        _ => Seq::empty(),
    }
}

/// The names that occur in the expressions of the list, in order.
pub open spec fn list_identifiers(l: Exprs) -> Seq<Seq<char>>
    decreases l,
{
    match l {
        Exprs::Nil => Seq::empty(),
        Exprs::Cons(h, t) => identifiers(*h) + list_identifiers(*t),
    }
}

/// Appends the names that occur in `e` to `out`.
pub fn collect_identifiers(e: &Expr, out: &mut Vec<String>)
    ensures
        string_views(final(out)@) == string_views(old(out)@) + identifiers(*e),
    decreases e,
{
    let ghost start = string_views(out@);
    match e {
        Expr::Ident(n) => {
            out.push(owned(n.as_str()));
            proof {
                lemma_string_views_push(old(out)@, out@.last());
                assert(string_views(out@) =~= start + seq![n@]);
            }
        },
        Expr::Array(els) => collect_list_identifiers(els, out),
        Expr::Call(c, args, _) | Expr::ChainCall(c, args) => {
            collect_identifiers(c, out);
            collect_list_identifiers(args, out);
            assert(string_views(out@) =~= start + (identifiers(**c) + list_identifiers(**args)));
        },
        Expr::Member(o, _) | Expr::ChainMember(o, _) | Expr::Paren(o) | Expr::Unary(o) => collect_identifiers(o, out),
        Expr::Computed(o, x) | Expr::ChainComputed(o, x) | Expr::Binary(o, x) | Expr::Logical(o, x) => {
            collect_identifiers(o, out);
            collect_identifiers(x, out);
            assert(string_views(out@) =~= start + (identifiers(**o) + identifiers(**x)));
        },
        Expr::Conditional(a, b, c) => {
            collect_identifiers(a, out);
            collect_identifiers(b, out);
            collect_identifiers(c, out);
            assert(string_views(out@) =~= start + (identifiers(**a) + identifiers(**b) + identifiers(**c)));
        },
        _ => {
            assert(string_views(out@) =~= start + Seq::<Seq<char>>::empty());
        },
    }
}

/// Appends the names that occur in the expressions of the list to `out`.
pub fn collect_list_identifiers(l: &Exprs, out: &mut Vec<String>)
    ensures
        string_views(final(out)@) == string_views(old(out)@) + list_identifiers(*l),
    decreases l,
{
    let ghost start = string_views(out@);
    match l {
        Exprs::Nil => {
            assert(string_views(out@) =~= start + Seq::<Seq<char>>::empty());
        },
        Exprs::Cons(h, t) => {
            collect_identifiers(h, out);
            collect_list_identifiers(t, out);
            assert(string_views(out@) =~= start + (identifiers(**h) + list_identifiers(**t)));
        },
    }
}

/// The field that a call `callee(args)` compares, when it is `q.field("name")` for some name `q`.
pub open spec fn compared_field(callee: Expr, args: Exprs) -> Seq<Seq<char>> {
    match callee {
        Expr::Member(o, p) => if p@ == "field"@ && (*o matches Expr::Ident(_)) {
            match args {
                Exprs::Cons(h, _) => match *h {
                    Expr::Str(v) => seq![v@],
                    _ => Seq::empty(),
                },
                Exprs::Nil => Seq::empty(),
            }
        } else {
            Seq::empty()
        },
        _ => Seq::empty(),
    }
}

/// The fields that a filter compares with `q.field("name")`, in order: through calls and their
/// arguments, member objects, function bodies and operators. An arrow function is read by its
/// first statement when that is an expression or a return, else by all its statements.
pub open spec fn field_calls(e: Expr) -> Seq<Seq<char>>
    decreases e,
{
    match e {
        Expr::Call(c, args, _) => compared_field(*c, *args) + field_calls(*c) + list_field_calls(*args),
        Expr::Member(o, _) => field_calls(*o),
        Expr::Arrow(body) => match *body {
            Stmts::Cons(first, rest) => match *first {
                Stmt::Expression(x) => field_calls(*x),
                Stmt::Return(x) => field_calls(*x),
                Stmt::ReturnNothing => Seq::empty(),
                Stmt::Other => stmts_field_calls(Stmts::Cons(first, rest)),
            },
            Stmts::Nil => Seq::empty(),
        },
        Expr::Function(body) => stmts_field_calls(*body),
        Expr::Binary(l, r) => field_calls(*l) + field_calls(*r),
        Expr::Logical(l, r) => field_calls(*l) + field_calls(*r),
        Expr::Unary(x) => field_calls(*x),
        Expr::Paren(x) => field_calls(*x),
        Expr::Conditional(a, b, c) => field_calls(*a) + field_calls(*b) + field_calls(*c),
        _ => Seq::empty(),
    }
}

/// The compared fields in the expressions of the list, in order.
pub open spec fn list_field_calls(l: Exprs) -> Seq<Seq<char>>
    decreases l,
{
    match l {
        Exprs::Nil => Seq::empty(),
        Exprs::Cons(h, t) => field_calls(*h) + list_field_calls(*t),
    }
}

/// The compared fields of an expression or return statement; none for another statement.
pub open spec fn stmt_field_calls(st: Stmt) -> Seq<Seq<char>>
    decreases st,
{
    match st {
        Stmt::Expression(x) => field_calls(*x),
        Stmt::Return(x) => field_calls(*x),
        _ => Seq::empty(),
    }
}

/// The compared fields in the expression and return statements of a body, in order.
pub open spec fn stmts_field_calls(l: Stmts) -> Seq<Seq<char>>
    decreases l,
{
    match l {
        Stmts::Nil => Seq::empty(),
        Stmts::Cons(h, t) => stmt_field_calls(*h) + stmts_field_calls(*t),
    }
}


/// Appends the field compared by a call `callee(args)`, when it is `q.field("name")`.
fn push_compared_field(callee: &Expr, args: &Exprs, out: &mut Vec<String>)
    ensures
        string_views(final(out)@) == string_views(old(out)@) + compared_field(*callee, *args),
{
    let ghost start = string_views(out@);
    if let Expr::Member(o, p) = callee {
        if str_eq(p.as_str(), "field") {
            if let Expr::Ident(_) = &**o {
                if let Exprs::Cons(h, _) = args {
                    if let Expr::Str(v) = &**h {
                        out.push(owned(v.as_str()));
                        proof {
                            lemma_string_views_push(old(out)@, out@.last());
                            assert(string_views(out@) =~= start + seq![v@]);
                        }
                        return;
                    }
                }
            }
        }
    }
    assert(string_views(out@) =~= start + compared_field(*callee, *args));
}

/// Appends the fields that a filter expression compares with `q.field("name")` to `fields`.
pub fn collect_field_calls(e: &Expr, fields: &mut Vec<String>)
    ensures
        string_views(final(fields)@) == string_views(old(fields)@) + field_calls(*e),
    decreases e,
{
    let ghost start = string_views(fields@);
    match e {
        Expr::Call(c, args, _) => {
            push_compared_field(c, args, fields);
            collect_field_calls(c, fields);
            collect_list_field_calls(args, fields);
            assert(string_views(fields@) =~= start + (compared_field(**c, **args) + field_calls(**c)
                + list_field_calls(**args)));
        },
        Expr::Member(o, _) | Expr::Unary(o) | Expr::Paren(o) => collect_field_calls(o, fields),
        Expr::Arrow(body) => {
            match &**body {
                Stmts::Cons(first, _) => match &**first {
                    Stmt::Expression(x) | Stmt::Return(x) => collect_field_calls(x, fields),
                    Stmt::ReturnNothing => {
                        assert(string_views(fields@) =~= start + Seq::<Seq<char>>::empty());
                    },
                    Stmt::Other => collect_stmts_field_calls(body, fields),
                },
                Stmts::Nil => {
                    assert(string_views(fields@) =~= start + Seq::<Seq<char>>::empty());
                },
            }
        },
        Expr::Function(body) => collect_stmts_field_calls(body, fields),
        Expr::Binary(l, r) | Expr::Logical(l, r) => {
            collect_field_calls(l, fields);
            collect_field_calls(r, fields);
            assert(string_views(fields@) =~= start + (field_calls(**l) + field_calls(**r)));
        },
        Expr::Conditional(a, b, c) => {
            collect_field_calls(a, fields);
            collect_field_calls(b, fields);
            collect_field_calls(c, fields);
            assert(string_views(fields@) =~= start + (field_calls(**a) + field_calls(**b) + field_calls(**c)));
        },
        _ => {
            assert(string_views(fields@) =~= start + Seq::<Seq<char>>::empty());
        },
    }
}

/// Appends the compared fields of the expressions of the list.
fn collect_list_field_calls(l: &Exprs, fields: &mut Vec<String>)
    ensures
        string_views(final(fields)@) == string_views(old(fields)@) + list_field_calls(*l),
    decreases l,
{
    let ghost start = string_views(fields@);
    match l {
        Exprs::Nil => {
            assert(string_views(fields@) =~= start + Seq::<Seq<char>>::empty());
        },
        Exprs::Cons(h, t) => {
            collect_field_calls(h, fields);
            collect_list_field_calls(t, fields);
            assert(string_views(fields@) =~= start + (field_calls(**h) + list_field_calls(**t)));
        },
    }
}

/// Appends the compared fields of the expression and return statements of a body.
fn collect_stmts_field_calls(l: &Stmts, fields: &mut Vec<String>)
    ensures
        string_views(final(fields)@) == string_views(old(fields)@) + stmts_field_calls(*l),
    decreases l,
{
    let ghost start = string_views(fields@);
    match l {
        Stmts::Nil => {
            assert(string_views(fields@) =~= start + Seq::<Seq<char>>::empty());
        },
        Stmts::Cons(h, t) => {
            match &**h {
                Stmt::Expression(x) | Stmt::Return(x) => collect_field_calls(x, fields),
                _ => {
                    assert(string_views(fields@) =~= start + Seq::<Seq<char>>::empty());
                },
            }
            let ghost mid = string_views(fields@);
            collect_stmts_field_calls(t, fields);
            assert(string_views(fields@) =~= start + (stmt_field_calls(**h) + stmts_field_calls(**t)));
        },
    }
}

/// The fields that a filter callback compares with `q.field("name")`, in order.
pub fn extract_filter_field_names(e: &Expr) -> (r: Vec<String>)
    ensures
        string_views(r@) == field_calls(*e),
{
    let mut fields: Vec<String> = Vec::new();
    collect_field_calls(e, &mut fields);
    assert(string_views(fields@) =~= Seq::<Seq<char>>::empty() + field_calls(*e));
    fields
}

} // verus!
