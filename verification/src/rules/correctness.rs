//! Rules about code that does not behave as its author expects.
use vstd::prelude::*;

use crate::diagnostic::{lemma_models_push, models, Category, Diagnostic, DiagnosticModel, Severity};
use crate::rules::{
    all_tagged, diagnostic_model, keep_all, quote, quoted, kind_is_action, kind_is_mutation, kind_is_public,
    kind_is_query, kind_name, lemma_empty_text_neutral, lemma_select_map_all, lemma_select_map_filter, lemma_select_map_keeps, lemma_select_map_members, lemma_select_map_step, lemma_select_map_tagged, location_diag,
    location_diagnostics, new_diagnostic, no_diagnostics, select_map, CallLocation, ConvexFunction,
    CtxCall, FileAnalysis, FunctionKind, ImportInfo, ProjectContext, Rule,
};
use crate::text::{has_prefix, owned, push_str, starts_with, str_eq};
use crate::rules::DeprecatedCall;

verus! {

/// Calls on `ctx` that return a promise which must be awaited.
pub open spec fn awaitable_chain(chain: Seq<char>) -> bool {
    ||| has_prefix(chain, "ctx.scheduler"@)
    ||| has_prefix(chain, "ctx.db.patch"@)
    ||| has_prefix(chain, "ctx.db.insert"@)
    ||| has_prefix(chain, "ctx.db.replace"@)
    ||| has_prefix(chain, "ctx.db.delete"@)
    ||| has_prefix(chain, "ctx.runMutation"@)
    ||| has_prefix(chain, "ctx.runQuery"@)
    ||| has_prefix(chain, "ctx.runAction"@)
}

fn is_awaitable_chain(chain: &str) -> (b: bool)
    ensures
        b == awaitable_chain(chain@),
{
    starts_with(chain, "ctx.scheduler") || starts_with(chain, "ctx.db.patch") || starts_with(
        chain,
        "ctx.db.insert",
    ) || starts_with(chain, "ctx.db.replace") || starts_with(chain, "ctx.db.delete")
        || starts_with(chain, "ctx.runMutation") || starts_with(chain, "ctx.runQuery")
        || starts_with(chain, "ctx.runAction")
}

/// Calls that write to the database or schedule work.
pub open spec fn writing_chain(chain: Seq<char>) -> bool {
    ||| has_prefix(chain, "ctx.db.insert"@)
    ||| has_prefix(chain, "ctx.db.patch"@)
    ||| has_prefix(chain, "ctx.db.replace"@)
    ||| has_prefix(chain, "ctx.db.delete"@)
    ||| has_prefix(chain, "ctx.scheduler"@)
}

fn is_writing_chain(chain: &str) -> (b: bool)
    ensures
        b == writing_chain(chain@),
{
    starts_with(chain, "ctx.db.insert") || starts_with(chain, "ctx.db.patch") || starts_with(
        chain,
        "ctx.db.replace",
    ) || starts_with(chain, "ctx.db.delete") || starts_with(chain, "ctx.scheduler")
}

/// The enclosing function is of a kind satisfying `p`.
pub open spec fn enclosed_in(k: Option<FunctionKind>, p: spec_fn(FunctionKind) -> bool) -> bool {
    match k {
        Some(k) => p(k),
        None => false,
    }
}

fn enclosed_in_action(k: &Option<FunctionKind>) -> (b: bool)
    ensures
        b == enclosed_in(*k, |k: FunctionKind| kind_is_action(k)),
{
    match k {
        Some(k) => k.is_action(),
        None => false,
    }
}

fn enclosed_in_query(k: &Option<FunctionKind>) -> (b: bool)
    ensures
        b == enclosed_in(*k, |k: FunctionKind| kind_is_query(k)),
{
    match k {
        Some(k) => k.is_query(),
        None => false,
    }
}

/// Queries and mutations, internal or not.
pub open spec fn query_or_mutation_kind(k: FunctionKind) -> bool {
    matches!(k, FunctionKind::Query | FunctionKind::Mutation | FunctionKind::InternalQuery | FunctionKind::InternalMutation)
}

pub const UNWAITED_HELP: &'static str = "This call returns a Promise that must be awaited. Without `await`, the operation may not complete before the function returns.";

/// A promise-returning ctx call that is not awaited.
pub open spec fn unwaited_keep() -> spec_fn(CtxCall) -> bool {
    |c: CtxCall| !c.is_awaited && awaitable_chain(c.chain@)
}

/// The finding reported for a selected element.
pub open spec fn unwaited_diag(file: Seq<char>) -> spec_fn(CtxCall) -> DiagnosticModel {
    |c: CtxCall|
        diagnostic_model(
            "correctness/unwaited-promise"@,
            Severity::Error,
            Category::Correctness,
            quoted(c.chain@, "` is not awaited"@),
            UNWAITED_HELP@,
            file,
            c.line,
            c.col,
        )
}

/// Error for each promise-returning ctx call that is not awaited.
pub struct UnwaitedPromise;

impl Rule for UnwaitedPromise {
    open spec fn spec_id(&self) -> Seq<char> {
        "correctness/unwaited-promise"@
    }

    open spec fn spec_category(&self) -> Category {
        Category::Correctness
    }

    open spec fn spec_check(&self, a: FileAnalysis) -> Seq<DiagnosticModel> {
        select_map(a.ctx_calls@, unwaited_keep(), unwaited_diag(a.file_path@))
    }

    open spec fn spec_check_project(&self, ctx: ProjectContext) -> Seq<DiagnosticModel> {
        Seq::empty()
    }

    fn id(&self) -> (r: &'static str) {
        "correctness/unwaited-promise"
    }

    fn category(&self) -> (r: Category) {
        Category::Correctness
    }

    fn check(&self, a: &FileAnalysis) -> (r: Vec<Diagnostic>) {
        let ghost keep = unwaited_keep();
        let ghost f = unwaited_diag(a.file_path@);
        let mut out: Vec<Diagnostic> = Vec::new();
        let n = a.ctx_calls.len();
        for i in 0..n
            invariant
                n == a.ctx_calls.len(),
                keep == unwaited_keep(),
                f == unwaited_diag(a.file_path@),
                models(out@) == select_map(a.ctx_calls@.take(i as int), keep, f),
        {
            proof {
                lemma_select_map_step(a.ctx_calls@, i as int, keep, f);
            }
            let c = &a.ctx_calls[i];
            if !c.is_awaited && is_awaitable_chain(c.chain.as_str()) {
                let m = quote(c.chain.as_str(), "` is not awaited");
                let d = new_diagnostic(
                    "correctness/unwaited-promise",
                    Severity::Error,
                    Category::Correctness,
                    m,
                    UNWAITED_HELP,
                    &a.file_path,
                    c.line,
                    c.col,
                );
                proof {
                    lemma_models_push(out@, d);
                }
                out.push(d);
            }
        }
        proof {
            assert(a.ctx_calls@.take(n as int) =~= a.ctx_calls@);
            lemma_select_map_tagged(a.ctx_calls@, keep, f, self.spec_id(), self.spec_category());
        }
        out
    }

    fn check_project(&self, ctx: &ProjectContext) -> (r: Vec<Diagnostic>) {
        no_diagnostics()
    }
}

/// The call on `ctx` returns a promise: `ctx.db.insert`, `ctx.db.patch`, `ctx.db.replace`,
/// `ctx.db.delete`, anything on `ctx.scheduler`, `ctx.runMutation`, `ctx.runQuery` or
/// `ctx.runAction`.
pub open spec fn returns_promise(chain: Seq<char>) -> bool {
    has_prefix(chain, "ctx.db.insert"@) || has_prefix(chain, "ctx.db.patch"@) || has_prefix(
        chain,
        "ctx.db.replace"@,
    ) || has_prefix(chain, "ctx.db.delete"@) || has_prefix(chain, "ctx.scheduler"@) || has_prefix(
        chain,
        "ctx.runMutation"@,
    ) || has_prefix(chain, "ctx.runQuery"@) || has_prefix(chain, "ctx.runAction"@)
}

/// Every promise-returning `ctx` call made without `await` is reported as an error at the
/// call, "`<chain>` is not awaited"; and every finding is such a call.
pub proof fn law_unawaited_promises_reported(a: FileAnalysis)
    ensures
        forall|i: int|
            0 <= i < a.ctx_calls@.len() && !(#[trigger] a.ctx_calls@[i]).is_awaited && returns_promise(
                a.ctx_calls@[i].chain@,
            ) ==> exists|k: int|
                0 <= k < UnwaitedPromise.spec_check(a).len() && UnwaitedPromise.spec_check(a)[k] == (DiagnosticModel {
                    rule: "correctness/unwaited-promise"@,
                    severity: Severity::Error,
                    category: Category::Correctness,
                    message: "`"@ + a.ctx_calls@[i].chain@ + "` is not awaited"@,
                    help: UNWAITED_HELP@,
                    file: a.file_path@,
                    line: a.ctx_calls@[i].line,
                    column: a.ctx_calls@[i].col,
                }),
        forall|k: int|
            #![trigger UnwaitedPromise.spec_check(a)[k]]
            0 <= k < UnwaitedPromise.spec_check(a).len() ==> exists|i: int|
                0 <= i < a.ctx_calls@.len() && !(#[trigger] a.ctx_calls@[i]).is_awaited && returns_promise(
                    a.ctx_calls@[i].chain@,
                ) && UnwaitedPromise.spec_check(a)[k] == (DiagnosticModel {
                    rule: "correctness/unwaited-promise"@,
                    severity: Severity::Error,
                    category: Category::Correctness,
                    message: "`"@ + a.ctx_calls@[i].chain@ + "` is not awaited"@,
                    help: UNWAITED_HELP@,
                    file: a.file_path@,
                    line: a.ctx_calls@[i].line,
                    column: a.ctx_calls@[i].col,
                }),
{
    let s = a.ctx_calls@;
    let keep = unwaited_keep();
    let f = unwaited_diag(a.file_path@);
    assert(UnwaitedPromise.spec_check(a) == select_map(s, keep, f));
    assert forall|i: int|
        0 <= i < s.len() && !(#[trigger] s[i]).is_awaited && returns_promise(s[i].chain@) implies exists|k: int|
            0 <= k < UnwaitedPromise.spec_check(a).len() && UnwaitedPromise.spec_check(a)[k] == (DiagnosticModel {
                rule: "correctness/unwaited-promise"@,
                severity: Severity::Error,
                category: Category::Correctness,
                message: "`"@ + s[i].chain@ + "` is not awaited"@,
                help: UNWAITED_HELP@,
                file: a.file_path@,
                line: s[i].line,
                column: s[i].col,
            }) by {
        assert(keep(s[i]));
        lemma_select_map_keeps(s, keep, f, i);
    }
    assert forall|k: int|
        #![trigger select_map(s, keep, f)[k]]
        0 <= k < select_map(s, keep, f).len() implies exists|i: int|
        0 <= i < s.len() && !(#[trigger] s[i]).is_awaited && returns_promise(s[i].chain@)
            && select_map(s, keep, f)[k] == f(s[i]) by {
        lemma_select_map_members(s, keep, f, k);
    }
}

/// Exactly the promise-returning `ctx` calls made without `await` are reported, each once and
/// in the order of the calls.
pub proof fn law_unawaited_promises_exactly(a: FileAnalysis)
    ensures
        UnwaitedPromise.spec_check(a) == a.ctx_calls@.filter(
            |c: CtxCall| !c.is_awaited && returns_promise(c.chain@),
        ).map_values(
            |c: CtxCall|
                (DiagnosticModel {
                    rule: "correctness/unwaited-promise"@,
                    severity: Severity::Error,
                    category: Category::Correctness,
                    message: "`"@ + c.chain@ + "` is not awaited"@,
                    help: UNWAITED_HELP@,
                    file: a.file_path@,
                    line: c.line,
                    column: c.col,
                }),
        ),
{
    lemma_select_map_filter(
        a.ctx_calls@,
        unwaited_keep(),
        unwaited_diag(a.file_path@),
        |c: CtxCall| !c.is_awaited && returns_promise(c.chain@),
        |c: CtxCall|
            (DiagnosticModel {
                rule: "correctness/unwaited-promise"@,
                severity: Severity::Error,
                category: Category::Correctness,
                message: "`"@ + c.chain@ + "` is not awaited"@,
                help: UNWAITED_HELP@,
                file: a.file_path@,
                line: c.line,
                column: c.col,
            }),
    );
}

pub const OLD_SYNTAX_HELP: &'static str = "Register functions with the object syntax: `query({ args: { ... }, handler: async (ctx, args) => { ... } })`.";

/// Warning for each function registered with the legacy syntax (a handler passed directly instead of a config object), at the registration.
pub struct OldFunctionSyntax;

impl Rule for OldFunctionSyntax {
    open spec fn spec_id(&self) -> Seq<char> {
        "correctness/old-function-syntax"@
    }

    open spec fn spec_category(&self) -> Category {
        Category::Correctness
    }

    open spec fn spec_check(&self, a: FileAnalysis) -> Seq<DiagnosticModel> {
        select_map(
            a.old_syntax_functions@,
            keep_all(),
            location_diag(
                "correctness/old-function-syntax"@,
                Severity::Warning,
                Category::Correctness,
                ""@,
                ""@,
                true,
                OLD_SYNTAX_HELP@,
                a.file_path@,
            ),
        )
    }

    open spec fn spec_check_project(&self, ctx: ProjectContext) -> Seq<DiagnosticModel> {
        Seq::empty()
    }

    fn id(&self) -> (r: &'static str) {
        "correctness/old-function-syntax"
    }

    fn category(&self) -> (r: Category) {
        Category::Correctness
    }

    fn check(&self, a: &FileAnalysis) -> (r: Vec<Diagnostic>) {
        location_diagnostics(
            &a.old_syntax_functions,
            "correctness/old-function-syntax",
            Severity::Warning,
            Category::Correctness,
            "",
            "",
            true,
            OLD_SYNTAX_HELP,
            &a.file_path,
        )
    }

    fn check_project(&self, ctx: &ProjectContext) -> (r: Vec<Diagnostic>) {
        no_diagnostics()
    }
}

/// Every entry of `old_syntax_functions` is reported, once and in order, as a warning at its place.
pub proof fn law_old_function_syntax_reports_each(a: FileAnalysis)
    ensures
        OldFunctionSyntax.spec_check(a) == a.old_syntax_functions@.map_values(
            |c: CallLocation|
                (DiagnosticModel {
                    rule: "correctness/old-function-syntax"@,
                    severity: Severity::Warning,
                    category: Category::Correctness,
                    message: c.detail@,
                    help: OLD_SYNTAX_HELP@,
                    file: a.file_path@,
                    line: c.line,
                    column: c.col,
                }),
        ),
{
    lemma_empty_text_neutral();
    lemma_select_map_all(
        a.old_syntax_functions@,
        keep_all(),
        location_diag(
            "correctness/old-function-syntax"@,
            Severity::Warning,
            Category::Correctness,
            ""@,
            ""@,
            true,
            OLD_SYNTAX_HELP@,
            a.file_path@,
        ),
        |c: CallLocation|
            (DiagnosticModel {
                rule: "correctness/old-function-syntax"@,
                severity: Severity::Warning,
                category: Category::Correctness,
                message: c.detail@,
                help: OLD_SYNTAX_HELP@,
                file: a.file_path@,
                line: c.line,
                column: c.col,
            }),
    );
}

pub const NON_DETERMINISTIC_HELP: &'static str = "Queries must be deterministic to be cached and reactive. Pass times or random values in as arguments, or compute them in a mutation or action.";

/// Warning for each `Math.random()` or `new Date()` inside a query.
pub struct NonDeterministicInQuery;

impl Rule for NonDeterministicInQuery {
    open spec fn spec_id(&self) -> Seq<char> {
        "correctness/non-deterministic-in-query"@
    }

    open spec fn spec_category(&self) -> Category {
        Category::Correctness
    }

    open spec fn spec_check(&self, a: FileAnalysis) -> Seq<DiagnosticModel> {
        select_map(
            a.non_deterministic_calls@,
            keep_all(),
            location_diag(
                "correctness/non-deterministic-in-query"@,
                Severity::Warning,
                Category::Correctness,
                "`"@,
                "` in a query makes its result non-deterministic"@,
                true,
                NON_DETERMINISTIC_HELP@,
                a.file_path@,
            ),
        )
    }

    open spec fn spec_check_project(&self, ctx: ProjectContext) -> Seq<DiagnosticModel> {
        Seq::empty()
    }

    fn id(&self) -> (r: &'static str) {
        "correctness/non-deterministic-in-query"
    }

    fn category(&self) -> (r: Category) {
        Category::Correctness
    }

    fn check(&self, a: &FileAnalysis) -> (r: Vec<Diagnostic>) {
        location_diagnostics(
            &a.non_deterministic_calls,
            "correctness/non-deterministic-in-query",
            Severity::Warning,
            Category::Correctness,
            "`",
            "` in a query makes its result non-deterministic",
            true,
            NON_DETERMINISTIC_HELP,
            &a.file_path,
        )
    }

    fn check_project(&self, ctx: &ProjectContext) -> (r: Vec<Diagnostic>) {
        no_diagnostics()
    }
}

/// Every entry of `non_deterministic_calls` is reported, once and in order, as a warning at its place.
pub proof fn law_non_deterministic_in_query_reports_each(a: FileAnalysis)
    ensures
        NonDeterministicInQuery.spec_check(a) == a.non_deterministic_calls@.map_values(
            |c: CallLocation|
                (DiagnosticModel {
                    rule: "correctness/non-deterministic-in-query"@,
                    severity: Severity::Warning,
                    category: Category::Correctness,
                    message: "`"@ + c.detail@ + "` in a query makes its result non-deterministic"@,
                    help: NON_DETERMINISTIC_HELP@,
                    file: a.file_path@,
                    line: c.line,
                    column: c.col,
                }),
        ),
{
    lemma_select_map_all(
        a.non_deterministic_calls@,
        keep_all(),
        location_diag(
            "correctness/non-deterministic-in-query"@,
            Severity::Warning,
            Category::Correctness,
            "`"@,
            "` in a query makes its result non-deterministic"@,
            true,
            NON_DETERMINISTIC_HELP@,
            a.file_path@,
        ),
        |c: CallLocation|
            (DiagnosticModel {
                rule: "correctness/non-deterministic-in-query"@,
                severity: Severity::Warning,
                category: Category::Correctness,
                message: "`"@ + c.detail@ + "` in a query makes its result non-deterministic"@,
                help: NON_DETERMINISTIC_HELP@,
                file: a.file_path@,
                line: c.line,
                column: c.col,
            }),
    );
}

pub const MISSING_UNIQUE_HELP: &'static str = "When an index lookup should match one document, use `.unique()`: it fails loudly when more than one matches.";

/// Warning for each `.first()` at the end of a database query that uses an index.
pub struct MissingUnique;

impl Rule for MissingUnique {
    open spec fn spec_id(&self) -> Seq<char> {
        "correctness/missing-unique"@
    }

    open spec fn spec_category(&self) -> Category {
        Category::Correctness
    }

    open spec fn spec_check(&self, a: FileAnalysis) -> Seq<DiagnosticModel> {
        select_map(
            a.first_calls@,
            keep_all(),
            location_diag(
                "correctness/missing-unique"@,
                Severity::Warning,
                Category::Correctness,
                "`.first()` on an indexed query `"@,
                "`; consider `.unique()`"@,
                true,
                MISSING_UNIQUE_HELP@,
                a.file_path@,
            ),
        )
    }

    open spec fn spec_check_project(&self, ctx: ProjectContext) -> Seq<DiagnosticModel> {
        Seq::empty()
    }

    fn id(&self) -> (r: &'static str) {
        "correctness/missing-unique"
    }

    fn category(&self) -> (r: Category) {
        Category::Correctness
    }

    fn check(&self, a: &FileAnalysis) -> (r: Vec<Diagnostic>) {
        location_diagnostics(
            &a.first_calls,
            "correctness/missing-unique",
            Severity::Warning,
            Category::Correctness,
            "`.first()` on an indexed query `",
            "`; consider `.unique()`",
            true,
            MISSING_UNIQUE_HELP,
            &a.file_path,
        )
    }

    fn check_project(&self, ctx: &ProjectContext) -> (r: Vec<Diagnostic>) {
        no_diagnostics()
    }
}

/// Every entry of `first_calls` is reported, once and in order, as a warning at its place.
pub proof fn law_missing_unique_reports_each(a: FileAnalysis)
    ensures
        MissingUnique.spec_check(a) == a.first_calls@.map_values(
            |c: CallLocation|
                (DiagnosticModel {
                    rule: "correctness/missing-unique"@,
                    severity: Severity::Warning,
                    category: Category::Correctness,
                    message: "`.first()` on an indexed query `"@ + c.detail@ + "`; consider `.unique()`"@,
                    help: MISSING_UNIQUE_HELP@,
                    file: a.file_path@,
                    line: c.line,
                    column: c.col,
                }),
        ),
{
    lemma_select_map_all(
        a.first_calls@,
        keep_all(),
        location_diag(
            "correctness/missing-unique"@,
            Severity::Warning,
            Category::Correctness,
            "`.first()` on an indexed query `"@,
            "`; consider `.unique()`"@,
            true,
            MISSING_UNIQUE_HELP@,
            a.file_path@,
        ),
        |c: CallLocation|
            (DiagnosticModel {
                rule: "correctness/missing-unique"@,
                severity: Severity::Warning,
                category: Category::Correctness,
                message: "`.first()` on an indexed query `"@ + c.detail@ + "`; consider `.unique()`"@,
                help: MISSING_UNIQUE_HELP@,
                file: a.file_path@,
                line: c.line,
                column: c.col,
            }),
    );
}

pub const DB_IN_ACTION_HELP: &'static str = "Actions cannot directly access the database. Use `ctx.runQuery` or `ctx.runMutation` to read/write data from an action.";

/// A database call made inside an action.
pub open spec fn db_in_action_keep() -> spec_fn(CtxCall) -> bool {
    |c: CtxCall| has_prefix(c.chain@, "ctx.db."@) && enclosed_in(c.enclosing_function_kind, |k: FunctionKind| kind_is_action(k))
}

/// The finding reported for a selected element.
pub open spec fn db_in_action_diag(file: Seq<char>) -> spec_fn(CtxCall) -> DiagnosticModel {
    |c: CtxCall|
        diagnostic_model(
            "correctness/db-in-action"@,
            Severity::Error,
            Category::Correctness,
            quoted(c.chain@, "` used in an action"@),
            DB_IN_ACTION_HELP@,
            file,
            c.line,
            c.col,
        )
}

/// Error for each direct database call inside an action.
pub struct DbInAction;

impl Rule for DbInAction {
    open spec fn spec_id(&self) -> Seq<char> {
        "correctness/db-in-action"@
    }

    open spec fn spec_category(&self) -> Category {
        Category::Correctness
    }

    open spec fn spec_check(&self, a: FileAnalysis) -> Seq<DiagnosticModel> {
        select_map(a.ctx_calls@, db_in_action_keep(), db_in_action_diag(a.file_path@))
    }

    open spec fn spec_check_project(&self, ctx: ProjectContext) -> Seq<DiagnosticModel> {
        Seq::empty()
    }

    fn id(&self) -> (r: &'static str) {
        "correctness/db-in-action"
    }

    fn category(&self) -> (r: Category) {
        Category::Correctness
    }

    fn check(&self, a: &FileAnalysis) -> (r: Vec<Diagnostic>) {
        let ghost keep = db_in_action_keep();
        let ghost f = db_in_action_diag(a.file_path@);
        let mut out: Vec<Diagnostic> = Vec::new();
        let n = a.ctx_calls.len();
        for i in 0..n
            invariant
                n == a.ctx_calls.len(),
                keep == db_in_action_keep(),
                f == db_in_action_diag(a.file_path@),
                models(out@) == select_map(a.ctx_calls@.take(i as int), keep, f),
        {
            proof {
                lemma_select_map_step(a.ctx_calls@, i as int, keep, f);
            }
            let c = &a.ctx_calls[i];
            if starts_with(c.chain.as_str(), "ctx.db.") && enclosed_in_action(&c.enclosing_function_kind) {
                let m = quote(c.chain.as_str(), "` used in an action");
                let d = new_diagnostic(
                    "correctness/db-in-action",
                    Severity::Error,
                    Category::Correctness,
                    m,
                    DB_IN_ACTION_HELP,
                    &a.file_path,
                    c.line,
                    c.col,
                );
                proof {
                    lemma_models_push(out@, d);
                }
                out.push(d);
            }
        }
        proof {
            assert(a.ctx_calls@.take(n as int) =~= a.ctx_calls@);
            lemma_select_map_tagged(a.ctx_calls@, keep, f, self.spec_id(), self.spec_category());
        }
        out
    }

    fn check_project(&self, ctx: &ProjectContext) -> (r: Vec<Diagnostic>) {
        no_diagnostics()
    }
}

/// Exactly the `ctx.db.` calls made inside an action, internal or not, are reported, each once
/// as an error "`<chain>` used in an action" at the call, in order.
pub proof fn law_db_in_actions_reported(a: FileAnalysis)
    ensures
        DbInAction.spec_check(a) == a.ctx_calls@.filter(
            |c: CtxCall|
                has_prefix(c.chain@, "ctx.db."@)
                && (c.enclosing_function_kind == Some(FunctionKind::Action)
                    || c.enclosing_function_kind == Some(FunctionKind::InternalAction)),
        ).map_values(
            |c: CtxCall|
                (DiagnosticModel {
                    rule: "correctness/db-in-action"@,
                    severity: Severity::Error,
                    category: Category::Correctness,
                    message: "`"@ + c.chain@ + "` used in an action"@,
                    help: DB_IN_ACTION_HELP@,
                    file: a.file_path@,
                    line: c.line,
                    column: c.col,
                }),
        ),
{
    lemma_select_map_filter(
        a.ctx_calls@,
        db_in_action_keep(),
        db_in_action_diag(a.file_path@),
        |c: CtxCall|
            has_prefix(c.chain@, "ctx.db."@)
            && (c.enclosing_function_kind == Some(FunctionKind::Action)
                || c.enclosing_function_kind == Some(FunctionKind::InternalAction)),
        |c: CtxCall|
            (DiagnosticModel {
                rule: "correctness/db-in-action"@,
                severity: Severity::Error,
                category: Category::Correctness,
                message: "`"@ + c.chain@ + "` used in an action"@,
                help: DB_IN_ACTION_HELP@,
                file: a.file_path@,
                line: c.line,
                column: c.col,
            }),
    );
}

/// Every deprecated call.
pub open spec fn deprecated_api_keep() -> spec_fn(DeprecatedCall) -> bool {
    |c: DeprecatedCall| true
}

/// The finding reported for a selected element.
pub open spec fn deprecated_api_diag(file: Seq<char>) -> spec_fn(DeprecatedCall) -> DiagnosticModel {
    |c: DeprecatedCall|
        diagnostic_model(
            "correctness/deprecated-api"@,
            Severity::Warning,
            Category::Correctness,
            quoted(c.name@, "` is deprecated"@),
            c.replacement@,
            file,
            c.line,
            c.col,
        )
}

/// Warning for each call of a deprecated API; the help names the replacement.
pub struct DeprecatedApi;

impl Rule for DeprecatedApi {
    open spec fn spec_id(&self) -> Seq<char> {
        "correctness/deprecated-api"@
    }

    open spec fn spec_category(&self) -> Category {
        Category::Correctness
    }

    open spec fn spec_check(&self, a: FileAnalysis) -> Seq<DiagnosticModel> {
        select_map(a.deprecated_calls@, deprecated_api_keep(), deprecated_api_diag(a.file_path@))
    }

    open spec fn spec_check_project(&self, ctx: ProjectContext) -> Seq<DiagnosticModel> {
        Seq::empty()
    }

    fn id(&self) -> (r: &'static str) {
        "correctness/deprecated-api"
    }

    fn category(&self) -> (r: Category) {
        Category::Correctness
    }

    fn check(&self, a: &FileAnalysis) -> (r: Vec<Diagnostic>) {
        let ghost keep = deprecated_api_keep();
        let ghost f = deprecated_api_diag(a.file_path@);
        let mut out: Vec<Diagnostic> = Vec::new();
        let n = a.deprecated_calls.len();
        for i in 0..n
            invariant
                n == a.deprecated_calls.len(),
                keep == deprecated_api_keep(),
                f == deprecated_api_diag(a.file_path@),
                models(out@) == select_map(a.deprecated_calls@.take(i as int), keep, f),
        {
            proof {
                lemma_select_map_step(a.deprecated_calls@, i as int, keep, f);
            }
            let c = &a.deprecated_calls[i];
            if true {
                let m = quote(c.name.as_str(), "` is deprecated");
                let d = new_diagnostic(
                    "correctness/deprecated-api",
                    Severity::Warning,
                    Category::Correctness,
                    m,
                    c.replacement.as_str(),
                    &a.file_path,
                    c.line,
                    c.col,
                );
                proof {
                    lemma_models_push(out@, d);
                }
                out.push(d);
            }
        }
        proof {
            assert(a.deprecated_calls@.take(n as int) =~= a.deprecated_calls@);
            lemma_select_map_tagged(a.deprecated_calls@, keep, f, self.spec_id(), self.spec_category());
        }
        out
    }

    fn check_project(&self, ctx: &ProjectContext) -> (r: Vec<Diagnostic>) {
        no_diagnostics()
    }
}

/// Every call of a deprecated API is reported, once and in order, as a warning "`<name>` is
/// deprecated" at the call, with its replacement as the help.
pub proof fn law_deprecated_calls_reported(a: FileAnalysis)
    ensures
        DeprecatedApi.spec_check(a) == a.deprecated_calls@.map_values(
            |c: DeprecatedCall|
                (DiagnosticModel {
                    rule: "correctness/deprecated-api"@,
                    severity: Severity::Warning,
                    category: Category::Correctness,
                    message: "`"@ + c.name@ + "` is deprecated"@,
                    help: c.replacement@,
                    file: a.file_path@,
                    line: c.line,
                    column: c.col,
                }),
        ),
{
    lemma_select_map_all(
        a.deprecated_calls@,
        deprecated_api_keep(),
        deprecated_api_diag(a.file_path@),
        |c: DeprecatedCall|
            (DiagnosticModel {
                rule: "correctness/deprecated-api"@,
                severity: Severity::Warning,
                category: Category::Correctness,
                message: "`"@ + c.name@ + "` is deprecated"@,
                help: c.replacement@,
                file: a.file_path@,
                line: c.line,
                column: c.col,
            }),
    );
}

pub const QUERY_SIDE_EFFECT_HELP: &'static str = "Queries must be deterministic and side-effect-free. Move writes to a mutation.";

/// A write or scheduler call inside a query.
pub open spec fn query_side_effect_keep() -> spec_fn(CtxCall) -> bool {
    |c: CtxCall| enclosed_in(c.enclosing_function_kind, |k: FunctionKind| kind_is_query(k)) && writing_chain(c.chain@)
}

/// The finding reported for a selected element.
pub open spec fn query_side_effect_diag(file: Seq<char>) -> spec_fn(CtxCall) -> DiagnosticModel {
    |c: CtxCall|
        diagnostic_model(
            "correctness/query-side-effect"@,
            Severity::Error,
            Category::Correctness,
            quoted(c.chain@, "` in a query function — queries must be read-only"@),
            QUERY_SIDE_EFFECT_HELP@,
            file,
            c.line,
            c.col,
        )
}

/// Error for each database write or scheduler call inside a query.
pub struct QuerySideEffect;

impl Rule for QuerySideEffect {
    open spec fn spec_id(&self) -> Seq<char> {
        "correctness/query-side-effect"@
    }

    open spec fn spec_category(&self) -> Category {
        Category::Correctness
    }

    open spec fn spec_check(&self, a: FileAnalysis) -> Seq<DiagnosticModel> {
        select_map(a.ctx_calls@, query_side_effect_keep(), query_side_effect_diag(a.file_path@))
    }

    open spec fn spec_check_project(&self, ctx: ProjectContext) -> Seq<DiagnosticModel> {
        Seq::empty()
    }

    fn id(&self) -> (r: &'static str) {
        "correctness/query-side-effect"
    }

    fn category(&self) -> (r: Category) {
        Category::Correctness
    }

    fn check(&self, a: &FileAnalysis) -> (r: Vec<Diagnostic>) {
        let ghost keep = query_side_effect_keep();
        let ghost f = query_side_effect_diag(a.file_path@);
        let mut out: Vec<Diagnostic> = Vec::new();
        let n = a.ctx_calls.len();
        for i in 0..n
            invariant
                n == a.ctx_calls.len(),
                keep == query_side_effect_keep(),
                f == query_side_effect_diag(a.file_path@),
                models(out@) == select_map(a.ctx_calls@.take(i as int), keep, f),
        {
            proof {
                lemma_select_map_step(a.ctx_calls@, i as int, keep, f);
            }
            let c = &a.ctx_calls[i];
            if enclosed_in_query(&c.enclosing_function_kind) && is_writing_chain(c.chain.as_str()) {
                let m = quote(c.chain.as_str(), "` in a query function — queries must be read-only");
                let d = new_diagnostic(
                    "correctness/query-side-effect",
                    Severity::Error,
                    Category::Correctness,
                    m,
                    QUERY_SIDE_EFFECT_HELP,
                    &a.file_path,
                    c.line,
                    c.col,
                );
                proof {
                    lemma_models_push(out@, d);
                }
                out.push(d);
            }
        }
        proof {
            assert(a.ctx_calls@.take(n as int) =~= a.ctx_calls@);
            lemma_select_map_tagged(a.ctx_calls@, keep, f, self.spec_id(), self.spec_category());
        }
        out
    }

    fn check_project(&self, ctx: &ProjectContext) -> (r: Vec<Diagnostic>) {
        no_diagnostics()
    }
}

/// Exactly the database writes (`ctx.db.insert`, `patch`, `replace`, `delete`) and scheduler
/// calls made inside a query, internal or not, are reported, each once as an error at the
/// call, in order.
pub proof fn law_query_side_effects_reported(a: FileAnalysis)
    ensures
        QuerySideEffect.spec_check(a) == a.ctx_calls@.filter(
            |c: CtxCall|
                (c.enclosing_function_kind == Some(FunctionKind::Query)
                    || c.enclosing_function_kind == Some(FunctionKind::InternalQuery))
                && (has_prefix(c.chain@, "ctx.db.insert"@)
                    || has_prefix(c.chain@, "ctx.db.patch"@)
                    || has_prefix(c.chain@, "ctx.db.replace"@)
                    || has_prefix(c.chain@, "ctx.db.delete"@)
                    || has_prefix(c.chain@, "ctx.scheduler"@)),
        ).map_values(
            |c: CtxCall|
                (DiagnosticModel {
                    rule: "correctness/query-side-effect"@,
                    severity: Severity::Error,
                    category: Category::Correctness,
                    message: "`"@ + c.chain@ + "` in a query function — queries must be read-only"@,
                    help: QUERY_SIDE_EFFECT_HELP@,
                    file: a.file_path@,
                    line: c.line,
                    column: c.col,
                }),
        ),
{
    lemma_select_map_filter(
        a.ctx_calls@,
        query_side_effect_keep(),
        query_side_effect_diag(a.file_path@),
        |c: CtxCall|
            (c.enclosing_function_kind == Some(FunctionKind::Query)
                || c.enclosing_function_kind == Some(FunctionKind::InternalQuery))
            && (has_prefix(c.chain@, "ctx.db.insert"@)
                || has_prefix(c.chain@, "ctx.db.patch"@)
                || has_prefix(c.chain@, "ctx.db.replace"@)
                || has_prefix(c.chain@, "ctx.db.delete"@)
                || has_prefix(c.chain@, "ctx.scheduler"@)),
        |c: CtxCall|
            (DiagnosticModel {
                rule: "correctness/query-side-effect"@,
                severity: Severity::Error,
                category: Category::Correctness,
                message: "`"@ + c.chain@ + "` in a query function — queries must be read-only"@,
                help: QUERY_SIDE_EFFECT_HELP@,
                file: a.file_path@,
                line: c.line,
                column: c.col,
            }),
    );
}

pub const MUTATION_IN_QUERY_HELP: &'static str = "Queries cannot call mutations. Move this logic to a mutation or action.";

/// `ctx.runMutation` called inside a query.
pub open spec fn mutation_in_query_keep() -> spec_fn(CtxCall) -> bool {
    |c: CtxCall| has_prefix(c.chain@, "ctx.runMutation"@) && enclosed_in(c.enclosing_function_kind, |k: FunctionKind| kind_is_query(k))
}

/// The finding reported for a selected element.
pub open spec fn mutation_in_query_diag(file: Seq<char>) -> spec_fn(CtxCall) -> DiagnosticModel {
    |c: CtxCall|
        diagnostic_model(
            "correctness/mutation-in-query"@,
            Severity::Error,
            Category::Correctness,
            "`ctx.runMutation` called from a query function"@,
            MUTATION_IN_QUERY_HELP@,
            file,
            c.line,
            c.col,
        )
}

/// Error for each `ctx.runMutation` call inside a query.
pub struct MutationInQuery;

impl Rule for MutationInQuery {
    open spec fn spec_id(&self) -> Seq<char> {
        "correctness/mutation-in-query"@
    }

    open spec fn spec_category(&self) -> Category {
        Category::Correctness
    }

    open spec fn spec_check(&self, a: FileAnalysis) -> Seq<DiagnosticModel> {
        select_map(a.ctx_calls@, mutation_in_query_keep(), mutation_in_query_diag(a.file_path@))
    }

    open spec fn spec_check_project(&self, ctx: ProjectContext) -> Seq<DiagnosticModel> {
        Seq::empty()
    }

    fn id(&self) -> (r: &'static str) {
        "correctness/mutation-in-query"
    }

    fn category(&self) -> (r: Category) {
        Category::Correctness
    }

    fn check(&self, a: &FileAnalysis) -> (r: Vec<Diagnostic>) {
        let ghost keep = mutation_in_query_keep();
        let ghost f = mutation_in_query_diag(a.file_path@);
        let mut out: Vec<Diagnostic> = Vec::new();
        let n = a.ctx_calls.len();
        for i in 0..n
            invariant
                n == a.ctx_calls.len(),
                keep == mutation_in_query_keep(),
                f == mutation_in_query_diag(a.file_path@),
                models(out@) == select_map(a.ctx_calls@.take(i as int), keep, f),
        {
            proof {
                lemma_select_map_step(a.ctx_calls@, i as int, keep, f);
            }
            let c = &a.ctx_calls[i];
            if starts_with(c.chain.as_str(), "ctx.runMutation") && enclosed_in_query(&c.enclosing_function_kind) {
                let m = owned("`ctx.runMutation` called from a query function");
                let d = new_diagnostic(
                    "correctness/mutation-in-query",
                    Severity::Error,
                    Category::Correctness,
                    m,
                    MUTATION_IN_QUERY_HELP,
                    &a.file_path,
                    c.line,
                    c.col,
                );
                proof {
                    lemma_models_push(out@, d);
                }
                out.push(d);
            }
        }
        proof {
            assert(a.ctx_calls@.take(n as int) =~= a.ctx_calls@);
            lemma_select_map_tagged(a.ctx_calls@, keep, f, self.spec_id(), self.spec_category());
        }
        out
    }

    fn check_project(&self, ctx: &ProjectContext) -> (r: Vec<Diagnostic>) {
        no_diagnostics()
    }
}

/// Exactly the `ctx.runMutation` calls made inside a query, internal or not, are reported, each
/// once as an error at the call, in order.
pub proof fn law_mutations_in_queries_reported(a: FileAnalysis)
    ensures
        MutationInQuery.spec_check(a) == a.ctx_calls@.filter(
            |c: CtxCall|
                has_prefix(c.chain@, "ctx.runMutation"@)
                && (c.enclosing_function_kind == Some(FunctionKind::Query)
                    || c.enclosing_function_kind == Some(FunctionKind::InternalQuery)),
        ).map_values(
            |c: CtxCall|
                (DiagnosticModel {
                    rule: "correctness/mutation-in-query"@,
                    severity: Severity::Error,
                    category: Category::Correctness,
                    message: "`ctx.runMutation` called from a query function"@,
                    help: MUTATION_IN_QUERY_HELP@,
                    file: a.file_path@,
                    line: c.line,
                    column: c.col,
                }),
        ),
{
    lemma_select_map_filter(
        a.ctx_calls@,
        mutation_in_query_keep(),
        mutation_in_query_diag(a.file_path@),
        |c: CtxCall|
            has_prefix(c.chain@, "ctx.runMutation"@)
            && (c.enclosing_function_kind == Some(FunctionKind::Query)
                || c.enclosing_function_kind == Some(FunctionKind::InternalQuery)),
        |c: CtxCall|
            (DiagnosticModel {
                rule: "correctness/mutation-in-query"@,
                severity: Severity::Error,
                category: Category::Correctness,
                message: "`ctx.runMutation` called from a query function"@,
                help: MUTATION_IN_QUERY_HELP@,
                file: a.file_path@,
                line: c.line,
                column: c.col,
            }),
    );
}

pub const CRON_PUBLIC_API_HELP: &'static str = "Use `internal.*` instead of `api.*` in cron job definitions. Cron functions should be internal.";

/// Error for each cron job scheduled with a public `api.*` reference.
pub struct CronUsesPublicApi;

impl Rule for CronUsesPublicApi {
    open spec fn spec_id(&self) -> Seq<char> {
        "correctness/cron-uses-public-api"@
    }

    open spec fn spec_category(&self) -> Category {
        Category::Correctness
    }

    open spec fn spec_check(&self, a: FileAnalysis) -> Seq<DiagnosticModel> {
        select_map(
            a.cron_api_refs@,
            keep_all(),
            location_diag(
                "correctness/cron-uses-public-api"@,
                Severity::Error,
                Category::Correctness,
                "Cron job uses public API reference `"@,
                "`"@,
                true,
                CRON_PUBLIC_API_HELP@,
                a.file_path@,
            ),
        )
    }

    open spec fn spec_check_project(&self, ctx: ProjectContext) -> Seq<DiagnosticModel> {
        Seq::empty()
    }

    fn id(&self) -> (r: &'static str) {
        "correctness/cron-uses-public-api"
    }

    fn category(&self) -> (r: Category) {
        Category::Correctness
    }

    fn check(&self, a: &FileAnalysis) -> (r: Vec<Diagnostic>) {
        location_diagnostics(
            &a.cron_api_refs,
            "correctness/cron-uses-public-api",
            Severity::Error,
            Category::Correctness,
            "Cron job uses public API reference `",
            "`",
            true,
            CRON_PUBLIC_API_HELP,
            &a.file_path,
        )
    }

    fn check_project(&self, ctx: &ProjectContext) -> (r: Vec<Diagnostic>) {
        no_diagnostics()
    }
}

/// Every entry of `cron_api_refs` is reported, once and in order, as an error at its place.
pub proof fn law_cron_uses_public_api_reports_each(a: FileAnalysis)
    ensures
        CronUsesPublicApi.spec_check(a) == a.cron_api_refs@.map_values(
            |c: CallLocation|
                (DiagnosticModel {
                    rule: "correctness/cron-uses-public-api"@,
                    severity: Severity::Error,
                    category: Category::Correctness,
                    message: "Cron job uses public API reference `"@ + c.detail@ + "`"@,
                    help: CRON_PUBLIC_API_HELP@,
                    file: a.file_path@,
                    line: c.line,
                    column: c.col,
                }),
        ),
{
    lemma_select_map_all(
        a.cron_api_refs@,
        keep_all(),
        location_diag(
            "correctness/cron-uses-public-api"@,
            Severity::Error,
            Category::Correctness,
            "Cron job uses public API reference `"@,
            "`"@,
            true,
            CRON_PUBLIC_API_HELP@,
            a.file_path@,
        ),
        |c: CallLocation|
            (DiagnosticModel {
                rule: "correctness/cron-uses-public-api"@,
                severity: Severity::Error,
                category: Category::Correctness,
                message: "Cron job uses public API reference `"@ + c.detail@ + "`"@,
                help: CRON_PUBLIC_API_HELP@,
                file: a.file_path@,
                line: c.line,
                column: c.col,
            }),
    );
}

pub const NODE_QUERY_MUTATION_HELP: &'static str = "Only actions can use the Node.js runtime. Queries and mutations must use the Convex runtime.";

/// Queries and mutations, internal or not.
pub open spec fn node_query_mutation_keep() -> spec_fn(ConvexFunction) -> bool {
    |c: ConvexFunction| query_or_mutation_kind(c.kind)
}

/// The finding reported for a selected element.
pub open spec fn node_query_mutation_diag(file: Seq<char>) -> spec_fn(ConvexFunction) -> DiagnosticModel {
    |c: ConvexFunction|
        diagnostic_model(
            "correctness/node-query-mutation"@,
            Severity::Error,
            Category::Correctness,
            kind_name(c.kind) + " `"@ + c.name@ + "` in a \"use node\" file"@,
            NODE_QUERY_MUTATION_HELP@,
            file,
            c.span_line,
            c.span_col,
        )
}

/// Error for each query or mutation defined in a `"use node"` file.
pub struct NodeQueryMutation;

impl Rule for NodeQueryMutation {
    open spec fn spec_id(&self) -> Seq<char> {
        "correctness/node-query-mutation"@
    }

    open spec fn spec_category(&self) -> Category {
        Category::Correctness
    }

    open spec fn spec_check(&self, a: FileAnalysis) -> Seq<DiagnosticModel> {
        if !a.has_use_node {
            Seq::empty()
        } else {
            select_map(a.functions@, node_query_mutation_keep(), node_query_mutation_diag(a.file_path@))
        }
    }

    open spec fn spec_check_project(&self, ctx: ProjectContext) -> Seq<DiagnosticModel> {
        Seq::empty()
    }

    fn id(&self) -> (r: &'static str) {
        "correctness/node-query-mutation"
    }

    fn category(&self) -> (r: Category) {
        Category::Correctness
    }

    fn check(&self, a: &FileAnalysis) -> (r: Vec<Diagnostic>) {
        if !a.has_use_node {
            return no_diagnostics();
        }
        let ghost keep = node_query_mutation_keep();
        let ghost f = node_query_mutation_diag(a.file_path@);
        let mut out: Vec<Diagnostic> = Vec::new();
        let n = a.functions.len();
        for i in 0..n
            invariant
                n == a.functions.len(),
                keep == node_query_mutation_keep(),
                f == node_query_mutation_diag(a.file_path@),
                models(out@) == select_map(a.functions@.take(i as int), keep, f),
        {
            proof {
                lemma_select_map_step(a.functions@, i as int, keep, f);
            }
            let c = &a.functions[i];
            if matches!(c.kind, FunctionKind::Query | FunctionKind::Mutation | FunctionKind::InternalQuery | FunctionKind::InternalMutation) {
                let mut m = owned(c.kind_str());
                push_str(&mut m, " `");
                push_str(&mut m, c.name.as_str());
                push_str(&mut m, "` in a \"use node\" file");
                let d = new_diagnostic(
                    "correctness/node-query-mutation",
                    Severity::Error,
                    Category::Correctness,
                    m,
                    NODE_QUERY_MUTATION_HELP,
                    &a.file_path,
                    c.span_line,
                    c.span_col,
                );
                proof {
                    lemma_models_push(out@, d);
                }
                out.push(d);
            }
        }
        proof {
            assert(a.functions@.take(n as int) =~= a.functions@);
            lemma_select_map_tagged(a.functions@, keep, f, self.spec_id(), self.spec_category());
        }
        out
    }

    fn check_project(&self, ctx: &ProjectContext) -> (r: Vec<Diagnostic>) {
        no_diagnostics()
    }
}

/// In a "use node" file exactly the queries and mutations, internal or not, are reported, each
/// once as an error at the registration, in order; in any other file nothing is.
pub proof fn law_node_queries_and_mutations_reported(a: FileAnalysis)
    ensures
        a.has_use_node ==> NodeQueryMutation.spec_check(a) == a.functions@.filter(
            |c: ConvexFunction|
                (c.kind == FunctionKind::Query
                    || c.kind == FunctionKind::Mutation
                    || c.kind == FunctionKind::InternalQuery
                    || c.kind == FunctionKind::InternalMutation),
        ).map_values(
            |c: ConvexFunction|
                (DiagnosticModel {
                    rule: "correctness/node-query-mutation"@,
                    severity: Severity::Error,
                    category: Category::Correctness,
                    message: kind_name(c.kind) + " `"@ + c.name@ + "` in a \"use node\" file"@,
                    help: NODE_QUERY_MUTATION_HELP@,
                    file: a.file_path@,
                    line: c.span_line,
                    column: c.span_col,
                }),
        ),
        !a.has_use_node ==> NodeQueryMutation.spec_check(a) == Seq::<DiagnosticModel>::empty(),
{
    lemma_select_map_filter(
        a.functions@,
        node_query_mutation_keep(),
        node_query_mutation_diag(a.file_path@),
        |c: ConvexFunction|
            (c.kind == FunctionKind::Query
                || c.kind == FunctionKind::Mutation
                || c.kind == FunctionKind::InternalQuery
                || c.kind == FunctionKind::InternalMutation),
        |c: ConvexFunction|
            (DiagnosticModel {
                rule: "correctness/node-query-mutation"@,
                severity: Severity::Error,
                category: Category::Correctness,
                message: kind_name(c.kind) + " `"@ + c.name@ + "` in a \"use node\" file"@,
                help: NODE_QUERY_MUTATION_HELP@,
                file: a.file_path@,
                line: c.span_line,
                column: c.span_col,
            }),
    );
}

pub const SCHEDULER_RETURN_HELP: &'static str = "Capture the returned scheduled function ID if you need to cancel or monitor it.";

/// A `runAfter`/`runAt` scheduler call whose result is not assigned.
pub open spec fn scheduler_return_ignored_keep() -> spec_fn(CtxCall) -> bool {
    |c: CtxCall| (has_prefix(c.chain@, "ctx.scheduler.runAfter"@) || has_prefix(c.chain@, "ctx.scheduler.runAt"@)) && c.assigned_to.is_none()
}

/// The finding reported for a selected element.
pub open spec fn scheduler_return_ignored_diag(file: Seq<char>) -> spec_fn(CtxCall) -> DiagnosticModel {
    |c: CtxCall|
        diagnostic_model(
            "correctness/scheduler-return-ignored"@,
            Severity::Info,
            Category::Correctness,
            quoted(c.chain@, "` return value not captured"@),
            SCHEDULER_RETURN_HELP@,
            file,
            c.line,
            c.col,
        )
}

/// Info for each scheduled call whose returned id is not captured.
pub struct SchedulerReturnIgnored;

impl Rule for SchedulerReturnIgnored {
    open spec fn spec_id(&self) -> Seq<char> {
        "correctness/scheduler-return-ignored"@
    }

    open spec fn spec_category(&self) -> Category {
        Category::Correctness
    }

    open spec fn spec_check(&self, a: FileAnalysis) -> Seq<DiagnosticModel> {
        select_map(a.ctx_calls@, scheduler_return_ignored_keep(), scheduler_return_ignored_diag(a.file_path@))
    }

    open spec fn spec_check_project(&self, ctx: ProjectContext) -> Seq<DiagnosticModel> {
        Seq::empty()
    }

    fn id(&self) -> (r: &'static str) {
        "correctness/scheduler-return-ignored"
    }

    fn category(&self) -> (r: Category) {
        Category::Correctness
    }

    fn check(&self, a: &FileAnalysis) -> (r: Vec<Diagnostic>) {
        let ghost keep = scheduler_return_ignored_keep();
        let ghost f = scheduler_return_ignored_diag(a.file_path@);
        let mut out: Vec<Diagnostic> = Vec::new();
        let n = a.ctx_calls.len();
        for i in 0..n
            invariant
                n == a.ctx_calls.len(),
                keep == scheduler_return_ignored_keep(),
                f == scheduler_return_ignored_diag(a.file_path@),
                models(out@) == select_map(a.ctx_calls@.take(i as int), keep, f),
        {
            proof {
                lemma_select_map_step(a.ctx_calls@, i as int, keep, f);
            }
            let c = &a.ctx_calls[i];
            if (starts_with(c.chain.as_str(), "ctx.scheduler.runAfter") || starts_with(c.chain.as_str(), "ctx.scheduler.runAt")) && c.assigned_to.is_none() {
                let m = quote(c.chain.as_str(), "` return value not captured");
                let d = new_diagnostic(
                    "correctness/scheduler-return-ignored",
                    Severity::Info,
                    Category::Correctness,
                    m,
                    SCHEDULER_RETURN_HELP,
                    &a.file_path,
                    c.line,
                    c.col,
                );
                proof {
                    lemma_models_push(out@, d);
                }
                out.push(d);
            }
        }
        proof {
            assert(a.ctx_calls@.take(n as int) =~= a.ctx_calls@);
            lemma_select_map_tagged(a.ctx_calls@, keep, f, self.spec_id(), self.spec_category());
        }
        out
    }

    fn check_project(&self, ctx: &ProjectContext) -> (r: Vec<Diagnostic>) {
        no_diagnostics()
    }
}

/// Exactly the `ctx.scheduler.runAfter` and `ctx.scheduler.runAt` calls whose result is not
/// assigned are reported, each once as information at the call, in order.
pub proof fn law_ignored_scheduler_returns_reported(a: FileAnalysis)
    ensures
        SchedulerReturnIgnored.spec_check(a) == a.ctx_calls@.filter(
            |c: CtxCall|
                (has_prefix(c.chain@, "ctx.scheduler.runAfter"@)
                    || has_prefix(c.chain@, "ctx.scheduler.runAt"@))
                && c.assigned_to.is_none(),
        ).map_values(
            |c: CtxCall|
                (DiagnosticModel {
                    rule: "correctness/scheduler-return-ignored"@,
                    severity: Severity::Info,
                    category: Category::Correctness,
                    message: "`"@ + c.chain@ + "` return value not captured"@,
                    help: SCHEDULER_RETURN_HELP@,
                    file: a.file_path@,
                    line: c.line,
                    column: c.col,
                }),
        ),
{
    lemma_select_map_filter(
        a.ctx_calls@,
        scheduler_return_ignored_keep(),
        scheduler_return_ignored_diag(a.file_path@),
        |c: CtxCall|
            (has_prefix(c.chain@, "ctx.scheduler.runAfter"@)
                || has_prefix(c.chain@, "ctx.scheduler.runAt"@))
            && c.assigned_to.is_none(),
        |c: CtxCall|
            (DiagnosticModel {
                rule: "correctness/scheduler-return-ignored"@,
                severity: Severity::Info,
                category: Category::Correctness,
                message: "`"@ + c.chain@ + "` return value not captured"@,
                help: SCHEDULER_RETURN_HELP@,
                file: a.file_path@,
                line: c.line,
                column: c.col,
            }),
    );
}


/// A module of Node.js itself: `node:` followed by anything, or one of the built-in modules
/// that only the Node.js runtime provides, or a path inside one (`fs/promises`).
pub open spec fn node_only_module(source: Seq<char>) -> bool {
    has_prefix(source, "node:"@)
        || source == "fs"@
        || has_prefix(source, "fs/"@)
        || source == "path"@
        || has_prefix(source, "path/"@)
        || source == "os"@
        || has_prefix(source, "os/"@)
        || source == "crypto"@
        || has_prefix(source, "crypto/"@)
        || source == "child_process"@
        || has_prefix(source, "child_process/"@)
        || source == "http"@
        || has_prefix(source, "http/"@)
        || source == "https"@
        || has_prefix(source, "https/"@)
        || source == "http2"@
        || has_prefix(source, "http2/"@)
        || source == "net"@
        || has_prefix(source, "net/"@)
        || source == "tls"@
        || has_prefix(source, "tls/"@)
        || source == "dns"@
        || has_prefix(source, "dns/"@)
        || source == "dgram"@
        || has_prefix(source, "dgram/"@)
        || source == "zlib"@
        || has_prefix(source, "zlib/"@)
        || source == "stream"@
        || has_prefix(source, "stream/"@)
        || source == "worker_threads"@
        || has_prefix(source, "worker_threads/"@)
        || source == "cluster"@
        || has_prefix(source, "cluster/"@)
        || source == "readline"@
        || has_prefix(source, "readline/"@)
        || source == "vm"@
        || has_prefix(source, "vm/"@)
        || source == "v8"@
        || has_prefix(source, "v8/"@)
        || source == "module"@
        || has_prefix(source, "module/"@)
        || source == "perf_hooks"@
        || has_prefix(source, "perf_hooks/"@)
        || source == "inspector"@
        || has_prefix(source, "inspector/"@)
}

fn is_node_only_module(source: &str) -> (b: bool)
    ensures
        b == node_only_module(source@),
{
    starts_with(source, "node:")
        || str_eq(source, "fs")
        || starts_with(source, "fs/")
        || str_eq(source, "path")
        || starts_with(source, "path/")
        || str_eq(source, "os")
        || starts_with(source, "os/")
        || str_eq(source, "crypto")
        || starts_with(source, "crypto/")
        || str_eq(source, "child_process")
        || starts_with(source, "child_process/")
        || str_eq(source, "http")
        || starts_with(source, "http/")
        || str_eq(source, "https")
        || starts_with(source, "https/")
        || str_eq(source, "http2")
        || starts_with(source, "http2/")
        || str_eq(source, "net")
        || starts_with(source, "net/")
        || str_eq(source, "tls")
        || starts_with(source, "tls/")
        || str_eq(source, "dns")
        || starts_with(source, "dns/")
        || str_eq(source, "dgram")
        || starts_with(source, "dgram/")
        || str_eq(source, "zlib")
        || starts_with(source, "zlib/")
        || str_eq(source, "stream")
        || starts_with(source, "stream/")
        || str_eq(source, "worker_threads")
        || starts_with(source, "worker_threads/")
        || str_eq(source, "cluster")
        || starts_with(source, "cluster/")
        || str_eq(source, "readline")
        || starts_with(source, "readline/")
        || str_eq(source, "vm")
        || starts_with(source, "vm/")
        || str_eq(source, "v8")
        || starts_with(source, "v8/")
        || str_eq(source, "module")
        || starts_with(source, "module/")
        || str_eq(source, "perf_hooks")
        || starts_with(source, "perf_hooks/")
        || str_eq(source, "inspector")
        || starts_with(source, "inspector/")
}

/// A module that only runs in the browser, or a path inside one.
pub open spec fn browser_only_module(source: Seq<char>) -> bool {
    source == "react-dom"@
        || has_prefix(source, "react-dom/"@)
        || source == "convex/react"@
        || has_prefix(source, "convex/react/"@)
        || source == "next/navigation"@
        || has_prefix(source, "next/navigation/"@)
        || source == "next/router"@
        || has_prefix(source, "next/router/"@)
}

fn is_browser_only_module(source: &str) -> (b: bool)
    ensures
        b == browser_only_module(source@),
{
    str_eq(source, "react-dom")
        || starts_with(source, "react-dom/")
        || str_eq(source, "convex/react")
        || starts_with(source, "convex/react/")
        || str_eq(source, "next/navigation")
        || starts_with(source, "next/navigation/")
        || str_eq(source, "next/router")
        || starts_with(source, "next/router/")
}

/// The imports that do not fit the file's runtime: browser-only modules in a `"use node"` file,
/// Node.js-only modules in any other file.
pub open spec fn wrong_runtime_keep(use_node: bool) -> spec_fn(ImportInfo) -> bool {
    |i: ImportInfo| if use_node {
        browser_only_module(i.source@)
    } else {
        node_only_module(i.source@)
    }
}

/// What an import that does not fit the runtime is reported as.
pub open spec fn wrong_runtime_message(source: Seq<char>, use_node: bool) -> Seq<char> {
    if use_node {
        quoted(source, "` is a browser module, but the file runs in Node.js (\"use node\")"@)
    } else {
        quoted(source, "` is a Node.js module, but the file has no \"use node\" directive"@)
    }
}

pub const WRONG_RUNTIME_HELP: &'static str = "Files without \"use node\" run in the Convex runtime, which has no Node.js modules; files with it run in Node.js, which has no browser APIs. Move the import to a file of the right runtime.";

/// The finding for an import that does not fit the runtime.
pub open spec fn wrong_runtime_diag(file: Seq<char>, use_node: bool) -> spec_fn(ImportInfo) -> DiagnosticModel {
    |i: ImportInfo|
        diagnostic_model(
            "correctness/wrong-runtime-import"@,
            Severity::Error,
            Category::Correctness,
            wrong_runtime_message(i.source@, use_node),
            WRONG_RUNTIME_HELP@,
            file,
            i.line,
            1,
        )
}

/// Error for each import whose module does not exist in the file's runtime: a Node.js module
/// in a file without `"use node"`, a browser module in a `"use node"` file.
pub struct WrongRuntimeImport;

impl Rule for WrongRuntimeImport {
    open spec fn spec_id(&self) -> Seq<char> {
        "correctness/wrong-runtime-import"@
    }

    open spec fn spec_category(&self) -> Category {
        Category::Correctness
    }

    open spec fn spec_check(&self, a: FileAnalysis) -> Seq<DiagnosticModel> {
        select_map(a.imports@, wrong_runtime_keep(a.has_use_node), wrong_runtime_diag(a.file_path@, a.has_use_node))
    }

    open spec fn spec_check_project(&self, ctx: ProjectContext) -> Seq<DiagnosticModel> {
        Seq::empty()
    }

    fn id(&self) -> (r: &'static str) {
        "correctness/wrong-runtime-import"
    }

    fn category(&self) -> (r: Category) {
        Category::Correctness
    }

    fn check(&self, a: &FileAnalysis) -> (r: Vec<Diagnostic>) {
        let ghost keep = wrong_runtime_keep(a.has_use_node);
        let ghost f = wrong_runtime_diag(a.file_path@, a.has_use_node);
        let mut out: Vec<Diagnostic> = Vec::new();
        let n = a.imports.len();
        for k in 0..n
            invariant
                n == a.imports.len(),
                keep == wrong_runtime_keep(a.has_use_node),
                f == wrong_runtime_diag(a.file_path@, a.has_use_node),
                models(out@) == select_map(a.imports@.take(k as int), keep, f),
        {
            proof {
                lemma_select_map_step(a.imports@, k as int, keep, f);
            }
            let i = &a.imports[k];
            let wrong = if a.has_use_node {
                is_browser_only_module(i.source.as_str())
            } else {
                is_node_only_module(i.source.as_str())
            };
            if wrong {
                let m = if a.has_use_node {
                    quote(i.source.as_str(), "` is a browser module, but the file runs in Node.js (\"use node\")")
                } else {
                    quote(i.source.as_str(), "` is a Node.js module, but the file has no \"use node\" directive")
                };
                let d = new_diagnostic(
                    "correctness/wrong-runtime-import",
                    Severity::Error,
                    Category::Correctness,
                    m,
                    WRONG_RUNTIME_HELP,
                    &a.file_path,
                    i.line,
                    1,
                );
                proof {
                    lemma_models_push(out@, d);
                }
                out.push(d);
            }
        }
        proof {
            assert(a.imports@.take(n as int) =~= a.imports@);
            lemma_select_map_tagged(a.imports@, keep, f, self.spec_id(), self.spec_category());
        }
        out
    }

    fn check_project(&self, ctx: &ProjectContext) -> (r: Vec<Diagnostic>) {
        no_diagnostics()
    }
}

/// Calls that run or schedule another function through a reference.
pub open spec fn runs_referenced_function(chain: Seq<char>) -> bool {
    ||| has_prefix(chain, "ctx.runQuery"@)
    ||| has_prefix(chain, "ctx.runMutation"@)
    ||| has_prefix(chain, "ctx.runAction"@)
    ||| has_prefix(chain, "ctx.scheduler.runAfter"@)
    ||| has_prefix(chain, "ctx.scheduler.runAt"@)
}

fn is_run_of_referenced_function(chain: &str) -> (b: bool)
    ensures
        b == runs_referenced_function(chain@),
{
    starts_with(chain, "ctx.runQuery") || starts_with(chain, "ctx.runMutation") || starts_with(
        chain,
        "ctx.runAction",
    ) || starts_with(chain, "ctx.scheduler.runAfter") || starts_with(chain, "ctx.scheduler.runAt")
}

/// The function handed on is named directly, not through an `api.*` or `internal.*` reference.
pub open spec fn direct_reference(arg: Option<String>) -> bool {
    match arg {
        Some(a) => !has_prefix(a@, "api."@) && !has_prefix(a@, "internal."@),
        None => false,
    }
}

fn is_direct_reference(arg: &Option<String>) -> (b: bool)
    ensures
        b == direct_reference(*arg),
{
    match arg {
        Some(a) => !starts_with(a.as_str(), "api.") && !starts_with(a.as_str(), "internal."),
        None => false,
    }
}

/// A `ctx.run*` or scheduling call handed a function directly.
pub open spec fn direct_ref_keep() -> spec_fn(CtxCall) -> bool {
    |c: CtxCall| runs_referenced_function(c.chain@) && direct_reference(c.first_arg_chain)
}

pub const DIRECT_REF_HELP: &'static str = "Pass a function reference such as `internal.module.name` or `api.module.name` from `_generated/api`, not the function itself.";

/// The finding for a call handed a function directly.
pub open spec fn direct_ref_diag(file: Seq<char>) -> spec_fn(CtxCall) -> DiagnosticModel {
    |c: CtxCall|
        diagnostic_model(
            "correctness/direct-function-ref"@,
            Severity::Error,
            Category::Correctness,
            quoted(c.chain@, "` is handed `"@) + c.first_arg_chain.unwrap()@
                + "` directly instead of a function reference"@,
            DIRECT_REF_HELP@,
            file,
            c.line,
            c.col,
        )
}

/// Error for each `ctx.runQuery`, `ctx.runMutation`, `ctx.runAction` or scheduling call handed a
/// function itself instead of an `api.*` or `internal.*` reference.
pub struct DirectFunctionRef;

impl Rule for DirectFunctionRef {
    open spec fn spec_id(&self) -> Seq<char> {
        "correctness/direct-function-ref"@
    }

    open spec fn spec_category(&self) -> Category {
        Category::Correctness
    }

    open spec fn spec_check(&self, a: FileAnalysis) -> Seq<DiagnosticModel> {
        select_map(a.ctx_calls@, direct_ref_keep(), direct_ref_diag(a.file_path@))
    }

    open spec fn spec_check_project(&self, ctx: ProjectContext) -> Seq<DiagnosticModel> {
        Seq::empty()
    }

    fn id(&self) -> (r: &'static str) {
        "correctness/direct-function-ref"
    }

    fn category(&self) -> (r: Category) {
        Category::Correctness
    }

    fn check(&self, a: &FileAnalysis) -> (r: Vec<Diagnostic>) {
        let ghost keep = direct_ref_keep();
        let ghost f = direct_ref_diag(a.file_path@);
        let mut out: Vec<Diagnostic> = Vec::new();
        let n = a.ctx_calls.len();
        for i in 0..n
            invariant
                n == a.ctx_calls.len(),
                keep == direct_ref_keep(),
                f == direct_ref_diag(a.file_path@),
                models(out@) == select_map(a.ctx_calls@.take(i as int), keep, f),
        {
            proof {
                lemma_select_map_step(a.ctx_calls@, i as int, keep, f);
            }
            let c = &a.ctx_calls[i];
            if is_run_of_referenced_function(c.chain.as_str()) && is_direct_reference(&c.first_arg_chain) {
                let mut m = quote(c.chain.as_str(), "` is handed `");
                match &c.first_arg_chain {
                    Some(arg) => push_str(&mut m, arg.as_str()),
                    None => {},
                }
                push_str(&mut m, "` directly instead of a function reference");
                let d = new_diagnostic(
                    "correctness/direct-function-ref",
                    Severity::Error,
                    Category::Correctness,
                    m,
                    DIRECT_REF_HELP,
                    &a.file_path,
                    c.line,
                    c.col,
                );
                proof {
                    lemma_models_push(out@, d);
                }
                out.push(d);
            }
        }
        proof {
            assert(a.ctx_calls@.take(n as int) =~= a.ctx_calls@);
            lemma_select_map_tagged(a.ctx_calls@, keep, f, self.spec_id(), self.spec_category());
        }
        out
    }

    fn check_project(&self, ctx: &ProjectContext) -> (r: Vec<Diagnostic>) {
        no_diagnostics()
    }
}

/// Exactly the `ctx.runQuery`, `ctx.runMutation`, `ctx.runAction`, `ctx.scheduler.runAfter` and
/// `ctx.scheduler.runAt` calls whose first argument is neither under `api.` nor under
/// `internal.` are reported, each once as an error at the call, in order.
pub proof fn law_direct_function_refs_reported(a: FileAnalysis)
    ensures
        DirectFunctionRef.spec_check(a) == a.ctx_calls@.filter(
            |c: CtxCall|
                (has_prefix(c.chain@, "ctx.runQuery"@)
                    || has_prefix(c.chain@, "ctx.runMutation"@)
                    || has_prefix(c.chain@, "ctx.runAction"@)
                    || has_prefix(c.chain@, "ctx.scheduler.runAfter"@)
                    || has_prefix(c.chain@, "ctx.scheduler.runAt"@))
                && c.first_arg_chain.is_some()
                && !has_prefix(c.first_arg_chain.unwrap()@, "api."@)
                && !has_prefix(c.first_arg_chain.unwrap()@, "internal."@),
        ).map_values(
            |c: CtxCall|
                (DiagnosticModel {
                    rule: "correctness/direct-function-ref"@,
                    severity: Severity::Error,
                    category: Category::Correctness,
                    message: "`"@ + c.chain@ + "` is handed `"@ + c.first_arg_chain.unwrap()@ + "` directly instead of a function reference"@,
                    help: DIRECT_REF_HELP@,
                    file: a.file_path@,
                    line: c.line,
                    column: c.col,
                }),
        ),
{
    lemma_select_map_filter(
        a.ctx_calls@,
        direct_ref_keep(),
        direct_ref_diag(a.file_path@),
        |c: CtxCall|
            (has_prefix(c.chain@, "ctx.runQuery"@)
                || has_prefix(c.chain@, "ctx.runMutation"@)
                || has_prefix(c.chain@, "ctx.runAction"@)
                || has_prefix(c.chain@, "ctx.scheduler.runAfter"@)
                || has_prefix(c.chain@, "ctx.scheduler.runAt"@))
            && c.first_arg_chain.is_some()
            && !has_prefix(c.first_arg_chain.unwrap()@, "api."@)
            && !has_prefix(c.first_arg_chain.unwrap()@, "internal."@),
        |c: CtxCall|
            (DiagnosticModel {
                rule: "correctness/direct-function-ref"@,
                severity: Severity::Error,
                category: Category::Correctness,
                message: "`"@ + c.chain@ + "` is handed `"@ + c.first_arg_chain.unwrap()@ + "` directly instead of a function reference"@,
                help: DIRECT_REF_HELP@,
                file: a.file_path@,
                line: c.line,
                column: c.col,
            }),
    );
}


/// `ctx.db.replace` calls.
pub open spec fn replace_call() -> spec_fn(CtxCall) -> bool {
    |c: CtxCall| has_prefix(c.chain@, "ctx.db.replace"@)
}

pub const REPLACE_HELP: &'static str = "`replace` overwrites the whole document and drops fields it does not list; use `ctx.db.patch` to change some fields.";

/// The finding for a `ctx.db.replace` call.
pub open spec fn replace_diag(file: Seq<char>) -> spec_fn(CtxCall) -> DiagnosticModel {
    |c: CtxCall|
        diagnostic_model(
            "correctness/replace-vs-patch"@,
            Severity::Info,
            Category::Correctness,
            quoted(c.chain@, "` replaces the whole document"@),
            REPLACE_HELP@,
            file,
            c.line,
            c.col,
        )
}

/// Info for each `ctx.db.replace` call.
pub struct ReplaceVsPatch;

impl Rule for ReplaceVsPatch {
    open spec fn spec_id(&self) -> Seq<char> {
        "correctness/replace-vs-patch"@
    }

    open spec fn spec_category(&self) -> Category {
        Category::Correctness
    }

    open spec fn spec_check(&self, a: FileAnalysis) -> Seq<DiagnosticModel> {
        select_map(a.ctx_calls@, replace_call(), replace_diag(a.file_path@))
    }

    open spec fn spec_check_project(&self, ctx: ProjectContext) -> Seq<DiagnosticModel> {
        Seq::empty()
    }

    fn id(&self) -> (r: &'static str) {
        "correctness/replace-vs-patch"
    }

    fn category(&self) -> (r: Category) {
        Category::Correctness
    }

    fn check(&self, a: &FileAnalysis) -> (r: Vec<Diagnostic>) {
        let ghost keep = replace_call();
        let ghost f = replace_diag(a.file_path@);
        let mut out: Vec<Diagnostic> = Vec::new();
        let n = a.ctx_calls.len();
        for i in 0..n
            invariant
                n == a.ctx_calls.len(),
                keep == replace_call(),
                f == replace_diag(a.file_path@),
                models(out@) == select_map(a.ctx_calls@.take(i as int), keep, f),
                all_tagged(models(out@), self.spec_id(), self.spec_category()),
        {
            proof {
                lemma_select_map_step(a.ctx_calls@, i as int, keep, f);
            }
            let c = &a.ctx_calls[i];
            if starts_with(c.chain.as_str(), "ctx.db.replace") {
                let m = quote(c.chain.as_str(), "` replaces the whole document");
                let d = new_diagnostic(
                    "correctness/replace-vs-patch",
                    Severity::Info,
                    Category::Correctness,
                    m,
                    REPLACE_HELP,
                    &a.file_path,
                    c.line,
                    c.col,
                );
                let ghost before = out@;
                out.push(d);
                proof {
                    lemma_models_push(before, d);
                }
            }
        }
        proof {
            assert(a.ctx_calls@.take(n as int) =~= a.ctx_calls@);
        }
        out
    }

    fn check_project(&self, ctx: &ProjectContext) -> (r: Vec<Diagnostic>) {
        no_diagnostics()
    }
}

pub const GENERATED_MODIFIED_HELP: &'static str = "Files in convex/_generated/ are written by `npx convex dev`; regenerate them instead of editing them by hand.";

/// Project-level error when files under `convex/_generated/` have uncommitted changes.
pub struct GeneratedCodeModified;

impl Rule for GeneratedCodeModified {
    open spec fn spec_id(&self) -> Seq<char> {
        "correctness/generated-code-modified"@
    }

    open spec fn spec_category(&self) -> Category {
        Category::Correctness
    }

    open spec fn spec_check(&self, a: FileAnalysis) -> Seq<DiagnosticModel> {
        Seq::empty()
    }

    open spec fn spec_check_project(&self, ctx: ProjectContext) -> Seq<DiagnosticModel> {
        if ctx.generated_files_modified {
            seq![diagnostic_model(
                "correctness/generated-code-modified"@,
                Severity::Error,
                Category::Correctness,
                "Files in convex/_generated/ have been modified"@,
                GENERATED_MODIFIED_HELP@,
                "convex/_generated/"@,
                0,
                0,
            )]
        } else {
            Seq::empty()
        }
    }

    fn id(&self) -> (r: &'static str) {
        "correctness/generated-code-modified"
    }

    fn category(&self) -> (r: Category) {
        Category::Correctness
    }

    fn check(&self, a: &FileAnalysis) -> (r: Vec<Diagnostic>) {
        no_diagnostics()
    }

    fn check_project(&self, ctx: &ProjectContext) -> (r: Vec<Diagnostic>) {
        if ctx.generated_files_modified {
            let file = owned("convex/_generated/");
            let d = new_diagnostic(
                "correctness/generated-code-modified",
                Severity::Error,
                Category::Correctness,
                owned("Files in convex/_generated/ have been modified"),
                GENERATED_MODIFIED_HELP,
                &file,
                0,
                0,
            );
            let mut out: Vec<Diagnostic> = Vec::new();
            out.push(d);
            proof {
                assert(models(out@) =~= seq![d@]);
            }
            out
        } else {
            no_diagnostics()
        }
    }
}

} // verus!
