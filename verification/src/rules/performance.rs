//! Rules about database bandwidth, transactions and round trips.
use vstd::prelude::*;

use crate::diagnostic::{lemma_models_push, models, Category, Diagnostic, DiagnosticModel, Severity};
use crate::rules::{
    all_tagged, diagnostic_model, keep_all, quote, quoted, kind_is_action, kind_is_mutation, kind_is_public,
    kind_is_query, kind_name, lemma_empty_text_neutral, lemma_select_map_all, lemma_select_map_filter, lemma_select_map_step, lemma_select_map_tagged, location_diag,
    location_diagnostics, new_diagnostic, no_diagnostics, select_map, CallLocation, ConvexFunction,
    CtxCall, FileAnalysis, FunctionKind, ProjectContext, Rule,
};
use crate::text::{has_prefix, owned, push_str, starts_with};
use crate::rules::{call_key, call_key_string, dedup_by, first_match, group_at_least, group_by_key, group_diag, group_diagnostics, groups_of, keyed_model, IndexDef, Keyed, SchemaIdField};
use crate::text::{contains, contains_string, ends_with, has_infix, has_suffix, str_eq, string_views};

verus! {

/// The enclosing function is of a kind satisfying `p`.
pub open spec fn enclosed_by(k: Option<FunctionKind>, p: spec_fn(FunctionKind) -> bool) -> bool {
    match k {
        Some(k) => p(k),
        None => false,
    }
}

fn in_action(k: &Option<FunctionKind>) -> (b: bool)
    ensures
        b == enclosed_by(*k, |k: FunctionKind| kind_is_action(k)),
{
    match k {
        Some(k) => k.is_action(),
        None => false,
    }
}

fn in_query_or_mutation(k: &Option<FunctionKind>) -> (b: bool)
    ensures
        b == enclosed_by(*k, |k: FunctionKind| kind_is_query(k) || kind_is_mutation(k)),
{
    match k {
        Some(k) => k.is_query() || k.is_mutation(),
        None => false,
    }
}

/// `ctx.runQuery` or `ctx.runMutation`.
pub open spec fn run_query_or_mutation(chain: Seq<char>) -> bool {
    has_prefix(chain, "ctx.runQuery"@) || has_prefix(chain, "ctx.runMutation"@)
}

pub const UNBOUNDED_COLLECT_HELP: &'static str = "Use `.take(n)` to limit results or implement pagination. All results count toward database bandwidth.";

/// A `.collect()` on a chain without `.take(...)`.
pub open spec fn unbounded_collect_keep() -> spec_fn(CallLocation) -> bool {
    |c: CallLocation| !has_infix(c.detail@, ".take."@)
}

/// The finding reported for a selected element.
pub open spec fn unbounded_collect_diag(file: Seq<char>) -> spec_fn(CallLocation) -> DiagnosticModel {
    |c: CallLocation|
        diagnostic_model(
            "perf/unbounded-collect"@,
            Severity::Error,
            Category::Performance,
            "Unbounded `.collect()` call"@,
            UNBOUNDED_COLLECT_HELP@,
            file,
            c.line,
            c.col,
        )
}

/// Error for each `.collect()` on a database query without `.take(n)`.
pub struct UnboundedCollect;

impl Rule for UnboundedCollect {
    open spec fn spec_id(&self) -> Seq<char> {
        "perf/unbounded-collect"@
    }

    open spec fn spec_category(&self) -> Category {
        Category::Performance
    }

    open spec fn spec_check(&self, a: FileAnalysis) -> Seq<DiagnosticModel> {
        select_map(a.collect_calls@, unbounded_collect_keep(), unbounded_collect_diag(a.file_path@))
    }

    open spec fn spec_check_project(&self, ctx: ProjectContext) -> Seq<DiagnosticModel> {
        Seq::empty()
    }

    fn id(&self) -> (r: &'static str) {
        "perf/unbounded-collect"
    }

    fn category(&self) -> (r: Category) {
        Category::Performance
    }

    fn check(&self, a: &FileAnalysis) -> (r: Vec<Diagnostic>) {
        let ghost keep = unbounded_collect_keep();
        let ghost f = unbounded_collect_diag(a.file_path@);
        let mut out: Vec<Diagnostic> = Vec::new();
        let n = a.collect_calls.len();
        for i in 0..n
            invariant
                n == a.collect_calls.len(),
                keep == unbounded_collect_keep(),
                f == unbounded_collect_diag(a.file_path@),
                models(out@) == select_map(a.collect_calls@.take(i as int), keep, f),
        {
            proof {
                lemma_select_map_step(a.collect_calls@, i as int, keep, f);
            }
            let c = &a.collect_calls[i];
            if !contains(c.detail.as_str(), ".take.") {
                let m = owned("Unbounded `.collect()` call");
                let d = new_diagnostic(
                    "perf/unbounded-collect",
                    Severity::Error,
                    Category::Performance,
                    m,
                    UNBOUNDED_COLLECT_HELP,
                    &a.file_path,
                    c.line,
                    c.col,
                );
                proof {
                    lemma_models_push(out@, d);
                }
                out.push(d);
            }
        }
        proof {
            assert(a.collect_calls@.take(n as int) =~= a.collect_calls@);
            lemma_select_map_tagged(a.collect_calls@, keep, f, self.spec_id(), self.spec_category());
        }
        out
    }

    fn check_project(&self, ctx: &ProjectContext) -> (r: Vec<Diagnostic>) {
        no_diagnostics()
    }
}

/// Exactly the `.collect()` calls whose chain has no `.take.` in it are reported, each once,
/// as an error "Unbounded `.collect()` call" at the call, in the order of the calls; nothing
/// else exempts a call.
pub proof fn law_unbounded_collects_reported(a: FileAnalysis)
    ensures
        UnboundedCollect.spec_check(a) == a.collect_calls@.filter(
            |c: CallLocation| !has_infix(c.detail@, ".take."@),
        ).map_values(
            |c: CallLocation|
                (DiagnosticModel {
                    rule: "perf/unbounded-collect"@,
                    severity: Severity::Error,
                    category: Category::Performance,
                    message: "Unbounded `.collect()` call"@,
                    help: UNBOUNDED_COLLECT_HELP@,
                    file: a.file_path@,
                    line: c.line,
                    column: c.col,
                }),
        ),
{
    lemma_select_map_filter(
        a.collect_calls@,
        unbounded_collect_keep(),
        unbounded_collect_diag(a.file_path@),
        |c: CallLocation| !has_infix(c.detail@, ".take."@),
        |c: CallLocation|
            (DiagnosticModel {
                rule: "perf/unbounded-collect"@,
                severity: Severity::Error,
                category: Category::Performance,
                message: "Unbounded `.collect()` call"@,
                help: UNBOUNDED_COLLECT_HELP@,
                file: a.file_path@,
                line: c.line,
                column: c.col,
            }),
    );
}

pub const FILTER_HELP: &'static str = "Define an index on the filtered field and use `.withIndex()` instead for better performance.";

/// Warning for each `.filter()` on a database query.
pub struct FilterWithoutIndex;

impl Rule for FilterWithoutIndex {
    open spec fn spec_id(&self) -> Seq<char> {
        "perf/filter-without-index"@
    }

    open spec fn spec_category(&self) -> Category {
        Category::Performance
    }

    open spec fn spec_check(&self, a: FileAnalysis) -> Seq<DiagnosticModel> {
        select_map(
            a.filter_calls@,
            keep_all(),
            location_diag(
                "perf/filter-without-index"@,
                Severity::Warning,
                Category::Performance,
                "`.filter()` without an index scans the entire table"@,
                ""@,
                false,
                FILTER_HELP@,
                a.file_path@,
            ),
        )
    }

    open spec fn spec_check_project(&self, ctx: ProjectContext) -> Seq<DiagnosticModel> {
        Seq::empty()
    }

    fn id(&self) -> (r: &'static str) {
        "perf/filter-without-index"
    }

    fn category(&self) -> (r: Category) {
        Category::Performance
    }

    fn check(&self, a: &FileAnalysis) -> (r: Vec<Diagnostic>) {
        location_diagnostics(
            &a.filter_calls,
            "perf/filter-without-index",
            Severity::Warning,
            Category::Performance,
            "`.filter()` without an index scans the entire table",
            "",
            false,
            FILTER_HELP,
            &a.file_path,
        )
    }

    fn check_project(&self, ctx: &ProjectContext) -> (r: Vec<Diagnostic>) {
        no_diagnostics()
    }
}

/// Every entry of `filter_calls` is reported, once and in order, as a warning at its place.
pub proof fn law_filter_without_index_reports_each(a: FileAnalysis)
    ensures
        FilterWithoutIndex.spec_check(a) == a.filter_calls@.map_values(
            |c: CallLocation|
                (DiagnosticModel {
                    rule: "perf/filter-without-index"@,
                    severity: Severity::Warning,
                    category: Category::Performance,
                    message: "`.filter()` without an index scans the entire table"@,
                    help: FILTER_HELP@,
                    file: a.file_path@,
                    line: c.line,
                    column: c.col,
                }),
        ),
{
    lemma_select_map_all(
        a.filter_calls@,
        keep_all(),
        location_diag(
            "perf/filter-without-index"@,
            Severity::Warning,
            Category::Performance,
            "`.filter()` without an index scans the entire table"@,
            ""@,
            false,
            FILTER_HELP@,
            a.file_path@,
        ),
        |c: CallLocation|
            (DiagnosticModel {
                rule: "perf/filter-without-index"@,
                severity: Severity::Warning,
                category: Category::Performance,
                message: "`.filter()` without an index scans the entire table"@,
                help: FILTER_HELP@,
                file: a.file_path@,
                line: c.line,
                column: c.col,
            }),
    );
}

pub const DATE_NOW_HELP: &'static str = "Queries must be deterministic. Pass the timestamp as an argument from the client or use a mutation instead.";

/// Error for each `Date.now()` in a query (the analyzer records only those).
pub struct DateNowInQuery;

impl Rule for DateNowInQuery {
    open spec fn spec_id(&self) -> Seq<char> {
        "perf/date-now-in-query"@
    }

    open spec fn spec_category(&self) -> Category {
        Category::Performance
    }

    open spec fn spec_check(&self, a: FileAnalysis) -> Seq<DiagnosticModel> {
        select_map(
            a.date_now_calls@,
            keep_all(),
            location_diag(
                "perf/date-now-in-query"@,
                Severity::Error,
                Category::Performance,
                "`Date.now()` in a query function breaks caching"@,
                ""@,
                false,
                DATE_NOW_HELP@,
                a.file_path@,
            ),
        )
    }

    open spec fn spec_check_project(&self, ctx: ProjectContext) -> Seq<DiagnosticModel> {
        Seq::empty()
    }

    fn id(&self) -> (r: &'static str) {
        "perf/date-now-in-query"
    }

    fn category(&self) -> (r: Category) {
        Category::Performance
    }

    fn check(&self, a: &FileAnalysis) -> (r: Vec<Diagnostic>) {
        location_diagnostics(
            &a.date_now_calls,
            "perf/date-now-in-query",
            Severity::Error,
            Category::Performance,
            "`Date.now()` in a query function breaks caching",
            "",
            false,
            DATE_NOW_HELP,
            &a.file_path,
        )
    }

    fn check_project(&self, ctx: &ProjectContext) -> (r: Vec<Diagnostic>) {
        no_diagnostics()
    }
}

/// Every entry of `date_now_calls` is reported, once and in order, as an error at its place.
pub proof fn law_date_now_in_query_reports_each(a: FileAnalysis)
    ensures
        DateNowInQuery.spec_check(a) == a.date_now_calls@.map_values(
            |c: CallLocation|
                (DiagnosticModel {
                    rule: "perf/date-now-in-query"@,
                    severity: Severity::Error,
                    category: Category::Performance,
                    message: "`Date.now()` in a query function breaks caching"@,
                    help: DATE_NOW_HELP@,
                    file: a.file_path@,
                    line: c.line,
                    column: c.col,
                }),
        ),
{
    lemma_select_map_all(
        a.date_now_calls@,
        keep_all(),
        location_diag(
            "perf/date-now-in-query"@,
            Severity::Error,
            Category::Performance,
            "`Date.now()` in a query function breaks caching"@,
            ""@,
            false,
            DATE_NOW_HELP@,
            a.file_path@,
        ),
        |c: CallLocation|
            (DiagnosticModel {
                rule: "perf/date-now-in-query"@,
                severity: Severity::Error,
                category: Category::Performance,
                message: "`Date.now()` in a query function breaks caching"@,
                help: DATE_NOW_HELP@,
                file: a.file_path@,
                line: c.line,
                column: c.col,
            }),
    );
}

pub const LOOP_RUN_HELP: &'static str = "Calling ctx.runMutation/ctx.runQuery in a loop causes N+1 round trips. Consider batching operations or restructuring.";

/// Error for each `ctx.run*`/scheduler call inside a loop.
pub struct LoopRunMutation;

impl Rule for LoopRunMutation {
    open spec fn spec_id(&self) -> Seq<char> {
        "perf/loop-run-mutation"@
    }

    open spec fn spec_category(&self) -> Category {
        Category::Performance
    }

    open spec fn spec_check(&self, a: FileAnalysis) -> Seq<DiagnosticModel> {
        select_map(
            a.loop_ctx_calls@,
            keep_all(),
            location_diag(
                "perf/loop-run-mutation"@,
                Severity::Error,
                Category::Performance,
                "ctx call `"@,
                "` inside a loop"@,
                true,
                LOOP_RUN_HELP@,
                a.file_path@,
            ),
        )
    }

    open spec fn spec_check_project(&self, ctx: ProjectContext) -> Seq<DiagnosticModel> {
        Seq::empty()
    }

    fn id(&self) -> (r: &'static str) {
        "perf/loop-run-mutation"
    }

    fn category(&self) -> (r: Category) {
        Category::Performance
    }

    fn check(&self, a: &FileAnalysis) -> (r: Vec<Diagnostic>) {
        location_diagnostics(
            &a.loop_ctx_calls,
            "perf/loop-run-mutation",
            Severity::Error,
            Category::Performance,
            "ctx call `",
            "` inside a loop",
            true,
            LOOP_RUN_HELP,
            &a.file_path,
        )
    }

    fn check_project(&self, ctx: &ProjectContext) -> (r: Vec<Diagnostic>) {
        no_diagnostics()
    }
}

/// Every entry of `loop_ctx_calls` is reported, once and in order, as an error at its place.
pub proof fn law_loop_run_mutation_reports_each(a: FileAnalysis)
    ensures
        LoopRunMutation.spec_check(a) == a.loop_ctx_calls@.map_values(
            |c: CallLocation|
                (DiagnosticModel {
                    rule: "perf/loop-run-mutation"@,
                    severity: Severity::Error,
                    category: Category::Performance,
                    message: "ctx call `"@ + c.detail@ + "` inside a loop"@,
                    help: LOOP_RUN_HELP@,
                    file: a.file_path@,
                    line: c.line,
                    column: c.col,
                }),
        ),
{
    lemma_select_map_all(
        a.loop_ctx_calls@,
        keep_all(),
        location_diag(
            "perf/loop-run-mutation"@,
            Severity::Error,
            Category::Performance,
            "ctx call `"@,
            "` inside a loop"@,
            true,
            LOOP_RUN_HELP@,
            a.file_path@,
        ),
        |c: CallLocation|
            (DiagnosticModel {
                rule: "perf/loop-run-mutation"@,
                severity: Severity::Error,
                category: Category::Performance,
                message: "ctx call `"@ + c.detail@ + "` inside a loop"@,
                help: LOOP_RUN_HELP@,
                file: a.file_path@,
                line: c.line,
                column: c.col,
            }),
    );
}

pub const RUN_ACTION_HELP: &'static str = "If both actions are in the same runtime, call the helper function directly instead of using ctx.runAction.";

/// `ctx.runAction` inside an action.
pub open spec fn unnecessary_run_action_keep() -> spec_fn(CtxCall) -> bool {
    |c: CtxCall| has_prefix(c.chain@, "ctx.runAction"@) && enclosed_by(c.enclosing_function_kind, |k: FunctionKind| kind_is_action(k))
}

/// The finding reported for a selected element.
pub open spec fn unnecessary_run_action_diag(file: Seq<char>) -> spec_fn(CtxCall) -> DiagnosticModel {
    |c: CtxCall|
        diagnostic_model(
            "perf/unnecessary-run-action"@,
            Severity::Warning,
            Category::Performance,
            "`ctx.runAction` called from within an action"@,
            RUN_ACTION_HELP@,
            file,
            c.line,
            c.col,
        )
}

/// Warning for each `ctx.runAction` call made from an action.
pub struct UnnecessaryRunAction;

impl Rule for UnnecessaryRunAction {
    open spec fn spec_id(&self) -> Seq<char> {
        "perf/unnecessary-run-action"@
    }

    open spec fn spec_category(&self) -> Category {
        Category::Performance
    }

    open spec fn spec_check(&self, a: FileAnalysis) -> Seq<DiagnosticModel> {
        select_map(a.ctx_calls@, unnecessary_run_action_keep(), unnecessary_run_action_diag(a.file_path@))
    }

    open spec fn spec_check_project(&self, ctx: ProjectContext) -> Seq<DiagnosticModel> {
        Seq::empty()
    }

    fn id(&self) -> (r: &'static str) {
        "perf/unnecessary-run-action"
    }

    fn category(&self) -> (r: Category) {
        Category::Performance
    }

    fn check(&self, a: &FileAnalysis) -> (r: Vec<Diagnostic>) {
        let ghost keep = unnecessary_run_action_keep();
        let ghost f = unnecessary_run_action_diag(a.file_path@);
        let mut out: Vec<Diagnostic> = Vec::new();
        let n = a.ctx_calls.len();
        for i in 0..n
            invariant
                n == a.ctx_calls.len(),
                keep == unnecessary_run_action_keep(),
                f == unnecessary_run_action_diag(a.file_path@),
                models(out@) == select_map(a.ctx_calls@.take(i as int), keep, f),
        {
            proof {
                lemma_select_map_step(a.ctx_calls@, i as int, keep, f);
            }
            let c = &a.ctx_calls[i];
            if starts_with(c.chain.as_str(), "ctx.runAction") && in_action(&c.enclosing_function_kind) {
                let m = owned("`ctx.runAction` called from within an action");
                let d = new_diagnostic(
                    "perf/unnecessary-run-action",
                    Severity::Warning,
                    Category::Performance,
                    m,
                    RUN_ACTION_HELP,
                    &a.file_path,
                    c.line,
                    c.col,
                );
                proof {
                    lemma_models_push(out@, d);
                }
                out.push(d);
            }
        }
        proof {
            assert(a.ctx_calls@.take(n as int) =~= a.ctx_calls@);
            lemma_select_map_tagged(a.ctx_calls@, keep, f, self.spec_id(), self.spec_category());
        }
        out
    }

    fn check_project(&self, ctx: &ProjectContext) -> (r: Vec<Diagnostic>) {
        no_diagnostics()
    }
}

/// Exactly the `ctx.runAction` calls made inside an action, internal or not, are reported, each
/// once as a warning at the call, in order.
pub proof fn law_actions_run_from_actions_reported(a: FileAnalysis)
    ensures
        UnnecessaryRunAction.spec_check(a) == a.ctx_calls@.filter(
            |c: CtxCall|
                has_prefix(c.chain@, "ctx.runAction"@)
                && (c.enclosing_function_kind == Some(FunctionKind::Action)
                    || c.enclosing_function_kind == Some(FunctionKind::InternalAction)),
        ).map_values(
            |c: CtxCall|
                (DiagnosticModel {
                    rule: "perf/unnecessary-run-action"@,
                    severity: Severity::Warning,
                    category: Category::Performance,
                    message: "`ctx.runAction` called from within an action"@,
                    help: RUN_ACTION_HELP@,
                    file: a.file_path@,
                    line: c.line,
                    column: c.col,
                }),
        ),
{
    lemma_select_map_filter(
        a.ctx_calls@,
        unnecessary_run_action_keep(),
        unnecessary_run_action_diag(a.file_path@),
        |c: CtxCall|
            has_prefix(c.chain@, "ctx.runAction"@)
            && (c.enclosing_function_kind == Some(FunctionKind::Action)
                || c.enclosing_function_kind == Some(FunctionKind::InternalAction)),
        |c: CtxCall|
            (DiagnosticModel {
                rule: "perf/unnecessary-run-action"@,
                severity: Severity::Warning,
                category: Category::Performance,
                message: "`ctx.runAction` called from within an action"@,
                help: RUN_ACTION_HELP@,
                file: a.file_path@,
                line: c.line,
                column: c.col,
            }),
    );
}

pub const HELPER_VS_RUN_HELP: &'static str = "Use a helper function instead of ctx.runQuery/ctx.runMutation within queries/mutations. Helper functions share the same transaction.";

/// `ctx.runQuery`/`ctx.runMutation` inside a query or mutation.
pub open spec fn helper_vs_run_keep() -> spec_fn(CtxCall) -> bool {
    |c: CtxCall| run_query_or_mutation(c.chain@) && enclosed_by(c.enclosing_function_kind, |k: FunctionKind| kind_is_query(k) || kind_is_mutation(k))
}

/// The finding reported for a selected element.
pub open spec fn helper_vs_run_diag(file: Seq<char>) -> spec_fn(CtxCall) -> DiagnosticModel {
    |c: CtxCall|
        diagnostic_model(
            "perf/helper-vs-run"@,
            Severity::Warning,
            Category::Performance,
            quoted(c.chain@, "` used inside a query/mutation"@),
            HELPER_VS_RUN_HELP@,
            file,
            c.line,
            c.col,
        )
}

/// Warning for each `ctx.runQuery`/`ctx.runMutation` call inside a query or mutation.
pub struct HelperVsRun;

impl Rule for HelperVsRun {
    open spec fn spec_id(&self) -> Seq<char> {
        "perf/helper-vs-run"@
    }

    open spec fn spec_category(&self) -> Category {
        Category::Performance
    }

    open spec fn spec_check(&self, a: FileAnalysis) -> Seq<DiagnosticModel> {
        select_map(a.ctx_calls@, helper_vs_run_keep(), helper_vs_run_diag(a.file_path@))
    }

    open spec fn spec_check_project(&self, ctx: ProjectContext) -> Seq<DiagnosticModel> {
        Seq::empty()
    }

    fn id(&self) -> (r: &'static str) {
        "perf/helper-vs-run"
    }

    fn category(&self) -> (r: Category) {
        Category::Performance
    }

    fn check(&self, a: &FileAnalysis) -> (r: Vec<Diagnostic>) {
        let ghost keep = helper_vs_run_keep();
        let ghost f = helper_vs_run_diag(a.file_path@);
        let mut out: Vec<Diagnostic> = Vec::new();
        let n = a.ctx_calls.len();
        for i in 0..n
            invariant
                n == a.ctx_calls.len(),
                keep == helper_vs_run_keep(),
                f == helper_vs_run_diag(a.file_path@),
                models(out@) == select_map(a.ctx_calls@.take(i as int), keep, f),
        {
            proof {
                lemma_select_map_step(a.ctx_calls@, i as int, keep, f);
            }
            let c = &a.ctx_calls[i];
            if (starts_with(c.chain.as_str(), "ctx.runQuery") || starts_with(c.chain.as_str(), "ctx.runMutation")) && in_query_or_mutation(&c.enclosing_function_kind) {
                let m = quote(c.chain.as_str(), "` used inside a query/mutation");
                let d = new_diagnostic(
                    "perf/helper-vs-run",
                    Severity::Warning,
                    Category::Performance,
                    m,
                    HELPER_VS_RUN_HELP,
                    &a.file_path,
                    c.line,
                    c.col,
                );
                proof {
                    lemma_models_push(out@, d);
                }
                out.push(d);
            }
        }
        proof {
            assert(a.ctx_calls@.take(n as int) =~= a.ctx_calls@);
            lemma_select_map_tagged(a.ctx_calls@, keep, f, self.spec_id(), self.spec_category());
        }
        out
    }

    fn check_project(&self, ctx: &ProjectContext) -> (r: Vec<Diagnostic>) {
        no_diagnostics()
    }
}

/// Exactly the `ctx.runQuery` and `ctx.runMutation` calls made inside a query or a mutation,
/// internal or not, are reported, each once as a warning at the call, in order.
pub proof fn law_run_calls_in_queries_and_mutations_reported(a: FileAnalysis)
    ensures
        HelperVsRun.spec_check(a) == a.ctx_calls@.filter(
            |c: CtxCall|
                (has_prefix(c.chain@, "ctx.runQuery"@)
                    || has_prefix(c.chain@, "ctx.runMutation"@))
                && (c.enclosing_function_kind == Some(FunctionKind::Query)
                    || c.enclosing_function_kind == Some(FunctionKind::InternalQuery)
                    || c.enclosing_function_kind == Some(FunctionKind::Mutation)
                    || c.enclosing_function_kind == Some(FunctionKind::InternalMutation)),
        ).map_values(
            |c: CtxCall|
                (DiagnosticModel {
                    rule: "perf/helper-vs-run"@,
                    severity: Severity::Warning,
                    category: Category::Performance,
                    message: "`"@ + c.chain@ + "` used inside a query/mutation"@,
                    help: HELPER_VS_RUN_HELP@,
                    file: a.file_path@,
                    line: c.line,
                    column: c.col,
                }),
        ),
{
    lemma_select_map_filter(
        a.ctx_calls@,
        helper_vs_run_keep(),
        helper_vs_run_diag(a.file_path@),
        |c: CtxCall|
            (has_prefix(c.chain@, "ctx.runQuery"@)
                || has_prefix(c.chain@, "ctx.runMutation"@))
            && (c.enclosing_function_kind == Some(FunctionKind::Query)
                || c.enclosing_function_kind == Some(FunctionKind::InternalQuery)
                || c.enclosing_function_kind == Some(FunctionKind::Mutation)
                || c.enclosing_function_kind == Some(FunctionKind::InternalMutation)),
        |c: CtxCall|
            (DiagnosticModel {
                rule: "perf/helper-vs-run"@,
                severity: Severity::Warning,
                category: Category::Performance,
                message: "`"@ + c.chain@ + "` used inside a query/mutation"@,
                help: HELPER_VS_RUN_HELP@,
                file: a.file_path@,
                line: c.line,
                column: c.col,
            }),
    );
}

pub const ACTION_FROM_CLIENT_HELP: &'static str = "Calling actions from the browser is an anti-pattern. Use a mutation that schedules the action via `ctx.scheduler.runAfter(0, ...)`.";

/// A public (non-internal) action.
pub open spec fn action_from_client_keep() -> spec_fn(ConvexFunction) -> bool {
    |c: ConvexFunction| c.kind == FunctionKind::Action
}

/// The finding reported for a selected element.
pub open spec fn action_from_client_diag(file: Seq<char>) -> spec_fn(ConvexFunction) -> DiagnosticModel {
    |c: ConvexFunction|
        diagnostic_model(
            "perf/action-from-client"@,
            Severity::Warning,
            Category::Performance,
            "Public action `"@ + c.name@ + "` can be called directly from client"@,
            ACTION_FROM_CLIENT_HELP@,
            file,
            c.span_line,
            c.span_col,
        )
}

/// Warning for each public action, which clients can call directly.
pub struct ActionFromClient;

impl Rule for ActionFromClient {
    open spec fn spec_id(&self) -> Seq<char> {
        "perf/action-from-client"@
    }

    open spec fn spec_category(&self) -> Category {
        Category::Performance
    }

    open spec fn spec_check(&self, a: FileAnalysis) -> Seq<DiagnosticModel> {
        select_map(a.functions@, action_from_client_keep(), action_from_client_diag(a.file_path@))
    }

    open spec fn spec_check_project(&self, ctx: ProjectContext) -> Seq<DiagnosticModel> {
        Seq::empty()
    }

    fn id(&self) -> (r: &'static str) {
        "perf/action-from-client"
    }

    fn category(&self) -> (r: Category) {
        Category::Performance
    }

    fn check(&self, a: &FileAnalysis) -> (r: Vec<Diagnostic>) {
        let ghost keep = action_from_client_keep();
        let ghost f = action_from_client_diag(a.file_path@);
        let mut out: Vec<Diagnostic> = Vec::new();
        let n = a.functions.len();
        for i in 0..n
            invariant
                n == a.functions.len(),
                keep == action_from_client_keep(),
                f == action_from_client_diag(a.file_path@),
                models(out@) == select_map(a.functions@.take(i as int), keep, f),
        {
            proof {
                lemma_select_map_step(a.functions@, i as int, keep, f);
            }
            let c = &a.functions[i];
            if c.kind == FunctionKind::Action {
                let mut m = owned("Public action `");
                push_str(&mut m, c.name.as_str());
                push_str(&mut m, "` can be called directly from client");
                let d = new_diagnostic(
                    "perf/action-from-client",
                    Severity::Warning,
                    Category::Performance,
                    m,
                    ACTION_FROM_CLIENT_HELP,
                    &a.file_path,
                    c.span_line,
                    c.span_col,
                );
                proof {
                    lemma_models_push(out@, d);
                }
                out.push(d);
            }
        }
        proof {
            assert(a.functions@.take(n as int) =~= a.functions@);
            lemma_select_map_tagged(a.functions@, keep, f, self.spec_id(), self.spec_category());
        }
        out
    }

    fn check_project(&self, ctx: &ProjectContext) -> (r: Vec<Diagnostic>) {
        no_diagnostics()
    }
}

/// Exactly the public actions (not internal ones, not HTTP actions) are reported, each once as
/// a warning at the registration, in order.
pub proof fn law_public_actions_reported(a: FileAnalysis)
    ensures
        ActionFromClient.spec_check(a) == a.functions@.filter(
            |c: ConvexFunction|
                c.kind == FunctionKind::Action,
        ).map_values(
            |c: ConvexFunction|
                (DiagnosticModel {
                    rule: "perf/action-from-client"@,
                    severity: Severity::Warning,
                    category: Category::Performance,
                    message: "Public action `"@ + c.name@ + "` can be called directly from client"@,
                    help: ACTION_FROM_CLIENT_HELP@,
                    file: a.file_path@,
                    line: c.span_line,
                    column: c.span_col,
                }),
        ),
{
    lemma_select_map_filter(
        a.functions@,
        action_from_client_keep(),
        action_from_client_diag(a.file_path@),
        |c: ConvexFunction|
            c.kind == FunctionKind::Action,
        |c: ConvexFunction|
            (DiagnosticModel {
                rule: "perf/action-from-client"@,
                severity: Severity::Warning,
                category: Category::Performance,
                message: "Public action `"@ + c.name@ + "` can be called directly from client"@,
                help: ACTION_FROM_CLIENT_HELP@,
                file: a.file_path@,
                line: c.span_line,
                column: c.span_col,
            }),
    );
}

pub const COLLECT_FILTER_HELP: &'static str = "Collecting all results then filtering in JavaScript wastes bandwidth and breaks query caching. Use `.withIndex()` or `.filter()` on the query instead.";

/// Warning for each JavaScript `.filter()` on collected query results.
pub struct CollectThenFilter;

impl Rule for CollectThenFilter {
    open spec fn spec_id(&self) -> Seq<char> {
        "perf/collect-then-filter"@
    }

    open spec fn spec_category(&self) -> Category {
        Category::Performance
    }

    open spec fn spec_check(&self, a: FileAnalysis) -> Seq<DiagnosticModel> {
        select_map(
            a.collect_variable_filters@,
            keep_all(),
            location_diag(
                "perf/collect-then-filter"@,
                Severity::Warning,
                Category::Performance,
                ""@,
                ""@,
                true,
                COLLECT_FILTER_HELP@,
                a.file_path@,
            ),
        )
    }

    open spec fn spec_check_project(&self, ctx: ProjectContext) -> Seq<DiagnosticModel> {
        Seq::empty()
    }

    fn id(&self) -> (r: &'static str) {
        "perf/collect-then-filter"
    }

    fn category(&self) -> (r: Category) {
        Category::Performance
    }

    fn check(&self, a: &FileAnalysis) -> (r: Vec<Diagnostic>) {
        location_diagnostics(
            &a.collect_variable_filters,
            "perf/collect-then-filter",
            Severity::Warning,
            Category::Performance,
            "",
            "",
            true,
            COLLECT_FILTER_HELP,
            &a.file_path,
        )
    }

    fn check_project(&self, ctx: &ProjectContext) -> (r: Vec<Diagnostic>) {
        no_diagnostics()
    }
}

/// Every entry of `collect_variable_filters` is reported, once and in order, as a warning at its place.
pub proof fn law_collect_then_filter_reports_each(a: FileAnalysis)
    ensures
        CollectThenFilter.spec_check(a) == a.collect_variable_filters@.map_values(
            |c: CallLocation|
                (DiagnosticModel {
                    rule: "perf/collect-then-filter"@,
                    severity: Severity::Warning,
                    category: Category::Performance,
                    message: c.detail@,
                    help: COLLECT_FILTER_HELP@,
                    file: a.file_path@,
                    line: c.line,
                    column: c.col,
                }),
        ),
{
    lemma_empty_text_neutral();
    lemma_select_map_all(
        a.collect_variable_filters@,
        keep_all(),
        location_diag(
            "perf/collect-then-filter"@,
            Severity::Warning,
            Category::Performance,
            ""@,
            ""@,
            true,
            COLLECT_FILTER_HELP@,
            a.file_path@,
        ),
        |c: CallLocation|
            (DiagnosticModel {
                rule: "perf/collect-then-filter"@,
                severity: Severity::Warning,
                category: Category::Performance,
                message: c.detail@,
                help: COLLECT_FILTER_HELP@,
                file: a.file_path@,
                line: c.line,
                column: c.col,
            }),
    );
}

pub const LARGE_WRITE_HELP: &'static str = "Documents approaching the 1 MiB limit may fail at runtime. Consider breaking large documents into related smaller ones.";

/// Info for each insert or replace of an inline object with many properties.
pub struct LargeDocumentWrite;

impl Rule for LargeDocumentWrite {
    open spec fn spec_id(&self) -> Seq<char> {
        "perf/large-document-write"@
    }

    open spec fn spec_category(&self) -> Category {
        Category::Performance
    }

    open spec fn spec_check(&self, a: FileAnalysis) -> Seq<DiagnosticModel> {
        select_map(
            a.large_writes@,
            keep_all(),
            location_diag(
                "perf/large-document-write"@,
                Severity::Info,
                Category::Performance,
                "Large inline document write: "@,
                ""@,
                true,
                LARGE_WRITE_HELP@,
                a.file_path@,
            ),
        )
    }

    open spec fn spec_check_project(&self, ctx: ProjectContext) -> Seq<DiagnosticModel> {
        Seq::empty()
    }

    fn id(&self) -> (r: &'static str) {
        "perf/large-document-write"
    }

    fn category(&self) -> (r: Category) {
        Category::Performance
    }

    fn check(&self, a: &FileAnalysis) -> (r: Vec<Diagnostic>) {
        location_diagnostics(
            &a.large_writes,
            "perf/large-document-write",
            Severity::Info,
            Category::Performance,
            "Large inline document write: ",
            "",
            true,
            LARGE_WRITE_HELP,
            &a.file_path,
        )
    }

    fn check_project(&self, ctx: &ProjectContext) -> (r: Vec<Diagnostic>) {
        no_diagnostics()
    }
}

/// Every entry of `large_writes` is reported, once and in order, as information at its place.
pub proof fn law_large_document_write_reports_each(a: FileAnalysis)
    ensures
        LargeDocumentWrite.spec_check(a) == a.large_writes@.map_values(
            |c: CallLocation|
                (DiagnosticModel {
                    rule: "perf/large-document-write"@,
                    severity: Severity::Info,
                    category: Category::Performance,
                    message: "Large inline document write: "@ + c.detail@,
                    help: LARGE_WRITE_HELP@,
                    file: a.file_path@,
                    line: c.line,
                    column: c.col,
                }),
        ),
{
    lemma_empty_text_neutral();
    lemma_select_map_all(
        a.large_writes@,
        keep_all(),
        location_diag(
            "perf/large-document-write"@,
            Severity::Info,
            Category::Performance,
            "Large inline document write: "@,
            ""@,
            true,
            LARGE_WRITE_HELP@,
            a.file_path@,
        ),
        |c: CallLocation|
            (DiagnosticModel {
                rule: "perf/large-document-write"@,
                severity: Severity::Info,
                category: Category::Performance,
                message: "Large inline document write: "@ + c.detail@,
                help: LARGE_WRITE_HELP@,
                file: a.file_path@,
                line: c.line,
                column: c.col,
            }),
    );
}

/// A ctx.runQuery/ctx.runMutation call made in an action.
pub open spec fn sequential_keep() -> spec_fn(CtxCall) -> bool {
    |c: CtxCall| run_query_or_mutation(c.chain@) && enclosed_by(c.enclosing_function_kind, |k: FunctionKind| kind_is_action(k))
}

/// A call as a keyed occurrence of its enclosing function.
pub open spec fn call_occurrence() -> spec_fn(CtxCall) -> (Seq<char>, u32, u32) {
    |c: CtxCall| (call_key(c), c.line, c.col)
}

pub const SEQUENTIAL_HELP: &'static str = "Multiple sequential ctx.runQuery/ctx.runMutation calls each start a separate transaction. Consider combining related reads/writes into a single mutation.";

/// Warning for each action with three or more `ctx.runQuery`/`ctx.runMutation` calls, at its
/// first such call; actions come in order of their first such call.
pub struct SequentialRunCalls;

impl Rule for SequentialRunCalls {
    open spec fn spec_id(&self) -> Seq<char> {
        "perf/sequential-run-calls"@
    }

    open spec fn spec_category(&self) -> Category {
        Category::Performance
    }

    open spec fn spec_check(&self, a: FileAnalysis) -> Seq<DiagnosticModel> {
        select_map(
            groups_of(select_map(a.ctx_calls@, sequential_keep(), call_occurrence())),
            group_at_least(3),
            group_diag(
                "perf/sequential-run-calls"@,
                Severity::Warning,
                Category::Performance,
                "Action `"@,
                "` has "@,
                " sequential ctx.run* calls — consider batching"@,
                SEQUENTIAL_HELP@,
                a.file_path@,
            ),
        )
    }

    open spec fn spec_check_project(&self, ctx: ProjectContext) -> Seq<DiagnosticModel> {
        Seq::empty()
    }

    fn id(&self) -> (r: &'static str) {
        "perf/sequential-run-calls"
    }

    fn category(&self) -> (r: Category) {
        Category::Performance
    }

    fn check(&self, a: &FileAnalysis) -> (r: Vec<Diagnostic>) {
        let ghost keep = sequential_keep();
        let ghost f = call_occurrence();
        let mut items: Vec<Keyed> = Vec::new();
        let n = a.ctx_calls.len();
        for i in 0..n
            invariant
                n == a.ctx_calls.len(),
                keep == sequential_keep(),
                f == call_occurrence(),
                items@.map_values(|k: Keyed| keyed_model(k)) == select_map(a.ctx_calls@.take(i as int), keep, f),
        {
            proof {
                lemma_select_map_step(a.ctx_calls@, i as int, keep, f);
            }
            let c = &a.ctx_calls[i];
            if (starts_with(c.chain.as_str(), "ctx.runQuery") || starts_with(c.chain.as_str(), "ctx.runMutation"))
                && in_action(&c.enclosing_function_kind) {
                let k = Keyed { key: call_key_string(c), line: c.line, col: c.col };
                proof {
                    assert(items@.push(k).map_values(|k: Keyed| keyed_model(k)) =~= items@.map_values(
                        |k: Keyed| keyed_model(k),
                    ).push(keyed_model(k)));
                }
                items.push(k);
            }
        }
        proof {
            assert(a.ctx_calls@.take(n as int) =~= a.ctx_calls@);
        }
        let groups = group_by_key(&items);
        group_diagnostics(
            &groups,
            3,
            "perf/sequential-run-calls",
            Severity::Warning,
            Category::Performance,
            "Action `",
            "` has ",
            " sequential ctx.run* calls — consider batching",
            SEQUENTIAL_HELP,
            &a.file_path,
        )
    }

    fn check_project(&self, ctx: &ProjectContext) -> (r: Vec<Diagnostic>) {
        no_diagnostics()
    }
}

/// Some index on a named table is on the field's table and includes the field.
pub open spec fn field_indexed(idxs: Seq<IndexDef>, f: SchemaIdField) -> bool {
    exists|i: int|
        0 <= i < idxs.len() && #[trigger] idxs[i].table@.len() > 0 && idxs[i].table@ == f.table_id@
            && string_views(idxs[i].fields@).contains(f.field_name@)
}

fn is_field_indexed(idxs: &Vec<IndexDef>, f: &SchemaIdField) -> (b: bool)
    ensures
        b == field_indexed(idxs@, *f),
{
    let mut i: usize = 0;
    while i < idxs.len()
        invariant
            i <= idxs.len(),
            forall|j: int|
                0 <= j < i ==> !(#[trigger] idxs@[j].table@.len() > 0 && idxs@[j].table@ == f.table_id@
                    && string_views(idxs@[j].fields@).contains(f.field_name@)),
        decreases idxs.len() - i,
    {
        let idx = &idxs[i];
        if !idx.table.as_str().is_empty() && str_eq(idx.table.as_str(), f.table_id.as_str()) && contains_string(
            &idx.fields,
            f.field_name.as_str(),
        ) {
            return true;
        }
        i = i + 1;
    }
    false
}

/// A complete `v.id(...)` schema field with no index covering it.
pub open spec fn fk_candidate(idxs: Seq<IndexDef>) -> spec_fn(SchemaIdField) -> bool {
    |f: SchemaIdField|
        f.field_name@.len() > 0 && f.table_id@.len() > 0 && f.file@.len() > 0 && !field_indexed(
            idxs,
            f,
        )
}

/// Identical reports are made once: file, table, field, place and referenced table.
pub open spec fn fk_key() -> spec_fn(SchemaIdField) -> (Seq<char>, Seq<char>, Seq<char>, u32, u32, Seq<char>) {
    |f: SchemaIdField| (f.file@, f.table_id@, f.field_name@, f.line, f.col, f.table_ref@)
}

fn same_fk_key(x: &SchemaIdField, y: &SchemaIdField) -> (b: bool)
    ensures
        b == (fk_key()(*x) == fk_key()(*y)),
{
    str_eq(x.file.as_str(), y.file.as_str()) && str_eq(x.table_id.as_str(), y.table_id.as_str())
        && str_eq(x.field_name.as_str(), y.field_name.as_str()) && x.line == y.line && x.col
        == y.col && str_eq(x.table_ref.as_str(), y.table_ref.as_str())
}

pub const FK_HELP: &'static str = "Fields with `v.id()` references are commonly queried. Add an index to avoid full table scans.";

/// The finding for an unindexed foreign key field.
pub open spec fn fk_diag() -> spec_fn(SchemaIdField) -> DiagnosticModel {
    |f: SchemaIdField|
        diagnostic_model(
            "perf/missing-index-on-foreign-key"@,
            Severity::Warning,
            Category::Performance,
            "Foreign key field referencing `"@ + f.table_ref@ + "` has no index"@,
            FK_HELP@,
            f.file@,
            f.line,
            f.col,
        )
}

/// Project-level warning for each schema field referencing another table with `v.id(...)`
/// that no index on its table includes; identical reports are made once.
pub struct MissingIndexOnForeignKey;

impl Rule for MissingIndexOnForeignKey {
    open spec fn spec_id(&self) -> Seq<char> {
        "perf/missing-index-on-foreign-key"@
    }

    open spec fn spec_category(&self) -> Category {
        Category::Performance
    }

    open spec fn spec_check(&self, a: FileAnalysis) -> Seq<DiagnosticModel> {
        Seq::empty()
    }

    open spec fn spec_check_project(&self, ctx: ProjectContext) -> Seq<DiagnosticModel> {
        dedup_by(
            select_map(ctx.all_schema_id_fields@, fk_candidate(ctx.all_index_definitions@), |f: SchemaIdField| f),
            fk_key(),
        ).map_values(fk_diag())
    }

    fn id(&self) -> (r: &'static str) {
        "perf/missing-index-on-foreign-key"
    }

    fn category(&self) -> (r: Category) {
        Category::Performance
    }

    fn check(&self, a: &FileAnalysis) -> (r: Vec<Diagnostic>) {
        no_diagnostics()
    }

    fn check_project(&self, ctx: &ProjectContext) -> (r: Vec<Diagnostic>) {
        let ghost fields = ctx.all_schema_id_fields@;
        let ghost keep = fk_candidate(ctx.all_index_definitions@);
        let ghost id = |f: SchemaIdField| f;
        let ghost key = fk_key();
        let mut kept: Vec<usize> = Vec::new();
        let n = ctx.all_schema_id_fields.len();
        for i in 0..n
            invariant
                n == ctx.all_schema_id_fields.len(),
                fields == ctx.all_schema_id_fields@,
                keep == fk_candidate(ctx.all_index_definitions@),
                id == (|f: SchemaIdField| f),
                key == fk_key(),
                forall|j: int| 0 <= j < kept.len() ==> #[trigger] kept@[j] < i,
                kept@.map_values(|j: usize| fields[j as int]) == dedup_by(
                    select_map(fields.take(i as int), keep, id),
                    key,
                ),
        {
            let ghost sel = select_map(fields.take(i as int), keep, id);
            proof {
                lemma_select_map_step(fields, i as int, keep, id);
            }
            let f = &ctx.all_schema_id_fields[i];
            if !f.field_name.as_str().is_empty() && !f.table_id.as_str().is_empty() && !f.file.as_str().is_empty()
                && !is_field_indexed(&ctx.all_index_definitions, f) {
                let ghost kv = kept@.map_values(|j: usize| fields[j as int]);
                let mut seen = false;
                let mut t: usize = 0;
                while t < kept.len()
                    invariant
                        t <= kept.len(),
                        i < n,
                        n == ctx.all_schema_id_fields.len(),
                        fields == ctx.all_schema_id_fields@,
                        key == fk_key(),
                        kv == kept@.map_values(|j: usize| fields[j as int]),
                        forall|j: int| 0 <= j < kept.len() ==> #[trigger] kept@[j] < i,
                        seen == exists|u: int| 0 <= u < t && key(#[trigger] kv[u]) == key(*f),
                    decreases kept.len() - t,
                {
                    let same = same_fk_key(&ctx.all_schema_id_fields[kept[t]], f);
                    proof {
                        assert(kv[t as int] == fields[kept@[t as int] as int]);
                    }
                    if same {
                        seen = true;
                    }
                    t = t + 1;
                }
                proof {
                    assert(sel.push(*f).drop_last() =~= sel);
                    if seen {
                        let u = choose|u: int| 0 <= u < kept.len() && key(#[trigger] kv[u]) == key(*f);
                        assert(kv.map_values(key)[u] == key(*f));
                    } else {
                        assert(!kv.map_values(key).contains(key(*f))) by {
                            if kv.map_values(key).contains(key(*f)) {
                                let u = choose|u: int| 0 <= u < kv.len() && kv.map_values(key)[u] == key(*f);
                                assert(key(kv[u]) == key(*f));
                            }
                        }
                    }
                }
                if !seen {
                    kept.push(i);
                    proof {
                        assert(kept@.map_values(|j: usize| fields[j as int]) =~= kv.push(*f));
                    }
                }
            }
        }
        proof {
            assert(fields.take(n as int) =~= fields);
        }
        let ghost kv = kept@.map_values(|j: usize| fields[j as int]);
        let mut out: Vec<Diagnostic> = Vec::new();
        let m = kept.len();
        for k in 0..m
            invariant
                m == kept.len(),
                n == ctx.all_schema_id_fields.len(),
                fields == ctx.all_schema_id_fields@,
                forall|j: int| 0 <= j < kept.len() ==> #[trigger] kept@[j] < n,
                kv == kept@.map_values(|j: usize| fields[j as int]),
                models(out@) == kv.take(k as int).map_values(fk_diag()),
        {
            let f = &ctx.all_schema_id_fields[kept[k]];
            let mut msg = owned("Foreign key field referencing `");
            push_str(&mut msg, f.table_ref.as_str());
            push_str(&mut msg, "` has no index");
            let d = new_diagnostic(
                "perf/missing-index-on-foreign-key",
                Severity::Warning,
                Category::Performance,
                msg,
                FK_HELP,
                &f.file,
                f.line,
                f.col,
            );
            proof {
                lemma_models_push(out@, d);
                assert(kv[k as int] == *f);
                assert(kv.take(k + 1).map_values(fk_diag()) =~= kv.take(k as int).map_values(
                    fk_diag(),
                ).push(d@));
            }
            out.push(d);
        }
        proof {
            assert(kv.take(m as int) =~= kv);
            assert(all_tagged(models(out@), self.spec_id(), self.spec_category()));
        }
        out
    }
}

pub const NO_PAGINATION_HELP: &'static str = "Consider using `.paginate()` or `.take(n)` for public queries to limit data sent to clients.";

/// Some function of the file is a public query.
pub open spec fn has_public_query(fs: Seq<ConvexFunction>) -> bool {
    exists|k: int| 0 <= k < fs.len() && (#[trigger] fs[k]).kind == FunctionKind::Query
}

/// A chain that collects a database query.
pub open spec fn db_collect(chain: Seq<char>) -> bool {
    has_prefix(chain, "ctx.db."@) && has_suffix(chain, ".collect"@)
}

/// A database `.collect()` made inside a public query and not limited by `.take(n)`.
pub open spec fn public_query_collect() -> spec_fn(CtxCall) -> bool {
    |c: CtxCall| c.enclosing_function_kind == Some(FunctionKind::Query) && db_collect(c.chain@)
        && !has_infix(c.chain@, ".take."@)
}

/// Some `ctx` call of the file collects a database query.
pub open spec fn records_db_collects(calls: Seq<CtxCall>) -> bool {
    exists|k: int| 0 <= k < calls.len() && db_collect((#[trigger] calls[k]).chain@)
}

/// The finding, at a `.collect()` call.
pub open spec fn no_pagination_diag(file: Seq<char>, line: u32, col: u32) -> DiagnosticModel {
    diagnostic_model(
        "perf/no-pagination-for-list"@,
        Severity::Warning,
        Category::Performance,
        "Public query with `.collect()` may return unbounded results to client"@,
        NO_PAGINATION_HELP@,
        file,
        line,
        col,
    )
}

/// Warning, once per file, at the first database `.collect()` made inside a public query and
/// not limited by `.take(n)`. Where the file's `ctx` calls record no database collect at all,
/// the file's collects are judged by the file: a file with a public query and a collect is
/// reported at its first collect.
pub struct NoPaginationForList;

impl Rule for NoPaginationForList {
    open spec fn spec_id(&self) -> Seq<char> {
        "perf/no-pagination-for-list"@
    }

    open spec fn spec_category(&self) -> Category {
        Category::Performance
    }

    open spec fn spec_check(&self, a: FileAnalysis) -> Seq<DiagnosticModel> {
        match first_match(a.ctx_calls@, public_query_collect()) {
            Some(c) => seq![no_pagination_diag(a.file_path@, c.line, c.col)],
            None => if !records_db_collects(a.ctx_calls@) && has_public_query(a.functions@)
                && a.collect_calls@.len() > 0 {
                seq![no_pagination_diag(a.file_path@, a.collect_calls@[0].line, a.collect_calls@[0].col)]
            } else {
                Seq::empty()
            },
        }
    }

    open spec fn spec_check_project(&self, ctx: ProjectContext) -> Seq<DiagnosticModel> {
        Seq::empty()
    }

    fn id(&self) -> (r: &'static str) {
        "perf/no-pagination-for-list"
    }

    fn category(&self) -> (r: Category) {
        Category::Performance
    }

    fn check(&self, a: &FileAnalysis) -> (r: Vec<Diagnostic>) {
        let ghost keep = public_query_collect();
        let mut seen_collect = false;
        let mut i: usize = 0;
        assert(a.ctx_calls@.skip(0) =~= a.ctx_calls@);
        while i < a.ctx_calls.len()
            invariant
                i <= a.ctx_calls.len(),
                keep == public_query_collect(),
                first_match(a.ctx_calls@, keep) == first_match(a.ctx_calls@.skip(i as int), keep),
                seen_collect == exists|k: int| 0 <= k < i && db_collect((#[trigger] a.ctx_calls@[k]).chain@),
            decreases a.ctx_calls.len() - i,
        {
            let c = &a.ctx_calls[i];
            let collects = starts_with(c.chain.as_str(), "ctx.db.") && ends_with(c.chain.as_str(), ".collect");
            let in_public_query = match c.enclosing_function_kind {
                Some(k) => k == FunctionKind::Query,
                None => false,
            };
            if collects && in_public_query && !contains(c.chain.as_str(), ".take.") {
                let d = new_diagnostic(
                    "perf/no-pagination-for-list",
                    Severity::Warning,
                    Category::Performance,
                    owned("Public query with `.collect()` may return unbounded results to client"),
                    NO_PAGINATION_HELP,
                    &a.file_path,
                    c.line,
                    c.col,
                );
                let mut out: Vec<Diagnostic> = Vec::new();
                out.push(d);
                proof {
                    assert(models(out@) =~= seq![d@]);
                }
                return out;
            }
            if collects {
                seen_collect = true;
            }
            proof {
                assert(a.ctx_calls@.skip(i as int).drop_first() =~= a.ctx_calls@.skip(i + 1));
            }
            i = i + 1;
        }
        proof {
            assert(a.ctx_calls@.skip(i as int) =~= Seq::<CtxCall>::empty());
        }
        if seen_collect {
            return no_diagnostics();
        }
        let mut public_query = false;
        let mut j: usize = 0;
        while j < a.functions.len()
            invariant
                j <= a.functions.len(),
                public_query == exists|k: int| 0 <= k < j && (#[trigger] a.functions@[k]).kind == FunctionKind::Query,
            decreases a.functions.len() - j,
        {
            if a.functions[j].kind == FunctionKind::Query {
                public_query = true;
            }
            j = j + 1;
        }
        if public_query && a.collect_calls.len() > 0 {
            let c = &a.collect_calls[0];
            let d = new_diagnostic(
                "perf/no-pagination-for-list",
                Severity::Warning,
                Category::Performance,
                owned("Public query with `.collect()` may return unbounded results to client"),
                NO_PAGINATION_HELP,
                &a.file_path,
                c.line,
                c.col,
            );
            let mut out: Vec<Diagnostic> = Vec::new();
            out.push(d);
            proof {
                assert(models(out@) =~= seq![d@]);
            }
            out
        } else {
            no_diagnostics()
        }
    }

    fn check_project(&self, ctx: &ProjectContext) -> (r: Vec<Diagnostic>) {
        no_diagnostics()
    }
}

/// A paginated function, named, that does not validate `paginationOpts`.
pub open spec fn unvalidated_pagination(validated: Seq<String>) -> spec_fn(CallLocation) -> bool {
    |l: CallLocation| l.detail@.len() > 0 && !string_views(validated).contains(l.detail@)
}

pub const PAGINATION_OPTS_HELP: &'static str = "Add `args: { paginationOpts: paginationOptsValidator, ... }` so clients can pass typed pagination options safely.";

/// The finding for a paginated function.
pub open spec fn pagination_diag(file: Seq<char>) -> spec_fn(CallLocation) -> DiagnosticModel {
    |l: CallLocation|
        diagnostic_model(
            "perf/missing-pagination-opts-validator"@,
            Severity::Warning,
            Category::Performance,
            "Paginated query `"@ + l.detail@ + "` is missing `paginationOptsValidator` in args"@,
            PAGINATION_OPTS_HELP@,
            file,
            l.line,
            l.col,
        )
}

/// Warning, once per function, for each query that calls `.paginate(...)` without validating
/// `paginationOpts` with `paginationOptsValidator`.
pub struct MissingPaginationOptsValidator;

impl Rule for MissingPaginationOptsValidator {
    open spec fn spec_id(&self) -> Seq<char> {
        "perf/missing-pagination-opts-validator"@
    }

    open spec fn spec_category(&self) -> Category {
        Category::Performance
    }

    open spec fn spec_check(&self, a: FileAnalysis) -> Seq<DiagnosticModel> {
        dedup_by(
            select_map(
                a.paginated_functions@,
                unvalidated_pagination(a.pagination_validator_functions@),
                |l: CallLocation| l,
            ),
            |l: CallLocation| l.detail@,
        ).map_values(pagination_diag(a.file_path@))
    }

    open spec fn spec_check_project(&self, ctx: ProjectContext) -> Seq<DiagnosticModel> {
        Seq::empty()
    }

    fn id(&self) -> (r: &'static str) {
        "perf/missing-pagination-opts-validator"
    }

    fn category(&self) -> (r: Category) {
        Category::Performance
    }

    fn check(&self, a: &FileAnalysis) -> (r: Vec<Diagnostic>) {
        let ghost locs = a.paginated_functions@;
        let ghost keep = unvalidated_pagination(a.pagination_validator_functions@);
        let ghost id = |l: CallLocation| l;
        let ghost key = |l: CallLocation| l.detail@;
        let mut kept: Vec<usize> = Vec::new();
        let n = a.paginated_functions.len();
        for i in 0..n
            invariant
                n == a.paginated_functions.len(),
                locs == a.paginated_functions@,
                keep == unvalidated_pagination(a.pagination_validator_functions@),
                id == (|l: CallLocation| l),
                key == (|l: CallLocation| l.detail@),
                forall|j: int| 0 <= j < kept.len() ==> #[trigger] kept@[j] < i,
                kept@.map_values(|j: usize| locs[j as int]) == dedup_by(select_map(locs.take(i as int), keep, id), key),
        {
            let ghost sel = select_map(locs.take(i as int), keep, id);
            proof {
                lemma_select_map_step(locs, i as int, keep, id);
            }
            let l = &a.paginated_functions[i];
            if !l.detail.as_str().is_empty() && !contains_string(&a.pagination_validator_functions, l.detail.as_str()) {
                let ghost kv = kept@.map_values(|j: usize| locs[j as int]);
                let mut seen = false;
                let mut t: usize = 0;
                while t < kept.len()
                    invariant
                        t <= kept.len(),
                        i < n,
                        n == a.paginated_functions.len(),
                        locs == a.paginated_functions@,
                        key == (|l: CallLocation| l.detail@),
                        kv == kept@.map_values(|j: usize| locs[j as int]),
                        forall|j: int| 0 <= j < kept.len() ==> #[trigger] kept@[j] < i,
                        seen == exists|u: int| 0 <= u < t && key(#[trigger] kv[u]) == key(*l),
                    decreases kept.len() - t,
                {
                    let same = str_eq(a.paginated_functions[kept[t]].detail.as_str(), l.detail.as_str());
                    proof {
                        assert(kv[t as int] == locs[kept@[t as int] as int]);
                    }
                    if same {
                        seen = true;
                    }
                    t = t + 1;
                }
                proof {
                    assert(sel.push(*l).drop_last() =~= sel);
                    if seen {
                        let u = choose|u: int| 0 <= u < kept.len() && key(#[trigger] kv[u]) == key(*l);
                        assert(kv.map_values(key)[u] == key(*l));
                    } else {
                        assert(!kv.map_values(key).contains(key(*l))) by {
                            if kv.map_values(key).contains(key(*l)) {
                                let u = choose|u: int| 0 <= u < kv.len() && kv.map_values(key)[u] == key(*l);
                                assert(key(kv[u]) == key(*l));
                            }
                        }
                    }
                }
                if !seen {
                    kept.push(i);
                    proof {
                        assert(kept@.map_values(|j: usize| locs[j as int]) =~= kv.push(*l));
                    }
                }
            }
        }
        proof {
            assert(locs.take(n as int) =~= locs);
        }
        let ghost kv = kept@.map_values(|j: usize| locs[j as int]);
        let mut out: Vec<Diagnostic> = Vec::new();
        let m = kept.len();
        for k in 0..m
            invariant
                m == kept.len(),
                n == a.paginated_functions.len(),
                locs == a.paginated_functions@,
                forall|j: int| 0 <= j < kept.len() ==> #[trigger] kept@[j] < n,
                kv == kept@.map_values(|j: usize| locs[j as int]),
                models(out@) == kv.take(k as int).map_values(pagination_diag(a.file_path@)),
        {
            let l = &a.paginated_functions[kept[k]];
            let mut msg = owned("Paginated query `");
            push_str(&mut msg, l.detail.as_str());
            push_str(&mut msg, "` is missing `paginationOptsValidator` in args");
            let d = new_diagnostic(
                "perf/missing-pagination-opts-validator",
                Severity::Warning,
                Category::Performance,
                msg,
                PAGINATION_OPTS_HELP,
                &a.file_path,
                l.line,
                l.col,
            );
            proof {
                lemma_models_push(out@, d);
                assert(kv[k as int] == *l);
                assert(kv.take(k + 1).map_values(pagination_diag(a.file_path@)) =~= kv.take(
                    k as int,
                ).map_values(pagination_diag(a.file_path@)).push(d@));
            }
            out.push(d);
        }
        proof {
            assert(kv.take(m as int) =~= kv);
            assert(all_tagged(models(out@), self.spec_id(), self.spec_category()));
        }
        out
    }

    fn check_project(&self, ctx: &ProjectContext) -> (r: Vec<Diagnostic>) {
        no_diagnostics()
    }
}

} // verus!
