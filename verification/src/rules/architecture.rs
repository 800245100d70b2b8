//! Rules about how the backend code is organized.
use vstd::prelude::*;

use crate::diagnostic::{lemma_models_push, models, Category, Diagnostic, DiagnosticModel, Severity};
use crate::rules::{
    all_tagged, diagnostic_model, keep_all, quote, quoted, kind_is_action, kind_is_mutation, kind_is_public,
    kind_is_query, kind_name, lemma_select_map_all, lemma_select_map_filter, lemma_select_map_step, lemma_select_map_tagged, location_diag,
    location_diagnostics, new_diagnostic, no_diagnostics, select_map, CallLocation, ConvexFunction,
    CtxCall, FileAnalysis, FunctionKind, ProjectContext, Rule,
};
use crate::text::{has_prefix, owned, push_str, starts_with};
use crate::rules::{call_key, call_key_string, group_at_least, group_by_key, group_diag, group_diagnostics, groups_of, keyed_model, Keyed};
use crate::text::{contains, decimal, decimal_string, has_infix, lower_seq, to_ascii_lowercase, trim_start_char, trim_start_matches_char};

verus! {

/// A function name lower-cased, without leading underscores.
pub open spec fn crud_normalized(name: Seq<char>) -> Seq<char> {
    trim_start_char(lower_seq(name), '_')
}

/// Words that mark a name as more than simple data access.
pub open spec fn has_non_simple_hint(n: Seq<char>) -> bool {
    ||| has_infix(n, "cache"@)
    ||| has_infix(n, "cached"@)
    ||| has_infix(n, "helper"@)
    ||| has_infix(n, "util"@)
    ||| has_infix(n, "service"@)
    ||| has_infix(n, "sync"@)
    ||| has_infix(n, "backfill"@)
    ||| has_infix(n, "batch"@)
    ||| has_infix(n, "process"@)
}

/// Names that begin with a data-access verb.
pub open spec fn has_crud_prefix(n: Seq<char>) -> bool {
    ||| has_prefix(n, "get"@)
    ||| has_prefix(n, "list"@)
    ||| has_prefix(n, "create"@)
    ||| has_prefix(n, "update"@)
    ||| has_prefix(n, "delete"@)
    ||| has_prefix(n, "remove"@)
    ||| has_prefix(n, "upsert"@)
    ||| has_prefix(n, "insert"@)
    ||| has_prefix(n, "find"@)
    ||| has_prefix(n, "fetch"@)
}

/// A name of simple data access: lower-cased and without leading underscores it is nonempty,
/// begins with a data-access verb and holds none of the non-simple words.
pub open spec fn crud_like(name: Seq<char>) -> bool {
    let n = crud_normalized(name);
    n.len() > 0 && !has_non_simple_hint(n) && has_crud_prefix(n)
}

/// Whether `name` reads as simple data access (`getUser`, `_listItems`), not a helper or a
/// batch job.
pub fn is_crud_like_name(name: &str) -> (b: bool)
    ensures
        b == crud_like(name@),
{
    let lowered = to_ascii_lowercase(name);
    let normalized = trim_start_matches_char(lowered.as_str(), '_');
    let n = normalized.as_str();
    if n.is_empty() {
        return false;
    }
    if contains(n, "cache") || contains(n, "cached") || contains(n, "helper") || contains(n, "util")
        || contains(n, "service") || contains(n, "sync") || contains(n, "backfill") || contains(
        n,
        "batch",
    ) || contains(n, "process") {
        return false;
    }
    starts_with(n, "get") || starts_with(n, "list") || starts_with(n, "create") || starts_with(
        n,
        "update",
    ) || starts_with(n, "delete") || starts_with(n, "remove") || starts_with(n, "upsert")
        || starts_with(n, "insert") || starts_with(n, "find") || starts_with(n, "fetch")
}

/// A name of a chunked batch job: lower-cased it is nonempty and holds one of the batch words.
pub open spec fn chunked_name(name: Seq<char>) -> bool {
    let n = lower_seq(name);
    n.len() > 0 && (has_infix(n, "sync"@) || has_infix(n, "backfill"@) || has_infix(n, "migrate"@)
        || has_infix(n, "reconcile"@) || has_infix(n, "reindex"@) || has_infix(n, "drain"@))
}

/// Whether `name` reads as a chunked batch job (`syncUsers`, `backfillIndex`).
pub fn is_chunked_processing_action(name: &str) -> (b: bool)
    ensures
        b == chunked_name(name@),
{
    let lowered = to_ascii_lowercase(name);
    let n = lowered.as_str();
    if n.is_empty() {
        return false;
    }
    contains(n, "sync") || contains(n, "backfill") || contains(n, "migrate") || contains(
        n,
        "reconcile",
    ) || contains(n, "reindex") || contains(n, "drain")
}

/// The number of functions satisfying `p`.
pub open spec fn count_functions(fs: Seq<ConvexFunction>, p: spec_fn(ConvexFunction) -> bool) -> nat {
    select_map(fs, p, |f: ConvexFunction| f).len()
}

fn count_auth_checked(fs: &Vec<ConvexFunction>) -> (n: usize)
    ensures
        n == count_functions(fs@, |f: ConvexFunction| f.has_auth_check),
{
    let ghost p = |f: ConvexFunction| f.has_auth_check;
    let ghost id = |f: ConvexFunction| f;
    let mut n: usize = 0;
    let len = fs.len();
    for i in 0..len
        invariant
            len == fs.len(),
            p == (|f: ConvexFunction| f.has_auth_check),
            id == (|f: ConvexFunction| f),
            n == select_map(fs@.take(i as int), p, id).len(),
            n <= i,
    {
        proof {
            lemma_select_map_step(fs@, i as int, p, id);
        }
        if fs[i].has_auth_check {
            n = n + 1;
        }
    }
    proof {
        assert(fs@.take(len as int) =~= fs@);
    }
    n
}

fn count_large_handlers(fs: &Vec<ConvexFunction>) -> (n: usize)
    ensures
        n == count_functions(fs@, |f: ConvexFunction| f.handler_line_count > 15),
{
    let ghost p = |f: ConvexFunction| f.handler_line_count > 15;
    let ghost id = |f: ConvexFunction| f;
    let mut n: usize = 0;
    let len = fs.len();
    for i in 0..len
        invariant
            len == fs.len(),
            p == (|f: ConvexFunction| f.handler_line_count > 15),
            id == (|f: ConvexFunction| f),
            n == select_map(fs@.take(i as int), p, id).len(),
            n <= i,
    {
        proof {
            lemma_select_map_step(fs@, i as int, p, id);
        }
        if fs[i].handler_line_count > 15 {
            n = n + 1;
        }
    }
    proof {
        assert(fs@.take(len as int) =~= fs@);
    }
    n
}

/// Some function is public and some function is internal.
pub open spec fn mixes_public_and_internal(fs: Seq<ConvexFunction>) -> bool {
    (exists|i: int| 0 <= i < fs.len() && kind_is_public(#[trigger] fs[i].kind)) && (exists|i: int|
        0 <= i < fs.len() && !kind_is_public(#[trigger] fs[i].kind))
}

fn has_public_and_internal(fs: &Vec<ConvexFunction>) -> (b: bool)
    ensures
        b == mixes_public_and_internal(fs@),
{
    let mut public = false;
    let mut internal = false;
    let mut i: usize = 0;
    while i < fs.len()
        invariant
            i <= fs.len(),
            public == exists|k: int| 0 <= k < i && kind_is_public(#[trigger] fs@[k].kind),
            internal == exists|k: int| 0 <= k < i && !kind_is_public(#[trigger] fs@[k].kind),
        decreases fs.len() - i,
    {
        if fs[i].is_public() {
            public = true;
        } else {
            internal = true;
        }
        i = i + 1;
    }
    public && internal
}

/// Every function has a name of simple data access.
pub open spec fn all_crud_like(fs: Seq<ConvexFunction>) -> bool {
    fs.len() > 0 && forall|i: int| 0 <= i < fs.len() ==> crud_like(#[trigger] fs[i].name@)
}

fn all_handlers_crud(fs: &Vec<ConvexFunction>) -> (b: bool)
    ensures
        b == all_crud_like(fs@),
{
    if fs.len() == 0 {
        return false;
    }
    let mut i: usize = 0;
    while i < fs.len()
        invariant
            i <= fs.len(),
            forall|k: int| 0 <= k < i ==> crud_like(#[trigger] fs@[k].name@),
        decreases fs.len() - i,
    {
        if !is_crud_like_name(fs[i].name.as_str()) {
            return false;
        }
        i = i + 1;
    }
    true
}

fn in_mutation(k: &Option<FunctionKind>) -> (b: bool)
    ensures
        b == match *k {
            Some(k) => kind_is_mutation(k),
            None => false,
        },
{
    match k {
        Some(k) => k.is_mutation(),
        None => false,
    }
}

pub const LARGE_HANDLER_HELP: &'static str = "Extract logic into helper functions. Keep handlers focused on validation, auth, and orchestration.";

/// A handler longer than 50 lines.
pub open spec fn large_handler_keep() -> spec_fn(ConvexFunction) -> bool {
    |c: ConvexFunction| c.handler_line_count > 50
}

/// The finding reported for a selected element.
pub open spec fn large_handler_diag(file: Seq<char>) -> spec_fn(ConvexFunction) -> DiagnosticModel {
    |c: ConvexFunction|
        diagnostic_model(
            "arch/large-handler"@,
            Severity::Warning,
            Category::Architecture,
            "Handler `"@ + c.name@ + "` is "@ + decimal(c.handler_line_count as nat) + " lines long"@,
            LARGE_HANDLER_HELP@,
            file,
            c.span_line,
            c.span_col,
        )
}

/// Warning for each handler longer than 50 lines.
pub struct LargeHandler;

impl Rule for LargeHandler {
    open spec fn spec_id(&self) -> Seq<char> {
        "arch/large-handler"@
    }

    open spec fn spec_category(&self) -> Category {
        Category::Architecture
    }

    open spec fn spec_check(&self, a: FileAnalysis) -> Seq<DiagnosticModel> {
        select_map(a.functions@, large_handler_keep(), large_handler_diag(a.file_path@))
    }

    open spec fn spec_check_project(&self, ctx: ProjectContext) -> Seq<DiagnosticModel> {
        Seq::empty()
    }

    fn id(&self) -> (r: &'static str) {
        "arch/large-handler"
    }

    fn category(&self) -> (r: Category) {
        Category::Architecture
    }

    fn check(&self, a: &FileAnalysis) -> (r: Vec<Diagnostic>) {
        let ghost keep = large_handler_keep();
        let ghost f = large_handler_diag(a.file_path@);
        let mut out: Vec<Diagnostic> = Vec::new();
        let n = a.functions.len();
        for i in 0..n
            invariant
                n == a.functions.len(),
                keep == large_handler_keep(),
                f == large_handler_diag(a.file_path@),
                models(out@) == select_map(a.functions@.take(i as int), keep, f),
        {
            proof {
                lemma_select_map_step(a.functions@, i as int, keep, f);
            }
            let c = &a.functions[i];
            if c.handler_line_count > 50 {
                let mut m = owned("Handler `");
                push_str(&mut m, c.name.as_str());
                push_str(&mut m, "` is ");
                let count = decimal_string(c.handler_line_count as u64);
                push_str(&mut m, count.as_str());
                push_str(&mut m, " lines long");
                let d = new_diagnostic(
                    "arch/large-handler",
                    Severity::Warning,
                    Category::Architecture,
                    m,
                    LARGE_HANDLER_HELP,
                    &a.file_path,
                    c.span_line,
                    c.span_col,
                );
                proof {
                    lemma_models_push(out@, d);
                }
                out.push(d);
            }
        }
        proof {
            assert(a.functions@.take(n as int) =~= a.functions@);
            lemma_select_map_tagged(a.functions@, keep, f, self.spec_id(), self.spec_category());
        }
        out
    }

    fn check_project(&self, ctx: &ProjectContext) -> (r: Vec<Diagnostic>) {
        no_diagnostics()
    }
}

/// Exactly the functions whose handler is over fifty lines long are reported, each once as a
/// warning "Handler `<name>` is <n> lines long" at the registration, in order.
pub proof fn law_large_handlers_reported(a: FileAnalysis)
    ensures
        LargeHandler.spec_check(a) == a.functions@.filter(
            |c: ConvexFunction|
                c.handler_line_count > 50,
        ).map_values(
            |c: ConvexFunction|
                (DiagnosticModel {
                    rule: "arch/large-handler"@,
                    severity: Severity::Warning,
                    category: Category::Architecture,
                    message: "Handler `"@ + c.name@ + "` is "@ + decimal(c.handler_line_count as nat) + " lines long"@,
                    help: LARGE_HANDLER_HELP@,
                    file: a.file_path@,
                    line: c.span_line,
                    column: c.span_col,
                }),
        ),
{
    lemma_select_map_filter(
        a.functions@,
        large_handler_keep(),
        large_handler_diag(a.file_path@),
        |c: ConvexFunction|
            c.handler_line_count > 50,
        |c: ConvexFunction|
            (DiagnosticModel {
                rule: "arch/large-handler"@,
                severity: Severity::Warning,
                category: Category::Architecture,
                message: "Handler `"@ + c.name@ + "` is "@ + decimal(c.handler_line_count as nat) + " lines long"@,
                help: LARGE_HANDLER_HELP@,
                file: a.file_path@,
                line: c.span_line,
                column: c.span_col,
            }),
    );
}

pub const MONOLITHIC_HELP: &'static str = "Split into smaller files organized by feature.";

/// Warning when a file exports more than 10 functions.
pub struct MonolithicFile;

impl Rule for MonolithicFile {
    open spec fn spec_id(&self) -> Seq<char> {
        "arch/monolithic-file"@
    }

    open spec fn spec_category(&self) -> Category {
        Category::Architecture
    }

    open spec fn spec_check(&self, a: FileAnalysis) -> Seq<DiagnosticModel> {
        if a.exported_function_count > 10 {
            seq![diagnostic_model(
                "arch/monolithic-file"@,
                Severity::Warning,
                Category::Architecture,
                "File has "@ + decimal(a.exported_function_count as nat) + " exported functions"@,
                MONOLITHIC_HELP@,
                a.file_path@,
                1,
                1,
            )]
        } else {
            Seq::empty()
        }
    }

    open spec fn spec_check_project(&self, ctx: ProjectContext) -> Seq<DiagnosticModel> {
        Seq::empty()
    }

    fn id(&self) -> (r: &'static str) {
        "arch/monolithic-file"
    }

    fn category(&self) -> (r: Category) {
        Category::Architecture
    }

    fn check(&self, a: &FileAnalysis) -> (r: Vec<Diagnostic>) {
        if a.exported_function_count > 10 {
            let mut m = owned("File has ");
            let count = decimal_string(a.exported_function_count as u64);
            push_str(&mut m, count.as_str());
            push_str(&mut m, " exported functions");
            let file = a.file_path.clone();
            let d = new_diagnostic(
                "arch/monolithic-file",
                Severity::Warning,
                Category::Architecture,
                m,
                MONOLITHIC_HELP,
                &file,
                1,
                1,
            );
            let mut out: Vec<Diagnostic> = Vec::new();
            out.push(d);
            proof {
                assert(models(out@) =~= seq![d@]);
            }
            out
        } else {
            no_diagnostics()
        }
    }

    fn check_project(&self, ctx: &ProjectContext) -> (r: Vec<Diagnostic>) {
        no_diagnostics()
    }
}

/// A file with more than ten exported functions gets one warning at its first line, "File has
/// <n> exported functions"; a file with ten or fewer gets none.
pub proof fn law_monolithic_file_reported(a: FileAnalysis)
    ensures
        a.exported_function_count > 10 ==> MonolithicFile.spec_check(a) == seq![
            (DiagnosticModel {
                rule: "arch/monolithic-file"@,
                severity: Severity::Warning,
                category: Category::Architecture,
                message: "File has "@ + decimal(a.exported_function_count as nat) + " exported functions"@,
                help: MONOLITHIC_HELP@,
                file: a.file_path@,
                line: 1,
                column: 1,
            }),
        ],
        a.exported_function_count <= 10 ==> MonolithicFile.spec_check(a) == Seq::<DiagnosticModel>::empty(),
{
}

pub const DUPLICATED_AUTH_HELP: &'static str = "Extract authentication logic into a shared helper function to avoid copy-pasting the same auth pattern.";

/// Warning when three or more functions of a file check authentication inline.
pub struct DuplicatedAuth;

impl Rule for DuplicatedAuth {
    open spec fn spec_id(&self) -> Seq<char> {
        "arch/duplicated-auth"@
    }

    open spec fn spec_category(&self) -> Category {
        Category::Architecture
    }

    open spec fn spec_check(&self, a: FileAnalysis) -> Seq<DiagnosticModel> {
        if count_functions(a.functions@, |f: ConvexFunction| f.has_auth_check) >= 3 {
            seq![diagnostic_model(
                "arch/duplicated-auth"@,
                Severity::Warning,
                Category::Architecture,
                decimal(count_functions(a.functions@, |f: ConvexFunction| f.has_auth_check)) + " functions contain inline auth checks"@,
                DUPLICATED_AUTH_HELP@,
                a.file_path@,
                1,
                1,
            )]
        } else {
            Seq::empty()
        }
    }

    open spec fn spec_check_project(&self, ctx: ProjectContext) -> Seq<DiagnosticModel> {
        Seq::empty()
    }

    fn id(&self) -> (r: &'static str) {
        "arch/duplicated-auth"
    }

    fn category(&self) -> (r: Category) {
        Category::Architecture
    }

    fn check(&self, a: &FileAnalysis) -> (r: Vec<Diagnostic>) {
        let auth_count = count_auth_checked(&a.functions);
        if auth_count >= 3 {
            let mut m = decimal_string(auth_count as u64);
            push_str(&mut m, " functions contain inline auth checks");
            let file = a.file_path.clone();
            let d = new_diagnostic(
                "arch/duplicated-auth",
                Severity::Warning,
                Category::Architecture,
                m,
                DUPLICATED_AUTH_HELP,
                &file,
                1,
                1,
            );
            let mut out: Vec<Diagnostic> = Vec::new();
            out.push(d);
            proof {
                assert(models(out@) =~= seq![d@]);
            }
            out
        } else {
            no_diagnostics()
        }
    }

    fn check_project(&self, ctx: &ProjectContext) -> (r: Vec<Diagnostic>) {
        no_diagnostics()
    }
}

pub const ACTION_SCHEDULING_HELP: &'static str = "If the action fails, mutation writes are still committed. Consider `ctx.scheduler.runAfter(0, ...)` to decouple the action.";

/// `ctx.runAction` called directly from a mutation.
pub open spec fn action_without_scheduling_keep() -> spec_fn(CtxCall) -> bool {
    |c: CtxCall| has_prefix(c.chain@, "ctx.runAction"@) && match c.enclosing_function_kind { Some(k) => kind_is_mutation(k), None => false }
}

/// The finding reported for a selected element.
pub open spec fn action_without_scheduling_diag(file: Seq<char>) -> spec_fn(CtxCall) -> DiagnosticModel {
    |c: CtxCall|
        diagnostic_model(
            "arch/action-without-scheduling"@,
            Severity::Info,
            Category::Architecture,
            "`ctx.runAction` called directly from mutation `"@ + c.chain@ + "`"@,
            ACTION_SCHEDULING_HELP@,
            file,
            c.line,
            c.col,
        )
}

/// Info for each `ctx.runAction` called directly from a mutation.
pub struct ActionWithoutScheduling;

impl Rule for ActionWithoutScheduling {
    open spec fn spec_id(&self) -> Seq<char> {
        "arch/action-without-scheduling"@
    }

    open spec fn spec_category(&self) -> Category {
        Category::Architecture
    }

    open spec fn spec_check(&self, a: FileAnalysis) -> Seq<DiagnosticModel> {
        select_map(a.ctx_calls@, action_without_scheduling_keep(), action_without_scheduling_diag(a.file_path@))
    }

    open spec fn spec_check_project(&self, ctx: ProjectContext) -> Seq<DiagnosticModel> {
        Seq::empty()
    }

    fn id(&self) -> (r: &'static str) {
        "arch/action-without-scheduling"
    }

    fn category(&self) -> (r: Category) {
        Category::Architecture
    }

    fn check(&self, a: &FileAnalysis) -> (r: Vec<Diagnostic>) {
        let ghost keep = action_without_scheduling_keep();
        let ghost f = action_without_scheduling_diag(a.file_path@);
        let mut out: Vec<Diagnostic> = Vec::new();
        let n = a.ctx_calls.len();
        for i in 0..n
            invariant
                n == a.ctx_calls.len(),
                keep == action_without_scheduling_keep(),
                f == action_without_scheduling_diag(a.file_path@),
                models(out@) == select_map(a.ctx_calls@.take(i as int), keep, f),
        {
            proof {
                lemma_select_map_step(a.ctx_calls@, i as int, keep, f);
            }
            let c = &a.ctx_calls[i];
            if starts_with(c.chain.as_str(), "ctx.runAction") && in_mutation(&c.enclosing_function_kind) {
                let mut m = owned("`ctx.runAction` called directly from mutation `");
                push_str(&mut m, c.chain.as_str());
                push_str(&mut m, "`");
                let d = new_diagnostic(
                    "arch/action-without-scheduling",
                    Severity::Info,
                    Category::Architecture,
                    m,
                    ACTION_SCHEDULING_HELP,
                    &a.file_path,
                    c.line,
                    c.col,
                );
                proof {
                    lemma_models_push(out@, d);
                }
                out.push(d);
            }
        }
        proof {
            assert(a.ctx_calls@.take(n as int) =~= a.ctx_calls@);
            lemma_select_map_tagged(a.ctx_calls@, keep, f, self.spec_id(), self.spec_category());
        }
        out
    }

    fn check_project(&self, ctx: &ProjectContext) -> (r: Vec<Diagnostic>) {
        no_diagnostics()
    }
}

/// Exactly the `ctx.runAction` calls made inside a mutation, internal or not, are reported, each
/// once as information at the call, in order.
pub proof fn law_actions_run_from_mutations_reported(a: FileAnalysis)
    ensures
        ActionWithoutScheduling.spec_check(a) == a.ctx_calls@.filter(
            |c: CtxCall|
                has_prefix(c.chain@, "ctx.runAction"@)
                && (c.enclosing_function_kind == Some(FunctionKind::Mutation)
                    || c.enclosing_function_kind == Some(FunctionKind::InternalMutation)),
        ).map_values(
            |c: CtxCall|
                (DiagnosticModel {
                    rule: "arch/action-without-scheduling"@,
                    severity: Severity::Info,
                    category: Category::Architecture,
                    message: "`ctx.runAction` called directly from mutation `"@ + c.chain@ + "`"@,
                    help: ACTION_SCHEDULING_HELP@,
                    file: a.file_path@,
                    line: c.line,
                    column: c.col,
                }),
        ),
{
    lemma_select_map_filter(
        a.ctx_calls@,
        action_without_scheduling_keep(),
        action_without_scheduling_diag(a.file_path@),
        |c: CtxCall|
            has_prefix(c.chain@, "ctx.runAction"@)
            && (c.enclosing_function_kind == Some(FunctionKind::Mutation)
                || c.enclosing_function_kind == Some(FunctionKind::InternalMutation)),
        |c: CtxCall|
            (DiagnosticModel {
                rule: "arch/action-without-scheduling"@,
                severity: Severity::Info,
                category: Category::Architecture,
                message: "`ctx.runAction` called directly from mutation `"@ + c.chain@ + "`"@,
                help: ACTION_SCHEDULING_HELP@,
                file: a.file_path@,
                line: c.line,
                column: c.col,
            }),
    );
}

pub const CONVEX_ERROR_HELP: &'static str = "Generic errors are redacted to 'Server Error' in production. Use `throw new ConvexError(...)` to send structured error data to clients.";

/// Info for each `throw new Error(...)` in a Convex handler.
pub struct NoConvexError;

impl Rule for NoConvexError {
    open spec fn spec_id(&self) -> Seq<char> {
        "arch/no-convex-error"@
    }

    open spec fn spec_category(&self) -> Category {
        Category::Architecture
    }

    open spec fn spec_check(&self, a: FileAnalysis) -> Seq<DiagnosticModel> {
        select_map(
            a.throw_generic_errors@,
            keep_all(),
            location_diag(
                "arch/no-convex-error"@,
                Severity::Info,
                Category::Architecture,
                "`throw new Error(...)` in Convex handler"@,
                ""@,
                false,
                CONVEX_ERROR_HELP@,
                a.file_path@,
            ),
        )
    }

    open spec fn spec_check_project(&self, ctx: ProjectContext) -> Seq<DiagnosticModel> {
        Seq::empty()
    }

    fn id(&self) -> (r: &'static str) {
        "arch/no-convex-error"
    }

    fn category(&self) -> (r: Category) {
        Category::Architecture
    }

    fn check(&self, a: &FileAnalysis) -> (r: Vec<Diagnostic>) {
        location_diagnostics(
            &a.throw_generic_errors,
            "arch/no-convex-error",
            Severity::Info,
            Category::Architecture,
            "`throw new Error(...)` in Convex handler",
            "",
            false,
            CONVEX_ERROR_HELP,
            &a.file_path,
        )
    }

    fn check_project(&self, ctx: &ProjectContext) -> (r: Vec<Diagnostic>) {
        no_diagnostics()
    }
}

/// Every entry of `throw_generic_errors` is reported, once and in order, as information at its place.
pub proof fn law_no_convex_error_reports_each(a: FileAnalysis)
    ensures
        NoConvexError.spec_check(a) == a.throw_generic_errors@.map_values(
            |c: CallLocation|
                (DiagnosticModel {
                    rule: "arch/no-convex-error"@,
                    severity: Severity::Info,
                    category: Category::Architecture,
                    message: "`throw new Error(...)` in Convex handler"@,
                    help: CONVEX_ERROR_HELP@,
                    file: a.file_path@,
                    line: c.line,
                    column: c.col,
                }),
        ),
{
    lemma_select_map_all(
        a.throw_generic_errors@,
        keep_all(),
        location_diag(
            "arch/no-convex-error"@,
            Severity::Info,
            Category::Architecture,
            "`throw new Error(...)` in Convex handler"@,
            ""@,
            false,
            CONVEX_ERROR_HELP@,
            a.file_path@,
        ),
        |c: CallLocation|
            (DiagnosticModel {
                rule: "arch/no-convex-error"@,
                severity: Severity::Info,
                category: Category::Architecture,
                message: "`throw new Error(...)` in Convex handler"@,
                help: CONVEX_ERROR_HELP@,
                file: a.file_path@,
                line: c.line,
                column: c.col,
            }),
    );
}

pub const MIXED_TYPES_HELP: &'static str = "Mixing public and internal functions in the same file makes security auditing harder. Consider splitting into separate files.";

/// Info when a file defines both public and internal functions.
pub struct MixedFunctionTypes;

impl Rule for MixedFunctionTypes {
    open spec fn spec_id(&self) -> Seq<char> {
        "arch/mixed-function-types"@
    }

    open spec fn spec_category(&self) -> Category {
        Category::Architecture
    }

    open spec fn spec_check(&self, a: FileAnalysis) -> Seq<DiagnosticModel> {
        if mixes_public_and_internal(a.functions@) {
            seq![diagnostic_model(
                "arch/mixed-function-types"@,
                Severity::Info,
                Category::Architecture,
                "File exports both public and internal functions"@,
                MIXED_TYPES_HELP@,
                a.file_path@,
                1,
                1,
            )]
        } else {
            Seq::empty()
        }
    }

    open spec fn spec_check_project(&self, ctx: ProjectContext) -> Seq<DiagnosticModel> {
        Seq::empty()
    }

    fn id(&self) -> (r: &'static str) {
        "arch/mixed-function-types"
    }

    fn category(&self) -> (r: Category) {
        Category::Architecture
    }

    fn check(&self, a: &FileAnalysis) -> (r: Vec<Diagnostic>) {
        if has_public_and_internal(&a.functions) {
            let m = owned("File exports both public and internal functions");
            let file = a.file_path.clone();
            let d = new_diagnostic(
                "arch/mixed-function-types",
                Severity::Info,
                Category::Architecture,
                m,
                MIXED_TYPES_HELP,
                &file,
                1,
                1,
            );
            let mut out: Vec<Diagnostic> = Vec::new();
            out.push(d);
            proof {
                assert(models(out@) =~= seq![d@]);
            }
            out
        } else {
            no_diagnostics()
        }
    }

    fn check_project(&self, ctx: &ProjectContext) -> (r: Vec<Diagnostic>) {
        no_diagnostics()
    }
}

pub const NO_HELPERS_HELP: &'static str = "Extract shared business logic into unexported helper functions to improve readability and testability.";

/// Info when three or more handlers exceed 15 lines, the file has no unexported helpers, and not every handler is plain data access.
pub struct NoHelperFunctions;

impl Rule for NoHelperFunctions {
    open spec fn spec_id(&self) -> Seq<char> {
        "arch/no-helper-functions"@
    }

    open spec fn spec_category(&self) -> Category {
        Category::Architecture
    }

    open spec fn spec_check(&self, a: FileAnalysis) -> Seq<DiagnosticModel> {
        if count_functions(a.functions@, |f: ConvexFunction| f.handler_line_count > 15) >= 3 && a.unexported_function_count == 0 && !all_crud_like(a.functions@) {
            seq![diagnostic_model(
                "arch/no-helper-functions"@,
                Severity::Info,
                Category::Architecture,
                decimal(count_functions(a.functions@, |f: ConvexFunction| f.handler_line_count > 15)) + " handlers with >15 lines and no helper functions"@,
                NO_HELPERS_HELP@,
                a.file_path@,
                1,
                1,
            )]
        } else {
            Seq::empty()
        }
    }

    open spec fn spec_check_project(&self, ctx: ProjectContext) -> Seq<DiagnosticModel> {
        Seq::empty()
    }

    fn id(&self) -> (r: &'static str) {
        "arch/no-helper-functions"
    }

    fn category(&self) -> (r: Category) {
        Category::Architecture
    }

    fn check(&self, a: &FileAnalysis) -> (r: Vec<Diagnostic>) {
        let large = count_large_handlers(&a.functions);
        if large >= 3 && a.unexported_function_count == 0 && !all_handlers_crud(&a.functions) {
            let mut m = decimal_string(large as u64);
            push_str(&mut m, " handlers with >15 lines and no helper functions");
            let file = a.file_path.clone();
            let d = new_diagnostic(
                "arch/no-helper-functions",
                Severity::Info,
                Category::Architecture,
                m,
                NO_HELPERS_HELP,
                &file,
                1,
                1,
            );
            let mut out: Vec<Diagnostic> = Vec::new();
            out.push(d);
            proof {
                assert(models(out@) =~= seq![d@]);
            }
            out
        } else {
            no_diagnostics()
        }
    }

    fn check_project(&self, ctx: &ProjectContext) -> (r: Vec<Diagnostic>) {
        no_diagnostics()
    }
}

/// The enclosing function's name marks a chunked batch job.
pub open spec fn in_chunked_function(name: Option<String>) -> bool {
    match name {
        Some(n) => chunked_name(n@),
        None => false,
    }
}

fn is_in_chunked_function(name: &Option<String>) -> (b: bool)
    ensures
        b == in_chunked_function(*name),
{
    match name {
        Some(n) => is_chunked_processing_action(n.as_str()),
        None => false,
    }
}

/// A `ctx.runQuery`/`ctx.runMutation` call in an action that is neither guarded by an internal
/// secret nor a chunked batch job.
pub open spec fn chain_keep() -> spec_fn(CtxCall) -> bool {
    |c: CtxCall|
        (match c.enclosing_function_kind {
            Some(k) => kind_is_action(k),
            None => false,
        }) && !c.enclosing_function_has_internal_secret && !in_chunked_function(c.enclosing_function_name)
            && (has_prefix(c.chain@, "ctx.runQuery"@) || has_prefix(c.chain@, "ctx.runMutation"@))
}

/// A call as a keyed occurrence of its enclosing function.
pub open spec fn chain_occurrence() -> spec_fn(CtxCall) -> (Seq<char>, u32, u32) {
    |c: CtxCall| (call_key(c), c.line, c.col)
}

pub const DEEP_CHAIN_HELP: &'static str = "Each `ctx.runQuery`/`ctx.runMutation` is a separate transaction. Consider batching related operations into fewer mutations.";

/// Warning for each action (secret-guarded and batch-job actions aside) with four or more
/// `ctx.runQuery`/`ctx.runMutation` calls, at its first such call.
pub struct DeepFunctionChain;

impl Rule for DeepFunctionChain {
    open spec fn spec_id(&self) -> Seq<char> {
        "arch/deep-function-chain"@
    }

    open spec fn spec_category(&self) -> Category {
        Category::Architecture
    }

    open spec fn spec_check(&self, a: FileAnalysis) -> Seq<DiagnosticModel> {
        select_map(
            groups_of(select_map(a.ctx_calls@, chain_keep(), chain_occurrence())),
            group_at_least(4),
            group_diag(
                "arch/deep-function-chain"@,
                Severity::Warning,
                Category::Architecture,
                "Action `"@,
                "` has "@,
                " ctx.run* calls — deep function chain"@,
                DEEP_CHAIN_HELP@,
                a.file_path@,
            ),
        )
    }

    open spec fn spec_check_project(&self, ctx: ProjectContext) -> Seq<DiagnosticModel> {
        Seq::empty()
    }

    fn id(&self) -> (r: &'static str) {
        "arch/deep-function-chain"
    }

    fn category(&self) -> (r: Category) {
        Category::Architecture
    }

    fn check(&self, a: &FileAnalysis) -> (r: Vec<Diagnostic>) {
        let ghost keep = chain_keep();
        let ghost f = chain_occurrence();
        let mut items: Vec<Keyed> = Vec::new();
        let n = a.ctx_calls.len();
        for i in 0..n
            invariant
                n == a.ctx_calls.len(),
                keep == chain_keep(),
                f == chain_occurrence(),
                items@.map_values(|k: Keyed| keyed_model(k)) == select_map(a.ctx_calls@.take(i as int), keep, f),
        {
            proof {
                lemma_select_map_step(a.ctx_calls@, i as int, keep, f);
            }
            let c = &a.ctx_calls[i];
            let is_action = match &c.enclosing_function_kind {
                Some(k) => k.is_action(),
                None => false,
            };
            if is_action && !c.enclosing_function_has_internal_secret && !is_in_chunked_function(&c.enclosing_function_name)
                && (starts_with(c.chain.as_str(), "ctx.runQuery") || starts_with(c.chain.as_str(), "ctx.runMutation")) {
                let k = Keyed { key: call_key_string(c), line: c.line, col: c.col };
                proof {
                    assert(items@.push(k).map_values(|k: Keyed| keyed_model(k)) =~= items@.map_values(
                        |k: Keyed| keyed_model(k),
                    ).push(keyed_model(k)));
                }
                items.push(k);
            }
        }
        proof {
            assert(a.ctx_calls@.take(n as int) =~= a.ctx_calls@);
        }
        let groups = group_by_key(&items);
        group_diagnostics(
            &groups,
            4,
            "arch/deep-function-chain",
            Severity::Warning,
            Category::Architecture,
            "Action `",
            "` has ",
            " ctx.run* calls — deep function chain",
            DEEP_CHAIN_HELP,
            &a.file_path,
        )
    }

    fn check_project(&self, ctx: &ProjectContext) -> (r: Vec<Diagnostic>) {
        no_diagnostics()
    }
}

} // verus!
