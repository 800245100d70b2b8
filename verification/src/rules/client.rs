//! Rules about client-side use of the Convex React hooks.
use vstd::prelude::*;

use crate::diagnostic::{lemma_models_push, models, Category, Diagnostic, DiagnosticModel, Severity};
use crate::rules::{
    all_tagged, diagnostic_model, keep_all, quote, quoted, kind_is_action, kind_is_mutation, kind_is_public,
    kind_is_query, kind_name, lemma_select_map_filter, lemma_select_map_step, lemma_select_map_tagged, location_diag,
    location_diagnostics, new_diagnostic, no_diagnostics, select_map, CallLocation, ConvexFunction,
    CtxCall, FileAnalysis, FunctionKind, ProjectContext, Rule,
};
use crate::text::{has_prefix, owned, push_str, starts_with};
use crate::rules::{first_match, ConvexHookCall};
use crate::text::str_eq;

verus! {

pub const MUTATION_IN_RENDER_HELP: &'static str = "Invoking mutations during render causes infinite write loops. Call the mutate function inside event handlers or useEffect.";

/// A `useMutation(...)` whose result is invoked right away, during render.
pub open spec fn mutation_in_render_keep() -> spec_fn(ConvexHookCall) -> bool {
    |c: ConvexHookCall| c.hook_name@ == "useMutation"@ && c.in_render_body
}

/// The finding reported for a selected element.
pub open spec fn mutation_in_render_diag(file: Seq<char>) -> spec_fn(ConvexHookCall) -> DiagnosticModel {
    |c: ConvexHookCall|
        diagnostic_model(
            "client/mutation-in-render"@,
            Severity::Error,
            Category::ClientSide,
            "`useMutation(...)` result is invoked during render"@,
            MUTATION_IN_RENDER_HELP@,
            file,
            c.line,
            c.col,
        )
}

/// Error for each `useMutation` result invoked during render.
pub struct MutationInRender;

impl Rule for MutationInRender {
    open spec fn spec_id(&self) -> Seq<char> {
        "client/mutation-in-render"@
    }

    open spec fn spec_category(&self) -> Category {
        Category::ClientSide
    }

    open spec fn spec_check(&self, a: FileAnalysis) -> Seq<DiagnosticModel> {
        select_map(a.convex_hook_calls@, mutation_in_render_keep(), mutation_in_render_diag(a.file_path@))
    }

    open spec fn spec_check_project(&self, ctx: ProjectContext) -> Seq<DiagnosticModel> {
        Seq::empty()
    }

    fn id(&self) -> (r: &'static str) {
        "client/mutation-in-render"
    }

    fn category(&self) -> (r: Category) {
        Category::ClientSide
    }

    fn check(&self, a: &FileAnalysis) -> (r: Vec<Diagnostic>) {
        let ghost keep = mutation_in_render_keep();
        let ghost f = mutation_in_render_diag(a.file_path@);
        let mut out: Vec<Diagnostic> = Vec::new();
        let n = a.convex_hook_calls.len();
        for i in 0..n
            invariant
                n == a.convex_hook_calls.len(),
                keep == mutation_in_render_keep(),
                f == mutation_in_render_diag(a.file_path@),
                models(out@) == select_map(a.convex_hook_calls@.take(i as int), keep, f),
        {
            proof {
                lemma_select_map_step(a.convex_hook_calls@, i as int, keep, f);
            }
            let c = &a.convex_hook_calls[i];
            if str_eq(c.hook_name.as_str(), "useMutation") && c.in_render_body {
                let m = owned("`useMutation(...)` result is invoked during render");
                let d = new_diagnostic(
                    "client/mutation-in-render",
                    Severity::Error,
                    Category::ClientSide,
                    m,
                    MUTATION_IN_RENDER_HELP,
                    &a.file_path,
                    c.line,
                    c.col,
                );
                proof {
                    lemma_models_push(out@, d);
                }
                out.push(d);
            }
        }
        proof {
            assert(a.convex_hook_calls@.take(n as int) =~= a.convex_hook_calls@);
            lemma_select_map_tagged(a.convex_hook_calls@, keep, f, self.spec_id(), self.spec_category());
        }
        out
    }

    fn check_project(&self, ctx: &ProjectContext) -> (r: Vec<Diagnostic>) {
        no_diagnostics()
    }
}

/// Exactly the `useMutation` results invoked in the render body are reported, each once as an
/// error at the call, in order.
pub proof fn law_mutations_in_render_reported(a: FileAnalysis)
    ensures
        MutationInRender.spec_check(a) == a.convex_hook_calls@.filter(
            |c: ConvexHookCall|
                c.hook_name@ == "useMutation"@
                && c.in_render_body,
        ).map_values(
            |c: ConvexHookCall|
                (DiagnosticModel {
                    rule: "client/mutation-in-render"@,
                    severity: Severity::Error,
                    category: Category::ClientSide,
                    message: "`useMutation(...)` result is invoked during render"@,
                    help: MUTATION_IN_RENDER_HELP@,
                    file: a.file_path@,
                    line: c.line,
                    column: c.col,
                }),
        ),
{
    lemma_select_map_filter(
        a.convex_hook_calls@,
        mutation_in_render_keep(),
        mutation_in_render_diag(a.file_path@),
        |c: ConvexHookCall|
            c.hook_name@ == "useMutation"@
            && c.in_render_body,
        |c: ConvexHookCall|
            (DiagnosticModel {
                rule: "client/mutation-in-render"@,
                severity: Severity::Error,
                category: Category::ClientSide,
                message: "`useMutation(...)` result is invoked during render"@,
                help: MUTATION_IN_RENDER_HELP@,
                file: a.file_path@,
                line: c.line,
                column: c.col,
            }),
    );
}

/// A `useQuery` call.
pub open spec fn is_use_query() -> spec_fn(ConvexHookCall) -> bool {
    |h: ConvexHookCall| h.hook_name@ == "useQuery"@
}

pub const LOADING_HELP: &'static str = "The first render returns `undefined`. Always check `if (data === undefined) return <Loading />` before using query results.";

/// Warning, at most once per file at its first `useQuery`, that the result may be undefined.
pub struct UnhandledLoadingState;

impl Rule for UnhandledLoadingState {
    open spec fn spec_id(&self) -> Seq<char> {
        "client/unhandled-loading-state"@
    }

    open spec fn spec_category(&self) -> Category {
        Category::ClientSide
    }

    open spec fn spec_check(&self, a: FileAnalysis) -> Seq<DiagnosticModel> {
        match first_match(a.convex_hook_calls@, is_use_query()) {
            Some(h) => seq![
                diagnostic_model(
                    "client/unhandled-loading-state"@,
                    Severity::Warning,
                    Category::ClientSide,
                    "`useQuery` result may be undefined while loading"@,
                    LOADING_HELP@,
                    a.file_path@,
                    h.line,
                    h.col,
                ),
            ],
            None => Seq::empty(),
        }
    }

    open spec fn spec_check_project(&self, ctx: ProjectContext) -> Seq<DiagnosticModel> {
        Seq::empty()
    }

    fn id(&self) -> (r: &'static str) {
        "client/unhandled-loading-state"
    }

    fn category(&self) -> (r: Category) {
        Category::ClientSide
    }

    fn check(&self, a: &FileAnalysis) -> (r: Vec<Diagnostic>) {
        let ghost keep = is_use_query();
        let mut i: usize = 0;
        assert(a.convex_hook_calls@.skip(0) =~= a.convex_hook_calls@);
        while i < a.convex_hook_calls.len()
            invariant
                i <= a.convex_hook_calls.len(),
                keep == is_use_query(),
                first_match(a.convex_hook_calls@, keep) == first_match(a.convex_hook_calls@.skip(i as int), keep),
            decreases a.convex_hook_calls.len() - i,
        {
            let h = &a.convex_hook_calls[i];
            if str_eq(h.hook_name.as_str(), "useQuery") {
                let d = new_diagnostic(
                    "client/unhandled-loading-state",
                    Severity::Warning,
                    Category::ClientSide,
                    owned("`useQuery` result may be undefined while loading"),
                    LOADING_HELP,
                    &a.file_path,
                    h.line,
                    h.col,
                );
                let mut out: Vec<Diagnostic> = Vec::new();
                out.push(d);
                proof {
                    assert(models(out@) =~= seq![d@]);
                }
                return out;
            }
            proof {
                assert(a.convex_hook_calls@.skip(i as int).drop_first() =~= a.convex_hook_calls@.skip(i + 1));
            }
            i = i + 1;
        }
        no_diagnostics()
    }

    fn check_project(&self, ctx: &ProjectContext) -> (r: Vec<Diagnostic>) {
        no_diagnostics()
    }
}

pub const USE_ACTION_HELP: &'static str = "Actions don't have transactional guarantees. If you're only reading/writing the database, `useMutation` is simpler and more reliable.";

/// A `useAction` call.
pub open spec fn action_instead_of_mutation_keep() -> spec_fn(ConvexHookCall) -> bool {
    |c: ConvexHookCall| c.hook_name@ == "useAction"@
}

/// The finding reported for a selected element.
pub open spec fn action_instead_of_mutation_diag(file: Seq<char>) -> spec_fn(ConvexHookCall) -> DiagnosticModel {
    |c: ConvexHookCall|
        diagnostic_model(
            "client/action-instead-of-mutation"@,
            Severity::Info,
            Category::ClientSide,
            "`useAction` used — consider if `useMutation` would suffice"@,
            USE_ACTION_HELP@,
            file,
            c.line,
            c.col,
        )
}

/// Info for each `useAction` call.
pub struct ActionInsteadOfMutation;

impl Rule for ActionInsteadOfMutation {
    open spec fn spec_id(&self) -> Seq<char> {
        "client/action-instead-of-mutation"@
    }

    open spec fn spec_category(&self) -> Category {
        Category::ClientSide
    }

    open spec fn spec_check(&self, a: FileAnalysis) -> Seq<DiagnosticModel> {
        select_map(a.convex_hook_calls@, action_instead_of_mutation_keep(), action_instead_of_mutation_diag(a.file_path@))
    }

    open spec fn spec_check_project(&self, ctx: ProjectContext) -> Seq<DiagnosticModel> {
        Seq::empty()
    }

    fn id(&self) -> (r: &'static str) {
        "client/action-instead-of-mutation"
    }

    fn category(&self) -> (r: Category) {
        Category::ClientSide
    }

    fn check(&self, a: &FileAnalysis) -> (r: Vec<Diagnostic>) {
        let ghost keep = action_instead_of_mutation_keep();
        let ghost f = action_instead_of_mutation_diag(a.file_path@);
        let mut out: Vec<Diagnostic> = Vec::new();
        let n = a.convex_hook_calls.len();
        for i in 0..n
            invariant
                n == a.convex_hook_calls.len(),
                keep == action_instead_of_mutation_keep(),
                f == action_instead_of_mutation_diag(a.file_path@),
                models(out@) == select_map(a.convex_hook_calls@.take(i as int), keep, f),
        {
            proof {
                lemma_select_map_step(a.convex_hook_calls@, i as int, keep, f);
            }
            let c = &a.convex_hook_calls[i];
            if str_eq(c.hook_name.as_str(), "useAction") {
                let m = owned("`useAction` used — consider if `useMutation` would suffice");
                let d = new_diagnostic(
                    "client/action-instead-of-mutation",
                    Severity::Info,
                    Category::ClientSide,
                    m,
                    USE_ACTION_HELP,
                    &a.file_path,
                    c.line,
                    c.col,
                );
                proof {
                    lemma_models_push(out@, d);
                }
                out.push(d);
            }
        }
        proof {
            assert(a.convex_hook_calls@.take(n as int) =~= a.convex_hook_calls@);
            lemma_select_map_tagged(a.convex_hook_calls@, keep, f, self.spec_id(), self.spec_category());
        }
        out
    }

    fn check_project(&self, ctx: &ProjectContext) -> (r: Vec<Diagnostic>) {
        no_diagnostics()
    }
}

/// Exactly the `useAction` hook calls are reported, each once as information at the call, in
/// order.
pub proof fn law_use_action_reported(a: FileAnalysis)
    ensures
        ActionInsteadOfMutation.spec_check(a) == a.convex_hook_calls@.filter(
            |c: ConvexHookCall|
                c.hook_name@ == "useAction"@,
        ).map_values(
            |c: ConvexHookCall|
                (DiagnosticModel {
                    rule: "client/action-instead-of-mutation"@,
                    severity: Severity::Info,
                    category: Category::ClientSide,
                    message: "`useAction` used — consider if `useMutation` would suffice"@,
                    help: USE_ACTION_HELP@,
                    file: a.file_path@,
                    line: c.line,
                    column: c.col,
                }),
        ),
{
    lemma_select_map_filter(
        a.convex_hook_calls@,
        action_instead_of_mutation_keep(),
        action_instead_of_mutation_diag(a.file_path@),
        |c: ConvexHookCall|
            c.hook_name@ == "useAction"@,
        |c: ConvexHookCall|
            (DiagnosticModel {
                rule: "client/action-instead-of-mutation"@,
                severity: Severity::Info,
                category: Category::ClientSide,
                message: "`useAction` used — consider if `useMutation` would suffice"@,
                help: USE_ACTION_HELP@,
                file: a.file_path@,
                line: c.line,
                column: c.col,
            }),
    );
}

pub const PROVIDER_HELP: &'static str = "Convex hooks require a ConvexProvider ancestor. Typically set up in your root layout.";

/// Info, once per file at the first hook call, when Convex hooks are used without a provider import.
pub struct MissingConvexProvider;

impl Rule for MissingConvexProvider {
    open spec fn spec_id(&self) -> Seq<char> {
        "client/missing-convex-provider"@
    }

    open spec fn spec_category(&self) -> Category {
        Category::ClientSide
    }

    open spec fn spec_check(&self, a: FileAnalysis) -> Seq<DiagnosticModel> {
        if a.convex_hook_calls@.len() > 0 && !a.has_convex_provider {
            seq![diagnostic_model(
                "client/missing-convex-provider"@,
                Severity::Info,
                Category::ClientSide,
                "Convex hooks used — ensure ConvexProvider wraps the component tree"@,
                PROVIDER_HELP@,
                a.file_path@,
                a.convex_hook_calls@[0].line,
                a.convex_hook_calls@[0].col,
            )]
        } else {
            Seq::empty()
        }
    }

    open spec fn spec_check_project(&self, ctx: ProjectContext) -> Seq<DiagnosticModel> {
        Seq::empty()
    }

    fn id(&self) -> (r: &'static str) {
        "client/missing-convex-provider"
    }

    fn category(&self) -> (r: Category) {
        Category::ClientSide
    }

    fn check(&self, a: &FileAnalysis) -> (r: Vec<Diagnostic>) {
        if a.convex_hook_calls.len() > 0 && !a.has_convex_provider {
            let m = owned("Convex hooks used — ensure ConvexProvider wraps the component tree");
            let file = a.file_path.clone();
            let d = new_diagnostic(
                "client/missing-convex-provider",
                Severity::Info,
                Category::ClientSide,
                m,
                PROVIDER_HELP,
                &file,
                a.convex_hook_calls[0].line,
                a.convex_hook_calls[0].col,
            );
            let mut out: Vec<Diagnostic> = Vec::new();
            out.push(d);
            proof {
                assert(models(out@) =~= seq![d@]);
            }
            out
        } else {
            no_diagnostics()
        }
    }

    fn check_project(&self, ctx: &ProjectContext) -> (r: Vec<Diagnostic>) {
        no_diagnostics()
    }
}

} // verus!
