//! Rules about access control, validation and secrets.
use vstd::prelude::*;

use crate::diagnostic::{lemma_models_push, models, Category, Diagnostic, DiagnosticModel, Severity};
use crate::rules::{
    all_tagged, diagnostic_model, keep_all, quote, quoted, kind_is_action, kind_is_mutation, kind_is_public,
    kind_is_query, kind_name, lemma_empty_text_neutral, lemma_select_map_all, lemma_select_map_filter, lemma_select_map_step, lemma_select_map_tagged, location_diag,
    location_diagnostics, new_diagnostic, no_diagnostics, select_map, CallLocation, ConvexFunction,
    CtxCall, FileAnalysis, FunctionKind, ProjectContext, Rule,
};
use crate::text::{has_prefix, owned, push_str, starts_with};
use crate::rules::HttpRoute;
use crate::text::{chars_of, contains_string, eq_ignore_ascii_case, eq_ignore_case, join, join_strings, lemma_string_views_push, matches_at, seq_lt, slice_matches_at, str_eq, str_lt, string_views};

verus! {

/// The function is reachable by clients without any sign of an access check.
pub open spec fn unguarded_public(f: ConvexFunction) -> bool {
    kind_is_public(f.kind) && !f.has_auth_check && !f.has_internal_secret && !f.is_intentionally_public
}

pub const MISSING_ARGS_HELP: &'static str = "Add `args: { ... }` with validators for all parameters. Convex guidance requires validators for query/mutation/action and internal variants.";

/// A function other than an HTTP action without an `args` validator.
pub open spec fn missing_arg_validators_keep() -> spec_fn(ConvexFunction) -> bool {
    |c: ConvexFunction| c.kind != FunctionKind::HttpAction && !c.has_args_validator
}

/// The finding reported for a selected element.
pub open spec fn missing_arg_validators_diag(file: Seq<char>) -> spec_fn(ConvexFunction) -> DiagnosticModel {
    |c: ConvexFunction|
        diagnostic_model(
            "security/missing-arg-validators"@,
            Severity::Error,
            Category::Security,
            kind_name(c.kind) + " `"@ + c.name@ + "` has no argument validators"@,
            MISSING_ARGS_HELP@,
            file,
            c.span_line,
            c.span_col,
        )
}

/// Error for each function (HTTP actions aside) without argument validators.
pub struct MissingArgValidators;

impl Rule for MissingArgValidators {
    open spec fn spec_id(&self) -> Seq<char> {
        "security/missing-arg-validators"@
    }

    open spec fn spec_category(&self) -> Category {
        Category::Security
    }

    open spec fn spec_check(&self, a: FileAnalysis) -> Seq<DiagnosticModel> {
        select_map(a.functions@, missing_arg_validators_keep(), missing_arg_validators_diag(a.file_path@))
    }

    open spec fn spec_check_project(&self, ctx: ProjectContext) -> Seq<DiagnosticModel> {
        Seq::empty()
    }

    fn id(&self) -> (r: &'static str) {
        "security/missing-arg-validators"
    }

    fn category(&self) -> (r: Category) {
        Category::Security
    }

    fn check(&self, a: &FileAnalysis) -> (r: Vec<Diagnostic>) {
        let ghost keep = missing_arg_validators_keep();
        let ghost f = missing_arg_validators_diag(a.file_path@);
        let mut out: Vec<Diagnostic> = Vec::new();
        let n = a.functions.len();
        for i in 0..n
            invariant
                n == a.functions.len(),
                keep == missing_arg_validators_keep(),
                f == missing_arg_validators_diag(a.file_path@),
                models(out@) == select_map(a.functions@.take(i as int), keep, f),
        {
            proof {
                lemma_select_map_step(a.functions@, i as int, keep, f);
            }
            let c = &a.functions[i];
            if c.kind != FunctionKind::HttpAction && !c.has_args_validator {
                let mut m = owned(c.kind_str());
                push_str(&mut m, " `");
                push_str(&mut m, c.name.as_str());
                push_str(&mut m, "` has no argument validators");
                let d = new_diagnostic(
                    "security/missing-arg-validators",
                    Severity::Error,
                    Category::Security,
                    m,
                    MISSING_ARGS_HELP,
                    &a.file_path,
                    c.span_line,
                    c.span_col,
                );
                proof {
                    lemma_models_push(out@, d);
                }
                out.push(d);
            }
        }
        proof {
            assert(a.functions@.take(n as int) =~= a.functions@);
            lemma_select_map_tagged(a.functions@, keep, f, self.spec_id(), self.spec_category());
        }
        out
    }

    fn check_project(&self, ctx: &ProjectContext) -> (r: Vec<Diagnostic>) {
        no_diagnostics()
    }
}

/// Every function but an HTTP action that has no argument validators, internal ones
/// included, gives exactly one error at its registration, "<kind> `<name>` has no argument
/// validators", in the order of the functions; nothing else is reported.
pub proof fn law_missing_arg_validators_reported(a: FileAnalysis)
    ensures
        MissingArgValidators.spec_check(a) == a.functions@.filter(
            |c: ConvexFunction| c.kind != FunctionKind::HttpAction && !c.has_args_validator,
        ).map_values(
            |c: ConvexFunction|
                (DiagnosticModel {
                    rule: "security/missing-arg-validators"@,
                    severity: Severity::Error,
                    category: Category::Security,
                    message: kind_name(c.kind) + " `"@ + c.name@ + "` has no argument validators"@,
                    help: MISSING_ARGS_HELP@,
                    file: a.file_path@,
                    line: c.span_line,
                    column: c.span_col,
                }),
        ),
{
    lemma_select_map_filter(
        a.functions@,
        missing_arg_validators_keep(),
        missing_arg_validators_diag(a.file_path@),
        |c: ConvexFunction| c.kind != FunctionKind::HttpAction && !c.has_args_validator,
        |c: ConvexFunction|
            (DiagnosticModel {
                rule: "security/missing-arg-validators"@,
                severity: Severity::Error,
                category: Category::Security,
                message: kind_name(c.kind) + " `"@ + c.name@ + "` has no argument validators"@,
                help: MISSING_ARGS_HELP@,
                file: a.file_path@,
                line: c.span_line,
                column: c.span_col,
            }),
    );
}

pub const MISSING_RETURNS_HELP: &'static str = "Add `returns: v.object({...})` to validate the return type and prevent accidental data leaks.";

/// A public function without a `returns` validator.
pub open spec fn missing_return_validators_keep() -> spec_fn(ConvexFunction) -> bool {
    |c: ConvexFunction| kind_is_public(c.kind) && !c.has_return_validator
}

/// The finding reported for a selected element.
pub open spec fn missing_return_validators_diag(file: Seq<char>) -> spec_fn(ConvexFunction) -> DiagnosticModel {
    |c: ConvexFunction|
        diagnostic_model(
            "security/missing-return-validators"@,
            Severity::Warning,
            Category::Security,
            kind_name(c.kind) + " `"@ + c.name@ + "` has no return value validator"@,
            MISSING_RETURNS_HELP@,
            file,
            c.span_line,
            c.span_col,
        )
}

/// Warning for each public function without a return value validator.
pub struct MissingReturnValidators;

impl Rule for MissingReturnValidators {
    open spec fn spec_id(&self) -> Seq<char> {
        "security/missing-return-validators"@
    }

    open spec fn spec_category(&self) -> Category {
        Category::Security
    }

    open spec fn spec_check(&self, a: FileAnalysis) -> Seq<DiagnosticModel> {
        select_map(a.functions@, missing_return_validators_keep(), missing_return_validators_diag(a.file_path@))
    }

    open spec fn spec_check_project(&self, ctx: ProjectContext) -> Seq<DiagnosticModel> {
        Seq::empty()
    }

    fn id(&self) -> (r: &'static str) {
        "security/missing-return-validators"
    }

    fn category(&self) -> (r: Category) {
        Category::Security
    }

    fn check(&self, a: &FileAnalysis) -> (r: Vec<Diagnostic>) {
        let ghost keep = missing_return_validators_keep();
        let ghost f = missing_return_validators_diag(a.file_path@);
        let mut out: Vec<Diagnostic> = Vec::new();
        let n = a.functions.len();
        for i in 0..n
            invariant
                n == a.functions.len(),
                keep == missing_return_validators_keep(),
                f == missing_return_validators_diag(a.file_path@),
                models(out@) == select_map(a.functions@.take(i as int), keep, f),
        {
            proof {
                lemma_select_map_step(a.functions@, i as int, keep, f);
            }
            let c = &a.functions[i];
            if c.is_public() && !c.has_return_validator {
                let mut m = owned(c.kind_str());
                push_str(&mut m, " `");
                push_str(&mut m, c.name.as_str());
                push_str(&mut m, "` has no return value validator");
                let d = new_diagnostic(
                    "security/missing-return-validators",
                    Severity::Warning,
                    Category::Security,
                    m,
                    MISSING_RETURNS_HELP,
                    &a.file_path,
                    c.span_line,
                    c.span_col,
                );
                proof {
                    lemma_models_push(out@, d);
                }
                out.push(d);
            }
        }
        proof {
            assert(a.functions@.take(n as int) =~= a.functions@);
            lemma_select_map_tagged(a.functions@, keep, f, self.spec_id(), self.spec_category());
        }
        out
    }

    fn check_project(&self, ctx: &ProjectContext) -> (r: Vec<Diagnostic>) {
        no_diagnostics()
    }
}

/// Exactly the public functions (queries, mutations, actions and HTTP actions) without a
/// return validator are reported, each once as a warning at the registration, in order.
pub proof fn law_missing_return_validators_reported(a: FileAnalysis)
    ensures
        MissingReturnValidators.spec_check(a) == a.functions@.filter(
            |c: ConvexFunction|
                (c.kind == FunctionKind::Query
                    || c.kind == FunctionKind::Mutation
                    || c.kind == FunctionKind::Action
                    || c.kind == FunctionKind::HttpAction)
                && !c.has_return_validator,
        ).map_values(
            |c: ConvexFunction|
                (DiagnosticModel {
                    rule: "security/missing-return-validators"@,
                    severity: Severity::Warning,
                    category: Category::Security,
                    message: kind_name(c.kind) + " `"@ + c.name@ + "` has no return value validator"@,
                    help: MISSING_RETURNS_HELP@,
                    file: a.file_path@,
                    line: c.span_line,
                    column: c.span_col,
                }),
        ),
{
    lemma_select_map_filter(
        a.functions@,
        missing_return_validators_keep(),
        missing_return_validators_diag(a.file_path@),
        |c: ConvexFunction|
            (c.kind == FunctionKind::Query
                || c.kind == FunctionKind::Mutation
                || c.kind == FunctionKind::Action
                || c.kind == FunctionKind::HttpAction)
            && !c.has_return_validator,
        |c: ConvexFunction|
            (DiagnosticModel {
                rule: "security/missing-return-validators"@,
                severity: Severity::Warning,
                category: Category::Security,
                message: kind_name(c.kind) + " `"@ + c.name@ + "` has no return value validator"@,
                help: MISSING_RETURNS_HELP@,
                file: a.file_path@,
                line: c.span_line,
                column: c.span_col,
            }),
    );
}

pub const MISSING_AUTH_HELP: &'static str = "Consider adding `const identity = await ctx.auth.getUserIdentity()` to verify the caller is authenticated.";

/// A public function with no auth check, no internal secret and no ignore marker.
pub open spec fn missing_auth_check_keep() -> spec_fn(ConvexFunction) -> bool {
    |c: ConvexFunction| unguarded_public(c)
}

/// The finding reported for a selected element.
pub open spec fn missing_auth_check_diag(file: Seq<char>) -> spec_fn(ConvexFunction) -> DiagnosticModel {
    |c: ConvexFunction|
        diagnostic_model(
            "security/missing-auth-check"@,
            Severity::Warning,
            Category::Security,
            "Public "@ + kind_name(c.kind) + " `"@ + c.name@ + "` does not check authentication"@,
            MISSING_AUTH_HELP@,
            file,
            c.span_line,
            c.span_col,
        )
}

/// Warning for each public function that does not check authentication, outside `_scripts`/`_internal` directories.
pub struct MissingAuthCheck;

impl Rule for MissingAuthCheck {
    open spec fn spec_id(&self) -> Seq<char> {
        "security/missing-auth-check"@
    }

    open spec fn spec_category(&self) -> Category {
        Category::Security
    }

    open spec fn spec_check(&self, a: FileAnalysis) -> Seq<DiagnosticModel> {
        if has_path_segment(a.file_path@, "_scripts"@) || has_path_segment(a.file_path@, "_internal"@) {
            Seq::empty()
        } else {
            select_map(a.functions@, missing_auth_check_keep(), missing_auth_check_diag(a.file_path@))
        }
    }

    open spec fn spec_check_project(&self, ctx: ProjectContext) -> Seq<DiagnosticModel> {
        Seq::empty()
    }

    fn id(&self) -> (r: &'static str) {
        "security/missing-auth-check"
    }

    fn category(&self) -> (r: Category) {
        Category::Security
    }

    fn check(&self, a: &FileAnalysis) -> (r: Vec<Diagnostic>) {
        if path_has_segment(a.file_path.as_str(), "_scripts") || path_has_segment(a.file_path.as_str(), "_internal") {
            return no_diagnostics();
        }
        let ghost keep = missing_auth_check_keep();
        let ghost f = missing_auth_check_diag(a.file_path@);
        let mut out: Vec<Diagnostic> = Vec::new();
        let n = a.functions.len();
        for i in 0..n
            invariant
                n == a.functions.len(),
                keep == missing_auth_check_keep(),
                f == missing_auth_check_diag(a.file_path@),
                models(out@) == select_map(a.functions@.take(i as int), keep, f),
        {
            proof {
                lemma_select_map_step(a.functions@, i as int, keep, f);
            }
            let c = &a.functions[i];
            if c.is_public() && !c.has_auth_check && !c.has_internal_secret && !c.is_intentionally_public {
                let mut m = owned("Public ");
                push_str(&mut m, c.kind_str());
                push_str(&mut m, " `");
                push_str(&mut m, c.name.as_str());
                push_str(&mut m, "` does not check authentication");
                let d = new_diagnostic(
                    "security/missing-auth-check",
                    Severity::Warning,
                    Category::Security,
                    m,
                    MISSING_AUTH_HELP,
                    &a.file_path,
                    c.span_line,
                    c.span_col,
                );
                proof {
                    lemma_models_push(out@, d);
                }
                out.push(d);
            }
        }
        proof {
            assert(a.functions@.take(n as int) =~= a.functions@);
            lemma_select_map_tagged(a.functions@, keep, f, self.spec_id(), self.spec_category());
        }
        out
    }

    fn check_project(&self, ctx: &ProjectContext) -> (r: Vec<Diagnostic>) {
        no_diagnostics()
    }
}

/// Outside `_scripts` and `_internal` directories, exactly the public functions with no
/// authentication check, no internal secret and no mark of being meant public are reported,
/// each once as a warning at the registration, in order; inside them nothing is.
pub proof fn law_missing_auth_checks_reported(a: FileAnalysis)
    ensures
        !has_path_segment(a.file_path@, "_scripts"@) && !has_path_segment(a.file_path@, "_internal"@) ==> MissingAuthCheck.spec_check(a) == a.functions@.filter(
            |c: ConvexFunction|
                (c.kind == FunctionKind::Query
                    || c.kind == FunctionKind::Mutation
                    || c.kind == FunctionKind::Action
                    || c.kind == FunctionKind::HttpAction)
                && !c.has_auth_check
                && !c.has_internal_secret
                && !c.is_intentionally_public,
        ).map_values(
            |c: ConvexFunction|
                (DiagnosticModel {
                    rule: "security/missing-auth-check"@,
                    severity: Severity::Warning,
                    category: Category::Security,
                    message: "Public "@ + kind_name(c.kind) + " `"@ + c.name@ + "` does not check authentication"@,
                    help: MISSING_AUTH_HELP@,
                    file: a.file_path@,
                    line: c.span_line,
                    column: c.span_col,
                }),
        ),
        has_path_segment(a.file_path@, "_scripts"@) || has_path_segment(a.file_path@, "_internal"@) ==> MissingAuthCheck.spec_check(a) == Seq::<DiagnosticModel>::empty(),
{
    lemma_select_map_filter(
        a.functions@,
        missing_auth_check_keep(),
        missing_auth_check_diag(a.file_path@),
        |c: ConvexFunction|
            (c.kind == FunctionKind::Query
                || c.kind == FunctionKind::Mutation
                || c.kind == FunctionKind::Action
                || c.kind == FunctionKind::HttpAction)
            && !c.has_auth_check
            && !c.has_internal_secret
            && !c.is_intentionally_public,
        |c: ConvexFunction|
            (DiagnosticModel {
                rule: "security/missing-auth-check"@,
                severity: Severity::Warning,
                category: Category::Security,
                message: "Public "@ + kind_name(c.kind) + " `"@ + c.name@ + "` does not check authentication"@,
                help: MISSING_AUTH_HELP@,
                file: a.file_path@,
                line: c.span_line,
                column: c.span_col,
            }),
    );
}

/// Server-to-server calls that take a function reference.
pub open spec fn scheduler_or_run_chain(chain: Seq<char>) -> bool {
    ||| has_prefix(chain, "ctx.scheduler"@)
    ||| has_prefix(chain, "ctx.runMutation"@)
    ||| has_prefix(chain, "ctx.runQuery"@)
    ||| has_prefix(chain, "ctx.runAction"@)
}

fn is_scheduler_or_run_chain(chain: &str) -> (b: bool)
    ensures
        b == scheduler_or_run_chain(chain@),
{
    starts_with(chain, "ctx.scheduler") || starts_with(chain, "ctx.runMutation") || starts_with(
        chain,
        "ctx.runQuery",
    ) || starts_with(chain, "ctx.runAction")
}

/// The reference handed to the call is a public `api.*` reference.
pub open spec fn public_api_arg(arg: Option<String>) -> bool {
    match arg {
        Some(s) => has_prefix(s@, "api."@),
        None => false,
    }
}

fn is_public_api_arg(arg: &Option<String>) -> (b: bool)
    ensures
        b == public_api_arg(*arg),
{
    match arg {
        Some(s) => starts_with(s.as_str(), "api."),
        None => false,
    }
}

/// The referenced function, or `unknown`.
pub open spec fn arg_or_unknown(arg: Option<String>) -> Seq<char> {
    match arg {
        Some(s) => s@,
        None => "unknown"@,
    }
}

fn arg_or_unknown_str(arg: &Option<String>) -> (r: &str)
    ensures
        r@ == arg_or_unknown(*arg),
{
    match arg {
        Some(s) => s.as_str(),
        None => "unknown",
    }
}

pub const INTERNAL_API_HELP: &'static str = "Use `internal.` instead of `api.` for server-to-server calls. Public API references expose endpoints that bypass internal access controls.";

/// A scheduler or `ctx.run*` call handed an `api.*` reference, outside functions guarded by an internal secret.
pub open spec fn internal_api_misuse_keep() -> spec_fn(CtxCall) -> bool {
    |c: CtxCall| scheduler_or_run_chain(c.chain@) && public_api_arg(c.first_arg_chain) && !c.enclosing_function_has_internal_secret
}

/// The finding reported for a selected element.
pub open spec fn internal_api_misuse_diag(file: Seq<char>) -> spec_fn(CtxCall) -> DiagnosticModel {
    |c: CtxCall|
        diagnostic_model(
            "security/internal-api-misuse"@,
            Severity::Warning,
            Category::Security,
            quoted(c.chain@, "` is called with public API reference `"@) + arg_or_unknown(c.first_arg_chain) + "`"@,
            INTERNAL_API_HELP@,
            file,
            c.line,
            c.col,
        )
}

/// Warning for each server-to-server call made with a public `api.*` reference.
pub struct InternalApiMisuse;

impl Rule for InternalApiMisuse {
    open spec fn spec_id(&self) -> Seq<char> {
        "security/internal-api-misuse"@
    }

    open spec fn spec_category(&self) -> Category {
        Category::Security
    }

    open spec fn spec_check(&self, a: FileAnalysis) -> Seq<DiagnosticModel> {
        select_map(a.ctx_calls@, internal_api_misuse_keep(), internal_api_misuse_diag(a.file_path@))
    }

    open spec fn spec_check_project(&self, ctx: ProjectContext) -> Seq<DiagnosticModel> {
        Seq::empty()
    }

    fn id(&self) -> (r: &'static str) {
        "security/internal-api-misuse"
    }

    fn category(&self) -> (r: Category) {
        Category::Security
    }

    fn check(&self, a: &FileAnalysis) -> (r: Vec<Diagnostic>) {
        let ghost keep = internal_api_misuse_keep();
        let ghost f = internal_api_misuse_diag(a.file_path@);
        let mut out: Vec<Diagnostic> = Vec::new();
        let n = a.ctx_calls.len();
        for i in 0..n
            invariant
                n == a.ctx_calls.len(),
                keep == internal_api_misuse_keep(),
                f == internal_api_misuse_diag(a.file_path@),
                models(out@) == select_map(a.ctx_calls@.take(i as int), keep, f),
        {
            proof {
                lemma_select_map_step(a.ctx_calls@, i as int, keep, f);
            }
            let c = &a.ctx_calls[i];
            if is_scheduler_or_run_chain(c.chain.as_str()) && is_public_api_arg(&c.first_arg_chain) && !c.enclosing_function_has_internal_secret {
                let mut m = quote(c.chain.as_str(), "` is called with public API reference `");
                push_str(&mut m, arg_or_unknown_str(&c.first_arg_chain));
                push_str(&mut m, "`");
                let d = new_diagnostic(
                    "security/internal-api-misuse",
                    Severity::Warning,
                    Category::Security,
                    m,
                    INTERNAL_API_HELP,
                    &a.file_path,
                    c.line,
                    c.col,
                );
                proof {
                    lemma_models_push(out@, d);
                }
                out.push(d);
            }
        }
        proof {
            assert(a.ctx_calls@.take(n as int) =~= a.ctx_calls@);
            lemma_select_map_tagged(a.ctx_calls@, keep, f, self.spec_id(), self.spec_category());
        }
        out
    }

    fn check_project(&self, ctx: &ProjectContext) -> (r: Vec<Diagnostic>) {
        no_diagnostics()
    }
}

/// Exactly the scheduler calls and `ctx.runMutation`, `ctx.runQuery` and `ctx.runAction` calls
/// whose first argument is under `api.`, outside functions that check an internal secret,
/// are reported, each once as a warning at the call, in order.
pub proof fn law_public_api_refs_reported(a: FileAnalysis)
    ensures
        InternalApiMisuse.spec_check(a) == a.ctx_calls@.filter(
            |c: CtxCall|
                (has_prefix(c.chain@, "ctx.scheduler"@)
                    || has_prefix(c.chain@, "ctx.runMutation"@)
                    || has_prefix(c.chain@, "ctx.runQuery"@)
                    || has_prefix(c.chain@, "ctx.runAction"@))
                && c.first_arg_chain.is_some()
                && has_prefix(c.first_arg_chain.unwrap()@, "api."@)
                && !c.enclosing_function_has_internal_secret,
        ).map_values(
            |c: CtxCall|
                (DiagnosticModel {
                    rule: "security/internal-api-misuse"@,
                    severity: Severity::Warning,
                    category: Category::Security,
                    message: "`"@ + c.chain@ + "` is called with public API reference `"@ + c.first_arg_chain.unwrap()@ + "`"@,
                    help: INTERNAL_API_HELP@,
                    file: a.file_path@,
                    line: c.line,
                    column: c.col,
                }),
        ),
{
    lemma_select_map_filter(
        a.ctx_calls@,
        internal_api_misuse_keep(),
        internal_api_misuse_diag(a.file_path@),
        |c: CtxCall|
            (has_prefix(c.chain@, "ctx.scheduler"@)
                || has_prefix(c.chain@, "ctx.runMutation"@)
                || has_prefix(c.chain@, "ctx.runQuery"@)
                || has_prefix(c.chain@, "ctx.runAction"@))
            && c.first_arg_chain.is_some()
            && has_prefix(c.first_arg_chain.unwrap()@, "api."@)
            && !c.enclosing_function_has_internal_secret,
        |c: CtxCall|
            (DiagnosticModel {
                rule: "security/internal-api-misuse"@,
                severity: Severity::Warning,
                category: Category::Security,
                message: "`"@ + c.chain@ + "` is called with public API reference `"@ + c.first_arg_chain.unwrap()@ + "`"@,
                help: INTERNAL_API_HELP@,
                file: a.file_path@,
                line: c.line,
                column: c.col,
            }),
    );
}

pub const HARDCODED_SECRET_HELP: &'static str = "Use environment variables via `process.env.SECRET_NAME` instead of hardcoding secrets in source code.";

/// Error for each string literal that looks like a secret.
pub struct HardcodedSecrets;

impl Rule for HardcodedSecrets {
    open spec fn spec_id(&self) -> Seq<char> {
        "security/hardcoded-secrets"@
    }

    open spec fn spec_category(&self) -> Category {
        Category::Security
    }

    open spec fn spec_check(&self, a: FileAnalysis) -> Seq<DiagnosticModel> {
        select_map(
            a.hardcoded_secrets@,
            keep_all(),
            location_diag(
                "security/hardcoded-secrets"@,
                Severity::Error,
                Category::Security,
                "Hardcoded secret detected: "@,
                ""@,
                true,
                HARDCODED_SECRET_HELP@,
                a.file_path@,
            ),
        )
    }

    open spec fn spec_check_project(&self, ctx: ProjectContext) -> Seq<DiagnosticModel> {
        Seq::empty()
    }

    fn id(&self) -> (r: &'static str) {
        "security/hardcoded-secrets"
    }

    fn category(&self) -> (r: Category) {
        Category::Security
    }

    fn check(&self, a: &FileAnalysis) -> (r: Vec<Diagnostic>) {
        location_diagnostics(
            &a.hardcoded_secrets,
            "security/hardcoded-secrets",
            Severity::Error,
            Category::Security,
            "Hardcoded secret detected: ",
            "",
            true,
            HARDCODED_SECRET_HELP,
            &a.file_path,
        )
    }

    fn check_project(&self, ctx: &ProjectContext) -> (r: Vec<Diagnostic>) {
        no_diagnostics()
    }
}

/// Every entry of `hardcoded_secrets` is reported, once and in order, as an error at its place.
pub proof fn law_hardcoded_secrets_reports_each(a: FileAnalysis)
    ensures
        HardcodedSecrets.spec_check(a) == a.hardcoded_secrets@.map_values(
            |c: CallLocation|
                (DiagnosticModel {
                    rule: "security/hardcoded-secrets"@,
                    severity: Severity::Error,
                    category: Category::Security,
                    message: "Hardcoded secret detected: "@ + c.detail@,
                    help: HARDCODED_SECRET_HELP@,
                    file: a.file_path@,
                    line: c.line,
                    column: c.col,
                }),
        ),
{
    lemma_empty_text_neutral();
    lemma_select_map_all(
        a.hardcoded_secrets@,
        keep_all(),
        location_diag(
            "security/hardcoded-secrets"@,
            Severity::Error,
            Category::Security,
            "Hardcoded secret detected: "@,
            ""@,
            true,
            HARDCODED_SECRET_HELP@,
            a.file_path@,
        ),
        |c: CallLocation|
            (DiagnosticModel {
                rule: "security/hardcoded-secrets"@,
                severity: Severity::Error,
                category: Category::Security,
                message: "Hardcoded secret detected: "@ + c.detail@,
                help: HARDCODED_SECRET_HELP@,
                file: a.file_path@,
                line: c.line,
                column: c.col,
            }),
    );
}

pub const ENV_GITIGNORE_HELP: &'static str = "Add `.env.local` to your .gitignore to prevent committing secrets.";

/// Error when `.env.local` exists but is not in `.gitignore`.
pub struct EnvNotGitignored;

impl Rule for EnvNotGitignored {
    open spec fn spec_id(&self) -> Seq<char> {
        "security/env-not-gitignored"@
    }

    open spec fn spec_category(&self) -> Category {
        Category::Security
    }

    open spec fn spec_check(&self, a: FileAnalysis) -> Seq<DiagnosticModel> {
        Seq::empty()
    }

    open spec fn spec_check_project(&self, ctx: ProjectContext) -> Seq<DiagnosticModel> {
        if ctx.has_env_local && !ctx.env_gitignored {
            seq![diagnostic_model(
                "security/env-not-gitignored"@,
                Severity::Error,
                Category::Security,
                ".env.local exists but is not in .gitignore"@,
                ENV_GITIGNORE_HELP@,
                ".env.local"@,
                0,
                0,
            )]
        } else {
            Seq::empty()
        }
    }

    fn id(&self) -> (r: &'static str) {
        "security/env-not-gitignored"
    }

    fn category(&self) -> (r: Category) {
        Category::Security
    }

    fn check(&self, a: &FileAnalysis) -> (r: Vec<Diagnostic>) {
        no_diagnostics()
    }

    fn check_project(&self, ctx: &ProjectContext) -> (r: Vec<Diagnostic>) {
        if ctx.has_env_local && !ctx.env_gitignored {
            let m = owned(".env.local exists but is not in .gitignore");
            let file = owned(".env.local");
            let d = new_diagnostic(
                "security/env-not-gitignored",
                Severity::Error,
                Category::Security,
                m,
                ENV_GITIGNORE_HELP,
                &file,
                0,
                0,
            );
            let mut out: Vec<Diagnostic> = Vec::new();
            out.push(d);
            proof {
                assert(models(out@) =~= seq![d@]);
            }
            out
        } else {
            no_diagnostics()
        }
    }
}

pub const MISSING_TABLE_ID_HELP: &'static str = "Use `v.id(\"tableName\")` to prevent cross-table ID confusion. Matches the ESLint `explicit-table-ids` rule.";

/// Warning for each argument validator `v.id()` without a table name.
pub struct MissingTableId;

impl Rule for MissingTableId {
    open spec fn spec_id(&self) -> Seq<char> {
        "security/missing-table-id"@
    }

    open spec fn spec_category(&self) -> Category {
        Category::Security
    }

    open spec fn spec_check(&self, a: FileAnalysis) -> Seq<DiagnosticModel> {
        select_map(
            a.generic_id_validators@,
            keep_all(),
            location_diag(
                "security/missing-table-id"@,
                Severity::Warning,
                Category::Security,
                "Argument validator uses `v.id()` without explicit table: "@,
                ""@,
                true,
                MISSING_TABLE_ID_HELP@,
                a.file_path@,
            ),
        )
    }

    open spec fn spec_check_project(&self, ctx: ProjectContext) -> Seq<DiagnosticModel> {
        Seq::empty()
    }

    fn id(&self) -> (r: &'static str) {
        "security/missing-table-id"
    }

    fn category(&self) -> (r: Category) {
        Category::Security
    }

    fn check(&self, a: &FileAnalysis) -> (r: Vec<Diagnostic>) {
        location_diagnostics(
            &a.generic_id_validators,
            "security/missing-table-id",
            Severity::Warning,
            Category::Security,
            "Argument validator uses `v.id()` without explicit table: ",
            "",
            true,
            MISSING_TABLE_ID_HELP,
            &a.file_path,
        )
    }

    fn check_project(&self, ctx: &ProjectContext) -> (r: Vec<Diagnostic>) {
        no_diagnostics()
    }
}

/// Every entry of `generic_id_validators` is reported, once and in order, as a warning at its place.
pub proof fn law_missing_table_id_reports_each(a: FileAnalysis)
    ensures
        MissingTableId.spec_check(a) == a.generic_id_validators@.map_values(
            |c: CallLocation|
                (DiagnosticModel {
                    rule: "security/missing-table-id"@,
                    severity: Severity::Warning,
                    category: Category::Security,
                    message: "Argument validator uses `v.id()` without explicit table: "@ + c.detail@,
                    help: MISSING_TABLE_ID_HELP@,
                    file: a.file_path@,
                    line: c.line,
                    column: c.col,
                }),
        ),
{
    lemma_empty_text_neutral();
    lemma_select_map_all(
        a.generic_id_validators@,
        keep_all(),
        location_diag(
            "security/missing-table-id"@,
            Severity::Warning,
            Category::Security,
            "Argument validator uses `v.id()` without explicit table: "@,
            ""@,
            true,
            MISSING_TABLE_ID_HELP@,
            a.file_path@,
        ),
        |c: CallLocation|
            (DiagnosticModel {
                rule: "security/missing-table-id"@,
                severity: Severity::Warning,
                category: Category::Security,
                message: "Argument validator uses `v.id()` without explicit table: "@ + c.detail@,
                help: MISSING_TABLE_ID_HELP@,
                file: a.file_path@,
                line: c.line,
                column: c.col,
            }),
    );
}

pub const MISSING_HTTP_AUTH_HELP: &'static str = "HTTP actions are publicly accessible. Add `ctx.auth.getUserIdentity()` or check the Authorization header.";

/// An HTTP action with no auth check, no internal secret and no ignore marker.
pub open spec fn missing_http_auth_keep() -> spec_fn(ConvexFunction) -> bool {
    |c: ConvexFunction| c.kind == FunctionKind::HttpAction && !c.has_auth_check && !c.has_internal_secret && !c.is_intentionally_public
}

/// The finding reported for a selected element.
pub open spec fn missing_http_auth_diag(file: Seq<char>) -> spec_fn(ConvexFunction) -> DiagnosticModel {
    |c: ConvexFunction|
        diagnostic_model(
            "security/missing-http-auth"@,
            Severity::Error,
            Category::Security,
            "httpAction `"@ + c.name@ + "` does not check authentication"@,
            MISSING_HTTP_AUTH_HELP@,
            file,
            c.span_line,
            c.span_col,
        )
}

/// Error for each HTTP action that does not check authentication.
pub struct MissingHttpAuth;

impl Rule for MissingHttpAuth {
    open spec fn spec_id(&self) -> Seq<char> {
        "security/missing-http-auth"@
    }

    open spec fn spec_category(&self) -> Category {
        Category::Security
    }

    open spec fn spec_check(&self, a: FileAnalysis) -> Seq<DiagnosticModel> {
        select_map(a.functions@, missing_http_auth_keep(), missing_http_auth_diag(a.file_path@))
    }

    open spec fn spec_check_project(&self, ctx: ProjectContext) -> Seq<DiagnosticModel> {
        Seq::empty()
    }

    fn id(&self) -> (r: &'static str) {
        "security/missing-http-auth"
    }

    fn category(&self) -> (r: Category) {
        Category::Security
    }

    fn check(&self, a: &FileAnalysis) -> (r: Vec<Diagnostic>) {
        let ghost keep = missing_http_auth_keep();
        let ghost f = missing_http_auth_diag(a.file_path@);
        let mut out: Vec<Diagnostic> = Vec::new();
        let n = a.functions.len();
        for i in 0..n
            invariant
                n == a.functions.len(),
                keep == missing_http_auth_keep(),
                f == missing_http_auth_diag(a.file_path@),
                models(out@) == select_map(a.functions@.take(i as int), keep, f),
        {
            proof {
                lemma_select_map_step(a.functions@, i as int, keep, f);
            }
            let c = &a.functions[i];
            if c.kind == FunctionKind::HttpAction && !c.has_auth_check && !c.has_internal_secret && !c.is_intentionally_public {
                let mut m = owned("httpAction `");
                push_str(&mut m, c.name.as_str());
                push_str(&mut m, "` does not check authentication");
                let d = new_diagnostic(
                    "security/missing-http-auth",
                    Severity::Error,
                    Category::Security,
                    m,
                    MISSING_HTTP_AUTH_HELP,
                    &a.file_path,
                    c.span_line,
                    c.span_col,
                );
                proof {
                    lemma_models_push(out@, d);
                }
                out.push(d);
            }
        }
        proof {
            assert(a.functions@.take(n as int) =~= a.functions@);
            lemma_select_map_tagged(a.functions@, keep, f, self.spec_id(), self.spec_category());
        }
        out
    }

    fn check_project(&self, ctx: &ProjectContext) -> (r: Vec<Diagnostic>) {
        no_diagnostics()
    }
}

/// Exactly the HTTP actions with no authentication check, no internal secret and no mark of
/// being meant public are reported, each once as an error at the registration, in order.
pub proof fn law_missing_http_auth_reported(a: FileAnalysis)
    ensures
        MissingHttpAuth.spec_check(a) == a.functions@.filter(
            |c: ConvexFunction|
                c.kind == FunctionKind::HttpAction
                && !c.has_auth_check
                && !c.has_internal_secret
                && !c.is_intentionally_public,
        ).map_values(
            |c: ConvexFunction|
                (DiagnosticModel {
                    rule: "security/missing-http-auth"@,
                    severity: Severity::Error,
                    category: Category::Security,
                    message: "httpAction `"@ + c.name@ + "` does not check authentication"@,
                    help: MISSING_HTTP_AUTH_HELP@,
                    file: a.file_path@,
                    line: c.span_line,
                    column: c.span_col,
                }),
        ),
{
    lemma_select_map_filter(
        a.functions@,
        missing_http_auth_keep(),
        missing_http_auth_diag(a.file_path@),
        |c: ConvexFunction|
            c.kind == FunctionKind::HttpAction
            && !c.has_auth_check
            && !c.has_internal_secret
            && !c.is_intentionally_public,
        |c: ConvexFunction|
            (DiagnosticModel {
                rule: "security/missing-http-auth"@,
                severity: Severity::Error,
                category: Category::Security,
                message: "httpAction `"@ + c.name@ + "` does not check authentication"@,
                help: MISSING_HTTP_AUTH_HELP@,
                file: a.file_path@,
                line: c.span_line,
                column: c.span_col,
            }),
    );
}

pub const CONDITIONAL_EXPORT_HELP: &'static str = "Do not condition Convex function exports on environment variables. This can cause inconsistent behavior between deployments.";

/// Error for each function export chosen by an environment variable.
pub struct ConditionalFunctionExport;

impl Rule for ConditionalFunctionExport {
    open spec fn spec_id(&self) -> Seq<char> {
        "security/conditional-function-export"@
    }

    open spec fn spec_category(&self) -> Category {
        Category::Security
    }

    open spec fn spec_check(&self, a: FileAnalysis) -> Seq<DiagnosticModel> {
        select_map(
            a.conditional_exports@,
            keep_all(),
            location_diag(
                "security/conditional-function-export"@,
                Severity::Error,
                Category::Security,
                "Conditional function export based on environment variable"@,
                ""@,
                false,
                CONDITIONAL_EXPORT_HELP@,
                a.file_path@,
            ),
        )
    }

    open spec fn spec_check_project(&self, ctx: ProjectContext) -> Seq<DiagnosticModel> {
        Seq::empty()
    }

    fn id(&self) -> (r: &'static str) {
        "security/conditional-function-export"
    }

    fn category(&self) -> (r: Category) {
        Category::Security
    }

    fn check(&self, a: &FileAnalysis) -> (r: Vec<Diagnostic>) {
        location_diagnostics(
            &a.conditional_exports,
            "security/conditional-function-export",
            Severity::Error,
            Category::Security,
            "Conditional function export based on environment variable",
            "",
            false,
            CONDITIONAL_EXPORT_HELP,
            &a.file_path,
        )
    }

    fn check_project(&self, ctx: &ProjectContext) -> (r: Vec<Diagnostic>) {
        no_diagnostics()
    }
}

/// Every entry of `conditional_exports` is reported, once and in order, as an error at its place.
pub proof fn law_conditional_function_export_reports_each(a: FileAnalysis)
    ensures
        ConditionalFunctionExport.spec_check(a) == a.conditional_exports@.map_values(
            |c: CallLocation|
                (DiagnosticModel {
                    rule: "security/conditional-function-export"@,
                    severity: Severity::Error,
                    category: Category::Security,
                    message: "Conditional function export based on environment variable"@,
                    help: CONDITIONAL_EXPORT_HELP@,
                    file: a.file_path@,
                    line: c.line,
                    column: c.col,
                }),
        ),
{
    lemma_select_map_all(
        a.conditional_exports@,
        keep_all(),
        location_diag(
            "security/conditional-function-export"@,
            Severity::Error,
            Category::Security,
            "Conditional function export based on environment variable"@,
            ""@,
            false,
            CONDITIONAL_EXPORT_HELP@,
            a.file_path@,
        ),
        |c: CallLocation|
            (DiagnosticModel {
                rule: "security/conditional-function-export"@,
                severity: Severity::Error,
                category: Category::Security,
                message: "Conditional function export based on environment variable"@,
                help: CONDITIONAL_EXPORT_HELP@,
                file: a.file_path@,
                line: c.line,
                column: c.col,
            }),
    );
}

pub const GENERIC_ARGS_HELP: &'static str = "Using `v.any()` defeats the purpose of validation. Use specific validators for type safety and security.";

/// A public function with `v.any()` among its argument validators.
pub open spec fn generic_mutation_args_keep() -> spec_fn(ConvexFunction) -> bool {
    |c: ConvexFunction| kind_is_public(c.kind) && c.has_any_validator_in_args
}

/// The finding reported for a selected element.
pub open spec fn generic_mutation_args_diag(file: Seq<char>) -> spec_fn(ConvexFunction) -> DiagnosticModel {
    |c: ConvexFunction|
        diagnostic_model(
            "security/generic-mutation-args"@,
            Severity::Warning,
            Category::Security,
            "Public "@ + kind_name(c.kind) + " `"@ + c.name@ + "` uses `v.any()` in argument validators"@,
            GENERIC_ARGS_HELP@,
            file,
            c.span_line,
            c.span_col,
        )
}

/// Warning for each public function using `v.any()` in its argument validators.
pub struct GenericMutationArgs;

impl Rule for GenericMutationArgs {
    open spec fn spec_id(&self) -> Seq<char> {
        "security/generic-mutation-args"@
    }

    open spec fn spec_category(&self) -> Category {
        Category::Security
    }

    open spec fn spec_check(&self, a: FileAnalysis) -> Seq<DiagnosticModel> {
        select_map(a.functions@, generic_mutation_args_keep(), generic_mutation_args_diag(a.file_path@))
    }

    open spec fn spec_check_project(&self, ctx: ProjectContext) -> Seq<DiagnosticModel> {
        Seq::empty()
    }

    fn id(&self) -> (r: &'static str) {
        "security/generic-mutation-args"
    }

    fn category(&self) -> (r: Category) {
        Category::Security
    }

    fn check(&self, a: &FileAnalysis) -> (r: Vec<Diagnostic>) {
        let ghost keep = generic_mutation_args_keep();
        let ghost f = generic_mutation_args_diag(a.file_path@);
        let mut out: Vec<Diagnostic> = Vec::new();
        let n = a.functions.len();
        for i in 0..n
            invariant
                n == a.functions.len(),
                keep == generic_mutation_args_keep(),
                f == generic_mutation_args_diag(a.file_path@),
                models(out@) == select_map(a.functions@.take(i as int), keep, f),
        {
            proof {
                lemma_select_map_step(a.functions@, i as int, keep, f);
            }
            let c = &a.functions[i];
            if c.is_public() && c.has_any_validator_in_args {
                let mut m = owned("Public ");
                push_str(&mut m, c.kind_str());
                push_str(&mut m, " `");
                push_str(&mut m, c.name.as_str());
                push_str(&mut m, "` uses `v.any()` in argument validators");
                let d = new_diagnostic(
                    "security/generic-mutation-args",
                    Severity::Warning,
                    Category::Security,
                    m,
                    GENERIC_ARGS_HELP,
                    &a.file_path,
                    c.span_line,
                    c.span_col,
                );
                proof {
                    lemma_models_push(out@, d);
                }
                out.push(d);
            }
        }
        proof {
            assert(a.functions@.take(n as int) =~= a.functions@);
            lemma_select_map_tagged(a.functions@, keep, f, self.spec_id(), self.spec_category());
        }
        out
    }

    fn check_project(&self, ctx: &ProjectContext) -> (r: Vec<Diagnostic>) {
        no_diagnostics()
    }
}

/// Exactly the public functions whose argument validators use `v.any()` are reported, each once
/// as a warning at the registration, in order.
pub proof fn law_generic_args_reported(a: FileAnalysis)
    ensures
        GenericMutationArgs.spec_check(a) == a.functions@.filter(
            |c: ConvexFunction|
                (c.kind == FunctionKind::Query
                    || c.kind == FunctionKind::Mutation
                    || c.kind == FunctionKind::Action
                    || c.kind == FunctionKind::HttpAction)
                && c.has_any_validator_in_args,
        ).map_values(
            |c: ConvexFunction|
                (DiagnosticModel {
                    rule: "security/generic-mutation-args"@,
                    severity: Severity::Warning,
                    category: Category::Security,
                    message: "Public "@ + kind_name(c.kind) + " `"@ + c.name@ + "` uses `v.any()` in argument validators"@,
                    help: GENERIC_ARGS_HELP@,
                    file: a.file_path@,
                    line: c.span_line,
                    column: c.span_col,
                }),
        ),
{
    lemma_select_map_filter(
        a.functions@,
        generic_mutation_args_keep(),
        generic_mutation_args_diag(a.file_path@),
        |c: ConvexFunction|
            (c.kind == FunctionKind::Query
                || c.kind == FunctionKind::Mutation
                || c.kind == FunctionKind::Action
                || c.kind == FunctionKind::HttpAction)
            && c.has_any_validator_in_args,
        |c: ConvexFunction|
            (DiagnosticModel {
                rule: "security/generic-mutation-args"@,
                severity: Severity::Warning,
                category: Category::Security,
                message: "Public "@ + kind_name(c.kind) + " `"@ + c.name@ + "` uses `v.any()` in argument validators"@,
                help: GENERIC_ARGS_HELP@,
                file: a.file_path@,
                line: c.span_line,
                column: c.span_col,
            }),
    );
}

pub const BROAD_PATCH_HELP: &'static str = "Passing raw client args to `ctx.db.patch` is a mass-assignment vulnerability. Destructure and pass only the allowed fields.";

/// Warning for each `ctx.db.patch` handed the raw client arguments.
pub struct OverlyBroadPatch;

impl Rule for OverlyBroadPatch {
    open spec fn spec_id(&self) -> Seq<char> {
        "security/overly-broad-patch"@
    }

    open spec fn spec_category(&self) -> Category {
        Category::Security
    }

    open spec fn spec_check(&self, a: FileAnalysis) -> Seq<DiagnosticModel> {
        select_map(
            a.raw_arg_patches@,
            keep_all(),
            location_diag(
                "security/overly-broad-patch"@,
                Severity::Warning,
                Category::Security,
                ""@,
                ""@,
                true,
                BROAD_PATCH_HELP@,
                a.file_path@,
            ),
        )
    }

    open spec fn spec_check_project(&self, ctx: ProjectContext) -> Seq<DiagnosticModel> {
        Seq::empty()
    }

    fn id(&self) -> (r: &'static str) {
        "security/overly-broad-patch"
    }

    fn category(&self) -> (r: Category) {
        Category::Security
    }

    fn check(&self, a: &FileAnalysis) -> (r: Vec<Diagnostic>) {
        location_diagnostics(
            &a.raw_arg_patches,
            "security/overly-broad-patch",
            Severity::Warning,
            Category::Security,
            "",
            "",
            true,
            BROAD_PATCH_HELP,
            &a.file_path,
        )
    }

    fn check_project(&self, ctx: &ProjectContext) -> (r: Vec<Diagnostic>) {
        no_diagnostics()
    }
}

/// Every entry of `raw_arg_patches` is reported, once and in order, as a warning at its place.
pub proof fn law_overly_broad_patch_reports_each(a: FileAnalysis)
    ensures
        OverlyBroadPatch.spec_check(a) == a.raw_arg_patches@.map_values(
            |c: CallLocation|
                (DiagnosticModel {
                    rule: "security/overly-broad-patch"@,
                    severity: Severity::Warning,
                    category: Category::Security,
                    message: c.detail@,
                    help: BROAD_PATCH_HELP@,
                    file: a.file_path@,
                    line: c.line,
                    column: c.col,
                }),
        ),
{
    lemma_empty_text_neutral();
    lemma_select_map_all(
        a.raw_arg_patches@,
        keep_all(),
        location_diag(
            "security/overly-broad-patch"@,
            Severity::Warning,
            Category::Security,
            ""@,
            ""@,
            true,
            BROAD_PATCH_HELP@,
            a.file_path@,
        ),
        |c: CallLocation|
            (DiagnosticModel {
                rule: "security/overly-broad-patch"@,
                severity: Severity::Warning,
                category: Category::Security,
                message: c.detail@,
                help: BROAD_PATCH_HELP@,
                file: a.file_path@,
                line: c.line,
                column: c.col,
            }),
    );
}

/// A path separator: `/`, or `\` which is read as `/`.
pub open spec fn is_separator(c: char) -> bool {
    c == '/' || c == '\\'
}

/// `seg` occurs in `path` at `i` as a whole component between separators.
pub open spec fn segment_at(path: Seq<char>, seg: Seq<char>, i: int) -> bool {
    &&& matches_at(path, seg, i)
    &&& (i == 0 || is_separator(path[i - 1]))
    &&& (i + seg.len() == path.len() || is_separator(path[i + seg.len()]))
}

/// `path`, with `\` read as `/`, has `seg` as one of its components.
pub open spec fn has_path_segment(path: Seq<char>, seg: Seq<char>) -> bool {
    exists|i: int| #[trigger] segment_at(path, seg, i)
}

/// Whether `path` has the component `segment`.
fn path_has_segment(path: &str, segment: &str) -> (b: bool)
    ensures
        b == has_path_segment(path@, segment@),
{
    let p = chars_of(path);
    let s = chars_of(segment);
    if s.len() > p.len() {
        assert forall|i: int| !segment_at(path@, segment@, i) by {}
        return false;
    }
    let last = p.len() - s.len();
    let mut i: usize = 0;
    while i <= last
        invariant_except_break
            i <= last,
            forall|k: int| 0 <= k < i ==> !segment_at(path@, segment@, k),
        invariant
            p@ == path@,
            s@ == segment@,
            last == p.len() - s.len(),
        ensures
            forall|k: int| 0 <= k <= last ==> !segment_at(path@, segment@, k),
        decreases last + 1 - i,
    {
        let starts = i == 0 || p[i - 1] == '/' || p[i - 1] == '\\';
        let ends = i + s.len() == p.len() || p[i + s.len()] == '/' || p[i + s.len()] == '\\';
        if starts && ends && slice_matches_at(p.as_slice(), s.as_slice(), i) {
            assert(segment_at(path@, segment@, i as int));
            return true;
        }
        if i == last {
            break;
        }
        i = i + 1;
    }
    assert forall|k: int| !segment_at(path@, segment@, k) by {
        if segment_at(path@, segment@, k) {
            assert(0 <= k <= last);
        }
    }
    false
}

/// The canonical spelling of an argument name that carries identity or privilege, matched
/// without regard to ASCII case.
pub open spec fn sensitive_arg(arg: Seq<char>) -> Option<Seq<char>> {
    if eq_ignore_case(arg, "userId"@) {
        Some("userId"@)
    } else if eq_ignore_case(arg, "user_id"@) {
        Some("user_id"@)
    } else if eq_ignore_case(arg, "role"@) {
        Some("role"@)
    } else if eq_ignore_case(arg, "isAdmin"@) {
        Some("isAdmin"@)
    } else if eq_ignore_case(arg, "admin"@) {
        Some("admin"@)
    } else if eq_ignore_case(arg, "ownerId"@) {
        Some("ownerId"@)
    } else if eq_ignore_case(arg, "organizationId"@) {
        Some("organizationId"@)
    } else if eq_ignore_case(arg, "orgId"@) {
        Some("orgId"@)
    } else if eq_ignore_case(arg, "teamId"@) {
        Some("teamId"@)
    } else if eq_ignore_case(arg, "accountId"@) {
        Some("accountId"@)
    } else if eq_ignore_case(arg, "permission"@) {
        Some("permission"@)
    } else if eq_ignore_case(arg, "permissions"@) {
        Some("permissions"@)
    } else {
        None
    }
}

fn sensitive_arg_name(arg: &str) -> (r: Option<&'static str>)
    ensures
        match r {
            Some(s) => sensitive_arg(arg@) == Some(s@),
            None => sensitive_arg(arg@).is_none(),
        },
{
    if eq_ignore_ascii_case(arg, "userId") {
        Some("userId")
    } else if eq_ignore_ascii_case(arg, "user_id") {
        Some("user_id")
    } else if eq_ignore_ascii_case(arg, "role") {
        Some("role")
    } else if eq_ignore_ascii_case(arg, "isAdmin") {
        Some("isAdmin")
    } else if eq_ignore_ascii_case(arg, "admin") {
        Some("admin")
    } else if eq_ignore_ascii_case(arg, "ownerId") {
        Some("ownerId")
    } else if eq_ignore_ascii_case(arg, "organizationId") {
        Some("organizationId")
    } else if eq_ignore_ascii_case(arg, "orgId") {
        Some("orgId")
    } else if eq_ignore_ascii_case(arg, "teamId") {
        Some("teamId")
    } else if eq_ignore_ascii_case(arg, "accountId") {
        Some("accountId")
    } else if eq_ignore_ascii_case(arg, "permission") {
        Some("permission")
    } else if eq_ignore_ascii_case(arg, "permissions") {
        Some("permissions")
    } else {
        None
    }
}

/// The canonical names of the sensitive arguments among `args`, in order.
pub open spec fn risky_args(args: Seq<String>) -> Seq<Seq<char>> {
    select_map(
        args,
        |a: String| sensitive_arg(a@).is_some(),
        |a: String| sensitive_arg(a@).unwrap(),
    )
}

fn risky_arg_names(args: &Vec<String>) -> (r: Vec<String>)
    ensures
        r@.map_values(|p: String| p@) == risky_args(args@),
{
    let ghost keep = |a: String| sensitive_arg(a@).is_some();
    let ghost f = |a: String| sensitive_arg(a@).unwrap();
    let mut out: Vec<String> = Vec::new();
    let n = args.len();
    for i in 0..n
        invariant
            n == args.len(),
            keep == (|a: String| sensitive_arg(a@).is_some()),
            f == (|a: String| sensitive_arg(a@).unwrap()),
            out@.map_values(|p: String| p@) == select_map(args@.take(i as int), keep, f),
    {
        proof {
            lemma_select_map_step(args@, i as int, keep, f);
        }
        match sensitive_arg_name(args[i].as_str()) {
            Some(name) => {
                let s = owned(name);
                proof {
                    assert(out@.push(s).map_values(|p: String| p@) =~= out@.map_values(
                        |p: String| p@,
                    ).push(s@));
                }
                out.push(s);
            },
            None => {},
        }
    }
    proof {
        assert(args@.take(n as int) =~= args@);
    }
    out
}

/// A public, unguarded function taking identity or privilege arguments from the client.
pub open spec fn spoofable_keep() -> spec_fn(ConvexFunction) -> bool {
    |f: ConvexFunction| unguarded_public(f) && risky_args(f.arg_names@).len() > 0
}

pub const SPOOFABLE_HELP: &'static str = "Avoid authorizing requests using client-provided role/user identifiers. Verify access with `ctx.auth.getUserIdentity()` and server-side ownership checks.";

/// The finding reported for such a function.
pub open spec fn spoofable_diag(file: Seq<char>) -> spec_fn(ConvexFunction) -> DiagnosticModel {
    |f: ConvexFunction|
        diagnostic_model(
            "security/spoofable-access-control"@,
            Severity::Warning,
            Category::Security,
            "Public "@ + kind_name(f.kind) + " `"@ + f.name@
                + "` appears to use spoofable access-control args: "@ + join(
                risky_args(f.arg_names@),
                ", "@,
            ),
            SPOOFABLE_HELP@,
            file,
            f.span_line,
            f.span_col,
        )
}

/// Warning for each public, unguarded function that takes user or role identifiers as
/// arguments.
pub struct SpoofableAccessControl;

impl Rule for SpoofableAccessControl {
    open spec fn spec_id(&self) -> Seq<char> {
        "security/spoofable-access-control"@
    }

    open spec fn spec_category(&self) -> Category {
        Category::Security
    }

    open spec fn spec_check(&self, a: FileAnalysis) -> Seq<DiagnosticModel> {
        select_map(a.functions@, spoofable_keep(), spoofable_diag(a.file_path@))
    }

    open spec fn spec_check_project(&self, ctx: ProjectContext) -> Seq<DiagnosticModel> {
        Seq::empty()
    }

    fn id(&self) -> (r: &'static str) {
        "security/spoofable-access-control"
    }

    fn category(&self) -> (r: Category) {
        Category::Security
    }

    fn check(&self, a: &FileAnalysis) -> (r: Vec<Diagnostic>) {
        let ghost keep = spoofable_keep();
        let ghost f = spoofable_diag(a.file_path@);
        let mut out: Vec<Diagnostic> = Vec::new();
        let n = a.functions.len();
        for i in 0..n
            invariant
                n == a.functions.len(),
                keep == spoofable_keep(),
                f == spoofable_diag(a.file_path@),
                models(out@) == select_map(a.functions@.take(i as int), keep, f),
        {
            proof {
                lemma_select_map_step(a.functions@, i as int, keep, f);
            }
            let c = &a.functions[i];
            if c.is_public() && !c.has_auth_check && !c.has_internal_secret
                && !c.is_intentionally_public {
                let risky = risky_arg_names(&c.arg_names);
                if risky.len() > 0 {
                    let mut m = owned("Public ");
                    push_str(&mut m, c.kind_str());
                    push_str(&mut m, " `");
                    push_str(&mut m, c.name.as_str());
                    push_str(&mut m, "` appears to use spoofable access-control args: ");
                    let joined = join_strings(&risky, ", ");
                    push_str(&mut m, joined.as_str());
                    let d = new_diagnostic(
                        "security/spoofable-access-control",
                        Severity::Warning,
                        Category::Security,
                        m,
                        SPOOFABLE_HELP,
                        &a.file_path,
                        c.span_line,
                        c.span_col,
                    );
                    proof {
                        lemma_models_push(out@, d);
                    }
                    out.push(d);
                }
            }
        }
        proof {
            assert(a.functions@.take(n as int) =~= a.functions@);
            lemma_select_map_tagged(a.functions@, keep, f, self.spec_id(), self.spec_category());
        }
        out
    }

    fn check_project(&self, ctx: &ProjectContext) -> (r: Vec<Diagnostic>) {
        no_diagnostics()
    }
}

/// Methods that a browser sends a CORS preflight for.
pub open spec fn actionable_method(m: Seq<char>) -> bool {
    ||| eq_ignore_case(m, "GET"@)
    ||| eq_ignore_case(m, "POST"@)
    ||| eq_ignore_case(m, "PUT"@)
    ||| eq_ignore_case(m, "DELETE"@)
    ||| eq_ignore_case(m, "PATCH"@)
}

fn is_actionable_method(m: &str) -> (b: bool)
    ensures
        b == actionable_method(m@),
{
    eq_ignore_ascii_case(m, "GET") || eq_ignore_ascii_case(m, "POST") || eq_ignore_ascii_case(
        m,
        "PUT",
    ) || eq_ignore_ascii_case(m, "DELETE") || eq_ignore_ascii_case(m, "PATCH")
}

/// Route `i` is a non-webhook route on `path`.
pub open spec fn live_route_at(routes: Seq<HttpRoute>, path: Seq<char>, i: int) -> bool {
    0 <= i < routes.len() && !routes[i].is_webhook && routes[i].path@ == path
}

/// Some non-webhook route on `path` has an actionable method.
pub open spec fn path_has_actionable(routes: Seq<HttpRoute>, path: Seq<char>) -> bool {
    exists|i: int| #[trigger] live_route_at(routes, path, i) && actionable_method(routes[i].method@)
}

/// Some non-webhook route on `path` is an OPTIONS route.
pub open spec fn path_has_options(routes: Seq<HttpRoute>, path: Seq<char>) -> bool {
    exists|i: int| #[trigger] live_route_at(routes, path, i) && eq_ignore_case(routes[i].method@, "OPTIONS"@)
}

/// The path serves actionable methods without an OPTIONS handler.
pub open spec fn needs_cors(routes: Seq<HttpRoute>, path: Seq<char>) -> bool {
    path_has_actionable(routes, path) && !path_has_options(routes, path)
}

/// The distinct paths of the non-webhook routes, in order of first appearance.
pub open spec fn live_paths(routes: Seq<HttpRoute>) -> Seq<Seq<char>>
    decreases routes.len(),
{
    if routes.len() == 0 {
        Seq::empty()
    } else {
        let prev = live_paths(routes.drop_last());
        let r = routes.last();
        if !r.is_webhook && !prev.contains(r.path@) {
            prev.push(r.path@)
        } else {
            prev
        }
    }
}

/// Inserts `p` before the first element it precedes.
pub open spec fn insert_sorted(ps: Seq<Seq<char>>, p: Seq<char>) -> Seq<Seq<char>>
    decreases ps.len(),
{
    if ps.len() == 0 {
        seq![p]
    } else if seq_lt(p, ps[0]) {
        seq![p] + ps
    } else {
        seq![ps[0]] + insert_sorted(ps.drop_first(), p)
    }
}

/// Insertion sort in lexicographic order.
pub open spec fn sort_paths(ps: Seq<Seq<char>>) -> Seq<Seq<char>>
    decreases ps.len(),
{
    if ps.len() == 0 {
        Seq::empty()
    } else {
        insert_sorted(sort_paths(ps.drop_last()), ps.last())
    }
}

/// The line of the first route (webhook or not) on `path`, or 0.
pub open spec fn first_route_line(routes: Seq<HttpRoute>, path: Seq<char>) -> u32
    decreases routes.len(),
{
    if routes.len() == 0 {
        0
    } else if routes[0].path@ == path {
        routes[0].line
    } else {
        first_route_line(routes.drop_first(), path)
    }
}

/// The paths that need a CORS handler, sorted.
pub open spec fn cors_paths(routes: Seq<HttpRoute>) -> Seq<Seq<char>> {
    sort_paths(select_map(live_paths(routes), |p: Seq<char>| needs_cors(routes, p), |p: Seq<char>| p))
}

pub const CORS_HELP: &'static str = "Add an OPTIONS handler to support CORS preflight requests. See the Convex CORS guide.";

/// The finding for one path.
pub open spec fn cors_diag(routes: Seq<HttpRoute>, file: Seq<char>, path: Seq<char>) -> DiagnosticModel {
    diagnostic_model(
        "security/http-missing-cors"@,
        Severity::Warning,
        Category::Security,
        "HTTP route `"@ + path + "` has no OPTIONS handler for CORS"@,
        CORS_HELP@,
        file,
        first_route_line(routes, path),
        0,
    )
}

/// Inserting at the first position whose element `p` precedes is `insert_sorted`.
proof fn lemma_insert_sorted_at(ps: Seq<Seq<char>>, p: Seq<char>, k: int)
    requires
        0 <= k <= ps.len(),
        forall|j: int| 0 <= j < k ==> !seq_lt(p, #[trigger] ps[j]),
        k == ps.len() || seq_lt(p, ps[k]),
    ensures
        insert_sorted(ps, p) == ps.take(k) + seq![p] + ps.skip(k),
    decreases ps.len(),
{
    if ps.len() == 0 {
        assert(ps.take(k) + seq![p] + ps.skip(k) =~= seq![p]);
    } else if k == 0 {
        assert(ps.take(k) + seq![p] + ps.skip(k) =~= seq![p] + ps);
    } else {
        assert(!seq_lt(p, ps[0]));
        let rest = ps.drop_first();
        assert forall|j: int| 0 <= j < k - 1 implies !seq_lt(p, #[trigger] rest[j]) by {
            assert(rest[j] == ps[j + 1]);
        }
        if k < ps.len() {
            assert(rest[k - 1] == ps[k]);
        }
        lemma_insert_sorted_at(rest, p, k - 1);
        assert(seq![ps[0]] + (rest.take(k - 1) + seq![p] + rest.skip(k - 1)) =~= ps.take(k) + seq![p]
            + ps.skip(k));
    }
}

/// Inserts `s` into the sorted vector `v` as `insert_sorted` does.
fn insert_sorted_string(v: &mut Vec<String>, s: String)
    ensures
        string_views(final(v)@) == insert_sorted(string_views(old(v)@), s@),
{
    let mut k: usize = 0;
    while k < v.len() && !str_lt(s.as_str(), v[k].as_str())
        invariant
            k <= v.len(),
            forall|j: int| 0 <= j < k ==> !seq_lt(s@, #[trigger] string_views(v@)[j]),
        decreases v.len() - k,
    {
        k = k + 1;
    }
    proof {
        lemma_insert_sorted_at(string_views(v@), s@, k as int);
    }
    let ghost before = v@;
    v.insert(k, s);
    proof {
        assert(string_views(v@) =~= string_views(before).take(k as int) + seq![s@] + string_views(
            before,
        ).skip(k as int));
    }
}

/// Whether some non-webhook route on `path` is actionable, and whether one is OPTIONS.
fn route_flags(routes: &Vec<HttpRoute>, path: &str) -> (r: (bool, bool))
    ensures
        r.0 == path_has_actionable(routes@, path@),
        r.1 == path_has_options(routes@, path@),
{
    let mut act = false;
    let mut opt = false;
    let mut i: usize = 0;
    while i < routes.len()
        invariant
            i <= routes.len(),
            act == exists|j: int| 0 <= j < i && #[trigger] live_route_at(routes@, path@, j) && actionable_method(routes@[j].method@),
            opt == exists|j: int| 0 <= j < i && #[trigger] live_route_at(routes@, path@, j) && eq_ignore_case(routes@[j].method@, "OPTIONS"@),
        decreases routes.len() - i,
    {
        let r = &routes[i];
        if !r.is_webhook && str_eq(r.path.as_str(), path) {
            assert(live_route_at(routes@, path@, i as int));
            if is_actionable_method(r.method.as_str()) {
                act = true;
            }
            if eq_ignore_ascii_case(r.method.as_str(), "OPTIONS") {
                opt = true;
            }
        }
        i = i + 1;
    }
    (act, opt)
}

/// The line of the first route on `path`, or 0.
fn first_route_line_of(routes: &Vec<HttpRoute>, path: &str) -> (l: u32)
    ensures
        l == first_route_line(routes@, path@),
{
    let mut i: usize = 0;
    assert(routes@.skip(0) =~= routes@);
    while i < routes.len()
        invariant
            i <= routes.len(),
            first_route_line(routes@, path@) == first_route_line(routes@.skip(i as int), path@),
        decreases routes.len() - i,
    {
        if str_eq(routes[i].path.as_str(), path) {
            return routes[i].line;
        }
        proof {
            assert(routes@.skip(i as int).drop_first() =~= routes@.skip(i + 1));
        }
        i = i + 1;
    }
    0
}

/// The sorted paths that need a CORS handler.
fn cors_path_list(routes: &Vec<HttpRoute>) -> (r: Vec<String>)
    ensures
        string_views(r@) == cors_paths(routes@),
{
    let n = routes.len();
    let mut paths: Vec<String> = Vec::new();
    for i in 0..n
        invariant
            n == routes.len(),
            string_views(paths@) == live_paths(routes@.take(i as int)),
    {
        proof {
            assert(routes@.take(i + 1).drop_last() =~= routes@.take(i as int));
        }
        let r = &routes[i];
        if !r.is_webhook && !contains_string(&paths, r.path.as_str()) {
            let p = r.path.clone();
            proof {
                lemma_string_views_push(paths@, p);
            }
            paths.push(p);
        }
    }
    proof {
        assert(routes@.take(n as int) =~= routes@);
    }
    let ghost live = live_paths(routes@);
    let ghost keep = |p: Seq<char>| needs_cors(routes@, p);
    let ghost f = |p: Seq<char>| p;
    let mut flagged: Vec<String> = Vec::new();
    let m = paths.len();
    for k in 0..m
        invariant
            m == paths.len(),
            string_views(paths@) == live,
            keep == (|p: Seq<char>| needs_cors(routes@, p)),
            f == (|p: Seq<char>| p),
            string_views(flagged@) == select_map(live.take(k as int), keep, f),
    {
        proof {
            lemma_select_map_step(live, k as int, keep, f);
        }
        let (act, opt) = route_flags(routes, paths[k].as_str());
        if act && !opt {
            let p = paths[k].clone();
            proof {
                lemma_string_views_push(flagged@, p);
            }
            flagged.push(p);
        }
    }
    proof {
        assert(live.take(m as int) =~= live);
    }
    let ghost fl = string_views(flagged@);
    let mut sorted: Vec<String> = Vec::new();
    let q = flagged.len();
    for j in 0..q
        invariant
            q == flagged.len(),
            string_views(flagged@) == fl,
            string_views(sorted@) == sort_paths(fl.take(j as int)),
    {
        proof {
            assert(fl.take(j + 1).drop_last() =~= fl.take(j as int));
        }
        insert_sorted_string(&mut sorted, flagged[j].clone());
    }
    proof {
        assert(fl.take(q as int) =~= fl);
    }
    sorted
}

/// The paths are in lexicographic order: no path comes before an earlier one.
pub open spec fn lexically_sorted(ps: Seq<Seq<char>>) -> bool {
    forall|i: int, j: int| 0 <= i < j < ps.len() ==> !seq_lt(#[trigger] ps[j], #[trigger] ps[i])
}

proof fn lemma_seq_lt_irreflexive(a: Seq<char>)
    ensures
        !seq_lt(a, a),
    decreases a.len(),
{
    if a.len() > 0 {
        lemma_seq_lt_irreflexive(a.drop_first());
    }
}

proof fn lemma_seq_lt_transitive(a: Seq<char>, b: Seq<char>, c: Seq<char>)
    requires
        seq_lt(a, b),
        seq_lt(b, c),
    ensures
        seq_lt(a, c),
    decreases a.len(),
{
    if a.len() > 0 && a[0] == b[0] && b[0] == c[0] {
        lemma_seq_lt_transitive(a.drop_first(), b.drop_first(), c.drop_first());
    }
}

proof fn lemma_insert_sorted_members(ps: Seq<Seq<char>>, p: Seq<char>, x: Seq<char>)
    requires
        insert_sorted(ps, p).contains(x),
    ensures
        x == p || ps.contains(x),
    decreases ps.len(),
{
    let r = insert_sorted(ps, p);
    let k = choose|k: int| 0 <= k < r.len() && r[k] == x;
    if ps.len() == 0 {
    } else if seq_lt(p, ps[0]) {
        if k > 0 {
            assert(ps[k - 1] == x);
        }
    } else {
        if k > 0 {
            let rest = insert_sorted(ps.drop_first(), p);
            assert(rest[k - 1] == x);
            lemma_insert_sorted_members(ps.drop_first(), p, x);
            if ps.drop_first().contains(x) {
                let t = choose|t: int| 0 <= t < ps.drop_first().len() && ps.drop_first()[t] == x;
                assert(ps[t + 1] == x);
            }
        } else {
            assert(ps[0] == x);
        }
    }
}

/// Inserting into sorted paths keeps them sorted and adds exactly the one path.
pub proof fn lemma_insert_sorted_sorted(ps: Seq<Seq<char>>, p: Seq<char>)
    requires
        lexically_sorted(ps),
    ensures
        lexically_sorted(insert_sorted(ps, p)),
        insert_sorted(ps, p).to_multiset() == ps.to_multiset().insert(p),
    decreases ps.len(),
{
    broadcast use vstd::seq_lib::group_to_multiset_ensures;
    let r = insert_sorted(ps, p);
    if ps.len() == 0 {
        assert(r =~= seq![p]);
        assert(seq![p] =~= Seq::<Seq<char>>::empty().push(p));
        assert(Seq::<Seq<char>>::empty().to_multiset() =~= vstd::multiset::Multiset::empty());
    } else if seq_lt(p, ps[0]) {
        vstd::seq_lib::lemma_multiset_commutative(seq![p], ps);
        assert(seq![p] =~= Seq::<Seq<char>>::empty().push(p));
        assert(Seq::<Seq<char>>::empty().to_multiset() =~= vstd::multiset::Multiset::empty());
        assert(seq![p].to_multiset() =~= vstd::multiset::Multiset::empty().insert(p));
        assert(r.to_multiset() =~= ps.to_multiset().insert(p));
        assert forall|i: int, j: int| 0 <= i < j < r.len() implies !seq_lt(#[trigger] r[j], #[trigger] r[i]) by {
            if i == 0 {
                assert(r[j] == ps[j - 1]);
                if seq_lt(ps[j - 1], p) {
                    lemma_seq_lt_transitive(ps[j - 1], p, ps[0]);
                    if j - 1 == 0 {
                        lemma_seq_lt_irreflexive(ps[0]);
                    }
                }
            } else {
                assert(r[i] == ps[i - 1]);
                assert(r[j] == ps[j - 1]);
            }
        }
    } else {
        let rest = ps.drop_first();
        assert(lexically_sorted(rest)) by {
            assert forall|i: int, j: int| 0 <= i < j < rest.len() implies !seq_lt(#[trigger] rest[j], #[trigger] rest[i]) by {
                assert(rest[i] == ps[i + 1]);
                assert(rest[j] == ps[j + 1]);
            }
        }
        lemma_insert_sorted_sorted(rest, p);
        let tail = insert_sorted(rest, p);
        assert(r == seq![ps[0]] + tail);
        vstd::seq_lib::lemma_multiset_commutative(seq![ps[0]], tail);
        vstd::seq_lib::lemma_multiset_commutative(seq![ps[0]], rest);
        assert(ps =~= seq![ps[0]] + rest);
        assert(r.to_multiset() =~= ps.to_multiset().insert(p));
        assert forall|i: int, j: int| 0 <= i < j < r.len() implies !seq_lt(#[trigger] r[j], #[trigger] r[i]) by {
            if i == 0 {
                assert(r[i] == ps[0]);
                assert(r[j] == tail[j - 1]);
                assert(tail.contains(tail[j - 1]));
                lemma_insert_sorted_members(rest, p, tail[j - 1]);
                if rest.contains(tail[j - 1]) {
                    let t = choose|t: int| 0 <= t < rest.len() && rest[t] == tail[j - 1];
                    assert(ps[t + 1] == tail[j - 1]);
                }
            } else {
                assert(r[i] == tail[i - 1]);
                assert(r[j] == tail[j - 1]);
            }
        }
    }
}

/// Sorting gives the same paths, in lexicographic order.
pub proof fn lemma_sort_paths_sorted(ps: Seq<Seq<char>>)
    ensures
        lexically_sorted(sort_paths(ps)),
        sort_paths(ps).to_multiset() == ps.to_multiset(),
    decreases ps.len(),
{
    broadcast use vstd::seq_lib::group_to_multiset_ensures;
    if ps.len() == 0 {
        assert(sort_paths(ps) =~= ps);
    } else {
        lemma_sort_paths_sorted(ps.drop_last());
        lemma_insert_sorted_sorted(sort_paths(ps.drop_last()), ps.last());
        assert(ps =~= ps.drop_last().push(ps.last()));
    }
}

/// The distinct live paths hold no path twice.
proof fn lemma_live_paths_distinct(routes: Seq<HttpRoute>)
    ensures
        live_paths(routes).no_duplicates(),
    decreases routes.len(),
{
    if routes.len() > 0 {
        lemma_live_paths_distinct(routes.drop_last());
    }
}

/// The paths [`HttpMissingCors`] reports are in lexicographic order, and they are exactly the
/// distinct non-webhook paths that need a CORS handler.
pub proof fn lemma_cors_paths_sorted(routes: Seq<HttpRoute>)
    ensures
        lexically_sorted(cors_paths(routes)),
        cors_paths(routes).to_multiset() == select_map(
            live_paths(routes),
            |p: Seq<char>| needs_cors(routes, p),
            |p: Seq<char>| p,
        ).to_multiset(),
        live_paths(routes).no_duplicates(),
{
    lemma_sort_paths_sorted(select_map(live_paths(routes), |p: Seq<char>| needs_cors(routes, p), |p: Seq<char>| p));
    lemma_live_paths_distinct(routes);
}

/// Warning for each HTTP route path (webhooks aside) that serves GET/POST/PUT/DELETE/PATCH
/// without an OPTIONS handler, in path order.
pub struct HttpMissingCors;

impl Rule for HttpMissingCors {
    open spec fn spec_id(&self) -> Seq<char> {
        "security/http-missing-cors"@
    }

    open spec fn spec_category(&self) -> Category {
        Category::Security
    }

    open spec fn spec_check(&self, a: FileAnalysis) -> Seq<DiagnosticModel> {
        cors_paths(a.http_routes@).map_values(|p: Seq<char>| cors_diag(a.http_routes@, a.file_path@, p))
    }

    open spec fn spec_check_project(&self, ctx: ProjectContext) -> Seq<DiagnosticModel> {
        Seq::empty()
    }

    fn id(&self) -> (r: &'static str) {
        "security/http-missing-cors"
    }

    fn category(&self) -> (r: Category) {
        Category::Security
    }

    fn check(&self, a: &FileAnalysis) -> (r: Vec<Diagnostic>) {
        let paths = cors_path_list(&a.http_routes);
        let ghost ps = cors_paths(a.http_routes@);
        let mut out: Vec<Diagnostic> = Vec::new();
        let n = paths.len();
        for i in 0..n
            invariant
                n == paths.len(),
                string_views(paths@) == ps,
                ps == cors_paths(a.http_routes@),
                models(out@) == ps.take(i as int).map_values(
                    |p: Seq<char>| cors_diag(a.http_routes@, a.file_path@, p),
                ),
        {
            let mut m = owned("HTTP route `");
            push_str(&mut m, paths[i].as_str());
            push_str(&mut m, "` has no OPTIONS handler for CORS");
            let line = first_route_line_of(&a.http_routes, paths[i].as_str());
            let d = new_diagnostic(
                "security/http-missing-cors",
                Severity::Warning,
                Category::Security,
                m,
                CORS_HELP,
                &a.file_path,
                line,
                0,
            );
            proof {
                lemma_models_push(out@, d);
                assert(ps[i as int] == paths@[i as int]@);
                assert(ps.take(i + 1).map_values(
                    |p: Seq<char>| cors_diag(a.http_routes@, a.file_path@, p),
                ) =~= ps.take(i as int).map_values(
                    |p: Seq<char>| cors_diag(a.http_routes@, a.file_path@, p),
                ).push(d@));
            }
            out.push(d);
        }
        proof {
            assert(ps.take(n as int) =~= ps);
        }
        out
    }

    fn check_project(&self, ctx: &ProjectContext) -> (r: Vec<Diagnostic>) {
        no_diagnostics()
    }
}

} // verus!
