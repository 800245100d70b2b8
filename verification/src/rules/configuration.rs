//! Rules about the project configuration files.
use vstd::prelude::*;

use crate::diagnostic::{lemma_models_push, models, Category, Diagnostic, DiagnosticModel, Severity};
use crate::rules::{
    all_tagged, diagnostic_model, keep_all, quote, quoted, kind_is_action, kind_is_mutation, kind_is_public,
    kind_is_query, kind_name, lemma_select_map_step, lemma_select_map_tagged, location_diag,
    location_diagnostics, new_diagnostic, no_diagnostics, select_map, CallLocation, ConvexFunction,
    CtxCall, FileAnalysis, FunctionKind, ProjectContext, Rule,
};
use crate::text::{has_prefix, owned, push_str, starts_with};
use crate::text::{chars_of, decimal, decimal_string};

verus! {

/// The value of a nonempty string of decimal digits.
pub open spec fn digits_value(d: Seq<char>) -> nat
    decreases d.len(),
{
    if d.len() == 0 {
        0
    } else {
        digits_value(d.drop_last()) * 10 + ((d.last() as u32) - 48) as nat
    }
}

/// A decimal digit.
pub open spec fn is_digit(c: char) -> bool {
    '0' <= c && c <= '9'
}

/// Every character of `d` is a decimal digit.
pub open spec fn all_digits(d: Seq<char>) -> bool {
    forall|i: int| 0 <= i < d.len() ==> is_digit(#[trigger] d[i])
}

/// `s` without one leading `+`.
pub open spec fn unsigned_digits(s: Seq<char>) -> Seq<char> {
    if s.len() > 0 && s[0] == '+' {
        s.drop_first()
    } else {
        s
    }
}

/// `s` read as a `u32` the way `str::parse::<u32>` reads it: an optional `+`, then one or more
/// decimal digits, with a value that fits.
pub open spec fn parse_u32(s: Seq<char>) -> Option<u32> {
    let d = unsigned_digits(s);
    if d.len() > 0 && all_digits(d) && digits_value(d) <= u32::MAX {
        Some(digits_value(d) as u32)
    } else {
        None
    }
}

proof fn lemma_digits_value_grows(d: Seq<char>, k: int)
    requires
        0 <= k <= d.len(),
        forall|i: int| 0 <= i < d.len() ==> is_digit(#[trigger] d[i]),
    ensures
        digits_value(d.take(k)) <= digits_value(d),
    decreases d.len() - k,
{
    if k < d.len() {
        lemma_digits_value_grows(d, k + 1);
        assert(d.take(k + 1).drop_last() =~= d.take(k));
    }
    assert(d.take(d.len() as int) =~= d);
}

/// Reads `s` as a `u32` the way `str::parse::<u32>` does.
pub fn parse_u32_str(s: &str) -> (r: Option<u32>)
    ensures
        r == parse_u32(s@),
{
    let sv = chars_of(s);
    let start: usize = if sv.len() > 0 && sv[0] == '+' { 1 } else { 0 };
    let ghost d = unsigned_digits(s@);
    proof {
        assert(d =~= sv@.skip(start as int));
    }
    if start == sv.len() {
        return None;
    }
    let mut value: u64 = 0;
    let mut i: usize = start;
    while i < sv.len()
        invariant
            start <= i <= sv.len(),
            sv@ == s@,
            d == sv@.skip(start as int),
            d == unsigned_digits(s@),
            forall|k: int| 0 <= k < i - start ==> is_digit(#[trigger] d[k]),
            value == digits_value(d.take(i - start)),
            value <= u32::MAX,
        decreases sv.len() - i,
    {
        let c = sv[i];
        if !('0' <= c && c <= '9') {
            proof {
                assert(d[i - start] == c);
                assert(!is_digit(d[i - start]));
                assert(!(forall|k: int| 0 <= k < d.len() ==> is_digit(#[trigger] d[k])));
                assert(d.len() > 0);
                assert(parse_u32(s@).is_none());
            }
            return None;
        }
        let digit: u64 = (c as u32 - 48) as u64;
        proof {
            assert(d.take(i - start + 1).drop_last() =~= d.take(i - start));
            assert(d.take(i - start + 1).last() == c);
            assert(d[i - start] == c);
        }
        value = value * 10 + digit;
        proof {
            assert(value == digits_value(d.take(i - start + 1)));
        }
        if value > 4294967295 {
            proof {
                if forall|j: int| 0 <= j < d.len() ==> is_digit(#[trigger] d[j]) {
                    lemma_digits_value_grows(d, i - start + 1);
                    assert(digits_value(d) > u32::MAX);
                }
            }
            return None;
        }
        i = i + 1;
    }
    proof {
        assert(d.take(d.len() as int) =~= d);
    }
    Some(value as u32)
}

pub const CONVEX_JSON_HELP: &'static str = "Create convex.json to configure your Convex deployment settings.";

/// Project-level warning when `convex.json` is missing from the project root.
pub struct MissingConvexJson;

impl Rule for MissingConvexJson {
    open spec fn spec_id(&self) -> Seq<char> {
        "config/missing-convex-json"@
    }

    open spec fn spec_category(&self) -> Category {
        Category::Configuration
    }

    open spec fn spec_check(&self, a: FileAnalysis) -> Seq<DiagnosticModel> {
        Seq::empty()
    }

    open spec fn spec_check_project(&self, ctx: ProjectContext) -> Seq<DiagnosticModel> {
        if !ctx.has_convex_json {
            seq![diagnostic_model(
                "config/missing-convex-json"@,
                Severity::Warning,
                Category::Configuration,
                "No convex.json found in project root"@,
                CONVEX_JSON_HELP@,
                "."@,
                0,
                0,
            )]
        } else {
            Seq::empty()
        }
    }

    fn id(&self) -> (r: &'static str) {
        "config/missing-convex-json"
    }

    fn category(&self) -> (r: Category) {
        Category::Configuration
    }

    fn check(&self, a: &FileAnalysis) -> (r: Vec<Diagnostic>) {
        no_diagnostics()
    }

    fn check_project(&self, ctx: &ProjectContext) -> (r: Vec<Diagnostic>) {
        if !ctx.has_convex_json {
            let m = owned("No convex.json found in project root");
            let file = owned(".");
            let d = new_diagnostic(
                "config/missing-convex-json",
                Severity::Warning,
                Category::Configuration,
                m,
                CONVEX_JSON_HELP,
                &file,
                0,
                0,
            );
            let mut out: Vec<Diagnostic> = Vec::new();
            out.push(d);
            proof {
                assert(models(out@) =~= seq![d@]);
            }
            out
        } else {
            no_diagnostics()
        }
    }
}

pub const GENERATED_CODE_HELP: &'static str = "Run `npx convex dev` to generate type-safe API references. Consider checking in generated code per Convex recommendations.";

/// Project-level warning when `convex/_generated/` is missing.
pub struct MissingGeneratedCode;

impl Rule for MissingGeneratedCode {
    open spec fn spec_id(&self) -> Seq<char> {
        "config/missing-generated-code"@
    }

    open spec fn spec_category(&self) -> Category {
        Category::Configuration
    }

    open spec fn spec_check(&self, a: FileAnalysis) -> Seq<DiagnosticModel> {
        Seq::empty()
    }

    open spec fn spec_check_project(&self, ctx: ProjectContext) -> Seq<DiagnosticModel> {
        if !ctx.has_generated_dir {
            seq![diagnostic_model(
                "config/missing-generated-code"@,
                Severity::Warning,
                Category::Configuration,
                "Missing convex/_generated/ directory"@,
                GENERATED_CODE_HELP@,
                "convex/"@,
                0,
                0,
            )]
        } else {
            Seq::empty()
        }
    }

    fn id(&self) -> (r: &'static str) {
        "config/missing-generated-code"
    }

    fn category(&self) -> (r: Category) {
        Category::Configuration
    }

    fn check(&self, a: &FileAnalysis) -> (r: Vec<Diagnostic>) {
        no_diagnostics()
    }

    fn check_project(&self, ctx: &ProjectContext) -> (r: Vec<Diagnostic>) {
        if !ctx.has_generated_dir {
            let m = owned("Missing convex/_generated/ directory");
            let file = owned("convex/");
            let d = new_diagnostic(
                "config/missing-generated-code",
                Severity::Warning,
                Category::Configuration,
                m,
                GENERATED_CODE_HELP,
                &file,
                0,
                0,
            );
            let mut out: Vec<Diagnostic> = Vec::new();
            out.push(d);
            proof {
                assert(models(out@) =~= seq![d@]);
            }
            out
        } else {
            no_diagnostics()
        }
    }
}

pub const NODE_VERSION_HELP: &'static str = "Update to Node 20 or later in convex.json for continued support.";

/// Project-level warning when `convex.json` names a Node version of 18 or lower.
pub struct OutdatedNodeVersion;

impl Rule for OutdatedNodeVersion {
    open spec fn spec_id(&self) -> Seq<char> {
        "config/outdated-node-version"@
    }

    open spec fn spec_category(&self) -> Category {
        Category::Configuration
    }

    open spec fn spec_check(&self, a: FileAnalysis) -> Seq<DiagnosticModel> {
        Seq::empty()
    }

    open spec fn spec_check_project(&self, ctx: ProjectContext) -> Seq<DiagnosticModel> {
        match ctx.node_version_from_config {
            Some(s) => match parse_u32(s@) {
                Some(v) => if v <= 18 {
                    seq![
                        diagnostic_model(
                            "config/outdated-node-version"@,
                            Severity::Warning,
                            Category::Configuration,
                            "convex.json specifies Node "@ + decimal(v as nat) + " which is no longer supported"@,
                            NODE_VERSION_HELP@,
                            "convex.json"@,
                            0,
                            0,
                        ),
                    ]
                } else {
                    Seq::empty()
                },
                None => Seq::empty(),
            },
            None => Seq::empty(),
        }
    }

    fn id(&self) -> (r: &'static str) {
        "config/outdated-node-version"
    }

    fn category(&self) -> (r: Category) {
        Category::Configuration
    }

    fn check(&self, a: &FileAnalysis) -> (r: Vec<Diagnostic>) {
        no_diagnostics()
    }

    fn check_project(&self, ctx: &ProjectContext) -> (r: Vec<Diagnostic>) {
        if let Some(version_str) = &ctx.node_version_from_config {
            if let Some(version) = parse_u32_str(version_str.as_str()) {
                if version <= 18 {
                    let mut m = owned("convex.json specifies Node ");
                    let v = decimal_string(version as u64);
                    push_str(&mut m, v.as_str());
                    push_str(&mut m, " which is no longer supported");
                    let file = owned("convex.json");
                    let d = new_diagnostic(
                        "config/outdated-node-version",
                        Severity::Warning,
                        Category::Configuration,
                        m,
                        NODE_VERSION_HELP,
                        &file,
                        0,
                        0,
                    );
                    let mut out: Vec<Diagnostic> = Vec::new();
                    out.push(d);
                    proof {
                        assert(models(out@) =~= seq![d@]);
                    }
                    return out;
                }
            }
        }
        no_diagnostics()
    }
}

pub const TSCONFIG_HELP: &'static str = "Create convex/tsconfig.json for proper TypeScript type-checking during `npx convex dev`.";

/// Project-level info when a schema exists but `convex/tsconfig.json` does not.
pub struct MissingTsconfig;

impl Rule for MissingTsconfig {
    open spec fn spec_id(&self) -> Seq<char> {
        "config/missing-tsconfig"@
    }

    open spec fn spec_category(&self) -> Category {
        Category::Configuration
    }

    open spec fn spec_check(&self, a: FileAnalysis) -> Seq<DiagnosticModel> {
        Seq::empty()
    }

    open spec fn spec_check_project(&self, ctx: ProjectContext) -> Seq<DiagnosticModel> {
        if ctx.has_schema && !ctx.has_tsconfig {
            seq![diagnostic_model(
                "config/missing-tsconfig"@,
                Severity::Info,
                Category::Configuration,
                "No tsconfig.json found in convex/ directory"@,
                TSCONFIG_HELP@,
                "convex/"@,
                0,
                0,
            )]
        } else {
            Seq::empty()
        }
    }

    fn id(&self) -> (r: &'static str) {
        "config/missing-tsconfig"
    }

    fn category(&self) -> (r: Category) {
        Category::Configuration
    }

    fn check(&self, a: &FileAnalysis) -> (r: Vec<Diagnostic>) {
        no_diagnostics()
    }

    fn check_project(&self, ctx: &ProjectContext) -> (r: Vec<Diagnostic>) {
        if ctx.has_schema && !ctx.has_tsconfig {
            let m = owned("No tsconfig.json found in convex/ directory");
            let file = owned("convex/");
            let d = new_diagnostic(
                "config/missing-tsconfig",
                Severity::Info,
                Category::Configuration,
                m,
                TSCONFIG_HELP,
                &file,
                0,
                0,
            );
            let mut out: Vec<Diagnostic> = Vec::new();
            out.push(d);
            proof {
                assert(models(out@) =~= seq![d@]);
            }
            out
        } else {
            no_diagnostics()
        }
    }
}

pub const AUTH_CONFIG_HELP: &'static str = "Create convex/auth.config.ts to configure authentication providers.";

/// Project-level error when functions use `ctx.auth` but no `auth.config` file exists.
pub struct MissingAuthConfig;

impl Rule for MissingAuthConfig {
    open spec fn spec_id(&self) -> Seq<char> {
        "config/missing-auth-config"@
    }

    open spec fn spec_category(&self) -> Category {
        Category::Configuration
    }

    open spec fn spec_check(&self, a: FileAnalysis) -> Seq<DiagnosticModel> {
        Seq::empty()
    }

    open spec fn spec_check_project(&self, ctx: ProjectContext) -> Seq<DiagnosticModel> {
        if ctx.uses_auth && !ctx.has_auth_config {
            seq![diagnostic_model(
                "config/missing-auth-config"@,
                Severity::Error,
                Category::Configuration,
                "Functions use ctx.auth but no auth.config.ts found"@,
                AUTH_CONFIG_HELP@,
                "convex/"@,
                0,
                0,
            )]
        } else {
            Seq::empty()
        }
    }

    fn id(&self) -> (r: &'static str) {
        "config/missing-auth-config"
    }

    fn category(&self) -> (r: Category) {
        Category::Configuration
    }

    fn check(&self, a: &FileAnalysis) -> (r: Vec<Diagnostic>) {
        no_diagnostics()
    }

    fn check_project(&self, ctx: &ProjectContext) -> (r: Vec<Diagnostic>) {
        if ctx.uses_auth && !ctx.has_auth_config {
            let m = owned("Functions use ctx.auth but no auth.config.ts found");
            let file = owned("convex/");
            let d = new_diagnostic(
                "config/missing-auth-config",
                Severity::Error,
                Category::Configuration,
                m,
                AUTH_CONFIG_HELP,
                &file,
                0,
                0,
            );
            let mut out: Vec<Diagnostic> = Vec::new();
            out.push(d);
            proof {
                assert(models(out@) =~= seq![d@]);
            }
            out
        } else {
            no_diagnostics()
        }
    }
}

} // verus!
