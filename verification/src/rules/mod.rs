//! What the analyzer extracts from a source file, and the rules that judge it.
pub mod architecture;
pub mod client;
pub mod configuration;
pub mod correctness;
pub mod performance;
pub mod registry;
pub use registry::{RegisteredRule, RuleRegistry};
pub mod schema;
pub mod security;



use vstd::prelude::*;

use crate::diagnostic::{lemma_models_push, models, Category, Diagnostic, DiagnosticModel, Severity};
use crate::text::{decimal, decimal_string, owned, push_str, str_eq};

verus! {

/// Everything the analyzer found in one source file.
#[derive(Debug, Default)]
pub struct FileAnalysis {
    pub file_path: String,
    pub has_use_node: bool,
    pub functions: Vec<ConvexFunction>,
    pub imports: Vec<ImportInfo>,
    pub ctx_calls: Vec<CtxCall>,
    pub collect_calls: Vec<CallLocation>,
    pub filter_calls: Vec<CallLocation>,
    pub date_now_calls: Vec<CallLocation>,
    pub loop_ctx_calls: Vec<CallLocation>,
    pub deprecated_calls: Vec<DeprecatedCall>,
    pub hardcoded_secrets: Vec<CallLocation>,
    pub old_syntax_functions: Vec<CallLocation>,
    pub exported_function_count: u32,
    pub schema_nesting_depth: u32,
    pub schema_array_id_fields: Vec<CallLocation>,
    pub index_definitions: Vec<IndexDef>,
    pub first_calls: Vec<CallLocation>,
    pub awaited_identifiers: Vec<String>,
    pub cron_api_refs: Vec<CallLocation>,
    pub cron_helper_calls: Vec<CallLocation>,
    pub cron_non_reference_calls: Vec<CallLocation>,
    pub generic_id_validators: Vec<CallLocation>,
    pub conditional_exports: Vec<CallLocation>,
    pub non_deterministic_calls: Vec<CallLocation>,
    pub throw_generic_errors: Vec<CallLocation>,
    pub raw_arg_patches: Vec<CallLocation>,
    pub http_routes: Vec<HttpRoute>,
    pub schema_id_fields: Vec<SchemaIdField>,
    pub collect_variable_filters: Vec<CallLocation>,
    pub filter_field_names: Vec<FilterField>,
    pub search_index_definitions: Vec<SearchIndexDef>,
    pub large_writes: Vec<CallLocation>,
    pub optional_schema_fields: Vec<CallLocation>,
    pub unexported_function_count: u32,
    pub convex_hook_calls: Vec<ConvexHookCall>,
    pub has_convex_provider: bool,
    pub pagination_validator_functions: Vec<String>,
    pub paginated_functions: Vec<CallLocation>,
    pub unsupported_validator_calls: Vec<CallLocation>,
    pub query_delete_calls: Vec<CallLocation>,
    pub storage_metadata_calls: Vec<CallLocation>,
}

/// A Convex function registered in a file (`query({...})`, `mutation({...})`, ...).
#[derive(Debug, Clone, Default)]
pub struct ConvexFunction {
    pub name: String,
    pub kind: FunctionKind,
    pub has_args_validator: bool,
    pub has_any_validator_in_args: bool,
    pub arg_names: Vec<String>,
    pub has_internal_secret: bool,
    pub is_intentionally_public: bool,
    pub has_return_validator: bool,
    pub has_auth_check: bool,
    pub handler_line_count: u32,
    pub span_line: u32,
    pub span_col: u32,
}

/// The function is callable from clients.
pub open spec fn kind_is_public(k: FunctionKind) -> bool {
    matches!(k, FunctionKind::Query | FunctionKind::Mutation | FunctionKind::Action | FunctionKind::HttpAction)
}

/// The name of the constructor that registers a function of this kind.
pub open spec fn kind_name(k: FunctionKind) -> Seq<char> {
    match k {
        FunctionKind::Query => "query"@,
        FunctionKind::Mutation => "mutation"@,
        FunctionKind::Action => "action"@,
        FunctionKind::HttpAction => "httpAction"@,
        FunctionKind::InternalQuery => "internalQuery"@,
        FunctionKind::InternalMutation => "internalMutation"@,
        FunctionKind::InternalAction => "internalAction"@,
    }
}

impl ConvexFunction {
    /// Whether clients can call the function: queries, mutations, actions and HTTP actions.
    pub fn is_public(&self) -> (b: bool)
        ensures
            b == kind_is_public(self.kind),
    {
        match self.kind {
            FunctionKind::Query | FunctionKind::Mutation | FunctionKind::Action
            | FunctionKind::HttpAction => true,
            _ => false,
        }
    }

    /// The constructor name of the function's kind, such as `internalQuery`.
    pub fn kind_str(&self) -> (s: &'static str)
        ensures
            s@ == kind_name(self.kind),
    {
        match self.kind {
            FunctionKind::Query => "query",
            FunctionKind::Mutation => "mutation",
            FunctionKind::Action => "action",
            FunctionKind::HttpAction => "httpAction",
            FunctionKind::InternalQuery => "internalQuery",
            FunctionKind::InternalMutation => "internalMutation",
            FunctionKind::InternalAction => "internalAction",
        }
    }
}

/// The kinds of Convex functions.
#[derive(Debug, Clone, Copy, PartialEq, Eq, Structural, Default)]
pub enum FunctionKind {
    #[default]
    Query,
    Mutation,
    Action,
    HttpAction,
    InternalQuery,
    InternalMutation,
    InternalAction,
}

/// The kind registered by the constructor called `s`, if `s` names one.
pub open spec fn kind_from_name(s: Seq<char>) -> Option<FunctionKind> {
    if s == "query"@ {
        Some(FunctionKind::Query)
    } else if s == "mutation"@ {
        Some(FunctionKind::Mutation)
    } else if s == "action"@ {
        Some(FunctionKind::Action)
    } else if s == "httpAction"@ {
        Some(FunctionKind::HttpAction)
    } else if s == "internalQuery"@ {
        Some(FunctionKind::InternalQuery)
    } else if s == "internalMutation"@ {
        Some(FunctionKind::InternalMutation)
    } else if s == "internalAction"@ {
        Some(FunctionKind::InternalAction)
    } else {
        None
    }
}

/// An action or internal action.
pub open spec fn kind_is_action(k: FunctionKind) -> bool {
    matches!(k, FunctionKind::Action | FunctionKind::InternalAction)
}

/// A query or internal query.
pub open spec fn kind_is_query(k: FunctionKind) -> bool {
    matches!(k, FunctionKind::Query | FunctionKind::InternalQuery)
}

/// A mutation or internal mutation.
pub open spec fn kind_is_mutation(k: FunctionKind) -> bool {
    matches!(k, FunctionKind::Mutation | FunctionKind::InternalMutation)
}

impl FunctionKind {
    /// The kind registered by the constructor named `s` (`"query"`, `"internalAction"`, ...).
    pub fn from_callee(s: &str) -> (k: Option<Self>)
        ensures
            k == kind_from_name(s@),
    {

        if str_eq(s, "query") {
            Some(FunctionKind::Query)
        } else if str_eq(s, "mutation") {
            Some(FunctionKind::Mutation)
        } else if str_eq(s, "action") {
            Some(FunctionKind::Action)
        } else if str_eq(s, "httpAction") {
            Some(FunctionKind::HttpAction)
        } else if str_eq(s, "internalQuery") {
            Some(FunctionKind::InternalQuery)
        } else if str_eq(s, "internalMutation") {
            Some(FunctionKind::InternalMutation)
        } else if str_eq(s, "internalAction") {
            Some(FunctionKind::InternalAction)
        } else {
            None
        }
    }

    /// Whether this is an action or an internal action.
    pub fn is_action(&self) -> (b: bool)
        ensures
            b == kind_is_action(*self),
    {
        matches!(self, FunctionKind::Action | FunctionKind::InternalAction)
    }

    /// Whether this is a query or an internal query.
    pub fn is_query(&self) -> (b: bool)
        ensures
            b == kind_is_query(*self),
    {
        matches!(self, FunctionKind::Query | FunctionKind::InternalQuery)
    }

    /// Whether this is a mutation or an internal mutation.
    pub fn is_mutation(&self) -> (b: bool)
        ensures
            b == kind_is_mutation(*self),
    {
        matches!(self, FunctionKind::Mutation | FunctionKind::InternalMutation)
    }
}

/// An import statement.
#[derive(Debug, Clone)]
pub struct ImportInfo {
    pub source: String,
    pub specifiers: Vec<String>,
    pub line: u32,
}

/// A call on the `ctx` object, such as `ctx.db.insert(...)`.
#[derive(Debug, Clone, Default)]
pub struct CtxCall {
    pub chain: String,
    pub line: u32,
    pub col: u32,
    pub is_awaited: bool,
    pub is_returned: bool,
    pub assigned_to: Option<String>,
    pub enclosing_function_kind: Option<FunctionKind>,
    pub enclosing_function_id: Option<String>,
    pub enclosing_function_name: Option<String>,
    pub first_arg_chain: Option<String>,
    pub enclosing_function_has_internal_secret: bool,
}

/// A place in a file, with a description.
#[derive(Debug, Clone, Default)]
pub struct CallLocation {
    pub line: u32,
    pub col: u32,
    pub detail: String,
}

/// A call of a deprecated API and what replaces it.
#[derive(Debug, Clone, Default)]
pub struct DeprecatedCall {
    pub name: String,
    pub replacement: String,
    pub line: u32,
    pub col: u32,
}

/// A database index: `.index("name", ["field", ...])`.
#[derive(Debug, Clone, Default)]
pub struct IndexDef {
    pub table: String,
    pub name: String,
    pub fields: Vec<String>,
    pub line: u32,
}

/// A route of an HTTP router.
#[derive(Debug, Clone, Default)]
pub struct HttpRoute {
    pub method: String,
    pub path: String,
    pub is_webhook: bool,
    pub line: u32,
}

/// A schema field validated with `v.id("table")`.
#[derive(Debug, Clone, Default)]
pub struct SchemaIdField {
    pub field_name: String,
    pub table_ref: String,
    pub table_id: String,
    pub file: String,
    pub line: u32,
    pub col: u32,
}

/// A field that a query filters on (`q.field("name")`).
#[derive(Debug, Clone, Default)]
pub struct FilterField {
    pub field_name: String,
    pub line: u32,
    pub col: u32,
}

/// A search index definition.
#[derive(Debug, Clone, Default)]
pub struct SearchIndexDef {
    pub table: String,
    pub name: String,
    pub has_filter_fields: bool,
    pub line: u32,
}

/// A call of a Convex React hook.
#[derive(Debug, Clone, Default)]
pub struct ConvexHookCall {
    pub hook_name: String,
    pub line: u32,
    pub col: u32,
    pub in_render_body: bool,
}

/// Facts about the whole project, for the project-level rules.
#[derive(Debug, Default)]
pub struct ProjectContext {
    pub has_schema: bool,
    pub has_auth_config: bool,
    pub has_convex_json: bool,
    pub has_env_local: bool,
    pub env_gitignored: bool,
    pub uses_auth: bool,
    pub has_generated_dir: bool,
    pub has_tsconfig: bool,
    pub node_version_from_config: Option<String>,
    pub generated_files_modified: bool,
    pub all_index_definitions: Vec<IndexDef>,
    pub all_schema_id_fields: Vec<SchemaIdField>,
    pub all_filter_field_names: Vec<FilterField>,
}

/// Every diagnostic in `ds` names rule `id` and has category `cat`.
pub open spec fn all_tagged(ds: Seq<DiagnosticModel>, id: Seq<char>, cat: Category) -> bool {
    forall|i: int| 0 <= i < ds.len() ==> (#[trigger] ds[i]).rule == id && ds[i].category == cat
}

/// A rule: a check of one file's analysis and a check of the whole project.
pub trait Rule {
    /// The rule's identifier, such as `perf/unbounded-collect`.
    spec fn spec_id(&self) -> Seq<char>;

    /// The rule's category.
    spec fn spec_category(&self) -> Category;

    /// The diagnostics the rule reports for one file.
    spec fn spec_check(&self, analysis: FileAnalysis) -> Seq<DiagnosticModel>;

    /// The diagnostics the rule reports for the whole project.
    spec fn spec_check_project(&self, ctx: ProjectContext) -> Seq<DiagnosticModel>;

    fn id(&self) -> (r: &'static str)
        ensures
            r@ == self.spec_id(),
    ;

    fn category(&self) -> (r: Category)
        ensures
            r == self.spec_category(),
    ;

    fn check(&self, analysis: &FileAnalysis) -> (r: Vec<Diagnostic>)
        ensures
            crate::diagnostic::models(r@) == self.spec_check(*analysis),
            all_tagged(crate::diagnostic::models(r@), self.spec_id(), self.spec_category()),
    ;

    /// Project-level check, called once after all files are analyzed.
    fn check_project(&self, ctx: &ProjectContext) -> (r: Vec<Diagnostic>)
        ensures
            crate::diagnostic::models(r@) == self.spec_check_project(*ctx),
            all_tagged(crate::diagnostic::models(r@), self.spec_id(), self.spec_category()),
    ;
}

/// The images under `f` of the elements of `s` that satisfy `keep`, in order.
pub open spec fn select_map<A, B>(s: Seq<A>, keep: spec_fn(A) -> bool, f: spec_fn(A) -> B) -> Seq<B>
    decreases s.len(),
{
    if s.len() == 0 {
        Seq::empty()
    } else {
        let prev = select_map(s.drop_last(), keep, f);
        if keep(s.last()) {
            prev.push(f(s.last()))
        } else {
            prev
        }
    }
}

/// Extending the prefix of `s` by one element extends the selection by at most that element.
pub proof fn lemma_select_map_step<A, B>(
    s: Seq<A>,
    i: int,
    keep: spec_fn(A) -> bool,
    f: spec_fn(A) -> B,
)
    requires
        0 <= i < s.len(),
    ensures
        select_map(s.take(i + 1), keep, f) == if keep(s[i]) {
            select_map(s.take(i), keep, f).push(f(s[i]))
        } else {
            select_map(s.take(i), keep, f)
        },
{
    assert(s.take(i + 1).drop_last() =~= s.take(i));
}

/// Every element of a selection is the image of a selected element.
pub proof fn lemma_select_map_members<A, B>(s: Seq<A>, keep: spec_fn(A) -> bool, f: spec_fn(A) -> B, k: int)
    requires
        0 <= k < select_map(s, keep, f).len(),
    ensures
        exists|j: int| 0 <= j < s.len() && keep(s[j]) && select_map(s, keep, f)[k] == f(s[j]),
    decreases s.len(),
{
    let prev = select_map(s.drop_last(), keep, f);
    if k < prev.len() {
        lemma_select_map_members(s.drop_last(), keep, f, k);
        let j = choose|j: int| 0 <= j < s.drop_last().len() && keep(s.drop_last()[j]) && prev[k] == f(s.drop_last()[j]);
        assert(s[j] == s.drop_last()[j]);
    } else {
        assert(s[s.len() - 1] == s.last());
    }
}

/// Every kept element has its image in the selection.
pub proof fn lemma_select_map_keeps<A, B>(s: Seq<A>, keep: spec_fn(A) -> bool, f: spec_fn(A) -> B, i: int)
    requires
        0 <= i < s.len(),
        keep(s[i]),
    ensures
        exists|k: int| 0 <= k < select_map(s, keep, f).len() && select_map(s, keep, f)[k] == f(s[i]),
    decreases s.len(),
{
    let prev = select_map(s.drop_last(), keep, f);
    if i == s.len() - 1 {
        assert(s.last() == s[i]);
        assert(select_map(s, keep, f)[prev.len() as int] == f(s[i]));
    } else {
        assert(s.drop_last()[i] == s[i]);
        lemma_select_map_keeps(s.drop_last(), keep, f, i);
        let k = choose|k: int| 0 <= k < prev.len() && prev[k] == f(s[i]);
        assert(select_map(s, keep, f)[k] == prev[k]);
    }
}

/// Selecting by `keep` and mapping by `f` is filtering by `p` and mapping by `g`, where the
/// two predicates agree on `s` and the two maps agree on what is selected.
pub proof fn lemma_select_map_filter<A, B>(
    s: Seq<A>,
    keep: spec_fn(A) -> bool,
    f: spec_fn(A) -> B,
    p: spec_fn(A) -> bool,
    g: spec_fn(A) -> B,
)
    requires
        forall|i: int| 0 <= i < s.len() ==> keep(#[trigger] s[i]) == p(s[i]),
        forall|i: int| 0 <= i < s.len() && p(#[trigger] s[i]) ==> f(s[i]) == g(s[i]),
    ensures
        select_map(s, keep, f) == s.filter(p).map_values(g),
    decreases s.len(),
{
    reveal(Seq::filter);
    if s.len() > 0 {
        let t = s.drop_last();
        assert forall|i: int| 0 <= i < t.len() implies keep(#[trigger] t[i]) == p(t[i]) by {
            assert(t[i] == s[i]);
        }
        assert forall|i: int| 0 <= i < t.len() && p(#[trigger] t[i]) implies f(t[i]) == g(t[i]) by {
            assert(t[i] == s[i]);
        }
        lemma_select_map_filter(t, keep, f, p, g);
        assert(s.last() == s[s.len() - 1]);
        if p(s.last()) {
            assert(s.filter(p) == t.filter(p).push(s.last()));
            assert(s.filter(p).map_values(g) =~= t.filter(p).map_values(g).push(g(s.last())));
        } else {
            assert(s.filter(p) == t.filter(p));
        }
    } else {
        assert(s.filter(p).map_values(g) =~= Seq::<B>::empty());
    }
}

/// Where `keep` holds of every element, the selection maps every element, by `g` where `g`
/// agrees with `f` on `s`.
pub proof fn lemma_select_map_all<A, B>(s: Seq<A>, keep: spec_fn(A) -> bool, f: spec_fn(A) -> B, g: spec_fn(A) -> B)
    requires
        forall|i: int| 0 <= i < s.len() ==> keep(#[trigger] s[i]) && f(s[i]) == g(s[i]),
    ensures
        select_map(s, keep, f) == s.map_values(g),
    decreases s.len(),
{
    if s.len() > 0 {
        let t = s.drop_last();
        assert forall|i: int| 0 <= i < t.len() implies keep(#[trigger] t[i]) && f(t[i]) == g(t[i]) by {
            assert(t[i] == s[i]);
        }
        lemma_select_map_all(t, keep, f, g);
        assert(s.last() == s[s.len() - 1]);
        assert(s.map_values(g) =~= t.map_values(g).push(g(s.last())));
    } else {
        assert(s.map_values(g) =~= Seq::<B>::empty());
    }
}

/// The empty text leaves a text unchanged on either side.
pub proof fn lemma_empty_text_neutral()
    ensures
        forall|s: Seq<char>| #![trigger s + ""@] s + ""@ == s,
        forall|s: Seq<char>| #![trigger ""@ + s] ""@ + s == s,
{
    reveal_strlit("");
    assert forall|s: Seq<char>| #![trigger s + ""@] s + ""@ == s by {
        assert(s + ""@ =~= s);
    }
    assert forall|s: Seq<char>| #![trigger ""@ + s] ""@ + s == s by {
        assert(""@ + s =~= s);
    }
}

/// The selection has no more elements than the sequence.
pub proof fn lemma_select_map_len<A, B>(s: Seq<A>, keep: spec_fn(A) -> bool, f: spec_fn(A) -> B)
    ensures
        select_map(s, keep, f).len() <= s.len(),
    decreases s.len(),
{
    if s.len() > 0 {
        lemma_select_map_len(s.drop_last(), keep, f);
    }
}


/// A selection whose images all carry rule `id` and category `cat` is tagged with them.
pub proof fn lemma_select_map_tagged<A>(
    s: Seq<A>,
    keep: spec_fn(A) -> bool,
    f: spec_fn(A) -> DiagnosticModel,
    id: Seq<char>,
    cat: Category,
)
    requires
        forall|a: A| #[trigger] f(a).rule == id && f(a).category == cat,
    ensures
        all_tagged(select_map(s, keep, f), id, cat),
{
    assert forall|k: int| 0 <= k < select_map(s, keep, f).len() implies (#[trigger] select_map(
        s,
        keep,
        f,
    )[k]).rule == id && select_map(s, keep, f)[k].category == cat by {
        lemma_select_map_members(s, keep, f, k);
        let j = choose|j: int| 0 <= j < s.len() && keep(s[j]) && select_map(s, keep, f)[k] == f(s[j]);
        assert(f(s[j]).rule == id);
    }
}


/// "`chain`" followed by `suffix`: a message that quotes a code fragment.
pub open spec fn quoted(chain: Seq<char>, suffix: Seq<char>) -> Seq<char> {
    "`"@ + chain + suffix
}

/// Builds "`chain`" followed by `suffix`.
pub fn quote(chain: &str, suffix: &str) -> (r: String)
    ensures
        r@ == quoted(chain@, suffix@),
{
    let mut r = owned("`");
    push_str(&mut r, chain);
    push_str(&mut r, suffix);
    r
}

/// A located occurrence of a key, as grouped by [`group_by_key`].
pub struct Keyed {
    pub key: String,
    pub line: u32,
    pub col: u32,
}

/// The occurrences of one key: how many, and where the first one is.
pub struct Group {
    pub key: String,
    pub count: usize,
    pub line: u32,
    pub col: u32,
}

/// A group as values: key, count, first line, first column.
pub open spec fn group_model(g: Group) -> (Seq<char>, nat, u32, u32) {
    (g.key@, g.count as nat, g.line, g.col)
}

/// A keyed occurrence as values: key, line, column.
pub open spec fn keyed_model(k: Keyed) -> (Seq<char>, u32, u32) {
    (k.key@, k.line, k.col)
}

/// The position of the group of key `k`, or the length when there is none.
pub open spec fn group_index(gs: Seq<(Seq<char>, nat, u32, u32)>, k: Seq<char>) -> int
    decreases gs.len(),
{
    if gs.len() == 0 {
        0
    } else if gs[0].0 == k {
        0
    } else {
        1 + group_index(gs.drop_first(), k)
    }
}

/// Counts one more occurrence of `k` at (`line`, `col`).
pub open spec fn add_occurrence(
    gs: Seq<(Seq<char>, nat, u32, u32)>,
    k: Seq<char>,
    line: u32,
    col: u32,
) -> Seq<(Seq<char>, nat, u32, u32)> {
    let j = group_index(gs, k);
    if j < gs.len() {
        gs.update(j, (k, gs[j].1 + 1, gs[j].2, gs[j].3))
    } else {
        gs.push((k, 1, line, col))
    }
}

/// The groups of equal keys, in order of first occurrence, each with its count and the place
/// of its first occurrence.
pub open spec fn groups_of(items: Seq<(Seq<char>, u32, u32)>) -> Seq<(Seq<char>, nat, u32, u32)>
    decreases items.len(),
{
    if items.len() == 0 {
        Seq::empty()
    } else {
        let prev = groups_of(items.drop_last());
        add_occurrence(prev, items.last().0, items.last().1, items.last().2)
    }
}

proof fn lemma_group_index(gs: Seq<(Seq<char>, nat, u32, u32)>, k: Seq<char>, j: int)
    requires
        0 <= j <= gs.len(),
        forall|i: int| 0 <= i < j ==> #[trigger] gs[i].0 != k,
        j == gs.len() || gs[j].0 == k,
    ensures
        group_index(gs, k) == j,
    decreases gs.len(),
{
    if gs.len() > 0 && j > 0 {
        let rest = gs.drop_first();
        assert forall|i: int| 0 <= i < j - 1 implies #[trigger] rest[i].0 != k by {
            assert(rest[i] == gs[i + 1]);
        }
        if j < gs.len() {
            assert(rest[j - 1] == gs[j]);
        }
        lemma_group_index(rest, k, j - 1);
    }
}

proof fn lemma_group_index_range(gs: Seq<(Seq<char>, nat, u32, u32)>, k: Seq<char>)
    ensures
        0 <= group_index(gs, k) <= gs.len(),
        group_index(gs, k) < gs.len() ==> gs[group_index(gs, k)].0 == k,
    decreases gs.len(),
{
    if gs.len() > 0 && gs[0].0 != k {
        lemma_group_index_range(gs.drop_first(), k);
    }
}

proof fn lemma_groups_count_bound(items: Seq<(Seq<char>, u32, u32)>)
    ensures
        groups_of(items).len() <= items.len(),
        forall|i: int| 0 <= i < groups_of(items).len() ==> #[trigger] groups_of(items)[i].1 <= items.len(),
    decreases items.len(),
{
    if items.len() > 0 {
        lemma_groups_count_bound(items.drop_last());
        let prev = groups_of(items.drop_last());
        let j = group_index(prev, items.last().0);
        lemma_group_index_range(prev, items.last().0);
        assert(groups_of(items) == add_occurrence(prev, items.last().0, items.last().1, items.last().2));
        if j < prev.len() {
            assert forall|i: int| 0 <= i < groups_of(items).len() implies #[trigger] groups_of(items)[i].1 <= items.len() by {
                if i != j {
                    assert(groups_of(items)[i] == prev[i]);
                }
            }
        }
    }
}

/// Groups occurrences by key, in order of first occurrence.
pub fn group_by_key(items: &Vec<Keyed>) -> (r: Vec<Group>)
    ensures
        r@.map_values(|g: Group| group_model(g)) == groups_of(items@.map_values(|k: Keyed| keyed_model(k))),
{
    let ghost ms = items@.map_values(|k: Keyed| keyed_model(k));
    let mut gs: Vec<Group> = Vec::new();
    let n = items.len();
    for i in 0..n
        invariant
            n == items.len(),
            ms == items@.map_values(|k: Keyed| keyed_model(k)),
            gs@.map_values(|g: Group| group_model(g)) == groups_of(ms.take(i as int)),
    {
        proof {
            assert(ms.take(i + 1).drop_last() =~= ms.take(i as int));
            assert(ms.take(i + 1).last() == ms[i as int]);
            lemma_groups_count_bound(ms.take(i as int));
        }
        let ghost before = gs@.map_values(|g: Group| group_model(g));
        let item = &items[i];
        let mut j: usize = 0;
        while j < gs.len() && !str_eq(gs[j].key.as_str(), item.key.as_str())
            invariant
                j <= gs.len(),
                before == gs@.map_values(|g: Group| group_model(g)),
                forall|t: int| 0 <= t < j ==> #[trigger] before[t].0 != item.key@,
            decreases gs.len() - j,
        {
            j = j + 1;
        }
        proof {
            lemma_group_index(before, item.key@, j as int);
        }
        if j < gs.len() {
            assert(before[j as int].1 <= i);
            let g = Group {
                key: owned(item.key.as_str()),
                count: gs[j].count + 1,
                line: gs[j].line,
                col: gs[j].col,
            };
            gs.set(j, g);
            proof {
                assert(gs@.map_values(|g: Group| group_model(g)) =~= before.update(
                    j as int,
                    (item.key@, before[j as int].1 + 1, before[j as int].2, before[j as int].3),
                ));
            }
        } else {
            let g = Group { key: owned(item.key.as_str()), count: 1, line: item.line, col: item.col };
            gs.push(g);
            proof {
                assert(gs@.map_values(|g: Group| group_model(g)) =~= before.push(
                    (item.key@, 1, item.line, item.col),
                ));
            }
        }
    }
    proof {
        assert(ms.take(n as int) =~= ms);
    }
    gs
}

/// The grouping key of a ctx call: its enclosing function's id, or a key unique to its place.
pub open spec fn call_key(c: CtxCall) -> Seq<char> {
    match c.enclosing_function_id {
        Some(id) => id@,
        None => "__anonymous__@"@ + decimal(c.line as nat) + ":"@ + decimal(c.col as nat),
    }
}

/// Builds the grouping key of a ctx call.
pub fn call_key_string(c: &CtxCall) -> (r: String)
    ensures
        r@ == call_key(*c),
{
    match &c.enclosing_function_id {
        Some(id) => owned(id.as_str()),
        None => {
            let mut r = owned("__anonymous__@");
            let l = decimal_string(c.line as u64);
            push_str(&mut r, l.as_str());
            push_str(&mut r, ":");
            let k = decimal_string(c.col as u64);
            push_str(&mut r, k.as_str());
            r
        },
    }
}

/// The finding reported for a group: prefix, key, middle, count, suffix.
pub open spec fn group_diag(
    rule: Seq<char>,
    severity: Severity,
    category: Category,
    prefix: Seq<char>,
    middle: Seq<char>,
    suffix: Seq<char>,
    help: Seq<char>,
    file: Seq<char>,
) -> spec_fn((Seq<char>, nat, u32, u32)) -> DiagnosticModel {
    |g: (Seq<char>, nat, u32, u32)|
        diagnostic_model(
            rule,
            severity,
            category,
            prefix + g.0 + middle + decimal(g.1) + suffix,
            help,
            file,
            g.2,
            g.3,
        )
}

/// A group with at least `min` occurrences.
pub open spec fn group_at_least(min: nat) -> spec_fn((Seq<char>, nat, u32, u32)) -> bool {
    |g: (Seq<char>, nat, u32, u32)| g.1 >= min
}

/// One finding per group of at least `min` occurrences, in group order.
pub fn group_diagnostics(
    groups: &Vec<Group>,
    min: usize,
    rule: &str,
    severity: Severity,
    category: Category,
    prefix: &str,
    middle: &str,
    suffix: &str,
    help: &str,
    file: &String,
) -> (r: Vec<Diagnostic>)
    ensures
        models(r@) == select_map(
            groups@.map_values(|g: Group| group_model(g)),
            group_at_least(min as nat),
            group_diag(rule@, severity, category, prefix@, middle@, suffix@, help@, file@),
        ),
        all_tagged(models(r@), rule@, category),
{
    let ghost gm = groups@.map_values(|g: Group| group_model(g));
    let ghost keep = group_at_least(min as nat);
    let ghost f = group_diag(rule@, severity, category, prefix@, middle@, suffix@, help@, file@);
    let mut out: Vec<Diagnostic> = Vec::new();
    let n = groups.len();
    for i in 0..n
        invariant
            n == groups.len(),
            gm == groups@.map_values(|g: Group| group_model(g)),
            keep == group_at_least(min as nat),
            f == group_diag(rule@, severity, category, prefix@, middle@, suffix@, help@, file@),
            models(out@) == select_map(gm.take(i as int), keep, f),
    {
        proof {
            lemma_select_map_step(gm, i as int, keep, f);
        }
        let g = &groups[i];
        if g.count >= min {
            let mut m = owned(prefix);
            push_str(&mut m, g.key.as_str());
            push_str(&mut m, middle);
            let c = decimal_string(g.count as u64);
            push_str(&mut m, c.as_str());
            push_str(&mut m, suffix);
            let d = new_diagnostic(rule, severity, category, m, help, file, g.line, g.col);
            proof {
                lemma_models_push(out@, d);
            }
            out.push(d);
        }
    }
    proof {
        assert(gm.take(n as int) =~= gm);
        lemma_select_map_tagged(gm, keep, f, rule@, category);
    }
    out
}

/// The first element of `s` satisfying `keep`.
pub open spec fn first_match<A>(s: Seq<A>, keep: spec_fn(A) -> bool) -> Option<A>
    decreases s.len(),
{
    if s.len() == 0 {
        None
    } else if keep(s[0]) {
        Some(s[0])
    } else {
        first_match(s.drop_first(), keep)
    }
}

/// The elements of `s` whose key differs from the keys of all elements kept before them.
pub open spec fn dedup_by<A, K>(s: Seq<A>, key: spec_fn(A) -> K) -> Seq<A>
    decreases s.len(),
{
    if s.len() == 0 {
        Seq::empty()
    } else {
        let prev = dedup_by(s.drop_last(), key);
        if prev.map_values(key).contains(key(s.last())) {
            prev
        } else {
            prev.push(s.last())
        }
    }
}

/// Selects every element.
pub open spec fn keep_all<A>() -> spec_fn(A) -> bool {
    |a: A| true
}

/// The message of a location-based finding: the prefix alone, or the location's detail between
/// the prefix and the suffix.
pub open spec fn location_message(
    prefix: Seq<char>,
    suffix: Seq<char>,
    with_detail: bool,
    detail: Seq<char>,
) -> Seq<char> {
    if with_detail {
        prefix + detail + suffix
    } else {
        prefix
    }
}

/// The finding reported at a location.
pub open spec fn location_diag(
    rule: Seq<char>,
    severity: Severity,
    category: Category,
    prefix: Seq<char>,
    suffix: Seq<char>,
    with_detail: bool,
    help: Seq<char>,
    file: Seq<char>,
) -> spec_fn(CallLocation) -> DiagnosticModel {
    |c: CallLocation|
        diagnostic_model(
            rule,
            severity,
            category,
            location_message(prefix, suffix, with_detail, c.detail@),
            help,
            file,
            c.line,
            c.col,
        )
}

/// One finding per location, in order.
pub fn location_diagnostics(
    locs: &Vec<CallLocation>,
    rule: &str,
    severity: Severity,
    category: Category,
    prefix: &str,
    suffix: &str,
    with_detail: bool,
    help: &str,
    file: &String,
) -> (r: Vec<Diagnostic>)
    ensures
        models(r@) == select_map(
            locs@,
            keep_all(),
            location_diag(rule@, severity, category, prefix@, suffix@, with_detail, help@, file@),
        ),
        all_tagged(models(r@), rule@, category),
{
    let ghost keep = keep_all::<CallLocation>();
    let ghost f = location_diag(rule@, severity, category, prefix@, suffix@, with_detail, help@, file@);
    let mut out: Vec<Diagnostic> = Vec::new();
    let n = locs.len();
    for i in 0..n
        invariant
            n == locs.len(),
            keep == keep_all::<CallLocation>(),
            f == location_diag(rule@, severity, category, prefix@, suffix@, with_detail, help@, file@),
            models(out@) == select_map(locs@.take(i as int), keep, f),
    {
        proof {
            lemma_select_map_step(locs@, i as int, keep, f);
        }
        let c = &locs[i];
        let mut m = owned(prefix);
        if with_detail {
            push_str(&mut m, c.detail.as_str());
            push_str(&mut m, suffix);
        }
        let d = new_diagnostic(rule, severity, category, m, help, file, c.line, c.col);
        proof {
            lemma_models_push(out@, d);
        }
        out.push(d);
    }
    proof {
        assert(locs@.take(n as int) =~= locs@);
        lemma_select_map_tagged(locs@, keep, f, rule@, category);
    }
    out
}

/// No diagnostics.
pub fn no_diagnostics() -> (r: Vec<Diagnostic>)
    ensures
        models(r@) == Seq::<DiagnosticModel>::empty(),
        forall|id: Seq<char>, cat: Category| all_tagged(models(r@), id, cat),
{
    let r: Vec<Diagnostic> = Vec::new();
    assert(models(r@) =~= Seq::<DiagnosticModel>::empty());
    r
}

/// A diagnostic model from its parts.
pub open spec fn diagnostic_model(
    rule: Seq<char>,
    severity: Severity,
    category: Category,
    message: Seq<char>,
    help: Seq<char>,
    file: Seq<char>,
    line: u32,
    column: u32,
) -> DiagnosticModel {
    DiagnosticModel { rule, severity, category, message, help, file, line, column }
}

/// Builds a diagnostic from its parts.
pub fn new_diagnostic(
    rule: &str,
    severity: Severity,
    category: Category,
    message: String,
    help: &str,
    file: &String,
    line: u32,
    column: u32,
) -> (d: Diagnostic)
    ensures
        d@ == diagnostic_model(rule@, severity, category, message@, help@, file@, line, column),
{
    Diagnostic {
        rule: owned(rule),
        severity,
        category,
        message,
        help: owned(help),
        file: file.clone(),
        line,
        column,
    }
}

} // verus!
