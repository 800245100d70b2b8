//! Rules about the database schema and its indexes.
use vstd::prelude::*;

use crate::diagnostic::{lemma_models_push, models, Category, Diagnostic, DiagnosticModel, Severity};
use crate::rules::{
    all_tagged, diagnostic_model, keep_all, quote, quoted, kind_is_action, kind_is_mutation, kind_is_public,
    kind_is_query, kind_name, lemma_empty_text_neutral, lemma_select_map_all, lemma_select_map_filter, lemma_select_map_step, lemma_select_map_tagged, location_diag,
    location_diagnostics, new_diagnostic, no_diagnostics, select_map, CallLocation, ConvexFunction,
    CtxCall, FileAnalysis, FunctionKind, ProjectContext, Rule,
};
use crate::text::{has_prefix, owned, push_str, starts_with};
use crate::rules::{group_at_least, group_by_key, group_diag, group_diagnostics, groups_of, keyed_model, FilterField, IndexDef, Keyed, SearchIndexDef};
use crate::text::{contains, contains_string, decimal, decimal_string, has_infix, lemma_string_views_push, str_eq, string_views};

use crate::config::{file_name_of, last_component};
use crate::project::{is_schema_file_name, schema_file_names};

verus! {

pub const MISSING_SCHEMA_HELP: &'static str = "Create convex/schema.ts to define your database schema with type safety.";

/// Project-level warning when no schema file exists in `convex/`.
pub struct MissingSchema;

impl Rule for MissingSchema {
    open spec fn spec_id(&self) -> Seq<char> {
        "schema/missing-schema"@
    }

    open spec fn spec_category(&self) -> Category {
        Category::Schema
    }

    open spec fn spec_check(&self, a: FileAnalysis) -> Seq<DiagnosticModel> {
        Seq::empty()
    }

    open spec fn spec_check_project(&self, ctx: ProjectContext) -> Seq<DiagnosticModel> {
        if !ctx.has_schema {
            seq![diagnostic_model(
                "schema/missing-schema"@,
                Severity::Warning,
                Category::Schema,
                "No schema.ts file found in convex/ directory"@,
                MISSING_SCHEMA_HELP@,
                "convex/"@,
                0,
                0,
            )]
        } else {
            Seq::empty()
        }
    }

    fn id(&self) -> (r: &'static str) {
        "schema/missing-schema"
    }

    fn category(&self) -> (r: Category) {
        Category::Schema
    }

    fn check(&self, a: &FileAnalysis) -> (r: Vec<Diagnostic>) {
        no_diagnostics()
    }

    fn check_project(&self, ctx: &ProjectContext) -> (r: Vec<Diagnostic>) {
        if !ctx.has_schema {
            let m = owned("No schema.ts file found in convex/ directory");
            let file = owned("convex/");
            let d = new_diagnostic(
                "schema/missing-schema",
                Severity::Warning,
                Category::Schema,
                m,
                MISSING_SCHEMA_HELP,
                &file,
                0,
                0,
            );
            let mut out: Vec<Diagnostic> = Vec::new();
            out.push(d);
            proof {
                assert(models(out@) =~= seq![d@]);
            }
            out
        } else {
            no_diagnostics()
        }
    }
}

pub const DEEP_NESTING_HELP: &'static str = "Consider flattening deeply nested validators by splitting into separate tables or using v.any() for complex data.";

/// Warning when schema validators nest more than 3 levels deep.
pub struct DeepNesting;

impl Rule for DeepNesting {
    open spec fn spec_id(&self) -> Seq<char> {
        "schema/deep-nesting"@
    }

    open spec fn spec_category(&self) -> Category {
        Category::Schema
    }

    open spec fn spec_check(&self, a: FileAnalysis) -> Seq<DiagnosticModel> {
        if a.schema_nesting_depth > 3 {
            seq![diagnostic_model(
                "schema/deep-nesting"@,
                Severity::Warning,
                Category::Schema,
                "Schema validators nested "@ + decimal(a.schema_nesting_depth as nat) + " levels deep"@,
                DEEP_NESTING_HELP@,
                a.file_path@,
                1,
                1,
            )]
        } else {
            Seq::empty()
        }
    }

    open spec fn spec_check_project(&self, ctx: ProjectContext) -> Seq<DiagnosticModel> {
        Seq::empty()
    }

    fn id(&self) -> (r: &'static str) {
        "schema/deep-nesting"
    }

    fn category(&self) -> (r: Category) {
        Category::Schema
    }

    fn check(&self, a: &FileAnalysis) -> (r: Vec<Diagnostic>) {
        if a.schema_nesting_depth > 3 {
            let mut m = owned("Schema validators nested ");
            let n = decimal_string(a.schema_nesting_depth as u64);
            push_str(&mut m, n.as_str());
            push_str(&mut m, " levels deep");
            let file = a.file_path.clone();
            let d = new_diagnostic(
                "schema/deep-nesting",
                Severity::Warning,
                Category::Schema,
                m,
                DEEP_NESTING_HELP,
                &file,
                1,
                1,
            );
            let mut out: Vec<Diagnostic> = Vec::new();
            out.push(d);
            proof {
                assert(models(out@) =~= seq![d@]);
            }
            out
        } else {
            no_diagnostics()
        }
    }

    fn check_project(&self, ctx: &ProjectContext) -> (r: Vec<Diagnostic>) {
        no_diagnostics()
    }
}

pub const ARRAY_REL_HELP: &'static str = "Arrays of v.id() for relationships can grow unbounded. Consider using a separate join table instead.";

/// Warning for each `v.array(v.id(...))` relationship.
pub struct ArrayRelationships;

impl Rule for ArrayRelationships {
    open spec fn spec_id(&self) -> Seq<char> {
        "schema/array-relationships"@
    }

    open spec fn spec_category(&self) -> Category {
        Category::Schema
    }

    open spec fn spec_check(&self, a: FileAnalysis) -> Seq<DiagnosticModel> {
        select_map(
            a.schema_array_id_fields@,
            keep_all(),
            location_diag(
                "schema/array-relationships"@,
                Severity::Warning,
                Category::Schema,
                "Array of document references: "@,
                ""@,
                true,
                ARRAY_REL_HELP@,
                a.file_path@,
            ),
        )
    }

    open spec fn spec_check_project(&self, ctx: ProjectContext) -> Seq<DiagnosticModel> {
        Seq::empty()
    }

    fn id(&self) -> (r: &'static str) {
        "schema/array-relationships"
    }

    fn category(&self) -> (r: Category) {
        Category::Schema
    }

    fn check(&self, a: &FileAnalysis) -> (r: Vec<Diagnostic>) {
        location_diagnostics(
            &a.schema_array_id_fields,
            "schema/array-relationships",
            Severity::Warning,
            Category::Schema,
            "Array of document references: ",
            "",
            true,
            ARRAY_REL_HELP,
            &a.file_path,
        )
    }

    fn check_project(&self, ctx: &ProjectContext) -> (r: Vec<Diagnostic>) {
        no_diagnostics()
    }
}

/// Every entry of `schema_array_id_fields` is reported, once and in order, as a warning at its place.
pub proof fn law_array_relationships_reports_each(a: FileAnalysis)
    ensures
        ArrayRelationships.spec_check(a) == a.schema_array_id_fields@.map_values(
            |c: CallLocation|
                (DiagnosticModel {
                    rule: "schema/array-relationships"@,
                    severity: Severity::Warning,
                    category: Category::Schema,
                    message: "Array of document references: "@ + c.detail@,
                    help: ARRAY_REL_HELP@,
                    file: a.file_path@,
                    line: c.line,
                    column: c.col,
                }),
        ),
{
    lemma_empty_text_neutral();
    lemma_select_map_all(
        a.schema_array_id_fields@,
        keep_all(),
        location_diag(
            "schema/array-relationships"@,
            Severity::Warning,
            Category::Schema,
            "Array of document references: "@,
            ""@,
            true,
            ARRAY_REL_HELP@,
            a.file_path@,
        ),
        |c: CallLocation|
            (DiagnosticModel {
                rule: "schema/array-relationships"@,
                severity: Severity::Warning,
                category: Category::Schema,
                message: "Array of document references: "@ + c.detail@,
                help: ARRAY_REL_HELP@,
                file: a.file_path@,
                line: c.line,
                column: c.col,
            }),
    );
}

pub const SEARCH_FILTER_HELP: &'static str = "Adding filterFields to search indexes improves query performance by narrowing results before full-text search.";

/// A search index without `filterFields`.
pub open spec fn missing_search_index_filter_keep() -> spec_fn(SearchIndexDef) -> bool {
    |c: SearchIndexDef| !c.has_filter_fields
}

/// The finding reported for a selected element.
pub open spec fn missing_search_index_filter_diag(file: Seq<char>) -> spec_fn(SearchIndexDef) -> DiagnosticModel {
    |c: SearchIndexDef|
        diagnostic_model(
            "schema/missing-search-index-filter"@,
            Severity::Info,
            Category::Schema,
            "Search index `"@ + c.name@ + "` has no filterFields"@,
            SEARCH_FILTER_HELP@,
            file,
            c.line,
            1,
        )
}

/// Info for each search index without `filterFields`.
pub struct MissingSearchIndexFilter;

impl Rule for MissingSearchIndexFilter {
    open spec fn spec_id(&self) -> Seq<char> {
        "schema/missing-search-index-filter"@
    }

    open spec fn spec_category(&self) -> Category {
        Category::Schema
    }

    open spec fn spec_check(&self, a: FileAnalysis) -> Seq<DiagnosticModel> {
        select_map(a.search_index_definitions@, missing_search_index_filter_keep(), missing_search_index_filter_diag(a.file_path@))
    }

    open spec fn spec_check_project(&self, ctx: ProjectContext) -> Seq<DiagnosticModel> {
        Seq::empty()
    }

    fn id(&self) -> (r: &'static str) {
        "schema/missing-search-index-filter"
    }

    fn category(&self) -> (r: Category) {
        Category::Schema
    }

    fn check(&self, a: &FileAnalysis) -> (r: Vec<Diagnostic>) {
        let ghost keep = missing_search_index_filter_keep();
        let ghost f = missing_search_index_filter_diag(a.file_path@);
        let mut out: Vec<Diagnostic> = Vec::new();
        let n = a.search_index_definitions.len();
        for i in 0..n
            invariant
                n == a.search_index_definitions.len(),
                keep == missing_search_index_filter_keep(),
                f == missing_search_index_filter_diag(a.file_path@),
                models(out@) == select_map(a.search_index_definitions@.take(i as int), keep, f),
        {
            proof {
                lemma_select_map_step(a.search_index_definitions@, i as int, keep, f);
            }
            let c = &a.search_index_definitions[i];
            if !c.has_filter_fields {
                let mut m = owned("Search index `");
                push_str(&mut m, c.name.as_str());
                push_str(&mut m, "` has no filterFields");
                let d = new_diagnostic(
                    "schema/missing-search-index-filter",
                    Severity::Info,
                    Category::Schema,
                    m,
                    SEARCH_FILTER_HELP,
                    &a.file_path,
                    c.line,
                    1,
                );
                proof {
                    lemma_models_push(out@, d);
                }
                out.push(d);
            }
        }
        proof {
            assert(a.search_index_definitions@.take(n as int) =~= a.search_index_definitions@);
            lemma_select_map_tagged(a.search_index_definitions@, keep, f, self.spec_id(), self.spec_category());
        }
        out
    }

    fn check_project(&self, ctx: &ProjectContext) -> (r: Vec<Diagnostic>) {
        no_diagnostics()
    }
}

/// Exactly the search indexes without filter fields are reported, each once as information at
/// the start of the line that defines it, in order.
pub proof fn law_search_indexes_without_filters_reported(a: FileAnalysis)
    ensures
        MissingSearchIndexFilter.spec_check(a) == a.search_index_definitions@.filter(
            |c: SearchIndexDef|
                !c.has_filter_fields,
        ).map_values(
            |c: SearchIndexDef|
                (DiagnosticModel {
                    rule: "schema/missing-search-index-filter"@,
                    severity: Severity::Info,
                    category: Category::Schema,
                    message: "Search index `"@ + c.name@ + "` has no filterFields"@,
                    help: SEARCH_FILTER_HELP@,
                    file: a.file_path@,
                    line: c.line,
                    column: 1,
                }),
        ),
{
    lemma_select_map_filter(
        a.search_index_definitions@,
        missing_search_index_filter_keep(),
        missing_search_index_filter_diag(a.file_path@),
        |c: SearchIndexDef|
            !c.has_filter_fields,
        |c: SearchIndexDef|
            (DiagnosticModel {
                rule: "schema/missing-search-index-filter"@,
                severity: Severity::Info,
                category: Category::Schema,
                message: "Search index `"@ + c.name@ + "` has no filterFields"@,
                help: SEARCH_FILTER_HELP@,
                file: a.file_path@,
                line: c.line,
                column: 1,
            }),
    );
}

pub const OPTIONAL_FIELDS_HELP: &'static str = "Optional fields return `undefined` when not set. Ensure all access sites handle the missing case.";

/// Warning when a schema file (by its file name: `schema.ts` or another script extension) has
/// five or more `v.optional()` fields.
pub struct OptionalFieldNoDefaultHandling;

impl Rule for OptionalFieldNoDefaultHandling {
    open spec fn spec_id(&self) -> Seq<char> {
        "schema/optional-field-no-default-handling"@
    }

    open spec fn spec_category(&self) -> Category {
        Category::Schema
    }

    open spec fn spec_check(&self, a: FileAnalysis) -> Seq<DiagnosticModel> {
        if schema_file_names().contains(last_component(a.file_path@)) && a.optional_schema_fields@.len() >= 5 {
            seq![diagnostic_model(
                "schema/optional-field-no-default-handling"@,
                Severity::Warning,
                Category::Schema,
                decimal(a.optional_schema_fields@.len()) + " optional fields in schema — ensure undefined is handled"@,
                OPTIONAL_FIELDS_HELP@,
                a.file_path@,
                1,
                1,
            )]
        } else {
            Seq::empty()
        }
    }

    open spec fn spec_check_project(&self, ctx: ProjectContext) -> Seq<DiagnosticModel> {
        Seq::empty()
    }

    fn id(&self) -> (r: &'static str) {
        "schema/optional-field-no-default-handling"
    }

    fn category(&self) -> (r: Category) {
        Category::Schema
    }

    fn check(&self, a: &FileAnalysis) -> (r: Vec<Diagnostic>) {
        let name = file_name_of(a.file_path.as_str());
        if is_schema_file_name(name.as_str()) && a.optional_schema_fields.len() >= 5 {
            let mut m = decimal_string(a.optional_schema_fields.len() as u64);
            push_str(&mut m, " optional fields in schema — ensure undefined is handled");
            let file = a.file_path.clone();
            let d = new_diagnostic(
                "schema/optional-field-no-default-handling",
                Severity::Warning,
                Category::Schema,
                m,
                OPTIONAL_FIELDS_HELP,
                &file,
                1,
                1,
            );
            let mut out: Vec<Diagnostic> = Vec::new();
            out.push(d);
            proof {
                assert(models(out@) =~= seq![d@]);
            }
            out
        } else {
            no_diagnostics()
        }
    }

    fn check_project(&self, ctx: &ProjectContext) -> (r: Vec<Diagnostic>) {
        no_diagnostics()
    }
}

/// `a` is a proper prefix of `b`.
pub open spec fn strict_prefix(a: Seq<Seq<char>>, b: Seq<Seq<char>>) -> bool {
    a.len() < b.len() && forall|k: int| 0 <= k < a.len() ==> #[trigger] a[k] == b[k]
}

fn is_strict_prefix(a: &Vec<String>, b: &Vec<String>) -> (r: bool)
    ensures
        r == strict_prefix(string_views(a@), string_views(b@)),
{
    if a.len() >= b.len() {
        return false;
    }
    let mut k: usize = 0;
    while k < a.len()
        invariant
            k <= a.len(),
            a.len() < b.len(),
            forall|t: int| 0 <= t < k ==> #[trigger] string_views(a@)[t] == string_views(b@)[t],
        decreases a.len() - k,
    {
        if !str_eq(a[k].as_str(), b[k].as_str()) {
            assert(string_views(a@)[k as int] != string_views(b@)[k as int]);
            return false;
        }
        k = k + 1;
    }
    true
}

pub const REDUNDANT_INDEX_HELP: &'static str = "A compound index can serve queries on its prefix fields. Remove the shorter index to reduce storage overhead.";

/// The finding that `short` is redundant next to `long`.
pub open spec fn redundant_diag(file: Seq<char>, short: IndexDef, long: IndexDef) -> DiagnosticModel {
    diagnostic_model(
        "schema/redundant-index"@,
        Severity::Warning,
        Category::Schema,
        "Index '"@ + short.name@ + "' is redundant — it's a prefix of index '"@ + long.name@ + "'"@,
        REDUNDANT_INDEX_HELP@,
        file,
        short.line,
        1,
    )
}

/// The findings for the pair (`x`, `y`) of indexes on the same named table: `x` if its fields
/// are a proper prefix of `y`'s, then `y` if its fields are a proper prefix of `x`'s.
pub open spec fn pair_diags(file: Seq<char>, x: IndexDef, y: IndexDef) -> Seq<DiagnosticModel> {
    if x.table@.len() > 0 && x.table@ == y.table@ {
        (if strict_prefix(string_views(x.fields@), string_views(y.fields@)) {
            seq![redundant_diag(file, x, y)]
        } else {
            Seq::empty()
        }) + (if strict_prefix(string_views(y.fields@), string_views(x.fields@)) {
            seq![redundant_diag(file, y, x)]
        } else {
            Seq::empty()
        })
    } else {
        Seq::empty()
    }
}

/// The findings for index `i` against the indexes after it and before `j_end`.
pub open spec fn row_diags(idxs: Seq<IndexDef>, file: Seq<char>, i: int, j_end: int) -> Seq<DiagnosticModel>
    decreases j_end - i,
{
    if j_end <= i + 1 {
        Seq::empty()
    } else {
        row_diags(idxs, file, i, j_end - 1) + pair_diags(file, idxs[i], idxs[j_end - 1])
    }
}

/// The findings for every pair `i < j` with `i < i_end`, in order of `i` then `j`.
pub open spec fn redundant_diags(idxs: Seq<IndexDef>, file: Seq<char>, i_end: int) -> Seq<DiagnosticModel>
    decreases i_end,
{
    if i_end <= 0 {
        Seq::empty()
    } else {
        redundant_diags(idxs, file, i_end - 1) + row_diags(idxs, file, i_end - 1, idxs.len() as int)
    }
}

proof fn lemma_redundant_tagged(idxs: Seq<IndexDef>, file: Seq<char>, i_end: int)
    requires
        i_end <= idxs.len(),
    ensures
        all_tagged(redundant_diags(idxs, file, i_end), "schema/redundant-index"@, Category::Schema),
    decreases i_end,
{
    if i_end > 0 {
        lemma_redundant_tagged(idxs, file, i_end - 1);
        lemma_row_tagged(idxs, file, i_end - 1, idxs.len() as int);
    }
}

proof fn lemma_row_tagged(idxs: Seq<IndexDef>, file: Seq<char>, i: int, j_end: int)
    requires
        0 <= i,
        j_end <= idxs.len(),
    ensures
        all_tagged(row_diags(idxs, file, i, j_end), "schema/redundant-index"@, Category::Schema),
    decreases j_end - i,
{
    if j_end > i + 1 {
        lemma_row_tagged(idxs, file, i, j_end - 1);
    }
}

/// Warning for each index whose fields are a proper prefix of another index on the same table.
pub struct RedundantIndex;

impl Rule for RedundantIndex {
    open spec fn spec_id(&self) -> Seq<char> {
        "schema/redundant-index"@
    }

    open spec fn spec_category(&self) -> Category {
        Category::Schema
    }

    open spec fn spec_check(&self, a: FileAnalysis) -> Seq<DiagnosticModel> {
        redundant_diags(a.index_definitions@, a.file_path@, a.index_definitions@.len() as int)
    }

    open spec fn spec_check_project(&self, ctx: ProjectContext) -> Seq<DiagnosticModel> {
        Seq::empty()
    }

    fn id(&self) -> (r: &'static str) {
        "schema/redundant-index"
    }

    fn category(&self) -> (r: Category) {
        Category::Schema
    }

    fn check(&self, a: &FileAnalysis) -> (r: Vec<Diagnostic>) {
        let ghost idxs = a.index_definitions@;
        let ghost file = a.file_path@;
        let mut out: Vec<Diagnostic> = Vec::new();
        let n = a.index_definitions.len();
        for i in 0..n
            invariant
                n == a.index_definitions.len(),
                idxs == a.index_definitions@,
                file == a.file_path@,
                models(out@) == redundant_diags(idxs, file, i as int),
        {
            assert(redundant_diags(idxs, file, i as int) + row_diags(idxs, file, i as int, i + 1)
                =~= redundant_diags(idxs, file, i as int));
            for j in i + 1..n
                invariant
                    i < n,
                    n == a.index_definitions.len(),
                    idxs == a.index_definitions@,
                    file == a.file_path@,
                    models(out@) == redundant_diags(idxs, file, i as int) + row_diags(idxs, file, i as int, j as int),
            {
                let x = &a.index_definitions[i];
                let y = &a.index_definitions[j];
                let ghost before = models(out@);
                if !x.table.as_str().is_empty() && str_eq(x.table.as_str(), y.table.as_str()) {
                    if is_strict_prefix(&x.fields, &y.fields) {
                        let mut m = owned("Index '");
                        push_str(&mut m, x.name.as_str());
                        push_str(&mut m, "' is redundant — it's a prefix of index '");
                        push_str(&mut m, y.name.as_str());
                        push_str(&mut m, "'");
                        let d = new_diagnostic("schema/redundant-index", Severity::Warning, Category::Schema, m, REDUNDANT_INDEX_HELP, &a.file_path, x.line, 1);
                        proof {
                            lemma_models_push(out@, d);
                        }
                        out.push(d);
                    }
                    let ghost mid = models(out@);
                    if is_strict_prefix(&y.fields, &x.fields) {
                        let mut m = owned("Index '");
                        push_str(&mut m, y.name.as_str());
                        push_str(&mut m, "' is redundant — it's a prefix of index '");
                        push_str(&mut m, x.name.as_str());
                        push_str(&mut m, "'");
                        let d = new_diagnostic("schema/redundant-index", Severity::Warning, Category::Schema, m, REDUNDANT_INDEX_HELP, &a.file_path, y.line, 1);
                        proof {
                            lemma_models_push(out@, d);
                        }
                        out.push(d);
                    }
                }
                proof {
                    assert(models(out@) =~= before + pair_diags(file, idxs[i as int], idxs[j as int]));
                    assert(row_diags(idxs, file, i as int, j + 1) == row_diags(idxs, file, i as int, j as int)
                        + pair_diags(file, idxs[i as int], idxs[j as int]));
                    assert(models(out@) =~= redundant_diags(idxs, file, i as int) + row_diags(idxs, file, i as int, j + 1));
                }
            }
            proof {
                assert(redundant_diags(idxs, file, i + 1) == redundant_diags(idxs, file, i as int) + row_diags(
                    idxs,
                    file,
                    i as int,
                    idxs.len() as int,
                ));
            }
        }
        proof {
            lemma_redundant_tagged(idxs, file, n as int);
        }
        out
    }

    fn check_project(&self, ctx: &ProjectContext) -> (r: Vec<Diagnostic>) {
        no_diagnostics()
    }
}

/// An index on a named table, as an occurrence of its table at its line, column 1.
pub open spec fn named_table_index() -> spec_fn(IndexDef) -> bool {
    |x: IndexDef| x.table@.len() > 0
}

pub open spec fn table_occurrence() -> spec_fn(IndexDef) -> (Seq<char>, u32, u32) {
    |x: IndexDef| (x.table@, x.line, 1u32)
}

pub const TOO_MANY_INDEXES_HELP: &'static str = "Each index adds storage overhead and slows writes. Consider consolidating or removing unused indexes.";

/// Info for each table with 8 or more indexes, at its first index; tables come in order of
/// their first index.
pub struct TooManyIndexes;

impl Rule for TooManyIndexes {
    open spec fn spec_id(&self) -> Seq<char> {
        "schema/too-many-indexes"@
    }

    open spec fn spec_category(&self) -> Category {
        Category::Schema
    }

    open spec fn spec_check(&self, a: FileAnalysis) -> Seq<DiagnosticModel> {
        select_map(
            groups_of(select_map(a.index_definitions@, named_table_index(), table_occurrence())),
            group_at_least(8),
            group_diag(
                "schema/too-many-indexes"@,
                Severity::Info,
                Category::Schema,
                "Table '"@,
                "' has "@,
                " indexes (soft warning threshold is 8)"@,
                TOO_MANY_INDEXES_HELP@,
                a.file_path@,
            ),
        )
    }

    open spec fn spec_check_project(&self, ctx: ProjectContext) -> Seq<DiagnosticModel> {
        Seq::empty()
    }

    fn id(&self) -> (r: &'static str) {
        "schema/too-many-indexes"
    }

    fn category(&self) -> (r: Category) {
        Category::Schema
    }

    fn check(&self, a: &FileAnalysis) -> (r: Vec<Diagnostic>) {
        let ghost keep = named_table_index();
        let ghost f = table_occurrence();
        let mut items: Vec<Keyed> = Vec::new();
        let n = a.index_definitions.len();
        for i in 0..n
            invariant
                n == a.index_definitions.len(),
                keep == named_table_index(),
                f == table_occurrence(),
                items@.map_values(|k: Keyed| keyed_model(k)) == select_map(a.index_definitions@.take(i as int), keep, f),
        {
            proof {
                lemma_select_map_step(a.index_definitions@, i as int, keep, f);
            }
            let x = &a.index_definitions[i];
            if !x.table.as_str().is_empty() {
                let k = Keyed { key: owned(x.table.as_str()), line: x.line, col: 1 };
                proof {
                    assert(items@.push(k).map_values(|k: Keyed| keyed_model(k)) =~= items@.map_values(
                        |k: Keyed| keyed_model(k),
                    ).push(keyed_model(k)));
                }
                items.push(k);
            }
        }
        proof {
            assert(a.index_definitions@.take(n as int) =~= a.index_definitions@);
        }
        let groups = group_by_key(&items);
        group_diagnostics(
            &groups,
            8,
            "schema/too-many-indexes",
            Severity::Info,
            Category::Schema,
            "Table '",
            "' has ",
            " indexes (soft warning threshold is 8)",
            TOO_MANY_INDEXES_HELP,
            &a.file_path,
        )
    }

    fn check_project(&self, ctx: &ProjectContext) -> (r: Vec<Diagnostic>) {
        no_diagnostics()
    }
}

/// The first field of each index that has fields.
pub open spec fn leading_fields(idxs: Seq<IndexDef>) -> Seq<Seq<char>> {
    select_map(idxs, |x: IndexDef| x.fields@.len() > 0, |x: IndexDef| x.fields@[0]@)
}

fn leading_field_list(idxs: &Vec<IndexDef>) -> (r: Vec<String>)
    ensures
        string_views(r@) == leading_fields(idxs@),
{
    let ghost keep = |x: IndexDef| x.fields@.len() > 0;
    let ghost f = |x: IndexDef| x.fields@[0]@;
    let mut out: Vec<String> = Vec::new();
    let n = idxs.len();
    for i in 0..n
        invariant
            n == idxs.len(),
            keep == (|x: IndexDef| x.fields@.len() > 0),
            f == (|x: IndexDef| x.fields@[0]@),
            string_views(out@) == select_map(idxs@.take(i as int), keep, f),
    {
        proof {
            lemma_select_map_step(idxs@, i as int, keep, f);
        }
        if idxs[i].fields.len() > 0 {
            let s = owned(idxs[i].fields[0].as_str());
            proof {
                lemma_string_views_push(out@, s);
            }
            out.push(s);
        }
    }
    proof {
        assert(idxs@.take(n as int) =~= idxs@);
    }
    out
}

pub const NO_INDEXES_HELP: &'static str = "Define indexes on fields you query frequently to avoid full table scans.";

pub const UNINDEXED_FILTER_HELP: &'static str = "Add an index starting with this field to avoid full table scans.";

/// A filtered field that no index starts with.
pub open spec fn unindexed_filter(leading: Seq<Seq<char>>) -> spec_fn(FilterField) -> bool {
    |ff: FilterField| !leading.contains(ff.field_name@)
}

pub open spec fn unindexed_filter_diag() -> spec_fn(FilterField) -> DiagnosticModel {
    |ff: FilterField|
        diagnostic_model(
            "schema/missing-index-for-query"@,
            Severity::Warning,
            Category::Schema,
            "Query filters on field `"@ + ff.field_name@ + "` but no index starts with that field"@,
            UNINDEXED_FILTER_HELP@,
            "convex/schema.ts"@,
            ff.line,
            ff.col,
        )
}

/// Project-level warnings, when a schema exists, for filtered fields that no index starts
/// with; a single warning when filters exist but no index is defined at all.
pub struct MissingIndexForQuery;

impl Rule for MissingIndexForQuery {
    open spec fn spec_id(&self) -> Seq<char> {
        "schema/missing-index-for-query"@
    }

    open spec fn spec_category(&self) -> Category {
        Category::Schema
    }

    open spec fn spec_check(&self, a: FileAnalysis) -> Seq<DiagnosticModel> {
        Seq::empty()
    }

    open spec fn spec_check_project(&self, ctx: ProjectContext) -> Seq<DiagnosticModel> {
        if !ctx.has_schema {
            Seq::empty()
        } else if ctx.all_index_definitions@.len() == 0 && ctx.all_filter_field_names@.len() > 0 {
            seq![
                diagnostic_model(
                    "schema/missing-index-for-query"@,
                    Severity::Warning,
                    Category::Schema,
                    "Schema exists but no database indexes are defined"@,
                    NO_INDEXES_HELP@,
                    "convex/schema.ts"@,
                    1,
                    1,
                ),
            ]
        } else {
            select_map(
                ctx.all_filter_field_names@,
                unindexed_filter(leading_fields(ctx.all_index_definitions@)),
                unindexed_filter_diag(),
            )
        }
    }

    fn id(&self) -> (r: &'static str) {
        "schema/missing-index-for-query"
    }

    fn category(&self) -> (r: Category) {
        Category::Schema
    }

    fn check(&self, a: &FileAnalysis) -> (r: Vec<Diagnostic>) {
        no_diagnostics()
    }

    fn check_project(&self, ctx: &ProjectContext) -> (r: Vec<Diagnostic>) {
        if !ctx.has_schema {
            return no_diagnostics();
        }
        if ctx.all_index_definitions.len() == 0 && ctx.all_filter_field_names.len() > 0 {
            let file = owned("convex/schema.ts");
            let d = new_diagnostic(
                "schema/missing-index-for-query",
                Severity::Warning,
                Category::Schema,
                owned("Schema exists but no database indexes are defined"),
                NO_INDEXES_HELP,
                &file,
                1,
                1,
            );
            let mut out: Vec<Diagnostic> = Vec::new();
            out.push(d);
            proof {
                assert(models(out@) =~= seq![d@]);
            }
            return out;
        }
        let leading = leading_field_list(&ctx.all_index_definitions);
        let ghost keep = unindexed_filter(leading_fields(ctx.all_index_definitions@));
        let ghost f = unindexed_filter_diag();
        let file = owned("convex/schema.ts");
        let mut out: Vec<Diagnostic> = Vec::new();
        let n = ctx.all_filter_field_names.len();
        for i in 0..n
            invariant
                n == ctx.all_filter_field_names.len(),
                string_views(leading@) == leading_fields(ctx.all_index_definitions@),
                keep == unindexed_filter(leading_fields(ctx.all_index_definitions@)),
                f == unindexed_filter_diag(),
                file@ == "convex/schema.ts"@,
                models(out@) == select_map(ctx.all_filter_field_names@.take(i as int), keep, f),
        {
            proof {
                lemma_select_map_step(ctx.all_filter_field_names@, i as int, keep, f);
            }
            let ff = &ctx.all_filter_field_names[i];
            if !contains_string(&leading, ff.field_name.as_str()) {
                let mut m = owned("Query filters on field `");
                push_str(&mut m, ff.field_name.as_str());
                push_str(&mut m, "` but no index starts with that field");
                let d = new_diagnostic(
                    "schema/missing-index-for-query",
                    Severity::Warning,
                    Category::Schema,
                    m,
                    UNINDEXED_FILTER_HELP,
                    &file,
                    ff.line,
                    ff.col,
                );
                proof {
                    lemma_models_push(out@, d);
                }
                out.push(d);
            }
        }
        proof {
            assert(ctx.all_filter_field_names@.take(n as int) =~= ctx.all_filter_field_names@);
            lemma_select_map_tagged(ctx.all_filter_field_names@, keep, f, self.spec_id(), self.spec_category());
        }
        out
    }
}

} // verus!
