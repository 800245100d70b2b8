//! One run of the tool over a project: the findings of every analysed file, of the files that
//! did not parse and of the project as a whole, and the score they give.
//!
//! The caller reads the files and the file system; what is reported is decided here.
use vstd::prelude::*;

use crate::config::{glob_hits, glob_match, last_component, rule_enabled, with_strictness, Config};
use crate::diagnostic::{lemma_models_add, lemma_models_push, models, Category, Diagnostic, DiagnosticModel, Severity};
use crate::rules::registry::{file_diagnostics, project_diagnostics, RuleRegistry};
use crate::rules::{diagnostic_model, lemma_select_map_step, new_diagnostic, select_map, FileAnalysis, FilterField, IndexDef, ProjectContext, SchemaIdField};
use crate::scoring::{compute_score, rounded, score_hundredths, ScoreResult};
use crate::text::{
    chars_of, contains_string, lemma_string_views_push, owned, push_str, str_eq, string_views, string_from_chars, trim_start_char, trim_start_matches_char,
    trim_white_space, trim_ws,
};
use crate::config::file_name_of;

verus! {

/// The rule that reports files that could not be parsed.
pub const PARSE_ERROR_RULE: &'static str = "correctness/file-parse-error";

/// The help of a parse failure.
pub const PARSE_ERROR_HELP: &'static str = "Fix syntax or parser-incompatible constructs in this file so all rules can run.";

/// The finding for a file that could not be parsed.
pub open spec fn parse_error_model(file: Seq<char>) -> DiagnosticModel {
    diagnostic_model(
        PARSE_ERROR_RULE@,
        Severity::Error,
        Category::Correctness,
        "Failed to parse file `"@ + file + "`"@,
        PARSE_ERROR_HELP@,
        file,
        0,
        0,
    )
}

/// The findings for the files that could not be parsed, unless their rule is off.
pub open spec fn parse_error_models(files: Seq<Seq<char>>, settings: Seq<(String, String)>) -> Seq<DiagnosticModel> {
    if rule_enabled(settings, PARSE_ERROR_RULE@) {
        files.map_values(|f: Seq<char>| parse_error_model(f))
    } else {
        Seq::empty()
    }
}

/// The findings of the enabled rules for each analysed file, file after file.
pub open spec fn analyses_diagnostics(
    registry: RuleRegistry,
    analyses: Seq<FileAnalysis>,
    settings: Seq<(String, String)>,
) -> Seq<DiagnosticModel>
    decreases analyses.len(),
{
    if analyses.len() == 0 {
        Seq::empty()
    } else {
        analyses_diagnostics(registry, analyses.drop_last(), settings) + file_diagnostics(
            registry@,
            analyses.last(),
            settings,
        )
    }
}

/// All findings of a run: per file, then parse failures, then (unless the run covers only
/// changed files, where `ctx` is `None`) the project-level findings.
pub open spec fn run_diagnostics(
    registry: RuleRegistry,
    settings: Seq<(String, String)>,
    analyses: Seq<FileAnalysis>,
    unparsed: Seq<Seq<char>>,
    ctx: Option<ProjectContext>,
) -> Seq<DiagnosticModel> {
    analyses_diagnostics(registry, analyses, settings) + parse_error_models(unparsed, settings) + match ctx {
        Some(c) => project_diagnostics(registry@, c, settings),
        None => Seq::empty(),
    }
}

/// The result of a run.
pub struct EngineResult {
    pub diagnostics: Vec<Diagnostic>,
    pub score: ScoreResult,
    pub project_name: String,
    pub files_scanned: usize,
    pub fail_below: u32,
}

impl EngineResult {
    /// The run fails a CI check: the score is below the configured floor.
    pub fn fails_ci(&self) -> (b: bool)
        ensures
            b == (self.score.value < self.fail_below),
    {
        self.score.value < self.fail_below
    }
}

/// The Node.js version that `convex.json` configures: `node.version` when that key exists,
/// else `nodeVersion`; `None` when the chosen value is not a string. Each argument is `None`
/// when its key is absent, `Some(None)` when its value is not a string.
pub open spec fn node_version_choice(
    nested: Option<Option<Seq<char>>>,
    flat: Option<Option<Seq<char>>>,
) -> Option<Seq<char>> {
    match nested {
        Some(v) => v,
        None => match flat {
            Some(v) => v,
            None => None,
        },
    }
}

/// Chooses the configured Node.js version from the two places `convex.json` may hold it.
pub fn node_version_from(nested: Option<Option<String>>, flat: Option<Option<String>>) -> (r: Option<String>)
    ensures
        crate::project::opt_view(r) == node_version_choice(
            match nested {
                Some(v) => Some(crate::project::opt_view(v)),
                None => None,
            },
            match flat {
                Some(v) => Some(crate::project::opt_view(v)),
                None => None,
            },
        ),
{
    match nested {
        Some(v) => v,
        None => match flat {
            Some(v) => v,
            None => None,
        },
    }
}

/// The finding for one file that could not be parsed.
pub fn parse_error_diagnostic(file: &String) -> (d: Diagnostic)
    ensures
        d@ == parse_error_model(file@),
{
    let mut m = owned("Failed to parse file `");
    push_str(&mut m, file.as_str());
    push_str(&mut m, "`");
    new_diagnostic(PARSE_ERROR_RULE, Severity::Error, Category::Correctness, m, PARSE_ERROR_HELP, file, 0, 0)
}

/// Evaluates a run: the enabled rules over each analysed file, a finding for each file in
/// `unparsed` (the files that could not be parsed), the project-level rules over `ctx` when
/// given, the strictness setting applied to all of them, and the score of what remains.
pub fn evaluate(
    registry: &RuleRegistry,
    config: &Config,
    analyses: &Vec<FileAnalysis>,
    unparsed: &Vec<String>,
    ctx: Option<&ProjectContext>,
    project_name: String,
    files_scanned: usize,
) -> (r: EngineResult)
    ensures
        models(r.diagnostics@) == with_strictness(
            config.convex.strictness,
            run_diagnostics(
                *registry,
                config.rules@,
                analyses@,
                unparsed@.map_values(|s: String| s@),
                match ctx {
                    Some(c) => Some(*c),
                    None => None,
                },
            ),
        ),
        r.score.value as int == rounded(score_hundredths(models(r.diagnostics@))),
        r.score.label@ == crate::scoring::score_label(r.score.value as int),
        r.project_name == project_name,
        r.files_scanned == files_scanned,
        r.fail_below == config.ci.fail_below,
{
    let mut all: Vec<Diagnostic> = Vec::new();
    let mut i: usize = 0;
    while i < analyses.len()
        invariant
            i <= analyses.len(),
            models(all@) == analyses_diagnostics(*registry, analyses@.take(i as int), config.rules@),
        decreases analyses.len() - i,
    {
        proof {
            assert(analyses@.take(i + 1).drop_last() =~= analyses@.take(i as int));
            assert(analyses@.take(i + 1).last() == analyses@[i as int]);
        }
        let ghost before = all@;
        let mut found = registry.run(&analyses[i], config);
        let ghost added = found@;
        all.append(&mut found);
        proof {
            lemma_models_add(before, added);
        }
        i = i + 1;
    }
    proof {
        assert(analyses@.take(analyses.len() as int) =~= analyses@);
    }
    let ghost per_file = all@;
    let ghost names = unparsed@.map_values(|s: String| s@);
    let mut failures: Vec<Diagnostic> = Vec::new();
    if config.is_rule_enabled(PARSE_ERROR_RULE) {
        let mut k: usize = 0;
        while k < unparsed.len()
            invariant
                k <= unparsed.len(),
                names == unparsed@.map_values(|s: String| s@),
                models(failures@) == names.take(k as int).map_values(|f: Seq<char>| parse_error_model(f)),
            decreases unparsed.len() - k,
        {
            let d = parse_error_diagnostic(&unparsed[k]);
            let ghost before = failures@;
            failures.push(d);
            proof {
                lemma_models_push(before, d);
                assert(names.take(k + 1).map_values(|f: Seq<char>| parse_error_model(f)) =~= names.take(
                    k as int,
                ).map_values(|f: Seq<char>| parse_error_model(f)).push(parse_error_model(names[k as int])));
            }
            k = k + 1;
        }
        proof {
            assert(names.take(unparsed.len() as int) =~= names);
        }
    } else {
        assert(models(failures@) =~= Seq::<DiagnosticModel>::empty());
    }
    let ghost fail_seq = failures@;
    all.append(&mut failures);
    proof {
        lemma_models_add(per_file, fail_seq);
    }
    let mut project: Vec<Diagnostic> = match ctx {
        Some(c) => registry.run_project(c, config),
        None => Vec::new(),
    };
    let ghost before = all@;
    let ghost added = project@;
    all.append(&mut project);
    proof {
        lemma_models_add(before, added);
        if ctx.is_none() {
            assert(models(added) =~= Seq::<DiagnosticModel>::empty());
        }
    }
    config.apply_strictness(&mut all);
    let score = compute_score(all.as_slice());
    EngineResult { diagnostics: all, score, project_name, files_scanned, fail_below: config.ci.fail_below }
}


/// `contents[i..j]` is one line: it holds no line feed and a line feed or an end of the text
/// bounds it on each side.
pub open spec fn is_line(contents: Seq<char>, i: int, j: int) -> bool {
    &&& 0 <= i <= j <= contents.len()
    &&& (i == 0 || contents[i - 1] == '\n')
    &&& (j == contents.len() || contents[j] == '\n')
    &&& forall|k: int| i <= k < j ==> contents[k] != '\n'
}

/// The name that a pattern is also tried as: its last `/`-separated component, or the
/// pattern itself when that component is empty.
pub open spec fn pattern_base(pattern: Seq<char>) -> Seq<char> {
    if last_component(pattern).len() > 0 {
        last_component(pattern)
    } else {
        pattern
    }
}

/// A trimmed `.gitignore` line lists `pattern`: it is not blank, a comment or a negation, and
/// without its leading slashes it equals the pattern or its base name, or is a glob that
/// matches one of them.
pub open spec fn gitignore_entry_lists(line: Seq<char>, pattern: Seq<char>) -> bool {
    let candidate = trim_start_char(line, '/');
    let base = pattern_base(pattern);
    &&& line.len() > 0
    &&& line[0] != '#'
    &&& line[0] != '!'
    &&& (candidate == pattern || candidate == base || glob_hits(candidate, pattern) || glob_hits(
        candidate,
        base,
    ))
}

/// Some line of a `.gitignore` file lists `pattern`.
pub open spec fn gitignore_lists(contents: Seq<char>, pattern: Seq<char>) -> bool {
    exists|i: int, j: int|
        is_line(contents, i, j) && #[trigger] gitignore_entry_lists(trim_ws(contents.subrange(i, j)), pattern)
}

/// The characters of `v` from position `a` up to `b`.
fn chars_between(v: &Vec<char>, a: usize, b: usize) -> (r: Vec<char>)
    requires
        a <= b <= v.len(),
    ensures
        r@ == v@.subrange(a as int, b as int),
{
    let mut r: Vec<char> = Vec::new();
    let mut k: usize = a;
    while k < b
        invariant
            a <= k <= b <= v.len(),
            r@ == v@.subrange(a as int, k as int),
        decreases b - k,
    {
        r.push(v[k]);
        proof {
            assert(v@.subrange(a as int, k + 1) =~= v@.subrange(a as int, k as int).push(v@[k as int]));
        }
        k = k + 1;
    }
    r
}

/// Whether a trimmed `.gitignore` line lists `pattern`.
pub fn gitignore_entry_matches(line: &str, pattern: &str) -> (b: bool)
    ensures
        b == gitignore_entry_lists(line@, pattern@),
{
    let lv = chars_of(line);
    if lv.len() == 0 || lv[0] == '#' || lv[0] == '!' {
        return false;
    }
    let candidate = trim_start_matches_char(line, '/');
    let name = file_name_of(pattern);
    let base = if name.as_str().unicode_len() > 0 { name } else { owned(pattern) };
    if str_eq(candidate.as_str(), pattern) || str_eq(candidate.as_str(), base.as_str()) {
        return true;
    }
    let by_pattern = match glob_match(candidate.as_str(), pattern) {
        Some(hit) => hit,
        None => false,
    };
    let by_base = match glob_match(candidate.as_str(), base.as_str()) {
        Some(hit) => hit,
        None => false,
    };
    by_pattern || by_base
}

/// A line that ends at `j` begins at `start` when `start` follows the last line feed before `j`.
proof fn lemma_line_start(contents: Seq<char>, start: int, i: int, j: int)
    requires
        is_line(contents, i, j),
        0 <= start <= j,
        start == 0 || contents[start - 1] == '\n',
        forall|t: int| start <= t < j ==> contents[t] != '\n',
    ensures
        i == start,
{
    if i < start {
        assert(contents[start - 1] != '\n');
    } else if i > start {
        assert(contents[i - 1] != '\n');
    }
}

/// Whether the line `contents[start..end]`, trimmed, lists `pattern`.
fn line_lists(cv: &Vec<char>, start: usize, end: usize, pattern: &str) -> (b: bool)
    requires
        start <= end <= cv.len(),
    ensures
        b == gitignore_entry_lists(trim_ws(cv@.subrange(start as int, end as int)), pattern@),
{
    let seg = chars_between(cv, start, end);
    let t = trim_white_space(seg.as_slice());
    let text = string_from_chars(t.as_slice());
    gitignore_entry_matches(text.as_str(), pattern)
}

/// Whether some line of the `.gitignore` text `contents` lists `pattern`.
pub fn gitignore_contains(contents: &str, pattern: &str) -> (b: bool)
    ensures
        b == gitignore_lists(contents@, pattern@),
{
    let cv = chars_of(contents);
    let mut start: usize = 0;
    let mut k: usize = 0;
    while k < cv.len()
        invariant
            start <= k <= cv.len(),
            cv@ == contents@,
            start == 0 || cv@[start - 1] == '\n',
            forall|t: int| start <= t < k ==> cv@[t] != '\n',
            forall|i: int, j: int|
                is_line(contents@, i, j) && j < k ==> !#[trigger] gitignore_entry_lists(
                    trim_ws(contents@.subrange(i, j)),
                    pattern@,
                ),
        decreases cv.len() - k,
    {
        if cv[k] == '\n' {
            if line_lists(&cv, start, k, pattern) {
                assert(is_line(contents@, start as int, k as int));
                return true;
            }
            proof {
                assert forall|i: int, j: int|
                    is_line(contents@, i, j) && j < k + 1 implies !#[trigger] gitignore_entry_lists(
                        trim_ws(contents@.subrange(i, j)),
                        pattern@,
                    ) by {
                    if j == k {
                        lemma_line_start(contents@, start as int, i, j);
                    }
                }
            }
            start = k + 1;
        } else {
            proof {
                assert forall|i: int, j: int|
                    is_line(contents@, i, j) && j < k + 1 implies !#[trigger] gitignore_entry_lists(
                        trim_ws(contents@.subrange(i, j)),
                        pattern@,
                    ) by {
                    if j == k {
                        assert(contents@[j] != '\n');
                    }
                }
            }
        }
        k = k + 1;
    }
    let last = line_lists(&cv, start, cv.len(), pattern);
    proof {
        if last {
            assert(is_line(contents@, start as int, cv.len() as int));
        } else {
            assert forall|i: int, j: int| is_line(contents@, i, j) implies !#[trigger] gitignore_entry_lists(
                trim_ws(contents@.subrange(i, j)),
                pattern@,
            ) by {
                if j == cv.len() {
                    lemma_line_start(contents@, start as int, i, j);
                }
            }
        }
    }
    last
}


/// What the caller found on disk for the project-level rules.
#[derive(Debug, Clone)]
pub struct ProjectFacts {
    pub has_schema: bool,
    pub has_auth_config: bool,
    pub has_convex_json: bool,
    pub has_env_local: bool,
    pub env_gitignored: bool,
    pub has_generated_dir: bool,
    pub has_tsconfig: bool,
    pub node_version_from_config: Option<String>,
    pub generated_files_modified: bool,
}

/// The content of an index definition.
pub open spec fn index_model(d: IndexDef) -> (Seq<char>, Seq<char>, Seq<Seq<char>>, u32) {
    (d.table@, d.name@, d.fields@.map_values(|f: String| f@), d.line)
}

/// The content of a schema id field.
pub open spec fn id_field_model(f: SchemaIdField) -> (Seq<char>, Seq<char>, Seq<char>, Seq<char>, u32, u32) {
    (f.field_name@, f.table_ref@, f.table_id@, f.file@, f.line, f.col)
}

/// The content of a filtered field.
pub open spec fn filter_model(f: FilterField) -> (Seq<char>, u32, u32) {
    (f.field_name@, f.line, f.col)
}

/// The index definitions of all files, file after file.
pub open spec fn all_indexes(analyses: Seq<FileAnalysis>) -> Seq<(Seq<char>, Seq<char>, Seq<Seq<char>>, u32)>
    decreases analyses.len(),
{
    if analyses.len() == 0 {
        Seq::empty()
    } else {
        all_indexes(analyses.drop_last()) + analyses.last().index_definitions@.map_values(|d: IndexDef| index_model(d))
    }
}

/// The schema id fields of all files, file after file.
pub open spec fn all_id_fields(analyses: Seq<FileAnalysis>) -> Seq<(Seq<char>, Seq<char>, Seq<char>, Seq<char>, u32, u32)>
    decreases analyses.len(),
{
    if analyses.len() == 0 {
        Seq::empty()
    } else {
        all_id_fields(analyses.drop_last()) + analyses.last().schema_id_fields@.map_values(|f: SchemaIdField| id_field_model(f))
    }
}

/// The filtered fields of all files, file after file.
pub open spec fn all_filters(analyses: Seq<FileAnalysis>) -> Seq<(Seq<char>, u32, u32)>
    decreases analyses.len(),
{
    if analyses.len() == 0 {
        Seq::empty()
    } else {
        all_filters(analyses.drop_last()) + analyses.last().filter_field_names@.map_values(|f: FilterField| filter_model(f))
    }
}

/// Some function of some file checks authentication.
pub open spec fn any_auth(analyses: Seq<FileAnalysis>) -> bool {
    exists|i: int, j: int|
        0 <= i < analyses.len() && 0 <= j < analyses[i].functions@.len()
            && (#[trigger] analyses[i].functions@[j]).has_auth_check
}

fn copy_strings(v: &Vec<String>) -> (r: Vec<String>)
    ensures
        r@.map_values(|s: String| s@) == v@.map_values(|s: String| s@),
{
    let mut r: Vec<String> = Vec::new();
    let mut k: usize = 0;
    while k < v.len()
        invariant
            k <= v.len(),
            r@.map_values(|s: String| s@) == v@.take(k as int).map_values(|s: String| s@),
        decreases v.len() - k,
    {
        r.push(owned(v[k].as_str()));
        proof {
            assert(v@.take(k + 1).map_values(|s: String| s@) =~= v@.take(k as int).map_values(|s: String| s@).push(v@[k as int]@));
            assert(r@.map_values(|s: String| s@) =~= v@.take(k + 1).map_values(|s: String| s@));
        }
        k = k + 1;
    }
    assert(v@.take(v.len() as int) =~= v@);
    r
}

fn copy_index(d: &IndexDef) -> (r: IndexDef)
    ensures
        index_model(r) == index_model(*d),
{
    IndexDef { table: owned(d.table.as_str()), name: owned(d.name.as_str()), fields: copy_strings(&d.fields), line: d.line }
}

fn copy_id_field(f: &SchemaIdField) -> (r: SchemaIdField)
    ensures
        id_field_model(r) == id_field_model(*f),
{
    SchemaIdField {
        field_name: owned(f.field_name.as_str()),
        table_ref: owned(f.table_ref.as_str()),
        table_id: owned(f.table_id.as_str()),
        file: owned(f.file.as_str()),
        line: f.line,
        col: f.col,
    }
}

fn copy_filter(f: &FilterField) -> (r: FilterField)
    ensures
        filter_model(r) == filter_model(*f),
{
    FilterField { field_name: owned(f.field_name.as_str()), line: f.line, col: f.col }
}

/// Whether some function of `a` checks authentication.
fn file_uses_auth(a: &FileAnalysis) -> (b: bool)
    ensures
        b == exists|j: int| 0 <= j < a.functions@.len() && (#[trigger] a.functions@[j]).has_auth_check,
{
    let mut j: usize = 0;
    while j < a.functions.len()
        invariant
            j <= a.functions.len(),
            forall|t: int| 0 <= t < j ==> !(#[trigger] a.functions@[t]).has_auth_check,
        decreases a.functions.len() - j,
    {
        if a.functions[j].has_auth_check {
            return true;
        }
        j = j + 1;
    }
    false
}

/// The context of the project-level rules: the facts found on disk, whether any function
/// checks authentication, and the index definitions, id fields and filtered fields of all
/// analysed files, file after file.
pub fn project_context(facts: &ProjectFacts, analyses: &Vec<FileAnalysis>) -> (ctx: ProjectContext)
    ensures
        ctx.has_schema == facts.has_schema,
        ctx.has_auth_config == facts.has_auth_config,
        ctx.has_convex_json == facts.has_convex_json,
        ctx.has_env_local == facts.has_env_local,
        ctx.env_gitignored == facts.env_gitignored,
        ctx.has_generated_dir == facts.has_generated_dir,
        ctx.has_tsconfig == facts.has_tsconfig,
        ctx.generated_files_modified == facts.generated_files_modified,
        crate::project::opt_view(ctx.node_version_from_config) == crate::project::opt_view(facts.node_version_from_config),
        ctx.uses_auth == any_auth(analyses@),
        ctx.all_index_definitions@.map_values(|d: IndexDef| index_model(d)) == all_indexes(analyses@),
        ctx.all_schema_id_fields@.map_values(|f: SchemaIdField| id_field_model(f)) == all_id_fields(analyses@),
        ctx.all_filter_field_names@.map_values(|f: FilterField| filter_model(f)) == all_filters(analyses@),
{
    let mut uses_auth = false;
    let mut indexes: Vec<IndexDef> = Vec::new();
    let mut ids: Vec<SchemaIdField> = Vec::new();
    let mut filters: Vec<FilterField> = Vec::new();
    let mut i: usize = 0;
    while i < analyses.len()
        invariant
            i <= analyses.len(),
            uses_auth == any_auth(analyses@.take(i as int)),
            indexes@.map_values(|d: IndexDef| index_model(d)) == all_indexes(analyses@.take(i as int)),
            ids@.map_values(|f: SchemaIdField| id_field_model(f)) == all_id_fields(analyses@.take(i as int)),
            filters@.map_values(|f: FilterField| filter_model(f)) == all_filters(analyses@.take(i as int)),
        decreases analyses.len() - i,
    {
        let a = &analyses[i];
        proof {
            assert(analyses@.take(i + 1).drop_last() =~= analyses@.take(i as int));
            assert(analyses@.take(i + 1).last() == analyses@[i as int]);
        }
        let here = file_uses_auth(a);
        proof {
            let pre = analyses@.take(i as int);
            let now = analyses@.take(i + 1);
            if here {
                let j = choose|j: int| 0 <= j < a.functions@.len() && (#[trigger] a.functions@[j]).has_auth_check;
                assert(now[i as int] == *a);
                assert(now[i as int].functions@[j].has_auth_check);
            }
            if any_auth(now) && !any_auth(pre) {
                let (x, y) = choose|x: int, y: int|
                    0 <= x < now.len() && 0 <= y < now[x].functions@.len() && (#[trigger] now[x].functions@[y]).has_auth_check;
                if x < i {
                    assert(pre[x] == now[x]);
                    assert(pre[x].functions@[y].has_auth_check);
                } else {
                    assert(now[x] == *a);
                }
            }
            if any_auth(pre) {
                let (x, y) = choose|x: int, y: int|
                    0 <= x < pre.len() && 0 <= y < pre[x].functions@.len() && (#[trigger] pre[x].functions@[y]).has_auth_check;
                assert(now[x] == pre[x]);
                assert(now[x].functions@[y].has_auth_check);
            }
        }
        uses_auth = uses_auth || here;
        let ghost before_i = indexes@;
        let mut k: usize = 0;
        while k < a.index_definitions.len()
            invariant
                k <= a.index_definitions.len(),
                indexes@.map_values(|d: IndexDef| index_model(d)) == before_i.map_values(|d: IndexDef| index_model(d))
                    + a.index_definitions@.take(k as int).map_values(|d: IndexDef| index_model(d)),
            decreases a.index_definitions.len() - k,
        {
            let d = copy_index(&a.index_definitions[k]);
            let ghost prev = indexes@;
            indexes.push(d);
            proof {
                assert(indexes@.map_values(|x: IndexDef| index_model(x)) =~= prev.map_values(|x: IndexDef| index_model(x)).push(index_model(d)));
                assert(a.index_definitions@.take(k + 1).map_values(|d: IndexDef| index_model(d)) =~= a.index_definitions@.take(
                    k as int,
                ).map_values(|d: IndexDef| index_model(d)).push(index_model(a.index_definitions@[k as int])));
                assert(indexes@.map_values(|d: IndexDef| index_model(d)) =~= before_i.map_values(|d: IndexDef| index_model(d))
                    + a.index_definitions@.take(k + 1).map_values(|d: IndexDef| index_model(d)));
            }
            k = k + 1;
        }
        assert(a.index_definitions@.take(a.index_definitions.len() as int) =~= a.index_definitions@);
        let ghost before_f = ids@;
        let mut k: usize = 0;
        while k < a.schema_id_fields.len()
            invariant
                k <= a.schema_id_fields.len(),
                ids@.map_values(|f: SchemaIdField| id_field_model(f)) == before_f.map_values(|f: SchemaIdField| id_field_model(f))
                    + a.schema_id_fields@.take(k as int).map_values(|f: SchemaIdField| id_field_model(f)),
            decreases a.schema_id_fields.len() - k,
        {
            let f = copy_id_field(&a.schema_id_fields[k]);
            let ghost prev = ids@;
            ids.push(f);
            proof {
                assert(ids@.map_values(|x: SchemaIdField| id_field_model(x)) =~= prev.map_values(|x: SchemaIdField| id_field_model(x)).push(id_field_model(f)));
                assert(a.schema_id_fields@.take(k + 1).map_values(|f: SchemaIdField| id_field_model(f)) =~= a.schema_id_fields@.take(
                    k as int,
                ).map_values(|f: SchemaIdField| id_field_model(f)).push(id_field_model(a.schema_id_fields@[k as int])));
                assert(ids@.map_values(|f: SchemaIdField| id_field_model(f)) =~= before_f.map_values(|f: SchemaIdField| id_field_model(f))
                    + a.schema_id_fields@.take(k + 1).map_values(|f: SchemaIdField| id_field_model(f)));
            }
            k = k + 1;
        }
        assert(a.schema_id_fields@.take(a.schema_id_fields.len() as int) =~= a.schema_id_fields@);
        let ghost before_n = filters@;
        let mut k: usize = 0;
        while k < a.filter_field_names.len()
            invariant
                k <= a.filter_field_names.len(),
                filters@.map_values(|f: FilterField| filter_model(f)) == before_n.map_values(|f: FilterField| filter_model(f))
                    + a.filter_field_names@.take(k as int).map_values(|f: FilterField| filter_model(f)),
            decreases a.filter_field_names.len() - k,
        {
            let f = copy_filter(&a.filter_field_names[k]);
            let ghost prev = filters@;
            filters.push(f);
            proof {
                assert(filters@.map_values(|x: FilterField| filter_model(x)) =~= prev.map_values(|x: FilterField| filter_model(x)).push(filter_model(f)));
                assert(a.filter_field_names@.take(k + 1).map_values(|f: FilterField| filter_model(f)) =~= a.filter_field_names@.take(
                    k as int,
                ).map_values(|f: FilterField| filter_model(f)).push(filter_model(a.filter_field_names@[k as int])));
                assert(filters@.map_values(|f: FilterField| filter_model(f)) =~= before_n.map_values(|f: FilterField| filter_model(f))
                    + a.filter_field_names@.take(k + 1).map_values(|f: FilterField| filter_model(f)));
            }
            k = k + 1;
        }
        assert(a.filter_field_names@.take(a.filter_field_names.len() as int) =~= a.filter_field_names@);
        i = i + 1;
    }
    assert(analyses@.take(analyses.len() as int) =~= analyses@);
    ProjectContext {
        has_schema: facts.has_schema,
        has_auth_config: facts.has_auth_config,
        has_convex_json: facts.has_convex_json,
        has_env_local: facts.has_env_local,
        env_gitignored: facts.env_gitignored,
        uses_auth,
        has_generated_dir: facts.has_generated_dir,
        has_tsconfig: facts.has_tsconfig,
        node_version_from_config: match &facts.node_version_from_config {
            Some(v) => Some(owned(v.as_str())),
            None => None,
        },
        generated_files_modified: facts.generated_files_modified,
        all_index_definitions: indexes,
        all_schema_id_fields: ids,
        all_filter_field_names: filters,
    }
}

/// How a run chooses the files it scans.
pub enum ScanMode {
    /// A full run: every discovered file, and the project-level rules.
    Full,
    /// A diff run whose changed files could not be listed: every discovered file, and no
    /// project-level rules.
    DiffUnknown,
    /// A diff run, with the forms of the changed paths: the discovered files that have a path
    /// form among them, and no project-level rules.
    Diff(Vec<String>),
}

/// A discovered file, with the forms its path may take in a list of changed paths.
pub struct FileForms {
    pub file: String,
    pub forms: Vec<String>,
}

/// The files a run scans, and whether the project-level rules run.
pub struct ScanPlan {
    pub files: Vec<String>,
    pub project_rules: bool,
}

/// Some form of the file's path is among the changed paths.
pub open spec fn is_changed(forms: Seq<String>, changed: Seq<String>) -> bool {
    exists|i: int| 0 <= i < forms.len() && string_views(changed).contains((#[trigger] forms[i])@)
}

/// The discovered files that a run in `mode` scans, in their order.
pub open spec fn planned_files(files: Seq<FileForms>, mode: ScanMode) -> Seq<Seq<char>> {
    match mode {
        ScanMode::Diff(changed) => select_map(
            files,
            |f: FileForms| is_changed(f.forms@, changed@),
            |f: FileForms| f.file@,
        ),
        _ => files.map_values(|f: FileForms| f.file@),
    }
}

fn has_changed_form(forms: &Vec<String>, changed: &Vec<String>) -> (b: bool)
    ensures
        b == is_changed(forms@, changed@),
{
    let mut i: usize = 0;
    while i < forms.len()
        invariant
            i <= forms.len(),
            forall|k: int| 0 <= k < i ==> !string_views(changed@).contains((#[trigger] forms@[k])@),
        decreases forms.len() - i,
    {
        if contains_string(changed, forms[i].as_str()) {
            return true;
        }
        i = i + 1;
    }
    false
}

/// Plans a run: which of the discovered `files` it scans, and whether the project-level rules
/// run, which they do on a full run only.
pub fn plan_scan(files: &Vec<FileForms>, mode: &ScanMode) -> (r: ScanPlan)
    ensures
        string_views(r.files@) == planned_files(files@, *mode),
        r.project_rules == (*mode is Full),
{
    let ghost keep = |f: FileForms| match *mode {
        ScanMode::Diff(ch) => is_changed(f.forms@, ch@),
        _ => true,
    };
    let mut out: Vec<String> = Vec::new();
    let n = files.len();
    for i in 0..n
        invariant
            n == files.len(),
            keep == (|f: FileForms| match *mode {
                ScanMode::Diff(ch) => is_changed(f.forms@, ch@),
                _ => true,
            }),
            string_views(out@) == select_map(files@.take(i as int), keep, |f: FileForms| f.file@),
    {
        proof {
            lemma_select_map_step(files@, i as int, keep, |f: FileForms| f.file@);
        }
        let f = &files[i];
        let take = match mode {
            ScanMode::Diff(ch) => has_changed_form(&f.forms, ch),
            _ => true,
        };
        if take {
            let ghost before = out@;
            out.push(owned(f.file.as_str()));
            proof {
                lemma_string_views_push(before, out@.last());
            }
        }
    }
    proof {
        assert(files@.take(n as int) =~= files@);
        if let ScanMode::Diff(ch) = mode {
            assert(keep =~= |f: FileForms| is_changed(f.forms@, ch@));
        } else {
            lemma_select_map_all(files@, keep, |f: FileForms| f.file@);
        }
    }
    let project_rules = match mode {
        ScanMode::Full => true,
        _ => false,
    };
    ScanPlan { files: out, project_rules }
}

/// Keeping every element maps the whole sequence.
proof fn lemma_select_map_all<A, B>(s: Seq<A>, keep: spec_fn(A) -> bool, f: spec_fn(A) -> B)
    requires
        forall|a: A| #[trigger] keep(a),
    ensures
        select_map(s, keep, f) == s.map_values(f),
    decreases s.len(),
{
    if s.len() > 0 {
        lemma_select_map_all(s.drop_last(), keep, f);
        assert(s.map_values(f) =~= s.drop_last().map_values(f).push(f(s.last())));
    } else {
        assert(s.map_values(f) =~= Seq::<B>::empty());
    }
}

} // verus!
