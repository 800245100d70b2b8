//! Reports of a run: the score alone, or the coloured terminal report.
use vstd::prelude::*;

use core::time::Duration;
use owo_colors::OwoColorize;

use crate::diagnostic::{category_name, models, Category, Diagnostic, DiagnosticModel, Severity};
use crate::scoring::ScoreResult;
use crate::text::{decimal, decimal_string, owned, push_char, push_str};

verus! {

/// The version the reports print.
pub const VERSION: &'static str = "0.1.0";

/// A way of presenting the findings of a run.
pub trait Reporter {
    fn format(
        &self,
        diagnostics: &[Diagnostic],
        score: &ScoreResult,
        project_name: &str,
        verbose: bool,
        files_scanned: usize,
        elapsed: Duration,
    ) -> String;
}

/// The score alone, on a line of its own.
pub fn score_only(score: &ScoreResult) -> (r: String)
    ensures
        r@ == decimal(score.value as nat).push('\n'),
{
    let mut r = decimal_string(score.value as u64);
    push_char(&mut r, '\n');
    r
}

/// `s` between an opening and a closing escape sequence.
pub open spec fn styled(open: Seq<char>, s: Seq<char>, close: Seq<char>) -> Seq<char> {
    open + s + close
}

/// Bold text, as `OwoColorize::bold` writes it.
pub open spec fn bold(s: Seq<char>) -> Seq<char> {
    styled("\x1b[1m"@, s, "\x1b[0m"@)
}

/// Dimmed text, as `OwoColorize::dimmed` writes it.
pub open spec fn dimmed(s: Seq<char>) -> Seq<char> {
    styled("\x1b[2m"@, s, "\x1b[0m"@)
}

/// Text in a foreground colour with ANSI code `code`, as `OwoColorize` writes it.
pub open spec fn colour(code: Seq<char>, s: Seq<char>) -> Seq<char> {
    styled("\x1b["@ + code + "m"@, s, "\x1b[39m"@)
}

pub open spec fn red(s: Seq<char>) -> Seq<char> {
    colour("31"@, s)
}

pub open spec fn green(s: Seq<char>) -> Seq<char> {
    colour("32"@, s)
}

pub open spec fn yellow(s: Seq<char>) -> Seq<char> {
    colour("33"@, s)
}

pub open spec fn blue(s: Seq<char>) -> Seq<char> {
    colour("34"@, s)
}

pub open spec fn cyan(s: Seq<char>) -> Seq<char> {
    colour("36"@, s)
}

/// `s` in bold: `OwoColorize::bold`, written out with `to_string`.
#[verifier::external_body]
fn paint_bold(s: &str) -> (r: String)
    ensures
        r@ == bold(s@),
{
    s.bold().to_string()
}

/// `s` dimmed: `OwoColorize::dimmed`, written out with `to_string`.
#[verifier::external_body]
fn paint_dimmed(s: &str) -> (r: String)
    ensures
        r@ == dimmed(s@),
{
    s.dimmed().to_string()
}

/// `s` in red: `OwoColorize::red`, written out with `to_string`.
#[verifier::external_body]
fn paint_red(s: &str) -> (r: String)
    ensures
        r@ == red(s@),
{
    s.red().to_string()
}

/// `s` in green: `OwoColorize::green`, written out with `to_string`.
#[verifier::external_body]
fn paint_green(s: &str) -> (r: String)
    ensures
        r@ == green(s@),
{
    s.green().to_string()
}

/// `s` in yellow: `OwoColorize::yellow`, written out with `to_string`.
#[verifier::external_body]
fn paint_yellow(s: &str) -> (r: String)
    ensures
        r@ == yellow(s@),
{
    s.yellow().to_string()
}

/// `s` in blue: `OwoColorize::blue`, written out with `to_string`.
#[verifier::external_body]
fn paint_blue(s: &str) -> (r: String)
    ensures
        r@ == blue(s@),
{
    s.blue().to_string()
}

/// `s` in cyan: `OwoColorize::cyan`, written out with `to_string`.
#[verifier::external_body]
fn paint_cyan(s: &str) -> (r: String)
    ensures
        r@ == cyan(s@),
{
    s.cyan().to_string()
}

/// How many of `ds` have severity `s`.
pub open spec fn count_severity(ds: Seq<DiagnosticModel>, s: Severity) -> nat
    decreases ds.len(),
{
    if ds.len() == 0 {
        0
    } else {
        count_severity(ds.drop_last(), s) + if ds.last().severity == s {
            1nat
        } else {
            0nat
        }
    }
}

/// The score, coloured by band: green from 85, yellow from 70, red below.
pub open spec fn score_text(value: u32) -> Seq<char> {
    if 85 <= value <= 100 {
        green(decimal(value as nat))
    } else if 70 <= value <= 84 {
        yellow(decimal(value as nat))
    } else {
        red(decimal(value as nat))
    }
}

/// The tag of a severity in the terminal report.
pub open spec fn severity_tag(s: Severity) -> Seq<char> {
    match s {
        Severity::Error => bold(red("ERROR"@)),
        Severity::Warning => yellow(" WARN"@),
        Severity::Info => blue(" INFO"@),
    }
}

/// The lines of one finding; with `verbose`, also its place.
pub open spec fn entry_lines(d: DiagnosticModel, verbose: bool) -> Seq<char> {
    "  "@ + severity_tag(d.severity) + "  "@ + dimmed(d.rule) + "\n"@ + "         "@ + d.message
        + "\n"@ + (if verbose {
        "         "@ + dimmed(d.file) + ":"@ + decimal(d.line as nat) + ":"@ + decimal(d.column as nat)
            + "\n"@
    } else {
        Seq::empty()
    }) + "         "@ + cyan("Help"@) + ": "@ + d.help + "\n"@
}

/// The lines of the findings of category `c`, in order.
pub open spec fn category_entries(ds: Seq<DiagnosticModel>, c: Category, verbose: bool) -> Seq<char>
    decreases ds.len(),
{
    if ds.len() == 0 {
        Seq::empty()
    } else {
        category_entries(ds.drop_last(), c, verbose) + if ds.last().category == c {
            entry_lines(ds.last(), verbose)
        } else {
            Seq::empty()
        }
    }
}

/// `n` box-drawing dashes.
pub open spec fn dashes(n: nat) -> Seq<char> {
    Seq::new(n, |i: int| '─')
}

/// The rule that opens the section of category `c`.
pub open spec fn section_header(c: Category) -> Seq<char> {
    let len = category_name(c).len();
    "\n  "@ + dimmed("──"@) + " "@ + category_name(c) + " "@ + dimmed(
        dashes(if len > 49 { 1 } else { (50 - len) as nat }),
    ) + "\n"@
}

/// Some finding has category `c`.
pub open spec fn has_category(ds: Seq<DiagnosticModel>, c: Category) -> bool {
    exists|i: int| 0 <= i < ds.len() && (#[trigger] ds[i]).category == c
}

/// The section of category `c`: nothing when no finding has it.
pub open spec fn category_section(ds: Seq<DiagnosticModel>, c: Category, verbose: bool) -> Seq<char> {
    if has_category(ds, c) {
        section_header(c) + category_entries(ds, c, verbose)
    } else {
        Seq::empty()
    }
}

/// The categories in the order of their names.
pub open spec fn categories_by_name() -> Seq<Category> {
    seq![
        Category::Architecture,
        Category::ClientSide,
        Category::Configuration,
        Category::Correctness,
        Category::Performance,
        Category::Schema,
        Category::Security,
    ]
}

/// The sections of the first `k` categories by name.
pub open spec fn sections(ds: Seq<DiagnosticModel>, k: int, verbose: bool) -> Seq<char>
    decreases k,
{
    if k <= 0 {
        Seq::empty()
    } else {
        sections(ds, k - 1, verbose) + category_section(ds, categories_by_name()[k - 1], verbose)
    }
}

/// The terminal report: title, project, score, counts by severity, then one section per
/// category that has findings, categories in order of their names.
pub open spec fn cli_report(
    ds: Seq<DiagnosticModel>,
    value: u32,
    label: Seq<char>,
    project_name: Seq<char>,
    verbose: bool,
) -> Seq<char> {
    "\n  "@ + bold("convex-doctor"@) + " v"@ + VERSION@ + "\n\n"@ + "  Project: "@ + project_name + "\n"@
        + "\n  Score: "@ + score_text(value) + " / 100 — "@ + label + "\n\n"@ + "  "@ + red(
        decimal(count_severity(ds, Severity::Error)),
    ) + " errors, "@ + yellow(decimal(count_severity(ds, Severity::Warning))) + " warnings, "@
        + blue(decimal(count_severity(ds, Severity::Info))) + " info\n"@ + sections(ds, 7, verbose)
        + "\n"@
}


/// The opening lines of a finding's entry: severity, rule and message.
pub open spec fn entry_head(d: DiagnosticModel) -> Seq<char> {
    "  "@ + severity_tag(d.severity) + "  "@ + dimmed(d.rule) + "\n"@ + "         "@ + d.message
        + "\n"@
}

/// The line that gives a finding's place: file, line and column.
pub open spec fn place_line(d: DiagnosticModel) -> Seq<char> {
    "         "@ + dimmed(d.file) + ":"@ + decimal(d.line as nat) + ":"@ + decimal(d.column as nat)
        + "\n"@
}

/// The closing line of a finding's entry: its help.
pub open spec fn help_line(d: DiagnosticModel) -> Seq<char> {
    "         "@ + cyan("Help"@) + ": "@ + d.help + "\n"@
}

/// The title, project, score and counts that open the report.
pub open spec fn report_head(ds: Seq<DiagnosticModel>, value: u32, label: Seq<char>, project_name: Seq<char>) -> Seq<char> {
    "\n  "@ + bold("convex-doctor"@) + " v"@ + VERSION@ + "\n\n"@ + "  Project: "@ + project_name + "\n"@
        + "\n  Score: "@ + score_text(value) + " / 100 — "@ + label + "\n\n"@ + "  "@ + red(
        decimal(count_severity(ds, Severity::Error)),
    ) + " errors, "@ + yellow(decimal(count_severity(ds, Severity::Warning))) + " warnings, "@
        + blue(decimal(count_severity(ds, Severity::Info))) + " info\n"@
}

/// The verbose report differs from the quiet one only inside the sections, and there only by
/// the place line that each entry gets right after its message line.
pub proof fn law_verbose_adds_place_lines(
    ds: Seq<DiagnosticModel>,
    value: u32,
    label: Seq<char>,
    project_name: Seq<char>,
    d: DiagnosticModel,
)
    ensures
        cli_report(ds, value, label, project_name, false) == report_head(ds, value, label, project_name)
            + sections(ds, 7, false) + "\n"@,
        cli_report(ds, value, label, project_name, true) == report_head(ds, value, label, project_name)
            + sections(ds, 7, true) + "\n"@,
        entry_lines(d, false) == entry_head(d) + help_line(d),
        entry_lines(d, true) == entry_head(d) + place_line(d) + help_line(d),
{
    assert(entry_lines(d, false) =~= entry_head(d) + help_line(d));
    assert(entry_lines(d, true) =~= entry_head(d) + place_line(d) + help_line(d));
}

/// How many of `ds` have severity `s`.
fn count_of(ds: &[Diagnostic], s: Severity) -> (n: u64)
    ensures
        n == count_severity(models(ds@), s),
{
    let ghost ms = models(ds@);
    let mut n: u64 = 0;
    let mut i: usize = 0;
    while i < ds.len()
        invariant
            i <= ds.len(),
            ms == models(ds@),
            n == count_severity(ms.take(i as int), s),
            n <= i,
        decreases ds.len() - i,
    {
        proof {
            assert(ms.take(i + 1).drop_last() =~= ms.take(i as int));
            assert(ms.take(i + 1).last() == ds@[i as int]@);
        }
        if ds[i].severity == s {
            n = n + 1;
        }
        i = i + 1;
    }
    proof {
        assert(ms.take(ds.len() as int) =~= ms);
    }
    n
}

/// Appends the tag of severity `s`.
fn push_severity_tag(out: &mut String, s: Severity)
    ensures
        final(out)@ == old(out)@ + severity_tag(s),
{
    let tag = match s {
        Severity::Error => {
            let r = paint_red("ERROR");
            paint_bold(r.as_str())
        },
        Severity::Warning => paint_yellow(" WARN"),
        Severity::Info => paint_blue(" INFO"),
    };
    push_str(out, tag.as_str());
}

/// Appends the lines of one finding.
fn push_entry(out: &mut String, d: &Diagnostic, verbose: bool)
    ensures
        final(out)@ == old(out)@ + entry_lines(d@, verbose),
{
    let mut e = owned("  ");
    push_severity_tag(&mut e, d.severity);
    push_str(&mut e, "  ");
    let rule = paint_dimmed(d.rule.as_str());
    push_str(&mut e, rule.as_str());
    push_str(&mut e, "\n");
    push_str(&mut e, "         ");
    push_str(&mut e, d.message.as_str());
    push_str(&mut e, "\n");
    let mut place = String::new();
    if verbose {
        place = owned("         ");
        let file = paint_dimmed(d.file.as_str());
        push_str(&mut place, file.as_str());
        push_str(&mut place, ":");
        let line = decimal_string(d.line as u64);
        push_str(&mut place, line.as_str());
        push_str(&mut place, ":");
        let col = decimal_string(d.column as u64);
        push_str(&mut place, col.as_str());
        push_str(&mut place, "\n");
    } else {
        assert(place@ =~= Seq::<char>::empty());
    }
    push_str(&mut e, place.as_str());
    push_str(&mut e, "         ");
    let help = paint_cyan("Help");
    push_str(&mut e, help.as_str());
    push_str(&mut e, ": ");
    push_str(&mut e, d.help.as_str());
    push_str(&mut e, "\n");
    push_str(out, e.as_str());
}

/// Appends `n` box-drawing dashes.
fn dash_line(n: usize) -> (r: String)
    ensures
        r@ == dashes(n as nat),
{
    let mut r = String::new();
    let mut i: usize = 0;
    while i < n
        invariant
            i <= n,
            r@ == dashes(i as nat),
        decreases n - i,
    {
        push_char(&mut r, '─');
        i = i + 1;
        assert(r@ =~= dashes(i as nat));
    }
    r
}

/// Appends the section of category `c`.
fn push_section(out: &mut String, ds: &[Diagnostic], c: Category, verbose: bool)
    ensures
        final(out)@ == old(out)@ + category_section(models(ds@), c, verbose),
{
    let ghost ms = models(ds@);
    let mut found = false;
    let mut i: usize = 0;
    while i < ds.len()
        invariant
            i <= ds.len(),
            ms == models(ds@),
            found == exists|k: int| 0 <= k < i && (#[trigger] ms[k]).category == c,
        decreases ds.len() - i,
    {
        assert(ms[i as int] == ds@[i as int]@);
        if ds[i].category == c {
            found = true;
        }
        i = i + 1;
    }
    if !found {
        assert(category_section(ms, c, verbose) =~= Seq::<char>::empty());
        assert(old(out)@ + Seq::<char>::empty() =~= old(out)@);
        return;
    }
    let ghost start = out@;
    let name = c.to_display_string();
    let len = name.as_str().unicode_len();
    let mut h = owned("\n  ");
    let lead = paint_dimmed("──");
    push_str(&mut h, lead.as_str());
    push_str(&mut h, " ");
    push_str(&mut h, name.as_str());
    push_str(&mut h, " ");
    let n: usize = if len > 49 { 1 } else { 50 - len };
    let line = dash_line(n);
    let tail = paint_dimmed(line.as_str());
    push_str(&mut h, tail.as_str());
    push_str(&mut h, "\n");
    assert(h@ == section_header(c));
    let mut body = String::new();
    let ghost with_header = body@;
    assert(with_header =~= Seq::<char>::empty());
    let mut i: usize = 0;
    while i < ds.len()
        invariant
            i <= ds.len(),
            ms == models(ds@),
            body@ == category_entries(ms.take(i as int), c, verbose),
        decreases ds.len() - i,
    {
        proof {
            assert(ms.take(i + 1).drop_last() =~= ms.take(i as int));
            assert(ms.take(i + 1).last() == ds@[i as int]@);
        }
        if ds[i].category == c {
            push_entry(&mut body, &ds[i], verbose);
        } else {
            assert(category_entries(ms.take(i + 1), c, verbose) =~= category_entries(ms.take(i as int), c, verbose));
        }
        i = i + 1;
    }
    proof {
        assert(ms.take(ds.len() as int) =~= ms);
    }
    push_str(&mut h, body.as_str());
    push_str(out, h.as_str());
}

/// The coloured report for a terminal.
pub struct CliReporter;

impl Reporter for CliReporter {
    /// The terminal report (see [`cli_report`]); the count of files and the time are not shown.
    fn format(
        &self,
        diagnostics: &[Diagnostic],
        score: &ScoreResult,
        project_name: &str,
        verbose: bool,
        files_scanned: usize,
        elapsed: Duration,
    ) -> (r: String)
        ensures
            r@ == cli_report(models(diagnostics@), score.value, score.label@, project_name@, verbose),
    {
        let ghost ms = models(diagnostics@);
        let mut out = owned("\n  ");
        let title = paint_bold("convex-doctor");
        push_str(&mut out, title.as_str());
        push_str(&mut out, " v");
        push_str(&mut out, VERSION);
        push_str(&mut out, "\n\n");
        push_str(&mut out, "  Project: ");
        push_str(&mut out, project_name);
        push_str(&mut out, "\n");
        push_str(&mut out, "\n  Score: ");
        let digits = decimal_string(score.value as u64);
        let coloured = if 85 <= score.value && score.value <= 100 {
            paint_green(digits.as_str())
        } else if 70 <= score.value && score.value <= 84 {
            paint_yellow(digits.as_str())
        } else {
            paint_red(digits.as_str())
        };
        push_str(&mut out, coloured.as_str());
        push_str(&mut out, " / 100 — ");
        push_str(&mut out, score.label);
        push_str(&mut out, "\n\n");
        let errors = decimal_string(count_of(diagnostics, Severity::Error));
        let warnings = decimal_string(count_of(diagnostics, Severity::Warning));
        let infos = decimal_string(count_of(diagnostics, Severity::Info));
        push_str(&mut out, "  ");
        let e = paint_red(errors.as_str());
        push_str(&mut out, e.as_str());
        push_str(&mut out, " errors, ");
        let w = paint_yellow(warnings.as_str());
        push_str(&mut out, w.as_str());
        push_str(&mut out, " warnings, ");
        let b = paint_blue(infos.as_str());
        push_str(&mut out, b.as_str());
        push_str(&mut out, " info\n");
        let mut body = String::new();
        push_section(&mut body, diagnostics, Category::Architecture, verbose);
        push_section(&mut body, diagnostics, Category::ClientSide, verbose);
        push_section(&mut body, diagnostics, Category::Configuration, verbose);
        push_section(&mut body, diagnostics, Category::Correctness, verbose);
        push_section(&mut body, diagnostics, Category::Performance, verbose);
        push_section(&mut body, diagnostics, Category::Schema, verbose);
        push_section(&mut body, diagnostics, Category::Security, verbose);
        proof {
            reveal_with_fuel(sections, 8);
            assert(sections(ms, 0, verbose) =~= Seq::<char>::empty());
            assert(body@ == sections(ms, 7, verbose));
        }
        push_str(&mut out, body.as_str());
        push_str(&mut out, "\n");
        out
    }
}

} // verus!
