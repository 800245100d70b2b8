//! Findings reported by the rules, with their severity and category.
use vstd::prelude::*;

use crate::text::owned;

verus! {

/// One finding of a rule at a place in a file.
#[derive(Debug, Clone, PartialEq, Eq)]
pub struct Diagnostic {
    pub rule: String,
    pub severity: Severity,
    pub category: Category,
    pub message: String,
    pub help: String,
    pub file: String,
    pub line: u32,
    pub column: u32,
}

/// The mathematical content of a [`Diagnostic`]: its strings as character sequences.
pub struct DiagnosticModel {
    pub rule: Seq<char>,
    pub severity: Severity,
    pub category: Category,
    pub message: Seq<char>,
    pub help: Seq<char>,
    pub file: Seq<char>,
    pub line: u32,
    pub column: u32,
}

impl View for Diagnostic {
    type V = DiagnosticModel;

    open spec fn view(&self) -> DiagnosticModel {
        DiagnosticModel {
            rule: self.rule@,
            severity: self.severity,
            category: self.category,
            message: self.message@,
            help: self.help@,
            file: self.file@,
            line: self.line,
            column: self.column,
        }
    }
}

/// The models of a sequence of diagnostics.
pub open spec fn models(ds: Seq<Diagnostic>) -> Seq<DiagnosticModel> {
    ds.map_values(|d: Diagnostic| d@)
}

/// Pushing a diagnostic pushes its model.
pub proof fn lemma_models_push(ds: Seq<Diagnostic>, d: Diagnostic)
    ensures
        models(ds.push(d)) == models(ds).push(d@),
{
    assert(models(ds.push(d)) =~= models(ds).push(d@));
}

/// Appending diagnostics appends their models.
pub proof fn lemma_models_add(a: Seq<Diagnostic>, b: Seq<Diagnostic>)
    ensures
        models(a + b) == models(a) + models(b),
{
    assert(models(a + b) =~= models(a) + models(b));
}

/// How serious a finding is.
#[derive(Debug, Clone, Copy, PartialEq, Eq, Structural)]
pub enum Severity {
    Error,
    Warning,
    Info,
}

/// The lower-case name of a severity.
pub open spec fn severity_name(s: Severity) -> Seq<char> {
    match s {
        Severity::Error => "error"@,
        Severity::Warning => "warning"@,
        Severity::Info => "info"@,
    }
}

impl Severity {
    /// The lower-case name of the severity, as the tool prints it.
    pub fn to_display_string(&self) -> (r: String)
        ensures
            r@ == severity_name(*self),
    {
        match self {
            Severity::Error => owned("error"),
            Severity::Warning => owned("warning"),
            Severity::Info => owned("info"),
        }
    }
}

/// The area of concern a rule belongs to.
#[derive(Debug, Clone, Copy, PartialEq, Eq, Hash, Structural)]
pub enum Category {
    Security,
    Performance,
    Correctness,
    Schema,
    Architecture,
    Configuration,
    ClientSide,
}

/// The weight of a category in tenths: 1.5 is 15.
pub open spec fn category_weight_tenths(c: Category) -> nat {
    match c {
        Category::Security => 15,
        Category::Performance => 12,
        Category::Correctness => 15,
        Category::Schema => 10,
        Category::Architecture => 8,
        Category::Configuration => 10,
        Category::ClientSide => 10,
    }
}

/// The printed name of a category.
pub open spec fn category_name(c: Category) -> Seq<char> {
    match c {
        Category::Security => "Security"@,
        Category::Performance => "Performance"@,
        Category::Correctness => "Correctness"@,
        Category::Schema => "Schema"@,
        Category::Architecture => "Architecture"@,
        Category::Configuration => "Configuration"@,
        Category::ClientSide => "Client-Side"@,
    }
}

impl Category {
    /// The score multiplier of the category, in tenths (Security: 15, that is 1.5x).
    pub fn weight_tenths(&self) -> (w: u32)
        ensures
            w == category_weight_tenths(*self),
    {
        match self {
            Category::Security => 15,
            Category::Performance => 12,
            Category::Correctness => 15,
            Category::Schema => 10,
            Category::Architecture => 8,
            Category::Configuration => 10,
            Category::ClientSide => 10,
        }
    }

    /// The name of the category, as the tool prints it.
    pub fn to_display_string(&self) -> (r: String)
        ensures
            r@ == category_name(*self),
    {
        match self {
            Category::Security => owned("Security"),
            Category::Performance => owned("Performance"),
            Category::Correctness => owned("Correctness"),
            Category::Schema => owned("Schema"),
            Category::Architecture => owned("Architecture"),
            Category::Configuration => owned("Configuration"),
            Category::ClientSide => owned("Client-Side"),
        }
    }
}

} // verus!
