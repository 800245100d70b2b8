use convex_doctor::diagnostic::{Category, Diagnostic, Severity};

#[test]
fn test_diagnostic_creation() {
    let d = Diagnostic {
        rule: "security/missing-arg-validators".to_string(),
        severity: Severity::Error,
        category: Category::Security,
        message: "Public mutation without argument validators".to_string(),
        help: "Add `args: { ... }` with validators".to_string(),
        file: "convex/messages.ts".to_string(),
        line: 14,
        column: 1,
    };
    assert_eq!(d.rule, "security/missing-arg-validators");
    assert_eq!(d.severity, Severity::Error);
    assert_eq!(d.category, Category::Security);
}

#[test]
fn test_severity_display() {
    assert_eq!(Severity::Error.to_display_string(), "error");
    assert_eq!(Severity::Warning.to_display_string(), "warning");
}

#[test]
fn test_category_weight() {
    assert_eq!(Category::Security.weight_tenths() as f64 / 10.0, 1.5);
    assert_eq!(Category::Performance.weight_tenths() as f64 / 10.0, 1.2);
    assert_eq!(Category::Correctness.weight_tenths() as f64 / 10.0, 1.5);
    assert_eq!(Category::Schema.weight_tenths() as f64 / 10.0, 1.0);
    assert_eq!(Category::Architecture.weight_tenths() as f64 / 10.0, 0.8);
    assert_eq!(Category::Configuration.weight_tenths() as f64 / 10.0, 1.0);
}

#[test]
fn test_category_display() {
    assert_eq!(Category::Security.to_display_string(), "Security");
    assert_eq!(Category::Performance.to_display_string(), "Performance");
}

#[test]
fn info_severity_and_client_side_category_names() {
    assert_eq!(Severity::Info.to_display_string(), "info");
    assert_eq!(Category::ClientSide.to_display_string(), "Client-Side");
    assert_eq!(Category::ClientSide.weight_tenths(), 10);
}
