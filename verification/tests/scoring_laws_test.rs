use convex_doctor::diagnostic::{Category, Diagnostic, Severity};
use convex_doctor::scoring::compute_score;

fn d(rule: &str, severity: Severity, category: Category) -> Diagnostic {
    Diagnostic {
        rule: rule.to_string(),
        severity,
        category,
        message: "m".to_string(),
        help: "h".to_string(),
        file: "convex/x.ts".to_string(),
        line: 1,
        column: 1,
    }
}

#[test]
fn info_findings_keep_a_full_score() {
    let ds: Vec<Diagnostic> = (0..50).map(|_| d("arch/no-convex-error", Severity::Info, Category::Architecture)).collect();
    let r = compute_score(&ds);
    assert_eq!(r.value, 100);
    assert_eq!(r.label, "Healthy");
}

#[test]
fn one_rule_costs_at_most_six_points() {
    let ds: Vec<Diagnostic> = (0..100).map(|_| d("security/hardcoded-secrets", Severity::Error, Category::Security)).collect();
    assert_eq!(compute_score(&ds).value, 94);
}

#[test]
fn the_largest_cap_of_a_rule_applies() {
    // The error sets the cap at 4 * 1.5 = 6 points; 0.6 + 3 = 3.6 points off: 96.4 rounds to 96.
    let ds = vec![
        d("security/x", Severity::Warning, Category::Security),
        d("security/x", Severity::Error, Category::Security),
    ];
    assert_eq!(compute_score(&ds).value, 96);
}

#[test]
fn labels_follow_the_bands() {
    let mut ds = Vec::new();
    for i in 0..3 {
        ds.push(d(&format!("r/{i}"), Severity::Error, Category::Security));
    }
    // 3 * 3 points = 9: 91.
    assert_eq!(compute_score(&ds).label, "Healthy");
    for i in 3..6 {
        ds.push(d(&format!("r/{i}"), Severity::Error, Category::Security));
    }
    // 18 points: 82.
    let r = compute_score(&ds);
    assert_eq!((r.value, r.label), (82, "Needs attention"));
    for i in 6..16 {
        ds.push(d(&format!("r/{i}"), Severity::Error, Category::Security));
    }
    // 48 points: 52.
    let r = compute_score(&ds);
    assert_eq!((r.value, r.label), (52, "Unhealthy"));
    for i in 16..40 {
        ds.push(d(&format!("r/{i}"), Severity::Error, Category::Security));
    }
    let r = compute_score(&ds);
    assert_eq!((r.value, r.label), (0, "Critical"));
}

#[test]
fn deductions_add_across_rules() {
    // Eight architecture warnings in separate rules: 8 * 0.32 = 2.56 points, 97.44 rounds to 97.
    let ds: Vec<Diagnostic> = (0..8).map(|i| d(&format!("a/{i}"), Severity::Warning, Category::Architecture)).collect();
    assert_eq!(compute_score(&ds).value, 97);
    // Six schema errors (2 points each) and two client-side warnings (0.4 each): 87.2 rounds to 87.
    let mut ds: Vec<Diagnostic> = (0..6).map(|i| d(&format!("s/{i}"), Severity::Error, Category::Schema)).collect();
    ds.push(d("c/w", Severity::Warning, Category::ClientSide));
    ds.push(d("c/w2", Severity::Warning, Category::ClientSide));
    assert_eq!(compute_score(&ds).value, 87);
}

#[test]
fn halves_round_up() {
    // Four schema warnings of one rule: 1.6 points, held to the cap of 1.5; 98.5 rounds to 99.
    let ds: Vec<Diagnostic> = (0..4).map(|_| d("schema/w", Severity::Warning, Category::Schema)).collect();
    assert_eq!(compute_score(&ds).value, 99);
}

#[test]
fn the_order_of_findings_does_not_change_the_cap() {
    let a = vec![
        d("perf/r", Severity::Info, Category::Performance),
        d("perf/r", Severity::Error, Category::Performance),
    ];
    let b = vec![
        d("perf/r", Severity::Error, Category::Performance),
        d("perf/r", Severity::Info, Category::Performance),
    ];
    assert_eq!(compute_score(&a).value, 98);
    assert_eq!(compute_score(&b).value, 98);
}

#[test]
fn uniform_rule_deducts_each_finding_up_to_its_cap() {
    let two: Vec<Diagnostic> = (0..2).map(|_| d("security/missing-auth-check", Severity::Warning, Category::Security)).collect();
    // 2 × 0.4 × 1.5 = 1.2 points, under the cap of 1.5 × 1.5 = 2.25.
    assert_eq!(compute_score(&two).value, 99);
    let five: Vec<Diagnostic> = (0..5).map(|_| d("security/missing-auth-check", Severity::Warning, Category::Security)).collect();
    // 5 × 0.6 = 3 points, held to the cap of 2.25.
    assert_eq!(compute_score(&five).value, 98);
    let mut mixed = two.clone();
    mixed.extend((0..3).map(|_| d("schema/deep-nesting", Severity::Error, Category::Schema)));
    // 1.2 + min(3 × 2.0, 4.0) = 5.2 points.
    assert_eq!(compute_score(&mixed).value, 95);
}
