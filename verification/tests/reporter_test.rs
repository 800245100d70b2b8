use std::time::Duration;

use convex_doctor::diagnostic::{Category, Diagnostic, Severity};
use convex_doctor::reporter::{CliReporter, Reporter};
use convex_doctor::scoring::compute_score;

fn sample_diagnostics() -> Vec<Diagnostic> {
    vec![
        Diagnostic {
            rule: "security/missing-auth-check".to_string(),
            severity: Severity::Error,
            category: Category::Security,
            message: "Public query does not check auth".to_string(),
            help: "Add auth check".to_string(),
            file: "convex/messages.ts".to_string(),
            line: 5,
            column: 1,
        },
        Diagnostic {
            rule: "perf/unbounded-collect".to_string(),
            severity: Severity::Error,
            category: Category::Performance,
            message: "Unbounded collect".to_string(),
            help: "Use take".to_string(),
            file: "convex/messages.ts".to_string(),
            line: 22,
            column: 10,
        },
    ]
}

#[test]
fn test_score_only_output() {
    let diagnostics = sample_diagnostics();
    let score = compute_score(&diagnostics);
    let output = convex_doctor::reporter::score_only(&score);
    let parsed: u32 = output.trim().parse().unwrap();
    assert!(parsed <= 100);
}

#[test]
fn score_only_is_the_number_and_a_newline() {
    let score = compute_score(&sample_diagnostics());
    // 2 * 1.5 + 2 * 1.2 = 5.4 points off: 94.6 rounds to 95.
    assert_eq!(convex_doctor::reporter::score_only(&score), "95\n");
}

#[test]
fn cli_report_lists_categories_in_name_order_with_counts() {
    let diagnostics = sample_diagnostics();
    let score = compute_score(&diagnostics);
    let out = CliReporter.format(&diagnostics, &score, "my-app", false, 2, Duration::from_millis(5));
    assert!(out.starts_with("\n  \u{1b}[1mconvex-doctor\u{1b}[0m v0.1.0\n\n  Project: my-app\n"));
    assert!(out.contains("Score: \u{1b}[32m95\u{1b}[39m / 100 — Healthy"));
    assert!(out.contains("\u{1b}[31m2\u{1b}[39m errors, \u{1b}[33m0\u{1b}[39m warnings, \u{1b}[34m0\u{1b}[39m info\n"));
    let perf = out.find(" Performance ").unwrap();
    let sec = out.find(" Security ").unwrap();
    assert!(perf < sec);
    assert!(out.contains("  \u{1b}[1m\u{1b}[31mERROR\u{1b}[39m\u{1b}[0m  \u{1b}[2msecurity/missing-auth-check\u{1b}[0m\n"));
    assert!(out.contains("         \u{1b}[36mHelp\u{1b}[39m: Use take\n"));
    assert!(!out.contains("convex/messages.ts:22:10"));
    assert!(out.ends_with("\n\n"));
}

#[test]
fn cli_report_verbose_shows_places() {
    let diagnostics = sample_diagnostics();
    let score = compute_score(&diagnostics);
    let out = CliReporter.format(&diagnostics, &score, "my-app", true, 2, Duration::from_millis(5));
    assert!(out.contains("         \u{1b}[2mconvex/messages.ts\u{1b}[0m:22:10\n"));
}

#[test]
fn cli_report_section_rule_has_fifty_columns() {
    let diagnostics = vec![sample_diagnostics().remove(0)];
    let score = compute_score(&diagnostics);
    let out = CliReporter.format(&diagnostics, &score, "p", false, 1, Duration::from_millis(1));
    let dashes = "─".repeat(50 - "Security".len());
    assert!(out.contains(&format!("\n  \u{1b}[2m──\u{1b}[0m Security \u{1b}[2m{}\u{1b}[0m\n", dashes)));
    assert!(!out.contains("Performance"));
}

#[test]
fn verbose_report_only_adds_place_lines() {
    let diagnostics = sample_diagnostics();
    let score = compute_score(&diagnostics);
    let quiet = CliReporter.format(&diagnostics, &score, "app", false, 2, Duration::from_millis(5));
    let verbose = CliReporter.format(&diagnostics, &score, "app", true, 2, Duration::from_millis(5));
    let place_lines: Vec<&str> = verbose
        .lines()
        .filter(|l| l.contains("messages.ts"))
        .collect();
    assert_eq!(place_lines.len(), 2);
    let stripped: Vec<&str> = verbose
        .lines()
        .filter(|l| !l.contains("messages.ts"))
        .collect();
    assert_eq!(stripped, quiet.lines().collect::<Vec<&str>>());
}
