use convex_doctor::config::{Config, Strictness};
use convex_doctor::diagnostic::{Category, Diagnostic, Severity};

#[test]
fn test_is_file_ignored() {
    let config = Config::default();
    assert!(config.is_file_ignored(".", "convex/_generated/api.d.ts"));
    assert!(!config.is_file_ignored(".", "convex/messages.ts"));
}

#[test]
fn test_is_file_ignored_with_absolute_path() {
    let config = Config::default();
    let root = "/repo";
    let file = "/repo/convex/_generated/api.d.ts";
    assert!(config.is_file_ignored(root, file));
}

#[test]
fn test_ignore_filename_wildcard_matches_subdirectories() {
    let mut config = Config::default();
    config.ignore.files = vec!["*.ts".to_string()];
    assert!(config.is_file_ignored(".", "convex/messages.ts"));
    assert!(config.is_file_ignored(".", "convex/helpers/inner.ts"));
}

#[test]
fn test_ignore_directory_pattern_without_wildcard() {
    let mut config = Config::default();
    config.ignore.files = vec!["convex/helpers".to_string()];
    assert!(config.is_file_ignored(".", "convex/helpers/config.ts"));
}

#[test]
fn test_ignore_leading_slash_pattern_matches_root() {
    let mut config = Config::default();
    config.ignore.files = vec!["/convex/messages.ts".to_string()];
    assert!(config.is_file_ignored(".", "convex/messages.ts"));
}

#[test]
fn rule_turned_off_is_disabled_and_others_stay_enabled() {
    let mut config = Config::default();
    config.set_rule("perf/unbounded-collect", "off");
    assert!(!config.is_rule_enabled("perf/unbounded-collect"));
    assert!(config.is_rule_enabled("security/missing-auth-check"));
    config.set_rule("perf/unbounded-collect", "warning");
    assert!(config.is_rule_enabled("perf/unbounded-collect"));
    assert_eq!(config.rules.len(), 1);
}

#[test]
fn later_rule_setting_replaces_the_earlier_one() {
    let mut config = Config::default();
    config.rules.insert("arch/large-handler".to_string(), "off".to_string());
    config.rules.insert("arch/large-handler".to_string(), "warning".to_string());
    assert!(config.is_rule_enabled("arch/large-handler"));
    assert_eq!(config.rules.get("arch/large-handler").unwrap(), "warning");
    assert_eq!(config.rules.len(), 1);
}

#[test]
fn invalid_glob_pattern_ignores_nothing_but_directory_prefix_still_applies() {
    let mut config = Config::default();
    config.ignore.files = vec!["convex/[".to_string()];
    assert!(!config.is_file_ignored(".", "convex/messages.ts"));
    assert!(config.is_file_ignored(".", "convex/[/x.ts"));
}

#[test]
fn test_default_config() {
    let config = Config::default();
    assert_eq!(config.ci.fail_below, 0);
    assert!(config.rules.is_empty());
    assert_eq!(config.ignore.files, vec!["convex/_generated/**"]);
    assert_eq!(config.convex.guidance_version, "v0.241.0");
}

fn diag(rule: &str, severity: Severity, category: Category) -> Diagnostic {
    Diagnostic {
        rule: rule.to_string(),
        severity,
        category,
        message: "msg".to_string(),
        help: "help".to_string(),
        file: "convex/messages.ts".to_string(),
        line: 1,
        column: 1,
    }
}

#[test]
fn strict_setting_promotes_info_to_warning() {
    let mut config = Config::default();
    config.convex.strictness = Strictness::Strict;
    let mut diagnostics = vec![diag("arch/no-convex-error", Severity::Info, Category::Architecture)];
    config.apply_strictness(&mut diagnostics);
    assert_eq!(diagnostics[0].severity, Severity::Warning);
    assert_eq!(format!("{:?}", config.convex.strictness), "Strict");
}

#[test]
fn low_noise_setting_removes_info_and_noisy_warnings() {
    let mut config = Config::default();
    config.convex.strictness = Strictness::LowNoise;
    let mut diagnostics = vec![
        diag("correctness/replace-vs-patch", Severity::Warning, Category::Correctness),
        diag("security/missing-arg-validators", Severity::Error, Category::Security),
        diag("arch/no-convex-error", Severity::Info, Category::Architecture),
        diag("arch/large-handler", Severity::Warning, Category::Architecture),
    ];
    config.apply_strictness(&mut diagnostics);
    let rules: Vec<&str> = diagnostics.iter().map(|d| d.rule.as_str()).collect();
    assert_eq!(rules, vec!["security/missing-arg-validators", "arch/large-handler"]);
}

#[test]
fn standard_setting_changes_nothing() {
    let config = Config::default();
    let mut diagnostics = vec![diag("arch/no-convex-error", Severity::Info, Category::Architecture)];
    config.apply_strictness(&mut diagnostics);
    assert_eq!(diagnostics.len(), 1);
    assert_eq!(diagnostics[0].severity, Severity::Info);
}
