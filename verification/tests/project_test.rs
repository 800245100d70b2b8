use convex_doctor::config::Config;
use convex_doctor::project::{PackageManifest, ProjectInfo, ProjectListing};

fn listing(convex: &[&str], root: &[&str], manifest: Option<PackageManifest>) -> ProjectListing {
    ProjectListing {
        convex_dir_exists: true,
        convex_entries: convex.iter().map(|s| s.to_string()).collect(),
        root_entries: root.iter().map(|s| s.to_string()).collect(),
        manifest,
    }
}

fn deps(pairs: &[(&str, Option<&str>)]) -> Option<Vec<(String, Option<String>)>> {
    Some(pairs.iter().map(|(k, v)| (k.to_string(), v.map(|s| s.to_string()))).collect())
}

#[test]
fn detect_reports_missing_convex_dir() {
    let l = ProjectListing { convex_dir_exists: false, convex_entries: vec![], root_entries: vec![], manifest: None };
    let err = ProjectInfo::detect("/tmp/app", &l).unwrap_err();
    assert_eq!(err, "No convex/ directory found in /tmp/app");
}

#[test]
fn detect_finds_schema_version_and_framework() {
    let m = PackageManifest {
        dependencies: deps(&[("convex", Some("^1.17.0")), ("next", Some("14.0.0"))]),
        dev_dependencies: None,
    };
    let info = ProjectInfo::detect("/p", &listing(&["schema.ts", "auth.config.js"], &["convex.json"], Some(m))).unwrap();
    assert_eq!(info.convex_dir, "/p/convex");
    assert!(info.has_schema);
    assert!(info.has_auth_config);
    assert!(info.has_convex_json);
    assert_eq!(info.convex_version, Some("^1.17.0".to_string()));
    assert_eq!(info.framework, Some("nextjs".to_string()));
}

#[test]
fn detect_takes_convex_from_dev_dependencies_and_vite() {
    let m = PackageManifest {
        dependencies: deps(&[("react", Some("18"))]),
        dev_dependencies: deps(&[("convex", Some("1.2.3")), ("vite", Some("5"))]),
    };
    let info = ProjectInfo::detect("p/", &listing(&["schema.mjs"], &[], Some(m))).unwrap();
    assert_eq!(info.convex_dir, "p/convex");
    assert!(info.has_schema);
    assert!(!info.has_auth_config);
    assert!(!info.has_convex_json);
    assert_eq!(info.convex_version, Some("1.2.3".to_string()));
    assert_eq!(info.framework, Some("vite".to_string()));
}

#[test]
fn detect_non_string_version_is_none_and_remix_detected() {
    let m = PackageManifest {
        dependencies: deps(&[("convex", None), ("@remix-run/node", Some("2"))]),
        dev_dependencies: deps(&[("convex", Some("9"))]),
    };
    let info = ProjectInfo::detect(".", &listing(&["messages.ts"], &[], Some(m))).unwrap();
    assert!(!info.has_schema);
    assert_eq!(info.convex_version, None);
    assert_eq!(info.framework, Some("remix".to_string()));
}

#[test]
fn discover_files_filters_and_orders_paths() {
    let info = ProjectInfo::detect("/p", &listing(&[], &[], None)).unwrap();
    let config = Config::default();
    let found: Vec<String> = vec![
        "/p/convex/z.ts",
        "/p/convex/a-b.ts",
        "/p/convex/a/b.ts",
        "/p/convex/_generated/api.ts",
        "/p/convex/sub/_generated/x.ts",
        "/p/convex/readme.md",
        "/p/convex/.ts",
        "/p/convex/page.tsx",
        "/p/convex/lib.cjs",
    ]
    .into_iter()
    .map(String::from)
    .collect();
    let files = info.discover_files(&config, &found);
    assert_eq!(
        files,
        vec!["/p/convex/a/b.ts", "/p/convex/a-b.ts", "/p/convex/lib.cjs", "/p/convex/page.tsx", "/p/convex/z.ts"]
    );
}

#[test]
fn discover_files_respects_ignore_patterns() {
    let info = ProjectInfo::detect(".", &listing(&[], &[], None)).unwrap();
    let mut config = Config::default();
    config.ignore.files = vec!["convex/test/**".to_string()];
    let found = vec!["./convex/test/a.ts".to_string(), "./convex/b.ts".to_string()];
    assert_eq!(info.discover_files(&config, &found), vec!["./convex/b.ts".to_string()]);
}
