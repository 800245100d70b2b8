use convex_doctor::diagnostic::Severity;
use convex_doctor::rules::correctness::{
    DirectFunctionRef, GeneratedCodeModified, WrongRuntimeImport, MissingUnique, NonDeterministicInQuery, OldFunctionSyntax, ReplaceVsPatch,
};
use convex_doctor::rules::{CallLocation, CtxCall, FileAnalysis, ImportInfo, ProjectContext, Rule};

fn loc(line: u32, detail: &str) -> CallLocation {
    CallLocation { line, col: 3, detail: detail.to_string() }
}

#[test]
fn test_generated_code_modified_detected() {
    let rule = GeneratedCodeModified;
    let ctx = ProjectContext {
        generated_files_modified: true,
        ..Default::default()
    };
    let diagnostics = rule.check_project(&ctx);
    assert_eq!(diagnostics.len(), 1);
    assert!(diagnostics[0].message.contains("convex/_generated/"));
}

#[test]
fn test_generated_code_not_modified_ok() {
    let rule = GeneratedCodeModified;
    let ctx = ProjectContext {
        generated_files_modified: false,
        ..Default::default()
    };
    let diagnostics = rule.check_project(&ctx);
    assert!(
        diagnostics.is_empty(),
        "Should not flag when generated files are not modified"
    );
}

#[test]
fn old_function_syntax_warns_once_per_legacy_registration() {
    let analysis = FileAnalysis {
        file_path: "convex/old.ts".to_string(),
        old_syntax_functions: vec![loc(4, "query() using old function syntax"), loc(9, "mutation() using old function syntax")],
        ..Default::default()
    };
    let ds = OldFunctionSyntax.check(&analysis);
    assert_eq!(ds.len(), 2);
    assert_eq!(ds[0].severity, Severity::Warning);
    assert_eq!(ds[0].message, "query() using old function syntax");
    assert_eq!((ds[1].line, ds[1].column), (9, 3));
    assert!(OldFunctionSyntax.check(&FileAnalysis::default()).is_empty());
}

#[test]
fn non_deterministic_calls_and_first_on_index_are_warnings() {
    let analysis = FileAnalysis {
        non_deterministic_calls: vec![loc(2, "Math.random()"), loc(3, "new Date()")],
        first_calls: vec![loc(7, "ctx.db.query.withIndex.first")],
        ..Default::default()
    };
    let nd = NonDeterministicInQuery.check(&analysis);
    assert_eq!(nd.len(), 2);
    assert!(nd[0].message.contains("Math.random()"));
    assert!(nd[1].message.contains("new Date()"));
    let mu = MissingUnique.check(&analysis);
    assert_eq!(mu.len(), 1);
    assert!(mu[0].message.contains(".unique()"));
}

#[test]
fn replace_calls_are_reported_and_patch_calls_are_not() {
    let call = |chain: &str| CtxCall { chain: chain.to_string(), line: 5, col: 9, ..Default::default() };
    let analysis = FileAnalysis {
        ctx_calls: vec![call("ctx.db.patch"), call("ctx.db.replace")],
        ..Default::default()
    };
    let ds = ReplaceVsPatch.check(&analysis);
    assert_eq!(ds.len(), 1);
    assert!(ds[0].message.contains("ctx.db.replace"));
    assert_eq!(ds[0].severity, Severity::Info);
}

#[test]
fn test_direct_function_ref_detected() {
    let call = |chain: &str, arg: &str| CtxCall {
        chain: chain.to_string(),
        line: 7,
        col: 11,
        first_arg_chain: Some(arg.to_string()),
        ..Default::default()
    };
    let analysis = FileAnalysis {
        file_path: "convex/jobs.ts".to_string(),
        ctx_calls: vec![
            call("ctx.runQuery", "getUser"),
            call("ctx.runMutation", "internal.users.update"),
            call("ctx.scheduler.runAfter", "api.jobs.run"),
            call("ctx.scheduler.cancel", "jobId"),
        ],
        ..Default::default()
    };
    let ds = DirectFunctionRef.check(&analysis);
    assert_eq!(ds.len(), 1);
    assert_eq!(ds[0].rule, "correctness/direct-function-ref");
    assert_eq!(ds[0].severity, Severity::Error);
    assert_eq!(
        ds[0].message,
        "`ctx.runQuery` is handed `getUser` directly instead of a function reference"
    );
    assert_eq!((ds[0].line, ds[0].column), (7, 11));
}

fn import(source: &str, line: u32) -> ImportInfo {
    ImportInfo { source: source.to_string(), specifiers: vec![], line }
}

#[test]
fn test_wrong_runtime_import_detected_without_use_node() {
    let analysis = FileAnalysis {
        file_path: "convex/files.ts".to_string(),
        has_use_node: false,
        imports: vec![
            import("convex/server", 1),
            import("fs", 2),
            import("node:crypto", 3),
            import("fs/promises", 4),
            import("react-dom", 5),
            import("fsx", 6),
        ],
        ..Default::default()
    };
    let ds = WrongRuntimeImport.check(&analysis);
    assert!(!ds.is_empty(), "Should detect Node-only runtime imports without use node");
    assert_eq!(ds.len(), 3);
    assert_eq!(ds[0].rule, "correctness/wrong-runtime-import");
    assert_eq!(ds[0].severity, Severity::Error);
    assert_eq!(ds[0].message, "`fs` is a Node.js module, but the file has no \"use node\" directive");
    assert_eq!((ds[0].line, ds[0].column), (2, 1));
    assert_eq!(ds[1].line, 3);
    assert_eq!(ds[2].line, 4);
}

#[test]
fn test_wrong_runtime_import_detected_with_use_node_browser_import() {
    let analysis = FileAnalysis {
        file_path: "convex/actions.ts".to_string(),
        has_use_node: true,
        imports: vec![import("fs", 2), import("react-dom/client", 3), import("convex/react", 4)],
        ..Default::default()
    };
    let ds = WrongRuntimeImport.check(&analysis);
    assert!(!ds.is_empty(), "Should detect browser runtime imports in use node file");
    assert_eq!(ds.len(), 2);
    assert_eq!(
        ds[0].message,
        "`react-dom/client` is a browser module, but the file runs in Node.js (\"use node\")"
    );
    assert_eq!(ds[1].line, 4);
}
