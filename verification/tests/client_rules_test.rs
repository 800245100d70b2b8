use convex_doctor::rules::client::{MutationInRender, UnhandledLoadingState, ActionInsteadOfMutation, MissingConvexProvider};
use convex_doctor::rules::Rule;

// =========================================================================
// Severity checks
// =========================================================================

#[test]
fn mutation_in_render_severity_is_error_when_triggered() {
    // Verify the rule severity via a synthetic FileAnalysis with in_render_body = true.
    let mut analysis = convex_doctor::rules::FileAnalysis {
        file_path: "test.tsx".to_string(),
        ..Default::default()
    };
    analysis
        .convex_hook_calls
        .push(convex_doctor::rules::ConvexHookCall {
            hook_name: "useMutation".to_string(),
            line: 1,
            col: 1,
            in_render_body: true,
        });
    let diags = MutationInRender.check(&analysis);
    assert!(!diags.is_empty());
    assert_eq!(
        diags[0].severity,
        convex_doctor::diagnostic::Severity::Error
    );
}

// =========================================================================
// Category checks
// =========================================================================

#[test]
fn all_rules_have_client_side_category() {
    assert_eq!(
        MutationInRender.category(),
        convex_doctor::diagnostic::Category::ClientSide
    );
    assert_eq!(
        UnhandledLoadingState.category(),
        convex_doctor::diagnostic::Category::ClientSide
    );
    assert_eq!(
        ActionInsteadOfMutation.category(),
        convex_doctor::diagnostic::Category::ClientSide
    );
    assert_eq!(
        MissingConvexProvider.category(),
        convex_doctor::diagnostic::Category::ClientSide
    );
}

// =========================================================================
// Rule ID format
// =========================================================================

#[test]
fn rule_ids_follow_naming_convention() {
    assert_eq!(MutationInRender.id(), "client/mutation-in-render");
    assert_eq!(UnhandledLoadingState.id(), "client/unhandled-loading-state");
    assert_eq!(
        ActionInsteadOfMutation.id(),
        "client/action-instead-of-mutation"
    );
    assert_eq!(MissingConvexProvider.id(), "client/missing-convex-provider");
}
