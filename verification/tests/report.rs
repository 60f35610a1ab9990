use klave::report::{exit_code, summarize, BuildResult, Summary};
use klave::toolchain::AppKind;

fn result(app: &str, success: bool) -> BuildResult {
    BuildResult { app: app.to_string(), success, kind: AppKind::Rust, elapsed_ms: 10 }
}

#[test]
fn summarize_counts_results_and_successes() {
    assert_eq!(summarize(&vec![]), Summary { total: 0, successful: 0, failed: 0 });
    assert_eq!(
        summarize(&vec![result("a", true), result("b", false), result("c", true)]),
        Summary { total: 3, successful: 2, failed: 1 }
    );
    assert_eq!(
        summarize(&vec![result("a", false), result("b", false)]),
        Summary { total: 2, successful: 0, failed: 2 }
    );
}

#[test]
fn exit_code_is_zero_only_where_every_build_succeeded() {
    assert_eq!(exit_code(&vec![]), 0);
    assert_eq!(exit_code(&vec![result("a", true)]), 0);
    assert_eq!(exit_code(&vec![result("a", true), result("b", true)]), 0);
    assert_eq!(exit_code(&vec![result("a", true), result("b", false)]), 1);
    assert_eq!(exit_code(&vec![result("a", false), result("b", true)]), 1);
    assert_eq!(exit_code(&vec![result("a", false)]), 1);
}
