use agent_bench::evaluator::{BenchmarkResult, SuiteResults, Verifier};

#[test]
fn test_benchmark_result_success() {
    let result = BenchmarkResult::success(
        "TEST-001".to_string(),
        "coder".to_string(),
        1,
        Some(1000),
        5500,
    );

    assert!(result.success);
    assert_eq!(result.score, 100);
    assert_eq!(result.iterations, 1);
}

#[test]
fn test_benchmark_result_failure() {
    let result = BenchmarkResult::failure(
        "TEST-001".to_string(),
        "coder".to_string(),
        3,
        Some(3000),
        15000,
        "Tests failed".to_string(),
    );

    assert!(!result.success);
    assert_eq!(result.score, 0);
    assert_eq!(result.error, Some("Tests failed".to_string()));
}

#[test]
fn test_suite_results() {
    let results = vec![
        BenchmarkResult::success("T1".into(), "coder".into(), 1, None, 1000),
        BenchmarkResult::failure("T2".into(), "coder".into(), 1, None, 1000, "error".into()),
        BenchmarkResult::success("T3".into(), "coder".into(), 1, None, 1000),
    ];

    let suite = SuiteResults::from_results("coder".into(), results);

    assert_eq!(suite.total_tasks, 3);
    assert_eq!(suite.passed, 2);
    assert_eq!(suite.failed, 1);
    assert!((suite.pass_rate_basis_points() as f64 / 10000.0 - 0.666).abs() < 0.01);
}

#[test]
fn test_suite_results_empty_list() {
    let suite = SuiteResults::from_results("coder".into(), vec![]);
    assert_eq!(suite.total_tasks, 0);
    assert_eq!(suite.passed, 0);
    assert_eq!(suite.failed, 0);
    assert_eq!(suite.pass_rate_basis_points(), 0);
    assert_eq!(suite.total_duration_ms, 0);
}

#[test]
fn test_suite_results_sums_durations() {
    let results = vec![
        BenchmarkResult::success("T1".into(), "coder".into(), 1, None, 1500),
        BenchmarkResult::success("T2".into(), "coder".into(), 1, None, 2500),
    ];
    let suite = SuiteResults::from_results("coder".into(), results);
    assert_eq!(suite.total_duration_ms, 4000);
    assert_eq!(suite.pass_rate_basis_points(), 10000);
}

#[test]
fn test_result_file_name_shape() {
    let result = BenchmarkResult::success(
        "TEST-001".to_string(),
        "coder".to_string(),
        1,
        None,
        1000,
    );
    let name = result.file_name();
    assert!(name.starts_with("TEST-001_coder_"));
    assert!(name.ends_with("_pass.json"));

    let failed = BenchmarkResult::failure(
        "TEST-001".to_string(),
        "coder".to_string(),
        1,
        None,
        1000,
        "nope".to_string(),
    );
    let name = failed.file_name();
    assert!(name.ends_with("_fail.json"));
}

#[test]
fn test_timestamp_compact_form() {
    // The clock reading must come back rendered as YYYYMMDD_HHMMSS.
    let result = BenchmarkResult::success("T".to_string(), "a".to_string(), 1, None, 0);
    let compact = &result.timestamp.compact;
    assert_eq!(compact.len(), 15);
    assert_eq!(compact.as_bytes()[8], b'_');
    for (i, b) in compact.bytes().enumerate() {
        if i != 8 {
            assert!(b.is_ascii_digit());
        }
    }
    // And the ISO rendering must parse back with chrono.
    assert!(chrono::DateTime::parse_from_rfc3339(&result.timestamp.iso).is_ok());
}

#[test]
fn test_suite_file_name_shape() {
    let suite = SuiteResults::from_results("coder".into(), vec![]);
    let name = suite.file_name();
    assert!(name.starts_with("suite_coder_"));
    assert!(name.ends_with(".json"));
}

#[test]
fn test_plan_command_tokenizes_on_whitespace() {
    let (prog, args) = Verifier::plan_command("pytest  -q\ttests/").unwrap();
    assert_eq!(prog, "pytest");
    assert_eq!(args, vec!["-q".to_string(), "tests/".to_string()]);
}

#[test]
fn test_plan_command_rejects_empty_command() {
    let err = Verifier::plan_command("   ").unwrap_err();
    assert_eq!(err.message(), "Verification failed: Empty verification command");
}

#[test]
fn test_conclude_passes_only_on_exit_zero() {
    let v = Verifier::conclude(Some(0), "ok".to_string(), String::new(), 120);
    assert!(v.passed);
    assert_eq!(v.exit_code, Some(0));
    assert_eq!(v.duration_ms, 120);

    let v = Verifier::conclude(Some(1), String::new(), "fail".to_string(), 10);
    assert!(!v.passed);

    // A signal-killed process has no exit code and never passes.
    let v = Verifier::conclude(None, String::new(), String::new(), 10);
    assert!(!v.passed);
}

#[test]
fn test_builders_attach_outputs() {
    let result = BenchmarkResult::success("T".to_string(), "a".to_string(), 1, None, 0)
        .with_agent_output("agent says".to_string())
        .with_verification_output("verifier says".to_string());
    assert_eq!(result.agent_output, Some("agent says".to_string()));
    assert_eq!(result.verification_output, Some("verifier says".to_string()));
    assert!(result.success);
}
