//! Whole-flow scenarios: directive parsing, pipeline classification,
//! outcome evaluation and aggregation chained together as the application
//! drives them.

use backseat_testrunner::directive::{determine_expected_outcome, directive_error_message};
use backseat_testrunner::evaluate::{evaluate_outcome, TestResultKind};
use backseat_testrunner::pipeline::{classify_results, StageResult};
use backseat_testrunner::summary::summarize;

fn ok_stage(stdout: &str) -> StageResult {
    StageResult { success: true, stdout: stdout.as_bytes().to_vec(), stderr: String::new() }
}

fn failed_stage(stderr: &str) -> StageResult {
    StageResult { success: false, stdout: Vec::new(), stderr: stderr.to_string() }
}

#[test]
fn undirected_file_with_clean_pipeline_passes() {
    let expected = determine_expected_outcome("let x = 1;\n").unwrap();
    let outcome = classify_results(vec![ok_stage("code"), ok_stage("output")]);
    let r = evaluate_outcome(outcome, expected);
    assert_eq!(r, TestResultKind::Success);
}

#[test]
fn declared_failure_matched_by_substring_passes() {
    let text = "// fails_with = \"division by zero\"\nlet x = 1 / 0;\n";
    let expected = determine_expected_outcome(text).unwrap();
    let outcome = classify_results(vec![
        ok_stage("code"),
        failed_stage("runtime error: division by zero at line 4"),
    ]);
    let r = evaluate_outcome(outcome, expected);
    assert_eq!(r, TestResultKind::Success);
}

#[test]
fn declared_failure_with_other_stderr_fails_and_shows_both() {
    let text = "// fails_with = \"division by zero\"\nlet x = 1 / 0;\n";
    let expected = determine_expected_outcome(text).unwrap();
    let outcome = classify_results(vec![
        ok_stage("code"),
        failed_stage("runtime error: null pointer"),
    ]);
    let r = evaluate_outcome(outcome, expected);
    match r {
        TestResultKind::Failure(diagnostic) => {
            assert!(diagnostic.contains("expected: \"division by zero\""));
            assert!(diagnostic.contains("got: \"runtime error: null pointer\""));
        },
        TestResultKind::Success => panic!("a mismatched stderr must not pass"),
    }
}

#[test]
fn parse_error_stays_with_its_own_test_case() {
    let texts = [
        "// fails_with = division by zero\nbad directive",
        "let x = 1;\nfine",
    ];
    let mut results: Vec<TestResultKind> = Vec::new();
    for text in texts {
        match determine_expected_outcome(text) {
            Ok(expected) => {
                let outcome = classify_results(vec![ok_stage("out")]);
                results.push(evaluate_outcome(outcome, expected));
            },
            Err(e) => {
                results.push(TestResultKind::Failure(directive_error_message(&e, "test_bad.bs")));
            },
        }
    }
    assert_eq!(
        results[0],
        TestResultKind::Failure("\" prefix not found in test_bad.bs".to_string())
    );
    assert_eq!(results[1], TestResultKind::Success);
    let s = summarize(&results);
    assert_eq!(s.tests_run, 2);
    assert_eq!(s.tests_failed, 1);
    assert!(!s.all_passed());
    assert_eq!(s.summary_line(), "Tests run: 2, Tests successful: 1, Tests failed: 1\n");
}
