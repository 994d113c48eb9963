use backseat_testrunner::evaluate::TestResultKind;
use backseat_testrunner::summary::{summarize, usize_to_string, RunSummary};

fn kinds(pattern: &[bool]) -> Vec<TestResultKind> {
    pattern
        .iter()
        .map(|&failed| {
            if failed {
                TestResultKind::Failure("diag".to_string())
            } else {
                TestResultKind::Success
            }
        })
        .collect()
}

#[test]
fn recording_counts_runs_and_failures() {
    let mut s = RunSummary::new();
    s.record(&TestResultKind::Success);
    s.record(&TestResultKind::Failure("oops".to_string()));
    s.record(&TestResultKind::Success);
    assert_eq!(s.tests_run, 3);
    assert_eq!(s.tests_failed, 1);
    assert_eq!(s.tests_successful(), 2);
    assert!(!s.all_passed());
}

#[test]
fn empty_run_passes() {
    let s = RunSummary::new();
    assert!(s.all_passed());
    assert_eq!(s.summary_line(), "Tests run: 0, Tests successful: 0, Tests failed: 0\n");
}

#[test]
fn summarize_counts_every_result_once() {
    let s = summarize(&kinds(&[false, true, false, true, true]));
    assert_eq!(s.tests_run, 5);
    assert_eq!(s.tests_failed, 3);
}

#[test]
fn summarize_is_order_blind() {
    let a = summarize(&kinds(&[true, false, false, true]));
    let b = summarize(&kinds(&[false, true, true, false]));
    assert_eq!(a.tests_run, b.tests_run);
    assert_eq!(a.tests_failed, b.tests_failed);
}

#[test]
fn summary_line_has_the_literal_form() {
    let s = RunSummary::from_counts(3, 1);
    assert_eq!(s.summary_line(), "Tests run: 3, Tests successful: 2, Tests failed: 1\n");
}

#[test]
fn summary_line_with_larger_counts() {
    let s = RunSummary::from_counts(120, 45);
    assert_eq!(s.summary_line(), "Tests run: 120, Tests successful: 75, Tests failed: 45\n");
}

#[test]
fn decimal_rendering_of_small_numbers() {
    assert_eq!(usize_to_string(0), "0");
    assert_eq!(usize_to_string(7), "7");
    assert_eq!(usize_to_string(10), "10");
}

#[test]
fn decimal_rendering_of_larger_numbers() {
    assert_eq!(usize_to_string(12345), "12345");
    assert_eq!(usize_to_string(1000), "1000");
    assert_eq!(usize_to_string(usize::MAX), usize::MAX.to_string());
}
