use backseat_testrunner::directive::TestOutcome;
use backseat_testrunner::evaluate::{evaluate_outcome, validate_error_messages, TestResultKind};
use backseat_testrunner::pipeline::{PipelineOutcome, StageResult};

fn success_outcome(stdout: &str) -> PipelineOutcome {
    PipelineOutcome::AllStagesSucceeded { final_stdout: stdout.as_bytes().to_vec() }
}

fn failed_outcome(index: usize, stderr: &str) -> PipelineOutcome {
    PipelineOutcome::StageFailed {
        index,
        result: StageResult { success: false, stdout: Vec::new(), stderr: stderr.to_string() },
    }
}

fn aborted(messages: &[&str]) -> TestOutcome {
    TestOutcome::Aborted { error_messages: messages.iter().map(|m| m.to_string()).collect() }
}

#[test]
fn clean_run_with_no_directive_passes() {
    let r = evaluate_outcome(success_outcome("output"), TestOutcome::Finished);
    assert_eq!(r, TestResultKind::Success);
}

#[test]
fn clean_run_with_declared_failure_fails() {
    let r = evaluate_outcome(success_outcome(""), aborted(&["A", "B"]));
    let expected = "\ttest execution finished, but the following error messages were expected:\
                    \t\t\"A\"\t\t\"B\"";
    assert_eq!(r, TestResultKind::Failure(expected.to_string()));
}

#[test]
fn failed_stage_with_no_directive_reports_its_stderr() {
    let r = evaluate_outcome(failed_outcome(0, "boom\nline two"), TestOutcome::Finished);
    assert_eq!(r, TestResultKind::Failure("boom\nline two".to_string()));
}

#[test]
fn declared_failure_with_matching_stderr_passes() {
    let r = evaluate_outcome(
        failed_outcome(1, "runtime error: division by zero at line 4"),
        aborted(&["division by zero"]),
    );
    assert_eq!(r, TestResultKind::Success);
}

#[test]
fn declared_failure_with_wrong_stderr_fails_with_diagnostic() {
    let r = evaluate_outcome(
        failed_outcome(1, "runtime error: null pointer"),
        aborted(&["division by zero"]),
    );
    let expected = "\ttest aborted as expected, but with wrong error message:\n\
                    \texpected: \"division by zero\"\
                    \t     got: \"runtime error: null pointer\"";
    assert_eq!(r, TestResultKind::Failure(expected.to_string()));
}

#[test]
fn both_messages_anywhere_in_any_order_pass() {
    let r = evaluate_outcome(failed_outcome(0, "xx B yy A zz"), aborted(&["A", "B"]));
    assert_eq!(r, TestResultKind::Success);
}

#[test]
fn one_missing_message_fails() {
    let r = evaluate_outcome(failed_outcome(0, "only A is here"), aborted(&["A", "B"]));
    let expected = "\ttest aborted as expected, but with wrong error message:\n\
                    \texpected: \"A\"\
                    \t          and \"B\"\
                    \t     got: \"only A is here\"";
    assert_eq!(r, TestResultKind::Failure(expected.to_string()));
}

#[test]
fn validate_accepts_all_contained() {
    let msgs = vec!["A".to_string(), "B".to_string()];
    assert_eq!(validate_error_messages("xxAyyBzz", &msgs), Ok(()));
}

#[test]
fn validate_accepts_duplicated_and_overlapping_matches() {
    let msgs = vec!["aba".to_string(), "ab".to_string(), "aba".to_string()];
    assert_eq!(validate_error_messages("xababax", &msgs), Ok(()));
}

#[test]
fn validate_rejects_missing_message() {
    let msgs = vec!["A".to_string(), "B".to_string()];
    let r = validate_error_messages("xxAyy", &msgs);
    let expected = "\ttest aborted as expected, but with wrong error message:\n\
                    \texpected: \"A\"\
                    \t          and \"B\"\
                    \t     got: \"xxAyy\"";
    assert_eq!(r, Err(expected.to_string()));
}

#[test]
fn validate_trims_the_captured_text_in_the_diagnostic() {
    let msgs = vec!["missing".to_string()];
    let r = validate_error_messages("  actual text \n", &msgs);
    let expected = "\ttest aborted as expected, but with wrong error message:\n\
                    \texpected: \"missing\"\
                    \t     got: \"actual text\"";
    assert_eq!(r, Err(expected.to_string()));
}

#[test]
fn diagnostic_trims_unicode_whitespace_from_the_captured_text() {
    let msgs = vec!["missing".to_string()];
    let r = validate_error_messages("\u{2003}actual\u{a0}text\u{2003}", &msgs);
    let expected = "\ttest aborted as expected, but with wrong error message:\n\
                    \texpected: \"missing\"\
                    \t     got: \"actual\u{a0}text\"";
    assert_eq!(r, Err(expected.to_string()));
}

#[test]
fn empty_message_is_always_contained() {
    let msgs = vec!["".to_string()];
    assert_eq!(validate_error_messages("anything", &msgs), Ok(()));
    assert_eq!(validate_error_messages("", &msgs), Ok(()));
}
