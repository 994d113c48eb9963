use backseat_testrunner::pipeline::{
    advance_pipeline, classify_results, PipelineOutcome, StageResult, StepDecision,
};

fn ok_stage(stdout: &str) -> StageResult {
    StageResult { success: true, stdout: stdout.as_bytes().to_vec(), stderr: String::new() }
}

fn failed_stage(stderr: &str) -> StageResult {
    StageResult { success: false, stdout: Vec::new(), stderr: stderr.to_string() }
}

#[test]
fn successful_middle_stage_feeds_the_next_stage() {
    let d = advance_pipeline(0, 2, ok_stage("compiled code"));
    assert_eq!(
        d,
        StepDecision::RunNext { next_index: 1, input: b"compiled code".to_vec() }
    );
}

#[test]
fn successful_last_stage_ends_the_run() {
    let d = advance_pipeline(1, 2, ok_stage("program output"));
    assert_eq!(
        d,
        StepDecision::Done {
            outcome: PipelineOutcome::AllStagesSucceeded {
                final_stdout: b"program output".to_vec(),
            },
        }
    );
}

#[test]
fn failing_stage_ends_the_run_at_once() {
    let d = advance_pipeline(0, 3, failed_stage("compile error"));
    assert_eq!(
        d,
        StepDecision::Done {
            outcome: PipelineOutcome::StageFailed { index: 0, result: failed_stage("compile error") },
        }
    );
}

#[test]
fn all_successful_results_classify_to_the_last_stdout() {
    let o = classify_results(vec![ok_stage("first"), ok_stage("second"), ok_stage("third")]);
    assert_eq!(o, PipelineOutcome::AllStagesSucceeded { final_stdout: b"third".to_vec() });
}

#[test]
fn first_failure_wins_the_classification() {
    let o = classify_results(vec![
        ok_stage("fine"),
        failed_stage("first bad"),
        failed_stage("second bad"),
    ]);
    assert_eq!(
        o,
        PipelineOutcome::StageFailed { index: 1, result: failed_stage("first bad") }
    );
}

#[test]
fn single_failing_stage_classifies_with_index_zero() {
    let o = classify_results(vec![failed_stage("boom")]);
    assert_eq!(o, PipelineOutcome::StageFailed { index: 0, result: failed_stage("boom") });
}
