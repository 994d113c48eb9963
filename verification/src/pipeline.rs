//! The pipeline model: a fixed ordered sequence of external stages is run
//! over one test case, each stage's captured standard output feeding the
//! next stage's standard input, and execution stops at the first failing
//! stage.  The processes themselves are spawned by the surrounding
//! application; this module holds the verified bookkeeping that decides,
//! after each stage, whether to go on, and what the terminal outcome is.

use vstd::prelude::*;

verus! {

/// Configuration of one stage: which executable to run, the fixed arguments
/// it takes, and whether it reads the previous stage's captured standard
/// output on its standard input.
pub struct PipelineStage {
    pub executable: String,
    pub args: Vec<String>,
    pub pipe_input: bool,
}

/// What one stage invocation produced: whether its exit status was success,
/// and its captured standard output and standard error.
#[derive(Debug, PartialEq)]
pub struct StageResult {
    pub success: bool,
    pub stdout: Vec<u8>,
    pub stderr: String,
}

/// Specification-level image of [`StageResult`].
pub ghost struct StageResultSpec {
    pub success: bool,
    pub stdout: Seq<u8>,
    pub stderr: Seq<char>,
}

impl View for StageResult {
    type V = StageResultSpec;

    open spec fn view(&self) -> StageResultSpec {
        StageResultSpec { success: self.success, stdout: self.stdout@, stderr: self.stderr@ }
    }
}

/// The terminal result of running the pipeline over one test case: either
/// every stage succeeded, or execution stopped at the first failing stage.
#[derive(Debug, PartialEq)]
pub enum PipelineOutcome {
    AllStagesSucceeded { final_stdout: Vec<u8> },
    StageFailed { index: usize, result: StageResult },
}

/// Specification-level image of [`PipelineOutcome`].
pub ghost enum PipelineOutcomeSpec {
    AllStagesSucceeded { final_stdout: Seq<u8> },
    StageFailed { index: int, result: StageResultSpec },
}

impl View for PipelineOutcome {
    type V = PipelineOutcomeSpec;

    open spec fn view(&self) -> PipelineOutcomeSpec {
        match self {
            PipelineOutcome::AllStagesSucceeded { final_stdout } => {
                PipelineOutcomeSpec::AllStagesSucceeded { final_stdout: final_stdout@ }
            },
            PipelineOutcome::StageFailed { index, result } => PipelineOutcomeSpec::StageFailed {
                index: *index as int,
                result: result@,
            },
        }
    }
}

/// What the driving loop must do after one stage has run.
#[derive(Debug, PartialEq)]
pub enum StepDecision {
    /// Run the stage at `next_index`, feeding it `input` where it takes
    /// piped input.
    RunNext { next_index: usize, input: Vec<u8> },
    /// The pipeline is finished with this outcome.
    Done { outcome: PipelineOutcome },
}

/// Decides how the pipeline goes on once the stage at `index` (of
/// `stage_count` stages) has produced `result`: a failing stage ends the
/// run at once, the last stage's success ends it with the captured output,
/// and any earlier success hands that output to the next stage.
pub fn advance_pipeline(index: usize, stage_count: usize, result: StageResult) -> (d: StepDecision)
    requires
        index < stage_count,
    ensures
        !result.success ==> (d matches StepDecision::Done { outcome } && outcome@
            == PipelineOutcomeSpec::StageFailed { index: index as int, result: result@ }),
        (result.success && index + 1 == stage_count) ==> (d matches StepDecision::Done { outcome }
            && outcome@ == PipelineOutcomeSpec::AllStagesSucceeded { final_stdout: result.stdout@ }),
        (result.success && index + 1 < stage_count) ==> (d matches StepDecision::RunNext {
            next_index,
            input,
        } && next_index == index + 1 && input@ == result.stdout@),
{
    if !result.success {
        StepDecision::Done { outcome: PipelineOutcome::StageFailed { index, result } }
    } else if index + 1 == stage_count {
        StepDecision::Done {
            outcome: PipelineOutcome::AllStagesSucceeded { final_stdout: result.stdout },
        }
    } else {
        StepDecision::RunNext { next_index: index + 1, input: result.stdout }
    }
}

/// The index of the first failing stage, or `results.len()` if every stage
/// succeeded.
pub open spec fn first_failure(results: Seq<StageResultSpec>) -> int
    decreases results.len(),
{
    if results.len() == 0 {
        0
    } else if !results[0].success {
        0
    } else {
        1 + first_failure(results.drop_first())
    }
}

/// `first_failure` returns an in-range index, everything before it
/// succeeded, and it points at a failure when it is below `results.len()`.
pub proof fn lemma_first_failure(results: Seq<StageResultSpec>)
    ensures
        0 <= first_failure(results) <= results.len(),
        first_failure(results) < results.len() ==> !results[first_failure(results)].success,
        forall|j: int| 0 <= j < first_failure(results) ==> results[j].success,
    decreases results.len(),
{
    if results.len() > 0 && results[0].success {
        lemma_first_failure(results.drop_first());
        assert forall|j: int| 0 <= j < first_failure(results) implies results[j].success by {
            if j > 0 {
                assert(results.drop_first()[j - 1].success);
                assert(results[j] == results.drop_first()[j - 1]);
            }
        }
    }
}

/// The outcome of a completed run, given what every invoked stage produced:
/// the first failure wins, and a run without one ends with the last stage's
/// standard output.
pub open spec fn spec_pipeline_outcome(results: Seq<StageResultSpec>) -> PipelineOutcomeSpec
    recommends
        results.len() > 0,
{
    let f = first_failure(results);
    if f == results.len() {
        PipelineOutcomeSpec::AllStagesSucceeded { final_stdout: results.last().stdout }
    } else {
        PipelineOutcomeSpec::StageFailed { index: f, result: results[f] }
    }
}

/// The specification-level image of a sequence of stage results.
pub open spec fn stage_views(results: Seq<StageResult>) -> Seq<StageResultSpec> {
    results.map_values(|r: StageResult| r@)
}

/// Classifies a completed run from the recorded per-stage results, stopping
/// at the first failure.
#[verifier::loop_isolation(false)]
pub fn classify_results(results: Vec<StageResult>) -> (o: PipelineOutcome)
    requires
        results@.len() > 0,
    ensures
        o@ == spec_pipeline_outcome(stage_views(results@)),
{
    let ghost rs = stage_views(results@);
    proof {
        lemma_first_failure(rs);
    }
    let n = results.len();
    let mut rem = results;
    let mut i: usize = 0;
    while i < n
        invariant
            0 <= i <= n,
            n == rem@.len(),
            rs == stage_views(rem@),
            forall|j: int| 0 <= j < i ==> rs[j].success,
            0 <= first_failure(rs) <= rs.len(),
            first_failure(rs) < rs.len() ==> !rs[first_failure(rs)].success,
            forall|j: int| 0 <= j < first_failure(rs) ==> rs[j].success,
        decreases n - i,
    {
        if !rem[i].success {
            assert(rs[i as int] == rem@[i as int]@);
            assert(first_failure(rs) == i);
            let result = rem.remove(i);
            return PipelineOutcome::StageFailed { index: i, result };
        }
        i = i + 1;
    }
    assert(first_failure(rs) == rs.len());
    let last = rem.remove(n - 1);
    PipelineOutcome::AllStagesSucceeded { final_stdout: last.stdout }
}

} // verus!
