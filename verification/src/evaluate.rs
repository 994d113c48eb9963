//! The outcome evaluator: compares the terminal result of one test's
//! pipeline with the expectation its file declared, and produces either a
//! pass or a failure carrying a diagnostic text.

use vstd::prelude::*;

use crate::directive::{OutcomeSpec, TestOutcome};
use crate::pipeline::{PipelineOutcome, PipelineOutcomeSpec};
use crate::text::{all_contained, contains_seq, contains_substring, trim_spec, trim_str};

verus! {

/// How one test case came out: a pass, or a failure explained by a
/// diagnostic.
#[derive(Debug, PartialEq)]
pub enum TestResultKind {
    Success,
    Failure(String),
}

/// Specification-level image of [`TestResultKind`].
pub ghost enum TestResultKindSpec {
    Success,
    Failure { diagnostic: Seq<char> },
}

impl View for TestResultKind {
    type V = TestResultKindSpec;

    open spec fn view(&self) -> TestResultKindSpec {
        match self {
            TestResultKind::Success => TestResultKindSpec::Success,
            TestResultKind::Failure(diagnostic) => TestResultKindSpec::Failure {
                diagnostic: diagnostic@,
            },
        }
    }
}

/// The result of one test case: the file it names and how it came out.
#[derive(Debug, PartialEq)]
pub struct TestResult {
    pub filename: String,
    pub kind: TestResultKind,
}

/// Each message of `msgs` in order, wrapped between `pre` and `post`, all
/// run together.
pub open spec fn join_wrapped(msgs: Seq<Seq<char>>, pre: Seq<char>, post: Seq<char>) -> Seq<char>
    decreases msgs.len(),
{
    if msgs.len() == 0 {
        Seq::empty()
    } else {
        pre + msgs[0] + post + join_wrapped(msgs.drop_first(), pre, post)
    }
}

/// Appending one more message extends the joined text at its end.
pub proof fn lemma_join_wrapped_push(
    msgs: Seq<Seq<char>>,
    pre: Seq<char>,
    post: Seq<char>,
    m: Seq<char>,
)
    ensures
        join_wrapped(msgs.push(m), pre, post) == join_wrapped(msgs, pre, post) + pre + m + post,
    decreases msgs.len(),
{
    if msgs.len() == 0 {
        let s = msgs.push(m);
        assert(s[0] == m);
        assert(s.drop_first() =~= Seq::<Seq<char>>::empty());
        assert(join_wrapped(s, pre, post) == pre + m + post + join_wrapped(
            Seq::<Seq<char>>::empty(),
            pre,
            post,
        ));
        assert(join_wrapped(Seq::<Seq<char>>::empty(), pre, post) == Seq::<char>::empty());
        assert(join_wrapped(msgs, pre, post) == Seq::<char>::empty());
        assert(pre + m + post + Seq::<char>::empty() =~= Seq::<char>::empty() + pre + m + post);
    } else {
        assert(msgs.push(m)[0] == msgs[0]);
        assert(msgs.push(m).drop_first() =~= msgs.drop_first().push(m));
        lemma_join_wrapped_push(msgs.drop_first(), pre, post, m);
        assert(join_wrapped(msgs.push(m), pre, post) =~= join_wrapped(msgs, pre, post) + pre + m
            + post);
    }
}

/// Appends to `out` every message of `msgs` from index `start` on, each
/// wrapped between `pre` and `post`.
#[verifier::loop_isolation(false)]
fn push_wrapped_list(out: &mut String, msgs: &Vec<String>, start: usize, pre: &str, post: &str)
    requires
        start <= msgs@.len(),
    ensures
        final(out)@ == old(out)@ + join_wrapped(msgs.deep_view().skip(start as int), pre@, post@),
{
    let ghost dv = msgs.deep_view();
    let n = msgs.len();
    proof {
        assert(out@ =~= old(out)@ + join_wrapped(dv.subrange(start as int, start as int), pre@,
            post@));
    }
    let mut i = start;
    while i < n
        invariant
            start <= i <= n,
            out@ == old(out)@ + join_wrapped(dv.subrange(start as int, i as int), pre@, post@),
        decreases n - i,
    {
        out.append(pre);
        out.append(msgs[i].as_str());
        out.append(post);
        proof {
            lemma_join_wrapped_push(dv.subrange(start as int, i as int), pre@, post@, dv[i as int]);
            assert(dv.subrange(start as int, i + 1) =~= dv.subrange(start as int, i as int).push(
                dv[i as int]));
            assert(out@ =~= old(out)@ + join_wrapped(dv.subrange(start as int, i + 1), pre@,
                post@));
        }
        i = i + 1;
    }
    proof {
        assert(dv.subrange(start as int, n as int) =~= dv.skip(start as int));
    }
}

/// The diagnostic for a pipeline that ran to completion although failure
/// messages were declared: the declared messages are listed after a fixed
/// heading.
pub open spec fn finished_diagnostic(required: Seq<Seq<char>>) -> Seq<char> {
    "\ttest execution finished, but the following error messages were expected:"@ + join_wrapped(
        required,
        "\t\t\""@,
        "\""@,
    )
}

/// The diagnostic for a stage that failed with the wrong standard-error
/// text: the declared messages, then the trimmed text actually captured.
pub open spec fn mismatch_diagnostic(required: Seq<Seq<char>>, stderr: Seq<char>) -> Seq<char>
    recommends
        required.len() >= 1,
{
    "\ttest aborted as expected, but with wrong error message:\n\texpected: \""@ + required[0]
        + "\""@ + join_wrapped(required.drop_first(), "\t          and \""@, "\""@)
        + "\t     got: \""@ + trim_spec(stderr) + "\""@
}

/// Checks that the captured standard-error text contains every declared
/// message as a substring, in any position and any order; when one is
/// missing, the returned diagnostic lists what was declared and what was
/// captured.
pub fn validate_error_messages(stderr: &str, error_messages: &Vec<String>) -> (r: Result<
    (),
    String,
>)
    requires
        error_messages@.len() >= 1,
    ensures
        r is Ok <==> all_contained(stderr@, error_messages.deep_view()),
        r matches Err(d) ==> d@ == mismatch_diagnostic(error_messages.deep_view(), stderr@),
{
    let ghost dv = error_messages.deep_view();
    let n = error_messages.len();
    let mut i: usize = 0;
    while i < n
        invariant
            0 <= i <= n,
            n == error_messages@.len(),
            dv == error_messages.deep_view(),
            forall|k: int| 0 <= k < i ==> contains_seq(stderr@, #[trigger] dv[k]),
        decreases n - i,
    {
        if !contains_substring(stderr, error_messages[i].as_str()) {
            assert(!contains_seq(stderr@, dv[i as int]));
            let mut d = String::new();
            d.append("\ttest aborted as expected, but with wrong error message:\n\texpected: \"");
            d.append(error_messages[0].as_str());
            d.append("\"");
            push_wrapped_list(&mut d, error_messages, 1, "\t          and \"", "\"");
            d.append("\t     got: \"");
            d.append(trim_str(stderr));
            d.append("\"");
            proof {
                assert(dv.skip(1) =~= dv.drop_first());
                assert(d@ =~= mismatch_diagnostic(dv, stderr@));
            }
            return Err(d);
        }
        i = i + 1;
    }
    Ok(())
}

/// Decides whether one test passed, as the contract of the outcome
/// evaluator states it: a clean run passes iff nothing was declared; a
/// declared failure passes iff some stage failed with a standard-error text
/// containing every declared message; in every other case the result is a
/// failure with the fitting diagnostic.
pub fn evaluate_outcome(outcome: PipelineOutcome, expected: TestOutcome) -> (r: TestResultKind)
    requires
        (expected@ matches OutcomeSpec::Aborted { required } ==> required.len() >= 1),
    ensures
        ({
            let v = r@;
            match (outcome@, expected@) {
                (
                    PipelineOutcomeSpec::AllStagesSucceeded { .. },
                    OutcomeSpec::Finished,
                ) => v == TestResultKindSpec::Success,
                (
                    PipelineOutcomeSpec::AllStagesSucceeded { .. },
                    OutcomeSpec::Aborted { required },
                ) => v == TestResultKindSpec::Failure {
                    diagnostic: finished_diagnostic(required),
                },
                (
                    PipelineOutcomeSpec::StageFailed { result, .. },
                    OutcomeSpec::Finished,
                ) => v == TestResultKindSpec::Failure { diagnostic: result.stderr },
                (
                    PipelineOutcomeSpec::StageFailed { result, .. },
                    OutcomeSpec::Aborted { required },
                ) => if all_contained(result.stderr, required) {
                    v == TestResultKindSpec::Success
                } else {
                    v == TestResultKindSpec::Failure {
                        diagnostic: mismatch_diagnostic(required, result.stderr),
                    }
                },
            }
        }),
{
    match outcome {
        PipelineOutcome::AllStagesSucceeded { .. } => match expected {
            TestOutcome::Finished => TestResultKind::Success,
            TestOutcome::Aborted { error_messages } => {
                let ghost dv = error_messages.deep_view();
                let mut d = String::new();
                d.append(
                    "\ttest execution finished, but the following error messages were expected:",
                );
                push_wrapped_list(&mut d, &error_messages, 0, "\t\t\"", "\"");
                proof {
                    assert(dv.skip(0) =~= dv);
                    assert(d@ =~= finished_diagnostic(dv));
                }
                TestResultKind::Failure(d)
            },
        },
        PipelineOutcome::StageFailed { index: _, result } => match expected {
            TestOutcome::Finished => TestResultKind::Failure(result.stderr),
            TestOutcome::Aborted { error_messages } => {
                match validate_error_messages(result.stderr.as_str(), &error_messages) {
                    Ok(_) => TestResultKind::Success,
                    Err(d) => TestResultKind::Failure(d),
                }
            },
        },
    }
}

} // verus!
