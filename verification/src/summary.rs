//! The run aggregator: counts how many tests ran and how many failed,
//! independently of the order in which concurrent workers deliver their
//! results, and renders the final summary line.

use vstd::prelude::*;

use crate::evaluate::{TestResultKind, TestResultKindSpec};

verus! {

/// The digit character for one decimal digit.
pub open spec fn decimal_digit(d: int) -> char {
    if d == 0 {
        '0'
    } else if d == 1 {
        '1'
    } else if d == 2 {
        '2'
    } else if d == 3 {
        '3'
    } else if d == 4 {
        '4'
    } else if d == 5 {
        '5'
    } else if d == 6 {
        '6'
    } else if d == 7 {
        '7'
    } else if d == 8 {
        '8'
    } else {
        '9'
    }
}

/// The usual decimal rendering of `n`, most significant digit first and
/// without leading zeros.
pub open spec fn decimal_rep(n: nat) -> Seq<char>
    decreases n,
{
    if n < 10 {
        seq![decimal_digit(n as int)]
    } else {
        decimal_rep(n / 10) + seq![decimal_digit((n % 10) as int)]
    }
}

/// The one-character string for one decimal digit.
fn digit_str(d: usize) -> (s: &'static str)
    requires
        d < 10,
    ensures
        s@ == seq![decimal_digit(d as int)],
{
    if d == 0 {
        let s = "0";
        proof {
            reveal_strlit("0");
            assert(s@ =~= seq![decimal_digit(0)]);
        }
        s
    } else if d == 1 {
        let s = "1";
        proof {
            reveal_strlit("1");
            assert(s@ =~= seq![decimal_digit(1)]);
        }
        s
    } else if d == 2 {
        let s = "2";
        proof {
            reveal_strlit("2");
            assert(s@ =~= seq![decimal_digit(2)]);
        }
        s
    } else if d == 3 {
        let s = "3";
        proof {
            reveal_strlit("3");
            assert(s@ =~= seq![decimal_digit(3)]);
        }
        s
    } else if d == 4 {
        let s = "4";
        proof {
            reveal_strlit("4");
            assert(s@ =~= seq![decimal_digit(4)]);
        }
        s
    } else if d == 5 {
        let s = "5";
        proof {
            reveal_strlit("5");
            assert(s@ =~= seq![decimal_digit(5)]);
        }
        s
    } else if d == 6 {
        let s = "6";
        proof {
            reveal_strlit("6");
            assert(s@ =~= seq![decimal_digit(6)]);
        }
        s
    } else if d == 7 {
        let s = "7";
        proof {
            reveal_strlit("7");
            assert(s@ =~= seq![decimal_digit(7)]);
        }
        s
    } else if d == 8 {
        let s = "8";
        proof {
            reveal_strlit("8");
            assert(s@ =~= seq![decimal_digit(8)]);
        }
        s
    } else {
        let s = "9";
        proof {
            reveal_strlit("9");
            assert(s@ =~= seq![decimal_digit(9)]);
        }
        s
    }
}

/// Renders `n` in decimal.
pub fn usize_to_string(n: usize) -> (s: String)
    ensures
        s@ == decimal_rep(n as nat),
    decreases n,
{
    if n < 10 {
        digit_str(n).to_owned()
    } else {
        let mut s = usize_to_string(n / 10);
        s.append(digit_str(n % 10));
        proof {
            assert(s@ =~= decimal_rep(n as nat));
        }
        s
    }
}

/// How many of the recorded results are failures.
pub open spec fn count_failures(results: Seq<TestResultKindSpec>) -> nat
    decreases results.len(),
{
    if results.len() == 0 {
        0
    } else {
        (if results[0] is Failure {
            1nat
        } else {
            0
        }) + count_failures(results.drop_first())
    }
}

/// Each failure counts once, wherever it stands: removing one result
/// removes exactly its own contribution.
pub proof fn lemma_count_failures_remove(results: Seq<TestResultKindSpec>, j: int)
    requires
        0 <= j < results.len(),
    ensures
        count_failures(results) == count_failures(results.remove(j)) + (if results[j] is Failure {
            1nat
        } else {
            0
        }),
    decreases results.len(),
{
    if j == 0 {
        assert(results.remove(0) =~= results.drop_first());
    } else {
        assert(results.remove(j).drop_first() =~= results.drop_first().remove(j - 1));
        lemma_count_failures_remove(results.drop_first(), j - 1);
    }
}

/// Appending one result adds exactly its own contribution.
pub proof fn lemma_count_failures_push(results: Seq<TestResultKindSpec>, k: TestResultKindSpec)
    ensures
        count_failures(results.push(k)) == count_failures(results) + (if k is Failure {
            1nat
        } else {
            0
        }),
{
    assert(results.push(k).remove(results.len() as int) =~= results);
    lemma_count_failures_remove(results.push(k), results.len() as int);
}

/// The failure count is blind to the order in which results arrive: two
/// runs that deliver the same results as a multiset, in any interleaving,
/// fail the same number of tests.
pub proof fn lemma_count_failures_permutation(
    a: Seq<TestResultKindSpec>,
    b: Seq<TestResultKindSpec>,
)
    requires
        a.to_multiset() == b.to_multiset(),
    ensures
        count_failures(a) == count_failures(b),
    decreases a.len(),
{
    broadcast use vstd::seq_lib::group_to_multiset_ensures;

    if a.len() == 0 {
        assert(b.to_multiset().len() == 0);
        assert(b.len() == 0);
    } else {
        let x = a[0];
        assert(a.contains(x));
        assert(a.to_multiset().count(x) > 0);
        assert(b.to_multiset().count(x) > 0);
        assert(b.contains(x));
        let j = choose|j: int| 0 <= j < b.len() && b[j] == x;
        assert(a.drop_first() =~= a.remove(0));
        assert(a.remove(0).to_multiset() =~= a.to_multiset().remove(x));
        assert(b.remove(j).to_multiset() =~= b.to_multiset().remove(x));
        lemma_count_failures_permutation(a.drop_first(), b.remove(j));
        lemma_count_failures_remove(b, j);
    }
}

/// The aggregate counters of one run: how many tests were run, and how many
/// of them failed.
#[derive(Debug, PartialEq, Eq, Clone, Copy)]
pub struct RunSummary {
    pub tests_run: usize,
    pub tests_failed: usize,
}

impl RunSummary {
    /// No more tests failed than were run.
    pub open spec fn wf(self) -> bool {
        self.tests_failed <= self.tests_run
    }

    /// An empty run.
    pub fn new() -> (s: RunSummary)
        ensures
            s.tests_run == 0,
            s.tests_failed == 0,
            s.wf(),
    {
        RunSummary { tests_run: 0, tests_failed: 0 }
    }

    /// A summary with the given counters, as the concurrent workers left
    /// them.
    pub fn from_counts(tests_run: usize, tests_failed: usize) -> (s: RunSummary)
        requires
            tests_failed <= tests_run,
        ensures
            s.tests_run == tests_run,
            s.tests_failed == tests_failed,
            s.wf(),
    {
        RunSummary { tests_run, tests_failed }
    }

    /// Records one finished test: the run counter always moves by one, the
    /// failure counter exactly when the result is a failure.
    pub fn record(&mut self, kind: &TestResultKind)
        requires
            old(self).wf(),
            old(self).tests_run < usize::MAX,
        ensures
            final(self).tests_run == old(self).tests_run + 1,
            final(self).tests_failed == old(self).tests_failed + (if kind@ is Failure {
                1int
            } else {
                0
            }),
            final(self).wf(),
    {
        self.tests_run = self.tests_run + 1;
        if let TestResultKind::Failure(_) = kind {
            self.tests_failed = self.tests_failed + 1;
        }
    }

    /// The whole run succeeded exactly when nothing failed.
    pub fn all_passed(&self) -> (b: bool)
        ensures
            b == (self.tests_failed == 0),
    {
        self.tests_failed == 0
    }

    /// How many tests succeeded.
    pub fn tests_successful(&self) -> (n: usize)
        requires
            self.wf(),
        ensures
            n == self.tests_run - self.tests_failed,
    {
        self.tests_run - self.tests_failed
    }

    /// The final summary line, exactly as it is printed.
    pub fn summary_line(&self) -> (s: String)
        requires
            self.wf(),
        ensures
            s@ == summary_line_text(self.tests_run as nat, self.tests_failed as nat),
    {
        let mut s = String::new();
        s.append("Tests run: ");
        s.append(usize_to_string(self.tests_run).as_str());
        s.append(", Tests successful: ");
        s.append(usize_to_string(self.tests_run - self.tests_failed).as_str());
        s.append(", Tests failed: ");
        s.append(usize_to_string(self.tests_failed).as_str());
        s.append("\n");
        proof {
            assert(s@ =~= summary_line_text(self.tests_run as nat, self.tests_failed as nat));
        }
        s
    }
}

/// The specification-level image of a sequence of test result kinds.
pub open spec fn kind_views(results: Seq<TestResultKind>) -> Seq<TestResultKindSpec> {
    results.map_values(|k: TestResultKind| k@)
}

/// Aggregates a completed run: every delivered result is counted once, and
/// the failure counter counts exactly the failures among them.
#[verifier::loop_isolation(false)]
pub fn summarize(results: &Vec<TestResultKind>) -> (s: RunSummary)
    requires
        results@.len() < usize::MAX,
    ensures
        s.tests_run == results@.len(),
        s.tests_failed == count_failures(kind_views(results@)),
        s.wf(),
{
    let ghost kv = kind_views(results@);
    let n = results.len();
    let mut s = RunSummary::new();
    let mut i: usize = 0;
    while i < n
        invariant
            0 <= i <= n,
            s.tests_run == i,
            s.tests_failed == count_failures(kv.subrange(0, i as int)),
            s.wf(),
        decreases n - i,
    {
        proof {
            lemma_count_failures_push(kv.subrange(0, i as int), kv[i as int]);
            assert(kv.subrange(0, i + 1) =~= kv.subrange(0, i as int).push(kv[i as int]));
        }
        s.record(&results[i]);
        i = i + 1;
    }
    proof {
        assert(kv.subrange(0, n as int) =~= kv);
    }
    s
}

/// The literal text of the final line:
/// `Tests run: <n>, Tests successful: <n>, Tests failed: <n>`, closed by a
/// line feed.
pub open spec fn summary_line_text(tests_run: nat, tests_failed: nat) -> Seq<char>
    recommends
        tests_failed <= tests_run,
{
    "Tests run: "@ + decimal_rep(tests_run) + ", Tests successful: "@ + decimal_rep(
        (tests_run - tests_failed) as nat,
    ) + ", Tests failed: "@ + decimal_rep(tests_failed) + "\n"@
}

} // verus!
