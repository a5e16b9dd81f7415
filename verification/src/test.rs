//! The test framework's results.

use vstd::prelude::*;

verus! {

/// Info passed to tests: the test's place in the run.
#[derive(Debug, Clone, Copy, PartialEq, Eq, Structural)]
pub struct TestInfo {
    pub ord: usize,
}

/// A testable object: anything that can be run as a test.
pub trait Testable {
    /// Runs the test.
    fn run(&self, info: TestInfo) -> TestResult;
}

/// The result of a test: it passed, it failed for a reason, or it was ignored.
#[derive(Debug, Clone, Copy)]
pub enum TestResult {
    /// The test has passed.
    Passed,
    /// The test has failed; the value says why.
    Failure(&'static str),
    /// The test was ignored.
    Ignored,
}

/// How many tests of a run passed, failed and were ignored.
#[derive(Debug, Clone, Copy, PartialEq, Eq, Structural)]
pub struct Tally {
    pub passed: usize,
    pub failed: usize,
    pub ignored: usize,
}

/// The tally of the results `results`.
pub open spec fn spec_tally(results: Seq<TestResult>) -> (int, int, int)
    decreases results.len(),
{
    if results.len() == 0 {
        (0, 0, 0)
    } else {
        let (p, f, i) = spec_tally(results.drop_last());
        match results.last() {
            TestResult::Passed => (p + 1, f, i),
            TestResult::Failure(_) => (p, f + 1, i),
            TestResult::Ignored => (p, f, i + 1),
        }
    }
}

/// The three counts of a tally add up to the number of results.
pub proof fn lemma_tally_total(results: Seq<TestResult>)
    ensures
        spec_tally(results).0 + spec_tally(results).1 + spec_tally(results).2 == results.len(),
        0 <= spec_tally(results).0,
        0 <= spec_tally(results).1,
        0 <= spec_tally(results).2,
    decreases results.len(),
{
    if results.len() > 0 {
        lemma_tally_total(results.drop_last());
    }
}

impl TestResult {
    /// Returns a failure with the reason `err`.
    pub fn fail(err: &'static str) -> (res: Self)
        ensures
            res == TestResult::Failure(err),
    {
        Self::Failure(err)
    }

    /// Passes where `assert` holds, fails with `err` where it does not.
    pub fn assertion(assert_holds: bool, err: &'static str) -> (res: Self)
        ensures
            res == if assert_holds {
                TestResult::Passed
            } else {
                TestResult::Failure(err)
            },
    {
        if assert_holds {
            Self::Passed
        } else {
            Self::Failure(err)
        }
    }
}

/// Counts the results of a run.
pub fn tally(results: &[TestResult]) -> (t: Tally)
    ensures
        (t.passed as int, t.failed as int, t.ignored as int) == spec_tally(results@),
{
    let mut t = Tally { passed: 0, failed: 0, ignored: 0 };
    let n = results.len();
    let mut k: usize = 0;
    while k < n
        invariant
            0 <= k <= n,
            n == results@.len(),
            (t.passed as int, t.failed as int, t.ignored as int) == spec_tally(
                results@.subrange(0, k as int),
            ),
        decreases n - k,
    {
        proof {
            lemma_tally_total(results@.subrange(0, k as int));
            assert(results@.subrange(0, k + 1).drop_last() =~= results@.subrange(0, k as int));
        }
        match results[k] {
            TestResult::Passed => {
                t.passed += 1;
            },
            TestResult::Failure(_) => {
                t.failed += 1;
            },
            TestResult::Ignored => {
                t.ignored += 1;
            },
        }
        k += 1;
    }
    proof {
        assert(results@.subrange(0, n as int) =~= results@);
    }
    t
}

} // verus!
