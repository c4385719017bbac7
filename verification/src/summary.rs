use vstd::prelude::*;

use crate::sweep::{conservation_flags, conservation_outcomes, ScaleResult};

verus! {

/// The number of passed outcomes in a sequence of test outcomes.
pub open spec fn count_passed(outcomes: Seq<bool>) -> nat
    decreases outcomes.len(),
{
    if outcomes.len() == 0 {
        0
    } else {
        count_passed(outcomes.drop_last()) + if outcomes.last() { 1nat } else { 0nat }
    }
}

/// The number of failed outcomes in a sequence of test outcomes.
pub open spec fn count_failed(outcomes: Seq<bool>) -> nat
    decreases outcomes.len(),
{
    if outcomes.len() == 0 {
        0
    } else {
        count_failed(outcomes.drop_last()) + if outcomes.last() { 0nat } else { 1nat }
    }
}

/// Counting passes counts exactly the true outcomes, and counting failures
/// exactly the false ones.
pub proof fn lemma_counts_are_filters(outcomes: Seq<bool>)
    ensures
        count_passed(outcomes) == outcomes.filter(|b: bool| b).len(),
        count_failed(outcomes) == outcomes.filter(|b: bool| !b).len(),
    decreases outcomes.len(),
{
    reveal(Seq::filter);
    if outcomes.len() > 0 {
        lemma_counts_are_filters(outcomes.drop_last());
    }
}

/// No outcome counts nothing, and one more outcome adds one to the passes
/// when it passed and one to the failures when it failed, and nothing else.
pub proof fn lemma_count_push(outcomes: Seq<bool>, outcome: bool)
    ensures
        count_passed(Seq::<bool>::empty()) == 0,
        count_failed(Seq::<bool>::empty()) == 0,
        count_passed(outcomes.push(outcome)) == count_passed(outcomes) + if outcome { 1int } else { 0int },
        count_failed(outcomes.push(outcome)) == count_failed(outcomes) + if outcome { 0int } else { 1int },
{
    assert(outcomes.push(outcome).drop_last() =~= outcomes);
}

/// Every outcome is either a pass or a failure, and there is no failure
/// exactly when every outcome passed.
pub proof fn lemma_outcome_counts(outcomes: Seq<bool>)
    ensures
        count_passed(outcomes) + count_failed(outcomes) == outcomes.len(),
        count_failed(outcomes) == 0 <==> forall|i: int| 0 <= i < outcomes.len() ==> outcomes[i],
    decreases outcomes.len(),
{
    if outcomes.len() > 0 {
        let init = outcomes.drop_last();
        lemma_outcome_counts(init);
        if count_failed(outcomes) == 0 {
            assert forall|i: int| 0 <= i < outcomes.len() implies outcomes[i] by {
                if i < init.len() {
                    assert(init[i] == outcomes[i]);
                }
            }
        }
        if forall|i: int| 0 <= i < outcomes.len() ==> outcomes[i] {
            assert forall|i: int| 0 <= i < init.len() implies init[i] by {
                assert(outcomes[i]);
            }
            assert(outcomes[outcomes.len() - 1]);
        }
    }
}

/// Counting over a prefix never gives more than counting over a longer prefix.
proof fn lemma_prefix_counts_grow(outcomes: Seq<bool>, i: int, j: int)
    requires
        0 <= i <= j <= outcomes.len(),
    ensures
        count_passed(outcomes.take(i)) <= count_passed(outcomes.take(j)),
        count_failed(outcomes.take(i)) <= count_failed(outcomes.take(j)),
    decreases j - i,
{
    if i < j {
        lemma_prefix_counts_grow(outcomes, i, j - 1);
        assert(outcomes.take(j).drop_last() =~= outcomes.take(j - 1));
    }
}

/// A verification summary combining all test results. The per-scale,
/// invariant and regression results are kept as they were produced; the
/// summary counts how many tests passed and failed.
#[derive(Debug, Clone)]
pub struct VerificationSummary<S, I, R> {
    /// Total number of tests run.
    pub total_tests: usize,
    /// Number of tests that passed.
    pub passed: usize,
    /// Number of tests that failed.
    pub failed: usize,
    /// Per-scale results.
    pub scale_results: Vec<S>,
    /// Invariant check results.
    pub invariant_results: Vec<I>,
    /// Regression test results.
    pub regression_results: Vec<R>,
}

impl<S, I, R> VerificationSummary<S, I, R> {
    /// Creates an empty summary.
    pub fn new() -> (s: Self)
        ensures
            s.total_tests == 0,
            s.passed == 0,
            s.failed == 0,
            s.scale_results@.len() == 0,
            s.invariant_results@.len() == 0,
            s.regression_results@.len() == 0,
    {
        VerificationSummary {
            total_tests: 0,
            passed: 0,
            failed: 0,
            scale_results: Vec::new(),
            invariant_results: Vec::new(),
            regression_results: Vec::new(),
        }
    }

    /// Returns true if all tests passed.
    pub fn all_passed(&self) -> (r: bool)
        ensures
            r == (self.failed == 0),
    {
        self.failed == 0
    }

    /// Counts one test per outcome: each adds to the total, and to the passed
    /// or the failed count by its outcome.
    pub fn record_outcomes(&mut self, outcomes: &[bool])
        requires
            old(self).total_tests + outcomes@.len() <= usize::MAX,
            old(self).passed + count_passed(outcomes@) <= usize::MAX,
            old(self).failed + count_failed(outcomes@) <= usize::MAX,
        ensures
            final(self).total_tests == old(self).total_tests + outcomes@.len(),
            final(self).passed == old(self).passed + count_passed(outcomes@),
            final(self).failed == old(self).failed + count_failed(outcomes@),
            final(self).passed == old(self).passed + outcomes@.filter(|b: bool| b).len(),
            final(self).failed == old(self).failed + outcomes@.filter(|b: bool| !b).len(),
            final(self).scale_results == old(self).scale_results,
            final(self).invariant_results == old(self).invariant_results,
            final(self).regression_results == old(self).regression_results,
    {
        let n = outcomes.len();
        let mut i: usize = 0;
        while i < n
            invariant
                n == outcomes@.len(),
                0 <= i <= n,
                old(self).total_tests + outcomes@.len() <= usize::MAX,
                old(self).passed + count_passed(outcomes@) <= usize::MAX,
                old(self).failed + count_failed(outcomes@) <= usize::MAX,
                self.total_tests == old(self).total_tests + i,
                self.passed == old(self).passed + count_passed(outcomes@.take(i as int)),
                self.failed == old(self).failed + count_failed(outcomes@.take(i as int)),
                self.scale_results == old(self).scale_results,
                self.invariant_results == old(self).invariant_results,
                self.regression_results == old(self).regression_results,
            decreases n - i,
        {
            proof {
                assert(outcomes@.take(i + 1).drop_last() =~= outcomes@.take(i as int));
                assert(outcomes@.take(n as int) =~= outcomes@);
                lemma_prefix_counts_grow(outcomes@, i + 1, n as int);
            }
            self.total_tests = self.total_tests + 1;
            if outcomes[i] {
                self.passed = self.passed + 1;
            } else {
                self.failed = self.failed + 1;
            }
            i = i + 1;
        }
        assert(outcomes@.take(n as int) =~= outcomes@);
        proof {
            lemma_counts_are_filters(outcomes@);
        }
    }

    /// Builds the summary of a verification run from its per-scale,
    /// invariant and regression results, given whether each of them passed,
    /// and counts every one of them as a test.
    pub fn from_outcomes(
        scale_results: Vec<S>,
        scale_outcomes: &[bool],
        invariant_results: Vec<I>,
        invariant_outcomes: &[bool],
        regression_results: Vec<R>,
        regression_outcomes: &[bool],
    ) -> (s: Self)
        requires
            scale_outcomes@.len() == scale_results@.len(),
            invariant_outcomes@.len() == invariant_results@.len(),
            regression_outcomes@.len() == regression_results@.len(),
            scale_outcomes@.len() + invariant_outcomes@.len() + regression_outcomes@.len()
                <= usize::MAX,
        ensures
            s.scale_results == scale_results,
            s.invariant_results == invariant_results,
            s.regression_results == regression_results,
            s.total_tests == scale_outcomes@.len() + invariant_outcomes@.len()
                + regression_outcomes@.len(),
            s.passed == count_passed(scale_outcomes@) + count_passed(invariant_outcomes@)
                + count_passed(regression_outcomes@),
            s.failed == count_failed(scale_outcomes@) + count_failed(invariant_outcomes@)
                + count_failed(regression_outcomes@),
    {
        proof {
            lemma_outcome_counts(scale_outcomes@);
            lemma_outcome_counts(invariant_outcomes@);
            lemma_outcome_counts(regression_outcomes@);
        }
        let mut s = VerificationSummary {
            total_tests: 0,
            passed: 0,
            failed: 0,
            scale_results,
            invariant_results,
            regression_results,
        };
        s.record_outcomes(scale_outcomes);
        s.record_outcomes(invariant_outcomes);
        s.record_outcomes(regression_outcomes);
        s
    }
}

impl<M, I, R> VerificationSummary<ScaleResult<M>, I, R> {
    /// Builds the summary of a verification run from its per-scale results,
    /// each counted as passed where conservation held at that scale, and its
    /// invariant and regression results with whether each of them passed.
    pub fn from_results(
        scale_results: Vec<ScaleResult<M>>,
        invariant_results: Vec<I>,
        invariant_outcomes: &[bool],
        regression_results: Vec<R>,
        regression_outcomes: &[bool],
    ) -> (s: Self)
        requires
            invariant_outcomes@.len() == invariant_results@.len(),
            regression_outcomes@.len() == regression_results@.len(),
            scale_results@.len() + invariant_outcomes@.len() + regression_outcomes@.len()
                <= usize::MAX,
        ensures
            s.scale_results == scale_results,
            s.invariant_results == invariant_results,
            s.regression_results == regression_results,
            s.total_tests == scale_results@.len() + invariant_outcomes@.len()
                + regression_outcomes@.len(),
            s.passed == count_passed(conservation_flags(scale_results@)) + count_passed(
                invariant_outcomes@,
            ) + count_passed(regression_outcomes@),
            s.failed == count_failed(conservation_flags(scale_results@)) + count_failed(
                invariant_outcomes@,
            ) + count_failed(regression_outcomes@),
    {
        let scale_outcomes = conservation_outcomes(scale_results.as_slice());
        Self::from_outcomes(
            scale_results,
            scale_outcomes.as_slice(),
            invariant_results,
            invariant_outcomes,
            regression_results,
            regression_outcomes,
        )
    }
}

/// In the summary of a run, every test is counted once as passed or as
/// failed, and the run has no failure exactly when every single result
/// passed.
pub proof fn lemma_summary_counts(
    scale_outcomes: Seq<bool>,
    invariant_outcomes: Seq<bool>,
    regression_outcomes: Seq<bool>,
)
    ensures
        count_passed(scale_outcomes) + count_passed(invariant_outcomes) + count_passed(
            regression_outcomes,
        ) + count_failed(scale_outcomes) + count_failed(invariant_outcomes) + count_failed(
            regression_outcomes,
        ) == scale_outcomes.len() + invariant_outcomes.len() + regression_outcomes.len(),
        (count_failed(scale_outcomes) + count_failed(invariant_outcomes) + count_failed(
            regression_outcomes,
        ) == 0) <==> {
            &&& forall|i: int| 0 <= i < scale_outcomes.len() ==> scale_outcomes[i]
            &&& forall|i: int| 0 <= i < invariant_outcomes.len() ==> invariant_outcomes[i]
            &&& forall|i: int| 0 <= i < regression_outcomes.len() ==> regression_outcomes[i]
        },
{
    lemma_outcome_counts(scale_outcomes);
    lemma_outcome_counts(invariant_outcomes);
    lemma_outcome_counts(regression_outcomes);
}

} // verus!
