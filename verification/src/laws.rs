//! What holds of every run, proved from the definitions that the engine's
//! contracts are stated in.

use crate::classify::{classified, mismatch_text, uncatchable_text, Classification, Ruling, Verdict};
use crate::dispatch::{
    closing, context, count, ending, halted, invoked, lines, reached, result, tally, total,
    transcript, Exit,
};
use crate::model::{Test, TestError, TestExpected, TestResult, TestStatus};
use crate::report::{prefix, skip_code, skip_line};
use crate::summary::Tally;
use vstd::prelude::*;

verus! {

/// Whether `piece` stands somewhere in `text`, unbroken.
pub open spec fn shows(text: Seq<char>, piece: Seq<char>) -> bool {
    exists|at: int|
        0 <= at && at + piece.len() <= text.len() && #[trigger] text.subrange(
            at,
            at + piece.len(),
        ) == piece
}

/// Where the descriptor at position `j` stands once the descriptor at
/// position `i` has been taken out of the registry.
pub open spec fn shifted(i: int, j: int) -> int {
    if j < i {
        j
    } else {
        j - 1
    }
}

/// Whether the descriptor at position `j` fares the same once the descriptor
/// at position `i` has been taken out of the registry: it is invoked in the
/// one run exactly if it is in the other, and with the same context.
pub open spec fn undisturbed<F>(tests: Seq<Test<F>>, hosted: bool, i: int, j: int) -> bool {
    &&& invoked(tests.remove(i), hosted, shifted(i, j)) == invoked(tests, hosted, j)
    &&& context(tests.remove(i), shifted(i, j)) == context(tests, j)
}

/// Over any number of leading descriptors, taking a disabled descriptor out
/// changes neither the count, nor whether the run has halted, nor the lines,
/// nor the tally.
proof fn lemma_without_disabled<F>(
    tests: Seq<Test<F>>,
    outcomes: Seq<TestResult>,
    hosted: bool,
    colored: bool,
    i: int,
    n: int,
)
    requires
        0 <= i < tests.len(),
        outcomes.len() == tests.len(),
        tests[i].status is Disable,
        0 <= n <= tests.len(),
    ensures
        ({
            let m = if n <= i {
                n
            } else {
                n - 1
            };
            &&& count(tests.remove(i), m) == count(tests, n)
            &&& halted(tests.remove(i), hosted, m) == halted(tests, hosted, n)
            &&& lines(tests.remove(i), outcomes.remove(i), hosted, colored, m) == lines(
                tests,
                outcomes,
                hosted,
                colored,
                n,
            )
            &&& tally(tests.remove(i), outcomes.remove(i), hosted, m) == tally(
                tests,
                outcomes,
                hosted,
                n,
            )
        }),
    decreases n,
{
    let fewer = tests.remove(i);
    let rest = outcomes.remove(i);
    let m = if n <= i {
        n
    } else {
        n - 1
    };
    assert(tests[i].step(hosted) is Omit);
    if halted(tests, hosted, n) {
        let j = choose|j: int| 0 <= j < n && j < tests.len() && (#[trigger] tests[j]).step(hosted) is Halt;
        assert(j != i);
        assert(fewer[shifted(i, j)] == tests[j]);
        assert(halted(fewer, hosted, m));
    }
    if halted(fewer, hosted, m) {
        let j = choose|j: int| 0 <= j < m && j < fewer.len() && (#[trigger] fewer[j]).step(hosted) is Halt;
        let k = if j < i {
            j
        } else {
            j + 1
        };
        assert(tests[k] == fewer[j]);
        assert(halted(tests, hosted, n));
    }
    if n > 0 {
        lemma_without_disabled(tests, outcomes, hosted, colored, i, n - 1);
        if n - 1 == i {
            assert(lines(tests, outcomes, hosted, colored, n) =~= lines(
                tests,
                outcomes,
                hosted,
                colored,
                n - 1,
            ));
        } else {
            assert(fewer[m - 1] == tests[n - 1]);
            assert(rest[m - 1] == outcomes[n - 1]);
        }
    }
}

/// A disabled descriptor leaves no trace. It is never invoked, and a run over
/// the registry without it counts the same tests, invokes the same tests with
/// the same contexts, writes the same text, comes to the same tally and ends
/// the same way.
pub proof fn lemma_disabled_leaves_no_trace<F>(
    tests: Seq<Test<F>>,
    outcomes: Seq<TestResult>,
    hosted: bool,
    colored: bool,
    i: int,
)
    requires
        0 <= i < tests.len(),
        outcomes.len() == tests.len(),
        tests[i].status is Disable,
    ensures
        tests[i].step(hosted) is Omit,
        !invoked(tests, hosted, i),
        total(tests.remove(i)) == total(tests),
        transcript(tests.remove(i), outcomes.remove(i), hosted, colored) == transcript(
            tests,
            outcomes,
            hosted,
            colored,
        ),
        result(tests.remove(i), outcomes.remove(i), hosted) == result(tests, outcomes, hosted),
        closing(tests.remove(i), outcomes.remove(i), hosted) == closing(tests, outcomes, hosted),
        ending(tests.remove(i), outcomes.remove(i), hosted) == ending(tests, outcomes, hosted),
        forall|j: int| 0 <= j < tests.len() && j != i ==> #[trigger] undisturbed(tests, hosted, i, j),
{
    lemma_without_disabled(tests, outcomes, hosted, colored, i, tests.len() as int);
    assert forall|j: int| 0 <= j < tests.len() && j != i implies #[trigger] undisturbed(
        tests,
        hosted,
        i,
        j,
    ) by {
        lemma_without_disabled(tests, outcomes, hosted, colored, i, j);
        if j > i {
            lemma_without_disabled(tests, outcomes, hosted, colored, i, j + 1);
            assert(count(tests, i + 1) == count(tests, i));
        }
        assert(tests.remove(i)[shifted(i, j)] == tests[j]);
    }
}

/// The text that a status gives as the reason for skipping, if any.
pub open spec fn reason_text(status: TestStatus) -> Option<Seq<char>> {
    match status {
        TestStatus::Skip(Some(reason)) => Some(reason@),
        _ => None,
    }
}

/// The line of a skipped test shows the reason that was given.
pub proof fn lemma_skip_line_shows_reason(name: Seq<char>, reason: Seq<char>, colored: bool)
    ensures
        shows(skip_line(name, Some(reason), colored), reason),
{
    let text = skip_line(name, Some(reason), colored);
    let lead = if colored {
        prefix(name) + skip_code() + "Skipped: "@
    } else {
        prefix(name) + "Skipped: "@
    };
    let at = lead.len() as int;
    assert(text.subrange(at, at + reason.len()) =~= reason);
}

/// A skipped test that the run comes to is counted among the tests of the
/// run and among the skipped, is not invoked, and gets a line that shows its
/// reason where it has one.
pub proof fn lemma_skipped_is_counted_not_invoked<F>(
    tests: Seq<Test<F>>,
    outcomes: Seq<TestResult>,
    hosted: bool,
    colored: bool,
    i: int,
)
    requires
        reached(tests, hosted, i),
        tests[i].status is Skip,
    ensures
        !invoked(tests, hosted, i),
        count(tests, i + 1) == count(tests, i) + 1,
        tally(tests, outcomes, hosted, i + 1) == tally(tests, outcomes, hosted, i).record_skip(),
        lines(tests, outcomes, hosted, colored, i + 1) == lines(tests, outcomes, hosted, colored, i)
            + skip_line(tests[i].name@, reason_text(tests[i].status), colored),
        tests[i].status matches TestStatus::Skip(Some(reason)) ==> shows(
            skip_line(tests[i].name@, reason_text(tests[i].status), colored),
            reason@,
        ),
{
    if let TestStatus::Skip(Some(reason)) = tests[i].status {
        lemma_skip_line_shows_reason(tests[i].name@, reason@, colored);
    }
}

/// A test that succeeds where success is expected passes, without a message,
/// and moves the count of passed tests up by exactly one and no other count.
pub proof fn lemma_success_as_expected_passes(before: Tally, outcome: TestResult, hosted: bool)
    requires
        outcome is Ok,
    ensures
        classified(outcome, TestExpected::Success, hosted) == (Ruling {
            verdict: Verdict::Pass,
            message: None,
        }),
        before.record(classified(outcome, TestExpected::Success, hosted).verdict) == (Tally {
            passed: before.passed + 1,
            failed: before.failed,
            skipped: before.skipped,
        }),
{
}

/// In a run, an enabled test that succeeds where success is expected adds
/// exactly one to the passed tests.
pub proof fn lemma_success_counts_once<F>(
    tests: Seq<Test<F>>,
    outcomes: Seq<TestResult>,
    hosted: bool,
    i: int,
)
    requires
        reached(tests, hosted, i),
        tests[i].status is Enable,
        tests[i].expected == TestExpected::Success,
        outcomes[i] is Ok,
    ensures
        invoked(tests, hosted, i),
        tally(tests, outcomes, hosted, i + 1) == (Tally {
            passed: tally(tests, outcomes, hosted, i).passed + 1,
            ..tally(tests, outcomes, hosted, i)
        }),
{
}

/// A test that succeeds where something else is expected fails. Where the
/// test could be invoked at all, the message names the mismatch.
pub proof fn lemma_unexpected_success_fails(
    outcome: TestResult,
    expected: TestExpected,
    hosted: bool,
)
    requires
        outcome is Ok,
        expected != TestExpected::Success,
    ensures
        classified(outcome, expected, hosted).verdict == Verdict::Fail,
        hosted || expected == TestExpected::Fail ==> classified(outcome, expected, hosted).message
            == Some(mismatch_text(expected)),
        !hosted && expected == TestExpected::Panic ==> classified(
            outcome,
            expected,
            hosted,
        ).message == Some(uncatchable_text()),
{
}

/// A test that returns a failure where failure is expected passes, and the
/// message is the text of the failure.
pub proof fn lemma_expected_failure_passes(failure: TestError, hosted: bool)
    requires
        !(failure is Panic),
    ensures
        classified(Err(failure), TestExpected::Fail, hosted) == (Ruling {
            verdict: Verdict::Pass,
            message: Some(failure.text()),
        }),
{
}

/// Ruling twice on the same outcome, expectation and host gives the same
/// verdict and the same message.
pub proof fn lemma_classification_is_determined(
    outcome: TestResult,
    expected: TestExpected,
    hosted: bool,
    first: Classification,
    second: Classification,
)
    requires
        first@ == classified(outcome, expected, hosted),
        second@ == classified(outcome, expected, hosted),
    ensures
        first.verdict == second.verdict,
        first.message is Some <==> second.message is Some,
        first.message matches Some(a) ==> a@ == second.message->0@,
{
}

/// A run has succeeded exactly when its count of failed tests is zero, and
/// recording a failure is the only thing that makes it cease to be so.
pub proof fn lemma_success_is_no_failure(before: Tally, verdict: Verdict)
    ensures
        before.succeeded() <==> before.failed == 0,
        before.record_skip().succeeded() == before.succeeded(),
        before.record(verdict).succeeded() <==> before.succeeded() && verdict == Verdict::Pass,
{
}

/// The counters of a run never go down: over more descriptors, each is at
/// least what it was over fewer.
pub proof fn lemma_counters_never_go_down<F>(
    tests: Seq<Test<F>>,
    outcomes: Seq<TestResult>,
    hosted: bool,
    m: int,
    n: int,
)
    requires
        m <= n,
    ensures
        tally(tests, outcomes, hosted, m).passed <= tally(tests, outcomes, hosted, n).passed,
        tally(tests, outcomes, hosted, m).failed <= tally(tests, outcomes, hosted, n).failed,
        tally(tests, outcomes, hosted, m).skipped <= tally(tests, outcomes, hosted, n).skipped,
    decreases n - m,
{
    if m < n {
        lemma_counters_never_go_down(tests, outcomes, hosted, m, n - 1);
    }
}

/// A run that was halted has counted a failure.
pub proof fn lemma_halt_counts_as_failure<F>(
    tests: Seq<Test<F>>,
    outcomes: Seq<TestResult>,
    hosted: bool,
    n: int,
)
    requires
        halted(tests, hosted, n),
    ensures
        tally(tests, outcomes, hosted, n).failed >= 1,
    decreases n,
{
    let j = choose|j: int| 0 <= j < n && j < tests.len() && (#[trigger] tests[j]).step(hosted) is Halt;
    if halted(tests, hosted, n - 1) {
        lemma_halt_counts_as_failure(tests, outcomes, hosted, n - 1);
    } else {
        if j < n - 1 {
            assert(halted(tests, hosted, n - 1));
        }
        assert(tests[n - 1].step(hosted) is Halt);
    }
}

/// The process ends in success exactly when the summary of the run says that
/// it succeeded.
pub proof fn lemma_exit_follows_summary<F>(
    tests: Seq<Test<F>>,
    outcomes: Seq<TestResult>,
    hosted: bool,
)
    ensures
        ending(tests, outcomes, hosted) == Exit::Success <==> result(
            tests,
            outcomes,
            hosted,
        ).succeeded(),
{
    if halted(tests, hosted, tests.len() as int) {
        lemma_halt_counts_as_failure(tests, outcomes, hosted, tests.len() as int);
    }
}

} // verus!
