//! Running a registry of tests: which tests are invoked, in which order, what
//! is written and what is counted.

use crate::classify::{classified, classify};
use crate::model::{Test, TestContext, TestExpected, TestResult, TestStatus};
use crate::report::{
    header, render_header, render_prefix, render_skip_line, render_verdict_tail, skip_line,
    verdict_line,
};
use crate::sink::Sink;
use crate::summary::{MainResult, Tally};
use vstd::prelude::*;

verus! {

/// What the engine does with one descriptor.
#[derive(Debug, Copy, Clone)]
pub enum Step {
    /// The descriptor is passed over: it is not counted, not reported and not
    /// invoked.
    Omit,
    /// The test is counted and reported as skipped, with the reason if there
    /// is one, and is not invoked.
    Skip(Option<&'static str>),
    /// The test expects a panic that the host could not catch. It is reported
    /// as failed without being invoked, and the run ends there.
    Halt,
    /// The test is invoked. With `capture`, the host catches a panic of the
    /// body and hands it back as a failure.
    Invoke { capture: bool },
}

impl<F> Test<F> {
    /// What the engine does with this descriptor. `hosted` says whether the
    /// host can catch a panic.
    pub open spec fn step(self, hosted: bool) -> Step {
        match self.status {
            TestStatus::Disable => Step::Omit,
            TestStatus::Skip(reason) => Step::Skip(reason),
            TestStatus::Enable => if self.expected == TestExpected::Panic {
                if hosted {
                    Step::Invoke { capture: true }
                } else {
                    Step::Halt
                }
            } else {
                Step::Invoke { capture: false }
            },
        }
    }

    /// Decides what the engine does with this descriptor: see [`Test::step`].
    pub fn gate(&self, hosted: bool) -> (step: Step)
        ensures
            step == self.step(hosted),
    {
        match self.status {
            TestStatus::Disable => Step::Omit,
            TestStatus::Skip(reason) => Step::Skip(reason),
            TestStatus::Enable => if self.expected == TestExpected::Panic {
                if hosted {
                    Step::Invoke { capture: true }
                } else {
                    Step::Halt
                }
            } else {
                Step::Invoke { capture: false }
            },
        }
    }
}

/// How many of the first `n` descriptors are not disabled.
pub open spec fn count<F>(tests: Seq<Test<F>>, n: int) -> nat
    decreases n,
{
    if n <= 0 {
        0
    } else {
        count(tests, n - 1) + if tests[n - 1].status is Disable {
            0nat
        } else {
            1nat
        }
    }
}

/// How many tests a run counts: the descriptors that are not disabled.
pub open spec fn total<F>(tests: Seq<Test<F>>) -> nat {
    count(tests, tests.len() as int)
}

/// Whether the run ends before it comes to descriptor `n`: one of the
/// descriptors in front of it halts the run.
pub open spec fn halted<F>(tests: Seq<Test<F>>, hosted: bool, n: int) -> bool {
    exists|j: int| 0 <= j < n && j < tests.len() && (#[trigger] tests[j]).step(hosted) is Halt
}

/// Whether the run comes to descriptor `i`.
pub open spec fn reached<F>(tests: Seq<Test<F>>, hosted: bool, i: int) -> bool {
    0 <= i < tests.len() && !halted(tests, hosted, i)
}

/// Whether the run invokes the test at position `i`.
pub open spec fn invoked<F>(tests: Seq<Test<F>>, hosted: bool, i: int) -> bool {
    reached(tests, hosted, i) && tests[i].step(hosted) is Invoke
}

/// The context that the test at position `i` is invoked with.
pub open spec fn context<'a, F>(tests: Seq<Test<F>>, i: int) -> TestContext<'a, F> {
    TestContext { test: &tests[i], index: count(tests, i) as usize, total: total(tests) as usize }
}

/// Whether `outcomes` holds, at the position of each test that the run
/// invokes, something that `invoke` returned for that test: called with the
/// test's own context, and told to catch a panic exactly where the test
/// expects one.
pub open spec fn answered<F, I>(
    invoke: I,
    tests: Seq<Test<F>>,
    hosted: bool,
    outcomes: Seq<TestResult>,
) -> bool where I: for <'a>Fn(TestContext<'a, F>, bool) -> TestResult {
    &&& outcomes.len() == tests.len()
    &&& forall|i: int|
        #![trigger outcomes[i]]
        invoked(tests, hosted, i) ==> call_ensures(
            invoke,
            (context(tests, i), tests[i].step(hosted)->capture),
            outcomes[i],
        )
}

/// Whether `invoke` may be called for each test that the run invokes.
pub open spec fn ready<F, I>(invoke: I, tests: Seq<Test<F>>, hosted: bool) -> bool where
    I: for <'a>Fn(TestContext<'a, F>, bool) -> TestResult,
 {
    forall|i: int|
        #![trigger tests[i]]
        invoked(tests, hosted, i) ==> call_requires(
            invoke,
            (context(tests, i), tests[i].step(hosted)->capture),
        )
}

/// The report line of one descriptor that the run comes to. A test that
/// halts the run is ruled on without an outcome.
pub open spec fn line<F>(test: Test<F>, outcome: TestResult, hosted: bool, colored: bool) -> Seq<
    char,
> {
    match test.step(hosted) {
        Step::Omit => Seq::empty(),
        Step::Skip(reason) => skip_line(
            test.name@,
            match reason {
                Some(reason) => Some(reason@),
                None => None,
            },
            colored,
        ),
        _ => verdict_line(test.name@, classified(outcome, test.expected, hosted), colored),
    }
}

/// The tally after one more descriptor that the run comes to.
pub open spec fn settle<F>(tally: Tally, test: Test<F>, outcome: TestResult, hosted: bool) -> Tally {
    match test.step(hosted) {
        Step::Omit => tally,
        Step::Skip(_) => tally.record_skip(),
        _ => tally.record(classified(outcome, test.expected, hosted).verdict),
    }
}

/// The report lines of the first `n` descriptors, in order. Descriptors that
/// the run does not come to have none.
pub open spec fn lines<F>(
    tests: Seq<Test<F>>,
    outcomes: Seq<TestResult>,
    hosted: bool,
    colored: bool,
    n: int,
) -> Seq<char>
    decreases n,
{
    if n <= 0 {
        Seq::empty()
    } else {
        lines(tests, outcomes, hosted, colored, n - 1) + if halted(tests, hosted, n - 1) {
            Seq::empty()
        } else {
            line(tests[n - 1], outcomes[n - 1], hosted, colored)
        }
    }
}

/// The tally over the first `n` descriptors. Descriptors that the run does
/// not come to count for nothing.
pub open spec fn tally<F>(tests: Seq<Test<F>>, outcomes: Seq<TestResult>, hosted: bool, n: int) -> Tally
    decreases n,
{
    if n <= 0 {
        Tally::empty()
    } else {
        let before = tally(tests, outcomes, hosted, n - 1);
        if halted(tests, hosted, n - 1) {
            before
        } else {
            settle(before, tests[n - 1], outcomes[n - 1], hosted)
        }
    }
}

/// Everything a run writes before the summary: the header, then the lines.
pub open spec fn transcript<F>(
    tests: Seq<Test<F>>,
    outcomes: Seq<TestResult>,
    hosted: bool,
    colored: bool,
) -> Seq<char> {
    header(total(tests)) + lines(tests, outcomes, hosted, colored, tests.len() as int)
}

/// The tally of a whole run.
pub open spec fn result<F>(tests: Seq<Test<F>>, outcomes: Seq<TestResult>, hosted: bool) -> Tally {
    tally(tests, outcomes, hosted, tests.len() as int)
}

/// Lines and tally over the first `n` descriptors depend on the outcomes at
/// those positions only.
proof fn lemma_same_prefix<F>(
    tests: Seq<Test<F>>,
    a: Seq<TestResult>,
    b: Seq<TestResult>,
    hosted: bool,
    colored: bool,
    n: int,
)
    requires
        forall|j: int| 0 <= j < n ==> a[j] == b[j],
    ensures
        lines(tests, a, hosted, colored, n) == lines(tests, b, hosted, colored, n),
        tally(tests, a, hosted, n) == tally(tests, b, hosted, n),
    decreases n,
{
    if n > 0 {
        lemma_same_prefix(tests, a, b, hosted, colored, n - 1);
    }
}

/// Once the run has halted, further descriptors add neither lines nor counts.
proof fn lemma_nothing_after_halt<F>(
    tests: Seq<Test<F>>,
    outcomes: Seq<TestResult>,
    hosted: bool,
    colored: bool,
    m: int,
    n: int,
)
    requires
        0 <= m <= n,
        halted(tests, hosted, m),
    ensures
        lines(tests, outcomes, hosted, colored, n) == lines(tests, outcomes, hosted, colored, m),
        tally(tests, outcomes, hosted, n) == tally(tests, outcomes, hosted, m),
    decreases n,
{
    if n > m {
        lemma_nothing_after_halt(tests, outcomes, hosted, colored, m, n - 1);
        let j = choose|j: int| 0 <= j < m && j < tests.len() && (#[trigger] tests[j]).step(hosted) is Halt;
        assert(0 <= j < n - 1 && j < tests.len() && tests[j].step(hosted) is Halt);
        assert(lines(tests, outcomes, hosted, colored, n) =~= lines(
            tests,
            outcomes,
            hosted,
            colored,
            n - 1,
        ));
    }
}

/// The tally over the first `n` descriptors counts at most `n` tests.
proof fn lemma_tally_bound<F>(tests: Seq<Test<F>>, outcomes: Seq<TestResult>, hosted: bool, n: int)
    requires
        0 <= n,
    ensures
        tally(tests, outcomes, hosted, n).count() <= n,
        count(tests, n) <= n,
    decreases n,
{
    if n > 0 {
        lemma_tally_bound(tests, outcomes, hosted, n - 1);
    }
}

/// Counts the tests of a run: the descriptors that are not disabled.
pub fn count_tests<F>(tests: &[Test<F>]) -> (n: usize)
    ensures
        n == total(tests@),
{
    let mut n: usize = 0;
    let mut i: usize = 0;
    while i < tests.len()
        invariant
            i <= tests.len(),
            n == count(tests@, i as int),
            n <= i,
        decreases tests.len() - i,
    {
        match tests[i].status {
            TestStatus::Disable => {},
            _ => {
                n = n + 1;
            },
        }
        i = i + 1;
    }
    n
}

/// How a run that could not be completed ended.
#[derive(Debug, Copy, Clone)]
pub struct Fatal {
    /// The position in the registry of the test that halted the run.
    pub index: usize,
    /// The counters at the moment the run ended, the halting test counted as
    /// failed.
    pub result: MainResult,
}

/// What stands for the outcome of a descriptor in the rules of a run: what
/// its invocation returned, or success where it was not invoked. For a
/// descriptor that is not invoked the rules do not look at it.
pub open spec fn given(outcome: Option<TestResult>) -> TestResult {
    match outcome {
        Some(outcome) => outcome,
        None => Ok(()),
    }
}

/// Takes one descriptor of a run: writes its line, counts it, and invokes it
/// where its [`Test::step`] says so. `index` and `total` go into the context
/// of the invocation. Hands back what the invocation returned, if there was
/// one.
///
/// The start of the line is written before the test is invoked, the rest
/// after it has returned.
pub fn run_one<F, W, I>(
    out: &mut Sink<W>,
    summary: &mut MainResult,
    test: &Test<F>,
    index: usize,
    total: usize,
    hosted: bool,
    invoke: &I,
) -> (outcome: Option<TestResult>) where
    W: Fn(&str),
    I: for <'a>Fn(TestContext<'a, F>, bool) -> TestResult,

    requires
        old(out).wf(),
        old(summary)@.count() < usize::MAX,
        test.step(hosted) is Invoke ==> call_requires(
            *invoke,
            (TestContext { test, index, total }, test.step(hosted)->capture),
        ),
    ensures
        final(out).wf(),
        final(out).colored() == old(out).colored(),
        outcome is Some <==> test.step(hosted) is Invoke,
        outcome matches Some(returned) ==> call_ensures(
            *invoke,
            (TestContext { test, index, total }, test.step(hosted)->capture),
            returned,
        ),
        final(out).text() == old(out).text() + line(
            *test,
            given(outcome),
            hosted,
            old(out).colored(),
        ),
        final(summary)@ == settle(old(summary)@, *test, given(outcome), hosted),
{
    let colored = out.is_colored();
    match test.gate(hosted) {
        Step::Omit => {
            assert(out.text() =~= old(out).text() + line(*test, Ok(()), hosted, colored));
            None
        },
        Step::Skip(reason) => {
            summary.record_skip();
            out.write(render_skip_line(test.name, reason, colored).as_str());
            None
        },
        Step::Halt => {
            let classification = classify(&Ok(()), test.expected, hosted);
            summary.record(classification.verdict);
            out.write(render_prefix(test.name).as_str());
            out.write(render_verdict_tail(&classification, colored).as_str());
            assert(out.text() =~= old(out).text() + line(*test, Ok(()), hosted, colored));
            None
        },
        Step::Invoke { capture } => {
            out.write(render_prefix(test.name).as_str());
            let outcome = invoke(TestContext { test, index, total }, capture);
            let classification = classify(&outcome, test.expected, hosted);
            summary.record(classification.verdict);
            out.write(render_verdict_tail(&classification, colored).as_str());
            assert(out.text() =~= old(out).text() + line(*test, outcome, hosted, colored));
            Some(outcome)
        },
    }
}

/// Runs the tests of a registry in order and reports on each.
///
/// `hosted` says whether the host can catch a panic of a test body. `invoke`
/// is the host's way of calling a body: it is handed the context of the test
/// and told whether to catch a panic, and hands back the outcome.
///
/// The header is written first. Then each descriptor is taken as [`run_one`]
/// takes it: a disabled one is passed over, a skipped one is reported, an
/// enabled one is handed to `invoke` with its context and ruled on by
/// [`classify`]. A test that expects a panic where none can be caught is
/// reported as failed, and the run ends with it: the result is then `Err`.
///
/// The contract speaks of the outcomes that `invoke` handed back, one for
/// each test that was invoked. Whatever they were, the text written is their
/// [`transcript`] and the counters are their [`result`].
pub fn test_all<F, W, I>(
    out: &mut Sink<W>,
    tests: &[Test<F>],
    hosted: bool,
    invoke: &I,
) -> (res: Result<MainResult, Fatal>) where
    W: Fn(&str),
    I: for <'a>Fn(TestContext<'a, F>, bool) -> TestResult,

    requires
        old(out).wf(),
        ready(*invoke, tests@, hosted),
    ensures
        final(out).wf(),
        final(out).colored() == old(out).colored(),
        res is Ok <==> !halted(tests@, hosted, tests@.len() as int),
        res matches Err(fatal) ==> reached(tests@, hosted, fatal.index as int)
            && tests@[fatal.index as int].step(hosted) is Halt,
        exists|outcomes: Seq<TestResult>|
            {
                &&& #[trigger] answered(*invoke, tests@, hosted, outcomes)
                &&& final(out).text() == old(out).text() + transcript(
                    tests@,
                    outcomes,
                    hosted,
                    old(out).colored(),
                )
                &&& match res {
                    Ok(summary) => summary@,
                    Err(fatal) => fatal.result@,
                } == result(tests@, outcomes, hosted)
            },
{
    let ghost before = out.text();
    let ghost colored = out.colored();
    let total = count_tests(tests);
    out.write(render_header(total).as_str());
    let mut summary = MainResult::new();
    let mut index: usize = 0;
    let mut i: usize = 0;
    let mut outcomes: Ghost<Seq<TestResult>> = Ghost(Seq::empty());
    while i < tests.len()
        invariant
            i <= tests.len(),
            outcomes@.len() == i,
            !halted(tests@, hosted, i as int),
            index == count(tests@, i as int),
            index <= i,
            total == crate::dispatch::total(tests@),
            summary@ == tally(tests@, outcomes@, hosted, i as int),
            summary@.count() <= i,
            out.wf(),
            out.colored() == colored,
            colored == old(out).colored(),
            before == old(out).text(),
            out.text() == before + header(total as nat) + lines(
                tests@,
                outcomes@,
                hosted,
                colored,
                i as int,
            ),
            ready(*invoke, tests@, hosted),
            forall|j: int|
                #![trigger outcomes@[j]]
                0 <= j < i && invoked(tests@, hosted, j) ==> call_ensures(
                    *invoke,
                    (context(tests@, j), tests@[j].step(hosted)->capture),
                    outcomes@[j],
                ),
        decreases tests.len() - i,
    {
        let test = &tests[i];
        let ghost so_far = outcomes@;
        proof {
            // The counters fit, and the context that is about to be handed
            // out is the one that the contract names for this position.
            lemma_tally_bound(tests@, so_far, hosted, i as int);
            if test.step(hosted) is Invoke {
                assert(invoked(tests@, hosted, i as int));
                assert(TestContext { test, index, total } == context(tests@, i as int));
            }
        }
        let outcome = run_one(out, &mut summary, test, index, total, hosted, invoke);
        proof {
            // One more descriptor is behind us: the lines have grown by its
            // line and the tally by its count.
            outcomes@ = so_far.push(given(outcome));
            lemma_advance(*invoke, tests@, so_far, given(outcome), hosted, colored, i as int);
            lemma_tally_bound(tests@, outcomes@, hosted, i + 1);
            vstd::seq_lib::lemma_concat_associative(
                before + header(total as nat),
                lines(tests@, so_far, hosted, colored, i as int),
                line(*test, given(outcome), hosted, colored),
            );
        }
        match test.status {
            TestStatus::Disable => {},
            _ => {
                index = index + 1;
            },
        }
        if let Step::Halt = test.gate(hosted) {
            proof {
                // Nothing behind this descriptor is run: the outcomes so far,
                // filled up, are the outcomes of the whole run.
                lemma_halt_ends_run(*invoke, tests@, outcomes@, hosted, colored, i as int);
                let all = choose|all: Seq<TestResult>|
                    {
                        &&& #[trigger] answered(*invoke, tests@, hosted, all)
                        &&& lines(tests@, all, hosted, colored, tests@.len() as int) == lines(
                            tests@,
                            outcomes@,
                            hosted,
                            colored,
                            i + 1,
                        )
                        &&& tally(tests@, all, hosted, tests@.len() as int) == tally(
                            tests@,
                            outcomes@,
                            hosted,
                            i + 1,
                        )
                    };
                vstd::seq_lib::lemma_concat_associative(
                    before,
                    header(total as nat),
                    lines(tests@, all, hosted, colored, tests@.len() as int),
                );
                assert(out.text() == before + transcript(tests@, all, hosted, colored));
                assert(summary@ == result(tests@, all, hosted));
            }
            return Err(Fatal { index: i, result: summary });
        }
        i = i + 1;
    }
    proof {
        assert(answered(*invoke, tests@, hosted, outcomes@));
        vstd::seq_lib::lemma_concat_associative(
            before,
            header(total as nat),
            lines(tests@, outcomes@, hosted, colored, tests@.len() as int),
        );
        assert(out.text() == before + transcript(tests@, outcomes@, hosted, colored));
        assert(summary@ == result(tests@, outcomes@, hosted));
    }
    Ok(summary)
}

/// How the process should end after a run.
#[derive(Debug, Copy, Clone, PartialEq, Eq, Structural)]
pub enum Exit {
    /// Every test that was invoked met its expectation.
    Success,
    /// A test failed, or the run was halted.
    Failure,
}

/// What a run writes after the transcript: the summary line, unless the run
/// was halted.
pub open spec fn closing<F>(tests: Seq<Test<F>>, outcomes: Seq<TestResult>, hosted: bool) -> Seq<
    char,
> {
    if halted(tests, hosted, tests.len() as int) {
        Seq::empty()
    } else {
        result(tests, outcomes, hosted).line() + "\n"@
    }
}

/// How the process should end after a run: in success when the run was not
/// halted and no test failed, in failure otherwise.
pub open spec fn ending<F>(tests: Seq<Test<F>>, outcomes: Seq<TestResult>, hosted: bool) -> Exit {
    if !halted(tests, hosted, tests.len() as int) && result(tests, outcomes, hosted).succeeded() {
        Exit::Success
    } else {
        Exit::Failure
    }
}

/// Runs the tests of a registry as [`test_all`] does, writes the summary
/// line after a run that came to its end, and says how the process should
/// end: in success when the run came to its end and no test failed, in
/// failure otherwise.
pub fn run_tests<F, W, I>(out: &mut Sink<W>, tests: &[Test<F>], hosted: bool, invoke: &I) -> (exit:
    Exit) where W: Fn(&str), I: for <'a>Fn(TestContext<'a, F>, bool) -> TestResult
    requires
        old(out).wf(),
        ready(*invoke, tests@, hosted),
    ensures
        final(out).wf(),
        final(out).colored() == old(out).colored(),
        exists|outcomes: Seq<TestResult>|
            {
                &&& #[trigger] answered(*invoke, tests@, hosted, outcomes)
                &&& final(out).text() == old(out).text() + transcript(
                    tests@,
                    outcomes,
                    hosted,
                    old(out).colored(),
                ) + closing(tests@, outcomes, hosted)
                &&& exit == ending(tests@, outcomes, hosted)
            },
{
    match test_all(out, tests, hosted, invoke) {
        Ok(summary) => {
            let mut line = summary.summary_line();
            line.append("\n");
            out.write(line.as_str());
            if summary.succeeded() {
                Exit::Success
            } else {
                Exit::Failure
            }
        },
        Err(_) => {
            proof {
                let outcomes = choose|outcomes: Seq<TestResult>|
                    {
                        &&& #[trigger] answered(*invoke, tests@, hosted, outcomes)
                        &&& out.text() == old(out).text() + transcript(
                            tests@,
                            outcomes,
                            hosted,
                            old(out).colored(),
                        )
                    };
                assert(out.text() =~= old(out).text() + transcript(
                    tests@,
                    outcomes,
                    hosted,
                    old(out).colored(),
                ) + closing(tests@, outcomes, hosted));
            }
            Exit::Failure
        },
    }
}

/// What one more descriptor adds to the lines, the tally and the outcomes
/// gathered so far.
proof fn lemma_advance<F, I>(
    invoke: I,
    tests: Seq<Test<F>>,
    so_far: Seq<TestResult>,
    outcome: TestResult,
    hosted: bool,
    colored: bool,
    i: int,
) where I: for <'a>Fn(TestContext<'a, F>, bool) -> TestResult
    requires
        0 <= i < tests.len(),
        so_far.len() == i,
        !halted(tests, hosted, i),
        forall|j: int|
            #![trigger so_far[j]]
            0 <= j < i && invoked(tests, hosted, j) ==> call_ensures(
                invoke,
                (context(tests, j), tests[j].step(hosted)->capture),
                so_far[j],
            ),
        tests[i].step(hosted) is Invoke ==> call_ensures(
            invoke,
            (context(tests, i), tests[i].step(hosted)->capture),
            outcome,
        ),
    ensures
        lines(tests, so_far.push(outcome), hosted, colored, i + 1) == lines(
            tests,
            so_far,
            hosted,
            colored,
            i,
        ) + line(tests[i], outcome, hosted, colored),
        tally(tests, so_far.push(outcome), hosted, i + 1) == settle(
            tally(tests, so_far, hosted, i),
            tests[i],
            outcome,
            hosted,
        ),
        forall|j: int|
            #![trigger so_far.push(outcome)[j]]
            0 <= j < i + 1 && invoked(tests, hosted, j) ==> call_ensures(
                invoke,
                (context(tests, j), tests[j].step(hosted)->capture),
                so_far.push(outcome)[j],
            ),
        halted(tests, hosted, i + 1) <==> tests[i].step(hosted) is Halt,
{
    let next = so_far.push(outcome);
    lemma_same_prefix(tests, so_far, next, hosted, colored, i);
    assert(next[i] == outcome);
    assert forall|j: int| #![trigger next[j]] 0 <= j < i + 1 && invoked(tests, hosted, j) implies call_ensures(
        invoke,
        (context(tests, j), tests[j].step(hosted)->capture),
        next[j],
    ) by {
        if j < i {
            assert(next[j] == so_far[j]);
        }
    }
    if halted(tests, hosted, i + 1) {
        let j = choose|j: int| 0 <= j < i + 1 && j < tests.len() && (#[trigger] tests[j]).step(hosted) is Halt;
        if j < i {
            assert(halted(tests, hosted, i));
        }
    }
    if tests[i].step(hosted) is Halt {
        assert(halted(tests, hosted, i + 1));
    }
}

/// When the descriptor at position `i` halts the run, the outcomes gathered
/// up to it, filled up with anything, stand for the whole run.
proof fn lemma_halt_ends_run<F, I>(
    invoke: I,
    tests: Seq<Test<F>>,
    outcomes: Seq<TestResult>,
    hosted: bool,
    colored: bool,
    i: int,
) where I: for <'a>Fn(TestContext<'a, F>, bool) -> TestResult
    requires
        0 <= i < tests.len(),
        outcomes.len() == i + 1,
        tests[i].step(hosted) is Halt,
        forall|j: int|
            #![trigger outcomes[j]]
            0 <= j < i && invoked(tests, hosted, j) ==> call_ensures(
                invoke,
                (context(tests, j), tests[j].step(hosted)->capture),
                outcomes[j],
            ),
    ensures
        halted(tests, hosted, tests.len() as int),
        exists|all: Seq<TestResult>|
            {
                &&& #[trigger] answered(invoke, tests, hosted, all)
                &&& lines(tests, all, hosted, colored, tests.len() as int) == lines(
                    tests,
                    outcomes,
                    hosted,
                    colored,
                    i + 1,
                )
                &&& tally(tests, all, hosted, tests.len() as int) == tally(
                    tests,
                    outcomes,
                    hosted,
                    i + 1,
                )
            },
{
    let n = tests.len() as int;
    let all = Seq::new(tests.len(), |j: int| if j <= i { outcomes[j] } else { Ok(()) });
    assert(tests[i].step(hosted) is Halt);
    assert(halted(tests, hosted, i + 1));
    assert(halted(tests, hosted, n));
    lemma_same_prefix(tests, outcomes, all, hosted, colored, i + 1);
    lemma_nothing_after_halt(tests, all, hosted, colored, i + 1, n);
    assert forall|j: int| #![trigger all[j]] invoked(tests, hosted, j) implies call_ensures(
        invoke,
        (context(tests, j), tests[j].step(hosted)->capture),
        all[j],
    ) by {
        if j > i {
            assert(tests[i].step(hosted) is Halt);
            assert(halted(tests, hosted, j));
        }
    }
    assert(answered(invoke, tests, hosted, all));
}

} // verus!
