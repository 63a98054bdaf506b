//! Counting what happened over a run.

use crate::classify::Verdict;
use crate::text::{decimal, render_decimal};
use vstd::prelude::*;
use vstd::string::*;

verus! {

/// The model of a [`MainResult`]: how many tests passed, failed and were
/// skipped.
pub struct Tally {
    pub passed: nat,
    pub failed: nat,
    pub skipped: nat,
}

impl Tally {
    /// The tally of a run in which nothing has happened yet.
    pub open spec fn empty() -> Tally {
        Tally { passed: 0, failed: 0, skipped: 0 }
    }

    /// This tally with one more test that got the given verdict.
    pub open spec fn record(self, verdict: Verdict) -> Tally {
        match verdict {
            Verdict::Pass => Tally { passed: self.passed + 1, ..self },
            Verdict::Fail => Tally { failed: self.failed + 1, ..self },
        }
    }

    /// This tally with one more skipped test.
    pub open spec fn record_skip(self) -> Tally {
        Tally { skipped: self.skipped + 1, ..self }
    }

    /// The number of tests counted.
    pub open spec fn count(self) -> nat {
        self.passed + self.failed + self.skipped
    }

    /// A run has succeeded when no test failed.
    pub open spec fn succeeded(self) -> bool {
        self.failed == 0
    }

    /// The one-line summary of a run.
    pub open spec fn line(self) -> Seq<char> {
        "test result: "@ + (if self.succeeded() {
            "ok"@
        } else {
            "FAILED"@
        }) + ". "@ + decimal(self.passed) + " passed; "@ + decimal(self.failed) + " failed; "@
            + decimal(self.skipped) + " skipped"@
    }
}

/// The counters of a run.
#[derive(Debug, Copy, Clone)]
pub struct MainResult {
    passed: usize,
    failed: usize,
    skipped: usize,
}

impl View for MainResult {
    type V = Tally;

    closed spec fn view(&self) -> Tally {
        Tally {
            passed: self.passed as nat,
            failed: self.failed as nat,
            skipped: self.skipped as nat,
        }
    }
}

impl MainResult {
    /// The counters of a run in which nothing has happened yet.
    pub fn new() -> (r: Self)
        ensures
            r@ == Tally::empty(),
    {
        MainResult { passed: 0, failed: 0, skipped: 0 }
    }

    /// Counts one more test that got the given verdict.
    pub fn record(&mut self, verdict: Verdict)
        requires
            old(self)@.count() < usize::MAX,
        ensures
            final(self)@ == old(self)@.record(verdict),
    {
        match verdict {
            Verdict::Pass => {
                self.passed = self.passed + 1;
            },
            Verdict::Fail => {
                self.failed = self.failed + 1;
            },
        }
    }

    /// Counts one more skipped test.
    pub fn record_skip(&mut self)
        requires
            old(self)@.count() < usize::MAX,
        ensures
            final(self)@ == old(self)@.record_skip(),
    {
        self.skipped = self.skipped + 1;
    }

    /// The number of tests that passed.
    pub fn passed(&self) -> (n: usize)
        ensures
            n == self@.passed,
    {
        self.passed
    }

    /// The number of tests that failed.
    pub fn failed(&self) -> (n: usize)
        ensures
            n == self@.failed,
    {
        self.failed
    }

    /// The number of tests that were skipped.
    pub fn skipped(&self) -> (n: usize)
        ensures
            n == self@.skipped,
    {
        self.skipped
    }

    /// Whether the run succeeded: no test failed.
    pub fn succeeded(&self) -> (b: bool)
        ensures
            b == self@.succeeded(),
            b <==> self@.failed == 0,
    {
        self.failed == 0
    }

    /// The one-line summary of the run, such as
    /// `test result: ok. 3 passed; 0 failed; 1 skipped`.
    pub fn summary_line(&self) -> (s: String)
        ensures
            s@ == self@.line(),
    {
        let mut s = String::from_str("test result: ");
        s.append(if self.succeeded() { "ok" } else { "FAILED" });
        s.append(". ");
        s.append(render_decimal(self.passed).as_str());
        s.append(" passed; ");
        s.append(render_decimal(self.failed).as_str());
        s.append(" failed; ");
        s.append(render_decimal(self.skipped).as_str());
        s.append(" skipped");
        s
    }
}

} // verus!
