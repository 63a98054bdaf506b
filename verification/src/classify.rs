//! Weighing what a test did against what it was expected to do.

use crate::model::{TestError, TestExpected, TestResult};
use vstd::prelude::*;
use vstd::string::*;

verus! {

/// Whether a test met its expectation.
#[derive(Debug, Copy, Clone, PartialEq, Eq, Structural)]
pub enum Verdict {
    Pass,
    Fail,
}

/// The model of a [`Classification`]: the verdict, and the message as plain
/// text.
pub struct Ruling {
    pub verdict: Verdict,
    pub message: Option<Seq<char>>,
}

/// A verdict together with the message that goes into the report.
#[derive(Debug, Clone)]
pub struct Classification {
    pub verdict: Verdict,
    pub message: Option<String>,
}

impl View for Classification {
    type V = Ruling;

    open spec fn view(&self) -> Ruling {
        Ruling {
            verdict: self.verdict,
            message: match self.message {
                Some(m) => Some(m@),
                None => None,
            },
        }
    }
}

/// The message for a test that succeeded though it was expected not to.
pub open spec fn mismatch_text(expected: TestExpected) -> Seq<char> {
    "expected "@ + expected.word() + " but test passed"@
}

/// The message for a test that returned a failure though it was expected
/// to panic.
pub open spec fn returned_text(failure: TestError) -> Seq<char> {
    "expected panic, got "@ + failure.text()
}

/// The message for a test that is expected to panic where no panic can be
/// caught.
pub open spec fn uncatchable_text() -> Seq<char> {
    "no-std but panic expected"@
}

/// The ruling on an outcome. `hosted` says whether the host can catch a
/// panic. The cases are taken in this order:
///
/// 1. Where no panic can be caught, a test that is expected to panic fails
///    whatever the outcome, for it must not be invoked at all.
/// 2. Success passes where success is expected.
/// 3. Success fails where anything else is expected, and the message names
///    the mismatch.
/// 4. A failure fails where success is expected, with the failure's text.
/// 5. A returned failure passes where failure is expected, with its text. A
///    caught panic fails there, with the payload's text.
/// 6. A caught panic passes where a panic is expected, with the payload's
///    text. A returned failure fails there, and the message names the
///    mismatch.
pub open spec fn classified(outcome: TestResult, expected: TestExpected, hosted: bool) -> Ruling {
    if !hosted && expected == TestExpected::Panic {
        Ruling { verdict: Verdict::Fail, message: Some(uncatchable_text()) }
    } else {
        match outcome {
            Ok(_) => match expected {
                TestExpected::Success => Ruling { verdict: Verdict::Pass, message: None },
                _ => Ruling { verdict: Verdict::Fail, message: Some(mismatch_text(expected)) },
            },
            Err(failure) => match expected {
                TestExpected::Success => Ruling {
                    verdict: Verdict::Fail,
                    message: Some(failure.text()),
                },
                TestExpected::Fail => Ruling {
                    verdict: if failure is Panic {
                        Verdict::Fail
                    } else {
                        Verdict::Pass
                    },
                    message: Some(failure.text()),
                },
                TestExpected::Panic => if failure is Panic {
                    Ruling { verdict: Verdict::Pass, message: Some(failure.text()) }
                } else {
                    Ruling { verdict: Verdict::Fail, message: Some(returned_text(failure)) }
                },
            },
        }
    }
}

/// Rules on an outcome: see [`classified`].
pub fn classify(outcome: &TestResult, expected: TestExpected, hosted: bool) -> (c: Classification)
    ensures
        c@ == classified(*outcome, expected, hosted),
{
    if !hosted && expected == TestExpected::Panic {
        return Classification {
            verdict: Verdict::Fail,
            message: Some(String::from_str("no-std but panic expected")),
        };
    }
    match outcome {
        Ok(_) => match expected {
            TestExpected::Success => Classification { verdict: Verdict::Pass, message: None },
            _ => {
                let mut message = String::from_str("expected ");
                message.append(expected.as_str());
                message.append(" but test passed");
                Classification { verdict: Verdict::Fail, message: Some(message) }
            },
        },
        Err(failure) => {
            let caught = match failure {
                TestError::Panic(_) => true,
                _ => false,
            };
            match expected {
                TestExpected::Success => Classification {
                    verdict: Verdict::Fail,
                    message: Some(failure.message()),
                },
                TestExpected::Fail => Classification {
                    verdict: if caught {
                        Verdict::Fail
                    } else {
                        Verdict::Pass
                    },
                    message: Some(failure.message()),
                },
                TestExpected::Panic => if caught {
                    Classification { verdict: Verdict::Pass, message: Some(failure.message()) }
                } else {
                    let mut message = String::from_str("expected panic, got ");
                    message.append(failure.message().as_str());
                    Classification { verdict: Verdict::Fail, message: Some(message) }
                },
            }
        },
    }
}

} // verus!
