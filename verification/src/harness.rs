//! Taking over tests that were declared for the standard test harness.

use crate::model::{Test, TestExpected, TestFn, TestStatus};
use vstd::prelude::*;

verus! {

/// How the harness names a test.
#[derive(Debug, Copy, Clone)]
pub enum HarnessName {
    /// A name fixed in the program text.
    Static(&'static str),
    /// A padded name that borrows a text fixed in the program.
    Aligned(&'static str),
    /// A padded name that owns its text.
    AlignedOwned,
    /// A name made while the program runs.
    Dynamic,
}

/// Whether the harness expects a test to panic.
#[derive(Debug, Copy, Clone)]
pub enum HarnessPanic {
    No,
    Yes,
    /// A panic with a given message.
    YesWithMessage,
}

/// The body of a test as the harness holds it.
#[derive(Debug, Clone)]
pub enum HarnessFn<P> {
    /// A plain function.
    Static(P),
    /// A benchmark, or a body made while the program runs.
    Other,
}

/// A test as the standard harness describes it.
#[derive(Debug, Clone)]
pub struct HarnessTest<P> {
    pub name: HarnessName,
    pub ignore: bool,
    pub allow_fail: bool,
    pub should_panic: HarnessPanic,
    pub testfn: HarnessFn<P>,
}

/// What of a harness test the engine has no way to honour.
#[derive(Debug, Copy, Clone, PartialEq, Eq, Structural)]
pub enum Unsupported {
    /// The test is allowed to fail.
    AllowFail,
    /// The name is not fixed in the program text.
    DynamicName,
    /// The test expects a panic with a given message.
    PanicMessage,
    /// The body is no plain function.
    TestFn,
}

impl<P> HarnessTest<P> {
    /// Why this test cannot be taken over, if it cannot. Where several
    /// reasons hold, the first of them in the order of [`Unsupported`].
    pub open spec fn refusal(self) -> Option<Unsupported> {
        if self.allow_fail {
            Some(Unsupported::AllowFail)
        } else if self.name is AlignedOwned || self.name is Dynamic {
            Some(Unsupported::DynamicName)
        } else if self.should_panic is YesWithMessage {
            Some(Unsupported::PanicMessage)
        } else if self.testfn is Other {
            Some(Unsupported::TestFn)
        } else {
            None
        }
    }

    /// The status of this test in the engine: an ignored test is skipped,
    /// with the reason `ignore`.
    pub open spec fn status(self) -> TestStatus {
        if self.ignore {
            TestStatus::Skip(Some("ignore"))
        } else {
            TestStatus::Enable
        }
    }

    /// What this test is expected to do.
    pub open spec fn expected(self) -> TestExpected {
        if self.should_panic is No {
            TestExpected::Success
        } else {
            TestExpected::Panic
        }
    }

    /// The descriptor that stands for this test in the engine. Its body is a
    /// plain one.
    pub fn adopt<S>(self) -> (res: Result<Test<TestFn<S, P>>, Unsupported>)
        ensures
            match res {
                Err(reason) => self.refusal() == Some(reason),
                Ok(test) => {
                    &&& self.refusal() is None
                    &&& test.status == self.status()
                    &&& (self.name matches HarnessName::Static(name) ==> test.name == name)
                    &&& (self.name matches HarnessName::Aligned(name) ==> test.name == name)
                    &&& test.expected == self.expected()
                    &&& self.testfn matches HarnessFn::Static(body) && test.test
                        == TestFn::<S, P>::Plain(body)
                },
            },
    {
        if self.allow_fail {
            return Err(Unsupported::AllowFail);
        }
        let status = if self.ignore {
            TestStatus::Skip(Some("ignore"))
        } else {
            TestStatus::Enable
        };
        let name = match self.name {
            HarnessName::Static(name) => name,
            HarnessName::Aligned(name) => name,
            _ => {
                return Err(Unsupported::DynamicName);
            },
        };
        let expected = match self.should_panic {
            HarnessPanic::No => TestExpected::Success,
            HarnessPanic::Yes => TestExpected::Panic,
            HarnessPanic::YesWithMessage => {
                return Err(Unsupported::PanicMessage);
            },
        };
        let test = match self.testfn {
            HarnessFn::Static(body) => TestFn::Plain(body),
            HarnessFn::Other => {
                return Err(Unsupported::TestFn);
            },
        };
        Ok(Test { status, name, test, expected })
    }
}

} // verus!
