//! The data that describes a test, what it is expected to do, and what it did.

use std::fmt::{Debug, Display};
use vstd::prelude::*;
use vstd::string::*;

verus! {

/// What a test is expected to do when it is invoked.
#[derive(Debug, Copy, Clone, PartialEq, Eq, Structural)]
pub enum TestExpected {
    /// The body returns success.
    Success,
    /// The body returns a failure value.
    Fail,
    /// The body leaves through a panic instead of returning.
    Panic,
}

impl TestExpected {
    /// The word that names this expectation in report messages.
    pub open spec fn word(self) -> Seq<char> {
        match self {
            TestExpected::Success => "success"@,
            TestExpected::Fail => "failure"@,
            TestExpected::Panic => "panic"@,
        }
    }

    /// The word that names this expectation in report messages.
    pub fn as_str(&self) -> (s: &'static str)
        ensures
            s@ == self.word(),
    {
        match self {
            TestExpected::Success => "success",
            TestExpected::Fail => "failure",
            TestExpected::Panic => "panic",
        }
    }
}

/// Whether a test takes part in a run.
#[derive(Debug, Copy, Clone)]
pub enum TestStatus {
    /// The test is invoked.
    Enable,
    /// The test is reported as skipped, with the reason if one was given, and
    /// is not invoked.
    Skip(Option<&'static str>),
    /// The test is left out of the run altogether.
    Disable,
}

/// Why a test did not succeed.
///
/// Each variant holds the text that the failure renders to.
#[derive(Debug, Clone)]
pub enum TestError {
    /// A failure value shown through its debug rendering.
    Debug(String),
    /// A failure value shown through its display rendering.
    Display(String),
    /// A panic that the host caught. The payload's text, where the payload
    /// was a string.
    Panic(Option<String>),
}

/// What invoking a test body yields.
pub type TestResult = Result<(), TestError>;

impl TestError {
    /// The text this failure renders to. A caught panic whose payload was no
    /// string renders to the word `panic`.
    pub open spec fn text(self) -> Seq<char> {
        match self {
            TestError::Debug(s) => s@,
            TestError::Display(s) => s@,
            TestError::Panic(Some(s)) => s@,
            TestError::Panic(None) => "panic"@,
        }
    }

    /// The failure shown in place of a missing value.
    pub open spec fn none_text() -> Seq<char> {
        "None?"@
    }

    /// The failure that stands for a missing value.
    pub fn none_error() -> (e: Self)
        ensures
            e matches TestError::Display(s) && s@ == Self::none_text(),
    {
        TestError::Display(String::from_str("None?"))
    }

    /// Renders this failure as text.
    pub fn message(&self) -> (s: String)
        ensures
            s@ == self.text(),
    {
        match self {
            TestError::Debug(s) => s.clone(),
            TestError::Display(s) => s.clone(),
            TestError::Panic(Some(s)) => s.clone(),
            TestError::Panic(None) => String::from_str("panic"),
        }
    }
}

impl<S: Display> From<&'static S> for TestError {
    /// The failure that shows `s` through its display rendering.
    fn from(s: &'static S) -> (e: TestError)
        ensures
            e matches TestError::Display(t) && to_string_from_display_ensures::<S>(s, t),
    {
        TestError::Display(s.to_string())
    }
}

/// No spec function gives the failure that `from` makes: its text is what
/// `to_string` makes of the value, which the contract of `from` says.
impl<S: Display> vstd::std_specs::convert::FromSpecImpl<&'static S> for TestError {
    open spec fn obeys_from_spec() -> bool {
        false
    }

    open spec fn from_spec(s: &'static S) -> TestError {
        arbitrary()
    }
}

/// The successful outcome.
pub fn ok() -> (r: TestResult)
    ensures
        r is Ok,
{
    Ok(())
}

/// A failure that shows `s` through its display rendering.
pub fn err<S: Display + ?Sized>(s: &S) -> (r: TestResult)
    ensures
        r matches Err(TestError::Display(t)) && to_string_from_display_ensures::<S>(s, t),
{
    Err(TestError::Display(s.to_string()))
}

/// The debug rendering of a value, as `core::fmt::Debug` produces it with the
/// `{:?}` format. Nothing is claimed of the text: it is whatever the value's
/// own `Debug` implementation writes.
#[verifier::external_body]
fn debug_rendering<S: Debug + ?Sized>(s: &S) -> (t: String) {
    format!("{:?}", s)
}

/// A failure that shows `s` through its debug rendering.
pub fn err_debug<S: Debug + ?Sized>(s: &S) -> (r: TestResult)
    ensures
        r matches Err(TestError::Debug(_)),
{
    Err(TestError::Debug(debug_rendering(s)))
}

/// The two shapes a test body can have.
#[derive(Debug, Clone)]
pub enum TestFn<S, P> {
    /// A body that takes the execution context and returns an outcome.
    Static(S),
    /// A body that takes nothing and returns nothing. Returning at all counts
    /// as success.
    Plain(P),
}

impl<S, P> TestFn<S, P> {
    /// Whether `r` can come out of invoking this body with `context`: for a
    /// contextful body, whatever it returns on that context; for a plain
    /// body, success once the body has returned.
    pub open spec fn yields<C>(self, context: C, r: TestResult) -> bool where
        S: Fn(C) -> TestResult,
        P: Fn(),
     {
        match self {
            TestFn::Static(f) => call_ensures(f, (context,), r),
            TestFn::Plain(f) => call_ensures(f, (), ()) && r is Ok,
        }
    }

    /// Whether this body may be invoked with `context`.
    pub open spec fn accepts<C>(self, context: C) -> bool where
        S: Fn(C) -> TestResult,
        P: Fn(),
     {
        match self {
            TestFn::Static(f) => call_requires(f, (context,)),
            TestFn::Plain(f) => call_requires(f, ()),
        }
    }

    /// Invokes the body. Both shapes are brought to the one shape that the
    /// engine works with: a plain body that returns has succeeded.
    pub fn invoke<C>(&self, context: C) -> (r: TestResult) where
        S: Fn(C) -> TestResult,
        P: Fn(),

        requires
            self.accepts(context),
        ensures
            self.yields(context, r),
    {
        match self {
            TestFn::Static(f) => f(context),
            TestFn::Plain(f) => {
                f();
                Ok(())
            },
        }
    }
}

/// One registered test. `F` is the host's handle on the test body; the engine
/// carries it along and never looks inside.
#[derive(Debug, Clone)]
pub struct Test<F> {
    pub status: TestStatus,
    pub name: &'static str,
    pub test: F,
    pub expected: TestExpected,
}

impl<F> AsRef<Test<F>> for Test<F> {
    fn as_ref(&self) -> (test: &Test<F>)
        ensures
            *test == *self,
    {
        self
    }
}

/// What a test body is told about the run it is part of.
#[derive(Debug)]
pub struct TestContext<'a, F> {
    /// The descriptor of the test being invoked.
    pub test: &'a Test<F>,
    /// The position of this test among the tests of the run that are not
    /// disabled, counting from zero.
    pub index: usize,
    /// The number of tests of the run that are not disabled.
    pub total: usize,
}

/// Values that a test body may return.
pub trait IntoTestResult {
    /// The outcome that this value stands for.
    fn into_test_result(self) -> TestResult;
}

impl IntoTestResult for () {
    fn into_test_result(self) -> (r: TestResult)
        ensures
            r is Ok,
    {
        Ok(())
    }
}

impl<T: Into<()>, E: Into<TestError>> IntoTestResult for Result<T, E> {
    fn into_test_result(self) -> (r: TestResult)
        ensures
            self is Ok <==> r is Ok,
            self matches Err(e) ==> call_ensures(E::into, (e,), r->Err_0),
    {
        match self {
            Ok(t) => {
                let unit: () = t.into();
                Ok(unit)
            },
            Err(e) => Err(e.into()),
        }
    }
}

impl<T: Into<()>> IntoTestResult for Option<T> {
    fn into_test_result(self) -> (r: TestResult)
        ensures
            self is Some <==> r is Ok,
            self is None ==> (r matches Err(TestError::Display(s)) && s@ == TestError::none_text()),
    {
        match self {
            Some(t) => {
                let unit: () = t.into();
                Ok(unit)
            },
            None => Err(TestError::none_error()),
        }
    }
}

} // verus!
