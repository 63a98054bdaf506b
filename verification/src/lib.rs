//! A small engine for declaring and running tests, usable where no operating
//! system or standard test harness is at hand.
//!
//! A program hands the engine an ordered registry of [`Test`] descriptors. Each
//! descriptor carries a name, a status (enabled, skipped, disabled) and the
//! outcome it is expected to have. [`test_all`] walks the registry in order,
//! asks the host to invoke each enabled test, classifies what came back
//! against the expectation, and writes one report line per test.
//! [`run_tests`] adds the summary line and decides how the process should end.
//!
//! Everything the engine decides is stated over mathematical models and
//! proved: which tests are invoked and with which context, how an outcome is
//! classified, what text is written, and how the counters move.

pub mod model;
pub mod text;
pub mod classify;
pub mod summary;
pub mod sink;
pub mod report;
pub mod dispatch;
pub mod laws;
pub mod declare;
pub mod harness;

pub use crate::classify::{classify, Classification, Verdict};
pub use crate::dispatch::{count_tests, run_one, run_tests, test_all, Exit, Fatal, Step};
pub use crate::model::{
    err, err_debug, ok, IntoTestResult, Test, TestContext, TestError, TestExpected, TestFn,
    TestResult, TestStatus,
};
pub use crate::sink::Sink;
pub use crate::summary::MainResult;
