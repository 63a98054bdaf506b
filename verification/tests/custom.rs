//! Tests that were declared for the standard harness, taken over by the
//! engine and run on a host that stands in for a real one.

use mintest::harness::{HarnessFn, HarnessName, HarnessPanic, HarnessTest, Unsupported};
use mintest::{
    run_tests, Exit, Sink, Test, TestContext, TestError, TestExpected, TestFn, TestResult,
    TestStatus,
};

#[derive(Clone)]
enum Plain {
    Returns(fn()),
    Panics(&'static str),
}

type Adopted = TestFn<fn(TestContext<Plain>) -> TestResult, Plain>;

fn harness_host(context: TestContext<Adopted>, capture: bool) -> TestResult {
    let test: &Test<Adopted> = context.test;
    match &test.test {
        TestFn::Plain(Plain::Returns(body)) => {
            body();
            Ok(())
        }
        TestFn::Plain(Plain::Panics(payload)) => {
            assert!(capture, "{} panicked where no panic is caught", test.name);
            Err(TestError::Panic(Some(payload.to_string())))
        }
        TestFn::Static(_) => unreachable!(),
    }
}

fn harness_test(
    name: &'static str,
    ignore: bool,
    should_panic: HarnessPanic,
    body: Plain,
) -> HarnessTest<Plain> {
    HarnessTest {
        name: HarnessName::Static(name),
        ignore,
        allow_fail: false,
        should_panic,
        testfn: HarnessFn::Static(body),
    }
}

fn harness_report(test: Test<Adopted>) -> (Exit, String) {
    let tests = vec![test];
    let mut out = Sink::new(|_: &str| {}, false);
    let exit = run_tests(&mut out, &tests, true, &harness_host);
    (exit, out.written().to_string())
}

fn empty_body() {
}

#[test]
fn custom_empty_test() {
    let adopted: Test<Adopted> =
        harness_test("empty_test", false, HarnessPanic::No, Plain::Returns(empty_body))
            .adopt()
            .unwrap();
    assert!(matches!(adopted.status, TestStatus::Enable));
    assert_eq!(adopted.name, "empty_test");
    assert_eq!(adopted.expected, TestExpected::Success);
    assert!(matches!(adopted.test, TestFn::Plain(Plain::Returns(_))));
    let (exit, report) = harness_report(adopted);
    assert_eq!(exit, Exit::Success);
    assert_eq!(
        report,
        "running 1 tests\nempty_test ... OK\ntest result: ok. 1 passed; 0 failed; 0 skipped\n"
    );
}

#[test]
fn custom_test_ignore() {
    let adopted: Test<Adopted> = harness_test(
        "test_ignore",
        true,
        HarnessPanic::No,
        Plain::Panics("even the test crate should ignore this one!"),
    )
    .adopt()
    .unwrap();
    assert!(matches!(adopted.status, TestStatus::Skip(Some("ignore"))));
    let (exit, report) = harness_report(adopted);
    assert_eq!(exit, Exit::Success);
    assert_eq!(
        report,
        "running 1 tests\ntest_ignore ... Skipped: ignore\ntest result: ok. 0 passed; 0 failed; 1 skipped\n"
    );
}

#[test]
fn custom_test_panic_attr() {
    let adopted: Test<Adopted> =
        harness_test("test_panic_attr", false, HarnessPanic::Yes, Plain::Panics("whee"))
            .adopt()
            .unwrap();
    assert_eq!(adopted.expected, TestExpected::Panic);
    let (exit, report) = harness_report(adopted);
    assert_eq!(exit, Exit::Success);
    assert_eq!(
        report,
        "running 1 tests\ntest_panic_attr ... OK: whee\ntest result: ok. 1 passed; 0 failed; 0 skipped\n"
    );
}

#[test]
fn aligned_name_that_borrows_is_taken_over() {
    let mut test = harness_test("unused", false, HarnessPanic::No, Plain::Returns(empty_body));
    test.name = HarnessName::Aligned("padded");
    let adopted: Test<Adopted> = test.adopt().unwrap();
    assert_eq!(adopted.name, "padded");
}

#[test]
fn allowed_failure_is_unsupported_before_anything_else() {
    let mut test = harness_test("t", true, HarnessPanic::YesWithMessage, Plain::Returns(empty_body));
    test.allow_fail = true;
    test.name = HarnessName::Dynamic;
    test.testfn = HarnessFn::Other;
    assert_eq!(test.adopt::<fn(TestContext<Plain>) -> TestResult>().err(), Some(Unsupported::AllowFail));
}

#[test]
fn dynamic_name_is_unsupported() {
    let mut test = harness_test("t", false, HarnessPanic::YesWithMessage, Plain::Returns(empty_body));
    test.name = HarnessName::Dynamic;
    test.testfn = HarnessFn::Other;
    assert_eq!(
        test.clone().adopt::<fn(TestContext<Plain>) -> TestResult>().err(),
        Some(Unsupported::DynamicName)
    );
    test.name = HarnessName::AlignedOwned;
    assert_eq!(
        test.adopt::<fn(TestContext<Plain>) -> TestResult>().err(),
        Some(Unsupported::DynamicName)
    );
}

#[test]
fn panic_with_message_is_unsupported() {
    let mut test = harness_test("t", false, HarnessPanic::YesWithMessage, Plain::Returns(empty_body));
    test.testfn = HarnessFn::Other;
    assert_eq!(
        test.adopt::<fn(TestContext<Plain>) -> TestResult>().err(),
        Some(Unsupported::PanicMessage)
    );
}

#[test]
fn body_that_is_no_plain_function_is_unsupported() {
    let mut test = harness_test("t", false, HarnessPanic::Yes, Plain::Returns(empty_body));
    test.testfn = HarnessFn::Other;
    assert_eq!(
        test.adopt::<fn(TestContext<Plain>) -> TestResult>().err(),
        Some(Unsupported::TestFn)
    );
}
