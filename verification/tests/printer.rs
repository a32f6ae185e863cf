use std::any::TypeId;

use colored::Colorize;

use cmdtest::printer::formatter::DefaultFormatter;
use cmdtest::printer::ColorPrinter;
use cmdtest::printer::Printer;
use cmdtest::types::result::TestReport;
use cmdtest::types::result::TestResult;
use cmdtest::types::result::TestResultBuilder;
use cmdtest::types::result::TestSuiteResult;

fn type_of<T: 'static>(_: T) -> TypeId {
    TypeId::of::<T>()
}

#[test]
fn test_new_calls_with_dependencies() {
    // GIVEN

    // WHEN
    let printer = ColorPrinter::new();

    // THEN
    assert_eq!(TypeId::of::<DefaultFormatter>(), type_of(printer.formatter));
}

#[test]
fn test_print_report_empty() {
    // GIVEN
    let report = TestReport { testsuites: vec![] };
    let printer = ColorPrinter::with_dependencies(DefaultFormatter::new());

    // WHEN
    let output = printer.print_report(&report);

    // THEN
    assert_eq!("No test case found. Exiting.\n", output);
}

#[test]
fn test_print_report_successful_test() {
    // GIVEN
    let report = TestReport {
        testsuites: vec![TestSuiteResult {
            name: "mysuite".to_string(),
            results: vec![TestResultBuilder::default()
                .name("mytestcase")
                .build()
                .unwrap()],
        }],
    };
    let printer = ColorPrinter::with_dependencies(DefaultFormatter::new());

    // WHEN
    let output = printer.print_report(&report);

    // THEN
    assert_eq!(
        format!("Running tests for mysuite\ntest mytestcase ... {}\n", "OK".green()),
        output
    );
}

#[test]
fn test_print_report_failing_test() {
    // GIVEN
    let (report, _failing_test) = a_report_with_a_failing_test();
    let printer = ColorPrinter::with_dependencies(DefaultFormatter::new());

    // WHEN
    let output = printer.print_report(&report);

    // THEN
    assert_eq!(
        format!(
            "Running tests for mysuite\ntest failingtest ... {failed}\n\nfailures:\n\n---- failingtest ----\nstdout differs:\n  expected: foo\n  actual: bar\n\n",
            failed = "FAILED".red()
        ),
        output
    );
}

#[test]
fn test_print_report_lists_every_failure_in_order() {
    let first = TestResultBuilder::default()
        .name("first_failure")
        .expected_stdout("a")
        .actual_stdout("b")
        .build()
        .unwrap();
    let passing = TestResultBuilder::default().name("passing").build().unwrap();
    let second = TestResultBuilder::default()
        .name("second_failure")
        .expected_status(0)
        .actual_status(1)
        .build()
        .unwrap();
    let report = TestReport {
        testsuites: vec![TestSuiteResult {
            name: "mysuite".to_string(),
            results: vec![first, passing, second],
        }],
    };
    let printer = ColorPrinter::with_dependencies(DefaultFormatter::new());

    let output = printer.print_report(&report);

    assert_eq!(
        format!(
            "Running tests for mysuite\ntest first_failure ... {f}\ntest passing ... {ok}\ntest second_failure ... {f}\n\nfailures:\n\n---- first_failure ----\nstdout differs:\n  expected: a\n  actual: b\n\n---- second_failure ----\nstatus differs:\n  expected: 0\n  actual: 1\n\n",
            f = "FAILED".red(),
            ok = "OK".green()
        ),
        output
    );
}

#[test]
fn test_print_report_keeps_suite_and_case_order() {
    let quick = TestResultBuilder::default().name("quick").build().unwrap();
    let slow = TestResultBuilder::default().name("slow").build().unwrap();
    let lone = TestResultBuilder::default().name("lone").build().unwrap();
    let forward = TestReport {
        testsuites: vec![
            TestSuiteResult {
                name: "alpha".to_string(),
                results: vec![quick.clone(), slow.clone()],
            },
            TestSuiteResult {
                name: "beta".to_string(),
                results: vec![lone.clone()],
            },
        ],
    };
    let reversed = TestReport {
        testsuites: vec![
            TestSuiteResult {
                name: "beta".to_string(),
                results: vec![lone],
            },
            TestSuiteResult {
                name: "alpha".to_string(),
                results: vec![quick, slow],
            },
        ],
    };
    let printer = ColorPrinter::with_dependencies(DefaultFormatter::new());

    let forward_output = printer.print_report(&forward);
    let reversed_output = printer.print_report(&reversed);

    let alpha_block = format!(
        "Running tests for alpha\ntest quick ... {ok}\ntest slow ... {ok}\n",
        ok = "OK".green()
    );
    let beta_block = format!("Running tests for beta\ntest lone ... {ok}\n", ok = "OK".green());
    assert_eq!(format!("{alpha_block}{beta_block}"), forward_output);
    assert_eq!(format!("{beta_block}{alpha_block}"), reversed_output);
}

fn a_report_with_a_failing_test() -> (TestReport, TestResult) {
    let failing_test = TestResultBuilder::default()
        .name("failingtest")
        .expected_stdout("foo")
        .actual_stdout("bar")
        .build()
        .unwrap();

    let report = TestReport {
        testsuites: vec![TestSuiteResult {
            name: "mysuite".to_string(),
            results: vec![failing_test.clone()],
        }],
    };
    (report, failing_test)
}
