use cmdtest::evaluator::evaluate_case;
use cmdtest::evaluator::evaluate_collection;
use cmdtest::evaluator::evaluate_suite;
use cmdtest::evaluator::CapturedOutput;
use cmdtest::types::testcase::TestCase;
use cmdtest::types::testcase::TestSuite;
use cmdtest::types::testcase::TestSuiteCollection;

fn a_case(name: &str, stdout: &str, status: i32) -> TestCase {
    TestCase {
        name: name.to_string(),
        cmd: "some command".to_string(),
        stdin: String::new(),
        stdout: stdout.to_string(),
        stderr: String::new(),
        status,
    }
}

#[test]
fn test_evaluate_case_matching_output_succeeds() {
    let case = a_case("greets", "hello\n", 0);
    let output = CapturedOutput {
        stdout: "hello\n".to_string(),
        stderr: String::new(),
        status: 0,
    };

    let result = evaluate_case(&case, output);

    assert_eq!("greets", result.name);
    assert_eq!("hello\n", result.expected_stdout);
    assert_eq!("hello\n", result.actual_stdout);
    assert_eq!(0, result.expected_status);
    assert_eq!(0, result.actual_status);
    assert!(result.is_successful());
}

#[test]
fn test_evaluate_case_keeps_both_sides_of_a_mismatch() {
    let case = a_case("fails", "expected text", 0);
    let output = CapturedOutput {
        stdout: "actual text".to_string(),
        stderr: "warning\n".to_string(),
        status: 2,
    };

    let result = evaluate_case(&case, output);

    assert_eq!("expected text", result.expected_stdout);
    assert_eq!("actual text", result.actual_stdout);
    assert_eq!("", result.expected_stderr);
    assert_eq!("warning\n", result.actual_stderr);
    assert_eq!(0, result.expected_status);
    assert_eq!(2, result.actual_status);
    assert!(!result.is_successful());
}

#[test]
fn test_evaluate_suite_keeps_case_order() {
    let suite = TestSuite {
        name: "mysuite".to_string(),
        tests: vec![a_case("one", "1", 0), a_case("two", "2", 0)],
    };
    let outputs = vec![
        CapturedOutput {
            stdout: "1".to_string(),
            stderr: String::new(),
            status: 0,
        },
        CapturedOutput {
            stdout: "wrong".to_string(),
            stderr: String::new(),
            status: 0,
        },
    ];

    let suite_result = evaluate_suite(&suite, &outputs);

    assert_eq!("mysuite", suite_result.name);
    assert_eq!(2, suite_result.results.len());
    assert_eq!("one", suite_result.results[0].name);
    assert_eq!("two", suite_result.results[1].name);
    assert!(suite_result.results[0].is_successful());
    assert!(!suite_result.results[1].is_successful());
}

#[test]
fn test_evaluate_collection_mirrors_the_collection() {
    let collection = TestSuiteCollection::new(vec![
        TestSuite {
            name: "first".to_string(),
            tests: vec![a_case("only", "x", 0)],
        },
        TestSuite {
            name: "second".to_string(),
            tests: vec![],
        },
    ]);
    let outputs = vec![
        vec![CapturedOutput {
            stdout: "x".to_string(),
            stderr: String::new(),
            status: 0,
        }],
        vec![],
    ];

    let report = evaluate_collection(&collection, &outputs);

    assert_eq!(2, report.testsuites.len());
    assert_eq!("first", report.testsuites[0].name);
    assert_eq!("second", report.testsuites[1].name);
    assert_eq!(1, report.testsuites[0].results.len());
    assert!(report.testsuites[0].results[0].is_successful());
    assert_eq!(0, report.testsuites[1].results.len());
}
