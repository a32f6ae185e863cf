use cmdtest::printer::formatter::DefaultFormatter;
use cmdtest::printer::formatter::Formatter;
use cmdtest::types::result::TestResultBuilder;

#[test]
fn test_summary_of_stdout_mismatch() {
    let result = TestResultBuilder::default()
        .name("t")
        .expected_stdout("foo")
        .actual_stdout("bar")
        .build()
        .unwrap();
    let formatter = DefaultFormatter::new();

    let summary = formatter.compute_summary(&result);

    assert_eq!("stdout differs:\n  expected: foo\n  actual: bar\n", summary);
}

#[test]
fn test_summary_surfaces_every_differing_channel() {
    let result = TestResultBuilder::default()
        .name("t")
        .expected_stdout("out")
        .actual_stdout("tuo")
        .expected_stderr("err")
        .actual_stderr("rre")
        .expected_status(0)
        .actual_status(2)
        .build()
        .unwrap();
    let formatter = DefaultFormatter::new();

    let summary = formatter.compute_summary(&result);

    assert_eq!(
        "stdout differs:\n  expected: out\n  actual: tuo\nstderr differs:\n  expected: err\n  actual: rre\nstatus differs:\n  expected: 0\n  actual: 2\n",
        summary
    );
}

#[test]
fn test_summary_of_status_only_mismatch() {
    let result = TestResultBuilder::default()
        .name("t")
        .expected_status(0)
        .actual_status(-1)
        .build()
        .unwrap();
    let formatter = DefaultFormatter::new();

    let summary = formatter.compute_summary(&result);

    assert_eq!("status differs:\n  expected: 0\n  actual: -1\n", summary);
}

#[test]
fn test_summary_is_idempotent() {
    let result = TestResultBuilder::default()
        .name("t")
        .expected_stderr("expected text")
        .actual_stderr("actual text")
        .build()
        .unwrap();
    let formatter = DefaultFormatter::new();

    let first = formatter.compute_summary(&result);
    let second = formatter.compute_summary(&result);

    assert_eq!(first, second);
}
