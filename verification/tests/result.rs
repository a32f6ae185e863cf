use cmdtest::types::result::TestResultBuilder;

#[test]
fn test_is_successful_when_all_channels_match() {
    let result = TestResultBuilder::default()
        .name("t")
        .expected_stdout("same")
        .actual_stdout("same")
        .expected_stderr("noise")
        .actual_stderr("noise")
        .expected_status(3)
        .actual_status(3)
        .build()
        .unwrap();
    assert!(result.is_successful());
}

#[test]
fn test_stdout_mismatch_forces_failure() {
    let result = TestResultBuilder::default()
        .name("t")
        .expected_stdout("a")
        .actual_stdout("b")
        .build()
        .unwrap();
    assert!(!result.is_successful());
}

#[test]
fn test_stderr_mismatch_forces_failure() {
    let result = TestResultBuilder::default()
        .name("t")
        .expected_stderr("a")
        .actual_stderr("b")
        .build()
        .unwrap();
    assert!(!result.is_successful());
}

#[test]
fn test_status_mismatch_forces_failure() {
    let result = TestResultBuilder::default()
        .name("t")
        .expected_status(0)
        .actual_status(1)
        .build()
        .unwrap();
    assert!(!result.is_successful());
}

#[test]
fn test_trailing_newline_difference_is_a_failure() {
    let result = TestResultBuilder::default()
        .name("t")
        .expected_stdout("line")
        .actual_stdout("line\n")
        .build()
        .unwrap();
    assert!(!result.is_successful());
}

#[test]
fn test_builder_defaults_make_a_successful_result() {
    let result = TestResultBuilder::default().name("t").build().unwrap();
    assert_eq!("t", result.name);
    assert_eq!("", result.expected_stdout);
    assert_eq!("", result.actual_stdout);
    assert_eq!("", result.expected_stderr);
    assert_eq!("", result.actual_stderr);
    assert_eq!(0, result.expected_status);
    assert_eq!(0, result.actual_status);
    assert!(result.is_successful());
}
