use cmdtest::types::testcase::TestCase;
use cmdtest::types::testcase::TestSuite;
use cmdtest::types::testcase::TestSuiteCollection;

#[test]
fn test_collection_from_testsuites() {
    // GIVEN
    let testsuites = vec![
        TestSuite {
            name: "suite1".to_string(),
            tests: vec![],
        },
        TestSuite {
            name: "suite2".to_string(),
            tests: vec![],
        },
    ];

    // WHEN
    let result = TestSuiteCollection::new(testsuites);

    // THEN
    assert_eq!(
        TestSuiteCollection {
            testsuites: vec![
                TestSuite {
                    name: "suite1".to_string(),
                    tests: vec![],
                },
                TestSuite {
                    name: "suite2".to_string(),
                    tests: vec![],
                }
            ]
        },
        result
    );
}

#[test]
fn test_collection_default_is_empty() {
    let collection = TestSuiteCollection::default();
    assert_eq!(0, collection.testsuites.len());
}

#[test]
fn test_collection_keeps_suite_order() {
    let case = TestCase {
        name: "a".to_string(),
        cmd: "true".to_string(),
        stdin: String::new(),
        stdout: String::new(),
        stderr: String::new(),
        status: 0,
    };
    let testsuites = vec![
        TestSuite {
            name: "later".to_string(),
            tests: vec![case.clone()],
        },
        TestSuite {
            name: "earlier".to_string(),
            tests: vec![],
        },
    ];
    let result = TestSuiteCollection::new(testsuites);
    assert_eq!("later", result.testsuites[0].name);
    assert_eq!("earlier", result.testsuites[1].name);
    assert_eq!(1, result.testsuites[0].tests.len());
}
