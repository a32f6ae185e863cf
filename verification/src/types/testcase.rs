//! The specification side of the data model: what the tests to run look like.
//!
//! * A [`TestCase`] is the specification for a single test.
//! * A [`TestSuite`] holds the test cases read from one spec file.
//! * A [`TestSuiteCollection`] holds every suite of one discovery run.

use vstd::prelude::*;

verus! {

/// One test specification: a command line, the input fed to it, and the
/// stdout, stderr and exit status it is expected to produce.
///
/// `stdin`, `stdout` and `stderr` default to empty and `status` to 0 when the
/// spec file leaves them out; the parser fills the defaults in, so a value of
/// this type always carries all six fields.
#[derive(PartialEq, Eq, Debug, Clone)]
pub struct TestCase {
    pub name: String,
    pub cmd: String,
    pub stdin: String,
    pub stdout: String,
    pub stderr: String,
    pub status: i32,
}

/// The test cases from one spec file, in declaration order.
#[derive(PartialEq, Eq, Debug, Clone)]
pub struct TestSuite {
    pub name: String,
    pub tests: Vec<TestCase>,
}

/// Every suite of one discovery run, in discovery order.
#[derive(PartialEq, Eq, Debug, Clone)]
pub struct TestSuiteCollection {
    pub testsuites: Vec<TestSuite>,
}

impl TestSuiteCollection {
    /// Gathers the given suites into a collection, keeping their order.
    pub fn new(testsuites: Vec<TestSuite>) -> (r: TestSuiteCollection)
        ensures
            r.testsuites == testsuites,
    {
        TestSuiteCollection { testsuites }
    }
}

impl Default for TestSuiteCollection {
    /// The empty collection: no spec files were found.
    fn default() -> (r: TestSuiteCollection)
        ensures
            r.testsuites@ == Seq::<TestSuite>::empty(),
    {
        TestSuiteCollection { testsuites: Vec::new() }
    }
}

} // verus!
