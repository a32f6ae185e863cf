//! The outcome side of the data model: what running the tests produced.
//!
//! * A [`TestResult`] stores, for one test case, the expected and the actual
//!   value of every compared channel (stdout, stderr, exit status).
//! * A [`TestSuiteResult`] mirrors a suite: one result per case, in order.
//! * A [`TestReport`] mirrors a collection: one suite result per suite.

use vstd::prelude::*;

verus! {

/// The outcome of running one test case.
///
/// Both the expected and the actual value of each channel are stored, so
/// success is a pure function of the stored fields and a failure can be
/// rendered as a diff without re-running anything.
#[derive(PartialEq, Eq, Debug)]
pub struct TestResult {
    pub name: String,
    pub expected_stdout: String,
    pub actual_stdout: String,
    pub expected_stderr: String,
    pub actual_stderr: String,
    pub expected_status: i32,
    pub actual_status: i32,
}

impl TestResult {
    /// A result counts as successful exactly when every compared channel's
    /// actual value equals its expected value.
    pub open spec fn spec_is_successful(self) -> bool {
        &&& self.expected_stdout@ == self.actual_stdout@
        &&& self.expected_stderr@ == self.actual_stderr@
        &&& self.expected_status == self.actual_status
    }

    /// True iff all three channels match exactly: stdout, stderr and exit
    /// status are compared byte for byte, with no normalization, so a single
    /// mismatched channel (even a trailing newline) forces `false`.
    pub fn is_successful(&self) -> (r: bool)
        ensures
            r == self.spec_is_successful(),
    {
        self.expected_stdout == self.actual_stdout
            && self.expected_stderr == self.actual_stderr
            && self.expected_status == self.actual_status
    }
}

impl Clone for TestResult {
    fn clone(&self) -> (r: Self)
        ensures
            r == *self,
    {
        TestResult {
            name: self.name.clone(),
            expected_stdout: self.expected_stdout.clone(),
            actual_stdout: self.actual_stdout.clone(),
            expected_stderr: self.expected_stderr.clone(),
            actual_stderr: self.actual_stderr.clone(),
            expected_status: self.expected_status,
            actual_status: self.actual_status,
        }
    }
}

/// The results of one suite, one per case and in case order.
#[derive(PartialEq, Eq, Debug, Clone)]
pub struct TestSuiteResult {
    pub name: String,
    pub results: Vec<TestResult>,
}

/// The results of a whole run, one entry per suite and in suite order.
///
/// An empty report is a valid state: no test case was found.
#[derive(PartialEq, Eq, Debug, Clone)]
pub struct TestReport {
    pub testsuites: Vec<TestSuiteResult>,
}

/// Builds a [`TestResult`] field by field; every field left unset keeps its
/// default (empty string, status 0).
pub struct TestResultBuilder {
    pub name: String,
    pub expected_stdout: String,
    pub actual_stdout: String,
    pub expected_stderr: String,
    pub actual_stderr: String,
    pub expected_status: i32,
    pub actual_status: i32,
}

impl Default for TestResultBuilder {
    fn default() -> (r: TestResultBuilder)
        ensures
            r.name@ == Seq::<char>::empty(),
            r.expected_stdout@ == Seq::<char>::empty(),
            r.actual_stdout@ == Seq::<char>::empty(),
            r.expected_stderr@ == Seq::<char>::empty(),
            r.actual_stderr@ == Seq::<char>::empty(),
            r.expected_status == 0,
            r.actual_status == 0,
    {
        TestResultBuilder {
            name: String::new(),
            expected_stdout: String::new(),
            actual_stdout: String::new(),
            expected_stderr: String::new(),
            actual_stderr: String::new(),
            expected_status: 0,
            actual_status: 0,
        }
    }
}

impl TestResultBuilder {
    pub fn name(self, v: &str) -> (r: Self)
        ensures
            r == (TestResultBuilder { name: r.name, ..self }),
            r.name@ == v@,
    {
        TestResultBuilder { name: v.to_owned(), ..self }
    }

    pub fn expected_stdout(self, v: &str) -> (r: Self)
        ensures
            r == (TestResultBuilder { expected_stdout: r.expected_stdout, ..self }),
            r.expected_stdout@ == v@,
    {
        TestResultBuilder { expected_stdout: v.to_owned(), ..self }
    }

    pub fn actual_stdout(self, v: &str) -> (r: Self)
        ensures
            r == (TestResultBuilder { actual_stdout: r.actual_stdout, ..self }),
            r.actual_stdout@ == v@,
    {
        TestResultBuilder { actual_stdout: v.to_owned(), ..self }
    }

    pub fn expected_stderr(self, v: &str) -> (r: Self)
        ensures
            r == (TestResultBuilder { expected_stderr: r.expected_stderr, ..self }),
            r.expected_stderr@ == v@,
    {
        TestResultBuilder { expected_stderr: v.to_owned(), ..self }
    }

    pub fn actual_stderr(self, v: &str) -> (r: Self)
        ensures
            r == (TestResultBuilder { actual_stderr: r.actual_stderr, ..self }),
            r.actual_stderr@ == v@,
    {
        TestResultBuilder { actual_stderr: v.to_owned(), ..self }
    }

    pub fn expected_status(self, v: i32) -> (r: Self)
        ensures
            r == (TestResultBuilder { expected_status: v, ..self }),
    {
        TestResultBuilder { expected_status: v, ..self }
    }

    pub fn actual_status(self, v: i32) -> (r: Self)
        ensures
            r == (TestResultBuilder { actual_status: v, ..self }),
    {
        TestResultBuilder { actual_status: v, ..self }
    }

    /// Finishes the build. Every combination of fields is a valid result, so
    /// this always succeeds.
    pub fn build(self) -> (r: Result<TestResult, String>)
        ensures
            r is Ok,
            r matches Ok(t) && t == (TestResult {
                name: self.name,
                expected_stdout: self.expected_stdout,
                actual_stdout: self.actual_stdout,
                expected_stderr: self.expected_stderr,
                actual_stderr: self.actual_stderr,
                expected_status: self.expected_status,
                actual_status: self.actual_status,
            }),
    {
        Ok(TestResult {
            name: self.name,
            expected_stdout: self.expected_stdout,
            actual_stdout: self.actual_stdout,
            expected_stderr: self.expected_stderr,
            actual_stderr: self.actual_stderr,
            expected_status: self.expected_status,
            actual_status: self.actual_status,
        })
    }
}

} // verus!
