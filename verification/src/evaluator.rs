//! Derivation of results from executed test cases.
//!
//! Spawning the described command is an external capability: the process
//! runs outside the library, and what it produced comes back as a
//! [`CapturedOutput`]. Deriving the result from it — storing the expected
//! next to the actual value for every channel — is pure and verified here.
//! A command that could not be launched at all is an execution error, not a
//! test failure; it never reaches these functions and is surfaced
//! separately by the caller.

use vstd::prelude::*;

use crate::types::result::TestReport;
use crate::types::result::TestResult;
use crate::types::result::TestSuiteResult;
use crate::types::testcase::TestCase;
use crate::types::testcase::TestSuite;
use crate::types::testcase::TestSuiteCollection;

verus! {

/// What the execution capability captured from one finished process.
pub struct CapturedOutput {
    pub stdout: String,
    pub stderr: String,
    pub status: i32,
}

impl Clone for CapturedOutput {
    fn clone(&self) -> (r: Self)
        ensures
            r == *self,
    {
        CapturedOutput {
            stdout: self.stdout.clone(),
            stderr: self.stderr.clone(),
            status: self.status,
        }
    }
}

/// `r` is the result that `case` and the output captured for it determine:
/// each channel's expected value comes from the case, each actual value from
/// the capture.
pub open spec fn spec_case_result(r: TestResult, case: TestCase, output: CapturedOutput) -> bool {
    &&& r.name@ == case.name@
    &&& r.expected_stdout@ == case.stdout@
    &&& r.actual_stdout@ == output.stdout@
    &&& r.expected_stderr@ == case.stderr@
    &&& r.actual_stderr@ == output.stderr@
    &&& r.expected_status == case.status
    &&& r.actual_status == output.status
}

/// Builds the result of one case from the output captured for it. The
/// result is successful exactly when the capture matched the case on all
/// three channels.
pub fn evaluate_case(case: &TestCase, output: CapturedOutput) -> (r: TestResult)
    ensures
        spec_case_result(r, *case, output),
        r.spec_is_successful() <==> (case.stdout@ == output.stdout@ && case.stderr@
            == output.stderr@ && case.status == output.status),
{
    TestResult {
        name: case.name.clone(),
        expected_stdout: case.stdout.clone(),
        actual_stdout: output.stdout,
        expected_stderr: case.stderr.clone(),
        actual_stderr: output.stderr,
        expected_status: case.status,
        actual_status: output.status,
    }
}

/// Builds one suite's results from the outputs captured for its cases, one
/// capture per case: result `i` belongs to case `i`, so suite order is kept.
pub fn evaluate_suite(suite: &TestSuite, outputs: &Vec<CapturedOutput>) -> (r: TestSuiteResult)
    requires
        outputs@.len() == suite.tests@.len(),
    ensures
        r.name@ == suite.name@,
        r.results@.len() == suite.tests@.len(),
        forall|i: int|
            0 <= i < r.results@.len() ==> spec_case_result(
                #[trigger] r.results@[i],
                suite.tests@[i],
                outputs@[i],
            ),
{
    let mut results: Vec<TestResult> = Vec::new();
    let n = suite.tests.len();
    let mut i: usize = 0;
    while i < n
        invariant
            i <= n,
            n == suite.tests@.len(),
            outputs@.len() == suite.tests@.len(),
            results@.len() == i,
            forall|j: int|
                0 <= j < i ==> spec_case_result(
                    #[trigger] results@[j],
                    suite.tests@[j],
                    outputs@[j],
                ),
        decreases n - i,
    {
        let case = &suite.tests[i];
        let output = outputs[i].clone();
        let r = evaluate_case(case, output);
        results.push(r);
        i += 1;
    }
    TestSuiteResult { name: suite.name.clone(), results }
}

/// Runs the whole collection's worth of captured outputs into a report: one
/// suite result per suite and one result per case, everything in declared
/// order.
pub fn evaluate_collection(
    collection: &TestSuiteCollection,
    outputs: &Vec<Vec<CapturedOutput>>,
) -> (r: TestReport)
    requires
        outputs@.len() == collection.testsuites@.len(),
        forall|i: int|
            0 <= i < outputs@.len() ==> (#[trigger] outputs@[i])@.len()
                == collection.testsuites@[i].tests@.len(),
    ensures
        r.testsuites@.len() == collection.testsuites@.len(),
        forall|i: int|
            0 <= i < r.testsuites@.len() ==> {
                &&& (#[trigger] r.testsuites@[i]).name@ == collection.testsuites@[i].name@
                &&& r.testsuites@[i].results@.len() == collection.testsuites@[i].tests@.len()
                &&& forall|j: int|
                    0 <= j < r.testsuites@[i].results@.len() ==> spec_case_result(
                        #[trigger] r.testsuites@[i].results@[j],
                        collection.testsuites@[i].tests@[j],
                        outputs@[i]@[j],
                    )
            },
{
    let mut testsuites: Vec<TestSuiteResult> = Vec::new();
    let n = collection.testsuites.len();
    let mut i: usize = 0;
    while i < n
        invariant
            i <= n,
            n == collection.testsuites@.len(),
            outputs@.len() == collection.testsuites@.len(),
            forall|k: int|
                0 <= k < outputs@.len() ==> (#[trigger] outputs@[k])@.len()
                    == collection.testsuites@[k].tests@.len(),
            testsuites@.len() == i,
            forall|k: int|
                0 <= k < i ==> {
                    &&& (#[trigger] testsuites@[k]).name@ == collection.testsuites@[k].name@
                    &&& testsuites@[k].results@.len() == collection.testsuites@[k].tests@.len()
                    &&& forall|j: int|
                        0 <= j < testsuites@[k].results@.len() ==> spec_case_result(
                            #[trigger] testsuites@[k].results@[j],
                            collection.testsuites@[k].tests@[j],
                            outputs@[k]@[j],
                        )
                },
        decreases n - i,
    {
        let suite = &collection.testsuites[i];
        let suite_result = evaluate_suite(suite, &outputs[i]);
        testsuites.push(suite_result);
        i += 1;
    }
    TestReport { testsuites }
}

} // verus!
