//! Rendering of a [`TestReport`] as the text the user reads.
//!
//! The whole report text is pinned down by [`spec_render_report`]:
//! * an empty report renders as the single "No test case found" line;
//! * otherwise every suite contributes a header line and one
//!   `test {name} ... OK|FAILED` line per result, in report order;
//! * when at least one result failed, a `failures:` section follows, listing
//!   every failing result in encounter order with its formatter summary.
//!
//! [`render_report`] is proved to produce exactly that text for the markers
//! it is handed. [`ColorPrinter`] obtains its markers from the `colored`
//! crate, which styles them only when the environment allows color, so its
//! output is that same text with either plain or ANSI-styled markers.

pub mod formatter;

use vstd::prelude::*;

use colored::Colorize;

use crate::printer::formatter::DefaultFormatter;
use crate::printer::formatter::Formatter;
use crate::types::result::TestReport;
use crate::types::result::TestResult;
use crate::types::result::TestSuiteResult;

verus! {

/// The status line of one result: `test {name} ... {marker}`.
pub open spec fn spec_result_line(r: TestResult, ok: Seq<char>, failed: Seq<char>) -> Seq<char> {
    "test "@ + r.name@ + " ... "@ + (if r.spec_is_successful() {
        ok
    } else {
        failed
    }) + "\n"@
}

/// The status lines of a sequence of results, in order.
pub open spec fn spec_result_lines(results: Seq<TestResult>, ok: Seq<char>, failed: Seq<char>) -> Seq<
    char,
>
    decreases results.len(),
{
    if results.len() == 0 {
        Seq::<char>::empty()
    } else {
        spec_result_line(results[0], ok, failed) + spec_result_lines(
            results.drop_first(),
            ok,
            failed,
        )
    }
}

/// One suite's part of the report body: its header line, then the status
/// line of each of its results.
pub open spec fn spec_suite_text(s: TestSuiteResult, ok: Seq<char>, failed: Seq<char>) -> Seq<
    char,
> {
    "Running tests for "@ + s.name@ + "\n"@ + spec_result_lines(s.results@, ok, failed)
}

/// The report body: each suite's part, in report order.
pub open spec fn spec_suites_text(
    suites: Seq<TestSuiteResult>,
    ok: Seq<char>,
    failed: Seq<char>,
) -> Seq<char>
    decreases suites.len(),
{
    if suites.len() == 0 {
        Seq::<char>::empty()
    } else {
        spec_suite_text(suites[0], ok, failed) + spec_suites_text(suites.drop_first(), ok, failed)
    }
}

/// The failing results of one suite, in result order, none omitted.
pub open spec fn spec_suite_failures(results: Seq<TestResult>) -> Seq<TestResult>
    decreases results.len(),
{
    if results.len() == 0 {
        Seq::<TestResult>::empty()
    } else if !results[0].spec_is_successful() {
        seq![results[0]] + spec_suite_failures(results.drop_first())
    } else {
        spec_suite_failures(results.drop_first())
    }
}

/// The failing results of the whole report, in encounter order.
pub open spec fn spec_report_failures(suites: Seq<TestSuiteResult>) -> Seq<TestResult>
    decreases suites.len(),
{
    if suites.len() == 0 {
        Seq::<TestResult>::empty()
    } else {
        spec_suite_failures(suites[0].results@) + spec_report_failures(suites.drop_first())
    }
}

/// One entry of the failures section: a delimiter line with the test name,
/// the formatter's summary, and a closing blank line.
pub open spec fn spec_failure_block<F: Formatter>(f: F, r: TestResult) -> Seq<char> {
    "---- "@ + r.name@ + " ----\n"@ + f.summary_spec(r) + "\n"@
}

/// The entries of the failures section, in encounter order.
pub open spec fn spec_failures_text<F: Formatter>(f: F, failures: Seq<TestResult>) -> Seq<char>
    decreases failures.len(),
{
    if failures.len() == 0 {
        Seq::<char>::empty()
    } else {
        spec_failure_block(f, failures[0]) + spec_failures_text(f, failures.drop_first())
    }
}

/// The complete report text, given the two status markers.
pub open spec fn spec_render_report<F: Formatter>(
    f: F,
    report: TestReport,
    ok: Seq<char>,
    failed: Seq<char>,
) -> Seq<char> {
    if report.testsuites@.len() == 0 {
        "No test case found. Exiting.\n"@
    } else if spec_report_failures(report.testsuites@).len() == 0 {
        spec_suites_text(report.testsuites@, ok, failed)
    } else {
        spec_suites_text(report.testsuites@, ok, failed) + "\nfailures:\n\n"@
            + spec_failures_text(f, spec_report_failures(report.testsuites@))
    }
}

/// Status lines are order-preserving: the lines of results laid end to end
/// are the lines of the first part followed by the lines of the second.
pub proof fn lemma_result_lines_concat(
    a: Seq<TestResult>,
    b: Seq<TestResult>,
    ok: Seq<char>,
    failed: Seq<char>,
)
    ensures
        spec_result_lines(a + b, ok, failed) == spec_result_lines(a, ok, failed)
            + spec_result_lines(b, ok, failed),
    decreases a.len(),
{
    if a.len() == 0 {
        assert(a + b =~= b);
        assert(spec_result_lines(a, ok, failed) + spec_result_lines(b, ok, failed)
            =~= spec_result_lines(b, ok, failed));
    } else {
        assert((a + b).len() != 0);
        assert((a + b)[0] == a[0]);
        assert((a + b).drop_first() =~= a.drop_first() + b);
        lemma_result_lines_concat(a.drop_first(), b, ok, failed);
        assert(spec_result_lines(a + b, ok, failed) =~= spec_result_lines(a, ok, failed)
            + spec_result_lines(b, ok, failed));
    }
}

/// The report body is order-preserving in the suites: rendering suites laid
/// end to end yields the two bodies laid end to end, so a reordering of the
/// input suites reorders the output blocks identically.
pub proof fn lemma_suites_text_concat(
    a: Seq<TestSuiteResult>,
    b: Seq<TestSuiteResult>,
    ok: Seq<char>,
    failed: Seq<char>,
)
    ensures
        spec_suites_text(a + b, ok, failed) == spec_suites_text(a, ok, failed) + spec_suites_text(
            b,
            ok,
            failed,
        ),
    decreases a.len(),
{
    if a.len() == 0 {
        assert(a + b =~= b);
        assert(spec_suites_text(a, ok, failed) + spec_suites_text(b, ok, failed)
            =~= spec_suites_text(b, ok, failed));
    } else {
        assert((a + b).len() != 0);
        assert((a + b)[0] == a[0]);
        assert((a + b).drop_first() =~= a.drop_first() + b);
        lemma_suites_text_concat(a.drop_first(), b, ok, failed);
        assert(spec_suites_text(a + b, ok, failed) =~= spec_suites_text(a, ok, failed)
            + spec_suites_text(b, ok, failed));
    }
}

/// The failing results of results laid end to end are the failing results of
/// the first part followed by those of the second: encounter order is kept.
pub proof fn lemma_suite_failures_concat(a: Seq<TestResult>, b: Seq<TestResult>)
    ensures
        spec_suite_failures(a + b) == spec_suite_failures(a) + spec_suite_failures(b),
    decreases a.len(),
{
    if a.len() == 0 {
        assert(a + b =~= b);
        assert(spec_suite_failures(a) + spec_suite_failures(b) =~= spec_suite_failures(b));
    } else {
        assert((a + b).len() != 0);
        assert((a + b)[0] == a[0]);
        assert((a + b).drop_first() =~= a.drop_first() + b);
        lemma_suite_failures_concat(a.drop_first(), b);
        assert(spec_suite_failures(a + b) =~= spec_suite_failures(a) + spec_suite_failures(b));
    }
}

/// Accumulated failures are order-preserving in the suites as well.
pub proof fn lemma_report_failures_concat(a: Seq<TestSuiteResult>, b: Seq<TestSuiteResult>)
    ensures
        spec_report_failures(a + b) == spec_report_failures(a) + spec_report_failures(b),
    decreases a.len(),
{
    if a.len() == 0 {
        assert(a + b =~= b);
        assert(spec_report_failures(a) + spec_report_failures(b) =~= spec_report_failures(b));
    } else {
        assert((a + b).len() != 0);
        assert((a + b)[0] == a[0]);
        assert((a + b).drop_first() =~= a.drop_first() + b);
        lemma_report_failures_concat(a.drop_first(), b);
        assert(spec_report_failures(a + b) =~= spec_report_failures(a) + spec_report_failures(b));
    }
}

/// The failures section is order-preserving in the failing results.
pub proof fn lemma_failures_text_concat<F: Formatter>(
    f: F,
    a: Seq<TestResult>,
    b: Seq<TestResult>,
)
    ensures
        spec_failures_text(f, a + b) == spec_failures_text(f, a) + spec_failures_text(f, b),
    decreases a.len(),
{
    if a.len() == 0 {
        assert(a + b =~= b);
        assert(spec_failures_text(f, a) + spec_failures_text(f, b) =~= spec_failures_text(f, b));
    } else {
        assert((a + b).len() != 0);
        assert((a + b)[0] == a[0]);
        assert((a + b).drop_first() =~= a.drop_first() + b);
        lemma_failures_text_concat(f, a.drop_first(), b);
        assert(spec_failures_text(f, a + b) =~= spec_failures_text(f, a) + spec_failures_text(
            f,
            b,
        ));
    }
}

proof fn lemma_result_lines_take_step(
    results: Seq<TestResult>,
    j: int,
    ok: Seq<char>,
    failed: Seq<char>,
)
    requires
        0 <= j < results.len(),
    ensures
        spec_result_lines(results.take(j + 1), ok, failed) == spec_result_lines(
            results.take(j),
            ok,
            failed,
        ) + spec_result_line(results[j], ok, failed),
{
    let single = seq![results[j]];
    assert(results.take(j + 1) =~= results.take(j) + single);
    lemma_result_lines_concat(results.take(j), single, ok, failed);
    assert(single.drop_first() =~= Seq::<TestResult>::empty());
    assert(spec_result_lines(Seq::<TestResult>::empty(), ok, failed) =~= Seq::<char>::empty());
    assert(spec_result_lines(single, ok, failed) =~= spec_result_line(results[j], ok, failed));
}

proof fn lemma_suite_failures_take_step(results: Seq<TestResult>, j: int)
    requires
        0 <= j < results.len(),
    ensures
        spec_suite_failures(results.take(j + 1)) == spec_suite_failures(results.take(j)) + (
        if !results[j].spec_is_successful() {
            seq![results[j]]
        } else {
            Seq::<TestResult>::empty()
        }),
{
    let single = seq![results[j]];
    assert(results.take(j + 1) =~= results.take(j) + single);
    lemma_suite_failures_concat(results.take(j), single);
    assert(single.drop_first() =~= Seq::<TestResult>::empty());
    assert(spec_suite_failures(Seq::<TestResult>::empty()) =~= Seq::<TestResult>::empty());
    if !results[j].spec_is_successful() {
        assert(spec_suite_failures(single) =~= single);
    } else {
        assert(spec_suite_failures(single) =~= Seq::<TestResult>::empty());
    }
}

proof fn lemma_suites_text_take_step(
    suites: Seq<TestSuiteResult>,
    i: int,
    ok: Seq<char>,
    failed: Seq<char>,
)
    requires
        0 <= i < suites.len(),
    ensures
        spec_suites_text(suites.take(i + 1), ok, failed) == spec_suites_text(
            suites.take(i),
            ok,
            failed,
        ) + spec_suite_text(suites[i], ok, failed),
{
    let single = seq![suites[i]];
    assert(suites.take(i + 1) =~= suites.take(i) + single);
    lemma_suites_text_concat(suites.take(i), single, ok, failed);
    assert(single.drop_first() =~= Seq::<TestSuiteResult>::empty());
    assert(spec_suites_text(Seq::<TestSuiteResult>::empty(), ok, failed) =~= Seq::<char>::empty());
    assert(spec_suites_text(single, ok, failed) =~= spec_suite_text(suites[i], ok, failed));
}

proof fn lemma_report_failures_take_step(suites: Seq<TestSuiteResult>, i: int)
    requires
        0 <= i < suites.len(),
    ensures
        spec_report_failures(suites.take(i + 1)) == spec_report_failures(suites.take(i))
            + spec_suite_failures(suites[i].results@),
{
    let single = seq![suites[i]];
    assert(suites.take(i + 1) =~= suites.take(i) + single);
    lemma_report_failures_concat(suites.take(i), single);
    assert(single.drop_first() =~= Seq::<TestSuiteResult>::empty());
    assert(spec_report_failures(Seq::<TestSuiteResult>::empty()) =~= Seq::<TestResult>::empty());
    assert(spec_report_failures(single) =~= spec_suite_failures(suites[i].results@));
}

proof fn lemma_failures_text_take_step<F: Formatter>(f: F, failures: Seq<TestResult>, i: int)
    requires
        0 <= i < failures.len(),
    ensures
        spec_failures_text(f, failures.take(i + 1)) == spec_failures_text(f, failures.take(i))
            + spec_failure_block(f, failures[i]),
{
    let single = seq![failures[i]];
    assert(failures.take(i + 1) =~= failures.take(i) + single);
    lemma_failures_text_concat(f, failures.take(i), single);
    assert(single.drop_first() =~= Seq::<TestResult>::empty());
    assert(spec_failures_text(f, Seq::<TestResult>::empty()) =~= Seq::<char>::empty());
    assert(spec_failures_text(f, single) =~= spec_failure_block(f, failures[i]));
}

/// An empty report renders as exactly the "No test case found" line, and
/// nothing else, whatever the formatter and the markers are.
pub proof fn lemma_empty_report_text<F: Formatter>(
    f: F,
    report: TestReport,
    ok: Seq<char>,
    failed: Seq<char>,
)
    requires
        report.testsuites@.len() == 0,
    ensures
        spec_render_report(f, report, ok, failed) == "No test case found. Exiting.\n"@,
{
}

/// A report with a single suite holding a single passing result renders as
/// the suite header and one OK line, with no failures section.
pub proof fn lemma_single_passing_report_text<F: Formatter>(
    f: F,
    report: TestReport,
    ok: Seq<char>,
    failed: Seq<char>,
)
    requires
        report.testsuites@.len() == 1,
        report.testsuites@[0].results@.len() == 1,
        report.testsuites@[0].results@[0].spec_is_successful(),
    ensures
        spec_render_report(f, report, ok, failed) == "Running tests for "@
            + report.testsuites@[0].name@ + "\n"@ + "test "@
            + report.testsuites@[0].results@[0].name@ + " ... "@ + ok + "\n"@,
{
    let suites = report.testsuites@;
    let s = suites[0];
    let r = s.results@[0];
    assert(suites.drop_first() =~= Seq::<TestSuiteResult>::empty());
    assert(s.results@.drop_first() =~= Seq::<TestResult>::empty());
    assert(spec_result_lines(Seq::<TestResult>::empty(), ok, failed) =~= Seq::<char>::empty());
    assert(spec_result_lines(s.results@, ok, failed) =~= spec_result_line(r, ok, failed));
    assert(spec_suites_text(Seq::<TestSuiteResult>::empty(), ok, failed) =~= Seq::<char>::empty());
    assert(spec_suite_failures(Seq::<TestResult>::empty()) =~= Seq::<TestResult>::empty());
    assert(spec_suite_failures(s.results@) =~= Seq::<TestResult>::empty());
    assert(spec_report_failures(Seq::<TestSuiteResult>::empty()) =~= Seq::<TestResult>::empty());
    assert(spec_report_failures(suites) =~= Seq::<TestResult>::empty());
    assert(spec_render_report(f, report, ok, failed) =~= "Running tests for "@ + s.name@ + "\n"@
        + "test "@ + r.name@ + " ... "@ + ok + "\n"@);
}

/// A report with a single suite holding a single failing result renders as
/// the suite header, one FAILED line, and a failures section with exactly
/// that result's delimiter line and formatter summary.
pub proof fn lemma_single_failing_report_text<F: Formatter>(
    f: F,
    report: TestReport,
    ok: Seq<char>,
    failed: Seq<char>,
)
    requires
        report.testsuites@.len() == 1,
        report.testsuites@[0].results@.len() == 1,
        !report.testsuites@[0].results@[0].spec_is_successful(),
    ensures
        spec_render_report(f, report, ok, failed) == "Running tests for "@
            + report.testsuites@[0].name@ + "\n"@ + "test "@
            + report.testsuites@[0].results@[0].name@ + " ... "@ + failed + "\n"@
            + "\nfailures:\n\n"@ + "---- "@ + report.testsuites@[0].results@[0].name@
            + " ----\n"@ + f.summary_spec(report.testsuites@[0].results@[0]) + "\n"@,
{
    let suites = report.testsuites@;
    let s = suites[0];
    let r = s.results@[0];
    assert(suites.drop_first() =~= Seq::<TestSuiteResult>::empty());
    assert(s.results@.drop_first() =~= Seq::<TestResult>::empty());
    assert(spec_result_lines(Seq::<TestResult>::empty(), ok, failed) =~= Seq::<char>::empty());
    assert(spec_result_lines(s.results@, ok, failed) =~= spec_result_line(r, ok, failed));
    assert(spec_suites_text(Seq::<TestSuiteResult>::empty(), ok, failed) =~= Seq::<char>::empty());
    assert(spec_suite_failures(Seq::<TestResult>::empty()) =~= Seq::<TestResult>::empty());
    assert(spec_suite_failures(s.results@) =~= seq![r]);
    assert(spec_report_failures(Seq::<TestSuiteResult>::empty()) =~= Seq::<TestResult>::empty());
    assert(spec_report_failures(suites) =~= seq![r]);
    assert(seq![r].drop_first() =~= Seq::<TestResult>::empty());
    assert(spec_failures_text(f, Seq::<TestResult>::empty()) =~= Seq::<char>::empty());
    assert(spec_failures_text(f, seq![r]) =~= spec_failure_block(f, r));
    assert(spec_render_report(f, report, ok, failed) =~= "Running tests for "@ + s.name@ + "\n"@
        + "test "@ + r.name@ + " ... "@ + failed + "\n"@ + "\nfailures:\n\n"@ + "---- "@ + r.name@
        + " ----\n"@ + f.summary_spec(r) + "\n"@);
}

/// The failures listing of one suite holds exactly its failing results and
/// none other: it is the order-preserving filter of the results, so several
/// failures of one suite all appear, in the order they occurred.
pub proof fn lemma_suite_failures_are_the_failing(results: Seq<TestResult>)
    ensures
        spec_suite_failures(results) == results.filter(
            |r: TestResult| !r.spec_is_successful(),
        ),
    decreases results.len(),
{
    reveal(Seq::filter);
    if results.len() == 0 {
    } else {
        let last = results.last();
        let front = results.drop_last();
        lemma_suite_failures_are_the_failing(front);
        assert(results =~= front + seq![last]);
        lemma_suite_failures_concat(front, seq![last]);
        assert(seq![last].drop_first() =~= Seq::<TestResult>::empty());
        assert(spec_suite_failures(Seq::<TestResult>::empty()) =~= Seq::<TestResult>::empty());
        if !last.spec_is_successful() {
            assert(spec_suite_failures(seq![last]) =~= seq![last]);
            assert(spec_suite_failures(results) =~= spec_suite_failures(front) + seq![last]);
            assert(results.filter(|r: TestResult| !r.spec_is_successful()) =~= front.filter(
                |r: TestResult| !r.spec_is_successful(),
            ).push(last));
            assert(spec_suite_failures(results) =~= results.filter(
                |r: TestResult| !r.spec_is_successful(),
            ));
        } else {
            assert(spec_suite_failures(seq![last]) =~= Seq::<TestResult>::empty());
            assert(spec_suite_failures(results) =~= spec_suite_failures(front));
            assert(results.filter(|r: TestResult| !r.spec_is_successful()) =~= front.filter(
                |r: TestResult| !r.spec_is_successful(),
            ));
        }
    }
}

/// Appends one suite's part of the report body to `out` and its failing
/// results, in order, to `failures`.
fn render_suite(
    out: &mut String,
    failures: &mut Vec<TestResult>,
    suite: &TestSuiteResult,
    ok_marker: &str,
    failed_marker: &str,
)
    ensures
        final(out)@ == old(out)@ + spec_suite_text(*suite, ok_marker@, failed_marker@),
        final(failures)@ == old(failures)@ + spec_suite_failures(suite.results@),
{
    out.append("Running tests for ");
    out.append(suite.name.as_str());
    out.append("\n");
    let ghost header: Seq<char> = old(out)@ + ("Running tests for "@ + suite.name@ + "\n"@);
    proof {
        assert(out@ =~= header);
    }
    let n = suite.results.len();
    let mut j: usize = 0;
    while j < n
        invariant
            j <= n,
            n == suite.results@.len(),
            out@ == header + spec_result_lines(
                suite.results@.take(j as int),
                ok_marker@,
                failed_marker@,
            ),
            failures@ == old(failures)@ + spec_suite_failures(suite.results@.take(j as int)),
        decreases n - j,
    {
        let r = &suite.results[j];
        let successful = r.is_successful();
        out.append("test ");
        out.append(r.name.as_str());
        out.append(" ... ");
        if successful {
            out.append(ok_marker);
        } else {
            out.append(failed_marker);
        }
        out.append("\n");
        if !successful {
            failures.push(r.clone());
        }
        proof {
            lemma_result_lines_take_step(suite.results@, j as int, ok_marker@, failed_marker@);
            lemma_suite_failures_take_step(suite.results@, j as int);
            assert(out@ =~= header + spec_result_lines(
                suite.results@.take(j as int + 1),
                ok_marker@,
                failed_marker@,
            ));
            assert(failures@ =~= old(failures)@ + spec_suite_failures(
                suite.results@.take(j as int + 1),
            ));
        }
        j += 1;
    }
    proof {
        assert(suite.results@.take(n as int) =~= suite.results@);
        assert(out@ =~= old(out)@ + spec_suite_text(*suite, ok_marker@, failed_marker@));
    }
}

/// Appends one entry of the failures section to `out`.
fn render_failure_block<F: Formatter>(out: &mut String, f: &F, r: &TestResult)
    ensures
        final(out)@ == old(out)@ + spec_failure_block(*f, *r),
{
    out.append("---- ");
    out.append(r.name.as_str());
    out.append(" ----\n");
    let summary = f.compute_summary(r);
    out.append(summary.as_str());
    out.append("\n");
    proof {
        assert(out@ =~= old(out)@ + spec_failure_block(*f, *r));
    }
}

/// Renders the whole report with the given pair of status markers; the
/// result is exactly the text of [`spec_render_report`].
pub fn render_report<F: Formatter>(
    f: &F,
    report: &TestReport,
    ok_marker: &str,
    failed_marker: &str,
) -> (out: String)
    ensures
        out@ == spec_render_report(*f, *report, ok_marker@, failed_marker@),
{
    if report.testsuites.len() == 0 {
        return "No test case found. Exiting.\n".to_owned();
    }
    let ghost suites: Seq<TestSuiteResult> = report.testsuites@;
    let mut out = String::new();
    let mut failures: Vec<TestResult> = Vec::new();
    let n = report.testsuites.len();
    let mut i: usize = 0;
    while i < n
        invariant
            i <= n,
            n == suites.len(),
            report.testsuites@ == suites,
            out@ == spec_suites_text(suites.take(i as int), ok_marker@, failed_marker@),
            failures@ == spec_report_failures(suites.take(i as int)),
        decreases n - i,
    {
        let suite = &report.testsuites[i];
        render_suite(&mut out, &mut failures, suite, ok_marker, failed_marker);
        proof {
            lemma_suites_text_take_step(suites, i as int, ok_marker@, failed_marker@);
            lemma_report_failures_take_step(suites, i as int);
        }
        i += 1;
    }
    proof {
        assert(suites.take(n as int) =~= suites);
    }
    if failures.len() > 0 {
        out.append("\nfailures:\n\n");
        let ghost base: Seq<char> = spec_suites_text(suites, ok_marker@, failed_marker@)
            + "\nfailures:\n\n"@;
        proof {
            assert(out@ =~= base);
        }
        let ghost all_failures: Seq<TestResult> = failures@;
        let k = failures.len();
        let mut idx: usize = 0;
        while idx < k
            invariant
                idx <= k,
                k == all_failures.len(),
                failures@ == all_failures,
                out@ == base + spec_failures_text(*f, all_failures.take(idx as int)),
            decreases k - idx,
        {
            let fr = &failures[idx];
            render_failure_block(&mut out, f, fr);
            proof {
                lemma_failures_text_take_step(*f, all_failures, idx as int);
                assert(out@ =~= base + spec_failures_text(*f, all_failures.take(idx as int + 1)));
            }
            idx += 1;
        }
        proof {
            assert(all_failures.take(k as int) =~= all_failures);
            assert(out@ =~= spec_render_report(*f, *report, ok_marker@, failed_marker@));
        }
    } else {
        proof {
            assert(out@ =~= spec_render_report(*f, *report, ok_marker@, failed_marker@));
        }
    }
    out
}

/// The green ANSI styling that `colored` gives a plain string when color is
/// enabled: the green foreground sequence, the text, the reset sequence.
pub open spec fn spec_green_styled(s: Seq<char>) -> Seq<char> {
    "\u{1b}[32m"@ + s + "\u{1b}[0m"@
}

/// The red counterpart of [`spec_green_styled`].
pub open spec fn spec_red_styled(s: Seq<char>) -> Seq<char> {
    "\u{1b}[31m"@ + s + "\u{1b}[0m"@
}

/// The texts the OK marker can print as: plain, or green-styled when the
/// environment allows color.
pub open spec fn spec_is_ok_marker(s: Seq<char>) -> bool {
    s == "OK"@ || s == spec_green_styled("OK"@)
}

/// The texts the FAILED marker can print as: plain, or red-styled.
pub open spec fn spec_is_failed_marker(s: Seq<char>) -> bool {
    s == "FAILED"@ || s == spec_red_styled("FAILED"@)
}

/// Relies on colored's `Colorize::green` and the `Display` impl of its
/// `ColoredString`: a string with only a foreground color prints as the bare
/// input when coloring is off, and as the input wrapped in the green escape
/// sequence and the reset sequence when it is on. Whether coloring is on is
/// read from the tty state and the environment, so only the disjunction over
/// both outcomes is stated.
#[verifier::external_body]
fn ok_marker() -> (r: String)
    ensures
        spec_is_ok_marker(r@),
{
    format!("{}", "OK".green())
}

/// Relies on colored's `Colorize::red` and `ColoredString`'s `Display`, as
/// [`ok_marker`] does on `green`.
#[verifier::external_body]
fn failed_marker() -> (r: String)
    ensures
        spec_is_failed_marker(r@),
{
    format!("{}", "FAILED".red())
}

/// The capability of rendering a whole report for the user.
pub trait Printer: Sized {
    /// Which output texts this printer may produce for a report.
    spec fn report_output(&self, report: TestReport, out: Seq<char>) -> bool;

    /// Renders the report as one text; the caller hands it to its sink.
    fn print_report(&self, report: &TestReport) -> (out: String)
        ensures
            self.report_output(*report, out@),
    ;
}

/// Renders reports with colored OK / FAILED markers, using the given
/// formatter for the failure diffs.
pub struct ColorPrinter<F: Formatter> {
    pub formatter: F,
}

impl ColorPrinter<DefaultFormatter> {
    /// A printer with the built-in diff formatter.
    pub fn new() -> (r: ColorPrinter<DefaultFormatter>)
        ensures
            r.formatter == (DefaultFormatter {  }),
    {
        Self::with_dependencies(DefaultFormatter::new())
    }
}

impl<F: Formatter> ColorPrinter<F> {
    /// A printer over any formatter.
    pub fn with_dependencies(formatter: F) -> (r: ColorPrinter<F>)
        ensures
            r.formatter == formatter,
    {
        ColorPrinter { formatter }
    }
}

impl<F: Formatter> Printer for ColorPrinter<F> {
    /// The output is exactly the report text of [`spec_render_report`], for
    /// some pair of valid markers: which of the two texts each marker prints
    /// as is decided by the environment, everything else is pinned down.
    open spec fn report_output(&self, report: TestReport, out: Seq<char>) -> bool {
        exists|ok: Seq<char>, failed: Seq<char>|
            {
                &&& spec_is_ok_marker(ok)
                &&& spec_is_failed_marker(failed)
                &&& out == #[trigger] spec_render_report(self.formatter, report, ok, failed)
            }
    }

    fn print_report(&self, report: &TestReport) -> (out: String)
        ensures
            self.report_output(*report, out@),
    {
        let ok = ok_marker();
        let failed = failed_marker();
        let out = render_report(&self.formatter, report, ok.as_str(), failed.as_str());
        proof {
            assert(spec_is_ok_marker(ok@) && spec_is_failed_marker(failed@) && out@
                == spec_render_report(self.formatter, *report, ok@, failed@));
        }
        out
    }
}

} // verus!
