//! Rendering of a failing result as a human-readable diff.
//!
//! A [`Formatter`] turns one failing [`TestResult`] into a display string.
//! It sits behind a trait so another rendering strategy can replace
//! [`DefaultFormatter`] without touching the report printer.

use vstd::prelude::*;

use crate::digits::i32_to_string;
use crate::digits::spec_i32_string;
use crate::types::result::TestResult;

verus! {

/// One block of the diff summary: which channel diverged, and the expected
/// and the actual value on that channel.
pub open spec fn spec_channel_block(label: Seq<char>, expected: Seq<char>, actual: Seq<char>) -> Seq<
    char,
> {
    label + " differs:\n  expected: "@ + expected + "\n  actual: "@ + actual + "\n"@
}

/// The stdout block of the summary; empty when stdout matched.
pub open spec fn spec_stdout_part(r: TestResult) -> Seq<char> {
    if r.expected_stdout@ != r.actual_stdout@ {
        spec_channel_block("stdout"@, r.expected_stdout@, r.actual_stdout@)
    } else {
        Seq::<char>::empty()
    }
}

/// The stderr block of the summary; empty when stderr matched.
pub open spec fn spec_stderr_part(r: TestResult) -> Seq<char> {
    if r.expected_stderr@ != r.actual_stderr@ {
        spec_channel_block("stderr"@, r.expected_stderr@, r.actual_stderr@)
    } else {
        Seq::<char>::empty()
    }
}

/// The exit-status block of the summary; empty when the status matched.
pub open spec fn spec_status_part(r: TestResult) -> Seq<char> {
    if r.expected_status != r.actual_status {
        spec_channel_block(
            "status"@,
            spec_i32_string(r.expected_status as int),
            spec_i32_string(r.actual_status as int),
        )
    } else {
        Seq::<char>::empty()
    }
}

/// The whole summary: one block per differing channel, in the fixed order
/// stdout, stderr, status, and nothing for channels that matched.
pub open spec fn spec_default_summary(r: TestResult) -> Seq<char> {
    spec_stdout_part(r) + spec_stderr_part(r) + spec_status_part(r)
}

/// The capability of rendering a failing result as a display string.
pub trait Formatter: Sized {
    /// The exact text this formatter produces for a given result.
    spec fn summary_spec(&self, r: TestResult) -> Seq<char>;

    /// Renders a summary of the mismatch(es) of a failing result.
    ///
    /// Pure: the text depends on the stored result fields alone, so repeated
    /// calls on the same result give identical output.
    fn compute_summary(&self, r: &TestResult) -> (s: String)
        ensures
            s@ == self.summary_spec(*r),
    ;
}

/// The summary of a result is a function of the result alone: rendering the
/// same result twice yields the very same text.
pub proof fn lemma_summary_deterministic<F: Formatter>(
    f: &F,
    r: TestResult,
    s1: Seq<char>,
    s2: Seq<char>,
)
    requires
        s1 == f.summary_spec(r),
        s2 == f.summary_spec(r),
    ensures
        s1 == s2,
{
}

/// The built-in diff rendering: a labelled expected/actual block for every
/// channel that diverged.
pub struct DefaultFormatter {}

impl DefaultFormatter {
    pub fn new() -> (r: DefaultFormatter)
        ensures
            r == (DefaultFormatter {  }),
    {
        DefaultFormatter {  }
    }
}

impl Formatter for DefaultFormatter {
    open spec fn summary_spec(&self, r: TestResult) -> Seq<char> {
        spec_default_summary(r)
    }

    fn compute_summary(&self, r: &TestResult) -> (s: String)
        ensures
            s@ == self.summary_spec(*r),
    {
        let mut s = String::new();
        if !(r.expected_stdout == r.actual_stdout) {
            s.append("stdout");
            s.append(" differs:\n  expected: ");
            s.append(r.expected_stdout.as_str());
            s.append("\n  actual: ");
            s.append(r.actual_stdout.as_str());
            s.append("\n");
        }
        proof {
            assert(s@ =~= spec_stdout_part(*r));
        }
        if !(r.expected_stderr == r.actual_stderr) {
            s.append("stderr");
            s.append(" differs:\n  expected: ");
            s.append(r.expected_stderr.as_str());
            s.append("\n  actual: ");
            s.append(r.actual_stderr.as_str());
            s.append("\n");
        }
        proof {
            assert(s@ =~= spec_stdout_part(*r) + spec_stderr_part(*r));
        }
        if r.expected_status != r.actual_status {
            let expected = i32_to_string(r.expected_status);
            let actual = i32_to_string(r.actual_status);
            s.append("status");
            s.append(" differs:\n  expected: ");
            s.append(expected.as_str());
            s.append("\n  actual: ");
            s.append(actual.as_str());
            s.append("\n");
        }
        proof {
            assert(s@ =~= spec_default_summary(*r));
        }
        s
    }
}

} // verus!
