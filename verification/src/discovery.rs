//! Recognition of test-spec files.
//!
//! Walking the directory tree is an external capability; the walker hands
//! each candidate's file name to [`is_a_yaml`], which recognizes the spec
//! files by their extension.

use vstd::prelude::*;

verus! {

/// `s` ends with `suffix`.
pub open spec fn spec_ends_with(s: Seq<char>, suffix: Seq<char>) -> bool {
    s.len() >= suffix.len() && s.subrange(s.len() - suffix.len(), s.len() as int) == suffix
}

/// True iff `s` ends with `suffix`.
pub fn str_ends_with(s: &str, suffix: &str) -> (r: bool)
    ensures
        r == spec_ends_with(s@, suffix@),
{
    let n = s.unicode_len();
    let m = suffix.unicode_len();
    if m > n {
        return false;
    }
    let mut i: usize = 0;
    while i < m
        invariant
            m <= n,
            n == s@.len(),
            m == suffix@.len(),
            i <= m,
            forall|k: int| 0 <= k < i ==> s@[n - m + k] == suffix@[k],
        decreases m - i,
    {
        let c1 = s.get_char(n - m + i);
        let c2 = suffix.get_char(i);
        if c1 != c2 {
            proof {
                assert(!spec_ends_with(s@, suffix@)) by {
                    if spec_ends_with(s@, suffix@) {
                        assert(s@.subrange(n - m, n as int)[i as int] == suffix@[i as int]);
                    }
                }
            }
            return false;
        }
        i += 1;
    }
    proof {
        assert(s@.subrange(n - m, n as int) =~= suffix@);
    }
    true
}

/// A file is recognized as a test spec by its extension: `.yaml` or `.yml`.
pub open spec fn spec_is_a_yaml(name: Seq<char>) -> bool {
    spec_ends_with(name, ".yaml"@) || spec_ends_with(name, ".yml"@)
}

/// True iff the file name carries a YAML extension and so names a test-spec
/// file.
pub fn is_a_yaml(name: &str) -> (r: bool)
    ensures
        r == spec_is_a_yaml(name@),
{
    str_ends_with(name, ".yaml") || str_ends_with(name, ".yml")
}

} // verus!
