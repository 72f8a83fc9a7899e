//! Validation of the log text the external checker produces. A log is an
//! opaque byte stream; the runner only asks whether it contains the
//! lint-finding marker and whether it ends with the crash-report terminator.

use vstd::prelude::*;
use vstd::slice::slice_index_get;

verus! {

/// ASCII bytes of `"clippy::"`, the prefix the checker attaches to every
/// reported lint finding.
pub open spec fn lint_marker() -> Seq<u8> {
    seq![99u8, 108u8, 105u8, 112u8, 112u8, 121u8, 58u8, 58u8]
}

/// ASCII bytes of `"ICEs:\n"`, the terminator a crash-free log ends with.
pub open spec fn crash_terminator() -> Seq<u8> {
    seq![73u8, 67u8, 69u8, 115u8, 58u8, 10u8]
}

/// `pat` occurs as a contiguous run somewhere inside `hay`.
pub open spec fn contains_bytes(hay: Seq<u8>, pat: Seq<u8>) -> bool {
    exists|i: int|
        0 <= i && i + pat.len() <= hay.len() && #[trigger] hay.subrange(i, i + pat.len() as int)
            == pat
}

/// `hay` ends with `pat`.
pub open spec fn ends_with_bytes(hay: Seq<u8>, pat: Seq<u8>) -> bool {
    pat.len() <= hay.len() && hay.subrange(hay.len() - pat.len(), hay.len() as int) == pat
}

/// Whether `pat` occurs in `hay` exactly at position `i`.
fn match_at(hay: &[u8], pat: &[u8], i: usize) -> (r: bool)
    requires
        i + pat@.len() <= hay@.len(),
    ensures
        r == (hay@.subrange(i as int, i + pat@.len() as int) == pat@),
{
    let n = hay.len();
    let m = pat.len();
    let mut j: usize = 0;
    while j < m
        invariant
            n == hay@.len(),
            m == pat@.len(),
            i + m <= n,
            0 <= j <= m,
            forall|t: int| 0 <= t < j ==> hay@[i + t] == pat@[t],
        decreases m - j,
    {
        if *slice_index_get(hay, i + j) != *slice_index_get(pat, j) {
            proof {
                assert(hay@.subrange(i as int, i + m as int)[j as int] == hay@[i + j]);
            }
            return false;
        }
        j += 1;
    }
    proof {
        assert(hay@.subrange(i as int, i + m as int) =~= pat@);
    }
    true
}

/// Whether `pat` occurs anywhere inside `hay`.
pub fn contains_slice(hay: &[u8], pat: &[u8]) -> (r: bool)
    ensures
        r == contains_bytes(hay@, pat@),
{
    let n = hay.len();
    let m = pat.len();
    if m > n {
        return false;
    }
    if m == 0 {
        proof {
            assert(hay@.subrange(0, 0 + pat@.len() as int) =~= pat@);
            assert(contains_bytes(hay@, pat@));
        }
        return true;
    }
    let mut i: usize = 0;
    while i <= n - m
        invariant
            n == hay@.len(),
            m == pat@.len(),
            1 <= m <= n,
            0 <= i <= n - m + 1,
            forall|k: int| 0 <= k < i ==> #[trigger] hay@.subrange(k, k + m as int) != pat@,
        decreases n - i,
    {
        if match_at(hay, pat, i) {
            return true;
        }
        i += 1;
    }
    false
}

/// Whether `hay` ends with `pat`.
pub fn ends_with_slice(hay: &[u8], pat: &[u8]) -> (r: bool)
    ensures
        r == ends_with_bytes(hay@, pat@),
{
    let n = hay.len();
    let m = pat.len();
    if m > n {
        return false;
    }
    match_at(hay, pat, n - m)
}

/// The executable lint-finding marker, `"clippy::"` as bytes.
pub fn lint_marker_bytes() -> (r: Vec<u8>)
    ensures
        r@ == lint_marker(),
{
    let r: Vec<u8> = vec![99u8, 108u8, 105u8, 112u8, 112u8, 121u8, 58u8, 58u8];
    proof {
        assert(r@ =~= lint_marker());
    }
    r
}

/// The executable crash-report terminator, `"ICEs:\n"` as bytes.
pub fn crash_terminator_bytes() -> (r: Vec<u8>)
    ensures
        r@ == crash_terminator(),
{
    let r: Vec<u8> = vec![73u8, 67u8, 69u8, 115u8, 58u8, 10u8];
    proof {
        assert(r@ =~= crash_terminator());
    }
    r
}

/// What the passes check accepts: no lint finding anywhere, and a
/// crash-free terminator at the end.
pub open spec fn passes_log_ok(log: Seq<u8>) -> bool {
    !contains_bytes(log, lint_marker()) && ends_with_bytes(log, crash_terminator())
}

/// What the integration check accepts: lint findings are tolerated, only
/// the crash-free terminator is required.
pub open spec fn integration_log_ok(log: Seq<u8>) -> bool {
    ends_with_bytes(log, crash_terminator())
}

/// Decides whether a log passes the strict check of the passes
/// configuration.
pub fn check_passes_log(log: &[u8]) -> (r: bool)
    ensures
        r == passes_log_ok(log@),
{
    let marker = lint_marker_bytes();
    let term = crash_terminator_bytes();
    !contains_slice(log, marker.as_slice()) && ends_with_slice(log, term.as_slice())
}

/// Decides whether a log passes the crash-only check of the integration
/// configuration.
pub fn check_integration_log(log: &[u8]) -> (r: bool)
    ensures
        r == integration_log_ok(log@),
{
    let term = crash_terminator_bytes();
    ends_with_slice(log, term.as_slice())
}

} // verus!
