//! The operating mode of the runner, parsed from a command-line token.

use vstd::prelude::*;
use vstd::string::StrSliceExecFns;

verus! {

/// Which configuration(s) one invocation of the runner processes.
#[derive(Clone, Copy, Debug, PartialEq, Eq, Structural)]
pub enum Mode {
    /// Run the integration check, then the passes check.
    All,
    /// Run only the passes check.
    Passes,
    /// Run only the integration check.
    Integration,
    /// Run both checks against configurations derived from the diff
    /// with the reference branch.
    Ci,
}

/// Character-wise equality of two string slices.
fn str_eq(a: &str, b: &str) -> (r: bool)
    ensures
        r <==> a@ == b@,
{
    let an = a.unicode_len();
    let bn = b.unicode_len();
    if an != bn {
        proof {
            assert(a@ != b@) by {
                if a@ == b@ {
                    assert(a@.len() == b@.len());
                }
            }
        }
        return false;
    }
    let mut i: usize = 0;
    while i < an
        invariant
            an == a@.len(),
            an == b@.len(),
            0 <= i <= an,
            forall|j: int| 0 <= j < i ==> a@[j] == b@[j],
        decreases an - i,
    {
        if a.get_char(i) != b.get_char(i) {
            proof {
                assert(a@ != b@) by {
                    if a@ == b@ {
                        assert(a@[i as int] == b@[i as int]);
                    }
                }
            }
            return false;
        }
        i += 1;
    }
    proof {
        assert(a@ =~= b@);
    }
    true
}

/// Parses a mode token. Exactly the four lowercase literals are accepted;
/// every other token is rejected, so nothing is ever run for it.
pub fn parse_mode(s: &str) -> (r: Option<Mode>)
    ensures
        (r == Some(Mode::All)) <==> s@ == "all"@,
        (r == Some(Mode::Passes)) <==> s@ == "passes"@,
        (r == Some(Mode::Integration)) <==> s@ == "integration"@,
        (r == Some(Mode::Ci)) <==> s@ == "ci"@,
        (r is None) <==> !(s@ == "all"@ || s@ == "passes"@ || s@ == "integration"@
            || s@ == "ci"@),
{
    proof {
        reveal_strlit("all");
        reveal_strlit("passes");
        reveal_strlit("integration");
        reveal_strlit("ci");
        assert("all"@.len() == 3);
        assert("passes"@.len() == 6);
        assert("integration"@.len() == 11);
        assert("ci"@.len() == 2);
    }
    if str_eq(s, "all") {
        Some(Mode::All)
    } else if str_eq(s, "passes") {
        Some(Mode::Passes)
    } else if str_eq(s, "integration") {
        Some(Mode::Integration)
    } else if str_eq(s, "ci") {
        Some(Mode::Ci)
    } else {
        None
    }
}

} // verus!
