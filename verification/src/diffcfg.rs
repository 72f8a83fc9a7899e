//! Derivation of a minimal configuration from diff output: the lines a diff
//! marks as added and that start a bare word become the crate entries of a
//! fresh configuration, written under a `[crates]` section header.

use vstd::prelude::*;
use vstd::slice::{slice_index_get, slice_subrange, slice_to_vec};

verus! {

/// Position of the first newline byte in `s`, or `s.len()` when none occurs.
pub open spec fn first_newline(s: Seq<u8>) -> nat
    decreases s.len(),
{
    if s.len() == 0 {
        0
    } else if s[0] == 10u8 {
        0
    } else {
        first_newline(s.drop_first()) + 1
    }
}

/// `first_newline` is the position of a newline when one occurs, and
/// `s.len()` otherwise; nothing before it is a newline.
pub proof fn lemma_first_newline(s: Seq<u8>)
    ensures
        first_newline(s) <= s.len(),
        forall|j: int| 0 <= j < first_newline(s) ==> s[j] != 10u8,
        first_newline(s) < s.len() ==> s[first_newline(s) as int] == 10u8,
    decreases s.len(),
{
    if s.len() == 0 {
    } else if s[0] == 10u8 {
    } else {
        lemma_first_newline(s.drop_first());
        assert forall|j: int| 0 <= j < first_newline(s) implies s[j] != 10u8 by {
            if j >= 1 {
                assert(s.drop_first()[j - 1] == s[j]);
            }
        }
        if first_newline(s) < s.len() {
            assert(s.drop_first()[first_newline(s.drop_first()) as int] == s[first_newline(
                s,
            ) as int]);
        }
    }
}

/// A position that carries a newline and has none before it is exactly
/// `first_newline`.
proof fn lemma_first_newline_at(s: Seq<u8>, k: int)
    requires
        0 <= k <= s.len(),
        forall|j: int| 0 <= j < k ==> s[j] != 10u8,
        k < s.len() ==> s[k] == 10u8,
    ensures
        first_newline(s) == k,
    decreases s.len(),
{
    if s.len() == 0 {
    } else if s[0] == 10u8 {
    } else {
        assert(s[0] != 10u8);
        lemma_first_newline_at(s.drop_first(), k - 1);
    }
}

/// The lines of `s`: the maximal newline-free runs. A final run without a
/// trailing newline is a line of its own; a trailing newline adds none.
pub open spec fn lines_of(s: Seq<u8>) -> Seq<Seq<u8>>
    decreases s.len(),
{
    if s.len() == 0 {
        seq![]
    } else {
        let i = first_newline(s) as int;
        if i < s.len() {
            seq![s.subrange(0, i)].add(lines_of(s.subrange(i + 1, s.len() as int)))
        } else {
            seq![s]
        }
    }
}

/// Finds the first newline of `s`, or returns `s.len()` when there is none.
fn find_newline(s: &[u8]) -> (i: usize)
    ensures
        i == first_newline(s@),
{
    let n = s.len();
    let mut i: usize = 0;
    while i < n
        invariant
            n == s@.len(),
            0 <= i <= n,
            forall|j: int| 0 <= j < i ==> s@[j] != 10u8,
        decreases n - i,
    {
        if *slice_index_get(s, i) == 10u8 {
            proof {
                lemma_first_newline_at(s@, i as int);
            }
            return i;
        }
        i += 1;
    }
    proof {
        lemma_first_newline_at(s@, n as int);
    }
    n
}

/// Splits `s` into its lines.
pub fn split_lines(s: &[u8]) -> (r: Vec<Vec<u8>>)
    ensures
        r.deep_view() == lines_of(s@),
    decreases s@.len(),
{
    let mut r: Vec<Vec<u8>> = Vec::new();
    if s.len() == 0 {
        proof {
            assert(r.deep_view() =~= lines_of(s@));
        }
        return r;
    }
    let i = find_newline(s);
    proof {
        lemma_first_newline(s@);
    }
    if i < s.len() {
        r.push(slice_to_vec(slice_subrange(s, 0, i)));
        let mut rest = split_lines(slice_subrange(s, i + 1, s.len()));
        let ghost old_rest = rest@;
        let ghost rest_view = rest.deep_view();
        r.append(&mut rest);
        proof {
            assert(rest_view == lines_of(s@.subrange(i + 1, s@.len() as int)));
            assert(r@ =~= seq![r@[0]].add(old_rest));
            assert forall|k: int| 0 <= k < r@.len() implies r.deep_view()[k] =~= lines_of(
                s@,
            )[k] by {
                if k == 0 {
                    assert(r@[0]@ == s@.subrange(0, i as int));
                } else {
                    assert(r@[k] == old_rest[k - 1]);
                    assert(rest_view[k - 1] == old_rest[k - 1].deep_view());
                    assert(lines_of(s@)[k] == rest_view[k - 1]);
                }
            }
            assert(r.deep_view() =~~= lines_of(s@));
        }
    } else {
        r.push(slice_to_vec(s));
        proof {
            assert(first_newline(s@) == s@.len());
            assert(lines_of(s@) =~= seq![s@]);
            assert(r.deep_view() =~~= lines_of(s@));
        }
    }
    r
}

/// `b` lies in the word class of the filter pattern: an ASCII letter, a
/// digit, or an underscore.
pub open spec fn is_word_byte(b: u8) -> bool {
    (97 <= b <= 122) || (65 <= b <= 90) || (48 <= b <= 57) || b == 95
}

/// The crate entry a diff line contributes, if any: after dropping a
/// trailing carriage return, the line must start with `+` followed by a
/// word byte; the entry is the line with the `+` marker stripped.
pub open spec fn added_entry(line: Seq<u8>) -> Option<Seq<u8>> {
    let l = if line.len() > 0 && line.last() == 13u8 {
        line.drop_last()
    } else {
        line
    };
    if l.len() >= 2 && l[0] == 43u8 && is_word_byte(l[1]) {
        Some(l.subrange(1, l.len() as int))
    } else {
        None
    }
}

/// The body of a derived configuration: the entries of the kept lines, in
/// order, one per line.
pub open spec fn config_body(ls: Seq<Seq<u8>>) -> Seq<u8>
    decreases ls.len(),
{
    if ls.len() == 0 {
        seq![]
    } else {
        config_body(ls.drop_last()) + match added_entry(ls.last()) {
            Some(e) => e.push(10u8),
            None => Seq::<u8>::empty(),
        }
    }
}

/// ASCII bytes of the section header line `"[crates]\n"`.
pub open spec fn config_header() -> Seq<u8> {
    seq![91u8, 99u8, 114u8, 97u8, 116u8, 101u8, 115u8, 93u8, 10u8]
}

/// The whole derived configuration for a given diff text.
pub open spec fn config_of_diff(diff: Seq<u8>) -> Seq<u8> {
    config_header() + config_body(lines_of(diff))
}

fn word_byte(b: u8) -> (r: bool)
    ensures
        r == is_word_byte(b),
{
    (97 <= b && b <= 122) || (65 <= b && b <= 90) || (48 <= b && b <= 57) || b == 95
}

/// Extracts the crate entry of one diff line, if the line contributes one.
pub fn extract_entry(line: &[u8]) -> (r: Option<Vec<u8>>)
    ensures
        (match added_entry(line@) {
            Some(e) => r matches Some(v) && v@ == e,
            None => r is None,
        }),
{
    let full = line.len();
    let n = if full > 0 && *slice_index_get(line, full - 1) == 13u8 {
        full - 1
    } else {
        full
    };
    let ghost l = if line@.len() > 0 && line@.last() == 13u8 {
        line@.drop_last()
    } else {
        line@
    };
    proof {
        assert(l =~= line@.subrange(0, n as int));
    }
    if n >= 2 && *slice_index_get(line, 0) == 43u8 && word_byte(*slice_index_get(line, 1)) {
        let v = slice_to_vec(slice_subrange(line, 1, n));
        proof {
            assert(v@ =~= l.subrange(1, l.len() as int));
        }
        Some(v)
    } else {
        None
    }
}

/// Derives a configuration from diff text: a `[crates]` header followed by
/// the entry of every kept added line, in order.
pub fn derive_config(diff: &[u8]) -> (out: Vec<u8>)
    ensures
        out@ == config_of_diff(diff@),
{
    let mut out: Vec<u8> = vec![91u8, 99u8, 114u8, 97u8, 116u8, 101u8, 115u8, 93u8, 10u8];
    proof {
        assert(out@ =~= config_header());
    }
    let lines = split_lines(diff);
    let ghost ls = lines_of(diff@);
    let mut idx: usize = 0;
    while idx < lines.len()
        invariant
            lines.deep_view() == ls,
            ls == lines_of(diff@),
            0 <= idx <= lines@.len(),
            out@ == config_header() + config_body(ls.subrange(0, idx as int)),
        decreases lines@.len() - idx,
    {
        proof {
            assert(lines.deep_view()[idx as int] == lines@[idx as int].deep_view());
            assert(lines@[idx as int]@ =~= ls[idx as int]);
        }
        let entry = extract_entry(lines[idx].as_slice());
        match entry {
            Some(mut e) => {
                out.append(&mut e);
                out.push(10u8);
            },
            None => {},
        }
        proof {
            let pre = ls.subrange(0, idx as int);
            let post = ls.subrange(0, idx + 1);
            assert(post.drop_last() =~= pre);
            assert(post.last() == ls[idx as int]);
            assert(out@ =~= config_header() + config_body(post));
        }
        idx += 1;
    }
    proof {
        assert(ls.subrange(0, ls.len() as int) =~= ls);
    }
    out
}

} // verus!
