//! Small verified helpers over strings: equality and prefix tests stated
//! over character sequences.

use vstd::prelude::*;
use vstd::string::StrSliceExecFns;

verus! {

/// `p` is a prefix of `s`.
pub open spec fn has_prefix(s: Seq<char>, p: Seq<char>) -> bool {
    p.len() <= s.len() && s.subrange(0, p.len() as int) == p
}

/// Character-for-character string equality.
pub fn str_eq(a: &str, b: &str) -> (r: bool)
    ensures
        r == (a@ == b@),
{
    let n: usize = a.unicode_len();
    if n != b.unicode_len() {
        return false;
    }
    let mut i: usize = 0;
    while i < n
        invariant
            n == a@.len(),
            n == b@.len(),
            i <= n,
            forall|j: int| 0 <= j < i ==> a@[j] == b@[j],
        decreases n - i,
    {
        if a.get_char(i) != b.get_char(i) {
            return false;
        }
        i = i + 1;
    }
    proof {
        assert(a@ =~= b@);
    }
    true
}

/// Whether the characters of `p` open the string `s`.
pub fn str_has_prefix(s: &str, p: &str) -> (r: bool)
    ensures
        r == has_prefix(s@, p@),
{
    let np: usize = p.unicode_len();
    if np > s.unicode_len() {
        return false;
    }
    let mut i: usize = 0;
    while i < np
        invariant
            np == p@.len(),
            np <= s@.len(),
            i <= np,
            forall|j: int| 0 <= j < i ==> s@[j] == p@[j],
        decreases np - i,
    {
        if s.get_char(i) != p.get_char(i) {
            return false;
        }
        i = i + 1;
    }
    proof {
        assert(s@.subrange(0, p@.len() as int) =~= p@);
    }
    true
}

} // verus!
