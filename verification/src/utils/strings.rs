//! Character-level string helpers.
//!
//! Everything here works on `Seq<char>` views; nothing is trusted.

use vstd::prelude::*;
use vstd::string::*;

verus! {

/// Index of the last occurrence of `c` in `s`, if any.
pub open spec fn find_last(s: Seq<char>, c: char) -> Option<int>
    decreases s.len(),
{
    if s.len() == 0 {
        None
    } else if s[s.len() as int - 1] == c {
        Some(s.len() as int - 1)
    } else {
        find_last(s.drop_last(), c)
    }
}

/// If `c` stands at `i` and nowhere later, then `i` is the last occurrence.
pub proof fn lemma_find_last_at(s: Seq<char>, c: char, i: int)
    requires
        0 <= i < s.len(),
        s[i] == c,
        forall|j: int| i < j < s.len() ==> s[j] != c,
    ensures
        find_last(s, c) == Some(i),
    decreases s.len(),
{
    if i < s.len() as int - 1 {
        lemma_find_last_at(s.drop_last(), c, i);
    }
}

/// If `c` occurs nowhere in `s`, there is no last occurrence.
pub proof fn lemma_find_last_none(s: Seq<char>, c: char)
    requires
        forall|j: int| 0 <= j < s.len() ==> s[j] != c,
    ensures
        find_last(s, c) is None,
    decreases s.len(),
{
    if s.len() > 0 {
        lemma_find_last_none(s.drop_last(), c);
    }
}

/// Index of the last occurrence of `c`, scanning from the end.
pub fn rfind_char(s: &str, c: char) -> (r: Option<usize>)
    ensures
        match r {
            Some(i) => i < s@.len() && find_last(s@, c) == Some(i as int),
            None => find_last(s@, c) is None,
        },
{
    let n: usize = s.unicode_len();
    let mut i: usize = n;
    while i > 0
        invariant
            i <= n,
            n == s@.len(),
            forall|j: int| i <= j < s@.len() ==> s@[j] != c,
        decreases i,
    {
        i = i - 1;
        if s.get_char(i) == c {
            proof {
                lemma_find_last_at(s@, c, i as int);
            }
            return Some(i);
        }
    }
    proof {
        lemma_find_last_none(s@, c);
    }
    None
}

/// Character-by-character string equality, tied to view equality.
pub fn str_eq(a: &str, b: &str) -> (r: bool)
    ensures
        r == (a@ == b@),
{
    let an: usize = a.unicode_len();
    let bn: usize = b.unicode_len();
    if an != bn {
        return false;
    }
    let mut i: usize = 0;
    while i < an
        invariant
            i <= an,
            an == a@.len(),
            bn == b@.len(),
            an == bn,
            forall|j: int| 0 <= j < i ==> a@[j] == b@[j],
        decreases an - i,
    {
        let ca = a.get_char(i);
        let cb = b.get_char(i);
        if ca != cb {
            return false;
        }
        i = i + 1;
    }
    proof {
        assert(a@ =~= b@);
    }
    true
}

/// Whether `s` contains the NUL character, which cannot cross the foreign
/// boundary inside a C string.
pub open spec fn spec_has_nul(s: Seq<char>) -> bool {
    exists|i: int| 0 <= i < s.len() && s[i] == '\0'
}

/// Whether `s` contains the NUL character.
pub fn has_nul(s: &str) -> (r: bool)
    ensures
        r == spec_has_nul(s@),
{
    let n: usize = s.unicode_len();
    let mut i: usize = 0;
    while i < n
        invariant
            i <= n,
            n == s@.len(),
            forall|j: int| 0 <= j < i ==> s@[j] != '\0',
        decreases n - i,
    {
        if s.get_char(i) == '\0' {
            return true;
        }
        i = i + 1;
    }
    false
}

} // verus!
