//! Splitting text at the first occurrence of a separator character.
//!
//! The request line is taken apart by repeatedly cutting a string at the
//! first occurrence of a character, the way `split` hands out its first
//! chunks: the piece before the separator, and the rest after it.

use vstd::prelude::*;
use vstd::string::StrSliceExecFns;

verus! {

/// The index of the first occurrence of `c` in `s`, or `s.len()` if `c`
/// does not occur.
pub open spec fn first_index(s: Seq<char>, c: char) -> int
    decreases s.len(),
{
    if s.len() == 0 {
        0
    } else if s[0] == c {
        0
    } else {
        1 + first_index(s.skip(1), c)
    }
}

/// `first_index` lies between 0 and `s.len()`, points at `c` when `c`
/// occurs, and nothing before it is `c`.
pub proof fn lemma_first_index(s: Seq<char>, c: char)
    ensures
        0 <= first_index(s, c) <= s.len(),
        first_index(s, c) < s.len() ==> s[first_index(s, c)] == c,
        forall|k: int| 0 <= k < first_index(s, c) ==> s[k] != c,
    decreases s.len(),
{
    if s.len() != 0 && s[0] != c {
        lemma_first_index(s.skip(1), c);
        assert forall|k: int| 0 <= k < first_index(s, c) implies s[k] != c by {
            if k > 0 {
                assert(s.skip(1)[k - 1] == s[k]);
            }
        }
    }
}

/// The chunk of `s` before the first `c`: all of `s` when `c` is absent.
pub open spec fn before_char(s: Seq<char>, c: char) -> Seq<char> {
    s.take(first_index(s, c))
}

/// The rest of `s` after the first `c`: empty when `c` is absent.
pub open spec fn after_char(s: Seq<char>, c: char) -> Seq<char> {
    if first_index(s, c) < s.len() {
        s.skip(first_index(s, c) + 1)
    } else {
        Seq::empty()
    }
}

pub open spec fn contains_char(s: Seq<char>, c: char) -> bool {
    first_index(s, c) < s.len()
}

/// The index of the first occurrence of `c` in `s`, or the character count
/// of `s` if `c` does not occur.
pub fn find_char(s: &str, c: char) -> (i: usize)
    ensures
        i == first_index(s@, c),
{
    proof {
        lemma_first_index(s@, c);
    }
    let n = s.unicode_len();
    let mut i: usize = 0;
    while i < n
        invariant
            0 <= i <= n,
            n == s@.len(),
            forall|k: int| 0 <= k < i ==> s@[k] != c,
        decreases n - i,
    {
        if s.get_char(i) == c {
            proof {
                lemma_first_index(s@, c);
            }
            return i;
        }
        i = i + 1;
    }
    i
}

/// The chunk of `s` before the first `c`, as a borrowed slice.
pub fn before_str<'a>(s: &'a str, c: char) -> (r: &'a str)
    ensures
        r@ == before_char(s@, c),
{
    proof {
        lemma_first_index(s@, c);
    }
    let i = find_char(s, c);
    s.substring_char(0, i)
}

/// The rest of `s` after the first `c`, as a borrowed slice.
pub fn after_str<'a>(s: &'a str, c: char) -> (r: &'a str)
    ensures
        r@ == after_char(s@, c),
{
    proof {
        lemma_first_index(s@, c);
    }
    let i = find_char(s, c);
    let n = s.unicode_len();
    if i < n {
        let r = s.substring_char(i + 1, n);
        assert(r@ =~= after_char(s@, c));
        r
    } else {
        let r = s.substring_char(n, n);
        assert(r@ =~= after_char(s@, c));
        r
    }
}

} // verus!
