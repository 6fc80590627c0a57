use vstd::prelude::*;
use vstd::string::*;

verus! {

/// Whether `pre` is the beginning of `s`, character by character.
pub fn starts_with(s: &str, pre: &str) -> (r: bool)
    ensures
        r == pre@.is_prefix_of(s@),
{
    let n = s.unicode_len();
    let m = pre.unicode_len();
    if m > n {
        return false;
    }
    let mut i: usize = 0;
    while i < m
        invariant
            m == pre@.len(),
            n == s@.len(),
            m <= n,
            i <= m,
            forall|j: int| 0 <= j < i ==> pre@[j] == s@[j],
        decreases m - i,
    {
        if s.get_char(i) != pre.get_char(i) {
            return false;
        }
        i = i + 1;
    }
    assert(pre@ =~= s@.subrange(0, m as int));
    true
}

/// Whether `s` and `t` hold the same characters.
pub fn same_text(s: &str, t: &str) -> (r: bool)
    ensures
        r == (s@ == t@),
{
    let p = starts_with(s, t);
    if p && s.unicode_len() == t.unicode_len() {
        assert(s@ =~= t@);
        true
    } else {
        false
    }
}

} // verus!
