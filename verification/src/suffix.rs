//! What is left of a sequence after its first items.

use vstd::prelude::*;

verus! {

/// What is left of `s` after its first `n` items.
pub open spec fn rest<T>(s: Seq<T>, n: usize) -> Seq<T> {
    s.skip(n as int)
}

/// What is left after `n` items begins with the item at `n`, and goes on
/// with what is left after `n + 1` items.
pub proof fn lemma_rest<T>(s: Seq<T>, n: usize)
    requires
        n <= s.len(),
    ensures
        rest(s, 0) == s,
        rest(s, n).len() == s.len() - n,
        n < s.len() ==> rest(s, n)[0] == s[n as int],
        n < s.len() && n < usize::MAX ==> rest(s, n).drop_first() == rest(s, (n + 1) as usize),
{
    assert(rest(s, 0) =~= s);
    if n < s.len() && n < usize::MAX {
        assert(rest(s, n).drop_first() =~= rest(s, (n + 1) as usize));
    }
}

} // verus!
