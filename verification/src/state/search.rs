//! First-occurrence search in sequences.
use vstd::prelude::*;

verus! {

/// `i` is the first position of `x` in `s`.
pub open spec fn is_first_position<T>(s: Seq<T>, x: T, i: int) -> bool {
    &&& 0 <= i < s.len()
    &&& s[i] == x
    &&& forall|j: int| 0 <= j < i ==> s[j] != x
}

/// The first position of `x` in `s` (meaningful when `s` contains `x`).
pub open spec fn first_position<T>(s: Seq<T>, x: T) -> int {
    choose|i: int| is_first_position(s, x, i)
}

/// The first position is unique, so any first position is the one `first_position` names.
pub proof fn lemma_first_position_unique<T>(s: Seq<T>, x: T, i: int)
    requires
        is_first_position(s, x, i),
    ensures
        first_position(s, x) == i,
{
    let k = first_position(s, x);
    assert(is_first_position(s, x, k));
    if k < i {
        assert(s[k] == x);
    } else if i < k {
        assert(s[i] == x);
    }
}

/// Scanning from `j`, past positions that do not hold `x`, reaches a first position of `x`.
proof fn lemma_first_position_from<T>(s: Seq<T>, x: T, j: int)
    requires
        0 <= j <= s.len(),
        forall|k: int| 0 <= k < j ==> s[k] != x,
        exists|k: int| j <= k < s.len() && s[k] == x,
    ensures
        exists|i: int| is_first_position(s, x, i),
    decreases s.len() - j,
{
    if s[j] == x {
        assert(is_first_position(s, x, j));
    } else {
        let w = choose|k: int| j <= k < s.len() && s[k] == x;
        assert(j + 1 <= w);
        lemma_first_position_from(s, x, j + 1);
    }
}

/// Whenever `s` contains `x`, `first_position` names its first position.
pub proof fn lemma_first_position_exists<T>(s: Seq<T>, x: T)
    requires
        s.contains(x),
    ensures
        is_first_position(s, x, first_position(s, x)),
{
    let w = choose|k: int| 0 <= k < s.len() && s[k] == x;
    assert(0 <= w < s.len() && s[w] == x);
    lemma_first_position_from(s, x, 0);
}

/// Position of the first byte equal to `x`.
pub fn position_u8(v: &Vec<u8>, x: u8) -> (r: Option<usize>)
    ensures
        r is None <==> !v@.contains(x),
        r matches Some(i) ==> i == first_position(v@, x) && is_first_position(v@, x, i as int),
{
    let mut i: usize = 0;
    while i < v.len()
        invariant
            0 <= i <= v.len(),
            forall|j: int| 0 <= j < i ==> v@[j] != x,
        decreases v.len() - i,
    {
        if v[i] == x {
            proof {
                lemma_first_position_unique(v@, x, i as int);
            }
            return Some(i);
        }
        i = i + 1;
    }
    None
}

/// Position of the first word equal to `x`.
pub fn position_u64(v: &Vec<u64>, x: u64) -> (r: Option<usize>)
    ensures
        r is None <==> !v@.contains(x),
        r matches Some(i) ==> i == first_position(v@, x) && is_first_position(v@, x, i as int),
{
    let mut i: usize = 0;
    while i < v.len()
        invariant
            0 <= i <= v.len(),
            forall|j: int| 0 <= j < i ==> v@[j] != x,
        decreases v.len() - i,
    {
        if v[i] == x {
            proof {
                lemma_first_position_unique(v@, x, i as int);
            }
            return Some(i);
        }
        i = i + 1;
    }
    None
}

} // verus!
