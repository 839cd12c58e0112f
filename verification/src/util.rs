//! Small helpers over vectors of entity ids.

use vstd::prelude::*;

verus! {

/// Linear membership test over a vector of entity ids.
pub fn vec_contains_u64(v: &Vec<u64>, x: u64) -> (r: bool)
    ensures
        r == v@.contains(x),
{
    let mut i: usize = 0;
    while i < v.len()
        invariant
            i <= v@.len(),
            forall|j: int| 0 <= j < i ==> v@[j] != x,
        decreases v@.len() - i,
    {
        if v[i] == x {
            return true;
        }
        i += 1;
    }
    false
}

/// Position of the first occurrence of an id in a vector, if any.
pub fn vec_find_u64(v: &Vec<u64>, x: u64) -> (r: Option<usize>)
    ensures
        match r {
            Some(p) => p < v@.len() && v@[p as int] == x && (forall|j: int|
                0 <= j < p ==> v@[j] != x),
            None => !v@.contains(x),
        },
{
    let mut i: usize = 0;
    while i < v.len()
        invariant
            i <= v@.len(),
            forall|j: int| 0 <= j < i ==> v@[j] != x,
        decreases v@.len() - i,
    {
        if v[i] == x {
            return Some(i);
        }
        i += 1;
    }
    None
}

/// Removing position `p` from a duplicate-free sequence keeps it
/// duplicate-free and removes exactly the element at `p` from membership.
pub proof fn lemma_remove_keeps_distinct(s: Seq<u64>, p: int)
    requires
        0 <= p < s.len(),
        s.no_duplicates(),
    ensures
        s.remove(p).no_duplicates(),
        forall|x: u64| #[trigger] s.remove(p).contains(x) <==> (s.contains(x) && x != s[p]),
{
    s.remove_ensures(p);
    let r = s.remove(p);
    assert forall|x: u64| #[trigger] r.contains(x) implies s.contains(x) && x != s[p] by {
        let j = choose|j: int| 0 <= j < r.len() && r[j] == x;
        if j < p {
            assert(s[j] == x);
        } else {
            assert(s[j + 1] == x);
        }
    }
    assert forall|x: u64| s.contains(x) && x != s[p] implies #[trigger] r.contains(x) by {
        let j = choose|j: int| 0 <= j < s.len() && s[j] == x;
        if j < p {
            assert(r[j] == x);
        } else {
            assert(j != p);
            assert(r[j - 1] == x);
        }
    }
    assert forall|i: int, j: int| 0 <= i < j < r.len() implies r[i] != r[j] by {
        let i0: int = if i < p {
            i
        } else {
            i + 1
        };
        let j0: int = if j < p {
            j
        } else {
            j + 1
        };
        assert(r[i] == s[i0]);
        assert(r[j] == s[j0]);
    }
}

} // verus!
