//! A set of row numbers held as a strictly increasing list.

use vstd::prelude::*;

verus! {

/// The list is strictly increasing: sorted, with no row twice.
pub open spec fn sorted_set(v: Seq<usize>) -> bool {
    forall|i: int, j: int| 0 <= i < j < v.len() ==> v[i] < v[j]
}

/// Whether row `x` is in `v`.
pub fn set_contains(v: &Vec<usize>, x: usize) -> (r: bool)
    ensures
        r == v@.contains(x),
{
    let mut i: usize = 0;
    while i < v.len()
        invariant
            i <= v@.len(),
            forall|k: int| 0 <= k < i ==> v@[k] != x,
        decreases v@.len() - i,
    {
        if v[i] == x {
            assert(v@[i as int] == x);
            return true;
        }
        i = i + 1;
    }
    false
}

/// Adds row `x`, keeping the list strictly increasing.
pub fn set_insert(v: &mut Vec<usize>, x: usize)
    requires
        sorted_set(old(v)@),
    ensures
        sorted_set(final(v)@),
        forall|y: usize| #[trigger] final(v)@.contains(y) <==> (old(v)@.contains(y) || y == x),
{
    let mut i: usize = 0;
    while i < v.len() && v[i] < x
        invariant
            i <= v@.len(),
            v@ == old(v)@,
            sorted_set(v@),
            forall|k: int| 0 <= k < i ==> v@[k] < x,
        decreases v@.len() - i,
    {
        i = i + 1;
    }
    if i < v.len() && v[i] == x {
        assert(v@[i as int] == x);
        return;
    }
    let ghost before = v@;
    v.insert(i, x);
    proof {
        assert(v@ =~= before.insert(i as int, x));
        assert(forall|k: int| i < k < v@.len() ==> v@[k] == before[k - 1]);
        assert(forall|k: int| 0 <= k < i ==> v@[k] == before[k]);
        assert forall|y: usize| #[trigger] v@.contains(y) <==> (before.contains(y) || y == x) by {
            if v@.contains(y) {
                let k = choose|k: int| 0 <= k < v@.len() && v@[k] == y;
                if k < i {
                    assert(before[k] == y);
                } else if k > i {
                    assert(before[k - 1] == y);
                }
            }
            if before.contains(y) {
                let k = choose|k: int| 0 <= k < before.len() && before[k] == y;
                if k < i {
                    assert(v@[k] == y);
                } else {
                    assert(v@[k + 1] == y);
                }
            }
            if y == x {
                assert(v@[i as int] == x);
            }
        }
    }
}

/// Removes row `x`, keeping the list strictly increasing.
pub fn set_remove(v: &mut Vec<usize>, x: usize)
    requires
        sorted_set(old(v)@),
    ensures
        sorted_set(final(v)@),
        forall|y: usize| #[trigger] final(v)@.contains(y) <==> (old(v)@.contains(y) && y != x),
{
    let mut i: usize = 0;
    while i < v.len() && v[i] != x
        invariant
            i <= v@.len(),
            v@ == old(v)@,
            forall|k: int| 0 <= k < i ==> v@[k] != x,
        decreases v@.len() - i,
    {
        i = i + 1;
    }
    if i == v.len() {
        return;
    }
    let ghost before = v@;
    let _gone = v.remove(i);
    proof {
        assert(v@ =~= before.remove(i as int));
        assert(forall|k: int| i <= k < v@.len() ==> v@[k] == before[k + 1]);
        assert(forall|k: int| 0 <= k < i ==> v@[k] == before[k]);
        assert forall|y: usize| #[trigger] v@.contains(y) <==> (before.contains(y) && y != x) by {
            if v@.contains(y) {
                let k = choose|k: int| 0 <= k < v@.len() && v@[k] == y;
                if k < i {
                    assert(before[k] == y);
                } else {
                    assert(before[k + 1] == y);
                }
            }
            if before.contains(y) && y != x {
                let k = choose|k: int| 0 <= k < before.len() && before[k] == y;
                if k < i {
                    assert(v@[k] == y);
                } else {
                    assert(k != i as int);
                    assert(v@[k - 1] == y);
                }
            }
        }
    }
}

/// A copy of the list.
pub fn set_copy(v: &Vec<usize>) -> (r: Vec<usize>)
    ensures
        r@ == v@,
{
    let mut r: Vec<usize> = Vec::new();
    let mut i: usize = 0;
    while i < v.len()
        invariant
            i <= v@.len(),
            r@ == v@.subrange(0, i as int),
        decreases v@.len() - i,
    {
        r.push(v[i]);
        i = i + 1;
        assert(r@ =~= v@.subrange(0, i as int));
    }
    assert(v@.subrange(0, v@.len() as int) =~= v@);
    r
}

} // verus!
