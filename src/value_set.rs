use std::collections::HashSet;
use vstd::prelude::*;
use vstd::std_specs::hash::spec_hash_keys_iter;
use vstd::std_specs::iter::IteratorSpec;

verus! {

broadcast use vstd::std_specs::hash::group_hash_axioms;

/// Adds every value of `src` to `dst`.
pub fn union_into(dst: &mut HashSet<usize>, src: &HashSet<usize>)
    ensures
        final(dst)@ == old(dst)@.union(src@),
{
    let ghost start = dst@;
    for v in it: src.iter()
        invariant
            it.seq() == spec_hash_keys_iter(src).remaining(),
            it.seq().unref().to_set() == src@,
            forall|x: usize| #[trigger] dst@.contains(x) <==> (start.contains(x) || exists|j: int|
                0 <= j < it.index() && *it.seq()[j] == x),
    {
        dst.insert(*v);
    }
    proof {
        let items = spec_hash_keys_iter(src).remaining().unref();
        assert forall|x: usize| #[trigger] src@.contains(x) implies dst@.contains(x) by {
            assert(items.contains(x));
        }
        assert forall|x: usize| #[trigger] dst@.contains(x) && !start.contains(x) implies src@.contains(x) by {
            let j = choose|j: int| 0 <= j < items.len() && *spec_hash_keys_iter(src).remaining()[j] == x;
            assert(items[j] == x);
        }
        assert(dst@ =~= start.union(src@));
    }
}

/// A fresh set holding the values of `a` that are not in `b`.
pub fn difference(a: &HashSet<usize>, b: &HashSet<usize>) -> (r: HashSet<usize>)
    ensures
        r@ == a@.difference(b@),
{
    let mut r: HashSet<usize> = HashSet::new();
    for v in it: a.iter()
        invariant
            it.seq() == spec_hash_keys_iter(a).remaining(),
            it.seq().unref().to_set() == a@,
            forall|x: usize| #[trigger] r@.contains(x) <==> (!b@.contains(x) && exists|j: int|
                0 <= j < it.index() && *it.seq()[j] == x),
    {
        if !b.contains(v) {
            r.insert(*v);
        }
    }
    proof {
        let items = spec_hash_keys_iter(a).remaining().unref();
        assert forall|x: usize| #[trigger] a@.contains(x) && !b@.contains(x) implies r@.contains(x) by {
            assert(items.contains(x));
        }
        assert forall|x: usize| #[trigger] r@.contains(x) implies a@.contains(x) by {
            let j = choose|j: int| 0 <= j < items.len() && *spec_hash_keys_iter(a).remaining()[j] == x;
            assert(items[j] == x);
        }
        assert(r@ =~= a@.difference(b@));
    }
    r
}

/// A fresh set with the same values as `a`.
pub fn copy_set(a: &HashSet<usize>) -> (r: HashSet<usize>)
    ensures
        r@ == a@,
{
    let mut r: HashSet<usize> = HashSet::new();
    union_into(&mut r, a);
    assert(r@ =~= a@);
    r
}

} // verus!
