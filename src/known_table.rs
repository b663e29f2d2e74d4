use crate::value_set::union_into;
use crate::value_set::copy_set;
use std::collections::HashSet;
use vstd::prelude::*;

verus! {

broadcast use vstd::std_specs::hash::group_hash_axioms;

/// For each peer, a lower bound on the values that peer holds. A peer with no
/// entry is one nothing is known about, which differs from an empty entry.
pub struct KnownTable {
    peers: Vec<String>,
    sets: Vec<HashSet<usize>>,
}

impl KnownTable {
    /// One entry per peer, and one set per entry.
    pub closed spec fn wf(&self) -> bool {
        &&& self.peers.len() == self.sets.len()
        &&& forall|i: int, j: int|
            0 <= i < self.peers.len() && 0 <= j < self.peers.len() && #[trigger] self.peers@[i]@
                == #[trigger] self.peers@[j]@ ==> i == j
    }

    pub closed spec fn has_entry(&self, p: Seq<char>) -> bool {
        exists|i: int| 0 <= i < self.peers.len() && #[trigger] self.peers@[i]@ == p
    }

    pub closed spec fn entry_index(&self, p: Seq<char>) -> int {
        choose|i: int| 0 <= i < self.peers.len() && #[trigger] self.peers@[i]@ == p
    }

    /// The table as a map from peer id to the values that peer is known to hold.
    pub closed spec fn view(&self) -> Map<Seq<char>, Set<usize>> {
        Map::new(|p: Seq<char>| self.has_entry(p), |p: Seq<char>| self.sets@[self.entry_index(p)]@)
    }

    proof fn lemma_index_unique(&self, i: int)
        requires
            self.wf(),
            0 <= i < self.peers.len(),
        ensures
            self.has_entry(self.peers@[i]@),
            self.entry_index(self.peers@[i]@) == i,
            self@.contains_key(self.peers@[i]@),
            self@[self.peers@[i]@] == self.sets@[i]@,
    {
        let p = self.peers@[i]@;
        assert(self.has_entry(p));
        let k = self.entry_index(p);
        assert(self.peers@[k]@ == p);
    }

    /// A table with no entries.
    pub fn new() -> (r: Self)
        ensures
            r.wf(),
            r@ == Map::<Seq<char>, Set<usize>>::empty(),
    {
        let r = KnownTable { peers: Vec::new(), sets: Vec::new() };
        assert(r@ =~= Map::<Seq<char>, Set<usize>>::empty());
        r
    }

    fn find(&self, peer: &String) -> (r: Option<usize>)
        requires
            self.wf(),
        ensures
            r is None <==> !self@.contains_key(peer@),
            r matches Some(i) ==> i < self.peers.len() && self.peers@[i as int]@ == peer@,
    {
        let mut i: usize = 0;
        while i < self.peers.len()
            invariant
                i <= self.peers.len(),
                forall|j: int| 0 <= j < i ==> self.peers@[j]@ != peer@,
            decreases self.peers.len() - i,
        {
            if self.peers[i] == *peer {
                return Some(i);
            }
            i = i + 1;
        }
        None
    }

    /// The values the table holds for `peer`, if it has an entry.
    pub fn get(&self, peer: &String) -> (r: Option<&HashSet<usize>>)
        requires
            self.wf(),
        ensures
            r is Some <==> self@.contains_key(peer@),
            r matches Some(s) ==> s@ == self@[peer@],
    {
        match self.find(peer) {
            Some(i) => {
                proof { self.lemma_index_unique(i as int); }
                Some(&self.sets[i])
            },
            None => None,
        }
    }

    /// Records that `peer` holds every value of `values`, on top of what was
    /// known of it; creates the entry if there was none.
    pub fn extend(&mut self, peer: String, values: &HashSet<usize>)
        requires
            old(self).wf(),
        ensures
            final(self).wf(),
            final(self)@ == old(self)@.insert(
                peer@,
                if old(self)@.contains_key(peer@) {
                    old(self)@[peer@].union(values@)
                } else {
                    values@
                },
            ),
    {
        let ghost pre = *self;
        match self.find(&peer) {
            Some(i) => {
                proof { pre.lemma_index_unique(i as int); }
                let mut s = self.sets.remove(i);
                union_into(&mut s, values);
                self.sets.insert(i, s);
                proof {
                    assert(self.sets@ =~= pre.sets@.update(i as int, s));
                    assert forall|j: int| 0 <= j < self.peers.len() implies
                        #[trigger] self.sets@[j]@ == (if j == i { pre.sets@[j]@.union(values@) } else { pre.sets@[j]@ }) by {}
                    assert forall|p: Seq<char>| #[trigger] self@.contains_key(p) <==> pre@.insert(peer@, pre@[peer@].union(values@)).contains_key(p) by {
                        if p == peer@ {
                            assert(self.has_entry(p)) by { assert(self.peers@[i as int]@ == p); }
                        }
                    }
                    assert forall|p: Seq<char>| #[trigger] self@.contains_key(p) implies self@[p] == pre@.insert(peer@, pre@[peer@].union(values@))[p] by {
                        let k = self.entry_index(p);
                        self.lemma_index_unique(k);
                        pre.lemma_index_unique(k);
                    }
                    assert(self@ =~= pre@.insert(peer@, pre@[peer@].union(values@)));
                }
            },
            None => {
                let s = copy_set(values);
                self.peers.push(peer);
                self.sets.push(s);
                proof {
                    let n = pre.peers.len() as int;
                    assert forall|i: int, j: int|
                        0 <= i < self.peers.len() && 0 <= j < self.peers.len() && #[trigger] self.peers@[i]@
                            == #[trigger] self.peers@[j]@ implies i == j by {
                        if i < n && j == n {
                            assert(pre.has_entry(self.peers@[i]@));
                        }
                        if j < n && i == n {
                            assert(pre.has_entry(self.peers@[j]@));
                        }
                    }
                    self.lemma_index_unique(n);
                    assert forall|p: Seq<char>| #[trigger] self@.contains_key(p) <==> pre@.insert(peer@, values@).contains_key(p) by {
                        if self.has_entry(p) && p != peer@ {
                            let k = self.entry_index(p);
                            assert(pre.peers@[k]@ == p);
                        }
                        if pre.has_entry(p) {
                            let k = pre.entry_index(p);
                            assert(self.peers@[k]@ == p);
                        }
                    }
                    assert forall|p: Seq<char>| #[trigger] self@.contains_key(p) implies self@[p] == pre@.insert(peer@, values@)[p] by {
                        let k = self.entry_index(p);
                        self.lemma_index_unique(k);
                        if k < n {
                            pre.lemma_index_unique(k);
                        }
                    }
                    assert(self@ =~= pre@.insert(peer@, values@));
                }
            },
        }
    }
}

} // verus!
