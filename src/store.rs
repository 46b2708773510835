use vstd::prelude::*;

verus! {

/// A map from strings to values, held as two vectors of equal length in the order in
/// which each key was first inserted. Keys are unique.
pub struct StrMap<V> {
    keys: Vec<String>,
    vals: Vec<V>,
}

impl<V> View for StrMap<V> {
    type V = Map<Seq<char>, V>;

    closed spec fn view(&self) -> Map<Seq<char>, V> {
        Map::new(
            |k: Seq<char>| exists|i: int| 0 <= i < self.keys@.len() && self.keys@[i]@ == k,
            |k: Seq<char>|
                self.vals@[choose|i: int| 0 <= i < self.keys@.len() && self.keys@[i]@ == k],
        )
    }
}

impl<V> StrMap<V> {
    /// Keys are unique and each has exactly one value.
    pub closed spec fn wf(&self) -> bool {
        &&& self.keys@.len() == self.vals@.len()
        &&& forall|i: int, j: int|
            0 <= i < self.keys@.len() && 0 <= j < self.keys@.len() && #[trigger] self.keys@[i]@
                == #[trigger] self.keys@[j]@ ==> i == j
    }

    /// The number of entries.
    pub closed spec fn spec_len(&self) -> nat {
        self.keys@.len()
    }

    /// The key of the `i`-th entry, in insertion order.
    pub closed spec fn key_at(&self, i: int) -> Seq<char> {
        self.keys@[i]@
    }

    proof fn lemma_view(&self)
        requires
            self.wf(),
        ensures
            forall|j: int|
                0 <= j < self.keys@.len() ==> #[trigger] self@.contains_key(self.keys@[j]@)
                    && self@[self.keys@[j]@] == self.vals@[j],
            forall|k: Seq<char>|
                #[trigger] self@.contains_key(k) ==> exists|j: int|
                    0 <= j < self.keys@.len() && self.keys@[j]@ == k,
    {
        assert forall|j: int| 0 <= j < self.keys@.len() implies #[trigger] self@.contains_key(
            self.keys@[j]@,
        ) && self@[self.keys@[j]@] == self.vals@[j] by {
            let k = self.keys@[j]@;
            assert(0 <= j < self.keys@.len() && self.keys@[j]@ == k);
            let c = choose|i: int| 0 <= i < self.keys@.len() && self.keys@[i]@ == k;
            assert(self.keys@[c]@ == self.keys@[j]@);
        }
    }

    /// Every key of the map is the key of some entry, and every entry holds its key's value.
    pub proof fn lemma_entries(&self)
        requires
            self.wf(),
        ensures
            self@.dom().finite(),
            self.spec_len() == self@.dom().len(),
            forall|j: int|
                0 <= j < self.spec_len() ==> #[trigger] self@.contains_key(self.key_at(j)),
            forall|k: Seq<char>|
                #[trigger] self@.contains_key(k) ==> exists|j: int|
                    0 <= j < self.spec_len() && self.key_at(j) == k,
            forall|i: int, j: int|
                0 <= i < self.spec_len() && 0 <= j < self.spec_len() && #[trigger] self.key_at(i)
                    == #[trigger] self.key_at(j) ==> i == j,
    {
        self.lemma_view();
        assert forall|k: Seq<char>| #[trigger] self@.contains_key(k) implies exists|j: int|
            0 <= j < self.spec_len() && self.key_at(j) == k by {
            let j = choose|j: int| 0 <= j < self.keys@.len() && self.keys@[j]@ == k;
            assert(self.key_at(j) == k);
        }
        let ks = self.keys@.map_values(|s: String| s@);
        assert forall|i: int, j: int| 0 <= i < ks.len() && 0 <= j < ks.len() && i != j implies ks[i]
            != ks[j] by {
            assert(self.keys@[i]@ == ks[i] && self.keys@[j]@ == ks[j]);
        }
        ks.unique_seq_to_set();
        vstd::seq_lib::seq_to_set_is_finite(ks);
        assert(ks.to_set() =~= self@.dom()) by {
            assert forall|k: Seq<char>| ks.to_set().contains(k) implies self@.dom().contains(k) by {
                let j = choose|j: int| 0 <= j < ks.len() && ks[j] == k;
                assert(self.keys@[j]@ == k);
            }
            assert forall|k: Seq<char>| self@.dom().contains(k) implies ks.to_set().contains(k) by {
                let j = choose|j: int| 0 <= j < self.keys@.len() && self.keys@[j]@ == k;
                assert(ks[j] == k);
            }
        }
    }

    pub fn new() -> (r: Self)
        ensures
            r.wf(),
            r@ == Map::<Seq<char>, V>::empty(),
    {
        let r = StrMap { keys: Vec::new(), vals: Vec::new() };
        assert(r@ =~= Map::<Seq<char>, V>::empty());
        r
    }

    pub fn len(&self) -> (r: usize)
        ensures
            r == self.spec_len(),
    {
        self.keys.len()
    }

    /// The `i`-th entry, in insertion order.
    pub fn entry(&self, i: usize) -> (r: (&String, &V))
        requires
            self.wf(),
            i < self.spec_len(),
        ensures
            r.0@ == self.key_at(i as int),
            self@.contains_key(r.0@),
            *r.1 == self@[r.0@],
    {
        proof {
            self.lemma_view();
        }
        (&self.keys[i], &self.vals[i])
    }

    fn find(&self, k: &String) -> (r: Option<usize>)
        requires
            self.wf(),
        ensures
            match r {
                Some(i) => i < self.keys@.len() && self.keys@[i as int]@ == k@,
                None => !self@.contains_key(k@),
            },
    {
        let mut i: usize = 0;
        while i < self.keys.len()
            invariant
                self.wf(),
                i <= self.keys@.len(),
                forall|j: int| 0 <= j < i ==> self.keys@[j]@ != k@,
            decreases self.keys@.len() - i,
        {
            if self.keys[i] == *k {
                return Some(i);
            }
            i = i + 1;
        }
        None
    }

    pub fn contains_key(&self, k: &String) -> (r: bool)
        requires
            self.wf(),
        ensures
            r == self@.contains_key(k@),
    {
        proof {
            self.lemma_view();
        }
        self.find(k).is_some()
    }

    pub fn get(&self, k: &String) -> (r: Option<&V>)
        requires
            self.wf(),
        ensures
            match r {
                Some(v) => self@.contains_key(k@) && *v == self@[k@],
                None => !self@.contains_key(k@),
            },
    {
        proof {
            self.lemma_view();
        }
        match self.find(k) {
            Some(i) => Some(&self.vals[i]),
            None => None,
        }
    }

    /// Sets the value of `k`; a new key goes after all others.
    pub fn insert(&mut self, k: String, v: V)
        requires
            old(self).wf(),
        ensures
            final(self).wf(),
            final(self)@ == old(self)@.insert(k@, v),
    {
        proof {
            self.lemma_view();
        }
        let ghost old_map = self@;
        let ghost old_keys = self.keys@;
        let ghost kk = k@;
        match self.find(&k) {
            Some(i) => {
                self.vals.set(i, v);
                proof {
                    self.lemma_view();
                    assert forall|q: Seq<char>| #[trigger] self@.contains_key(q) implies old_map.insert(
                        kk,
                        v,
                    ).contains_key(q) && self@[q] == old_map.insert(kk, v)[q] by {
                        let j = choose|j: int| 0 <= j < self.keys@.len() && self.keys@[j]@ == q;
                        if j != i {
                            assert(old_map[q] == self.vals@[j]);
                        }
                    }
                    assert(self@ =~= old_map.insert(kk, v));
                }
            },
            None => {
                self.keys.push(k);
                self.vals.push(v);
                proof {
                    let n = self.keys@.len() - 1;
                    assert forall|a: int, b: int|
                        0 <= a < self.keys@.len() && 0 <= b < self.keys@.len()
                            && #[trigger] self.keys@[a]@ == #[trigger] self.keys@[b]@ implies a
                        == b by {
                        if a < n && b == n {
                            assert(old_map.contains_key(self.keys@[a]@));
                        } else if a == n && b < n {
                            assert(old_map.contains_key(self.keys@[b]@));
                        }
                    }
                    self.lemma_view();
                    assert forall|q: Seq<char>| #[trigger] self@.contains_key(q) implies old_map.insert(
                        kk,
                        v,
                    ).contains_key(q) && self@[q] == old_map.insert(kk, v)[q] by {
                        let j = choose|j: int| 0 <= j < self.keys@.len() && self.keys@[j]@ == q;
                        if j != n {
                            assert(old_map[q] == self.vals@[j]);
                        }
                    }
                    assert forall|q: Seq<char>| #[trigger] old_map.insert(kk, v).contains_key(q)
                        implies self@.contains_key(q) by {
                        if q != kk {
                            let j = choose|j: int| 0 <= j < old_keys.len() && old_keys[j]@ == q;
                            assert(self.keys@[j]@ == q);
                        } else {
                            assert(self.keys@[n]@ == q);
                        }
                    }
                    assert(self@ =~= old_map.insert(kk, v));
                }
            },
        }
    }

    /// Takes the entry of `k` out, keeping the order of the others.
    pub fn remove(&mut self, k: &String) -> (r: Option<V>)
        requires
            old(self).wf(),
        ensures
            final(self).wf(),
            final(self)@ == old(self)@.remove(k@),
            match r {
                Some(v) => old(self)@.contains_key(k@) && v == old(self)@[k@],
                None => !old(self)@.contains_key(k@),
            },
    {
        proof {
            self.lemma_view();
        }
        let ghost old_map = self@;
        let ghost old_keys = self.keys@;
        match self.find(k) {
            Some(i) => {
                self.keys.remove(i);
                let v = self.vals.remove(i);
                proof {
                    assert forall|a: int, b: int|
                        0 <= a < self.keys@.len() && 0 <= b < self.keys@.len()
                            && #[trigger] self.keys@[a]@ == #[trigger] self.keys@[b]@ implies a
                        == b by {
                        let a2 = if a < i { a } else { a + 1 };
                        let b2 = if b < i { b } else { b + 1 };
                        assert(old_keys[a2]@ == old_keys[b2]@);
                    }
                    self.lemma_view();
                    assert forall|q: Seq<char>| #[trigger] self@.contains_key(q) implies old_map.remove(
                        k@,
                    ).contains_key(q) && self@[q] == old_map[q] by {
                        let j = choose|j: int| 0 <= j < self.keys@.len() && self.keys@[j]@ == q;
                        let j2 = if j < i { j } else { j + 1 };
                        assert(old_keys[j2]@ == q);
                        assert(old_map[q] == self.vals@[j]);
                    }
                    assert forall|q: Seq<char>| #[trigger] old_map.remove(k@).contains_key(q)
                        implies self@.contains_key(q) by {
                        let j = choose|j: int| 0 <= j < old_keys.len() && old_keys[j]@ == q;
                        let j2 = if j < i { j } else { j - 1 };
                        assert(self.keys@[j2]@ == q);
                    }
                    assert(self@ =~= old_map.remove(k@));
                }
                Some(v)
            },
            None => {
                proof {
                    assert(self@ =~= old_map.remove(k@));
                }
                None
            },
        }
    }
}

} // verus!
