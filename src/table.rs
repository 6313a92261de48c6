use vstd::prelude::*;

verus! {

/// A key that can be compared, in executable code, by its view.
pub trait TableKey: View + Sized {
    fn same_key(&self, other: &Self) -> (r: bool)
        ensures
            r == (self@ == other@),
    ;
}

impl TableKey for Vec<u8> {
    fn same_key(&self, other: &Vec<u8>) -> (r: bool) {
        if self.len() != other.len() {
            return false;
        }
        let mut i: usize = 0;
        while i < self.len()
            invariant
                0 <= i <= self@.len(),
                self@.len() == other@.len(),
                forall|j: int| 0 <= j < i ==> self@[j] == other@[j],
            decreases self@.len() - i,
        {
            if self[i] != other[i] {
                return false;
            }
            i = i + 1;
        }
        assert(self@ =~= other@);
        true
    }
}

/// A finite map kept as two parallel vectors, one entry per distinct key
/// (distinct by the key's view), in order of first insertion.
pub struct Table<K, V> {
    keys: Vec<K>,
    vals: Vec<V>,
}

impl<K: TableKey, V: View> Table<K, V> {
    /// The keys are distinct and each has exactly one value.
    pub closed spec fn wf(&self) -> bool {
        &&& self.keys@.len() == self.vals@.len()
        &&& forall|i: int, j: int|
            0 <= i < self.keys@.len() && 0 <= j < self.keys@.len() && #[trigger] self.keys@[i]@
                == #[trigger] self.keys@[j]@ ==> i == j
    }

    pub closed spec fn has_key_at(&self, k: K::V, i: int) -> bool {
        0 <= i < self.keys@.len() && self.keys@[i]@ == k
    }

    pub closed spec fn index_of(&self, k: K::V) -> int {
        choose|i: int| self.has_key_at(k, i)
    }

    /// The map from each key's view to its value's view.
    pub closed spec fn view(&self) -> Map<K::V, V::V> {
        Map::new(
            |k: K::V| exists|i: int| self.has_key_at(k, i),
            |k: K::V| self.vals@[self.index_of(k)]@,
        )
    }

    proof fn lemma_lookup(&self, k: K::V, i: int)
        requires
            self.wf(),
            self.has_key_at(k, i),
        ensures
            self.view().contains_key(k),
            self.view()[k] == self.vals@[i]@,
    {
        assert(self.has_key_at(k, i));
        let j = self.index_of(k);
        assert(self.has_key_at(k, j));
        assert(self.keys@[i]@ == self.keys@[j]@);
    }

    pub fn new() -> (r: Self)
        ensures
            r.wf(),
            r.view() == Map::<K::V, V::V>::empty(),
    {
        let r = Table { keys: Vec::new(), vals: Vec::new() };
        assert(r.view() =~= Map::<K::V, V::V>::empty());
        r
    }

    /// The position of `k`, if it is present.
    fn find(&self, k: &K) -> (r: Option<usize>)
        requires
            self.wf(),
        ensures
            r is None <==> !self.view().contains_key(k@),
            r matches Some(i) ==> self.has_key_at(k@, i as int) && self.view()[k@]
                == self.vals@[i as int]@,
    {
        let mut i: usize = 0;
        while i < self.keys.len()
            invariant
                self.wf(),
                0 <= i <= self.keys@.len(),
                forall|j: int| 0 <= j < i ==> !self.has_key_at(k@, j),
            decreases self.keys@.len() - i,
        {
            if self.keys[i].same_key(k) {
                proof {
                    self.lemma_lookup(k@, i as int);
                }
                return Some(i);
            }
            i = i + 1;
        }
        None
    }

    pub fn contains_key(&self, k: &K) -> (r: bool)
        requires
            self.wf(),
        ensures
            r == self.view().contains_key(k@),
    {
        self.find(k).is_some()
    }

    pub fn get(&self, k: &K) -> (r: Option<&V>)
        requires
            self.wf(),
        ensures
            r is Some <==> self.view().contains_key(k@),
            r matches Some(v) ==> v@ == self.view()[k@],
    {
        match self.find(k) {
            Some(i) => Some(&self.vals[i]),
            None => None,
        }
    }

    /// Sets the value of `k` to `v`, adding the key if it is new.
    pub fn insert(&mut self, k: K, v: V)
        requires
            old(self).wf(),
        ensures
            final(self).wf(),
            final(self).view() == old(self).view().insert(k@, v@),
    {
        let ghost kv = k@;
        let ghost vv = v@;
        match self.find(&k) {
            Some(i) => {
                self.vals.set(i, v);
                proof {
                    let ghost prev = *old(self);
                    assert forall|key: K::V| #[trigger]
                        self.view().contains_key(key) == prev.view().insert(kv, vv).contains_key(
                            key,
                        ) by {
                        if prev.view().contains_key(key) {
                            let j = prev.index_of(key);
                            assert(self.has_key_at(key, j));
                        }
                        if self.view().contains_key(key) {
                            let j = self.index_of(key);
                            assert(prev.has_key_at(key, j));
                        }
                    }
                    assert forall|key: K::V| #[trigger] self.view().contains_key(key) implies
                        self.view()[key] == prev.view().insert(kv, vv)[key] by {
                        let j = self.index_of(key);
                        self.lemma_lookup(key, j);
                        if key != kv {
                            prev.lemma_lookup(key, j);
                        } else {
                            self.lemma_lookup(key, i as int);
                        }
                    }
                    assert(self.view() =~= prev.view().insert(kv, vv));
                }
            },
            None => {
                self.keys.push(k);
                self.vals.push(v);
                proof {
                    let ghost prev = *old(self);
                    let n = prev.keys@.len() as int;
                    assert(self.has_key_at(kv, n));
                    assert forall|i: int, j: int|
                        0 <= i < self.keys@.len() && 0 <= j < self.keys@.len()
                            && #[trigger] self.keys@[i]@ == #[trigger] self.keys@[j]@ implies i
                        == j by {
                        if i < n && j < n {
                            assert(prev.keys@[i] == self.keys@[i]);
                            assert(prev.keys@[j] == self.keys@[j]);
                        } else if i < n {
                            assert(prev.has_key_at(kv, i));
                        } else if j < n {
                            assert(prev.has_key_at(kv, j));
                        }
                    }
                    assert forall|key: K::V| #[trigger]
                        self.view().contains_key(key) == prev.view().insert(kv, vv).contains_key(
                            key,
                        ) by {
                        if prev.view().contains_key(key) {
                            let j = prev.index_of(key);
                            assert(self.has_key_at(key, j));
                        }
                        if self.view().contains_key(key) && key != kv {
                            let j = self.index_of(key);
                            assert(prev.has_key_at(key, j));
                        }
                    }
                    assert forall|key: K::V| #[trigger] self.view().contains_key(key) implies
                        self.view()[key] == prev.view().insert(kv, vv)[key] by {
                        let j = self.index_of(key);
                        self.lemma_lookup(key, j);
                        if key != kv {
                            assert(j < n);
                            prev.lemma_lookup(key, j);
                        } else {
                            self.lemma_lookup(key, n);
                        }
                    }
                    assert(self.view() =~= prev.view().insert(kv, vv));
                }
            },
        }
    }
}

} // verus!
