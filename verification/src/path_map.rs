//! A small map keyed by path match keys.
use vstd::prelude::*;

verus! {

/// A map from path match keys to values, one entry per key.
#[derive(Clone, Debug)]
pub struct PathMap<V> {
    entries: Vec<(String, V)>,
}

/// No key occurs twice.
pub open spec fn keys_distinct<V>(entries: Seq<(String, V)>) -> bool {
    forall|i: int, j: int| 0 <= i < j < entries.len() ==> entries[i].0@ != entries[j].0@
}

impl<V> PathMap<V> {
    /// One entry per key.
    pub closed spec fn wf(self) -> bool {
        keys_distinct(self.entries@)
    }
}

impl<V: Copy> PathMap<V> {
    /// The keys and their values.
    pub closed spec fn view(self) -> Map<Seq<char>, V> {
        Map::new(
            |k: Seq<char>| exists|i: int| 0 <= i < self.entries.len() && self.entries@[i].0@ == k,
            |k: Seq<char>| self.entries@[choose|i: int| 0 <= i < self.entries.len() && self.entries@[i].0@ == k].1,
        )
    }

    /// An empty map.
    pub fn new() -> (map: Self)
        ensures
            map.wf(),
            map@ == Map::<Seq<char>, V>::empty(),
    {
        let map = PathMap { entries: Vec::new() };
        assert(map@ =~= Map::<Seq<char>, V>::empty());
        map
    }

    fn find(&self, key: &String) -> (ix: Option<usize>)
        ensures
            match ix {
                Some(i) => i < self.entries.len() && self.entries@[i as int].0@ == key@,
                None => forall|i: int| 0 <= i < self.entries.len() ==> self.entries@[i].0@ != key@,
            },
    {
        let mut i: usize = 0;
        while i < self.entries.len()
            invariant
                i <= self.entries.len(),
                forall|j: int| 0 <= j < i ==> self.entries@[j].0@ != key@,
            decreases self.entries.len() - i,
        {
            if self.entries[i].0 == *key {
                return Some(i);
            }
            i = i + 1;
        }
        None
    }

    /// The value stored for `key`.
    pub fn get(&self, key: &String) -> (value: Option<V>)
        requires
            self.wf(),
        ensures
            value == (if self@.dom().contains(key@) { Some(self@[key@]) } else { None }),
    {
        match self.find(key) {
            Some(i) => {
                assert(self@.dom().contains(key@));
                let ghost c = choose|j: int| 0 <= j < self.entries.len() && self.entries@[j].0@ == key@;
                assert(c == i);
                Some(self.entries[i].1)
            },
            None => {
                assert(!self@.dom().contains(key@));
                None
            },
        }
    }

    /// Stores `value` for `key`, replacing any earlier value.
    pub fn insert(&mut self, key: String, value: V)
        requires
            old(self).wf(),
        ensures
            final(self).wf(),
            final(self)@ == old(self)@.insert(key@, value),
    {
        let ghost pre = self@;
        match self.find(&key) {
            Some(i) => {
                let ghost k = key@;
                self.entries.set(i, (key, value));
                proof {
                    assert(keys_distinct(self.entries@));
                    assert forall|q: Seq<char>| #[trigger] self@.dom().contains(q) == pre.insert(k, value).dom().contains(q) by {
                        if q == k {
                            assert(self.entries@[i as int].0@ == q);
                        } else if pre.dom().contains(q) {
                            let j = choose|j: int| 0 <= j < old(self).entries.len() && old(self).entries@[j].0@ == q;
                            assert(self.entries@[j].0@ == q);
                        }
                    }
                    assert forall|q: Seq<char>| self@.dom().contains(q) implies #[trigger] self@[q] == pre.insert(k, value)[q] by {
                        let c = choose|j: int| 0 <= j < self.entries.len() && self.entries@[j].0@ == q;
                        if q != k {
                            let d = choose|j: int| 0 <= j < old(self).entries.len() && old(self).entries@[j].0@ == q;
                            assert(old(self).entries@[c].0@ == q);
                            assert(c == d);
                        } else {
                            assert(c == i);
                        }
                    }
                    assert(self@ =~= pre.insert(k, value));
                }
            },
            None => {
                let ghost k = key@;
                self.entries.push((key, value));
                proof {
                    let n = old(self).entries.len() as int;
                    assert(keys_distinct(self.entries@));
                    assert forall|q: Seq<char>| #[trigger] self@.dom().contains(q) == pre.insert(k, value).dom().contains(q) by {
                        if q == k {
                            assert(self.entries@[n].0@ == q);
                        } else if pre.dom().contains(q) {
                            let j = choose|j: int| 0 <= j < old(self).entries.len() && old(self).entries@[j].0@ == q;
                            assert(self.entries@[j].0@ == q);
                        }
                    }
                    assert forall|q: Seq<char>| self@.dom().contains(q) implies #[trigger] self@[q] == pre.insert(k, value)[q] by {
                        let c = choose|j: int| 0 <= j < self.entries.len() && self.entries@[j].0@ == q;
                        if q != k {
                            let d = choose|j: int| 0 <= j < old(self).entries.len() && old(self).entries@[j].0@ == q;
                            assert(self.entries@[d].0@ == q);
                            assert(c == d);
                        } else {
                            assert(self.entries@[n].0@ == q);
                            assert(c == n);
                        }
                    }
                    assert(self@ =~= pre.insert(k, value));
                }
            },
        }
    }
}

} // verus!
