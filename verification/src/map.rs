use vstd::prelude::*;
use vstd::string::*;

verus! {

/// A map from text keys to values, with each key present at most once.
///
/// Entries are kept in insertion order; a key that is inserted again keeps
/// its place and takes the new value.
#[derive(Debug, Clone)]
pub struct TextMap<V> {
    entries: Vec<(String, V)>,
}

impl<V> TextMap<V> {
    /// No key occurs twice.
    pub closed spec fn well_formed(self) -> bool {
        forall|i: int, j: int|
            0 <= i < self.entries.len() && 0 <= j < self.entries.len() && i != j
                ==> #[trigger] self.entries@[i].0@ != #[trigger] self.entries@[j].0@
    }

    spec fn has(self, k: Seq<char>) -> bool {
        exists|i: int| 0 <= i < self.entries.len() && self.entries@[i].0@ == k
    }

    /// The position at which key `k` is stored.
    spec fn slot(self, k: Seq<char>) -> int {
        choose|i: int| 0 <= i < self.entries.len() && self.entries@[i].0@ == k
    }

    /// The map of keys (by their text) to values.
    pub closed spec fn as_map(self) -> Map<Seq<char>, V> {
        Map::new(|k: Seq<char>| self.has(k), |k: Seq<char>| self.entries@[self.slot(k)].1)
    }

    proof fn lemma_slot(self, i: int)
        requires
            self.well_formed(),
            0 <= i < self.entries.len(),
        ensures
            self.has(self.entries@[i].0@),
            self.slot(self.entries@[i].0@) == i,
            self.as_map().contains_key(self.entries@[i].0@),
            self.as_map()[self.entries@[i].0@] == self.entries@[i].1,
    {
        let k = self.entries@[i].0@;
        assert(self.has(k));
        let j = self.slot(k);
        if j != i {
            assert(self.entries@[i].0@ != self.entries@[j].0@);
        }
    }

    /// Replacing the entry at `i` by one with the same key text changes the
    /// map only at that key.
    proof fn lemma_replace_value(pre: Self, post: Self, i: int)
        requires
            pre.well_formed(),
            0 <= i < pre.entries.len(),
            post.entries.len() == pre.entries.len(),
            post.entries@[i].0@ == pre.entries@[i].0@,
            forall|j: int| 0 <= j < pre.entries.len() && j != i ==> post.entries@[j] == pre.entries@[j],
        ensures
            post.well_formed(),
            post.as_map() == pre.as_map().insert(pre.entries@[i].0@, post.entries@[i].1),
    {
        let kv = pre.entries@[i].0@;
        let v = post.entries@[i].1;
        assert forall|a: int, b: int|
            0 <= a < post.entries.len() && 0 <= b < post.entries.len() && a != b
                implies #[trigger] post.entries@[a].0@ != #[trigger] post.entries@[b].0@ by {
            assert(pre.entries@[a].0@ != pre.entries@[b].0@);
        }
        assert forall|k2: Seq<char>| post.has(k2) == pre.has(k2) by {
            if pre.has(k2) {
                let j = pre.slot(k2);
                assert(post.entries@[j].0@ == k2);
            }
            if post.has(k2) {
                let j = post.slot(k2);
                assert(pre.entries@[j].0@ == k2);
            }
        }
        assert forall|k2: Seq<char>| #[trigger] post.has(k2) implies
            post.entries@[post.slot(k2)].1 == pre.as_map().insert(kv, v)[k2] by {
            let j = post.slot(k2);
            post.lemma_slot(j);
            if j != i {
                pre.lemma_slot(j);
            }
        }
        assert(post.as_map() =~= pre.as_map().insert(kv, v));
    }

    proof fn lemma_replace_any_value(pre: Self, i: int)
        requires
            pre.well_formed(),
            0 <= i < pre.entries.len(),
        ensures
            forall|post: Self|
                #![trigger post.well_formed()]
                #![trigger post.view()]
                post.entries.len() == pre.entries.len()
                && post.entries@[i].0@ == pre.entries@[i].0@
                && (forall|j: int| 0 <= j < pre.entries.len() && j != i ==> post.entries@[j] == pre.entries@[j])
                ==> post.well_formed()
                    && post@ == pre@.insert(pre.entries@[i].0@, post.entries@[i].1),
    {
        assert forall|post: Self|
            post.entries.len() == pre.entries.len()
            && post.entries@[i].0@ == pre.entries@[i].0@
            && (forall|j: int| 0 <= j < pre.entries.len() && j != i ==> post.entries@[j] == pre.entries@[j])
            implies #[trigger] post.well_formed()
                && post@ == pre@.insert(pre.entries@[i].0@, post.entries@[i].1) by {
            TextMap::lemma_replace_value(pre, post, i);
        }
    }

    /// Creates an empty map.
    pub fn new() -> (m: Self)
        ensures
            m.well_formed(),
            m@ == Map::<Seq<char>, V>::empty(),
    {
        let m = TextMap { entries: Vec::new() };
        assert(m.as_map() =~= Map::<Seq<char>, V>::empty());
        m
    }

    /// The position of key `k`, if it is present.
    fn find(&self, k: &str) -> (r: Option<usize>)
        requires
            self.well_formed(),
        ensures
            match r {
                Some(i) => i < self.entries.len() && self.entries@[i as int].0@ == k@
                    && self@.contains_key(k@) && self@[k@] == self.entries@[i as int].1,
                None => !self@.contains_key(k@)
                    && forall|j: int| 0 <= j < self.entries.len() ==> self.entries@[j].0@ != k@,
            },
    {
        let key = String::from_str(k);
        let mut i: usize = 0;
        while i < self.entries.len()
            invariant
                i <= self.entries.len(),
                self.well_formed(),
                key@ == k@,
                forall|j: int| 0 <= j < i ==> self.entries@[j].0@ != k@,
            decreases self.entries.len() - i,
        {
            if self.entries[i].0 == key {
                proof {
                    self.lemma_slot(i as int);
                }
                return Some(i);
            }
            i = i + 1;
        }
        None
    }

    /// Whether key `k` is present.
    pub fn contains_key(&self, k: &str) -> (r: bool)
        requires
            self.well_formed(),
        ensures
            r == self@.contains_key(k@),
    {
        self.find(k).is_some()
    }

    /// The value stored under key `k`, if any.
    pub fn get(&self, k: &str) -> (r: Option<&V>)
        requires
            self.well_formed(),
        ensures
            match r {
                Some(v) => self@.contains_key(k@) && *v == self@[k@],
                None => !self@.contains_key(k@),
            },
    {
        match self.find(k) {
            Some(i) => Some(&self.entries[i].1),
            None => None,
        }
    }

    /// Stores `v` under key `k`, replacing any value that was there.
    pub fn insert(&mut self, k: String, v: V)
        requires
            old(self).well_formed(),
        ensures
            final(self).well_formed(),
            final(self)@ == old(self)@.insert(k@, v),
    {
        let ghost kv = k@;
        let ghost pre = *self;
        match self.find(k.as_str()) {
            Some(i) => {
                self.entries.set(i, (k, v));
                proof {
                    TextMap::lemma_replace_value(pre, *self, i as int);
                }
            },
            None => {
                self.entries.push((k, v));
                proof {
                    let n = pre.entries.len() as int;
                    assert forall|a: int, b: int|
                        0 <= a < self.entries.len() && 0 <= b < self.entries.len() && a != b
                            implies #[trigger] self.entries@[a].0@ != #[trigger] self.entries@[b].0@ by {
                        if a < n && b < n {
                            assert(pre.entries@[a].0@ != pre.entries@[b].0@);
                        }
                    }
                    assert forall|k2: Seq<char>| self.has(k2) == (pre.has(k2) || k2 == kv) by {
                        if pre.has(k2) {
                            let j = pre.slot(k2);
                            assert(self.entries@[j].0@ == k2);
                        }
                        if k2 == kv {
                            assert(self.entries@[n].0@ == k2);
                        }
                        if self.has(k2) && k2 != kv {
                            let j = self.slot(k2);
                            assert(pre.entries@[j].0@ == k2);
                        }
                    }
                    assert forall|k2: Seq<char>| #[trigger] self.has(k2) implies
                        self.entries@[self.slot(k2)].1 == pre.as_map().insert(kv, v)[k2] by {
                        let j = self.slot(k2);
                        self.lemma_slot(j);
                        if j != n {
                            pre.lemma_slot(j);
                        }
                    }
                    assert(self.as_map() =~= pre.as_map().insert(kv, v));
                }
            },
        }
    }
}

impl<V> TextMap<V> {
    /// The value stored under key `k`, if any, to be changed in place.
    pub fn get_mut(&mut self, k: &str) -> (r: Option<&mut V>)
        requires
            old(self).well_formed(),
        ensures
            final(self).well_formed(),
            r is Some <==> old(self)@.contains_key(k@),
            r is Some ==> *r->0 == old(self)@[k@],
            r is Some ==> final(self)@ == old(self)@.insert(k@, *final(r->0)),
            r is None ==> *final(self) == *old(self),
    {
        match self.find(k) {
            Some(i) => {
                proof {
                    TextMap::lemma_replace_any_value(*self, i as int);
                }
                let entry = &mut self.entries[i];
                Some(&mut entry.1)
            },
            None => None,
        }
    }
}

impl<V> TextMap<V> {
    /// The entries of the map, each key with its value, in the order in which
    /// the keys were first inserted.
    pub fn into_entries(self) -> (r: Vec<(String, V)>)
        requires
            self.well_formed(),
        ensures
            forall|i: int, j: int|
                0 <= i < r.len() && 0 <= j < r.len() && i != j ==> #[trigger] r@[i].0@ != #[trigger] r@[j].0@,
            forall|i: int| 0 <= i < r.len() ==> self@.contains_key(#[trigger] r@[i].0@) && self@[r@[i].0@] == r@[i].1,
            forall|k: Seq<char>| #[trigger] self@.contains_key(k) ==> exists|i: int| 0 <= i < r.len() && r@[i].0@ == k,
    {
        proof {
            assert forall|i: int| 0 <= i < self.entries.len() implies self@.contains_key(#[trigger] self.entries@[i].0@)
                && self@[self.entries@[i].0@] == self.entries@[i].1 by {
                self.lemma_slot(i);
            }
        }
        self.entries
    }
}

impl<V> View for TextMap<V> {
    type V = Map<Seq<char>, V>;

    closed spec fn view(&self) -> Map<Seq<char>, V> {
        self.as_map()
    }
}

} // verus!
