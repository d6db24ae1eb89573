use vstd::prelude::*;

verus! {

/// True when some entry of `entries` is keyed by `id`.
pub open spec fn has_key<S>(entries: Seq<(String, S)>, id: Seq<char>) -> bool {
    exists|i: int| 0 <= i < entries.len() && (#[trigger] entries[i]).0@ == id
}

/// No two entries share a key.
pub open spec fn keys_unique<S>(entries: Seq<(String, S)>) -> bool {
    forall|i: int, j: int|
        0 <= i < entries.len() && 0 <= j < entries.len() && i != j ==> (#[trigger] entries[i]).0@
            != (#[trigger] entries[j]).0@
}

/// The value stored under `id`, if any.
pub open spec fn lookup<S>(entries: Seq<(String, S)>, id: Seq<char>) -> Option<S> {
    if has_key(entries, id) {
        let i = choose|i: int| 0 <= i < entries.len() && (#[trigger] entries[i]).0@ == id;
        Some(entries[i].1)
    } else {
        None
    }
}

proof fn lemma_lookup_at<S>(entries: Seq<(String, S)>, i: int)
    requires
        keys_unique(entries),
        0 <= i < entries.len(),
    ensures
        lookup(entries, entries[i].0@) == Some(entries[i].1),
{
    let id = entries[i].0@;
    assert(has_key(entries, id));
    let j = choose|j: int| 0 <= j < entries.len() && (#[trigger] entries[j]).0@ == id;
    assert(j == i);
}

/// A table of values keyed by resource id, with at most one entry per id.
pub struct IdMap<S> {
    pub entries: Vec<(String, S)>,
}

impl<S> IdMap<S> {
    pub open spec fn wf(&self) -> bool {
        keys_unique(self.entries@)
    }

    /// The value recorded under `id`.
    pub open spec fn spec_get(&self, id: Seq<char>) -> Option<S> {
        lookup(self.entries@, id)
    }

    pub fn new() -> (r: Self)
        ensures
            r.wf(),
            forall|id: Seq<char>| r.spec_get(id).is_none(),
    {
        IdMap { entries: Vec::new() }
    }

    pub fn len(&self) -> (r: usize)
        ensures
            r == self.entries@.len(),
    {
        self.entries.len()
    }

    /// The value recorded under `id`, borrowed.
    pub fn get_ref(&self, id: &str) -> (r: Option<&S>)
        requires
            self.wf(),
        ensures
            match r {
                Some(v) => self.spec_get(id@) == Some(*v),
                None => self.spec_get(id@).is_none(),
            },
    {
        let key = id.to_owned();
        match self.find(&key) {
            Some(i) => {
                proof {
                    lemma_lookup_at(self.entries@, i as int);
                }
                Some(&self.entries[i].1)
            },
            None => None,
        }
    }

    fn find(&self, id: &String) -> (r: Option<usize>)
        requires
            self.wf(),
        ensures
            match r {
                Some(i) => i < self.entries@.len() && self.entries@[i as int].0@ == id@,
                None => !has_key(self.entries@, id@),
            },
    {
        let mut i: usize = 0;
        while i < self.entries.len()
            invariant
                i <= self.entries@.len(),
                forall|j: int| 0 <= j < i ==> (#[trigger] self.entries@[j]).0@ != id@,
            decreases self.entries@.len() - i,
        {
            if self.entries[i].0 == *id {
                return Some(i);
            }
            i = i + 1;
        }
        None
    }

}

impl<S: Copy> IdMap<S> {
    /// A copy of the value recorded under `id`.
    pub fn get(&self, id: &str) -> (r: Option<S>)
        requires
            self.wf(),
        ensures
            r == self.spec_get(id@),
    {
        let key = id.to_owned();
        match self.find(&key) {
            Some(i) => {
                proof {
                    lemma_lookup_at(self.entries@, i as int);
                }
                Some(self.entries[i].1)
            },
            None => None,
        }
    }

}

impl<S> IdMap<S> {
    /// Records `s` under `id`, replacing the entry for `id` or adding one.
    pub fn put(&mut self, id: &str, s: S)
        requires
            old(self).wf(),
        ensures
            final(self).wf(),
            final(self).spec_get(id@) == Some(s),
            forall|k: Seq<char>| k != id@ ==> final(self).spec_get(k) == old(self).spec_get(k),
    {
        let ghost old_entries = self.entries@;
        let key = id.to_owned();
        match self.find(&key) {
            Some(i) => {
                self.entries.set(i, (key, s));
                proof {
                    let e = self.entries@;
                    assert forall|a: int, b: int|
                        0 <= a < e.len() && 0 <= b < e.len() && a != b implies (#[trigger] e[a]).0@
                        != (#[trigger] e[b]).0@ by {
                        assert(old_entries[a].0@ == e[a].0@);
                        assert(old_entries[b].0@ == e[b].0@);
                    }
                    lemma_lookup_at(e, i as int);
                    assert forall|k: Seq<char>| k != id@ implies lookup(e, k) == lookup(
                        old_entries,
                        k,
                    ) by {
                        if has_key(old_entries, k) {
                            let j = choose|j: int|
                                0 <= j < old_entries.len() && (#[trigger] old_entries[j]).0@ == k;
                            lemma_lookup_at(old_entries, j);
                            lemma_lookup_at(e, j);
                        } else {
                            assert(!has_key(e, k)) by {
                                if has_key(e, k) {
                                    let j = choose|j: int|
                                        0 <= j < e.len() && (#[trigger] e[j]).0@ == k;
                                    assert(old_entries[j].0@ == k);
                                }
                            }
                        }
                    }
                }
            },
            None => {
                self.entries.push((key, s));
                proof {
                    let e = self.entries@;
                    let n = old_entries.len() as int;
                    assert forall|a: int, b: int|
                        0 <= a < e.len() && 0 <= b < e.len() && a != b implies (#[trigger] e[a]).0@
                        != (#[trigger] e[b]).0@ by {
                        if a < n && b < n {
                            assert(old_entries[a] == e[a]);
                            assert(old_entries[b] == e[b]);
                        } else if a == n {
                            assert(old_entries[b] == e[b]);
                        } else {
                            assert(old_entries[a] == e[a]);
                        }
                    }
                    lemma_lookup_at(e, n);
                    assert forall|k: Seq<char>| k != id@ implies lookup(e, k) == lookup(
                        old_entries,
                        k,
                    ) by {
                        if has_key(old_entries, k) {
                            let j = choose|j: int|
                                0 <= j < old_entries.len() && (#[trigger] old_entries[j]).0@ == k;
                            assert(e[j] == old_entries[j]);
                            lemma_lookup_at(old_entries, j);
                            lemma_lookup_at(e, j);
                        } else {
                            assert(!has_key(e, k)) by {
                                if has_key(e, k) {
                                    let j = choose|j: int|
                                        0 <= j < e.len() && (#[trigger] e[j]).0@ == k;
                                    if j < n {
                                        assert(e[j] == old_entries[j]);
                                    }
                                }
                            }
                        }
                    }
                }
            },
        }
    }

    /// Removes the entry for `id`, handing back its value.
    pub fn remove(&mut self, id: &str) -> (r: Option<S>)
        requires
            old(self).wf(),
        ensures
            final(self).wf(),
            r == old(self).spec_get(id@),
            final(self).spec_get(id@).is_none(),
            forall|k: Seq<char>| k != id@ ==> final(self).spec_get(k) == old(self).spec_get(k),
    {
        let ghost old_entries = self.entries@;
        let key = id.to_owned();
        match self.find(&key) {
            Some(i) => {
                proof {
                    lemma_lookup_at(old_entries, i as int);
                }
                let (_, v) = self.entries.remove(i);
                proof {
                    let e = self.entries@;
                    assert forall|a: int| 0 <= a < e.len() implies #[trigger] e[a] == old_entries[
                        if a < i { a } else { a + 1 }
                    ] by {}
                    assert forall|a: int, b: int|
                        0 <= a < e.len() && 0 <= b < e.len() && a != b implies (#[trigger] e[a]).0@
                        != (#[trigger] e[b]).0@ by {
                        let a2 = if a < i { a } else { a + 1 };
                        let b2 = if b < i { b } else { b + 1 };
                        assert(e[a] == old_entries[a2]);
                        assert(e[b] == old_entries[b2]);
                    }
                    assert(!has_key(e, id@)) by {
                        if has_key(e, id@) {
                            let j = choose|j: int| 0 <= j < e.len() && (#[trigger] e[j]).0@ == id@;
                            let j2 = if j < i { j } else { j + 1 };
                            assert(e[j] == old_entries[j2]);
                        }
                    }
                    assert forall|k: Seq<char>| k != id@ implies lookup(e, k) == lookup(
                        old_entries,
                        k,
                    ) by {
                        if has_key(old_entries, k) {
                            let j = choose|j: int|
                                0 <= j < old_entries.len() && (#[trigger] old_entries[j]).0@ == k;
                            assert(j != i);
                            let j2 = if j < i { j } else { j - 1 };
                            assert(e[j2] == old_entries[j]);
                            lemma_lookup_at(old_entries, j);
                            lemma_lookup_at(e, j2);
                        } else {
                            assert(!has_key(e, k)) by {
                                if has_key(e, k) {
                                    let j = choose|j: int|
                                        0 <= j < e.len() && (#[trigger] e[j]).0@ == k;
                                    let j2 = if j < i { j } else { j + 1 };
                                    assert(e[j] == old_entries[j2]);
                                }
                            }
                        }
                    }
                }
                Some(v)
            },
            None => None,
        }
    }
}

} // verus!
