use vstd::prelude::*;

verus! {

/// A map keyed by text: each key at most once, and inserting a key that is there
/// replaces its value.
#[derive(Debug)]
pub struct TextMap<V> {
    entries: Vec<(String, V)>,
}

impl<V> TextMap<V> {
    /// No key is held twice.
    pub closed spec fn wf(&self) -> bool {
        forall|i: int, j: int|
            0 <= i < j < self.entries@.len() ==> (#[trigger] self.entries@[i]).0@ != (
            #[trigger] self.entries@[j]).0@
    }

    /// Whether `k` is held.
    pub closed spec fn has(&self, k: Seq<char>) -> bool {
        exists|i: int| 0 <= i < self.entries@.len() && (#[trigger] self.entries@[i]).0@ == k
    }

    /// The value held for `k`, if any.
    pub closed spec fn get_spec(&self, k: Seq<char>) -> Option<V> {
        if self.has(k) {
            let i = choose|i: int|
                0 <= i < self.entries@.len() && (#[trigger] self.entries@[i]).0@ == k;
            Some(self.entries@[i].1)
        } else {
            None
        }
    }

    /// How many keys are held.
    pub closed spec fn len_spec(&self) -> nat {
        self.entries@.len()
    }

    pub fn new() -> (r: Self)
        ensures
            r.wf(),
            r.len_spec() == 0,
            forall|k: Seq<char>| #[trigger] r.get_spec(k) is None,
    {
        TextMap { entries: Vec::new() }
    }

    fn find(&self, key: &String) -> (r: Option<usize>)
        requires
            self.wf(),
        ensures
            r is Some <==> self.has(key@),
            r matches Some(i) ==> i < self.entries@.len() && self.entries@[i as int].0@ == key@
                && self.get_spec(key@) == Some(self.entries@[i as int].1),
    {
        let mut i: usize = 0;
        while i < self.entries.len()
            invariant
                self.wf(),
                i <= self.entries@.len(),
                forall|j: int| 0 <= j < i ==> (#[trigger] self.entries@[j]).0@ != key@,
            decreases self.entries@.len() - i,
        {
            if self.entries[i].0 == *key {
                proof {
                    let ii = i as int;
                    assert(self.entries@[ii].0@ == key@);
                    let c = choose|c: int|
                        0 <= c < self.entries@.len() && (#[trigger] self.entries@[c]).0@ == key@;
                    assert(0 <= c < self.entries@.len() && self.entries@[c].0@ == key@);
                    if c < ii {
                    } else if c > ii {
                        assert(self.entries@[ii].0@ != self.entries@[c].0@);
                    }
                }
                return Some(i);
            }
            i = i + 1;
        }
        None
    }

    /// Holds `value` for `key`, replacing what was held for it.
    pub fn insert(&mut self, key: String, value: V)
        requires
            old(self).wf(),
        ensures
            final(self).wf(),
            forall|k: Seq<char>|
                #[trigger] final(self).get_spec(k) == if k == key@ {
                    Some(value)
                } else {
                    old(self).get_spec(k)
                },
    {
        let ghost before = self.entries@;
        let ghost kk = key@;
        let found = self.find(&key);
        let ghost at: int = match found {
            Some(i) => i as int,
            None => before.len() as int,
        };
        match found {
            Some(i) => {
                self.entries.set(i, (key, value));
            },
            None => {
                self.entries.push((key, value));
            },
        }
        proof {
            let after = self.entries@;
            assert(after[at].0@ == kk);
            assert forall|i: int, j: int|
                0 <= i < j < after.len() implies (#[trigger] after[i]).0@ != (#[trigger] after[j]).0@ by {
                if i != at && j != at {
                    assert(after[i] == before[i] && after[j] == before[j]);
                } else if i == at {
                    if found is Some {
                        assert(after[j] == before[j]);
                        assert(before[at].0@ == kk);
                    } else {
                        assert(j < before.len());
                        assert(after[j] == before[j]);
                        assert(before[j].0@ != kk);
                    }
                } else {
                    assert(after[i] == before[i]);
                    if found is Some {
                        assert(before[at].0@ == kk);
                    } else {
                        assert(before[i].0@ != kk);
                    }
                }
            }
            assert forall|k: Seq<char>| #[trigger] self.get_spec(k) == if k == kk {
                Some(value)
            } else {
                old(self).get_spec(k)
            } by {
                if k == kk {
                    assert(self.has(k));
                    let c = choose|c: int|
                        0 <= c < after.len() && (#[trigger] after[c]).0@ == k;
                    if c != at {
                        assert(after[c].0@ != after[at].0@);
                    }
                } else {
                    if old(self).has(k) {
                        let c = choose|c: int|
                            0 <= c < before.len() && (#[trigger] before[c]).0@ == k;
                        assert(c != at);
                        assert(after[c] == before[c]);
                        assert(self.has(k));
                        let d = choose|d: int|
                            0 <= d < after.len() && (#[trigger] after[d]).0@ == k;
                        if d != c {
                            assert(after[d].0@ != after[c].0@);
                        }
                    } else {
                        if self.has(k) {
                            let d = choose|d: int|
                                0 <= d < after.len() && (#[trigger] after[d]).0@ == k;
                            assert(d != at);
                            assert(after[d] == before[d]);
                        }
                    }
                }
            }
        }
    }

    /// The value held for `key`, if any.
    pub fn get(&self, key: &String) -> (r: Option<&V>)
        requires
            self.wf(),
        ensures
            match self.get_spec(key@) {
                Some(v) => (r matches Some(x) && *x == v),
                None => r is None,
            },
    {
        match self.find(key) {
            Some(i) => Some(&self.entries[i].1),
            None => None,
        }
    }

    pub fn contains_key(&self, key: &String) -> (r: bool)
        requires
            self.wf(),
        ensures
            r == self.get_spec(key@) is Some,
    {
        self.find(key).is_some()
    }

    pub fn len(&self) -> (r: usize)
        ensures
            r == self.len_spec(),
    {
        self.entries.len()
    }
}

} // verus!
