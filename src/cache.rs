use vstd::prelude::*;
use crate::execution::GateCacheKey;

verus! {

/// A key's contents: its gate name's characters and its parameter bits.
pub open spec fn key_view(k: GateCacheKey) -> (Seq<char>, u64) {
    (k.gate_name@, k.parameter_bits)
}

/// A memoized gate matrix.
pub struct CacheEntry<V> {
    pub key: GateCacheKey,
    pub value: V,
}

fn same_key(a: &GateCacheKey, b: &GateCacheKey) -> (r: bool)
    ensures
        r == (key_view(*a) == key_view(*b)),
{
    a.parameter_bits == b.parameter_bits && a.gate_name == b.gate_name
}

/// A bounded memo of gate matrices. When full, a new key evicts the entry
/// that has been there longest.
pub struct GateMatrixCache<V> {
    entries: Vec<CacheEntry<V>>,
    max_entries: usize,
}

impl<V: Clone> GateMatrixCache<V> {
    pub closed spec fn spec_entries(&self) -> Seq<CacheEntry<V>> {
        self.entries@
    }

    pub closed spec fn capacity(&self) -> nat {
        self.max_entries as nat
    }

    /// At most `capacity` entries, no key twice.
    pub open spec fn wf(&self) -> bool {
        &&& self.spec_entries().len() <= self.capacity()
        &&& forall|i: int, j: int| 0 <= i < j < self.spec_entries().len()
            ==> key_view(#[trigger] self.spec_entries()[i].key) != key_view(#[trigger] self.spec_entries()[j].key)
    }

    /// Whether some entry has a key with these contents.
    pub open spec fn holds(&self, k: (Seq<char>, u64)) -> bool {
        exists|i: int| 0 <= i < self.spec_entries().len() && key_view(#[trigger] self.spec_entries()[i].key) == k
    }

    pub fn new(max_entries: usize) -> (r: Self)
        ensures
            r.wf(),
            r.spec_entries().len() == 0,
            r.capacity() == max_entries,
    {
        GateMatrixCache { entries: Vec::new(), max_entries }
    }

    fn position(&self, key: &GateCacheKey) -> (r: Option<usize>)
        requires
            self.wf(),
        ensures
            r.is_none() <==> !self.holds(key_view(*key)),
            r.is_some() ==> r.unwrap() < self.spec_entries().len()
                && key_view(self.spec_entries()[r.unwrap() as int].key) == key_view(*key),
    {
        let mut i: usize = 0;
        while i < self.entries.len()
            invariant
                i <= self.spec_entries().len(),
                forall|j: int| 0 <= j < i ==> key_view(#[trigger] self.spec_entries()[j].key) != key_view(*key),
            decreases self.spec_entries().len() - i,
        {
            if same_key(&self.entries[i].key, key) {
                return Some(i);
            }
            i = i + 1;
        }
        None
    }

    /// A copy of the matrix stored under the key, if any.
    pub fn get(&self, key: &GateCacheKey) -> (r: Option<V>)
        requires
            self.wf(),
        ensures
            r.is_some() <==> self.holds(key_view(*key)),
            r.is_some() ==> exists|i: int| 0 <= i < self.spec_entries().len()
                && key_view(#[trigger] self.spec_entries()[i].key) == key_view(*key)
                && cloned(self.spec_entries()[i].value, r.unwrap()),
    {
        match self.position(key) {
            Some(i) => Some(self.entries[i].value.clone()),
            None => None,
        }
    }

    /// Stores a matrix under the key: an entry with the same key is
    /// replaced in place; a new key evicts the oldest entry when the cache
    /// is full. A cache of capacity 0 stores nothing.
    pub fn insert(&mut self, key: GateCacheKey, matrix: V)
        requires
            old(self).wf(),
        ensures
            final(self).wf(),
            final(self).capacity() == old(self).capacity(),
            old(self).capacity() > 0 ==> final(self).holds(key_view(key)),
            old(self).holds(key_view(key)) ==> final(self).spec_entries().len() == old(self).spec_entries().len(),
            old(self).capacity() > 0 && !old(self).holds(key_view(key)) ==> {
                let kept = if old(self).spec_entries().len() >= old(self).capacity() {
                    old(self).spec_entries().drop_first()
                } else {
                    old(self).spec_entries()
                };
                final(self).spec_entries() == kept.push(CacheEntry { key, value: matrix })
            },
    {
        if self.max_entries == 0 {
            return;
        }
        match self.position(&key) {
            Some(i) => {
                let ghost before = self.entries@;
                self.entries.set(i, CacheEntry { key, value: matrix });
                proof {
                    let after = self.entries@;
                    assert forall|a: int, b: int| 0 <= a < b < after.len() implies
                        key_view(#[trigger] after[a].key) != key_view(#[trigger] after[b].key) by {
                        assert(key_view(before[a].key) != key_view(before[b].key));
                    }
                    assert(key_view(after[i as int].key) == key_view(key));
                }
            },
            None => {
                if self.entries.len() >= self.max_entries {
                    let _oldest = self.entries.remove(0);
                }
                let ghost mid = self.entries@;
                self.entries.push(CacheEntry { key, value: matrix });
                proof {
                    let after = self.entries@;
                    assert forall|a: int, b: int| 0 <= a < b < after.len() implies
                        key_view(#[trigger] after[a].key) != key_view(#[trigger] after[b].key) by {
                        if b == after.len() - 1 {
                            assert(after[b].key == key);
                            if old(self).entries@.len() >= old(self).max_entries {
                                assert(after[a] == old(self).entries@[a + 1]);
                            } else {
                                assert(after[a] == old(self).entries@[a]);
                            }
                        } else if old(self).entries@.len() >= old(self).max_entries {
                            assert(after[a] == old(self).entries@[a + 1]);
                            assert(after[b] == old(self).entries@[b + 1]);
                        } else {
                            assert(after[a] == old(self).entries@[a]);
                            assert(after[b] == old(self).entries@[b]);
                        }
                    }
                    assert(key_view(after[after.len() - 1].key) == key_view(key));
                    if old(self).entries@.len() >= old(self).max_entries {
                        assert(mid =~= old(self).entries@.drop_first());
                    }
                }
            },
        }
    }

    pub fn len(&self) -> (r: usize)
        ensures
            r == self.spec_entries().len(),
    {
        self.entries.len()
    }

    pub fn is_empty(&self) -> (r: bool)
        ensures
            r == (self.spec_entries().len() == 0),
    {
        self.entries.len() == 0
    }

    pub fn clear(&mut self)
        ensures
            final(self).wf(),
            final(self).spec_entries().len() == 0,
            final(self).capacity() == old(self).capacity(),
    {
        self.entries.clear();
    }
}

} // verus!
