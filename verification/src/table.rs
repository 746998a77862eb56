//! Keyed tables of resources.
//!
//! Both the persistent-store model and the in-memory registry caches hold
//! resources in tables keyed by the resource's unique identifier.  The
//! table keeps at most one entry per key.

use vstd::prelude::*;

verus! {

/// A resource that can be held in a keyed table.
///
/// The key of an entry is a function of its view alone, so an
/// identical-reading copy keeps the key.
pub trait Storable: View + Sized {
    /// The key under which a value with this view is filed.
    spec fn key_of(v: Self::V) -> Seq<char>;

    /// The key of this value.
    fn table_key(&self) -> (r: String)
        ensures
            r@ == Self::key_of(self@),
    ;

    /// An identical-reading copy of this value.
    fn duplicate(&self) -> (r: Self)
        ensures
            r@ == self@,
    ;
}

/// A table of resources with at most one entry per key.
pub struct ResourceTable<T> {
    /// The entries, in insertion order.
    pub entries: Vec<T>,
}

impl<T: Storable> ResourceTable<T> {
    /// Well-formed: no two entries share a key.
    pub open spec fn wf(self) -> bool {
        forall|i: int, j: int|
            0 <= i < j < self.entries@.len() ==> T::key_of(self.entries@[i]@) != T::key_of(
                self.entries@[j]@,
            )
    }

    /// The views of the entries, in table order.
    pub open spec fn views(self) -> Seq<T::V> {
        self.entries@.map_values(|t: T| t@)
    }

    /// Whether some entry is filed under the key.
    pub open spec fn has_key(self, k: Seq<char>) -> bool {
        exists|i: int| 0 <= i < self.entries@.len() && T::key_of(#[trigger] self.entries@[i]@) == k
    }

    /// The view of the entry filed under the key, if any.
    pub open spec fn spec_get(self, k: Seq<char>) -> Option<T::V> {
        if self.has_key(k) {
            let i = choose|i: int|
                0 <= i < self.entries@.len() && T::key_of(#[trigger] self.entries@[i]@) == k;
            Some(self.entries@[i]@)
        } else {
            None
        }
    }

    /// In a well-formed table, any entry whose key is `k` is the one
    /// `spec_get` returns.
    pub proof fn lemma_get_at(self, k: Seq<char>, i: int)
        requires
            self.wf(),
            0 <= i < self.entries@.len(),
            T::key_of(self.entries@[i]@) == k,
        ensures
            self.spec_get(k) == Some(self.entries@[i]@),
    {
        assert(self.has_key(k));
        let j = choose|j: int|
            0 <= j < self.entries@.len() && T::key_of(#[trigger] self.entries@[j]@) == k;
        if i < j {
            assert(T::key_of(self.entries@[i]@) != T::key_of(self.entries@[j]@));
        } else if j < i {
            assert(T::key_of(self.entries@[j]@) != T::key_of(self.entries@[i]@));
        }
    }

    /// An empty table.
    pub fn new() -> (r: ResourceTable<T>)
        ensures
            r.wf(),
            r.entries@.len() == 0,
            forall|k: Seq<char>| !r.has_key(k),
    {
        ResourceTable { entries: Vec::new() }
    }

    /// Number of entries.
    pub fn len(&self) -> (r: usize)
        ensures
            r == self.entries@.len(),
    {
        self.entries.len()
    }

    /// The position of the entry filed under the key, if any.
    pub fn find_index(&self, key: &String) -> (r: Option<usize>)
        ensures
            match r {
                Some(i) => i < self.entries@.len() && T::key_of(self.entries@[i as int]@) == key@,
                None => !self.has_key(key@),
            },
    {
        let mut i: usize = 0;
        while i < self.entries.len()
            invariant
                i <= self.entries@.len(),
                forall|j: int| 0 <= j < i ==> T::key_of(#[trigger] self.entries@[j]@) != key@,
            decreases self.entries@.len() - i,
        {
            let k = self.entries[i].table_key();
            if k == *key {
                return Some(i);
            }
            i = i + 1;
        }
        None
    }

    /// A borrowed look at the entry filed under the key.
    pub fn get(&self, key: &String) -> (r: Option<&T>)
        requires
            self.wf(),
        ensures
            r is Some <==> self.has_key(key@),
            match r {
                Some(t) => self.spec_get(key@) == Some(t@),
                None => self.spec_get(key@) is None,
            },
    {
        match self.find_index(key) {
            Some(i) => {
                proof {
                    self.lemma_get_at(key@, i as int);
                }
                Some(&self.entries[i])
            },
            None => None,
        }
    }

    /// An owned copy of the entry filed under the key.
    pub fn get_cloned(&self, key: &String) -> (r: Option<T>)
        requires
            self.wf(),
        ensures
            r is Some <==> self.has_key(key@),
            match r {
                Some(t) => self.spec_get(key@) == Some(t@),
                None => self.spec_get(key@) is None,
            },
    {
        match self.get(key) {
            Some(t) => Some(t.duplicate()),
            None => None,
        }
    }

    /// File a value, replacing any entry that shares its key.
    pub fn insert(&mut self, t: T)
        requires
            old(self).wf(),
        ensures
            final(self).wf(),
            final(self).has_key(T::key_of(t@)),
            final(self).spec_get(T::key_of(t@)) == Some(t@),
            forall|k: Seq<char>| k != T::key_of(t@) ==> #[trigger] final(self).spec_get(k)
                == old(self).spec_get(k),
            forall|k: Seq<char>| k != T::key_of(t@) ==> (#[trigger] final(self).has_key(k)
                <==> old(self).has_key(k)),
            final(self).entries@.len() == if old(self).has_key(T::key_of(t@)) {
                old(self).entries@.len()
            } else {
                old(self).entries@.len() + 1
            },
    {
        let ghost tk = T::key_of(t@);
        let ghost told = *old(self);
        let key = t.table_key();
        match self.find_index(&key) {
            Some(i) => {
                self.entries.set(i, t);
                proof {
                    assert forall|k: Seq<char>| k != tk implies #[trigger] self.spec_get(k)
                        == told.spec_get(k) && (self.has_key(k) <==> told.has_key(k)) by {
                        if told.has_key(k) {
                            let j = choose|j: int|
                                0 <= j < told.entries@.len() && T::key_of(
                                    #[trigger] told.entries@[j]@,
                                ) == k;
                            assert(j != i);
                            assert(T::key_of(self.entries@[j]@) == k);
                            assert(self.has_key(k));
                            told.lemma_get_at(k, j);
                            self.lemma_get_at(k, j);
                        } else {
                            if self.has_key(k) {
                                let j = choose|j: int|
                                    0 <= j < self.entries@.len() && T::key_of(
                                        #[trigger] self.entries@[j]@,
                                    ) == k;
                                assert(j != i);
                                assert(T::key_of(told.entries@[j]@) == k);
                            }
                        }
                    }
                    self.lemma_get_at(tk, i as int);
                    assert forall|k: Seq<char>| k != tk implies (#[trigger] self.has_key(k)
                        <==> told.has_key(k)) by {
                        assert(self.spec_get(k) == told.spec_get(k));
                    }
                }
            },
            None => {
                self.entries.push(t);
                proof {
                    let n = told.entries@.len() as int;
                    assert(self.entries@[n]@ == t@);
                    assert(self.has_key(tk));
                    self.lemma_get_at(tk, n);
                    assert forall|k: Seq<char>| k != tk implies #[trigger] self.spec_get(k)
                        == told.spec_get(k) && (self.has_key(k) <==> told.has_key(k)) by {
                        if told.has_key(k) {
                            let j = choose|j: int|
                                0 <= j < told.entries@.len() && T::key_of(
                                    #[trigger] told.entries@[j]@,
                                ) == k;
                            assert(T::key_of(self.entries@[j]@) == k);
                            told.lemma_get_at(k, j);
                            self.lemma_get_at(k, j);
                        } else {
                            if self.has_key(k) {
                                let j = choose|j: int|
                                    0 <= j < self.entries@.len() && T::key_of(
                                        #[trigger] self.entries@[j]@,
                                    ) == k;
                                assert(j != n);
                                assert(T::key_of(told.entries@[j]@) == k);
                            }
                        }
                    }
                    assert forall|k: Seq<char>| k != tk implies (#[trigger] self.has_key(k)
                        <==> told.has_key(k)) by {
                        assert(self.spec_get(k) == told.spec_get(k));
                    }
                }
            },
        }
    }

    /// An identical-reading copy of the whole table.
    pub fn clone_table(&self) -> (r: ResourceTable<T>)
        requires
            self.wf(),
        ensures
            r.wf(),
            r.entries@.len() == self.entries@.len(),
            forall|i: int| 0 <= i < self.entries@.len() ==> #[trigger] r.entries@[i]@
                == self.entries@[i]@,
            forall|k: Seq<char>| #[trigger] r.spec_get(k) == self.spec_get(k),
            forall|k: Seq<char>| (#[trigger] r.has_key(k) <==> self.has_key(k)),
    {
        let mut entries: Vec<T> = Vec::new();
        let mut i: usize = 0;
        while i < self.entries.len()
            invariant
                i <= self.entries@.len(),
                entries@.len() == i,
                forall|j: int| 0 <= j < i ==> #[trigger] entries@[j]@ == self.entries@[j]@,
            decreases self.entries@.len() - i,
        {
            entries.push(self.entries[i].duplicate());
            i = i + 1;
        }
        let r = ResourceTable { entries };
        proof {
            assert forall|a: int, b: int|
                0 <= a < b < r.entries@.len() implies T::key_of(r.entries@[a]@) != T::key_of(
                r.entries@[b]@,
            ) by {
                assert(r.entries@[a]@ == self.entries@[a]@);
                assert(r.entries@[b]@ == self.entries@[b]@);
            }
            assert forall|k: Seq<char>| (#[trigger] r.has_key(k) <==> self.has_key(k)) by {
                if r.has_key(k) {
                    let j = choose|j: int|
                        0 <= j < r.entries@.len() && T::key_of(#[trigger] r.entries@[j]@) == k;
                    assert(T::key_of(self.entries@[j]@) == k);
                }
                if self.has_key(k) {
                    let j = choose|j: int|
                        0 <= j < self.entries@.len() && T::key_of(
                            #[trigger] self.entries@[j]@,
                        ) == k;
                    assert(T::key_of(r.entries@[j]@) == k);
                }
            }
            assert forall|k: Seq<char>| #[trigger] r.spec_get(k) == self.spec_get(k) by {
                if self.has_key(k) {
                    let j = choose|j: int|
                        0 <= j < self.entries@.len() && T::key_of(
                            #[trigger] self.entries@[j]@,
                        ) == k;
                    assert(T::key_of(r.entries@[j]@) == k);
                    self.lemma_get_at(k, j);
                    r.lemma_get_at(k, j);
                }
            }
        }
        r
    }

    /// Remove and hand back the entry filed under the key, if any.
    pub fn remove_key(&mut self, key: &String) -> (r: Option<T>)
        requires
            old(self).wf(),
        ensures
            final(self).wf(),
            !final(self).has_key(key@),
            r is Some <==> old(self).has_key(key@),
            match r {
                Some(t) => old(self).spec_get(key@) == Some(t@),
                None => old(self).spec_get(key@) is None,
            },
            forall|k: Seq<char>| k != key@ ==> #[trigger] final(self).spec_get(k) == old(
                self,
            ).spec_get(k),
            forall|k: Seq<char>| k != key@ ==> (#[trigger] final(self).has_key(k) <==> old(
                self,
            ).has_key(k)),
            final(self).entries@.len() == if old(self).has_key(key@) {
                old(self).entries@.len() - 1
            } else {
                old(self).entries@.len() as int
            },
    {
        let ghost told = *old(self);
        match self.find_index(key) {
            Some(i) => {
                let t = self.entries.remove(i);
                proof {
                    told.lemma_get_at(key@, i as int);
                    let oldlen = told.entries@.len() as int;
                    assert forall|k: Seq<char>|
                        self.has_key(k) implies k != key@ && told.has_key(k) by {
                        let j = choose|j: int|
                            0 <= j < self.entries@.len() && T::key_of(
                                #[trigger] self.entries@[j]@,
                            ) == k;
                        let jo = if j < i {
                            j
                        } else {
                            j + 1
                        };
                        assert(T::key_of(told.entries@[jo]@) == k);
                        if jo < i {
                            assert(T::key_of(told.entries@[jo]@) != T::key_of(
                                told.entries@[i as int]@,
                            ));
                        } else {
                            assert(T::key_of(told.entries@[i as int]@) != T::key_of(
                                told.entries@[jo]@,
                            ));
                        }
                    }
                    assert forall|k: Seq<char>| k != key@ implies (#[trigger] self.has_key(k)
                        <==> told.has_key(k)) && self.spec_get(k) == told.spec_get(k) by {
                        if told.has_key(k) {
                            let j = choose|j: int|
                                0 <= j < told.entries@.len() && T::key_of(
                                    #[trigger] told.entries@[j]@,
                                ) == k;
                            assert(j != i);
                            let jn = if j < i {
                                j
                            } else {
                                j - 1
                            };
                            assert(T::key_of(self.entries@[jn]@) == k);
                            told.lemma_get_at(k, j);
                            self.lemma_get_at(k, jn);
                        }
                    }
                }
                Some(t)
            },
            None => None,
        }
    }
}

} // verus!
