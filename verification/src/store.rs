//! The context's snapshot store: a plain map from id to the last payload
//! the context assembled, kept beside (and eventually consistent with) the
//! bounded payload cache.
use vstd::prelude::*;
use crate::util::str_eq;

verus! {

/// No two entries share a key.
pub open spec fn store_keys_distinct<V>(e: Seq<(Seq<char>, V)>) -> bool {
    forall|i: int, j: int| 0 <= i < j < e.len() ==> (#[trigger] e[i]).0 != (#[trigger] e[j]).0
}

/// Some entry carries the key `k`.
pub open spec fn store_has<V>(e: Seq<(Seq<char>, V)>, k: Seq<char>) -> bool {
    exists|i: int| 0 <= i < e.len() && (#[trigger] e[i]).0 == k
}

/// The position of the entry carrying `k`.
pub open spec fn store_idx<V>(e: Seq<(Seq<char>, V)>, k: Seq<char>) -> int {
    choose|i: int| 0 <= i < e.len() && (#[trigger] e[i]).0 == k
}

/// The value stored under `k`.
pub open spec fn store_val<V>(e: Seq<(Seq<char>, V)>, k: Seq<char>) -> V {
    e[store_idx(e, k)].1
}

/// The store after a write of `v` under `k`: an update in place on a known
/// key, an append on a fresh one.
pub open spec fn store_upsert<V>(e: Seq<(Seq<char>, V)>, k: Seq<char>, v: V) -> Seq<
    (Seq<char>, V),
> {
    if store_has(e, k) {
        e.update(store_idx(e, k), (k, v))
    } else {
        e.push((k, v))
    }
}

/// An entry at position `i` witnesses its own key, uniquely so under
/// distinct keys.
pub proof fn lemma_store_at<V>(e: Seq<(Seq<char>, V)>, i: int)
    requires
        store_keys_distinct(e),
        0 <= i < e.len(),
    ensures
        store_has(e, e[i].0),
        store_idx(e, e[i].0) == i,
        store_val(e, e[i].0) == e[i].1,
{
    assert(store_has(e, e[i].0));
    let j = store_idx(e, e[i].0);
    assert(0 <= j < e.len() && e[j].0 == e[i].0);
    if i != j {
        assert(e[i].0 != e[j].0);
    }
}

/// A write leaves the keys distinct, stores exactly its value under its
/// key, and leaves every other key and value alone.
pub proof fn lemma_store_upsert<V>(e: Seq<(Seq<char>, V)>, k: Seq<char>, v: V)
    requires
        store_keys_distinct(e),
    ensures
        store_keys_distinct(store_upsert(e, k, v)),
        store_has(store_upsert(e, k, v), k),
        store_val(store_upsert(e, k, v), k) == v,
        forall|k2: Seq<char>|
            k2 != k ==> #[trigger] store_has(store_upsert(e, k, v), k2) == store_has(e, k2),
        forall|k2: Seq<char>|
            k2 != k && store_has(e, k2) ==> #[trigger] store_val(store_upsert(e, k, v), k2)
                == store_val(e, k2),
{
    let r = store_upsert(e, k, v);
    if store_has(e, k) {
        let i = store_idx(e, k);
        assert(0 <= i < e.len() && e[i].0 == k);
        assert(r.len() == e.len());
        assert(r[i] == (k, v));
        assert forall|j: int| 0 <= j < e.len() && j != i implies #[trigger] r[j] == e[j] by {}
        assert forall|p: int, q: int| 0 <= p < q < r.len() implies r[p].0 != r[q].0 by {
            assert(r[p].0 == e[p].0 && r[q].0 == e[q].0);
        }
        lemma_store_at(r, i);
        assert forall|k2: Seq<char>| k2 != k implies #[trigger] store_has(r, k2) == store_has(
            e,
            k2,
        ) by {
            if store_has(e, k2) {
                let j = store_idx(e, k2);
                assert(r[j].0 == k2);
                assert(store_has(r, k2));
            }
            if store_has(r, k2) {
                let j = store_idx(r, k2);
                assert(e[j].0 == k2);
                assert(store_has(e, k2));
            }
        }
        assert forall|k2: Seq<char>| k2 != k && store_has(e, k2) implies #[trigger] store_val(
            r,
            k2,
        ) == store_val(e, k2) by {
            let j = store_idx(e, k2);
            assert(0 <= j < e.len() && e[j].0 == k2 && j != i);
            assert(r[j] == e[j]);
            lemma_store_at(r, j);
            lemma_store_at(e, j);
        }
    } else {
        assert(r.len() == e.len() + 1);
        assert(r[e.len() as int] == (k, v));
        assert forall|j: int| 0 <= j < e.len() implies #[trigger] r[j] == e[j] by {}
        assert forall|p: int, q: int| 0 <= p < q < r.len() implies r[p].0 != r[q].0 by {
            if q == e.len() {
                assert(r[p] == e[p]);
                if e[p].0 == k {
                    assert(store_has(e, k));
                }
            } else {
                assert(r[p] == e[p] && r[q] == e[q]);
            }
        }
        lemma_store_at(r, e.len() as int);
        assert forall|k2: Seq<char>| k2 != k implies #[trigger] store_has(r, k2) == store_has(
            e,
            k2,
        ) by {
            if store_has(e, k2) {
                let j = store_idx(e, k2);
                assert(r[j].0 == k2);
                assert(store_has(r, k2));
            }
            if store_has(r, k2) {
                let j = store_idx(r, k2);
                assert(j != e.len());
                assert(e[j].0 == k2);
                assert(store_has(e, k2));
            }
        }
        assert forall|k2: Seq<char>| k2 != k && store_has(e, k2) implies #[trigger] store_val(
            r,
            k2,
        ) == store_val(e, k2) by {
            let j = store_idx(e, k2);
            assert(0 <= j < e.len() && e[j].0 == k2);
            assert(r[j] == e[j]);
            lemma_store_at(r, j);
            lemma_store_at(e, j);
        }
    }
}

/// One snapshot store: an association list with distinct keys.
pub struct SnapshotStore<V> {
    pairs: Vec<(String, V)>,
}

impl<V> SnapshotStore<V> {
    /// The entries of the store, in insertion order.
    pub closed spec fn entries(self) -> Seq<(Seq<char>, V)> {
        self.pairs@.map_values(|kv: (String, V)| (kv.0@, kv.1))
    }

    pub open spec fn wf(self) -> bool {
        store_keys_distinct(self.entries())
    }

    pub open spec fn has(self, k: Seq<char>) -> bool {
        store_has(self.entries(), k)
    }

    pub open spec fn val(self, k: Seq<char>) -> V {
        store_val(self.entries(), k)
    }

    /// An empty store.
    pub fn new() -> (r: Self)
        ensures
            r.wf(),
            r.entries() == Seq::<(Seq<char>, V)>::empty(),
    {
        let r = SnapshotStore { pairs: Vec::new() };
        proof {
            assert(r.entries() =~= Seq::<(Seq<char>, V)>::empty());
        }
        r
    }

    /// The number of snapshots held.
    pub fn len(&self) -> (r: usize)
        ensures
            r == self.entries().len(),
    {
        self.pairs.len()
    }

    /// A reference to the snapshot stored under `id`, if any.
    pub fn get(&self, id: &String) -> (r: Option<&V>)
        requires
            self.wf(),
        ensures
            match r {
                Some(v) => self.has(id@) && *v == self.val(id@),
                None => !self.has(id@),
            },
    {
        let mut i: usize = 0;
        while i < self.pairs.len()
            invariant
                self.wf(),
                0 <= i <= self.pairs@.len(),
                forall|j: int| 0 <= j < i ==> (#[trigger] self.entries()[j]).0 != id@,
                self.entries().len() == self.pairs@.len(),
            decreases self.pairs@.len() - i,
        {
            if str_eq(self.pairs[i].0.as_str(), id.as_str()) {
                proof {
                    assert(self.entries()[i as int].0 == id@);
                    lemma_store_at(self.entries(), i as int);
                }
                return Some(&self.pairs[i].1);
            }
            proof {
                assert(self.entries()[i as int].0 == self.pairs@[i as int].0@);
            }
            i += 1;
        }
        proof {
            if store_has(self.entries(), id@) {
                let j = store_idx(self.entries(), id@);
                assert(self.entries()[j].0 == id@);
            }
        }
        None
    }

    /// Stores `v` under `id`, replacing any previous snapshot.
    pub fn insert(&mut self, id: String, v: V)
        requires
            old(self).wf(),
        ensures
            final(self).wf(),
            final(self).entries() == store_upsert(old(self).entries(), id@, v),
    {
        proof {
            lemma_store_upsert(self.entries(), id@, v);
        }
        let ghost e0 = self.entries();
        let mut i: usize = 0;
        while i < self.pairs.len()
            invariant
                self.wf(),
                self.entries() == e0,
                e0 == old(self).entries(),
                0 <= i <= self.pairs@.len(),
                forall|j: int| 0 <= j < i ==> (#[trigger] self.entries()[j]).0 != id@,
                self.entries().len() == self.pairs@.len(),
            decreases self.pairs@.len() - i,
        {
            if str_eq(self.pairs[i].0.as_str(), id.as_str()) {
                proof {
                    assert(self.entries()[i as int].0 == id@);
                    lemma_store_at(self.entries(), i as int);
                }
                proof {
                    assert(e0[i as int].0 == id@);
                    assert(store_idx(e0, id@) == i as int);
                }
                let _ = self.pairs.remove(i);
                self.pairs.insert(i, (id, v));
                proof {
                    assert(e0 == old(self).entries());
                    assert(self.entries() =~= e0.update(i as int, (id@, v)));
                    assert(store_upsert(e0, id@, v) == e0.update(i as int, (id@, v)));
                    assert(self.entries() == store_upsert(old(self).entries(), id@, v));
                }
                return ;
            }
            proof {
                assert(self.entries()[i as int].0 == self.pairs@[i as int].0@);
            }
            i += 1;
        }
        proof {
            if store_has(e0, id@) {
                let j = store_idx(e0, id@);
                assert(e0[j].0 == id@);
            }
        }
        self.pairs.push((id, v));
        proof {
            assert(self.entries() =~= e0.push((id@, v)));
        }
    }
}

} // verus!
