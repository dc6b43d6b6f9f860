//! Bounded least-recently-used payload cache, one instance per entity kind.
//!
//! The storage is `lru::LruCache`, kept behind a small trusted boundary. Its
//! state is modelled as an association list of `(key, payload)` entries in
//! most-recently-used-first order, and every operation's effect on that list
//! is stated exactly; the lemmas below derive the cache laws (read after
//! write, miss after invalidation, eviction of exactly the least recently
//! used entry) from those statements.
use vstd::prelude::*;
use std::collections::hash_map::RandomState;
use std::num::NonZeroUsize;
use crate::schemas::payload::Payload;

verus! {

/// Declares `lru::LruCache` so that values of it can be held and passed
/// around; what it holds is modelled by the two names below.
#[verifier::external_type_specification]
#[verifier::external_body]
#[verifier::reject_recursive_types(K)]
#[verifier::reject_recursive_types(V)]
#[verifier::reject_recursive_types(S)]
pub struct ExLruCache<K, V, S>(lru::LruCache<K, V, S>);

/// The entries held by an lru cache, most recently used first.
pub uninterp spec fn lru_entries(
    c: lru::LruCache<String, Payload, RandomState>,
) -> Seq<(Seq<char>, Payload)>;

/// The fixed capacity that an lru cache was constructed with.
pub uninterp spec fn lru_limit(c: lru::LruCache<String, Payload, RandomState>) -> nat;

/// No two entries share a key.
pub open spec fn keys_distinct(e: Seq<(Seq<char>, Payload)>) -> bool {
    forall|i: int, j: int| 0 <= i < j < e.len() ==> (#[trigger] e[i]).0 != (#[trigger] e[j]).0
}

/// Some entry carries the key `k`.
pub open spec fn has_key(e: Seq<(Seq<char>, Payload)>, k: Seq<char>) -> bool {
    exists|i: int| 0 <= i < e.len() && (#[trigger] e[i]).0 == k
}

/// The position of the entry carrying `k`; meaningful when `has_key` holds
/// and the keys are distinct.
pub open spec fn idx_of(e: Seq<(Seq<char>, Payload)>, k: Seq<char>) -> int {
    choose|i: int| 0 <= i < e.len() && (#[trigger] e[i]).0 == k
}

/// The payload stored under `k`.
pub open spec fn value_of(e: Seq<(Seq<char>, Payload)>, k: Seq<char>) -> Payload {
    e[idx_of(e, k)].1
}

/// The list with the entry for `k` taken out, or room made at the tail when
/// a fresh key arrives at capacity.
pub open spec fn strip_for(
    e: Seq<(Seq<char>, Payload)>,
    cap: nat,
    k: Seq<char>,
) -> Seq<(Seq<char>, Payload)> {
    if has_key(e, k) {
        e.remove(idx_of(e, k))
    } else if e.len() >= cap {
        e.drop_last()
    } else {
        e
    }
}

/// The list after a store of `v` under `k`: the new entry moves to the
/// front; a fresh key arriving at capacity pushes the last (least recently
/// used) entry out.
pub open spec fn insert_front(
    e: Seq<(Seq<char>, Payload)>,
    cap: nat,
    k: Seq<char>,
    v: Payload,
) -> Seq<(Seq<char>, Payload)> {
    seq![(k, v)] + strip_for(e, cap, k)
}

/// The list after a read of `k`: a hit moves the entry to the front, a miss
/// changes nothing.
pub open spec fn promote(e: Seq<(Seq<char>, Payload)>, k: Seq<char>) -> Seq<
    (Seq<char>, Payload),
> {
    if has_key(e, k) {
        seq![e[idx_of(e, k)]] + e.remove(idx_of(e, k))
    } else {
        e
    }
}

/// The list after an invalidation of `k`: the entry is dropped if present.
pub open spec fn remove_key(e: Seq<(Seq<char>, Payload)>, k: Seq<char>) -> Seq<
    (Seq<char>, Payload),
> {
    if has_key(e, k) {
        e.remove(idx_of(e, k))
    } else {
        e
    }
}

/// A hit at position `i` is a witness for `has_key`, and under distinct keys
/// the position is unique.
pub proof fn lemma_key_at(e: Seq<(Seq<char>, Payload)>, i: int)
    requires
        keys_distinct(e),
        0 <= i < e.len(),
    ensures
        has_key(e, e[i].0),
        idx_of(e, e[i].0) == i,
        value_of(e, e[i].0) == e[i].1,
{
    assert(has_key(e, e[i].0));
    let j = idx_of(e, e[i].0);
    assert(0 <= j < e.len() && e[j].0 == e[i].0);
    if i != j {
        assert(e[i].0 != e[j].0);
    }
}

/// When `has_key` holds, `idx_of` points at the entry for that key.
pub proof fn lemma_idx_of(e: Seq<(Seq<char>, Payload)>, k: Seq<char>)
    requires
        has_key(e, k),
    ensures
        0 <= idx_of(e, k) < e.len(),
        e[idx_of(e, k)].0 == k,
{
}

/// Positional description of `e.remove(i)`.
pub proof fn lemma_remove_entry(e: Seq<(Seq<char>, Payload)>, i: int)
    requires
        keys_distinct(e),
        0 <= i < e.len(),
    ensures
        e.remove(i).len() == e.len() - 1,
        forall|j: int| 0 <= j < i ==> #[trigger] e.remove(i)[j] == e[j],
        forall|j: int| i <= j < e.len() - 1 ==> #[trigger] e.remove(i)[j] == e[j + 1],
        keys_distinct(e.remove(i)),
        !has_key(e.remove(i), e[i].0),
        forall|k2: Seq<char>|
            k2 != e[i].0 ==> #[trigger] has_key(e.remove(i), k2) == has_key(e, k2),
        forall|k2: Seq<char>|
            k2 != e[i].0 && has_key(e, k2) ==> #[trigger] value_of(e.remove(i), k2) == value_of(
                e,
                k2,
            ),
{
    let x = e.remove(i);
    assert forall|j: int| 0 <= j < x.len() implies (#[trigger] x[j]) == (if j < i {
        e[j]
    } else {
        e[j + 1]
    }) by {}
    assert forall|p: int, q: int| 0 <= p < q < x.len() implies x[p].0 != x[q].0 by {
        let ep = if p < i { p } else { p + 1 };
        let eq = if q < i { q } else { q + 1 };
        assert(x[p] == e[ep] && x[q] == e[eq]);
    }
    assert forall|j: int| 0 <= j < x.len() implies x[j].0 != e[i].0 by {
        let ej = if j < i { j } else { j + 1 };
        assert(x[j] == e[ej] && ej != i);
    }
    if has_key(x, e[i].0) {
        let j = idx_of(x, e[i].0);
        assert(x[j].0 == e[i].0);
    }
    assert forall|k2: Seq<char>| k2 != e[i].0 implies #[trigger] has_key(x, k2) == has_key(
        e,
        k2,
    ) by {
        if has_key(e, k2) {
            let j = idx_of(e, k2);
            assert(e[j].0 == k2 && j != i);
            let xj = if j < i { j } else { j - 1 };
            assert(x[xj] == e[j]);
            assert(has_key(x, k2));
        }
        if has_key(x, k2) {
            let j = idx_of(x, k2);
            let ej = if j < i { j } else { j + 1 };
            assert(x[j] == e[ej]);
            assert(has_key(e, k2));
        }
    }
    assert forall|k2: Seq<char>| k2 != e[i].0 && has_key(e, k2) implies #[trigger] value_of(
        x,
        k2,
    ) == value_of(e, k2) by {
        let j = idx_of(e, k2);
        lemma_idx_of(e, k2);
        let xj = if j < i { j } else { j - 1 };
        assert(x[xj] == e[j]);
        lemma_key_at(x, xj);
        lemma_key_at(e, j);
    }
}

/// Positional description of `e.drop_last()`.
pub proof fn lemma_drop_last_entry(e: Seq<(Seq<char>, Payload)>)
    requires
        keys_distinct(e),
        e.len() >= 1,
    ensures
        e.drop_last() == e.remove(e.len() - 1),
{
    assert(e.drop_last() =~= e.remove(e.len() - 1));
}

/// A store under a key: the stored payload is readable right back, the
/// other keys keep their payloads, except that a fresh key arriving at
/// capacity evicts exactly the least recently used entry.
pub proof fn lemma_insert_front(e: Seq<(Seq<char>, Payload)>, cap: nat, k: Seq<char>, v: Payload)
    requires
        keys_distinct(e),
        e.len() <= cap,
        1 <= cap,
    ensures
        keys_distinct(insert_front(e, cap, k, v)),
        insert_front(e, cap, k, v).len() <= cap,
        has_key(insert_front(e, cap, k, v), k),
        value_of(insert_front(e, cap, k, v), k) == v,
        insert_front(e, cap, k, v)[0] == (k, v),
        // an update or an insert below capacity keeps every other key
        (has_key(e, k) || e.len() < cap) ==> forall|k2: Seq<char>|
            k2 != k ==> #[trigger] has_key(insert_front(e, cap, k, v), k2) == has_key(e, k2),
        (has_key(e, k) || e.len() < cap) ==> forall|k2: Seq<char>|
            k2 != k && has_key(e, k2) ==> #[trigger] value_of(insert_front(e, cap, k, v), k2)
                == value_of(e, k2),
        // a fresh key at capacity evicts exactly the last entry
        (!has_key(e, k) && e.len() == cap) ==> {
            &&& !has_key(insert_front(e, cap, k, v), e.last().0)
            &&& forall|k2: Seq<char>|
                k2 != k && k2 != e.last().0 ==> #[trigger] has_key(insert_front(e, cap, k, v), k2)
                    == has_key(e, k2)
            &&& forall|k2: Seq<char>|
                k2 != k && k2 != e.last().0 && has_key(e, k2) ==> #[trigger] value_of(
                    insert_front(e, cap, k, v),
                    k2,
                ) == value_of(e, k2)
        },
{
    let s = strip_for(e, cap, k);
    let r = insert_front(e, cap, k, v);
    // positional description of s and the facts it carries
    if has_key(e, k) {
        lemma_idx_of(e, k);
        lemma_remove_entry(e, idx_of(e, k));
    } else if e.len() >= cap {
        lemma_drop_last_entry(e);
        lemma_key_at(e, e.len() - 1);
        lemma_remove_entry(e, e.len() - 1);
    }
    assert(!has_key(s, k)) by {
        if has_key(s, k) {
            let j = idx_of(s, k);
            assert(s[j].0 == k);
            if !has_key(e, k) && e.len() >= cap {
                assert(s[j] == e.remove(e.len() - 1)[j]);
            }
            if !has_key(e, k) && e.len() < cap {
                assert(has_key(e, k));
            }
        }
    }
    assert(r.len() == s.len() + 1);
    assert(r[0] == (k, v));
    assert forall|j: int| 0 <= j < s.len() implies #[trigger] r[j + 1] == s[j] by {}
    assert(keys_distinct(r)) by {
        assert forall|p: int, q: int| 0 <= p < q < r.len() implies r[p].0 != r[q].0 by {
            if p == 0 {
                assert(r[q] == s[q - 1]);
                if s[q - 1].0 == k {
                    lemma_key_at(s, q - 1);
                }
            } else {
                assert(r[p] == s[p - 1] && r[q] == s[q - 1]);
            }
        }
    }
    lemma_key_at(r, 0);
    // carry has/value facts from s up through the prepend
    assert forall|k2: Seq<char>| k2 != k implies #[trigger] has_key(r, k2) == has_key(s, k2) by {
        if has_key(s, k2) {
            let j = idx_of(s, k2);
            assert(r[j + 1] == s[j]);
            assert(has_key(r, k2));
        }
        if has_key(r, k2) {
            let j = idx_of(r, k2);
            assert(r[j].0 == k2 && j != 0);
            assert(s[j - 1] == r[j]);
            assert(has_key(s, k2));
        }
    }
    assert forall|k2: Seq<char>| k2 != k && has_key(s, k2) implies #[trigger] value_of(r, k2)
        == value_of(s, k2) by {
        lemma_idx_of(s, k2);
        let j = idx_of(s, k2);
        assert(r[j + 1] == s[j]);
        lemma_key_at(r, j + 1);
        lemma_key_at(s, j);
    }
}

/// A read hit reorders the entries but changes no key and no payload.
pub proof fn lemma_promote(e: Seq<(Seq<char>, Payload)>, k: Seq<char>)
    requires
        keys_distinct(e),
    ensures
        keys_distinct(promote(e, k)),
        promote(e, k).len() == e.len(),
        forall|k2: Seq<char>| #[trigger] has_key(promote(e, k), k2) == has_key(e, k2),
        forall|k2: Seq<char>|
            has_key(e, k2) ==> #[trigger] value_of(promote(e, k), k2) == value_of(e, k2),
{
    if has_key(e, k) {
        lemma_idx_of(e, k);
        let i = idx_of(e, k);
        let s = e.remove(i);
        let r = promote(e, k);
        lemma_remove_entry(e, i);
        assert(r.len() == s.len() + 1);
        assert(r[0] == e[i]);
        assert forall|j: int| 0 <= j < s.len() implies #[trigger] r[j + 1] == s[j] by {}
        assert(keys_distinct(r)) by {
            assert forall|p: int, q: int| 0 <= p < q < r.len() implies r[p].0 != r[q].0 by {
                if p == 0 {
                    assert(r[q] == s[q - 1]);
                    if s[q - 1].0 == k {
                        lemma_key_at(s, q - 1);
                    }
                } else {
                    assert(r[p] == s[p - 1] && r[q] == s[q - 1]);
                }
            }
        }
        lemma_key_at(r, 0);
        assert forall|k2: Seq<char>| #[trigger] has_key(r, k2) == has_key(e, k2) by {
            if k2 != k {
                if has_key(s, k2) {
                    let j = idx_of(s, k2);
                    assert(r[j + 1] == s[j]);
                    assert(has_key(r, k2));
                }
                if has_key(r, k2) {
                    let j = idx_of(r, k2);
                    assert(r[j].0 == k2 && j != 0);
                    assert(s[j - 1] == r[j]);
                    assert(has_key(s, k2));
                }
            }
        }
        assert forall|k2: Seq<char>| has_key(e, k2) implies #[trigger] value_of(r, k2) == value_of(
            e,
            k2,
        ) by {
            if k2 == k {
                lemma_key_at(e, i);
            } else {
                lemma_idx_of(s, k2);
                let j = idx_of(s, k2);
                assert(r[j + 1] == s[j]);
                lemma_key_at(r, j + 1);
                lemma_key_at(s, j);
            }
        }
    }
}

/// An invalidation removes exactly its key.
pub proof fn lemma_remove_key(e: Seq<(Seq<char>, Payload)>, k: Seq<char>)
    requires
        keys_distinct(e),
    ensures
        keys_distinct(remove_key(e, k)),
        remove_key(e, k).len() <= e.len(),
        !has_key(remove_key(e, k), k),
        forall|k2: Seq<char>| k2 != k ==> #[trigger] has_key(remove_key(e, k), k2) == has_key(
            e,
            k2,
        ),
        forall|k2: Seq<char>|
            k2 != k && has_key(e, k2) ==> #[trigger] value_of(remove_key(e, k), k2) == value_of(
                e,
                k2,
            ),
{
    if has_key(e, k) {
        lemma_idx_of(e, k);
        lemma_remove_entry(e, idx_of(e, k));
    }
}


/// The variant tag of a payload, used to state that a per-kind cache only
/// holds payloads of its kind.
pub open spec fn payload_tag(p: Payload) -> int {
    match p {
        Payload::Contact(_) => 0,
        Payload::Message(_) => 1,
        Payload::Room(_) => 2,
        Payload::RoomMember(_) => 3,
        Payload::Friendship(_) => 4,
        Payload::RoomInvitation(_) => 5,
    }
}

/// Every entry of the list carries a payload of the given tag.
pub open spec fn entries_tagged(e: Seq<(Seq<char>, Payload)>, t: int) -> bool {
    forall|i: int| 0 <= i < e.len() ==> payload_tag((#[trigger] e[i]).1) == t
}

/// A store of a payload of the right tag keeps the whole cache tagged.
pub proof fn lemma_insert_front_tagged(
    e: Seq<(Seq<char>, Payload)>,
    cap: nat,
    k: Seq<char>,
    v: Payload,
    t: int,
)
    requires
        keys_distinct(e),
        e.len() <= cap,
        1 <= cap,
        entries_tagged(e, t),
        payload_tag(v) == t,
    ensures
        entries_tagged(insert_front(e, cap, k, v), t),
{
    let s = strip_for(e, cap, k);
    let r = insert_front(e, cap, k, v);
    if has_key(e, k) {
        lemma_idx_of(e, k);
        lemma_remove_entry(e, idx_of(e, k));
    } else if e.len() >= cap {
        lemma_drop_last_entry(e);
        lemma_remove_entry(e, e.len() - 1);
    }
    assert forall|j: int| 0 <= j < r.len() implies payload_tag((#[trigger] r[j]).1) == t by {
        if j == 0 {
            assert(r[0] == (k, v));
        } else {
            assert(r[j] == s[j - 1]);
            if has_key(e, k) {
                let i = idx_of(e, k);
                let ej = if j - 1 < i { j - 1 } else { j };
                assert(s[j - 1] == e[ej]);
            } else if e.len() >= cap {
                let ej = j - 1;
                assert(s[j - 1] == e.remove(e.len() - 1)[j - 1]);
                assert(e.remove(e.len() - 1)[j - 1] == e[ej]);
            } else {
                assert(s[j - 1] == e[j - 1]);
            }
        }
    }
}

/// A read hit keeps the whole cache tagged.
pub proof fn lemma_promote_tagged(e: Seq<(Seq<char>, Payload)>, k: Seq<char>, t: int)
    requires
        keys_distinct(e),
        entries_tagged(e, t),
    ensures
        entries_tagged(promote(e, k), t),
{
    if has_key(e, k) {
        lemma_idx_of(e, k);
        let i = idx_of(e, k);
        let s = e.remove(i);
        let r = promote(e, k);
        lemma_remove_entry(e, i);
        assert forall|j: int| 0 <= j < r.len() implies payload_tag((#[trigger] r[j]).1) == t by {
            if j == 0 {
                assert(r[0] == e[i]);
            } else {
                assert(r[j] == s[j - 1]);
                let ej = if j - 1 < i { j - 1 } else { j };
                assert(s[j - 1] == e[ej]);
            }
        }
    }
}

/// An invalidation keeps the whole cache tagged.
pub proof fn lemma_remove_key_tagged(e: Seq<(Seq<char>, Payload)>, k: Seq<char>, t: int)
    requires
        keys_distinct(e),
        entries_tagged(e, t),
    ensures
        entries_tagged(remove_key(e, k), t),
{
    if has_key(e, k) {
        lemma_idx_of(e, k);
        let i = idx_of(e, k);
        let r = remove_key(e, k);
        lemma_remove_entry(e, i);
        assert forall|j: int| 0 <= j < r.len() implies payload_tag((#[trigger] r[j]).1) == t by {
            let ej = if j < i { j } else { j + 1 };
            assert(r[j] == e[ej]);
        }
    }
}


/// A store never introduces keys other than its own: any key of the new
/// list is the stored one or was already present.
pub proof fn lemma_insert_front_no_new_keys(
    e: Seq<(Seq<char>, Payload)>,
    cap: nat,
    k: Seq<char>,
    v: Payload,
)
    requires
        keys_distinct(e),
        e.len() <= cap,
        1 <= cap,
    ensures
        forall|k2: Seq<char>|
            #[trigger] has_key(insert_front(e, cap, k, v), k2) ==> k2 == k || has_key(e, k2),
{
    lemma_insert_front(e, cap, k, v);
    assert forall|k2: Seq<char>|
        #[trigger] has_key(insert_front(e, cap, k, v), k2) implies k2 == k || has_key(
        e,
        k2,
    ) by {
        if k2 != k {
            if has_key(e, k) || e.len() < cap {
                assert(has_key(insert_front(e, cap, k, v), k2) == has_key(e, k2));
            } else {
                if k2 == e.last().0 {
                    assert(!has_key(insert_front(e, cap, k, v), e.last().0));
                } else {
                    assert(has_key(insert_front(e, cap, k, v), k2) == has_key(e, k2));
                }
            }
        }
    }
}

/// One bounded least-recently-used payload cache.
pub struct PayloadCache {
    inner: lru::LruCache<String, Payload, RandomState>,
}

impl PayloadCache {
    /// The entries of the cache, most recently used first.
    pub closed spec fn entries(self) -> Seq<(Seq<char>, Payload)> {
        lru_entries(self.inner)
    }

    /// The capacity the cache was created with.
    pub closed spec fn limit(self) -> nat {
        lru_limit(self.inner)
    }

    pub open spec fn has(self, k: Seq<char>) -> bool {
        has_key(self.entries(), k)
    }

    pub open spec fn value(self, k: Seq<char>) -> Payload {
        value_of(self.entries(), k)
    }

    /// Well-formedness: distinct keys, never over capacity, capacity at
    /// least one.
    pub open spec fn wf(self) -> bool {
        &&& keys_distinct(self.entries())
        &&& self.entries().len() <= self.limit()
        &&& 1 <= self.limit()
    }

    /// Relies on `lru::LruCache::new`: an empty cache with the given
    /// capacity.
    #[verifier::external_body]
    fn new_raw(cap: usize) -> (c: Self)
        requires
            1 <= cap,
        ensures
            lru_entries(c.inner) == Seq::<(Seq<char>, Payload)>::empty(),
            lru_limit(c.inner) == cap as nat,
    {
        PayloadCache {
            inner: lru::LruCache::with_hasher(
                NonZeroUsize::new(cap).unwrap(),
                RandomState::new(),
            ),
        }
    }

    /// Relies on `lru::LruCache::contains`: key membership, no reordering.
    #[verifier::external_body]
    fn contains_raw(&self, id: &String) -> (r: bool)
        ensures
            r == has_key(lru_entries(self.inner), id@),
    {
        self.inner.contains(id)
    }

    /// Relies on `lru::LruCache::get`: a hit returns the stored payload and
    /// moves its entry to the most-recently-used position; a miss changes
    /// nothing.
    #[verifier::external_body]
    fn get_raw(&mut self, id: &String) -> (r: Option<Payload>)
        ensures
            lru_limit(final(self).inner) == lru_limit(old(self).inner),
            match r {
                Some(p) => has_key(lru_entries(old(self).inner), id@) && p == value_of(
                    lru_entries(old(self).inner),
                    id@,
                ) && lru_entries(final(self).inner) == promote(
                    lru_entries(old(self).inner),
                    id@,
                ),
                None => !has_key(lru_entries(old(self).inner), id@) && lru_entries(
                    final(self).inner,
                ) == lru_entries(old(self).inner),
            },
    {
        self.inner.get(id).cloned()
    }

    /// Relies on `lru::LruCache::put`: stores the payload at the
    /// most-recently-used position, updating in place on a known key and
    /// evicting the least-recently-used entry when a fresh key arrives at
    /// capacity.
    #[verifier::external_body]
    fn put_raw(&mut self, id: String, p: Payload)
        ensures
            lru_limit(final(self).inner) == lru_limit(old(self).inner),
            lru_entries(final(self).inner) == insert_front(
                lru_entries(old(self).inner),
                lru_limit(old(self).inner),
                id@,
                p,
            ),
    {
        let _ = self.inner.put(id, p);
    }

    /// Relies on `lru::LruCache::pop`: removes the entry if present.
    #[verifier::external_body]
    fn pop_raw(&mut self, id: &String)
        ensures
            lru_limit(final(self).inner) == lru_limit(old(self).inner),
            lru_entries(final(self).inner) == remove_key(lru_entries(old(self).inner), id@),
    {
        let _ = self.inner.pop(id);
    }

    /// Relies on `lru::LruCache::len`.
    #[verifier::external_body]
    fn len_raw(&self) -> (r: usize)
        ensures
            r == lru_entries(self.inner).len(),
    {
        self.inner.len()
    }

    /// Relies on `lru::LruCache::cap`.
    #[verifier::external_body]
    fn cap_raw(&self) -> (r: usize)
        ensures
            r as nat == lru_limit(self.inner),
    {
        self.inner.cap().get()
    }

    /// Relies on `lru::LruCache::iter`: the keys in most-recently-used-first
    /// order.
    #[verifier::external_body]
    fn keys_raw(&self) -> (r: Vec<String>)
        ensures
            r.deep_view() == lru_entries(self.inner).map_values(
                |kv: (Seq<char>, Payload)| kv.0,
            ),
    {
        self.inner.iter().map(|(k, _v)| k.clone()).collect()
    }

    /// An empty cache bounded by `cap`.
    pub fn new(cap: usize) -> (c: Self)
        requires
            1 <= cap,
        ensures
            c.wf(),
            c.entries() == Seq::<(Seq<char>, Payload)>::empty(),
            c.limit() == cap as nat,
    {
        Self::new_raw(cap)
    }

    /// Whether an entry for `id` is resident; reads nothing and reorders
    /// nothing.
    pub fn contains(&self, id: &String) -> (r: bool)
        ensures
            r == self.has(id@),
    {
        self.contains_raw(id)
    }

    /// A hit returns the resident payload and refreshes its recency; a miss
    /// returns nothing and leaves the cache unchanged.
    pub fn get(&mut self, id: &String) -> (r: Option<Payload>)
        requires
            old(self).wf(),
        ensures
            final(self).wf(),
            final(self).limit() == old(self).limit(),
            match r {
                Some(p) => old(self).has(id@) && p == old(self).value(id@) && final(self).entries()
                    == promote(old(self).entries(), id@),
                None => !old(self).has(id@) && final(self).entries() == old(self).entries(),
            },
    {
        let r = self.get_raw(id);
        proof {
            lemma_promote(old(self).entries(), id@);
        }
        r
    }

    /// Stores `p` under `id` at the most-recently-used position; a fresh key
    /// at capacity evicts exactly the least recently used entry.
    pub fn put(&mut self, id: String, p: Payload)
        requires
            old(self).wf(),
        ensures
            final(self).wf(),
            final(self).limit() == old(self).limit(),
            final(self).entries() == insert_front(
                old(self).entries(),
                old(self).limit(),
                id@,
                p,
            ),
    {
        proof {
            lemma_insert_front(self.entries(), self.limit(), id@, p);
        }
        self.put_raw(id, p);
    }

    /// Invalidates `id`: drops its entry if present, a no-op otherwise.
    pub fn pop(&mut self, id: &String)
        requires
            old(self).wf(),
        ensures
            final(self).wf(),
            final(self).limit() == old(self).limit(),
            final(self).entries() == remove_key(old(self).entries(), id@),
    {
        proof {
            lemma_remove_key(self.entries(), id@);
        }
        self.pop_raw(id);
    }

    /// The number of resident entries.
    pub fn len(&self) -> (r: usize)
        ensures
            r == self.entries().len(),
    {
        self.len_raw()
    }

    /// The capacity the cache was created with.
    pub fn cap(&self) -> (r: usize)
        ensures
            r as nat == self.limit(),
    {
        self.cap_raw()
    }

    /// The resident keys, most recently used first.
    pub fn key_list(&self) -> (r: Vec<String>)
        ensures
            r.deep_view() == self.entries().map_values(|kv: (Seq<char>, Payload)| kv.0),
    {
        self.keys_raw()
    }
}

} // verus!
