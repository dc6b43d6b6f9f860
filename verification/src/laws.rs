//! The library's cross-cutting guarantees, each proved from the
//! contracts of the modules it spans: cache coherence, the bound and
//! eviction order of the cache, the shape of the composite room-member
//! key, query-filter semantics, event fan-out, and handler budgets.
use vstd::prelude::*;
use crate::bus::{
    all_queues_extended, has_sink, lemma_bucket_remove, lemma_sink_at, sink_idx,
    sink_names_distinct, sink_queue, unsubscribed, SinkChannel,
};
use crate::cache::{
    has_key, insert_front, keys_distinct, lemma_insert_front, lemma_remove_key, remove_key,
    value_of,
};
use crate::listener::{is_active_plan, spec_decrement};
use crate::puppet::{spec_evict_members, spec_room_member_key};
use crate::query::{
    regex_accepts, regex_compiles, spec_contact_keep, spec_contact_matches,
};
use crate::schemas::contact::{ContactPayload, ContactQueryFilter};
use crate::schemas::event::PuppetEvent;
use crate::schemas::payload::Payload;

verus! {

/// Cache coherence, write side: a payload stored under an id is read
/// right back under that id, whatever the cache held before.
pub proof fn lemma_cache_read_after_write(
    e: Seq<(Seq<char>, Payload)>,
    cap: nat,
    k: Seq<char>,
    v: Payload,
)
    requires
        keys_distinct(e),
        e.len() <= cap,
        1 <= cap,
    ensures
        has_key(insert_front(e, cap, k, v), k),
        value_of(insert_front(e, cap, k, v), k) == v,
{
    lemma_insert_front(e, cap, k, v);
}

/// Cache coherence, invalidation side: after an id is dirtied it is
/// absent from the cache, so the next read of it must go to the remote
/// data source; every other id keeps its payload.
pub proof fn lemma_invalidate_forces_refetch(e: Seq<(Seq<char>, Payload)>, k: Seq<char>)
    requires
        keys_distinct(e),
    ensures
        !has_key(remove_key(e, k), k),
        forall|k2: Seq<char>| k2 != k ==> #[trigger] has_key(remove_key(e, k), k2) == has_key(
            e,
            k2,
        ),
        forall|k2: Seq<char>|
            k2 != k && has_key(e, k2) ==> #[trigger] value_of(remove_key(e, k), k2) == value_of(
                e,
                k2,
            ),
{
    lemma_remove_key(e, k);
}

/// The LRU bound: storing one more distinct id into a full cache evicts
/// exactly the least recently used entry — the stored id is readable, the
/// evicted id is gone, every other id keeps its payload, and the cache
/// stays within its capacity.
pub proof fn lemma_lru_eviction(e: Seq<(Seq<char>, Payload)>, cap: nat, k: Seq<char>, v: Payload)
    requires
        keys_distinct(e),
        e.len() == cap,
        1 <= cap,
        !has_key(e, k),
    ensures
        insert_front(e, cap, k, v).len() == cap,
        has_key(insert_front(e, cap, k, v), k),
        value_of(insert_front(e, cap, k, v), k) == v,
        !has_key(insert_front(e, cap, k, v), e.last().0),
        forall|k2: Seq<char>|
            k2 != k && k2 != e.last().0 ==> #[trigger] has_key(insert_front(e, cap, k, v), k2)
                == has_key(e, k2),
        forall|k2: Seq<char>|
            k2 != k && k2 != e.last().0 && has_key(e, k2) ==> #[trigger] value_of(
                insert_front(e, cap, k, v),
                k2,
            ) == value_of(e, k2),
{
    lemma_insert_front(e, cap, k, v);
}

/// The composite room-member key is injective over ids free of the
/// separator character: equal keys can only come from the same contact id
/// and the same room id, so in particular swapping the two ids of two
/// distinct ids changes the key.
pub proof fn lemma_room_member_key_injective(
    a: Seq<char>,
    b: Seq<char>,
    c: Seq<char>,
    d: Seq<char>,
)
    requires
        forall|i: int| 0 <= i < a.len() ==> a[i] != '@',
        forall|i: int| 0 <= i < c.len() ==> c[i] != '@',
        spec_room_member_key(a, b) == spec_room_member_key(c, d),
    ensures
        a == c,
        b == d,
{
    reveal_strlit("@@@");
    let sep = "@@@"@;
    assert(sep.len() == 3);
    assert(sep[0] == '@');
    let k1 = spec_room_member_key(a, b);
    let k2 = spec_room_member_key(c, d);
    assert(k1.len() == a.len() + 3 + b.len());
    assert(k2.len() == c.len() + 3 + d.len());
    if a.len() < c.len() {
        assert(k1[a.len() as int] == sep[0]);
        assert(k2[a.len() as int] == c[a.len() as int]);
        assert(false);
    }
    if c.len() < a.len() {
        assert(k2[c.len() as int] == sep[0]);
        assert(k1[c.len() as int] == a[c.len() as int]);
        assert(false);
    }
    assert(a.len() == c.len());
    assert forall|i: int| 0 <= i < a.len() implies a[i] == c[i] by {
        assert(k1[i] == a[i]);
        assert(k2[i] == c[i]);
    }
    assert(a =~= c);
    assert(b.len() == d.len());
    assert forall|j: int| 0 <= j < b.len() implies b[j] == d[j] by {
        assert(k1[a.len() + 3 + j] == b[j]);
        assert(k2[c.len() + 3 + j] == d[j]);
    }
    assert(b =~= d);
}

/// Swapping the contact and room ids of a composite key changes the key
/// whenever the two ids differ.
pub proof fn lemma_room_member_key_order(a: Seq<char>, b: Seq<char>)
    requires
        forall|i: int| 0 <= i < a.len() ==> a[i] != '@',
        forall|i: int| 0 <= i < b.len() ==> b[i] != '@',
        a != b,
    ensures
        spec_room_member_key(a, b) != spec_room_member_key(b, a),
{
    if spec_room_member_key(a, b) == spec_room_member_key(b, a) {
        lemma_room_member_key_injective(a, b, b, a);
    }
}

/// Query conjunction: a filter with a name constraint and an alias
/// pattern keeps exactly the payloads that satisfy both.
pub proof fn lemma_filter_and_semantics(name: String, alias_pattern: String, p: ContactPayload)
    ensures
        spec_contact_matches(
            ContactQueryFilter {
                alias: None,
                alias_regex: Some(alias_pattern),
                id: None,
                name: Some(name),
                name_regex: None,
                weixin: None,
            },
            p,
        ) == (p.name@ == name@ && regex_compiles(alias_pattern@) && regex_accepts(
            alias_pattern@,
            p.alias@,
        )),
{
}

/// The empty query constrains nothing: every payload matches it, so a
/// scan with the empty query keeps exactly the ids whose hydration
/// succeeded.
pub proof fn lemma_empty_filter_keeps_hydrated(obs: Seq<Option<ContactPayload>>)
    ensures
        forall|p: ContactPayload| #[trigger] spec_contact_matches(ContactQueryFilter::spec_empty(), p),
        forall|i: int|
            0 <= i < obs.len() ==> #[trigger] spec_contact_keep(
                obs,
                ContactQueryFilter::spec_empty(),
            )[i] == (obs[i] is Some),
{
}

/// A dispatch leaves the bucket's names as they were and appends the
/// event to every sink's queue; in particular each named sink receives
/// its copy at the end of its queue, in dispatch order.
pub proof fn lemma_extended_queue(
    b0: Seq<SinkChannel>,
    b1: Seq<SinkChannel>,
    n: Seq<char>,
    e: PuppetEvent,
)
    requires
        sink_names_distinct(b0),
        all_queues_extended(b0, b1, e),
        has_sink(b0, n),
    ensures
        sink_names_distinct(b1),
        has_sink(b1, n),
        sink_queue(b1, n) == sink_queue(b0, n).push(e),
{
    assert forall|p: int, q: int|
        0 <= p < q < b1.len() implies (#[trigger] b1[p]).name@ != (#[trigger] b1[q]).name@ by {
        assert(b1[p].name@ == b0[p].name@ && b1[q].name@ == b0[q].name@);
    }
    let i = sink_idx(b0, n);
    assert(0 <= i < b0.len() && b0[i].name@ == n);
    assert(b1[i].name@ == n);
    assert(has_sink(b1, n));
    lemma_sink_at(b0, i);
    lemma_sink_at(b1, i);
}

/// A dispatch does not change which names are registered.
pub proof fn lemma_extended_names(b0: Seq<SinkChannel>, b1: Seq<SinkChannel>, e: PuppetEvent)
    requires
        all_queues_extended(b0, b1, e),
    ensures
        forall|n: Seq<char>| #[trigger] has_sink(b1, n) == has_sink(b0, n),
{
    assert forall|n: Seq<char>| #[trigger] has_sink(b1, n) == has_sink(b0, n) by {
        if has_sink(b0, n) {
            let i = sink_idx(b0, n);
            assert(b1[i].name@ == n);
            assert(has_sink(b1, n));
        }
        if has_sink(b1, n) {
            let i = sink_idx(b1, n);
            assert(b0[i].name@ == n);
            assert(has_sink(b0, n));
        }
    }
}

/// Fan-out: one dispatch delivers a copy of the event to both of two
/// sinks registered under the same kind, each at the end of its own
/// queue.
pub proof fn lemma_fanout_two_sinks(
    b0: Seq<SinkChannel>,
    b1: Seq<SinkChannel>,
    n1: Seq<char>,
    n2: Seq<char>,
    e: PuppetEvent,
)
    requires
        sink_names_distinct(b0),
        has_sink(b0, n1),
        has_sink(b0, n2),
        all_queues_extended(b0, b1, e),
    ensures
        sink_queue(b1, n1) == sink_queue(b0, n1).push(e),
        sink_queue(b1, n2) == sink_queue(b0, n2).push(e),
{
    lemma_extended_queue(b0, b1, n1, e);
    lemma_extended_queue(b0, b1, n2, e);
}

/// Fan-out after an unsubscription: once a sink is removed, a dispatch
/// reaches every remaining sink and the removed name receives nothing —
/// it is no longer registered at all.
pub proof fn lemma_fanout_after_unsubscribe(
    b0: Seq<SinkChannel>,
    b1: Seq<SinkChannel>,
    b2: Seq<SinkChannel>,
    n: Seq<char>,
    e: PuppetEvent,
)
    requires
        sink_names_distinct(b0),
        unsubscribed(b0, b1, n),
        all_queues_extended(b1, b2, e),
    ensures
        !has_sink(b2, n),
        forall|n2: Seq<char>|
            n2 != n && has_sink(b0, n2) ==> #[trigger] sink_queue(b2, n2) == sink_queue(
                b0,
                n2,
            ).push(e),
{
    if has_sink(b0, n) {
        let i = sink_idx(b0, n);
        lemma_sink_at(b0, i);
        lemma_bucket_remove(b0, i);
        lemma_extended_names(b1, b2, e);
        assert forall|n2: Seq<char>| n2 != n && has_sink(b0, n2) implies #[trigger] sink_queue(
            b2,
            n2,
        ) == sink_queue(b0, n2).push(e) by {
            assert(has_sink(b1, n2));
            lemma_extended_queue(b1, b2, n2, e);
        }
    } else {
        lemma_extended_names(b1, b2, e);
        assert forall|n2: Seq<char>| n2 != n && has_sink(b0, n2) implies #[trigger] sink_queue(
            b2,
            n2,
        ) == sink_queue(b0, n2).push(e) by {
            lemma_extended_queue(b1, b2, n2, e);
        }
    }
}

/// Handler budgets: a handler registered with two remaining invocations
/// fires on the first two rounds and is skipped on the third; planning
/// the third round is still well-defined and errs nothing.
pub proof fn lemma_handler_budget(
    s: Seq<usize>,
    i: int,
    p1: Seq<usize>,
    p2: Seq<usize>,
    p3: Seq<usize>,
)
    requires
        0 <= i < s.len(),
        s[i] == 2,
        is_active_plan(s, p1),
        is_active_plan(spec_decrement(s), p2),
        is_active_plan(spec_decrement(spec_decrement(s)), p3),
    ensures
        exists|j: int| 0 <= j < p1.len() && (#[trigger] p1[j]) == i,
        exists|j: int| 0 <= j < p2.len() && (#[trigger] p2[j]) == i,
        forall|j: int| 0 <= j < p3.len() ==> (#[trigger] p3[j]) != i,
{
    assert(spec_decrement(s)[i] == 1);
    assert(spec_decrement(spec_decrement(s))[i] == 0);
    assert forall|j: int| 0 <= j < p3.len() implies (#[trigger] p3[j]) != i by {
        if p3[j] == i {
            assert(spec_decrement(spec_decrement(s))[p3[j] as int] > 0);
        }
    }
}


/// Evictions only remove: a key already absent stays absent through a
/// whole member-eviction pass.
pub proof fn lemma_evict_members_monotone(
    e: Seq<(Seq<char>, Payload)>,
    room_id: Seq<char>,
    ids: Seq<Seq<char>>,
    k: Seq<char>,
)
    requires
        keys_distinct(e),
        !has_key(e, k),
    ensures
        keys_distinct(spec_evict_members(e, room_id, ids)),
        !has_key(spec_evict_members(e, room_id, ids), k),
    decreases ids.len(),
{
    if ids.len() == 0 {
    } else {
        let k0 = spec_room_member_key(ids[0], room_id);
        lemma_remove_key(e, k0);
        if k == k0 {
            lemma_evict_members_monotone(remove_key(e, k0), room_id, ids.drop_first(), k);
        } else {
            assert(!has_key(remove_key(e, k0), k));
            lemma_evict_members_monotone(remove_key(e, k0), room_id, ids.drop_first(), k);
        }
    }
}

/// Transitive room-member invalidation: after a room's member list is
/// evicted, none of the listed members' composite entries is resident, so
/// each next read of one must go to the remote data source.
pub proof fn lemma_evicted_members_are_gone(
    e: Seq<(Seq<char>, Payload)>,
    room_id: Seq<char>,
    ids: Seq<Seq<char>>,
)
    requires
        keys_distinct(e),
    ensures
        forall|j: int|
            0 <= j < ids.len() ==> !has_key(
                spec_evict_members(e, room_id, ids),
                spec_room_member_key(#[trigger] ids[j], room_id),
            ),
    decreases ids.len(),
{
    if ids.len() > 0 {
        let k0 = spec_room_member_key(ids[0], room_id);
        let e1 = remove_key(e, k0);
        lemma_remove_key(e, k0);
        lemma_evicted_members_are_gone(e1, room_id, ids.drop_first());
        lemma_evict_members_monotone(e1, room_id, ids.drop_first(), k0);
        assert forall|j: int|
            0 <= j < ids.len() implies !has_key(
            spec_evict_members(e, room_id, ids),
            spec_room_member_key(#[trigger] ids[j], room_id),
        ) by {
            if j > 0 {
                assert(ids.drop_first()[j - 1] == ids[j]);
            }
        }
    }
}

} // verus!
