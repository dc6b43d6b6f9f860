//! The query engine: declarative filters evaluated by one matcher per
//! entity kind, and the linear-scan searches that hydrate each candidate id
//! through the payload cache and keep the ids whose payloads match.
use vstd::prelude::*;
use crate::cache::{has_key, keys_distinct, lemma_key_at, lemma_promote, value_of};
use crate::puppet::BackendOp;
use crate::schemas::payload::Payload;
use crate::error::PuppetError;
use crate::puppet::{Puppet, PuppetImpl};
use crate::schemas::contact::{ContactPayload, ContactQueryFilter};
use crate::schemas::message::{MessagePayload, MessageQueryFilter};
use crate::schemas::room::{RoomPayload, RoomQueryFilter};
use crate::util::str_eq;

verus! {

/// Whether a regular-expression pattern is well-formed; depends on the
/// pattern alone.
pub uninterp spec fn regex_compiles(pattern: Seq<char>) -> bool;

/// Whether a well-formed pattern matches somewhere in a text; depends on
/// the two strings alone.
pub uninterp spec fn regex_accepts(pattern: Seq<char>, text: Seq<char>) -> bool;

/// Relies on `regex::Regex::new` and `regex::Regex::is_match`: compiling
/// the same pattern succeeds or fails by the pattern alone, and a compiled
/// pattern matches a text by the two strings alone.
#[verifier::external_body]
fn regex_is_match(pattern: &str, text: &str) -> (r: Option<bool>)
    ensures
        r is Some <==> regex_compiles(pattern@),
        r matches Some(b) ==> b == regex_accepts(pattern@, text@),
{
    match regex::Regex::new(pattern) {
        Ok(re) => Some(re.is_match(text)),
        Err(_) => None,
    }
}

/// A present equality constraint must match the field exactly; an absent
/// one constrains nothing.
pub open spec fn spec_opt_eq(f: Option<String>, v: Seq<char>) -> bool {
    match f {
        None => true,
        Some(x) => x@ == v,
    }
}

/// A present equality constraint on an optional field must match a present
/// value exactly.
pub open spec fn spec_opt_eq_opt(f: Option<String>, v: Option<Seq<char>>) -> bool {
    match f {
        None => true,
        Some(x) => v == Some(x@),
    }
}

/// A present pattern constraint must compile and match the field; an
/// absent one constrains nothing.
pub open spec fn spec_opt_regex(f: Option<String>, v: Seq<char>) -> bool {
    match f {
        None => true,
        Some(p) => regex_compiles(p@) && regex_accepts(p@, v),
    }
}

/// A present pattern constraint on an optional field requires the value to
/// be present and matched.
pub open spec fn spec_opt_regex_opt(f: Option<String>, v: Option<Seq<char>>) -> bool {
    match f {
        None => true,
        Some(p) => match v {
            Some(t) => regex_compiles(p@) && regex_accepts(p@, t),
            None => false,
        },
    }
}

/// AND of every present constraint of a contact query.
pub open spec fn spec_contact_matches(q: ContactQueryFilter, p: ContactPayload) -> bool {
    &&& spec_opt_eq(q.id, p.id@)
    &&& spec_opt_eq(q.name, p.name@)
    &&& spec_opt_eq(q.alias, p.alias@)
    &&& spec_opt_eq(q.weixin, p.weixin@)
    &&& spec_opt_regex(q.name_regex, p.name@)
    &&& spec_opt_regex(q.alias_regex, p.alias@)
}

/// AND of every present constraint of a message query.
pub open spec fn spec_message_matches(q: MessageQueryFilter, p: MessagePayload) -> bool {
    &&& spec_opt_eq(q.id, p.spec_id())
    &&& (match q.message_type {
        None => true,
        Some(t) => p.spec_message_type() == t,
    })
    &&& spec_opt_eq_opt(q.from_id, p.spec_from_id())
    &&& spec_opt_eq_opt(q.to_id, p.spec_to_id())
    &&& spec_opt_eq_opt(q.room_id, p.spec_room_id())
    &&& spec_opt_eq_opt(q.text, p.spec_text())
    &&& spec_opt_regex_opt(q.text_regex, p.spec_text())
}

/// AND of every present constraint of a room query.
pub open spec fn spec_room_matches(q: RoomQueryFilter, p: RoomPayload) -> bool {
    &&& spec_opt_eq(q.id, p.id@)
    &&& spec_opt_eq(q.topic, p.topic@)
    &&& spec_opt_regex(q.topic_regex, p.topic@)
}

fn opt_eq_matches(f: &Option<String>, v: &String) -> (r: bool)
    ensures
        r == spec_opt_eq(*f, v@),
{
    match f {
        None => true,
        Some(x) => str_eq(x.as_str(), v.as_str()),
    }
}

fn opt_eq_opt_matches(f: &Option<String>, v: &Option<String>) -> (r: bool)
    ensures
        r == spec_opt_eq_opt(
            *f,
            match v {
                Some(t) => Some(t@),
                None => None,
            },
        ),
{
    match f {
        None => true,
        Some(x) => match v {
            Some(t) => str_eq(x.as_str(), t.as_str()),
            None => false,
        },
    }
}

fn opt_regex_matches(f: &Option<String>, v: &String) -> (r: bool)
    ensures
        r == spec_opt_regex(*f, v@),
{
    match f {
        None => true,
        Some(p) => match regex_is_match(p.as_str(), v.as_str()) {
            Some(b) => b,
            None => false,
        },
    }
}

fn opt_regex_opt_matches(f: &Option<String>, v: &Option<String>) -> (r: bool)
    ensures
        r == spec_opt_regex_opt(
            *f,
            match v {
                Some(t) => Some(t@),
                None => None,
            },
        ),
{
    match f {
        None => true,
        Some(p) => match v {
            Some(t) => match regex_is_match(p.as_str(), t.as_str()) {
                Some(b) => b,
                None => false,
            },
            None => false,
        },
    }
}

/// Evaluates a contact query against one payload: AND of every present
/// constraint, pattern fields by regular-expression match.
pub fn contact_query_filter_matches(q: &ContactQueryFilter, p: &ContactPayload) -> (r: bool)
    ensures
        r == spec_contact_matches(*q, *p),
{
    let mut ok = opt_eq_matches(&q.id, &p.id);
    ok = ok && opt_eq_matches(&q.name, &p.name);
    ok = ok && opt_eq_matches(&q.alias, &p.alias);
    ok = ok && opt_eq_matches(&q.weixin, &p.weixin);
    ok = ok && opt_regex_matches(&q.name_regex, &p.name);
    ok = ok && opt_regex_matches(&q.alias_regex, &p.alias);
    ok
}

/// Evaluates a message query against one payload.
pub fn message_query_filter_matches(q: &MessageQueryFilter, p: &MessagePayload) -> (r: bool)
    ensures
        r == spec_message_matches(*q, *p),
{
    let mut ok = opt_eq_matches(&q.id, &p.id());
    ok = ok && (match &q.message_type {
        None => true,
        Some(t) => p.message_type() == *t,
    });
    ok = ok && opt_eq_opt_matches(&q.from_id, &p.from_id());
    ok = ok && opt_eq_opt_matches(&q.to_id, &p.to_id());
    ok = ok && opt_eq_opt_matches(&q.room_id, &p.room_id());
    ok = ok && opt_eq_opt_matches(&q.text, &p.text());
    ok = ok && opt_regex_opt_matches(&q.text_regex, &p.text());
    ok
}

/// Evaluates a room query against one payload.
pub fn room_query_filter_matches(q: &RoomQueryFilter, p: &RoomPayload) -> (r: bool)
    ensures
        r == spec_room_matches(*q, *p),
{
    let mut ok = opt_eq_matches(&q.id, &p.id);
    ok = ok && opt_eq_matches(&q.topic, &p.topic);
    ok = ok && opt_regex_matches(&q.topic_regex, &p.topic);
    ok
}

/// The ids of a scan universe kept by a mask, in scan order.
pub open spec fn spec_scan_kept(u: Seq<Seq<char>>, keep: Seq<bool>) -> Seq<Seq<char>>
    decreases u.len(),
{
    if u.len() == 0 {
        Seq::empty()
    } else {
        let rest = spec_scan_kept(u.drop_first(), keep.drop_first());
        if 0 < keep.len() && keep[0] {
            seq![u[0]] + rest
        } else {
            rest
        }
    }
}

/// Extending a scan by one more id folds through.
pub proof fn lemma_scan_kept_snoc(u: Seq<Seq<char>>, keep: Seq<bool>, x: Seq<char>, k: bool)
    requires
        u.len() == keep.len(),
    ensures
        spec_scan_kept(u.push(x), keep.push(k)) == spec_scan_kept(u, keep) + (if k {
            seq![x]
        } else {
            Seq::<Seq<char>>::empty()
        }),
    decreases u.len(),
{
    if u.len() == 0 {
        assert(u.push(x)[0] == x);
        assert(u.push(x).drop_first() =~= Seq::<Seq<char>>::empty());
        assert(keep.push(k).drop_first() =~= Seq::<bool>::empty());
        assert(spec_scan_kept(Seq::<Seq<char>>::empty(), Seq::<bool>::empty()) == Seq::<
            Seq<char>,
        >::empty());
        if k {
            assert(spec_scan_kept(u.push(x), keep.push(k)) =~= seq![x]);
            assert(spec_scan_kept(u, keep) + seq![x] =~= seq![x]);
        } else {
            assert(spec_scan_kept(u, keep) + Seq::<Seq<char>>::empty() =~= Seq::<
                Seq<char>,
            >::empty());
        }
    } else {
        assert(u.push(x)[0] == u[0]);
        assert(u.push(x).drop_first() =~= u.drop_first().push(x));
        assert(keep.push(k).drop_first() =~= keep.drop_first().push(k));
        lemma_scan_kept_snoc(u.drop_first(), keep.drop_first(), x, k);
        if 0 < keep.len() && keep[0] {
            assert(seq![u[0]] + (spec_scan_kept(u.drop_first(), keep.drop_first()) + (if k {
                seq![x]
            } else {
                Seq::<Seq<char>>::empty()
            })) =~= (seq![u[0]] + spec_scan_kept(u.drop_first(), keep.drop_first())) + (if k {
                seq![x]
            } else {
                Seq::<Seq<char>>::empty()
            }));
        }
    }
}


/// Every id of the universe is resident in the given cache entries.
pub open spec fn spec_all_resident(e: Seq<(Seq<char>, Payload)>, u: Seq<Seq<char>>) -> bool {
    forall|i: int| 0 <= i < u.len() ==> has_key(e, #[trigger] u[i])
}

/// The mask a contact scan computes over a fully resident universe: the
/// id is kept exactly when its cached payload matches the query.
pub open spec fn spec_resident_contact_keep(
    e: Seq<(Seq<char>, Payload)>,
    u: Seq<Seq<char>>,
    q: ContactQueryFilter,
) -> Seq<bool> {
    Seq::new(u.len(), |i: int| spec_contact_matches(q, value_of(e, u[i])->Contact_0))
}

/// The mask a message scan computes over a fully resident universe.
pub open spec fn spec_resident_message_keep(
    e: Seq<(Seq<char>, Payload)>,
    u: Seq<Seq<char>>,
    q: MessageQueryFilter,
) -> Seq<bool> {
    Seq::new(u.len(), |i: int| spec_message_matches(q, value_of(e, u[i])->Message_0))
}

/// The mask a room scan computes over a fully resident universe.
pub open spec fn spec_resident_room_keep(
    e: Seq<(Seq<char>, Payload)>,
    u: Seq<Seq<char>>,
    q: RoomQueryFilter,
) -> Seq<bool> {
    Seq::new(u.len(), |i: int| spec_room_matches(q, value_of(e, u[i])->Room_0))
}

/// On the cache's own key list the resident mask is the per-entry match
/// of the stored payloads, position for position.
pub proof fn lemma_resident_keep_on_keys(
    e: Seq<(Seq<char>, Payload)>,
    u: Seq<Seq<char>>,
    q: MessageQueryFilter,
)
    requires
        keys_distinct(e),
        u == e.map_values(|kv: (Seq<char>, Payload)| kv.0),
    ensures
        forall|i: int|
            0 <= i < e.len() ==> #[trigger] spec_resident_message_keep(e, u, q)[i]
                == spec_message_matches(q, e[i].1->Message_0),
{
    assert forall|i: int|
        0 <= i < e.len() implies #[trigger] spec_resident_message_keep(e, u, q)[i]
        == spec_message_matches(q, e[i].1->Message_0) by {
        assert(u[i] == e[i].0);
        lemma_key_at(e, i);
    }
}

/// The mask a contact scan computes: the id is kept when its hydration
/// succeeded and the payload matched the query.
pub open spec fn spec_contact_keep(obs: Seq<Option<ContactPayload>>, q: ContactQueryFilter) -> Seq<
    bool,
> {
    Seq::new(
        obs.len(),
        |i: int|
            match obs[i] {
                Some(p) => spec_contact_matches(q, p),
                None => false,
            },
    )
}

/// The mask a message scan computes.
pub open spec fn spec_message_keep(obs: Seq<Option<MessagePayload>>, q: MessageQueryFilter) -> Seq<
    bool,
> {
    Seq::new(
        obs.len(),
        |i: int|
            match obs[i] {
                Some(p) => spec_message_matches(q, p),
                None => false,
            },
    )
}

/// The mask a room scan computes.
pub open spec fn spec_room_keep(obs: Seq<Option<RoomPayload>>, q: RoomQueryFilter) -> Seq<bool> {
    Seq::new(
        obs.len(),
        |i: int|
            match obs[i] {
                Some(p) => spec_room_matches(q, p),
                None => false,
            },
    )
}




/// The ids a message search over the resident cache returns: the cache's
/// keys, kept where the stored payload matches.
pub open spec fn spec_cached_message_results(
    e: Seq<(Seq<char>, Payload)>,
    q: MessageQueryFilter,
) -> Seq<Seq<char>> {
    spec_scan_kept(
        e.map_values(|kv: (Seq<char>, Payload)| kv.0),
        spec_resident_message_keep(e, e.map_values(|kv: (Seq<char>, Payload)| kv.0), q),
    )
}

/// What one id-list sub-search contributes: the scan of the fetched
/// universe when the list call succeeded, nothing when it failed.
pub open spec fn spec_list_scan(
    o: Result<Seq<Seq<char>>, PuppetError>,
    obs: Seq<Option<ContactPayload>>,
    q: ContactQueryFilter,
) -> Seq<Seq<char>> {
    match o {
        Ok(u) => spec_scan_kept(u, spec_contact_keep(obs, q)),
        Err(_) => Seq::empty(),
    }
}

/// The ids a find-all returns: the universe `uu` scanned under the query
/// (absent query: the empty filter), then thinned by the batch-load mask.
pub open spec fn spec_searched_then_kept(
    uu: Seq<Seq<char>>,
    obs: Seq<Option<ContactPayload>>,
    keep: Seq<bool>,
    q: Option<ContactQueryFilter>,
) -> Seq<Seq<char>> {
    spec_scan_kept(
        spec_scan_kept(
            uu,
            spec_contact_keep(
                obs,
                match q {
                    Some(x) => x,
                    None => ContactQueryFilter::spec_empty(),
                },
            ),
        ),
        keep,
    )
}

/// No id occurs twice.
pub open spec fn seq_distinct(s: Seq<Seq<char>>) -> bool {
    forall|i: int, j: int| 0 <= i < j < s.len() ==> s[i] != s[j]
}

/// Whether the vector holds a string with this content.
pub fn vec_contains_string(v: &Vec<String>, s: &String) -> (r: bool)
    ensures
        r == v.deep_view().contains(s@),
{
    let mut i: usize = 0;
    while i < v.len()
        invariant
            0 <= i <= v@.len(),
            forall|j: int| 0 <= j < i ==> v.deep_view()[j] != s@,
        decreases v@.len() - i,
    {
        if str_eq(v[i].as_str(), s.as_str()) {
            assert(v.deep_view()[i as int] == s@);
            return true;
        }
        i += 1;
    }
    proof {
        if v.deep_view().contains(s@) {
            let j = choose|j: int| 0 <= j < v.deep_view().len() && v.deep_view()[j] == s@;
            assert(v.deep_view()[j] != s@);
        }
    }
    false
}

/// The input ids with later duplicates dropped: same id set, first
/// occurrences in order, no id twice.
pub fn dedup_ids(v: Vec<String>) -> (r: Vec<String>)
    ensures
        seq_distinct(r.deep_view()),
        r.deep_view().to_set() == v.deep_view().to_set(),
{
    let mut out: Vec<String> = Vec::new();
    let mut i: usize = 0;
    while i < v.len()
        invariant
            0 <= i <= v@.len(),
            seq_distinct(out.deep_view()),
            out.deep_view().to_set() == v.deep_view().take(i as int).to_set(),
        decreases v@.len() - i,
    {
        let ghost pre = out.deep_view();
        if !vec_contains_string(&out, &v[i]) {
            out.push(v[i].clone());
            proof {
                assert(out.deep_view() =~= pre.push(v@[i as int]@));
            }
        }
        proof {
            lemma_to_set_take_step(v.deep_view(), i as int);
            if pre.contains(v.deep_view()[i as int]) {
                assert(out.deep_view().to_set() =~= v.deep_view().take(i as int + 1).to_set());
            } else {
                assert(out.deep_view() =~= pre.push(v.deep_view()[i as int]));
                assert(out.deep_view().to_set() =~= pre.to_set().insert(
                    v.deep_view()[i as int],
                )) by {
                    lemma_to_set_push(pre, v.deep_view()[i as int]);
                }
                assert(out.deep_view().to_set() =~= v.deep_view().take(i as int + 1).to_set());
            }
        }
        i += 1;
    }
    proof {
        assert(v.deep_view().take(v.deep_view().len() as int) =~= v.deep_view());
    }
    out
}

/// The id set of one more scanned element.
proof fn lemma_to_set_take_step(s: Seq<Seq<char>>, i: int)
    requires
        0 <= i < s.len(),
    ensures
        s.take(i + 1).to_set() == s.take(i).to_set().insert(s[i]),
{
    assert(s.take(i + 1) =~= s.take(i).push(s[i]));
    lemma_to_set_push(s.take(i), s[i]);
}

/// Pushing onto a sequence inserts into its id set.
proof fn lemma_to_set_push(s: Seq<Seq<char>>, x: Seq<char>)
    ensures
        s.push(x).to_set() == s.to_set().insert(x),
{
    assert forall|y: Seq<char>| s.push(x).to_set().contains(y) implies s.to_set().insert(
        x,
    ).contains(y) by {
        let j = choose|j: int| 0 <= j < s.push(x).len() && s.push(x)[j] == y;
        if j < s.len() {
            assert(s[j] == y);
        }
    }
    assert forall|y: Seq<char>| s.to_set().insert(x).contains(y) implies s.push(x).to_set().contains(
        y,
    ) by {
        if y == x {
            assert(s.push(x)[s.len() as int] == x);
        } else {
            let j = choose|j: int| 0 <= j < s.len() && s[j] == y;
            assert(s.push(x)[j] == y);
        }
    }
    assert(s.push(x).to_set() =~= s.to_set().insert(x));
}

/// Concatenating scans unions their id sets.
pub proof fn lemma_to_set_add(a: Seq<Seq<char>>, b: Seq<Seq<char>>)
    ensures
        (a + b).to_set() == a.to_set().union(b.to_set()),
    decreases b.len(),
{
    if b.len() == 0 {
        assert(a + b =~= a);
        assert(a.to_set().union(b.to_set()) =~= a.to_set()) by {
            assert(b.to_set() =~= Set::<Seq<char>>::empty()) by {
                if exists|y: Seq<char>| b.to_set().contains(y) {
                    let y = choose|y: Seq<char>| b.to_set().contains(y);
                    let j = choose|j: int| 0 <= j < b.len() && b[j] == y;
                }
            }
        }
    } else {
        lemma_to_set_add(a, b.drop_last());
        lemma_to_set_push(a + b.drop_last(), b.last());
        lemma_to_set_push(b.drop_last(), b.last());
        assert((a + b.drop_last()).push(b.last()) =~= a + b);
        assert(b.drop_last().push(b.last()) =~= b);
        assert((a + b).to_set() =~= a.to_set().union(b.to_set()));
    }
}


/// The contact query that a string shorthand searches by id.
pub open spec fn spec_id_query(q: String) -> ContactQueryFilter {
    ContactQueryFilter {
        alias: None,
        alias_regex: None,
        id: Some(q),
        name: None,
        name_regex: None,
        weixin: None,
    }
}

/// The contact query that a string shorthand searches by alias.
pub open spec fn spec_alias_query(q: String) -> ContactQueryFilter {
    ContactQueryFilter {
        alias: Some(q),
        alias_regex: None,
        id: None,
        name: None,
        name_regex: None,
        weixin: None,
    }
}

/// Appends a copy of every id of `src` to `dst`.
fn append_ids(dst: &mut Vec<String>, src: &Vec<String>)
    ensures
        final(dst).deep_view() == old(dst).deep_view() + src.deep_view(),
{
    let mut i: usize = 0;
    while i < src.len()
        invariant
            0 <= i <= src@.len(),
            dst.deep_view() == old(dst).deep_view() + src.deep_view().take(i as int),
        decreases src@.len() - i,
    {
        let ghost pre = dst.deep_view();
        dst.push(src[i].clone());
        proof {
            assert(dst.deep_view() =~= pre.push(src.deep_view()[i as int]));
            assert(pre.push(src.deep_view()[i as int]) =~= old(dst).deep_view()
                + src.deep_view().take(i as int + 1));
        }
        i += 1;
    }
    proof {
        assert(src.deep_view().take(src@.len() as int) =~= src.deep_view());
    }
}

impl<T: PuppetImpl> Puppet<T> {
    /// Scans the given contact ids: each id is hydrated through the cache
    /// and kept exactly when its hydration succeeded and the payload
    /// matched the query; a failed hydration skips the id without aborting
    /// the scan. Over a fully resident universe the scan is deterministic:
    /// the result is the ids whose cached payloads match, no fetch is
    /// made, and the cache keeps its keys and payloads.
    fn contact_scan(&mut self, query: &ContactQueryFilter, list: &Vec<String>) -> (ids: Vec<
        String,
    >)
        requires
            old(self).wf(),
        ensures
            final(self).wf(),
            Self::same_but_contact_cache(*old(self), *final(self)),
            final(self).call_log() == old(self).call_log(),
            exists|obs: Seq<Option<ContactPayload>>|
                obs.len() == list.deep_view().len() && ids.deep_view() == spec_scan_kept(
                    list.deep_view(),
                    spec_contact_keep(obs, *query),
                ),
            spec_all_resident(old(self).contact_cache().entries(), list.deep_view()) ==> {
                &&& final(self).fetch_count() == old(self).fetch_count()
                &&& forall|k: Seq<char>|
                    #[trigger] has_key(final(self).contact_cache().entries(), k) == has_key(
                        old(self).contact_cache().entries(),
                        k,
                    )
                &&& forall|k: Seq<char>|
                    has_key(old(self).contact_cache().entries(), k) ==> #[trigger] value_of(
                        final(self).contact_cache().entries(),
                        k,
                    ) == value_of(old(self).contact_cache().entries(), k)
                &&& ids.deep_view() == spec_scan_kept(
                    list.deep_view(),
                    spec_resident_contact_keep(old(self).contact_cache().entries(), list.deep_view(), *query),
                )
            },
    {
        let ghost u = list.deep_view();
        let ghost base = old(self).contact_cache().entries();
        let ghost all_res = spec_all_resident(base, u);
        let mut out: Vec<String> = Vec::new();
        let ghost mut obs: Seq<Option<ContactPayload>> = Seq::empty();
        let mut i: usize = 0;
        while i < list.len()
            invariant
                old(self).wf(),
                self.wf(),
                Self::same_but_contact_cache(*old(self), *self),
                self.call_log() == old(self).call_log(),
                0 <= i <= list@.len(),
                u == list.deep_view(),
                u.len() == list@.len(),
                base == old(self).contact_cache().entries(),
                all_res == spec_all_resident(base, u),
                obs.len() == i,
                out.deep_view() == spec_scan_kept(u.take(i as int), spec_contact_keep(obs, *query)),
                all_res ==> {
                    &&& self.fetch_count() == old(self).fetch_count()
                    &&& forall|k: Seq<char>|
                        #[trigger] has_key(self.contact_cache().entries(), k) == has_key(base, k)
                    &&& forall|k: Seq<char>|
                        has_key(base, k) ==> #[trigger] value_of(self.contact_cache().entries(), k)
                            == value_of(base, k)
                    &&& out.deep_view() == spec_scan_kept(
                        u.take(i as int),
                        spec_resident_contact_keep(base, u.take(i as int), *query),
                    )
                },
            decreases list@.len() - i,
        {
            let ghost pre_entries = self.contact_cache().entries();
            proof {
                if all_res {
                    assert(has_key(base, u[i as int]));
                }
            }
            let fetched = self.contact_payload(list[i].clone());
            let ghost o: Option<ContactPayload> = if fetched is Ok {
                Some(fetched->Ok_0)
            } else {
                None
            };
            let keep: bool = match &fetched {
                Ok(p) => contact_query_filter_matches(query, p),
                Err(_) => false,
            };
            let ghost pre = out.deep_view();
            if keep {
                out.push(list[i].clone());
            }
            proof {
                let kb = spec_contact_keep(obs, *query);
                lemma_scan_kept_snoc(u.take(i as int), kb, u[i as int], keep);
                obs = obs.push(o);
                assert(spec_contact_keep(obs, *query) =~= kb.push(keep));
                assert(u.take(i as int).push(u[i as int]) =~= u.take(i as int + 1));
                if keep {
                    assert(out.deep_view() =~= pre.push(u[i as int]));
                } else {
                    assert(pre + Seq::<Seq<char>>::empty() =~= pre);
                }
                if all_res {
                    lemma_promote(pre_entries, u[i as int]);
                    let rb = spec_resident_contact_keep(base, u.take(i as int), *query);
                    lemma_scan_kept_snoc(u.take(i as int), rb, u[i as int], keep);
                    assert(spec_resident_contact_keep(base, u.take(i as int + 1), *query) =~= rb.push(keep));
                }
            }
            i += 1;
        }
        proof {
            assert(u.take(list@.len() as int) =~= u);
        }
        out
    }

    /// Searches contacts with a declarative query. The universe is the
    /// given id list, or the backend's full contact list when none is
    /// given; a failed universe fetch is propagated. Each candidate is
    /// hydrated through the cache and kept exactly when its payload
    /// matches; a failed hydration skips that id only.
    pub fn contact_search(
        &mut self,
        query: ContactQueryFilter,
        contact_id_list: Option<Vec<String>>,
    ) -> (r: Result<Vec<String>, PuppetError>)
        requires
            old(self).wf(),
        ensures
            final(self).wf(),
            Self::same_but_contact_cache(*old(self), *final(self)),
            contact_id_list matches Some(list) ==> {
                &&& final(self).call_log() == old(self).call_log()
                &&& (r matches Ok(ids) && exists|obs: Seq<Option<ContactPayload>>|
                    obs.len() == list.deep_view().len() && ids.deep_view() == spec_scan_kept(
                        list.deep_view(),
                        spec_contact_keep(obs, query),
                    ))
                &&& (spec_all_resident(old(self).contact_cache().entries(), list.deep_view())
                    ==> {
                    &&& final(self).fetch_count() == old(self).fetch_count()
                    &&& forall|k: Seq<char>|
                        #[trigger] has_key(final(self).contact_cache().entries(), k) == has_key(
                            old(self).contact_cache().entries(),
                            k,
                        )
                    &&& forall|k: Seq<char>|
                        has_key(old(self).contact_cache().entries(), k) ==> #[trigger] value_of(
                            final(self).contact_cache().entries(),
                            k,
                        ) == value_of(old(self).contact_cache().entries(), k)
                    &&& (r matches Ok(ids) && ids.deep_view() == spec_scan_kept(
                        list.deep_view(),
                        spec_resident_contact_keep(
                            old(self).contact_cache().entries(),
                            list.deep_view(),
                            query,
                        ),
                    ))
                })
            },
            contact_id_list is None ==> {
                &&& (r matches Err(e) ==> final(self).call_log() == old(self).call_log().push(
                    BackendOp::ContactList { outcome: Err(e) },
                ) && final(self).contact_cache() == old(self).contact_cache() && final(self).fetch_count() == old(self).fetch_count())
                &&& (r matches Ok(ids) ==> exists|
                    uu: Seq<Seq<char>>,
                    obs: Seq<Option<ContactPayload>>,
                |
                    {
                        &&& #[trigger] final(self).call_log() == old(self).call_log().push(
                            BackendOp::ContactList { outcome: Ok(uu) },
                        )
                        &&& obs.len() == uu.len()
                        &&& ids.deep_view() == spec_scan_kept(uu, spec_contact_keep(obs, query))
                    })
            },
    {
        let list = match contact_id_list {
            Some(l) => l,
            None => {
                match self.contact_list() {
                    Ok(l) => l,
                    Err(e) => {
                        return Err(e);
                    },
                }
            },
        };
        let ids = self.contact_scan(&query, &list);
        Ok(ids)
    }

    /// Searches contacts by a single string, matched against both the id
    /// and the alias independently, the two result sets unioned and
    /// deduplicated. A failed sub-search contributes nothing; the search
    /// itself always succeeds.
    pub fn contact_search_by_string(
        &mut self,
        query_str: String,
        search_id_list: Option<Vec<String>>,
    ) -> (r: Result<Vec<String>, PuppetError>)
        requires
            old(self).wf(),
        ensures
            final(self).wf(),
            Self::same_but_contact_cache(*old(self), *final(self)),
            r matches Ok(ids) && seq_distinct(ids.deep_view()),
            search_id_list is None ==> (r matches Ok(ids) ==> exists|
                o1: Result<Seq<Seq<char>>, PuppetError>,
                obs1: Seq<Option<ContactPayload>>,
                o2: Result<Seq<Seq<char>>, PuppetError>,
                obs2: Seq<Option<ContactPayload>>,
            |
                {
                    &&& final(self).call_log() == old(self).call_log().push(
                        BackendOp::ContactList { outcome: o1 },
                    ).push(BackendOp::ContactList { outcome: o2 })
                    &&& ids.deep_view().to_set() == #[trigger] spec_list_scan(
                        o1,
                        obs1,
                        spec_id_query(query_str),
                    ).to_set().union(
                        #[trigger] spec_list_scan(o2, obs2, spec_alias_query(query_str)).to_set(),
                    )
                }),
            search_id_list matches Some(list) ==> {
                &&& final(self).call_log() == old(self).call_log()
                &&& (r matches Ok(ids) && exists|
                    obs1: Seq<Option<ContactPayload>>,
                    obs2: Seq<Option<ContactPayload>>,
                |
                    ids.deep_view().to_set() == spec_scan_kept(
                        list.deep_view(),
                        spec_contact_keep(obs1, spec_id_query(query_str)),
                    ).to_set().union(
                        spec_scan_kept(
                            list.deep_view(),
                            spec_contact_keep(obs2, spec_alias_query(query_str)),
                        ).to_set(),
                    ))
                &&& (spec_all_resident(old(self).contact_cache().entries(), list.deep_view())
                    ==> (r matches Ok(ids) && ids.deep_view().to_set() == spec_scan_kept(
                    list.deep_view(),
                    spec_resident_contact_keep(
                        old(self).contact_cache().entries(),
                        list.deep_view(),
                        spec_id_query(query_str),
                    ),
                ).to_set().union(
                    spec_scan_kept(
                        list.deep_view(),
                        spec_resident_contact_keep(
                            old(self).contact_cache().entries(),
                            list.deep_view(),
                            spec_alias_query(query_str),
                        ),
                    ).to_set(),
                )))
            },
    {
        let list_copy: Option<Vec<String>> = match &search_id_list {
            Some(l) => Some(crate::util::clone_string_vec(l)),
            None => None,
        };
        let search_by_id = self.contact_search(
            ContactQueryFilter {
                alias: None,
                alias_regex: None,
                id: Some(query_str.clone()),
                name: None,
                name_regex: None,
                weixin: None,
            },
            list_copy,
        );
        let ghost mid_entries = self.contact_cache().entries();
        let ghost mid_log = self.call_log();
        let search_by_alias = self.contact_search(
            ContactQueryFilter {
                alias: Some(query_str),
                alias_regex: None,
                id: None,
                name: None,
                name_regex: None,
                weixin: None,
            },
            search_id_list,
        );
        let mut filtered_contact_id_list: Vec<String> = Vec::new();
        let ghost mut first: Seq<Seq<char>> = Seq::empty();
        match &search_by_id {
            Ok(contact_id_list) => {
                append_ids(&mut filtered_contact_id_list, contact_id_list);
                proof {
                    first = contact_id_list.deep_view();
                    assert(filtered_contact_id_list.deep_view() =~= first);
                }
            },
            Err(_) => {
            },
        }
        let ghost combined_pre = filtered_contact_id_list.deep_view();
        match &search_by_alias {
            Ok(contact_id_list) => {
                append_ids(&mut filtered_contact_id_list, contact_id_list);
            },
            Err(_) => {
            },
        }
        let out = dedup_ids(filtered_contact_id_list);
        proof {
            if search_id_list is None {
                let idq = spec_id_query(query_str);
                let aq = spec_alias_query(query_str);
                let o1: Result<Seq<Seq<char>>, PuppetError> = if search_by_id is Err {
                    Err(search_by_id->Err_0)
                } else {
                    {
                        let (uu, obs) = choose|uu: Seq<Seq<char>>, obs: Seq<Option<ContactPayload>>|
                            {
                                &&& mid_log == #[trigger] old(self).call_log().push(
                                    BackendOp::ContactList { outcome: Ok(uu) },
                                )
                                &&& obs.len() == uu.len()
                                &&& (search_by_id->Ok_0).deep_view() == spec_scan_kept(
                                    uu,
                                    #[trigger] spec_contact_keep(obs, idq),
                                )
                            };
                        Ok(uu)
                    }
                };
                let obs1: Seq<Option<ContactPayload>> = if search_by_id is Err {
                    Seq::empty()
                } else {
                    choose|obs: Seq<Option<ContactPayload>>|
                        {
                            &&& mid_log == old(self).call_log().push(
                                BackendOp::ContactList { outcome: o1 },
                            )
                            &&& obs.len() == (o1->Ok_0).len()
                            &&& (search_by_id->Ok_0).deep_view() == spec_scan_kept(
                                o1->Ok_0,
                                #[trigger] spec_contact_keep(obs, idq),
                            )
                        }
                };
                assert(first =~= spec_list_scan(o1, obs1, idq)) by {
                    if search_by_id is Err {
                        assert(first =~= Seq::<Seq<char>>::empty());
                    }
                }
                assert(mid_log == old(self).call_log().push(
                    BackendOp::ContactList { outcome: o1 },
                ));
                let o2: Result<Seq<Seq<char>>, PuppetError> = if search_by_alias is Err {
                    Err(search_by_alias->Err_0)
                } else {
                    {
                        let (uu, obs) = choose|uu: Seq<Seq<char>>, obs: Seq<Option<ContactPayload>>|
                            {
                                &&& self.call_log() == #[trigger] mid_log.push(
                                    BackendOp::ContactList { outcome: Ok(uu) },
                                )
                                &&& obs.len() == uu.len()
                                &&& (search_by_alias->Ok_0).deep_view() == spec_scan_kept(
                                    uu,
                                    #[trigger] spec_contact_keep(obs, aq),
                                )
                            };
                        Ok(uu)
                    }
                };
                let obs2: Seq<Option<ContactPayload>> = if search_by_alias is Err {
                    Seq::empty()
                } else {
                    choose|obs: Seq<Option<ContactPayload>>|
                        {
                            &&& self.call_log() == mid_log.push(
                                BackendOp::ContactList { outcome: o2 },
                            )
                            &&& obs.len() == (o2->Ok_0).len()
                            &&& (search_by_alias->Ok_0).deep_view() == spec_scan_kept(
                                o2->Ok_0,
                                #[trigger] spec_contact_keep(obs, aq),
                            )
                        }
                };
                let second: Seq<Seq<char>> = if search_by_alias is Err {
                    Seq::empty()
                } else {
                    (search_by_alias->Ok_0).deep_view()
                };
                assert(second =~= spec_list_scan(o2, obs2, aq));
                assert(self.call_log() == old(self).call_log().push(
                    BackendOp::ContactList { outcome: o1 },
                ).push(BackendOp::ContactList { outcome: o2 }));
                assert(filtered_contact_id_list.deep_view() =~= first + second);
                lemma_to_set_add(first, second);
                assert(out.deep_view().to_set() == spec_list_scan(o1, obs1, idq).to_set().union(
                    spec_list_scan(o2, obs2, aq).to_set(),
                ));
            }
            if search_id_list is Some {
                let listv = (search_id_list->Some_0).deep_view();
                let obs1 = choose|obs: Seq<Option<ContactPayload>>|
                    obs.len() == listv.len() && (search_by_id->Ok_0).deep_view()
                        == spec_scan_kept(
                        listv,
                        spec_contact_keep(obs, spec_id_query(query_str)),
                    );
                let obs2 = choose|obs: Seq<Option<ContactPayload>>|
                    obs.len() == listv.len() && (search_by_alias->Ok_0).deep_view()
                        == spec_scan_kept(
                        listv,
                        spec_contact_keep(obs, spec_alias_query(query_str)),
                    );
                lemma_to_set_add(
                    (search_by_id->Ok_0).deep_view(),
                    (search_by_alias->Ok_0).deep_view(),
                );
                let e0 = old(self).contact_cache().entries();
                if spec_all_resident(e0, listv) {
                    // the first pass only promoted entries, so the second
                    // pass scanned the same resident payloads
                    assert(spec_resident_contact_keep(mid_entries, listv, spec_alias_query(query_str))
                        =~= spec_resident_contact_keep(e0, listv, spec_alias_query(query_str))) by {
                        assert forall|i: int| 0 <= i < listv.len() implies value_of(
                            mid_entries,
                            listv[i],
                        ) == value_of(e0, listv[i]) by {
                            assert(has_key(e0, listv[i]));
                        }
                    }
                }
            }
        }
        Ok(out)
    }

    /// Scans the given message ids, all of them resident in the message
    /// cache: each id is kept exactly when its cached payload matches the
    /// query. No fetch is made and the cache keeps its keys and payloads.
    fn message_scan(&mut self, query: &MessageQueryFilter, list: &Vec<String>) -> (ids: Vec<
        String,
    >)
        requires
            old(self).wf(),
        ensures
            final(self).wf(),
            Self::same_but_message_cache(*old(self), *final(self)),
            final(self).call_log() == old(self).call_log(),
            exists|obs: Seq<Option<MessagePayload>>|
                obs.len() == list.deep_view().len() && ids.deep_view() == spec_scan_kept(
                    list.deep_view(),
                    spec_message_keep(obs, *query),
                ),
            spec_all_resident(old(self).message_cache().entries(), list.deep_view()) ==> {
                &&& final(self).fetch_count() == old(self).fetch_count()
                &&& forall|k: Seq<char>|
                    #[trigger] has_key(final(self).message_cache().entries(), k) == has_key(
                        old(self).message_cache().entries(),
                        k,
                    )
                &&& forall|k: Seq<char>|
                    has_key(old(self).message_cache().entries(), k) ==> #[trigger] value_of(
                        final(self).message_cache().entries(),
                        k,
                    ) == value_of(old(self).message_cache().entries(), k)
                &&& ids.deep_view() == spec_scan_kept(
                    list.deep_view(),
                    spec_resident_message_keep(old(self).message_cache().entries(), list.deep_view(), *query),
                )
            },
    {
        let ghost u = list.deep_view();
        let ghost base = old(self).message_cache().entries();
        let ghost all_res = spec_all_resident(base, u);
        let mut out: Vec<String> = Vec::new();
        let ghost mut obs: Seq<Option<MessagePayload>> = Seq::empty();
        let mut i: usize = 0;
        while i < list.len()
            invariant
                old(self).wf(),
                self.wf(),
                Self::same_but_message_cache(*old(self), *self),
                self.call_log() == old(self).call_log(),
                0 <= i <= list@.len(),
                u == list.deep_view(),
                u.len() == list@.len(),
                base == old(self).message_cache().entries(),
                all_res == spec_all_resident(base, u),
                obs.len() == i,
                out.deep_view() == spec_scan_kept(u.take(i as int), spec_message_keep(obs, *query)),
                all_res ==> {
                    &&& self.fetch_count() == old(self).fetch_count()
                    &&& forall|k: Seq<char>|
                        #[trigger] has_key(self.message_cache().entries(), k) == has_key(base, k)
                    &&& forall|k: Seq<char>|
                        has_key(base, k) ==> #[trigger] value_of(self.message_cache().entries(), k)
                            == value_of(base, k)
                    &&& out.deep_view() == spec_scan_kept(
                        u.take(i as int),
                        spec_resident_message_keep(base, u.take(i as int), *query),
                    )
                },
            decreases list@.len() - i,
        {
            let ghost pre_entries = self.message_cache().entries();
            proof {
                if all_res {
                    assert(has_key(base, u[i as int]));
                }
            }
            let fetched = self.message_payload(list[i].clone());
            let ghost o: Option<MessagePayload> = if fetched is Ok {
                Some(fetched->Ok_0)
            } else {
                None
            };
            let keep: bool = match &fetched {
                Ok(p) => message_query_filter_matches(query, p),
                Err(_) => false,
            };
            let ghost pre = out.deep_view();
            if keep {
                out.push(list[i].clone());
            }
            proof {
                let kb = spec_message_keep(obs, *query);
                lemma_scan_kept_snoc(u.take(i as int), kb, u[i as int], keep);
                obs = obs.push(o);
                assert(spec_message_keep(obs, *query) =~= kb.push(keep));
                assert(u.take(i as int).push(u[i as int]) =~= u.take(i as int + 1));
                if keep {
                    assert(out.deep_view() =~= pre.push(u[i as int]));
                } else {
                    assert(pre + Seq::<Seq<char>>::empty() =~= pre);
                }
                if all_res {
                    lemma_promote(pre_entries, u[i as int]);
                    let rb = spec_resident_message_keep(base, u.take(i as int), *query);
                    lemma_scan_kept_snoc(u.take(i as int), rb, u[i as int], keep);
                    assert(spec_resident_message_keep(base, u.take(i as int + 1), *query) =~= rb.push(keep));
                }
            }
            i += 1;
        }
        proof {
            assert(u.take(list@.len() as int) =~= u);
        }
        out
    }

    /// Searches messages with a declarative query. The universe is what is
    /// resident in the message cache at the time of the call: there is no
    /// remote list-all-messages capability, so search visibility is
    /// bounded by what has already been hydrated.
    pub fn message_search(&mut self, query: MessageQueryFilter) -> (r: Result<
        Vec<String>,
        PuppetError,
    >)
        requires
            old(self).wf(),
        ensures
            final(self).wf(),
            Self::same_but_message_cache(*old(self), *final(self)),
            final(self).call_log() == old(self).call_log(),
            final(self).fetch_count() == old(self).fetch_count(),
            forall|k: Seq<char>|
                #[trigger] has_key(final(self).message_cache().entries(), k) == has_key(
                    old(self).message_cache().entries(),
                    k,
                ),
            r matches Ok(ids) && ids.deep_view() == spec_scan_kept(
                old(self).message_cache().entries().map_values(|kv: (Seq<char>, Payload)| kv.0),
                spec_resident_message_keep(
                    old(self).message_cache().entries(),
                    old(self).message_cache().entries().map_values(
                        |kv: (Seq<char>, Payload)| kv.0,
                    ),
                    query,
                ),
            ),
    {
        let message_id_list = self.message_list();
        proof {
            let e0 = self.message_cache().entries();
            assert forall|i: int|
                0 <= i < message_id_list.deep_view().len() implies has_key(
                e0,
                #[trigger] message_id_list.deep_view()[i],
            ) by {
                assert(message_id_list.deep_view()[i] == e0[i].0);
                lemma_key_at(e0, i);
            }
        }
        let ids = self.message_scan(&query, &message_id_list);
        Ok(ids)
    }

    /// Scans the given room ids: each id is hydrated through the cache
    /// and kept exactly when its hydration succeeded and the payload
    /// matched the query. Over a fully resident universe the scan is
    /// deterministic, fetch-free and keeps the cache's keys and payloads.
    fn room_scan(&mut self, query: &RoomQueryFilter, list: &Vec<String>) -> (ids: Vec<
        String,
    >)
        requires
            old(self).wf(),
        ensures
            final(self).wf(),
            Self::same_but_room_cache(*old(self), *final(self)),
            final(self).call_log() == old(self).call_log(),
            exists|obs: Seq<Option<RoomPayload>>|
                obs.len() == list.deep_view().len() && ids.deep_view() == spec_scan_kept(
                    list.deep_view(),
                    spec_room_keep(obs, *query),
                ),
            list.deep_view().len() == 0 ==> final(self).room_cache() == old(self).room_cache(),
            spec_all_resident(old(self).room_cache().entries(), list.deep_view()) ==> {
                &&& final(self).fetch_count() == old(self).fetch_count()
                &&& forall|k: Seq<char>|
                    #[trigger] has_key(final(self).room_cache().entries(), k) == has_key(
                        old(self).room_cache().entries(),
                        k,
                    )
                &&& forall|k: Seq<char>|
                    has_key(old(self).room_cache().entries(), k) ==> #[trigger] value_of(
                        final(self).room_cache().entries(),
                        k,
                    ) == value_of(old(self).room_cache().entries(), k)
                &&& ids.deep_view() == spec_scan_kept(
                    list.deep_view(),
                    spec_resident_room_keep(old(self).room_cache().entries(), list.deep_view(), *query),
                )
            },
    {
        let ghost u = list.deep_view();
        let ghost base = old(self).room_cache().entries();
        let ghost all_res = spec_all_resident(base, u);
        let mut out: Vec<String> = Vec::new();
        let ghost mut obs: Seq<Option<RoomPayload>> = Seq::empty();
        let mut i: usize = 0;
        while i < list.len()
            invariant
                old(self).wf(),
                self.wf(),
                Self::same_but_room_cache(*old(self), *self),
                self.call_log() == old(self).call_log(),
                0 <= i <= list@.len(),
                u == list.deep_view(),
                u.len() == list@.len(),
                base == old(self).room_cache().entries(),
                all_res == spec_all_resident(base, u),
                u.len() == 0 ==> *self == *old(self),
                obs.len() == i,
                out.deep_view() == spec_scan_kept(u.take(i as int), spec_room_keep(obs, *query)),
                all_res ==> {
                    &&& self.fetch_count() == old(self).fetch_count()
                    &&& forall|k: Seq<char>|
                        #[trigger] has_key(self.room_cache().entries(), k) == has_key(base, k)
                    &&& forall|k: Seq<char>|
                        has_key(base, k) ==> #[trigger] value_of(self.room_cache().entries(), k)
                            == value_of(base, k)
                    &&& out.deep_view() == spec_scan_kept(
                        u.take(i as int),
                        spec_resident_room_keep(base, u.take(i as int), *query),
                    )
                },
            decreases list@.len() - i,
        {
            let ghost pre_entries = self.room_cache().entries();
            proof {
                if all_res {
                    assert(has_key(base, u[i as int]));
                }
            }
            let fetched = self.room_payload(list[i].clone());
            let ghost o: Option<RoomPayload> = if fetched is Ok {
                Some(fetched->Ok_0)
            } else {
                None
            };
            let keep: bool = match &fetched {
                Ok(p) => room_query_filter_matches(query, p),
                Err(_) => false,
            };
            let ghost pre = out.deep_view();
            if keep {
                out.push(list[i].clone());
            }
            proof {
                let kb = spec_room_keep(obs, *query);
                lemma_scan_kept_snoc(u.take(i as int), kb, u[i as int], keep);
                obs = obs.push(o);
                assert(spec_room_keep(obs, *query) =~= kb.push(keep));
                assert(u.take(i as int).push(u[i as int]) =~= u.take(i as int + 1));
                if keep {
                    assert(out.deep_view() =~= pre.push(u[i as int]));
                } else {
                    assert(pre + Seq::<Seq<char>>::empty() =~= pre);
                }
                if all_res {
                    lemma_promote(pre_entries, u[i as int]);
                    let rb = spec_resident_room_keep(base, u.take(i as int), *query);
                    lemma_scan_kept_snoc(u.take(i as int), rb, u[i as int], keep);
                    assert(spec_resident_room_keep(base, u.take(i as int + 1), *query) =~= rb.push(keep));
                }
            }
            i += 1;
        }
        proof {
            assert(u.take(list@.len() as int) =~= u);
        }
        out
    }

    /// Searches rooms with a declarative query. The universe is the
    /// backend's room list; a failed list call is propagated unchanged, as
    /// every transport failure of a single-item operation is. Each
    /// candidate is hydrated through the cache and kept exactly when its
    /// payload matches; a failed hydration skips that id only.
    pub fn room_search(&mut self, query: RoomQueryFilter) -> (r: Result<Vec<String>, PuppetError>)
        requires
            old(self).wf(),
        ensures
            final(self).wf(),
            Self::same_but_room_cache(*old(self), *final(self)),
            r matches Err(e) ==> final(self).call_log() == old(self).call_log().push(
                BackendOp::RoomList { outcome: Err(e) },
            ) && final(self).room_cache() == old(self).room_cache() && final(self).fetch_count()
                == old(self).fetch_count(),
            r matches Ok(ids) ==> exists|uu: Seq<Seq<char>>, obs: Seq<Option<RoomPayload>>|
                {
                    &&& #[trigger] final(self).call_log() == old(self).call_log().push(
                        BackendOp::RoomList { outcome: Ok(uu) },
                    )
                    &&& obs.len() == uu.len()
                    &&& ids.deep_view() == spec_scan_kept(uu, spec_room_keep(obs, query))
                    &&& (spec_all_resident(old(self).room_cache().entries(), uu)
                        ==> ids.deep_view() == spec_scan_kept(
                        uu,
                        spec_resident_room_keep(old(self).room_cache().entries(), uu, query),
                    ))
                },
    {
        let room_id_list = match self.room_list() {
            Ok(room_id_list) => room_id_list,
            Err(e) => {
                return Err(e);
            },
        };
        let ids = self.room_scan(&query, &room_id_list);
        Ok(ids)
    }
}

} // verus!
