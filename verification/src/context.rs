//! The shared façade: owns the puppet (caches, registry, backend handle),
//! the authenticated identity, and the per-kind snapshot stores; every
//! entity hydration goes through it.
use vstd::prelude::*;
use crate::cache::{
    has_key, insert_front, lemma_idx_of, lemma_insert_front, lemma_insert_front_no_new_keys,
    lemma_promote, lemma_remove_key, remove_key,
};
use crate::schemas::payload::Payload;
use crate::error::WechatyError;
use crate::puppet::{spec_evict_members, BackendOp, Puppet, PuppetImpl};
use crate::query::{
    seq_distinct, spec_cached_message_results, spec_contact_keep, spec_resident_message_keep,
    spec_scan_kept, spec_searched_then_kept,
};
use crate::schemas::contact::{ContactPayload, ContactQueryFilter};
use crate::schemas::message::{MessagePayload, MessageQueryFilter};
use crate::schemas::payload::PayloadType;
use crate::schemas::room::RoomPayload;
use crate::store::{store_upsert, SnapshotStore};
use crate::user::contact::Contact;
use crate::user::message::Message;
use crate::user::room::Room;
use crate::util::{clone_contact_payload, clone_message_payload, clone_opt_string,
    clone_room_payload, clone_string_vec};

verus! {

/// The context: the puppet, the authenticated identity, and one snapshot
/// store per entity kind kept eventually consistent with the caches.
pub struct WechatyContext<T: PuppetImpl> {
    id_: Option<String>,
    puppet_: Puppet<T>,
    contacts_: SnapshotStore<ContactPayload>,
    messages_: SnapshotStore<MessagePayload>,
    rooms_: SnapshotStore<RoomPayload>,
}

impl<T: PuppetImpl> WechatyContext<T> {
    pub closed spec fn id_spec(self) -> Option<String> {
        self.id_
    }

    pub closed spec fn puppet_spec(self) -> Puppet<T> {
        self.puppet_
    }

    pub closed spec fn contacts_spec(self) -> SnapshotStore<ContactPayload> {
        self.contacts_
    }

    pub closed spec fn messages_spec(self) -> SnapshotStore<MessagePayload> {
        self.messages_
    }

    pub closed spec fn rooms_spec(self) -> SnapshotStore<RoomPayload> {
        self.rooms_
    }

    pub open spec fn wf(self) -> bool {
        &&& self.puppet_spec().wf()
        &&& self.contacts_spec().wf()
        &&& self.messages_spec().wf()
        &&& self.rooms_spec().wf()
    }

    pub open spec fn is_logged_in_spec(self) -> bool {
        self.id_spec() is Some
    }

    /// Hydration bookkeeping for contacts: the snapshot store only grows,
    /// and any contact newly left in the puppet's cache was also recorded
    /// in the store.
    pub open spec fn spec_contacts_tracked(pre: Self, post: Self) -> bool {
        &&& forall|f: Seq<char>|
            #[trigger] pre.contacts_spec().has(f) ==> post.contacts_spec().has(f)
        &&& forall|f: Seq<char>|
            #[trigger] post.puppet_spec().contact_cache().has(f)
                ==> pre.puppet_spec().contact_cache().has(f) || post.contacts_spec().has(f)
    }

    /// Hydration bookkeeping for rooms, as for contacts.
    pub open spec fn spec_rooms_tracked(pre: Self, post: Self) -> bool {
        &&& forall|f: Seq<char>| #[trigger] pre.rooms_spec().has(f) ==> post.rooms_spec().has(f)
        &&& forall|f: Seq<char>|
            #[trigger] post.puppet_spec().room_cache().has(f)
                ==> pre.puppet_spec().room_cache().has(f) || post.rooms_spec().has(f)
    }

    /// A context around the given puppet: no identity, empty stores.
    pub fn new(puppet: Puppet<T>) -> (r: Self)
        requires
            puppet.wf(),
        ensures
            r.wf(),
            r.id_spec() is None,
            r.puppet_spec() == puppet,
            r.contacts_spec().entries() == Seq::<(Seq<char>, ContactPayload)>::empty(),
            r.messages_spec().entries() == Seq::<(Seq<char>, MessagePayload)>::empty(),
            r.rooms_spec().entries() == Seq::<(Seq<char>, RoomPayload)>::empty(),
    {
        WechatyContext {
            id_: None,
            puppet_: puppet,
            contacts_: SnapshotStore::new(),
            messages_: SnapshotStore::new(),
            rooms_: SnapshotStore::new(),
        }
    }

    /// The puppet, for operations that go straight to the cache front.
    pub fn puppet(&mut self) -> (r: &mut Puppet<T>)
        ensures
            *r == old(self).puppet_spec(),
            final(self).puppet_spec() == *final(r),
            final(self).id_spec() == old(self).id_spec(),
            final(self).contacts_spec() == old(self).contacts_spec(),
            final(self).messages_spec() == old(self).messages_spec(),
            final(self).rooms_spec() == old(self).rooms_spec(),
    {
        &mut self.puppet_
    }

    /// The contact snapshot store.
    pub fn contacts(&self) -> (r: &SnapshotStore<ContactPayload>)
        ensures
            *r == self.contacts_spec(),
    {
        &self.contacts_
    }

    /// The message snapshot store.
    pub fn messages(&self) -> (r: &SnapshotStore<MessagePayload>)
        ensures
            *r == self.messages_spec(),
    {
        &self.messages_
    }

    /// The room snapshot store.
    pub fn rooms(&self) -> (r: &SnapshotStore<RoomPayload>)
        ensures
            *r == self.rooms_spec(),
    {
        &self.rooms_
    }

    /// The authenticated identity, if any.
    pub fn id(&self) -> (r: Option<String>)
        ensures
            r == self.id_spec(),
    {
        clone_opt_string(&self.id_)
    }

    /// Records a successful login.
    pub fn set_id(&mut self, id: String)
        ensures
            final(self).id_spec() == Some(id),
            final(self).puppet_spec() == old(self).puppet_spec(),
            final(self).contacts_spec() == old(self).contacts_spec(),
            final(self).messages_spec() == old(self).messages_spec(),
            final(self).rooms_spec() == old(self).rooms_spec(),
    {
        self.id_ = Some(id);
    }

    /// Clears the identity after a logout.
    pub fn clear_id(&mut self)
        ensures
            final(self).id_spec() is None,
            final(self).puppet_spec() == old(self).puppet_spec(),
            final(self).contacts_spec() == old(self).contacts_spec(),
            final(self).messages_spec() == old(self).messages_spec(),
            final(self).rooms_spec() == old(self).rooms_spec(),
    {
        self.id_ = None;
    }

    /// Whether an identity is currently authenticated; find and search
    /// operations fail fast without one.
    pub fn is_logged_in(&self) -> (r: bool)
        ensures
            r == self.is_logged_in_spec(),
    {
        match &self.id_ {
            Some(_) => true,
            None => false,
        }
    }

    /// Hydrates a contact handle. With `force_sync` the cache entry is
    /// dirtied first, so exactly one backend fetch happens; without it a
    /// handle that already has a payload is left alone, and otherwise the
    /// cache answers or one fetch is made. A successful hydration also
    /// refreshes the snapshot store.
    pub fn contact_ready(&mut self, contact: &mut Contact, force_sync: bool) -> (r: Result<
        (),
        WechatyError,
    >)
        requires
            old(self).wf(),
        ensures
            final(self).wf(),
            final(self).id_spec() == old(self).id_spec(),
            final(self).messages_spec() == old(self).messages_spec(),
            final(self).rooms_spec() == old(self).rooms_spec(),
            final(self).puppet_spec().message_cache() == old(self).puppet_spec().message_cache(),
            final(self).puppet_spec().room_cache() == old(self).puppet_spec().room_cache(),
            final(self).puppet_spec().room_member_cache() == old(self).puppet_spec().room_member_cache(),
            final(self).puppet_spec().friendship_cache() == old(self).puppet_spec().friendship_cache(),
            final(self).puppet_spec().room_invitation_cache() == old(self).puppet_spec().room_invitation_cache(),
            final(self).puppet_spec().registry() == old(self).puppet_spec().registry(),
            final(self).puppet_spec().call_log() == old(self).puppet_spec().call_log(),
            final(self).puppet_spec().fetch_count() >= old(self).puppet_spec().fetch_count(),
            final(self).puppet_spec().fetch_count() <= old(self).puppet_spec().fetch_count() + 1,
            final(contact).id_ == old(contact).id_,
            (!force_sync && old(contact).payload_ is Some) ==> (r == Ok::<(), WechatyError>(())
                && *final(self) == *old(self) && *final(contact) == *old(contact)),
            force_sync ==> final(self).puppet_spec().fetch_count() == old(self).puppet_spec().fetch_count() + 1,
            (force_sync || old(contact).payload_ is None) ==> {
                &&& (r matches Ok(u) ==> (final(contact).payload_ matches Some(p)
                    && final(self).contacts_spec().entries() == store_upsert(
                    old(self).contacts_spec().entries(),
                    old(contact).id_@,
                    p,
                ) && final(self).contacts_spec().has(old(contact).id_@) && final(self).contacts_spec().val(old(contact).id_@) == p && final(self).puppet_spec().contact_cache().has(old(contact).id_@) && final(self).puppet_spec().contact_cache().value(old(contact).id_@) == Payload::Contact(p)))
                &&& (r matches Err(e) ==> e matches WechatyError::Puppet(_) && *final(contact)
                    == *old(contact) && final(self).contacts_spec() == old(self).contacts_spec())
            },
            force_sync ==> (r matches Ok(u) ==> (final(contact).payload_ matches Some(p)
                && final(self).puppet_spec().contact_cache().entries() == insert_front(
                remove_key(
                    old(self).puppet_spec().contact_cache().entries(),
                    old(contact).id_@,
                ),
                old(self).puppet_spec().contact_cache().limit(),
                old(contact).id_@,
                Payload::Contact(p),
            ))),
            (force_sync || old(contact).payload_ is None) ==> (r is Err ==> !final(self).puppet_spec().contact_cache().has(old(contact).id_@)),
            Self::spec_contacts_tracked(*old(self), *final(self)),
    {
        if !force_sync && contact.payload_.is_some() {
            return Ok(());
        }
        let id = contact.id();
        let ghost orig_entries = self.puppet_.contact_cache().entries();
        let ghost orig_limit = self.puppet_.contact_cache().limit();
        if force_sync {
            let _ = self.puppet_.dirty_payload(PayloadType::Contact, id.clone());
            proof {
                lemma_remove_key(orig_entries, id@);
            }
        }
        let ghost e_pre = self.puppet_.contact_cache().entries();
        let ghost lim_pre = self.puppet_.contact_cache().limit();
        match self.puppet_.contact_payload(id.clone()) {
            Ok(p) => {
                proof {
                    if has_key(e_pre, id@) {
                        lemma_idx_of(e_pre, id@);
                        lemma_promote(e_pre, id@);
                    } else {
                        lemma_insert_front(e_pre, lim_pre, id@, Payload::Contact(p));
                    }
                    assert(self.puppet_.contact_cache().has(id@));
                    if force_sync {
                        assert(e_pre == remove_key(orig_entries, id@));
                        assert(lim_pre == orig_limit);
                        assert(self.puppet_.contact_cache().entries() == insert_front(
                            remove_key(orig_entries, id@),
                            orig_limit,
                            id@,
                            Payload::Contact(p),
                        ));
                    }
                    if !has_key(e_pre, id@) {
                        lemma_insert_front_no_new_keys(e_pre, lim_pre, id@, Payload::Contact(p));
                    }
                }
                let ghost store0 = self.contacts_.entries();
                let ghost cache_now = self.puppet_.contact_cache().entries();
                self.contacts_.insert(id, clone_contact_payload(&p));
                contact.set_payload(Some(p));
                proof {
                    crate::store::lemma_store_upsert(store0, old(contact).id_@, p);
                    assert forall|f: Seq<char>|
                        #[trigger] self.puppet_spec().contact_cache().has(f) implies old(self).puppet_spec().contact_cache().has(f) || self.contacts_spec().has(f) by {
                        if f != id@ {
                            assert(has_key(cache_now, f) ==> has_key(e_pre, f));
                            if force_sync {
                                assert(has_key(e_pre, f) ==> has_key(orig_entries, f));
                            }
                        }
                    }
                }
                Ok(())
            },
            Err(e) => {
                proof {
                    if has_key(self.puppet_.contact_cache().entries(), id@) {
                        assert(false);
                    }
                    assert forall|f: Seq<char>|
                        #[trigger] self.puppet_spec().contact_cache().has(f) implies old(self).puppet_spec().contact_cache().has(f) || self.contacts_spec().has(f) by {
                        if force_sync {
                            assert(has_key(e_pre, f) ==> has_key(orig_entries, f));
                        }
                    }
                }
                Err(WechatyError::Puppet(e))
            },
        }
    }

    /// Loads a contact: behind the login gate, the snapshot store answers
    /// first; a miss forces a full hydration cycle (dirty, fetch, store).
    pub fn contact_load(&mut self, contact_id: String) -> (r: Result<Contact, WechatyError>)
        requires
            old(self).wf(),
        ensures
            final(self).wf(),
            final(self).id_spec() == old(self).id_spec(),
            final(self).messages_spec() == old(self).messages_spec(),
            final(self).rooms_spec() == old(self).rooms_spec(),
            final(self).puppet_spec().message_cache() == old(self).puppet_spec().message_cache(),
            final(self).puppet_spec().room_cache() == old(self).puppet_spec().room_cache(),
            final(self).puppet_spec().room_member_cache() == old(self).puppet_spec().room_member_cache(),
            final(self).puppet_spec().friendship_cache() == old(self).puppet_spec().friendship_cache(),
            final(self).puppet_spec().room_invitation_cache() == old(self).puppet_spec().room_invitation_cache(),
            final(self).puppet_spec().registry() == old(self).puppet_spec().registry(),
            final(self).puppet_spec().call_log() == old(self).puppet_spec().call_log(),
            final(self).puppet_spec().fetch_count() >= old(self).puppet_spec().fetch_count(),
            !old(self).is_logged_in_spec() ==> r == Err::<Contact, WechatyError>(
                WechatyError::NotLoggedIn,
            ) && *final(self) == *old(self),
            (old(self).is_logged_in_spec() && old(self).contacts_spec().has(contact_id@)) ==> (r
                matches Ok(c) && c.id_ == contact_id && c.payload_ == Some(
                old(self).contacts_spec().val(contact_id@),
            ) && *final(self) == *old(self)),
            (old(self).is_logged_in_spec() && !old(self).contacts_spec().has(contact_id@)) ==> {
                &&& final(self).puppet_spec().fetch_count() == old(self).puppet_spec().fetch_count() + 1
                &&& (r matches Ok(c) ==> c.id_ == contact_id && (c.payload_ matches Some(p) && final(self).contacts_spec().entries() == store_upsert(
                    old(self).contacts_spec().entries(),
                    contact_id@,
                    p,
                ) && final(self).puppet_spec().contact_cache().has(contact_id@) && final(self).puppet_spec().contact_cache().value(contact_id@) == Payload::Contact(p)))
                &&& (r matches Err(e) ==> e matches WechatyError::Puppet(_) && final(self).contacts_spec() == old(self).contacts_spec())
            },
            Self::spec_contacts_tracked(*old(self), *final(self)),
            old(self).is_logged_in_spec() ==> (final(self).contacts_spec().has(contact_id@)
                || !final(self).puppet_spec().contact_cache().has(contact_id@)),
    {
        if !self.is_logged_in() {
            return Err(WechatyError::NotLoggedIn);
        }
        let mut contact = Contact::new(contact_id, self, None);
        if contact.payload_.is_none() {
            match self.contact_ready(&mut contact, true) {
                Ok(_) => Ok(contact),
                Err(e) => Err(e),
            }
        } else {
            Ok(contact)
        }
    }

    /// Loads a batch of contacts one by one, keeping the ids that loaded
    /// and silently dropping the ones that failed: partial success is the
    /// expected outcome.
    pub fn contact_load_batch(&mut self, contact_id_list: Vec<String>) -> (r: Vec<Contact>)
        requires
            old(self).wf(),
        ensures
            final(self).wf(),
            final(self).id_spec() == old(self).id_spec(),
            final(self).messages_spec() == old(self).messages_spec(),
            final(self).rooms_spec() == old(self).rooms_spec(),
            final(self).puppet_spec().message_cache() == old(self).puppet_spec().message_cache(),
            final(self).puppet_spec().room_cache() == old(self).puppet_spec().room_cache(),
            final(self).puppet_spec().room_member_cache() == old(self).puppet_spec().room_member_cache(),
            final(self).puppet_spec().friendship_cache() == old(self).puppet_spec().friendship_cache(),
            final(self).puppet_spec().room_invitation_cache() == old(self).puppet_spec().room_invitation_cache(),
            final(self).puppet_spec().registry() == old(self).puppet_spec().registry(),
            final(self).puppet_spec().call_log() == old(self).puppet_spec().call_log(),
            final(self).puppet_spec().fetch_count() >= old(self).puppet_spec().fetch_count(),
            exists|keep: Seq<bool>|
                {
                    &&& keep.len() == contact_id_list.deep_view().len()
                    &&& r@.map_values(|c: Contact| c.id_@) == spec_scan_kept(
                        contact_id_list.deep_view(),
                        keep,
                    )
                    &&& (old(self).is_logged_in_spec() ==> forall|j: int|
                        0 <= j < keep.len() && old(self).contacts_spec().has(
                            #[trigger] contact_id_list.deep_view()[j],
                        ) ==> keep[j])
                },
            forall|j: int| 0 <= j < r@.len() ==> (#[trigger] r@[j]).payload_ is Some,
            !old(self).is_logged_in_spec() ==> r@.len() == 0,
            Self::spec_contacts_tracked(*old(self), *final(self)),
            old(self).is_logged_in_spec() ==> forall|j: int|
                0 <= j < contact_id_list.deep_view().len() ==> (final(self).contacts_spec().has(
                    #[trigger] contact_id_list.deep_view()[j],
                ) || !final(self).puppet_spec().contact_cache().has(
                    contact_id_list.deep_view()[j],
                )),
    {
        let ghost u = contact_id_list.deep_view();
        let mut out: Vec<Contact> = Vec::new();
        let ghost mut keep: Seq<bool> = Seq::empty();
        let mut i: usize = 0;
        while i < contact_id_list.len()
            invariant
                old(self).wf(),
                self.wf(),
                self.id_spec() == old(self).id_spec(),
                self.messages_spec() == old(self).messages_spec(),
                self.rooms_spec() == old(self).rooms_spec(),
                self.puppet_spec().message_cache() == old(self).puppet_spec().message_cache(),
                self.puppet_spec().room_cache() == old(self).puppet_spec().room_cache(),
                self.puppet_spec().room_member_cache() == old(self).puppet_spec().room_member_cache(),
                self.puppet_spec().friendship_cache() == old(self).puppet_spec().friendship_cache(),
                self.puppet_spec().room_invitation_cache() == old(self).puppet_spec().room_invitation_cache(),
                self.puppet_spec().registry() == old(self).puppet_spec().registry(),
                self.puppet_spec().call_log() == old(self).puppet_spec().call_log(),
                self.puppet_spec().fetch_count() >= old(self).puppet_spec().fetch_count(),
                0 <= i <= contact_id_list@.len(),
                u == contact_id_list.deep_view(),
                u.len() == contact_id_list@.len(),
                keep.len() == i,
                out@.map_values(|c: Contact| c.id_@) == spec_scan_kept(u.take(i as int), keep),
                forall|j: int| 0 <= j < out@.len() ==> (#[trigger] out@[j]).payload_ is Some,
                old(self).is_logged_in_spec() ==> forall|j: int|
                    0 <= j < i && old(self).contacts_spec().has(#[trigger] u[j]) ==> keep[j],
                !old(self).is_logged_in_spec() ==> out@.len() == 0,
                Self::spec_contacts_tracked(*old(self), *self),
                old(self).is_logged_in_spec() ==> forall|j: int|
                    0 <= j < i ==> (self.contacts_spec().has(#[trigger] u[j])
                        || !self.puppet_spec().contact_cache().has(u[j])),
            decreases contact_id_list@.len() - i,
        {
            let ghost mid = *self;
            let loaded = self.contact_load(contact_id_list[i].clone());
            let ghost pre = out@.map_values(|c: Contact| c.id_@);
            let kept: bool = match loaded {
                Ok(contact) => {
                    if contact.payload_.is_some() {
                        out.push(contact);
                        true
                    } else {
                        false
                    }
                },
                Err(_) => false,
            };
            proof {
                crate::query::lemma_scan_kept_snoc(u.take(i as int), keep, u[i as int], kept);
                keep = keep.push(kept);
                assert(u.take(i as int).push(u[i as int]) =~= u.take(i as int + 1));
                if kept {
                    assert(out@.map_values(|c: Contact| c.id_@) =~= pre.push(u[i as int]));
                } else {
                    assert(pre + Seq::<Seq<char>>::empty() =~= pre);
                }
                if old(self).is_logged_in_spec() && old(self).contacts_spec().has(u[i as int]) {
                    assert(mid.contacts_spec().has(u[i as int]));
                    assert(kept);
                }
            }
            i += 1;
        }
        proof {
            assert(u.take(contact_id_list@.len() as int) =~= u);
        }
        out
    }

    /// Finds the first contact matching the query, behind the login gate.
    pub fn contact_find(&mut self, query: ContactQueryFilter) -> (r: Result<
        Option<Contact>,
        WechatyError,
    >)
        requires
            old(self).wf(),
        ensures
            final(self).wf(),
            final(self).id_spec() == old(self).id_spec(),
            final(self).messages_spec() == old(self).messages_spec(),
            final(self).rooms_spec() == old(self).rooms_spec(),
            !old(self).is_logged_in_spec() ==> r == Err::<Option<Contact>, WechatyError>(
                WechatyError::NotLoggedIn,
            ),
            match r {
                Ok(Some(contact)) => contact.payload_ is Some,
                _ => true,
            },
            old(self).is_logged_in_spec() ==> (r matches Ok(c) ==> (c matches Some(contact)
                ==> exists|uu: Seq<Seq<char>>, obs: Seq<Option<ContactPayload>>, keep: Seq<bool>|
                {
                    &&& final(self).puppet_spec().call_log() == old(self).puppet_spec().call_log().push(BackendOp::ContactList { outcome: Ok(uu) })
                    &&& obs.len() == uu.len()
                    &&& #[trigger] spec_searched_then_kept(uu, obs, keep, Some(query)).len() > 0
                    &&& contact.id_@ == spec_searched_then_kept(uu, obs, keep, Some(query))[0]
                })),
    {
        match self.contact_find_all(Some(query)) {
            Ok(mut contact_list) => {
                if contact_list.len() == 0 {
                    Ok(None)
                } else {
                    let ghost ids0 = contact_list@.map_values(|c: Contact| c.id_@);
                    let first = contact_list.remove(0);
                    proof {
                        if old(self).is_logged_in_spec() {
                            let (uu, obs, keep) = choose|
                                uu: Seq<Seq<char>>,
                                obs: Seq<Option<ContactPayload>>,
                                keep: Seq<bool>,
                            |
                                {
                                    &&& self.puppet_spec().call_log() == old(self).puppet_spec().call_log().push(
                                        BackendOp::ContactList { outcome: Ok(uu) },
                                    )
                                    &&& obs.len() == uu.len()
                                    &&& ids0 == #[trigger] spec_searched_then_kept(
                                        uu,
                                        obs,
                                        keep,
                                        Some(query),
                                    )
                                };
                            assert(first.id_@ == ids0[0]);
                            assert(spec_searched_then_kept(uu, obs, keep, Some(query)).len() > 0);
                            assert(first.id_@ == spec_searched_then_kept(
                                uu,
                                obs,
                                keep,
                                Some(query),
                            )[0]);
                        }
                    }
                    Ok(Some(first))
                }
            },
            Err(e) => Err(e),
        }
    }

    /// Finds the first contact matching the query string, behind the login
    /// gate.
    pub fn contact_find_by_string(&mut self, query_str: String) -> (r: Result<
        Option<Contact>,
        WechatyError,
    >)
        requires
            old(self).wf(),
        ensures
            final(self).wf(),
            final(self).id_spec() == old(self).id_spec(),
            final(self).messages_spec() == old(self).messages_spec(),
            final(self).rooms_spec() == old(self).rooms_spec(),
            !old(self).is_logged_in_spec() ==> r == Err::<Option<Contact>, WechatyError>(
                WechatyError::NotLoggedIn,
            ),
            match r {
                Ok(Some(contact)) => contact.payload_ is Some,
                _ => true,
            },
            old(self).is_logged_in_spec() ==> (r matches Ok(c) ==> (c matches Some(contact)
                ==> exists|found: Seq<Seq<char>>, keep: Seq<bool>|
                {
                    &&& seq_distinct(found)
                    &&& keep.len() == found.len()
                    &&& #[trigger] spec_scan_kept(found, keep).len() > 0
                    &&& contact.id_@ == spec_scan_kept(found, keep)[0]
                })),
    {
        if !self.is_logged_in() {
            return Err(WechatyError::NotLoggedIn);
        }
        match self.contact_find_all_by_string(query_str) {
            Ok(mut contact_list) => {
                if contact_list.len() == 0 {
                    Ok(None)
                } else {
                    let ghost ids0 = contact_list@.map_values(|c: Contact| c.id_@);
                    let first = contact_list.remove(0);
                    proof {
                        if old(self).is_logged_in_spec() {
                            let (found, keep) = choose|found: Seq<Seq<char>>, keep: Seq<bool>|
                                {
                                    &&& seq_distinct(found)
                                    &&& keep.len() == found.len()
                                    &&& ids0 == #[trigger] spec_scan_kept(found, keep)
                                };
                            assert(spec_scan_kept(found, keep).len() > 0);
                            assert(first.id_@ == spec_scan_kept(found, keep)[0]);
                        }
                    }
                    Ok(Some(first))
                }
            },
            Err(e) => Err(e),
        }
    }

    /// Finds all contacts matching the query (or all contacts, with no
    /// query), behind the login gate: searches ids through the puppet and
    /// loads the matches.
    pub fn contact_find_all(&mut self, query: Option<ContactQueryFilter>) -> (r: Result<
        Vec<Contact>,
        WechatyError,
    >)
        requires
            old(self).wf(),
        ensures
            final(self).wf(),
            final(self).id_spec() == old(self).id_spec(),
            final(self).messages_spec() == old(self).messages_spec(),
            final(self).rooms_spec() == old(self).rooms_spec(),
            !old(self).is_logged_in_spec() ==> r == Err::<Vec<Contact>, WechatyError>(
                WechatyError::NotLoggedIn,
            ) && *final(self) == *old(self),
            r matches Ok(cs) ==> forall|j: int|
                0 <= j < cs@.len() ==> (#[trigger] cs@[j]).payload_ is Some,
            old(self).is_logged_in_spec() ==> (r matches Err(e) ==> (e matches
                WechatyError::Puppet(pe) && final(self).puppet_spec().call_log() == old(self).puppet_spec().call_log().push(BackendOp::ContactList { outcome: Err(pe) }) && final(self).contacts_spec() == old(self).contacts_spec())),
            old(self).is_logged_in_spec() ==> (r matches Ok(cs) ==> exists|
                uu: Seq<Seq<char>>,
                obs: Seq<Option<ContactPayload>>,
                keep: Seq<bool>,
            |
                {
                    &&& final(self).puppet_spec().call_log() == old(self).puppet_spec().call_log().push(BackendOp::ContactList { outcome: Ok(uu) })
                    &&& obs.len() == uu.len()
                    &&& cs@.map_values(|c: Contact| c.id_@) == #[trigger] spec_searched_then_kept(
                        uu,
                        obs,
                        keep,
                        query,
                    )
                }),
    {
        if !self.is_logged_in() {
            return Err(WechatyError::NotLoggedIn);
        }
        let ghost query0 = query;
        let query = match query {
            Some(query) => query,
            None => ContactQueryFilter::default(),
        };
        let ghost qq = query;
        proof {
            assert(qq == match query0 {
                Some(q) => q,
                None => ContactQueryFilter::spec_empty(),
            });
        }
        match self.puppet_.contact_search(query, None) {
            Ok(contact_id_list) => {
                let ghost listv = contact_id_list.deep_view();
                let ghost search_log = self.puppet_.call_log();
                let loaded = self.contact_load_batch(contact_id_list);
                proof {
                    let (uu, obs) = choose|uu: Seq<Seq<char>>, obs: Seq<Option<ContactPayload>>|
                        {
                            &&& search_log == #[trigger] old(self).puppet_spec().call_log().push(
                                BackendOp::ContactList { outcome: Ok(uu) },
                            )
                            &&& obs.len() == uu.len()
                            &&& listv == spec_scan_kept(uu, #[trigger] spec_contact_keep(obs, qq))
                        };
                    let keep = choose|keep: Seq<bool>|
                        {
                            &&& keep.len() == listv.len()
                            &&& loaded@.map_values(|c: Contact| c.id_@) == #[trigger] spec_scan_kept(
                                listv,
                                keep,
                            )
                        };
                    assert(self.puppet_spec().call_log() == old(self).puppet_spec().call_log().push(
                        BackendOp::ContactList { outcome: Ok(uu) },
                    ));
                    assert(loaded@.map_values(|c: Contact| c.id_@) == spec_searched_then_kept(
                        uu,
                        obs,
                        keep,
                        query0,
                    ));
                }
                Ok(loaded)
            },
            Err(e) => Err(WechatyError::from(e)),
        }
    }

    /// Finds all contacts matching the query string, behind the login
    /// gate.
    pub fn contact_find_all_by_string(&mut self, query_str: String) -> (r: Result<
        Vec<Contact>,
        WechatyError,
    >)
        requires
            old(self).wf(),
        ensures
            final(self).wf(),
            final(self).id_spec() == old(self).id_spec(),
            final(self).messages_spec() == old(self).messages_spec(),
            final(self).rooms_spec() == old(self).rooms_spec(),
            !old(self).is_logged_in_spec() ==> r == Err::<Vec<Contact>, WechatyError>(
                WechatyError::NotLoggedIn,
            ) && *final(self) == *old(self),
            r matches Ok(cs) ==> forall|j: int|
                0 <= j < cs@.len() ==> (#[trigger] cs@[j]).payload_ is Some,
            old(self).is_logged_in_spec() ==> (r matches Ok(cs) ==> exists|
                found: Seq<Seq<char>>,
                keep: Seq<bool>,
            |
                {
                    &&& seq_distinct(found)
                    &&& keep.len() == found.len()
                    &&& cs@.map_values(|c: Contact| c.id_@) == #[trigger] spec_scan_kept(
                        found,
                        keep,
                    )
                }),
    {
        if !self.is_logged_in() {
            return Err(WechatyError::NotLoggedIn);
        }
        match self.puppet_.contact_search_by_string(query_str, None) {
            Ok(contact_id_list) => {
                let ghost found = contact_id_list.deep_view();
                let loaded = self.contact_load_batch(contact_id_list);
                proof {
                    let keep = choose|keep: Seq<bool>|
                        keep.len() == found.len() && loaded@.map_values(|c: Contact| c.id_@)
                            == #[trigger] spec_scan_kept(found, keep);
                }
                Ok(loaded)
            },
            Err(e) => Err(WechatyError::from(e)),
        }
    }

    /// Hydrates a message handle through the cache and records the
    /// snapshot; on success the referenced sender, receiver and room are
    /// hydrated as well, their failures silently tolerated.
    pub fn message_ready(&mut self, message: &mut Message) -> (r: Result<(), WechatyError>)
        requires
            old(self).wf(),
        ensures
            final(self).wf(),
            final(self).id_spec() == old(self).id_spec(),
            final(message).id_ == old(message).id_,
            old(message).payload_ is Some ==> (r == Ok::<(), WechatyError>(()) && *final(self)
                == *old(self) && *final(message) == *old(message)),
            r matches Ok(u) ==> final(message).payload_ is Some,
            (old(message).payload_ is None && old(self).puppet_spec().message_cache().has(
                old(message).id_@,
            )) ==> (r == Ok::<(), WechatyError>(()) && final(message).payload_ == Some(
                old(self).puppet_spec().message_cache().value(old(message).id_@)->Message_0,
            ) && final(self).messages_spec().entries() == store_upsert(
                old(self).messages_spec().entries(),
                old(message).id_@,
                old(self).puppet_spec().message_cache().value(old(message).id_@)->Message_0,
            )),
            Self::spec_contacts_tracked(*old(self), *final(self)),
            Self::spec_rooms_tracked(*old(self), *final(self)),
            old(message).payload_ is None ==> (r matches Ok(u) ==> exists|p: MessagePayload|
                {
                    &&& #[trigger] final(message).payload_ == Some(p)
                    &&& final(self).messages_spec().entries() == store_upsert(
                        old(self).messages_spec().entries(),
                        old(message).id_@,
                        p,
                    )
                    &&& (old(self).is_logged_in_spec() ==> {
                        &&& (p.spec_from_id() matches Some(f) ==> (f.len() > 0 ==> final(self).contacts_spec().has(f) || !final(self).puppet_spec().contact_cache().has(f)))
                        &&& (p.spec_to_id() matches Some(t) ==> (t.len() > 0 ==> final(self).contacts_spec().has(t) || !final(self).puppet_spec().contact_cache().has(t)))
                        &&& (p.spec_room_id() matches Some(rm) ==> (rm.len() > 0 ==> final(self).rooms_spec().has(rm) || !final(self).puppet_spec().room_cache().has(rm)))
                    })
                }),
            r matches Err(e) ==> e matches WechatyError::Puppet(_) && *final(message) == *old(
                message,
            ) && final(self).messages_spec() == old(self).messages_spec(),
            old(message).payload_ is None ==> (r is Err ==> (!final(self).puppet_spec().message_cache().has(old(message).id_@) && final(self).puppet_spec().message_cache() == old(self).puppet_spec().message_cache())),
    {
        if message.payload_.is_some() {
            return Ok(());
        }
        let id = message.id();
        let ghost em0 = self.puppet_.message_cache().entries();
        match self.puppet_.message_payload(id.clone()) {
            Ok(payload) => {
                proof {
                    if has_key(em0, id@) {
                        lemma_idx_of(em0, id@);
                    }
                }
                self.messages_.insert(id, clone_message_payload(&payload));
                let ghost s0 = *self;
                match payload.from_id() {
                    Some(from_id) => {
                        if !from_id.as_str().is_empty() {
                            let _ = self.contact_load(from_id);
                        }
                    },
                    None => {
                    },
                }
                let ghost s1 = *self;
                match payload.to_id() {
                    Some(to_id) => {
                        if !to_id.as_str().is_empty() {
                            let _ = self.contact_load(to_id);
                        }
                    },
                    None => {
                    },
                }
                let ghost s2 = *self;
                match payload.room_id() {
                    Some(room_id) => {
                        if !room_id.as_str().is_empty() {
                            let _ = self.room_load(room_id);
                        }
                    },
                    None => {
                    },
                }
                proof {
                    if old(self).is_logged_in_spec() {
                        match payload.spec_from_id() {
                            Some(f) => {
                                if f.len() > 0 {
                            assert(s1.contacts_spec().has(f)
                                || !s1.puppet_spec().contact_cache().has(f));
                            assert(s2.contacts_spec().has(f)
                                || !s2.puppet_spec().contact_cache().has(f)) by {
                                if s2.puppet_spec().contact_cache().has(f) {
                                    assert(s1.puppet_spec().contact_cache().has(f)
                                        || s2.contacts_spec().has(f));
                                }
                            }
                            assert(self.contacts_spec().has(f)
                                || !self.puppet_spec().contact_cache().has(f)) by {
                                if self.puppet_spec().contact_cache().has(f) {
                                    assert(s2.puppet_spec().contact_cache().has(f)
                                        || self.contacts_spec().has(f));
                                }
                            }
                                }
                            },
                            None => {
                            },
                        }
                        match payload.spec_to_id() {
                            Some(t) => {
                                if t.len() > 0 {
                            assert(s2.contacts_spec().has(t)
                                || !s2.puppet_spec().contact_cache().has(t));
                            assert(self.contacts_spec().has(t)
                                || !self.puppet_spec().contact_cache().has(t)) by {
                                if self.puppet_spec().contact_cache().has(t) {
                                    assert(s2.puppet_spec().contact_cache().has(t)
                                        || self.contacts_spec().has(t));
                                }
                            }
                                }
                            },
                            None => {
                            },
                        }
                    }
                    assert forall|x: Seq<char>|
                        #[trigger] old(self).contacts_spec().has(x) implies self.contacts_spec().has(
                        x,
                    ) by {
                        assert(s0.contacts_spec().has(x));
                        assert(s1.contacts_spec().has(x));
                        assert(s2.contacts_spec().has(x));
                    }
                    assert forall|x: Seq<char>|
                        #[trigger] self.puppet_spec().contact_cache().has(x) implies old(self).puppet_spec().contact_cache().has(x) || self.contacts_spec().has(x) by {
                        if s2.puppet_spec().contact_cache().has(x) {
                            if s1.puppet_spec().contact_cache().has(x) {
                                assert(s0.puppet_spec().contact_cache().has(x)
                                    || s1.contacts_spec().has(x));
                            } else {
                                assert(s2.contacts_spec().has(x));
                            }
                        } else {
                            assert(self.contacts_spec().has(x));
                        }
                    }
                    assert forall|x: Seq<char>|
                        #[trigger] old(self).rooms_spec().has(x) implies self.rooms_spec().has(
                        x,
                    ) by {
                        assert(s2.rooms_spec().has(x));
                    }
                    assert forall|x: Seq<char>|
                        #[trigger] self.puppet_spec().room_cache().has(x) implies old(self).puppet_spec().room_cache().has(x) || self.rooms_spec().has(x) by {
                        if s2.puppet_spec().room_cache().has(x) {
                            assert(old(self).puppet_spec().room_cache().has(x));
                        } else {
                            assert(self.rooms_spec().has(x));
                        }
                    }
                }
                message.payload_ = Some(payload);
                Ok(())
            },
            Err(e) => Err(WechatyError::Puppet(e)),
        }
    }

    /// Loads a message: behind the login gate, the snapshot store answers
    /// first, else the message is hydrated through the cache.
    pub fn message_load(&mut self, message_id: String) -> (r: Result<Message, WechatyError>)
        requires
            old(self).wf(),
        ensures
            final(self).wf(),
            final(self).id_spec() == old(self).id_spec(),
            !old(self).is_logged_in_spec() ==> r == Err::<Message, WechatyError>(
                WechatyError::NotLoggedIn,
            ) && *final(self) == *old(self),
            (old(self).is_logged_in_spec() && old(self).messages_spec().has(message_id@)) ==> (r
                matches Ok(m) && m.id_ == message_id && m.payload_ == Some(
                old(self).messages_spec().val(message_id@),
            ) && *final(self) == *old(self)),
            r matches Ok(m) ==> m.id_ == message_id && m.payload_ is Some,
            old(self).is_logged_in_spec() ==> (r matches Err(e) ==> e matches
                WechatyError::Puppet(_)),
    {
        if !self.is_logged_in() {
            return Err(WechatyError::NotLoggedIn);
        }
        let mut message = Message::new(message_id, self, None);
        if message.payload_.is_none() {
            match self.message_ready(&mut message) {
                Ok(_) => Ok(message),
                Err(e) => Err(e),
            }
        } else {
            Ok(message)
        }
    }

    /// Loads a batch of messages, dropping the ids that failed to load.
    pub fn message_load_batch(&mut self, message_id_list: Vec<String>) -> (r: Vec<Message>)
        requires
            old(self).wf(),
        ensures
            final(self).wf(),
            final(self).id_spec() == old(self).id_spec(),
            exists|keep: Seq<bool>|
                keep.len() == message_id_list.deep_view().len() && r@.map_values(
                    |m: Message| m.id_@,
                ) == spec_scan_kept(message_id_list.deep_view(), keep),
            forall|j: int| 0 <= j < r@.len() ==> (#[trigger] r@[j]).payload_ is Some,
    {
        let ghost u = message_id_list.deep_view();
        let mut out: Vec<Message> = Vec::new();
        let ghost mut keep: Seq<bool> = Seq::empty();
        let mut i: usize = 0;
        while i < message_id_list.len()
            invariant
                old(self).wf(),
                self.wf(),
                self.id_spec() == old(self).id_spec(),
                0 <= i <= message_id_list@.len(),
                u == message_id_list.deep_view(),
                u.len() == message_id_list@.len(),
                keep.len() == i,
                out@.map_values(|m: Message| m.id_@) == spec_scan_kept(u.take(i as int), keep),
                forall|j: int| 0 <= j < out@.len() ==> (#[trigger] out@[j]).payload_ is Some,
            decreases message_id_list@.len() - i,
        {
            let loaded = self.message_load(message_id_list[i].clone());
            let ghost pre = out@.map_values(|m: Message| m.id_@);
            let kept: bool = match loaded {
                Ok(message) => {
                    if message.payload_.is_some() {
                        out.push(message);
                        true
                    } else {
                        false
                    }
                },
                Err(_) => false,
            };
            proof {
                crate::query::lemma_scan_kept_snoc(u.take(i as int), keep, u[i as int], kept);
                keep = keep.push(kept);
                assert(u.take(i as int).push(u[i as int]) =~= u.take(i as int + 1));
                if kept {
                    assert(out@.map_values(|m: Message| m.id_@) =~= pre.push(u[i as int]));
                } else {
                    assert(pre + Seq::<Seq<char>>::empty() =~= pre);
                }
            }
            i += 1;
        }
        proof {
            assert(u.take(message_id_list@.len() as int) =~= u);
        }
        out
    }

    /// Finds the first message matching the query, behind the login gate.
    pub fn message_find(&mut self, query: MessageQueryFilter) -> (r: Result<
        Option<Message>,
        WechatyError,
    >)
        requires
            old(self).wf(),
        ensures
            final(self).wf(),
            final(self).id_spec() == old(self).id_spec(),
            !old(self).is_logged_in_spec() ==> r == Err::<Option<Message>, WechatyError>(
                WechatyError::NotLoggedIn,
            ),
            match r {
                Ok(Some(message)) => message.payload_ is Some,
                _ => true,
            },
            old(self).is_logged_in_spec() ==> (r matches Ok(m) ==> (m matches Some(message)
                ==> exists|keep: Seq<bool>|
                {
                    &&& #[trigger] spec_scan_kept(
                        spec_cached_message_results(
                            old(self).puppet_spec().message_cache().entries(),
                            query,
                        ),
                        keep,
                    ).len() > 0
                    &&& message.id_@ == spec_scan_kept(
                        spec_cached_message_results(
                            old(self).puppet_spec().message_cache().entries(),
                            query,
                        ),
                        keep,
                    )[0]
                })),
    {
        if !self.is_logged_in() {
            return Err(WechatyError::NotLoggedIn);
        }
        match self.message_find_all(query) {
            Ok(mut message_list) => {
                if message_list.len() == 0 {
                    Ok(None)
                } else {
                    let ghost ids0 = message_list@.map_values(|m: Message| m.id_@);
                    let first = message_list.remove(0);
                    proof {
                        if old(self).is_logged_in_spec() {
                            let keep = choose|keep: Seq<bool>|
                                ids0 == #[trigger] spec_scan_kept(
                                    spec_cached_message_results(
                                        old(self).puppet_spec().message_cache().entries(),
                                        query,
                                    ),
                                    keep,
                                );
                            assert(spec_scan_kept(
                                spec_cached_message_results(
                                    old(self).puppet_spec().message_cache().entries(),
                                    query,
                                ),
                                keep,
                            ).len() > 0);
                            assert(first.id_@ == spec_scan_kept(
                                spec_cached_message_results(
                                    old(self).puppet_spec().message_cache().entries(),
                                    query,
                                ),
                                keep,
                            )[0]);
                        }
                    }
                    Ok(Some(first))
                }
            },
            Err(e) => Err(e),
        }
    }

    /// Finds all messages matching the query, behind the login gate. The
    /// universe is what the message cache currently holds.
    pub fn message_find_all(&mut self, query: MessageQueryFilter) -> (r: Result<
        Vec<Message>,
        WechatyError,
    >)
        requires
            old(self).wf(),
        ensures
            final(self).wf(),
            final(self).id_spec() == old(self).id_spec(),
            !old(self).is_logged_in_spec() ==> r == Err::<Vec<Message>, WechatyError>(
                WechatyError::NotLoggedIn,
            ) && *final(self) == *old(self),
            r matches Ok(ms) ==> forall|j: int|
                0 <= j < ms@.len() ==> (#[trigger] ms@[j]).payload_ is Some,
            old(self).is_logged_in_spec() ==> r is Ok,
            old(self).is_logged_in_spec() ==> (r matches Ok(ms) ==> exists|keep: Seq<bool>|
                ms@.map_values(|m: Message| m.id_@) == #[trigger] spec_scan_kept(
                    spec_cached_message_results(
                        old(self).puppet_spec().message_cache().entries(),
                        query,
                    ),
                    keep,
                )),
    {
        if !self.is_logged_in() {
            return Err(WechatyError::NotLoggedIn);
        }
        match self.puppet_.message_search(query) {
            Ok(message_id_list) => {
                let ghost listv = message_id_list.deep_view();
                proof {
                    assert(listv == spec_cached_message_results(
                        old(self).puppet_spec().message_cache().entries(),
                        query,
                    ));
                }
                let loaded = self.message_load_batch(message_id_list);
                proof {
                    let keep = choose|keep: Seq<bool>|
                        keep.len() == listv.len() && loaded@.map_values(|m: Message| m.id_@)
                            == #[trigger] spec_scan_kept(listv, keep);
                }
                Ok(loaded)
            },
            Err(e) => Err(WechatyError::from(e)),
        }
    }

    /// Hydrates a room handle. With `force_sync` the room entry is dirtied
    /// and its member entries are evicted transitively first (a failure of
    /// that member-list call is propagated with nothing fetched); then the
    /// room payload is fetched through the cache, recorded in the room
    /// store and on the handle, and its members are batch-loaded
    /// best-effort.
    pub fn room_ready(&mut self, room: &mut Room, force_sync: bool) -> (r: Result<
        (),
        WechatyError,
    >)
        requires
            old(self).wf(),
        ensures
            final(self).wf(),
            final(self).id_spec() == old(self).id_spec(),
            final(self).messages_spec() == old(self).messages_spec(),
            final(room).id_ == old(room).id_,
            Self::spec_contacts_tracked(*old(self), *final(self)),
            Self::spec_rooms_tracked(*old(self), *final(self)),
            (!force_sync && old(room).payload_ is Some) ==> (r == Ok::<(), WechatyError>(())
                && *final(self) == *old(self) && *final(room) == *old(room)),
            r is Ok ==> final(room).payload_ is Some,
            (force_sync || old(room).payload_ is None) ==> (r is Ok ==> exists|p: RoomPayload|
                {
                    &&& #[trigger] final(room).payload_ == Some(p)
                    &&& final(self).rooms_spec().entries() == store_upsert(
                        old(self).rooms_spec().entries(),
                        old(room).id_@,
                        p,
                    )
                    &&& final(self).rooms_spec().has(old(room).id_@)
                    &&& final(self).rooms_spec().val(old(room).id_@) == p
                    &&& final(self).puppet_spec().room_cache().has(old(room).id_@)
                    &&& final(self).puppet_spec().room_cache().value(old(room).id_@)
                        == Payload::Room(p)
                    &&& (old(self).is_logged_in_spec() ==> forall|j: int|
                        0 <= j < p.member_id_list.deep_view().len() ==> (final(self).contacts_spec().has(#[trigger] p.member_id_list.deep_view()[j]) || !final(self).puppet_spec().contact_cache().has(p.member_id_list.deep_view()[j])))
                }),
            (force_sync ==> (r is Ok ==> {
                &&& final(self).puppet_spec().fetch_count() >= old(self).puppet_spec().fetch_count() + 1
                &&& exists|ids: Seq<Seq<char>>|
                    #[trigger] final(self).puppet_spec().call_log() == old(self).puppet_spec().call_log().push(
                        BackendOp::RoomMemberList { room_id: old(room).id_@, outcome: Ok(ids) },
                    ) && final(self).puppet_spec().room_member_cache().entries()
                        == spec_evict_members(
                        old(self).puppet_spec().room_member_cache().entries(),
                        old(room).id_@,
                        ids,
                    )
            })),
            force_sync ==> (r matches Err(we) ==> (we matches WechatyError::Puppet(pe) && *final(room) == *old(room) && final(self).rooms_spec() == old(self).rooms_spec() && final(self).puppet_spec().room_cache().entries() == remove_key(
                old(self).puppet_spec().room_cache().entries(),
                old(room).id_@,
            ) && {
                ||| (final(self).puppet_spec().call_log() == old(self).puppet_spec().call_log().push(
                    BackendOp::RoomMemberList { room_id: old(room).id_@, outcome: Err(pe) },
                ) && final(self).puppet_spec().room_member_cache() == old(self).puppet_spec().room_member_cache() && final(self).puppet_spec().fetch_count()
                    == old(self).puppet_spec().fetch_count())
                ||| (exists|ids: Seq<Seq<char>>|
                    #[trigger] final(self).puppet_spec().call_log() == old(self).puppet_spec().call_log().push(
                        BackendOp::RoomMemberList { room_id: old(room).id_@, outcome: Ok(ids) },
                    ) && final(self).puppet_spec().room_member_cache().entries()
                        == spec_evict_members(
                        old(self).puppet_spec().room_member_cache().entries(),
                        old(room).id_@,
                        ids,
                    ) && final(self).puppet_spec().fetch_count() == old(self).puppet_spec().fetch_count() + 1)
            })),
            (force_sync || old(room).payload_ is None) ==> (r is Err ==> !final(self).puppet_spec().room_cache().has(old(room).id_@)),
            r matches Err(e) ==> e matches WechatyError::Puppet(_) && *final(room) == *old(room),
    {
        if !force_sync && room.payload_.is_some() {
            proof {
                let p0 = room.payload_->Some_0;
                assert(room.payload_ == Some(p0));
            }
            return Ok(());
        }
        let id = room.id();
        let ghost orig_room_entries = self.puppet_.room_cache().entries();
        if force_sync {
            match self.puppet_.dirty_payload(PayloadType::Room, id.clone()) {
                Err(e) => {
                    return Err(WechatyError::from(e));
                },
                Ok(_) => {
                },
            }
            proof {
                lemma_remove_key(orig_room_entries, id@);
            }
            match self.puppet_.dirty_payload(PayloadType::RoomMember, id.clone()) {
                Err(e) => {
                    return Err(WechatyError::from(e));
                },
                Ok(_) => {
                },
            }
        }
        let ghost e_pre = self.puppet_.room_cache().entries();
        let ghost lim_pre = self.puppet_.room_cache().limit();
        match self.puppet_.room_payload(id.clone()) {
            Ok(payload) => {
                proof {
                    if has_key(e_pre, id@) {
                        lemma_idx_of(e_pre, id@);
                        lemma_promote(e_pre, id@);
                    } else {
                        lemma_insert_front(e_pre, lim_pre, id@, Payload::Room(payload));
                        lemma_insert_front_no_new_keys(e_pre, lim_pre, id@, Payload::Room(payload));
                    }
                    assert(self.puppet_.room_cache().has(id@));
                }
                let ghost store0 = self.rooms_.entries();
                let ghost cache_now = self.puppet_.room_cache().entries();
                self.rooms_.insert(id.clone(), clone_room_payload(&payload));
                proof {
                    crate::store::lemma_store_upsert(store0, id@, payload);
                    assert forall|f: Seq<char>|
                        #[trigger] self.puppet_spec().room_cache().has(f) implies old(self).puppet_spec().room_cache().has(f) || self.rooms_spec().has(f) by {
                        if f != id@ {
                            assert(has_key(cache_now, f) ==> has_key(e_pre, f));
                            if force_sync {
                                assert(has_key(e_pre, f) ==> has_key(orig_room_entries, f));
                            }
                        }
                    }
                }
                let member_id_list = clone_string_vec(&payload.member_id_list);
                room.payload_ = Some(payload);
                let ghost mid = *self;
                let _ = self.contact_load_batch(member_id_list);
                proof {
                    assert(mid.contacts_spec() == old(self).contacts_spec());
                    assert(mid.puppet_spec().contact_cache() == old(self).puppet_spec().contact_cache());
                    assert forall|f: Seq<char>|
                        #[trigger] old(self).contacts_spec().has(f) implies self.contacts_spec().has(
                        f,
                    ) by {
                        assert(mid.contacts_spec().has(f));
                    }
                    assert forall|f: Seq<char>|
                        #[trigger] self.puppet_spec().contact_cache().has(f) implies old(self).puppet_spec().contact_cache().has(f) || self.contacts_spec().has(f) by {
                        assert(mid.puppet_spec().contact_cache().has(f)
                            || self.contacts_spec().has(f));
                    }
                }
                Ok(())
            },
            Err(e) => {
                proof {
                    if has_key(self.puppet_.room_cache().entries(), id@) {
                        assert(false);
                    }
                }
                Err(WechatyError::Puppet(e))
            },
        }
    }

    /// Loads a room: behind the login gate, the snapshot store answers
    /// first, else the room is hydrated with a forced sync.
    pub fn room_load(&mut self, room_id: String) -> (r: Result<Room, WechatyError>)
        requires
            old(self).wf(),
        ensures
            final(self).wf(),
            final(self).id_spec() == old(self).id_spec(),
            final(self).messages_spec() == old(self).messages_spec(),
            !old(self).is_logged_in_spec() ==> r == Err::<Room, WechatyError>(
                WechatyError::NotLoggedIn,
            ) && *final(self) == *old(self),
            (old(self).is_logged_in_spec() && old(self).rooms_spec().has(room_id@)) ==> (r matches
                Ok(m) && m.id_ == room_id && m.payload_ == Some(
                old(self).rooms_spec().val(room_id@),
            ) && *final(self) == *old(self)),
            r matches Ok(m) ==> m.id_ == room_id && m.payload_ is Some,
            old(self).is_logged_in_spec() ==> (r matches Err(e) ==> e matches
                WechatyError::Puppet(_)),
            Self::spec_contacts_tracked(*old(self), *final(self)),
            Self::spec_rooms_tracked(*old(self), *final(self)),
            old(self).is_logged_in_spec() ==> (final(self).rooms_spec().has(room_id@) || !final(self).puppet_spec().room_cache().has(room_id@)),
    {
        if !self.is_logged_in() {
            return Err(WechatyError::NotLoggedIn);
        }
        let mut room = Room::new(room_id, self, None);
        if room.payload_.is_none() {
            match self.room_ready(&mut room, true) {
                Ok(_) => Ok(room),
                Err(e) => Err(e),
            }
        } else {
            Ok(room)
        }
    }

    /// Lists a room's member ids from the backend and loads them,
    /// dropping the members that failed to load.
    pub fn room_member_load_all(&mut self, room_id: String) -> (r: Result<
        Vec<Contact>,
        WechatyError,
    >)
        requires
            old(self).wf(),
        ensures
            final(self).wf(),
            final(self).id_spec() == old(self).id_spec(),
            final(self).messages_spec() == old(self).messages_spec(),
            final(self).rooms_spec() == old(self).rooms_spec(),
            r matches Ok(cs) ==> forall|j: int|
                0 <= j < cs@.len() ==> (#[trigger] cs@[j]).payload_ is Some,
            r matches Err(e) ==> e matches WechatyError::Puppet(_),
            r matches Err(e) ==> (e matches WechatyError::Puppet(pe) && final(self).puppet_spec().call_log() == old(self).puppet_spec().call_log().push(
                BackendOp::RoomMemberList { room_id: room_id@, outcome: Err(pe) },
            ) && final(self).contacts_spec() == old(self).contacts_spec()),
            r matches Ok(cs) ==> exists|ids: Seq<Seq<char>>, keep: Seq<bool>|
                {
                    &&& #[trigger] final(self).puppet_spec().call_log() == old(self).puppet_spec().call_log().push(
                        BackendOp::RoomMemberList { room_id: room_id@, outcome: Ok(ids) },
                    )
                    &&& keep.len() == ids.len()
                    &&& cs@.map_values(|c: Contact| c.id_@) == spec_scan_kept(ids, keep)
                },
            Self::spec_contacts_tracked(*old(self), *final(self)),
    {
        match self.puppet_.room_member_list(room_id) {
            Ok(member_id_list) => Ok(self.contact_load_batch(member_id_list)),
            Err(e) => Err(WechatyError::from(e)),
        }
    }
}

} // verus!
