//! The room handle.
use vstd::prelude::*;
use vstd::string::StringExecFns;
use crate::context::WechatyContext;
use crate::error::WechatyError;
use crate::puppet::PuppetImpl;
use crate::schemas::payload::Payload;
use crate::schemas::room::RoomPayload;
use crate::user::contact::Contact;
use crate::query::spec_scan_kept;
use crate::user::entity::Entity;
use crate::util::clone_room_payload;

verus! {

pub type Room = Entity<RoomPayload>;

/// The display text a bare room id resolves to through the context's
/// snapshot store: the stored topic when a snapshot is present, the id
/// itself as a fallback, and a loading placeholder without a snapshot.
pub open spec fn spec_room_summary_for<T: PuppetImpl>(id: Seq<char>, ctx: WechatyContext<T>) -> Seq<
    char,
> {
    if ctx.rooms_spec().has(id) {
        let p = ctx.rooms_spec().val(id);
        if p.topic@.len() > 0 {
            p.topic@
        } else if id.len() > 0 {
            id
        } else {
            "loading..."@
        }
    } else {
        "loading..."@
    }
}



impl Room {
    /// A handle for `id`. A given payload is taken as is; otherwise the
    /// context's snapshot store is consulted.
    pub fn new<T: PuppetImpl>(
        id: String,
        ctx: &WechatyContext<T>,
        payload: Option<RoomPayload>,
    ) -> (r: Room)
        requires
            ctx.wf(),
        ensures
            r.id_ == id,
            match payload {
                Some(p) => r.payload_ == Some(p),
                None => r.payload_ == (if ctx.rooms_spec().has(id@) {
                    Some(ctx.rooms_spec().val(id@))
                } else {
                    None::<RoomPayload>
                }),
            },
    {
        let payload = match payload {
            Some(p) => Some(p),
            None => match ctx.rooms().get(&id) {
                Some(p) => Some(clone_room_payload(p)),
                None => None,
            },
        };
        Room { id_: id, payload_: payload }
    }

    pub fn id(&self) -> (r: String)
        ensures
            r == self.id_,
    {
        self.id_.clone()
    }

    /// The name this room is best known by: the topic if one is set, else
    /// the bare id, else a loading placeholder.
    pub open spec fn spec_summary(self) -> Seq<char> {
        match self.payload_ {
            Some(p) => if p.topic@.len() > 0 {
                p.topic@
            } else if self.id_@.len() > 0 {
                self.id_@
            } else {
                "loading..."@
            },
            None => "loading..."@,
        }
    }

    pub fn summary(&self) -> (r: String)
        ensures
            r@ == self.spec_summary(),
    {
        match &self.payload_ {
            Some(p) => {
                if !p.topic.as_str().is_empty() {
                    p.topic.clone()
                } else if !self.id_.as_str().is_empty() {
                    self.id_.clone()
                } else {
                    "loading...".to_owned()
                }
            },
            None => "loading...".to_owned(),
        }
    }

    pub fn payload(&self) -> (r: Option<RoomPayload>)
        ensures
            r == self.payload_,
    {
        match &self.payload_ {
            Some(p) => Some(clone_room_payload(p)),
            None => None,
        }
    }

    pub fn set_payload(&mut self, payload: Option<RoomPayload>)
        ensures
            final(self).payload_ == payload,
            final(self).id_ == old(self).id_,
    {
        self.payload_ = payload;
    }

    /// Hydrates this room through the context, dirtying first when
    /// `force_sync` is set: a no-op on an already hydrated handle without
    /// `force_sync`; else the payload is re-fetched and recorded in the
    /// context's room store, and an error is propagated with the handle
    /// unchanged.
    pub fn ready<T: PuppetImpl>(&mut self, ctx: &mut WechatyContext<T>, force_sync: bool) -> (r:
        Result<(), WechatyError>)
        requires
            old(ctx).wf(),
        ensures
            final(ctx).wf(),
            final(ctx).id_spec() == old(ctx).id_spec(),
            final(ctx).messages_spec() == old(ctx).messages_spec(),
            final(self).id_ == old(self).id_,
            (!force_sync && old(self).payload_ is Some) ==> (r == Ok::<(), WechatyError>(())
                && *final(ctx) == *old(ctx) && *final(self) == *old(self)),
            r is Ok ==> final(self).payload_ is Some,
            (force_sync || old(self).payload_ is None) ==> (r is Ok ==> exists|p: RoomPayload|
                {
                    &&& #[trigger] final(self).payload_ == Some(p)
                    &&& final(ctx).rooms_spec().has(old(self).id_@)
                    &&& final(ctx).rooms_spec().val(old(self).id_@) == p
                    &&& final(ctx).puppet_spec().room_cache().has(old(self).id_@)
                    &&& final(ctx).puppet_spec().room_cache().value(old(self).id_@)
                        == Payload::Room(p)
                }),
            (force_sync || old(self).payload_ is None) ==> (r is Err ==> !final(ctx).puppet_spec().room_cache().has(old(self).id_@)),
            force_sync ==> (r is Ok ==> final(ctx).puppet_spec().fetch_count() >= old(ctx).puppet_spec().fetch_count() + 1),
            r matches Err(e) ==> (e matches WechatyError::Puppet(_) && *final(self) == *old(self)),
    {
        ctx.room_ready(self, force_sync)
    }

    /// Re-hydrates this room from the backend, invalidating the cached
    /// room and room-member entries first; on success the refreshed
    /// payload is recorded in the context's room store.
    pub fn sync<T: PuppetImpl>(&mut self, ctx: &mut WechatyContext<T>) -> (r: Result<
        (),
        WechatyError,
    >)
        requires
            old(ctx).wf(),
        ensures
            final(ctx).wf(),
            final(ctx).id_spec() == old(ctx).id_spec(),
            final(ctx).messages_spec() == old(ctx).messages_spec(),
            final(self).id_ == old(self).id_,
            r is Ok ==> exists|p: RoomPayload|
                {
                    &&& #[trigger] final(self).payload_ == Some(p)
                    &&& final(ctx).rooms_spec().has(old(self).id_@)
                    &&& final(ctx).rooms_spec().val(old(self).id_@) == p
                    &&& final(ctx).puppet_spec().room_cache().has(old(self).id_@)
                    &&& final(ctx).puppet_spec().room_cache().value(old(self).id_@)
                        == Payload::Room(p)
                },
            r is Ok ==> final(ctx).puppet_spec().fetch_count() >= old(ctx).puppet_spec().fetch_count() + 1,
            r is Err ==> !final(ctx).puppet_spec().room_cache().has(old(self).id_@),
            r matches Err(e) ==> (e matches WechatyError::Puppet(_) && *final(self) == *old(self)),
    {
        ctx.room_ready(self, true)
    }

    /// Loads every current member of this room, dropping the members that
    /// failed to load.
    pub fn member_find_all<T: PuppetImpl>(&self, ctx: &mut WechatyContext<T>) -> (r: Result<
        Vec<Contact>,
        WechatyError,
    >)
        requires
            old(ctx).wf(),
        ensures
            final(ctx).wf(),
            r matches Ok(cs) ==> forall|j: int|
                0 <= j < cs@.len() ==> (#[trigger] cs@[j]).payload_ is Some,
            r matches Err(e) ==> e matches WechatyError::Puppet(_),
            r matches Err(e) ==> (e matches WechatyError::Puppet(pe) && final(ctx).puppet_spec().call_log() == old(ctx).puppet_spec().call_log().push(
                crate::puppet::BackendOp::RoomMemberList {
                    room_id: self.id_@,
                    outcome: Err(pe),
                },
            )),
            r matches Ok(cs) ==> exists|ids: Seq<Seq<char>>, keep: Seq<bool>|
                {
                    &&& #[trigger] final(ctx).puppet_spec().call_log() == old(ctx).puppet_spec().call_log().push(
                        crate::puppet::BackendOp::RoomMemberList {
                            room_id: self.id_@,
                            outcome: Ok(ids),
                        },
                    )
                    &&& keep.len() == ids.len()
                    &&& cs@.map_values(|c: Contact| c.id_@) == spec_scan_kept(ids, keep)
                },
    {
        ctx.room_member_load_all(self.id())
    }
}

} // verus!
