//! The contact handle.
use vstd::prelude::*;
use vstd::string::StringExecFns;
use crate::context::WechatyContext;
use crate::puppet::PuppetImpl;
use crate::schemas::contact::ContactPayload;
use crate::user::entity::Entity;
use crate::util::clone_contact_payload;

verus! {

pub type Contact = Entity<ContactPayload>;

/// The identity a bare id resolves to through the context's snapshot
/// store: the stored alias or name when a snapshot is present, the id
/// itself as a fallback, and a loading placeholder without a snapshot.
pub open spec fn spec_identity_for<T: PuppetImpl>(id: Seq<char>, ctx: WechatyContext<T>) -> Seq<
    char,
> {
    if ctx.contacts_spec().has(id) {
        let p = ctx.contacts_spec().val(id);
        if p.alias@.len() > 0 {
            p.alias@
        } else if p.name@.len() > 0 {
            p.name@
        } else if id.len() > 0 {
            id
        } else {
            "loading..."@
        }
    } else {
        "loading..."@
    }
}


impl Contact {
    /// A handle for `id`. A given payload is taken as is; otherwise the
    /// context's snapshot store is consulted.
    pub fn new<T: PuppetImpl>(
        id: String,
        ctx: &WechatyContext<T>,
        payload: Option<ContactPayload>,
    ) -> (r: Contact)
        requires
            ctx.wf(),
        ensures
            r.id_ == id,
            match payload {
                Some(p) => r.payload_ == Some(p),
                None => r.payload_ == (if ctx.contacts_spec().has(id@) {
                    Some(ctx.contacts_spec().val(id@))
                } else {
                    None::<ContactPayload>
                }),
            },
    {
        let payload = match payload {
            Some(p) => Some(p),
            None => match ctx.contacts().get(&id) {
                Some(p) => Some(clone_contact_payload(p)),
                None => None,
            },
        };
        Contact { id_: id, payload_: payload }
    }

    pub fn id(&self) -> (r: String)
        ensures
            r == self.id_,
    {
        self.id_.clone()
    }

    /// The name this contact is best known by: the alias if one is set,
    /// else the name, else the bare id, else a loading placeholder.
    pub open spec fn spec_identity(self) -> Seq<char> {
        match self.payload_ {
            Some(p) => if p.alias@.len() > 0 {
                p.alias@
            } else if p.name@.len() > 0 {
                p.name@
            } else if self.id_@.len() > 0 {
                self.id_@
            } else {
                "loading..."@
            },
            None => "loading..."@,
        }
    }

    pub fn identity(&self) -> (r: String)
        ensures
            r@ == self.spec_identity(),
    {
        match &self.payload_ {
            Some(p) => {
                if !p.alias.as_str().is_empty() {
                    p.alias.clone()
                } else if !p.name.as_str().is_empty() {
                    p.name.clone()
                } else if !self.id_.as_str().is_empty() {
                    self.id_.clone()
                } else {
                    "loading...".to_owned()
                }
            },
            None => "loading...".to_owned(),
        }
    }

    pub fn payload(&self) -> (r: Option<ContactPayload>)
        ensures
            r == self.payload_,
    {
        match &self.payload_ {
            Some(p) => Some(clone_contact_payload(p)),
            None => None,
        }
    }

    pub fn set_payload(&mut self, payload: Option<ContactPayload>)
        ensures
            final(self).payload_ == payload,
            final(self).id_ == old(self).id_,
    {
        self.payload_ = payload;
    }

    /// Whether this contact is the currently authenticated identity.
    pub open spec fn spec_is_self<T: PuppetImpl>(self, ctx: WechatyContext<T>) -> bool {
        match ctx.id_spec() {
            Some(me) => me@ == self.id_@,
            None => false,
        }
    }

    pub fn is_self<T: PuppetImpl>(&self, ctx: &WechatyContext<T>) -> (r: bool)
        ensures
            r == self.spec_is_self(*ctx),
    {
        match ctx.id() {
            Some(me) => crate::util::str_eq(me.as_str(), self.id_.as_str()),
            None => false,
        }
    }
}

} // verus!
