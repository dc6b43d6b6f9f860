//! The handle to the currently authenticated contact.
use vstd::prelude::*;
use crate::context::WechatyContext;
use crate::error::WechatyError;
use crate::puppet::PuppetImpl;
use crate::schemas::payload::Payload;
use crate::user::contact::Contact;

verus! {

/// The authenticated account, wrapping an ordinary contact handle.
#[derive(Debug, Clone, PartialEq)]
pub struct ContactSelf {
    pub contact: Contact,
}

impl ContactSelf {
    /// A handle for the account with this contact id; the context's
    /// snapshot store supplies the payload when it holds one.
    pub fn new<T: PuppetImpl>(id: String, ctx: &WechatyContext<T>) -> (r: Self)
        requires
            ctx.wf(),
        ensures
            r.contact.id_ == id,
            r.contact.payload_ == (if ctx.contacts_spec().has(id@) {
                Some(ctx.contacts_spec().val(id@))
            } else {
                None::<crate::schemas::contact::ContactPayload>
            }),
    {
        let contact = Contact::new(id, ctx, None);
        ContactSelf { contact }
    }

    /// Whether hydration has completed for this account.
    pub fn is_ready(&self) -> (r: bool)
        ensures
            r == self.contact.spec_is_ready(),
    {
        self.contact.payload_.is_some()
    }

    /// Hydrates the account's contact payload, dirtying the cache entry
    /// first when `force_sync` is set.
    pub fn ready<T: PuppetImpl>(&mut self, ctx: &mut WechatyContext<T>, force_sync: bool) -> (r:
        Result<(), WechatyError>)
        requires
            old(ctx).wf(),
        ensures
            final(ctx).wf(),
            final(ctx).id_spec() == old(ctx).id_spec(),
            final(self).contact.id_ == old(self).contact.id_,
            r is Ok ==> final(self).contact.payload_ is Some || (!force_sync && old(self).contact.payload_ is Some),
            (!force_sync && old(self).contact.payload_ is Some) ==> r == Ok::<(), WechatyError>(
                (),
            ) && *final(self) == *old(self) && *final(ctx) == *old(ctx),
            (force_sync || old(self).contact.payload_ is None) ==> (r is Ok ==> (final(self).contact.payload_ matches Some(p)
                && final(ctx).contacts_spec().has(old(self).contact.id_@) && final(ctx).contacts_spec().val(old(self).contact.id_@) == p && final(ctx).puppet_spec().contact_cache().has(old(self).contact.id_@) && final(ctx).puppet_spec().contact_cache().value(old(self).contact.id_@) == Payload::Contact(
                p,
            ))),
            force_sync ==> final(ctx).puppet_spec().fetch_count() == old(ctx).puppet_spec().fetch_count() + 1,
            r matches Err(e) ==> (e matches WechatyError::Puppet(_) && *final(self) == *old(self) && final(ctx).contacts_spec() == old(ctx).contacts_spec()),
    {
        ctx.contact_ready(&mut self.contact, force_sync)
    }

    /// Re-hydrates the account from the backend.
    pub fn sync<T: PuppetImpl>(&mut self, ctx: &mut WechatyContext<T>) -> (r: Result<
        (),
        WechatyError,
    >)
        requires
            old(ctx).wf(),
        ensures
            final(ctx).wf(),
            final(ctx).id_spec() == old(ctx).id_spec(),
            final(self).contact.id_ == old(self).contact.id_,
            r is Ok ==> (final(self).contact.payload_ matches Some(p) && final(ctx).contacts_spec().has(old(self).contact.id_@) && final(ctx).contacts_spec().val(
                old(self).contact.id_@,
            ) == p && final(ctx).puppet_spec().contact_cache().has(old(self).contact.id_@)
                && final(ctx).puppet_spec().contact_cache().value(old(self).contact.id_@)
                == Payload::Contact(p)),
            final(ctx).puppet_spec().fetch_count() == old(ctx).puppet_spec().fetch_count() + 1,
            r matches Err(e) ==> (e matches WechatyError::Puppet(_) && *final(self) == *old(self) && final(ctx).contacts_spec() == old(ctx).contacts_spec()),
    {
        ctx.contact_ready(&mut self.contact, true)
    }
}

} // verus!
