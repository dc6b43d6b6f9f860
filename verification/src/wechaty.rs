//! The assembled bot: one context (caches, registry, backend) and one
//! listener, driven by feeding raw events through `handle_event`.
use vstd::prelude::*;
use vstd::string::StringExecFns;
use crate::context::WechatyContext;
use crate::listener::{is_active_plan, spec_decrement, Delivery, EventListenerInner};
use crate::puppet::{Puppet, PuppetImpl};
use crate::schemas::event::PuppetEvent;

verus! {

/// A bot instance: the shared context and its listener.
pub struct Wechaty<T: PuppetImpl> {
    pub ctx: WechatyContext<T>,
    pub listener: EventListenerInner,
}

impl<T: PuppetImpl> Wechaty<T> {
    pub open spec fn wf(self) -> bool {
        self.ctx.wf()
    }

    /// A bot around the given puppet, with a fresh listener.
    pub fn new(puppet: Puppet<T>) -> (r: Self)
        requires
            puppet.wf(),
        ensures
            r.wf(),
            r.ctx.id_spec() is None,
            r.listener.name_spec()@ == "Wechaty"@,
    {
        let listener = EventListenerInner::new("Wechaty".to_owned());
        let ctx = WechatyContext::new(puppet);
        Wechaty { ctx, listener }
    }

    /// The listener driving this bot.
    pub fn get_listener(&self) -> (r: &EventListenerInner)
        ensures
            r == self.listener,
    {
        &self.listener
    }

    /// Feeds one raw event through the listener: hydrates what it
    /// references, updates the identity on login and logout, and plans the
    /// handler invocations.
    pub fn handle_event(&mut self, msg: PuppetEvent) -> (r: Option<Delivery>)
        requires
            old(self).wf(),
        ensures
            final(self).wf(),
            final(self).ctx.wf(),
            final(self).listener.name_spec() == old(self).listener.name_spec(),
            match msg {
                PuppetEvent::Dong(p) => {
                    &&& final(self).ctx == old(self).ctx
                    &&& final(self).listener.dong_budgets() == spec_decrement(old(self).listener.dong_budgets())
                    &&& final(self).listener.login_budgets() == old(self).listener.login_budgets()
                    &&& final(self).listener.logout_budgets() == old(self).listener.logout_budgets()
                    &&& final(self).listener.message_budgets() == old(self).listener.message_budgets()
                    &&& final(self).listener.scan_budgets() == old(self).listener.scan_budgets()
                    &&& (r matches Some(d) && d matches Delivery::Dong { payload, handlers }
                        && payload == p && is_active_plan(old(self).listener.dong_budgets(), handlers@))
                },
                PuppetEvent::Login(p) => {
                    &&& final(self).ctx.id_spec() == Some(p.contact_id)
                    &&& final(self).listener.login_budgets() == spec_decrement(old(self).listener.login_budgets())
                    &&& final(self).listener.dong_budgets() == old(self).listener.dong_budgets()
                    &&& final(self).listener.logout_budgets() == old(self).listener.logout_budgets()
                    &&& final(self).listener.message_budgets() == old(self).listener.message_budgets()
                    &&& final(self).listener.scan_budgets() == old(self).listener.scan_budgets()
                    &&& (r matches Some(d) && d matches Delivery::Login { payload, handlers }
                        && payload.contact.contact.id_ == p.contact_id && is_active_plan(
                        old(self).listener.login_budgets(),
                        handlers@,
                    ) && (payload.contact.contact.payload_ matches Some(pc) ==> final(self).ctx.contacts_spec().has(p.contact_id@) && final(self).ctx.contacts_spec().val(
                        p.contact_id@,
                    ) == pc))
                    &&& final(self).ctx.puppet_spec().fetch_count() == old(self).ctx.puppet_spec().fetch_count() + 1
                },
                PuppetEvent::Logout(p) => {
                    &&& final(self).ctx.id_spec() is None
                    &&& final(self).listener.logout_budgets() == spec_decrement(old(self).listener.logout_budgets())
                    &&& final(self).listener.dong_budgets() == old(self).listener.dong_budgets()
                    &&& final(self).listener.login_budgets() == old(self).listener.login_budgets()
                    &&& final(self).listener.message_budgets() == old(self).listener.message_budgets()
                    &&& final(self).listener.scan_budgets() == old(self).listener.scan_budgets()
                    &&& (r matches Some(d) && d matches Delivery::Logout { payload, handlers }
                        && payload.contact.contact.id_ == p.contact_id && is_active_plan(
                        old(self).listener.logout_budgets(),
                        handlers@,
                    ) && (old(self).ctx.contacts_spec().has(p.contact_id@)
                        ==> payload.contact.contact.payload_ == Some(
                        old(self).ctx.contacts_spec().val(p.contact_id@),
                    )) && (payload.contact.contact.payload_ matches Some(pc) ==> final(self).ctx.contacts_spec().has(p.contact_id@) && final(self).ctx.contacts_spec().val(
                        p.contact_id@,
                    ) == pc))
                    &&& (old(self).ctx.contacts_spec().has(p.contact_id@) ==> final(self).ctx.puppet_spec().fetch_count() == old(self).ctx.puppet_spec().fetch_count())
                },
                PuppetEvent::Message(p) => {
                    &&& final(self).ctx.id_spec() == old(self).ctx.id_spec()
                    &&& final(self).listener.message_budgets() == spec_decrement(
                        old(self).listener.message_budgets(),
                    )
                    &&& final(self).listener.dong_budgets() == old(self).listener.dong_budgets()
                    &&& final(self).listener.login_budgets() == old(self).listener.login_budgets()
                    &&& final(self).listener.logout_budgets() == old(self).listener.logout_budgets()
                    &&& final(self).listener.scan_budgets() == old(self).listener.scan_budgets()
                    &&& (r matches Some(d) && d matches Delivery::Message { payload, handlers }
                        && payload.message.id_ == p.message_id && is_active_plan(
                        old(self).listener.message_budgets(),
                        handlers@,
                    ) && (old(self).ctx.messages_spec().has(p.message_id@)
                        ==> payload.message.payload_ == Some(
                        old(self).ctx.messages_spec().val(p.message_id@),
                    )) && ((!old(self).ctx.messages_spec().has(p.message_id@) && old(self).ctx.puppet_spec().message_cache().has(p.message_id@))
                        ==> payload.message.payload_ == Some(
                        old(self).ctx.puppet_spec().message_cache().value(
                            p.message_id@,
                        )->Message_0,
                    )) && (payload.message.payload_ is Some || (!final(self).ctx.messages_spec().has(
                        p.message_id@,
                    ) && !final(self).ctx.puppet_spec().message_cache().has(p.message_id@))))
                },
                PuppetEvent::Scan(p) => {
                    &&& final(self).ctx == old(self).ctx
                    &&& final(self).listener.scan_budgets() == spec_decrement(old(self).listener.scan_budgets())
                    &&& final(self).listener.dong_budgets() == old(self).listener.dong_budgets()
                    &&& final(self).listener.login_budgets() == old(self).listener.login_budgets()
                    &&& final(self).listener.logout_budgets() == old(self).listener.logout_budgets()
                    &&& final(self).listener.message_budgets() == old(self).listener.message_budgets()
                    &&& (r matches Some(d) && d matches Delivery::Scan { payload, handlers }
                        && payload.qrcode == p.qrcode && payload.status == p.status
                        && is_active_plan(old(self).listener.scan_budgets(), handlers@))
                },
                _ => r is None && final(self).listener == old(self).listener && final(self).ctx == old(self).ctx,
            },
    {
        self.listener.handle(&mut self.ctx, msg)
    }
}

} // verus!
