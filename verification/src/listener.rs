//! The consumer-facing event listener: typed handler registration with a
//! per-handler remaining-invocation budget, and the receipt path that
//! resolves referenced ids into hydrated entities before handlers run.
//!
//! The callables themselves live with the runtime that drives the
//! listener; the listener tracks one budget slot per registered handler,
//! and `handle` turns a raw event into the hydrated payload plus the list
//! of handler slots to invoke, in registration order.
use vstd::prelude::*;
use vstd::pervasive::VecAdditionalExecFns;
use crate::context::WechatyContext;
use crate::payload::{DongPayload, LoginPayload, LogoutPayload, ScanPayload};
use crate::bus::{spec_parse_event_kind, upserted, EventKind};
use crate::puppet::{Puppet, PuppetImpl, Subscribe};
use crate::schemas::event::PuppetEvent;
use crate::user::contact_self::ContactSelf;
use crate::user::message::Message;

verus! {


/// The five kind names this listener subscribes under parse to their
/// kinds.
proof fn lemma_listener_kind_names()
    ensures
        spec_parse_event_kind("dong"@) == Some(EventKind::Dong),
        spec_parse_event_kind("login"@) == Some(EventKind::Login),
        spec_parse_event_kind("logout"@) == Some(EventKind::Logout),
        spec_parse_event_kind("message"@) == Some(EventKind::Message),
        spec_parse_event_kind("scan"@) == Some(EventKind::Scan),
{
    reveal_strlit("dong");
    reveal_strlit("error");
    reveal_strlit("friendship");
    reveal_strlit("heartbeat");
    reveal_strlit("login");
    reveal_strlit("logout");
    reveal_strlit("message");
    reveal_strlit("ready");
    reveal_strlit("reset");
    reveal_strlit("room-invite");
    reveal_strlit("room-join");
    reveal_strlit("room-leave");
    reveal_strlit("room-topic");
    reveal_strlit("scan");
    assert("dong"@.len() == 4);
    assert("error"@.len() == 5);
    assert("friendship"@.len() == 10);
    assert("heartbeat"@.len() == 9);
    assert("login"@.len() == 5);
    assert("logout"@.len() == 6);
    assert("message"@.len() == 7);
    assert("ready"@.len() == 5);
    assert("reset"@.len() == 5);
    assert("room-invite"@.len() == 11);
    assert("room-join"@.len() == 9);
    assert("room-leave"@.len() == 10);
    assert("room-topic"@.len() == 10);
    assert("scan"@.len() == 4);
    assert("login"@ != "error"@) by {
        assert("login"@[0] != "error"@[0]);
    }
    assert("scan"@ != "dong"@) by {
        assert("scan"@[0] != "dong"@[0]);
    }
}

/// A correct invocation plan for the budgets `s`: exactly the handlers
/// with budget left, in registration order.
pub open spec fn is_active_plan(s: Seq<usize>, r: Seq<usize>) -> bool {
    &&& forall|j: int| 0 <= j < r.len() ==> (#[trigger] r[j]) < s.len() && s[r[j] as int] > 0
    &&& forall|j: int, k: int| 0 <= j < k < r.len() ==> (#[trigger] r[j]) < (#[trigger] r[k])
    &&& forall|i: int|
        0 <= i < s.len() && (#[trigger] s[i]) > 0 ==> exists|j: int|
            0 <= j < r.len() && (#[trigger] r[j]) == i
}

/// The budgets after one invocation round: every handler that fired loses
/// one remaining call; exhausted handlers stay at zero, left registered.
pub open spec fn spec_decrement(s: Seq<usize>) -> Seq<usize> {
    Seq::new(
        s.len(),
        |i: int|
            if s[i] > 0 {
                (s[i] - 1) as usize
            } else {
                0
            },
    )
}

/// Plans one invocation round over the budgets: returns the slots with
/// budget left, in order, and decrements each of them.
fn plan_trigger(handlers: &mut Vec<usize>) -> (plan: Vec<usize>)
    ensures
        is_active_plan(old(handlers)@, plan@),
        final(handlers)@ == spec_decrement(old(handlers)@),
{
    let ghost s0 = handlers@;
    let mut plan: Vec<usize> = Vec::new();
    let mut i: usize = 0;
    while i < handlers.len()
        invariant
            handlers@.len() == s0.len(),
            0 <= i <= s0.len(),
            forall|j: int| 0 <= j < i ==> #[trigger] handlers@[j] == spec_decrement(s0)[j],
            forall|j: int| i <= j < s0.len() ==> #[trigger] handlers@[j] == s0[j],
            forall|j: int| 0 <= j < plan@.len() ==> (#[trigger] plan@[j]) < i && s0[plan@[j] as int] > 0,
            forall|j: int, k: int|
                0 <= j < k < plan@.len() ==> (#[trigger] plan@[j]) < (#[trigger] plan@[k]),
            forall|n: int|
                0 <= n < i && (#[trigger] s0[n]) > 0 ==> exists|j: int|
                    0 <= j < plan@.len() && (#[trigger] plan@[j]) == n,
        decreases s0.len() - i,
    {
        let remaining = handlers[i];
        let ghost pre_plan = plan@;
        if remaining > 0 {
            plan.push(i);
            handlers.set(i, remaining - 1);
        }
        proof {
            assert forall|n: int|
                0 <= n < i + 1 && (#[trigger] s0[n]) > 0 implies exists|j: int|
                0 <= j < plan@.len() && (#[trigger] plan@[j]) == n by {
                if n == i as int {
                    assert(plan@[plan@.len() - 1] == i);
                } else {
                    let j = choose|j: int|
                        0 <= j < pre_plan.len() && (#[trigger] pre_plan[j]) == n;
                    assert(plan@[j] == pre_plan[j]);
                }
            }
        }
        i += 1;
    }
    proof {
        assert(handlers@ =~= spec_decrement(s0));
    }
    plan
}

/// Appends one budget slot: the caller-supplied limit, or effectively
/// unbounded without one. Returns the slot's handle index.
fn register(handlers: &mut Vec<usize>, limit: Option<usize>) -> (counter: usize)
    ensures
        counter == old(handlers)@.len(),
        final(handlers)@ == old(handlers)@.push(
            match limit {
                Some(l) => l,
                None => usize::MAX,
            },
        ),
{
    let counter = handlers.len();
    let limit = match limit {
        Some(limit) => limit,
        None => usize::MAX,
    };
    handlers.push(limit);
    counter
}

/// What one raw event turns into: the hydrated payload for its kind, and
/// the handler slots to invoke with it, in registration order.
pub enum Delivery {
    Dong { payload: DongPayload, handlers: Vec<usize> },
    Login { payload: LoginPayload, handlers: Vec<usize> },
    Logout { payload: LogoutPayload, handlers: Vec<usize> },
    Message { payload: crate::payload::MessagePayload, handlers: Vec<usize> },
    Scan { payload: ScanPayload, handlers: Vec<usize> },
}

/// The listener: its subscriber name on the bus, and one budget list per
/// handled event kind.
pub struct EventListenerInner {
    name: String,
    dong_handlers: Vec<usize>,
    login_handlers: Vec<usize>,
    logout_handlers: Vec<usize>,
    message_handlers: Vec<usize>,
    scan_handlers: Vec<usize>,
}

impl EventListenerInner {
    pub closed spec fn name_spec(self) -> String {
        self.name
    }

    pub closed spec fn dong_budgets(self) -> Seq<usize> {
        self.dong_handlers@
    }

    pub closed spec fn login_budgets(self) -> Seq<usize> {
        self.login_handlers@
    }

    pub closed spec fn logout_budgets(self) -> Seq<usize> {
        self.logout_handlers@
    }

    pub closed spec fn message_budgets(self) -> Seq<usize> {
        self.message_handlers@
    }

    pub closed spec fn scan_budgets(self) -> Seq<usize> {
        self.scan_handlers@
    }

    /// A listener with no handlers registered yet.
    pub fn new(name: String) -> (r: Self)
        ensures
            r.name_spec() == name,
            r.dong_budgets() == Seq::<usize>::empty(),
            r.login_budgets() == Seq::<usize>::empty(),
            r.logout_budgets() == Seq::<usize>::empty(),
            r.message_budgets() == Seq::<usize>::empty(),
            r.scan_budgets() == Seq::<usize>::empty(),
    {
        EventListenerInner {
            name,
            dong_handlers: Vec::new(),
            login_handlers: Vec::new(),
            logout_handlers: Vec::new(),
            message_handlers: Vec::new(),
            scan_handlers: Vec::new(),
        }
    }

    pub fn get_name(&self) -> (r: String)
        ensures
            r == self.name_spec(),
    {
        self.name.clone()
    }

    /// Registers a dong handler with an unbounded budget, subscribing this
    /// listener on the bus.
    pub fn on_dong<T: PuppetImpl>(&mut self, puppet: &mut Puppet<T>)
        requires
            old(puppet).wf(),
        ensures
            final(puppet).wf(),
            Puppet::<T>::same_but_registry(*old(puppet), *final(puppet)),
            upserted(
                old(puppet).bucket(EventKind::Dong),
                final(puppet).bucket(EventKind::Dong),
                old(self).name_spec()@,
            ),
            forall|k2: EventKind|
                k2 != EventKind::Dong ==> #[trigger] final(puppet).bucket(k2) == old(
                    puppet,
                ).bucket(k2),
            final(self).dong_budgets() == old(self).dong_budgets().push(usize::MAX),
            final(self).login_budgets() == old(self).login_budgets(),
            final(self).logout_budgets() == old(self).logout_budgets(),
            final(self).message_budgets() == old(self).message_budgets(),
            final(self).scan_budgets() == old(self).scan_budgets(),
            final(self).name_spec() == old(self).name_spec(),
    {
        let _ = self.on_dong_with_handle(puppet, None);
    }

    /// Like `on_dong`, with a bounded remaining-invocation budget; returns
    /// the handler's slot index.
    pub fn on_dong_with_handle<T: PuppetImpl>(
        &mut self,
        puppet: &mut Puppet<T>,
        limit: Option<usize>,
    ) -> (counter: usize)
        requires
            old(puppet).wf(),
        ensures
            final(puppet).wf(),
            Puppet::<T>::same_but_registry(*old(puppet), *final(puppet)),
            upserted(
                old(puppet).bucket(EventKind::Dong),
                final(puppet).bucket(EventKind::Dong),
                old(self).name_spec()@,
            ),
            forall|k2: EventKind|
                k2 != EventKind::Dong ==> #[trigger] final(puppet).bucket(k2) == old(
                    puppet,
                ).bucket(k2),
            counter == old(self).dong_budgets().len(),
            final(self).dong_budgets() == old(self).dong_budgets().push(
                match limit {
                    Some(l) => l,
                    None => usize::MAX,
                },
            ),
            final(self).login_budgets() == old(self).login_budgets(),
            final(self).logout_budgets() == old(self).logout_budgets(),
            final(self).message_budgets() == old(self).message_budgets(),
            final(self).scan_budgets() == old(self).scan_budgets(),
            final(self).name_spec() == old(self).name_spec(),
    {
        proof {
            lemma_listener_kind_names();
        }
        puppet.subscribe(Subscribe { name: self.name.clone(), event_name: "dong" });
        register(&mut self.dong_handlers, limit)
    }

    /// Registers a login handler with an unbounded budget.
    pub fn on_login<T: PuppetImpl>(&mut self, puppet: &mut Puppet<T>)
        requires
            old(puppet).wf(),
        ensures
            final(puppet).wf(),
            Puppet::<T>::same_but_registry(*old(puppet), *final(puppet)),
            upserted(
                old(puppet).bucket(EventKind::Login),
                final(puppet).bucket(EventKind::Login),
                old(self).name_spec()@,
            ),
            forall|k2: EventKind|
                k2 != EventKind::Login ==> #[trigger] final(puppet).bucket(k2) == old(
                    puppet,
                ).bucket(k2),
            final(self).login_budgets() == old(self).login_budgets().push(usize::MAX),
            final(self).dong_budgets() == old(self).dong_budgets(),
            final(self).logout_budgets() == old(self).logout_budgets(),
            final(self).message_budgets() == old(self).message_budgets(),
            final(self).scan_budgets() == old(self).scan_budgets(),
            final(self).name_spec() == old(self).name_spec(),
    {
        let _ = self.on_login_with_handle(puppet, None);
    }

    /// Like `on_login`, with a bounded budget; returns the slot index.
    pub fn on_login_with_handle<T: PuppetImpl>(
        &mut self,
        puppet: &mut Puppet<T>,
        limit: Option<usize>,
    ) -> (counter: usize)
        requires
            old(puppet).wf(),
        ensures
            final(puppet).wf(),
            Puppet::<T>::same_but_registry(*old(puppet), *final(puppet)),
            upserted(
                old(puppet).bucket(EventKind::Login),
                final(puppet).bucket(EventKind::Login),
                old(self).name_spec()@,
            ),
            forall|k2: EventKind|
                k2 != EventKind::Login ==> #[trigger] final(puppet).bucket(k2) == old(
                    puppet,
                ).bucket(k2),
            counter == old(self).login_budgets().len(),
            final(self).login_budgets() == old(self).login_budgets().push(
                match limit {
                    Some(l) => l,
                    None => usize::MAX,
                },
            ),
            final(self).dong_budgets() == old(self).dong_budgets(),
            final(self).logout_budgets() == old(self).logout_budgets(),
            final(self).message_budgets() == old(self).message_budgets(),
            final(self).scan_budgets() == old(self).scan_budgets(),
            final(self).name_spec() == old(self).name_spec(),
    {
        proof {
            lemma_listener_kind_names();
        }
        puppet.subscribe(Subscribe { name: self.name.clone(), event_name: "login" });
        register(&mut self.login_handlers, limit)
    }

    /// Registers a logout handler with an unbounded budget.
    pub fn on_logout<T: PuppetImpl>(&mut self, puppet: &mut Puppet<T>)
        requires
            old(puppet).wf(),
        ensures
            final(puppet).wf(),
            Puppet::<T>::same_but_registry(*old(puppet), *final(puppet)),
            upserted(
                old(puppet).bucket(EventKind::Logout),
                final(puppet).bucket(EventKind::Logout),
                old(self).name_spec()@,
            ),
            forall|k2: EventKind|
                k2 != EventKind::Logout ==> #[trigger] final(puppet).bucket(k2) == old(
                    puppet,
                ).bucket(k2),
            final(self).logout_budgets() == old(self).logout_budgets().push(usize::MAX),
            final(self).dong_budgets() == old(self).dong_budgets(),
            final(self).login_budgets() == old(self).login_budgets(),
            final(self).message_budgets() == old(self).message_budgets(),
            final(self).scan_budgets() == old(self).scan_budgets(),
            final(self).name_spec() == old(self).name_spec(),
    {
        let _ = self.on_logout_with_handle(puppet, None);
    }

    /// Like `on_logout`, with a bounded budget; returns the slot index.
    pub fn on_logout_with_handle<T: PuppetImpl>(
        &mut self,
        puppet: &mut Puppet<T>,
        limit: Option<usize>,
    ) -> (counter: usize)
        requires
            old(puppet).wf(),
        ensures
            final(puppet).wf(),
            Puppet::<T>::same_but_registry(*old(puppet), *final(puppet)),
            upserted(
                old(puppet).bucket(EventKind::Logout),
                final(puppet).bucket(EventKind::Logout),
                old(self).name_spec()@,
            ),
            forall|k2: EventKind|
                k2 != EventKind::Logout ==> #[trigger] final(puppet).bucket(k2) == old(
                    puppet,
                ).bucket(k2),
            counter == old(self).logout_budgets().len(),
            final(self).logout_budgets() == old(self).logout_budgets().push(
                match limit {
                    Some(l) => l,
                    None => usize::MAX,
                },
            ),
            final(self).dong_budgets() == old(self).dong_budgets(),
            final(self).login_budgets() == old(self).login_budgets(),
            final(self).message_budgets() == old(self).message_budgets(),
            final(self).scan_budgets() == old(self).scan_budgets(),
            final(self).name_spec() == old(self).name_spec(),
    {
        proof {
            lemma_listener_kind_names();
        }
        puppet.subscribe(Subscribe { name: self.name.clone(), event_name: "logout" });
        register(&mut self.logout_handlers, limit)
    }

    /// Registers a message handler with an unbounded budget.
    pub fn on_message<T: PuppetImpl>(&mut self, puppet: &mut Puppet<T>)
        requires
            old(puppet).wf(),
        ensures
            final(puppet).wf(),
            Puppet::<T>::same_but_registry(*old(puppet), *final(puppet)),
            upserted(
                old(puppet).bucket(EventKind::Message),
                final(puppet).bucket(EventKind::Message),
                old(self).name_spec()@,
            ),
            forall|k2: EventKind|
                k2 != EventKind::Message ==> #[trigger] final(puppet).bucket(k2) == old(
                    puppet,
                ).bucket(k2),
            final(self).message_budgets() == old(self).message_budgets().push(usize::MAX),
            final(self).dong_budgets() == old(self).dong_budgets(),
            final(self).login_budgets() == old(self).login_budgets(),
            final(self).logout_budgets() == old(self).logout_budgets(),
            final(self).scan_budgets() == old(self).scan_budgets(),
            final(self).name_spec() == old(self).name_spec(),
    {
        let _ = self.on_message_with_handle(puppet, None);
    }

    /// Like `on_message`, with a bounded budget; returns the slot index.
    pub fn on_message_with_handle<T: PuppetImpl>(
        &mut self,
        puppet: &mut Puppet<T>,
        limit: Option<usize>,
    ) -> (counter: usize)
        requires
            old(puppet).wf(),
        ensures
            final(puppet).wf(),
            Puppet::<T>::same_but_registry(*old(puppet), *final(puppet)),
            upserted(
                old(puppet).bucket(EventKind::Message),
                final(puppet).bucket(EventKind::Message),
                old(self).name_spec()@,
            ),
            forall|k2: EventKind|
                k2 != EventKind::Message ==> #[trigger] final(puppet).bucket(k2) == old(
                    puppet,
                ).bucket(k2),
            counter == old(self).message_budgets().len(),
            final(self).message_budgets() == old(self).message_budgets().push(
                match limit {
                    Some(l) => l,
                    None => usize::MAX,
                },
            ),
            final(self).dong_budgets() == old(self).dong_budgets(),
            final(self).login_budgets() == old(self).login_budgets(),
            final(self).logout_budgets() == old(self).logout_budgets(),
            final(self).scan_budgets() == old(self).scan_budgets(),
            final(self).name_spec() == old(self).name_spec(),
    {
        proof {
            lemma_listener_kind_names();
        }
        puppet.subscribe(Subscribe { name: self.name.clone(), event_name: "message" });
        register(&mut self.message_handlers, limit)
    }

    /// Registers a scan handler with an unbounded budget.
    pub fn on_scan<T: PuppetImpl>(&mut self, puppet: &mut Puppet<T>)
        requires
            old(puppet).wf(),
        ensures
            final(puppet).wf(),
            Puppet::<T>::same_but_registry(*old(puppet), *final(puppet)),
            upserted(
                old(puppet).bucket(EventKind::Scan),
                final(puppet).bucket(EventKind::Scan),
                old(self).name_spec()@,
            ),
            forall|k2: EventKind|
                k2 != EventKind::Scan ==> #[trigger] final(puppet).bucket(k2) == old(
                    puppet,
                ).bucket(k2),
            final(self).scan_budgets() == old(self).scan_budgets().push(usize::MAX),
            final(self).dong_budgets() == old(self).dong_budgets(),
            final(self).login_budgets() == old(self).login_budgets(),
            final(self).logout_budgets() == old(self).logout_budgets(),
            final(self).message_budgets() == old(self).message_budgets(),
            final(self).name_spec() == old(self).name_spec(),
    {
        let _ = self.on_scan_with_handle(puppet, None);
    }

    /// Like `on_scan`, with a bounded budget; returns the slot index.
    pub fn on_scan_with_handle<T: PuppetImpl>(
        &mut self,
        puppet: &mut Puppet<T>,
        limit: Option<usize>,
    ) -> (counter: usize)
        requires
            old(puppet).wf(),
        ensures
            final(puppet).wf(),
            Puppet::<T>::same_but_registry(*old(puppet), *final(puppet)),
            upserted(
                old(puppet).bucket(EventKind::Scan),
                final(puppet).bucket(EventKind::Scan),
                old(self).name_spec()@,
            ),
            forall|k2: EventKind|
                k2 != EventKind::Scan ==> #[trigger] final(puppet).bucket(k2) == old(
                    puppet,
                ).bucket(k2),
            counter == old(self).scan_budgets().len(),
            final(self).scan_budgets() == old(self).scan_budgets().push(
                match limit {
                    Some(l) => l,
                    None => usize::MAX,
                },
            ),
            final(self).dong_budgets() == old(self).dong_budgets(),
            final(self).login_budgets() == old(self).login_budgets(),
            final(self).logout_budgets() == old(self).logout_budgets(),
            final(self).message_budgets() == old(self).message_budgets(),
            final(self).name_spec() == old(self).name_spec(),
    {
        proof {
            lemma_listener_kind_names();
        }
        puppet.subscribe(Subscribe { name: self.name.clone(), event_name: "scan" });
        register(&mut self.scan_handlers, limit)
    }

    /// Receives one raw event. Login and logout events update the
    /// context's authenticated identity; login, logout and message events
    /// hydrate the referenced entity best-effort before delivery; dong and
    /// scan payloads pass through unchanged. The result is the hydrated
    /// payload plus the handler slots to invoke, in registration order;
    /// each planned slot's budget is decremented. Unhandled kinds plan
    /// nothing and change nothing.
    pub fn handle<T: PuppetImpl>(&mut self, ctx: &mut WechatyContext<T>, msg: PuppetEvent) -> (r:
        Option<Delivery>)
        requires
            old(ctx).wf(),
        ensures
            final(ctx).wf(),
            final(self).name_spec() == old(self).name_spec(),
            match msg {
                PuppetEvent::Dong(p) => {
                    &&& *final(ctx) == *old(ctx)
                    &&& final(self).dong_budgets() == spec_decrement(old(self).dong_budgets())
                    &&& final(self).login_budgets() == old(self).login_budgets()
                    &&& final(self).logout_budgets() == old(self).logout_budgets()
                    &&& final(self).message_budgets() == old(self).message_budgets()
                    &&& final(self).scan_budgets() == old(self).scan_budgets()
                    &&& (r matches Some(d) && d matches Delivery::Dong { payload, handlers }
                        && payload == p && is_active_plan(old(self).dong_budgets(), handlers@))
                },
                PuppetEvent::Login(p) => {
                    &&& final(ctx).id_spec() == Some(p.contact_id)
                    &&& final(self).login_budgets() == spec_decrement(old(self).login_budgets())
                    &&& final(self).dong_budgets() == old(self).dong_budgets()
                    &&& final(self).logout_budgets() == old(self).logout_budgets()
                    &&& final(self).message_budgets() == old(self).message_budgets()
                    &&& final(self).scan_budgets() == old(self).scan_budgets()
                    &&& (r matches Some(d) && d matches Delivery::Login { payload, handlers }
                        && payload.contact.contact.id_ == p.contact_id && is_active_plan(
                        old(self).login_budgets(),
                        handlers@,
                    ) && (payload.contact.contact.payload_ matches Some(pc) ==> final(ctx).contacts_spec().has(p.contact_id@) && final(ctx).contacts_spec().val(
                        p.contact_id@,
                    ) == pc))
                    &&& final(ctx).puppet_spec().fetch_count() == old(ctx).puppet_spec().fetch_count() + 1
                },
                PuppetEvent::Logout(p) => {
                    &&& final(ctx).id_spec() is None
                    &&& final(self).logout_budgets() == spec_decrement(old(self).logout_budgets())
                    &&& final(self).dong_budgets() == old(self).dong_budgets()
                    &&& final(self).login_budgets() == old(self).login_budgets()
                    &&& final(self).message_budgets() == old(self).message_budgets()
                    &&& final(self).scan_budgets() == old(self).scan_budgets()
                    &&& (r matches Some(d) && d matches Delivery::Logout { payload, handlers }
                        && payload.contact.contact.id_ == p.contact_id && is_active_plan(
                        old(self).logout_budgets(),
                        handlers@,
                    ) && (old(ctx).contacts_spec().has(p.contact_id@)
                        ==> payload.contact.contact.payload_ == Some(
                        old(ctx).contacts_spec().val(p.contact_id@),
                    )) && (payload.contact.contact.payload_ matches Some(pc) ==> final(ctx).contacts_spec().has(p.contact_id@) && final(ctx).contacts_spec().val(
                        p.contact_id@,
                    ) == pc))
                    &&& (old(ctx).contacts_spec().has(p.contact_id@) ==> final(ctx).puppet_spec().fetch_count() == old(ctx).puppet_spec().fetch_count())
                },
                PuppetEvent::Message(p) => {
                    &&& final(ctx).id_spec() == old(ctx).id_spec()
                    &&& final(self).message_budgets() == spec_decrement(
                        old(self).message_budgets(),
                    )
                    &&& final(self).dong_budgets() == old(self).dong_budgets()
                    &&& final(self).login_budgets() == old(self).login_budgets()
                    &&& final(self).logout_budgets() == old(self).logout_budgets()
                    &&& final(self).scan_budgets() == old(self).scan_budgets()
                    &&& (r matches Some(d) && d matches Delivery::Message { payload, handlers }
                        && payload.message.id_ == p.message_id && is_active_plan(
                        old(self).message_budgets(),
                        handlers@,
                    ) && (old(ctx).messages_spec().has(p.message_id@)
                        ==> payload.message.payload_ == Some(
                        old(ctx).messages_spec().val(p.message_id@),
                    )) && ((!old(ctx).messages_spec().has(p.message_id@) && old(ctx).puppet_spec().message_cache().has(p.message_id@))
                        ==> payload.message.payload_ == Some(
                        old(ctx).puppet_spec().message_cache().value(
                            p.message_id@,
                        )->Message_0,
                    )) && (payload.message.payload_ is Some || (!final(ctx).messages_spec().has(
                        p.message_id@,
                    ) && !final(ctx).puppet_spec().message_cache().has(p.message_id@))))
                },
                PuppetEvent::Scan(p) => {
                    &&& *final(ctx) == *old(ctx)
                    &&& final(self).scan_budgets() == spec_decrement(old(self).scan_budgets())
                    &&& final(self).dong_budgets() == old(self).dong_budgets()
                    &&& final(self).login_budgets() == old(self).login_budgets()
                    &&& final(self).logout_budgets() == old(self).logout_budgets()
                    &&& final(self).message_budgets() == old(self).message_budgets()
                    &&& (r matches Some(d) && d matches Delivery::Scan { payload, handlers }
                        && payload.qrcode == p.qrcode && payload.status == p.status
                        && is_active_plan(old(self).scan_budgets(), handlers@))
                },
                _ => r is None && *final(self) == *old(self) && *final(ctx) == *old(ctx),
            },
    {
        match msg {
            PuppetEvent::Dong(payload) => {
                let plan = plan_trigger(&mut self.dong_handlers);
                Some(Delivery::Dong { payload, handlers: plan })
            },
            PuppetEvent::Login(payload) => {
                ctx.set_id(payload.contact_id.clone());
                let mut contact = ContactSelf::new(payload.contact_id, ctx);
                let _ = contact.sync(ctx);
                let plan = plan_trigger(&mut self.login_handlers);
                Some(Delivery::Login { payload: LoginPayload { contact }, handlers: plan })
            },
            PuppetEvent::Logout(payload) => {
                ctx.clear_id();
                let mut contact = ContactSelf::new(payload.contact_id, ctx);
                let _ = contact.ready(ctx, false);
                let plan = plan_trigger(&mut self.logout_handlers);
                Some(Delivery::Logout { payload: LogoutPayload { contact }, handlers: plan })
            },
            PuppetEvent::Message(payload) => {
                let mut message = Message::new(payload.message_id, ctx, None);
                let _ = ctx.message_ready(&mut message);
                let plan = plan_trigger(&mut self.message_handlers);
                Some(
                    Delivery::Message {
                        payload: crate::payload::MessagePayload { message },
                        handlers: plan,
                    },
                )
            },
            PuppetEvent::Scan(payload) => {
                let plan = plan_trigger(&mut self.scan_handlers);
                Some(
                    Delivery::Scan {
                        payload: ScanPayload::new(payload.qrcode, payload.status),
                        handlers: plan,
                    },
                )
            },
            _ => None,
        }
    }
}

} // verus!
