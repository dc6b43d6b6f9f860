//! In-process pub/sub router: a registry of named sinks per event kind, and
//! a dispatcher that fans a raw domain event out to every sink registered
//! under its kind.
//!
//! Delivery is modelled as one queue per sink: `dispatch` appends a copy of
//! the event to every queue of the matching kind, and the owner of a sink
//! drains its queue in order. Within one sink the queue preserves dispatch
//! order; nothing is said about order across sinks.
use vstd::prelude::*;
use crate::schemas::event::PuppetEvent;
use crate::util::{clone_opt_string, clone_string_vec, str_eq};

verus! {

/// The event kinds the bus routes.
#[derive(Debug, Copy, Clone, PartialEq, Eq, Structural)]
pub enum EventKind {
    Dong,
    Error,
    Friendship,
    Heartbeat,
    Login,
    Logout,
    Message,
    Ready,
    Reset,
    RoomInvite,
    RoomJoin,
    RoomLeave,
    RoomTopic,
    Scan,
}

/// The kind name used on the wire and in subscription calls.
pub open spec fn spec_parse_event_kind(name: Seq<char>) -> Option<EventKind> {
    if name == "dong"@ {
        Some(EventKind::Dong)
    } else if name == "error"@ {
        Some(EventKind::Error)
    } else if name == "friendship"@ {
        Some(EventKind::Friendship)
    } else if name == "heartbeat"@ {
        Some(EventKind::Heartbeat)
    } else if name == "login"@ {
        Some(EventKind::Login)
    } else if name == "logout"@ {
        Some(EventKind::Logout)
    } else if name == "message"@ {
        Some(EventKind::Message)
    } else if name == "ready"@ {
        Some(EventKind::Ready)
    } else if name == "reset"@ {
        Some(EventKind::Reset)
    } else if name == "room-invite"@ {
        Some(EventKind::RoomInvite)
    } else if name == "room-join"@ {
        Some(EventKind::RoomJoin)
    } else if name == "room-leave"@ {
        Some(EventKind::RoomLeave)
    } else if name == "room-topic"@ {
        Some(EventKind::RoomTopic)
    } else if name == "scan"@ {
        Some(EventKind::Scan)
    } else {
        None
    }
}

/// Parses a subscription kind name; unknown names are rejected.
pub fn parse_event_kind(name: &str) -> (r: Option<EventKind>)
    ensures
        r == spec_parse_event_kind(name@),
{
    if str_eq(name, "dong") {
        Some(EventKind::Dong)
    } else if str_eq(name, "error") {
        Some(EventKind::Error)
    } else if str_eq(name, "friendship") {
        Some(EventKind::Friendship)
    } else if str_eq(name, "heartbeat") {
        Some(EventKind::Heartbeat)
    } else if str_eq(name, "login") {
        Some(EventKind::Login)
    } else if str_eq(name, "logout") {
        Some(EventKind::Logout)
    } else if str_eq(name, "message") {
        Some(EventKind::Message)
    } else if str_eq(name, "ready") {
        Some(EventKind::Ready)
    } else if str_eq(name, "reset") {
        Some(EventKind::Reset)
    } else if str_eq(name, "room-invite") {
        Some(EventKind::RoomInvite)
    } else if str_eq(name, "room-join") {
        Some(EventKind::RoomJoin)
    } else if str_eq(name, "room-leave") {
        Some(EventKind::RoomLeave)
    } else if str_eq(name, "room-topic") {
        Some(EventKind::RoomTopic)
    } else if str_eq(name, "scan") {
        Some(EventKind::Scan)
    } else {
        None
    }
}

/// The kind under which an event is routed. A dirty notification is not
/// routed to subscribers.
pub open spec fn spec_event_kind(e: PuppetEvent) -> Option<EventKind> {
    match e {
        PuppetEvent::Dong(_) => Some(EventKind::Dong),
        PuppetEvent::Error(_) => Some(EventKind::Error),
        PuppetEvent::Friendship(_) => Some(EventKind::Friendship),
        PuppetEvent::Heartbeat(_) => Some(EventKind::Heartbeat),
        PuppetEvent::Login(_) => Some(EventKind::Login),
        PuppetEvent::Logout(_) => Some(EventKind::Logout),
        PuppetEvent::Message(_) => Some(EventKind::Message),
        PuppetEvent::Ready(_) => Some(EventKind::Ready),
        PuppetEvent::Reset(_) => Some(EventKind::Reset),
        PuppetEvent::RoomInvite(_) => Some(EventKind::RoomInvite),
        PuppetEvent::RoomJoin(_) => Some(EventKind::RoomJoin),
        PuppetEvent::RoomLeave(_) => Some(EventKind::RoomLeave),
        PuppetEvent::RoomTopic(_) => Some(EventKind::RoomTopic),
        PuppetEvent::Scan(_) => Some(EventKind::Scan),
        PuppetEvent::Dirty(_) => None,
    }
}

pub fn event_kind(e: &PuppetEvent) -> (r: Option<EventKind>)
    ensures
        r == spec_event_kind(*e),
{
    match e {
        PuppetEvent::Dong(_) => Some(EventKind::Dong),
        PuppetEvent::Error(_) => Some(EventKind::Error),
        PuppetEvent::Friendship(_) => Some(EventKind::Friendship),
        PuppetEvent::Heartbeat(_) => Some(EventKind::Heartbeat),
        PuppetEvent::Login(_) => Some(EventKind::Login),
        PuppetEvent::Logout(_) => Some(EventKind::Logout),
        PuppetEvent::Message(_) => Some(EventKind::Message),
        PuppetEvent::Ready(_) => Some(EventKind::Ready),
        PuppetEvent::Reset(_) => Some(EventKind::Reset),
        PuppetEvent::RoomInvite(_) => Some(EventKind::RoomInvite),
        PuppetEvent::RoomJoin(_) => Some(EventKind::RoomJoin),
        PuppetEvent::RoomLeave(_) => Some(EventKind::RoomLeave),
        PuppetEvent::RoomTopic(_) => Some(EventKind::RoomTopic),
        PuppetEvent::Scan(_) => Some(EventKind::Scan),
        PuppetEvent::Dirty(_) => None,
    }
}

/// A copy of an event, equal to the original.
pub fn clone_event(e: &PuppetEvent) -> (r: PuppetEvent)
    ensures
        r == *e,
{
    match e {
        PuppetEvent::Dong(p) => PuppetEvent::Dong(
            crate::schemas::event::EventDongPayload { data: p.data.clone() },
        ),
        PuppetEvent::Error(p) => PuppetEvent::Error(
            crate::schemas::event::EventErrorPayload { data: p.data.clone() },
        ),
        PuppetEvent::Friendship(p) => PuppetEvent::Friendship(
            crate::schemas::event::EventFriendshipPayload {
                friendship_id: p.friendship_id.clone(),
            },
        ),
        PuppetEvent::Heartbeat(p) => PuppetEvent::Heartbeat(
            crate::schemas::event::EventHeartbeatPayload { data: p.data.clone() },
        ),
        PuppetEvent::Login(p) => PuppetEvent::Login(
            crate::schemas::event::EventLoginPayload { contact_id: p.contact_id.clone() },
        ),
        PuppetEvent::Logout(p) => PuppetEvent::Logout(
            crate::schemas::event::EventLogoutPayload {
                contact_id: p.contact_id.clone(),
                data: p.data.clone(),
            },
        ),
        PuppetEvent::Message(p) => PuppetEvent::Message(
            crate::schemas::event::EventMessagePayload { message_id: p.message_id.clone() },
        ),
        PuppetEvent::Ready(p) => PuppetEvent::Ready(
            crate::schemas::event::EventReadyPayload { data: p.data.clone() },
        ),
        PuppetEvent::Reset(p) => PuppetEvent::Reset(
            crate::schemas::event::EventResetPayload { data: p.data.clone() },
        ),
        PuppetEvent::RoomInvite(p) => PuppetEvent::RoomInvite(
            crate::schemas::event::EventRoomInvitePayload {
                room_invitation_id: p.room_invitation_id.clone(),
            },
        ),
        PuppetEvent::RoomJoin(p) => PuppetEvent::RoomJoin(
            crate::schemas::event::EventRoomJoinPayload {
                invitee_id_list: clone_string_vec(&p.invitee_id_list),
                inviter_id: p.inviter_id.clone(),
                room_id: p.room_id.clone(),
                timestamp: p.timestamp,
            },
        ),
        PuppetEvent::RoomLeave(p) => PuppetEvent::RoomLeave(
            crate::schemas::event::EventRoomLeavePayload {
                removee_id_list: clone_string_vec(&p.removee_id_list),
                remover_id: p.remover_id.clone(),
                room_id: p.room_id.clone(),
                timestamp: p.timestamp,
            },
        ),
        PuppetEvent::RoomTopic(p) => PuppetEvent::RoomTopic(
            crate::schemas::event::EventRoomTopicPayload {
                changer_id: p.changer_id.clone(),
                new_topic: p.new_topic.clone(),
                old_topic: p.old_topic.clone(),
                room_id: p.room_id.clone(),
                timestamp: p.timestamp,
            },
        ),
        PuppetEvent::Scan(p) => PuppetEvent::Scan(
            crate::schemas::event::EventScanPayload {
                status: p.status,
                qrcode: clone_opt_string(&p.qrcode),
                data: clone_opt_string(&p.data),
            },
        ),
        PuppetEvent::Dirty(p) => PuppetEvent::Dirty(
            crate::schemas::event::EventDirtyPayload {
                payload_type: p.payload_type,
                payload_id: p.payload_id.clone(),
            },
        ),
    }
}

/// One registered sink: its subscriber name and the queue of events
/// dispatched to it and not yet drained.
pub struct SinkChannel {
    pub name: String,
    pub queue: Vec<PuppetEvent>,
}

/// No two sinks of one bucket share a name.
pub open spec fn sink_names_distinct(b: Seq<SinkChannel>) -> bool {
    forall|i: int, j: int|
        0 <= i < j < b.len() ==> (#[trigger] b[i]).name@ != (#[trigger] b[j]).name@
}

/// Some sink of the bucket carries this subscriber name.
pub open spec fn has_sink(b: Seq<SinkChannel>, n: Seq<char>) -> bool {
    exists|i: int| 0 <= i < b.len() && (#[trigger] b[i]).name@ == n
}

/// The position of the sink with this name.
pub open spec fn sink_idx(b: Seq<SinkChannel>, n: Seq<char>) -> int {
    choose|i: int| 0 <= i < b.len() && (#[trigger] b[i]).name@ == n
}

/// The queue of the sink with this name.
pub open spec fn sink_queue(b: Seq<SinkChannel>, n: Seq<char>) -> Seq<PuppetEvent> {
    b[sink_idx(b, n)].queue@
}

/// Relates an old and a new bucket where the only change is that every
/// sink's queue got `e` appended.
pub open spec fn all_queues_extended(
    b0: Seq<SinkChannel>,
    b1: Seq<SinkChannel>,
    e: PuppetEvent,
) -> bool {
    &&& b1.len() == b0.len()
    &&& forall|i: int|
        0 <= i < b0.len() ==> (#[trigger] b1[i]).name@ == b0[i].name@ && b1[i].queue@ == b0[
            i
        ].queue@.push(e)
}

/// Finds the sink registered under `name`, if any.
fn find_sink(subs: &Vec<SinkChannel>, name: &String) -> (r: Option<usize>)
    requires
        sink_names_distinct(subs@),
    ensures
        match r {
            Some(i) => i < subs@.len() && subs@[i as int].name@ == name@ && has_sink(
                subs@,
                name@,
            ) && sink_idx(subs@, name@) == i,
            None => !has_sink(subs@, name@),
        },
{
    let mut i: usize = 0;
    while i < subs.len()
        invariant
            sink_names_distinct(subs@),
            0 <= i <= subs@.len(),
            forall|j: int| 0 <= j < i ==> (#[trigger] subs@[j]).name@ != name@,
        decreases subs@.len() - i,
    {
        if str_eq(subs[i].name.as_str(), name.as_str()) {
            proof {
                let k = sink_idx(subs@, name@);
                assert(0 <= k < subs@.len() && subs@[k].name@ == name@);
                if k != i as int {
                    assert(subs@[k].name@ != subs@[i as int].name@);
                }
            }
            return Some(i);
        }
        i += 1;
    }
    proof {
        if has_sink(subs@, name@) {
            let k = sink_idx(subs@, name@);
            assert(subs@[k].name@ == name@);
        }
    }
    None
}

/// Registers `name` in the bucket: a fresh name is appended with an empty
/// queue, a known name keeps its sink and its pending queue.
fn upsert_sink(subs: &mut Vec<SinkChannel>, name: String)
    requires
        sink_names_distinct(old(subs)@),
    ensures
        sink_names_distinct(final(subs)@),
        has_sink(old(subs)@, name@) ==> final(subs)@ == old(subs)@,
        !has_sink(old(subs)@, name@) ==> {
            &&& final(subs)@.len() == old(subs)@.len() + 1
            &&& forall|j: int| 0 <= j < old(subs)@.len() ==> final(subs)@[j] == old(subs)@[j]
            &&& final(subs)@.last().name@ == name@
            &&& final(subs)@.last().queue@ == Seq::<PuppetEvent>::empty()
        },
{
    let found = find_sink(subs, &name);
    match found {
        Some(_) => {
        },
        None => {
            let ghost b0 = subs@;
            let sink = SinkChannel { name, queue: Vec::new() };
            subs.push(sink);
            proof {
                assert forall|i: int, j: int|
                    0 <= i < j < subs@.len() implies (#[trigger] subs@[i]).name@ != (
                #[trigger] subs@[j]).name@ by {
                    if j == subs@.len() - 1 {
                        assert(subs@[i] == b0[i]);
                        assert(has_sink(b0, subs@[j].name@) == false);
                        if b0[i].name@ == subs@[j].name@ {
                            assert(has_sink(b0, subs@[j].name@));
                        }
                    } else {
                        assert(subs@[i] == b0[i] && subs@[j] == b0[j]);
                    }
                }
            }
        },
    }
}

/// Removes the sink registered under `name`, if any.
fn remove_sink(subs: &mut Vec<SinkChannel>, name: &String)
    requires
        sink_names_distinct(old(subs)@),
    ensures
        sink_names_distinct(final(subs)@),
        !has_sink(old(subs)@, name@) ==> final(subs)@ == old(subs)@,
        has_sink(old(subs)@, name@) ==> final(subs)@ == old(subs)@.remove(
            sink_idx(old(subs)@, name@),
        ),
        !has_sink(final(subs)@, name@),
        forall|n2: Seq<char>|
            n2 != name@ ==> #[trigger] has_sink(final(subs)@, n2) == has_sink(old(subs)@, n2),
        forall|n2: Seq<char>|
            n2 != name@ && has_sink(old(subs)@, n2) ==> #[trigger] sink_queue(final(subs)@, n2)
                == sink_queue(old(subs)@, n2),
{
    let ghost b0 = subs@;
    let found = find_sink(subs, name);
    match found {
        Some(i) => {
            let _ = subs.remove(i);
            proof {
                lemma_bucket_remove(b0, i as int);
            }
        },
        None => {
        },
    }
}

/// Positional description of removing one sink from a bucket.
pub proof fn lemma_bucket_remove(b: Seq<SinkChannel>, i: int)
    requires
        sink_names_distinct(b),
        0 <= i < b.len(),
    ensures
        sink_names_distinct(b.remove(i)),
        !has_sink(b.remove(i), b[i].name@),
        forall|n2: Seq<char>|
            n2 != b[i].name@ ==> #[trigger] has_sink(b.remove(i), n2) == has_sink(b, n2),
        forall|n2: Seq<char>|
            n2 != b[i].name@ && has_sink(b, n2) ==> #[trigger] sink_queue(b.remove(i), n2)
                == sink_queue(b, n2),
{
    let x = b.remove(i);
    assert forall|j: int| 0 <= j < x.len() implies (#[trigger] x[j]) == (if j < i {
        b[j]
    } else {
        b[j + 1]
    }) by {}
    assert forall|p: int, q: int| 0 <= p < q < x.len() implies x[p].name@ != x[q].name@ by {
        let ep = if p < i { p } else { p + 1 };
        let eq = if q < i { q } else { q + 1 };
        assert(x[p] == b[ep] && x[q] == b[eq]);
    }
    assert forall|j: int| 0 <= j < x.len() implies x[j].name@ != b[i].name@ by {
        let ej = if j < i { j } else { j + 1 };
        assert(x[j] == b[ej] && ej != i);
    }
    if has_sink(x, b[i].name@) {
        let j = sink_idx(x, b[i].name@);
        assert(x[j].name@ == b[i].name@);
    }
    assert forall|n2: Seq<char>| n2 != b[i].name@ implies #[trigger] has_sink(x, n2) == has_sink(
        b,
        n2,
    ) by {
        if has_sink(b, n2) {
            let j = sink_idx(b, n2);
            assert(b[j].name@ == n2 && j != i);
            let xj = if j < i { j } else { j - 1 };
            assert(x[xj] == b[j]);
            assert(has_sink(x, n2));
        }
        if has_sink(x, n2) {
            let j = sink_idx(x, n2);
            let ej = if j < i { j } else { j + 1 };
            assert(x[j] == b[ej]);
            assert(has_sink(b, n2));
        }
    }
    assert forall|n2: Seq<char>| n2 != b[i].name@ && has_sink(b, n2) implies #[trigger] sink_queue(
        x,
        n2,
    ) == sink_queue(b, n2) by {
        let j = sink_idx(b, n2);
        assert(0 <= j < b.len() && b[j].name@ == n2 && j != i);
        let xj = if j < i { j } else { j - 1 };
        assert(x[xj] == b[j]);
        lemma_sink_at(x, xj);
        lemma_sink_at(b, j);
    }
}

/// A sink at position `i` witnesses its own name, uniquely so under
/// distinct names.
pub proof fn lemma_sink_at(b: Seq<SinkChannel>, i: int)
    requires
        sink_names_distinct(b),
        0 <= i < b.len(),
    ensures
        has_sink(b, b[i].name@),
        sink_idx(b, b[i].name@) == i,
        sink_queue(b, b[i].name@) == b[i].queue@,
{
    assert(has_sink(b, b[i].name@));
    let j = sink_idx(b, b[i].name@);
    assert(0 <= j < b.len() && b[j].name@ == b[i].name@);
    if i != j {
        assert(b[i].name@ != b[j].name@);
    }
}

/// Appends a copy of `e` to every queue of the bucket.
fn push_event_all(subs: &mut Vec<SinkChannel>, e: &PuppetEvent)
    requires
        sink_names_distinct(old(subs)@),
    ensures
        sink_names_distinct(final(subs)@),
        all_queues_extended(old(subs)@, final(subs)@, *e),
{
    let ghost b0 = subs@;
    let mut i: usize = 0;
    while i < subs.len()
        invariant
            subs@.len() == b0.len(),
            0 <= i <= b0.len(),
            forall|j: int|
                0 <= j < i ==> (#[trigger] subs@[j]).name@ == b0[j].name@ && subs@[j].queue@ == b0[
                    j
                ].queue@.push(*e),
            forall|j: int| i <= j < b0.len() ==> #[trigger] subs@[j] == b0[j],
        decreases b0.len() - i,
    {
        let copy = clone_event(e);
        subs[i].queue.push(copy);
        i += 1;
    }
    proof {
        assert forall|p: int, q: int|
            0 <= p < q < subs@.len() implies (#[trigger] subs@[p]).name@ != (
        #[trigger] subs@[q]).name@ by {
            assert(b0[p].name@ != b0[q].name@);
        }
    }
}

/// Drains the queue of the sink registered under `name`: returns the
/// pending events in dispatch order and leaves the queue empty.
fn drain_sink(subs: &mut Vec<SinkChannel>, name: &String) -> (r: Vec<PuppetEvent>)
    requires
        sink_names_distinct(old(subs)@),
    ensures
        sink_names_distinct(final(subs)@),
        !has_sink(old(subs)@, name@) ==> final(subs)@ == old(subs)@ && r@ == Seq::<
            PuppetEvent,
        >::empty(),
        has_sink(old(subs)@, name@) ==> {
            &&& r@ == sink_queue(old(subs)@, name@)
            &&& final(subs)@.len() == old(subs)@.len()
            &&& forall|j: int|
                0 <= j < old(subs)@.len() && j != sink_idx(old(subs)@, name@)
                    ==> #[trigger] final(subs)@[j] == old(subs)@[j]
            &&& final(subs)@[sink_idx(old(subs)@, name@)].name@ == name@
            &&& final(subs)@[sink_idx(old(subs)@, name@)].queue@ == Seq::<PuppetEvent>::empty()
        },
{
    let ghost b0 = subs@;
    let found = find_sink(subs, name);
    match found {
        Some(i) => {
            let sink = subs.remove(i);
            let fresh = SinkChannel { name: sink.name, queue: Vec::new() };
            subs.insert(i, fresh);
            proof {
                assert forall|j: int|
                    0 <= j < b0.len() && j != i as int implies #[trigger] subs@[j] == b0[j] by {}
                assert(subs@[i as int].name@ == name@);
                assert forall|p: int, q: int|
                    0 <= p < q < subs@.len() implies (#[trigger] subs@[p]).name@ != (
                #[trigger] subs@[q]).name@ by {
                    assert(b0[p].name@ != b0[q].name@);
                    assert(subs@[p].name@ == b0[p].name@ && subs@[q].name@ == b0[q].name@);
                }
            }
            sink.queue
        },
        None => Vec::new(),
    }
}


/// The subscriber registry: one bucket of named sinks per event kind.
///
/// `subscribe`, `unsubscribe` and `handle` are the registry's three
/// inbound operations; `take_events` is the read side of each sink's
/// channel.
pub struct PuppetInner {
    dong_subscribers: Vec<SinkChannel>,
    error_subscribers: Vec<SinkChannel>,
    friendship_subscribers: Vec<SinkChannel>,
    heartbeat_subscribers: Vec<SinkChannel>,
    login_subscribers: Vec<SinkChannel>,
    logout_subscribers: Vec<SinkChannel>,
    message_subscribers: Vec<SinkChannel>,
    ready_subscribers: Vec<SinkChannel>,
    reset_subscribers: Vec<SinkChannel>,
    room_invite_subscribers: Vec<SinkChannel>,
    room_join_subscribers: Vec<SinkChannel>,
    room_leave_subscribers: Vec<SinkChannel>,
    room_topic_subscribers: Vec<SinkChannel>,
    scan_subscribers: Vec<SinkChannel>,
}

/// Relates a bucket before and after a subscription under `n`: a fresh name
/// is appended with an empty queue, a known name leaves the bucket as it
/// was (the sink keeps its pending events).
pub open spec fn upserted(b0: Seq<SinkChannel>, b1: Seq<SinkChannel>, n: Seq<char>) -> bool {
    if has_sink(b0, n) {
        b1 == b0
    } else {
        &&& b1.len() == b0.len() + 1
        &&& forall|j: int| 0 <= j < b0.len() ==> b1[j] == b0[j]
        &&& b1.last().name@ == n
        &&& b1.last().queue@ == Seq::<PuppetEvent>::empty()
    }
}

/// Relates a bucket before and after an unsubscription of `n`: the sink of
/// that name is gone, every other sink keeps its place and its queue.
pub open spec fn unsubscribed(b0: Seq<SinkChannel>, b1: Seq<SinkChannel>, n: Seq<char>) -> bool {
    if has_sink(b0, n) {
        b1 == b0.remove(sink_idx(b0, n))
    } else {
        b1 == b0
    }
}

/// Relates a bucket before and after a drain of `n`'s queue: that queue is
/// empty, every other sink is untouched.
pub open spec fn drained(b0: Seq<SinkChannel>, b1: Seq<SinkChannel>, n: Seq<char>) -> bool {
    if has_sink(b0, n) {
        &&& b1.len() == b0.len()
        &&& forall|j: int| 0 <= j < b0.len() && j != sink_idx(b0, n) ==> b1[j] == b0[j]
        &&& b1[sink_idx(b0, n)].name@ == n
        &&& b1[sink_idx(b0, n)].queue@ == Seq::<PuppetEvent>::empty()
    } else {
        b1 == b0
    }
}

impl PuppetInner {
    /// The bucket of sinks registered for one event kind.
    pub closed spec fn bucket(self, k: EventKind) -> Seq<SinkChannel> {
        match k {
            EventKind::Dong => self.dong_subscribers@,
            EventKind::Error => self.error_subscribers@,
            EventKind::Friendship => self.friendship_subscribers@,
            EventKind::Heartbeat => self.heartbeat_subscribers@,
            EventKind::Login => self.login_subscribers@,
            EventKind::Logout => self.logout_subscribers@,
            EventKind::Message => self.message_subscribers@,
            EventKind::Ready => self.ready_subscribers@,
            EventKind::Reset => self.reset_subscribers@,
            EventKind::RoomInvite => self.room_invite_subscribers@,
            EventKind::RoomJoin => self.room_join_subscribers@,
            EventKind::RoomLeave => self.room_leave_subscribers@,
            EventKind::RoomTopic => self.room_topic_subscribers@,
            EventKind::Scan => self.scan_subscribers@,
        }
    }

    /// Every bucket keeps its subscriber names distinct.
    pub closed spec fn wf(self) -> bool {
        &&& sink_names_distinct(self.dong_subscribers@)
        &&& sink_names_distinct(self.error_subscribers@)
        &&& sink_names_distinct(self.friendship_subscribers@)
        &&& sink_names_distinct(self.heartbeat_subscribers@)
        &&& sink_names_distinct(self.login_subscribers@)
        &&& sink_names_distinct(self.logout_subscribers@)
        &&& sink_names_distinct(self.message_subscribers@)
        &&& sink_names_distinct(self.ready_subscribers@)
        &&& sink_names_distinct(self.reset_subscribers@)
        &&& sink_names_distinct(self.room_invite_subscribers@)
        &&& sink_names_distinct(self.room_join_subscribers@)
        &&& sink_names_distinct(self.room_leave_subscribers@)
        &&& sink_names_distinct(self.room_topic_subscribers@)
        &&& sink_names_distinct(self.scan_subscribers@)
    }

    /// A registry with no subscribers.
    pub fn new() -> (r: Self)
        ensures
            r.wf(),
            forall|k: EventKind| #[trigger] r.bucket(k) == Seq::<SinkChannel>::empty(),
    {
        let r = PuppetInner {
            dong_subscribers: Vec::new(),
            error_subscribers: Vec::new(),
            friendship_subscribers: Vec::new(),
            heartbeat_subscribers: Vec::new(),
            login_subscribers: Vec::new(),
            logout_subscribers: Vec::new(),
            message_subscribers: Vec::new(),
            ready_subscribers: Vec::new(),
            reset_subscribers: Vec::new(),
            room_invite_subscribers: Vec::new(),
            room_join_subscribers: Vec::new(),
            room_leave_subscribers: Vec::new(),
            room_topic_subscribers: Vec::new(),
            scan_subscribers: Vec::new(),
        };
        proof {
            assert forall|kk: EventKind| #[trigger] r.bucket(kk) == Seq::<
                SinkChannel,
            >::empty() by {
                match kk {
                    EventKind::Dong => assert(r.bucket(kk) =~= Seq::<SinkChannel>::empty()),
                    EventKind::Error => assert(r.bucket(kk) =~= Seq::<SinkChannel>::empty()),
                    EventKind::Friendship => assert(r.bucket(kk) =~= Seq::<SinkChannel>::empty()),
                    EventKind::Heartbeat => assert(r.bucket(kk) =~= Seq::<SinkChannel>::empty()),
                    EventKind::Login => assert(r.bucket(kk) =~= Seq::<SinkChannel>::empty()),
                    EventKind::Logout => assert(r.bucket(kk) =~= Seq::<SinkChannel>::empty()),
                    EventKind::Message => assert(r.bucket(kk) =~= Seq::<SinkChannel>::empty()),
                    EventKind::Ready => assert(r.bucket(kk) =~= Seq::<SinkChannel>::empty()),
                    EventKind::Reset => assert(r.bucket(kk) =~= Seq::<SinkChannel>::empty()),
                    EventKind::RoomInvite => assert(r.bucket(kk) =~= Seq::<SinkChannel>::empty()),
                    EventKind::RoomJoin => assert(r.bucket(kk) =~= Seq::<SinkChannel>::empty()),
                    EventKind::RoomLeave => assert(r.bucket(kk) =~= Seq::<SinkChannel>::empty()),
                    EventKind::RoomTopic => assert(r.bucket(kk) =~= Seq::<SinkChannel>::empty()),
                    EventKind::Scan => assert(r.bucket(kk) =~= Seq::<SinkChannel>::empty()),
                }
            }
        }
        r
    }

    /// Registers `name` as a sink for the named event kind. An unknown kind
    /// name is rejected: nothing is inserted and no error is reported.
    pub fn subscribe(&mut self, event_name: &str, name: String)
        requires
            old(self).wf(),
        ensures
            final(self).wf(),
            match spec_parse_event_kind(event_name@) {
                None => *final(self) == *old(self),
                Some(k) => upserted(old(self).bucket(k), final(self).bucket(k), name@)
                    && forall|k2: EventKind|
                        k2 != k ==> #[trigger] final(self).bucket(k2) == old(self).bucket(k2),
            },
    {
        match parse_event_kind(event_name) {
            Some(kind) => match kind {
                EventKind::Dong => upsert_sink(&mut self.dong_subscribers, name),
                EventKind::Error => upsert_sink(&mut self.error_subscribers, name),
                EventKind::Friendship => upsert_sink(&mut self.friendship_subscribers, name),
                EventKind::Heartbeat => upsert_sink(&mut self.heartbeat_subscribers, name),
                EventKind::Login => upsert_sink(&mut self.login_subscribers, name),
                EventKind::Logout => upsert_sink(&mut self.logout_subscribers, name),
                EventKind::Message => upsert_sink(&mut self.message_subscribers, name),
                EventKind::Ready => upsert_sink(&mut self.ready_subscribers, name),
                EventKind::Reset => upsert_sink(&mut self.reset_subscribers, name),
                EventKind::RoomInvite => upsert_sink(&mut self.room_invite_subscribers, name),
                EventKind::RoomJoin => upsert_sink(&mut self.room_join_subscribers, name),
                EventKind::RoomLeave => upsert_sink(&mut self.room_leave_subscribers, name),
                EventKind::RoomTopic => upsert_sink(&mut self.room_topic_subscribers, name),
                EventKind::Scan => upsert_sink(&mut self.scan_subscribers, name),
            },
            None => {
            },
        }
    }

    /// Removes the sink registered under `name` for the named event kind,
    /// if any; unknown kind names change nothing.
    pub fn unsubscribe(&mut self, event_name: &str, name: &String)
        requires
            old(self).wf(),
        ensures
            final(self).wf(),
            match spec_parse_event_kind(event_name@) {
                None => *final(self) == *old(self),
                Some(k) => unsubscribed(old(self).bucket(k), final(self).bucket(k), name@)
                    && !has_sink(final(self).bucket(k), name@)
                    && forall|k2: EventKind|
                        k2 != k ==> #[trigger] final(self).bucket(k2) == old(self).bucket(k2),
            },
    {
        match parse_event_kind(event_name) {
            Some(kind) => match kind {
                EventKind::Dong => remove_sink(&mut self.dong_subscribers, name),
                EventKind::Error => remove_sink(&mut self.error_subscribers, name),
                EventKind::Friendship => remove_sink(&mut self.friendship_subscribers, name),
                EventKind::Heartbeat => remove_sink(&mut self.heartbeat_subscribers, name),
                EventKind::Login => remove_sink(&mut self.login_subscribers, name),
                EventKind::Logout => remove_sink(&mut self.logout_subscribers, name),
                EventKind::Message => remove_sink(&mut self.message_subscribers, name),
                EventKind::Ready => remove_sink(&mut self.ready_subscribers, name),
                EventKind::Reset => remove_sink(&mut self.reset_subscribers, name),
                EventKind::RoomInvite => remove_sink(&mut self.room_invite_subscribers, name),
                EventKind::RoomJoin => remove_sink(&mut self.room_join_subscribers, name),
                EventKind::RoomLeave => remove_sink(&mut self.room_leave_subscribers, name),
                EventKind::RoomTopic => remove_sink(&mut self.room_topic_subscribers, name),
                EventKind::Scan => remove_sink(&mut self.scan_subscribers, name),
            },
            None => {
            },
        }
    }

    /// Fans the event out: a copy is appended to the queue of every sink
    /// registered under the event's kind, independently; no other bucket is
    /// touched. An event that is not routed (a dirty notification) changes
    /// nothing.
    pub fn handle(&mut self, event: &PuppetEvent)
        requires
            old(self).wf(),
        ensures
            final(self).wf(),
            match spec_event_kind(*event) {
                None => *final(self) == *old(self),
                Some(k) => all_queues_extended(old(self).bucket(k), final(self).bucket(k), *event)
                    && forall|k2: EventKind|
                        k2 != k ==> #[trigger] final(self).bucket(k2) == old(self).bucket(k2),
            },
    {
        match event_kind(event) {
            Some(kind) => match kind {
                EventKind::Dong => push_event_all(&mut self.dong_subscribers, event),
                EventKind::Error => push_event_all(&mut self.error_subscribers, event),
                EventKind::Friendship => push_event_all(&mut self.friendship_subscribers, event),
                EventKind::Heartbeat => push_event_all(&mut self.heartbeat_subscribers, event),
                EventKind::Login => push_event_all(&mut self.login_subscribers, event),
                EventKind::Logout => push_event_all(&mut self.logout_subscribers, event),
                EventKind::Message => push_event_all(&mut self.message_subscribers, event),
                EventKind::Ready => push_event_all(&mut self.ready_subscribers, event),
                EventKind::Reset => push_event_all(&mut self.reset_subscribers, event),
                EventKind::RoomInvite => push_event_all(&mut self.room_invite_subscribers, event),
                EventKind::RoomJoin => push_event_all(&mut self.room_join_subscribers, event),
                EventKind::RoomLeave => push_event_all(&mut self.room_leave_subscribers, event),
                EventKind::RoomTopic => push_event_all(&mut self.room_topic_subscribers, event),
                EventKind::Scan => push_event_all(&mut self.scan_subscribers, event),
            },
            None => {
            },
        }
    }

    /// Drains the queue of the sink registered under `name` for the named
    /// event kind: the pending events come back in dispatch order.
    pub fn take_events(&mut self, event_name: &str, name: &String) -> (r: Vec<PuppetEvent>)
        requires
            old(self).wf(),
        ensures
            final(self).wf(),
            match spec_parse_event_kind(event_name@) {
                None => *final(self) == *old(self) && r@ == Seq::<PuppetEvent>::empty(),
                Some(k) => {
                    &&& drained(old(self).bucket(k), final(self).bucket(k), name@)
                    &&& (has_sink(old(self).bucket(k), name@) ==> r@ == sink_queue(
                        old(self).bucket(k),
                        name@,
                    ))
                    &&& (!has_sink(old(self).bucket(k), name@) ==> r@ == Seq::<
                        PuppetEvent,
                    >::empty())
                    &&& forall|k2: EventKind|
                        k2 != k ==> #[trigger] final(self).bucket(k2) == old(self).bucket(k2)
                },
            },
    {
        match parse_event_kind(event_name) {
            Some(kind) => match kind {
                EventKind::Dong => drain_sink(&mut self.dong_subscribers, name),
                EventKind::Error => drain_sink(&mut self.error_subscribers, name),
                EventKind::Friendship => drain_sink(&mut self.friendship_subscribers, name),
                EventKind::Heartbeat => drain_sink(&mut self.heartbeat_subscribers, name),
                EventKind::Login => drain_sink(&mut self.login_subscribers, name),
                EventKind::Logout => drain_sink(&mut self.logout_subscribers, name),
                EventKind::Message => drain_sink(&mut self.message_subscribers, name),
                EventKind::Ready => drain_sink(&mut self.ready_subscribers, name),
                EventKind::Reset => drain_sink(&mut self.reset_subscribers, name),
                EventKind::RoomInvite => drain_sink(&mut self.room_invite_subscribers, name),
                EventKind::RoomJoin => drain_sink(&mut self.room_join_subscribers, name),
                EventKind::RoomLeave => drain_sink(&mut self.room_leave_subscribers, name),
                EventKind::RoomTopic => drain_sink(&mut self.room_topic_subscribers, name),
                EventKind::Scan => drain_sink(&mut self.scan_subscribers, name),
            },
            None => Vec::new(),
        }
    }
}


/// A well-formed registry keeps every bucket's subscriber names distinct;
/// reasoning about a live registry's buckets starts here.
pub proof fn lemma_wf_bucket_distinct(r: PuppetInner, k: EventKind)
    requires
        r.wf(),
    ensures
        sink_names_distinct(r.bucket(k)),
{
    match k {
        EventKind::Dong => {
        },
        EventKind::Error => {
        },
        EventKind::Friendship => {
        },
        EventKind::Heartbeat => {
        },
        EventKind::Login => {
        },
        EventKind::Logout => {
        },
        EventKind::Message => {
        },
        EventKind::Ready => {
        },
        EventKind::Reset => {
        },
        EventKind::RoomInvite => {
        },
        EventKind::RoomJoin => {
        },
        EventKind::RoomLeave => {
        },
        EventKind::RoomTopic => {
        },
        EventKind::Scan => {
        },
    }
}

} // verus!

