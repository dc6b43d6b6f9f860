use wechaty::bus::{clone_event, event_kind, parse_event_kind, EventKind, PuppetInner};
use wechaty::schemas::event::{
    EventDirtyPayload, EventDongPayload, EventLoginPayload, EventRoomJoinPayload, PuppetEvent,
};
use wechaty::schemas::payload::PayloadType;

fn dong(data: &str) -> PuppetEvent {
    PuppetEvent::Dong(EventDongPayload { data: data.to_string() })
}

#[test]
fn parse_event_kind_accepts_all_known_names() {
    assert_eq!(parse_event_kind("dong"), Some(EventKind::Dong));
    assert_eq!(parse_event_kind("error"), Some(EventKind::Error));
    assert_eq!(parse_event_kind("friendship"), Some(EventKind::Friendship));
    assert_eq!(parse_event_kind("heartbeat"), Some(EventKind::Heartbeat));
    assert_eq!(parse_event_kind("login"), Some(EventKind::Login));
    assert_eq!(parse_event_kind("logout"), Some(EventKind::Logout));
    assert_eq!(parse_event_kind("message"), Some(EventKind::Message));
    assert_eq!(parse_event_kind("ready"), Some(EventKind::Ready));
    assert_eq!(parse_event_kind("reset"), Some(EventKind::Reset));
    assert_eq!(parse_event_kind("room-invite"), Some(EventKind::RoomInvite));
    assert_eq!(parse_event_kind("room-join"), Some(EventKind::RoomJoin));
    assert_eq!(parse_event_kind("room-leave"), Some(EventKind::RoomLeave));
    assert_eq!(parse_event_kind("room-topic"), Some(EventKind::RoomTopic));
    assert_eq!(parse_event_kind("scan"), Some(EventKind::Scan));
    assert_eq!(parse_event_kind("telegram"), None);
}

#[test]
fn fanout_delivers_to_every_sink_of_the_kind() {
    let mut bus = PuppetInner::new();
    bus.subscribe("dong", "alpha".to_string());
    bus.subscribe("dong", "beta".to_string());
    bus.handle(&dong("one"));
    assert_eq!(bus.take_events("dong", &"alpha".to_string()), vec![dong("one")]);
    assert_eq!(bus.take_events("dong", &"beta".to_string()), vec![dong("one")]);
    // taking drains: nothing pending afterwards
    assert!(bus.take_events("dong", &"alpha".to_string()).is_empty());
}

#[test]
fn unsubscribe_stops_delivery_to_that_sink_only() {
    let mut bus = PuppetInner::new();
    bus.subscribe("dong", "alpha".to_string());
    bus.subscribe("dong", "beta".to_string());
    bus.handle(&dong("one"));
    bus.unsubscribe("dong", &"alpha".to_string());
    bus.handle(&dong("two"));
    assert!(bus.take_events("dong", &"alpha".to_string()).is_empty());
    assert_eq!(
        bus.take_events("dong", &"beta".to_string()),
        vec![dong("one"), dong("two")]
    );
}

#[test]
fn one_sink_sees_dispatches_in_order() {
    let mut bus = PuppetInner::new();
    bus.subscribe("dong", "alpha".to_string());
    bus.handle(&dong("first"));
    bus.handle(&dong("second"));
    bus.handle(&dong("third"));
    assert_eq!(
        bus.take_events("dong", &"alpha".to_string()),
        vec![dong("first"), dong("second"), dong("third")]
    );
}

#[test]
fn events_route_by_their_own_kind_only() {
    let mut bus = PuppetInner::new();
    bus.subscribe("dong", "alpha".to_string());
    bus.subscribe("login", "alpha".to_string());
    bus.handle(&PuppetEvent::Login(EventLoginPayload { contact_id: "U1".to_string() }));
    assert!(bus.take_events("dong", &"alpha".to_string()).is_empty());
    assert_eq!(
        bus.take_events("login", &"alpha".to_string()),
        vec![PuppetEvent::Login(EventLoginPayload { contact_id: "U1".to_string() })]
    );
}

#[test]
fn unknown_kind_subscription_is_rejected_silently() {
    let mut bus = PuppetInner::new();
    bus.subscribe("bogus", "alpha".to_string());
    assert!(bus.take_events("bogus", &"alpha".to_string()).is_empty());
    // the sink was never registered under a real kind either
    bus.handle(&dong("one"));
    assert!(bus.take_events("dong", &"alpha".to_string()).is_empty());
}

#[test]
fn resubscribing_keeps_the_pending_queue() {
    let mut bus = PuppetInner::new();
    bus.subscribe("dong", "alpha".to_string());
    bus.handle(&dong("one"));
    bus.subscribe("dong", "alpha".to_string());
    assert_eq!(bus.take_events("dong", &"alpha".to_string()), vec![dong("one")]);
}

#[test]
fn dirty_notifications_are_not_routed() {
    let mut bus = PuppetInner::new();
    bus.subscribe("dong", "alpha".to_string());
    let dirty = PuppetEvent::Dirty(EventDirtyPayload {
        payload_type: PayloadType::Contact,
        payload_id: "C1".to_string(),
    });
    assert_eq!(event_kind(&dirty), None);
    bus.handle(&dirty);
    assert!(bus.take_events("dong", &"alpha".to_string()).is_empty());
}

#[test]
fn cloned_events_compare_equal() {
    let login = PuppetEvent::Login(EventLoginPayload { contact_id: "U1".to_string() });
    assert_eq!(clone_event(&login), login);
    let d = dong("payload");
    assert_eq!(clone_event(&d), d);
    let join = PuppetEvent::RoomJoin(EventRoomJoinPayload {
        invitee_id_list: vec!["C1".to_string(), "C2".to_string()],
        inviter_id: "C3".to_string(),
        room_id: "R1".to_string(),
        timestamp: 5,
    });
    assert_eq!(clone_event(&join), join);
}
