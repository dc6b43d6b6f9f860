use std::cell::RefCell;
use std::rc::Rc;

use wechaty::bot::dong_reply;
use wechaty::context::WechatyContext;
use wechaty::error::{PuppetError, WechatyError};
use wechaty::listener::{Delivery, EventListenerInner};
use wechaty::puppet::{cache_key_room_member, FileBox, Puppet, PuppetImpl};
use wechaty::puppet_mock::PuppetMock;
use wechaty::schemas::contact::{ContactGender, ContactPayload, ContactQueryFilter, ContactType};
use wechaty::schemas::event::{
    EventDongPayload, EventLoginPayload, EventLogoutPayload, EventMessagePayload, PuppetEvent,
};
use wechaty::schemas::friendship::{FriendshipPayload, FriendshipType};
use wechaty::schemas::image::ImageType;
use wechaty::schemas::message::{MessagePayload, MessageQueryFilter, MessageType};
use wechaty::schemas::mini_program::MiniProgramPayload;
use wechaty::schemas::payload::PayloadType;
use wechaty::schemas::room::{RoomMemberPayload, RoomPayload, RoomQueryFilter};
use wechaty::schemas::room_invitation::RoomInvitationPayload;
use wechaty::schemas::url_link::UrlLinkPayload;
use wechaty::user::message::Message;
use wechaty::wechaty::Wechaty;

#[derive(Default)]
struct Stats {
    contact_fetches: usize,
    message_fetches: usize,
    room_fetches: usize,
    member_fetches: usize,
    texts_sent: Vec<(String, String)>,
}

struct TestBackend {
    contacts: Vec<ContactPayload>,
    messages: Vec<MessagePayload>,
    rooms: Vec<RoomPayload>,
    members: Vec<(String, String, RoomMemberPayload)>,
    stats: Rc<RefCell<Stats>>,
}

impl TestBackend {
    fn new() -> (TestBackend, Rc<RefCell<Stats>>) {
        let stats = Rc::new(RefCell::new(Stats::default()));
        let backend = TestBackend {
            contacts: Vec::new(),
            messages: Vec::new(),
            rooms: Vec::new(),
            members: Vec::new(),
            stats: stats.clone(),
        };
        (backend, stats)
    }
}

fn mk_contact(id: &str, name: &str, alias: &str) -> ContactPayload {
    ContactPayload {
        id: id.to_string(),
        gender: ContactGender::Unknown,
        contact_type: ContactType::Individual,
        name: name.to_string(),
        avatar: String::new(),
        address: String::new(),
        alias: alias.to_string(),
        city: String::new(),
        friend: true,
        province: String::new(),
        signature: String::new(),
        star: false,
        weixin: String::new(),
        corporation: String::new(),
        title: String::new(),
        description: String::new(),
        coworker: false,
        phone: Vec::new(),
    }
}

fn mk_text(id: &str, from: &str, to: &str, text: &str) -> MessagePayload {
    MessagePayload::To {
        id: id.to_string(),
        filename: None,
        text: Some(text.to_string()),
        timestamp: 1,
        message_type: MessageType::Text,
        from_id: from.to_string(),
        room_id: None,
        to_id: to.to_string(),
    }
}

fn mk_typed(id: &str, from: &str, to: &str, message_type: MessageType) -> MessagePayload {
    MessagePayload::To {
        id: id.to_string(),
        filename: None,
        text: None,
        timestamp: 1,
        message_type,
        from_id: from.to_string(),
        room_id: None,
        to_id: to.to_string(),
    }
}

fn mk_room(id: &str, topic: &str, members: &[&str]) -> RoomPayload {
    RoomPayload {
        id: id.to_string(),
        topic: topic.to_string(),
        avatar: String::new(),
        member_id_list: members.iter().map(|m| m.to_string()).collect(),
        owner_id: members.first().map(|m| m.to_string()).unwrap_or_default(),
        admin_id_list: Vec::new(),
    }
}

impl PuppetImpl for TestBackend {
    fn contact_list(&mut self) -> Result<Vec<String>, PuppetError> {
        Ok(self.contacts.iter().map(|c| c.id.clone()).collect())
    }

    fn contact_raw_payload(&mut self, contact_id: String) -> Result<ContactPayload, PuppetError> {
        self.stats.borrow_mut().contact_fetches += 1;
        match self.contacts.iter().find(|c| c.id == contact_id) {
            Some(c) => Ok(c.clone()),
            None => Err(PuppetError::Network),
        }
    }

    fn message_raw_payload(&mut self, message_id: String) -> Result<MessagePayload, PuppetError> {
        self.stats.borrow_mut().message_fetches += 1;
        match self.messages.iter().find(|m| m.id() == message_id) {
            Some(m) => Ok(m.clone()),
            None => Err(PuppetError::Network),
        }
    }

    fn message_send_text(
        &mut self,
        conversation_id: String,
        text: String,
        _mention_id_list: Vec<String>,
    ) -> Result<Option<String>, PuppetError> {
        self.stats.borrow_mut().texts_sent.push((conversation_id, text));
        Ok(Some("out-1".to_string()))
    }

    fn room_list(&mut self) -> Result<Vec<String>, PuppetError> {
        Ok(self.rooms.iter().map(|r| r.id.clone()).collect())
    }

    fn room_raw_payload(&mut self, room_id: String) -> Result<RoomPayload, PuppetError> {
        self.stats.borrow_mut().room_fetches += 1;
        match self.rooms.iter().find(|r| r.id == room_id) {
            Some(r) => Ok(r.clone()),
            None => Err(PuppetError::Network),
        }
    }

    fn room_member_list(&mut self, room_id: String) -> Result<Vec<String>, PuppetError> {
        Ok(self
            .members
            .iter()
            .filter(|(r, _, _)| *r == room_id)
            .map(|(_, c, _)| c.clone())
            .collect())
    }

    fn room_member_raw_payload(
        &mut self,
        room_id: String,
        contact_id: String,
    ) -> Result<RoomMemberPayload, PuppetError> {
        self.stats.borrow_mut().member_fetches += 1;
        match self
            .members
            .iter()
            .find(|(r, c, _)| *r == room_id && *c == contact_id)
        {
            Some((_, _, p)) => Ok(p.clone()),
            None => Err(PuppetError::Network),
        }
    }

    fn contact_self_name_set(&mut self, _name: String) -> Result<(), PuppetError> {
        Err(PuppetError::Unsupported("contact_self_name_set".to_string()))
    }

    fn contact_self_qr_code(&mut self) -> Result<String, PuppetError> {
        Err(PuppetError::Unsupported("contact_self_qr_code".to_string()))
    }

    fn contact_self_signature_set(&mut self, _signature: String) -> Result<(), PuppetError> {
        Err(PuppetError::Unsupported("contact_self_signature_set".to_string()))
    }

    fn tag_contact_add(&mut self, _tag_id: String, _contact_id: String) -> Result<(), PuppetError> {
        Err(PuppetError::Unsupported("tag_contact_add".to_string()))
    }

    fn tag_contact_remove(&mut self, _tag_id: String, _contact_id: String) -> Result<(), PuppetError> {
        Err(PuppetError::Unsupported("tag_contact_remove".to_string()))
    }

    fn tag_contact_delete(&mut self, _tag_id: String) -> Result<(), PuppetError> {
        Err(PuppetError::Unsupported("tag_contact_delete".to_string()))
    }

    fn tag_contact_list(&mut self, _contact_id: String) -> Result<Vec<String>, PuppetError> {
        Err(PuppetError::Unsupported("tag_contact_list".to_string()))
    }

    fn tag_list(&mut self) -> Result<Vec<String>, PuppetError> {
        Err(PuppetError::Unsupported("tag_list".to_string()))
    }

    fn contact_alias(&mut self, _contact_id: String) -> Result<String, PuppetError> {
        Err(PuppetError::Unsupported("contact_alias".to_string()))
    }

    fn contact_alias_set(&mut self, _contact_id: String, _alias: String) -> Result<(), PuppetError> {
        Err(PuppetError::Unsupported("contact_alias_set".to_string()))
    }

    fn contact_avatar(&mut self, _contact_id: String) -> Result<FileBox, PuppetError> {
        Err(PuppetError::Unsupported("contact_avatar".to_string()))
    }

    fn contact_avatar_set(&mut self, _contact_id: String, _file: FileBox) -> Result<(), PuppetError> {
        Err(PuppetError::Unsupported("contact_avatar_set".to_string()))
    }

    fn contact_phone_set(&mut self, _contact_id: String, _phone_list: Vec<String>) -> Result<(), PuppetError> {
        Err(PuppetError::Unsupported("contact_phone_set".to_string()))
    }

    fn contact_corporation_remark_set(&mut self, _contact_id: String, _corporation_remark: Option<String>) -> Result<(), PuppetError> {
        Err(PuppetError::Unsupported("contact_corporation_remark_set".to_string()))
    }

    fn contact_description_set(&mut self, _contact_id: String, _description: Option<String>) -> Result<(), PuppetError> {
        Err(PuppetError::Unsupported("contact_description_set".to_string()))
    }

    fn message_contact(&mut self, _message_id: String) -> Result<String, PuppetError> {
        Err(PuppetError::Unsupported("message_contact".to_string()))
    }

    fn message_file(&mut self, _message_id: String) -> Result<FileBox, PuppetError> {
        Err(PuppetError::Unsupported("message_file".to_string()))
    }

    fn message_image(&mut self, _message_id: String, _image_type: ImageType) -> Result<FileBox, PuppetError> {
        Err(PuppetError::Unsupported("message_image".to_string()))
    }

    fn message_mini_program(&mut self, _message_id: String) -> Result<MiniProgramPayload, PuppetError> {
        Err(PuppetError::Unsupported("message_mini_program".to_string()))
    }

    fn message_url(&mut self, _message_id: String) -> Result<UrlLinkPayload, PuppetError> {
        Err(PuppetError::Unsupported("message_url".to_string()))
    }

    fn message_send_contact(&mut self, _conversation_id: String, _contact_id: String) -> Result<Option<String>, PuppetError> {
        Err(PuppetError::Unsupported("message_send_contact".to_string()))
    }

    fn message_send_file(&mut self, _conversation_id: String, _file: FileBox) -> Result<Option<String>, PuppetError> {
        Err(PuppetError::Unsupported("message_send_file".to_string()))
    }

    fn message_send_mini_program(&mut self, _conversation_id: String, _mini_program_payload: MiniProgramPayload) -> Result<Option<String>, PuppetError> {
        Err(PuppetError::Unsupported("message_send_mini_program".to_string()))
    }

    fn message_send_url(&mut self, _conversation_id: String, _url_link_payload: UrlLinkPayload) -> Result<Option<String>, PuppetError> {
        Err(PuppetError::Unsupported("message_send_url".to_string()))
    }

    fn friendship_accept(&mut self, _friendship_id: String) -> Result<(), PuppetError> {
        Err(PuppetError::Unsupported("friendship_accept".to_string()))
    }

    fn friendship_add(&mut self, _contact_id: String, _hello: Option<String>) -> Result<(), PuppetError> {
        Err(PuppetError::Unsupported("friendship_add".to_string()))
    }

    fn friendship_search_phone(&mut self, _phone: String) -> Result<Option<String>, PuppetError> {
        Err(PuppetError::Unsupported("friendship_search_phone".to_string()))
    }

    fn friendship_search_weixin(&mut self, _weixin: String) -> Result<Option<String>, PuppetError> {
        Err(PuppetError::Unsupported("friendship_search_weixin".to_string()))
    }

    fn friendship_raw_payload(&mut self, _friendship_id: String) -> Result<FriendshipPayload, PuppetError> {
        Err(PuppetError::Unsupported("friendship_raw_payload".to_string()))
    }

    fn room_invitation_accept(&mut self, _room_invitation_id: String) -> Result<(), PuppetError> {
        Err(PuppetError::Unsupported("room_invitation_accept".to_string()))
    }

    fn room_invitation_raw_payload(&mut self, _room_invitation_id: String) -> Result<RoomInvitationPayload, PuppetError> {
        Err(PuppetError::Unsupported("room_invitation_raw_payload".to_string()))
    }

    fn room_add(&mut self, _room_id: String, _contact_id: String) -> Result<(), PuppetError> {
        Err(PuppetError::Unsupported("room_add".to_string()))
    }

    fn room_avatar(&mut self, _room_id: String) -> Result<FileBox, PuppetError> {
        Err(PuppetError::Unsupported("room_avatar".to_string()))
    }

    fn room_create(&mut self, _contact_id_list: Vec<String>, _topic: Option<String>) -> Result<String, PuppetError> {
        Err(PuppetError::Unsupported("room_create".to_string()))
    }

    fn room_del(&mut self, _room_id: String, _contact_id: String) -> Result<(), PuppetError> {
        Err(PuppetError::Unsupported("room_del".to_string()))
    }

    fn room_qr_code(&mut self, _room_id: String) -> Result<String, PuppetError> {
        Err(PuppetError::Unsupported("room_qr_code".to_string()))
    }

    fn room_quit(&mut self, _room_id: String) -> Result<(), PuppetError> {
        Err(PuppetError::Unsupported("room_quit".to_string()))
    }

    fn room_topic(&mut self, _room_id: String) -> Result<String, PuppetError> {
        Err(PuppetError::Unsupported("room_topic".to_string()))
    }

    fn room_topic_set(&mut self, _room_id: String, _topic: String) -> Result<(), PuppetError> {
        Err(PuppetError::Unsupported("room_topic_set".to_string()))
    }

    fn room_announce(&mut self, _room_id: String) -> Result<String, PuppetError> {
        Err(PuppetError::Unsupported("room_announce".to_string()))
    }

    fn room_announce_set(&mut self, _room_id: String, _text: String) -> Result<(), PuppetError> {
        Err(PuppetError::Unsupported("room_announce_set".to_string()))
    }

}

#[test]
fn contact_get_caches_single_fetch() {
    let (mut backend, stats) = TestBackend::new();
    backend.contacts.push(mk_contact("C1", "Bob", "bobby"));
    let mut puppet = Puppet::new(backend);
    let first = puppet.contact_payload("C1".to_string()).unwrap();
    assert_eq!(first, mk_contact("C1", "Bob", "bobby"));
    let second = puppet.contact_payload("C1".to_string()).unwrap();
    assert_eq!(second, first);
    assert_eq!(stats.borrow().contact_fetches, 1);
}

#[test]
fn invalidate_then_get_fetches_exactly_once_more() {
    let (mut backend, stats) = TestBackend::new();
    backend.contacts.push(mk_contact("C1", "Bob", "bobby"));
    let mut puppet = Puppet::new(backend);
    // warm cache
    let _ = puppet.contact_payload("C1".to_string()).unwrap();
    assert_eq!(stats.borrow().contact_fetches, 1);
    puppet.dirty_payload(PayloadType::Contact, "C1".to_string()).unwrap();
    let _ = puppet.contact_payload("C1".to_string()).unwrap();
    assert_eq!(stats.borrow().contact_fetches, 2);
    // invalidating a cold entry still means exactly one fetch on the next read
    puppet.dirty_payload(PayloadType::Contact, "C2".to_string()).unwrap();
    backend_missing_is_propagated(&mut puppet);
    assert_eq!(stats.borrow().contact_fetches, 3);
}

fn backend_missing_is_propagated(puppet: &mut Puppet<TestBackend>) {
    assert_eq!(
        puppet.contact_payload("C2".to_string()),
        Err(PuppetError::Network)
    );
}

#[test]
fn failed_fetch_is_not_cached() {
    let (backend, stats) = TestBackend::new();
    let mut puppet = Puppet::new(backend);
    assert_eq!(puppet.contact_payload("C9".to_string()), Err(PuppetError::Network));
    assert_eq!(puppet.contact_payload("C9".to_string()), Err(PuppetError::Network));
    // no negative caching: each miss goes to the backend again
    assert_eq!(stats.borrow().contact_fetches, 2);
}

#[test]
fn room_member_key_is_ordered_and_stable() {
    let key = cache_key_room_member(&"R1".to_string(), &"C1".to_string());
    assert_eq!(key, "C1@@@R1");
    assert_eq!(key, cache_key_room_member(&"R1".to_string(), &"C1".to_string()));
    let swapped = cache_key_room_member(&"C1".to_string(), &"R1".to_string());
    assert_eq!(swapped, "R1@@@C1");
    assert_ne!(key, swapped);
}

#[test]
fn room_member_cache_hits_by_composite_key() {
    let (mut backend, stats) = TestBackend::new();
    let member = RoomMemberPayload {
        id: "C1".to_string(),
        room_alias: "boss".to_string(),
        inviter_id: "C2".to_string(),
        avatar: String::new(),
        name: "Bob".to_string(),
    };
    backend.members.push(("R1".to_string(), "C1".to_string(), member.clone()));
    let mut puppet = Puppet::new(backend);
    assert_eq!(
        puppet.room_member_payload("R1".to_string(), "C1".to_string()),
        Ok(member.clone())
    );
    let _ = puppet.room_member_payload("R1".to_string(), "C1".to_string()).unwrap();
    assert_eq!(stats.borrow().member_fetches, 1);
    // the swapped pair is a different key, so it misses (and the backend has
    // no such member)
    assert!(puppet.room_member_payload("C1".to_string(), "R1".to_string()).is_err());
    assert_eq!(stats.borrow().member_fetches, 2);
}

#[test]
fn dirty_room_members_is_transitive() {
    let (mut backend, stats) = TestBackend::new();
    let m1 = RoomMemberPayload {
        id: "C1".to_string(),
        room_alias: String::new(),
        inviter_id: String::new(),
        avatar: String::new(),
        name: "Bob".to_string(),
    };
    let m2 = RoomMemberPayload { id: "C2".to_string(), ..m1.clone() };
    backend.members.push(("R1".to_string(), "C1".to_string(), m1));
    backend.members.push(("R1".to_string(), "C2".to_string(), m2));
    let mut puppet = Puppet::new(backend);
    let _ = puppet.room_member_payload("R1".to_string(), "C1".to_string()).unwrap();
    let _ = puppet.room_member_payload("R1".to_string(), "C2".to_string()).unwrap();
    assert_eq!(stats.borrow().member_fetches, 2);
    // no new fetches while cached
    let _ = puppet.room_member_payload("R1".to_string(), "C1".to_string()).unwrap();
    assert_eq!(stats.borrow().member_fetches, 2);
    // dirtying the room enumerates its members and evicts each composite entry
    puppet.dirty_payload(PayloadType::RoomMember, "R1".to_string()).unwrap();
    let _ = puppet.room_member_payload("R1".to_string(), "C1".to_string()).unwrap();
    let _ = puppet.room_member_payload("R1".to_string(), "C2".to_string()).unwrap();
    assert_eq!(stats.borrow().member_fetches, 4);
}

#[test]
fn unknown_payload_type_cannot_be_dirtied() {
    let (backend, _stats) = TestBackend::new();
    let mut puppet = Puppet::new(backend);
    assert_eq!(
        puppet.dirty_payload(PayloadType::Unknown, "X".to_string()),
        Err(PuppetError::UnknownPayloadType)
    );
}

#[test]
fn contact_search_applies_and_semantics() {
    let (mut backend, _stats) = TestBackend::new();
    backend.contacts.push(mk_contact("C1", "Bob", "Bobby"));
    backend.contacts.push(mk_contact("C2", "Bob", "Carl"));
    backend.contacts.push(mk_contact("C3", "Alice", "Bea"));
    let mut puppet = Puppet::new(backend);
    let filter = ContactQueryFilter {
        alias: None,
        alias_regex: Some("^B.*".to_string()),
        id: None,
        name: Some("Bob".to_string()),
        name_regex: None,
        weixin: None,
    };
    assert_eq!(puppet.contact_search(filter, None), Ok(vec!["C1".to_string()]));
}

#[test]
fn empty_filter_keeps_whole_universe_minus_failures() {
    let (mut backend, _stats) = TestBackend::new();
    backend.contacts.push(mk_contact("C1", "Bob", ""));
    backend.contacts.push(mk_contact("C2", "Alice", ""));
    let mut puppet = Puppet::new(backend);
    let universe = vec!["C1".to_string(), "C404".to_string(), "C2".to_string()];
    let found = puppet
        .contact_search(ContactQueryFilter::default(), Some(universe))
        .unwrap();
    // the unloadable id is skipped, not fatal
    assert_eq!(found, vec!["C1".to_string(), "C2".to_string()]);
}

#[test]
fn invalid_regex_matches_nothing() {
    let (mut backend, _stats) = TestBackend::new();
    backend.contacts.push(mk_contact("C1", "Bob", "Bobby"));
    let mut puppet = Puppet::new(backend);
    let filter = ContactQueryFilter {
        alias: None,
        alias_regex: Some("(".to_string()),
        id: None,
        name: None,
        name_regex: None,
        weixin: None,
    };
    assert_eq!(puppet.contact_search(filter, None), Ok(Vec::new()));
}

#[test]
fn search_by_string_unions_id_and_alias_matches() {
    let (mut backend, _stats) = TestBackend::new();
    backend.contacts.push(mk_contact("C1", "Bob", "x"));
    backend.contacts.push(mk_contact("C2", "Alice", "C1"));
    backend.contacts.push(mk_contact("C3", "Carol", "C3"));
    let mut puppet = Puppet::new(backend);
    let mut both = puppet
        .contact_search_by_string("C1".to_string(), None)
        .unwrap();
    both.sort();
    assert_eq!(both, vec!["C1".to_string(), "C2".to_string()]);
    // a contact matched by both its id and its alias appears once
    assert_eq!(
        puppet.contact_search_by_string("C3".to_string(), None).unwrap(),
        vec!["C3".to_string()]
    );
}

#[test]
fn message_search_scans_cached_messages_only() {
    let (mut backend, _stats) = TestBackend::new();
    backend.messages.push(mk_text("M1", "C1", "C2", "ding"));
    backend.messages.push(mk_text("M2", "C2", "C1", "dong"));
    backend.messages.push(mk_text("M3", "C1", "C2", "direct hit"));
    let mut puppet = Puppet::new(backend);
    // only hydrated messages are visible to a search
    let _ = puppet.message_payload("M1".to_string()).unwrap();
    let _ = puppet.message_payload("M2".to_string()).unwrap();
    let filter = MessageQueryFilter {
        from_id: None,
        id: None,
        room_id: None,
        text: None,
        text_regex: Some("^di".to_string()),
        to_id: None,
        message_type: None,
    };
    assert_eq!(puppet.message_search(filter), Ok(vec!["M1".to_string()]));
}

#[test]
fn message_list_is_bounded_by_cache_contents() {
    let (mut backend, _stats) = TestBackend::new();
    backend.messages.push(mk_text("M1", "C1", "C2", "a"));
    backend.messages.push(mk_text("M2", "C2", "C1", "b"));
    let mut puppet = Puppet::new(backend);
    assert!(puppet.message_list().is_empty());
    let _ = puppet.message_payload("M1".to_string()).unwrap();
    let _ = puppet.message_payload("M2".to_string()).unwrap();
    assert_eq!(puppet.message_list(), vec!["M2".to_string(), "M1".to_string()]);
}

#[test]
fn room_search_matches_topics() {
    let (mut backend, _stats) = TestBackend::new();
    backend.rooms.push(mk_room("R1", "verification club", &["C1"]));
    backend.rooms.push(mk_room("R2", "cooking", &["C1"]));
    let mut puppet = Puppet::new(backend);
    let filter = RoomQueryFilter {
        id: None,
        topic: None,
        topic_regex: Some("club$".to_string()),
    };
    assert_eq!(puppet.room_search(filter), Ok(vec!["R1".to_string()]));
}

#[test]
fn forward_refuses_unsupported_and_unknown_types() {
    let (mut backend, _stats) = TestBackend::new();
    backend.messages.push(mk_typed("M5", "C1", "C2", MessageType::Location));
    backend.messages.push(mk_typed("M6", "C1", "C2", MessageType::Unknown));
    let mut puppet = Puppet::new(backend);
    assert_eq!(
        puppet.message_forward("conv".to_string(), "M5".to_string()),
        Err(PuppetError::Unsupported("sending Location messages".to_string()))
    );
    assert_eq!(
        puppet.message_forward("conv".to_string(), "M6".to_string()),
        Err(PuppetError::UnknownMessageType)
    );
}

#[test]
fn forward_sends_text_messages_onwards() {
    let (mut backend, stats) = TestBackend::new();
    backend.messages.push(mk_text("M1", "C1", "C2", "ding"));
    let mut puppet = Puppet::new(backend);
    assert_eq!(
        puppet.message_forward("conv".to_string(), "M1".to_string()),
        Ok(Some("out-1".to_string()))
    );
    assert_eq!(
        stats.borrow().texts_sent,
        vec![("conv".to_string(), "ding".to_string())]
    );
}

#[test]
fn friendship_set_overwrites_without_backend() {
    let (backend, stats) = TestBackend::new();
    let mut puppet = Puppet::new(backend);
    let payload = FriendshipPayload::Confirm {
        id: "F1".to_string(),
        contact_id: "C1".to_string(),
        hello: "hi".to_string(),
        timestamp: 7,
        friendship_type: FriendshipType::Confirm,
    };
    puppet
        .friendship_payload_set("F1".to_string(), payload.clone())
        .unwrap();
    assert_eq!(puppet.friendship_payload("F1".to_string()), Ok(payload));
    assert_eq!(stats.borrow().contact_fetches, 0);
}

#[test]
fn finds_require_login() {
    let (mut backend, _stats) = TestBackend::new();
    backend.contacts.push(mk_contact("C1", "Bob", ""));
    let puppet = Puppet::new(backend);
    let mut ctx = WechatyContext::new(puppet);
    assert!(matches!(
        ctx.contact_load("C1".to_string()),
        Err(WechatyError::NotLoggedIn)
    ));
    assert!(matches!(
        ctx.contact_find_all(None),
        Err(WechatyError::NotLoggedIn)
    ));
    assert!(matches!(
        ctx.message_find_all(MessageQueryFilter::default()),
        Err(WechatyError::NotLoggedIn)
    ));
}

#[test]
fn context_load_prefers_snapshot_store() {
    let (mut backend, stats) = TestBackend::new();
    backend.contacts.push(mk_contact("C1", "Bob", "bobby"));
    let puppet = Puppet::new(backend);
    let mut ctx = WechatyContext::new(puppet);
    ctx.set_id("ME".to_string());
    let first = ctx.contact_load("C1".to_string()).unwrap();
    assert_eq!(first.payload().unwrap().name, "Bob");
    assert_eq!(stats.borrow().contact_fetches, 1);
    let second = ctx.contact_load("C1".to_string()).unwrap();
    assert_eq!(second.payload(), first.payload());
    // the snapshot store answered: no further backend round trip
    assert_eq!(stats.borrow().contact_fetches, 1);
}

#[test]
fn contact_identity_prefers_alias_then_name_then_id() {
    let (mut backend, _stats) = TestBackend::new();
    backend.contacts.push(mk_contact("C1", "Bob", "bobby"));
    backend.contacts.push(mk_contact("C2", "Alice", ""));
    backend.contacts.push(mk_contact("C3", "", ""));
    let puppet = Puppet::new(backend);
    let mut ctx = WechatyContext::new(puppet);
    ctx.set_id("ME".to_string());
    assert_eq!(ctx.contact_load("C1".to_string()).unwrap().identity(), "bobby");
    assert_eq!(ctx.contact_load("C2".to_string()).unwrap().identity(), "Alice");
    assert_eq!(ctx.contact_load("C3".to_string()).unwrap().identity(), "C3");
}

#[test]
fn room_load_hydrates_room_and_members() {
    let (mut backend, _stats) = TestBackend::new();
    backend.contacts.push(mk_contact("C1", "Bob", ""));
    backend.rooms.push(mk_room("R1", "verification club", &["C1"]));
    let puppet = Puppet::new(backend);
    let mut ctx = WechatyContext::new(puppet);
    ctx.set_id("ME".to_string());
    let room = ctx.room_load("R1".to_string()).unwrap();
    assert_eq!(room.payload().unwrap().topic, "verification club");
    // the member came along into the contact snapshot store
    assert!(ctx.contacts().get(&"C1".to_string()).is_some());
}

#[test]
fn member_find_all_loads_current_members() {
    let (mut backend, _stats) = TestBackend::new();
    backend.contacts.push(mk_contact("C1", "Bob", ""));
    backend.contacts.push(mk_contact("C2", "Alice", ""));
    let m = RoomMemberPayload {
        id: "C1".to_string(),
        room_alias: String::new(),
        inviter_id: String::new(),
        avatar: String::new(),
        name: String::new(),
    };
    backend.members.push(("R1".to_string(), "C1".to_string(), m.clone()));
    backend.members.push(("R1".to_string(), "C2".to_string(), m));
    backend.rooms.push(mk_room("R1", "t", &["C1", "C2"]));
    let puppet = Puppet::new(backend);
    let mut ctx = WechatyContext::new(puppet);
    ctx.set_id("ME".to_string());
    let room = ctx.room_load("R1".to_string()).unwrap();
    let members = room.member_find_all(&mut ctx).unwrap();
    let ids: Vec<String> = members.iter().map(|c| c.id()).collect();
    assert_eq!(ids, vec!["C1".to_string(), "C2".to_string()]);
}

#[test]
fn handler_budget_limits_invocations() {
    let (backend, _stats) = TestBackend::new();
    let puppet = Puppet::new(backend);
    let mut ctx = WechatyContext::new(puppet);
    let mut listener = EventListenerInner::new("L".to_string());
    let handle_index = listener.on_dong_with_handle(ctx.puppet(), Some(2));
    assert_eq!(handle_index, 0);
    let mut fired = Vec::new();
    for _ in 0..3 {
        match listener.handle(
            &mut ctx,
            PuppetEvent::Dong(EventDongPayload { data: "ding".to_string() }),
        ) {
            Some(Delivery::Dong { handlers, .. }) => fired.push(handlers),
            other => panic!("unexpected delivery: {:?}", other.is_some()),
        }
    }
    // two invocations, then the exhausted handler is skipped without error
    assert_eq!(fired, vec![vec![0], vec![0], vec![]]);
}

#[test]
fn login_then_logout_updates_identity_and_fires_handlers() {
    let (mut backend, _stats) = TestBackend::new();
    backend.contacts.push(mk_contact("U1", "You", ""));
    let puppet = Puppet::new(backend);
    let mut bot = Wechaty::new(puppet);
    bot.listener.on_login(bot.ctx.puppet());
    bot.listener.on_logout(bot.ctx.puppet());
    let login = bot.handle_event(PuppetEvent::Login(EventLoginPayload {
        contact_id: "U1".to_string(),
    }));
    assert_eq!(bot.ctx.id(), Some("U1".to_string()));
    match login {
        Some(Delivery::Login { payload, handlers }) => {
            assert_eq!(handlers, vec![0]);
            let contact = payload.contact.contact;
            assert_eq!(contact.id(), "U1");
            assert_eq!(contact.payload().unwrap().name, "You");
        }
        other => panic!("unexpected delivery: {:?}", other.is_some()),
    }
    let logout = bot.handle_event(PuppetEvent::Logout(EventLogoutPayload {
        contact_id: "U1".to_string(),
        data: "bye".to_string(),
    }));
    assert_eq!(bot.ctx.id(), None);
    match logout {
        Some(Delivery::Logout { payload, handlers }) => {
            assert_eq!(handlers, vec![0]);
            // the stale snapshot from the login hydration is still attached
            assert_eq!(payload.contact.contact.payload().unwrap().name, "You");
        }
        other => panic!("unexpected delivery: {:?}", other.is_some()),
    }
}

#[test]
fn message_event_hydrates_before_delivery() {
    let (mut backend, _stats) = TestBackend::new();
    backend.contacts.push(mk_contact("C1", "Bob", ""));
    backend.contacts.push(mk_contact("ME", "You", ""));
    backend.messages.push(mk_text("M1", "C1", "ME", "ding"));
    let puppet = Puppet::new(backend);
    let mut bot = Wechaty::new(puppet);
    bot.listener.on_message(bot.ctx.puppet());
    bot.ctx.set_id("ME".to_string());
    let delivery = bot.handle_event(PuppetEvent::Message(EventMessagePayload {
        message_id: "M1".to_string(),
    }));
    match delivery {
        Some(Delivery::Message { payload, handlers }) => {
            assert_eq!(handlers, vec![0]);
            assert_eq!(payload.message.id(), "M1");
            assert_eq!(payload.message.text(), Some("ding".to_string()));
        }
        other => panic!("unexpected delivery: {:?}", other.is_some()),
    }
}

#[test]
fn ding_earns_dong_and_nothing_else_does() {
    let (backend, _stats) = TestBackend::new();
    let puppet = Puppet::new(backend);
    let mut ctx = WechatyContext::new(puppet);
    ctx.set_id("ME".to_string());
    let incoming = Message::new("M1".to_string(), &ctx, Some(mk_text("M1", "C1", "ME", "ding")));
    assert_eq!(dong_reply(&incoming, &ctx), Some("dong".to_string()));
    // outgoing messages are discarded
    let outgoing = Message::new("M2".to_string(), &ctx, Some(mk_text("M2", "ME", "C1", "ding")));
    assert_eq!(dong_reply(&outgoing, &ctx), None);
    // non-text messages are discarded
    let image = Message::new(
        "M3".to_string(),
        &ctx,
        Some(mk_typed("M3", "C1", "ME", MessageType::Image)),
    );
    assert_eq!(dong_reply(&image, &ctx), None);
    // other texts are discarded
    let other = Message::new("M4".to_string(), &ctx, Some(mk_text("M4", "C1", "ME", "Ding")));
    assert_eq!(dong_reply(&other, &ctx), None);
    // a handle without a payload is discarded
    let bare = Message::new("M5".to_string(), &ctx, None);
    assert_eq!(dong_reply(&bare, &ctx), None);
}

#[test]
fn conversation_id_prefers_room_then_sender() {
    let (backend, _stats) = TestBackend::new();
    let puppet = Puppet::new(backend);
    let ctx = WechatyContext::new(puppet);
    let room_msg = MessagePayload::Room {
        id: "M1".to_string(),
        filename: None,
        text: None,
        timestamp: 1,
        message_type: MessageType::Text,
        from_id: Some("C1".to_string()),
        mention_ids: Vec::new(),
        room_id: "R1".to_string(),
        to_id: None,
    };
    let m = Message::new("M1".to_string(), &ctx, Some(room_msg));
    assert_eq!(m.conversation_id(), Some("R1".to_string()));
    let direct = Message::new(
        "M2".to_string(),
        &ctx,
        Some(mk_text("M2", "C1", "C2", "hello")),
    );
    assert_eq!(direct.conversation_id(), Some("C1".to_string()));
    let bare = Message::new("M3".to_string(), &ctx, None);
    assert_eq!(bare.conversation_id(), None);
}

#[test]
fn brief_renders_known_entities() {
    let (mut backend, _stats) = TestBackend::new();
    backend.contacts.push(mk_contact("C1", "Bob", "bobby"));
    backend.contacts.push(mk_contact("C2", "Alice", ""));
    let puppet = Puppet::new(backend);
    let mut ctx = WechatyContext::new(puppet);
    ctx.set_id("ME".to_string());
    // hydrate the sender so the description shows the alias
    let _ = ctx.contact_load("C1".to_string()).unwrap();
    let _ = ctx.contact_load("C2".to_string()).unwrap();
    let m = Message::new("M1".to_string(), &ctx, Some(mk_text("M1", "C1", "C2", "ding")));
    assert_eq!(m.brief(&ctx), "From: bobby To: Alice Type: Text Text: ding ");
    // an unhydrated sender renders as loading
    let m2 = Message::new("M2".to_string(), &ctx, Some(mk_text("M2", "C9", "C1", "hi")));
    assert_eq!(m2.brief(&ctx), "From: loading... To: bobby Type: Text Text: hi ");
    let bare = Message::new("M3".to_string(), &ctx, None);
    assert_eq!(bare.brief(&ctx), "");
}

#[test]
fn room_summary_prefers_topic_then_id() {
    let (mut backend, _stats) = TestBackend::new();
    backend.rooms.push(mk_room("R1", "verification club", &["C1"]));
    backend.rooms.push(mk_room("R2", "", &["C1"]));
    let puppet = Puppet::new(backend);
    let mut ctx = WechatyContext::new(puppet);
    ctx.set_id("ME".to_string());
    let named = ctx.room_load("R1".to_string()).unwrap();
    assert_eq!(named.summary(), "verification club");
    let unnamed = ctx.room_load("R2".to_string()).unwrap();
    assert_eq!(unnamed.summary(), "R2");
}

#[test]
fn forward_media_fetch_failure_sends_nothing() {
    let (mut backend, stats) = TestBackend::new();
    backend.messages.push(mk_typed("M7", "C1", "C2", MessageType::Attachment));
    let mut puppet = Puppet::new(backend);
    assert_eq!(
        puppet.message_forward("conv".to_string(), "M7".to_string()),
        Err(PuppetError::Unsupported("message_file".to_string()))
    );
    assert!(stats.borrow().texts_sent.is_empty());
}

#[test]
fn search_propagates_failed_universe_fetch() {
    let mut puppet = Puppet::new(PuppetMock {});
    assert_eq!(
        puppet.contact_search(ContactQueryFilter::default(), None),
        Err(PuppetError::Unsupported("contact_list".to_string()))
    );
    // the room universe fetch propagates its failure the same way
    let mut puppet2 = Puppet::new(PuppetMock {});
    assert_eq!(
        puppet2.room_search(RoomQueryFilter { id: None, topic: None, topic_regex: None }),
        Err(PuppetError::Unsupported("room_list".to_string()))
    );
}
