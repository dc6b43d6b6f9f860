use wechaty::error::{PuppetError, WechatyError};
use wechaty::puppet::FileBox;
use wechaty::schemas::contact::{
    contact_gender_from_code, contact_type_from_code, ContactGender, ContactPayload, ContactType,
};
use wechaty::schemas::event::{scan_status_from_code, ScanStatus};
use wechaty::schemas::friendship::{
    friendship_scene_from_code, FriendshipPayload, FriendshipSceneType, FriendshipType,
};
use wechaty::schemas::image::{image_type_from_code, ImageType};
use wechaty::schemas::message::{
    message_type_from_code, MessagePayload, MessageType, WechatAppMessageType, WechatMessageType,
};
use wechaty::schemas::room::{RoomMemberPayload, RoomPayload};
use wechaty::schemas::room_invitation::RoomInvitationPayload;
use wechaty::service_endpoint::{endpoint_is_valid, Endpoint};

#[test]
fn it_works() {
    assert_eq!(2 + 2, 4);
}

#[test]
fn puppet_error_messages() {
    assert_eq!(PuppetError::Network.message(), "Network failure");
    assert_eq!(
        PuppetError::Unsupported("room_quit".to_string()).message(),
        "Unsupported function: room_quit"
    );
    assert_eq!(PuppetError::UnknownPayloadType.message(), "Unknown payload type");
    assert_eq!(PuppetError::UnknownMessageType.message(), "Unknown message type");
}

#[test]
fn wechaty_error_messages() {
    assert_eq!(
        WechatyError::Puppet(PuppetError::Network).message(),
        "Puppet error: Network failure"
    );
    assert_eq!(WechatyError::NotLoggedIn.message(), "User is not logged in");
    assert!(WechatyError::NoPayload.message().starts_with("Operation cannot be done"));
    assert_eq!(
        WechatyError::from(PuppetError::UnknownMessageType),
        WechatyError::Puppet(PuppetError::UnknownMessageType)
    );
}

#[test]
fn filebox_renders_empty() {
    let f = FileBox::from("avatar.png".to_string());
    assert_eq!(f.to_string(), "");
}

#[test]
fn wire_codes_decode() {
    assert_eq!(contact_gender_from_code(0), Some(ContactGender::Unknown));
    assert_eq!(contact_gender_from_code(2), Some(ContactGender::Female));
    assert_eq!(contact_gender_from_code(7), None);
    assert_eq!(contact_type_from_code(3), Some(ContactType::Corporation));
    assert_eq!(contact_type_from_code(-1), None);
    assert_eq!(message_type_from_code(7), Some(MessageType::Text));
    assert_eq!(message_type_from_code(16), None);
    assert_eq!(friendship_scene_from_code(14), Some(FriendshipSceneType::Room));
    assert_eq!(friendship_scene_from_code(4), None);
    assert_eq!(image_type_from_code(2), Some(ImageType::HD));
    assert_eq!(ImageType::Artwork.code(), 3);
    assert_eq!(scan_status_from_code(3), Some(ScanStatus::Scanned));
    assert_eq!(scan_status_from_code(6), None);
    assert_eq!(WechatAppMessageType::Transfers.code(), 2000);
    assert_eq!(WechatAppMessageType::ReaderType.code(), 100001);
    assert_eq!(WechatMessageType::Recalled.code(), 10002);
    assert_eq!(WechatMessageType::Text.code(), 1);
}

#[test]
fn message_type_labels() {
    assert_eq!(MessageType::RedEnvelope.label(), "RedEnvelope");
    assert_eq!(MessageType::Text.label(), "Text");
    assert_eq!(MessageType::Unknown.label(), "Unknown");
}

#[test]
fn contact_payload_from_parts_keeps_fields() {
    let p = ContactPayload::from_parts(
        "C1".to_string(),
        1,
        1,
        "Bob".to_string(),
        "avatar".to_string(),
        "addr".to_string(),
        "bobby".to_string(),
        "city".to_string(),
        true,
        "prov".to_string(),
        "sig".to_string(),
        false,
        "wx".to_string(),
        "corp".to_string(),
        "title".to_string(),
        "desc".to_string(),
        false,
        vec!["123".to_string()],
    );
    assert_eq!(p.id, "C1");
    assert_eq!(p.gender, ContactGender::Male);
    assert_eq!(p.contact_type, ContactType::Individual);
    assert_eq!(p.name, "Bob");
    assert_eq!(p.alias, "bobby");
    assert_eq!(p.phone, vec!["123".to_string()]);
}

#[test]
fn friendship_from_parts_builds_each_stage() {
    let confirm = FriendshipPayload::from_parts(
        1,
        "F1".to_string(),
        "C1".to_string(),
        "hi".to_string(),
        0,
        String::new(),
        String::new(),
        7,
    );
    assert!(matches!(
        confirm,
        FriendshipPayload::Confirm { friendship_type: FriendshipType::Confirm, .. }
    ));
    let receive = FriendshipPayload::from_parts(
        2,
        "F2".to_string(),
        "C2".to_string(),
        "hello".to_string(),
        30,
        "stranger".to_string(),
        "ticket".to_string(),
        8,
    );
    match receive {
        FriendshipPayload::Receive { id, contact_id, scene, ticket, friendship_type, .. } => {
            assert_eq!(id, "F2");
            assert_eq!(contact_id, "C2");
            assert_eq!(scene, FriendshipSceneType::QRCode);
            assert_eq!(ticket, "ticket");
            assert_eq!(friendship_type, FriendshipType::Receive);
        }
        other => panic!("unexpected friendship variant: {:?}", other),
    }
    let unknown = FriendshipPayload::from_parts(
        9,
        "F3".to_string(),
        "C3".to_string(),
        String::new(),
        0,
        String::new(),
        String::new(),
        9,
    );
    assert_eq!(unknown, FriendshipPayload::Unknown);
}

#[test]
fn room_payloads_from_parts_keep_fields() {
    let room = RoomPayload::from_parts(
        "R1".to_string(),
        "topic".to_string(),
        "avatar".to_string(),
        vec!["C1".to_string(), "C2".to_string()],
        "C1".to_string(),
        vec!["C1".to_string()],
    );
    assert_eq!(room.id, "R1");
    assert_eq!(room.member_id_list.len(), 2);
    let member = RoomMemberPayload::from_parts(
        "C1".to_string(),
        "ra".to_string(),
        "C2".to_string(),
        "av".to_string(),
        "Bob".to_string(),
    );
    assert_eq!(member.room_alias, "ra");
    let invite = RoomInvitationPayload::from_parts(
        "I1".to_string(),
        "C9".to_string(),
        "party".to_string(),
        "av".to_string(),
        "token".to_string(),
        3,
        vec!["C1".to_string()],
        99,
        "C2".to_string(),
    );
    assert_eq!(invite.member_count, 3);
    assert_eq!(invite.receiver_id, "C2");
}

#[test]
fn message_payload_accessors() {
    let room_msg = MessagePayload::Room {
        id: "M1".to_string(),
        filename: None,
        text: Some("hey".to_string()),
        timestamp: 42,
        message_type: MessageType::Text,
        from_id: None,
        mention_ids: vec!["C1".to_string()],
        room_id: "R1".to_string(),
        to_id: None,
    };
    assert_eq!(room_msg.id(), "M1");
    assert_eq!(room_msg.message_type(), MessageType::Text);
    assert_eq!(room_msg.timestamp(), 42);
    assert_eq!(room_msg.text(), Some("hey".to_string()));
    assert_eq!(room_msg.from_id(), None);
    assert_eq!(room_msg.room_id(), Some("R1".to_string()));
    assert_eq!(room_msg.mention_ids(), vec!["C1".to_string()]);

    let direct_msg = MessagePayload::To {
        id: "M2".to_string(),
        filename: None,
        text: None,
        timestamp: 43,
        message_type: MessageType::Image,
        from_id: "C1".to_string(),
        room_id: None,
        to_id: "C2".to_string(),
    };
    assert_eq!(direct_msg.from_id(), Some("C1".to_string()));
    assert_eq!(direct_msg.to_id(), Some("C2".to_string()));
    assert_eq!(direct_msg.room_id(), None);
    assert_eq!(direct_msg.text(), None);
    assert!(direct_msg.mention_ids().is_empty());
}

#[test]
fn endpoint_validity_follows_port() {
    assert!(endpoint_is_valid(&Endpoint { ip: "10.0.0.1".to_string(), port: 8788 }));
    assert!(!endpoint_is_valid(&Endpoint { ip: "10.0.0.1".to_string(), port: 0 }));
}
