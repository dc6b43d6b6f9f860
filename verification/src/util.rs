//! Small helpers: string-slice equality, and exact clones of the value
//! shapes that the library stores, proved to return equal values.
use vstd::prelude::*;
use crate::schemas::contact::ContactPayload;
use crate::schemas::message::MessagePayload;
use crate::schemas::friendship::FriendshipPayload;
use crate::schemas::room::{RoomMemberPayload, RoomPayload};
use crate::schemas::room_invitation::RoomInvitationPayload;

verus! {

/// Relies on `str`'s `PartialEq`: two string slices compare equal exactly
/// when they hold the same characters.
#[verifier::external_body]
pub fn str_eq(a: &str, b: &str) -> (r: bool)
    ensures
        r == (a@ == b@),
{
    a == b
}

/// Relies on `Vec::clone` and `String::clone`: the copy of a string vector
/// holds the same strings, so it is equal to the original.
#[verifier::external_body]
pub fn clone_string_vec(v: &Vec<String>) -> (r: Vec<String>)
    ensures
        r == *v,
{
    v.clone()
}

/// A clone of an optional string holds the same value.
pub fn clone_opt_string(v: &Option<String>) -> (r: Option<String>)
    ensures
        r == *v,
{
    match v {
        Some(s) => Some(s.clone()),
        None => None,
    }
}

/// A clone of a contact snapshot is equal to it.
pub fn clone_contact_payload(p: &ContactPayload) -> (r: ContactPayload)
    ensures
        r == *p,
{
    ContactPayload {
        id: p.id.clone(),
        gender: p.gender,
        contact_type: p.contact_type,
        name: p.name.clone(),
        avatar: p.avatar.clone(),
        address: p.address.clone(),
        alias: p.alias.clone(),
        city: p.city.clone(),
        friend: p.friend,
        province: p.province.clone(),
        signature: p.signature.clone(),
        star: p.star,
        weixin: p.weixin.clone(),
        corporation: p.corporation.clone(),
        title: p.title.clone(),
        description: p.description.clone(),
        coworker: p.coworker,
        phone: clone_string_vec(&p.phone),
    }
}

/// A clone of a message snapshot is equal to it.
pub fn clone_message_payload(p: &MessagePayload) -> (r: MessagePayload)
    ensures
        r == *p,
{
    match p {
        MessagePayload::Room {
            id,
            filename,
            text,
            timestamp,
            message_type,
            from_id,
            mention_ids,
            room_id,
            to_id,
        } => MessagePayload::Room {
            id: id.clone(),
            filename: clone_opt_string(filename),
            text: clone_opt_string(text),
            timestamp: *timestamp,
            message_type: *message_type,
            from_id: clone_opt_string(from_id),
            mention_ids: clone_string_vec(mention_ids),
            room_id: room_id.clone(),
            to_id: clone_opt_string(to_id),
        },
        MessagePayload::To {
            id,
            filename,
            text,
            timestamp,
            message_type,
            from_id,
            room_id,
            to_id,
        } => MessagePayload::To {
            id: id.clone(),
            filename: clone_opt_string(filename),
            text: clone_opt_string(text),
            timestamp: *timestamp,
            message_type: *message_type,
            from_id: from_id.clone(),
            room_id: clone_opt_string(room_id),
            to_id: to_id.clone(),
        },
    }
}

/// A clone of a room snapshot is equal to it.
pub fn clone_room_payload(p: &RoomPayload) -> (r: RoomPayload)
    ensures
        r == *p,
{
    RoomPayload {
        id: p.id.clone(),
        topic: p.topic.clone(),
        avatar: p.avatar.clone(),
        member_id_list: clone_string_vec(&p.member_id_list),
        owner_id: p.owner_id.clone(),
        admin_id_list: clone_string_vec(&p.admin_id_list),
    }
}


/// A clone of a room-member snapshot is equal to it.
pub fn clone_room_member_payload(p: &RoomMemberPayload) -> (r: RoomMemberPayload)
    ensures
        r == *p,
{
    RoomMemberPayload {
        id: p.id.clone(),
        room_alias: p.room_alias.clone(),
        inviter_id: p.inviter_id.clone(),
        avatar: p.avatar.clone(),
        name: p.name.clone(),
    }
}

/// A clone of a friendship snapshot is equal to it.
pub fn clone_friendship_payload(p: &FriendshipPayload) -> (r: FriendshipPayload)
    ensures
        r == *p,
{
    match p {
        FriendshipPayload::Unknown => FriendshipPayload::Unknown,
        FriendshipPayload::Confirm { id, contact_id, hello, timestamp, friendship_type } => {
            FriendshipPayload::Confirm {
                id: id.clone(),
                contact_id: contact_id.clone(),
                hello: hello.clone(),
                timestamp: *timestamp,
                friendship_type: *friendship_type,
            }
        },
        FriendshipPayload::Receive {
            id,
            contact_id,
            hello,
            timestamp,
            scene,
            stranger,
            ticket,
            friendship_type,
        } => {
            FriendshipPayload::Receive {
                id: id.clone(),
                contact_id: contact_id.clone(),
                hello: hello.clone(),
                timestamp: *timestamp,
                scene: *scene,
                stranger: stranger.clone(),
                ticket: ticket.clone(),
                friendship_type: *friendship_type,
            }
        },
        FriendshipPayload::Verify { id, contact_id, hello, timestamp, friendship_type } => {
            FriendshipPayload::Verify {
                id: id.clone(),
                contact_id: contact_id.clone(),
                hello: hello.clone(),
                timestamp: *timestamp,
                friendship_type: *friendship_type,
            }
        },
    }
}

/// A clone of a room-invitation snapshot is equal to it.
pub fn clone_room_invitation_payload(p: &RoomInvitationPayload) -> (r: RoomInvitationPayload)
    ensures
        r == *p,
{
    RoomInvitationPayload {
        id: p.id.clone(),
        inviter_id: p.inviter_id.clone(),
        topic: p.topic.clone(),
        avatar: p.avatar.clone(),
        invitation: p.invitation.clone(),
        member_count: p.member_count,
        member_id_list: clone_string_vec(&p.member_id_list),
        timestamp: p.timestamp,
        receiver_id: p.receiver_id.clone(),
    }
}

} // verus!
