//! The entity-kind tag used by cache invalidation, and the sum of all entity
//! payload shapes a cache slot can hold.
use vstd::prelude::*;
use crate::schemas::contact::ContactPayload;
use crate::schemas::friendship::FriendshipPayload;
use crate::schemas::message::MessagePayload;
use crate::schemas::room::{RoomMemberPayload, RoomPayload};
use crate::schemas::room_invitation::RoomInvitationPayload;

verus! {

/// The entity kinds that can be dirtied explicitly.
#[derive(Debug, Copy, Clone, PartialEq, Eq, Structural)]
pub enum PayloadType {
    Unknown,
    Message,
    Contact,
    Room,
    RoomMember,
    Friendship,
}

/// One cached entity snapshot, tagged by its kind. Each per-kind cache only
/// ever holds the matching variant.
#[derive(Debug, Clone, PartialEq)]
pub enum Payload {
    Contact(ContactPayload),
    Message(MessagePayload),
    Room(RoomPayload),
    RoomMember(RoomMemberPayload),
    Friendship(FriendshipPayload),
    RoomInvitation(RoomInvitationPayload),
}

impl Payload {
    pub open spec fn is_contact(self) -> bool {
        self is Contact
    }

    pub open spec fn as_contact(self) -> ContactPayload {
        self->Contact_0
    }

    pub open spec fn is_message(self) -> bool {
        self is Message
    }

    pub open spec fn as_message(self) -> MessagePayload {
        self->Message_0
    }

    pub open spec fn is_room(self) -> bool {
        self is Room
    }

    pub open spec fn as_room(self) -> RoomPayload {
        self->Room_0
    }

    pub open spec fn is_room_member(self) -> bool {
        self is RoomMember
    }

    pub open spec fn as_room_member(self) -> RoomMemberPayload {
        self->RoomMember_0
    }

    pub open spec fn is_friendship(self) -> bool {
        self is Friendship
    }

    pub open spec fn as_friendship(self) -> FriendshipPayload {
        self->Friendship_0
    }

    pub open spec fn is_room_invitation(self) -> bool {
        self is RoomInvitation
    }

    pub open spec fn as_room_invitation(self) -> RoomInvitationPayload {
        self->RoomInvitation_0
    }
}

} // verus!
