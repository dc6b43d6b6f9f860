//! The hydrated payload shapes handed to consumer handlers: entity ids
//! arriving in raw events are resolved into entity handles before handlers
//! run.
use vstd::prelude::*;
use crate::schemas::event::{EventDongPayload, ScanStatus};
use crate::schemas::room_invitation::RoomInvitationPayload;
use crate::user::contact::Contact;
use crate::user::contact_self::ContactSelf;
use crate::user::entity::Entity;
use crate::user::message::Message;
use crate::user::room::Room;

verus! {

/// A dong event is passed through to handlers unchanged.
pub type DongPayload = EventDongPayload;

/// Delivered to login handlers: the freshly authenticated account.
#[derive(Debug, Clone, PartialEq)]
pub struct LoginPayload {
    pub contact: ContactSelf,
}

/// Delivered to logout handlers: the account that logged out, with its
/// last known (possibly stale) payload.
#[derive(Debug, Clone, PartialEq)]
pub struct LogoutPayload {
    pub contact: ContactSelf,
}

/// Delivered to message handlers: the hydrated message.
#[derive(Debug, Clone, PartialEq)]
pub struct MessagePayload {
    pub message: Message,
}

/// Delivered to scan handlers.
#[derive(Debug, Clone, PartialEq)]
pub struct ScanPayload {
    pub qrcode: Option<String>,
    pub status: ScanStatus,
}

impl ScanPayload {
    pub fn new(qrcode: Option<String>, status: ScanStatus) -> (r: Self)
        ensures
            r.qrcode == qrcode,
            r.status == status,
    {
        ScanPayload { qrcode, status }
    }
}

/// Delivered to ready handlers.
#[derive(Debug, Clone, PartialEq)]
pub struct ReadyPayload {}

/// Delivered to room-invite handlers.
#[derive(Debug, Clone, PartialEq)]
pub struct RoomInvitePayload {
    pub room_invitation: Entity<RoomInvitationPayload>,
}

/// Delivered to room-join handlers.
#[derive(Debug, Clone, PartialEq)]
pub struct RoomJoinPayload {
    pub room: Room,
    pub invitee_list: Vec<Contact>,
    pub inviter: Contact,
    pub timestamp: u64,
}

/// Delivered to room-leave handlers.
#[derive(Debug, Clone, PartialEq)]
pub struct RoomLeavePayload {
    pub room: Room,
    pub removee_list: Vec<Contact>,
    pub remover: Contact,
    pub timestamp: u64,
}

/// Delivered to room-topic handlers.
#[derive(Debug, Clone, PartialEq)]
pub struct RoomTopicPayload {
    pub room: Room,
    pub old_topic: String,
    pub new_topic: String,
    pub changer: Contact,
    pub timestamp: u64,
}

} // verus!
