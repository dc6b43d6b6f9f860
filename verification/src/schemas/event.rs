//! Raw domain events delivered by the remote data source into the event bus.
use vstd::prelude::*;

verus! {

#[derive(Debug, Copy, Clone, PartialEq, Eq, Structural)]
pub enum ScanStatus {
    Unknown,
    Cancel,
    Waiting,
    Scanned,
    Confirmed,
    Timeout,
}

pub open spec fn spec_scan_status_from_code(code: i32) -> Option<ScanStatus> {
    if code == 0 {
        Some(ScanStatus::Unknown)
    } else if code == 1 {
        Some(ScanStatus::Cancel)
    } else if code == 2 {
        Some(ScanStatus::Waiting)
    } else if code == 3 {
        Some(ScanStatus::Scanned)
    } else if code == 4 {
        Some(ScanStatus::Confirmed)
    } else if code == 5 {
        Some(ScanStatus::Timeout)
    } else {
        None
    }
}

/// Decodes the wire representation of a scan status.
pub fn scan_status_from_code(code: i32) -> (r: Option<ScanStatus>)
    ensures
        r == spec_scan_status_from_code(code),
{
    if code == 0 {
        Some(ScanStatus::Unknown)
    } else if code == 1 {
        Some(ScanStatus::Cancel)
    } else if code == 2 {
        Some(ScanStatus::Waiting)
    } else if code == 3 {
        Some(ScanStatus::Scanned)
    } else if code == 4 {
        Some(ScanStatus::Confirmed)
    } else if code == 5 {
        Some(ScanStatus::Timeout)
    } else {
        None
    }
}

#[derive(Debug, Clone, PartialEq)]
pub struct EventFriendshipPayload {
    pub friendship_id: String,
}

#[derive(Debug, Clone, PartialEq)]
pub struct EventLoginPayload {
    pub contact_id: String,
}

#[derive(Debug, Clone, PartialEq)]
pub struct EventLogoutPayload {
    pub contact_id: String,
    pub data: String,
}

#[derive(Debug, Clone, PartialEq)]
pub struct EventMessagePayload {
    pub message_id: String,
}

#[derive(Debug, Clone, PartialEq)]
pub struct EventRoomInvitePayload {
    pub room_invitation_id: String,
}

#[derive(Debug, Clone, PartialEq)]
pub struct EventRoomJoinPayload {
    pub invitee_id_list: Vec<String>,
    pub inviter_id: String,
    pub room_id: String,
    pub timestamp: u64,
}

#[derive(Debug, Clone, PartialEq)]
pub struct EventRoomLeavePayload {
    pub removee_id_list: Vec<String>,
    pub remover_id: String,
    pub room_id: String,
    pub timestamp: u64,
}

#[derive(Debug, Clone, PartialEq)]
pub struct EventRoomTopicPayload {
    pub changer_id: String,
    pub new_topic: String,
    pub old_topic: String,
    pub room_id: String,
    pub timestamp: u64,
}

#[derive(Debug, Clone, PartialEq)]
pub struct EventScanPayload {
    pub status: ScanStatus,
    pub qrcode: Option<String>,
    pub data: Option<String>,
}

#[derive(Debug, Clone, PartialEq)]
pub struct EventDongPayload {
    pub data: String,
}

#[derive(Debug, Clone, PartialEq)]
pub struct EventErrorPayload {
    pub data: String,
}

#[derive(Debug, Clone, PartialEq)]
pub struct EventReadyPayload {
    pub data: String,
}

#[derive(Debug, Clone, PartialEq)]
pub struct EventResetPayload {
    pub data: String,
}

#[derive(Debug, Clone, PartialEq)]
pub struct EventHeartbeatPayload {
    pub data: String,
}

#[derive(Debug, Clone, PartialEq)]
pub struct EventDirtyPayload {
    pub payload_type: crate::schemas::payload::PayloadType,
    pub payload_id: String,
}

/// The tagged union of every raw domain event the remote data source can
/// emit.
#[derive(Debug, Clone, PartialEq)]
pub enum PuppetEvent {
    Dong(EventDongPayload),
    Error(EventErrorPayload),
    Friendship(EventFriendshipPayload),
    Heartbeat(EventHeartbeatPayload),
    Login(EventLoginPayload),
    Logout(EventLogoutPayload),
    Message(EventMessagePayload),
    Ready(EventReadyPayload),
    Reset(EventResetPayload),
    RoomInvite(EventRoomInvitePayload),
    RoomJoin(EventRoomJoinPayload),
    RoomLeave(EventRoomLeavePayload),
    RoomTopic(EventRoomTopicPayload),
    Scan(EventScanPayload),
    Dirty(EventDirtyPayload),
}

} // verus!
