//! Room-invitation entity snapshots.
use vstd::prelude::*;

verus! {

/// Immutable snapshot of a room invitation, keyed by invitation id.
#[derive(Debug, Clone, PartialEq)]
pub struct RoomInvitationPayload {
    pub id: String,
    pub inviter_id: String,
    pub topic: String,
    pub avatar: String,
    pub invitation: String,
    pub member_count: u32,
    pub member_id_list: Vec<String>,
    pub timestamp: u64,
    pub receiver_id: String,
}

impl RoomInvitationPayload {
    /// Assembles a snapshot from the plain fields of a raw transport
    /// response.
    pub fn from_parts(
        id: String,
        inviter_id: String,
        topic: String,
        avatar: String,
        invitation: String,
        member_count: u32,
        member_ids: Vec<String>,
        timestamp: u64,
        receiver_id: String,
    ) -> (r: RoomInvitationPayload)
        ensures
            r.id == id,
            r.inviter_id == inviter_id,
            r.topic == topic,
            r.avatar == avatar,
            r.invitation == invitation,
            r.member_count == member_count,
            r.member_id_list == member_ids,
            r.timestamp == timestamp,
            r.receiver_id == receiver_id,
    {
        RoomInvitationPayload {
            id,
            inviter_id,
            topic,
            avatar,
            invitation,
            member_count,
            member_id_list: member_ids,
            timestamp,
            receiver_id,
        }
    }
}

} // verus!
