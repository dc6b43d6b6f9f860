//! Room and room-member entity snapshots and their query filters.
use vstd::prelude::*;

verus! {

#[derive(Debug, Clone, PartialEq)]
pub struct RoomMemberQueryFilter {
    pub name: Option<String>,
    pub room_alias: Option<String>,
    pub contact_alias: Option<String>,
}

/// Declarative room query: every populated field must match, `topic_regex`
/// by pattern match; absent fields impose no constraint.
#[derive(Debug, Clone, PartialEq)]
pub struct RoomQueryFilter {
    pub id: Option<String>,
    pub topic: Option<String>,
    pub topic_regex: Option<String>,
}

impl RoomQueryFilter {
    /// The filter with no constraints at all: it matches every payload.
    pub open spec fn spec_empty() -> RoomQueryFilter {
        RoomQueryFilter { id: None, topic: None, topic_regex: None }
    }
}

impl Default for RoomQueryFilter {
    fn default() -> (r: Self)
        ensures
            r == RoomQueryFilter::spec_empty(),
    {
        RoomQueryFilter { id: None, topic: None, topic_regex: None }
    }
}

/// Immutable snapshot of a room's server-side state, keyed by room id.
#[derive(Debug, Clone, PartialEq)]
pub struct RoomPayload {
    pub id: String,
    pub topic: String,
    pub avatar: String,
    pub member_id_list: Vec<String>,
    pub owner_id: String,
    pub admin_id_list: Vec<String>,
}

impl RoomPayload {
    /// Assembles a snapshot from the plain fields of a raw transport
    /// response.
    pub fn from_parts(
        id: String,
        topic: String,
        avatar: String,
        member_ids: Vec<String>,
        owner_id: String,
        admin_ids: Vec<String>,
    ) -> (r: RoomPayload)
        ensures
            r.id == id,
            r.topic == topic,
            r.avatar == avatar,
            r.member_id_list == member_ids,
            r.owner_id == owner_id,
            r.admin_id_list == admin_ids,
    {
        RoomPayload {
            id,
            topic,
            avatar,
            member_id_list: member_ids,
            owner_id,
            admin_id_list: admin_ids,
        }
    }
}

/// Immutable snapshot of a contact's standing within one room, keyed by the
/// composite room-member key.
#[derive(Debug, Clone, PartialEq)]
pub struct RoomMemberPayload {
    pub id: String,
    pub room_alias: String,
    pub inviter_id: String,
    pub avatar: String,
    pub name: String,
}

impl RoomMemberPayload {
    /// Assembles a snapshot from the plain fields of a raw transport
    /// response.
    pub fn from_parts(
        id: String,
        room_alias: String,
        inviter_id: String,
        avatar: String,
        name: String,
    ) -> (r: RoomMemberPayload)
        ensures
            r.id == id,
            r.room_alias == room_alias,
            r.inviter_id == inviter_id,
            r.avatar == avatar,
            r.name == name,
    {
        RoomMemberPayload { id, room_alias, inviter_id, avatar, name }
    }
}

} // verus!
