//! Friendship entity snapshots: a tagged variant per friendship lifecycle
//! stage.
use vstd::prelude::*;

verus! {

#[derive(Debug, Copy, Clone, PartialEq, Eq, Structural)]
pub enum FriendshipType {
    Unknown,
    Confirm,
    Receive,
    Verify,
}

#[derive(Debug, Copy, Clone, PartialEq, Eq, Structural)]
pub enum FriendshipSceneType {
    Unknown,
    QQ,
    Email,
    Weixin,
    QQtbd,
    Room,
    Phone,
    Card,
    Location,
    Bottle,
    Shaking,
    QRCode,
}

pub open spec fn spec_friendship_scene_from_code(code: i32) -> Option<FriendshipSceneType> {
    if code == 0 {
        Some(FriendshipSceneType::Unknown)
    } else if code == 1 {
        Some(FriendshipSceneType::QQ)
    } else if code == 2 {
        Some(FriendshipSceneType::Email)
    } else if code == 3 {
        Some(FriendshipSceneType::Weixin)
    } else if code == 12 {
        Some(FriendshipSceneType::QQtbd)
    } else if code == 14 {
        Some(FriendshipSceneType::Room)
    } else if code == 15 {
        Some(FriendshipSceneType::Phone)
    } else if code == 17 {
        Some(FriendshipSceneType::Card)
    } else if code == 18 {
        Some(FriendshipSceneType::Location)
    } else if code == 25 {
        Some(FriendshipSceneType::Bottle)
    } else if code == 29 {
        Some(FriendshipSceneType::Shaking)
    } else if code == 30 {
        Some(FriendshipSceneType::QRCode)
    } else {
        None
    }
}

/// Decodes the wire representation of a friendship scene.
pub fn friendship_scene_from_code(code: i32) -> (r: Option<FriendshipSceneType>)
    ensures
        r == spec_friendship_scene_from_code(code),
{
    if code == 0 {
        Some(FriendshipSceneType::Unknown)
    } else if code == 1 {
        Some(FriendshipSceneType::QQ)
    } else if code == 2 {
        Some(FriendshipSceneType::Email)
    } else if code == 3 {
        Some(FriendshipSceneType::Weixin)
    } else if code == 12 {
        Some(FriendshipSceneType::QQtbd)
    } else if code == 14 {
        Some(FriendshipSceneType::Room)
    } else if code == 15 {
        Some(FriendshipSceneType::Phone)
    } else if code == 17 {
        Some(FriendshipSceneType::Card)
    } else if code == 18 {
        Some(FriendshipSceneType::Location)
    } else if code == 25 {
        Some(FriendshipSceneType::Bottle)
    } else if code == 29 {
        Some(FriendshipSceneType::Shaking)
    } else if code == 30 {
        Some(FriendshipSceneType::QRCode)
    } else {
        None
    }
}

/// Immutable snapshot of a friendship, keyed by friendship id. The variant
/// tag mirrors the lifecycle stage reported by the remote data source.
#[derive(Debug, Clone, PartialEq)]
pub enum FriendshipPayload {
    Unknown,
    Confirm {
        id: String,
        contact_id: String,
        hello: String,
        timestamp: u64,
        friendship_type: FriendshipType,
    },
    Receive {
        id: String,
        contact_id: String,
        hello: String,
        timestamp: u64,
        scene: FriendshipSceneType,
        stranger: String,
        ticket: String,
        friendship_type: FriendshipType,
    },
    Verify {
        id: String,
        contact_id: String,
        hello: String,
        timestamp: u64,
        friendship_type: FriendshipType,
    },
}

impl FriendshipPayload {
    /// The snapshot that `from_parts` assembles for the given raw fields.
    pub open spec fn spec_from_parts(
        kind: i32,
        id: String,
        contact_id: String,
        hello: String,
        scene: i32,
        stranger: String,
        ticket: String,
        timestamp: u64,
    ) -> FriendshipPayload {
        if kind == 1 {
            FriendshipPayload::Confirm {
                id,
                contact_id,
                hello,
                timestamp,
                friendship_type: FriendshipType::Confirm,
            }
        } else if kind == 2 {
            FriendshipPayload::Receive {
                id,
                contact_id,
                hello,
                timestamp,
                scene: spec_friendship_scene_from_code(scene)->Some_0,
                stranger,
                ticket,
                friendship_type: FriendshipType::Receive,
            }
        } else if kind == 3 {
            FriendshipPayload::Verify {
                id,
                contact_id,
                hello,
                timestamp,
                friendship_type: FriendshipType::Verify,
            }
        } else {
            FriendshipPayload::Unknown
        }
    }

    /// Assembles a snapshot from the plain fields of a raw transport
    /// response. For a received friendship the scene code must be a valid
    /// wire code.
    pub fn from_parts(
        kind: i32,
        id: String,
        contact_id: String,
        hello: String,
        scene: i32,
        stranger: String,
        ticket: String,
        timestamp: u64,
    ) -> (r: FriendshipPayload)
        requires
            kind == 2 ==> spec_friendship_scene_from_code(scene) is Some,
        ensures
            r == FriendshipPayload::spec_from_parts(
                kind,
                id,
                contact_id,
                hello,
                scene,
                stranger,
                ticket,
                timestamp,
            ),
    {
        if kind == 1 {
            FriendshipPayload::Confirm {
                id,
                contact_id,
                hello,
                timestamp,
                friendship_type: FriendshipType::Confirm,
            }
        } else if kind == 2 {
            FriendshipPayload::Receive {
                id,
                contact_id,
                hello,
                timestamp,
                scene: friendship_scene_from_code(scene).unwrap(),
                stranger,
                ticket,
                friendship_type: FriendshipType::Receive,
            }
        } else if kind == 3 {
            FriendshipPayload::Verify {
                id,
                contact_id,
                hello,
                timestamp,
                friendship_type: FriendshipType::Verify,
            }
        } else {
            FriendshipPayload::Unknown
        }
    }
}

#[derive(Debug, Clone, PartialEq)]
pub struct FriendshipSearchQueryFilter {
    pub phone: Option<String>,
    pub weixin: Option<String>,
}

} // verus!
