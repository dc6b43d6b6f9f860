//! Message entity snapshots: a message is addressed either to a room or
//! directly to a contact, and is immutable once observed.
use vstd::prelude::*;

verus! {

#[derive(Debug, Copy, Clone, PartialEq, Eq, Structural)]
pub enum MessageType {
    Unknown,
    Attachment,
    Audio,
    Contact,
    ChatHistory,
    Emoticon,
    Image,
    Text,
    Location,
    MiniProgram,
    GroupNote,
    Transfer,
    RedEnvelope,
    Recalled,
    Url,
    Video,
}

impl MessageType {
    /// True of the types that the transport can send onwards; forwarding any
    /// other type is unsupported or unknown.
    pub open spec fn spec_is_forwardable(self) -> bool {
        match self {
            MessageType::Attachment => true,
            MessageType::Audio => true,
            MessageType::Image => true,
            MessageType::Video => true,
            MessageType::Text => true,
            MessageType::MiniProgram => true,
            MessageType::Url => true,
            MessageType::Contact => true,
            _ => false,
        }
    }

    /// The display name of this message type, as used in error texts.
    pub open spec fn spec_label(self) -> Seq<char> {
        match self {
            MessageType::Unknown => "Unknown"@,
            MessageType::Attachment => "Attachment"@,
            MessageType::Audio => "Audio"@,
            MessageType::Contact => "Contact"@,
            MessageType::ChatHistory => "ChatHistory"@,
            MessageType::Emoticon => "Emoticon"@,
            MessageType::Image => "Image"@,
            MessageType::Text => "Text"@,
            MessageType::Location => "Location"@,
            MessageType::MiniProgram => "MiniProgram"@,
            MessageType::GroupNote => "GroupNote"@,
            MessageType::Transfer => "Transfer"@,
            MessageType::RedEnvelope => "RedEnvelope"@,
            MessageType::Recalled => "Recalled"@,
            MessageType::Url => "Url"@,
            MessageType::Video => "Video"@,
        }
    }

    pub fn label(&self) -> (r: &'static str)
        ensures
            r@ == self.spec_label(),
    {
        match self {
            MessageType::Unknown => "Unknown",
            MessageType::Attachment => "Attachment",
            MessageType::Audio => "Audio",
            MessageType::Contact => "Contact",
            MessageType::ChatHistory => "ChatHistory",
            MessageType::Emoticon => "Emoticon",
            MessageType::Image => "Image",
            MessageType::Text => "Text",
            MessageType::Location => "Location",
            MessageType::MiniProgram => "MiniProgram",
            MessageType::GroupNote => "GroupNote",
            MessageType::Transfer => "Transfer",
            MessageType::RedEnvelope => "RedEnvelope",
            MessageType::Recalled => "Recalled",
            MessageType::Url => "Url",
            MessageType::Video => "Video",
        }
    }
}

pub open spec fn spec_message_type_from_code(code: i32) -> Option<MessageType> {
    if code == 0 {
        Some(MessageType::Unknown)
    } else if code == 1 {
        Some(MessageType::Attachment)
    } else if code == 2 {
        Some(MessageType::Audio)
    } else if code == 3 {
        Some(MessageType::Contact)
    } else if code == 4 {
        Some(MessageType::ChatHistory)
    } else if code == 5 {
        Some(MessageType::Emoticon)
    } else if code == 6 {
        Some(MessageType::Image)
    } else if code == 7 {
        Some(MessageType::Text)
    } else if code == 8 {
        Some(MessageType::Location)
    } else if code == 9 {
        Some(MessageType::MiniProgram)
    } else if code == 10 {
        Some(MessageType::GroupNote)
    } else if code == 11 {
        Some(MessageType::Transfer)
    } else if code == 12 {
        Some(MessageType::RedEnvelope)
    } else if code == 13 {
        Some(MessageType::Recalled)
    } else if code == 14 {
        Some(MessageType::Url)
    } else if code == 15 {
        Some(MessageType::Video)
    } else {
        None
    }
}

/// Decodes the wire representation of a message type.
pub fn message_type_from_code(code: i32) -> (r: Option<MessageType>)
    ensures
        r == spec_message_type_from_code(code),
{
    if code == 0 {
        Some(MessageType::Unknown)
    } else if code == 1 {
        Some(MessageType::Attachment)
    } else if code == 2 {
        Some(MessageType::Audio)
    } else if code == 3 {
        Some(MessageType::Contact)
    } else if code == 4 {
        Some(MessageType::ChatHistory)
    } else if code == 5 {
        Some(MessageType::Emoticon)
    } else if code == 6 {
        Some(MessageType::Image)
    } else if code == 7 {
        Some(MessageType::Text)
    } else if code == 8 {
        Some(MessageType::Location)
    } else if code == 9 {
        Some(MessageType::MiniProgram)
    } else if code == 10 {
        Some(MessageType::GroupNote)
    } else if code == 11 {
        Some(MessageType::Transfer)
    } else if code == 12 {
        Some(MessageType::RedEnvelope)
    } else if code == 13 {
        Some(MessageType::Recalled)
    } else if code == 14 {
        Some(MessageType::Url)
    } else if code == 15 {
        Some(MessageType::Video)
    } else {
        None
    }
}

/// Application-level message sub-type carried inside rich "app" messages.
#[derive(Debug, Copy, Clone, PartialEq, Eq, Structural)]
pub enum WechatAppMessageType {
    Text,
    Img,
    Audio,
    Video,
    Url,
    Attach,
    Open,
    Emoji,
    VoiceRemind,
    ScanGood,
    Good,
    Emotion,
    CardTicket,
    RealtimeShareLocation,
    ChatHistory,
    MiniProgram,
    Transfers,
    RedEnvelopes,
    ReaderType,
}

impl WechatAppMessageType {
    /// The numeric wire code of this sub-type.
    pub open spec fn spec_code(self) -> i32 {
        match self {
            WechatAppMessageType::Text => 1,
            WechatAppMessageType::Img => 2,
            WechatAppMessageType::Audio => 3,
            WechatAppMessageType::Video => 4,
            WechatAppMessageType::Url => 5,
            WechatAppMessageType::Attach => 6,
            WechatAppMessageType::Open => 7,
            WechatAppMessageType::Emoji => 8,
            WechatAppMessageType::VoiceRemind => 9,
            WechatAppMessageType::ScanGood => 10,
            WechatAppMessageType::Good => 13,
            WechatAppMessageType::Emotion => 15,
            WechatAppMessageType::CardTicket => 16,
            WechatAppMessageType::RealtimeShareLocation => 17,
            WechatAppMessageType::ChatHistory => 19,
            WechatAppMessageType::MiniProgram => 33,
            WechatAppMessageType::Transfers => 2000,
            WechatAppMessageType::RedEnvelopes => 2001,
            WechatAppMessageType::ReaderType => 100001,
        }
    }

    pub fn code(&self) -> (r: i32)
        ensures
            r == self.spec_code(),
    {
        match self {
            WechatAppMessageType::Text => 1,
            WechatAppMessageType::Img => 2,
            WechatAppMessageType::Audio => 3,
            WechatAppMessageType::Video => 4,
            WechatAppMessageType::Url => 5,
            WechatAppMessageType::Attach => 6,
            WechatAppMessageType::Open => 7,
            WechatAppMessageType::Emoji => 8,
            WechatAppMessageType::VoiceRemind => 9,
            WechatAppMessageType::ScanGood => 10,
            WechatAppMessageType::Good => 13,
            WechatAppMessageType::Emotion => 15,
            WechatAppMessageType::CardTicket => 16,
            WechatAppMessageType::RealtimeShareLocation => 17,
            WechatAppMessageType::ChatHistory => 19,
            WechatAppMessageType::MiniProgram => 33,
            WechatAppMessageType::Transfers => 2000,
            WechatAppMessageType::RedEnvelopes => 2001,
            WechatAppMessageType::ReaderType => 100001,
        }
    }
}

/// Low-level message type used by the underlying chat protocol.
#[derive(Debug, Copy, Clone, PartialEq, Eq, Structural)]
pub enum WechatMessageType {
    Text,
    Image,
    Voice,
    VerifyMsg,
    PossibleFriendMsg,
    ShareCard,
    Video,
    Emoticon,
    Location,
    App,
    VoipMsg,
    StatusNotify,
    VoipNotify,
    VoipInvite,
    MicroVideo,
    Transfer,
    RedEnvelope,
    MiniProgram,
    GroupInvite,
    File,
    SysNotice,
    Sys,
    Recalled,
}

impl WechatMessageType {
    /// The numeric wire code of this protocol-level type.
    pub open spec fn spec_code(self) -> i32 {
        match self {
            WechatMessageType::Text => 1,
            WechatMessageType::Image => 3,
            WechatMessageType::Voice => 34,
            WechatMessageType::VerifyMsg => 37,
            WechatMessageType::PossibleFriendMsg => 40,
            WechatMessageType::ShareCard => 42,
            WechatMessageType::Video => 43,
            WechatMessageType::Emoticon => 47,
            WechatMessageType::Location => 48,
            WechatMessageType::App => 49,
            WechatMessageType::VoipMsg => 50,
            WechatMessageType::StatusNotify => 51,
            WechatMessageType::VoipNotify => 52,
            WechatMessageType::VoipInvite => 53,
            WechatMessageType::MicroVideo => 62,
            WechatMessageType::Transfer => 2000,
            WechatMessageType::RedEnvelope => 2001,
            WechatMessageType::MiniProgram => 2002,
            WechatMessageType::GroupInvite => 2003,
            WechatMessageType::File => 2004,
            WechatMessageType::SysNotice => 9999,
            WechatMessageType::Sys => 10000,
            WechatMessageType::Recalled => 10002,
        }
    }

    pub fn code(&self) -> (r: i32)
        ensures
            r == self.spec_code(),
    {
        match self {
            WechatMessageType::Text => 1,
            WechatMessageType::Image => 3,
            WechatMessageType::Voice => 34,
            WechatMessageType::VerifyMsg => 37,
            WechatMessageType::PossibleFriendMsg => 40,
            WechatMessageType::ShareCard => 42,
            WechatMessageType::Video => 43,
            WechatMessageType::Emoticon => 47,
            WechatMessageType::Location => 48,
            WechatMessageType::App => 49,
            WechatMessageType::VoipMsg => 50,
            WechatMessageType::StatusNotify => 51,
            WechatMessageType::VoipNotify => 52,
            WechatMessageType::VoipInvite => 53,
            WechatMessageType::MicroVideo => 62,
            WechatMessageType::Transfer => 2000,
            WechatMessageType::RedEnvelope => 2001,
            WechatMessageType::MiniProgram => 2002,
            WechatMessageType::GroupInvite => 2003,
            WechatMessageType::File => 2004,
            WechatMessageType::SysNotice => 9999,
            WechatMessageType::Sys => 10000,
            WechatMessageType::Recalled => 10002,
        }
    }
}

/// Immutable snapshot of a message, keyed by message id: either addressed to
/// a room, or addressed directly to a contact.
#[derive(Debug, Clone, PartialEq)]
pub enum MessagePayload {
    Room {
        id: String,
        filename: Option<String>,
        text: Option<String>,
        timestamp: u64,
        message_type: MessageType,
        from_id: Option<String>,
        mention_ids: Vec<String>,
        room_id: String,
        to_id: Option<String>,
    },
    To {
        id: String,
        filename: Option<String>,
        text: Option<String>,
        timestamp: u64,
        message_type: MessageType,
        from_id: String,
        room_id: Option<String>,
        to_id: String,
    },
}

impl MessagePayload {
    pub open spec fn spec_id(self) -> Seq<char> {
        match self {
            MessagePayload::Room { id, .. } => id@,
            MessagePayload::To { id, .. } => id@,
        }
    }

    pub open spec fn spec_message_type(self) -> MessageType {
        match self {
            MessagePayload::Room { message_type, .. } => message_type,
            MessagePayload::To { message_type, .. } => message_type,
        }
    }

    pub open spec fn spec_timestamp(self) -> u64 {
        match self {
            MessagePayload::Room { timestamp, .. } => timestamp,
            MessagePayload::To { timestamp, .. } => timestamp,
        }
    }

    pub open spec fn spec_text(self) -> Option<Seq<char>> {
        match self {
            MessagePayload::Room { text, .. } => match text {
                Some(t) => Some(t@),
                None => None,
            },
            MessagePayload::To { text, .. } => match text {
                Some(t) => Some(t@),
                None => None,
            },
        }
    }

    pub open spec fn spec_from_id(self) -> Option<Seq<char>> {
        match self {
            MessagePayload::Room { from_id, .. } => match from_id {
                Some(f) => Some(f@),
                None => None,
            },
            MessagePayload::To { from_id, .. } => Some(from_id@),
        }
    }

    pub open spec fn spec_to_id(self) -> Option<Seq<char>> {
        match self {
            MessagePayload::Room { to_id, .. } => match to_id {
                Some(t) => Some(t@),
                None => None,
            },
            MessagePayload::To { to_id, .. } => Some(to_id@),
        }
    }

    pub open spec fn spec_room_id(self) -> Option<Seq<char>> {
        match self {
            MessagePayload::Room { room_id, .. } => Some(room_id@),
            MessagePayload::To { room_id, .. } => match room_id {
                Some(r) => Some(r@),
                None => None,
            },
        }
    }

    pub open spec fn spec_mention_ids(self) -> Seq<Seq<char>> {
        match self {
            MessagePayload::Room { mention_ids, .. } => mention_ids.deep_view(),
            MessagePayload::To { .. } => Seq::empty(),
        }
    }

    pub fn id(&self) -> (r: String)
        ensures
            r@ == self.spec_id(),
    {
        match self {
            MessagePayload::Room { id, .. } => id.clone(),
            MessagePayload::To { id, .. } => id.clone(),
        }
    }

    pub fn message_type(&self) -> (r: MessageType)
        ensures
            r == self.spec_message_type(),
    {
        match self {
            MessagePayload::Room { message_type, .. } => *message_type,
            MessagePayload::To { message_type, .. } => *message_type,
        }
    }

    pub fn timestamp(&self) -> (r: u64)
        ensures
            r == self.spec_timestamp(),
    {
        match self {
            MessagePayload::Room { timestamp, .. } => *timestamp,
            MessagePayload::To { timestamp, .. } => *timestamp,
        }
    }

    pub fn text(&self) -> (r: Option<String>)
        ensures
            match r {
                Some(t) => self.spec_text() == Some(t@),
                None => self.spec_text() is None,
            },
    {
        let t = match self {
            MessagePayload::Room { text, .. } => text,
            MessagePayload::To { text, .. } => text,
        };
        match t {
            Some(s) => Some(s.clone()),
            None => None,
        }
    }

    pub fn from_id(&self) -> (r: Option<String>)
        ensures
            match r {
                Some(f) => self.spec_from_id() == Some(f@),
                None => self.spec_from_id() is None,
            },
    {
        match self {
            MessagePayload::Room { from_id, .. } => match from_id {
                Some(f) => Some(f.clone()),
                None => None,
            },
            MessagePayload::To { from_id, .. } => Some(from_id.clone()),
        }
    }

    pub fn to_id(&self) -> (r: Option<String>)
        ensures
            match r {
                Some(t) => self.spec_to_id() == Some(t@),
                None => self.spec_to_id() is None,
            },
    {
        match self {
            MessagePayload::Room { to_id, .. } => match to_id {
                Some(t) => Some(t.clone()),
                None => None,
            },
            MessagePayload::To { to_id, .. } => Some(to_id.clone()),
        }
    }

    pub fn room_id(&self) -> (r: Option<String>)
        ensures
            match r {
                Some(t) => self.spec_room_id() == Some(t@),
                None => self.spec_room_id() is None,
            },
    {
        match self {
            MessagePayload::Room { room_id, .. } => Some(room_id.clone()),
            MessagePayload::To { room_id, .. } => match room_id {
                Some(t) => Some(t.clone()),
                None => None,
            },
        }
    }

    pub fn mention_ids(&self) -> (r: Vec<String>)
        ensures
            r.deep_view() == self.spec_mention_ids(),
    {
        match self {
            MessagePayload::Room { mention_ids, .. } => mention_ids.clone(),
            MessagePayload::To { .. } => {
                let empty: Vec<String> = Vec::new();
                assert(empty.deep_view() =~= Seq::<Seq<char>>::empty());
                empty
            },
        }
    }
}

/// Declarative message query: every populated field must match, `text_regex`
/// by pattern match against the message text; absent fields impose no
/// constraint.
#[derive(Debug, Clone, PartialEq)]
pub struct MessageQueryFilter {
    pub from_id: Option<String>,
    pub id: Option<String>,
    pub room_id: Option<String>,
    pub text: Option<String>,
    pub text_regex: Option<String>,
    pub to_id: Option<String>,
    pub message_type: Option<MessageType>,
}

impl MessageQueryFilter {
    /// The filter with no constraints at all: it matches every payload.
    pub open spec fn spec_empty() -> MessageQueryFilter {
        MessageQueryFilter {
            from_id: None,
            id: None,
            room_id: None,
            text: None,
            text_regex: None,
            to_id: None,
            message_type: None,
        }
    }
}

impl Default for MessageQueryFilter {
    fn default() -> (r: Self)
        ensures
            r == MessageQueryFilter::spec_empty(),
    {
        MessageQueryFilter {
            from_id: None,
            id: None,
            room_id: None,
            text: None,
            text_regex: None,
            to_id: None,
            message_type: None,
        }
    }
}

} // verus!
