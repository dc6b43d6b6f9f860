//! The message handle.
use vstd::prelude::*;
use vstd::string::StringExecFns;
use crate::context::WechatyContext;
use crate::puppet::PuppetImpl;
use crate::schemas::message::{MessagePayload, MessageType};
use crate::user::contact::Contact;
use crate::user::entity::Entity;
use crate::user::room::Room;
use crate::util::clone_message_payload;

verus! {

pub type Message = Entity<MessagePayload>;

impl Message {
    /// A handle for `id`. A given payload is taken as is; otherwise the
    /// context's snapshot store is consulted.
    pub fn new<T: PuppetImpl>(
        id: String,
        ctx: &WechatyContext<T>,
        payload: Option<MessagePayload>,
    ) -> (r: Message)
        requires
            ctx.wf(),
        ensures
            r.id_ == id,
            match payload {
                Some(p) => r.payload_ == Some(p),
                None => r.payload_ == (if ctx.messages_spec().has(id@) {
                    Some(ctx.messages_spec().val(id@))
                } else {
                    None::<MessagePayload>
                }),
            },
    {
        let payload = match payload {
            Some(p) => Some(p),
            None => match ctx.messages().get(&id) {
                Some(p) => Some(clone_message_payload(p)),
                None => None,
            },
        };
        Message { id_: id, payload_: payload }
    }

    pub fn is_ready(&self) -> (r: bool)
        ensures
            r == self.spec_is_ready(),
    {
        self.payload_.is_some()
    }

    /// Whether this message was sent by the currently authenticated
    /// identity. A handle without a payload is never outgoing.
    pub open spec fn spec_is_self<T: PuppetImpl>(self, ctx: WechatyContext<T>) -> bool {
        match self.payload_ {
            Some(p) => match p.spec_from_id() {
                Some(f) => match ctx.id_spec() {
                    Some(me) => me@ == f,
                    None => false,
                },
                None => false,
            },
            None => false,
        }
    }

    pub fn is_self<T: PuppetImpl>(&self, ctx: &WechatyContext<T>) -> (r: bool)
        ensures
            r == self.spec_is_self(*ctx),
    {
        match &self.payload_ {
            Some(p) => match p.from_id() {
                Some(f) => match ctx.id() {
                    Some(me) => crate::util::str_eq(me.as_str(), f.as_str()),
                    None => false,
                },
                None => false,
            },
            None => false,
        }
    }

    pub fn id(&self) -> (r: String)
        ensures
            r == self.id_,
    {
        self.id_.clone()
    }

    /// The "From:" fragment of this message's one-line description.
    pub open spec fn spec_brief_from<T: PuppetImpl>(self, ctx: WechatyContext<T>) -> Seq<char> {
        match self.payload_ {
            Some(p) => match p.spec_from_id() {
                Some(f) => if f.len() > 0 {
                    "From: "@ + crate::user::contact::spec_identity_for(f, ctx) + " "@
                } else {
                    Seq::empty()
                },
                None => Seq::empty(),
            },
            None => Seq::empty(),
        }
    }

    /// The "To:" fragment of this message's one-line description.
    pub open spec fn spec_brief_to<T: PuppetImpl>(self, ctx: WechatyContext<T>) -> Seq<char> {
        match self.payload_ {
            Some(p) => match p.spec_to_id() {
                Some(t) => if t.len() > 0 {
                    "To: "@ + crate::user::contact::spec_identity_for(t, ctx) + " "@
                } else {
                    Seq::empty()
                },
                None => Seq::empty(),
            },
            None => Seq::empty(),
        }
    }

    /// The "Room:" fragment of this message's one-line description.
    pub open spec fn spec_brief_room<T: PuppetImpl>(self, ctx: WechatyContext<T>) -> Seq<char> {
        match self.payload_ {
            Some(p) => match p.spec_room_id() {
                Some(rm) => if rm.len() > 0 {
                    "Room: "@ + crate::user::room::spec_room_summary_for(rm, ctx) + " "@
                } else {
                    Seq::empty()
                },
                None => Seq::empty(),
            },
            None => Seq::empty(),
        }
    }

    /// The "Type:" fragment of this message's one-line description.
    pub open spec fn spec_brief_type(self) -> Seq<char> {
        match self.payload_ {
            Some(p) => "Type: "@ + p.spec_message_type().spec_label() + " "@,
            None => Seq::empty(),
        }
    }

    /// The "Text:" fragment: present only for a text message that carries
    /// a text.
    pub open spec fn spec_brief_text(self) -> Seq<char> {
        match self.payload_ {
            Some(p) => if p.spec_message_type() == MessageType::Text {
                match p.spec_text() {
                    Some(t) => "Text: "@ + t + " "@,
                    None => Seq::empty(),
                }
            } else {
                Seq::empty()
            },
            None => Seq::empty(),
        }
    }

    /// One line describing this message: sender, receiver and room as the
    /// context currently knows them, the message type, and the text of a
    /// text message.
    pub open spec fn spec_brief<T: PuppetImpl>(self, ctx: WechatyContext<T>) -> Seq<char> {
        self.spec_brief_from(ctx) + self.spec_brief_to(ctx) + self.spec_brief_room(ctx)
            + self.spec_brief_type() + self.spec_brief_text()
    }

    pub fn brief<T: PuppetImpl>(&self, ctx: &WechatyContext<T>) -> (r: String)
        requires
            ctx.wf(),
        ensures
            r@ == self.spec_brief(*ctx),
    {
        let mut s = String::new();
        match &self.payload_ {
            Some(p) => {
                match p.from_id() {
                    Some(f) => {
                        if !f.as_str().is_empty() {
                            let c = Contact::new(f, ctx, None);
                            s.append("From: ");
                            s.append(c.identity().as_str());
                            s.append(" ");
                        }
                    },
                    None => {
                    },
                }
                proof {
                    assert(s@ =~= self.spec_brief_from(*ctx));
                }
                match p.to_id() {
                    Some(t) => {
                        if !t.as_str().is_empty() {
                            let c = Contact::new(t, ctx, None);
                            s.append("To: ");
                            s.append(c.identity().as_str());
                            s.append(" ");
                        }
                    },
                    None => {
                    },
                }
                proof {
                    assert(s@ =~= self.spec_brief_from(*ctx) + self.spec_brief_to(*ctx));
                }
                match p.room_id() {
                    Some(rm) => {
                        if !rm.as_str().is_empty() {
                            let room = Room::new(rm, ctx, None);
                            s.append("Room: ");
                            s.append(room.summary().as_str());
                            s.append(" ");
                        }
                    },
                    None => {
                    },
                }
                proof {
                    assert(s@ =~= self.spec_brief_from(*ctx) + self.spec_brief_to(*ctx)
                        + self.spec_brief_room(*ctx));
                }
                s.append("Type: ");
                s.append(p.message_type().label());
                s.append(" ");
                proof {
                    assert(s@ =~= self.spec_brief_from(*ctx) + self.spec_brief_to(*ctx)
                        + self.spec_brief_room(*ctx) + self.spec_brief_type());
                }
                if p.message_type() == MessageType::Text {
                    match p.text() {
                        Some(t) => {
                            s.append("Text: ");
                            s.append(t.as_str());
                            s.append(" ");
                        },
                        None => {
                        },
                    }
                }
                proof {
                    assert(s@ =~= self.spec_brief(*ctx));
                }
            },
            None => {
                proof {
                    assert(s@ =~= self.spec_brief(*ctx));
                }
            },
        }
        s
    }

    /// The conversation a reply would go to: the room when the message is
    /// room-addressed, else its non-empty sender.
    pub open spec fn spec_conversation_id(self) -> Option<Seq<char>> {
        match self.payload_ {
            Some(p) => match p.spec_room_id() {
                Some(rm) => if rm.len() > 0 {
                    Some(rm)
                } else {
                    Self::spec_conversation_from(p)
                },
                None => Self::spec_conversation_from(p),
            },
            None => None,
        }
    }

    pub open spec fn spec_conversation_from(p: MessagePayload) -> Option<Seq<char>> {
        match p.spec_from_id() {
            Some(f) => if f.len() > 0 {
                Some(f)
            } else {
                None
            },
            None => None,
        }
    }

    pub fn conversation_id(&self) -> (r: Option<String>)
        ensures
            match r {
                Some(c) => self.spec_conversation_id() == Some(c@),
                None => self.spec_conversation_id() is None,
            },
    {
        match &self.payload_ {
            Some(p) => {
                match p.room_id() {
                    Some(rm) => {
                        if !rm.as_str().is_empty() {
                            return Some(rm);
                        }
                    },
                    None => {
                    },
                }
                match p.from_id() {
                    Some(f) => {
                        if !f.as_str().is_empty() {
                            Some(f)
                        } else {
                            None
                        }
                    },
                    None => None,
                }
            },
            None => None,
        }
    }

    pub fn payload(&self) -> (r: Option<MessagePayload>)
        ensures
            r == self.payload_,
    {
        match &self.payload_ {
            Some(p) => Some(clone_message_payload(p)),
            None => None,
        }
    }

    pub fn set_payload(&mut self, payload: Option<MessagePayload>)
        ensures
            final(self).payload_ == payload,
            final(self).id_ == old(self).id_,
    {
        self.payload_ = payload;
    }

    /// The sending contact, when the message has one.
    pub fn from<T: PuppetImpl>(&self, ctx: &WechatyContext<T>) -> (r: Option<Contact>)
        requires
            ctx.wf(),
        ensures
            match r {
                Some(c) => self.payload_ matches Some(p) && p.spec_from_id() == Some(c.id_@),
                None => true,
            },
    {
        match &self.payload_ {
            Some(p) => match p.from_id() {
                Some(from_id) => {
                    if !from_id.as_str().is_empty() {
                        Some(Contact::new(from_id, ctx, None))
                    } else {
                        None
                    }
                },
                None => None,
            },
            None => None,
        }
    }

    /// The receiving contact, when the message has one.
    pub fn to<T: PuppetImpl>(&self, ctx: &WechatyContext<T>) -> (r: Option<Contact>)
        requires
            ctx.wf(),
        ensures
            match r {
                Some(c) => self.payload_ matches Some(p) && p.spec_to_id() == Some(c.id_@),
                None => true,
            },
    {
        match &self.payload_ {
            Some(p) => match p.to_id() {
                Some(to_id) => {
                    if !to_id.as_str().is_empty() {
                        Some(Contact::new(to_id, ctx, None))
                    } else {
                        None
                    }
                },
                None => None,
            },
            None => None,
        }
    }

    /// The room the message was addressed to, when there is one.
    pub fn room<T: PuppetImpl>(&self, ctx: &WechatyContext<T>) -> (r: Option<Room>)
        requires
            ctx.wf(),
        ensures
            match r {
                Some(rm) => self.payload_ matches Some(p) && p.spec_room_id() == Some(rm.id_@),
                None => true,
            },
    {
        match &self.payload_ {
            Some(p) => match p.room_id() {
                Some(room_id) => {
                    if !room_id.as_str().is_empty() {
                        Some(Room::new(room_id, ctx, None))
                    } else {
                        None
                    }
                },
                None => None,
            },
            None => None,
        }
    }

    pub fn message_type(&self) -> (r: Option<MessageType>)
        ensures
            match r {
                Some(t) => self.payload_ matches Some(p) && p.spec_message_type() == t,
                None => self.payload_ is None,
            },
    {
        match &self.payload_ {
            Some(p) => Some(p.message_type()),
            None => None,
        }
    }

    /// The message text, when the payload carries one.
    pub fn text(&self) -> (r: Option<String>)
        ensures
            match r {
                Some(t) => self.payload_ matches Some(p) && p.spec_text() == Some(t@),
                None => match self.payload_ {
                    Some(p) => p.spec_text() is None,
                    None => true,
                },
            },
    {
        match &self.payload_ {
            Some(p) => p.text(),
            None => None,
        }
    }

    /// Loads the mentioned contacts, when the payload is present.
    pub fn mention_list<T: PuppetImpl>(&self, ctx: &mut WechatyContext<T>) -> (r: Option<
        Vec<Contact>,
    >)
        requires
            old(ctx).wf(),
        ensures
            final(ctx).wf(),
            self.payload_ is None ==> r is None && *final(ctx) == *old(ctx),
            self.payload_ is Some ==> r is Some,
            self.payload_ matches Some(p) ==> (r matches Some(cs) && exists|keep: Seq<bool>|
                keep.len() == p.spec_mention_ids().len() && cs@.map_values(|c: Contact| c.id_@)
                    == #[trigger] crate::query::spec_scan_kept(p.spec_mention_ids(), keep)),
            self.payload_ matches Some(p) ==> (r matches Some(cs) ==> forall|j: int|
                0 <= j < cs@.len() ==> (#[trigger] cs@[j]).payload_ is Some),
    {
        match &self.payload_ {
            Some(p) => {
                let ids = p.mention_ids();
                let ghost mv = ids.deep_view();
                let cs = ctx.contact_load_batch(ids);
                proof {
                    let keep = choose|keep: Seq<bool>|
                        keep.len() == mv.len() && cs@.map_values(|c: Contact| c.id_@)
                            == #[trigger] crate::query::spec_scan_kept(mv, keep);
                }
                Some(cs)
            },
            None => None,
        }
    }
}

} // verus!
