//! The puppet: the typed, capacity-bounded cache-of-record for the six
//! entity kinds, sitting in front of a pluggable backend transport, plus the
//! event registry that fans backend events out to subscribers.
use vstd::prelude::*;
use vstd::string::StringExecFns;
use crate::bus::{
    all_queues_extended, drained, has_sink, sink_queue, spec_event_kind, spec_parse_event_kind,
    unsubscribed, upserted, EventKind, PuppetInner, SinkChannel,
};
use crate::cache::{
    entries_tagged, has_key, insert_front, lemma_idx_of, lemma_insert_front_tagged,
    lemma_promote_tagged, lemma_remove_key_tagged, promote, remove_key, PayloadCache,
};
use crate::error::PuppetError;
use crate::schemas::contact::ContactPayload;
use crate::schemas::event::PuppetEvent;
use crate::schemas::friendship::FriendshipPayload;
use crate::schemas::image::ImageType;
use crate::schemas::message::{MessagePayload, MessageType};
use crate::schemas::mini_program::MiniProgramPayload;
use crate::schemas::payload::{Payload, PayloadType};
use crate::schemas::room::{RoomMemberPayload, RoomPayload};
use crate::schemas::room_invitation::RoomInvitationPayload;
use crate::schemas::url_link::UrlLinkPayload;
use crate::util::{
    clone_contact_payload, clone_friendship_payload, clone_message_payload,
    clone_room_invitation_payload, clone_room_member_payload, clone_room_payload,
};

verus! {

pub const DEFAULT_CONTACT_CACHE_CAP: usize = 3000;

pub const DEFAULT_FRIENDSHIP_CACHE_CAP: usize = 300;

pub const DEFAULT_MESSAGE_CACHE_CAP: usize = 500;

pub const DEFAULT_ROOM_CACHE_CAP: usize = 500;

pub const DEFAULT_ROOM_MEMBER_CACHE_CAP: usize = 30000;

pub const DEFAULT_ROOM_INVITATION_CACHE_CAP: usize = 100;


/// One backend interaction outside the per-kind payload fetches (those are
/// counted by the fetch counter): the id-list calls and the forwarding
/// path's fetch and send calls, with their arguments and outcomes. The
/// puppet keeps a ghost log of these, so contracts can say which calls a
/// function makes and with what.
pub enum BackendOp {
    ContactList { outcome: Result<Seq<Seq<char>>, PuppetError> },
    RoomList { outcome: Result<Seq<Seq<char>>, PuppetError> },
    RoomMemberList { room_id: Seq<char>, outcome: Result<Seq<Seq<char>>, PuppetError> },
    MessageFileFetch { message_id: Seq<char>, outcome: Result<(), PuppetError> },
    MessageMiniProgramFetch {
        message_id: Seq<char>,
        outcome: Result<MiniProgramPayload, PuppetError>,
    },
    MessageUrlFetch { message_id: Seq<char>, outcome: Result<UrlLinkPayload, PuppetError> },
    MessageContactFetch { message_id: Seq<char>, outcome: Result<Seq<char>, PuppetError> },
    SendText {
        conversation_id: Seq<char>,
        text: Seq<char>,
        mention_ids: Seq<Seq<char>>,
        outcome: Result<Option<String>, PuppetError>,
    },
    SendFile { conversation_id: Seq<char>, outcome: Result<Option<String>, PuppetError> },
    SendMiniProgram {
        conversation_id: Seq<char>,
        payload: MiniProgramPayload,
        outcome: Result<Option<String>, PuppetError>,
    },
    SendUrl {
        conversation_id: Seq<char>,
        payload: UrlLinkPayload,
        outcome: Result<Option<String>, PuppetError>,
    },
    SendContact {
        conversation_id: Seq<char>,
        contact_id: Seq<char>,
        outcome: Result<Option<String>, PuppetError>,
    },
}

/// A file attachment handle.
pub struct FileBox {}

impl FileBox {
    pub fn to_string(&self) -> (r: String)
        ensures
            r@ == Seq::<char>::empty(),
    {
        String::new()
    }
}

impl From<String> for FileBox {
    fn from(_name: String) -> (r: Self) {
        FileBox {  }
    }
}

impl vstd::std_specs::convert::FromSpecImpl<String> for FileBox {
    open spec fn obeys_from_spec() -> bool {
        true
    }

    open spec fn from_spec(_name: String) -> Self {
        FileBox {  }
    }
}

/// A request to register a named sink for one event kind.
pub struct Subscribe {
    pub name: String,
    pub event_name: &'static str,
}

/// A request to remove a named sink of one event kind.
pub struct UnSubscribe {
    pub name: String,
    pub event_name: &'static str,
}

/// The capability set of the remote data source. The backend is a black-box
/// collaborator: nothing is assumed of what its calls return.
pub trait PuppetImpl {
    fn contact_self_name_set(&mut self, name: String) -> Result<(), PuppetError>;

    fn contact_self_qr_code(&mut self) -> Result<String, PuppetError>;

    fn contact_self_signature_set(&mut self, signature: String) -> Result<(), PuppetError>;

    fn tag_contact_add(&mut self, tag_id: String, contact_id: String) -> Result<(), PuppetError>;

    fn tag_contact_remove(&mut self, tag_id: String, contact_id: String) -> Result<
        (),
        PuppetError,
    >;

    fn tag_contact_delete(&mut self, tag_id: String) -> Result<(), PuppetError>;

    fn tag_contact_list(&mut self, contact_id: String) -> Result<Vec<String>, PuppetError>;

    fn tag_list(&mut self) -> Result<Vec<String>, PuppetError>;

    fn contact_alias(&mut self, contact_id: String) -> Result<String, PuppetError>;

    fn contact_alias_set(&mut self, contact_id: String, alias: String) -> Result<(), PuppetError>;

    fn contact_avatar(&mut self, contact_id: String) -> Result<FileBox, PuppetError>;

    fn contact_avatar_set(&mut self, contact_id: String, file: FileBox) -> Result<
        (),
        PuppetError,
    >;

    fn contact_phone_set(&mut self, contact_id: String, phone_list: Vec<String>) -> Result<
        (),
        PuppetError,
    >;

    fn contact_corporation_remark_set(
        &mut self,
        contact_id: String,
        corporation_remark: Option<String>,
    ) -> Result<(), PuppetError>;

    fn contact_description_set(
        &mut self,
        contact_id: String,
        description: Option<String>,
    ) -> Result<(), PuppetError>;

    fn contact_list(&mut self) -> Result<Vec<String>, PuppetError>;

    fn contact_raw_payload(&mut self, contact_id: String) -> Result<ContactPayload, PuppetError>;

    fn message_contact(&mut self, message_id: String) -> Result<String, PuppetError>;

    fn message_file(&mut self, message_id: String) -> Result<FileBox, PuppetError>;

    fn message_image(&mut self, message_id: String, image_type: ImageType) -> Result<
        FileBox,
        PuppetError,
    >;

    fn message_mini_program(&mut self, message_id: String) -> Result<
        MiniProgramPayload,
        PuppetError,
    >;

    fn message_url(&mut self, message_id: String) -> Result<UrlLinkPayload, PuppetError>;

    fn message_send_contact(&mut self, conversation_id: String, contact_id: String) -> Result<
        Option<String>,
        PuppetError,
    >;

    fn message_send_file(&mut self, conversation_id: String, file: FileBox) -> Result<
        Option<String>,
        PuppetError,
    >;

    fn message_send_mini_program(
        &mut self,
        conversation_id: String,
        mini_program_payload: MiniProgramPayload,
    ) -> Result<Option<String>, PuppetError>;

    fn message_send_text(
        &mut self,
        conversation_id: String,
        text: String,
        mention_id_list: Vec<String>,
    ) -> Result<Option<String>, PuppetError>;

    fn message_send_url(
        &mut self,
        conversation_id: String,
        url_link_payload: UrlLinkPayload,
    ) -> Result<Option<String>, PuppetError>;

    fn message_raw_payload(&mut self, message_id: String) -> Result<MessagePayload, PuppetError>;

    fn friendship_accept(&mut self, friendship_id: String) -> Result<(), PuppetError>;

    fn friendship_add(&mut self, contact_id: String, hello: Option<String>) -> Result<
        (),
        PuppetError,
    >;

    fn friendship_search_phone(&mut self, phone: String) -> Result<Option<String>, PuppetError>;

    fn friendship_search_weixin(&mut self, weixin: String) -> Result<Option<String>, PuppetError>;

    fn friendship_raw_payload(&mut self, friendship_id: String) -> Result<
        FriendshipPayload,
        PuppetError,
    >;

    fn room_invitation_accept(&mut self, room_invitation_id: String) -> Result<(), PuppetError>;

    fn room_invitation_raw_payload(&mut self, room_invitation_id: String) -> Result<
        RoomInvitationPayload,
        PuppetError,
    >;

    fn room_add(&mut self, room_id: String, contact_id: String) -> Result<(), PuppetError>;

    fn room_avatar(&mut self, room_id: String) -> Result<FileBox, PuppetError>;

    fn room_create(&mut self, contact_id_list: Vec<String>, topic: Option<String>) -> Result<
        String,
        PuppetError,
    >;

    fn room_del(&mut self, room_id: String, contact_id: String) -> Result<(), PuppetError>;

    fn room_qr_code(&mut self, room_id: String) -> Result<String, PuppetError>;

    fn room_quit(&mut self, room_id: String) -> Result<(), PuppetError>;

    fn room_topic(&mut self, room_id: String) -> Result<String, PuppetError>;

    fn room_topic_set(&mut self, room_id: String, topic: String) -> Result<(), PuppetError>;

    fn room_list(&mut self) -> Result<Vec<String>, PuppetError>;

    fn room_raw_payload(&mut self, room_id: String) -> Result<RoomPayload, PuppetError>;

    fn room_announce(&mut self, room_id: String) -> Result<String, PuppetError>;

    fn room_announce_set(&mut self, room_id: String, text: String) -> Result<(), PuppetError>;

    fn room_member_list(&mut self, room_id: String) -> Result<Vec<String>, PuppetError>;

    fn room_member_raw_payload(&mut self, room_id: String, contact_id: String) -> Result<
        RoomMemberPayload,
        PuppetError,
    >;
}

/// The composite cache key of a room member: the contact scoped within the
/// room. Field order matters; lookups depend on deterministic construction
/// from the same two inputs.
pub open spec fn spec_room_member_key(contact_id: Seq<char>, room_id: Seq<char>) -> Seq<char> {
    contact_id + "@@@"@ + room_id
}

/// Builds the composite room-member cache key: the contact id, then the
/// separator, then the room id.
pub fn cache_key_room_member(room_id: &String, contact_id: &String) -> (r: String)
    ensures
        r@ == spec_room_member_key(contact_id@, room_id@),
{
    let mut s = contact_id.clone();
    s.append("@@@");
    s.append(room_id.as_str());
    s
}


/// The room-member cache after evicting, in order, the composite key of
/// each listed member of a room.
pub open spec fn spec_evict_members(
    e: Seq<(Seq<char>, Payload)>,
    room_id: Seq<char>,
    ids: Seq<Seq<char>>,
) -> Seq<(Seq<char>, Payload)>
    decreases ids.len(),
{
    if ids.len() == 0 {
        e
    } else {
        spec_evict_members(
            remove_key(e, spec_room_member_key(ids[0], room_id)),
            room_id,
            ids.drop_first(),
        )
    }
}

/// Evicting one more member from the end folds through.
pub proof fn lemma_evict_members_snoc(
    e: Seq<(Seq<char>, Payload)>,
    room_id: Seq<char>,
    ids: Seq<Seq<char>>,
    x: Seq<char>,
)
    ensures
        spec_evict_members(e, room_id, ids.push(x)) == remove_key(
            spec_evict_members(e, room_id, ids),
            spec_room_member_key(x, room_id),
        ),
    decreases ids.len(),
{
    let ek = spec_room_member_key(x, room_id);
    if ids.len() == 0 {
        assert(ids.push(x)[0] == x);
        assert(ids.push(x).drop_first() =~= Seq::<Seq<char>>::empty());
        assert(spec_evict_members(e, room_id, ids) == e);
        assert(spec_evict_members(remove_key(e, ek), room_id, Seq::<Seq<char>>::empty())
            == remove_key(e, ek));
    } else {
        assert(ids.push(x)[0] == ids[0]);
        assert(ids.push(x).drop_first() =~= ids.drop_first().push(x));
        lemma_evict_members_snoc(
            remove_key(e, spec_room_member_key(ids[0], room_id)),
            room_id,
            ids.drop_first(),
            x,
        );
        assert(spec_evict_members(e, room_id, ids.push(x)) == spec_evict_members(
            remove_key(e, spec_room_member_key(ids[0], room_id)),
            room_id,
            ids.drop_first().push(x),
        ));
        assert(spec_evict_members(e, room_id, ids) == spec_evict_members(
            remove_key(e, spec_room_member_key(ids[0], room_id)),
            room_id,
            ids.drop_first(),
        ));
    }
}


/// What a forward of `payload` to `conversation_id` does at the backend
/// boundary and returns: a text message makes exactly one text send
/// carrying the payload's text; a media, mini-program, link or card
/// message fetches its content and, only on success, makes the matching
/// send, whose outcome is returned as it came (a failed fetch is returned
/// and nothing is sent); a forward-only type is refused as unsupported
/// and an unknown type is an error, with no backend call either way.
pub open spec fn spec_forward_outcome(
    pre_log: Seq<BackendOp>,
    post_log: Seq<BackendOp>,
    conversation_id: Seq<char>,
    message_id: Seq<char>,
    payload: MessagePayload,
    r: Result<Option<String>, PuppetError>,
) -> bool {
    let t = payload.spec_message_type();
    if t == MessageType::Text {
        post_log == pre_log.push(
            BackendOp::SendText {
                conversation_id,
                text: match payload.spec_text() {
                    Some(tx) => tx,
                    None => Seq::empty(),
                },
                mention_ids: Seq::empty(),
                outcome: r,
            },
        )
    } else if t == MessageType::Attachment || t == MessageType::Audio || t == MessageType::Image
        || t == MessageType::Video {
        ||| (exists|e: PuppetError|
            post_log == pre_log.push(
                BackendOp::MessageFileFetch { message_id, outcome: Err(e) },
            ) && r == Err::<Option<String>, PuppetError>(e))
        ||| post_log == pre_log.push(
            BackendOp::MessageFileFetch { message_id, outcome: Ok(()) },
        ).push(BackendOp::SendFile { conversation_id, outcome: r })
    } else if t == MessageType::MiniProgram {
        ||| (exists|e: PuppetError|
            post_log == pre_log.push(
                BackendOp::MessageMiniProgramFetch { message_id, outcome: Err(e) },
            ) && r == Err::<Option<String>, PuppetError>(e))
        ||| (exists|mp: MiniProgramPayload|
            post_log == pre_log.push(
                BackendOp::MessageMiniProgramFetch { message_id, outcome: Ok(mp) },
            ).push(BackendOp::SendMiniProgram { conversation_id, payload: mp, outcome: r }))
    } else if t == MessageType::Url {
        ||| (exists|e: PuppetError|
            post_log == pre_log.push(
                BackendOp::MessageUrlFetch { message_id, outcome: Err(e) },
            ) && r == Err::<Option<String>, PuppetError>(e))
        ||| (exists|link: UrlLinkPayload|
            post_log == pre_log.push(
                BackendOp::MessageUrlFetch { message_id, outcome: Ok(link) },
            ).push(BackendOp::SendUrl { conversation_id, payload: link, outcome: r }))
    } else if t == MessageType::Contact {
        ||| (exists|e: PuppetError|
            post_log == pre_log.push(
                BackendOp::MessageContactFetch { message_id, outcome: Err(e) },
            ) && r == Err::<Option<String>, PuppetError>(e))
        ||| (exists|cid: Seq<char>|
            post_log == pre_log.push(
                BackendOp::MessageContactFetch { message_id, outcome: Ok(cid) },
            ).push(
                BackendOp::SendContact { conversation_id, contact_id: cid, outcome: r },
            ))
    } else if t == MessageType::Unknown {
        post_log == pre_log && r == Err::<Option<String>, PuppetError>(
            PuppetError::UnknownMessageType,
        )
    } else {
        post_log == pre_log && (r matches Err(e) && e matches PuppetError::Unsupported(what)
            && what@ == "sending "@ + t.spec_label() + " messages"@)
    }
}

/// The cache front of the remote data source, plus the event registry.
pub struct Puppet<T: PuppetImpl> {
    puppet_impl: T,
    inner: PuppetInner,
    cache_contact_payload: PayloadCache,
    cache_friendship_payload: PayloadCache,
    cache_message_payload: PayloadCache,
    cache_room_payload: PayloadCache,
    cache_room_member_payload: PayloadCache,
    cache_room_invitation_payload: PayloadCache,
    id: Option<String>,
    fetches: Ghost<nat>,
    calls: Ghost<Seq<BackendOp>>,
}

impl<T: PuppetImpl> Puppet<T> {
    pub closed spec fn registry(self) -> PuppetInner {
        self.inner
    }

    /// The sinks registered for one event kind.
    pub open spec fn bucket(self, k: EventKind) -> Seq<SinkChannel> {
        self.registry().bucket(k)
    }

    pub closed spec fn contact_cache(self) -> PayloadCache {
        self.cache_contact_payload
    }

    pub closed spec fn friendship_cache(self) -> PayloadCache {
        self.cache_friendship_payload
    }

    pub closed spec fn message_cache(self) -> PayloadCache {
        self.cache_message_payload
    }

    pub closed spec fn room_cache(self) -> PayloadCache {
        self.cache_room_payload
    }

    pub closed spec fn room_member_cache(self) -> PayloadCache {
        self.cache_room_member_payload
    }

    pub closed spec fn room_invitation_cache(self) -> PayloadCache {
        self.cache_room_invitation_payload
    }

    pub closed spec fn self_id_spec(self) -> Option<String> {
        self.id
    }

    /// How many raw-payload fetches have gone to the backend.
    pub closed spec fn fetch_count(self) -> nat {
        self.fetches@
    }

    /// The backend calls made so far outside the payload fetches: id
    /// lists, and the forwarding path's fetches and sends, in order.
    pub closed spec fn call_log(self) -> Seq<BackendOp> {
        self.calls@
    }

    /// Well-formedness: the registry and each cache are well-formed and
    /// each cache only holds payloads of its kind.
    pub open spec fn wf(self) -> bool {
        &&& self.registry().wf()
        &&& self.contact_cache().wf()
        &&& entries_tagged(self.contact_cache().entries(), 0)
        &&& self.message_cache().wf()
        &&& entries_tagged(self.message_cache().entries(), 1)
        &&& self.room_cache().wf()
        &&& entries_tagged(self.room_cache().entries(), 2)
        &&& self.room_member_cache().wf()
        &&& entries_tagged(self.room_member_cache().entries(), 3)
        &&& self.friendship_cache().wf()
        &&& entries_tagged(self.friendship_cache().entries(), 4)
        &&& self.room_invitation_cache().wf()
        &&& entries_tagged(self.room_invitation_cache().entries(), 5)
    }

    /// Everything but the contact cache and the backend is unchanged.
    pub open spec fn same_but_contact_cache(pre: Self, post: Self) -> bool {
        &&& post.registry() == pre.registry()
        &&& post.message_cache() == pre.message_cache()
        &&& post.room_cache() == pre.room_cache()
        &&& post.room_member_cache() == pre.room_member_cache()
        &&& post.friendship_cache() == pre.friendship_cache()
        &&& post.room_invitation_cache() == pre.room_invitation_cache()
        &&& post.self_id_spec() == pre.self_id_spec()
    }

    /// Everything but the message cache and the backend is unchanged.
    pub open spec fn same_but_message_cache(pre: Self, post: Self) -> bool {
        &&& post.registry() == pre.registry()
        &&& post.contact_cache() == pre.contact_cache()
        &&& post.room_cache() == pre.room_cache()
        &&& post.room_member_cache() == pre.room_member_cache()
        &&& post.friendship_cache() == pre.friendship_cache()
        &&& post.room_invitation_cache() == pre.room_invitation_cache()
        &&& post.self_id_spec() == pre.self_id_spec()
    }

    /// Everything but the room cache and the backend is unchanged.
    pub open spec fn same_but_room_cache(pre: Self, post: Self) -> bool {
        &&& post.registry() == pre.registry()
        &&& post.contact_cache() == pre.contact_cache()
        &&& post.message_cache() == pre.message_cache()
        &&& post.room_member_cache() == pre.room_member_cache()
        &&& post.friendship_cache() == pre.friendship_cache()
        &&& post.room_invitation_cache() == pre.room_invitation_cache()
        &&& post.self_id_spec() == pre.self_id_spec()
    }

    /// Everything but the room-member cache and the backend is unchanged.
    pub open spec fn same_but_room_member_cache(pre: Self, post: Self) -> bool {
        &&& post.registry() == pre.registry()
        &&& post.contact_cache() == pre.contact_cache()
        &&& post.message_cache() == pre.message_cache()
        &&& post.room_cache() == pre.room_cache()
        &&& post.friendship_cache() == pre.friendship_cache()
        &&& post.room_invitation_cache() == pre.room_invitation_cache()
        &&& post.self_id_spec() == pre.self_id_spec()
    }

    /// Everything but the friendship cache and the backend is unchanged.
    pub open spec fn same_but_friendship_cache(pre: Self, post: Self) -> bool {
        &&& post.registry() == pre.registry()
        &&& post.contact_cache() == pre.contact_cache()
        &&& post.message_cache() == pre.message_cache()
        &&& post.room_cache() == pre.room_cache()
        &&& post.room_member_cache() == pre.room_member_cache()
        &&& post.room_invitation_cache() == pre.room_invitation_cache()
        &&& post.self_id_spec() == pre.self_id_spec()
    }

    /// Everything but the room-invitation cache and the backend is
    /// unchanged.
    pub open spec fn same_but_room_invitation_cache(pre: Self, post: Self) -> bool {
        &&& post.registry() == pre.registry()
        &&& post.contact_cache() == pre.contact_cache()
        &&& post.message_cache() == pre.message_cache()
        &&& post.room_cache() == pre.room_cache()
        &&& post.room_member_cache() == pre.room_member_cache()
        &&& post.friendship_cache() == pre.friendship_cache()
        &&& post.self_id_spec() == pre.self_id_spec()
    }

    /// Every cache and the identity are unchanged.
    pub open spec fn same_but_registry(pre: Self, post: Self) -> bool {
        &&& post.contact_cache() == pre.contact_cache()
        &&& post.message_cache() == pre.message_cache()
        &&& post.room_cache() == pre.room_cache()
        &&& post.room_member_cache() == pre.room_member_cache()
        &&& post.friendship_cache() == pre.friendship_cache()
        &&& post.room_invitation_cache() == pre.room_invitation_cache()
        &&& post.self_id_spec() == pre.self_id_spec()
        &&& post.fetch_count() == pre.fetch_count()
        &&& post.call_log() == pre.call_log()
    }

    /// A puppet in front of the given backend, with empty caches at their
    /// default capacities, an empty registry, and no authenticated
    /// identity.
    pub fn new(puppet_impl: T) -> (p: Self)
        ensures
            p.wf(),
            p.self_id_spec() is None,
            p.fetch_count() == 0,
            p.call_log() == Seq::<BackendOp>::empty(),
            p.contact_cache().entries() == Seq::<(Seq<char>, Payload)>::empty(),
            p.message_cache().entries() == Seq::<(Seq<char>, Payload)>::empty(),
            p.room_cache().entries() == Seq::<(Seq<char>, Payload)>::empty(),
            p.room_member_cache().entries() == Seq::<(Seq<char>, Payload)>::empty(),
            p.friendship_cache().entries() == Seq::<(Seq<char>, Payload)>::empty(),
            p.room_invitation_cache().entries() == Seq::<(Seq<char>, Payload)>::empty(),
            p.contact_cache().limit() == DEFAULT_CONTACT_CACHE_CAP as nat,
            p.message_cache().limit() == DEFAULT_MESSAGE_CACHE_CAP as nat,
            p.room_cache().limit() == DEFAULT_ROOM_CACHE_CAP as nat,
            p.room_member_cache().limit() == DEFAULT_ROOM_MEMBER_CACHE_CAP as nat,
            p.friendship_cache().limit() == DEFAULT_FRIENDSHIP_CACHE_CAP as nat,
            p.room_invitation_cache().limit() == DEFAULT_ROOM_INVITATION_CACHE_CAP as nat,
            forall|k: EventKind| #[trigger] p.bucket(k) == Seq::<SinkChannel>::empty(),
    {
        Puppet {
            puppet_impl,
            inner: PuppetInner::new(),
            cache_contact_payload: PayloadCache::new(DEFAULT_CONTACT_CACHE_CAP),
            cache_friendship_payload: PayloadCache::new(DEFAULT_FRIENDSHIP_CACHE_CAP),
            cache_message_payload: PayloadCache::new(DEFAULT_MESSAGE_CACHE_CAP),
            cache_room_payload: PayloadCache::new(DEFAULT_ROOM_CACHE_CAP),
            cache_room_member_payload: PayloadCache::new(DEFAULT_ROOM_MEMBER_CACHE_CAP),
            cache_room_invitation_payload: PayloadCache::new(DEFAULT_ROOM_INVITATION_CACHE_CAP),
            id: None,
            fetches: Ghost(0),
            calls: Ghost(Seq::empty()),
        }
    }

    /// The authenticated identity, if any.
    pub fn self_id(self) -> (r: Option<String>)
        ensures
            r == self.self_id_spec(),
    {
        self.id
    }

    /// Whether an identity is currently authenticated.
    pub fn log_on_off(self) -> (r: bool)
        ensures
            r == (self.self_id_spec() is Some),
    {
        match self.id {
            Some(_) => true,
            None => false,
        }
    }

    /// Registers a named sink for one event kind; unknown kind names are
    /// dropped silently.
    pub fn subscribe(&mut self, msg: Subscribe)
        requires
            old(self).wf(),
        ensures
            final(self).wf(),
            Self::same_but_registry(*old(self), *final(self)),
            match spec_parse_event_kind(msg.event_name@) {
                None => final(self).registry() == old(self).registry(),
                Some(k) => upserted(old(self).bucket(k), final(self).bucket(k), msg.name@)
                    && forall|k2: EventKind|
                        k2 != k ==> #[trigger] final(self).bucket(k2) == old(self).bucket(k2),
            },
    {
        self.inner.subscribe(msg.event_name, msg.name);
    }

    /// Removes a named sink of one event kind; unknown kind names are
    /// dropped silently.
    pub fn unsubscribe(&mut self, msg: UnSubscribe)
        requires
            old(self).wf(),
        ensures
            final(self).wf(),
            Self::same_but_registry(*old(self), *final(self)),
            match spec_parse_event_kind(msg.event_name@) {
                None => final(self).registry() == old(self).registry(),
                Some(k) => unsubscribed(old(self).bucket(k), final(self).bucket(k), msg.name@)
                    && !has_sink(final(self).bucket(k), msg.name@)
                    && forall|k2: EventKind|
                        k2 != k ==> #[trigger] final(self).bucket(k2) == old(self).bucket(k2),
            },
    {
        self.inner.unsubscribe(msg.event_name, &msg.name);
    }

    /// Fans a raw domain event out to every sink registered under its kind:
    /// each of their queues gets a copy appended, independently.
    pub fn notify(&mut self, event: &PuppetEvent)
        requires
            old(self).wf(),
        ensures
            final(self).wf(),
            Self::same_but_registry(*old(self), *final(self)),
            match spec_event_kind(*event) {
                None => final(self).registry() == old(self).registry(),
                Some(k) => all_queues_extended(old(self).bucket(k), final(self).bucket(k), *event)
                    && forall|k2: EventKind|
                        k2 != k ==> #[trigger] final(self).bucket(k2) == old(self).bucket(k2),
            },
    {
        self.inner.handle(event);
    }

    /// Drains the queue of one named sink: the events it was sent, in
    /// dispatch order.
    pub fn take_events(&mut self, event_name: &str, name: &String) -> (r: Vec<PuppetEvent>)
        requires
            old(self).wf(),
        ensures
            final(self).wf(),
            Self::same_but_registry(*old(self), *final(self)),
            match spec_parse_event_kind(event_name@) {
                None => final(self).registry() == old(self).registry() && r@ == Seq::<
                    PuppetEvent,
                >::empty(),
                Some(k) => {
                    &&& drained(old(self).bucket(k), final(self).bucket(k), name@)
                    &&& (has_sink(old(self).bucket(k), name@) ==> r@ == sink_queue(
                        old(self).bucket(k),
                        name@,
                    ))
                    &&& (!has_sink(old(self).bucket(k), name@) ==> r@ == Seq::<
                        PuppetEvent,
                    >::empty())
                    &&& forall|k2: EventKind|
                        k2 != k ==> #[trigger] final(self).bucket(k2) == old(self).bucket(k2)
                },
            },
    {
        self.inner.take_events(event_name, name)
    }
    /// Records the outcome of one backend fetch for a contact: a success
    /// is inserted into the cache and handed back, a failure is handed back
    /// with the cache untouched.
    pub fn store_contact_fetch(
        &mut self,
        contact_id: &String,
        fetched: Result<ContactPayload, PuppetError>,
    ) -> (r: Result<ContactPayload, PuppetError>)
        requires
            old(self).wf(),
        ensures
            final(self).wf(),
            Self::same_but_contact_cache(*old(self), *final(self)),
            final(self).call_log() == old(self).call_log(),
            final(self).fetch_count() == old(self).fetch_count(),
            final(self).contact_cache().limit() == old(self).contact_cache().limit(),
            r == fetched,
            (fetched matches Ok(p) ==> final(self).contact_cache().entries() == insert_front(
                old(self).contact_cache().entries(),
                old(self).contact_cache().limit(),
                contact_id@,
                Payload::Contact(p),
            )),
            fetched is Err ==> final(self).contact_cache() == old(self).contact_cache(),
    {
        match fetched {
            Ok(p) => {
                let copy = clone_contact_payload(&p);
                proof {
                    lemma_insert_front_tagged(
                        self.cache_contact_payload.entries(),
                        self.cache_contact_payload.limit(),
                        contact_id@,
                        Payload::Contact(copy),
                        0,
                    );
                }
                self.cache_contact_payload.put(contact_id.clone(), Payload::Contact(copy));
                Ok(p)
            },
            Err(e) => Err(e),
        }
    }

    /// The contact payload for an id. A cache hit is returned as stored,
    /// with no backend round trip, refreshing its recency; a miss costs
    /// exactly one backend fetch, whose success is cached and returned and
    /// whose failure is propagated with the cache left unchanged.
    pub fn contact_payload(&mut self, contact_id: String) -> (r: Result<ContactPayload, PuppetError>)
        requires
            old(self).wf(),
        ensures
            final(self).wf(),
            Self::same_but_contact_cache(*old(self), *final(self)),
            final(self).call_log() == old(self).call_log(),
            final(self).contact_cache().limit() == old(self).contact_cache().limit(),
            old(self).contact_cache().has(contact_id@) ==> {
                &&& final(self).fetch_count() == old(self).fetch_count()
                &&& r == Ok::<ContactPayload, PuppetError>(
                    old(self).contact_cache().value(contact_id@)->Contact_0,
                )
                &&& final(self).contact_cache().entries() == promote(
                    old(self).contact_cache().entries(),
                    contact_id@,
                )
            },
            !old(self).contact_cache().has(contact_id@) ==> {
                &&& final(self).fetch_count() == old(self).fetch_count() + 1
                &&& (r matches Ok(p) ==> final(self).contact_cache().entries() == insert_front(
                    old(self).contact_cache().entries(),
                    old(self).contact_cache().limit(),
                    contact_id@,
                    Payload::Contact(p),
                ))
                &&& (r is Err ==> final(self).contact_cache() == old(self).contact_cache())
            },
    {
        if self.cache_contact_payload.contains(&contact_id) {
            let ghost e0 = self.cache_contact_payload.entries();
            let got = self.cache_contact_payload.get(&contact_id);
            proof {
                lemma_promote_tagged(e0, contact_id@, 0);
                lemma_idx_of(e0, contact_id@);
            }
            match got {
                Some(p) => {
                    match p {
                        Payload::Contact(c) => Ok(c),
                        _ => {
                            proof {
                                assert(false);
                            }
                            Err(PuppetError::Network)
                        },
                    }
                },
                None => {
                    proof {
                        assert(false);
                    }
                    Err(PuppetError::Network)
                },
            }
        } else {
            self.fetches = Ghost(self.fetches@ + 1);
            let fetched = self.puppet_impl.contact_raw_payload(contact_id.clone());
            self.store_contact_fetch(&contact_id, fetched)
        }
    }

    /// Records the outcome of one backend fetch for a message: a success
    /// is inserted into the cache and handed back, a failure is handed back
    /// with the cache untouched.
    pub fn store_message_fetch(
        &mut self,
        message_id: &String,
        fetched: Result<MessagePayload, PuppetError>,
    ) -> (r: Result<MessagePayload, PuppetError>)
        requires
            old(self).wf(),
        ensures
            final(self).wf(),
            Self::same_but_message_cache(*old(self), *final(self)),
            final(self).call_log() == old(self).call_log(),
            final(self).fetch_count() == old(self).fetch_count(),
            final(self).message_cache().limit() == old(self).message_cache().limit(),
            r == fetched,
            (fetched matches Ok(p) ==> final(self).message_cache().entries() == insert_front(
                old(self).message_cache().entries(),
                old(self).message_cache().limit(),
                message_id@,
                Payload::Message(p),
            )),
            fetched is Err ==> final(self).message_cache() == old(self).message_cache(),
    {
        match fetched {
            Ok(p) => {
                let copy = clone_message_payload(&p);
                proof {
                    lemma_insert_front_tagged(
                        self.cache_message_payload.entries(),
                        self.cache_message_payload.limit(),
                        message_id@,
                        Payload::Message(copy),
                        1,
                    );
                }
                self.cache_message_payload.put(message_id.clone(), Payload::Message(copy));
                Ok(p)
            },
            Err(e) => Err(e),
        }
    }

    /// The message payload for an id. A cache hit is returned as stored,
    /// with no backend round trip, refreshing its recency; a miss costs
    /// exactly one backend fetch, whose success is cached and returned and
    /// whose failure is propagated with the cache left unchanged.
    pub fn message_payload(&mut self, message_id: String) -> (r: Result<MessagePayload, PuppetError>)
        requires
            old(self).wf(),
        ensures
            final(self).wf(),
            Self::same_but_message_cache(*old(self), *final(self)),
            final(self).call_log() == old(self).call_log(),
            final(self).message_cache().limit() == old(self).message_cache().limit(),
            old(self).message_cache().has(message_id@) ==> {
                &&& final(self).fetch_count() == old(self).fetch_count()
                &&& r == Ok::<MessagePayload, PuppetError>(
                    old(self).message_cache().value(message_id@)->Message_0,
                )
                &&& final(self).message_cache().entries() == promote(
                    old(self).message_cache().entries(),
                    message_id@,
                )
            },
            !old(self).message_cache().has(message_id@) ==> {
                &&& final(self).fetch_count() == old(self).fetch_count() + 1
                &&& (r matches Ok(p) ==> final(self).message_cache().entries() == insert_front(
                    old(self).message_cache().entries(),
                    old(self).message_cache().limit(),
                    message_id@,
                    Payload::Message(p),
                ))
                &&& (r is Err ==> final(self).message_cache() == old(self).message_cache())
            },
    {
        if self.cache_message_payload.contains(&message_id) {
            let ghost e0 = self.cache_message_payload.entries();
            let got = self.cache_message_payload.get(&message_id);
            proof {
                lemma_promote_tagged(e0, message_id@, 1);
                lemma_idx_of(e0, message_id@);
            }
            match got {
                Some(p) => {
                    match p {
                        Payload::Message(c) => Ok(c),
                        _ => {
                            proof {
                                assert(false);
                            }
                            Err(PuppetError::Network)
                        },
                    }
                },
                None => {
                    proof {
                        assert(false);
                    }
                    Err(PuppetError::Network)
                },
            }
        } else {
            self.fetches = Ghost(self.fetches@ + 1);
            let fetched = self.puppet_impl.message_raw_payload(message_id.clone());
            self.store_message_fetch(&message_id, fetched)
        }
    }

    /// Records the outcome of one backend fetch for a room: a success
    /// is inserted into the cache and handed back, a failure is handed back
    /// with the cache untouched.
    pub fn store_room_fetch(
        &mut self,
        room_id: &String,
        fetched: Result<RoomPayload, PuppetError>,
    ) -> (r: Result<RoomPayload, PuppetError>)
        requires
            old(self).wf(),
        ensures
            final(self).wf(),
            Self::same_but_room_cache(*old(self), *final(self)),
            final(self).call_log() == old(self).call_log(),
            final(self).fetch_count() == old(self).fetch_count(),
            final(self).room_cache().limit() == old(self).room_cache().limit(),
            r == fetched,
            (fetched matches Ok(p) ==> final(self).room_cache().entries() == insert_front(
                old(self).room_cache().entries(),
                old(self).room_cache().limit(),
                room_id@,
                Payload::Room(p),
            )),
            fetched is Err ==> final(self).room_cache() == old(self).room_cache(),
    {
        match fetched {
            Ok(p) => {
                let copy = clone_room_payload(&p);
                proof {
                    lemma_insert_front_tagged(
                        self.cache_room_payload.entries(),
                        self.cache_room_payload.limit(),
                        room_id@,
                        Payload::Room(copy),
                        2,
                    );
                }
                self.cache_room_payload.put(room_id.clone(), Payload::Room(copy));
                Ok(p)
            },
            Err(e) => Err(e),
        }
    }

    /// The room payload for an id. A cache hit is returned as stored,
    /// with no backend round trip, refreshing its recency; a miss costs
    /// exactly one backend fetch, whose success is cached and returned and
    /// whose failure is propagated with the cache left unchanged.
    pub fn room_payload(&mut self, room_id: String) -> (r: Result<RoomPayload, PuppetError>)
        requires
            old(self).wf(),
        ensures
            final(self).wf(),
            Self::same_but_room_cache(*old(self), *final(self)),
            final(self).call_log() == old(self).call_log(),
            final(self).room_cache().limit() == old(self).room_cache().limit(),
            old(self).room_cache().has(room_id@) ==> {
                &&& final(self).fetch_count() == old(self).fetch_count()
                &&& r == Ok::<RoomPayload, PuppetError>(
                    old(self).room_cache().value(room_id@)->Room_0,
                )
                &&& final(self).room_cache().entries() == promote(
                    old(self).room_cache().entries(),
                    room_id@,
                )
            },
            !old(self).room_cache().has(room_id@) ==> {
                &&& final(self).fetch_count() == old(self).fetch_count() + 1
                &&& (r matches Ok(p) ==> final(self).room_cache().entries() == insert_front(
                    old(self).room_cache().entries(),
                    old(self).room_cache().limit(),
                    room_id@,
                    Payload::Room(p),
                ))
                &&& (r is Err ==> final(self).room_cache() == old(self).room_cache())
            },
    {
        if self.cache_room_payload.contains(&room_id) {
            let ghost e0 = self.cache_room_payload.entries();
            let got = self.cache_room_payload.get(&room_id);
            proof {
                lemma_promote_tagged(e0, room_id@, 2);
                lemma_idx_of(e0, room_id@);
            }
            match got {
                Some(p) => {
                    match p {
                        Payload::Room(c) => Ok(c),
                        _ => {
                            proof {
                                assert(false);
                            }
                            Err(PuppetError::Network)
                        },
                    }
                },
                None => {
                    proof {
                        assert(false);
                    }
                    Err(PuppetError::Network)
                },
            }
        } else {
            self.fetches = Ghost(self.fetches@ + 1);
            let fetched = self.puppet_impl.room_raw_payload(room_id.clone());
            self.store_room_fetch(&room_id, fetched)
        }
    }

    /// Records the outcome of one backend fetch for a friendship: a success
    /// is inserted into the cache and handed back, a failure is handed back
    /// with the cache untouched.
    pub fn store_friendship_fetch(
        &mut self,
        friendship_id: &String,
        fetched: Result<FriendshipPayload, PuppetError>,
    ) -> (r: Result<FriendshipPayload, PuppetError>)
        requires
            old(self).wf(),
        ensures
            final(self).wf(),
            Self::same_but_friendship_cache(*old(self), *final(self)),
            final(self).call_log() == old(self).call_log(),
            final(self).fetch_count() == old(self).fetch_count(),
            final(self).friendship_cache().limit() == old(self).friendship_cache().limit(),
            r == fetched,
            (fetched matches Ok(p) ==> final(self).friendship_cache().entries() == insert_front(
                old(self).friendship_cache().entries(),
                old(self).friendship_cache().limit(),
                friendship_id@,
                Payload::Friendship(p),
            )),
            fetched is Err ==> final(self).friendship_cache() == old(self).friendship_cache(),
    {
        match fetched {
            Ok(p) => {
                let copy = clone_friendship_payload(&p);
                proof {
                    lemma_insert_front_tagged(
                        self.cache_friendship_payload.entries(),
                        self.cache_friendship_payload.limit(),
                        friendship_id@,
                        Payload::Friendship(copy),
                        4,
                    );
                }
                self.cache_friendship_payload.put(friendship_id.clone(), Payload::Friendship(copy));
                Ok(p)
            },
            Err(e) => Err(e),
        }
    }

    /// The friendship payload for an id. A cache hit is returned as stored,
    /// with no backend round trip, refreshing its recency; a miss costs
    /// exactly one backend fetch, whose success is cached and returned and
    /// whose failure is propagated with the cache left unchanged.
    pub fn friendship_payload(&mut self, friendship_id: String) -> (r: Result<FriendshipPayload, PuppetError>)
        requires
            old(self).wf(),
        ensures
            final(self).wf(),
            Self::same_but_friendship_cache(*old(self), *final(self)),
            final(self).call_log() == old(self).call_log(),
            final(self).friendship_cache().limit() == old(self).friendship_cache().limit(),
            old(self).friendship_cache().has(friendship_id@) ==> {
                &&& final(self).fetch_count() == old(self).fetch_count()
                &&& r == Ok::<FriendshipPayload, PuppetError>(
                    old(self).friendship_cache().value(friendship_id@)->Friendship_0,
                )
                &&& final(self).friendship_cache().entries() == promote(
                    old(self).friendship_cache().entries(),
                    friendship_id@,
                )
            },
            !old(self).friendship_cache().has(friendship_id@) ==> {
                &&& final(self).fetch_count() == old(self).fetch_count() + 1
                &&& (r matches Ok(p) ==> final(self).friendship_cache().entries() == insert_front(
                    old(self).friendship_cache().entries(),
                    old(self).friendship_cache().limit(),
                    friendship_id@,
                    Payload::Friendship(p),
                ))
                &&& (r is Err ==> final(self).friendship_cache() == old(self).friendship_cache())
            },
    {
        if self.cache_friendship_payload.contains(&friendship_id) {
            let ghost e0 = self.cache_friendship_payload.entries();
            let got = self.cache_friendship_payload.get(&friendship_id);
            proof {
                lemma_promote_tagged(e0, friendship_id@, 4);
                lemma_idx_of(e0, friendship_id@);
            }
            match got {
                Some(p) => {
                    match p {
                        Payload::Friendship(c) => Ok(c),
                        _ => {
                            proof {
                                assert(false);
                            }
                            Err(PuppetError::Network)
                        },
                    }
                },
                None => {
                    proof {
                        assert(false);
                    }
                    Err(PuppetError::Network)
                },
            }
        } else {
            self.fetches = Ghost(self.fetches@ + 1);
            let fetched = self.puppet_impl.friendship_raw_payload(friendship_id.clone());
            self.store_friendship_fetch(&friendship_id, fetched)
        }
    }

    /// Records the outcome of one backend fetch for a room invitation: a success
    /// is inserted into the cache and handed back, a failure is handed back
    /// with the cache untouched.
    pub fn store_room_invitation_fetch(
        &mut self,
        room_invitation_id: &String,
        fetched: Result<RoomInvitationPayload, PuppetError>,
    ) -> (r: Result<RoomInvitationPayload, PuppetError>)
        requires
            old(self).wf(),
        ensures
            final(self).wf(),
            Self::same_but_room_invitation_cache(*old(self), *final(self)),
            final(self).call_log() == old(self).call_log(),
            final(self).fetch_count() == old(self).fetch_count(),
            final(self).room_invitation_cache().limit() == old(self).room_invitation_cache().limit(),
            r == fetched,
            (fetched matches Ok(p) ==> final(self).room_invitation_cache().entries() == insert_front(
                old(self).room_invitation_cache().entries(),
                old(self).room_invitation_cache().limit(),
                room_invitation_id@,
                Payload::RoomInvitation(p),
            )),
            fetched is Err ==> final(self).room_invitation_cache() == old(self).room_invitation_cache(),
    {
        match fetched {
            Ok(p) => {
                let copy = clone_room_invitation_payload(&p);
                proof {
                    lemma_insert_front_tagged(
                        self.cache_room_invitation_payload.entries(),
                        self.cache_room_invitation_payload.limit(),
                        room_invitation_id@,
                        Payload::RoomInvitation(copy),
                        5,
                    );
                }
                self.cache_room_invitation_payload.put(room_invitation_id.clone(), Payload::RoomInvitation(copy));
                Ok(p)
            },
            Err(e) => Err(e),
        }
    }

    /// The room invitation payload for an id. A cache hit is returned as stored,
    /// with no backend round trip, refreshing its recency; a miss costs
    /// exactly one backend fetch, whose success is cached and returned and
    /// whose failure is propagated with the cache left unchanged.
    pub fn room_invitation_payload(&mut self, room_invitation_id: String) -> (r: Result<RoomInvitationPayload, PuppetError>)
        requires
            old(self).wf(),
        ensures
            final(self).wf(),
            Self::same_but_room_invitation_cache(*old(self), *final(self)),
            final(self).call_log() == old(self).call_log(),
            final(self).room_invitation_cache().limit() == old(self).room_invitation_cache().limit(),
            old(self).room_invitation_cache().has(room_invitation_id@) ==> {
                &&& final(self).fetch_count() == old(self).fetch_count()
                &&& r == Ok::<RoomInvitationPayload, PuppetError>(
                    old(self).room_invitation_cache().value(room_invitation_id@)->RoomInvitation_0,
                )
                &&& final(self).room_invitation_cache().entries() == promote(
                    old(self).room_invitation_cache().entries(),
                    room_invitation_id@,
                )
            },
            !old(self).room_invitation_cache().has(room_invitation_id@) ==> {
                &&& final(self).fetch_count() == old(self).fetch_count() + 1
                &&& (r matches Ok(p) ==> final(self).room_invitation_cache().entries() == insert_front(
                    old(self).room_invitation_cache().entries(),
                    old(self).room_invitation_cache().limit(),
                    room_invitation_id@,
                    Payload::RoomInvitation(p),
                ))
                &&& (r is Err ==> final(self).room_invitation_cache() == old(self).room_invitation_cache())
            },
    {
        if self.cache_room_invitation_payload.contains(&room_invitation_id) {
            let ghost e0 = self.cache_room_invitation_payload.entries();
            let got = self.cache_room_invitation_payload.get(&room_invitation_id);
            proof {
                lemma_promote_tagged(e0, room_invitation_id@, 5);
                lemma_idx_of(e0, room_invitation_id@);
            }
            match got {
                Some(p) => {
                    match p {
                        Payload::RoomInvitation(c) => Ok(c),
                        _ => {
                            proof {
                                assert(false);
                            }
                            Err(PuppetError::Network)
                        },
                    }
                },
                None => {
                    proof {
                        assert(false);
                    }
                    Err(PuppetError::Network)
                },
            }
        } else {
            self.fetches = Ghost(self.fetches@ + 1);
            let fetched = self.puppet_impl.room_invitation_raw_payload(room_invitation_id.clone());
            self.store_room_invitation_fetch(&room_invitation_id, fetched)
        }
    }

    /// Records the outcome of one backend fetch for a room member under its
    /// composite key: a success is inserted into the cache and handed back,
    /// a failure is handed back with the cache untouched.
    pub fn store_room_member_fetch(
        &mut self,
        cache_key: &String,
        fetched: Result<RoomMemberPayload, PuppetError>,
    ) -> (r: Result<RoomMemberPayload, PuppetError>)
        requires
            old(self).wf(),
        ensures
            final(self).wf(),
            Self::same_but_room_member_cache(*old(self), *final(self)),
            final(self).call_log() == old(self).call_log(),
            final(self).fetch_count() == old(self).fetch_count(),
            final(self).room_member_cache().limit() == old(self).room_member_cache().limit(),
            r == fetched,
            (fetched matches Ok(p) ==> final(self).room_member_cache().entries() == insert_front(
                old(self).room_member_cache().entries(),
                old(self).room_member_cache().limit(),
                cache_key@,
                Payload::RoomMember(p),
            )),
            fetched is Err ==> final(self).room_member_cache() == old(self).room_member_cache(),
    {
        match fetched {
            Ok(p) => {
                let copy = clone_room_member_payload(&p);
                proof {
                    lemma_insert_front_tagged(
                        self.cache_room_member_payload.entries(),
                        self.cache_room_member_payload.limit(),
                        cache_key@,
                        Payload::RoomMember(copy),
                        3,
                    );
                }
                self.cache_room_member_payload.put(cache_key.clone(), Payload::RoomMember(copy));
                Ok(p)
            },
            Err(e) => Err(e),
        }
    }

    /// The room-member payload for a contact within a room, cached under
    /// the composite key. A cache hit is returned as stored with no backend
    /// round trip; a miss costs exactly one backend fetch, whose success is
    /// cached and returned and whose failure is propagated with the cache
    /// left unchanged.
    pub fn room_member_payload(&mut self, room_id: String, member_id: String) -> (r: Result<
        RoomMemberPayload,
        PuppetError,
    >)
        requires
            old(self).wf(),
        ensures
            final(self).wf(),
            Self::same_but_room_member_cache(*old(self), *final(self)),
            final(self).call_log() == old(self).call_log(),
            final(self).room_member_cache().limit() == old(self).room_member_cache().limit(),
            old(self).room_member_cache().has(spec_room_member_key(member_id@, room_id@)) ==> {
                &&& final(self).fetch_count() == old(self).fetch_count()
                &&& r == Ok::<RoomMemberPayload, PuppetError>(
                    old(self).room_member_cache().value(
                        spec_room_member_key(member_id@, room_id@),
                    )->RoomMember_0,
                )
                &&& final(self).room_member_cache().entries() == promote(
                    old(self).room_member_cache().entries(),
                    spec_room_member_key(member_id@, room_id@),
                )
            },
            !old(self).room_member_cache().has(spec_room_member_key(member_id@, room_id@)) ==> {
                &&& final(self).fetch_count() == old(self).fetch_count() + 1
                &&& (r matches Ok(p) ==> final(self).room_member_cache().entries() == insert_front(
                    old(self).room_member_cache().entries(),
                    old(self).room_member_cache().limit(),
                    spec_room_member_key(member_id@, room_id@),
                    Payload::RoomMember(p),
                ))
                &&& (r is Err ==> final(self).room_member_cache() == old(self).room_member_cache())
            },
    {
        let cache_key = cache_key_room_member(&room_id, &member_id);
        if self.cache_room_member_payload.contains(&cache_key) {
            let ghost e0 = self.cache_room_member_payload.entries();
            let got = self.cache_room_member_payload.get(&cache_key);
            proof {
                lemma_promote_tagged(e0, cache_key@, 3);
                lemma_idx_of(e0, cache_key@);
            }
            match got {
                Some(p) => {
                    match p {
                        Payload::RoomMember(c) => Ok(c),
                        _ => {
                            proof {
                                assert(false);
                            }
                            Err(PuppetError::Network)
                        },
                    }
                },
                None => {
                    proof {
                        assert(false);
                    }
                    Err(PuppetError::Network)
                },
            }
        } else {
            self.fetches = Ghost(self.fetches@ + 1);
            let fetched = self.puppet_impl.room_member_raw_payload(
                room_id.clone(),
                member_id.clone(),
            );
            self.store_room_member_fetch(&cache_key, fetched)
        }
    }

    /// Overwrites the cached friendship payload, as after an accepted
    /// friendship updates its snapshot.
    pub fn friendship_payload_set(
        &mut self,
        friendship_id: String,
        new_payload: FriendshipPayload,
    ) -> (r: Result<(), PuppetError>)
        requires
            old(self).wf(),
        ensures
            final(self).wf(),
            Self::same_but_friendship_cache(*old(self), *final(self)),
            final(self).call_log() == old(self).call_log(),
            final(self).fetch_count() == old(self).fetch_count(),
            final(self).friendship_cache().limit() == old(self).friendship_cache().limit(),
            r == Ok::<(), PuppetError>(()),
            final(self).friendship_cache().entries() == insert_front(
                old(self).friendship_cache().entries(),
                old(self).friendship_cache().limit(),
                friendship_id@,
                Payload::Friendship(new_payload),
            ),
    {
        proof {
            lemma_insert_front_tagged(
                self.cache_friendship_payload.entries(),
                self.cache_friendship_payload.limit(),
                friendship_id@,
                Payload::Friendship(new_payload),
                4,
            );
        }
        self.cache_friendship_payload.put(friendship_id, Payload::Friendship(new_payload));
        Ok(())
    }

    /// Overwrites the cached room-invitation payload.
    pub fn room_invitation_payload_set(
        &mut self,
        room_invitation_id: String,
        new_payload: RoomInvitationPayload,
    ) -> (r: Result<(), PuppetError>)
        requires
            old(self).wf(),
        ensures
            final(self).wf(),
            Self::same_but_room_invitation_cache(*old(self), *final(self)),
            final(self).call_log() == old(self).call_log(),
            final(self).fetch_count() == old(self).fetch_count(),
            final(self).room_invitation_cache().limit() == old(self).room_invitation_cache().limit(),
            r == Ok::<(), PuppetError>(()),
            final(self).room_invitation_cache().entries() == insert_front(
                old(self).room_invitation_cache().entries(),
                old(self).room_invitation_cache().limit(),
                room_invitation_id@,
                Payload::RoomInvitation(new_payload),
            ),
    {
        proof {
            lemma_insert_front_tagged(
                self.cache_room_invitation_payload.entries(),
                self.cache_room_invitation_payload.limit(),
                room_invitation_id@,
                Payload::RoomInvitation(new_payload),
                5,
            );
        }
        self.cache_room_invitation_payload.put(
            room_invitation_id,
            Payload::RoomInvitation(new_payload),
        );
        Ok(())
    }

    /// The ids of the messages currently resident in the cache, most
    /// recently used first. There is no remote list-all-messages call, so
    /// this is the whole universe a message search can see.
    pub fn message_list(&self) -> (r: Vec<String>)
        ensures
            r.deep_view() == self.message_cache().entries().map_values(
                |kv: (Seq<char>, Payload)| kv.0,
            ),
    {
        self.cache_message_payload.key_list()
    }


    /// Invalidates one message: the next read goes to the backend.
    fn dirty_payload_message(&mut self, message_id: String) -> (r: Result<(), PuppetError>)
        requires
            old(self).wf(),
        ensures
            final(self).wf(),
            Self::same_but_message_cache(*old(self), *final(self)),
            final(self).call_log() == old(self).call_log(),
            final(self).fetch_count() == old(self).fetch_count(),
            final(self).message_cache().limit() == old(self).message_cache().limit(),
            r == Ok::<(), PuppetError>(()),
            final(self).message_cache().entries() == remove_key(
                old(self).message_cache().entries(),
                message_id@,
            ),
    {
        proof {
            lemma_remove_key_tagged(self.cache_message_payload.entries(), message_id@, 1);
        }
        self.cache_message_payload.pop(&message_id);
        Ok(())
    }

    /// Invalidates one contact: the next read goes to the backend.
    fn dirty_payload_contact(&mut self, contact_id: String) -> (r: Result<(), PuppetError>)
        requires
            old(self).wf(),
        ensures
            final(self).wf(),
            Self::same_but_contact_cache(*old(self), *final(self)),
            final(self).call_log() == old(self).call_log(),
            final(self).fetch_count() == old(self).fetch_count(),
            final(self).contact_cache().limit() == old(self).contact_cache().limit(),
            r == Ok::<(), PuppetError>(()),
            final(self).contact_cache().entries() == remove_key(
                old(self).contact_cache().entries(),
                contact_id@,
            ),
    {
        proof {
            lemma_remove_key_tagged(self.cache_contact_payload.entries(), contact_id@, 0);
        }
        self.cache_contact_payload.pop(&contact_id);
        Ok(())
    }

    /// Invalidates one room: the next read goes to the backend.
    fn dirty_payload_room(&mut self, room_id: String) -> (r: Result<(), PuppetError>)
        requires
            old(self).wf(),
        ensures
            final(self).wf(),
            Self::same_but_room_cache(*old(self), *final(self)),
            final(self).call_log() == old(self).call_log(),
            final(self).fetch_count() == old(self).fetch_count(),
            final(self).room_cache().limit() == old(self).room_cache().limit(),
            r == Ok::<(), PuppetError>(()),
            final(self).room_cache().entries() == remove_key(
                old(self).room_cache().entries(),
                room_id@,
            ),
    {
        proof {
            lemma_remove_key_tagged(self.cache_room_payload.entries(), room_id@, 2);
        }
        self.cache_room_payload.pop(&room_id);
        Ok(())
    }

    /// Invalidates one friendship: the next read goes to the backend.
    fn dirty_payload_friendship(&mut self, friendship_id: String) -> (r: Result<(), PuppetError>)
        requires
            old(self).wf(),
        ensures
            final(self).wf(),
            Self::same_but_friendship_cache(*old(self), *final(self)),
            final(self).call_log() == old(self).call_log(),
            final(self).fetch_count() == old(self).fetch_count(),
            final(self).friendship_cache().limit() == old(self).friendship_cache().limit(),
            r == Ok::<(), PuppetError>(()),
            final(self).friendship_cache().entries() == remove_key(
                old(self).friendship_cache().entries(),
                friendship_id@,
            ),
    {
        proof {
            lemma_remove_key_tagged(self.cache_friendship_payload.entries(), friendship_id@, 4);
        }
        self.cache_friendship_payload.pop(&friendship_id);
        Ok(())
    }

    /// Evicts the composite room-member entries of the listed members of a
    /// room, one by one, in list order.
    pub fn evict_room_members(&mut self, room_id: &String, member_ids: &Vec<String>)
        requires
            old(self).wf(),
        ensures
            final(self).wf(),
            Self::same_but_room_member_cache(*old(self), *final(self)),
            final(self).call_log() == old(self).call_log(),
            final(self).fetch_count() == old(self).fetch_count(),
            final(self).room_member_cache().limit() == old(self).room_member_cache().limit(),
            final(self).room_member_cache().entries() == spec_evict_members(
                old(self).room_member_cache().entries(),
                room_id@,
                member_ids.deep_view(),
            ),
    {
        let ghost all_ids = member_ids.deep_view();
        let mut i: usize = 0;
        while i < member_ids.len()
            invariant
                old(self).wf(),
                self.wf(),
                Self::same_but_room_member_cache(*old(self), *self),
                self.fetch_count() == old(self).fetch_count(),
                self.call_log() == old(self).call_log(),
                self.room_member_cache().limit() == old(self).room_member_cache().limit(),
                0 <= i <= member_ids.len(),
                all_ids == member_ids.deep_view(),
                all_ids.len() == member_ids.len(),
                self.room_member_cache().entries() == spec_evict_members(
                    old(self).room_member_cache().entries(),
                    room_id@,
                    all_ids.take(i as int),
                ),
            decreases member_ids.len() - i,
        {
            let key = cache_key_room_member(room_id, &member_ids[i]);
            proof {
                lemma_remove_key_tagged(self.cache_room_member_payload.entries(), key@, 3);
            }
            self.cache_room_member_payload.pop(&key);
            proof {
                assert(all_ids[i as int] == member_ids[i as int]@);
                lemma_evict_members_snoc(
                    old(self).room_member_cache().entries(),
                    room_id@,
                    all_ids.take(i as int),
                    all_ids[i as int],
                );
                assert(all_ids.take(i as int).push(all_ids[i as int]) =~= all_ids.take(
                    i as int + 1,
                ));
            }
            i += 1;
        }
        proof {
            assert(all_ids.take(member_ids.len() as int) =~= all_ids);
        }
    }

    /// Invalidates the room-member entries of a room, transitively: lists
    /// the room's current member ids from the backend and evicts each
    /// composite entry, in list order. A failed list call is propagated
    /// and nothing is evicted.
    fn dirty_payload_room_member(&mut self, room_id: String) -> (r: Result<(), PuppetError>)
        requires
            old(self).wf(),
        ensures
            final(self).wf(),
            Self::same_but_room_member_cache(*old(self), *final(self)),
            final(self).fetch_count() == old(self).fetch_count(),
            final(self).room_member_cache().limit() == old(self).room_member_cache().limit(),
            r matches Err(e) ==> final(self).call_log() == old(self).call_log().push(
                BackendOp::RoomMemberList { room_id: room_id@, outcome: Err(e) },
            ) && final(self).room_member_cache() == old(self).room_member_cache(),
            r is Ok ==> exists|ids: Seq<Seq<char>>|
                {
                    &&& #[trigger] final(self).call_log() == old(self).call_log().push(
                        BackendOp::RoomMemberList { room_id: room_id@, outcome: Ok(ids) },
                    )
                    &&& final(self).room_member_cache().entries() == spec_evict_members(
                        old(self).room_member_cache().entries(),
                        room_id@,
                        ids,
                    )
                },
    {
        let listed = self.room_member_list(room_id.clone());
        match listed {
            Ok(contact_id_list) => {
                self.evict_room_members(&room_id, &contact_id_list);
                proof {
                    let ids = contact_id_list.deep_view();
                    assert(final(self).call_log() == old(self).call_log().push(
                        BackendOp::RoomMemberList { room_id: room_id@, outcome: Ok(ids) },
                    ));
                }
                Ok(())
            },
            Err(e) => Err(e),
        }
    }

    /// Invalidates the payload of the given kind and id, so that the next
    /// read re-hydrates from the backend. Room-member dirtying is
    /// transitive through a backend member-list call, whose failure is
    /// propagated; an unknown payload kind is an error.
    pub fn dirty_payload(&mut self, payload_type: PayloadType, id: String) -> (r: Result<
        (),
        PuppetError,
    >)
        requires
            old(self).wf(),
        ensures
            final(self).wf(),
            final(self).fetch_count() == old(self).fetch_count(),
            final(self).registry() == old(self).registry(),
            final(self).self_id_spec() == old(self).self_id_spec(),
            final(self).contact_cache().limit() == old(self).contact_cache().limit(),
            final(self).message_cache().limit() == old(self).message_cache().limit(),
            final(self).room_cache().limit() == old(self).room_cache().limit(),
            final(self).room_member_cache().limit() == old(self).room_member_cache().limit(),
            final(self).friendship_cache().limit() == old(self).friendship_cache().limit(),
            final(self).room_invitation_cache().limit() == old(self).room_invitation_cache().limit(),
            match payload_type {
                PayloadType::Message => {
                    &&& r == Ok::<(), PuppetError>(())
                    &&& final(self).call_log() == old(self).call_log()
                    &&& Self::same_but_message_cache(*old(self), *final(self))
                    &&& final(self).message_cache().entries() == remove_key(
                        old(self).message_cache().entries(),
                        id@,
                    )
                },
                PayloadType::Contact => {
                    &&& r == Ok::<(), PuppetError>(())
                    &&& final(self).call_log() == old(self).call_log()
                    &&& Self::same_but_contact_cache(*old(self), *final(self))
                    &&& final(self).contact_cache().entries() == remove_key(
                        old(self).contact_cache().entries(),
                        id@,
                    )
                },
                PayloadType::Room => {
                    &&& r == Ok::<(), PuppetError>(())
                    &&& final(self).call_log() == old(self).call_log()
                    &&& Self::same_but_room_cache(*old(self), *final(self))
                    &&& final(self).room_cache().entries() == remove_key(
                        old(self).room_cache().entries(),
                        id@,
                    )
                },
                PayloadType::RoomMember => {
                    &&& Self::same_but_room_member_cache(*old(self), *final(self))
                    &&& (r matches Err(e) ==> final(self).call_log() == old(self).call_log().push(
                        BackendOp::RoomMemberList { room_id: id@, outcome: Err(e) },
                    ) && final(self).room_member_cache() == old(self).room_member_cache())
                    &&& (r is Ok ==> exists|ids: Seq<Seq<char>>|
                        {
                            &&& #[trigger] final(self).call_log() == old(self).call_log().push(
                                BackendOp::RoomMemberList { room_id: id@, outcome: Ok(ids) },
                            )
                            &&& final(self).room_member_cache().entries() == spec_evict_members(
                                old(self).room_member_cache().entries(),
                                id@,
                                ids,
                            )
                        })
                },
                PayloadType::Friendship => {
                    &&& r == Ok::<(), PuppetError>(())
                    &&& final(self).call_log() == old(self).call_log()
                    &&& Self::same_but_friendship_cache(*old(self), *final(self))
                    &&& final(self).friendship_cache().entries() == remove_key(
                        old(self).friendship_cache().entries(),
                        id@,
                    )
                },
                PayloadType::Unknown => {
                    &&& r == Err::<(), PuppetError>(PuppetError::UnknownPayloadType)
                    &&& *final(self) == *old(self)
                },
            },
    {
        match payload_type {
            PayloadType::Message => self.dirty_payload_message(id),
            PayloadType::Contact => self.dirty_payload_contact(id),
            PayloadType::Room => self.dirty_payload_room(id),
            PayloadType::RoomMember => self.dirty_payload_room_member(id),
            PayloadType::Friendship => self.dirty_payload_friendship(id),
            PayloadType::Unknown => Err(PuppetError::UnknownPayloadType),
        }
    }



    /// Fetches a message's attachment through the backend, logging the
    /// call and whether it succeeded.
    fn call_message_file(&mut self, message_id: String) -> (r: Result<FileBox, PuppetError>)
        requires
            old(self).wf(),
        ensures
            final(self).wf(),
            Self::same_state(*old(self), *final(self)),
            final(self).call_log() == old(self).call_log().push(
                BackendOp::MessageFileFetch {
                    message_id: message_id@,
                    outcome: if r is Ok {
                        Ok(())
                    } else {
                        Err(r->Err_0)
                    },
                },
            ),
    {
        let ghost id = message_id@;
        let r = self.puppet_impl.message_file(message_id);
        self.calls = Ghost(
            self.calls@.push(
                BackendOp::MessageFileFetch {
                    message_id: id,
                    outcome: if r is Ok {
                        Ok(())
                    } else {
                        Err(r->Err_0)
                    },
                },
            ),
        );
        r
    }

    /// Fetches a message's mini-program payload through the backend,
    /// logging the call and its outcome.
    fn call_message_mini_program(&mut self, message_id: String) -> (r: Result<
        MiniProgramPayload,
        PuppetError,
    >)
        requires
            old(self).wf(),
        ensures
            final(self).wf(),
            Self::same_state(*old(self), *final(self)),
            final(self).call_log() == old(self).call_log().push(
                BackendOp::MessageMiniProgramFetch { message_id: message_id@, outcome: r },
            ),
    {
        let ghost id = message_id@;
        let r = self.puppet_impl.message_mini_program(message_id);
        self.calls = Ghost(
            self.calls@.push(BackendOp::MessageMiniProgramFetch { message_id: id, outcome: r }),
        );
        r
    }

    /// Fetches a message's link payload through the backend, logging the
    /// call and its outcome.
    fn call_message_url(&mut self, message_id: String) -> (r: Result<UrlLinkPayload, PuppetError>)
        requires
            old(self).wf(),
        ensures
            final(self).wf(),
            Self::same_state(*old(self), *final(self)),
            final(self).call_log() == old(self).call_log().push(
                BackendOp::MessageUrlFetch { message_id: message_id@, outcome: r },
            ),
    {
        let ghost id = message_id@;
        let r = self.puppet_impl.message_url(message_id);
        self.calls = Ghost(
            self.calls@.push(BackendOp::MessageUrlFetch { message_id: id, outcome: r }),
        );
        r
    }

    /// Fetches the contact a contact-card message carries, logging the
    /// call and its outcome.
    fn call_message_contact(&mut self, message_id: String) -> (r: Result<String, PuppetError>)
        requires
            old(self).wf(),
        ensures
            final(self).wf(),
            Self::same_state(*old(self), *final(self)),
            final(self).call_log() == old(self).call_log().push(
                BackendOp::MessageContactFetch {
                    message_id: message_id@,
                    outcome: if r is Ok {
                        Ok((r->Ok_0)@)
                    } else {
                        Err(r->Err_0)
                    },
                },
            ),
    {
        let ghost id = message_id@;
        let r = self.puppet_impl.message_contact(message_id);
        self.calls = Ghost(
            self.calls@.push(
                BackendOp::MessageContactFetch {
                    message_id: id,
                    outcome: if r is Ok {
                        Ok((r->Ok_0)@)
                    } else {
                        Err(r->Err_0)
                    },
                },
            ),
        );
        r
    }

    /// Sends a file to a conversation through the backend, logging the
    /// call and its outcome.
    fn call_message_send_file(&mut self, conversation_id: String, file: FileBox) -> (r: Result<
        Option<String>,
        PuppetError,
    >)
        requires
            old(self).wf(),
        ensures
            final(self).wf(),
            Self::same_state(*old(self), *final(self)),
            final(self).call_log() == old(self).call_log().push(
                BackendOp::SendFile { conversation_id: conversation_id@, outcome: r },
            ),
    {
        let ghost conv = conversation_id@;
        let r = self.puppet_impl.message_send_file(conversation_id, file);
        self.calls = Ghost(
            self.calls@.push(BackendOp::SendFile { conversation_id: conv, outcome: r }),
        );
        r
    }

    /// Sends a mini program to a conversation through the backend,
    /// logging the call, the payload handed over and the outcome.
    fn call_message_send_mini_program(
        &mut self,
        conversation_id: String,
        mini_program_payload: MiniProgramPayload,
    ) -> (r: Result<Option<String>, PuppetError>)
        requires
            old(self).wf(),
        ensures
            final(self).wf(),
            Self::same_state(*old(self), *final(self)),
            final(self).call_log() == old(self).call_log().push(
                BackendOp::SendMiniProgram {
                    conversation_id: conversation_id@,
                    payload: mini_program_payload,
                    outcome: r,
                },
            ),
    {
        let ghost conv = conversation_id@;
        let ghost mp = mini_program_payload;
        let r = self.puppet_impl.message_send_mini_program(conversation_id, mini_program_payload);
        self.calls = Ghost(
            self.calls@.push(
                BackendOp::SendMiniProgram { conversation_id: conv, payload: mp, outcome: r },
            ),
        );
        r
    }

    /// Sends a link to a conversation through the backend, logging the
    /// call, the payload handed over and the outcome.
    fn call_message_send_url(
        &mut self,
        conversation_id: String,
        url_link_payload: UrlLinkPayload,
    ) -> (r: Result<Option<String>, PuppetError>)
        requires
            old(self).wf(),
        ensures
            final(self).wf(),
            Self::same_state(*old(self), *final(self)),
            final(self).call_log() == old(self).call_log().push(
                BackendOp::SendUrl {
                    conversation_id: conversation_id@,
                    payload: url_link_payload,
                    outcome: r,
                },
            ),
    {
        let ghost conv = conversation_id@;
        let ghost link = url_link_payload;
        let r = self.puppet_impl.message_send_url(conversation_id, url_link_payload);
        self.calls = Ghost(
            self.calls@.push(
                BackendOp::SendUrl { conversation_id: conv, payload: link, outcome: r },
            ),
        );
        r
    }

    /// Sends a contact card to a conversation through the backend,
    /// logging the call, the contact handed over and the outcome.
    fn call_message_send_contact(&mut self, conversation_id: String, contact_id: String) -> (r:
        Result<Option<String>, PuppetError>)
        requires
            old(self).wf(),
        ensures
            final(self).wf(),
            Self::same_state(*old(self), *final(self)),
            final(self).call_log() == old(self).call_log().push(
                BackendOp::SendContact {
                    conversation_id: conversation_id@,
                    contact_id: contact_id@,
                    outcome: r,
                },
            ),
    {
        let ghost conv = conversation_id@;
        let ghost cid = contact_id@;
        let r = self.puppet_impl.message_send_contact(conversation_id, contact_id);
        self.calls = Ghost(
            self.calls@.push(
                BackendOp::SendContact { conversation_id: conv, contact_id: cid, outcome: r },
            ),
        );
        r
    }

    /// Nothing but the backend is touched.
    pub open spec fn same_state(pre: Self, post: Self) -> bool {
        &&& post.registry() == pre.registry()
        &&& post.contact_cache() == pre.contact_cache()
        &&& post.message_cache() == pre.message_cache()
        &&& post.room_cache() == pre.room_cache()
        &&& post.room_member_cache() == pre.room_member_cache()
        &&& post.friendship_cache() == pre.friendship_cache()
        &&& post.room_invitation_cache() == pre.room_invitation_cache()
        &&& post.self_id_spec() == pre.self_id_spec()
        &&& post.fetch_count() == pre.fetch_count()
    }

    /// Sends an already-fetched message onwards to a conversation. A
    /// sendable type goes to the matching backend send call, whose outcome
    /// is returned as it came; a forward-only type is refused as
    /// unsupported; an unknown type is an error. No cache is touched.
    pub fn forward_fetched(
        &mut self,
        conversation_id: String,
        message_id: String,
        payload: &MessagePayload,
    ) -> (r: Result<Option<String>, PuppetError>)
        requires
            old(self).wf(),
        ensures
            final(self).wf(),
            Self::same_state(*old(self), *final(self)),
            spec_forward_outcome(
                old(self).call_log(),
                final(self).call_log(),
                conversation_id@,
                message_id@,
                *payload,
                r,
            ),
            payload.spec_message_type() == MessageType::Unknown ==> r == Err::<
                Option<String>,
                PuppetError,
            >(PuppetError::UnknownMessageType),
            (!payload.spec_message_type().spec_is_forwardable()
                && payload.spec_message_type() != MessageType::Unknown) ==> (r matches Err(e)
                && e matches PuppetError::Unsupported(what) && what@ == "sending "@
                + payload.spec_message_type().spec_label() + " messages"@),
    {
        let message_type = payload.message_type();
        match message_type {
            MessageType::Attachment | MessageType::Audio | MessageType::Image
                | MessageType::Video => {
                match self.call_message_file(message_id) {
                    Ok(file) => self.call_message_send_file(conversation_id, file),
                    Err(e) => Err(e),
                }
            },
            MessageType::Text => {
                let text = match payload.text() {
                    Some(t) => t,
                    None => String::new(),
                };
                let mention_id_list: Vec<String> = Vec::new();
                proof {
                    assert(mention_id_list.deep_view() =~= Seq::<Seq<char>>::empty());
                }
                self.message_send_text(conversation_id, text, mention_id_list)
            },
            MessageType::MiniProgram => {
                match self.call_message_mini_program(message_id) {
                    Ok(mini_program_payload) => self.call_message_send_mini_program(
                        conversation_id,
                        mini_program_payload,
                    ),
                    Err(e) => Err(e),
                }
            },
            MessageType::Url => {
                match self.call_message_url(message_id) {
                    Ok(url_link_payload) => self.call_message_send_url(
                        conversation_id,
                        url_link_payload,
                    ),
                    Err(e) => Err(e),
                }
            },
            MessageType::Contact => {
                match self.call_message_contact(message_id) {
                    Ok(contact_id) => self.call_message_send_contact(
                        conversation_id,
                        contact_id,
                    ),
                    Err(e) => Err(e),
                }
            },
            MessageType::ChatHistory | MessageType::Location | MessageType::Emoticon
                | MessageType::GroupNote | MessageType::Transfer | MessageType::RedEnvelope
                | MessageType::Recalled => {
                let mut what = "sending ".to_owned();
                what.append(message_type.label());
                what.append(" messages");
                Err(PuppetError::Unsupported(what))
            },
            MessageType::Unknown => Err(PuppetError::UnknownMessageType),
        }
    }

    /// Forwards a message to a conversation: fetches its payload through
    /// the cache, then sends it onwards by type, exactly as
    /// `spec_forward_outcome` says. A hydration failure is propagated with
    /// nothing sent; a forward-only type is refused as unsupported; an
    /// unknown type is an error.
    pub fn message_forward(&mut self, conversation_id: String, message_id: String) -> (r: Result<
        Option<String>,
        PuppetError,
    >)
        requires
            old(self).wf(),
        ensures
            final(self).wf(),
            final(self).registry() == old(self).registry(),
            final(self).self_id_spec() == old(self).self_id_spec(),
            final(self).contact_cache() == old(self).contact_cache(),
            final(self).room_cache() == old(self).room_cache(),
            final(self).room_member_cache() == old(self).room_member_cache(),
            final(self).friendship_cache() == old(self).friendship_cache(),
            final(self).room_invitation_cache() == old(self).room_invitation_cache(),
            final(self).message_cache().limit() == old(self).message_cache().limit(),
            old(self).message_cache().has(message_id@) ==> {
                &&& final(self).fetch_count() == old(self).fetch_count()
                &&& final(self).message_cache().entries() == promote(
                    old(self).message_cache().entries(),
                    message_id@,
                )
                &&& spec_forward_outcome(
                    old(self).call_log(),
                    final(self).call_log(),
                    conversation_id@,
                    message_id@,
                    old(self).message_cache().value(message_id@)->Message_0,
                    r,
                )
            },
            !old(self).message_cache().has(message_id@) ==> {
                &&& final(self).fetch_count() == old(self).fetch_count() + 1
                &&& {
                    ||| (final(self).message_cache().entries() == old(self).message_cache().entries() && r is Err && final(self).call_log() == old(self).call_log())
                    ||| exists|p: MessagePayload|
                        {
                            &&& #[trigger] final(self).message_cache().entries() == insert_front(
                                old(self).message_cache().entries(),
                                old(self).message_cache().limit(),
                                message_id@,
                                Payload::Message(p),
                            )
                            &&& spec_forward_outcome(
                                old(self).call_log(),
                                final(self).call_log(),
                                conversation_id@,
                                message_id@,
                                p,
                                r,
                            )
                        }
                }
            },
    {
        let ghost e0 = self.cache_message_payload.entries();
        let fetched = self.message_payload(message_id.clone());
        match fetched {
            Ok(p) => {
                proof {
                    if has_key(e0, message_id@) {
                        lemma_idx_of(e0, message_id@);
                    }
                }
                self.forward_fetched(conversation_id, message_id, &p)
            },
            Err(e) => Err(e),
        }
    }


    /// Asks the backend for the full contact id list, logging the call
    /// and its outcome.
    pub fn contact_list(&mut self) -> (r: Result<Vec<String>, PuppetError>)
        requires
            old(self).wf(),
        ensures
            final(self).wf(),
            Self::same_state(*old(self), *final(self)),
            r matches Ok(ids) ==> final(self).call_log() == old(self).call_log().push(
                BackendOp::ContactList { outcome: Ok(ids.deep_view()) },
            ),
            r matches Err(e) ==> final(self).call_log() == old(self).call_log().push(
                BackendOp::ContactList { outcome: Err(e) },
            ),
    {
        let r = self.puppet_impl.contact_list();
        self.calls = Ghost(
            self.calls@.push(
                BackendOp::ContactList {
                    outcome: if r is Ok {
                        Ok((r->Ok_0).deep_view())
                    } else {
                        Err(r->Err_0)
                    },
                },
            ),
        );
        r
    }

    /// Asks the backend for the full room id list, logging the call and
    /// its outcome.
    pub fn room_list(&mut self) -> (r: Result<Vec<String>, PuppetError>)
        requires
            old(self).wf(),
        ensures
            final(self).wf(),
            Self::same_state(*old(self), *final(self)),
            r matches Ok(ids) ==> final(self).call_log() == old(self).call_log().push(
                BackendOp::RoomList { outcome: Ok(ids.deep_view()) },
            ),
            r matches Err(e) ==> final(self).call_log() == old(self).call_log().push(
                BackendOp::RoomList { outcome: Err(e) },
            ),
    {
        let r = self.puppet_impl.room_list();
        self.calls = Ghost(
            self.calls@.push(
                BackendOp::RoomList {
                    outcome: if r is Ok {
                        Ok((r->Ok_0).deep_view())
                    } else {
                        Err(r->Err_0)
                    },
                },
            ),
        );
        r
    }


    /// Asks the backend for the member ids of a room, logging the call
    /// and its outcome.
    pub fn room_member_list(&mut self, room_id: String) -> (r: Result<Vec<String>, PuppetError>)
        requires
            old(self).wf(),
        ensures
            final(self).wf(),
            Self::same_state(*old(self), *final(self)),
            r matches Ok(ids) ==> final(self).call_log() == old(self).call_log().push(
                BackendOp::RoomMemberList { room_id: room_id@, outcome: Ok(ids.deep_view()) },
            ),
            r matches Err(e) ==> final(self).call_log() == old(self).call_log().push(
                BackendOp::RoomMemberList { room_id: room_id@, outcome: Err(e) },
            ),
    {
        let ghost room = room_id@;
        let r = self.puppet_impl.room_member_list(room_id);
        self.calls = Ghost(
            self.calls@.push(
                BackendOp::RoomMemberList {
                    room_id: room,
                    outcome: if r is Ok {
                        Ok((r->Ok_0).deep_view())
                    } else {
                        Err(r->Err_0)
                    },
                },
            ),
        );
        r
    }


    /// Sends a text message to a conversation through the backend,
    /// mentioning the listed contacts; the call, its arguments and its
    /// outcome are logged.
    pub fn message_send_text(
        &mut self,
        conversation_id: String,
        text: String,
        mention_id_list: Vec<String>,
    ) -> (r: Result<Option<String>, PuppetError>)
        requires
            old(self).wf(),
        ensures
            final(self).wf(),
            Self::same_state(*old(self), *final(self)),
            final(self).call_log() == old(self).call_log().push(
                BackendOp::SendText {
                    conversation_id: conversation_id@,
                    text: text@,
                    mention_ids: mention_id_list.deep_view(),
                    outcome: r,
                },
            ),
    {
        let ghost conv = conversation_id@;
        let ghost txt = text@;
        let ghost mentions = mention_id_list.deep_view();
        let r = self.puppet_impl.message_send_text(conversation_id, text, mention_id_list);
        self.calls = Ghost(
            self.calls@.push(
                BackendOp::SendText {
                    conversation_id: conv,
                    text: txt,
                    mention_ids: mentions,
                    outcome: r,
                },
            ),
        );
        r
    }

}

} // verus!
