//! A stub backend: every capability answers that the operation is
//! unsupported. Useful as a placeholder transport and in tests that only
//! exercise the layers above the backend.
use vstd::prelude::*;
use vstd::string::StringExecFns;
use crate::error::PuppetError;
use crate::puppet::{FileBox, PuppetImpl};
use crate::schemas::contact::ContactPayload;
use crate::schemas::friendship::FriendshipPayload;
use crate::schemas::image::ImageType;
use crate::schemas::message::MessagePayload;
use crate::schemas::mini_program::MiniProgramPayload;
use crate::schemas::room::{RoomMemberPayload, RoomPayload};
use crate::schemas::room_invitation::RoomInvitationPayload;
use crate::schemas::url_link::UrlLinkPayload;

verus! {

/// A backend with no capabilities at all.
#[derive(Debug)]
pub struct PuppetMock {}

impl PuppetImpl for PuppetMock {
    fn contact_self_name_set(&mut self, _name: String) -> Result<(), PuppetError> {
        Err(PuppetError::Unsupported("contact_self_name_set".to_owned()))
    }

    fn contact_self_qr_code(&mut self) -> Result<String, PuppetError> {
        Err(PuppetError::Unsupported("contact_self_qr_code".to_owned()))
    }

    fn contact_self_signature_set(&mut self, _signature: String) -> Result<(), PuppetError> {
        Err(PuppetError::Unsupported("contact_self_signature_set".to_owned()))
    }

    fn tag_contact_add(&mut self, _tag_id: String, _contact_id: String) -> Result<(), PuppetError> {
        Err(PuppetError::Unsupported("tag_contact_add".to_owned()))
    }

    fn tag_contact_remove(&mut self, _tag_id: String, _contact_id: String) -> Result<(), PuppetError> {
        Err(PuppetError::Unsupported("tag_contact_remove".to_owned()))
    }

    fn tag_contact_delete(&mut self, _tag_id: String) -> Result<(), PuppetError> {
        Err(PuppetError::Unsupported("tag_contact_delete".to_owned()))
    }

    fn tag_contact_list(&mut self, _contact_id: String) -> Result<Vec<String>, PuppetError> {
        Err(PuppetError::Unsupported("tag_contact_list".to_owned()))
    }

    fn tag_list(&mut self) -> Result<Vec<String>, PuppetError> {
        Err(PuppetError::Unsupported("tag_list".to_owned()))
    }

    fn contact_alias(&mut self, _contact_id: String) -> Result<String, PuppetError> {
        Err(PuppetError::Unsupported("contact_alias".to_owned()))
    }

    fn contact_alias_set(&mut self, _contact_id: String, _alias: String) -> Result<(), PuppetError> {
        Err(PuppetError::Unsupported("contact_alias_set".to_owned()))
    }

    fn contact_avatar(&mut self, _contact_id: String) -> Result<FileBox, PuppetError> {
        Err(PuppetError::Unsupported("contact_avatar".to_owned()))
    }

    fn contact_avatar_set(&mut self, _contact_id: String, _file: FileBox) -> Result<(), PuppetError> {
        Err(PuppetError::Unsupported("contact_avatar_set".to_owned()))
    }

    fn contact_phone_set(&mut self, _contact_id: String, _phone_list: Vec<String>) -> Result<(), PuppetError> {
        Err(PuppetError::Unsupported("contact_phone_set".to_owned()))
    }

    fn contact_corporation_remark_set(&mut self, _contact_id: String, _corporation_remark: Option<String>) -> Result<(), PuppetError> {
        Err(PuppetError::Unsupported("contact_corporation_remark_set".to_owned()))
    }

    fn contact_description_set(&mut self, _contact_id: String, _description: Option<String>) -> Result<(), PuppetError> {
        Err(PuppetError::Unsupported("contact_description_set".to_owned()))
    }

    fn contact_list(&mut self) -> Result<Vec<String>, PuppetError> {
        Err(PuppetError::Unsupported("contact_list".to_owned()))
    }

    fn contact_raw_payload(&mut self, _contact_id: String) -> Result<ContactPayload, PuppetError> {
        Err(PuppetError::Unsupported("contact_raw_payload".to_owned()))
    }

    fn message_contact(&mut self, _message_id: String) -> Result<String, PuppetError> {
        Err(PuppetError::Unsupported("message_contact".to_owned()))
    }

    fn message_file(&mut self, _message_id: String) -> Result<FileBox, PuppetError> {
        Err(PuppetError::Unsupported("message_file".to_owned()))
    }

    fn message_image(&mut self, _message_id: String, _image_type: ImageType) -> Result<FileBox, PuppetError> {
        Err(PuppetError::Unsupported("message_image".to_owned()))
    }

    fn message_mini_program(&mut self, _message_id: String) -> Result<MiniProgramPayload, PuppetError> {
        Err(PuppetError::Unsupported("message_mini_program".to_owned()))
    }

    fn message_url(&mut self, _message_id: String) -> Result<UrlLinkPayload, PuppetError> {
        Err(PuppetError::Unsupported("message_url".to_owned()))
    }

    fn message_send_contact(&mut self, _conversation_id: String, _contact_id: String) -> Result<Option<String>, PuppetError> {
        Err(PuppetError::Unsupported("message_send_contact".to_owned()))
    }

    fn message_send_file(&mut self, _conversation_id: String, _file: FileBox) -> Result<Option<String>, PuppetError> {
        Err(PuppetError::Unsupported("message_send_file".to_owned()))
    }

    fn message_send_mini_program(&mut self, _conversation_id: String, _mini_program_payload: MiniProgramPayload) -> Result<Option<String>, PuppetError> {
        Err(PuppetError::Unsupported("message_send_mini_program".to_owned()))
    }

    fn message_send_text(&mut self, _conversation_id: String, _text: String, _mention_id_list: Vec<String>) -> Result<Option<String>, PuppetError> {
        Err(PuppetError::Unsupported("message_send_text".to_owned()))
    }

    fn message_send_url(&mut self, _conversation_id: String, _url_link_payload: UrlLinkPayload) -> Result<Option<String>, PuppetError> {
        Err(PuppetError::Unsupported("message_send_url".to_owned()))
    }

    fn message_raw_payload(&mut self, _message_id: String) -> Result<MessagePayload, PuppetError> {
        Err(PuppetError::Unsupported("message_raw_payload".to_owned()))
    }

    fn friendship_accept(&mut self, _friendship_id: String) -> Result<(), PuppetError> {
        Err(PuppetError::Unsupported("friendship_accept".to_owned()))
    }

    fn friendship_add(&mut self, _contact_id: String, _hello: Option<String>) -> Result<(), PuppetError> {
        Err(PuppetError::Unsupported("friendship_add".to_owned()))
    }

    fn friendship_search_phone(&mut self, _phone: String) -> Result<Option<String>, PuppetError> {
        Err(PuppetError::Unsupported("friendship_search_phone".to_owned()))
    }

    fn friendship_search_weixin(&mut self, _weixin: String) -> Result<Option<String>, PuppetError> {
        Err(PuppetError::Unsupported("friendship_search_weixin".to_owned()))
    }

    fn friendship_raw_payload(&mut self, _friendship_id: String) -> Result<FriendshipPayload, PuppetError> {
        Err(PuppetError::Unsupported("friendship_raw_payload".to_owned()))
    }

    fn room_invitation_accept(&mut self, _room_invitation_id: String) -> Result<(), PuppetError> {
        Err(PuppetError::Unsupported("room_invitation_accept".to_owned()))
    }

    fn room_invitation_raw_payload(&mut self, _room_invitation_id: String) -> Result<RoomInvitationPayload, PuppetError> {
        Err(PuppetError::Unsupported("room_invitation_raw_payload".to_owned()))
    }

    fn room_add(&mut self, _room_id: String, _contact_id: String) -> Result<(), PuppetError> {
        Err(PuppetError::Unsupported("room_add".to_owned()))
    }

    fn room_avatar(&mut self, _room_id: String) -> Result<FileBox, PuppetError> {
        Err(PuppetError::Unsupported("room_avatar".to_owned()))
    }

    fn room_create(&mut self, _contact_id_list: Vec<String>, _topic: Option<String>) -> Result<String, PuppetError> {
        Err(PuppetError::Unsupported("room_create".to_owned()))
    }

    fn room_del(&mut self, _room_id: String, _contact_id: String) -> Result<(), PuppetError> {
        Err(PuppetError::Unsupported("room_del".to_owned()))
    }

    fn room_qr_code(&mut self, _room_id: String) -> Result<String, PuppetError> {
        Err(PuppetError::Unsupported("room_qr_code".to_owned()))
    }

    fn room_quit(&mut self, _room_id: String) -> Result<(), PuppetError> {
        Err(PuppetError::Unsupported("room_quit".to_owned()))
    }

    fn room_topic(&mut self, _room_id: String) -> Result<String, PuppetError> {
        Err(PuppetError::Unsupported("room_topic".to_owned()))
    }

    fn room_topic_set(&mut self, _room_id: String, _topic: String) -> Result<(), PuppetError> {
        Err(PuppetError::Unsupported("room_topic_set".to_owned()))
    }

    fn room_list(&mut self) -> Result<Vec<String>, PuppetError> {
        Err(PuppetError::Unsupported("room_list".to_owned()))
    }

    fn room_raw_payload(&mut self, _room_id: String) -> Result<RoomPayload, PuppetError> {
        Err(PuppetError::Unsupported("room_raw_payload".to_owned()))
    }

    fn room_announce(&mut self, _room_id: String) -> Result<String, PuppetError> {
        Err(PuppetError::Unsupported("room_announce".to_owned()))
    }

    fn room_announce_set(&mut self, _room_id: String, _text: String) -> Result<(), PuppetError> {
        Err(PuppetError::Unsupported("room_announce_set".to_owned()))
    }

    fn room_member_list(&mut self, _room_id: String) -> Result<Vec<String>, PuppetError> {
        Err(PuppetError::Unsupported("room_member_list".to_owned()))
    }

    fn room_member_raw_payload(&mut self, _room_id: String, _contact_id: String) -> Result<RoomMemberPayload, PuppetError> {
        Err(PuppetError::Unsupported("room_member_raw_payload".to_owned()))
    }

}

} // verus!
