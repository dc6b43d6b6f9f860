//! The canonical echo-bot decision: an incoming text message saying "ding"
//! earns the reply "dong"; everything else is discarded.
use vstd::prelude::*;
use vstd::string::StringExecFns;
use crate::context::WechatyContext;
use crate::puppet::PuppetImpl;
use crate::schemas::message::MessageType;
use crate::user::message::Message;
use crate::util::str_eq;

verus! {

/// Whether the message earns a reply: it must not be outgoing, must be a
/// text message, and must say exactly "ding".
pub open spec fn spec_wants_dong<T: PuppetImpl>(m: Message, ctx: WechatyContext<T>) -> bool {
    &&& !m.spec_is_self(ctx)
    &&& m.payload_ matches Some(p) && p.spec_message_type() == MessageType::Text
        && p.spec_text() == Some("ding"@)
}

/// Decides the echo bot's reply to a message: `Some("dong")` exactly when
/// the message is an incoming text saying "ding", `None` otherwise.
pub fn dong_reply<T: PuppetImpl>(message: &Message, ctx: &WechatyContext<T>) -> (r: Option<
    String,
>)
    ensures
        match r {
            Some(t) => spec_wants_dong(*message, *ctx) && t@ == "dong"@,
            None => !spec_wants_dong(*message, *ctx),
        },
{
    if message.is_self(ctx) {
        return None;
    }
    match message.message_type() {
        Some(t) => {
            if t == MessageType::Text {
                match message.text() {
                    Some(text) => {
                        if str_eq(text.as_str(), "ding") {
                            Some("dong".to_owned())
                        } else {
                            None
                        }
                    },
                    None => None,
                }
            } else {
                None
            }
        },
        None => None,
    }
}

} // verus!
