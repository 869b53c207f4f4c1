//! The channels through which users reach the assistant.

use vstd::prelude::*;

pub mod audio;
pub mod english;
pub mod feishu;
pub mod reply;
pub mod weixin;

verus! {

/// A channel.
#[derive(Debug, Clone, Copy, PartialEq, Eq, Structural)]
pub enum ChannelKind {
    Feishu,
    Weixin,
}

impl ChannelKind {
    /// The name of a channel.
    pub open spec fn name(self) -> Seq<char> {
        match self {
            ChannelKind::Feishu => "feishu"@,
            ChannelKind::Weixin => "weixin"@,
        }
    }

    /// Names a channel.
    pub fn as_str(&self) -> (r: &'static str)
        ensures
            r@ == self.name(),
    {
        match self {
            ChannelKind::Feishu => "feishu",
            ChannelKind::Weixin => "weixin",
        }
    }
}

/// A text that came in.
#[derive(Debug)]
pub struct InboundTextMessage {
    pub channel: ChannelKind,
    pub event_id: Option<String>,
    pub message_id: String,
    pub chat_id: Option<String>,
    pub chat_type: Option<String>,
    pub user_id: String,
    pub session_id: String,
    pub text: String,
}

/// A voice message that came in.
#[derive(Debug)]
pub struct InboundAudioMessage {
    pub channel: ChannelKind,
    pub message_id: String,
    pub user_id: String,
    pub session_id: String,
    pub file_key: String,
    pub resource_type: String,
    pub format_hint: Option<String>,
    pub duration_ms: Option<u64>,
}

/// A text that goes out as a reply.
#[derive(Debug)]
pub struct OutboundTextReply {
    pub channel: ChannelKind,
    pub reply_to_message_id: String,
    pub session_id: String,
    pub text: String,
}

/// A voice message that goes out as a reply.
#[derive(Debug)]
pub struct OutboundAudioReply {
    pub channel: ChannelKind,
    pub reply_to_message_id: String,
    pub session_id: String,
    pub file_name: String,
    pub file_format: String,
    pub content_type: String,
    pub bytes: Vec<u8>,
    pub duration_ms: Option<u64>,
}

} // verus!
