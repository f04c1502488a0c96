//! The normalized message record and how an inbound chat message becomes
//! one.

use vstd::prelude::*;
use vstd::string::StringExecFns;
use crate::bulk::Document;

verus! {

/// The kind of a message: a closed set of tags.
#[derive(Clone, Copy, Debug, PartialEq, Eq, Structural)]
pub enum MessageType {
    Text,
    Photo,
    Video,
    Document,
    Sticker,
    Voice,
    Animation,
    Other,
}

impl MessageType {
    /// The tag's name as the store holds it.
    pub open spec fn name(self) -> Seq<char> {
        match self {
            MessageType::Text => "text"@,
            MessageType::Photo => "photo"@,
            MessageType::Video => "video"@,
            MessageType::Document => "document"@,
            MessageType::Sticker => "sticker"@,
            MessageType::Voice => "voice"@,
            MessageType::Animation => "animation"@,
            MessageType::Other => "other"@,
        }
    }

    /// The tag's name as the store holds it.
    pub fn as_str(&self) -> (s: &'static str)
        ensures
            s@ == self.name(),
    {
        match self {
            MessageType::Text => "text",
            MessageType::Photo => "photo",
            MessageType::Video => "video",
            MessageType::Document => "document",
            MessageType::Sticker => "sticker",
            MessageType::Voice => "voice",
            MessageType::Animation => "animation",
            MessageType::Other => "other",
        }
    }

    /// The tag's name as an owned string.
    pub fn to_string(&self) -> (s: String)
        ensures
            s@ == self.name(),
    {
        String::from_str(self.as_str())
    }
}

/// A normalized message, as it is written to the store.
#[derive(Debug, Clone)]
pub struct ChatMessage {
    pub message_id: i64,
    pub chat_id: i64,
    pub user_id: Option<i64>,
    pub username: Option<String>,
    pub display_name: String,
    pub text: String,
    /// Unix epoch seconds.
    pub date: i64,
    pub reply_to_message_id: Option<i64>,
    pub message_type: MessageType,
    pub chat_title: Option<String>,
}

impl Document for ChatMessage {
    open spec fn chat(&self) -> int {
        self.chat_id as int
    }

    open spec fn message(&self) -> int {
        self.message_id as int
    }

    fn key(&self) -> (k: (i64, i64)) {
        (self.chat_id, self.message_id)
    }
}

/// Which attachments an inbound message carries.
#[derive(Clone, Copy, Debug)]
pub struct MediaShape {
    pub photo: bool,
    pub video: bool,
    pub document: bool,
    pub sticker: bool,
    pub voice: bool,
    pub animation: bool,
}

/// The author of an inbound message.
#[derive(Debug, Clone)]
pub struct Sender {
    pub id: u64,
    pub username: Option<String>,
    pub first_name: String,
    pub last_name: Option<String>,
}

/// An inbound chat message, reduced to what normalization reads.
#[derive(Debug, Clone)]
pub struct InboundMessage {
    pub id: i32,
    pub chat_id: i64,
    pub is_group: bool,
    pub is_supergroup: bool,
    pub text: Option<String>,
    pub caption: Option<String>,
    pub from: Option<Sender>,
    /// Unix epoch seconds.
    pub date: i64,
    pub reply_to_message_id: Option<i32>,
    pub media: MediaShape,
    pub chat_title: Option<String>,
}

/// The tag of a message with or without text and with the attachments
/// `media`: the first that applies of text, photo, video, document,
/// sticker, voice, animation; `Other` when none does.
pub open spec fn kind_of(has_text: bool, media: MediaShape) -> MessageType {
    if has_text {
        MessageType::Text
    } else if media.photo {
        MessageType::Photo
    } else if media.video {
        MessageType::Video
    } else if media.document {
        MessageType::Document
    } else if media.sticker {
        MessageType::Sticker
    } else if media.voice {
        MessageType::Voice
    } else if media.animation {
        MessageType::Animation
    } else {
        MessageType::Other
    }
}

/// The text that is archived for a message: its text, else its caption,
/// else nothing.
pub open spec fn body_text(text: Option<String>, caption: Option<String>) -> Seq<char> {
    match text {
        Some(t) => t@,
        None => match caption {
            Some(c) => c@,
            None => Seq::empty(),
        },
    }
}

/// A person's name for display: the first name, then a space and the last
/// name where there is one.
pub open spec fn display_name_spec(first: Seq<char>, last: Option<String>) -> Seq<char> {
    match last {
        Some(l) => first + seq![' '] + l@,
        None => first,
    }
}

/// A 64-bit user number read as a signed number of the same bits.
pub open spec fn signed_id(id: u64) -> int {
    if id <= i64::MAX as u64 {
        id as int
    } else {
        id as int - 0x1_0000_0000_0000_0000
    }
}

/// Whether a chat message is archived: it comes from a group or a
/// supergroup and has text or a caption that is not empty.
pub open spec fn is_recorded(msg: InboundMessage) -> bool {
    (msg.is_group || msg.is_supergroup) && body_text(msg.text, msg.caption).len() > 0
}

/// The tag of the inbound message `msg`.
pub fn classify_message(msg: &InboundMessage) -> (kind: MessageType)
    ensures
        kind == kind_of(msg.text is Some, msg.media),
{
    if msg.text.is_some() {
        MessageType::Text
    } else if msg.media.photo {
        MessageType::Photo
    } else if msg.media.video {
        MessageType::Video
    } else if msg.media.document {
        MessageType::Document
    } else if msg.media.sticker {
        MessageType::Sticker
    } else if msg.media.voice {
        MessageType::Voice
    } else if msg.media.animation {
        MessageType::Animation
    } else {
        MessageType::Other
    }
}

/// A person's name for display.
pub fn display_name(first_name: String, last_name: &Option<String>) -> (name: String)
    ensures
        name@ == display_name_spec(first_name@, *last_name),
{
    match last_name {
        Some(last) => {
            proof {
                reveal_strlit(" ");
            }
            let name = first_name.concat(" ").concat(last.as_str());
            assert(" "@ =~= seq![' ']);
            name
        },
        None => first_name,
    }
}

/// A 64-bit user number as a signed number of the same bits.
pub fn user_id_of(id: u64) -> (signed: i64)
    ensures
        signed == signed_id(id),
{
    if id <= 9223372036854775807u64 {
        id as i64
    } else {
        let low: u64 = id - 9223372036854775808u64;
        (low as i64) + i64::MIN
    }
}

/// Normalizes an inbound message. `None` for a message that is not
/// archived: one from outside a group, or one without text and caption.
pub fn record_message(msg: InboundMessage) -> (record: Option<ChatMessage>)
    ensures
        record is Some <==> is_recorded(msg),
        record matches Some(m) ==> {
            &&& m.message_id == msg.id
            &&& m.chat_id == msg.chat_id
            &&& m.user_id == match msg.from {
                Some(u) => Some(signed_id(u.id) as i64),
                None => None,
            }
            &&& m.username == match msg.from {
                Some(u) => u.username,
                None => None,
            }
            &&& m.display_name@ == match msg.from {
                Some(u) => display_name_spec(u.first_name@, u.last_name),
                None => Seq::empty(),
            }
            &&& m.text@ == body_text(msg.text, msg.caption)
            &&& m.date == msg.date
            &&& m.reply_to_message_id == match msg.reply_to_message_id {
                Some(r) => Some(r as i64),
                None => None,
            }
            &&& m.message_type == kind_of(msg.text is Some, msg.media)
            &&& m.chat_title == msg.chat_title
        },
{
    if !msg.is_group && !msg.is_supergroup {
        return None;
    }
    let message_type = classify_message(&msg);
    let InboundMessage { id, chat_id, text, caption, from, date, reply_to_message_id, chat_title, .. } = msg;
    let body = match text {
        Some(t) => t,
        None => match caption {
            Some(c) => c,
            None => String::new(),
        },
    };
    if body.as_str().is_empty() {
        return None;
    }
    let (user_id, username, display) = match from {
        Some(u) => {
            let Sender { id: uid, username, first_name, last_name } = u;
            (Some(user_id_of(uid)), username, display_name(first_name, &last_name))
        },
        None => (None, None, String::new()),
    };
    let reply = match reply_to_message_id {
        Some(r) => Some(r as i64),
        None => None,
    };
    Some(
        ChatMessage {
            message_id: id as i64,
            chat_id,
            user_id,
            username,
            display_name: display,
            text: body,
            date,
            reply_to_message_id: reply,
            message_type,
            chat_title,
        },
    )
}

} // verus!
