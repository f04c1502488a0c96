//! Records of the legacy store and how one becomes a message of the
//! document store.
//!
//! The legacy store has held the same facts under several names and
//! shapes over time. Each fact is therefore read by a list of attempts in
//! a fixed order, and the first attempt that finds a value of the right
//! type gives it.
//!
//! Two choices are made here once. A timestamp above 4,000,000,000 is
//! taken to be in milliseconds and is cut down to seconds. And every
//! backfilled message is stored with the kind `text`, whatever kind the
//! legacy record names.

use vstd::prelude::*;
use crate::bulk::Document;
use crate::decimal::{i64_to_string, int_digits};
use crate::message::MessageType;
use crate::text::str_eq;
use vstd::string::StringExecFns;

verus! {

/// A value of a legacy record, as far as reading one looks at it.
#[derive(Debug)]
pub enum LegacyValue {
    /// A 32-bit integer.
    Int32(i32),
    /// A 64-bit integer.
    Int64(i64),
    /// A string.
    Text(String),
    /// A point in time, in milliseconds since the Unix epoch.
    DateTime(i64),
    /// An embedded record.
    Document(LegacyDocument),
    /// A value of any other type.
    Other,
}

/// A record of the legacy store: named values, no name twice.
#[derive(Debug)]
pub struct LegacyDocument {
    pub fields: Vec<(String, LegacyValue)>,
}

/// A message as the legacy store holds it.
#[derive(Debug, Clone)]
pub struct MongoMessage {
    pub message_id: i64,
    pub chat_id: i64,
    pub user_id: Option<i64>,
    pub text: String,
    /// Unix timestamp, in seconds or in milliseconds.
    pub date: i64,
    pub message_type: String,
}

/// A backfilled message as the document store holds it.
#[derive(Debug, Clone)]
pub struct EsMessage {
    pub message_id: i64,
    pub chat_id: i64,
    pub user_id: Option<i64>,
    pub text: String,
    /// Unix timestamp in seconds.
    pub date: i64,
    pub message_type: MessageType,
}

/// Why a legacy record is no message.
#[derive(Clone, Copy, Debug, PartialEq, Eq, Structural)]
pub enum ParseError {
    /// Neither the record nor its `msg_ctx` holds an integer `message_id`.
    MissingMessageId,
    /// The record holds neither `group_id` nor `chat_id` as an integer.
    MissingChatId,
    /// The record holds neither `timestamp` nor `date` as a time or an
    /// integer.
    MissingDate,
}

/// What a parsed legacy message holds, strings as character sequences.
pub struct MongoMessageView {
    pub message_id: i64,
    pub chat_id: i64,
    pub user_id: Option<i64>,
    pub text: Seq<char>,
    pub date: i64,
    pub message_type: Seq<char>,
}

impl View for MongoMessage {
    type V = MongoMessageView;

    open spec fn view(&self) -> MongoMessageView {
        MongoMessageView {
            message_id: self.message_id,
            chat_id: self.chat_id,
            user_id: self.user_id,
            text: self.text@,
            date: self.date,
            message_type: self.message_type@,
        }
    }
}

/// What a backfilled message holds, strings as character sequences.
pub struct EsMessageView {
    pub message_id: i64,
    pub chat_id: i64,
    pub user_id: Option<i64>,
    pub text: Seq<char>,
    pub date: i64,
    pub message_type: MessageType,
}

impl View for EsMessage {
    type V = EsMessageView;

    open spec fn view(&self) -> EsMessageView {
        EsMessageView {
            message_id: self.message_id,
            chat_id: self.chat_id,
            user_id: self.user_id,
            text: self.text@,
            date: self.date,
            message_type: self.message_type,
        }
    }
}

impl Document for EsMessage {
    open spec fn chat(&self) -> int {
        self.chat_id as int
    }

    open spec fn message(&self) -> int {
        self.message_id as int
    }

    fn key(&self) -> (k: (i64, i64)) {
        (self.chat_id, self.message_id)
    }
}

/// The first of two attempts that found something.
pub open spec fn or_else<T>(first: Option<T>, second: Option<T>) -> Option<T> {
    match first {
        Some(_) => first,
        None => second,
    }
}

/// The value of the first field named `key`.
pub open spec fn lookup(fields: Seq<(String, LegacyValue)>, key: Seq<char>) -> Option<LegacyValue>
    decreases fields.len(),
{
    if fields.len() == 0 {
        None
    } else if fields[0].0@ == key {
        Some(fields[0].1)
    } else {
        lookup(fields.drop_first(), key)
    }
}

/// The field `key` of `doc`, where it is a 64-bit integer.
pub open spec fn int64_at(doc: LegacyDocument, key: Seq<char>) -> Option<i64> {
    match lookup(doc.fields@, key) {
        Some(LegacyValue::Int64(v)) => Some(v),
        _ => None,
    }
}

/// The field `key` of `doc`, where it is a 32-bit integer.
pub open spec fn int32_at(doc: LegacyDocument, key: Seq<char>) -> Option<i32> {
    match lookup(doc.fields@, key) {
        Some(LegacyValue::Int32(v)) => Some(v),
        _ => None,
    }
}

/// The field `key` of `doc`, where it is a string.
pub open spec fn text_at(doc: LegacyDocument, key: Seq<char>) -> Option<Seq<char>> {
    match lookup(doc.fields@, key) {
        Some(LegacyValue::Text(s)) => Some(s@),
        _ => None,
    }
}

/// The field `key` of `doc` in milliseconds, where it is a point in time.
pub open spec fn datetime_at(doc: LegacyDocument, key: Seq<char>) -> Option<i64> {
    match lookup(doc.fields@, key) {
        Some(LegacyValue::DateTime(ms)) => Some(ms),
        _ => None,
    }
}

/// The field `key` of `doc`, where it is an embedded record.
pub open spec fn document_at(doc: LegacyDocument, key: Seq<char>) -> Option<LegacyDocument> {
    match lookup(doc.fields@, key) {
        Some(LegacyValue::Document(d)) => Some(d),
        _ => None,
    }
}

/// The field `key` of `doc` as a 64-bit integer, where it is an integer
/// of 64 or of 32 bits.
pub open spec fn integer_at(doc: LegacyDocument, key: Seq<char>) -> Option<i64> {
    or_else(
        int64_at(doc, key),
        match int32_at(doc, key) {
            Some(v) => Some(v as i64),
            None => None,
        },
    )
}

/// Whole seconds of `ms` milliseconds, cut towards zero.
pub open spec fn millis_to_seconds(ms: i64) -> i64 {
    if ms >= 0 {
        (ms / 1000) as i64
    } else {
        (-((-ms) / 1000)) as i64
    }
}

/// The message number of a legacy record: from `msg_ctx.message_id`,
/// else from `message_id`, each as an integer of 64 or of 32 bits.
pub open spec fn message_id_of(doc: LegacyDocument) -> Option<i64> {
    or_else(
        match document_at(doc, "msg_ctx"@) {
            Some(ctx) => integer_at(ctx, "message_id"@),
            None => None,
        },
        integer_at(doc, "message_id"@),
    )
}

/// The chat of a legacy record: `group_id`, else `chat_id`, as a 64-bit
/// integer; else the same two as a 32-bit integer.
pub open spec fn chat_id_of(doc: LegacyDocument) -> Option<i64> {
    or_else(
        or_else(int64_at(doc, "group_id"@), int64_at(doc, "chat_id"@)),
        or_else(
            match int32_at(doc, "group_id"@) {
                Some(v) => Some(v as i64),
                None => None,
            },
            match int32_at(doc, "chat_id"@) {
                Some(v) => Some(v as i64),
                None => None,
            },
        ),
    )
}

/// The author of a legacy record: `user_id` as an integer, if there.
pub open spec fn user_id_of(doc: LegacyDocument) -> Option<i64> {
    integer_at(doc, "user_id"@)
}

/// The text of a legacy record: `msg_ctx.command`, else `text`, else
/// `content`; empty where none of them is a string.
pub open spec fn text_of(doc: LegacyDocument) -> Seq<char> {
    match or_else(
        or_else(
            match document_at(doc, "msg_ctx"@) {
                Some(ctx) => text_at(ctx, "command"@),
                None => None,
            },
            text_at(doc, "text"@),
        ),
        text_at(doc, "content"@),
    ) {
        Some(t) => t,
        None => Seq::empty(),
    }
}

/// The time of a legacy record: `timestamp`, else `date`, as a point in
/// time, in whole seconds; else `date`, else `timestamp`, as a 64-bit
/// integer; else the same two as a 32-bit integer.
pub open spec fn date_of(doc: LegacyDocument) -> Option<i64> {
    or_else(
        match or_else(datetime_at(doc, "timestamp"@), datetime_at(doc, "date"@)) {
            Some(ms) => Some(millis_to_seconds(ms)),
            None => None,
        },
        or_else(
            or_else(int64_at(doc, "date"@), int64_at(doc, "timestamp"@)),
            or_else(
                match int32_at(doc, "date"@) {
                    Some(v) => Some(v as i64),
                    None => None,
                },
                match int32_at(doc, "timestamp"@) {
                    Some(v) => Some(v as i64),
                    None => None,
                },
            ),
        ),
    )
}

/// The kind that a legacy record names: `msg_type` as a number of 32
/// bits (one of 64 bits is cut to its low 32), in base ten; else
/// `message_type`, `msg_type` or `type` as a string; else `0`.
pub open spec fn message_type_of(doc: LegacyDocument) -> Seq<char> {
    match or_else(
        int32_at(doc, "msg_type"@),
        match int64_at(doc, "msg_type"@) {
            Some(v) => Some(v as i32),
            None => None,
        },
    ) {
        Some(n) => int_digits(n as int),
        None => match or_else(
            or_else(text_at(doc, "message_type"@), text_at(doc, "msg_type"@)),
            text_at(doc, "type"@),
        ) {
            Some(t) => t,
            None => seq!['0'],
        },
    }
}

/// What a legacy record holds as a message, or why it holds none. The
/// message number is looked for first, then the chat, then the time.
pub open spec fn parse_spec(doc: LegacyDocument) -> Result<MongoMessageView, ParseError> {
    match message_id_of(doc) {
        None => Err(ParseError::MissingMessageId),
        Some(message_id) => match chat_id_of(doc) {
            None => Err(ParseError::MissingChatId),
            Some(chat_id) => match date_of(doc) {
                None => Err(ParseError::MissingDate),
                Some(date) => Ok(
                    MongoMessageView {
                        message_id,
                        chat_id,
                        user_id: user_id_of(doc),
                        text: text_of(doc),
                        date,
                        message_type: message_type_of(doc),
                    },
                ),
            },
        },
    }
}

/// The time in seconds of a legacy time `date`, which is in milliseconds
/// where it is above 4,000,000,000.
pub open spec fn seconds_of(date: i64) -> i64 {
    if date > 4_000_000_000 {
        (date / 1000) as i64
    } else {
        date
    }
}

/// The stored form of a legacy message: the same message with its time
/// in seconds and the kind `text`.
pub open spec fn stored_form(m: MongoMessageView) -> EsMessageView {
    EsMessageView {
        message_id: m.message_id,
        chat_id: m.chat_id,
        user_id: m.user_id,
        text: m.text,
        date: seconds_of(m.date),
        message_type: MessageType::Text,
    }
}

impl LegacyDocument {
    /// The value of the field `key`, if there is one.
    pub fn get(&self, key: &str) -> (value: Option<&LegacyValue>)
        ensures
            match value {
                Some(v) => lookup(self.fields@, key@) == Some(*v),
                None => lookup(self.fields@, key@) is None,
            },
    {
        let mut i: usize = 0;
        assert(self.fields@.skip(0) == self.fields@);
        while i < self.fields.len()
            invariant
                i <= self.fields.len(),
                lookup(self.fields@, key@) == lookup(self.fields@.skip(i as int), key@),
            decreases self.fields.len() - i,
        {
            assert(self.fields@.skip(i as int)[0] == self.fields@[i as int]);
            assert(self.fields@.skip(i as int).drop_first() == self.fields@.skip(i + 1));
            if str_eq(self.fields[i].0.as_str(), key) {
                return Some(&self.fields[i].1);
            }
            i = i + 1;
        }
        assert(self.fields@.skip(i as int).len() == 0);
        None
    }

    /// The field `key`, where it is a 64-bit integer.
    pub fn get_i64(&self, key: &str) -> (value: Option<i64>)
        ensures
            value == int64_at(*self, key@),
    {
        match self.get(key) {
            Some(LegacyValue::Int64(v)) => Some(*v),
            _ => None,
        }
    }

    /// The field `key`, where it is a 32-bit integer.
    pub fn get_i32(&self, key: &str) -> (value: Option<i32>)
        ensures
            value == int32_at(*self, key@),
    {
        match self.get(key) {
            Some(LegacyValue::Int32(v)) => Some(*v),
            _ => None,
        }
    }

    /// The field `key`, where it is a string.
    pub fn get_str(&self, key: &str) -> (value: Option<&str>)
        ensures
            match value {
                Some(s) => text_at(*self, key@) == Some(s@),
                None => text_at(*self, key@) is None,
            },
    {
        match self.get(key) {
            Some(LegacyValue::Text(s)) => Some(s.as_str()),
            _ => None,
        }
    }

    /// The field `key` in milliseconds, where it is a point in time.
    pub fn get_datetime(&self, key: &str) -> (value: Option<i64>)
        ensures
            value == datetime_at(*self, key@),
    {
        match self.get(key) {
            Some(LegacyValue::DateTime(ms)) => Some(*ms),
            _ => None,
        }
    }

    /// The field `key`, where it is an embedded record.
    pub fn get_document(&self, key: &str) -> (value: Option<&LegacyDocument>)
        ensures
            match value {
                Some(d) => document_at(*self, key@) == Some(*d),
                None => document_at(*self, key@) is None,
            },
    {
        match self.get(key) {
            Some(LegacyValue::Document(d)) => Some(d),
            _ => None,
        }
    }

    /// The field `key` as a 64-bit integer, where it is an integer of 64
    /// or of 32 bits.
    pub fn get_integer(&self, key: &str) -> (value: Option<i64>)
        ensures
            value == integer_at(*self, key@),
    {
        match self.get_i64(key) {
            Some(v) => Some(v),
            None => match self.get_i32(key) {
                Some(v) => Some(v as i64),
                None => None,
            },
        }
    }
}

/// Whole seconds of `ms` milliseconds, cut towards zero.
fn seconds_from_millis(ms: i64) -> (s: i64)
    ensures
        s == millis_to_seconds(ms),
{
    if ms >= 0 {
        ms / 1000
    } else if ms == i64::MIN {
        -9223372036854775i64
    } else {
        -((-ms) / 1000)
    }
}

/// The low 32 bits of `v` as a signed number.
fn low_bits(v: i64) -> (n: i32)
    ensures
        n == v as i32,
{
    #[verifier::truncate]
    (v as i32)
}

/// Reads a legacy record as a message. The record must hold a message
/// number, a chat and a time; the author, the text and the kind have
/// defaults.
pub fn parse_mongo_document(doc: &LegacyDocument) -> (parsed: Result<MongoMessage, ParseError>)
    ensures
        match parsed {
            Ok(m) => parse_spec(*doc) == Ok::<MongoMessageView, ParseError>(m@),
            Err(e) => parse_spec(*doc) == Err::<MongoMessageView, ParseError>(e),
        },
{
    let ctx = doc.get_document("msg_ctx");
    let from_ctx = match ctx {
        Some(c) => c.get_integer("message_id"),
        None => None,
    };
    let message_id = match from_ctx {
        Some(v) => v,
        None => match doc.get_integer("message_id") {
            Some(v) => v,
            None => {
                return Err(ParseError::MissingMessageId);
            },
        },
    };
    let chat_id = match doc.get_i64("group_id") {
        Some(v) => v,
        None => match doc.get_i64("chat_id") {
            Some(v) => v,
            None => match doc.get_i32("group_id") {
                Some(v) => v as i64,
                None => match doc.get_i32("chat_id") {
                    Some(v) => v as i64,
                    None => {
                        return Err(ParseError::MissingChatId);
                    },
                },
            },
        },
    };
    let user_id = doc.get_integer("user_id");
    let command = match ctx {
        Some(c) => c.get_str("command"),
        None => None,
    };
    let text = match command {
        Some(t) => String::from_str(t),
        None => match doc.get_str("text") {
            Some(t) => String::from_str(t),
            None => match doc.get_str("content") {
                Some(t) => String::from_str(t),
                None => String::new(),
            },
        },
    };
    let time = match doc.get_datetime("timestamp") {
        Some(ms) => Some(ms),
        None => doc.get_datetime("date"),
    };
    let date = match time {
        Some(ms) => seconds_from_millis(ms),
        None => match doc.get_i64("date") {
            Some(v) => v,
            None => match doc.get_i64("timestamp") {
                Some(v) => v,
                None => match doc.get_i32("date") {
                    Some(v) => v as i64,
                    None => match doc.get_i32("timestamp") {
                        Some(v) => v as i64,
                        None => {
                            return Err(ParseError::MissingDate);
                        },
                    },
                },
            },
        },
    };
    let number = match doc.get_i32("msg_type") {
        Some(v) => Some(v),
        None => match doc.get_i64("msg_type") {
            Some(v) => Some(low_bits(v)),
            None => None,
        },
    };
    let message_type = match number {
        Some(n) => i64_to_string(n as i64),
        None => match doc.get_str("message_type") {
            Some(t) => String::from_str(t),
            None => match doc.get_str("msg_type") {
                Some(t) => String::from_str(t),
                None => match doc.get_str("type") {
                    Some(t) => String::from_str(t),
                    None => {
                        proof {
                            reveal_strlit("0");
                        }
                        assert("0"@ =~= seq!['0']);
                        String::from_str("0")
                    },
                },
            },
        },
    };
    Ok(MongoMessage { message_id, chat_id, user_id, text, date, message_type })
}

impl EsMessage {
    /// The stored form of a legacy message: its time in seconds (a time
    /// above 4,000,000,000 is in milliseconds) and the kind `text`.
    pub fn from(mongo_msg: MongoMessage) -> (es_msg: EsMessage)
        ensures
            es_msg@ == stored_form(mongo_msg@),
    {
        let date = if mongo_msg.date > 4_000_000_000 {
            mongo_msg.date / 1000
        } else {
            mongo_msg.date
        };
        EsMessage {
            message_id: mongo_msg.message_id,
            chat_id: mongo_msg.chat_id,
            user_id: mongo_msg.user_id,
            text: mongo_msg.text,
            date,
            message_type: MessageType::Text,
        }
    }
}

/// A legacy time that is already in seconds is stored as it is, and one
/// in milliseconds is stored in seconds.
pub proof fn lemma_seconds_of_bounds(date: i64)
    ensures
        date <= 4_000_000_000 ==> seconds_of(date) == date,
        date > 4_000_000_000 ==> 4_000_000 <= seconds_of(date) < date,
{
}

} // verus!
