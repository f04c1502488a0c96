use search_bot_rs::legacy::{
    parse_mongo_document, EsMessage, LegacyDocument, LegacyValue, MongoMessage, ParseError,
};
use search_bot_rs::message::MessageType;

fn doc(fields: Vec<(&str, LegacyValue)>) -> LegacyDocument {
    LegacyDocument {
        fields: fields.into_iter().map(|(k, v)| (k.to_string(), v)).collect(),
    }
}

fn text(s: &str) -> LegacyValue {
    LegacyValue::Text(s.to_string())
}

fn bot_log() -> LegacyDocument {
    doc(vec![
        ("group_id", LegacyValue::Int64(42)),
        ("user_id", LegacyValue::Int64(7)),
        (
            "msg_ctx",
            LegacyValue::Document(doc(vec![
                ("message_id", LegacyValue::Int64(997)),
                ("command", text("hello")),
            ])),
        ),
        ("timestamp", LegacyValue::DateTime(1_700_000_000_999)),
        ("msg_type", LegacyValue::Int32(1)),
    ])
}

#[test]
fn reads_a_record_in_its_latest_shape() {
    let m = parse_mongo_document(&bot_log()).unwrap();
    assert_eq!(m.message_id, 997);
    assert_eq!(m.chat_id, 42);
    assert_eq!(m.user_id, Some(7));
    assert_eq!(m.text, "hello");
    assert_eq!(m.date, 1_700_000_000);
    assert_eq!(m.message_type, "1");
}

#[test]
fn reads_a_record_in_its_oldest_shape() {
    let d = doc(vec![
        ("message_id", LegacyValue::Int32(5)),
        ("chat_id", LegacyValue::Int32(-9)),
        ("content", text("old")),
        ("date", LegacyValue::Int32(1_600_000_000)),
        ("type", text("photo")),
    ]);
    let m = parse_mongo_document(&d).unwrap();
    assert_eq!(m.message_id, 5);
    assert_eq!(m.chat_id, -9);
    assert_eq!(m.user_id, None);
    assert_eq!(m.text, "old");
    assert_eq!(m.date, 1_600_000_000);
    assert_eq!(m.message_type, "photo");
}

#[test]
fn embedded_message_number_comes_before_the_outer_one() {
    let d = doc(vec![
        ("message_id", LegacyValue::Int64(1)),
        ("msg_ctx", LegacyValue::Document(doc(vec![("message_id", LegacyValue::Int32(2))]))),
        ("group_id", LegacyValue::Int64(3)),
        ("date", LegacyValue::Int64(4)),
    ]);
    assert_eq!(parse_mongo_document(&d).unwrap().message_id, 2);
}

#[test]
fn outer_message_number_serves_where_the_embedded_one_is_no_integer() {
    let d = doc(vec![
        ("message_id", LegacyValue::Int64(1)),
        ("msg_ctx", LegacyValue::Document(doc(vec![("message_id", text("2"))]))),
        ("group_id", LegacyValue::Int64(3)),
        ("date", LegacyValue::Int64(4)),
    ]);
    assert_eq!(parse_mongo_document(&d).unwrap().message_id, 1);
}

#[test]
fn wide_chat_number_comes_before_a_narrow_one() {
    let d = doc(vec![
        ("message_id", LegacyValue::Int64(1)),
        ("group_id", LegacyValue::Int32(10)),
        ("chat_id", LegacyValue::Int64(20)),
        ("date", LegacyValue::Int64(4)),
    ]);
    assert_eq!(parse_mongo_document(&d).unwrap().chat_id, 20);
    let both_wide = doc(vec![
        ("message_id", LegacyValue::Int64(1)),
        ("chat_id", LegacyValue::Int64(20)),
        ("group_id", LegacyValue::Int64(10)),
        ("date", LegacyValue::Int64(4)),
    ]);
    assert_eq!(parse_mongo_document(&both_wide).unwrap().chat_id, 10);
}

#[test]
fn text_is_looked_for_in_three_places() {
    let base = |extra: Vec<(&'static str, LegacyValue)>| {
        let mut fields = vec![
            ("message_id", LegacyValue::Int64(1)),
            ("group_id", LegacyValue::Int64(3)),
            ("date", LegacyValue::Int64(4)),
        ];
        fields.extend(extra);
        doc(fields)
    };
    assert_eq!(parse_mongo_document(&base(vec![])).unwrap().text, "");
    assert_eq!(parse_mongo_document(&base(vec![("content", text("c"))])).unwrap().text, "c");
    assert_eq!(
        parse_mongo_document(&base(vec![("content", text("c")), ("text", text("t"))])).unwrap().text,
        "t"
    );
    assert_eq!(
        parse_mongo_document(&base(vec![
            ("text", text("t")),
            ("msg_ctx", LegacyValue::Document(doc(vec![("command", text("cmd"))]))),
        ]))
        .unwrap()
        .text,
        "cmd"
    );
}

#[test]
fn time_is_a_point_in_time_before_it_is_a_number() {
    let d = doc(vec![
        ("message_id", LegacyValue::Int64(1)),
        ("group_id", LegacyValue::Int64(3)),
        ("timestamp", LegacyValue::Int64(111)),
        ("date", LegacyValue::DateTime(222_999)),
    ]);
    assert_eq!(parse_mongo_document(&d).unwrap().date, 222);
    let numbers = doc(vec![
        ("message_id", LegacyValue::Int64(1)),
        ("group_id", LegacyValue::Int64(3)),
        ("timestamp", LegacyValue::Int64(111)),
        ("date", LegacyValue::Int64(333)),
    ]);
    assert_eq!(parse_mongo_document(&numbers).unwrap().date, 333);
}

#[test]
fn time_before_the_epoch_is_cut_towards_zero() {
    let d = doc(vec![
        ("message_id", LegacyValue::Int64(1)),
        ("group_id", LegacyValue::Int64(3)),
        ("timestamp", LegacyValue::DateTime(-1_500)),
    ]);
    assert_eq!(parse_mongo_document(&d).unwrap().date, -1);
    let smallest = doc(vec![
        ("message_id", LegacyValue::Int64(1)),
        ("group_id", LegacyValue::Int64(3)),
        ("timestamp", LegacyValue::DateTime(i64::MIN)),
    ]);
    assert_eq!(parse_mongo_document(&smallest).unwrap().date, i64::MIN / 1000);
}

#[test]
fn kind_is_a_number_before_it_is_a_name() {
    let with = |kind: Vec<(&'static str, LegacyValue)>| {
        let mut fields = vec![
            ("message_id", LegacyValue::Int64(1)),
            ("group_id", LegacyValue::Int64(3)),
            ("date", LegacyValue::Int64(4)),
        ];
        fields.extend(kind);
        parse_mongo_document(&doc(fields)).unwrap().message_type
    };
    assert_eq!(with(vec![]), "0");
    assert_eq!(with(vec![("msg_type", LegacyValue::Int32(-2))]), "-2");
    assert_eq!(with(vec![("msg_type", LegacyValue::Int64(3))]), "3");
    assert_eq!(with(vec![("msg_type", LegacyValue::Int64(4_294_967_297))]), "1");
    assert_eq!(with(vec![("msg_type", text("video"))]), "video");
    assert_eq!(with(vec![("type", text("a")), ("message_type", text("b"))]), "b");
}

#[test]
fn record_without_message_number_is_refused() {
    let d = doc(vec![("group_id", LegacyValue::Int64(3)), ("date", LegacyValue::Int64(4))]);
    assert_eq!(parse_mongo_document(&d).unwrap_err(), ParseError::MissingMessageId);
    let empty = doc(vec![]);
    assert_eq!(parse_mongo_document(&empty).unwrap_err(), ParseError::MissingMessageId);
}

#[test]
fn record_without_chat_is_refused() {
    let d = doc(vec![("message_id", LegacyValue::Int64(3)), ("date", LegacyValue::Int64(4))]);
    assert_eq!(parse_mongo_document(&d).unwrap_err(), ParseError::MissingChatId);
}

#[test]
fn record_without_time_is_refused() {
    let d = doc(vec![
        ("message_id", LegacyValue::Int64(3)),
        ("group_id", LegacyValue::Int64(4)),
        ("date", text("yesterday")),
        ("timestamp", LegacyValue::Other),
    ]);
    assert_eq!(parse_mongo_document(&d).unwrap_err(), ParseError::MissingDate);
}

#[test]
fn getters_tell_types_apart() {
    let d = bot_log();
    assert_eq!(d.get_i64("group_id"), Some(42));
    assert_eq!(d.get_i32("group_id"), None);
    assert_eq!(d.get_i32("msg_type"), Some(1));
    assert_eq!(d.get_integer("msg_type"), Some(1));
    assert_eq!(d.get_datetime("timestamp"), Some(1_700_000_000_999));
    assert_eq!(d.get_str("group_id"), None);
    assert!(d.get("nothing").is_none());
    assert_eq!(d.get_document("msg_ctx").unwrap().get_str("command"), Some("hello"));
}

fn legacy(date: i64) -> MongoMessage {
    MongoMessage {
        message_id: 1,
        chat_id: 2,
        user_id: Some(3),
        text: "t".to_string(),
        date,
        message_type: "1".to_string(),
    }
}

#[test]
fn stored_form_keeps_seconds_and_cuts_milliseconds() {
    assert_eq!(EsMessage::from(legacy(1_700_000_000)).date, 1_700_000_000);
    assert_eq!(EsMessage::from(legacy(4_000_000_000)).date, 4_000_000_000);
    assert_eq!(EsMessage::from(legacy(4_000_000_001)).date, 4_000_000);
    assert_eq!(EsMessage::from(legacy(1_700_000_000_123)).date, 1_700_000_000);
    assert_eq!(EsMessage::from(legacy(-5)).date, -5);
}

#[test]
fn stored_form_is_always_of_kind_text() {
    let es = EsMessage::from(legacy(10));
    assert_eq!(es.message_type, MessageType::Text);
    assert_eq!(es.message_id, 1);
    assert_eq!(es.chat_id, 2);
    assert_eq!(es.user_id, Some(3));
    assert_eq!(es.text, "t");
}
