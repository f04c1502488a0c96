use search_bot_rs::bulk::{
    bulk_directives, bulk_index, bulk_outcome, status_is_success, BulkBody, BulkResponse, Document,
    WriteOutcome,
};
use search_bot_rs::legacy::EsMessage;
use search_bot_rs::message::MessageType;
use std::collections::HashMap;

fn message(chat_id: i64, message_id: i64, text: &str) -> EsMessage {
    EsMessage {
        message_id,
        chat_id,
        user_id: None,
        text: text.to_string(),
        date: 1_700_000_000,
        message_type: MessageType::Text,
    }
}

fn answered(errors: Option<bool>, item_errors: Option<Vec<bool>>) -> BulkResponse {
    BulkResponse::Answered {
        status: 200,
        body: Some(BulkBody { errors, item_errors }),
    }
}

#[test]
fn directives_follow_the_batch_in_order() {
    let batch = vec![message(42, 997, "a"), message(42, 998, "b"), message(-7, 1, "c")];
    assert_eq!(bulk_directives(&batch), vec!["42_997", "42_998", "-7_1"]);
}

#[test]
fn empty_batch_has_no_directives() {
    let batch: Vec<EsMessage> = Vec::new();
    assert!(bulk_directives(&batch).is_empty());
    assert_eq!(
        bulk_outcome(0, &BulkResponse::TransportError),
        WriteOutcome { accepted: 0, failed: 0 }
    );
}

#[test]
fn nothing_is_sent_for_an_empty_batch() {
    let empty: Vec<EsMessage> = Vec::new();
    assert_eq!(bulk_index(&empty), None);
    assert_eq!(bulk_index(&vec![message(1, 2, "x")]), Some(vec!["1_2".to_string()]));
}

#[test]
fn key_names_chat_then_message() {
    assert_eq!(message(5, 9, "x").key(), (5, 9));
}

#[test]
fn two_item_errors_out_of_five() {
    let response = answered(Some(true), Some(vec![false, true, false, true, false]));
    assert_eq!(bulk_outcome(5, &response), WriteOutcome { accepted: 3, failed: 2 });
}

#[test]
fn clean_answer_accepts_the_whole_batch() {
    let response = answered(Some(false), Some(vec![false, false, false]));
    assert_eq!(bulk_outcome(3, &response), WriteOutcome { accepted: 3, failed: 0 });
}

#[test]
fn item_errors_count_only_under_the_errors_flag() {
    let unflagged = answered(Some(false), Some(vec![true, true]));
    assert_eq!(bulk_outcome(2, &unflagged), WriteOutcome { accepted: 2, failed: 0 });
    let no_flag = answered(None, Some(vec![true, true]));
    assert_eq!(bulk_outcome(2, &no_flag), WriteOutcome { accepted: 2, failed: 0 });
    let no_items = answered(Some(true), None);
    assert_eq!(bulk_outcome(2, &no_items), WriteOutcome { accepted: 2, failed: 0 });
}

#[test]
fn more_item_errors_than_records_fail_the_batch_and_no_more() {
    let response = answered(Some(true), Some(vec![true, true, true, true]));
    assert_eq!(bulk_outcome(3, &response), WriteOutcome { accepted: 0, failed: 3 });
}

#[test]
fn transport_failure_fails_every_record() {
    assert_eq!(
        bulk_outcome(4, &BulkResponse::TransportError),
        WriteOutcome { accepted: 0, failed: 4 }
    );
}

#[test]
fn refused_request_fails_every_record() {
    let response = BulkResponse::Answered {
        status: 503,
        body: Some(BulkBody { errors: Some(false), item_errors: None }),
    };
    assert_eq!(bulk_outcome(4, &response), WriteOutcome { accepted: 0, failed: 4 });
}

#[test]
fn unreadable_answer_fails_every_record() {
    let response = BulkResponse::Answered { status: 200, body: None };
    assert_eq!(bulk_outcome(2, &response), WriteOutcome { accepted: 0, failed: 2 });
}

#[test]
fn success_is_two_hundred_to_two_ninety_nine() {
    assert!(!status_is_success(199));
    assert!(status_is_success(200));
    assert!(status_is_success(201));
    assert!(status_is_success(299));
    assert!(!status_is_success(300));
    assert!(!status_is_success(404));
}

#[test]
fn writing_a_message_twice_leaves_one_document_with_the_latest_text() {
    let mut store: HashMap<String, EsMessage> = HashMap::new();
    for batch in [vec![message(42, 7, "first")], vec![message(42, 7, "second")]] {
        let ids = bulk_directives(&batch);
        for (id, doc) in ids.into_iter().zip(batch.into_iter()) {
            store.insert(id, doc);
        }
    }
    assert_eq!(store.len(), 1);
    assert_eq!(store["42_7"].text, "second");
}

#[test]
fn writing_a_batch_twice_changes_nothing() {
    let batch = || vec![message(1, 1, "a"), message(1, 2, "b"), message(1, 1, "c")];
    let mut once: HashMap<String, String> = HashMap::new();
    for (id, doc) in bulk_directives(&batch()).into_iter().zip(batch()) {
        once.insert(id, doc.text);
    }
    let mut twice = once.clone();
    for (id, doc) in bulk_directives(&batch()).into_iter().zip(batch()) {
        twice.insert(id, doc.text);
    }
    assert_eq!(once, twice);
    assert_eq!(once.len(), 2);
    assert_eq!(once["1_1"], "c");
}
