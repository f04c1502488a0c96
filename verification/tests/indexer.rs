use search_bot_rs::bulk::bulk_directives;
use search_bot_rs::indexer::{
    checked_queue_capacity, flush_buffer, queue_capacity, FlushScheduler, IndexerAction,
    IndexerEvent,
};
use search_bot_rs::message::{ChatMessage, MessageType};

fn message(message_id: i64) -> ChatMessage {
    ChatMessage {
        message_id,
        chat_id: -100,
        user_id: Some(1),
        username: None,
        display_name: "A".to_string(),
        text: format!("m{}", message_id),
        date: 1_700_000_000,
        reply_to_message_id: None,
        message_type: MessageType::Text,
        chat_title: None,
    }
}

fn numbers(batch: &[ChatMessage]) -> Vec<i64> {
    batch.iter().map(|m| m.message_id).collect()
}

fn flushed(action: IndexerAction) -> Option<Vec<i64>> {
    match action {
        IndexerAction::Flush(batch) | IndexerAction::FlushAndStop(batch) => Some(numbers(&batch)),
        IndexerAction::Wait | IndexerAction::Stop => None,
    }
}

#[test]
fn batch_is_written_when_it_reaches_the_threshold() {
    let mut scheduler = FlushScheduler::new(3);
    assert!(matches!(scheduler.on_event(IndexerEvent::Message(message(1))), IndexerAction::Wait));
    assert!(matches!(scheduler.on_event(IndexerEvent::Message(message(2))), IndexerAction::Wait));
    assert_eq!(scheduler.buffered(), 2);
    match scheduler.on_event(IndexerEvent::Message(message(3))) {
        IndexerAction::Flush(batch) => assert_eq!(numbers(&batch), vec![1, 2, 3]),
        other => panic!("{:?}", other),
    }
    assert_eq!(scheduler.buffered(), 0);
}

#[test]
fn as_many_messages_as_the_threshold_give_a_full_batch() {
    for threshold in [1usize, 2, 5] {
        for arriving in [threshold, threshold + 1, 3 * threshold + 1] {
            let mut scheduler = FlushScheduler::new(threshold);
            let mut batches = Vec::new();
            for n in 0..arriving {
                if let Some(b) = flushed(scheduler.on_event(IndexerEvent::Message(message(n as i64)))) {
                    batches.push(b);
                }
            }
            assert!(!batches.is_empty());
            assert!(batches.iter().all(|b| b.len() >= threshold));
            assert_eq!(batches.len(), arriving / threshold);
            assert!(scheduler.buffered() < threshold);
        }
    }
}

#[test]
fn tick_writes_a_batch_that_is_not_empty() {
    let mut scheduler = FlushScheduler::new(50);
    scheduler.on_event(IndexerEvent::Message(message(1)));
    scheduler.on_event(IndexerEvent::Message(message(2)));
    match scheduler.on_event(IndexerEvent::Tick) {
        IndexerAction::Flush(batch) => assert_eq!(numbers(&batch), vec![1, 2]),
        other => panic!("{:?}", other),
    }
    assert_eq!(scheduler.buffered(), 0);
}

#[test]
fn tick_on_an_empty_buffer_does_nothing() {
    let mut scheduler = FlushScheduler::new(50);
    assert!(matches!(scheduler.on_event(IndexerEvent::Tick), IndexerAction::Wait));
    scheduler.on_event(IndexerEvent::Message(message(1)));
    assert!(matches!(scheduler.on_event(IndexerEvent::Tick), IndexerAction::Flush(_)));
    assert!(matches!(scheduler.on_event(IndexerEvent::Tick), IndexerAction::Wait));
}

#[test]
fn closing_writes_exactly_what_is_left_and_stops() {
    let mut scheduler = FlushScheduler::new(10);
    for n in 1..=4 {
        scheduler.on_event(IndexerEvent::Message(message(n)));
    }
    match scheduler.on_event(IndexerEvent::Closed) {
        IndexerAction::FlushAndStop(batch) => assert_eq!(numbers(&batch), vec![1, 2, 3, 4]),
        other => panic!("{:?}", other),
    }
    assert_eq!(scheduler.buffered(), 0);
}

#[test]
fn closing_an_empty_buffer_stops_without_a_write() {
    let mut scheduler = FlushScheduler::new(10);
    assert!(matches!(scheduler.on_event(IndexerEvent::Closed), IndexerAction::Stop));
}

#[test]
fn threshold_nought_writes_every_message_at_once() {
    let mut scheduler = FlushScheduler::new(0);
    assert_eq!(flushed(scheduler.on_event(IndexerEvent::Message(message(1)))), Some(vec![1]));
    assert_eq!(flushed(scheduler.on_event(IndexerEvent::Message(message(2)))), Some(vec![2]));
}

#[test]
fn messages_leave_in_the_order_they_came() {
    let mut scheduler = FlushScheduler::new(3);
    let mut out = Vec::new();
    let mut events = Vec::new();
    for n in 1..=8 {
        events.push(IndexerEvent::Message(message(n)));
        if n % 5 == 0 {
            events.push(IndexerEvent::Tick);
        }
    }
    events.push(IndexerEvent::Closed);
    for event in events {
        if let Some(batch) = flushed(scheduler.on_event(event)) {
            out.extend(batch);
        }
    }
    assert_eq!(out, (1..=8).collect::<Vec<i64>>());
}

#[test]
fn flush_buffer_empties_the_buffer() {
    let mut buffer = vec![message(1), message(2)];
    let batch = flush_buffer(&mut buffer);
    assert_eq!(numbers(&batch), vec![1, 2]);
    assert!(buffer.is_empty());
    assert_eq!(bulk_directives(&batch), vec!["-100_1", "-100_2"]);
}

#[test]
fn queue_holds_four_batches() {
    assert_eq!(queue_capacity(50), 200);
    assert_eq!(queue_capacity(1), 4);
    assert_eq!(checked_queue_capacity(50), Some(200));
    assert_eq!(checked_queue_capacity(0), None);
    assert_eq!(checked_queue_capacity(usize::MAX / 4), Some(usize::MAX / 4 * 4));
    assert_eq!(checked_queue_capacity(usize::MAX / 4 + 1), None);
}
