use search_bot_rs::callback::{
    callback_plan, handle_callback, handle_search, is_not_modified, CallbackError, CallbackMessage,
    CallbackPlan, SearchPlan,
};
use search_bot_rs::search_state::{DateRange, KindFilter, SearchState, StateError};

fn message(original: Option<Option<&str>>) -> CallbackMessage {
    CallbackMessage {
        chat_id: -100,
        original_text: original.map(|t| t.map(String::from)),
    }
}

#[test]
fn blank_query_gets_the_usage_note() {
    assert!(matches!(handle_search(1, "", None, 5), SearchPlan::Usage));
    assert!(matches!(handle_search(1, "   ", Some(3), 5), SearchPlan::Usage));
    assert!(matches!(handle_search(1, "\t\n", None, 5), SearchPlan::Usage));
}

#[test]
fn query_becomes_a_search_of_the_first_page() {
    match handle_search(-100, "hello", None, 5) {
        SearchPlan::Search { params, state } => {
            assert_eq!(params.chat_id, -100);
            assert_eq!(params.keyword.as_deref(), Some("hello"));
            assert_eq!(params.user_id, None);
            assert_eq!(params.date_from, None);
            assert_eq!(params.date_to, None);
            assert_eq!(params.message_type, None);
            assert_eq!(params.page, 0);
            assert_eq!(params.page_size, 5);
            assert_eq!(state, SearchState { page: 0, message_type: None, date_range: None, user_id: None });
        }
        other => panic!("{:?}", other),
    }
}

#[test]
fn author_comes_from_the_query_or_from_the_answered_message() {
    match handle_search(1, "id:42 hello", Some(9), 7) {
        SearchPlan::Search { params, state } => {
            assert_eq!(params.keyword.as_deref(), Some("hello"));
            assert_eq!(params.user_id, Some(42));
            assert_eq!(params.page_size, 7);
            assert_eq!(state.user_id, Some(42));
        }
        other => panic!("{:?}", other),
    }
    match handle_search(1, "hello", Some(9), 7) {
        SearchPlan::Search { params, state } => {
            assert_eq!(params.user_id, Some(9));
            assert_eq!(state.user_id, Some(9));
        }
        other => panic!("{:?}", other),
    }
}

#[test]
fn press_without_data_is_ignored() {
    assert!(matches!(callback_plan(None, None, 5, 0), Ok(CallbackPlan::Ignore)));
    assert!(matches!(handle_callback(None, Some(&message(None)), 5), Ok(CallbackPlan::Ignore)));
}

#[test]
fn press_of_the_page_number_is_only_acknowledged() {
    assert!(matches!(callback_plan(Some("noop"), None, 5, 0), Ok(CallbackPlan::Acknowledge)));
    assert!(matches!(handle_callback(Some("noop"), Some(&message(None)), 5), Ok(CallbackPlan::Acknowledge)));
}

#[test]
fn press_on_an_unreachable_message_does_nothing_more() {
    assert!(matches!(callback_plan(Some("0|-|-|-"), None, 5, 0), Ok(CallbackPlan::AcknowledgeOnly)));
    assert!(matches!(callback_plan(Some("garbage"), None, 5, 0), Ok(CallbackPlan::AcknowledgeOnly)));
}

#[test]
fn bad_token_is_an_error() {
    let m = message(Some(Some("/s hello")));
    assert_eq!(
        callback_plan(Some("garbage"), Some(&m), 5, 0).unwrap_err(),
        CallbackError::State(StateError::InvalidFormat)
    );
    assert_eq!(
        handle_callback(Some("x|-|-|-"), Some(&m), 5).unwrap_err(),
        CallbackError::State(StateError::InvalidPage)
    );
}

#[test]
fn results_must_answer_a_message_with_text() {
    assert_eq!(
        callback_plan(Some("0|-|-|-"), Some(&message(None)), 5, 0).unwrap_err(),
        CallbackError::NoOriginalMessage
    );
    assert_eq!(
        callback_plan(Some("0|-|-|-"), Some(&message(Some(None))), 5, 0).unwrap_err(),
        CallbackError::NoText
    );
}

#[test]
fn press_runs_the_search_of_its_token() {
    let m = message(Some(Some("/s id:7 hello world")));
    match callback_plan(Some("2|p|3|42"), Some(&m), 5, 1_700_000_000).unwrap() {
        CallbackPlan::Search { params, state } => {
            assert_eq!(
                state,
                SearchState {
                    page: 2,
                    message_type: Some(KindFilter::Photo),
                    date_range: Some(DateRange::Month),
                    user_id: Some(42),
                }
            );
            assert_eq!(params.chat_id, -100);
            assert_eq!(params.keyword.as_deref(), Some("hello world"));
            assert_eq!(params.user_id, Some(42));
            assert_eq!(params.page, 2);
            assert_eq!(params.page_size, 5);
            assert_eq!(params.message_type.as_deref(), Some("photo"));
            assert_eq!(params.date_from, Some(1_700_000_000 - 30 * 86400));
            assert_eq!(params.date_to, None);
        }
        other => panic!("{:?}", other),
    }
}

#[test]
fn press_without_filters_searches_the_whole_text() {
    let m = message(Some(Some("hello")));
    match callback_plan(Some("0|-|-|-"), Some(&m), 9, 50).unwrap() {
        CallbackPlan::Search { params, .. } => {
            assert_eq!(params.keyword.as_deref(), Some("hello"));
            assert_eq!(params.user_id, None);
            assert_eq!(params.message_type, None);
            assert_eq!(params.date_from, None);
            assert_eq!(params.page_size, 9);
        }
        other => panic!("{:?}", other),
    }
}

#[test]
fn press_at_the_present_time_reaches_back_from_now() {
    let m = message(Some(Some("/s hello")));
    match handle_callback(Some("0|-|7|-"), Some(&m), 5).unwrap() {
        CallbackPlan::Search { params, state } => {
            assert_eq!(state.date_range, Some(DateRange::Week));
            let from = params.date_from.unwrap();
            assert!(from > 1_600_000_000 - 7 * 86400);
        }
        other => panic!("{:?}", other),
    }
}

#[test]
fn unchanged_text_is_no_failure() {
    assert!(is_not_modified("Bad Request: message is not modified: specified new message content"));
    assert!(is_not_modified("message is not modified"));
    assert!(!is_not_modified("message is not modifie"));
    assert!(!is_not_modified("Message Is Not Modified"));
    assert!(!is_not_modified(""));
}
