use search_bot_rs::message::{ChatMessage, MessageType};
use search_bot_rs::search::{Clause, SearchClient, SearchHit, SearchParams};

fn client() -> SearchClient {
    SearchClient::new("telegram_messages".to_string())
}

fn hit(message_id: i64) -> SearchHit {
    SearchHit {
        message: ChatMessage {
            message_id,
            chat_id: -100,
            user_id: None,
            username: None,
            display_name: String::new(),
            text: "t".to_string(),
            date: 0,
            reply_to_message_id: None,
            message_type: MessageType::Text,
            chat_title: None,
        },
        highlight: None,
    }
}

fn shape(clauses: &[Clause]) -> Vec<String> {
    clauses.iter().map(|c| format!("{:?}", c)).collect()
}

#[test]
fn default_search_is_the_first_page_of_five() {
    let params = SearchParams::default();
    assert_eq!(params.chat_id, 0);
    assert_eq!(params.keyword, None);
    assert_eq!(params.user_id, None);
    assert_eq!(params.date_from, None);
    assert_eq!(params.date_to, None);
    assert_eq!(params.message_type, None);
    assert_eq!(params.page, 0);
    assert_eq!(params.page_size, 5);
}

#[test]
fn client_keeps_its_index() {
    assert_eq!(client().index_name, "telegram_messages");
}

#[test]
fn search_without_filters_matches_all_in_the_chat() {
    let params = SearchParams { chat_id: -100, ..SearchParams::default() };
    let query = client().build_query(&params);
    assert_eq!(shape(&query.must), vec!["MatchAll"]);
    assert_eq!(shape(&query.filter), vec!["TermChat(-100)"]);
}

#[test]
fn empty_keyword_matches_all() {
    let params = SearchParams { keyword: Some(String::new()), ..SearchParams::default() };
    assert_eq!(shape(&client().build_query(&params).must), vec!["MatchAll"]);
}

#[test]
fn every_filter_has_its_clause_in_order() {
    let params = SearchParams {
        chat_id: 7,
        keyword: Some("rust".to_string()),
        user_id: Some(9),
        date_from: Some(100),
        date_to: Some(200),
        message_type: Some("photo".to_string()),
        page: 2,
        page_size: 5,
    };
    let query = client().build_query(&params);
    assert_eq!(shape(&query.must), vec!["MatchText(\"rust\")"]);
    assert_eq!(
        shape(&query.filter),
        vec![
            "TermChat(7)",
            "TermUser(9)",
            "RangeDate { gte: Some(100), lte: Some(200) }",
            "TermMessageType(\"photo\")",
        ]
    );
}

#[test]
fn one_bound_is_enough_for_a_range() {
    let from = SearchParams { date_from: Some(1), ..SearchParams::default() };
    assert_eq!(
        shape(&client().build_query(&from).filter),
        vec!["TermChat(0)", "RangeDate { gte: Some(1), lte: None }"]
    );
    let to = SearchParams { date_to: Some(2), ..SearchParams::default() };
    assert_eq!(
        shape(&client().build_query(&to).filter),
        vec!["TermChat(0)", "RangeDate { gte: None, lte: Some(2) }"]
    );
}

#[test]
fn offset_is_page_times_page_size() {
    let params = SearchParams { page: 3, page_size: 5, ..SearchParams::default() };
    assert_eq!(client().page_offset(&params), Some(15));
    let first = SearchParams { page: 0, page_size: 50, ..SearchParams::default() };
    assert_eq!(client().page_offset(&first), Some(0));
    let huge = SearchParams { page: usize::MAX, page_size: 2, ..SearchParams::default() };
    assert_eq!(client().page_offset(&huge), None);
}

#[test]
fn pages_are_counted_rounding_up() {
    let pages = |total: u64, size: usize| client().parse_response(Some(total), vec![], 0, size).total_pages;
    assert_eq!(pages(0, 5), 0);
    assert_eq!(pages(1, 5), 1);
    assert_eq!(pages(5, 5), 1);
    assert_eq!(pages(6, 5), 2);
    assert_eq!(pages(10, 5), 2);
    assert_eq!(pages(11, 5), 3);
    assert_eq!(pages(7, 1), 7);
    assert_eq!(pages(u64::MAX, 1), usize::MAX);
}

#[test]
fn missing_total_is_nought() {
    let result = client().parse_response(None, vec![Some(hit(1))], 4, 5);
    assert_eq!(result.total, 0);
    assert_eq!(result.total_pages, 0);
    assert_eq!(result.page, 4);
    assert_eq!(result.messages.len(), 1);
}

#[test]
fn unreadable_hits_are_passed_over_and_order_is_kept() {
    let hits = vec![Some(hit(1)), None, Some(hit(2)), Some(hit(3)), None];
    let result = client().parse_response(Some(12), hits, 1, 5);
    let ids: Vec<i64> = result.messages.iter().map(|h| h.message.message_id).collect();
    assert_eq!(ids, vec![1, 2, 3]);
    assert_eq!(result.total, 12);
    assert_eq!(result.total_pages, 3);
    assert_eq!(result.page, 1);
}
