use search_bot_rs::keyboard::{build_keyboard, Button};
use search_bot_rs::search::SearchResult;
use search_bot_rs::search_state::{DateRange, KindFilter, SearchState};

fn page(page: usize, total_pages: usize) -> SearchResult {
    SearchResult { total: 100, messages: vec![], page, total_pages }
}

fn plain() -> SearchState {
    SearchState { page: 0, message_type: None, date_range: None, user_id: None }
}

fn texts(row: &[Button]) -> Vec<&str> {
    row.iter().map(|b| b.text.as_str()).collect()
}

fn data(row: &[Button]) -> Vec<&str> {
    row.iter().map(|b| b.data.as_str()).collect()
}

#[test]
fn single_page_has_no_page_turner() {
    let rows = build_keyboard(&page(0, 1), &plain(), false);
    assert_eq!(rows.len(), 2);
    assert_eq!(texts(&rows[0]), vec!["7天内", "30天内", "90天内", "✓ 全部"]);
    assert_eq!(texts(&rows[1]), vec!["文字", "图片", "视频", "文件"]);
    let none = build_keyboard(&page(0, 0), &plain(), false);
    assert_eq!(none.len(), 2);
}

#[test]
fn first_page_turns_on_only() {
    let rows = build_keyboard(&page(0, 3), &plain(), false);
    assert_eq!(rows.len(), 3);
    assert_eq!(texts(&rows[0]), vec!["1/3", "下一页 ➡"]);
    assert_eq!(data(&rows[0]), vec!["noop", "1|-|-|-"]);
}

#[test]
fn middle_page_turns_both_ways() {
    let state = SearchState { page: 1, ..plain() };
    let rows = build_keyboard(&page(1, 3), &state, false);
    assert_eq!(texts(&rows[0]), vec!["⬅ 上一页", "2/3", "下一页 ➡"]);
    assert_eq!(data(&rows[0]), vec!["0|-|-|-", "noop", "2|-|-|-"]);
}

#[test]
fn last_page_turns_back_only() {
    let state = SearchState { page: 2, ..plain() };
    let rows = build_keyboard(&page(2, 3), &state, false);
    assert_eq!(texts(&rows[0]), vec!["⬅ 上一页", "3/3"]);
    assert_eq!(data(&rows[0]), vec!["1|-|-|-", "noop"]);
}

#[test]
fn page_turner_keeps_the_filters() {
    let state = SearchState {
        page: 1,
        message_type: Some(KindFilter::Photo),
        date_range: Some(DateRange::Month),
        user_id: Some(42),
    };
    let rows = build_keyboard(&page(1, 5), &state, true);
    assert_eq!(data(&rows[0]), vec!["0|p|3|42", "noop", "2|p|3|42"]);
}

#[test]
fn time_filters_lead_to_the_first_page() {
    let state = SearchState {
        page: 4,
        message_type: Some(KindFilter::Video),
        date_range: Some(DateRange::Week),
        user_id: None,
    };
    let rows = build_keyboard(&page(4, 9), &state, false);
    assert_eq!(texts(&rows[1]), vec!["✓ 7天内", "30天内", "90天内", "全部"]);
    assert_eq!(data(&rows[1]), vec!["0|v|7|-", "0|v|3|-", "0|v|9|-", "0|v|-|-"]);
}

#[test]
fn kind_filter_in_force_is_marked_and_lifts_itself() {
    let state = SearchState { page: 2, message_type: Some(KindFilter::Photo), ..plain() };
    let rows = build_keyboard(&page(2, 9), &state, false);
    assert_eq!(texts(&rows[2]), vec!["文字", "✓ 图片", "视频", "文件"]);
    assert_eq!(data(&rows[2]), vec!["0|t|-|-", "0|-|-|-", "0|v|-|-", "0|d|-|-"]);
}

#[test]
fn author_filter_hides_the_kind_filters() {
    let state = SearchState { user_id: Some(7), ..plain() };
    let rows = build_keyboard(&page(0, 1), &state, true);
    assert_eq!(rows.len(), 1);
    assert_eq!(data(&rows[0]), vec!["0|-|7|7", "0|-|3|7", "0|-|9|7", "0|-|-|7"]);
}

#[test]
fn every_button_but_the_page_number_carries_a_state() {
    let state = SearchState {
        page: 3,
        message_type: Some(KindFilter::Document),
        date_range: Some(DateRange::Quarter),
        user_id: Some(-9),
    };
    for row in build_keyboard(&page(3, 8), &state, false) {
        for button in row {
            if button.data != "noop" {
                assert!(SearchState::decode(&button.data).is_ok(), "{}", button.data);
            }
        }
    }
}
