use search_bot_rs::search_state::{DateRange, KindFilter, SearchState, StateError};

fn state(
    page: usize,
    message_type: Option<KindFilter>,
    date_range: Option<DateRange>,
    user_id: Option<i64>,
) -> SearchState {
    SearchState { page, message_type, date_range, user_id }
}

#[test]
fn token_has_four_parts() {
    assert_eq!(state(0, None, None, None).encode(), "0|-|-|-");
    assert_eq!(
        state(12, Some(KindFilter::Photo), Some(DateRange::Month), Some(42)).encode(),
        "12|p|3|42"
    );
    assert_eq!(
        state(1, Some(KindFilter::Text), Some(DateRange::Week), Some(-5)).encode(),
        "1|t|7|-5"
    );
    assert_eq!(
        state(2, Some(KindFilter::Video), Some(DateRange::Quarter), None).encode(),
        "2|v|9|-"
    );
    assert_eq!(state(3, Some(KindFilter::Document), None, Some(0)).encode(), "3|d|-|0");
}

#[test]
fn token_reads_back_to_its_state() {
    let kinds = [None, Some(KindFilter::Text), Some(KindFilter::Photo), Some(KindFilter::Video), Some(KindFilter::Document)];
    let ranges = [None, Some(DateRange::Week), Some(DateRange::Month), Some(DateRange::Quarter)];
    let users = [None, Some(0), Some(-1), Some(i64::MIN), Some(i64::MAX)];
    for page in [0usize, 1, 99, usize::MAX] {
        for kind in kinds {
            for range in ranges {
                for user in users {
                    let s = state(page, kind, range, user);
                    assert_eq!(SearchState::decode(&s.encode()), Ok(s));
                }
            }
        }
    }
}

#[test]
fn token_must_have_four_parts() {
    assert_eq!(SearchState::decode(""), Err(StateError::InvalidFormat));
    assert_eq!(SearchState::decode("noop"), Err(StateError::InvalidFormat));
    assert_eq!(SearchState::decode("0|-|-"), Err(StateError::InvalidFormat));
    assert_eq!(SearchState::decode("0|-|-|-|"), Err(StateError::InvalidFormat));
    assert_eq!(SearchState::decode("0|-|-|-|-"), Err(StateError::InvalidFormat));
}

#[test]
fn page_must_be_a_number() {
    assert_eq!(SearchState::decode("|-|-|-"), Err(StateError::InvalidPage));
    assert_eq!(SearchState::decode("x|-|-|-"), Err(StateError::InvalidPage));
    assert_eq!(SearchState::decode("-1|-|-|-"), Err(StateError::InvalidPage));
    assert_eq!(SearchState::decode("99999999999999999999999|-|-|-"), Err(StateError::InvalidPage));
    assert_eq!(SearchState::decode("+4|-|-|-"), Ok(state(4, None, None, None)));
}

#[test]
fn kind_must_be_known() {
    assert_eq!(SearchState::decode("0|x|-|-"), Err(StateError::InvalidMessageType));
    assert_eq!(SearchState::decode("0||-|-"), Err(StateError::InvalidMessageType));
    assert_eq!(SearchState::decode("0|tt|-|-"), Err(StateError::InvalidMessageType));
    assert_eq!(SearchState::decode("0|T|-|-"), Err(StateError::InvalidMessageType));
}

#[test]
fn time_span_must_be_known() {
    assert_eq!(SearchState::decode("0|-|5|-"), Err(StateError::InvalidDateRange));
    assert_eq!(SearchState::decode("0|-||-"), Err(StateError::InvalidDateRange));
    assert_eq!(SearchState::decode("0|-|30|-"), Err(StateError::InvalidDateRange));
}

#[test]
fn author_must_be_a_number_or_none() {
    assert_eq!(SearchState::decode("0|-|-|"), Err(StateError::InvalidUserId));
    assert_eq!(SearchState::decode("0|-|-|abc"), Err(StateError::InvalidUserId));
    assert_eq!(SearchState::decode("0|-|-|--"), Err(StateError::InvalidUserId));
    assert_eq!(SearchState::decode("0|-|-|9223372036854775808"), Err(StateError::InvalidUserId));
    assert_eq!(SearchState::decode("0|-|-|+7"), Ok(state(0, None, None, Some(7))));
}

#[test]
fn errors_are_reported_from_the_first_part_on() {
    assert_eq!(SearchState::decode("x|x|x|x"), Err(StateError::InvalidPage));
    assert_eq!(SearchState::decode("0|x|x|x"), Err(StateError::InvalidMessageType));
    assert_eq!(SearchState::decode("0|-|x|x"), Err(StateError::InvalidDateRange));
}

#[test]
fn time_filter_reaches_back_by_its_days() {
    let now = 1_700_000_000;
    assert_eq!(state(0, None, None, None).to_date_from(now), None);
    assert_eq!(state(0, None, Some(DateRange::Week), None).to_date_from(now), Some(now - 7 * 86400));
    assert_eq!(state(0, None, Some(DateRange::Month), None).to_date_from(now), Some(now - 30 * 86400));
    assert_eq!(state(0, None, Some(DateRange::Quarter), None).to_date_from(now), Some(now - 90 * 86400));
    assert_eq!(state(0, None, Some(DateRange::Week), None).to_date_from(0), Some(-604800));
}

#[test]
fn time_filter_stops_at_the_smallest_time() {
    assert_eq!(state(0, None, Some(DateRange::Week), None).to_date_from(i64::MIN), Some(i64::MIN));
    assert_eq!(
        state(0, None, Some(DateRange::Week), None).to_date_from(i64::MIN + 604800),
        Some(i64::MIN)
    );
    assert_eq!(
        state(0, None, Some(DateRange::Week), None).to_date_from(i64::MIN + 604801),
        Some(i64::MIN + 1)
    );
}

#[test]
fn filters_have_their_names() {
    assert_eq!(KindFilter::Text.as_str(), "text");
    assert_eq!(KindFilter::Photo.as_str(), "photo");
    assert_eq!(KindFilter::Video.as_str(), "video");
    assert_eq!(KindFilter::Document.as_str(), "document");
    assert_eq!(DateRange::Week.as_str(), "7d");
    assert_eq!(DateRange::Month.as_str(), "30d");
    assert_eq!(DateRange::Quarter.as_str(), "90d");
}
