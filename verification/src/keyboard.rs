//! The buttons under a page of search results: turning pages and
//! narrowing the search by time and by kind.
//!
//! Every button carries the whole state of the search that it leads to,
//! as a token. A filter button leads to the first page of the narrowed
//! search. The button of the filter that is in force is marked.

use vstd::prelude::*;
use vstd::string::StringExecFns;
use crate::decimal::{nat_digits, push_nat};
use crate::search::SearchResult;
use crate::search_state::{encode_spec, DateRange, KindFilter, SearchState};

verus! {

/// A button: what it shows and what it sends back when pressed.
#[derive(Debug, Clone)]
pub struct Button {
    pub text: String,
    pub data: String,
}

/// A button, in character sequences.
pub struct ButtonView {
    pub text: Seq<char>,
    pub data: Seq<char>,
}

impl View for Button {
    type V = ButtonView;

    open spec fn view(&self) -> ButtonView {
        ButtonView { text: self.text@, data: self.data@ }
    }
}

/// The buttons of `row`, in character sequences.
pub open spec fn row_views(row: Seq<Button>) -> Seq<ButtonView> {
    Seq::new(row.len(), |i: int| row[i]@)
}

/// The rows of `rows`, in character sequences.
pub open spec fn keyboard_views(rows: Seq<Vec<Button>>) -> Seq<Seq<ButtonView>> {
    Seq::new(rows.len(), |i: int| row_views(rows[i]@))
}

/// The text of a filter button: its label, marked where the filter is
/// in force.
pub open spec fn marked(label: Seq<char>, active: bool) -> Seq<char> {
    if active {
        "✓ "@ + label
    } else {
        label
    }
}

/// The button that narrows the search to the time span `range`.
pub open spec fn date_button(state: SearchState, range: Option<DateRange>, label: Seq<char>)
    -> ButtonView {
    ButtonView {
        text: marked(label, state.date_range == range),
        data: encode_spec(SearchState { page: 0, date_range: range, ..state }),
    }
}

/// The button that narrows the search to the kind `kind`, or lifts that
/// filter where it is in force.
pub open spec fn kind_button(state: SearchState, kind: KindFilter, label: Seq<char>)
    -> ButtonView {
    let active = state.message_type == Some(kind);
    ButtonView {
        text: marked(label, active),
        data: encode_spec(
            SearchState {
                page: 0,
                message_type: if active {
                    None
                } else {
                    Some(kind)
                },
                ..state
            },
        ),
    }
}

/// The row that turns pages: back, where there is a page before; the
/// page and the number of pages; on, where there is a page after.
pub open spec fn nav_row(page: usize, total_pages: usize, state: SearchState) -> Seq<ButtonView> {
    let back = if page > 0 {
        seq![
            ButtonView {
                text: "⬅ 上一页"@,
                data: encode_spec(SearchState { page: (page - 1) as usize, ..state }),
            },
        ]
    } else {
        Seq::empty()
    };
    let here = seq![
        ButtonView {
            text: nat_digits((page + 1) as nat) + seq!['/'] + nat_digits(total_pages as nat),
            data: "noop"@,
        },
    ];
    let on = if page + 1 < total_pages {
        seq![
            ButtonView {
                text: "下一页 ➡"@,
                data: encode_spec(SearchState { page: (page + 1) as usize, ..state }),
            },
        ]
    } else {
        Seq::empty()
    };
    back + here + on
}

/// The row of time filters: 7, 30 and 90 days, and all.
pub open spec fn date_row(state: SearchState) -> Seq<ButtonView> {
    seq![
        date_button(state, Some(DateRange::Week), "7天内"@),
        date_button(state, Some(DateRange::Month), "30天内"@),
        date_button(state, Some(DateRange::Quarter), "90天内"@),
        date_button(state, None, "全部"@),
    ]
}

/// The row of kind filters: text, photo, video and document.
pub open spec fn kind_row(state: SearchState) -> Seq<ButtonView> {
    seq![
        kind_button(state, KindFilter::Text, "文字"@),
        kind_button(state, KindFilter::Photo, "图片"@),
        kind_button(state, KindFilter::Video, "视频"@),
        kind_button(state, KindFilter::Document, "文件"@),
    ]
}

/// The rows under a page of results: the page turner where there is
/// more than one page, the time filters, and the kind filters unless
/// the search is narrowed to one author.
pub open spec fn keyboard_spec(
    page: usize,
    total_pages: usize,
    state: SearchState,
    has_user_filter: bool,
) -> Seq<Seq<ButtonView>> {
    (if total_pages > 1 {
        seq![nav_row(page, total_pages, state)]
    } else {
        Seq::empty()
    }) + seq![date_row(state)] + (if has_user_filter {
        Seq::empty()
    } else {
        seq![kind_row(state)]
    })
}

/// A filter button.
fn filter_button(label: &str, active: bool, leads_to: SearchState) -> (button: Button)
    ensures
        button@.text == marked(label@, active),
        button@.data == encode_spec(leads_to),
{
    let text = if active {
        String::from_str("✓ ").concat(label)
    } else {
        String::from_str(label)
    };
    Button { text, data: leads_to.encode() }
}

/// The button that narrows the search to the time span `range`.
fn make_date_button(state: &SearchState, range: Option<DateRange>, label: &str) -> (button: Button)
    ensures
        button@ == date_button(*state, range, label@),
{
    let active = match (state.date_range, range) {
        (Some(DateRange::Week), Some(DateRange::Week)) => true,
        (Some(DateRange::Month), Some(DateRange::Month)) => true,
        (Some(DateRange::Quarter), Some(DateRange::Quarter)) => true,
        (None, None) => true,
        _ => false,
    };
    filter_button(
        label,
        active,
        SearchState {
            page: 0,
            message_type: state.message_type,
            date_range: range,
            user_id: state.user_id,
        },
    )
}

/// The button that narrows the search to the kind `kind`.
fn make_kind_button(state: &SearchState, kind: KindFilter, label: &str) -> (button: Button)
    ensures
        button@ == kind_button(*state, kind, label@),
{
    let active = match (state.message_type, kind) {
        (Some(KindFilter::Text), KindFilter::Text) => true,
        (Some(KindFilter::Photo), KindFilter::Photo) => true,
        (Some(KindFilter::Video), KindFilter::Video) => true,
        (Some(KindFilter::Document), KindFilter::Document) => true,
        _ => false,
    };
    filter_button(
        label,
        active,
        SearchState {
            page: 0,
            message_type: if active {
                None
            } else {
                Some(kind)
            },
            date_range: state.date_range,
            user_id: state.user_id,
        },
    )
}

/// The row that turns pages.
fn build_nav_row(page: usize, total_pages: usize, state: &SearchState) -> (row: Vec<Button>)
    requires
        page < usize::MAX,
    ensures
        row_views(row@) == nav_row(page, total_pages, *state),
{
    let mut row: Vec<Button> = Vec::new();
    if page > 0 {
        let back = SearchState {
            page: page - 1,
            message_type: state.message_type,
            date_range: state.date_range,
            user_id: state.user_id,
        };
        row.push(Button { text: String::from_str("⬅ 上一页"), data: back.encode() });
    }
    let mut here = String::new();
    push_nat(&mut here, (page + 1) as u64);
    here.append("/");
    push_nat(&mut here, total_pages as u64);
    proof {
        reveal_strlit("/");
    }
    assert("/"@ =~= seq!['/']);
    row.push(Button { text: here, data: String::from_str("noop") });
    if page + 1 < total_pages {
        let on = SearchState {
            page: page + 1,
            message_type: state.message_type,
            date_range: state.date_range,
            user_id: state.user_id,
        };
        row.push(Button { text: String::from_str("下一页 ➡"), data: on.encode() });
    }
    assert(row_views(row@) =~= nav_row(page, total_pages, *state));
    row
}

/// The rows of buttons under the page `result` of the search `state`.
pub fn build_keyboard(result: &SearchResult, state: &SearchState, has_user_filter: bool) -> (rows:
    Vec<Vec<Button>>)
    requires
        result.total_pages > 1 ==> result.page < usize::MAX,
    ensures
        keyboard_views(rows@) == keyboard_spec(
            result.page,
            result.total_pages,
            *state,
            has_user_filter,
        ),
{
    let mut rows: Vec<Vec<Button>> = Vec::new();
    if result.total_pages > 1 {
        rows.push(build_nav_row(result.page, result.total_pages, state));
    }
    let mut dates: Vec<Button> = Vec::new();
    dates.push(make_date_button(state, Some(DateRange::Week), "7天内"));
    dates.push(make_date_button(state, Some(DateRange::Month), "30天内"));
    dates.push(make_date_button(state, Some(DateRange::Quarter), "90天内"));
    dates.push(make_date_button(state, None, "全部"));
    assert(row_views(dates@) =~= date_row(*state));
    rows.push(dates);
    if !has_user_filter {
        let mut kinds: Vec<Button> = Vec::new();
        kinds.push(make_kind_button(state, KindFilter::Text, "文字"));
        kinds.push(make_kind_button(state, KindFilter::Photo, "图片"));
        kinds.push(make_kind_button(state, KindFilter::Video, "视频"));
        kinds.push(make_kind_button(state, KindFilter::Document, "文件"));
        assert(row_views(kinds@) =~= kind_row(*state));
        rows.push(kinds);
    }
    assert(keyboard_views(rows@) =~= keyboard_spec(
        result.page,
        result.total_pages,
        *state,
        has_user_filter,
    ));
    rows
}

} // verus!
