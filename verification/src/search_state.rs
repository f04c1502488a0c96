//! The state of a search as it travels inside the buttons of a result
//! message: page, kind filter, time filter and author filter, packed
//! into a short token.
//!
//! The token is `{page}|{kind}|{time}|{author}`: the page in base ten;
//! the kind as `t`, `p`, `v`, `d` or `-` for none; the time span as `7`,
//! `3`, `9` or `-` for none; the author's number in base ten or `-` for
//! none. Nothing about a search is kept anywhere else.

use vstd::prelude::*;
use crate::decimal::{
    int_digits, lemma_int_digits_chars, lemma_nat_digits_shape, lemma_parse_int_of_int_digits,
    lemma_parse_nat_of_nat_digits, nat_digits, parse_i64_chars, parse_int, parse_nat,
    parse_usize_chars, push_int, push_nat, is_digit,
};
use crate::text::{
    chars_of, free_of, lemma_split_append_part, lemma_split_plain, part_views, push_char, split,
    split_chars,
};

verus! {

/// The kinds of message that a search can be narrowed to.
#[derive(Clone, Copy, Debug, PartialEq, Eq, Structural)]
pub enum KindFilter {
    Text,
    Photo,
    Video,
    Document,
}

/// The time spans that a search can be narrowed to.
#[derive(Clone, Copy, Debug, PartialEq, Eq, Structural)]
pub enum DateRange {
    /// The last 7 days.
    Week,
    /// The last 30 days.
    Month,
    /// The last 90 days.
    Quarter,
}

/// The state of a search.
#[derive(Clone, Copy, Debug, PartialEq, Eq, Structural)]
pub struct SearchState {
    pub page: usize,
    pub message_type: Option<KindFilter>,
    pub date_range: Option<DateRange>,
    pub user_id: Option<i64>,
}

/// Why a token is no search state.
#[derive(Clone, Copy, Debug, PartialEq, Eq, Structural)]
pub enum StateError {
    /// The token does not have four parts.
    InvalidFormat,
    /// The first part is no page number.
    InvalidPage,
    /// The second part names no kind.
    InvalidMessageType,
    /// The third part names no time span.
    InvalidDateRange,
    /// The fourth part is neither `-` nor a number.
    InvalidUserId,
}

impl KindFilter {
    /// The kind's name as the store holds it.
    pub open spec fn name(self) -> Seq<char> {
        match self {
            KindFilter::Text => "text"@,
            KindFilter::Photo => "photo"@,
            KindFilter::Video => "video"@,
            KindFilter::Document => "document"@,
        }
    }

    /// The kind's name as the store holds it.
    pub fn as_str(&self) -> (s: &'static str)
        ensures
            s@ == self.name(),
    {
        match self {
            KindFilter::Text => "text",
            KindFilter::Photo => "photo",
            KindFilter::Video => "video",
            KindFilter::Document => "document",
        }
    }
}

impl DateRange {
    /// The number of days of the span.
    pub open spec fn days(self) -> int {
        match self {
            DateRange::Week => 7,
            DateRange::Month => 30,
            DateRange::Quarter => 90,
        }
    }

    /// The span's short name: `7d`, `30d` or `90d`.
    pub open spec fn name(self) -> Seq<char> {
        match self {
            DateRange::Week => "7d"@,
            DateRange::Month => "30d"@,
            DateRange::Quarter => "90d"@,
        }
    }

    /// The span's short name.
    pub fn as_str(&self) -> (s: &'static str)
        ensures
            s@ == self.name(),
    {
        match self {
            DateRange::Week => "7d",
            DateRange::Month => "30d",
            DateRange::Quarter => "90d",
        }
    }
}

/// The letter that stands for a kind filter in a token.
pub open spec fn kind_letter(kind: Option<KindFilter>) -> char {
    match kind {
        Some(KindFilter::Text) => 't',
        Some(KindFilter::Photo) => 'p',
        Some(KindFilter::Video) => 'v',
        Some(KindFilter::Document) => 'd',
        None => '-',
    }
}

/// The letter that stands for a time filter in a token.
pub open spec fn range_letter(range: Option<DateRange>) -> char {
    match range {
        Some(DateRange::Week) => '7',
        Some(DateRange::Month) => '3',
        Some(DateRange::Quarter) => '9',
        None => '-',
    }
}

/// The part of a token that stands for an author filter.
pub open spec fn user_part(user_id: Option<i64>) -> Seq<char> {
    match user_id {
        Some(id) => int_digits(id as int),
        None => seq!['-'],
    }
}

/// The token of `state`.
pub open spec fn encode_spec(state: SearchState) -> Seq<char> {
    nat_digits(state.page as nat).push('|').push(kind_letter(state.message_type)).push('|').push(
        range_letter(state.date_range),
    ).push('|') + user_part(state.user_id)
}

/// The kind filter that a token's second part stands for.
pub open spec fn kind_of_part(part: Seq<char>) -> Option<Option<KindFilter>> {
    if part == seq!['t'] {
        Some(Some(KindFilter::Text))
    } else if part == seq!['p'] {
        Some(Some(KindFilter::Photo))
    } else if part == seq!['v'] {
        Some(Some(KindFilter::Video))
    } else if part == seq!['d'] {
        Some(Some(KindFilter::Document))
    } else if part == seq!['-'] {
        Some(None)
    } else {
        None
    }
}

/// The time filter that a token's third part stands for.
pub open spec fn range_of_part(part: Seq<char>) -> Option<Option<DateRange>> {
    if part == seq!['7'] {
        Some(Some(DateRange::Week))
    } else if part == seq!['3'] {
        Some(Some(DateRange::Month))
    } else if part == seq!['9'] {
        Some(Some(DateRange::Quarter))
    } else if part == seq!['-'] {
        Some(None)
    } else {
        None
    }
}

/// The page that a token's first part stands for.
pub open spec fn page_of_part(part: Seq<char>) -> Option<usize> {
    match parse_nat(part) {
        Some(v) => if v <= usize::MAX {
            Some(v as usize)
        } else {
            None
        },
        None => None,
    }
}

/// The author filter that a token's fourth part stands for.
pub open spec fn user_of_part(part: Seq<char>) -> Option<Option<i64>> {
    if part == seq!['-'] {
        Some(None)
    } else {
        match parse_int(part) {
            Some(v) => if i64::MIN <= v <= i64::MAX {
                Some(Some(v as i64))
            } else {
                None
            },
            None => None,
        }
    }
}

/// The state that a token stands for, or what is wrong with the token.
/// The parts are looked at from the first to the last.
pub open spec fn decode_spec(token: Seq<char>) -> Result<SearchState, StateError> {
    let parts = split(token, '|');
    if parts.len() != 4 {
        Err(StateError::InvalidFormat)
    } else {
        match page_of_part(parts[0]) {
            None => Err(StateError::InvalidPage),
            Some(page) => match kind_of_part(parts[1]) {
                None => Err(StateError::InvalidMessageType),
                Some(message_type) => match range_of_part(parts[2]) {
                    None => Err(StateError::InvalidDateRange),
                    Some(date_range) => match user_of_part(parts[3]) {
                        None => Err(StateError::InvalidUserId),
                        Some(user_id) => Ok(
                            SearchState { page, message_type, date_range, user_id },
                        ),
                    },
                },
            },
        }
    }
}

/// The earliest time that a search with the time filter `range` takes,
/// seen from the time `now`: as many days before `now` as the span has,
/// and no less than the smallest time there is.
pub open spec fn date_from_spec(range: Option<DateRange>, now: i64) -> Option<i64> {
    match range {
        Some(r) => Some(
            if now - r.days() * 86400 >= i64::MIN {
                (now - r.days() * 86400) as i64
            } else {
                i64::MIN
            },
        ),
        None => None,
    }
}

impl SearchState {
    /// The token of the state.
    pub fn encode(&self) -> (token: String)
        ensures
            token@ == encode_spec(*self),
    {
        let mut token = String::new();
        push_nat(&mut token, self.page as u64);
        push_char(&mut token, '|');
        push_char(
            &mut token,
            match self.message_type {
                Some(KindFilter::Text) => 't',
                Some(KindFilter::Photo) => 'p',
                Some(KindFilter::Video) => 'v',
                Some(KindFilter::Document) => 'd',
                None => '-',
            },
        );
        push_char(&mut token, '|');
        push_char(
            &mut token,
            match self.date_range {
                Some(DateRange::Week) => '7',
                Some(DateRange::Month) => '3',
                Some(DateRange::Quarter) => '9',
                None => '-',
            },
        );
        push_char(&mut token, '|');
        match self.user_id {
            Some(id) => {
                push_int(&mut token, id);
            },
            None => {
                push_char(&mut token, '-');
            },
        }
        assert(token@ =~= encode_spec(*self));
        token
    }

    /// Reads a token back into a state.
    pub fn decode(s: &str) -> (state: Result<Self, StateError>)
        ensures
            state == decode_spec(s@),
    {
        let chars = chars_of(s);
        let parts = split_chars(&chars, '|');
        if parts.len() != 4 {
            return Err(StateError::InvalidFormat);
        }
        assert(part_views(parts@)[0] == parts@[0]@);
        assert(part_views(parts@)[1] == parts@[1]@);
        assert(part_views(parts@)[2] == parts@[2]@);
        assert(part_views(parts@)[3] == parts@[3]@);
        let page = match parse_usize_chars(&parts[0]) {
            Some(p) => p,
            None => {
                return Err(StateError::InvalidPage);
            },
        };
        proof {
            lemma_single_letters();
        }
        let message_type = match single_char(&parts[1]) {
            Some('t') => Some(KindFilter::Text),
            Some('p') => Some(KindFilter::Photo),
            Some('v') => Some(KindFilter::Video),
            Some('d') => Some(KindFilter::Document),
            Some('-') => None,
            _ => {
                return Err(StateError::InvalidMessageType);
            },
        };
        let date_range = match single_char(&parts[2]) {
            Some('7') => Some(DateRange::Week),
            Some('3') => Some(DateRange::Month),
            Some('9') => Some(DateRange::Quarter),
            Some('-') => None,
            _ => {
                return Err(StateError::InvalidDateRange);
            },
        };
        let user_id = match single_char(&parts[3]) {
            Some('-') => None,
            _ => match parse_i64_chars(&parts[3]) {
                Some(id) => Some(id),
                None => {
                    return Err(StateError::InvalidUserId);
                },
            },
        };
        Ok(SearchState { page, message_type, date_range, user_id })
    }

    /// The earliest time that the search takes, seen from the time
    /// `now` in seconds; `None` without a time filter.
    pub fn to_date_from(&self, now: i64) -> (from: Option<i64>)
        ensures
            from == date_from_spec(self.date_range, now),
    {
        let span: i64 = match self.date_range {
            Some(DateRange::Week) => 7 * 86400,
            Some(DateRange::Month) => 30 * 86400,
            Some(DateRange::Quarter) => 90 * 86400,
            None => {
                return None;
            },
        };
        if now >= i64::MIN + span {
            Some(now - span)
        } else {
            Some(i64::MIN)
        }
    }
}

/// The one-letter parts of a token hold one letter each.
proof fn lemma_single_letters()
    ensures
        seq!['t'].len() == 1 && seq!['t'][0] == 't',
        seq!['p'].len() == 1 && seq!['p'][0] == 'p',
        seq!['v'].len() == 1 && seq!['v'][0] == 'v',
        seq!['d'].len() == 1 && seq!['d'][0] == 'd',
        seq!['-'].len() == 1 && seq!['-'][0] == '-',
        seq!['7'].len() == 1 && seq!['7'][0] == '7',
        seq!['3'].len() == 1 && seq!['3'][0] == '3',
        seq!['9'].len() == 1 && seq!['9'][0] == '9',
{
}

/// The one character of `part`, where it has exactly one.
fn single_char(part: &Vec<char>) -> (c: Option<char>)
    ensures
        match c {
            Some(x) => part@ == seq![x] && part@.len() == 1 && part@[0] == x,
            None => part@.len() != 1,
        },
{
    if part.len() == 1 {
        assert(part@ =~= seq![part@[0]]);
        Some(part[0])
    } else {
        None
    }
}

/// A token read back gives the state it was made from.
pub proof fn lemma_decode_encode(state: SearchState)
    ensures
        decode_spec(encode_spec(state)) == Ok::<SearchState, StateError>(state),
{
    let page = nat_digits(state.page as nat);
    let kind = seq![kind_letter(state.message_type)];
    let range = seq![range_letter(state.date_range)];
    let user = user_part(state.user_id);
    lemma_nat_digits_shape(state.page as nat);
    assert(free_of(page, '|')) by {
        assert forall|i: int| 0 <= i < page.len() implies page[i] != '|' by {
            assert(is_digit(page[i]));
        }
    }
    assert(free_of(kind, '|'));
    assert(free_of(range, '|'));
    assert(free_of(user, '|')) by {
        match state.user_id {
            Some(id) => {
                lemma_int_digits_chars(id as int);
            },
            None => {},
        }
    }
    lemma_split_plain(page, '|');
    lemma_split_append_part(page, kind, '|');
    let two = page.push('|') + kind;
    lemma_split_append_part(two, range, '|');
    let three = two.push('|') + range;
    lemma_split_append_part(three, user, '|');
    assert(three.push('|') + user =~= encode_spec(state));
    let parts = split(encode_spec(state), '|');
    assert(parts =~= seq![page, kind, range, user]);
    lemma_parse_nat_of_nat_digits(state.page as nat);
    assert(kind_of_part(kind) == Some(state.message_type)) by {
        assert(kind[0] == kind_letter(state.message_type));
        assert(seq!['t'][0] == 't');
        assert(seq!['p'][0] == 'p');
        assert(seq!['v'][0] == 'v');
        assert(seq!['d'][0] == 'd');
        assert(seq!['-'][0] == '-');
    }
    assert(range_of_part(range) == Some(state.date_range)) by {
        assert(range[0] == range_letter(state.date_range));
        assert(seq!['7'][0] == '7');
        assert(seq!['3'][0] == '3');
        assert(seq!['9'][0] == '9');
        assert(seq!['-'][0] == '-');
    }
    assert(user_of_part(user) == Some(state.user_id)) by {
        match state.user_id {
            Some(id) => {
                lemma_parse_int_of_int_digits(id as int);
                lemma_int_digits_chars(id as int);
                // A number's form is never the lone `-`.
                if int_digits(id as int) == seq!['-'] {
                    assert(parse_int(seq!['-']) is None);
                }
            },
            None => {},
        }
    }
}

/// Two states with the same token are the same state.
pub proof fn lemma_encode_injective(a: SearchState, b: SearchState)
    requires
        encode_spec(a) == encode_spec(b),
    ensures
        a == b,
{
    lemma_decode_encode(a);
    lemma_decode_encode(b);
}

} // verus!
