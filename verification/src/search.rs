//! Search requests and results: what is asked of the store for a search
//! and how its answer is paged.

use vstd::prelude::*;
use crate::message::ChatMessage;

verus! {

/// What to search for.
#[derive(Debug, Clone)]
pub struct SearchParams {
    /// Only messages of this chat are searched.
    pub chat_id: i64,
    pub keyword: Option<String>,
    pub user_id: Option<i64>,
    pub date_from: Option<i64>,
    pub date_to: Option<i64>,
    pub message_type: Option<String>,
    pub page: usize,
    pub page_size: usize,
}

impl Default for SearchParams {
    /// A search without any filter, for the first page of five results.
    fn default() -> (params: Self)
        ensures
            params.chat_id == 0,
            params.keyword is None,
            params.user_id is None,
            params.date_from is None,
            params.date_to is None,
            params.message_type is None,
            params.page == 0,
            params.page_size == 5,
    {
        SearchParams {
            chat_id: 0,
            keyword: None,
            user_id: None,
            date_from: None,
            date_to: None,
            message_type: None,
            page: 0,
            page_size: 5,
        }
    }
}

/// One page of search results.
#[derive(Debug)]
pub struct SearchResult {
    /// The number of messages that the search found in all.
    pub total: u64,
    /// The messages of this page.
    pub messages: Vec<SearchHit>,
    pub page: usize,
    pub total_pages: usize,
}

/// One message that a search found.
#[derive(Debug)]
pub struct SearchHit {
    pub message: ChatMessage,
    /// The part of the text that matched, marked up.
    pub highlight: Option<String>,
}

/// One condition of a search request.
#[derive(Debug)]
pub enum Clause {
    /// Every message matches.
    MatchAll,
    /// The text matches the keyword.
    MatchText(String),
    /// The message belongs to the chat.
    TermChat(i64),
    /// The message was written by the user.
    TermUser(i64),
    /// The message is of the kind.
    TermMessageType(String),
    /// The message's time is within the bounds, each of which is
    /// included.
    RangeDate { gte: Option<i64>, lte: Option<i64> },
}

/// A search request: what a message must match to be scored, and what
/// it must meet to be taken at all.
#[derive(Debug)]
pub struct SearchQuery {
    pub must: Vec<Clause>,
    pub filter: Vec<Clause>,
}

/// What a message must match: the keyword where there is one that is
/// not empty, else anything.
pub open spec fn must_clauses(params: SearchParams) -> Seq<Clause> {
    match params.keyword {
        Some(k) => if k@.len() > 0 {
            seq![Clause::MatchText(k)]
        } else {
            seq![Clause::MatchAll]
        },
        None => seq![Clause::MatchAll],
    }
}

/// The filter on the author, where there is one.
pub open spec fn user_clauses(params: SearchParams) -> Seq<Clause> {
    match params.user_id {
        Some(id) => seq![Clause::TermUser(id)],
        None => Seq::empty(),
    }
}

/// The filter on the time, where a bound is given.
pub open spec fn date_clauses(params: SearchParams) -> Seq<Clause> {
    if params.date_from is Some || params.date_to is Some {
        seq![Clause::RangeDate { gte: params.date_from, lte: params.date_to }]
    } else {
        Seq::empty()
    }
}

/// The filter on the kind, where there is one.
pub open spec fn kind_clauses(params: SearchParams) -> Seq<Clause> {
    match params.message_type {
        Some(t) => seq![Clause::TermMessageType(t)],
        None => Seq::empty(),
    }
}

/// What a message must meet: it belongs to the chat, and it passes the
/// filters on author, time and kind that are given, in that order.
pub open spec fn filter_clauses(params: SearchParams) -> Seq<Clause> {
    seq![Clause::TermChat(params.chat_id)] + user_clauses(params) + date_clauses(params)
        + kind_clauses(params)
}

/// The number of pages of `page_size` results that `total` results
/// fill, the last one perhaps in part. A total beyond the machine's
/// numbers counts as the largest of them.
pub open spec fn total_pages_spec(total: u64, page_size: usize) -> int {
    let capped: int = if total <= usize::MAX {
        total as int
    } else {
        usize::MAX as int
    };
    if capped % (page_size as int) == 0 {
        capped / (page_size as int)
    } else {
        capped / (page_size as int) + 1
    }
}

/// The hits of `hits` that could be read, in order.
pub open spec fn readable_hits(hits: Seq<Option<SearchHit>>) -> Seq<SearchHit>
    decreases hits.len(),
{
    if hits.len() == 0 {
        Seq::empty()
    } else {
        match hits.last() {
            Some(h) => readable_hits(hits.drop_last()).push(h),
            None => readable_hits(hits.drop_last()),
        }
    }
}

/// The searches of one index.
#[derive(Debug, Clone)]
pub struct SearchClient {
    pub index_name: String,
}

impl SearchClient {
    /// The searches of the index `index_name`.
    pub fn new(index_name: String) -> (client: Self)
        ensures
            client.index_name == index_name,
    {
        SearchClient { index_name }
    }

    /// The request for a search. The chat is always part of the filter,
    /// so that a search never leaves the chat it was asked in.
    pub fn build_query(&self, params: &SearchParams) -> (query: SearchQuery)
        ensures
            query.must@ == must_clauses(*params),
            query.filter@ == filter_clauses(*params),
    {
        let mut must: Vec<Clause> = Vec::new();
        let mut filter: Vec<Clause> = Vec::new();
        filter.push(Clause::TermChat(params.chat_id));
        match &params.keyword {
            Some(keyword) => {
                if !keyword.as_str().is_empty() {
                    must.push(Clause::MatchText(keyword.clone()));
                }
            },
            None => {},
        }
        match params.user_id {
            Some(id) => {
                filter.push(Clause::TermUser(id));
            },
            None => {},
        }
        if params.date_from.is_some() || params.date_to.is_some() {
            filter.push(Clause::RangeDate { gte: params.date_from, lte: params.date_to });
        }
        match &params.message_type {
            Some(t) => {
                filter.push(Clause::TermMessageType(t.clone()));
            },
            None => {},
        }
        if must.len() == 0 {
            must.push(Clause::MatchAll);
        }
        assert(must@ =~= must_clauses(*params));
        assert(filter@ =~= filter_clauses(*params));
        SearchQuery { must, filter }
    }

    /// The number of results to pass over before page `page`; `None`
    /// where that number does not fit the store's numbers.
    pub fn page_offset(&self, params: &SearchParams) -> (from: Option<i64>)
        ensures
            from == if params.page * params.page_size <= i64::MAX {
                Some((params.page * params.page_size) as i64)
            } else {
                None
            },
    {
        match (params.page as u64).checked_mul(params.page_size as u64) {
            Some(n) => {
                if n <= 9223372036854775807u64 {
                    Some(n as i64)
                } else {
                    None
                }
            },
            None => {
                None
            },
        }
    }

    /// One page of results from the store's answer: the total (nought
    /// where the answer names none), the hits that could be read, in
    /// order, and the number of pages.
    pub fn parse_response(
        &self,
        total: Option<u64>,
        hits: Vec<Option<SearchHit>>,
        page: usize,
        page_size: usize,
    ) -> (result: SearchResult)
        requires
            page_size > 0,
        ensures
            result.total == match total {
                Some(t) => t,
                None => 0,
            },
            result.total_pages == total_pages_spec(result.total, page_size),
            result.messages@ == readable_hits(hits@),
            result.page == page,
    {
        let total: u64 = match total {
            Some(t) => t,
            None => 0,
        };
        let capped: usize = if total <= usize::MAX as u64 {
            total as usize
        } else {
            usize::MAX
        };
        let total_pages = if capped % page_size == 0 {
            capped / page_size
        } else {
            assert(capped / page_size < usize::MAX) by (nonlinear_arith)
                requires
                    page_size > 0,
                    capped % page_size != 0,
                    capped <= usize::MAX,
            {
                if page_size == 1 {
                    assert(capped % 1 == 0);
                } else {
                    assert(capped / page_size <= capped / 2);
                }
            }
            capped / page_size + 1
        };
        let mut messages: Vec<SearchHit> = Vec::new();
        for hit in it: hits
            invariant
                messages@ == readable_hits(it.seq().take(it.index() as int)),
                it.seq() == hits@,
        {
            proof {
                let n = it.index() as int;
                assert(it.seq().take(n + 1).drop_last() == it.seq().take(n));
                assert(it.seq().take(n + 1).last() == hit);
            }
            match hit {
                Some(h) => {
                    messages.push(h);
                },
                None => {},
            }
        }
        assert(hits@.take(hits@.len() as int) == hits@);
        assert(total_pages == total_pages_spec(total, page_size)) by (nonlinear_arith)
            requires
                page_size > 0,
                capped == if total <= usize::MAX { total as int } else { usize::MAX as int },
                total_pages == if capped % page_size == 0 {
                    capped as int / page_size as int
                } else {
                    capped as int / page_size as int + 1
                },
        {
        }
        SearchResult { total, messages, page, total_pages }
    }
}

} // verus!
