//! What the bot does on a search command and on the press of a button
//! under its results. Talking to the chat and to the store is the
//! caller's part; which search to run, if any, is decided here.

use vstd::prelude::*;
use vstd::string::StringExecFns;
use crate::clock::current_timestamp;
use crate::render::{command_query, extract_search_query, parse_search_query, query_spec};
use crate::search::SearchParams;
use crate::search_state::{
    date_from_spec, decode_spec, KindFilter, SearchState, StateError,
};
use crate::text::{contains_text, str_contains, str_eq, trim, trimmed};

verus! {

/// What to do on a search command.
#[derive(Debug)]
pub enum SearchPlan {
    /// The query is blank: explain how to search.
    Usage,
    /// Run the search `params` and show its first page, whose buttons
    /// carry `state`.
    Search { params: SearchParams, state: SearchState },
}

/// What to do on the press of a button.
#[derive(Debug)]
pub enum CallbackPlan {
    /// The press carries nothing: do nothing at all.
    Ignore,
    /// The button only shows the page number: acknowledge the press.
    Acknowledge,
    /// Acknowledge the press; the message of the button cannot be
    /// reached, so nothing more is done.
    AcknowledgeOnly,
    /// Acknowledge the press, run the search `params` and put its
    /// results in place of the old ones, with buttons that carry
    /// `state`.
    Search { params: SearchParams, state: SearchState },
}

/// Why the press of a button leads to no search.
#[derive(Clone, Copy, Debug, PartialEq, Eq, Structural)]
pub enum CallbackError {
    /// The button's token is no search state.
    State(StateError),
    /// The results do not answer any message.
    NoOriginalMessage,
    /// The message with the search command has no text.
    NoText,
}

/// The message under whose results a button was pressed.
#[derive(Debug, Clone)]
pub struct CallbackMessage {
    /// The chat of the message.
    pub chat_id: i64,
    /// The message that the results answer, if any, and in it the text,
    /// if any.
    pub original_text: Option<Option<String>>,
}

/// Decides what to do on the search command with the query `query`,
/// sent to chat `chat_id` in answer to a message of `reply_user_id`, if
/// to any. A query that is blank gets the usage note. Otherwise the
/// query's keyword is searched in the chat, narrowed to the author that
/// the query names or, failing that, to the author of the answered
/// message.
pub fn handle_search(
    chat_id: i64,
    query: &str,
    reply_user_id: Option<i64>,
    default_page_size: usize,
) -> (plan: SearchPlan)
    ensures
        trimmed(query@).len() == 0 <==> plan is Usage,
        plan matches SearchPlan::Search { params, state } ==> {
            &&& params.chat_id == chat_id
            &&& params.keyword is Some
            &&& params.keyword->0@ == query_spec(query@, reply_user_id).0
            &&& params.user_id == query_spec(query@, reply_user_id).1
            &&& params.date_from is None
            &&& params.date_to is None
            &&& params.message_type is None
            &&& params.page == 0
            &&& params.page_size == default_page_size
            &&& state == SearchState {
                page: 0,
                message_type: None,
                date_range: None,
                user_id: query_spec(query@, reply_user_id).1,
            }
        },
{
    if trim(query).is_empty() {
        return SearchPlan::Usage;
    }
    let (keyword, user_id) = parse_search_query(query, reply_user_id);
    SearchPlan::Search {
        params: SearchParams {
            chat_id,
            keyword: Some(keyword),
            user_id,
            date_from: None,
            date_to: None,
            message_type: None,
            page: 0,
            page_size: default_page_size,
        },
        state: SearchState { page: 0, message_type: None, date_range: None, user_id },
    }
}

/// The name of the kind that a search is narrowed to, as an owned text.
fn kind_name(kind: Option<KindFilter>) -> (name: Option<String>)
    ensures
        match (kind, name) {
            (Some(k), Some(n)) => n@ == k.name(),
            (None, None) => true,
            _ => false,
        },
{
    match kind {
        Some(k) => Some(String::from_str(k.as_str())),
        None => None,
    }
}

/// Decides what to do on the press of a button that carries `data`,
/// at the time `now` in seconds. `message` is the message of the
/// button, where it can be reached.
pub fn callback_plan(
    data: Option<&str>,
    message: Option<&CallbackMessage>,
    default_page_size: usize,
    now: i64,
) -> (plan: Result<CallbackPlan, CallbackError>)
    ensures
        data is None ==> plan matches Ok(CallbackPlan::Ignore),
        (data is Some && data->0@ == "noop"@) ==> plan matches Ok(CallbackPlan::Acknowledge),
        (data is Some && data->0@ != "noop"@ && message is None) ==> plan matches Ok(
            CallbackPlan::AcknowledgeOnly,
        ),
        (data is Some && data->0@ != "noop"@ && message is Some) ==> {
            let d = data->0;
            let m = message->0;
            match decode_spec(d@) {
                Err(e) => plan == Err::<CallbackPlan, CallbackError>(CallbackError::State(e)),
                Ok(decoded) => match m.original_text {
                    None => plan == Err::<CallbackPlan, CallbackError>(
                        CallbackError::NoOriginalMessage,
                    ),
                    Some(None) => plan == Err::<CallbackPlan, CallbackError>(
                        CallbackError::NoText,
                    ),
                    Some(Some(text)) => {
                        &&& plan matches Ok(CallbackPlan::Search { params, state })
                        &&& state == decoded
                        &&& params.chat_id == m.chat_id
                        &&& params.keyword is Some
                        &&& params.keyword->0@ == query_spec(command_query(text@), None).0
                        &&& params.user_id == decoded.user_id
                        &&& params.page == decoded.page
                        &&& params.page_size == default_page_size
                        &&& params.date_from == date_from_spec(decoded.date_range, now)
                        &&& params.date_to is None
                        &&& match decoded.message_type {
                            Some(k) => params.message_type is Some && params.message_type->0@
                                == k.name(),
                            None => params.message_type is None,
                        }
                    },
                },
            }
        },
{
    let data = match data {
        Some(d) => d,
        None => {
            return Ok(CallbackPlan::Ignore);
        },
    };
    if str_eq(data, "noop") {
        return Ok(CallbackPlan::Acknowledge);
    }
    let message = match message {
        Some(m) => m,
        None => {
            return Ok(CallbackPlan::AcknowledgeOnly);
        },
    };
    let state = match SearchState::decode(data) {
        Ok(s) => s,
        Err(e) => {
            return Err(CallbackError::State(e));
        },
    };
    let original = match &message.original_text {
        Some(t) => t,
        None => {
            return Err(CallbackError::NoOriginalMessage);
        },
    };
    let text: Option<&str> = match original {
        Some(t) => Some(t.as_str()),
        None => None,
    };
    let query = match extract_search_query(text) {
        Some(q) => q,
        None => {
            return Err(CallbackError::NoText);
        },
    };
    let (keyword, _) = parse_search_query(query.as_str(), None);
    Ok(
        CallbackPlan::Search {
            params: SearchParams {
                chat_id: message.chat_id,
                keyword: Some(keyword),
                user_id: state.user_id,
                date_from: state.to_date_from(now),
                date_to: None,
                message_type: kind_name(state.message_type),
                page: state.page,
                page_size: default_page_size,
            },
            state,
        },
    )
}

/// Decides what to do on the press of a button that carries `data`,
/// at the present time. Whatever the time, a press without data is
/// ignored and the press of the page number is only acknowledged.
pub fn handle_callback(
    data: Option<&str>,
    message: Option<&CallbackMessage>,
    default_page_size: usize,
) -> (plan: Result<CallbackPlan, CallbackError>)
    ensures
        data is None ==> plan matches Ok(CallbackPlan::Ignore),
        (data is Some && data->0@ == "noop"@) ==> plan matches Ok(CallbackPlan::Acknowledge),
        (data is Some && data->0@ != "noop"@ && message is None) ==> plan matches Ok(
            CallbackPlan::AcknowledgeOnly,
        ),
        (data is Some && data->0@ != "noop"@ && message is Some && decode_spec(data->0@) is Err)
            ==> plan == Err::<CallbackPlan, CallbackError>(
            CallbackError::State(decode_spec(data->0@)->Err_0),
        ),
{
    let now = current_timestamp();
    callback_plan(data, message, default_page_size, now)
}

/// Whether the chat's refusal of an edit only says that the new text is
/// the old one; such a refusal is no failure.
pub fn is_not_modified(error_text: &str) -> (harmless: bool)
    ensures
        harmless == contains_text(error_text@, "message is not modified"@),
{
    str_contains(error_text, "message is not modified")
}

} // verus!
