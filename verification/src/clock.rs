//! Calendar time, as far as the bot needs it: the present moment and the
//! written form of a moment. Both come from the `chrono` crate and are
//! taken on trust.

use vstd::prelude::*;

verus! {

/// The written form of the moment `timestamp` seconds after the Unix
/// epoch, to the minute and in UTC, as `chrono` gives it for the pattern
/// `%Y-%m-%d %H:%M`; `None` for a moment outside the calendar that
/// `chrono` covers.
pub uninterp spec fn formatted_minute(timestamp: i64) -> Option<Seq<char>>;

/// `chrono::DateTime::from_timestamp` and, on what it returns,
/// `DateTime::format` with the pattern `%Y-%m-%d %H:%M`. The result
/// depends on the timestamp alone: the time zone is UTC and no locale is
/// read. The contract gives that result its name and claims nothing
/// else of it.
#[verifier::external_body]
pub(crate) fn format_minute(timestamp: i64) -> (text: Option<String>)
    ensures
        match text {
            Some(t) => formatted_minute(timestamp) == Some(t@),
            None => formatted_minute(timestamp) is None,
        },
{
    match chrono::DateTime::from_timestamp(timestamp, 0) {
        Some(moment) => Some(moment.format("%Y-%m-%d %H:%M").to_string()),
        None => None,
    }
}

/// `chrono::Utc::now` and `DateTime::timestamp`: the present moment in
/// seconds since the Unix epoch. Nothing is claimed of it: it differs
/// from call to call.
#[verifier::external_body]
pub(crate) fn current_timestamp() -> (now: i64) {
    chrono::Utc::now().timestamp()
}

} // verus!
