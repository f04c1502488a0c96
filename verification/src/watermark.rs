//! The backfill boundary: for each chat that the store already holds,
//! the smallest message number stored for it.
//!
//! The store is asked once, at the start of a backfill. What it answers
//! is read here; asking is the caller's part.

use vstd::prelude::*;
use crate::bulk::{is_success, status_is_success};

verus! {

/// A chat of the store and the smallest message number stored for it.
#[derive(Clone, Copy, Debug, PartialEq, Eq, Structural)]
pub struct GroupEarliestMessage {
    pub chat_id: i64,
    pub earliest_message_id: i64,
}

/// One bucket of the store's answer: a chat and the minimum over its
/// message numbers, each as far as the answer holds it as a number.
#[derive(Clone, Copy, Debug, PartialEq, Eq, Structural)]
pub struct AggregationBucket {
    /// The bucket's key, where it is an integer.
    pub key: Option<i64>,
    /// The bucket's minimum, cut to an integer, where it is a number.
    pub min_value: Option<i64>,
}

/// Why the boundary could not be read.
#[derive(Clone, Copy, Debug, PartialEq, Eq, Structural)]
pub enum WatermarkError {
    /// The store answered the query with a status that is neither
    /// success nor "no such index".
    QueryFailed { status: u16 },
    /// The answer's body could not be read.
    UnreadableBody,
}

/// What the store answered to the query for chats and minima.
#[derive(Debug, Clone)]
pub struct AggregationResponse {
    /// The HTTP status of the answer.
    pub status: u16,
    /// `None` where the body could not be read.
    pub body: Option<AggregationBody>,
}

/// The body of the store's answer.
#[derive(Debug, Clone)]
pub struct AggregationBody {
    /// The buckets of the aggregation; `None` where the answer holds no
    /// list of them.
    pub buckets: Option<Vec<AggregationBucket>>,
}

/// The boundary that a bucket gives: its key and minimum, where both are
/// there.
pub open spec fn bucket_watermark(bucket: AggregationBucket) -> Option<GroupEarliestMessage> {
    match (bucket.key, bucket.min_value) {
        (Some(chat_id), Some(earliest_message_id)) => Some(
            GroupEarliestMessage { chat_id, earliest_message_id },
        ),
        _ => None,
    }
}

/// The boundaries that a list of buckets gives, in the buckets' order;
/// a bucket without key or minimum gives none.
pub open spec fn bucket_watermarks(buckets: Seq<AggregationBucket>) -> Seq<GroupEarliestMessage>
    decreases buckets.len(),
{
    if buckets.len() == 0 {
        Seq::empty()
    } else {
        match bucket_watermark(buckets.last()) {
            Some(w) => bucket_watermarks(buckets.drop_last()).push(w),
            None => bucket_watermarks(buckets.drop_last()),
        }
    }
}

/// What the store's answer means: no boundary at all where the index
/// does not exist yet (status 404), an error for any other status that is
/// not a success and for a body that cannot be read, else the boundaries
/// of the buckets.
pub open spec fn watermarks_of(response: AggregationResponse) -> Result<
    Seq<GroupEarliestMessage>,
    WatermarkError,
> {
    if response.status == 404 {
        Ok(Seq::empty())
    } else if !is_success(response.status) {
        Err(WatermarkError::QueryFailed { status: response.status })
    } else {
        match response.body {
            None => Err(WatermarkError::UnreadableBody),
            Some(body) => match body.buckets {
                None => Ok(Seq::empty()),
                Some(buckets) => Ok(bucket_watermarks(buckets@)),
            },
        }
    }
}

/// Reads the chats of the store and their smallest message numbers from
/// the store's answer. A missing index is no error: there is then
/// nothing to backfill against. Any other failure is one, and stops the
/// backfill before anything is written.
pub fn get_groups_with_earliest_messages(response: &AggregationResponse) -> (groups: Result<
    Vec<GroupEarliestMessage>,
    WatermarkError,
>)
    ensures
        match groups {
            Ok(list) => watermarks_of(*response) == Ok::<Seq<GroupEarliestMessage>, WatermarkError>(
                list@,
            ),
            Err(e) => watermarks_of(*response) == Err::<Seq<GroupEarliestMessage>, WatermarkError>(
                e,
            ),
        },
{
    if response.status == 404 {
        return Ok(Vec::new());
    }
    if !status_is_success(response.status) {
        return Err(WatermarkError::QueryFailed { status: response.status });
    }
    let body = match &response.body {
        None => {
            return Err(WatermarkError::UnreadableBody);
        },
        Some(b) => b,
    };
    let mut groups: Vec<GroupEarliestMessage> = Vec::new();
    match &body.buckets {
        None => {},
        Some(buckets) => {
            let mut i: usize = 0;
            while i < buckets.len()
                invariant
                    i <= buckets.len(),
                    groups@ == bucket_watermarks(buckets@.take(i as int)),
                decreases buckets.len() - i,
            {
                assert(buckets@.take(i + 1).drop_last() == buckets@.take(i as int));
                let bucket = buckets[i];
                match (bucket.key, bucket.min_value) {
                    (Some(chat_id), Some(earliest_message_id)) => {
                        groups.push(GroupEarliestMessage { chat_id, earliest_message_id });
                    },
                    _ => {},
                }
                i = i + 1;
            }
            assert(buckets@.take(buckets.len() as int) == buckets@);
        },
    }
    Ok(groups)
}

/// Every boundary comes from a bucket that holds both its chat and its
/// minimum, and no such bucket is left out.
pub proof fn lemma_bucket_watermarks_complete(buckets: Seq<AggregationBucket>)
    ensures
        forall|w: GroupEarliestMessage| #[trigger]
            bucket_watermarks(buckets).contains(w) <==> exists|i: int|
                0 <= i < buckets.len() && bucket_watermark(#[trigger] buckets[i]) == Some(w),
    decreases buckets.len(),
{
    let out = bucket_watermarks(buckets);
    if buckets.len() == 0 {
        assert forall|w: GroupEarliestMessage| !out.contains(w) by {}
    } else {
        let init = buckets.drop_last();
        let last = buckets.len() - 1;
        let init_out = bucket_watermarks(init);
        lemma_bucket_watermarks_complete(init);
        assert forall|w: GroupEarliestMessage| #[trigger]
            out.contains(w) <==> exists|i: int|
                0 <= i < buckets.len() && bucket_watermark(#[trigger] buckets[i]) == Some(w) by {
            assert(init_out.contains(w) <==> exists|i: int|
                0 <= i < init.len() && bucket_watermark(#[trigger] init[i]) == Some(w));
            if out.contains(w) {
                let j = choose|j: int| 0 <= j < out.len() && out[j] == w;
                if bucket_watermark(buckets[last]) is Some && j == out.len() - 1 {
                    assert(bucket_watermark(buckets[last]) == Some(w));
                } else {
                    assert(init_out[j] == w);
                    assert(init_out.contains(w));
                    let i = choose|i: int|
                        0 <= i < init.len() && bucket_watermark(#[trigger] init[i]) == Some(w);
                    assert(buckets[i] == init[i]);
                }
            }
            if exists|i: int|
                0 <= i < buckets.len() && bucket_watermark(#[trigger] buckets[i]) == Some(w) {
                let i = choose|i: int|
                    0 <= i < buckets.len() && bucket_watermark(#[trigger] buckets[i]) == Some(w);
                if i == last {
                    assert(out == init_out.push(w));
                    assert(out[out.len() - 1] == w);
                } else {
                    assert(init[i] == buckets[i]);
                    assert(init_out.contains(w));
                    let j = choose|j: int| 0 <= j < init_out.len() && init_out[j] == w;
                    assert(out[j] == w);
                }
            }
        }
    }
}

} // verus!
