//! The backfill of one chat: legacy records below the chat's boundary
//! are read oldest first, turned into messages and written in batches of
//! a fixed size.
//!
//! Reading the legacy store and writing to the document store are the
//! caller's part. The caller hands over what it fetched and what the
//! store answered; what to count and when to write is decided here. A
//! record that cannot be fetched or read is counted as an error and
//! passed over. A batch is written as soon as it is full, and what is
//! left at the end is written as a last batch. In a dry run nothing is
//! written and every batch counts as accepted.
//!
//! Only records whose `msg_type` is 1 are backfilled unless the caller
//! asks for another type or for all.

use vstd::prelude::*;
use crate::batches::{concat, lemma_concat_contains, lemma_concat_push};
use crate::bulk::{bulk_outcome, failed_records, BulkResponse};
use crate::legacy::{
    parse_mongo_document, parse_spec, stored_form, EsMessage, EsMessageView, LegacyDocument,
};
use crate::watermark::GroupEarliestMessage;

verus! {

/// The `msg_type` of the legacy records that are backfilled by default.
pub const BACKFILL_MSG_TYPE: i32 = 1;

/// Which legacy records are backfilled for one chat.
#[derive(Clone, Copy, Debug, PartialEq, Eq, Structural)]
pub struct BackfillFilter {
    /// The chat.
    pub chat_id: i64,
    /// Only records with a smaller message number are taken.
    pub below_message_id: i64,
    /// Only records of this kind are taken; `None` takes every kind.
    pub msg_type: Option<i32>,
}

impl BackfillFilter {
    /// Whether the filter takes a record of chat `chat_id` with the
    /// number `message_id` and the kind `msg_type`.
    pub open spec fn admits(self, chat_id: int, message_id: int, msg_type: int) -> bool {
        &&& chat_id == self.chat_id
        &&& message_id < self.below_message_id
        &&& match self.msg_type {
            Some(t) => msg_type == t,
            None => true,
        }
    }

    /// The filter for the chat of `group`: everything below the smallest
    /// message number that the store already holds for it.
    pub fn for_group(group: &GroupEarliestMessage, msg_type: Option<i32>) -> (filter: Self)
        ensures
            filter.chat_id == group.chat_id,
            filter.below_message_id == group.earliest_message_id,
            filter.msg_type == msg_type,
    {
        BackfillFilter {
            chat_id: group.chat_id,
            below_message_id: group.earliest_message_id,
            msg_type,
        }
    }

    /// Whether the filter takes a record of chat `chat_id` with the
    /// number `message_id` and the kind `msg_type`.
    pub fn matches(&self, chat_id: i64, message_id: i64, msg_type: i32) -> (taken: bool)
        ensures
            taken == self.admits(chat_id as int, message_id as int, msg_type as int),
    {
        chat_id == self.chat_id && message_id < self.below_message_id && match self.msg_type {
            Some(t) => msg_type == t,
            None => true,
        }
    }
}

/// What the cursor over the legacy store handed out.
#[derive(Debug)]
pub enum Fetched {
    /// A record.
    Document(LegacyDocument),
    /// The record could not be fetched.
    Failed,
}

/// The state of one chat's backfill, in numbers and character sequences.
pub struct ScopeState {
    /// The messages that wait for the batch to fill.
    pub batch: Seq<EsMessageView>,
    /// The size of the batch that was handed out for writing and whose
    /// answer has not been counted yet.
    pub pending: nat,
    /// The messages that the store accepted.
    pub migrated: nat,
    /// The records that could not be fetched, read or written.
    pub errors: nat,
    /// A batch is written as soon as it holds this many messages.
    pub batch_size: nat,
    /// Whether nothing is written.
    pub dry_run: bool,
}

/// The views of `batch`, in order.
pub open spec fn views(batch: Seq<EsMessage>) -> Seq<EsMessageView> {
    Seq::new(batch.len(), |i: int| batch[i]@)
}

/// The message that a fetched item gives, if it gives one.
pub open spec fn message_of(item: Fetched) -> Option<EsMessageView> {
    match item {
        Fetched::Failed => None,
        Fetched::Document(doc) => match parse_spec(doc) {
            Ok(m) => Some(stored_form(m)),
            Err(_) => None,
        },
    }
}

/// The state after `item` was fetched, and the batch to write now, if
/// there is one.
pub open spec fn after_fetch(s: ScopeState, item: Fetched) -> (ScopeState, Option<
    Seq<EsMessageView>,
>) {
    match message_of(item) {
        None => (ScopeState { errors: s.errors + 1, ..s }, None),
        Some(m) => {
            let batch = s.batch.push(m);
            if batch.len() >= s.batch_size {
                if s.dry_run {
                    (
                        ScopeState {
                            batch: Seq::empty(),
                            migrated: s.migrated + batch.len(),
                            ..s
                        },
                        None,
                    )
                } else {
                    (
                        ScopeState {
                            batch: Seq::empty(),
                            pending: s.pending + batch.len(),
                            ..s
                        },
                        Some(batch),
                    )
                }
            } else {
                (ScopeState { batch, ..s }, None)
            }
        },
    }
}

/// The state after the store answered the pending write with `response`.
pub open spec fn after_write(s: ScopeState, response: BulkResponse) -> ScopeState {
    let failed = failed_records(s.pending, response);
    ScopeState {
        pending: 0,
        migrated: (s.migrated + s.pending - failed) as nat,
        errors: s.errors + failed,
        ..s
    }
}

/// The state after the cursor ran out, and the last batch to write, if
/// there is one.
pub open spec fn after_finish(s: ScopeState) -> (ScopeState, Option<Seq<EsMessageView>>) {
    if s.batch.len() == 0 {
        (s, None)
    } else if s.dry_run {
        (ScopeState { batch: Seq::empty(), migrated: s.migrated + s.batch.len(), ..s }, None)
    } else {
        (
            ScopeState { batch: Seq::empty(), pending: s.pending + s.batch.len(), ..s },
            Some(s.batch),
        )
    }
}

/// The backfill of one chat.
#[derive(Debug)]
pub struct ScopeRun {
    batch: Vec<EsMessage>,
    pending: usize,
    migrated: usize,
    errors: usize,
    seen: usize,
    batch_size: usize,
    dry_run: bool,
}

impl View for ScopeRun {
    type V = ScopeState;

    closed spec fn view(&self) -> ScopeState {
        ScopeState {
            batch: views(self.batch@),
            pending: self.pending as nat,
            migrated: self.migrated as nat,
            errors: self.errors as nat,
            batch_size: self.batch_size as nat,
            dry_run: self.dry_run,
        }
    }
}

impl ScopeRun {
    /// The number of fetched items that the run has taken so far.
    pub closed spec fn seen(&self) -> nat {
        self.seen as nat
    }

    /// Every item taken so far is counted once: as accepted, as an
    /// error, as waiting in the batch, or as handed out for writing.
    pub open spec fn wf(&self) -> bool {
        self@.migrated + self@.errors + self@.batch.len() + self@.pending == self.seen()
    }

    /// Starts the backfill of a chat for which the legacy store counts
    /// `match_count` records to take. With none to take the chat is
    /// passed over: there is no run, and nothing is read or written.
    pub fn start(match_count: u64, batch_size: usize, dry_run: bool) -> (run: Option<Self>)
        ensures
            run is Some <==> match_count > 0,
            run matches Some(r) ==> {
                &&& r.wf()
                &&& r.seen() == 0
                &&& r@.batch.len() == 0
                &&& r@.pending == 0
                &&& r@.migrated == 0
                &&& r@.errors == 0
                &&& r@.batch_size == batch_size
                &&& r@.dry_run == dry_run
            },
    {
        if match_count == 0 {
            None
        } else {
            let run = ScopeRun {
                batch: Vec::new(),
                pending: 0,
                migrated: 0,
                errors: 0,
                seen: 0,
                batch_size,
                dry_run,
            };
            assert(views(run.batch@) =~= Seq::empty());
            Some(run)
        }
    }

    /// The messages that the store accepted so far.
    pub fn migrated(&self) -> (n: usize)
        ensures
            n == self@.migrated,
    {
        self.migrated
    }

    /// The records that could not be fetched, read or written so far.
    pub fn errors(&self) -> (n: usize)
        ensures
            n == self@.errors,
    {
        self.errors
    }

    /// The number of messages that wait for the batch to fill.
    pub fn buffered(&self) -> (n: usize)
        ensures
            n == self@.batch.len(),
    {
        self.batch.len()
    }

    /// The size of the batch whose answer is awaited; 0 when none is.
    pub fn pending(&self) -> (n: usize)
        ensures
            n == self@.pending,
    {
        self.pending
    }

    /// Whether the run can take one more fetched item: the count of
    /// items fits the machine's numbers.
    pub fn has_room(&self) -> (room: bool)
        ensures
            room == (self.seen() < usize::MAX),
    {
        self.seen < usize::MAX
    }

    /// Hands the batch out and leaves an empty one.
    fn take_batch(&mut self) -> (out: Vec<EsMessage>)
        ensures
            out@ == old(self).batch@,
            final(self).batch@.len() == 0,
            final(self).pending == old(self).pending,
            final(self).migrated == old(self).migrated,
            final(self).errors == old(self).errors,
            final(self).seen == old(self).seen,
            final(self).batch_size == old(self).batch_size,
            final(self).dry_run == old(self).dry_run,
    {
        let mut out: Vec<EsMessage> = Vec::new();
        core::mem::swap(&mut self.batch, &mut out);
        out
    }

    /// Takes one item from the cursor. A record that could not be
    /// fetched or read counts as an error. A message joins the batch;
    /// when that fills it, the batch is counted as accepted in a dry run
    /// and handed out for writing otherwise.
    pub fn on_fetched(&mut self, item: &Fetched) -> (write: Option<Vec<EsMessage>>)
        requires
            old(self).wf(),
            old(self).seen() < usize::MAX,
        ensures
            final(self).wf(),
            final(self).seen() == old(self).seen() + 1,
            final(self)@ == after_fetch(old(self)@, *item).0,
            match write {
                Some(batch) => after_fetch(old(self)@, *item).1 == Some(views(batch@)),
                None => after_fetch(old(self)@, *item).1 is None,
            },
    {
        self.seen = self.seen + 1;
        let parsed = match item {
            Fetched::Failed => None,
            Fetched::Document(doc) => match parse_mongo_document(doc) {
                Ok(m) => Some(EsMessage::from(m)),
                Err(_) => None,
            },
        };
        match parsed {
            None => {
                self.errors = self.errors + 1;
                None
            },
            Some(message) => {
                let ghost before = views(self.batch@);
                self.batch.push(message);
                assert(views(self.batch@) =~= before.push(message@));
                if self.batch.len() >= self.batch_size {
                    let out = self.take_batch();
                    assert(views(self.batch@) =~= Seq::empty());
                    if self.dry_run {
                        self.migrated = self.migrated + out.len();
                        None
                    } else {
                        self.pending = self.pending + out.len();
                        Some(out)
                    }
                } else {
                    None
                }
            },
        }
    }

    /// Counts the store's answer to the batch that was handed out last:
    /// what the store took as accepted, the rest as errors.
    pub fn on_written(&mut self, response: &BulkResponse)
        requires
            old(self).wf(),
        ensures
            final(self).wf(),
            final(self).seen() == old(self).seen(),
            final(self)@ == after_write(old(self)@, *response),
    {
        let outcome = bulk_outcome(self.pending, response);
        self.migrated = self.migrated + outcome.accepted;
        self.errors = self.errors + outcome.failed;
        self.pending = 0;
    }

    /// Ends the run when the cursor has run out. What is left in the
    /// batch is counted as accepted in a dry run and handed out for a
    /// last write otherwise.
    pub fn finish(&mut self) -> (write: Option<Vec<EsMessage>>)
        requires
            old(self).wf(),
        ensures
            final(self).wf(),
            final(self).seen() == old(self).seen(),
            final(self)@ == after_finish(old(self)@).0,
            match write {
                Some(batch) => after_finish(old(self)@).1 == Some(views(batch@)),
                None => after_finish(old(self)@).1 is None,
            },
    {
        if self.batch.len() == 0 {
            None
        } else {
            let out = self.take_batch();
            assert(views(self.batch@) =~= Seq::empty());
            if self.dry_run {
                self.migrated = self.migrated + out.len();
                None
            } else {
                self.pending = self.pending + out.len();
                Some(out)
            }
        }
    }
}

/// The counts of a whole backfill, over all its chats.
#[derive(Clone, Copy, Debug, PartialEq, Eq, Structural)]
pub struct BackfillTotals {
    /// The chats that were gone through, passed over or not.
    pub groups: usize,
    /// The messages that the store accepted.
    pub migrated: usize,
    /// The records that could not be fetched, read or written.
    pub errors: usize,
}

impl BackfillTotals {
    /// The counts before any chat was gone through.
    pub fn new() -> (totals: Self)
        ensures
            totals.groups == 0,
            totals.migrated == 0,
            totals.errors == 0,
    {
        BackfillTotals { groups: 0, migrated: 0, errors: 0 }
    }

    /// Whether the counts of `run` can be added: the sums fit the
    /// machine's numbers.
    pub fn has_room_for(&self, run: &ScopeRun) -> (room: bool)
        ensures
            room == (self.groups < usize::MAX && self.migrated + run@.migrated <= usize::MAX
                && self.errors + run@.errors <= usize::MAX),
    {
        self.groups < usize::MAX && self.migrated <= usize::MAX - run.migrated && self.errors
            <= usize::MAX - run.errors
    }

    /// Adds the counts of a chat's run. The failure of one chat does
    /// not touch what other chats counted.
    pub fn add_scope(&mut self, run: &ScopeRun)
        requires
            old(self).groups < usize::MAX,
            old(self).migrated + run@.migrated <= usize::MAX,
            old(self).errors + run@.errors <= usize::MAX,
        ensures
            final(self).groups == old(self).groups + 1,
            final(self).migrated == old(self).migrated + run@.migrated,
            final(self).errors == old(self).errors + run@.errors,
    {
        self.groups = self.groups + 1;
        self.migrated = self.migrated + run.migrated;
        self.errors = self.errors + run.errors;
    }

    /// Counts a chat that was passed over because the legacy store holds
    /// nothing to take for it.
    pub fn add_skipped(&mut self)
        requires
            old(self).groups < usize::MAX,
        ensures
            final(self).groups == old(self).groups + 1,
            final(self).migrated == old(self).migrated,
            final(self).errors == old(self).errors,
    {
        self.groups = self.groups + 1;
    }
}

/// The filter for the chat of `group`.
pub open spec fn filter_for(group: GroupEarliestMessage, msg_type: Option<i32>) -> BackfillFilter {
    BackfillFilter {
        chat_id: group.chat_id,
        below_message_id: group.earliest_message_id,
        msg_type,
    }
}

/// The state of a chat's backfill after the items `items` were fetched
/// in order, each batch that fell due being written at once and answered
/// by the store with `respond` of that batch.
pub open spec fn run_scope(
    start: ScopeState,
    items: Seq<Fetched>,
    respond: spec_fn(Seq<EsMessageView>) -> BulkResponse,
) -> ScopeState
    decreases items.len(),
{
    if items.len() == 0 {
        start
    } else {
        let before = run_scope(start, items.drop_last(), respond);
        let (after, write) = after_fetch(before, items.last());
        match write {
            Some(batch) => after_write(after, respond(batch)),
            None => after,
        }
    }
}

/// The batches that were handed out for writing while `items` were
/// fetched, in order.
pub open spec fn writes_of(
    start: ScopeState,
    items: Seq<Fetched>,
    respond: spec_fn(Seq<EsMessageView>) -> BulkResponse,
) -> Seq<Seq<EsMessageView>>
    decreases items.len(),
{
    if items.len() == 0 {
        Seq::empty()
    } else {
        let earlier = writes_of(start, items.drop_last(), respond);
        let before = run_scope(start, items.drop_last(), respond);
        match after_fetch(before, items.last()).1 {
            Some(batch) => earlier.push(batch),
            None => earlier,
        }
    }
}

/// The state at the end of a chat's backfill: after the cursor ran out
/// and the last batch, if any, was written and answered.
pub open spec fn end_scope(
    s: ScopeState,
    respond: spec_fn(Seq<EsMessageView>) -> BulkResponse,
) -> ScopeState {
    let (after, write) = after_finish(s);
    match write {
        Some(batch) => after_write(after, respond(batch)),
        None => after,
    }
}

/// The messages that the fetched items give, in order.
pub open spec fn messages_of(items: Seq<Fetched>) -> Seq<EsMessageView>
    decreases items.len(),
{
    if items.len() == 0 {
        Seq::empty()
    } else {
        match message_of(items.last()) {
            Some(m) => messages_of(items.drop_last()).push(m),
            None => messages_of(items.drop_last()),
        }
    }
}

/// Whether the store takes every record of every batch.
pub open spec fn accepts_all(respond: spec_fn(Seq<EsMessageView>) -> BulkResponse) -> bool {
    forall|batch: Seq<EsMessageView>| #[trigger]
        failed_records(batch.len(), respond(batch)) == 0
}

/// The backfill of a chat never reaches the chat's boundary: a record
/// that the chat's filter takes belongs to the chat and has a message
/// number below the smallest one that the store already holds, and every
/// record of the chat below it, of the kind asked for, is taken.
pub proof fn lemma_backfill_stays_below_boundary(
    group: GroupEarliestMessage,
    msg_type: Option<i32>,
    chat_id: int,
    message_id: int,
    kind: int,
)
    ensures
        filter_for(group, msg_type).admits(chat_id, message_id, kind) ==> chat_id == group.chat_id
            && message_id < group.earliest_message_id,
        message_id >= group.earliest_message_id ==> !filter_for(group, msg_type).admits(
            chat_id,
            message_id,
            kind,
        ),
        (chat_id == group.chat_id && message_id < group.earliest_message_id && (msg_type is None
            || msg_type == Some(kind as i32) && i32::MIN <= kind <= i32::MAX)) ==> filter_for(
            group,
            msg_type,
        ).admits(chat_id, message_id, kind),
{
}

/// Every fetched item is counted exactly once: at any point of a run
/// the accepted messages, the errors and the messages that wait in the
/// batch add up to what was there at the start and the items fetched
/// since. No write is left unanswered, and the settings do not change.
pub proof fn lemma_run_counts_every_item(
    start: ScopeState,
    items: Seq<Fetched>,
    respond: spec_fn(Seq<EsMessageView>) -> BulkResponse,
)
    requires
        start.pending == 0,
    ensures
        ({
            let end = run_scope(start, items, respond);
            &&& end.pending == 0
            &&& end.batch_size == start.batch_size
            &&& end.dry_run == start.dry_run
            &&& end.migrated + end.errors + end.batch.len() == start.migrated + start.errors
                + start.batch.len() + items.len()
            &&& end.migrated >= start.migrated
            &&& end.errors >= start.errors
        }),
    decreases items.len(),
{
    if items.len() > 0 {
        lemma_run_counts_every_item(start, items.drop_last(), respond);
    }
}

/// At the end of a chat's backfill nothing waits any more: every item
/// that was fetched is either an accepted message or an error.
pub proof fn lemma_end_counts_every_item(
    start: ScopeState,
    items: Seq<Fetched>,
    respond: spec_fn(Seq<EsMessageView>) -> BulkResponse,
)
    requires
        start.pending == 0,
    ensures
        ({
            let end = end_scope(run_scope(start, items, respond), respond);
            &&& end.pending == 0
            &&& end.batch.len() == 0
            &&& end.migrated + end.errors == start.migrated + start.errors + start.batch.len()
                + items.len()
        }),
{
    lemma_run_counts_every_item(start, items, respond);
}

/// A dry run writes nothing: no batch is handed out while items are
/// fetched, and none at the end.
pub proof fn lemma_dry_run_writes_nothing(
    start: ScopeState,
    items: Seq<Fetched>,
    respond: spec_fn(Seq<EsMessageView>) -> BulkResponse,
)
    requires
        start.dry_run,
        start.pending == 0,
    ensures
        writes_of(start, items, respond).len() == 0,
        after_finish(run_scope(start, items, respond)).1 is None,
    decreases items.len(),
{
    lemma_run_counts_every_item(start, items, respond);
    if items.len() > 0 {
        lemma_dry_run_writes_nothing(start, items.drop_last(), respond);
        lemma_run_counts_every_item(start, items.drop_last(), respond);
    }
}

/// A dry run counts as a real run does whose every write the store
/// takes whole: on the same items, from the same state, the two runs
/// hold the same batch and the same counts at every point and at the
/// end.
pub proof fn lemma_dry_run_equivalence(
    start: ScopeState,
    items: Seq<Fetched>,
    respond: spec_fn(Seq<EsMessageView>) -> BulkResponse,
)
    requires
        start.pending == 0,
        accepts_all(respond),
    ensures
        ({
            let dry = run_scope(ScopeState { dry_run: true, ..start }, items, respond);
            let live = run_scope(ScopeState { dry_run: false, ..start }, items, respond);
            &&& live == ScopeState { dry_run: false, ..dry }
            &&& end_scope(live, respond) == ScopeState {
                dry_run: false,
                ..end_scope(dry, respond)
            }
        }),
    decreases items.len(),
{
    let dry0 = ScopeState { dry_run: true, ..start };
    let live0 = ScopeState { dry_run: false, ..start };
    lemma_run_counts_every_item(dry0, items, respond);
    lemma_run_counts_every_item(live0, items, respond);
    if items.len() > 0 {
        let init = items.drop_last();
        lemma_dry_run_equivalence(start, init, respond);
        lemma_run_counts_every_item(dry0, init, respond);
        lemma_run_counts_every_item(live0, init, respond);
        let live_before = run_scope(live0, init, respond);
        match after_fetch(live_before, items.last()).1 {
            Some(batch) => {
                assert(failed_records(batch.len(), respond(batch)) == 0);
            },
            None => {},
        }
    }
    let live = run_scope(live0, items, respond);
    match after_finish(live).1 {
        Some(batch) => {
            assert(failed_records(batch.len(), respond(batch)) == 0);
        },
        None => {},
    }
}

/// In a real run every message is handed out for writing exactly once
/// and in the order in which it was fetched: the batches written so far,
/// one after the other, and then the messages that still wait, are the
/// messages that waited at the start and then those of the fetched
/// items.
pub proof fn lemma_every_message_written_once(
    start: ScopeState,
    items: Seq<Fetched>,
    respond: spec_fn(Seq<EsMessageView>) -> BulkResponse,
)
    requires
        !start.dry_run,
        start.pending == 0,
    ensures
        concat(writes_of(start, items, respond)) + run_scope(start, items, respond).batch
            == start.batch + messages_of(items),
    decreases items.len(),
{
    lemma_run_counts_every_item(start, items, respond);
    if items.len() == 0 {
        assert(concat(writes_of(start, items, respond)) + start.batch =~= start.batch
            + messages_of(items));
    } else {
        let init = items.drop_last();
        lemma_every_message_written_once(start, init, respond);
        lemma_run_counts_every_item(start, init, respond);
        let before = run_scope(start, init, respond);
        let earlier = writes_of(start, init, respond);
        match after_fetch(before, items.last()).1 {
            Some(batch) => {
                lemma_concat_push(earlier, batch);
                assert(concat(writes_of(start, items, respond)) + run_scope(
                    start,
                    items,
                    respond,
                ).batch =~= (concat(earlier) + before.batch).push(message_of(items.last())->0));
                assert((start.batch + messages_of(init)).push(message_of(items.last())->0)
                    =~= start.batch + messages_of(items));
            },
            None => {
                match message_of(items.last()) {
                    Some(m) => {
                        assert(concat(earlier) + before.batch.push(m) =~= (concat(earlier)
                            + before.batch).push(m));
                        assert((start.batch + messages_of(init)).push(m) =~= start.batch
                            + messages_of(items));
                    },
                    None => {},
                }
            },
        }
    }
}

/// Nothing is written that was not fetched: every message of every
/// batch handed out for writing waited at the start or came from one of
/// the fetched items. Where the cursor hands out only records below the
/// boundary, only such records are written.
pub proof fn lemma_writes_hold_only_fetched(
    start: ScopeState,
    items: Seq<Fetched>,
    respond: spec_fn(Seq<EsMessageView>) -> BulkResponse,
    i: int,
    j: int,
)
    requires
        !start.dry_run,
        start.pending == 0,
        0 <= i < writes_of(start, items, respond).len(),
        0 <= j < writes_of(start, items, respond)[i].len(),
    ensures
        (start.batch + messages_of(items)).contains(writes_of(start, items, respond)[i][j]),
{
    let writes = writes_of(start, items, respond);
    let rest = run_scope(start, items, respond).batch;
    lemma_every_message_written_once(start, items, respond);
    lemma_concat_contains(writes, i, j);
    let k = choose|k: int| 0 <= k < concat(writes).len() && concat(writes)[k] == writes[i][j];
    assert((concat(writes) + rest)[k] == writes[i][j]);
}

/// No batch grows beyond the batch size: with a batch size of at least
/// one and fewer messages than that waiting at the start, fewer wait at
/// every later point, and every batch handed out while items are fetched
/// holds exactly the batch size.
pub proof fn lemma_batches_are_full(
    start: ScopeState,
    items: Seq<Fetched>,
    respond: spec_fn(Seq<EsMessageView>) -> BulkResponse,
)
    requires
        start.pending == 0,
        start.batch_size >= 1,
        start.batch.len() < start.batch_size,
    ensures
        run_scope(start, items, respond).batch.len() < start.batch_size,
        forall|i: int|
            0 <= i < writes_of(start, items, respond).len() ==> (#[trigger] writes_of(
                start,
                items,
                respond,
            )[i]).len() == start.batch_size,
    decreases items.len(),
{
    lemma_run_counts_every_item(start, items, respond);
    if items.len() > 0 {
        let init = items.drop_last();
        lemma_batches_are_full(start, init, respond);
        lemma_run_counts_every_item(start, init, respond);
        let earlier = writes_of(start, init, respond);
        let all = writes_of(start, items, respond);
        assert forall|i: int| 0 <= i < all.len() implies (#[trigger] all[i]).len()
            == start.batch_size by {
            if i < earlier.len() {
                assert(all[i] == earlier[i]);
            }
        }
    }
}

} // verus!
