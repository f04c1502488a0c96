//! The ingestion queue's consumer: it gathers messages into a batch and
//! says when the batch is to be written.
//!
//! The consumer waits for the first of three things: a message, a tick
//! of the flush timer, or the closing of the queue. Waiting and writing
//! are the caller's part. What happens to the batch on each of the three
//! is decided here: a message joins the batch, and a batch that has
//! reached the size threshold is written at once; a tick writes a batch
//! that is not empty, whatever its size; the closing of the queue writes
//! what is left and ends the consumer. Messages leave in the order in
//! which they came. A write that fails is not repeated.

use vstd::prelude::*;
use crate::batches::{concat, lemma_concat_push};
use crate::message::ChatMessage;

verus! {

/// The queue holds at most this many batches' worth of messages before
/// a producer has to wait.
pub const QUEUE_BATCHES: usize = 4;

/// What the consumer waited for and got.
#[derive(Debug)]
pub enum IndexerEvent {
    /// A message arrived.
    Message(ChatMessage),
    /// The flush timer ticked.
    Tick,
    /// Every producer is gone and the queue is empty.
    Closed,
}

/// What the caller has to do after an event.
#[derive(Debug)]
pub enum IndexerAction {
    /// Nothing: wait for the next event.
    Wait,
    /// Write the batch, then wait for the next event.
    Flush(Vec<ChatMessage>),
    /// Write the batch, then stop.
    FlushAndStop(Vec<ChatMessage>),
    /// Stop.
    Stop,
}

/// The batch that `action` hands out for writing; empty where it hands
/// out none.
pub open spec fn flushed(action: IndexerAction) -> Seq<ChatMessage> {
    match action {
        IndexerAction::Flush(batch) => batch@,
        IndexerAction::FlushAndStop(batch) => batch@,
        _ => Seq::empty(),
    }
}

/// Whether `action` ends the consumer.
pub open spec fn stops(action: IndexerAction) -> bool {
    action is FlushAndStop || action is Stop
}

/// The buffer after `event`, and what is written because of it: the
/// whole buffer or nothing.
pub open spec fn after_event(buffer: Seq<ChatMessage>, batch_size: nat, event: IndexerEvent) -> (
    Seq<ChatMessage>,
    Seq<ChatMessage>,
) {
    match event {
        IndexerEvent::Message(m) => {
            if buffer.len() + 1 >= batch_size {
                (Seq::empty(), buffer.push(m))
            } else {
                (buffer.push(m), Seq::empty())
            }
        },
        IndexerEvent::Tick => (Seq::empty(), buffer),
        IndexerEvent::Closed => (Seq::empty(), buffer),
    }
}

/// The consumer of the ingestion queue.
#[derive(Debug)]
pub struct FlushScheduler {
    buffer: Vec<ChatMessage>,
    batch_size: usize,
}

impl FlushScheduler {
    /// The messages that wait to be written, oldest first.
    pub closed spec fn buffer(&self) -> Seq<ChatMessage> {
        self.buffer@
    }

    /// The size threshold.
    pub closed spec fn batch_size(&self) -> nat {
        self.batch_size as nat
    }

    /// Between events the buffer is shorter than the threshold, and
    /// empty where the threshold is nought.
    pub open spec fn wf(&self) -> bool {
        self.buffer().len() == 0 || self.buffer().len() < self.batch_size()
    }

    /// A consumer with an empty buffer.
    pub fn new(batch_size: usize) -> (scheduler: Self)
        ensures
            scheduler.wf(),
            scheduler.buffer().len() == 0,
            scheduler.batch_size() == batch_size,
    {
        FlushScheduler { buffer: Vec::new(), batch_size }
    }

    /// The number of messages that wait to be written.
    pub fn buffered(&self) -> (n: usize)
        ensures
            n == self.buffer().len(),
    {
        self.buffer.len()
    }

    /// Takes one event. The batch that the action hands out is the
    /// whole buffer, in the order of arrival, and the buffer is empty
    /// after it.
    pub fn on_event(&mut self, event: IndexerEvent) -> (action: IndexerAction)
        requires
            old(self).wf(),
        ensures
            final(self).wf(),
            final(self).batch_size() == old(self).batch_size(),
            final(self).buffer() == after_event(old(self).buffer(), old(self).batch_size(), event).0,
            flushed(action) == after_event(old(self).buffer(), old(self).batch_size(), event).1,
            stops(action) <==> event is Closed,
            (action is Flush || action is FlushAndStop) <==> flushed(action).len() > 0,
    {
        match event {
            IndexerEvent::Message(m) => {
                self.buffer.push(m);
                if self.buffer.len() >= self.batch_size {
                    IndexerAction::Flush(flush_buffer(&mut self.buffer))
                } else {
                    IndexerAction::Wait
                }
            },
            IndexerEvent::Tick => {
                if self.buffer.len() > 0 {
                    IndexerAction::Flush(flush_buffer(&mut self.buffer))
                } else {
                    IndexerAction::Wait
                }
            },
            IndexerEvent::Closed => {
                if self.buffer.len() > 0 {
                    IndexerAction::FlushAndStop(flush_buffer(&mut self.buffer))
                } else {
                    IndexerAction::Stop
                }
            },
        }
    }
}

/// Takes the batch out of `buffer` for writing and leaves the buffer
/// empty, whatever becomes of the write.
pub fn flush_buffer(buffer: &mut Vec<ChatMessage>) -> (batch: Vec<ChatMessage>)
    ensures
        batch@ == old(buffer)@,
        final(buffer)@.len() == 0,
{
    let mut batch: Vec<ChatMessage> = Vec::new();
    core::mem::swap(buffer, &mut batch);
    batch
}

/// The capacity of the queue between producers and consumer: four
/// batches. A producer that finds the queue full waits; no message is
/// dropped.
pub fn queue_capacity(batch_size: usize) -> (capacity: usize)
    requires
        0 < batch_size,
        batch_size * 4 <= usize::MAX,
    ensures
        capacity == 4 * batch_size,
{
    batch_size * QUEUE_BATCHES
}

/// The capacity of the queue, where there is one: none for a threshold
/// of nought, for which a queue cannot be made, and none where four
/// batches do not fit the machine's numbers.
pub fn checked_queue_capacity(batch_size: usize) -> (capacity: Option<usize>)
    ensures
        capacity == if 0 < batch_size && batch_size * 4 <= usize::MAX {
            Some((4 * batch_size) as usize)
        } else {
            None
        },
{
    if batch_size == 0 || batch_size > usize::MAX / 4 {
        None
    } else {
        Some(queue_capacity(batch_size))
    }
}

/// The buffer after the events `events`, taken in order.
pub open spec fn run_events(
    buffer: Seq<ChatMessage>,
    batch_size: nat,
    events: Seq<IndexerEvent>,
) -> Seq<ChatMessage>
    decreases events.len(),
{
    if events.len() == 0 {
        buffer
    } else {
        after_event(run_events(buffer, batch_size, events.drop_last()), batch_size, events.last()).0
    }
}

/// The batches written because of the events `events`, in order.
pub open spec fn flushes_of(
    buffer: Seq<ChatMessage>,
    batch_size: nat,
    events: Seq<IndexerEvent>,
) -> Seq<Seq<ChatMessage>>
    decreases events.len(),
{
    if events.len() == 0 {
        Seq::empty()
    } else {
        let earlier = flushes_of(buffer, batch_size, events.drop_last());
        let batch = after_event(
            run_events(buffer, batch_size, events.drop_last()),
            batch_size,
            events.last(),
        ).1;
        if batch.len() > 0 {
            earlier.push(batch)
        } else {
            earlier
        }
    }
}

/// The messages that arrive with the events `events`, in order.
pub open spec fn enqueued(events: Seq<IndexerEvent>) -> Seq<ChatMessage>
    decreases events.len(),
{
    if events.len() == 0 {
        Seq::empty()
    } else {
        match events.last() {
            IndexerEvent::Message(m) => enqueued(events.drop_last()).push(m),
            _ => enqueued(events.drop_last()),
        }
    }
}

/// Whether every event of `events` is the arrival of a message.
pub open spec fn only_messages(events: Seq<IndexerEvent>) -> bool {
    forall|i: int| 0 <= i < events.len() ==> (#[trigger] events[i]) is Message
}

/// Whether the buffer is as it is between events: shorter than the
/// threshold, and empty where the threshold is nought.
pub open spec fn buffer_in_bounds(buffer: Seq<ChatMessage>, batch_size: nat) -> bool {
    buffer.len() == 0 || buffer.len() < batch_size
}

/// The buffer stays in bounds: memory is bounded by the threshold.
pub proof fn lemma_buffer_stays_in_bounds(
    buffer: Seq<ChatMessage>,
    batch_size: nat,
    events: Seq<IndexerEvent>,
)
    requires
        buffer_in_bounds(buffer, batch_size),
    ensures
        buffer_in_bounds(run_events(buffer, batch_size, events), batch_size),
    decreases events.len(),
{
    if events.len() > 0 {
        lemma_buffer_stays_in_bounds(buffer, batch_size, events.drop_last());
    }
}

/// Nothing is lost, doubled or reordered: the batches written so far,
/// one after the other, and then the buffer, are the buffer of the start
/// and then the messages that arrived since.
pub proof fn lemma_messages_leave_in_order(
    buffer: Seq<ChatMessage>,
    batch_size: nat,
    events: Seq<IndexerEvent>,
)
    ensures
        concat(flushes_of(buffer, batch_size, events)) + run_events(buffer, batch_size, events)
            == buffer + enqueued(events),
    decreases events.len(),
{
    if events.len() == 0 {
        assert(concat(flushes_of(buffer, batch_size, events)) + buffer =~= buffer + enqueued(
            events,
        ));
    } else {
        let init = events.drop_last();
        lemma_messages_leave_in_order(buffer, batch_size, init);
        let before = run_events(buffer, batch_size, init);
        let earlier = flushes_of(buffer, batch_size, init);
        let (after, batch) = after_event(before, batch_size, events.last());
        if batch.len() > 0 {
            lemma_concat_push(earlier, batch);
        }
        assert(concat(flushes_of(buffer, batch_size, events)) + after =~= concat(earlier) + batch
            + after);
        match events.last() {
            IndexerEvent::Message(m) => {
                assert(batch + after =~= before.push(m));
                assert(concat(earlier) + batch + after =~= (concat(earlier) + before).push(m));
                assert((buffer + enqueued(init)).push(m) =~= buffer + enqueued(events));
            },
            _ => {
                assert(batch + after =~= before);
                assert(concat(earlier) + batch + after =~= concat(earlier) + before);
            },
        }
    }
}

/// The size trigger: when at least one message and at least as many
/// messages as the threshold arrive with no tick between them, at least
/// one batch is written, and every batch written holds at least as many
/// messages as the threshold.
pub proof fn lemma_size_trigger(
    buffer: Seq<ChatMessage>,
    batch_size: nat,
    events: Seq<IndexerEvent>,
)
    requires
        buffer_in_bounds(buffer, batch_size),
        only_messages(events),
        events.len() >= batch_size,
        events.len() >= 1,
    ensures
        flushes_of(buffer, batch_size, events).len() >= 1,
        forall|i: int|
            0 <= i < flushes_of(buffer, batch_size, events).len() ==> (#[trigger] flushes_of(
                buffer,
                batch_size,
                events,
            )[i]).len() >= batch_size,
{
    lemma_message_flushes(buffer, batch_size, events);
    lemma_buffer_stays_in_bounds(buffer, batch_size, events);
}

/// While only messages arrive, every batch written is as large as the
/// threshold, and as long as none is written the buffer holds all that
/// arrived.
proof fn lemma_message_flushes(
    buffer: Seq<ChatMessage>,
    batch_size: nat,
    events: Seq<IndexerEvent>,
)
    requires
        only_messages(events),
    ensures
        flushes_of(buffer, batch_size, events).len() == 0 ==> run_events(
            buffer,
            batch_size,
            events,
        ).len() == buffer.len() + events.len(),
        forall|i: int|
            0 <= i < flushes_of(buffer, batch_size, events).len() ==> (#[trigger] flushes_of(
                buffer,
                batch_size,
                events,
            )[i]).len() >= batch_size,
    decreases events.len(),
{
    if events.len() > 0 {
        let init = events.drop_last();
        assert(only_messages(init)) by {
            assert forall|i: int| 0 <= i < init.len() implies (#[trigger] init[i]) is Message by {
                assert(init[i] == events[i]);
            }
        }
        lemma_message_flushes(buffer, batch_size, init);
        assert(events.last() == events[events.len() - 1]);
        let earlier = flushes_of(buffer, batch_size, init);
        let all = flushes_of(buffer, batch_size, events);
        assert forall|i: int| 0 <= i < all.len() implies (#[trigger] all[i]).len()
            >= batch_size by {
            if i < earlier.len() {
                assert(all[i] == earlier[i]);
            }
        }
    }
}

/// The time trigger: a tick writes a buffer that is not empty, whole and
/// whatever its size, and leaves it empty.
pub proof fn lemma_time_trigger(buffer: Seq<ChatMessage>, batch_size: nat)
    requires
        buffer.len() > 0,
    ensures
        after_event(buffer, batch_size, IndexerEvent::Tick).1 == buffer,
        after_event(buffer, batch_size, IndexerEvent::Tick).0.len() == 0,
        flushes_of(buffer, batch_size, seq![IndexerEvent::Tick]) == seq![buffer],
{
    let events = seq![IndexerEvent::Tick];
    assert(events.drop_last().len() == 0);
    assert(events.last() == IndexerEvent::Tick);
    reveal_with_fuel(flushes_of, 2);
    reveal_with_fuel(run_events, 2);
    assert(flushes_of(buffer, batch_size, events) =~= seq![buffer]);
}

/// The drain on shutdown: when the queue closes, the messages still in
/// the buffer, all of them and no others, are written in one last batch,
/// and nothing is left behind.
pub proof fn lemma_drain_on_close(buffer: Seq<ChatMessage>, batch_size: nat)
    ensures
        after_event(buffer, batch_size, IndexerEvent::Closed).1 == buffer,
        after_event(buffer, batch_size, IndexerEvent::Closed).1.len() == buffer.len(),
        after_event(buffer, batch_size, IndexerEvent::Closed).0.len() == 0,
{
}

} // verus!
