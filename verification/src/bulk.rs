//! The bulk writer: what is sent to the store for a batch of records, and
//! how the store's answer becomes a count of accepted and failed records.
//!
//! The writer keeps no state and never retries. Sending the request is
//! the caller's part; this module decides what the request holds and what
//! the answer means.

use vstd::prelude::*;
use crate::identity::{doc_id, doc_id_spec, lemma_doc_id_injective};

verus! {

/// A record that can be written to the store: it names its chat and its
/// number within the chat.
pub trait Document {
    /// The chat that the record belongs to.
    spec fn chat(&self) -> int;

    /// The record's number within its chat.
    spec fn message(&self) -> int;

    /// The chat and the number within it.
    fn key(&self) -> (k: (i64, i64))
        ensures
            k.0 == self.chat(),
            k.1 == self.message(),
    ;
}

/// How many records of a batch the store took and how many it did not.
#[derive(Clone, Copy, Debug, PartialEq, Eq, Structural)]
pub struct WriteOutcome {
    pub accepted: usize,
    pub failed: usize,
}

/// The body of the store's answer to a bulk request, reduced to what the
/// count reads.
#[derive(Debug, Clone)]
pub struct BulkBody {
    /// The answer's `errors` flag, where it is a boolean.
    pub errors: Option<bool>,
    /// For each item of the answer, whether it reports an error; `None`
    /// where the answer lists no items.
    pub item_errors: Option<Vec<bool>>,
}

/// What came back from the store for one bulk request.
#[derive(Debug, Clone)]
pub enum BulkResponse {
    /// The request could not be sent.
    TransportError,
    /// The store answered with `status`; `body` is `None` where the
    /// answer's body could not be read.
    Answered { status: u16, body: Option<BulkBody> },
}

/// Whether an HTTP status means success: 200 to 299.
pub open spec fn is_success(status: u16) -> bool {
    200 <= status < 300
}

/// The number of `true` entries of `flags`.
pub open spec fn count_true(flags: Seq<bool>) -> nat
    decreases flags.len(),
{
    if flags.len() == 0 {
        0
    } else {
        count_true(flags.drop_last()) + if flags.last() {
            1nat
        } else {
            0nat
        }
    }
}

/// The number of records of a batch of `batch_len` that `response`
/// reports as not written: all of them where the request failed as a
/// whole, else the items that the store marks as errors, and never more
/// than the batch holds.
pub open spec fn failed_records(batch_len: nat, response: BulkResponse) -> nat {
    match response {
        BulkResponse::TransportError => batch_len,
        BulkResponse::Answered { status, body } => {
            if !is_success(status) {
                batch_len
            } else {
                match body {
                    None => batch_len,
                    Some(b) => {
                        if b.errors == Some(true) {
                            match b.item_errors {
                                Some(items) => {
                                    if count_true(items@) <= batch_len {
                                        count_true(items@)
                                    } else {
                                        batch_len
                                    }
                                },
                                None => 0,
                            }
                        } else {
                            0
                        }
                    },
                }
            }
        },
    }
}

/// The identifiers of the write directives for `docs`, one for each
/// record and in the records' order.
pub open spec fn directive_ids<T: Document>(docs: Seq<T>) -> Seq<Seq<char>> {
    Seq::new(docs.len(), |i: int| doc_id_spec(docs[i].chat(), docs[i].message()))
}

/// The views of `ids`.
pub open spec fn id_views(ids: Seq<String>) -> Seq<Seq<char>> {
    Seq::new(ids.len(), |i: int| ids[i]@)
}

/// Whether an HTTP status means success.
pub fn status_is_success(status: u16) -> (ok: bool)
    ensures
        ok == is_success(status),
{
    200 <= status && status < 300
}

/// The identifiers under which the records of `docs` are written, in
/// order. An empty batch gives no directive, and nothing is then sent.
pub fn bulk_directives<T: Document>(docs: &Vec<T>) -> (ids: Vec<String>)
    ensures
        id_views(ids@) == directive_ids(docs@),
{
    let mut ids: Vec<String> = Vec::new();
    let mut i: usize = 0;
    while i < docs.len()
        invariant
            i <= docs.len(),
            ids.len() == i,
            forall|j: int|
                0 <= j < i ==> (#[trigger] ids[j])@ == doc_id_spec(
                    docs[j].chat(),
                    docs[j].message(),
                ),
        decreases docs.len() - i,
    {
        let k = docs[i].key();
        ids.push(doc_id(k.0, k.1));
        i = i + 1;
    }
    assert(id_views(ids@) =~= directive_ids(docs@));
    ids
}

/// What to send for the batch `docs`: the identifiers of its write
/// directives, or nothing at all for an empty batch, for which no
/// request is made.
pub fn bulk_index<T: Document>(docs: &Vec<T>) -> (request: Option<Vec<String>>)
    ensures
        request is None <==> docs@.len() == 0,
        request matches Some(ids) ==> id_views(ids@) == directive_ids(docs@),
{
    if docs.len() == 0 {
        None
    } else {
        Some(bulk_directives(docs))
    }
}

/// Counts the `true` entries of `flags`, up to `limit`.
fn count_errors(flags: &Vec<bool>, limit: usize) -> (n: usize)
    ensures
        n == if count_true(flags@) <= limit {
            count_true(flags@)
        } else {
            limit as nat
        },
{
    let mut n: usize = 0;
    let mut i: usize = 0;
    while i < flags.len()
        invariant
            i <= flags.len(),
            n <= limit,
            n == if count_true(flags@.take(i as int)) <= limit {
                count_true(flags@.take(i as int))
            } else {
                limit as nat
            },
        decreases flags.len() - i,
    {
        assert(flags@.take(i + 1).drop_last() == flags@.take(i as int));
        if flags[i] && n < limit {
            n = n + 1;
        }
        i = i + 1;
    }
    assert(flags@.take(flags.len() as int) == flags@);
    n
}

/// Turns the store's answer to a bulk request of `batch_len` records into
/// counts. A request that failed as a whole (not sent, refused, or
/// answered unreadably) counts every record as failed. Otherwise each
/// item that the store marks as an error is subtracted from the accepted
/// ones; a record that the store took, new or already there, is accepted.
pub fn bulk_outcome(batch_len: usize, response: &BulkResponse) -> (outcome: WriteOutcome)
    ensures
        outcome.failed == failed_records(batch_len as nat, *response),
        outcome.accepted + outcome.failed == batch_len,
{
    let failed: usize = match response {
        BulkResponse::TransportError => batch_len,
        BulkResponse::Answered { status, body } => {
            if !status_is_success(*status) {
                batch_len
            } else {
                match body {
                    None => batch_len,
                    Some(b) => {
                        let flagged = match b.errors {
                            Some(f) => f,
                            None => false,
                        };
                        if flagged {
                            match &b.item_errors {
                                Some(items) => count_errors(items, batch_len),
                                None => 0,
                            }
                        } else {
                            0
                        }
                    },
                }
            }
        },
    };
    WriteOutcome { accepted: batch_len - failed, failed }
}

/// The store as a map from identifier to document, after the documents
/// `docs` were written to `store` in order, each under its identifier.
pub open spec fn store_after<T: Document>(store: Map<Seq<char>, T>, docs: Seq<T>) -> Map<
    Seq<char>,
    T,
>
    decreases docs.len(),
{
    if docs.len() == 0 {
        store
    } else {
        store_after(store, docs.drop_last()).insert(
            doc_id_spec(docs.last().chat(), docs.last().message()),
            docs.last(),
        )
    }
}

/// Writing a batch adds no identifier but those of its records, and every
/// record's identifier is then present.
pub proof fn lemma_store_after_domain<T: Document>(store: Map<Seq<char>, T>, docs: Seq<T>)
    ensures
        forall|id: Seq<char>| #[trigger]
            store_after(store, docs).dom().contains(id) <==> (store.dom().contains(id)
                || directive_ids(docs).contains(id)),
    decreases docs.len(),
{
    let ids = directive_ids(docs);
    if docs.len() == 0 {
        assert forall|id: Seq<char>| !ids.contains(id) by {}
    } else {
        let init = docs.drop_last();
        let init_ids = directive_ids(init);
        let last = docs.len() - 1;
        lemma_store_after_domain(store, init);
        assert forall|id: Seq<char>| #[trigger]
            store_after(store, docs).dom().contains(id) <==> (store.dom().contains(id)
                || ids.contains(id)) by {
            assert(store_after(store, init).dom().contains(id) <==> (store.dom().contains(id)
                || init_ids.contains(id)));
            if id == ids[last] {
                assert(ids.contains(id));
            } else {
                if init_ids.contains(id) {
                    let j = choose|j: int| 0 <= j < init_ids.len() && init_ids[j] == id;
                    assert(ids[j] == id);
                    assert(ids.contains(id));
                }
                if ids.contains(id) {
                    let j = choose|j: int| 0 <= j < ids.len() && ids[j] == id;
                    assert(init_ids[j] == id);
                    assert(init_ids.contains(id));
                }
            }
        }
    }
}

/// Under each identifier of a written batch the store holds the last
/// record of the batch that has that identifier.
pub proof fn lemma_store_after_latest<T: Document>(store: Map<Seq<char>, T>, docs: Seq<T>, i: int)
    requires
        0 <= i < docs.len(),
        forall|j: int| i < j < docs.len() ==> directive_ids(docs)[j] != directive_ids(docs)[i],
    ensures
        store_after(store, docs)[directive_ids(docs)[i]] == docs[i],
    decreases docs.len(),
{
    let init = docs.drop_last();
    if i < docs.len() - 1 {
        assert(directive_ids(docs)[docs.len() - 1] != directive_ids(docs)[i]);
        assert(directive_ids(init)[i] == directive_ids(docs)[i]);
        assert forall|j: int| i < j < init.len() implies directive_ids(init)[j] != directive_ids(
            init,
        )[i] by {
            assert(directive_ids(init)[j] == directive_ids(docs)[j]);
        }
        lemma_store_after_latest(store, init, i);
    }
}

/// A record's write leaves the documents under other identifiers alone.
pub proof fn lemma_store_after_other<T: Document>(
    store: Map<Seq<char>, T>,
    docs: Seq<T>,
    id: Seq<char>,
)
    requires
        !directive_ids(docs).contains(id),
    ensures
        store_after(store, docs)[id] == store[id],
    decreases docs.len(),
{
    if docs.len() > 0 {
        let init = docs.drop_last();
        assert(directive_ids(docs)[docs.len() - 1] != id);
        assert forall|j: int| 0 <= j < init.len() implies directive_ids(init)[j] != id by {
            assert(directive_ids(docs)[j] == directive_ids(init)[j]);
        }
        lemma_store_after_other(store, init, id);
    }
}

/// The last place at which `id` occurs in `ids`.
proof fn lemma_last_occurrence(ids: Seq<Seq<char>>, id: Seq<char>) -> (i: int)
    requires
        ids.contains(id),
    ensures
        0 <= i < ids.len(),
        ids[i] == id,
        forall|j: int| i < j < ids.len() ==> ids[j] != id,
    decreases ids.len(),
{
    let k = choose|k: int| 0 <= k < ids.len() && ids[k] == id;
    let last = ids.len() - 1;
    if ids[last] == id {
        last
    } else {
        let init = ids.drop_last();
        assert(init[k] == id);
        assert(init.contains(id));
        let i = lemma_last_occurrence(init, id);
        assert forall|j: int| i < j < ids.len() implies ids[j] != id by {
            if j < last {
                assert(init[j] == ids[j]);
            }
        }
        i
    }
}

/// Writing a batch a second time changes nothing: the store holds the
/// same documents under the same identifiers as after the first write.
pub proof fn lemma_bulk_write_idempotent<T: Document>(store: Map<Seq<char>, T>, docs: Seq<T>)
    ensures
        store_after(store_after(store, docs), docs) == store_after(store, docs),
{
    let once = store_after(store, docs);
    let twice = store_after(once, docs);
    let ids = directive_ids(docs);
    lemma_store_after_domain(store, docs);
    lemma_store_after_domain(once, docs);
    assert forall|id: Seq<char>| once.dom().contains(id) implies #[trigger] twice[id]
        == once[id] by {
        if ids.contains(id) {
            let i = lemma_last_occurrence(ids, id);
            lemma_store_after_latest(store, docs, i);
            lemma_store_after_latest(once, docs, i);
        } else {
            lemma_store_after_other(once, docs, id);
        }
    }
    assert(twice =~= once);
}

/// Two writes of the same message leave one document: whatever the two
/// records hold besides, the store has under the message's identifier
/// the record written last, and no identifier but that one was added.
pub proof fn lemma_same_message_one_document<T: Document>(
    store: Map<Seq<char>, T>,
    first: T,
    second: T,
)
    requires
        first.chat() == second.chat(),
        first.message() == second.message(),
    ensures
        ({
            let id = doc_id_spec(second.chat(), second.message());
            let after = store_after(store_after(store, seq![first]), seq![second]);
            &&& after.dom() == store.dom().insert(id)
            &&& after[id] == second
            &&& after == store_after(store, seq![second])
        }),
{
    let id = doc_id_spec(second.chat(), second.message());
    reveal_with_fuel(store_after, 2);
    assert(seq![first].drop_last().len() == 0);
    assert(seq![second].drop_last().len() == 0);
    assert(seq![first].last() == first);
    assert(seq![second].last() == second);
    assert(store_after(store, seq![first]) == store.insert(id, first));
    assert(store_after(store.insert(id, first), seq![second]) == store.insert(id, first).insert(
        id,
        second,
    ));
    assert(store.insert(id, first).insert(id, second) =~= store.insert(id, second));
    assert(store.insert(id, second).dom() =~= store.dom().insert(id));
}

/// Records of different messages never share a document: their
/// identifiers differ.
pub proof fn lemma_distinct_messages_distinct_documents<T: Document>(a: T, b: T)
    requires
        a.chat() != b.chat() || a.message() != b.message(),
    ensures
        doc_id_spec(a.chat(), a.message()) != doc_id_spec(b.chat(), b.message()),
{
    lemma_doc_id_injective(a.chat(), a.message(), b.chat(), b.message());
}

} // verus!
