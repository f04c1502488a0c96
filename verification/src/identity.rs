//! Document identifiers: the upsert key of a message in the store.
//!
//! The identifier of the message `message_id` of chat `chat_id` is
//! `"{chat_id}_{message_id}"`, both in base ten. It depends on nothing but
//! the two numbers, so every write of the same message, live or
//! backfilled or repeated, carries the same key.

use vstd::prelude::*;
use crate::decimal::{int_digits, lemma_int_digits_chars, lemma_int_digits_injective, push_int};
use crate::text::push_char;

verus! {

/// The identifier of message `message_id` in chat `chat_id`.
pub open spec fn doc_id_spec(chat_id: int, message_id: int) -> Seq<char> {
    int_digits(chat_id) + seq!['_'] + int_digits(message_id)
}

/// The identifier of message `message_id` in chat `chat_id`. The result
/// is a function of the two numbers alone: equal arguments give equal
/// identifiers, in every call and every process.
pub fn doc_id(chat_id: i64, message_id: i64) -> (id: String)
    ensures
        id@ == doc_id_spec(chat_id as int, message_id as int),
{
    let mut id = String::new();
    push_int(&mut id, chat_id);
    push_char(&mut id, '_');
    push_int(&mut id, message_id);
    assert(id@ =~= doc_id_spec(chat_id as int, message_id as int));
    id
}

/// Two strings without `_`, each followed by `_` and a rest, agree as
/// wholes only when they agree part by part.
proof fn lemma_split_at_separator(a: Seq<char>, b: Seq<char>, c: Seq<char>, d: Seq<char>)
    requires
        forall|k: int| 0 <= k < a.len() ==> a[k] != '_',
        forall|k: int| 0 <= k < c.len() ==> c[k] != '_',
        a + seq!['_'] + b == c + seq!['_'] + d,
    ensures
        a == c,
        b == d,
{
    let x = a + seq!['_'] + b;
    let y = c + seq!['_'] + d;
    assert(x[a.len() as int] == '_');
    assert(y[c.len() as int] == '_');
    if a.len() < c.len() {
        assert(y[a.len() as int] == c[a.len() as int]);
        assert(false);
    }
    if c.len() < a.len() {
        assert(x[c.len() as int] == a[c.len() as int]);
        assert(false);
    }
    assert(a =~= x.take(a.len() as int));
    assert(c =~= y.take(a.len() as int));
    assert(b =~= x.skip(a.len() as int + 1));
    assert(d =~= y.skip(a.len() as int + 1));
}

/// Identifiers are injective: two messages share an identifier exactly
/// when they share both the chat and the message number.
pub proof fn lemma_doc_id_injective(chat_a: int, message_a: int, chat_b: int, message_b: int)
    ensures
        doc_id_spec(chat_a, message_a) == doc_id_spec(chat_b, message_b) <==> (chat_a == chat_b
            && message_a == message_b),
{
    if doc_id_spec(chat_a, message_a) == doc_id_spec(chat_b, message_b) {
        lemma_int_digits_chars(chat_a);
        lemma_int_digits_chars(chat_b);
        lemma_split_at_separator(
            int_digits(chat_a),
            int_digits(message_a),
            int_digits(chat_b),
            int_digits(message_b),
        );
        lemma_int_digits_injective(chat_a, chat_b);
        lemma_int_digits_injective(message_a, message_b);
    }
}

} // verus!
