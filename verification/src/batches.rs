//! Sequences of batches.

use vstd::prelude::*;

verus! {

/// The items of `batches`, one batch after the other.
pub open spec fn concat<T>(batches: Seq<Seq<T>>) -> Seq<T>
    decreases batches.len(),
{
    if batches.len() == 0 {
        Seq::empty()
    } else {
        concat(batches.drop_last()) + batches.last()
    }
}

/// One more batch adds its items at the end.
pub proof fn lemma_concat_push<T>(batches: Seq<Seq<T>>, batch: Seq<T>)
    ensures
        concat(batches.push(batch)) == concat(batches) + batch,
{
    assert(batches.push(batch).drop_last() == batches);
}

/// Every item of a batch is among the items of all batches.
pub proof fn lemma_concat_contains<T>(batches: Seq<Seq<T>>, i: int, j: int)
    requires
        0 <= i < batches.len(),
        0 <= j < batches[i].len(),
    ensures
        concat(batches).contains(batches[i][j]),
    decreases batches.len(),
{
    let init = batches.drop_last();
    let last = batches.last();
    if i == batches.len() - 1 {
        assert(concat(batches)[concat(init).len() + j] == last[j]);
    } else {
        lemma_concat_contains(init, i, j);
        let k = choose|k: int| 0 <= k < concat(init).len() && concat(init)[k] == init[i][j];
        assert(concat(batches)[k] == batches[i][j]);
    }
}

} // verus!
