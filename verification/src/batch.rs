//! Counting over batches: the total that the workers report does not depend
//! on how the input is cut into batches, nor on the order in which the
//! batches are handed over.

use crate::predicate::Criteria;
use crate::processor::{pair_outcome, single_outcome, Outcome};
use crate::record::RecordView;
use vstd::prelude::*;
use vstd::seq_lib::{to_multiset_contains, to_multiset_len, to_multiset_remove};

verus! {

/// One item of the input: a single read, or a pair of reads.
pub ghost enum Item {
    Single(RecordView),
    Pair(RecordView, RecordView),
}

/// What becomes of an item under the criteria `c`.
pub open spec fn outcome_of(c: Criteria, item: Item) -> Outcome {
    match item {
        Item::Single(record) => single_outcome(c, record),
        Item::Pair(first, second) => pair_outcome(c, first, second),
    }
}

/// What an item adds to a worker's count: one where it is written out.
pub open spec fn counts_for(c: Criteria, item: Item) -> nat {
    if outcome_of(c, item) is Emitted {
        1
    } else {
        0
    }
}

/// The count that a worker reaches on the items of one batch.
pub open spec fn selected_count(c: Criteria, items: Seq<Item>) -> nat
    decreases items.len(),
{
    if items.len() == 0 {
        0
    } else {
        selected_count(c, items.drop_last()) + counts_for(c, items.last())
    }
}

/// The shared count after the given batches were handed over: the sum of the
/// counts of each.
pub open spec fn handed_over(c: Criteria, batches: Seq<Seq<Item>>) -> nat
    decreases batches.len(),
{
    if batches.len() == 0 {
        0
    } else {
        handed_over(c, batches.drop_last()) + selected_count(c, batches.last())
    }
}

/// The items of the given batches, batch after batch.
pub open spec fn items_of(batches: Seq<Seq<Item>>) -> Seq<Item>
    decreases batches.len(),
{
    if batches.len() == 0 {
        Seq::empty()
    } else {
        items_of(batches.drop_last()) + batches.last()
    }
}

/// The count of two runs of items, one after the other, is the sum of their
/// counts.
pub proof fn law_count_adds_up(c: Criteria, front: Seq<Item>, back: Seq<Item>)
    ensures
        selected_count(c, front + back) == selected_count(c, front) + selected_count(c, back),
    decreases back.len(),
{
    if back.len() == 0 {
        assert(front + back =~= front);
    } else {
        law_count_adds_up(c, front, back.drop_last());
        assert((front + back).drop_last() =~= front + back.drop_last());
        assert((front + back).last() == back.last());
    }
}

/// However the input is cut into batches, the counts of the batches add up
/// to the count of all their items.
pub proof fn law_batches_add_up(c: Criteria, batches: Seq<Seq<Item>>)
    ensures
        handed_over(c, batches) == selected_count(c, items_of(batches)),
    decreases batches.len(),
{
    if batches.len() > 0 {
        law_batches_add_up(c, batches.drop_last());
        law_count_adds_up(c, items_of(batches.drop_last()), batches.last());
    }
}

/// Taking one item out lowers the count by what that item adds.
proof fn lemma_count_without(c: Criteria, items: Seq<Item>, at: int)
    requires
        0 <= at < items.len(),
    ensures
        selected_count(c, items) == selected_count(c, items.remove(at)) + counts_for(c, items[at]),
{
    let front = items.subrange(0, at);
    let one = seq![items[at]];
    let back = items.subrange(at + 1, items.len() as int);
    assert(items =~= (front + one) + back);
    assert(items.remove(at) =~= front + back);
    law_count_adds_up(c, front + one, back);
    law_count_adds_up(c, front, one);
    law_count_adds_up(c, front, back);
    assert(one.drop_last() =~= Seq::<Item>::empty());
    assert(selected_count(c, one) == counts_for(c, items[at])) by {
        assert(one.last() == items[at]);
        assert(selected_count(c, one.drop_last()) == 0);
    }
}

/// The count does not depend on the order of the items.
pub proof fn law_count_ignores_order(c: Criteria, one: Seq<Item>, other: Seq<Item>)
    requires
        one.to_multiset() == other.to_multiset(),
    ensures
        selected_count(c, one) == selected_count(c, other),
    decreases one.len(),
{
    to_multiset_len(one);
    to_multiset_len(other);
    if one.len() > 0 {
        let item = one.last();
        assert(one.contains(item));
        to_multiset_contains(one, item);
        to_multiset_contains(other, item);
        let at = other.index_of(item);
        assert(one.drop_last() =~= one.remove(one.len() - 1));
        to_multiset_remove(one, one.len() - 1);
        to_multiset_remove(other, at);
        law_count_ignores_order(c, one.drop_last(), other.remove(at));
        lemma_count_without(c, other, at);
    }
}

/// Any number of workers reports the same total: where the batches that
/// were handed over hold, together and in whatever order, exactly the items
/// of the input, the shared count is the count of the input taken as one
/// batch.
pub proof fn law_total_is_the_same_for_any_split(
    c: Criteria,
    input: Seq<Item>,
    batches: Seq<Seq<Item>>,
)
    requires
        items_of(batches).to_multiset() == input.to_multiset(),
    ensures
        handed_over(c, batches) == selected_count(c, input),
{
    law_batches_add_up(c, batches);
    law_count_ignores_order(c, items_of(batches), input);
}

} // verus!
