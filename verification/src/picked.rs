//! Picking out what matters of a sequence.
use vstd::prelude::*;

verus! {

/// What `pick` makes of the items that it makes something of, in order.
pub open spec fn picked<X, Y>(items: Seq<X>, pick: spec_fn(X) -> Option<Y>) -> Seq<Y>
    decreases items.len(),
{
    if items.len() == 0 {
        Seq::empty()
    } else {
        match pick(items.last()) {
            Some(y) => picked(items.drop_last(), pick).push(y),
            None => picked(items.drop_last(), pick),
        }
    }
}

/// What is picked grows with the items.
pub proof fn lemma_picked_push<X, Y>(items: Seq<X>, item: X, pick: spec_fn(X) -> Option<Y>)
    ensures
        picked(items.push(item), pick) == match pick(item) {
            Some(y) => picked(items, pick).push(y),
            None => picked(items, pick),
        },
{
    assert(items.push(item).drop_last() =~= items);
}

} // verus!
