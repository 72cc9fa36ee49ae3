//! Counting and finding in sequences of events and actions.
use vstd::prelude::*;

verus! {

/// How many of the actions are of this kind.
pub open spec fn count<A>(actions: Seq<A>, kind: spec_fn(A) -> bool) -> nat
    decreases actions.len(),
{
    if actions.len() == 0 {
        0
    } else {
        count(actions.drop_last(), kind) + if kind(actions.last()) {
            1nat
        } else {
            0nat
        }
    }
}

/// One more action counts if it is of the kind.
pub proof fn lemma_count_push<A>(actions: Seq<A>, action: A, kind: spec_fn(A) -> bool)
    ensures
        count(actions.push(action), kind) == count(actions, kind) + if kind(action) {
            1nat
        } else {
            0nat
        },
{
    assert(actions.push(action).drop_last() =~= actions);
}

/// A single action counts if it is of the kind.
pub proof fn lemma_count_one<A>(action: A, kind: spec_fn(A) -> bool)
    ensures
        count(seq![action], kind) == if kind(action) {
            1nat
        } else {
            0nat
        },
{
    assert(seq![action] =~= Seq::<A>::empty().push(action));
    lemma_count_push(Seq::empty(), action, kind);
}

/// What a sequence holds is its last item and what it held before that.
pub proof fn lemma_contains_drop_last<A>(items: Seq<A>, item: A)
    requires
        items.len() > 0,
    ensures
        items.contains(item) == (items.drop_last().contains(item) || items.last() == item),
{
    let before = items.drop_last();
    if before.contains(item) {
        let i = before.index_of(item);
        assert(items[i] == item);
    }
    if items.contains(item) {
        let i = items.index_of(item);
        if i < items.len() - 1 {
            assert(before[i] == item);
        }
    }
}

}
