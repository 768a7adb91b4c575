//! The first item of a sequence that meets a condition.

use vstd::prelude::*;

verus! {

/// Whether `i` is the place of the first item that is wanted.
pub open spec fn is_first<A>(items: Seq<A>, wanted: spec_fn(A) -> bool, i: int) -> bool {
    &&& 0 <= i < items.len()
    &&& wanted(items[i])
    &&& forall|j: int| 0 <= j < i ==> !wanted(#[trigger] items[j])
}

/// The place of the first item that is wanted, if there is one.
#[verifier::opaque]
pub open spec fn first_index<A>(items: Seq<A>, wanted: spec_fn(A) -> bool) -> Option<int> {
    if exists|i: int| is_first(items, wanted, i) {
        Some(choose|i: int| is_first(items, wanted, i))
    } else {
        None
    }
}

/// The first item that is wanted, if there is one.
pub open spec fn first_item<A>(items: Seq<A>, wanted: spec_fn(A) -> bool) -> Option<A> {
    match first_index(items, wanted) {
        Some(i) => Some(items[i]),
        None => None,
    }
}

/// There is at most one first place.
pub proof fn lemma_first_index<A>(items: Seq<A>, wanted: spec_fn(A) -> bool, i: int)
    requires
        is_first(items, wanted, i),
    ensures
        first_index(items, wanted) == Some(i),
{
    reveal(first_index);
    let chosen = choose|k: int| is_first(items, wanted, k);
    if chosen < i {
        assert(!wanted(items[chosen]));
    } else if i < chosen {
        assert(!wanted(items[i]));
    }
}

/// Where no item is wanted, there is no first place.
pub proof fn lemma_no_first_index<A>(items: Seq<A>, wanted: spec_fn(A) -> bool)
    requires
        forall|j: int| 0 <= j < items.len() ==> !wanted(#[trigger] items[j]),
    ensures
        first_index(items, wanted) is None,
{
    reveal(first_index);
    assert forall|k: int| !is_first(items, wanted, k) by {
        if 0 <= k < items.len() {
            assert(!wanted(items[k]));
        }
    }
}

/// What a first place says of the sequence.
pub proof fn lemma_first_index_is_first<A>(items: Seq<A>, wanted: spec_fn(A) -> bool)
    ensures
        match first_index(items, wanted) {
            Some(i) => is_first(items, wanted, i),
            None => forall|j: int| 0 <= j < items.len() ==> !wanted(#[trigger] items[j]),
        },
{
    reveal(first_index);
    if exists|i: int| is_first(items, wanted, i) {
    } else {
        assert forall|j: int| 0 <= j < items.len() implies !wanted(#[trigger] items[j]) by {
            if wanted(items[j]) {
                lemma_some_first(items, wanted, j);
            }
        }
    }
}

/// Where an item is wanted, there is a first place.
pub proof fn lemma_some_first<A>(items: Seq<A>, wanted: spec_fn(A) -> bool, j: int)
    requires
        0 <= j < items.len(),
        wanted(items[j]),
    ensures
        exists|i: int| is_first(items, wanted, i),
    decreases j,
{
    if exists|k: int| 0 <= k < j && wanted(items[k]) {
        let k = choose|k: int| 0 <= k < j && wanted(items[k]);
        lemma_some_first(items, wanted, k);
    } else {
        assert(is_first(items, wanted, j));
    }
}

} // verus!
