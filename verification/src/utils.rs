//! Builder traits shared by the crate, and the vocabulary of "first match"
//! that the selection contracts are written in.

use vstd::prelude::*;

verus! {

/// Records one piece of state and hands the builder back.
pub trait With<T> {
    fn with(self, data: T) -> Self;
}

/// Records one piece of state that may be refused.
pub trait WithError<T, E> where Self: Sized {
    fn with_error(self, data: T) -> Result<Self, E>;
}

/// Turns a builder into what it builds.
pub trait Build<T> {
    fn build(self) -> T;
}

/// `index` is the position of the first item of `items` that is `wanted`.
pub open spec fn is_first<T>(items: Seq<T>, wanted: spec_fn(T) -> bool, index: int) -> bool {
    &&& 0 <= index < items.len()
    &&& wanted(items[index])
    &&& forall|j: int| 0 <= j < index ==> !wanted(#[trigger] items[j])
}

/// No item of `items` is `wanted`.
pub open spec fn none_wanted<T>(items: Seq<T>, wanted: spec_fn(T) -> bool) -> bool {
    forall|j: int| 0 <= j < items.len() ==> !wanted(#[trigger] items[j])
}

/// Position of the first item of `items` that is `wanted`, if there is one.
pub open spec fn first_match<T>(items: Seq<T>, wanted: spec_fn(T) -> bool) -> Option<int> {
    if exists|i: int| is_first(items, wanted, i) {
        Some(choose|i: int| is_first(items, wanted, i))
    } else {
        None
    }
}

/// The first wanted item is unique, so finding it fixes `first_match`.
pub proof fn lemma_first_match_found<T>(items: Seq<T>, wanted: spec_fn(T) -> bool, index: int)
    requires
        is_first(items, wanted, index),
    ensures
        first_match(items, wanted) == Some(index),
{
    let chosen = choose|i: int| is_first(items, wanted, i);
    if chosen < index {
        assert(!wanted(items[chosen]));
    } else if index < chosen {
        assert(!wanted(items[index]));
    }
}

/// Where nothing is wanted there is no first match, and the other way round.
pub proof fn lemma_first_match_none<T>(items: Seq<T>, wanted: spec_fn(T) -> bool)
    ensures
        none_wanted(items, wanted) <==> first_match(items, wanted) is None,
{
    if none_wanted(items, wanted) {
        assert forall|i: int| !is_first(items, wanted, i) by {
            if 0 <= i < items.len() {
                assert(!wanted(items[i]));
            }
        }
    } else {
        let j = choose|j: int| 0 <= j < items.len() && wanted(#[trigger] items[j]);
        lemma_some_first(items, wanted, j);
    }
}

/// Below any wanted item there is a first one.
proof fn lemma_some_first<T>(items: Seq<T>, wanted: spec_fn(T) -> bool, upper: int)
    requires
        0 <= upper < items.len(),
        wanted(items[upper]),
    ensures
        exists|i: int| is_first(items, wanted, i),
    decreases upper,
{
    if exists|j: int| 0 <= j < upper && wanted(#[trigger] items[j]) {
        let j = choose|j: int| 0 <= j < upper && wanted(#[trigger] items[j]);
        lemma_some_first(items, wanted, j);
    } else {
        assert(is_first(items, wanted, upper));
    }
}

} // verus!
