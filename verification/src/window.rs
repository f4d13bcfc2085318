//! A rolling window: an insertion-ordered sequence that keeps only its most
//! recent entries, up to a fixed capacity.

use std::collections::VecDeque;
use vstd::prelude::*;

verus! {

/// The last `capacity` entries of `items`, in their order; all of them when
/// there are no more than `capacity`.
pub open spec fn keep_last<T>(items: Seq<T>, capacity: nat) -> Seq<T> {
    if items.len() <= capacity {
        items
    } else {
        items.subrange(items.len() - capacity, items.len() as int)
    }
}

/// Appends `item` to `window` and, if that takes the window over `capacity`,
/// drops the oldest entry.
pub fn push_bounded<T>(window: &mut VecDeque<T>, item: T, capacity: usize)
    requires
        old(window)@.len() <= capacity,
    ensures
        final(window)@ == keep_last(old(window)@.push(item), capacity as nat),
        final(window)@.len() <= capacity,
{
    window.push_back(item);
    if window.len() > capacity {
        let _ = window.pop_front();
    }
    assert(window@ =~= keep_last(old(window)@.push(item), capacity as nat));
}

/// A window never holds more than its capacity.
pub proof fn lemma_keep_last_len<T>(items: Seq<T>, capacity: nat)
    ensures
        keep_last(items, capacity).len() <= capacity,
        keep_last(items, capacity).len() <= items.len(),
        items.len() >= capacity ==> keep_last(items, capacity).len() == capacity,
{
}

/// Trimming a window before an entry arrives changes nothing: only the last
/// `capacity` entries of the whole history remain either way.
pub proof fn lemma_keep_last_push<T>(items: Seq<T>, item: T, capacity: nat)
    ensures
        keep_last(keep_last(items, capacity).push(item), capacity) == keep_last(
            items.push(item),
            capacity,
        ),
{
    assert(keep_last(keep_last(items, capacity).push(item), capacity) =~= keep_last(
        items.push(item),
        capacity,
    ));
}

/// Once at least `capacity` entries have arrived, nothing that was in the
/// window before them remains.
pub proof fn lemma_keep_last_of_concat<T>(earlier: Seq<T>, later: Seq<T>, capacity: nat)
    requires
        later.len() >= capacity,
    ensures
        keep_last(earlier + later, capacity) == keep_last(later, capacity),
{
    assert(keep_last(earlier + later, capacity) =~= keep_last(later, capacity));
}

/// Mapping the entries of a window commutes with trimming it.
pub proof fn lemma_keep_last_map<A, B>(items: Seq<A>, capacity: nat, f: spec_fn(A) -> B)
    ensures
        keep_last(items, capacity).map_values(f) == keep_last(items.map_values(f), capacity),
{
    assert(keep_last(items, capacity).map_values(f) =~= keep_last(
        items.map_values(f),
        capacity,
    ));
}

} // verus!
