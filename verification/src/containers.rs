//! The fixed-capacity collections of `heapless`, made known to the verifier.
//!
//! The types are opaque here. Each module that keeps one gives its contents a
//! name and states, call by call, what the collection's methods do to them.

use vstd::prelude::*;

verus! {

/// `heapless::Deque`, a ring buffer with room for `N` items.
#[verifier::external_type_specification]
#[verifier::external_body]
#[verifier::reject_recursive_types(T)]
pub struct ExDeque<T, const N: usize>(heapless::Deque<T, N>);

/// `heapless::Vec`, a vector with room for `N` items.
#[verifier::external_type_specification]
#[verifier::external_body]
#[verifier::reject_recursive_types(T)]
pub struct ExVec<T, const N: usize>(heapless::Vec<T, N>);

/// `heapless::String`, a string with room for `N` bytes.
#[verifier::external_type_specification]
#[verifier::external_body]
pub struct ExString<const N: usize>(heapless::String<N>);

/// What a bounded FIFO holds after `item` arrives: when it is full the oldest
/// entry leaves first.
pub open spec fn ring_push<T>(entries: Seq<T>, capacity: nat, item: T) -> Seq<T> {
    if entries.len() >= capacity && entries.len() > 0 {
        entries.drop_first().push(item)
    } else {
        entries.push(item)
    }
}

/// What a bounded FIFO holds after all of `items` arrived in order.
pub open spec fn ring_feed<T>(entries: Seq<T>, capacity: nat, items: Seq<T>) -> Seq<T>
    decreases items.len(),
{
    if items.len() == 0 {
        entries
    } else {
        ring_push(ring_feed(entries, capacity, items.drop_last()), capacity, items.last())
    }
}

/// The last `count` items of `items`, or all of them where there are fewer.
pub open spec fn keep_last<T>(items: Seq<T>, count: nat) -> Seq<T> {
    if items.len() <= count {
        items
    } else {
        items.subrange(items.len() - count, items.len() as int)
    }
}

/// One arrival at a ring that is within its capacity leaves the last
/// `capacity` items of what was there followed by the new one.
pub proof fn lemma_ring_push_keeps_last<T>(entries: Seq<T>, capacity: nat, item: T)
    requires
        capacity > 0,
        entries.len() <= capacity,
    ensures
        ring_push(entries, capacity, item) == keep_last(entries.push(item), capacity),
        ring_push(entries, capacity, item).len() <= capacity,
{
    let pushed = entries.push(item);
    if entries.len() >= capacity {
        assert(entries.drop_first().push(item) =~= pushed.subrange(
            pushed.len() - capacity,
            pushed.len() as int,
        ));
    }
}

/// A ring of capacity `capacity` that was fed `items` in order holds exactly
/// the last `capacity` of everything it has seen, in the order of arrival.
///
/// In particular an empty ring fed `capacity + m` items keeps items
/// `m .. capacity + m`.
pub proof fn lemma_ring_feed_keeps_last<T>(entries: Seq<T>, capacity: nat, items: Seq<T>)
    requires
        capacity > 0,
        entries.len() <= capacity,
    ensures
        ring_feed(entries, capacity, items) == keep_last(entries + items, capacity),
        ring_feed(entries, capacity, items).len() <= capacity,
    decreases items.len(),
{
    if items.len() == 0 {
        assert(entries + items =~= entries);
    } else {
        let front = items.drop_last();
        lemma_ring_feed_keeps_last(entries, capacity, front);
        let before = ring_feed(entries, capacity, front);
        lemma_ring_push_keeps_last(before, capacity, items.last());
        assert((entries + front).push(items.last()) =~= entries + items);
        assert(keep_last(keep_last(entries + front, capacity).push(items.last()), capacity)
            =~= keep_last(entries + items, capacity));
    }
}

/// An empty ring of capacity `capacity` that is fed `capacity + overflow`
/// entries retains exactly the last `capacity` of them in the order of their
/// arrival.
pub proof fn lemma_ring_overflow<T>(capacity: nat, overflow: nat, items: Seq<T>)
    requires
        capacity > 0,
        items.len() == capacity + overflow,
    ensures
        ring_feed(Seq::<T>::empty(), capacity, items) == items.subrange(
            overflow as int,
            items.len() as int,
        ),
{
    lemma_ring_feed_keeps_last(Seq::<T>::empty(), capacity, items);
    assert(Seq::<T>::empty() + items =~= items);
    if overflow == 0 {
        assert(items.subrange(0, items.len() as int) =~= items);
    }
}

} // verus!
