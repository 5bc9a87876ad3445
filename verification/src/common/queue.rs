//! Interface for queue structures.

use vstd::prelude::*;

verus! {

/// The elements of `s` whose decision in `keep` is true, in order; `keep`
/// holds one decision for each of the first `keep.len()` elements.
pub open spec fn filter_by<T>(s: Seq<T>, keep: Seq<bool>) -> Seq<T>
    decreases keep.len(),
{
    if keep.len() == 0 {
        Seq::empty()
    } else {
        let k = keep.len() - 1;
        let pre = filter_by(s, keep.take(k));
        if keep[k] { pre.push(s[k]) } else { pre }
    }
}

/// Filtering keeps at most as many elements as there are decisions.
pub proof fn lemma_filter_by_len<T>(s: Seq<T>, keep: Seq<bool>)
    ensures
        filter_by(s, keep).len() <= keep.len(),
    decreases keep.len(),
{
    if keep.len() > 0 {
        lemma_filter_by_len(s, keep.take(keep.len() - 1));
    }
}

/// A first-in first-out queue of `T`.
pub trait Queue<T> {
    /// Returns true if the queue has at least one element in it.
    fn has_elements(&self) -> bool;

    /// Returns true if the queue cannot take another element.
    fn is_full(&self) -> bool;

    /// Returns how many elements are in the queue.
    fn len(&self) -> usize;

    /// Adds a new element to the back of the queue; returns false if it
    /// could not be added.
    fn enqueue(&mut self, val: T) -> bool;

    /// Removes the element at the front of the queue.
    fn dequeue(&mut self) -> Option<T>;

    /// Removes all elements from the queue.
    fn empty(&mut self);

    /// Keeps only the elements for which `f` returns true, in their order.
    fn retain<F>(&mut self, f: F)
        where
            F: Fn(&T) -> bool,
        requires
            forall|x: &T| f.requires((x,)),
    ;
}

} // verus!
