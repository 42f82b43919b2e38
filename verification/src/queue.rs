//! The bounded FIFO queue that connects the pipeline stages.
//!
//! Capacity is fixed at construction; items are delivered in the order
//! they were put in; `clear` removes all elements at once (used on
//! seek). A producer must not put into a full queue and a consumer must
//! not take from an empty one — in the threaded pipeline the callers
//! park until the condition holds, which is the backpressure signal.

use vstd::prelude::*;

verus! {

pub struct BoundedQueue<T> {
    items: Vec<T>,
    cap: usize,
}

impl<T> View for BoundedQueue<T> {
    type V = Seq<T>;

    closed spec fn view(&self) -> Seq<T> {
        self.items@
    }
}

impl<T> BoundedQueue<T> {
    /// The capacity fixed at construction.
    pub closed spec fn cap(self) -> nat {
        self.cap as nat
    }

    /// The queue never holds more items than its capacity.
    pub open spec fn wf(self) -> bool {
        self@.len() <= self.cap() && self.cap() >= 1
    }

    pub fn new_with_capacity(cap: usize) -> (r: BoundedQueue<T>)
        requires
            cap >= 1,
        ensures
            r@ == Seq::<T>::empty(),
            r.cap() == cap,
            r.wf(),
    {
        BoundedQueue { items: Vec::new(), cap }
    }

    pub fn len(&self) -> (r: usize)
        ensures
            r == self@.len(),
    {
        self.items.len()
    }

    pub fn capacity(&self) -> (r: usize)
        ensures
            r == self.cap(),
    {
        self.cap
    }

    pub fn is_empty(&self) -> (r: bool)
        ensures
            r == (self@.len() == 0),
    {
        self.items.len() == 0
    }

    pub fn is_full(&self) -> (r: bool)
        ensures
            r == (self@.len() == self.cap()),
    {
        self.items.len() == self.cap
    }

    /// Puts one item at the back. The caller must have established that
    /// there is room; a threaded producer parks until there is.
    pub fn add(&mut self, t: T)
        requires
            old(self).wf(),
            old(self)@.len() < old(self).cap(),
        ensures
            final(self)@ == old(self)@.push(t),
            final(self).cap() == old(self).cap(),
            final(self).wf(),
    {
        self.items.push(t);
    }

    /// Takes the oldest item. The caller must have established that the
    /// queue is not empty; a threaded consumer parks until it is not.
    pub fn take(&mut self) -> (r: T)
        requires
            old(self).wf(),
            old(self)@.len() > 0,
        ensures
            r == old(self)@[0],
            final(self)@ == old(self)@.subrange(1, old(self)@.len() as int),
            final(self).cap() == old(self).cap(),
            final(self).wf(),
    {
        self.items.remove(0)
    }

    /// Removes every element at once; used when a seek invalidates all
    /// undelivered items.
    pub fn clear(&mut self)
        requires
            old(self).wf(),
        ensures
            final(self)@ == Seq::<T>::empty(),
            final(self).cap() == old(self).cap(),
            final(self).wf(),
    {
        self.items.clear();
    }
}

/// A queue never exceeds its configured capacity.
pub proof fn lemma_queue_within_capacity<T>(q: BoundedQueue<T>)
    requires
        q.wf(),
    ensures
        q@.len() <= q.cap(),
{
}

} // verus!
