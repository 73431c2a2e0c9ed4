//! Fixed-capacity FIFO queue.
//!
//! Enqueue onto a full queue never blocks and never overwrites queued data:
//! it reports failure and leaves the contents and their order unchanged.
//! Whether a caller drops the rejected item is its own documented policy.

use vstd::prelude::*;

verus! {

/// Error returned when an item is offered to a queue that already holds as
/// many items as its capacity.
#[derive(Clone, Copy, Debug, PartialEq, Eq, Structural)]
pub struct QueueFull;

/// A bounded FIFO: items leave in the order they entered, and the queue never
/// holds more than the capacity it was created with.
pub struct BoundedQueue<T> {
    items: Vec<T>,
    capacity: usize,
}

impl<T> View for BoundedQueue<T> {
    type V = Seq<T>;

    closed spec fn view(&self) -> Seq<T> {
        self.items@
    }
}

impl<T> BoundedQueue<T> {
    /// The fixed capacity the queue was created with.
    pub closed spec fn cap(&self) -> nat {
        self.capacity as nat
    }

    /// The queue never holds more items than its capacity.
    pub open spec fn wf(&self) -> bool {
        self@.len() <= self.cap() && self.cap() <= usize::MAX
    }

    /// Creates an empty queue of the given fixed capacity.
    pub fn new(capacity: usize) -> (q: BoundedQueue<T>)
        ensures
            q.wf(),
            q@ == Seq::<T>::empty(),
            q.cap() == capacity,
    {
        BoundedQueue { items: Vec::new(), capacity }
    }

    /// Number of items currently queued.
    pub fn len(&self) -> (n: usize)
        ensures
            n == self@.len(),
    {
        self.items.len()
    }

    /// True exactly when nothing is queued.
    pub fn is_empty(&self) -> (b: bool)
        ensures
            b == (self@.len() == 0),
    {
        self.items.len() == 0
    }

    /// Appends an item at the tail. On a full queue this fails fast and the
    /// queued items and their order are untouched; it never blocks and never
    /// overwrites in-flight data.
    pub fn enqueue(&mut self, item: T) -> (r: Result<(), QueueFull>)
        requires
            old(self).wf(),
        ensures
            final(self).wf(),
            final(self).cap() == old(self).cap(),
            old(self)@.len() == old(self).cap() ==> r == Err::<(), QueueFull>(QueueFull)
                && final(self)@ == old(self)@,
            old(self)@.len() < old(self).cap() ==> r == Ok::<(), QueueFull>(()) && final(self)@
                == old(self)@.push(item),
    {
        if self.items.len() == self.capacity {
            Err(QueueFull)
        } else {
            self.items.push(item);
            Ok(())
        }
    }

    /// Removes and returns the oldest item, or nothing if the queue is empty;
    /// non-blocking either way.
    pub fn dequeue(&mut self) -> (r: Option<T>)
        requires
            old(self).wf(),
        ensures
            final(self).wf(),
            final(self).cap() == old(self).cap(),
            old(self)@.len() == 0 ==> r is None && final(self)@ == old(self)@,
            old(self)@.len() > 0 ==> r == Some(old(self)@[0]) && final(self)@ == old(self)@.skip(
                1,
            ),
    {
        if self.items.len() == 0 {
            None
        } else {
            let item = self.items.remove(0);
            proof {
                assert(self.items@ =~= old(self)@.skip(1));
            }
            Some(item)
        }
    }
}

} // verus!
