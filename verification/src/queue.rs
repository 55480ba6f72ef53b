use std::collections::VecDeque;
use vstd::prelude::*;

verus! {

/// Bounded hand-off queue between two stages: it keeps the order in which the
/// items were sent and never holds more of them than its capacity.
pub struct Channel<T> {
    capacity: usize,
    items: VecDeque<T>,
}

impl<T> View for Channel<T> {
    type V = Seq<T>;

    /// The items that wait in the queue, the one sent first in front.
    closed spec fn view(&self) -> Seq<T> {
        self.items@
    }
}

impl<T> Channel<T> {
    /// Number of items that the queue can hold.
    pub closed spec fn limit(&self) -> nat {
        self.capacity as nat
    }

    /// The queue holds no more than its capacity.
    pub open spec fn wf(&self) -> bool {
        self@.len() <= self.limit()
    }

    /// The empty queue of the given capacity.
    pub fn new(capacity: usize) -> (channel: Self)
        ensures
            channel.wf(),
            channel.limit() == capacity,
            channel@ == Seq::<T>::empty(),
    {
        Channel { capacity, items: VecDeque::new() }
    }

    /// Number of items that the queue can hold.
    pub fn capacity(&self) -> (capacity: usize)
        ensures
            capacity == self.limit(),
    {
        self.capacity
    }

    /// Number of items that wait in the queue.
    pub fn len(&self) -> (len: usize)
        ensures
            len == self@.len(),
    {
        self.items.len()
    }

    /// Whether nothing waits in the queue.
    pub fn is_empty(&self) -> (empty: bool)
        ensures
            empty == (self@.len() == 0),
    {
        self.items.len() == 0
    }

    /// Whether the queue has no room for another item.
    pub fn is_full(&self) -> (full: bool)
        ensures
            full == (self@.len() >= self.limit()),
    {
        self.items.len() >= self.capacity
    }

    /// Puts `item` at the back of the queue. Where the queue is full it stays
    /// as it is and the item comes back: the sender has to wait.
    pub fn send(&mut self, item: T) -> (refused: Result<(), T>)
        requires
            old(self).wf(),
        ensures
            final(self).wf(),
            final(self).limit() == old(self).limit(),
            old(self)@.len() < old(self).limit() ==> refused is Ok && final(self)@ == old(self)@.push(
                item,
            ),
            old(self)@.len() >= old(self).limit() ==> refused == Err::<(), T>(item) && final(self)@
                == old(self)@,
    {
        if self.items.len() >= self.capacity {
            return Err(item);
        }
        self.items.push_back(item);
        Ok(())
    }

    /// Takes the item at the front of the queue, if there is one.
    pub fn receive(&mut self) -> (item: Option<T>)
        requires
            old(self).wf(),
        ensures
            final(self).wf(),
            final(self).limit() == old(self).limit(),
            old(self)@.len() == 0 ==> item is None && final(self)@ == old(self)@,
            old(self)@.len() > 0 ==> item == Some(old(self)@[0]) && final(self)@ == old(self)@.skip(
                1,
            ),
    {
        let item = self.items.pop_front();
        proof {
            if old(self)@.len() > 0 {
                assert(old(self)@.subrange(1, old(self)@.len() as int) =~= old(self)@.skip(1));
            }
        }
        item
    }
}

} // verus!
