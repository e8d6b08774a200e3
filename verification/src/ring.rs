//! A bounded FIFO ring used for in-memory log capture.
//!
//! The ring supports two push modes: a refusing push ([`RingBuffer::push`],
//! which reports a full ring so that the producer can exert backpressure)
//! and a forced push ([`RingBuffer::force_push`], which evicts the oldest
//! element to admit the newest). Popping always yields the oldest element,
//! so elements leave in arrival order.

use vstd::prelude::*;

verus! {

/// A bounded FIFO queue of at most `capacity` elements.
pub struct RingBuffer<T> {
    items: Vec<T>,
    capacity: usize,
}

impl<T> View for RingBuffer<T> {
    type V = Seq<T>;

    /// The elements now held, oldest first.
    closed spec fn view(&self) -> Seq<T> {
        self.items@
    }
}

impl<T> RingBuffer<T> {
    /// The fixed capacity the ring was made with.
    pub closed spec fn spec_capacity(self) -> usize {
        self.capacity
    }

    /// The ring never holds more than its capacity, which is positive.
    pub open spec fn wf(self) -> bool {
        &&& self@.len() <= self.spec_capacity()
        &&& self.spec_capacity() >= 1
    }

    /// Creates an empty ring that can hold up to `capacity` elements.
    pub fn new(capacity: usize) -> (r: RingBuffer<T>)
        requires
            capacity >= 1,
        ensures
            r.wf(),
            r@ == Seq::<T>::empty(),
            r.spec_capacity() == capacity,
    {
        RingBuffer { items: Vec::new(), capacity }
    }

    /// The fixed capacity.
    pub fn capacity(&self) -> (r: usize)
        ensures
            r == self.spec_capacity(),
    {
        self.capacity
    }

    /// How many elements the ring holds now.
    pub fn len(&self) -> (r: usize)
        ensures
            r == self@.len(),
    {
        self.items.len()
    }

    /// True when the ring holds nothing.
    pub fn is_empty(&self) -> (r: bool)
        ensures
            r == (self@.len() == 0),
    {
        self.items.len() == 0
    }

    /// True when the ring holds as many elements as its capacity.
    pub fn is_full(&self) -> (r: bool)
        ensures
            r == (self@.len() == self.spec_capacity()),
    {
        self.items.len() == self.capacity
    }

    /// Appends `value` as the newest element, or hands it back when the
    /// ring is full.
    pub fn push(&mut self, value: T) -> (r: Result<(), T>)
        requires
            old(self).wf(),
        ensures
            final(self).wf(),
            final(self).spec_capacity() == old(self).spec_capacity(),
            old(self)@.len() < old(self).spec_capacity() ==> r is Ok && final(self)@ == old(
                self,
            )@.push(value),
            old(self)@.len() == old(self).spec_capacity() ==> final(self)@ == old(self)@ && (r
                matches Err(v) && v == value),
    {
        if self.items.len() < self.capacity {
            self.items.push(value);
            Ok(())
        } else {
            Err(value)
        }
    }

    /// Appends `value` as the newest element; when the ring is full the
    /// oldest element is evicted and returned.
    pub fn force_push(&mut self, value: T) -> (evicted: Option<T>)
        requires
            old(self).wf(),
        ensures
            final(self).wf(),
            final(self).spec_capacity() == old(self).spec_capacity(),
            old(self)@.len() < old(self).spec_capacity() ==> evicted is None && final(self)@
                == old(self)@.push(value),
            old(self)@.len() == old(self).spec_capacity() ==> (evicted matches Some(v) && v == old(
                self,
            )@[0]) && final(self)@ == old(self)@.drop_first().push(value),
    {
        if self.items.len() < self.capacity {
            self.items.push(value);
            None
        } else {
            let evicted = self.items.remove(0);
            self.items.push(value);
            proof {
                assert(self.items@ =~= old(self)@.drop_first().push(value));
            }
            Some(evicted)
        }
    }

    /// Removes and returns the oldest element, if any.
    pub fn pop(&mut self) -> (r: Option<T>)
        requires
            old(self).wf(),
        ensures
            final(self).wf(),
            final(self).spec_capacity() == old(self).spec_capacity(),
            old(self)@.len() == 0 ==> r is None && final(self)@ == old(self)@,
            old(self)@.len() > 0 ==> (r matches Some(v) && v == old(self)@[0]) && final(self)@
                == old(self)@.drop_first(),
    {
        if self.items.len() == 0 {
            None
        } else {
            let r = self.items.remove(0);
            proof {
                assert(self.items@ =~= old(self)@.drop_first());
            }
            Some(r)
        }
    }

    /// Removes every element.
    pub fn clear(&mut self)
        requires
            old(self).wf(),
        ensures
            final(self).wf(),
            final(self).spec_capacity() == old(self).spec_capacity(),
            final(self)@ == Seq::<T>::empty(),
    {
        self.items.clear();
    }
}

} // verus!
