//! The capture sink: keeps a bounded in-memory queue of recent records
//! for programmatic inspection.

use crate::log_msg::LogMsg;
use crate::ring::RingBuffer;
use vstd::prelude::*;

verus! {

/// The default capacity of a log queue, in records.
pub const DEFAULT_BUF_SIZE: usize = 32;

/// A bounded queue of recent log messages.
///
/// The queue acts as a ring buffer: when it is full, the newest record
/// replaces the oldest one. Records are read back in arrival order.
pub struct LogQueue {
    ring: RingBuffer<LogMsg>,
}

impl View for LogQueue {
    type V = Seq<LogMsg>;

    /// The captured records, oldest first.
    closed spec fn view(&self) -> Seq<LogMsg> {
        self.ring@
    }
}

impl LogQueue {
    /// The fixed capacity of the queue.
    pub closed spec fn spec_capacity(self) -> usize {
        self.ring.spec_capacity()
    }

    /// The queue never holds more records than its capacity.
    pub open spec fn wf(self) -> bool {
        &&& self@.len() <= self.spec_capacity()
        &&& self.spec_capacity() >= 1
    }

    /// Creates a new [`LogQueue`].
    ///
    /// # Arguments
    ///
    /// * `buffer_size`: the capacity, in records; it must be positive.
    pub fn new(buffer_size: usize) -> (r: Self)
        requires
            buffer_size >= 1,
        ensures
            r.wf(),
            r@ == Seq::<LogMsg>::empty(),
            r.spec_capacity() == buffer_size,
    {
        LogQueue { ring: RingBuffer::new(buffer_size) }
    }

    /// Pops the oldest captured record, if any.
    pub fn pop(&mut self) -> (r: Option<LogMsg>)
        requires
            old(self).wf(),
        ensures
            final(self).wf(),
            final(self).spec_capacity() == old(self).spec_capacity(),
            old(self)@.len() == 0 ==> r is None && final(self)@ == old(self)@,
            old(self)@.len() > 0 ==> (r matches Some(v) && v == old(self)@[0]) && final(self)@
                == old(self)@.drop_first(),
    {
        self.ring.pop()
    }

    /// Clears the log queue.
    pub fn clear(&mut self)
        requires
            old(self).wf(),
        ensures
            final(self).wf(),
            final(self).spec_capacity() == old(self).spec_capacity(),
            final(self)@ == Seq::<LogMsg>::empty(),
    {
        self.ring.clear();
    }

    /// Force-pushes a record, evicting the oldest one when full.
    pub fn force_push(&mut self, msg: LogMsg)
        requires
            old(self).wf(),
        ensures
            final(self).wf(),
            final(self).spec_capacity() == old(self).spec_capacity(),
            old(self)@.len() < old(self).spec_capacity() ==> final(self)@ == old(self)@.push(msg),
            old(self)@.len() == old(self).spec_capacity() ==> final(self)@ == old(
                self,
            )@.drop_first().push(msg),
    {
        let _ = self.ring.force_push(msg);
    }
}

impl Default for LogQueue {
    /// A queue with the default capacity of [`DEFAULT_BUF_SIZE`] records.
    fn default() -> (r: Self)
        ensures
            r.wf(),
            r@ == Seq::<LogMsg>::empty(),
            r.spec_capacity() == DEFAULT_BUF_SIZE,
    {
        Self::new(DEFAULT_BUF_SIZE)
    }
}

/// How one write step moves the capture sink from state `a` to state
/// `b`: a copy of the record is appended; when the queue was full, the
/// oldest captured record leaves.
pub open spec fn spec_queue_write_rel(a: LogQueueHandler, b: LogQueueHandler, msg: LogMsg) -> bool {
    &&& b.spec_capacity() == a.spec_capacity()
    &&& b.records().len() >= 1
    &&& {
        let c = b.records().last();
        &&& c.body() == msg.body()
        &&& c.spec_location() == msg.spec_location()
        &&& c.spec_time() == msg.spec_time()
        &&& c.spec_level() == msg.spec_level()
    }
    &&& if a.records().len() < a.spec_capacity() {
        b.records().drop_last() == a.records()
    } else {
        b.records().drop_last() == a.records().drop_first()
    }
}

/// A basic handler which redirects log messages to a queue.
pub struct LogQueueHandler {
    queue: LogQueue,
}

impl LogQueueHandler {
    /// The captured records, oldest first.
    pub closed spec fn records(self) -> Seq<LogMsg> {
        self.queue@
    }

    /// The capacity of the owned queue.
    pub closed spec fn spec_capacity(self) -> usize {
        self.queue.spec_capacity()
    }

    /// The owned queue never overflows its capacity.
    pub open spec fn wf(self) -> bool {
        &&& self.records().len() <= self.spec_capacity()
        &&& self.spec_capacity() >= 1
    }

    /// Creates a new [`LogQueueHandler`] over the given queue.
    ///
    /// # Arguments
    ///
    /// * `queue`: the queue to record log messages into.
    pub fn new(queue: LogQueue) -> (r: Self)
        requires
            queue.wf(),
        ensures
            r.wf(),
            r.records() == queue@,
            r.spec_capacity() == queue.spec_capacity(),
    {
        Self { queue }
    }

    /// Captures one record: a copy of it is force-pushed into the queue,
    /// evicting the oldest record when the queue is full.
    pub fn write(&mut self, msg: &LogMsg)
        requires
            old(self).wf(),
        ensures
            final(self).wf(),
            spec_queue_write_rel(*old(self), *final(self), *msg),
    {
        self.queue.force_push(msg.clone());
        proof {
            if old(self).records().len() < old(self).spec_capacity() {
                assert(self.queue@.drop_last() =~= old(self).records());
            } else {
                assert(self.queue@.drop_last() =~= old(self).records().drop_first());
            }
        }
    }

    /// Pops the oldest captured record, if any.
    pub fn pop(&mut self) -> (r: Option<LogMsg>)
        requires
            old(self).wf(),
        ensures
            final(self).wf(),
            final(self).spec_capacity() == old(self).spec_capacity(),
            old(self).records().len() == 0 ==> r is None && final(self).records() == old(
                self,
            ).records(),
            old(self).records().len() > 0 ==> (r matches Some(v) && v == old(self).records()[0])
                && final(self).records() == old(self).records().drop_first(),
    {
        self.queue.pop()
    }

    /// Clears the owned queue.
    pub fn clear(&mut self)
        requires
            old(self).wf(),
        ensures
            final(self).wf(),
            final(self).spec_capacity() == old(self).spec_capacity(),
            final(self).records() == Seq::<LogMsg>::empty(),
    {
        self.queue.clear();
    }

    /// The capture sink needs no flushing: flushing changes nothing.
    pub fn flush(&mut self)
        ensures
            *final(self) == *old(self),
    {
    }
}

} // verus!
