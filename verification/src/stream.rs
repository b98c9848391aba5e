//! The streaming adapter: a bounded, ordered queue that bridges a fully
//! materialized, finite result set to a consumer that drains it as an
//! open-ended stream.
//!
//! One producer pushes records in materialization order and suspends while
//! the queue is full; one consumer pulls them.  The stream ends when the
//! producer has pushed every record and closed the queue: a closed queue
//! with no pending record is the sole end-of-stream signal.  When the
//! consumer disconnects, the producer stops producing rather than doing
//! further work for nobody.

use vstd::prelude::*;

verus! {

/// A bounded, ordered, single-producer/single-consumer queue.
pub struct BoundedQueue<T> {
    items: Vec<T>,
    capacity: usize,
    closed: bool,
}

impl<T> View for BoundedQueue<T> {
    type V = Seq<T>;

    closed spec fn view(&self) -> Seq<T> {
        self.items@
    }
}

impl<T> BoundedQueue<T> {
    /// The fixed capacity the queue was made with.
    pub closed spec fn cap(&self) -> nat {
        self.capacity as nat
    }

    /// Whether the producer has closed the queue.
    pub closed spec fn is_closed(&self) -> bool {
        self.closed
    }

    /// Well-formedness: the queue never holds more than its capacity,
    /// and the capacity is positive.
    pub open spec fn wf(&self) -> bool {
        self@.len() <= self.cap() && self.cap() >= 1
    }

    /// An open, empty queue of the given capacity.
    pub fn new(capacity: usize) -> (q: BoundedQueue<T>)
        requires
            capacity >= 1,
        ensures
            q.wf(),
            q@ == Seq::<T>::empty(),
            q.cap() == capacity,
            !q.is_closed(),
    {
        let q = BoundedQueue { items: Vec::new(), capacity, closed: false };
        proof {
            assert(q@ =~= Seq::<T>::empty());
        }
        q
    }

    /// How many records are pending.
    pub fn len(&self) -> (r: usize)
        ensures
            r == self@.len(),
    {
        self.items.len()
    }

    /// Whether the queue is at capacity, so a push would have to wait.
    pub fn is_full(&self) -> (r: bool)
        ensures
            r == (self@.len() == self.cap()),
    {
        self.items.len() == self.capacity
    }

    /// Whether the producer may still push.
    pub fn is_open(&self) -> (r: bool)
        ensures
            r == !self.is_closed(),
    {
        !self.closed
    }

    /// Whether the stream has ended: the queue is closed and drained.
    pub fn ended(&self) -> (r: bool)
        ensures
            r == (self.is_closed() && self@.len() == 0),
    {
        self.closed && self.items.len() == 0
    }

    /// Producer side: appends one record.
    pub fn push(&mut self, t: T)
        requires
            old(self).wf(),
            !old(self).is_closed(),
            old(self)@.len() < old(self).cap(),
        ensures
            final(self).wf(),
            final(self)@ == old(self)@.push(t),
            final(self).cap() == old(self).cap(),
            !final(self).is_closed(),
    {
        self.items.push(t);
    }

    /// Producer side: closes the queue; nothing can be pushed after.
    pub fn close(&mut self)
        requires
            old(self).wf(),
        ensures
            final(self).wf(),
            final(self)@ == old(self)@,
            final(self).cap() == old(self).cap(),
            final(self).is_closed(),
    {
        self.closed = true;
    }

    /// Consumer side: pulls the oldest record, or nothing when the queue
    /// is momentarily empty.
    pub fn pop(&mut self) -> (r: Option<T>)
        requires
            old(self).wf(),
        ensures
            final(self).wf(),
            final(self).cap() == old(self).cap(),
            final(self).is_closed() == old(self).is_closed(),
            match r {
                Some(t) => old(self)@.len() > 0 && t == old(self)@[0] && final(self)@ == old(
                    self,
                )@.drop_first(),
                None => old(self)@.len() == 0 && final(self)@ == old(self)@,
            },
    {
        if self.items.len() == 0 {
            None
        } else {
            let t = self.items.remove(0);
            proof {
                assert(final(self)@ =~= old(self)@.drop_first());
            }
            Some(t)
        }
    }
}

/// One streaming call in flight: the records still to push, the bounded
/// queue between producer and consumer, and what the consumer has
/// received so far.
pub struct StreamSession<T> {
    /// The whole materialized result set, as it was when the stream
    /// started.
    pub source: Ghost<Seq<T>>,
    /// The records the producer has not pushed yet, in order.
    pub pending: Vec<T>,
    /// The queue between the two sides.
    pub queue: BoundedQueue<T>,
    /// The records the consumer has received, in order.
    pub delivered: Vec<T>,
    /// Whether the consumer has disconnected.
    pub cancelled: bool,
}

impl<T> StreamSession<T> {
    /// Well-formedness: while the consumer is connected, every source
    /// record is delivered, queued or pending, in order and nothing else;
    /// and a closed queue has nothing left to push behind it.
    pub open spec fn wf(&self) -> bool {
        &&& self.queue.wf()
        &&& (!self.cancelled ==> self.source@ == self.delivered@ + self.queue@ + self.pending@)
        &&& (self.queue.is_closed() ==> self.pending@.len() == 0)
    }

    /// Opens a stream over a materialized result set with a queue of the
    /// given capacity.
    pub fn new(records: Vec<T>, capacity: usize) -> (s: StreamSession<T>)
        requires
            capacity >= 1,
        ensures
            s.wf(),
            s.source@ == records@,
            s.delivered@ == Seq::<T>::empty(),
            !s.queue.is_closed(),
            !s.cancelled,
            s.queue.cap() == capacity,
    {
        let ghost source = records@;
        let s = StreamSession {
            source: Ghost(source),
            pending: records,
            queue: BoundedQueue::new(capacity),
            delivered: Vec::new(),
            cancelled: false,
        };
        proof {
            assert(s.delivered@ + s.queue@ + s.pending@ =~= s.source@);
        }
        s
    }

    /// The consumer disconnected: every later push would fail, so the
    /// producer must stop.
    pub fn cancel(&mut self)
        requires
            old(self).wf(),
        ensures
            final(self).wf(),
            final(self).cancelled,
            final(self).source == old(self).source,
            final(self).delivered == old(self).delivered,
            final(self).queue == old(self).queue,
            final(self).pending == old(self).pending,
    {
        self.cancelled = true;
    }

    /// One producer step: pushes the next record when there is room,
    /// closes the queue once everything is pushed, suspends (does
    /// nothing) while the queue is full, and does no further work when
    /// the consumer is gone.  Returns whether it changed anything.
    pub fn producer_step(&mut self) -> (progressed: bool)
        requires
            old(self).wf(),
        ensures
            final(self).wf(),
            final(self).source == old(self).source,
            final(self).cancelled == old(self).cancelled,
            final(self).delivered == old(self).delivered,
            final(self).queue.cap() == old(self).queue.cap(),
            old(self).cancelled ==> {
                &&& !progressed
                &&& final(self).queue == old(self).queue
                &&& final(self).pending == old(self).pending
            },
            !old(self).cancelled && old(self).pending@.len() == 0 ==> {
                &&& final(self).queue@ == old(self).queue@
                &&& final(self).queue.is_closed()
                &&& final(self).pending@.len() == 0
                &&& progressed == !old(self).queue.is_closed()
            },
            (!old(self).cancelled && old(self).pending@.len() > 0 && old(self).queue@.len()
                == old(self).queue.cap()) ==> {
                &&& !progressed
                &&& final(self).queue == old(self).queue
                &&& final(self).pending == old(self).pending
            },
            (!old(self).cancelled && old(self).pending@.len() > 0 && old(self).queue@.len()
                < old(self).queue.cap()) ==> {
                &&& progressed
                &&& final(self).queue@ == old(self).queue@.push(old(self).pending@[0])
                &&& !final(self).queue.is_closed()
                &&& final(self).pending@ == old(self).pending@.drop_first()
            },
    {
        if self.cancelled {
            return false;
        }
        if self.pending.len() == 0 {
            let progressed = self.queue.is_open();
            self.queue.close();
            return progressed;
        }
        if self.queue.is_full() {
            return false;
        }
        let t = self.pending.remove(0);
        self.queue.push(t);
        proof {
            assert(final(self).delivered@ + final(self).queue@ + final(self).pending@ =~= old(
                self,
            ).delivered@ + old(self).queue@ + old(self).pending@);
        }
        true
    }

    /// One consumer step: pulls the oldest queued record, if any, into
    /// the delivered list.  Returns whether a record was received.
    pub fn consumer_step(&mut self) -> (got: bool)
        requires
            old(self).wf(),
        ensures
            final(self).wf(),
            final(self).source == old(self).source,
            final(self).cancelled == old(self).cancelled,
            final(self).pending == old(self).pending,
            final(self).queue.cap() == old(self).queue.cap(),
            final(self).queue.is_closed() == old(self).queue.is_closed(),
            got ==> {
                &&& old(self).queue@.len() > 0
                &&& final(self).queue@ == old(self).queue@.drop_first()
                &&& final(self).delivered@ == old(self).delivered@.push(old(self).queue@[0])
            },
            !got ==> {
                &&& old(self).queue@.len() == 0
                &&& final(self).queue@ == old(self).queue@
                &&& final(self).delivered == old(self).delivered
            },
    {
        match self.queue.pop() {
            Some(t) => {
                self.delivered.push(t);
                proof {
                    assert(final(self).delivered@ + final(self).queue@ + final(self).pending@
                        =~= old(self).delivered@ + old(self).queue@ + old(self).pending@);
                }
                true
            },
            None => false,
        }
    }

    /// Whether the stream has ended: the queue is closed and drained.
    pub fn finished(&self) -> (r: bool)
        ensures
            r == (self.queue.is_closed() && self.queue@.len() == 0),
    {
        self.queue.ended()
    }

    /// Law: backpressure drops and reorders nothing.  Driving the
    /// producer and the consumer alternately until the stream ends
    /// delivers exactly the source records, in order, whatever the
    /// source's length relative to the queue's capacity.
    pub fn run_to_end(&mut self)
        requires
            old(self).wf(),
            !old(self).cancelled,
        ensures
            final(self).wf(),
            final(self).source == old(self).source,
            final(self).queue.is_closed(),
            final(self).queue@.len() == 0,
            final(self).pending@.len() == 0,
            final(self).delivered@ == old(self).source@,
    {
        while !self.finished()
            invariant
                self.wf(),
                !self.cancelled,
                self.source == old(self).source,
            decreases 2 * (self.pending@.len() as int) + (self.queue@.len() as int) + (if self
                .queue
                .is_closed() {
                0int
            } else {
                1int
            }),
        {
            let _ = self.producer_step();
            let _ = self.consumer_step();
        }
        proof {
            assert(self.delivered@ + self.queue@ + self.pending@ =~= self.delivered@);
        }
    }
}

} // verus!
