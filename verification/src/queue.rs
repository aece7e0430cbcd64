//! Bounded FIFO queues with disconnectable ends.
//!
//! Each queue of the capture session connects exactly one producer to one
//! consumer, holds at most its fixed capacity, and delivers in strict FIFO
//! order. Either end can be closed; the other end observes the disconnect on
//! its next operation. The real-time producer side never blocks: when the
//! queue is full, the newest block is dropped instead.

use vstd::prelude::*;

verus! {

/// Result of a publish attempt on the producer side.
#[derive(Debug, Clone, Copy, PartialEq, Eq, Structural)]
pub enum PublishOutcome {
    /// The item was appended to the queue.
    Accepted,
    /// The queue was full; the newest item — the one just offered — was
    /// dropped and the queue is unchanged.
    DroppedNewest,
    /// The consumer end is gone; nothing was stored.
    Disconnected,
}

/// Result of a non-dropping send attempt on the producer side.
pub enum OfferOutcome<T> {
    /// The item was appended to the queue.
    Accepted,
    /// The queue is full; the item comes back so the producer can wait for
    /// capacity and retry.
    Full(T),
    /// The consumer end is gone; the item was discarded.
    Disconnected,
}

/// Result of a receive attempt on the consumer side.
pub enum PopOutcome<T> {
    /// The oldest queued item.
    Item(T),
    /// Nothing queued, but the producer end is still attached.
    Empty,
    /// Nothing queued and the producer end is gone: end of stream.
    Closed,
}

/// A bounded single-producer single-consumer FIFO queue with explicit
/// liveness of each end.
pub struct BoundedQueue<T> {
    items: Vec<T>,
    cap: usize,
    producer_live: bool,
    consumer_live: bool,
}

impl<T> BoundedQueue<T> {
    /// The queued items, oldest first.
    pub closed spec fn contents(self) -> Seq<T> {
        self.items@
    }

    /// The fixed capacity.
    pub closed spec fn capacity(self) -> int {
        self.cap as int
    }

    /// Whether the producer end is still attached.
    pub closed spec fn producer_live(self) -> bool {
        self.producer_live
    }

    /// Whether the consumer end is still attached.
    pub closed spec fn consumer_live(self) -> bool {
        self.consumer_live
    }

    /// Observational equality: same contents, capacity, and liveness.
    pub open spec fn same_state(self, other: Self) -> bool {
        &&& other.contents() == self.contents()
        &&& other.capacity() == self.capacity()
        &&& other.producer_live() == self.producer_live()
        &&& other.consumer_live() == self.consumer_live()
    }

    /// Memory stays bounded: never more than `capacity` items.
    pub open spec fn wf(self) -> bool {
        &&& self.capacity() >= 1
        &&& self.contents().len() <= self.capacity()
    }

    /// An empty queue with both ends attached.
    pub fn new(cap: usize) -> (q: BoundedQueue<T>)
        requires
            cap >= 1,
        ensures
            q.wf(),
            q.capacity() == cap,
            q.contents() == Seq::<T>::empty(),
            q.producer_live(),
            q.consumer_live(),
    {
        BoundedQueue { items: Vec::new(), cap, producer_live: true, consumer_live: true }
    }

    /// Whether the producer end is still attached.
    pub fn producer_attached(&self) -> (b: bool)
        ensures
            b == self.producer_live(),
    {
        self.producer_live
    }

    /// Whether the consumer end is still attached.
    pub fn consumer_attached(&self) -> (b: bool)
        ensures
            b == self.consumer_live(),
    {
        self.consumer_live
    }

    /// Number of queued items.
    pub fn len(&self) -> (n: usize)
        ensures
            n == self.contents().len(),
    {
        self.items.len()
    }

    /// Non-blocking publish for the real-time producer: on a full queue the
    /// newest item is dropped rather than stalling; a closed consumer is
    /// reported so the producer can tear down.
    pub fn publish_lossy(&mut self, item: T) -> (r: PublishOutcome)
        requires
            old(self).wf(),
        ensures
            final(self).wf(),
            final(self).capacity() == old(self).capacity(),
            final(self).producer_live() == old(self).producer_live(),
            final(self).consumer_live() == old(self).consumer_live(),
            !old(self).consumer_live() ==> r == PublishOutcome::Disconnected && final(self).contents() == old(self).contents(),
            old(self).consumer_live() && old(self).contents().len() < old(self).capacity() ==> r
                == PublishOutcome::Accepted && final(self).contents() == old(self).contents().push(item),
            old(self).consumer_live() && old(self).contents().len() >= old(self).capacity() ==> r
                == PublishOutcome::DroppedNewest && final(self).contents() == old(self).contents(),
    {
        if !self.consumer_live {
            PublishOutcome::Disconnected
        } else if self.items.len() < self.cap {
            self.items.push(item);
            PublishOutcome::Accepted
        } else {
            PublishOutcome::DroppedNewest
        }
    }

    /// Send for the pipeline task: a full queue returns the item so the task
    /// can suspend and retry once the consumer has drained something.
    pub fn offer(&mut self, item: T) -> (r: OfferOutcome<T>)
        requires
            old(self).wf(),
        ensures
            final(self).wf(),
            final(self).capacity() == old(self).capacity(),
            final(self).producer_live() == old(self).producer_live(),
            final(self).consumer_live() == old(self).consumer_live(),
            !old(self).consumer_live() ==> (r matches OfferOutcome::Disconnected && final(self).contents() == old(self).contents()),
            old(self).consumer_live() && old(self).contents().len() < old(self).capacity() ==> (
            r matches OfferOutcome::Accepted && final(self).contents() == old(self).contents().push(item)),
            old(self).consumer_live() && old(self).contents().len() >= old(self).capacity() ==> (
            r matches OfferOutcome::Full(back) && back == item && final(self).contents() == old(self).contents()),
    {
        if !self.consumer_live {
            OfferOutcome::Disconnected
        } else if self.items.len() < self.cap {
            self.items.push(item);
            OfferOutcome::Accepted
        } else {
            OfferOutcome::Full(item)
        }
    }

    /// Receive on the consumer side: strict FIFO, with end-of-stream once
    /// the producer is gone and the queue has drained.
    pub fn pop(&mut self) -> (r: PopOutcome<T>)
        requires
            old(self).wf(),
        ensures
            final(self).wf(),
            final(self).capacity() == old(self).capacity(),
            final(self).producer_live() == old(self).producer_live(),
            final(self).consumer_live() == old(self).consumer_live(),
            old(self).contents().len() > 0 ==> (r matches PopOutcome::Item(x) && x == old(self).contents()[0] && final(self).contents() == old(self).contents().skip(1)),
            old(self).contents().len() == 0 && old(self).producer_live() ==> (r
                matches PopOutcome::Empty && final(self).contents() == old(self).contents()),
            old(self).contents().len() == 0 && !old(self).producer_live() ==> (r
                matches PopOutcome::Closed && final(self).contents() == old(self).contents()),
    {
        if self.items.len() > 0 {
            let x = self.items.remove(0);
            PopOutcome::Item(x)
        } else if self.producer_live {
            PopOutcome::Empty
        } else {
            PopOutcome::Closed
        }
    }

    /// Detaches the producer end. Idempotent.
    pub fn close_producer(&mut self)
        requires
            old(self).wf(),
        ensures
            final(self).wf(),
            final(self).capacity() == old(self).capacity(),
            final(self).contents() == old(self).contents(),
            !final(self).producer_live(),
            final(self).consumer_live() == old(self).consumer_live(),
    {
        self.producer_live = false;
    }

    /// Detaches the consumer end. Idempotent.
    pub fn close_consumer(&mut self)
        requires
            old(self).wf(),
        ensures
            final(self).wf(),
            final(self).capacity() == old(self).capacity(),
            final(self).contents() == old(self).contents(),
            final(self).producer_live() == old(self).producer_live(),
            !final(self).consumer_live(),
    {
        self.consumer_live = false;
    }
}

} // verus!
