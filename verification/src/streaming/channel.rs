//! A bounded delivery channel for one subscription handle.
//!
//! Delivery into a channel is non-blocking: an event offered to a full
//! channel is dropped for that channel only, so a slow consumer sees gaps
//! rather than back-pressuring the whole multiplexer. A channel is closed
//! when its subscription is torn down or the transport's event sequence ends;
//! a reader of an empty, closed channel sees end-of-stream.

use vstd::prelude::*;

use crate::streaming::wire::{EventView, WireEvent};

verus! {

/// The mathematical value of a [`DeliveryQueue`].
#[verifier::ext_equal]
pub struct QueueView {
    /// The fixed capacity.
    pub capacity: nat,
    /// The buffered events, oldest first.
    pub events: Seq<EventView>,
    /// Whether the channel has been closed.
    pub closed: bool,
}

impl QueueView {
    /// Whether the queue is well formed: positive capacity, never over-full.
    pub open spec fn wf(self) -> bool {
        1 <= self.capacity && self.events.len() <= self.capacity
    }

    /// The queue after an event is offered to it: appended when the queue is
    /// open and has room, unchanged otherwise.
    pub open spec fn offer(self, ev: EventView) -> QueueView {
        if !self.closed && self.events.len() < self.capacity {
            QueueView { events: self.events.push(ev), ..self }
        } else {
            self
        }
    }

    /// The queue with its channel closed.
    pub open spec fn close(self) -> QueueView {
        QueueView { closed: true, ..self }
    }
}

/// A queue after a whole sequence of events is offered to it, one at a
/// time, oldest first.
pub open spec fn offer_all(q: QueueView, evs: Seq<EventView>) -> QueueView
    decreases evs.len(),
{
    if evs.len() == 0 {
        q
    } else {
        offer_all(q.offer(evs[0]), evs.drop_first())
    }
}

/// Law: a channel offered more events than it has room for retains exactly
/// the oldest ones, up to its capacity, and drops the rest; offering never
/// changes the capacity or the closed flag, and nothing ever blocks. In
/// particular, an empty channel of some capacity offered more events than
/// that retains exactly the first capacity-many.
pub proof fn lemma_offer_all_keeps_oldest(q: QueueView, evs: Seq<EventView>)
    requires
        q.wf(),
        !q.closed,
    ensures
        offer_all(q, evs).wf(),
        offer_all(q, evs).capacity == q.capacity,
        offer_all(q, evs).closed == q.closed,
        offer_all(q, evs).events == (q.events + evs).take(
            if q.events.len() + evs.len() <= q.capacity {
                (q.events.len() + evs.len()) as int
            } else {
                q.capacity as int
            },
        ),
    decreases evs.len(),
{
    if evs.len() == 0 {
        assert((q.events + evs).take(q.events.len() as int) =~= q.events);
    } else {
        let q1 = q.offer(evs[0]);
        let rest = evs.drop_first();
        lemma_offer_all_keeps_oldest(q1, rest);
        if q.events.len() < q.capacity {
            assert(q1.events == q.events.push(evs[0]));
            assert(q1.events + rest =~= q.events + evs);
        } else {
            assert(q1 == q);
            assert(q.events.len() == q.capacity);
            assert((q.events + rest).take(q.capacity as int) =~= q.events);
            assert((q.events + evs).take(q.capacity as int) =~= q.events);
        }
    }
}

/// What a read from a delivery channel yields.
#[derive(Debug)]
pub enum RecvOutcome {
    /// The next buffered event.
    Event(WireEvent),
    /// Nothing buffered yet; the channel is still open, so a caller would
    /// suspend and retry.
    Pending,
    /// The channel is closed and drained: no further event will ever arrive.
    EndOfStream,
}

/// A bounded, first-in-first-out delivery channel.
#[derive(Debug)]
pub struct DeliveryQueue {
    capacity: usize,
    buffer: Vec<WireEvent>,
    closed: bool,
}

impl View for DeliveryQueue {
    type V = QueueView;

    closed spec fn view(&self) -> QueueView {
        QueueView {
            capacity: self.capacity as nat,
            events: self.buffer@.map_values(|e: WireEvent| e@),
            closed: self.closed,
        }
    }
}

impl DeliveryQueue {
    /// Whether the queue is well formed: positive capacity, never over-full.
    pub open spec fn wf(&self) -> bool {
        self@.wf()
    }

    /// Creates an open, empty channel with the given capacity.
    pub fn new(capacity: usize) -> (r: DeliveryQueue)
        requires
            capacity >= 1,
        ensures
            r.wf(),
            r@.capacity == capacity,
            r@.events == Seq::<EventView>::empty(),
            !r@.closed,
    {
        let r = DeliveryQueue { capacity, buffer: Vec::new(), closed: false };
        proof {
            assert(r@.events =~= Seq::<EventView>::empty());
        }
        r
    }

    /// Offers an event without blocking: buffers it if the channel is open
    /// and has room and returns whether it was retained; a full or closed
    /// channel drops the event and is left unchanged.
    pub fn try_push(&mut self, e: WireEvent) -> (kept: bool)
        requires
            old(self).wf(),
        ensures
            final(self).wf(),
            final(self)@ == old(self)@.offer(e@),
            kept == (!old(self)@.closed && old(self)@.events.len() < old(self)@.capacity),
    {
        if !self.closed && self.buffer.len() < self.capacity {
            self.buffer.push(e);
            proof {
                assert(self@.events =~= old(self)@.events.push(e@));
            }
            true
        } else {
            false
        }
    }

    /// Takes the oldest buffered event; on an empty channel, reports whether
    /// a caller should wait ([`RecvOutcome::Pending`]) or give up
    /// ([`RecvOutcome::EndOfStream`]).
    pub fn pop(&mut self) -> (r: RecvOutcome)
        requires
            old(self).wf(),
        ensures
            final(self).wf(),
            final(self)@.capacity == old(self)@.capacity,
            final(self)@.closed == old(self)@.closed,
            old(self)@.events.len() > 0 ==> ({
                &&& r matches RecvOutcome::Event(e)
                &&& e@ == old(self)@.events[0]
                &&& final(self)@.events == old(self)@.events.drop_first()
            }),
            old(self)@.events.len() == 0 ==> final(self)@.events == old(self)@.events && ((r matches
                RecvOutcome::Pending) <==> !old(self)@.closed) && ((r matches
                RecvOutcome::EndOfStream) <==> old(self)@.closed),
    {
        if self.buffer.len() > 0 {
            let e = self.buffer.remove(0);
            proof {
                assert(self@.events =~= old(self)@.events.drop_first());
            }
            RecvOutcome::Event(e)
        } else if self.closed {
            RecvOutcome::EndOfStream
        } else {
            RecvOutcome::Pending
        }
    }

    /// Closes the channel: buffered events stay readable, nothing further is
    /// accepted.
    pub fn close(&mut self)
        requires
            old(self).wf(),
        ensures
            final(self).wf(),
            final(self)@ == old(self)@.close(),
    {
        self.closed = true;
    }

    /// Returns how many events are buffered.
    pub fn len(&self) -> (r: usize)
        ensures
            r == self@.events.len(),
    {
        self.buffer.len()
    }

    /// Returns whether the channel has been closed.
    pub fn is_closed(&self) -> (r: bool)
        ensures
            r == self@.closed,
    {
        self.closed
    }
}

} // verus!
