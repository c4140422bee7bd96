//! The event channel: a bounded, strictly-FIFO queue of events with a
//! capacity fixed at construction.
//!
//! Devices produce into it and exactly one processor chain consumes
//! from it.  Overflow is handled by backpressure, never by dropping: a
//! full queue refuses the event and hands it back, and the producing
//! task suspends and retries until space is free.  The suspension
//! itself is the scheduler's concern; this core exposes the
//! non-suspending operations with exact contracts.

use crate::event::Event;
use vstd::prelude::*;

verus! {

/// A bounded FIFO queue of events.  The front of the view is the
/// oldest queued event, the one `receive` yields next.
pub struct EventChannel {
    queue: Vec<Event>,
    capacity: usize,
}

impl EventChannel {
    /// The queued events, oldest first.
    pub closed spec fn view(&self) -> Seq<Event> {
        self.queue@
    }

    /// The capacity the channel was constructed with.
    pub closed spec fn spec_capacity(&self) -> nat {
        self.capacity as nat
    }

    /// The queue never outgrows its capacity.
    pub open spec fn wf(&self) -> bool {
        &&& self@.len() <= self.spec_capacity()
        &&& self.spec_capacity() >= 1
    }

    pub fn new(capacity: usize) -> (r: Self)
        requires
            capacity >= 1,
        ensures
            r.wf(),
            r@ == Seq::<Event>::empty(),
            r.spec_capacity() == capacity,
    {
        EventChannel { queue: Vec::new(), capacity }
    }

    pub fn len(&self) -> (r: usize)
        ensures
            r == self@.len(),
    {
        self.queue.len()
    }

    pub fn is_empty(&self) -> (r: bool)
        ensures
            r == (self@.len() == 0),
    {
        self.queue.len() == 0
    }

    pub fn is_full(&self) -> (r: bool)
        ensures
            r == (self@.len() == self.spec_capacity()),
    {
        self.queue.len() == self.capacity
    }

    pub fn capacity(&self) -> (r: usize)
        ensures
            r == self.spec_capacity(),
    {
        self.capacity
    }

    /// Queue one event.  A full channel refuses it and hands it back
    /// unchanged, so the producer can suspend and retry: events are
    /// delayed under backpressure, never dropped.
    pub fn send(&mut self, event: Event) -> (r: Result<(), Event>)
        requires
            old(self).wf(),
        ensures
            final(self).wf(),
            final(self).spec_capacity() == old(self).spec_capacity(),
            old(self)@.len() < old(self).spec_capacity() ==> {
                &&& r == Result::<(), Event>::Ok(())
                &&& final(self)@ == old(self)@.push(event)
            },
            old(self)@.len() == old(self).spec_capacity() ==> {
                &&& r == Result::<(), Event>::Err(event)
                &&& final(self)@ == old(self)@
            },
    {
        if self.queue.len() < self.capacity {
            self.queue.push(event);
            Ok(())
        } else {
            Err(event)
        }
    }

    /// Dequeue the oldest event, or nothing if the channel is empty,
    /// in which case the consumer suspends until one arrives.
    pub fn receive(&mut self) -> (r: Option<Event>)
        requires
            old(self).wf(),
        ensures
            final(self).wf(),
            final(self).spec_capacity() == old(self).spec_capacity(),
            old(self)@.len() > 0 ==> {
                &&& r matches Option::Some(e) && e == old(self)@[0]
                &&& final(self)@ == old(self)@.drop_first()
            },
            old(self)@.len() == 0 ==> {
                &&& r is None
                &&& final(self)@ == old(self)@
            },
    {
        if self.queue.len() > 0 {
            Some(self.queue.remove(0))
        } else {
            None
        }
    }
}

} // verus!
