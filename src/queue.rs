//! The per-node event queue: a bounded first-in first-out transport from the
//! control side to the realtime side.
use vstd::prelude::*;
use crate::params::Patch;

verus! {

/// An event for one node: a parameter patch, or a message of the node's own.
#[derive(Clone, Copy, PartialEq, Eq, Structural, Debug)]
pub enum NodeEvent {
    Param(Patch),
    Custom(u64),
}

/// Why an event was not enqueued.
#[derive(Clone, Copy, PartialEq, Eq, Structural, Debug)]
pub enum QueueError {
    /// The queue holds as many events as its capacity; the control side is to
    /// retry after the next drain.
    Full,
    /// The node is pending removal and takes no new events.
    Closed,
}

/// A bounded queue of events. Events leave in the order they came in.
pub struct EventQueue {
    events: Vec<NodeEvent>,
    capacity: usize,
    closed: bool,
}

impl View for EventQueue {
    type V = Seq<NodeEvent>;

    closed spec fn view(&self) -> Seq<NodeEvent> {
        self.events@
    }
}

/// The queue contents `s` after the events `es` were enqueued one by one.
pub open spec fn after_pushes(s: Seq<NodeEvent>, es: Seq<NodeEvent>) -> Seq<NodeEvent>
    decreases es.len(),
{
    if es.len() == 0 {
        s
    } else {
        after_pushes(s, es.drop_last()).push(es.last())
    }
}

/// Enqueueing events one by one appends them in the order of the calls, so a
/// drain hands them out in that order.
pub proof fn lemma_fifo(s: Seq<NodeEvent>, es: Seq<NodeEvent>)
    ensures
        after_pushes(s, es) == s + es,
    decreases es.len(),
{
    if es.len() > 0 {
        lemma_fifo(s, es.drop_last());
        assert(s + es =~= (s + es.drop_last()).push(es.last()));
    }
}

impl EventQueue {
    pub closed spec fn spec_capacity(&self) -> nat {
        self.capacity as nat
    }

    pub closed spec fn spec_closed(&self) -> bool {
        self.closed
    }

    pub closed spec fn wf(&self) -> bool {
        self.events@.len() <= self.capacity
    }

    /// An empty, open queue that holds at most `capacity` events.
    pub fn new(capacity: usize) -> (r: EventQueue)
        ensures
            r.wf(),
            r@.len() == 0,
            r.spec_capacity() == capacity,
            !r.spec_closed(),
    {
        EventQueue { events: Vec::new(), capacity, closed: false }
    }

    pub fn len(&self) -> (r: usize)
        ensures
            r == self@.len(),
    {
        self.events.len()
    }

    pub fn capacity(&self) -> (r: usize)
        ensures
            r == self.spec_capacity(),
    {
        self.capacity
    }

    pub fn is_closed(&self) -> (r: bool)
        ensures
            r == self.spec_closed(),
    {
        self.closed
    }

    /// Adds `e` at the back. A closed queue refuses it with `Closed`, a full
    /// one with `Full`; a refused event leaves the queue as it was.
    pub fn push(&mut self, e: NodeEvent) -> (r: Result<(), QueueError>)
        requires
            old(self).wf(),
        ensures
            final(self).wf(),
            final(self).spec_capacity() == old(self).spec_capacity(),
            final(self).spec_closed() == old(self).spec_closed(),
            old(self).spec_closed() ==> r == Err::<(), QueueError>(QueueError::Closed),
            !old(self).spec_closed() && old(self)@.len() >= old(self).spec_capacity() ==> r
                == Err::<(), QueueError>(QueueError::Full),
            r is Ok <==> !old(self).spec_closed() && old(self)@.len() < old(self).spec_capacity(),
            r is Ok ==> final(self)@ == old(self)@.push(e),
            r is Err ==> final(self)@ == old(self)@,
    {
        if self.closed {
            Err(QueueError::Closed)
        } else if self.events.len() >= self.capacity {
            Err(QueueError::Full)
        } else {
            self.events.push(e);
            Ok(())
        }
    }

    /// Removes and returns every queued event, oldest first.
    pub fn drain(&mut self) -> (r: Vec<NodeEvent>)
        requires
            old(self).wf(),
        ensures
            final(self).wf(),
            r@ == old(self)@,
            final(self)@.len() == 0,
            final(self).spec_capacity() == old(self).spec_capacity(),
            final(self).spec_closed() == old(self).spec_closed(),
    {
        let mut out: Vec<NodeEvent> = Vec::new();
        std::mem::swap(&mut out, &mut self.events);
        out
    }

    /// Stops the queue taking new events; those queued stay to be drained.
    pub fn close(&mut self)
        requires
            old(self).wf(),
        ensures
            final(self).wf(),
            final(self)@ == old(self)@,
            final(self).spec_capacity() == old(self).spec_capacity(),
            final(self).spec_closed(),
    {
        self.closed = true;
    }
}

} // verus!
