//! The streaming event channel: an unbounded arrival-ordered queue.
//!
//! The producer never blocks and never drops: `publish` always appends.
//! `try_recv` returns the oldest event, or nothing, without blocking.
//! Suspending consumption is the runtime's affair; it drains this queue.

use vstd::prelude::*;

use crate::event::Event;

verus! {

/// An unbounded first-in-first-out queue of events.
pub struct EventChannel<P> {
    items: Vec<Event<P>>,
}

impl<P> View for EventChannel<P> {
    type V = Seq<Event<P>>;

    closed spec fn view(&self) -> Seq<Event<P>> {
        self.items@
    }
}

impl<P> EventChannel<P> {
    /// An empty channel.
    pub fn new() -> (r: Self)
        ensures
            r@ == Seq::<Event<P>>::empty(),
    {
        let r = EventChannel { items: Vec::new() };
        proof {
            assert(r@ =~= Seq::<Event<P>>::empty());
        }
        r
    }

    /// Appends an event. Never fails, never drops, never reorders: the queue
    /// afterwards is the old queue with `e` at the end.
    pub fn publish(&mut self, e: Event<P>)
        ensures
            final(self)@ == old(self)@.push(e),
    {
        self.items.push(e);
    }

    /// Removes and returns the oldest event; on an empty queue, returns the
    /// empty indicator and changes nothing. Never blocks.
    pub fn try_recv(&mut self) -> (r: Option<Event<P>>)
        ensures
            old(self)@.len() == 0 ==> r is None && final(self)@ == old(self)@,
            old(self)@.len() > 0 ==> r == Some(old(self)@.first()) && final(self)@ == old(
                self,
            )@.drop_first(),
    {
        if self.items.len() == 0 {
            None
        } else {
            let e = self.items.remove(0);
            proof {
                assert(self@ =~= old(self)@.drop_first());
            }
            Some(e)
        }
    }

    /// The number of queued events.
    pub fn len(&self) -> (r: usize)
        ensures
            r == self@.len(),
    {
        self.items.len()
    }

    /// Whether the queue is empty.
    pub fn is_empty(&self) -> (r: bool)
        ensures
            r == (self@.len() == 0),
    {
        self.items.len() == 0
    }
}

/// The queue after publishing a whole sequence of events, one at a time.
pub open spec fn spec_publish_all<P>(q: Seq<Event<P>>, es: Seq<Event<P>>) -> Seq<Event<P>>
    decreases es.len(),
{
    if es.len() == 0 {
        q
    } else {
        spec_publish_all(q.push(es.first()), es.drop_first())
    }
}

/// No event is lost and arrival order is kept: publishing a sequence of
/// events, however long nobody consumes, leaves the queue holding the old
/// contents followed by every published event in order.
pub proof fn lemma_no_event_lost<P>(q: Seq<Event<P>>, es: Seq<Event<P>>)
    ensures
        spec_publish_all(q, es) == q + es,
    decreases es.len(),
{
    if es.len() == 0 {
        assert(spec_publish_all(q, es) =~= q + es);
    } else {
        lemma_no_event_lost(q.push(es.first()), es.drop_first());
        assert(q.push(es.first()) + es.drop_first() =~= q + es);
    }
}

} // verus!
