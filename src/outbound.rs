use vstd::prelude::*;

use crate::entity::RuntimeHostEvent;

verus! {

/// How many events the outbound channel holds before a sender must wait.
pub const OUTBOUND_CAPACITY: usize = 100;

/// Why an event was not accepted; the event is handed back.
#[derive(Debug)]
pub enum SendError {
    /// The channel holds `OUTBOUND_CAPACITY` unread events: the sender waits
    /// until the consumer reads one.
    Full(RuntimeHostEvent),
    /// The channel was closed.
    Closed(RuntimeHostEvent),
}

/// What a read from the channel found.
#[derive(Debug)]
pub enum RecvOutcome {
    /// The oldest unread event.
    Item(RuntimeHostEvent),
    /// Nothing to read yet; the channel is still open.
    Empty,
    /// The channel was closed and every event has been read.
    Ended,
}

/// The bounded, first-in first-out channel that carries a host's events to its
/// one consumer.
pub struct OutboundChannel {
    buffer: Vec<RuntimeHostEvent>,
    closed: bool,
    accepted: Ghost<Seq<RuntimeHostEvent>>,
    delivered: Ghost<Seq<RuntimeHostEvent>>,
}

/// The effect of offering `event` to `before`, which became `after`, with
/// result `r`: the event is accepted exactly when the channel is open and not
/// full, and is then appended; otherwise it is handed back and nothing changes.
pub open spec fn sent(
    before: OutboundChannel,
    after: OutboundChannel,
    event: RuntimeHostEvent,
    r: Result<(), SendError>,
) -> bool {
    &&& after.is_closed_spec() == before.is_closed_spec()
    &&& after.delivered() == before.delivered()
    &&& before.is_closed_spec() ==> r == Err::<(), SendError>(SendError::Closed(event))
    &&& !before.is_closed_spec() && before.pending().len() == OUTBOUND_CAPACITY ==> r == Err::<
        (),
        SendError,
    >(SendError::Full(event))
    &&& r is Ok <==> before.accepts()
    &&& r is Err ==> after.pending() == before.pending() && after.accepted() == before.accepted()
    &&& r is Ok ==> after.pending() == before.pending().push(event) && after.accepted()
        == before.accepted().push(event)
}

/// The effect of one read from `before`, which became `after`, with outcome
/// `r`: the oldest unread event is handed out if there is one; otherwise the
/// read finds the stream open and empty, or ended.
pub open spec fn received(before: OutboundChannel, after: OutboundChannel, r: RecvOutcome) -> bool {
    &&& after.is_closed_spec() == before.is_closed_spec()
    &&& after.accepted() == before.accepted()
    &&& before.pending().len() > 0 ==> r == RecvOutcome::Item(before.pending()[0])
        && after.pending() == before.pending().drop_first() && after.delivered()
        == before.delivered().push(before.pending()[0])
    &&& before.pending().len() == 0 ==> after.pending() == before.pending() && after.delivered()
        == before.delivered()
    &&& before.pending().len() == 0 && before.is_closed_spec() ==> r is Ended
    &&& before.pending().len() == 0 && !before.is_closed_spec() ==> r is Empty
}

impl OutboundChannel {
    /// The events sent and not yet read, oldest first.
    pub closed spec fn pending(&self) -> Seq<RuntimeHostEvent> {
        self.buffer@
    }

    pub closed spec fn is_closed_spec(&self) -> bool {
        self.closed
    }

    /// Every event the channel has accepted, in the order it accepted them.
    pub closed spec fn accepted(&self) -> Seq<RuntimeHostEvent> {
        self.accepted@
    }

    /// Every event the consumer has read, in the order it read them.
    pub closed spec fn delivered(&self) -> Seq<RuntimeHostEvent> {
        self.delivered@
    }

    /// The channel never holds more than its capacity, and the consumer reads
    /// the accepted events in the order they were accepted.
    pub open spec fn wf(&self) -> bool {
        &&& self.pending().len() <= OUTBOUND_CAPACITY
        &&& self.delivered() + self.pending() == self.accepted()
    }

    /// Whether a send would be accepted now.
    pub open spec fn accepts(&self) -> bool {
        !self.is_closed_spec() && self.pending().len() < OUTBOUND_CAPACITY
    }

    pub fn new() -> (r: OutboundChannel)
        ensures
            r.wf(),
            r.pending() == Seq::<RuntimeHostEvent>::empty(),
            r.accepted() == Seq::<RuntimeHostEvent>::empty(),
            r.delivered() == Seq::<RuntimeHostEvent>::empty(),
            !r.is_closed_spec(),
    {
        OutboundChannel {
            buffer: Vec::new(),
            closed: false,
            accepted: Ghost(Seq::empty()),
            delivered: Ghost(Seq::empty()),
        }
    }

    /// The number of unread events.
    pub fn len(&self) -> (r: usize)
        ensures
            r == self.pending().len(),
    {
        self.buffer.len()
    }

    pub fn is_closed(&self) -> (r: bool)
        ensures
            r == self.is_closed_spec(),
    {
        self.closed
    }

    /// Offers `event` to the channel. It is accepted unless the channel is
    /// closed or holds `OUTBOUND_CAPACITY` unread events; nothing is dropped.
    pub fn try_send(&mut self, event: RuntimeHostEvent) -> (r: Result<(), SendError>)
        requires
            old(self).wf(),
        ensures
            final(self).wf(),
            sent(*old(self), *final(self), event, r),
    {
        if self.closed {
            return Err(SendError::Closed(event));
        }
        if self.buffer.len() >= OUTBOUND_CAPACITY {
            return Err(SendError::Full(event));
        }
        let ghost e = event;
        self.buffer.push(event);
        self.accepted = Ghost(self.accepted@.push(e));
        assert(self.delivered@ + self.buffer@ == self.accepted@);
        Ok(())
    }

    /// Reads the oldest unread event, if there is one.
    pub fn try_recv(&mut self) -> (r: RecvOutcome)
        requires
            old(self).wf(),
        ensures
            final(self).wf(),
            received(*old(self), *final(self), r),
    {
        if self.buffer.len() == 0 {
            if self.closed {
                RecvOutcome::Ended
            } else {
                RecvOutcome::Empty
            }
        } else {
            let ghost old_buffer = self.buffer@;
            let ghost old_delivered = self.delivered@;
            let event = self.buffer.remove(0);
            self.delivered = Ghost(self.delivered@.push(event));
            assert(self.buffer@ == old_buffer.drop_first());
            assert(self.delivered@ + self.buffer@ == self.accepted@) by {
                assert(old_delivered.push(event) + self.buffer@ =~= old_delivered + old_buffer);
            }
            RecvOutcome::Item(event)
        }
    }

    /// Closes the channel: no event is accepted after this, and the consumer
    /// sees the end of the stream once it has read what is left.
    pub fn close(&mut self)
        requires
            old(self).wf(),
        ensures
            final(self).wf(),
            final(self).is_closed_spec(),
            final(self).pending() == old(self).pending(),
            final(self).accepted() == old(self).accepted(),
            final(self).delivered() == old(self).delivered(),
    {
        self.closed = true;
    }
}

/// The channel does not deduplicate: offering the same event twice to an open
/// channel with room for both leaves two identical events at its end.
pub proof fn lemma_same_event_sent_twice(
    c0: OutboundChannel,
    c1: OutboundChannel,
    c2: OutboundChannel,
    event: RuntimeHostEvent,
    r1: Result<(), SendError>,
    r2: Result<(), SendError>,
)
    requires
        c0.wf(),
        !c0.is_closed_spec(),
        c0.pending().len() + 2 <= OUTBOUND_CAPACITY,
        sent(c0, c1, event, r1),
        sent(c1, c2, event, r2),
    ensures
        r1 is Ok,
        r2 is Ok,
        c2.pending() == c0.pending().push(event).push(event),
        c2.accepted() == c0.accepted().push(event).push(event),
{
}

/// Backpressure: a channel holding `OUTBOUND_CAPACITY` unread events refuses
/// the next event, unchanged, as full; once the consumer has read one event,
/// the same event is accepted.
pub proof fn lemma_backpressure(
    c0: OutboundChannel,
    c1: OutboundChannel,
    c2: OutboundChannel,
    c3: OutboundChannel,
    event: RuntimeHostEvent,
    r1: Result<(), SendError>,
    read: RecvOutcome,
    r3: Result<(), SendError>,
)
    requires
        c0.wf(),
        !c0.is_closed_spec(),
        c0.pending().len() == OUTBOUND_CAPACITY,
        sent(c0, c1, event, r1),
        received(c1, c2, read),
        sent(c2, c3, event, r3),
    ensures
        r1 == Err::<(), SendError>(SendError::Full(event)),
        c1.pending() == c0.pending(),
        read == RecvOutcome::Item(c0.pending()[0]),
        r3 is Ok,
        c3.pending() == c0.pending().drop_first().push(event),
{
}

/// An open channel to which nothing is sent yields nothing: a read finds it
/// empty and still open, and leaves it so, until it is closed.
pub proof fn lemma_silent_channel_yields_nothing(
    c0: OutboundChannel,
    c1: OutboundChannel,
    read: RecvOutcome,
)
    requires
        c0.wf(),
        !c0.is_closed_spec(),
        c0.pending().len() == 0,
        received(c0, c1, read),
    ensures
        read is Empty,
        !c1.is_closed_spec(),
        c1.pending().len() == 0,
{
}

} // verus!
