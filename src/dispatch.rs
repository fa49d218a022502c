use vstd::prelude::*;

use crate::entity::RuntimeHostEvent;
use crate::outbound::{OutboundChannel, SendError, OUTBOUND_CAPACITY};

verus! {

/// The kinds of failure of one invocation of the mapping module.
#[derive(Clone, Copy, Debug, PartialEq, Eq)]
pub enum ExecutionErrorKind {
    /// The program trapped or reached an unreachable instruction.
    Trap,
    /// The invocation ran out of gas or hit another resource limit.
    ResourceLimit,
    /// The event's arguments could not be decoded against the handler's
    /// expected signature.
    Decode,
}

/// A failed invocation of the mapping module.
#[derive(Clone, Debug)]
pub struct ExecutionError {
    pub kind: ExecutionErrorKind,
    pub message: String,
}

/// A failed invocation, with what is needed to report and reproduce it.
#[derive(Debug)]
pub struct InvocationFailure {
    pub subscription_id: String,
    pub event_signature: String,
    pub handler: String,
    pub error: ExecutionError,
}

/// What became of the events of an invocation after a forwarding step.
#[derive(Clone, Copy, Debug, PartialEq, Eq)]
pub enum ForwardOutcome {
    /// Every event of the invocation has been accepted by the channel.
    Done,
    /// The channel is full: the task waits until the consumer reads, then
    /// forwards again.
    Blocked,
    /// The channel was closed; the events left are not delivered.
    Closed,
}

/// The dispatch state of one subscription: the chain events delivered on it
/// are handled one at a time, in chain order, and the events that each
/// invocation emits are forwarded, in order, before the next chain event is
/// taken.
pub struct SubscriptionTask {
    subscription_id: String,
    event_signature: String,
    handler: String,
    pending: Vec<RuntimeHostEvent>,
}

/// The effect of handing the result of an invocation to a task `before`, which
/// became `after`, with report `r`: a successful invocation's events become
/// pending in emission order; a failed one leaves nothing pending and is
/// reported with the subscription's id, event signature and handler.
pub open spec fn invoked(
    before: SubscriptionTask,
    after: SubscriptionTask,
    result: Result<Vec<RuntimeHostEvent>, ExecutionError>,
    r: Option<InvocationFailure>,
) -> bool {
    &&& after.subscription_id_spec() == before.subscription_id_spec()
    &&& after.event_signature_spec() == before.event_signature_spec()
    &&& after.handler_spec() == before.handler_spec()
    &&& result is Ok ==> r is None && after.pending() == result->Ok_0@
    &&& result is Err ==> {
        &&& after.idle()
        &&& r is Some
        &&& r->Some_0.error == result->Err_0
        &&& r->Some_0.subscription_id@ == before.subscription_id_spec()
        &&& r->Some_0.event_signature@ == before.event_signature_spec()
        &&& r->Some_0.handler@ == before.handler_spec()
    }
}

/// The effect of a forwarding step from task `t0` and channel `c0` to `t1` and
/// `c1`, with outcome `r`: pending events move, oldest first, to the end of
/// what the channel has accepted, for as long as the channel accepts them.
pub open spec fn forwarded(
    t0: SubscriptionTask,
    c0: OutboundChannel,
    t1: SubscriptionTask,
    c1: OutboundChannel,
    r: ForwardOutcome,
) -> bool {
    &&& t1.subscription_id_spec() == t0.subscription_id_spec()
    &&& t1.event_signature_spec() == t0.event_signature_spec()
    &&& t1.handler_spec() == t0.handler_spec()
    &&& c1.delivered() == c0.delivered()
    &&& c1.is_closed_spec() == c0.is_closed_spec()
    &&& c1.accepted() + t1.pending() == c0.accepted() + t0.pending()
    &&& c0.accepted().is_prefix_of(c1.accepted())
    &&& r is Done <==> t1.idle()
    &&& r is Blocked ==> !t1.idle() && !c0.is_closed_spec() && c1.pending().len()
        == OUTBOUND_CAPACITY
    &&& r is Closed ==> !t1.idle() && c0.is_closed_spec() && t1.pending() == t0.pending()
}

impl SubscriptionTask {
    pub closed spec fn subscription_id_spec(&self) -> Seq<char> {
        self.subscription_id@
    }

    pub closed spec fn event_signature_spec(&self) -> Seq<char> {
        self.event_signature@
    }

    pub closed spec fn handler_spec(&self) -> Seq<char> {
        self.handler@
    }

    /// The events of the current invocation that the channel has not yet
    /// accepted, oldest first.
    pub closed spec fn pending(&self) -> Seq<RuntimeHostEvent> {
        self.pending@
    }

    /// Whether the task can take the next chain event.
    pub open spec fn idle(&self) -> bool {
        self.pending().len() == 0
    }

    pub fn new(subscription_id: String, event_signature: String, handler: String) -> (r:
        SubscriptionTask)
        ensures
            r.subscription_id_spec() == subscription_id@,
            r.event_signature_spec() == event_signature@,
            r.handler_spec() == handler@,
            r.idle(),
    {
        SubscriptionTask { subscription_id, event_signature, handler, pending: Vec::new() }
    }

    pub fn subscription_id(&self) -> (r: &String)
        ensures
            r@ == self.subscription_id_spec(),
    {
        &self.subscription_id
    }

    pub fn event_signature(&self) -> (r: &String)
        ensures
            r@ == self.event_signature_spec(),
    {
        &self.event_signature
    }

    /// The name of the module's entry point that handles this subscription's
    /// events.
    pub fn handler(&self) -> (r: &String)
        ensures
            r@ == self.handler_spec(),
    {
        &self.handler
    }

    pub fn is_idle(&self) -> (r: bool)
        ensures
            r == self.idle(),
    {
        self.pending.len() == 0
    }

    /// Takes the result of invoking the module on the next chain event. The
    /// events of a successful invocation become pending, in the order the
    /// module emitted them; a failed invocation emits nothing and is reported,
    /// and the task stays ready for the next chain event.
    pub fn on_invocation(&mut self, result: Result<Vec<RuntimeHostEvent>, ExecutionError>) -> (r:
        Option<InvocationFailure>)
        requires
            old(self).idle(),
        ensures
            invoked(*old(self), *final(self), result, r),
    {
        match result {
            Ok(events) => {
                self.pending = events;
                None
            },
            Err(error) => Some(
                InvocationFailure {
                    subscription_id: self.subscription_id.clone(),
                    event_signature: self.event_signature.clone(),
                    handler: self.handler.clone(),
                    error,
                },
            ),
        }
    }

    /// Hands the pending events to `channel`, oldest first, for as long as the
    /// channel accepts them. What the channel has accepted followed by what is
    /// still pending is the same before and after.
    pub fn forward(&mut self, channel: &mut OutboundChannel) -> (r: ForwardOutcome)
        requires
            old(channel).wf(),
        ensures
            final(channel).wf(),
            forwarded(*old(self), *old(channel), *final(self), *final(channel), r),
    {
        let ghost start = channel.accepted() + self.pending();
        let ghost accepted0 = channel.accepted();
        loop
            invariant
                channel.wf(),
                channel.delivered() == old(channel).delivered(),
                channel.is_closed_spec() == old(channel).is_closed_spec(),
                channel.accepted() + self.pending@ == start,
                start == old(channel).accepted() + old(self).pending(),
                accepted0 == old(channel).accepted(),
                accepted0.is_prefix_of(channel.accepted()),
                self.subscription_id@ == old(self).subscription_id_spec(),
                self.event_signature@ == old(self).event_signature_spec(),
                self.handler@ == old(self).handler_spec(),
                channel.is_closed_spec() ==> self.pending@ == old(self).pending(),
            decreases self.pending@.len(),
        {
            if self.pending.len() == 0 {
                return ForwardOutcome::Done;
            }
            if channel.is_closed() {
                return ForwardOutcome::Closed;
            }
            if channel.len() >= OUTBOUND_CAPACITY {
                return ForwardOutcome::Blocked;
            }
            let ghost before = self.pending@;
            let ghost accepted_before = channel.accepted();
            let event = self.pending.remove(0);
            // The channel is open and has room, so the send is accepted.
            match channel.try_send(event) {
                Ok(()) => {},
                Err(_) => {
                    return ForwardOutcome::Blocked;
                },
            }
            assert(channel.accepted() + self.pending@ =~= accepted_before + before);
            assert(accepted0.is_prefix_of(channel.accepted())) by {
                assert(accepted0.len() <= accepted_before.len());
                assert forall|i: int| 0 <= i < accepted0.len() implies channel.accepted()[i]
                    == accepted0[i] by {
                    assert(channel.accepted()[i] == accepted_before[i]);
                }
            }
        }
    }
}

/// Within one subscription, invocations reach the stream in the order they
/// were made: when the events of one invocation have all been forwarded, and
/// then those of the next (with any reads by the consumer in between), the
/// channel has accepted the first invocation's events, in emission order,
/// followed by the second's.
pub proof fn lemma_invocations_keep_order(
    t0: SubscriptionTask,
    t1: SubscriptionTask,
    t2: SubscriptionTask,
    t3: SubscriptionTask,
    t4: SubscriptionTask,
    c0: OutboundChannel,
    c1: OutboundChannel,
    c2: OutboundChannel,
    c3: OutboundChannel,
    first: Vec<RuntimeHostEvent>,
    second: Vec<RuntimeHostEvent>,
    report1: Option<InvocationFailure>,
    report2: Option<InvocationFailure>,
)
    requires
        t0.idle(),
        invoked(t0, t1, Ok(first), report1),
        forwarded(t1, c0, t2, c1, ForwardOutcome::Done),
        c2.accepted() == c1.accepted(),
        invoked(t2, t3, Ok(second), report2),
        forwarded(t3, c2, t4, c3, ForwardOutcome::Done),
    ensures
        c3.accepted() == c0.accepted() + first@ + second@,
        forall|i: int, j: int|
            0 <= i < first@.len() && 0 <= j < second@.len() ==> {
                &&& c3.accepted()[c0.accepted().len() + i] == first@[i]
                &&& c3.accepted()[c0.accepted().len() + first@.len() + j] == second@[j]
            },
{
    assert(t2.pending() =~= Seq::<RuntimeHostEvent>::empty());
    assert(t4.pending() =~= Seq::<RuntimeHostEvent>::empty());
    assert(c1.accepted() =~= c0.accepted() + first@);
    assert(c3.accepted() =~= c2.accepted() + second@);
}

} // verus!
