//! The inbound service endpoint.
//!
//! Each remote operation a peer calls is turned into the matching
//! `Action` and pushed onto the action queue; the reply is an immediate
//! acknowledgment that does not wait for the worker to process the
//! action. This fire-and-acknowledge split keeps request handling away
//! from node state: all mutation is serialized through the queue's
//! single consumer.

use vstd::prelude::*;

use crate::error::RingError;
use crate::message::{Action, Token};
use crate::queue::ActionQueue;

verus! {

/// The server-side endpoint: owns the action queue that the inbound
/// handlers feed and the worker drains.
pub struct RingImpl {
    queue: ActionQueue,
}

impl View for RingImpl {
    type V = Seq<Action>;

    /// The pending actions, in the order they were accepted.
    closed spec fn view(&self) -> Seq<Action> {
        self.queue@
    }
}

impl RingImpl {
    /// The queue's consumer has shut down.
    pub closed spec fn is_closed(self) -> bool {
        self.queue.is_closed()
    }

    /// A service around the given queue.
    pub fn new(queue: ActionQueue) -> (s: RingImpl)
        ensures
            s@ == queue@,
            s.is_closed() == queue.is_closed(),
    {
        RingImpl { queue }
    }

    /// Accepts one action onto the queue and acknowledges at once, or
    /// rejects it with `QueueClosed` when the consumer has shut down,
    /// leaving the queue untouched.
    pub fn send_action(&mut self, action: Action) -> (r: Result<(), RingError>)
        ensures
            final(self).is_closed() == old(self).is_closed(),
            old(self).is_closed() ==> r == Err::<(), RingError>(RingError::QueueClosed)
                && final(self)@ == old(self)@,
            !old(self).is_closed() ==> r == Ok::<(), RingError>(())
                && final(self)@ == old(self)@.push(action),
    {
        self.queue.enqueue(action)
    }

    /// The inbound roll-call operation: enqueues the token's
    /// `StartRollCall` action and acknowledges without processing it.
    pub fn start_roll_call(&mut self, token: Token) -> (r: Result<(), RingError>)
        ensures
            final(self).is_closed() == old(self).is_closed(),
            old(self).is_closed() ==> r == Err::<(), RingError>(RingError::QueueClosed)
                && final(self)@ == old(self)@,
            !old(self).is_closed() ==> r == Ok::<(), RingError>(())
                && final(self)@ == old(self)@.push(Action::StartRollCall(token)),
    {
        self.send_action(Action::StartRollCall(token))
    }

    /// The inbound completion-wave operation: enqueues the token's
    /// `MarkItself` action and acknowledges without processing it.
    pub fn mark_itself(&mut self, token: Token) -> (r: Result<(), RingError>)
        ensures
            final(self).is_closed() == old(self).is_closed(),
            old(self).is_closed() ==> r == Err::<(), RingError>(RingError::QueueClosed)
                && final(self)@ == old(self)@,
            !old(self).is_closed() ==> r == Ok::<(), RingError>(())
                && final(self)@ == old(self)@.push(Action::MarkItself(token)),
    {
        self.send_action(Action::MarkItself(token))
    }

    /// The consumer's side: takes the oldest pending action, strictly
    /// first-in, first-out.
    pub fn take_action(&mut self) -> (r: Option<Action>)
        ensures
            final(self).is_closed() == old(self).is_closed(),
            old(self)@.len() == 0 ==> r is None && final(self)@ == old(self)@,
            old(self)@.len() > 0 ==> r == Some(old(self)@[0])
                && final(self)@ == old(self)@.drop_first(),
    {
        self.queue.dequeue()
    }

    /// Shuts the queue on the consumer's way out: later inbound calls
    /// are rejected, what was accepted stays drainable.
    pub fn shutdown(&mut self)
        ensures
            final(self).is_closed(),
            final(self)@ == old(self)@,
    {
        self.queue.close()
    }
}

} // verus!
