//! The ordered, single-consumer channel of actions.
//!
//! Inbound request handlers push actions; one worker drains them. The
//! queue's view is the sequence of still-pending actions in enqueue
//! order, so first-in-first-out consumption is part of every contract:
//! the consumer sees actions in exactly the order they were accepted.

use vstd::prelude::*;

use crate::error::RingError;
use crate::message::Action;

verus! {

/// FIFO queue of pending actions, with a closed flag: once the consumer
/// shuts the queue, producers are rejected, while what was already
/// accepted can still be drained.
pub struct ActionQueue {
    items: Vec<Action>,
    closed: bool,
}

impl View for ActionQueue {
    type V = Seq<Action>;

    closed spec fn view(&self) -> Seq<Action> {
        self.items@
    }
}

impl ActionQueue {
    /// Whether the consumer has shut the queue.
    pub closed spec fn is_closed(self) -> bool {
        self.closed
    }

    /// A fresh, open, empty queue.
    pub fn new() -> (q: ActionQueue)
        ensures
            q@ == Seq::<Action>::empty(),
            !q.is_closed(),
    {
        ActionQueue { items: Vec::new(), closed: false }
    }

    /// Number of pending actions.
    pub fn len(&self) -> (n: usize)
        ensures
            n == self@.len(),
    {
        self.items.len()
    }

    /// Accepts an action at the back of the queue; rejects it once the
    /// queue is closed, leaving the contents untouched.
    pub fn enqueue(&mut self, action: Action) -> (r: Result<(), RingError>)
        ensures
            final(self).is_closed() == old(self).is_closed(),
            old(self).is_closed() ==> r == Err::<(), RingError>(RingError::QueueClosed)
                && final(self)@ == old(self)@,
            !old(self).is_closed() ==> r == Ok::<(), RingError>(())
                && final(self)@ == old(self)@.push(action),
    {
        if self.closed {
            Err(RingError::QueueClosed)
        } else {
            self.items.push(action);
            Ok(())
        }
    }

    /// Takes the oldest pending action, if any: strict first-in,
    /// first-out order.
    pub fn dequeue(&mut self) -> (r: Option<Action>)
        ensures
            final(self).is_closed() == old(self).is_closed(),
            old(self)@.len() == 0 ==> r is None && final(self)@ == old(self)@,
            old(self)@.len() > 0 ==> r == Some(old(self)@[0])
                && final(self)@ == old(self)@.drop_first(),
    {
        if self.items.len() == 0 {
            None
        } else {
            let a = self.items.remove(0);
            Some(a)
        }
    }

    /// Drains the whole queue: the result is exactly the pending
    /// contents, in the order they were enqueued, and nothing is left
    /// behind. This is the single-consumer ordering guarantee in one
    /// statement: however many producers interleaved their enqueues, the
    /// consumer processes the actions in acceptance order.
    pub fn drain(&mut self) -> (out: Vec<Action>)
        ensures
            final(self).is_closed() == old(self).is_closed(),
            out@ == old(self)@,
            final(self)@ == Seq::<Action>::empty(),
    {
        let mut out: Vec<Action> = Vec::new();
        loop
            invariant
                out@ + self@ == old(self)@,
                self.is_closed() == old(self).is_closed(),
            ensures
                out@ + self@ == old(self)@,
                self@.len() == 0,
                self.is_closed() == old(self).is_closed(),
            decreases self@.len(),
        {
            match self.dequeue() {
                Some(a) => {
                    out.push(a);
                }
                None => {
                    break;
                }
            }
        }
        assert(out@ =~= out@ + self@);
        out
    }

    /// Shuts the queue: later enqueues are rejected with `QueueClosed`;
    /// what was already accepted stays drainable.
    pub fn close(&mut self)
        ensures
            final(self).is_closed(),
            final(self)@ == old(self)@,
    {
        self.closed = true;
    }
}

/// The contents an open queue holds after accepting the given actions
/// one by one, in the given order, on top of what it already held; each
/// acceptance is one successful `enqueue`.
pub open spec fn accepted(start: Seq<Action>, pushed: Seq<Action>) -> Seq<Action>
    decreases pushed.len(),
{
    if pushed.len() == 0 {
        start
    } else {
        accepted(start.push(pushed[0]), pushed.drop_first())
    }
}

/// Single-consumer ordering: however many producers interleaved their
/// enqueues, a queue that accepted the given actions holds them in
/// exactly the acceptance order, behind what it already held — and the
/// consumer always takes from the front, so it processes them in the
/// exact order they were successfully enqueued.
pub proof fn lemma_single_consumer_fifo(start: Seq<Action>, pushed: Seq<Action>)
    ensures
        accepted(start, pushed) == start + pushed,
    decreases pushed.len(),
{
    if pushed.len() == 0 {
        assert(start + pushed =~= start);
    } else {
        lemma_single_consumer_fifo(start.push(pushed[0]), pushed.drop_first());
        assert(start.push(pushed[0]) + pushed.drop_first() =~= start + pushed);
    }
}

} // verus!
