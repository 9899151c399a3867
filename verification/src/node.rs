//! The per-node state machine that the worker drives.
//!
//! One worker owns a `NodeState` and feeds it events one at a time, in
//! queue order: a local trigger, a delivered action, the transport's
//! verdict on the last outbound forward, or a deadline check. Every
//! transition is a total function of the current state and the event, so
//! the whole protocol decision logic is here; performing the emitted
//! outbound call, sleeping and telling the time stay outside.
//!
//! An episode runs in two passes. The originator injects its token with
//! a `StartRollCall` that each idle node accepts and forwards; when the
//! token comes home the originator launches the `MarkItself` completion
//! wave, on which every node records its own participation and then
//! stands down; when the wave comes home the episode is complete.

use vstd::prelude::*;

use crate::error::{Resolution, RingError, RpcErrorKind};
use crate::message::{Action, NodeAddress, Token, WireCall};

verus! {

/// Per-node protocol configuration.
#[derive(Clone, Copy, Debug, PartialEq, Eq, Structural)]
pub struct Config {
    /// How many times a failed outbound forward is retried before the
    /// episode is abandoned (so a forward is attempted at most
    /// `retry_budget + 1` times).
    pub retry_budget: u32,
    /// How long after an episode starts at this node it may stay
    /// unresolved before `expire` times it out, in the same unit as the
    /// clock values handed to the node.
    pub episode_timeout: u64,
}

/// An outbound forward the worker still owes the transport: the action
/// to deliver to the successor and how many retries are left for it.
#[derive(Clone, Copy, Debug, PartialEq, Eq, Structural)]
pub struct PendingForward {
    pub action: Action,
    pub attempts_left: u32,
}

/// Where the node stands in the episode lifecycle.
#[derive(Clone, Copy, Debug, PartialEq, Eq, Structural)]
pub enum Phase {
    /// No episode is active at this node.
    Idle,
    /// The node holds a live episode: it has forwarded the token (or is
    /// about to) and waits for the ring to complete, fail or expire.
    AwaitingCompletion { token: Token, deadline: u64 },
}

/// Why a delivered action was dropped as a no-op (reported with a
/// warning at the boundary, never a crash).
#[derive(Clone, Copy, Debug, PartialEq, Eq, Structural)]
pub enum DropReason {
    /// A token arrived while another episode is active here.
    Busy,
    /// A completion-wave action arrived with no episode active.
    NoActiveEpisode,
    /// The node's own token came back after its episode had already
    /// been resolved or had expired.
    StaleToken,
    /// A completion-wave action carried a token other than the active
    /// episode's.
    EpisodeMismatch,
}

/// What processing one delivered action amounted to.
#[derive(Clone, Copy, Debug, PartialEq, Eq, Structural)]
pub enum Delivery {
    /// A fresh token was accepted; the node joined the episode and owes
    /// a forward of the token to its successor.
    Accepted,
    /// The originator's own token came home: the circuit is closed, the
    /// originator recorded its participation and owes the first
    /// completion-wave forward.
    TokenReturned,
    /// The node recorded its own participation on the completion wave
    /// and owes the wave's forward to its successor.
    Marked,
    /// The episode ended at this node, with the given resolution.
    Resolved(Resolution),
    /// The action was a no-op, for the given reason.
    Dropped(DropReason),
}

/// The worker's decision after a failed outbound forward.
#[derive(Clone, Copy, Debug, PartialEq, Eq, Structural)]
pub enum ForwardStatus {
    /// Retry budget remains: attempt the same forward again.
    Retry,
    /// The budget is exhausted: the episode is abandoned with the given
    /// resolution and the node is reset.
    GaveUp(Resolution),
}

/// The node state the single worker owns: identity, successor, the
/// episode counter for tokens this node mints, and the per-episode
/// fields that every resolution clears.
#[derive(Clone, Debug, PartialEq, Eq)]
pub struct NodeState {
    /// This node's own network identity (its listen address).
    pub addr: NodeAddress,
    /// The successor's address: the only peer this node knows.
    pub next: NodeAddress,
    pub config: Config,
    /// Episode number the next locally originated roll call will carry;
    /// minted monotonically so every episode of this originator is
    /// distinguishable.
    pub next_episode: u64,
    pub phase: Phase,
    /// Whether this node has recorded its own participation in the
    /// currently active episode.
    pub self_marked: bool,
    /// The outbound forward the transport still has to perform, if any.
    pub pending: Option<PendingForward>,
}

impl NodeState {
    /// A roll-call token is in flight through this node.
    pub open spec fn participating(self) -> bool {
        self.phase is AwaitingCompletion
    }

    /// The active episode's token.
    pub open spec fn active_token(self) -> Token
        recommends
            self.participating(),
    {
        self.phase->token
    }

    /// The active episode's expiry instant.
    pub open spec fn deadline(self) -> u64
        recommends
            self.participating(),
    {
        self.phase->deadline
    }

    /// This node originated the given token.
    pub open spec fn originated(self, t: Token) -> bool {
        t.origin == self.addr
    }

    /// The state invariant: a node can only have marked itself, or owe a
    /// forward, while an episode is active, and an owed forward always
    /// carries the active episode's token.
    pub open spec fn wf(self) -> bool {
        &&& (self.self_marked ==> self.participating())
        &&& (self.pending matches Some(p) ==>
            self.participating() && p.action.token() == self.active_token())
    }

    /// The state a resolution leaves behind: every per-episode field
    /// cleared, identity, successor, configuration and episode counter
    /// kept.
    pub open spec fn reset_of(self) -> NodeState {
        NodeState { phase: Phase::Idle, self_marked: false, pending: None, ..self }
    }

    /// A fresh node: idle, nothing marked, nothing owed, counter at
    /// zero.
    pub fn new(addr: NodeAddress, next: NodeAddress, config: Config) -> (s: NodeState)
        ensures
            s == (NodeState {
                addr,
                next,
                config,
                next_episode: 0,
                phase: Phase::Idle,
                self_marked: false,
                pending: None,
            }),
            s.wf(),
    {
        NodeState {
            addr,
            next,
            config,
            next_episode: 0,
            phase: Phase::Idle,
            self_marked: false,
            pending: None,
        }
    }

    /// Starts a roll call originating here, as the local, in-process
    /// trigger entry point requests it.
    ///
    /// While idle, the node mints a fresh token, opens the episode with
    /// a deadline, and owes the transport the token's first forward.
    /// While an episode is already active the request is rejected with
    /// `AlreadyInProgress` and nothing changes: at most one episode is
    /// ever active per node, and no second forward is ever emitted.
    pub fn trigger(&mut self, now: u64) -> (r: Result<Token, RingError>)
        requires
            old(self).wf(),
            old(self).pending is None,
            old(self).next_episode < u64::MAX,
            now <= u64::MAX - old(self).config.episode_timeout,
        ensures
            final(self).wf(),
            final(self).addr == old(self).addr,
            final(self).next == old(self).next,
            final(self).config == old(self).config,
            old(self).participating() ==> r == Err::<Token, RingError>(
                RingError::AlreadyInProgress,
            ) && *final(self) == *old(self),
            !old(self).participating() ==> {
                let token = Token { origin: old(self).addr, episode: old(self).next_episode };
                &&& r == Ok::<Token, RingError>(token)
                &&& final(self).next_episode == old(self).next_episode + 1
                &&& final(self).phase == (Phase::AwaitingCompletion {
                    token,
                    deadline: (now + old(self).config.episode_timeout) as u64,
                })
                &&& !final(self).self_marked
                &&& final(self).pending == Some(PendingForward {
                    action: Action::StartRollCall(token),
                    attempts_left: old(self).config.retry_budget,
                })
            },
    {
        match self.phase {
            Phase::Idle => {
                let token = Token { origin: self.addr, episode: self.next_episode };
                self.next_episode = self.next_episode + 1;
                self.phase = Phase::AwaitingCompletion {
                    token,
                    deadline: now + self.config.episode_timeout,
                };
                self.self_marked = false;
                self.pending = Some(PendingForward {
                    action: Action::StartRollCall(token),
                    attempts_left: self.config.retry_budget,
                });
                Ok(token)
            }
            Phase::AwaitingCompletion { .. } => Err(RingError::AlreadyInProgress),
        }
    }

    /// Processes one action taken from the queue, in arrival order.
    ///
    /// A fresh foreign token at an idle node is accepted and owed
    /// onward; the originator's own token coming home closes the circuit
    /// and launches the completion wave; the wave marks each bearer and,
    /// back at the originator, completes the episode and resets the
    /// node. Everything else is dropped as a no-op with a reason, the
    /// state untouched.
    pub fn deliver(&mut self, action: Action, now: u64) -> (r: Delivery)
        requires
            old(self).wf(),
            old(self).pending is None,
            now <= u64::MAX - old(self).config.episode_timeout,
        ensures
            final(self).wf(),
            final(self).addr == old(self).addr,
            final(self).next == old(self).next,
            final(self).config == old(self).config,
            final(self).next_episode == old(self).next_episode,
            r is Dropped ==> *final(self) == *old(self),
            r is Resolved ==> *final(self) == old(self).reset_of(),
            (old(self).participating() && action == Action::StartRollCall(
                old(self).active_token(),
            ) && old(self).originated(old(self).active_token())) ==> {
                &&& r == Delivery::TokenReturned
                &&& final(self).phase == old(self).phase
                &&& final(self).self_marked
                &&& final(self).pending == Some(PendingForward {
                    action: Action::MarkItself(old(self).active_token()),
                    attempts_left: old(self).config.retry_budget,
                })
            },
            (old(self).participating() && action is StartRollCall && !(action.token() == old(self).active_token() && old(self).originated(action.token()))) ==> r
                == Delivery::Dropped(DropReason::Busy),
            (!old(self).participating() && action is StartRollCall && old(self).originated(
                action.token(),
            )) ==> r == Delivery::Dropped(DropReason::StaleToken),
            (!old(self).participating() && action is StartRollCall && !old(self).originated(
                action.token(),
            )) ==> {
                &&& r == Delivery::Accepted
                &&& final(self).phase == (Phase::AwaitingCompletion {
                    token: action.token(),
                    deadline: (now + old(self).config.episode_timeout) as u64,
                })
                &&& !final(self).self_marked
                &&& final(self).pending == Some(PendingForward {
                    action: Action::StartRollCall(action.token()),
                    attempts_left: old(self).config.retry_budget,
                })
            },
            (old(self).participating() && action == Action::MarkItself(old(self).active_token())
                && old(self).originated(old(self).active_token())) ==> r == Delivery::Resolved(
                Resolution::Completed,
            ),
            (old(self).participating() && action == Action::MarkItself(old(self).active_token())
                && !old(self).originated(old(self).active_token())) ==> {
                &&& r == Delivery::Marked
                &&& final(self).phase == old(self).phase
                &&& final(self).self_marked
                &&& final(self).pending == Some(PendingForward {
                    action: Action::MarkItself(old(self).active_token()),
                    attempts_left: old(self).config.retry_budget,
                })
            },
            (old(self).participating() && action is MarkItself && action.token() != old(self).active_token()) ==> r == Delivery::Dropped(DropReason::EpisodeMismatch),
            (!old(self).participating() && action is MarkItself) ==> r == Delivery::Dropped(
                DropReason::NoActiveEpisode,
            ),
    {
        match action {
            Action::StartRollCall(t) => {
                match self.phase {
                    Phase::AwaitingCompletion { token, .. } => {
                        if t == token && t.origin == self.addr {
                            self.self_marked = true;
                            self.pending = Some(PendingForward {
                                action: Action::MarkItself(t),
                                attempts_left: self.config.retry_budget,
                            });
                            Delivery::TokenReturned
                        } else {
                            Delivery::Dropped(DropReason::Busy)
                        }
                    }
                    Phase::Idle => {
                        if t.origin == self.addr {
                            Delivery::Dropped(DropReason::StaleToken)
                        } else {
                            self.phase = Phase::AwaitingCompletion {
                                token: t,
                                deadline: now + self.config.episode_timeout,
                            };
                            self.pending = Some(PendingForward {
                                action: Action::StartRollCall(t),
                                attempts_left: self.config.retry_budget,
                            });
                            Delivery::Accepted
                        }
                    }
                }
            }
            Action::MarkItself(t) => {
                match self.phase {
                    Phase::AwaitingCompletion { token, .. } => {
                        if t == token {
                            if t.origin == self.addr {
                                self.phase = Phase::Idle;
                                self.self_marked = false;
                                self.pending = None;
                                Delivery::Resolved(Resolution::Completed)
                            } else {
                                self.self_marked = true;
                                self.pending = Some(PendingForward {
                                    action: Action::MarkItself(t),
                                    attempts_left: self.config.retry_budget,
                                });
                                Delivery::Marked
                            }
                        } else {
                            Delivery::Dropped(DropReason::EpisodeMismatch)
                        }
                    }
                    Phase::Idle => Delivery::Dropped(DropReason::NoActiveEpisode),
                }
            }
        }
    }

    /// The outbound call the transport owes the successor right now, if
    /// any: the pending action, addressed to `next`.
    pub fn pending_call(&self) -> (r: Option<WireCall>)
        ensures
            self.pending matches Some(p) ==> r == Some(
                WireCall { target: self.next, action: p.action },
            ),
            self.pending is None ==> r is None,
    {
        match self.pending {
            Some(p) => Some(WireCall { target: self.next, action: p.action }),
            None => None,
        }
    }

    /// Records that the pending forward was delivered. A delivered
    /// token or wave launch leaves the node awaiting completion; a
    /// delivered completion wave at a node that did not originate the
    /// episode finishes this node's part, so it stands down to idle.
    pub fn forward_ok(&mut self)
        requires
            old(self).wf(),
            old(self).pending is Some,
        ensures
            final(self).wf(),
            final(self).addr == old(self).addr,
            final(self).next == old(self).next,
            final(self).config == old(self).config,
            final(self).next_episode == old(self).next_episode,
            final(self).pending is None,
            old(self).pending matches Some(p) && (p.action is StartRollCall
                || old(self).originated(p.action.token()))
                ==> final(self).phase == old(self).phase
                    && final(self).self_marked == old(self).self_marked,
            old(self).pending matches Some(p) && p.action is MarkItself && !old(self).originated(
                p.action.token(),
            ) ==> *final(self) == old(self).reset_of(),
    {
        match self.pending {
            Some(p) => {
                self.pending = None;
                match p.action {
                    Action::MarkItself(t) => {
                        if t.origin != self.addr {
                            self.phase = Phase::Idle;
                            self.self_marked = false;
                        }
                    }
                    Action::StartRollCall(_) => {}
                }
            }
            None => {
                proof {
                    assert(false);
                }
            }
        }
    }

    /// Records that the pending forward failed, with the transport's
    /// reason. While retry budget remains, the same forward stays owed
    /// with one attempt fewer; once it is exhausted the episode is
    /// abandoned as failed and the node is reset — a forward is never
    /// retried indefinitely.
    pub fn forward_err(&mut self, cause: RpcErrorKind) -> (r: ForwardStatus)
        requires
            old(self).wf(),
            old(self).pending is Some,
        ensures
            final(self).wf(),
            *final(self) == after_forward_err(*old(self)),
            old(self).pending matches Some(p) && p.attempts_left > 0 ==> r == ForwardStatus::Retry
                && final(self).phase == old(self).phase
                && final(self).self_marked == old(self).self_marked
                && final(self).pending == Some(PendingForward {
                    action: old(self).pending->Some_0.action,
                    attempts_left: (old(self).pending->Some_0.attempts_left - 1) as u32,
                }),
            old(self).pending matches Some(p) && p.attempts_left == 0 ==> r
                == ForwardStatus::GaveUp(Resolution::Failed(cause)) && *final(self) == old(self).reset_of(),
    {
        match self.pending {
            Some(p) => {
                if p.attempts_left > 0 {
                    self.pending = Some(PendingForward {
                        action: p.action,
                        attempts_left: p.attempts_left - 1,
                    });
                    ForwardStatus::Retry
                } else {
                    self.phase = Phase::Idle;
                    self.self_marked = false;
                    self.pending = None;
                    ForwardStatus::GaveUp(Resolution::Failed(cause))
                }
            }
            None => {
                proof {
                    assert(false);
                }
                ForwardStatus::Retry
            }
        }
    }

    /// Checks the episode deadline against the clock, as the worker does
    /// opportunistically between queue items. An episode whose deadline
    /// has passed is expired: the node resets and reports the timeout,
    /// so an unanswered episode can never hang indefinitely.
    pub fn expire(&mut self, now: u64) -> (r: Option<Resolution>)
        requires
            old(self).wf(),
            old(self).pending is None,
        ensures
            final(self).wf(),
            (old(self).participating() && now >= old(self).deadline()) ==> r == Some(
                Resolution::TimedOut,
            ) && *final(self) == old(self).reset_of(),
            !(old(self).participating() && now >= old(self).deadline()) ==> r
                == None::<Resolution> && *final(self) == *old(self),
    {
        match self.phase {
            Phase::AwaitingCompletion { deadline, .. } => {
                if now >= deadline {
                    self.phase = Phase::Idle;
                    self.self_marked = false;
                    Some(Resolution::TimedOut)
                } else {
                    None
                }
            }
            Phase::Idle => None,
        }
    }
}

/// One transport-failure step: while attempts remain the pending forward
/// keeps its action with one attempt fewer; with none left the node is
/// reset. Without a pending forward nothing changes.
pub open spec fn after_forward_err(s: NodeState) -> NodeState {
    match s.pending {
        Some(p) => if p.attempts_left > 0 {
            NodeState {
                pending: Some(
                    PendingForward { action: p.action, attempts_left: (p.attempts_left - 1) as u32 },
                ),
                ..s
            }
        } else {
            s.reset_of()
        },
        None => s,
    }
}

/// `k` consecutive transport-failure steps.
pub open spec fn after_forward_errs(s: NodeState, k: nat) -> NodeState
    decreases k,
{
    if k == 0 {
        s
    } else {
        after_forward_errs(after_forward_err(s), (k - 1) as nat)
    }
}

/// An unreachable successor cannot leave the node stuck: with a pending
/// forward that has `n` retries left, `n + 1` consecutive transport
/// failures abandon the episode and leave the node exactly in its reset
/// state — idle, unmarked, owing nothing, identity and episode counter
/// kept.
pub proof fn lemma_bounded_retry_resolves(s: NodeState, p: PendingForward)
    requires
        s.pending == Some(p),
    ensures
        after_forward_errs(s, p.attempts_left as nat + 1) == s.reset_of(),
    decreases p.attempts_left,
{
    if p.attempts_left == 0 {
        assert(after_forward_err(s) == s.reset_of());
        assert(after_forward_errs(s.reset_of(), 0) == s.reset_of());
    } else {
        let s1 = after_forward_err(s);
        let p1 = PendingForward { action: p.action, attempts_left: (p.attempts_left - 1) as u32 };
        assert(s1.pending == Some(p1));
        lemma_bounded_retry_resolves(s1, p1);
        assert(s1.reset_of() == s.reset_of());
    }
}

/// Resolving an episode leaves no residue: the reset state is idle and
/// well formed, has nothing marked and nothing owed, and keeps exactly
/// the node's identity, successor, configuration and episode counter.
pub proof fn lemma_reset_clean(s: NodeState)
    ensures
        s.reset_of().wf(),
        s.reset_of().phase is Idle,
        !s.reset_of().self_marked,
        s.reset_of().pending is None,
        s.reset_of().addr == s.addr,
        s.reset_of().next == s.next,
        s.reset_of().config == s.config,
        s.reset_of().next_episode == s.next_episode,
{
}

/// A reset is as good as a fresh start: two well-formed idle nodes with
/// the same identity, successor, configuration and episode counter are
/// the same state, so a roll call issued after a resolution behaves
/// exactly as one issued on a fresh node whose counter stands at the
/// same value — no residue of the prior episode can affect it.
pub proof fn lemma_reset_idempotent(s: NodeState, t: NodeState)
    requires
        s.wf(),
        t.wf(),
        s.phase is Idle,
        t.phase is Idle,
        s.addr == t.addr,
        s.next == t.next,
        s.config == t.config,
        s.next_episode == t.next_episode,
    ensures
        s == t,
{
    assert(s.pending is None && t.pending is None);
    assert(!s.self_marked && !t.self_marked);
}

} // verus!
