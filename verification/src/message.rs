//! The protocol's wire vocabulary: node identities, roll-call tokens and
//! the actions that inbound remote calls turn into.

use vstd::prelude::*;

verus! {

/// Network identity of a ring member: a host (an IP address held as its
/// numeric value, wide enough for both the 32-bit and the 128-bit form)
/// and a port. Each node statically knows exactly one peer address, its
/// successor in the ring.
#[derive(Clone, Copy, Debug, PartialEq, Eq, Hash, Structural)]
pub struct NodeAddress {
    pub host: u128,
    pub port: u16,
}

/// Identity of one roll-call episode: the address of the node that
/// originated it and an episode number that the originator mints from a
/// monotonically increasing counter. Every remote call carries the token,
/// so a node can tell a returning token of its own episode from a fresh
/// or stale one.
#[derive(Clone, Copy, Debug, PartialEq, Eq, Structural)]
pub struct Token {
    pub origin: NodeAddress,
    pub episode: u64,
}

/// One inbound remote operation, as the service hands it to the worker.
/// Immutable once created; consumed exactly once, in arrival order.
#[derive(Clone, Copy, Debug, PartialEq, Eq, Structural)]
pub enum Action {
    /// A roll-call token arriving over the wire: either a fresh token to
    /// join and pass on, or the originator's own token coming home.
    StartRollCall(Token),
    /// The completion wave: the bearer must record its own participation
    /// and pass the wave on; at the originator it closes the episode.
    MarkItself(Token),
}

impl Action {
    /// The token the action carries.
    pub open spec fn token(self) -> Token {
        match self {
            Action::StartRollCall(t) => t,
            Action::MarkItself(t) => t,
        }
    }
}

/// One fully addressed outbound remote call: which peer to reach and
/// which action its service should enqueue. The worker emits these; the
/// transport outside the library performs them.
#[derive(Clone, Copy, Debug, PartialEq, Eq, Structural)]
pub struct WireCall {
    pub target: NodeAddress,
    pub action: Action,
}

} // verus!
