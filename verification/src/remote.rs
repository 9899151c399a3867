//! The client-side handle for one peer.
//!
//! `Remote` holds a peer's address and turns each of the two remote
//! operations into a fully addressed wire call. Opening the connection
//! and carrying the call over the network happen outside the library;
//! the transport hands back plain success or an `RpcErrorKind`, which
//! the worker's state machine consumes.

use vstd::prelude::*;

use crate::message::{Action, NodeAddress, Token, WireCall};

verus! {

/// Client-side handle to one peer of the ring.
#[derive(Clone, Copy, Debug, PartialEq, Eq, Structural)]
pub struct Remote {
    /// The peer this handle addresses.
    pub peer: NodeAddress,
}

impl Remote {
    /// A handle for the peer at the given address.
    pub fn new(peer: NodeAddress) -> (r: Remote)
        ensures
            r == (Remote { peer }),
    {
        Remote { peer }
    }

    /// The roll-call operation on this peer, carrying the token: the
    /// call that pushes a token one step along the ring.
    pub fn start_roll_call(&self, token: Token) -> (c: WireCall)
        ensures
            c == (WireCall { target: self.peer, action: Action::StartRollCall(token) }),
    {
        WireCall { target: self.peer, action: Action::StartRollCall(token) }
    }

    /// The completion-wave operation on this peer, carrying the token.
    pub fn mark_itself(&self, token: Token) -> (c: WireCall)
        ensures
            c == (WireCall { target: self.peer, action: Action::MarkItself(token) }),
    {
        WireCall { target: self.peer, action: Action::MarkItself(token) }
    }
}

} // verus!
