//! Ring roll-call coordination protocol.
//!
//! A set of peer nodes is arranged in a logical directed ring; each node
//! knows only the address of its immediate successor. A roll call is a
//! token that an originating node injects into the ring: it must visit
//! every node once, have each node record its own participation, and
//! report back to the originator whether the circuit completed.
//!
//! The crate holds the protocol core: the message and error vocabulary,
//! the ordered single-consumer action queue that serializes all state
//! mutation, the inbound service that feeds it, the per-node state
//! machine that the worker drives, and the client-side stub that
//! addresses outbound calls. Network transport, timers and the worker
//! loop itself live outside the library and hand it plain values.

pub mod error;
pub mod message;
pub mod node;
pub mod queue;
pub mod remote;
pub mod service;
