//! Error taxonomy of the protocol core, and how episodes resolve.

use vstd::prelude::*;

verus! {

/// What went wrong with one outbound remote call, as the transport
/// reports it to the worker. The worker treats every kind the same way
/// (bounded retry, then give up); the kind is kept so the failure that
/// ends an episode can be reported upward.
#[derive(Clone, Copy, Debug, PartialEq, Eq, Structural)]
pub enum RpcErrorKind {
    /// The peer could not be reached at all.
    Unreachable,
    /// The peer refused the connection.
    ConnectionRefused,
    /// The call was sent but no reply came within the transport's bound.
    CallTimeout,
    /// The peer answered with a rejection.
    Rejected,
    /// A transport fault that fits none of the kinds above.
    Other,
}

/// The errors the core reports.
#[derive(Clone, Copy, Debug, PartialEq, Eq, Structural)]
pub enum RingError {
    /// Required startup configuration (the node's own listen address or
    /// its successor's address) is missing or unusable; fatal at startup.
    Configuration,
    /// An outbound remote call failed, with the transport's reason.
    Rpc(RpcErrorKind),
    /// The action queue's consumer has shut down; the inbound handler
    /// rejects the request, and the caller may retry later.
    QueueClosed,
    /// A new roll call was requested at a node that already has an
    /// active episode; rejected synchronously, never queued.
    AlreadyInProgress,
    /// The episode's deadline passed without a resolution.
    Timeout,
}

/// How one roll-call episode ends at the node that observes the end.
#[derive(Clone, Copy, Debug, PartialEq, Eq, Structural)]
pub enum Resolution {
    /// The completion wave came back to the originator: every node on
    /// the circuit recorded its participation.
    Completed,
    /// Forwarding to the successor kept failing until the retry budget
    /// was exhausted; the episode is abandoned.
    Failed(RpcErrorKind),
    /// The episode's deadline passed with no completion or failure.
    TimedOut,
}

/// Wraps a transport fault that fits no specific kind into the core's
/// error type; the boundary uses it as its catch-all conversion.
pub fn other() -> (e: RingError)
    ensures
        e == RingError::Rpc(RpcErrorKind::Other),
{
    RingError::Rpc(RpcErrorKind::Other)
}

/// The error a resolution amounts to, for a caller that reports
/// non-completion as an error: a completed episode is no error, an
/// abandoned one surfaces the transport failure that ended it, an
/// expired one surfaces the timeout.
pub fn resolution_error(r: Resolution) -> (e: Option<RingError>)
    ensures
        r == Resolution::Completed ==> e is None,
        r matches Resolution::Failed(k) ==> e == Some(RingError::Rpc(k)),
        r == Resolution::TimedOut ==> e == Some(RingError::Timeout),
{
    match r {
        Resolution::Completed => None,
        Resolution::Failed(k) => Some(RingError::Rpc(k)),
        Resolution::TimedOut => Some(RingError::Timeout),
    }
}

} // verus!
