use ring_rollcall::error::{other, resolution_error, Resolution, RingError, RpcErrorKind};
use ring_rollcall::message::{Action, NodeAddress, Token, WireCall};
use ring_rollcall::queue::ActionQueue;
use ring_rollcall::remote::Remote;
use ring_rollcall::service::RingImpl;

fn peer() -> NodeAddress {
    NodeAddress { host: 0x7f000001, port: 8000 }
}

fn tok() -> Token {
    Token { origin: NodeAddress { host: 10, port: 8001 }, episode: 4 }
}

#[test]
fn remote_addresses_both_operations() {
    let remote = Remote::new(peer());
    assert_eq!(
        remote.start_roll_call(tok()),
        WireCall { target: peer(), action: Action::StartRollCall(tok()) }
    );
    assert_eq!(
        remote.mark_itself(tok()),
        WireCall { target: peer(), action: Action::MarkItself(tok()) }
    );
}

#[test]
fn service_enqueues_in_arrival_order_and_acks() {
    let mut ring = RingImpl::new(ActionQueue::new());
    assert_eq!(ring.start_roll_call(tok()), Ok(()));
    assert_eq!(ring.mark_itself(tok()), Ok(()));
    assert_eq!(ring.take_action(), Some(Action::StartRollCall(tok())));
    assert_eq!(ring.take_action(), Some(Action::MarkItself(tok())));
    assert_eq!(ring.take_action(), None);
}

#[test]
fn service_rejects_after_shutdown() {
    let mut ring = RingImpl::new(ActionQueue::new());
    ring.send_action(Action::StartRollCall(tok())).unwrap();
    ring.shutdown();
    assert_eq!(ring.start_roll_call(tok()), Err(RingError::QueueClosed));
    assert_eq!(ring.mark_itself(tok()), Err(RingError::QueueClosed));
    assert_eq!(ring.send_action(Action::MarkItself(tok())), Err(RingError::QueueClosed));
    // the action accepted before the shutdown is still consumed
    assert_eq!(ring.take_action(), Some(Action::StartRollCall(tok())));
}

#[test]
fn error_conversions() {
    assert_eq!(other(), RingError::Rpc(RpcErrorKind::Other));
    assert_eq!(resolution_error(Resolution::Completed), None);
    assert_eq!(
        resolution_error(Resolution::Failed(RpcErrorKind::CallTimeout)),
        Some(RingError::Rpc(RpcErrorKind::CallTimeout))
    );
    assert_eq!(resolution_error(Resolution::TimedOut), Some(RingError::Timeout));
}
