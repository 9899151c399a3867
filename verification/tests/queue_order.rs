use ring_rollcall::error::RingError;
use ring_rollcall::message::{Action, NodeAddress, Token};
use ring_rollcall::queue::ActionQueue;

fn tok(host: u128, episode: u64) -> Token {
    Token { origin: NodeAddress { host, port: 7000 }, episode }
}

#[test]
fn fifo_single_producer() {
    let mut q = ActionQueue::new();
    assert_eq!(q.len(), 0);
    q.enqueue(Action::StartRollCall(tok(1, 0))).unwrap();
    q.enqueue(Action::MarkItself(tok(1, 0))).unwrap();
    q.enqueue(Action::StartRollCall(tok(2, 5))).unwrap();
    assert_eq!(q.len(), 3);
    assert_eq!(q.dequeue(), Some(Action::StartRollCall(tok(1, 0))));
    assert_eq!(q.dequeue(), Some(Action::MarkItself(tok(1, 0))));
    assert_eq!(q.dequeue(), Some(Action::StartRollCall(tok(2, 5))));
    assert_eq!(q.dequeue(), None);
}

#[test]
fn fifo_interleaved_producers() {
    // Two producers tag their actions with their own monotonically
    // increasing sequence numbers (the episode field); the consumer must
    // see the exact global acceptance order, so each producer's numbers
    // appear in increasing order in the output.
    let mut q = ActionQueue::new();
    let producer_one = [tok(1, 100), tok(1, 101), tok(1, 102)];
    let producer_two = [tok(2, 200), tok(2, 201)];
    // one interleaving of the two producers' enqueues
    let accepted = [
        producer_one[0],
        producer_two[0],
        producer_one[1],
        producer_one[2],
        producer_two[1],
    ];
    for t in accepted {
        q.enqueue(Action::StartRollCall(t)).unwrap();
    }
    let out = q.drain();
    assert_eq!(q.len(), 0);
    let expected: Vec<Action> = accepted.iter().map(|t| Action::StartRollCall(*t)).collect();
    assert_eq!(out, expected);
    // per-producer order is preserved
    let ones: Vec<u64> = out
        .iter()
        .filter_map(|a| match a {
            Action::StartRollCall(t) if t.origin.host == 1 => Some(t.episode),
            _ => None,
        })
        .collect();
    assert_eq!(ones, vec![100, 101, 102]);
    let twos: Vec<u64> = out
        .iter()
        .filter_map(|a| match a {
            Action::StartRollCall(t) if t.origin.host == 2 => Some(t.episode),
            _ => None,
        })
        .collect();
    assert_eq!(twos, vec![200, 201]);
}

#[test]
fn closed_queue_rejects_producers_but_drains() {
    let mut q = ActionQueue::new();
    q.enqueue(Action::MarkItself(tok(3, 9))).unwrap();
    q.close();
    assert_eq!(
        q.enqueue(Action::StartRollCall(tok(3, 10))),
        Err(RingError::QueueClosed)
    );
    // what was accepted before the close is still drained, in order
    assert_eq!(q.dequeue(), Some(Action::MarkItself(tok(3, 9))));
    assert_eq!(q.dequeue(), None);
}
