use may_rpc::client::{decode_error_to_error, read_failure_to_error, wait_outcome};
use may_rpc::{
    DecodeError, Error, Frame, ReqBuf, StreamClient, WaiterTable, WriteQueue,
};

fn frame_with_id(id: u64) -> Frame {
    Frame::from_parts(id, vec![1, 2, 3])
}

#[test]
fn waiter_delivers_by_id() {
    let mut table = WaiterTable::new();
    let a = table.register();
    let b = table.register();
    assert_ne!(a, b);
    // deliver b's response first, then a's: each caller still gets its own
    assert!(table.deposit(frame_with_id(b)));
    assert!(table.deposit(frame_with_id(a)));
    let fa = table.take(a).unwrap();
    let fb = table.take(b).unwrap();
    assert_eq!(fa.id, a);
    assert_eq!(fb.id, b);
}

#[test]
fn waiter_ids_unique_among_pending() {
    let mut table = WaiterTable::new();
    let mut ids = Vec::new();
    for _ in 0..100 {
        ids.push(table.register());
    }
    let mut sorted = ids.clone();
    sorted.sort();
    sorted.dedup();
    assert_eq!(sorted.len(), ids.len());
}

#[test]
fn waiter_slot_is_one_shot() {
    let mut table = WaiterTable::new();
    let id = table.register();
    assert!(table.deposit(frame_with_id(id)));
    // a second response for the same id is dropped
    assert!(!table.deposit(frame_with_id(id)));
    assert!(table.take(id).is_some());
    // consumed: nothing left, and further deposits are dropped
    assert!(table.take(id).is_none());
    assert!(!table.deposit(frame_with_id(id)));
}

#[test]
fn deposit_without_waiter_is_dropped() {
    let mut table = WaiterTable::new();
    assert!(!table.deposit(frame_with_id(7)));
}

#[test]
fn timeout_then_late_response_dropped() {
    let mut table = WaiterTable::new();
    let id = table.register();
    // nothing arrived in time: the wait ends empty-handed ...
    let outcome = table.take(id);
    assert!(outcome.is_none());
    match wait_outcome(outcome) {
        Err(Error::Timeout) => {},
        other => panic!("unexpected: {:?}", other),
    }
    // ... the registration is abandoned, and the late response vanishes
    table.cancel(id);
    assert!(!table.deposit(frame_with_id(id)));
    // a later call on the same table works
    let id2 = table.register();
    assert!(table.deposit(frame_with_id(id2)));
    match wait_outcome(table.take(id2)) {
        Ok(f) => assert_eq!(f.id, id2),
        other => panic!("unexpected: {:?}", other),
    }
}

#[test]
fn write_queue_emits_in_order_exactly_once() {
    let mut q = WriteQueue::new();
    q.push(vec![1, 2, 3]);
    q.push(vec![]);
    q.push(vec![4]);
    q.push(vec![5, 6]);
    let mut acc = Vec::new();
    q.drain(&mut acc);
    assert_eq!(acc, vec![1, 2, 3, 4, 5, 6]);
    assert_eq!(q.len(), 0);
    // a later batch goes behind what is already accumulated
    q.push(vec![7]);
    q.drain(&mut acc);
    assert_eq!(acc, vec![1, 2, 3, 4, 5, 6, 7]);
}

#[test]
fn stream_client_ids_are_sequential() {
    let mut client = StreamClient::new();
    assert_eq!(client.timeout_ms(), None);
    client.set_timeout(350);
    assert_eq!(client.timeout_ms(), Some(350));

    let mut req = ReqBuf::new();
    req.write_all(b"abc");
    let (id0, bytes0) = client.begin_call(req);
    assert_eq!(id0, 0);
    let frame = Frame::decode(&bytes0).unwrap();
    assert_eq!(frame.id, 0);
    assert_eq!(frame.decode_req(), b"abc");

    let (id1, _bytes1) = client.begin_call(ReqBuf::new());
    assert_eq!(id1, 1);
}

#[test]
fn stream_client_discards_stale_responses() {
    // responses to earlier, abandoned calls are skipped until ours arrives
    assert!(StreamClient::accept_response(5, frame_with_id(4)).is_none());
    assert!(StreamClient::accept_response(5, frame_with_id(6)).is_none());
    let got = StreamClient::accept_response(5, frame_with_id(5)).unwrap();
    assert_eq!(got.id, 5);
}

#[test]
fn read_failures_split_into_timeout_and_io() {
    let timed = std::io::Error::new(std::io::ErrorKind::TimedOut, "deadline elapsed");
    match read_failure_to_error(true, timed) {
        Error::Timeout => {},
        other => panic!("unexpected: {:?}", other),
    }
    let broken = std::io::Error::new(std::io::ErrorKind::BrokenPipe, "pipe closed");
    match read_failure_to_error(false, broken) {
        Error::Io(e) => assert_eq!(e.kind(), std::io::ErrorKind::BrokenPipe),
        other => panic!("unexpected: {:?}", other),
    }
}

#[test]
fn decode_errors_surface_as_client_deserialize() {
    match decode_error_to_error(DecodeError::UnexpectedEof) {
        Error::ClientDeserialize(m) => assert_eq!(m, "unexpected end of stream"),
        other => panic!("unexpected: {:?}", other),
    }
    match decode_error_to_error(DecodeError::InvalidInput) {
        Error::ClientDeserialize(m) => assert_eq!(m, "frame too large"),
        other => panic!("unexpected: {:?}", other),
    }
}
