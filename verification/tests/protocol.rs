use accord::bucket::Bucket;
use accord::network::{
    expect_lookup_result, expect_no_response, expect_predecessor_response,
    expect_successor_response, Message, MessageError,
};
use accord::node::{interpret_storage_get, interpret_storage_put, HandleOutcome, Neighbor, Node};
use accord::routing::id::Identifier;

fn addr(last_octet: u8, port: u16) -> accord::node::Addr {
    let ip_lo = (127u64 << 24) | (last_octet as u64);
    accord::node::Addr { v6: false, ip_hi: 0, ip_lo, port }
}

fn some_neighbor() -> Neighbor {
    Neighbor::new(addr(7, 9007), addr(7, 8007))
}

#[test]
fn lookup_result_is_extracted() {
    let sent = Message::Lookup(Identifier(5));
    let n = some_neighbor();
    assert_eq!(
        expect_lookup_result(sent, Some(Message::LookupResult(n))),
        Ok(n)
    );
}

#[test]
fn wrong_variant_is_unexpected() {
    let sent = Message::Lookup(Identifier(5));
    assert_eq!(
        expect_lookup_result(sent, Some(Message::Pong)),
        Err(MessageError::UnexpectedResponse(sent, Some(Message::Pong)))
    );
}

#[test]
fn missing_answer_is_unexpected() {
    let sent = Message::GetSuccessor;
    assert_eq!(
        expect_successor_response(sent, None),
        Err(MessageError::UnexpectedResponse(sent, None))
    );
    let n = some_neighbor();
    assert_eq!(
        expect_successor_response(sent, Some(Message::SuccessorResponse(n))),
        Ok(n)
    );
}

#[test]
fn predecessor_answer_may_be_empty() {
    let sent = Message::GetPredecessor;
    assert_eq!(
        expect_predecessor_response(sent, Some(Message::PredecessorResponse(None))),
        Ok(None)
    );
    let n = some_neighbor();
    assert_eq!(
        expect_predecessor_response(
            sent,
            Some(Message::PredecessorResponse(Some(n)))
        ),
        Ok(Some(n))
    );
}

#[test]
fn fire_and_forget_expects_silence() {
    let n = some_neighbor();
    let sent = Message::Notify(n);
    assert_eq!(expect_no_response(sent, None), Ok(()));
    assert_eq!(
        expect_no_response(sent, Some(Message::Pong)),
        Err(MessageError::UnexpectedResponse(sent, Some(Message::Pong)))
    );
}

#[test]
fn ping_is_answered_with_pong() {
    let mut n = Node::new(addr(1, 9001), addr(1, 8001));
    assert_eq!(
        n.handle_message(Message::Ping),
        Ok(HandleOutcome::Reply(Message::Pong))
    );
}

#[test]
fn get_predecessor_and_successor_are_answered() {
    let mut n = Node::new(addr(1, 9001), addr(1, 8001));
    let p = some_neighbor();
    n.predecessor = Some(p);
    assert_eq!(
        n.handle_message(Message::GetPredecessor),
        Ok(HandleOutcome::Reply(Message::PredecessorResponse(Some(p))))
    );
    let succ = n.successor;
    assert_eq!(
        n.handle_message(Message::GetSuccessor),
        Ok(HandleOutcome::Reply(Message::SuccessorResponse(succ)))
    );
}

#[test]
fn notify_fills_empty_predecessor() {
    let mut n = Node::new(addr(1, 9001), addr(1, 8001));
    let p = some_neighbor();
    assert_eq!(
        n.handle_message(Message::Notify(p)),
        Ok(HandleOutcome::NoReply)
    );
    assert_eq!(n.predecessor, Some(p));
}

#[test]
fn notify_keeps_better_predecessor() {
    // on the ring ... p(5) ... n(10): a hint with id 3 is outside the
    // arc (5, 10] and is ignored; a hint with id 7 replaces p
    let mut n = Node::new(addr(1, 9001), addr(1, 8001));
    n.id = Identifier(10);
    let mut p = some_neighbor();
    p.id = Identifier(5);
    n.predecessor = Some(p);
    let mut worse = Neighbor::new(addr(8, 9008), addr(8, 8008));
    worse.id = Identifier(3);
    n.handle_message(Message::Notify(worse)).unwrap();
    assert_eq!(n.predecessor, Some(p));
    let mut better = Neighbor::new(addr(9, 9009), addr(9, 8009));
    better.id = Identifier(7);
    n.handle_message(Message::Notify(better)).unwrap();
    assert_eq!(n.predecessor, Some(better));
}

#[test]
fn leave_successor_replaces_or_reverts_to_self() {
    let mut n = Node::new(addr(1, 9001), addr(1, 8001));
    let other = some_neighbor();
    n.successor = other;
    // the named replacement differs from the current successor: take it
    let replacement = Neighbor::new(addr(8, 9008), addr(8, 8008));
    n.handle_message(Message::LeaveSuccessor(replacement)).unwrap();
    assert_eq!(n.successor, replacement);
    // a replacement equal to the current successor means: take myself
    n.handle_message(Message::LeaveSuccessor(replacement)).unwrap();
    assert_eq!(n.successor, n.self_neighbor());
}

#[test]
fn leave_predecessor_replaces_or_reverts_to_self() {
    let mut n = Node::new(addr(1, 9001), addr(1, 8001));
    let p = some_neighbor();
    n.predecessor = Some(p);
    // a replacement equal to the current predecessor means: take myself
    n.handle_message(Message::LeavePredecessor(Some(p))).unwrap();
    assert_eq!(n.predecessor, Some(n.self_neighbor()));
    // otherwise the named replacement is taken, absent included
    let q = Neighbor::new(addr(8, 9008), addr(8, 8008));
    n.handle_message(Message::LeavePredecessor(Some(q))).unwrap();
    assert_eq!(n.predecessor, Some(q));
    n.handle_message(Message::LeavePredecessor(None)).unwrap();
    assert_eq!(n.predecessor, None);
}

#[test]
fn crashed_peer_refuses_everything() {
    let mut n = Node::new(addr(1, 9001), addr(1, 8001));
    n.sim_crash().unwrap();
    for msg in [
        Message::Ping,
        Message::GetPredecessor,
        Message::GetSuccessor,
        Message::Lookup(Identifier(1)),
        Message::Notify(some_neighbor()),
    ] {
        assert_eq!(n.handle_message(msg), Err(MessageError::IOError));
    }
    n.sim_recover().unwrap();
    assert_eq!(
        n.handle_message(Message::Ping),
        Ok(HandleOutcome::Reply(Message::Pong))
    );
}

#[test]
fn storage_get_statuses() {
    assert_eq!(
        interpret_storage_get(200, b"value".to_vec()),
        Ok(Some(b"value".to_vec()))
    );
    assert_eq!(interpret_storage_get(404, Vec::new()), Ok(None));
    assert_eq!(
        interpret_storage_get(500, Vec::new()),
        Err(MessageError::HTTPStatusError(500))
    );
}

#[test]
fn storage_put_statuses() {
    assert_eq!(interpret_storage_put(200), Ok(()));
    assert_eq!(
        interpret_storage_put(503),
        Err(MessageError::HTTPStatusError(503))
    );
}

#[test]
fn buckets_reduce_modulo_count() {
    let b = Bucket::<16>::from_value(21);
    assert_eq!(b.0, 5);
    assert_eq!(b.add(10).0, 15);
    assert_eq!(b.add(11).0, 0);
    assert_eq!(Bucket::<16>::from_value(16).0, 0);
}
