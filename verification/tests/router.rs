//! Router tests: classification, duplicates, buffering across rounds, and
//! the mapping of receive-side failures.
use frost_blueprint::rounds::IoError;
use frost_blueprint::rounds::delivery::MessageDestination;
use frost_blueprint::rounds::delivery::NetworkWrapper;
use frost_blueprint::rounds::delivery::Outgoing;
use frost_blueprint::rounds::trace::TraceLog;
use frost_blueprint::rounds::RecvError;
use frost_blueprint::rounds::router::MsgKind;
use frost_blueprint::rounds::router::RouteError;
use frost_blueprint::rounds::router::Router;

#[test]
fn duplicate_message_is_rejected() {
    let mut router = Router::new(0, 3);
    router.add_round(MsgKind::Broadcast);
    assert_eq!(router.receive(0, 1, MsgKind::Broadcast, vec![1]), Ok(()));
    assert_eq!(
        router.receive(0, 1, MsgKind::Broadcast, vec![2]),
        Err(RouteError::Duplicate)
    );
}

#[test]
fn classification_errors() {
    let mut router = Router::new(0, 3);
    router.add_round(MsgKind::Broadcast);
    assert_eq!(
        router.receive(1, 1, MsgKind::Broadcast, vec![]),
        Err(RouteError::UnknownRound)
    );
    assert_eq!(
        router.receive(0, 3, MsgKind::Broadcast, vec![]),
        Err(RouteError::SenderOutOfRange)
    );
    assert_eq!(
        router.receive(0, 0, MsgKind::Broadcast, vec![]),
        Err(RouteError::SelfMessage)
    );
    assert_eq!(
        router.receive(0, 1, MsgKind::P2p, vec![]),
        Err(RouteError::WrongType)
    );
}

#[test]
fn completion_and_take() {
    let mut router = Router::new(1, 3);
    router.add_round(MsgKind::Broadcast);
    assert!(!router.is_complete(0));
    assert_eq!(router.take_round(0), Err(RouteError::Incomplete));
    router.receive(0, 0, MsgKind::Broadcast, vec![10]).unwrap();
    assert!(!router.is_complete(0));
    router.receive(0, 2, MsgKind::Broadcast, vec![20]).unwrap();
    assert!(router.is_complete(0));
    let msgs = router.take_round(0).unwrap();
    assert_eq!(msgs, vec![(0u16, vec![10u8]), (2u16, vec![20u8])]);
    // The round is closed afterwards.
    assert_eq!(router.take_round(0), Err(RouteError::RoundClosed));
    assert_eq!(
        router.receive(0, 0, MsgKind::Broadcast, vec![11]),
        Err(RouteError::RoundClosed)
    );
}

#[test]
fn early_messages_are_buffered_across_rounds() {
    let mut router = Router::new(0, 2);
    router.add_round(MsgKind::Broadcast);
    router.add_round(MsgKind::P2p);
    // A round-two message arrives before round one completes: buffered.
    router.receive(1, 1, MsgKind::P2p, vec![2]).unwrap();
    router.receive(0, 1, MsgKind::Broadcast, vec![1]).unwrap();
    assert_eq!(router.take_round(0).unwrap(), vec![(1u16, vec![1u8])]);
    assert_eq!(router.take_round(1).unwrap(), vec![(1u16, vec![2u8])]);
}

#[test]
fn receive_error_mapping() {
    assert_eq!(
        IoError::receive_message(RecvError::Io("boom".to_string())),
        IoError::ReceiveMessage("boom".to_string())
    );
    assert_eq!(
        IoError::receive_message(RecvError::Eof),
        IoError::ReceiveMessageEof
    );
    assert_eq!(
        IoError::receive_message(RecvError::Route(RouteError::Duplicate)),
        IoError::RouteReceivedError(RouteError::Duplicate)
    );
    assert_eq!(
        IoError::send_message("down".to_string()),
        IoError::SendMessage("down".to_string())
    );
}

#[test]
fn delivery_queue_is_fifo_and_ids_are_monotone() {
    let mut net = NetworkWrapper::new(7);
    net.start_send(Outgoing {
        recipient: MessageDestination::AllParties,
        round: 0,
        payload: vec![1, 2],
    });
    net.start_send(Outgoing {
        recipient: MessageDestination::OneParty(3),
        round: 1,
        payload: vec![9],
    });
    let first = net.next_to_send().unwrap();
    assert_eq!(first.sender, 7);
    assert_eq!(first.recipient, None);
    assert_eq!(first.payload, vec![0, 1, 2]);
    let second = net.next_to_send().unwrap();
    assert_eq!(second.recipient, Some(3));
    assert_eq!(second.payload, vec![1, 9]);
    assert!(net.next_to_send().is_none());

    let a = net.accept(2, false, &vec![0, 5]).unwrap();
    assert_eq!(a.id, 0);
    assert_eq!(a.msg_type, MsgKind::Broadcast);
    assert_eq!(a.round, 0);
    assert_eq!(a.payload, vec![5]);
    let b = net.accept(2, true, &vec![1]).unwrap();
    assert_eq!(b.id, 1);
    assert_eq!(b.msg_type, MsgKind::P2p);
    assert_eq!(b.payload, Vec::<u8>::new());
    // An empty wire payload frames no message.
    assert!(net.accept(2, false, &Vec::new()).is_none());
}

#[test]
fn trace_log_records_order() {
    let mut log = TraceLog::new();
    log.protocol_begins();
    log.round_begins();
    log.stage("commit".to_string());
    log.send_msg();
    log.msg_sent();
    log.receive_msgs();
    log.msgs_received();
    log.named_round_begins("offline".to_string());
    log.protocol_ends();
    assert_eq!(log.len(), 9);
}
