use async_zmq::{zmq, RecvError};
use block_template::{listener, BlockTemplateError, ListenerAction};

#[test]
fn notification_starts_a_fetch() {
    assert!(matches!(listener(Some(Ok(()))), ListenerAction::Fetch));
}

#[test]
fn notification_payload_plays_no_part() {
    assert!(matches!(listener(Some(Ok(Vec::<u8>::new()))), ListenerAction::Fetch));
    assert!(matches!(listener(Some(Ok(vec![b"hashblock".to_vec(), vec![0; 32]]))), ListenerAction::Fetch));
    assert!(matches!(listener(Some(Ok("anything"))), ListenerAction::Fetch));
}

#[test]
fn every_notification_starts_its_own_fetch() {
    for count in [0usize, 1, 2, 17] {
        let mut fetches = 0;
        let mut items = vec![(); count].into_iter();
        let result = loop {
            match listener(items.next().map(Ok)) {
                ListenerAction::Fetch => fetches += 1,
                ListenerAction::Return(result) => break result,
            }
        };
        assert_eq!(fetches, count);
        assert!(result.is_ok());
    }
}

#[test]
fn end_of_subscription_returns_without_error() {
    assert!(matches!(listener::<()>(None), ListenerAction::Return(Ok(()))));
}

#[test]
fn transport_error_is_returned_as_its_code() {
    let cases = [
        (RecvError::ContextTerminated, zmq::Error::ETERM),
        (RecvError::Interrupted, zmq::Error::EINTR),
        (RecvError::Unexpected(zmq::Error::EAGAIN), zmq::Error::EAGAIN),
        (RecvError::Unexpected(zmq::Error::ENOTSOCK), zmq::Error::ENOTSOCK),
    ];
    for (error, code) in cases {
        match listener::<()>(Some(Err(error))) {
            ListenerAction::Return(Err(BlockTemplateError::Zmq(returned))) => {
                assert_eq!(returned, code)
            }
            other => panic!("expected the transport error, got {:?}", other),
        }
    }
}

#[test]
fn transport_error_stops_the_listener() {
    let items = vec![
        Ok(1u8),
        Ok(2),
        Err(RecvError::Unexpected(zmq::Error::EHOSTUNREACH)),
        Ok(3),
    ];
    let mut fetches = 0;
    let mut items = items.into_iter();
    let result = loop {
        match listener(items.next()) {
            ListenerAction::Fetch => fetches += 1,
            ListenerAction::Return(result) => break result,
        }
    };
    assert_eq!(fetches, 2);
    assert!(matches!(result, Err(BlockTemplateError::Zmq(zmq::Error::EHOSTUNREACH))));
    assert_eq!(items.len(), 1);
}
