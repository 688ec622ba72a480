use async_zmq::{zmq, RecvError, SocketError, SubscribeError};
use block_template::BlockTemplateError;

fn zmq_code(error: BlockTemplateError) -> zmq::Error {
    match error {
        BlockTemplateError::Zmq(code) => code,
        other => panic!("expected a transport error, got {:?}", other),
    }
}

#[test]
fn socket_errors_become_their_codes() {
    assert_eq!(zmq_code(SocketError::InvalidSocketType.into()), zmq::Error::EINVAL);
    assert_eq!(zmq_code(SocketError::InvalidContext.into()), zmq::Error::EFAULT);
    assert_eq!(zmq_code(SocketError::SocketLimitReached.into()), zmq::Error::EMFILE);
    assert_eq!(zmq_code(SocketError::ContextTerminated.into()), zmq::Error::ETERM);
    assert_eq!(zmq_code(SocketError::Unexpected(zmq::Error::ENOMEM).into()), zmq::Error::ENOMEM);
}

#[test]
fn subscribe_errors_become_their_codes() {
    assert_eq!(zmq_code(SubscribeError::ContextTerminated.into()), zmq::Error::ETERM);
    assert_eq!(zmq_code(SubscribeError::Interrupted.into()), zmq::Error::EINTR);
    assert_eq!(zmq_code(SubscribeError::Unexpected(zmq::Error::ENOTSOCK).into()), zmq::Error::ENOTSOCK);
}

#[test]
fn recv_errors_become_their_codes() {
    assert_eq!(zmq_code(RecvError::ContextTerminated.into()), zmq::Error::ETERM);
    assert_eq!(zmq_code(RecvError::Interrupted.into()), zmq::Error::EINTR);
    assert_eq!(zmq_code(RecvError::Unexpected(zmq::Error::EAGAIN).into()), zmq::Error::EAGAIN);
}

#[test]
fn transport_codes_are_kept() {
    for code in [zmq::Error::ECONNREFUSED, zmq::Error::EADDRNOTAVAIL, zmq::Error::EPROTONOSUPPORT] {
        assert_eq!(zmq_code(code.into()), code);
    }
}

#[test]
fn client_errors_are_kept() {
    let error = BlockTemplateError::from(bitcoincore_rpc::Error::ReturnedError(String::from("loading")));
    match error {
        BlockTemplateError::Rpc(bitcoincore_rpc::Error::ReturnedError(text)) => assert_eq!(text, "loading"),
        other => panic!("expected a client error, got {:?}", other),
    }
}

#[test]
fn errors_show_their_cause() {
    let zmq = BlockTemplateError::Zmq(zmq::Error::ETERM);
    assert!(format!("{:?}", zmq).starts_with("Zmq("));
    let rpc = BlockTemplateError::Rpc(bitcoincore_rpc::Error::UnexpectedStructure);
    assert_eq!(format!("{:?}", rpc), "Rpc(UnexpectedStructure)");
}
