//! Errors that end the pipeline, and how the errors of the notification
//! transport turn into them.

use vstd::prelude::*;

verus! {

/// `bitcoincore_rpc::Error`, carried through as an opaque value.
#[verifier::external_type_specification]
#[verifier::external_body]
pub struct ExRpcError(bitcoincore_rpc::Error);

/// `zmq::Error` as `async_zmq` exports it: one variant for each error code
/// of the transport.
#[verifier::external_type_specification]
pub struct ExZmqError(async_zmq::zmq::Error);

/// `async_zmq::SocketError`: why a socket could not be created.
#[verifier::external_type_specification]
pub struct ExSocketError(async_zmq::SocketError);

/// `async_zmq::SubscribeError`: why a topic could not be subscribed to.
#[verifier::external_type_specification]
pub struct ExSubscribeError(async_zmq::SubscribeError);

/// `async_zmq::RecvError`: why a message could not be received.
#[verifier::external_type_specification]
pub struct ExRecvError(async_zmq::RecvError);

/// The transport's error code for a socket that could not be created.
pub open spec fn socket_error_code(error: async_zmq::SocketError) -> async_zmq::zmq::Error {
    match error {
        async_zmq::SocketError::InvalidSocketType => async_zmq::zmq::Error::EINVAL,
        async_zmq::SocketError::InvalidContext => async_zmq::zmq::Error::EFAULT,
        async_zmq::SocketError::SocketLimitReached => async_zmq::zmq::Error::EMFILE,
        async_zmq::SocketError::ContextTerminated => async_zmq::zmq::Error::ETERM,
        async_zmq::SocketError::Unexpected(code) => code,
    }
}

/// The transport's error code for a topic that could not be subscribed to.
pub open spec fn subscribe_error_code(error: async_zmq::SubscribeError) -> async_zmq::zmq::Error {
    match error {
        async_zmq::SubscribeError::ContextTerminated => async_zmq::zmq::Error::ETERM,
        async_zmq::SubscribeError::Interrupted => async_zmq::zmq::Error::EINTR,
        async_zmq::SubscribeError::Unexpected(code) => code,
    }
}

/// The transport's error code for a message that could not be received.
pub open spec fn recv_error_code(error: async_zmq::RecvError) -> async_zmq::zmq::Error {
    match error {
        async_zmq::RecvError::ContextTerminated => async_zmq::zmq::Error::ETERM,
        async_zmq::RecvError::Interrupted => async_zmq::zmq::Error::EINTR,
        async_zmq::RecvError::Unexpected(code) => code,
    }
}

/// Calls `async_zmq`'s `From<SocketError> for zmq::Error`. Trusted: each
/// named variant becomes the error code it was made from (`EINVAL`,
/// `EFAULT`, `EMFILE`, `ETERM`), and `Unexpected` gives up the code it holds.
#[verifier::external_body]
fn zmq_error_from_socket(error: async_zmq::SocketError) -> (code: async_zmq::zmq::Error)
    ensures
        code == socket_error_code(error),
{
    async_zmq::zmq::Error::from(error)
}

/// Calls `async_zmq`'s `From<SubscribeError> for zmq::Error`. Trusted:
/// `ContextTerminated` becomes `ETERM`, `Interrupted` becomes `EINTR`, and
/// `Unexpected` gives up the code it holds.
#[verifier::external_body]
fn zmq_error_from_subscribe(error: async_zmq::SubscribeError) -> (code: async_zmq::zmq::Error)
    ensures
        code == subscribe_error_code(error),
{
    async_zmq::zmq::Error::from(error)
}

/// Calls `async_zmq`'s `From<RecvError> for zmq::Error`. Trusted:
/// `ContextTerminated` becomes `ETERM`, `Interrupted` becomes `EINTR`, and
/// `Unexpected` gives up the code it holds.
#[verifier::external_body]
fn zmq_error_from_recv(error: async_zmq::RecvError) -> (code: async_zmq::zmq::Error)
    ensures
        code == recv_error_code(error),
{
    async_zmq::zmq::Error::from(error)
}

/// Why the pipeline could not be set up or had to stop.
#[derive(Debug)]
pub enum BlockTemplateError {
    /// The request/response client could not be created.
    Rpc(bitcoincore_rpc::Error),
    /// The notification socket could not be set up, or failed while
    /// notifications were being received.
    Zmq(async_zmq::zmq::Error),
}

impl From<bitcoincore_rpc::Error> for BlockTemplateError {
    /// A client that could not be created.
    fn from(error: bitcoincore_rpc::Error) -> (converted: Self) {
        BlockTemplateError::Rpc(error)
    }
}

impl vstd::std_specs::convert::FromSpecImpl<bitcoincore_rpc::Error> for BlockTemplateError {
    open spec fn obeys_from_spec() -> bool {
        true
    }

    open spec fn from_spec(error: bitcoincore_rpc::Error) -> Self {
        BlockTemplateError::Rpc(error)
    }
}

impl From<async_zmq::zmq::Error> for BlockTemplateError {
    /// A socket that could not connect.
    fn from(error: async_zmq::zmq::Error) -> (converted: Self) {
        BlockTemplateError::Zmq(error)
    }
}

impl vstd::std_specs::convert::FromSpecImpl<async_zmq::zmq::Error> for BlockTemplateError {
    open spec fn obeys_from_spec() -> bool {
        true
    }

    open spec fn from_spec(error: async_zmq::zmq::Error) -> Self {
        BlockTemplateError::Zmq(error)
    }
}

impl From<async_zmq::SocketError> for BlockTemplateError {
    /// A socket that could not be created.
    fn from(error: async_zmq::SocketError) -> (converted: Self) {
        BlockTemplateError::Zmq(zmq_error_from_socket(error))
    }
}

impl vstd::std_specs::convert::FromSpecImpl<async_zmq::SocketError> for BlockTemplateError {
    open spec fn obeys_from_spec() -> bool {
        true
    }

    open spec fn from_spec(error: async_zmq::SocketError) -> Self {
        BlockTemplateError::Zmq(socket_error_code(error))
    }
}

impl From<async_zmq::SubscribeError> for BlockTemplateError {
    /// A topic that could not be subscribed to.
    fn from(error: async_zmq::SubscribeError) -> (converted: Self) {
        BlockTemplateError::Zmq(zmq_error_from_subscribe(error))
    }
}

impl vstd::std_specs::convert::FromSpecImpl<async_zmq::SubscribeError> for BlockTemplateError {
    open spec fn obeys_from_spec() -> bool {
        true
    }

    open spec fn from_spec(error: async_zmq::SubscribeError) -> Self {
        BlockTemplateError::Zmq(subscribe_error_code(error))
    }
}

impl From<async_zmq::RecvError> for BlockTemplateError {
    /// A notification that could not be received.
    fn from(error: async_zmq::RecvError) -> (converted: Self) {
        BlockTemplateError::Zmq(zmq_error_from_recv(error))
    }
}

impl vstd::std_specs::convert::FromSpecImpl<async_zmq::RecvError> for BlockTemplateError {
    open spec fn obeys_from_spec() -> bool {
        true
    }

    open spec fn from_spec(error: async_zmq::RecvError) -> Self {
        BlockTemplateError::Zmq(recv_error_code(error))
    }
}

} // verus!
