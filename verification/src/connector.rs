//! The notification side of the node: the subscription that tells the
//! listener about new chain tips.

use crate::rpc::{append_port, host_port};
use vstd::prelude::*;

verus! {

/// The transport prefix of a notification endpoint.
pub open spec fn tcp_scheme() -> Seq<char> {
    seq!['t', 'c', 'p', ':', '/', '/']
}

/// The one topic the listener subscribes to.
pub open spec fn hashblock_topic() -> Seq<char> {
    seq!['h', 'a', 's', 'h', 'b', 'l', 'o', 'c', 'k']
}

/// `tcp://host:port`, the port in decimal notation.
pub open spec fn zmq_endpoint(host: Seq<char>, port: u16) -> Seq<char> {
    tcp_scheme() + host_port(host, port)
}

/// What the caller sets up to be notified: a subscriber socket connected
/// to `endpoint` that lets through only the messages published on `topic`.
#[derive(Clone, Debug, PartialEq, Eq)]
pub struct SubscribeRequest {
    pub endpoint: String,
    pub topic: String,
}

/// The subscription to the chain-tip notifications of a node at `bitcoin`.
/// Its topic is `hashblock` whatever the node, so that every message that
/// comes through is a notification of a new tip.
pub fn zmq_setup(bitcoin: String, zmq_port: u16) -> (request: SubscribeRequest)
    ensures
        request.endpoint@ == zmq_endpoint(bitcoin@, zmq_port),
        request.topic@ == hashblock_topic(),
{
    proof {
        reveal_strlit("tcp://");
        reveal_strlit("hashblock");
    }
    let mut endpoint = String::from_str("tcp://");
    assert(endpoint@ =~= tcp_scheme());
    endpoint.append(bitcoin.as_str());
    append_port(&mut endpoint, zmq_port);
    assert(endpoint@ =~= zmq_endpoint(bitcoin@, zmq_port));
    let topic = String::from_str("hashblock");
    assert(topic@ =~= hashblock_topic());
    SubscribeRequest { endpoint, topic }
}

} // verus!
