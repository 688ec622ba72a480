//! The listener: turns what the notification subscription yields into
//! fetch cycles, one per notification, until the subscription fails or
//! ends.
//!
//! A notification is whatever message the subscription lets through. It
//! says that the node's chain tip has changed and nothing more: the
//! listener is generic in the message and so cannot look at it.

use crate::error::{recv_error_code, BlockTemplateError};
use vstd::prelude::*;

verus! {

/// What the caller does after asking the subscription for its next item.
#[derive(Debug)]
pub enum ListenerAction {
    /// Run one fetch cycle to its end, then ask for the next item.
    Fetch,
    /// Stop listening and return this.
    Return(Result<(), BlockTemplateError>),
}

/// The listener's rule for one item of the subscription: a notification
/// starts a fetch cycle, a transport error ends the listener with that
/// error's code, and the end of the subscription ends it without an error.
pub open spec fn listener_step<M>(item: Option<Result<M, async_zmq::RecvError>>)
    -> ListenerAction {
    match item {
        Some(Ok(_)) => ListenerAction::Fetch,
        Some(Err(error)) => ListenerAction::Return(
            Err(BlockTemplateError::Zmq(recv_error_code(error))),
        ),
        None => ListenerAction::Return(Ok(())),
    }
}

/// Decides what follows the item the subscription has just yielded: `None`
/// if it has ended, the notification or the transport error otherwise.
pub fn listener<M>(item: Option<Result<M, async_zmq::RecvError>>) -> (action: ListenerAction)
    ensures
        action == listener_step(item),
{
    match item {
        Some(Ok(_)) => ListenerAction::Fetch,
        Some(Err(error)) => ListenerAction::Return(Err(BlockTemplateError::from(error))),
        None => ListenerAction::Return(Ok(())),
    }
}

/// What a listener has done by the time it returns.
pub struct ListenerRun {
    /// Number of fetch cycles it started.
    pub fetch_cycles: nat,
    /// What it returned.
    pub result: Result<(), BlockTemplateError>,
}

/// Runs a listener over a subscription that yields `items` and then ends.
/// Items after the first transport error are never asked for.
pub open spec fn listener_run<M>(items: Seq<Result<M, async_zmq::RecvError>>) -> ListenerRun
    decreases items.len(),
{
    if items.len() > 0 && listener_step(Some(items[0])) is Fetch {
        let rest = listener_run(items.skip(1));
        ListenerRun { fetch_cycles: rest.fetch_cycles + 1, result: rest.result }
    } else {
        let last = if items.len() > 0 {
            Some(items[0])
        } else {
            None
        };
        ListenerRun { fetch_cycles: 0, result: listener_step(last)->Return_0 }
    }
}

/// Every notification starts a fetch cycle of its own, whatever it
/// carries: a subscription that yields `n` notifications and then ends
/// makes the listener start exactly `n` fetch cycles and return without an
/// error.
pub proof fn law_one_fetch_per_notification<M>(items: Seq<Result<M, async_zmq::RecvError>>)
    requires
        forall|i: int| 0 <= i < items.len() ==> (#[trigger] items[i]) is Ok,
    ensures
        listener_run(items) == (ListenerRun { fetch_cycles: items.len(), result: Ok(()) }),
    decreases items.len(),
{
    if items.len() > 0 {
        let rest = items.skip(1);
        assert(items[0] is Ok);
        assert forall|i: int| 0 <= i < rest.len() implies (#[trigger] rest[i]) is Ok by {
            assert(items[i + 1] is Ok);
        }
        law_one_fetch_per_notification(rest);
    }
}

/// The first transport error ends the listener: it has started one fetch
/// cycle for each notification before the error and returns the error's
/// code.
pub proof fn law_transport_error_is_fatal<M>(
    items: Seq<Result<M, async_zmq::RecvError>>,
    n: nat,
)
    requires
        n < items.len(),
        forall|i: int| 0 <= i < n ==> (#[trigger] items[i]) is Ok,
        items[n as int] is Err,
    ensures
        listener_run(items) == (ListenerRun {
            fetch_cycles: n,
            result: Err(BlockTemplateError::Zmq(recv_error_code(items[n as int]->Err_0))),
        }),
    decreases n,
{
    if n > 0 {
        let rest = items.skip(1);
        assert(items[0] is Ok);
        assert forall|i: int| 0 <= i < n - 1 implies (#[trigger] rest[i]) is Ok by {
            assert(items[i + 1] is Ok);
        }
        law_transport_error_is_fatal(rest, (n - 1) as nat);
    }
}

} // verus!
