//! Keeps a local consumer supplied with the newest mining block template of
//! a Bitcoin node.
//!
//! The node pushes a notification whenever its chain tip changes; every
//! notification starts one fetch cycle that asks the node for a fresh
//! template, retrying with exponential backoff while the call fails. Fetched
//! templates cross a delivery channel to a consumer that only lets strictly
//! newer heights through.
//!
//! Sockets, sleeping and the channel belong to the caller. This crate holds
//! the decisions: each component is a transition function from its state and
//! the latest event to the next state and the action the caller must
//! perform, together with a model of whole runs and the properties proved
//! of it.

pub mod backoff;
pub mod connector;
pub mod consumer;
pub mod error;
pub mod fetcher;
pub mod listener;
pub mod rpc;
pub mod snapshot;
pub mod text;

pub use crate::backoff::{backoff_delay, BACKOFF_BASE, MAX_RPC_FAILURES};
pub use crate::connector::{zmq_setup, SubscribeRequest};
pub use crate::consumer::{consumer, StalenessFilter};
pub use crate::error::BlockTemplateError;
pub use crate::fetcher::{fetcher, FetchCycle, FetchStep, EXIT_RETRIES_EXHAUSTED};
pub use crate::listener::{listener, ListenerAction};
pub use crate::rpc::{rpc_setup, setup, template_request, RpcAuth, RpcEndpoint, TemplateRequest};
pub use crate::snapshot::TemplateSnapshot;
