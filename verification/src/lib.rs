//! Reconciliation engine of a cluster operator for Quake game servers.
//!
//! The operator watches two kinds of declared resources, Quake servers and
//! list servers, and keeps the children of each in the cluster: a workload,
//! a network endpoint and, for a Quake server, a configuration bundle.
//!
//! The engine decides; it never talks to the cluster itself.  A reconcile
//! attempt is a conversation: the engine hands out one [`step::Request`] at a
//! time, the caller performs it against the cluster and reports the
//! [`step::Reply`], until the engine returns a scheduling directive or an
//! error.  [`laws`] and [`cluster`] state what holds of every such
//! conversation.

pub mod directive;
pub mod error;
pub mod meta;
pub mod child;
pub mod step;
pub mod applier;
pub mod finalizer;
pub mod reconciler;
pub mod list_server;
pub mod quake_server;
pub mod watch;
pub mod list_server_controller;
pub mod quake_server_controller;
pub mod controller;
pub mod laws;
pub mod cluster;
