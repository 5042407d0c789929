//! Client-side logic of an Azure Event Hubs client: error classification,
//! retry policy, event positions and consumer progress, event batches,
//! message properties, claims-based-security refresh scheduling and the
//! lifecycle of a (possibly shared) connection scope.
//!
//! Everything here is computation over plain values (URL normalization goes
//! through the `url` crate); the transport (AMQP sessions and links, timers,
//! token credentials) is driven around it, asking this library what to do.

pub mod error;
pub mod retry;
pub mod text;
pub mod position;
pub mod consumer;
pub mod batch;
pub mod message;
pub mod cbs;
pub mod scope;
pub mod connection;
pub mod resource;
pub mod management;
pub mod connection_string;
pub mod hub_connection;
