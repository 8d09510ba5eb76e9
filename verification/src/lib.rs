//! A verified model of a bidirectional-streaming echo client.
//!
//! The library covers the client's logic: resolving a credential and an
//! endpoint from configuration, deciding transport security, attaching the
//! bearer credential to every outgoing call, interpreting the unary probe,
//! and orchestrating one duplex stream — an outbound producer and an inbound
//! consumer sharing a bounded queue, joined to a single outcome.
//! The surrounding process (environment, sockets, the RPC transport) lives
//! outside the library and hands it plain values.

pub mod auth;
pub mod config;
pub mod decimal;
pub mod endpoint;
pub mod error;
pub mod messages;
pub mod probe;
pub mod queue;
pub mod stream;
