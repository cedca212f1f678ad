//! Lifecycle manager and forwarding rules for a set of independently
//! configured local reverse-proxy endpoints.
//!
//! The library keeps the decisions: which configurations are stored, which
//! endpoints run, how a forwarded request's headers are rewritten, and how a
//! failure is reported. Sockets, timers and the configuration file are driven
//! by the application around it.

pub mod text;
pub mod error;
pub mod config;
pub mod store;
pub mod forward;
pub mod registry;
pub mod cert;
