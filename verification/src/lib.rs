//! Verified core of the SPECTRE fleet services: identities, errors,
//! configuration, the proxy's circuit breaker and authentication
//! decisions, event routing, and the secrets engine.
pub mod auth;
pub mod bus;
pub mod circuit;
pub mod config;
pub mod encoding;
pub mod error;
pub mod events;
pub mod observability;
pub mod proxy;
pub mod secrets;
pub mod text;
pub mod tls;
pub mod types;
