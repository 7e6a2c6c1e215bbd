//! Tunnel broker library: the request-correlation table, the proxy and
//! websocket decision logic, header and token rules, and the wire types
//! that the server and the local agent exchange.

pub mod request_id;
pub mod pending;
pub mod headers;
pub mod protocol;
pub mod proxy;
pub mod auth;
pub mod client;
pub mod config;
pub mod cli;
