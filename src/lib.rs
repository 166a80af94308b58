//! Core of a file-identifier probing client: identifier generation, request
//! construction, response classification, the session-credential lifecycle
//! and throughput statistics. Network, terminal and environment access live
//! with the caller.

pub mod identifier;
pub mod request;
pub mod config;
pub mod stats;
pub mod probe;
pub mod whitespace;
