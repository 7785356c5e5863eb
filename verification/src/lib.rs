//! Resilience layer of a credential helper: a circuit breaker that gates calls
//! to a credential endpoint, a single-record credential cache, and the retry
//! policy that ties both to the network call.
//!
//! Nothing here touches a file or the network. Whoever does is told what to
//! ask for next, and reports how it went: `file_lock` for the shared files,
//! `fetch` for the calls to the endpoint.

pub mod aws_iot;
pub mod cache;
pub mod circuit_breaker;
pub mod clock;
pub mod config;
pub mod error;
pub mod fetch;
pub mod file_lock;
pub mod filesystem;
pub mod json;
pub mod logging;
pub mod text;
