//! Admission, filtering and forwarding rules of a reverse-proxy gateway
//! that stands in front of a single upstream origin.

pub mod admission;
pub mod clock;
pub mod config;
pub mod filter;
pub mod headers;
pub mod http;
pub mod pipeline;
pub mod proxy;
pub mod ratelimit;
pub mod rejection;
pub mod store;
pub mod tcp;
pub mod text;
