//! Turns remotely hosted SVG documents into fixed-size PNG images.
//!
//! The library holds the decisions of the request pipeline: dimension
//! resolution, cache keys, admission, bounded retrieval of the source
//! document, sanitization, aspect-preserving fit geometry and the
//! orchestration of those stages. The caller performs the network and
//! store round trips and feeds their outcomes back in.
pub mod cache;
pub mod config;
pub mod error;
pub mod fetch;
pub mod health;
pub mod pipeline;
pub mod rate_limit;
pub mod render;
pub mod sanitize;
pub mod text;
