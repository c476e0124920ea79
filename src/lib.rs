//! Balance resolution for a terminal statusline: normalization of upstream
//! billing payloads into one fixed-point currency value, a per-process memo
//! and a durable last-known-good record, and the fallback chain between them.
//!
//! Every currency amount in this crate is an integer count of millionths of
//! the display currency (micro units).

pub mod api;
pub mod codec;
pub mod cache;
pub mod record;
pub mod client;
pub mod resolver;
pub mod config;
pub mod credentials;
pub mod segments;
