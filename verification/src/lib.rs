//! Helpers that use the `Retry-After` family of HTTP headers to decide how long
//! a client waits before it retries a request.
//!
//! The library is split in four parts:
//! - [`time`]: instants and durations, with exact arithmetic on them;
//! - [`text`]: the textual forms of header values (visible ASCII, decimal integers);
//! - [`header_map`]: the `http` crate's header maps and values, as the library reads them;
//! - [`header`]: the headers that say when to retry, and what they mean;
//! - [`policy`]: the decisions of the retry policy and its per-task store.

pub mod time;
pub mod text;
pub mod header_map;
pub mod header;
pub mod policy;
