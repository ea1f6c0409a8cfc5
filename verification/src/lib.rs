//! Verified core of a playlist-migration tool.
//!
//! The library covers the parts of the flow that decide and compute:
//! PKCE code generation, the OAuth callback and its state machine, a
//! leaky-bucket rate limiter, cursor-based pagination, request-body and
//! URL construction, and extraction of an identifier from a raw search
//! response.  Network and process I/O stay outside the library.

pub mod auth;
pub mod bytes;
pub mod encode;
pub mod env;
pub mod extract;
pub mod migrate;
pub mod paged;
pub mod pkce;
pub mod query;
pub mod rate_limit;
pub mod youtube;
