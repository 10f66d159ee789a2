//! Structural decoding of session tokens and the rules of the cache lookup
//! that answers whether a token's session is still active.
//!
//! A token is split into its three segments, its header and claims are
//! decoded, and a wildcard pattern is derived from the claims' identifiers.
//! The pattern is scanned for in the store page by page; this library decides
//! what is asked next, the program around it does the asking.
//!
//! Nothing here checks a signature: a decoded token says what the caller
//! presented, not that it is authentic.

pub mod algorithms;
pub mod config;
pub mod decode;
pub mod errors;
pub mod fixtures;
pub mod header;
pub mod jwt;
pub mod lookup;
pub mod pool;
pub mod serialize;
pub mod text;
