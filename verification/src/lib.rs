//! Admission and routing core of a multi-tenant object-storage gateway.
//!
//! The library decides whether and where a request may proceed: structural
//! validation, identity resolution, sliding-window rate limiting, role-based
//! access control, and bucket-to-account resolution. All storage and HTTP
//! I/O lives outside the library; every function here is verified.

pub mod auth;
pub mod config;
pub mod digits;
pub mod error;
pub mod listing;
pub mod pipeline;
pub mod rate;
pub mod text;
pub mod validate;

use vstd::prelude::*;

verus! {

/// Default ceiling on a declared request payload, in bytes (100 MiB).
pub fn default_max_file_size() -> (n: u64)
    ensures
        n == 104857600u64,
{
    104857600
}

} // verus!
